use tic_tac_toe::factory::{Point, User};
use tic_tac_toe::subcmd::add::{add, add_parser, AddOptions};
use tic_tac_toe::subcmd::SubcmdOptions;

fn split_into_args(s: &str) -> Vec<String> {
    s.split(' ').map(String::from).collect()
}

fn add_options1() -> AddOptions {
    AddOptions {
        title: "title1".to_string(),
        description: "description1".to_string(),
        label: "label1".to_string(),
    }
}

#[test]
fn should_parse_short_options() {
    let args = split_into_args("-t title1 -d description1 -l label1");
    assert_eq!(add_parser(args), Ok(add_options1()));
}

#[test]
fn should_default_missing_optional_options() {
    let args = split_into_args("-t title1");
    assert_eq!(
        add_parser(args),
        Ok(AddOptions {
            title: "title1".to_string(),
            description: "".to_string(),
            label: "".to_string(),
        })
    );
}

#[test]
fn should_parse_long_options() {
    let args = split_into_args("--title title1 --description description1 --label label1");
    assert_eq!(add_parser(args), Ok(add_options1()));
}

#[test]
fn should_parse_mixed_options() {
    let args = split_into_args("-t title1 --description description1 -l label1");
    assert_eq!(add_parser(args), Ok(add_options1()));
}

#[test]
fn should_return_error_if_required_option_missing() {
    let args = split_into_args("-d description1 -l label1");
    let parse_res = add_parser(args);
    assert!(parse_res.is_err(), "not err; parse_res={:?}", parse_res);
    assert_eq!(parse_res.unwrap_err(), "-t option required");
}

#[test]
fn should_return_error_if_invalid_option_given() {
    let args = split_into_args("-t title1 -x invalid_option");
    let parse_res = add_parser(args);
    assert!(parse_res.is_err(), "not err; parse_res={:?}", parse_res);
    assert_eq!(parse_res.unwrap_err(), "invalid option; -x");
}

#[test]
fn a_later_flag_overwrites_an_earlier_one() {
    let args = split_into_args("-t first -t second");
    let res = add_parser(args).unwrap();
    assert_eq!(res.title, "second");
}

#[test]
fn a_trailing_flag_without_value_leaves_it_unset() {
    let args = split_into_args("-d description1 -t");
    let parse_res = add_parser(args);
    assert_eq!(parse_res.unwrap_err(), "-t option required");
}

#[test]
fn add_accepts_parsed_options() {
    let opts = add_options1();
    assert_eq!(add(opts), Ok(()));
}

#[test]
fn subcmd_options_carry_add_options() {
    let SubcmdOptions::Add(inner) = SubcmdOptions::Add(add_options1());
    assert_eq!(inner, add_options1());
}

#[test]
fn default_point_is_the_origin() {
    let p = Point::default();
    assert_eq!(p, Point { x: 0, y: 0 });
    let moved = Point { x: 100, ..Default::default() };
    assert_eq!(moved, Point { x: 100, y: 0 });
}

#[test]
fn default_user_is_the_first_user() {
    let u = User::default();
    assert_eq!(u.no, 1);
    assert_eq!(u.name, "user1");
    let renamed = User { name: String::from("user100"), ..Default::default() };
    assert_eq!(renamed.no, 1);
    assert_eq!(renamed.name, "user100");
}
