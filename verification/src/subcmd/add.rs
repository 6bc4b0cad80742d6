use vstd::prelude::*;
use vstd::string::*;

verus! {

/// Relies on str's PartialEq: two string slices are equal exactly when their
/// character sequences are.
pub assume_specification[ <str as PartialEq>::eq ](a: &str, b: &str) -> (r: bool)
    ensures
        r == (a@ == b@),
;

/// Options of the add subcommand: a required title, and an optional
/// description and label that default to empty.
#[derive(Debug, PartialEq, Eq)]
pub struct AddOptions {
    pub title: String,
    pub description: String,
    pub label: String,
}

pub open spec fn is_title_flag(a: Seq<char>) -> bool {
    a == "-t"@ || a == "--title"@
}

pub open spec fn is_description_flag(a: Seq<char>) -> bool {
    a == "-d"@ || a == "--description"@
}

pub open spec fn is_label_flag(a: Seq<char>) -> bool {
    a == "-l"@ || a == "--label"@
}

pub open spec fn opt_or_empty(o: Option<Seq<char>>) -> Seq<char> {
    match o {
        Option::Some(s) => s,
        Option::None => Seq::empty(),
    }
}

/// One step per flag: a flag consumes the following argument as its value (a
/// later occurrence overwrites an earlier one; a flag at the very end leaves
/// its value unset), any other argument is an error, and at the end the
/// title must have been set while description and label default to empty.
pub open spec fn parse_rec(
    args: Seq<Seq<char>>,
    t: Option<Seq<char>>,
    d: Option<Seq<char>>,
    l: Option<Seq<char>>,
) -> Result<(Seq<char>, Seq<char>, Seq<char>), Seq<char>>
    decreases args.len(),
{
    if args.len() == 0 {
        match t {
            Option::Some(tv) => Result::Ok((tv, opt_or_empty(d), opt_or_empty(l))),
            Option::None => Result::Err("-t option required"@),
        }
    } else if is_title_flag(args[0]) {
        if args.len() == 1 {
            parse_rec(args.skip(1), Option::None, d, l)
        } else {
            parse_rec(args.skip(2), Option::Some(args[1]), d, l)
        }
    } else if is_description_flag(args[0]) {
        if args.len() == 1 {
            parse_rec(args.skip(1), t, Option::None, l)
        } else {
            parse_rec(args.skip(2), t, Option::Some(args[1]), l)
        }
    } else if is_label_flag(args[0]) {
        if args.len() == 1 {
            parse_rec(args.skip(1), t, d, Option::None)
        } else {
            parse_rec(args.skip(2), t, d, Option::Some(args[1]))
        }
    } else {
        Result::Err("invalid option; "@ + args[0])
    }
}

/// What parsing an argument list yields, starting with no option set.
pub open spec fn parse_spec(args: Seq<Seq<char>>) -> Result<
    (Seq<char>, Seq<char>, Seq<char>),
    Seq<char>,
> {
    parse_rec(args, Option::None, Option::None, Option::None)
}

pub open spec fn opt_view(o: Option<String>) -> Option<Seq<char>> {
    match o {
        Option::Some(s) => Option::Some(s@),
        Option::None => Option::None,
    }
}

/// Parse the arguments of the add subcommand.
pub fn add_parser(args: Vec<String>) -> (r: Result<AddOptions, String>)
    ensures
        r is Ok <==> parse_spec(args.deep_view()) is Ok,
        (r matches Ok(o) ==> parse_spec(args.deep_view()) matches Ok(s) && o.title@ == s.0
            && o.description@ == s.1 && o.label@ == s.2),
        (r matches Err(e) ==> parse_spec(args.deep_view()) matches Err(m) && e@ == m),
{
    let ghost s: Seq<Seq<char>> = args.deep_view();
    let mut title: Option<String> = None;
    let mut description: Option<String> = None;
    let mut label: Option<String> = None;
    let n = args.len();
    let mut i: usize = 0;
    proof {
        assert(s.skip(0) =~= s);
    }
    while i < n
        invariant
            i <= n,
            n == args@.len(),
            s == args.deep_view(),
            parse_rec(s.skip(i as int), opt_view(title), opt_view(description), opt_view(label))
                == parse_spec(s),
        decreases n - i,
    {
        proof {
            assert(s.skip(i as int).len() == n - i);
            assert(s.skip(i as int)[0] == s[i as int]);
            assert(s[i as int] == args@[i as int]@);
            if i + 2 <= n {
                assert(s.skip(i as int).skip(2) =~= s.skip(i as int + 2));
                assert(s.skip(i as int)[1] == s[i as int + 1]);
            } else {
                assert(s.skip(i as int).skip(1) =~= s.skip(i as int + 1));
            }
        }
        let option = &args[i];
        if option.as_str().eq("-t") || option.as_str().eq("--title") {
            if i + 1 < n {
                title = Some(args[i + 1].clone());
                i = i + 2;
            } else {
                title = None;
                i = n;
            }
        } else if option.as_str().eq("-d") || option.as_str().eq("--description") {
            if i + 1 < n {
                description = Some(args[i + 1].clone());
                i = i + 2;
            } else {
                description = None;
                i = n;
            }
        } else if option.as_str().eq("-l") || option.as_str().eq("--label") {
            if i + 1 < n {
                label = Some(args[i + 1].clone());
                i = i + 2;
            } else {
                label = None;
                i = n;
            }
        } else {
            let mut msg = String::from_str("invalid option; ");
            msg.append(option.as_str());
            return Err(msg);
        }
    }
    proof {
        assert(s.skip(n as int) =~= Seq::empty());
    }
    match title {
        Some(t) => Ok(
            AddOptions {
                title: t,
                description: match description {
                    Some(d) => d,
                    None => String::new(),
                },
                label: match label {
                    Some(l) => l,
                    None => String::new(),
                },
            },
        ),
        None => Err(String::from_str("-t option required")),
    }
}

/// Carry out the add subcommand; nothing is acted on yet, so every option
/// set is accepted.
pub fn add(options: AddOptions) -> (r: Result<(), String>)
    ensures
        r is Ok,
{
    Ok(())
}

} // verus!
