use vstd::prelude::*;
use vstd::string::*;
use crate::todo::{status_chars, Todo, TodoList};

verus! {

/// `n` blanks.
pub open spec fn spaces(n: int) -> Seq<char> {
    Seq::new(if n < 0 { 0 } else { n } as nat, |i: int| ' ')
}

/// The underline drawn below the header: eighty dashes.
pub open spec fn underline_chars() -> Seq<char> {
    Seq::new(80, |i: int| '-')
}

/// `s` padded with blanks on the left to `width` characters; a longer `s`
/// stays as it is.
pub open spec fn pad_left_spec(s: Seq<char>, width: int) -> Seq<char> {
    if s.len() >= width {
        s
    } else {
        spaces(width - s.len()) + s
    }
}

/// `s` padded with blanks on the right to `width` characters; a longer `s`
/// stays as it is.
pub open spec fn pad_right_spec(s: Seq<char>, width: int) -> Seq<char> {
    if s.len() >= width {
        s
    } else {
        s + spaces(width - s.len())
    }
}

/// `s` shortened to `width` characters: a longer text keeps its first
/// `width - 3` characters and ends in three dots.
pub open spec fn elide_spec(s: Seq<char>, width: int) -> Seq<char> {
    if s.len() > width {
        s.subrange(0, width - 3) + "..."@
    } else {
        s
    }
}

pub open spec fn digit_char(d: int) -> char {
    if d == 0 {
        '0'
    } else if d == 1 {
        '1'
    } else if d == 2 {
        '2'
    } else if d == 3 {
        '3'
    } else if d == 4 {
        '4'
    } else if d == 5 {
        '5'
    } else if d == 6 {
        '6'
    } else if d == 7 {
        '7'
    } else if d == 8 {
        '8'
    } else {
        '9'
    }
}

/// The decimal digits of a non-negative number, most significant first.
pub open spec fn dec_chars(n: int) -> Seq<char>
    recommends
        n >= 0,
    decreases n,
{
    if n < 10 {
        seq![digit_char(n)]
    } else {
        dec_chars(n / 10).push(digit_char(n % 10))
    }
}

/// Relies on the std decimal formatting of usize: the plain decimal digits
/// of the value, most significant first, with no sign, padding or grouping.
#[verifier::external_body]
fn usize_str(n: usize) -> (r: String)
    ensures
        r@ == dec_chars(n as int),
{
    format!("{}", n)
}

/// Shorten `s` to `width` characters, marking a cut with three dots.
pub fn elide(s: &str, width: usize) -> (r: String)
    requires
        width > 3,
    ensures
        r@ == elide_spec(s@, width as int),
{
    let n = s.unicode_len();
    if n > width {
        let head = s.substring_char(0, width - 3);
        let mut r = String::from_str(head);
        r.append("...");
        r
    } else {
        String::from_str(s)
    }
}

/// Append `count` blanks.
fn push_spaces(out: &mut String, count: usize)
    ensures
        final(out)@ == old(out)@ + spaces(count as int),
{
    proof {
        reveal_strlit(" ");
    }
    let mut k: usize = 0;
    while k < count
        invariant
            k <= count,
            out@ == old(out)@ + spaces(k as int),
        decreases count - k,
    {
        out.append(" ");
        proof {
            reveal_strlit(" ");
            assert(out@ =~= old(out)@ + spaces(k as int + 1));
        }
        k = k + 1;
    }
    proof {
        assert(out@ =~= old(out)@ + spaces(count as int));
    }
}

/// Pad `s` with blanks on the left to `width` characters.
pub fn pad_left(s: &str, width: usize) -> (r: String)
    ensures
        r@ == pad_left_spec(s@, width as int),
{
    let n = s.unicode_len();
    let mut r = String::new();
    if n < width {
        push_spaces(&mut r, width - n);
    }
    r.append(s);
    assert(r@ =~= pad_left_spec(s@, width as int));
    r
}

/// Pad `s` with blanks on the right to `width` characters.
pub fn pad_right(s: &str, width: usize) -> (r: String)
    ensures
        r@ == pad_right_spec(s@, width as int),
{
    let n = s.unicode_len();
    let mut r = String::from_str(s);
    if n < width {
        push_spaces(&mut r, width - n);
    }
    assert(r@ =~= pad_right_spec(s@, width as int));
    r
}

/// One listed task: its id right-aligned in five characters, then title,
/// description, status and label, each shortened and left-aligned in its
/// column, the columns parted by single blanks.
pub open spec fn todo_row_chars(t: Todo) -> Seq<char> {
    pad_left_spec(dec_chars(t.id as int), 5) + seq![' '] + pad_right_spec(
        elide_spec(t.title@, 20),
        20,
    ) + seq![' '] + pad_right_spec(elide_spec(t.description@, 20), 20) + seq![' ']
        + pad_right_spec(elide_spec(status_chars(t.status), 10), 10) + seq![' ']
        + pad_right_spec(elide_spec(t.label@, 20), 20)
}

/// The header above the columns.
pub open spec fn header_chars() -> Seq<char> {
    pad_left_spec("id"@, 5) + seq![' '] + pad_right_spec("title"@, 20) + seq![' ']
        + pad_right_spec("description"@, 20) + seq![' '] + pad_right_spec("status"@, 10)
        + seq![' '] + pad_right_spec("label"@, 20)
}

/// The first `i` listed tasks, one row each, parted by newlines.
pub open spec fn rows_prefix(s: Seq<Todo>, i: int) -> Seq<char>
    decreases i,
{
    if i <= 0 {
        Seq::empty()
    } else if i == 1 {
        todo_row_chars(s[0])
    } else {
        rows_prefix(s, i - 1) + seq!['\n'] + todo_row_chars(s[i - 1])
    }
}

/// The whole listing: header, underline, and one row per task.
pub open spec fn listing_chars(s: Seq<Todo>) -> Seq<char> {
    header_chars() + seq!['\n'] + underline_chars() + seq!['\n'] + rows_prefix(s, s.len() as int)
}

/// Render one task as its listing row.
pub fn render_todo(t: &Todo) -> (r: String)
    ensures
        r@ == todo_row_chars(*t),
{
    proof {
        reveal_strlit(" ");
    }
    let id = usize_str(t.id);
    let mut out = pad_left(id.as_str(), 5);
    out.append(" ");
    let title = elide(t.title.as_str(), 20);
    let title = pad_right(title.as_str(), 20);
    out.append(title.as_str());
    out.append(" ");
    let description = elide(t.description.as_str(), 20);
    let description = pad_right(description.as_str(), 20);
    out.append(description.as_str());
    out.append(" ");
    let name = t.status.name();
    let status = elide(name.as_str(), 10);
    let status = pad_right(status.as_str(), 10);
    out.append(status.as_str());
    out.append(" ");
    let label = elide(t.label.as_str(), 20);
    let label = pad_right(label.as_str(), 20);
    out.append(label.as_str());
    assert(out@ =~= todo_row_chars(*t));
    out
}

/// Render the whole listing of a task list.
pub fn display_string(todo_list: &TodoList) -> (r: String)
    ensures
        r@ == listing_chars(todo_list.todos()),
{
    proof {
        reveal_strlit(" ");
        reveal_strlit("\n");
        reveal_strlit("-");
    }
    let mut out = pad_left("id", 5);
    out.append(" ");
    let h = pad_right("title", 20);
    out.append(h.as_str());
    out.append(" ");
    let h = pad_right("description", 20);
    out.append(h.as_str());
    out.append(" ");
    let h = pad_right("status", 10);
    out.append(h.as_str());
    out.append(" ");
    let h = pad_right("label", 20);
    out.append(h.as_str());
    assert(out@ =~= header_chars());
    out.append("\n");
    let mut k: usize = 0;
    let ghost before = out@;
    while k < 80
        invariant
            k <= 80,
            out@ == before + underline_chars().take(k as int),
        decreases 80 - k,
    {
        out.append("-");
        proof {
            reveal_strlit("-");
            assert(out@ =~= before + underline_chars().take(k as int + 1));
        }
        k = k + 1;
    }
    proof {
        assert(underline_chars().take(80) =~= underline_chars());
    }
    out.append("\n");
    let list = todo_list.list();
    let n = list.len();
    let mut i: usize = 0;
    while i < n
        invariant
            i <= n,
            list@ == todo_list.todos(),
            n == todo_list.todos().len(),
            out@ == header_chars() + seq!['\n'] + underline_chars() + seq!['\n'] + rows_prefix(
                todo_list.todos(),
                i as int,
            ),
        decreases n - i,
    {
        if i > 0 {
            out.append("\n");
            proof {
                reveal_strlit("\n");
                assert(out@ =~= header_chars() + seq!['\n'] + underline_chars() + seq!['\n']
                    + rows_prefix(todo_list.todos(), i as int) + seq!['\n']);
            }
        }
        let row = render_todo(&list[i]);
        out.append(row.as_str());
        i = i + 1;
    }
    out
}

} // verus!
