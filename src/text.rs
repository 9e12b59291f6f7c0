//! Small text utilities over `str`: equality, decimal numbers, newline
//! collapsing and joining remote paths.
use vstd::prelude::*;
use vstd::string::*;

verus! {

/// Whether two strings hold the same characters.
pub fn str_equals(a: &str, b: &str) -> (r: bool)
    ensures
        r == (a@ == b@),
{
    let n = a.unicode_len();
    let m = b.unicode_len();
    if n != m {
        return false;
    }
    let mut i: usize = 0;
    while i < n
        invariant
            n == a@.len(),
            m == b@.len(),
            n == m,
            i <= n,
            forall|j: int| 0 <= j < i ==> a@[j] == b@[j],
        decreases n - i,
    {
        if a.get_char(i) != b.get_char(i) {
            return false;
        }
        i = i + 1;
    }
    assert(a@ =~= b@);
    true
}

/// The value of a decimal digit character.
pub open spec fn digit_value(c: char) -> int {
    if c == '0' { 0 }
    else if c == '1' { 1 }
    else if c == '2' { 2 }
    else if c == '3' { 3 }
    else if c == '4' { 4 }
    else if c == '5' { 5 }
    else if c == '6' { 6 }
    else if c == '7' { 7 }
    else if c == '8' { 8 }
    else if c == '9' { 9 }
    else { -1 }
}

pub open spec fn is_digit(c: char) -> bool {
    digit_value(c) >= 0
}

/// The value of a sequence of decimal digits.
pub open spec fn digits_value(s: Seq<char>) -> int
    decreases s.len(),
{
    if s.len() == 0 {
        0
    } else {
        digits_value(s.drop_last()) * 10 + digit_value(s.last())
    }
}

/// What `u64::from_str` accepts: an optional `+`, then at least one decimal
/// digit, with a value that fits in 64 bits.
pub open spec fn parse_u64_spec(s: Seq<char>) -> Option<u64> {
    let d = if s.len() > 0 && s[0] == '+' { s.drop_first() } else { s };
    if d.len() > 0 && (forall|j: int| 0 <= j < d.len() ==> is_digit(#[trigger] d[j])) && digits_value(d) <= u64::MAX {
        Some(digits_value(d) as u64)
    } else {
        None
    }
}

/// Relies on `u64::from_str`: an optional `+` and decimal digits whose value
/// fits, and nothing else, is accepted.
#[verifier::external_body]
pub(crate) fn parse_u64(s: &str) -> (r: Option<u64>)
    ensures
        r == parse_u64_spec(s@),
{
    s.parse::<u64>().ok()
}

/// `s` with every newline replaced by a space.
pub open spec fn collapse_newlines_spec(s: Seq<char>) -> Seq<char> {
    s.map_values(|c: char| if c == '\n' { ' ' } else { c })
}

/// Relies on `str::replace` with a one-character pattern and replacement:
/// each occurrence is replaced, everything else is kept.
#[verifier::external_body]
fn replace_newlines(s: &str) -> (r: String)
    ensures
        r@ == collapse_newlines_spec(s@),
{
    s.replace('\n', " ")
}

/// Collapses embedded newlines to single spaces, so that a message fits on
/// one log line.
pub fn collapse_newlines(s: &str) -> (r: String)
    ensures
        r@ == collapse_newlines_spec(s@),
        forall|j: int| 0 <= j < r@.len() ==> r@[j] != '\n',
{
    replace_newlines(s)
}

/// `s` without its trailing run of `/`.
pub open spec fn trim_trailing_slashes(s: Seq<char>) -> Seq<char>
    decreases s.len(),
{
    if s.len() > 0 && s.last() == '/' {
        trim_trailing_slashes(s.drop_last())
    } else {
        s
    }
}

/// A remote path: the directory without trailing slashes, a slash, the name.
pub open spec fn join_remote_spec(dir: Seq<char>, name: Seq<char>) -> Seq<char> {
    trim_trailing_slashes(dir) + "/"@ + name
}

/// Composes the full remote path of `name` in the directory `dir`, as the
/// SSH transfer protocol (which has no working directory) needs it.
pub fn join_remote_path(dir: &str, name: &str) -> (r: String)
    ensures
        r@ == join_remote_spec(dir@, name@),
{
    let mut end = dir.unicode_len();
    assert(dir@.subrange(0, end as int) =~= dir@);
    while end > 0 && dir.get_char(end - 1) == '/'
        invariant
            end <= dir@.len(),
            trim_trailing_slashes(dir@.subrange(0, end as int)) == trim_trailing_slashes(dir@),
        decreases end,
    {
        assert(dir@.subrange(0, end as int).drop_last() =~= dir@.subrange(0, end - 1));
        end = end - 1;
    }
    let head = dir.substring_char(0, end);
    assert(trim_trailing_slashes(dir@.subrange(0, end as int)) == dir@.subrange(0, end as int));
    let mut r = head.to_owned();
    r.append("/");
    r.append(name);
    r
}


/// The characters with the Unicode `White_Space` property, which
/// `char::is_whitespace` and `str::trim` go by.
pub open spec fn is_whitespace_spec(c: char) -> bool {
    ('\u{9}' <= c && c <= '\u{d}') || c == ' ' || c == '\u{85}' || c == '\u{a0}' || c == '\u{1680}'
        || ('\u{2000}' <= c && c <= '\u{200a}') || c == '\u{2028}' || c == '\u{2029}' || c == '\u{202f}'
        || c == '\u{205f}' || c == '\u{3000}'
}

/// Whether `c` is white space.
pub fn is_whitespace(c: char) -> (r: bool)
    ensures
        r == is_whitespace_spec(c),
{
    ('\u{9}' <= c && c <= '\u{d}') || c == ' ' || c == '\u{85}' || c == '\u{a0}' || c == '\u{1680}'
        || ('\u{2000}' <= c && c <= '\u{200a}') || c == '\u{2028}' || c == '\u{2029}' || c == '\u{202f}'
        || c == '\u{205f}' || c == '\u{3000}'
}

/// Whether a line of the rule file is skipped: it is blank, or its first
/// character other than white space is `#`.
pub open spec fn is_skipped_line_spec(line: Seq<char>) -> bool {
    forall|j: int|
        0 <= j < line.len() && !is_whitespace_spec(#[trigger] line[j])
            && (forall|k: int| 0 <= k < j ==> is_whitespace_spec(#[trigger] line[k])) ==> line[j] == '#'
}

/// Tells whether a line of the rule file is blank or a comment.
pub fn is_skipped_line(line: &str) -> (r: bool)
    ensures
        r == is_skipped_line_spec(line@),
{
    let n = line.unicode_len();
    let mut i: usize = 0;
    while i < n
        invariant
            n == line@.len(),
            i <= n,
            forall|k: int| 0 <= k < i ==> is_whitespace_spec(#[trigger] line@[k]),
        decreases n - i,
    {
        let c = line.get_char(i);
        if !is_whitespace(c) {
            if c != '#' {
                assert(!is_whitespace_spec(line@[i as int]));
            }
            return c == '#';
        }
        i = i + 1;
    }
    true
}

} // verus!
