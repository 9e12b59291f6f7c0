//! The filename filter of a rule: a regular expression compiled once.
use vstd::prelude::*;

verus! {

/// A compiled expression of the regex crate, carried opaquely.
#[verifier::external_type_specification]
#[verifier::external_body]
pub struct ExRegex(regex::Regex);

/// Whether the regex crate accepts `pattern` as a regular expression.
pub uninterp spec fn regex_accepts(pattern: Seq<char>) -> bool;

/// Whether the regular expression `pattern` matches somewhere in `text`.
pub uninterp spec fn regex_finds(pattern: Seq<char>, text: Seq<char>) -> bool;

/// A compiled filename pattern together with the text it was compiled from.
/// Only `FilePattern::new` builds one, so `compiled` is always the
/// compilation of `source`.
pub struct FilePattern {
    source: String,
    compiled: regex::Regex,
}

impl View for FilePattern {
    type V = Seq<char>;

    closed spec fn view(&self) -> Seq<char> {
        self.source@
    }
}

/// Relies on `regex::Regex::new`: it succeeds exactly on the patterns the
/// crate accepts.
#[verifier::external_body]
fn compile_regex(pattern: &str) -> (r: Option<regex::Regex>)
    ensures
        r is Some <==> regex_accepts(pattern@),
{
    regex::Regex::new(pattern).ok()
}

/// Relies on `regex::Regex::is_match`, applied to the regex compiled from
/// the pattern's source text: whether it matches anywhere in `text`.
#[verifier::external_body]
fn regex_is_match(p: &FilePattern, text: &str) -> (r: bool)
    ensures
        r == regex_finds(p@, text@),
{
    p.compiled.is_match(text)
}

impl FilePattern {
    /// Compiles `pattern`; `None` when it is not a valid regular expression.
    pub fn new(pattern: &str) -> (r: Option<FilePattern>)
        ensures
            r is Some <==> regex_accepts(pattern@),
            r is Some ==> r->0@ == pattern@,
    {
        match compile_regex(pattern) {
            Some(compiled) => {
                let source = pattern.to_owned();
                Some(FilePattern { source, compiled })
            },
            None => None,
        }
    }

    /// Whether the pattern matches the file name `name`.
    pub fn is_match(&self, name: &str) -> (r: bool)
        ensures
            r == regex_finds(self@, name@),
    {
        regex_is_match(self, name)
    }

    /// The text the pattern was compiled from.
    pub fn as_str(&self) -> (r: &str)
        ensures
            r@ == self@,
    {
        self.source.as_str()
    }
}

} // verus!
