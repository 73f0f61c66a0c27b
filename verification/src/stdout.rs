//! Standard output destination marker and newline policies for text output.
use vstd::prelude::*;

use crate::text::{chars_of, push_char};

verus! {

/// Marker type for the process standard output stream.
#[derive(Clone, Copy, Debug, Default, PartialEq, Eq, Hash, Structural)]
pub struct StdoutDestination;

impl StdoutDestination {
    /// Creates a stdout destination marker.
    pub fn new() -> (d: Self)
        ensures
            d == StdoutDestination,
    {
        StdoutDestination
    }
}

/// Primitive newline policy for text output.
#[derive(Clone, Copy, Debug, PartialEq, Eq, Hash, Structural)]
pub enum NewlineBehavior {
    /// Preserve the input exactly.
    Preserve,
    /// Ensure the output ends with `\n`.
    EnsureTrailingNewline,
    /// Remove trailing `\r` and `\n` characters.
    StripTrailingNewline,
}

/// `c` is a line-ending character, `\r` or `\n`.
pub open spec fn is_line_end(c: char) -> bool {
    c == '\r' || c == '\n'
}

/// `s` ends with `\n`.
pub open spec fn ends_with_newline(s: Seq<char>) -> bool {
    s.len() > 0 && s.last() == '\n'
}

/// `s` with one `\n` appended unless it already ends with `\n`.
pub open spec fn with_trailing_newline(s: Seq<char>) -> Seq<char> {
    if ends_with_newline(s) {
        s
    } else {
        s.push('\n')
    }
}

/// `s` with every trailing `\r` and `\n` removed.
pub open spec fn without_trailing_newlines(s: Seq<char>) -> Seq<char>
    decreases s.len(),
{
    if s.len() > 0 && is_line_end(s.last()) {
        without_trailing_newlines(s.drop_last())
    } else {
        s
    }
}

/// The text that `behavior` makes of `s`.
pub open spec fn newline_applied(s: Seq<char>, behavior: NewlineBehavior) -> Seq<char> {
    match behavior {
        NewlineBehavior::Preserve => s,
        NewlineBehavior::EnsureTrailingNewline => with_trailing_newline(s),
        NewlineBehavior::StripTrailingNewline => without_trailing_newlines(s),
    }
}

proof fn lemma_without_trailing_newlines_take(s: Seq<char>, j: int)
    requires
        0 <= j <= s.len(),
        forall|k: int| j <= k < s.len() ==> is_line_end(#[trigger] s[k]),
    ensures
        without_trailing_newlines(s) == without_trailing_newlines(s.take(j)),
    decreases s.len() - j,
{
    if j < s.len() {
        assert(s.drop_last().take(j) =~= s.take(j));
        lemma_without_trailing_newlines_take(s.drop_last(), j);
    } else {
        assert(s.take(j) =~= s);
    }
}

/// After stripping, the text does not end with `\r` or `\n`, and it is a prefix of the input.
pub proof fn lemma_without_trailing_newlines(s: Seq<char>)
    ensures
        ({
            let t = without_trailing_newlines(s);
            &&& t.len() <= s.len()
            &&& t == s.take(t.len() as int)
            &&& !(t.len() > 0 && is_line_end(t.last()))
            &&& forall|k: int| t.len() <= k < s.len() ==> is_line_end(#[trigger] s[k])
        }),
    decreases s.len(),
{
    if s.len() > 0 && is_line_end(s.last()) {
        lemma_without_trailing_newlines(s.drop_last());
        let t = without_trailing_newlines(s);
        assert(s.drop_last().take(t.len() as int) =~= s.take(t.len() as int));
        assert forall|k: int| t.len() <= k < s.len() implies is_line_end(#[trigger] s[k]) by {
            if k < s.len() - 1 {
                assert(s.drop_last()[k] == s[k]);
            }
        }
    } else {
        assert(s.take(s.len() as int) =~= s);
    }
}

/// Ensuring a trailing newline twice is the same as once, and the result ends with `\n`.
pub proof fn lemma_ensure_trailing_newline_idempotent(s: Seq<char>)
    ensures
        ends_with_newline(newline_applied(s, NewlineBehavior::EnsureTrailingNewline)),
        newline_applied(
            newline_applied(s, NewlineBehavior::EnsureTrailingNewline),
            NewlineBehavior::EnsureTrailingNewline,
        ) == newline_applied(s, NewlineBehavior::EnsureTrailingNewline),
{
}

/// Stripping trailing newlines twice is the same as once.
pub proof fn lemma_strip_trailing_newline_idempotent(s: Seq<char>)
    ensures
        newline_applied(
            newline_applied(s, NewlineBehavior::StripTrailingNewline),
            NewlineBehavior::StripTrailingNewline,
        ) == newline_applied(s, NewlineBehavior::StripTrailingNewline),
{
    lemma_without_trailing_newlines(s);
}

/// Ensuring a newline after stripping gives the stripped text plus exactly one `\n`.
pub proof fn lemma_strip_then_ensure(s: Seq<char>)
    ensures
        newline_applied(
            newline_applied(s, NewlineBehavior::StripTrailingNewline),
            NewlineBehavior::EnsureTrailingNewline,
        ) == newline_applied(s, NewlineBehavior::StripTrailingNewline).push('\n'),
{
    lemma_without_trailing_newlines(s);
}

/// Preserving leaves every text exactly as it is.
pub proof fn lemma_preserve_keeps_text(s: Seq<char>)
    ensures
        newline_applied(s, NewlineBehavior::Preserve) == s,
{
}

/// Ensuring a trailing newline keeps the text as its prefix, ends with `\n`, and
/// adds one `\n` exactly when the text did not already end with one.
pub proof fn lemma_ensure_trailing_newline_shape(s: Seq<char>)
    ensures
        ({
            let r = newline_applied(s, NewlineBehavior::EnsureTrailingNewline);
            &&& r.len() > 0 && r[r.len() - 1] == '\n'
            &&& r.take(s.len() as int) == s
            &&& (s.len() > 0 && s[s.len() - 1] == '\n' ==> r == s)
            &&& (!(s.len() > 0 && s[s.len() - 1] == '\n') ==> r.len() == s.len() + 1)
        }),
{
    let r = newline_applied(s, NewlineBehavior::EnsureTrailingNewline);
    assert(r.take(s.len() as int) =~= s);
}

/// Stripping removes exactly the trailing run of `\r` and `\n`: the result is a
/// prefix of the text that does not end with either, and everything removed is
/// `\r` or `\n`.
pub proof fn lemma_strip_trailing_newline_shape(s: Seq<char>)
    ensures
        ({
            let r = newline_applied(s, NewlineBehavior::StripTrailingNewline);
            &&& r.len() <= s.len()
            &&& r == s.take(r.len() as int)
            &&& (r.len() > 0 ==> r[r.len() - 1] != '\r' && r[r.len() - 1] != '\n')
            &&& forall|k: int| r.len() <= k < s.len() ==> #[trigger] s[k] == '\r' || s[k] == '\n'
        }),
{
    lemma_without_trailing_newlines(s);
    let r = newline_applied(s, NewlineBehavior::StripTrailingNewline);
    assert forall|k: int| r.len() <= k < s.len() implies #[trigger] s[k] == '\r' || s[k] == '\n' by {
        assert(is_line_end(s[k]));
    }
}

/// Applies a newline behavior to text and returns an owned string.
pub fn apply_newline_behavior(text: &str, behavior: NewlineBehavior) -> (s: String)
    ensures
        s@ == newline_applied(text@, behavior),
        behavior == NewlineBehavior::Preserve ==> s@ == text@,
        behavior == NewlineBehavior::EnsureTrailingNewline ==> s@.len() > 0 && s@.last() == '\n'
            && s@.take(text@.len() as int) == text@,
{
    proof {
        lemma_ensure_trailing_newline_shape(text@);
    }
    match behavior {
        NewlineBehavior::Preserve => text.to_owned(),
        NewlineBehavior::EnsureTrailingNewline => ensure_trailing_newline(text),
        NewlineBehavior::StripTrailingNewline => strip_trailing_newlines(text),
    }
}

fn ensure_trailing_newline(text: &str) -> (s: String)
    ensures
        s@ == with_trailing_newline(text@),
{
    let v = chars_of(text);
    let n = v.len();
    if n > 0 && v[n - 1] == '\n' {
        text.to_owned()
    } else {
        let mut output = text.to_owned();
        push_char(&mut output, '\n');
        output
    }
}

fn strip_trailing_newlines(text: &str) -> (s: String)
    ensures
        s@ == without_trailing_newlines(text@),
{
    let v = chars_of(text);
    let mut end: usize = v.len();
    while end > 0 && (v[end - 1] == '\r' || v[end - 1] == '\n')
        invariant
            end <= v.len(),
            forall|k: int| end <= k < v.len() ==> is_line_end(#[trigger] v@[k]),
        decreases end,
    {
        end = end - 1;
    }
    proof {
        lemma_without_trailing_newlines_take(v@, end as int);
        assert(!(v@.take(end as int).len() > 0 && is_line_end(v@.take(end as int).last())));
    }
    text.substring_char(0, end).to_owned()
}

} // verus!
