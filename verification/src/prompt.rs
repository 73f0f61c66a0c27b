//! Prompt text and yes/no confirmation answers.
//!
//! Prompt text must hold something besides whitespace. A confirmation answer is
//! read with surrounding whitespace removed and ASCII case ignored: `y`/`yes`
//! mean yes and `n`/`no` mean no.
use vstd::prelude::*;

use crate::text::{
    ascii_lower_code, chars_eq_ignore_ascii_case, chars_of, eq_ignore_ascii_case, is_whitespace,
    lemma_eq_ignore_ascii_case_sym, lemma_eq_ignore_ascii_case_trans,
    lemma_trim_empty_iff_all_whitespace, lemma_trim_idempotent, lemma_trim_ignores_ascii_case, trim,
    trim_str,
};

verus! {

/// Validation errors for prompt text.
#[derive(Clone, Copy, Debug, PartialEq, Eq, Structural)]
pub enum PromptTextError {
    /// The prompt text was empty or only whitespace.
    Empty,
}

impl PromptTextError {
    /// The human-readable description of this error.
    pub open spec fn message(self) -> Seq<char> {
        match self {
            PromptTextError::Empty => "prompt text cannot be empty"@,
        }
    }

    /// Returns the human-readable description of this error.
    pub fn to_string(&self) -> (s: String)
        ensures
            s@ == self.message(),
    {
        match self {
            PromptTextError::Empty => "prompt text cannot be empty".to_owned(),
        }
    }
}

/// Owned prompt text.
#[derive(Debug, PartialEq, Eq, Hash)]
pub struct PromptText {
    text: String,
}

impl View for PromptText {
    type V = Seq<char>;

    closed spec fn view(&self) -> Seq<char> {
        self.text@
    }
}

impl PromptText {
    #[verifier::type_invariant]
    spec fn inv(self) -> bool {
        trim(self.text@).len() > 0
    }

    /// Creates prompt text.
    ///
    /// Fails with [`PromptTextError::Empty`] when `text` is empty or only whitespace.
    pub fn new(text: &str) -> (r: Result<Self, PromptTextError>)
        ensures
            r is Ok <==> trim(text@).len() > 0,
            r is Ok <==> exists|i: int| 0 <= i < text@.len() && !is_whitespace(#[trigger] text@[i]),
            r matches Ok(p) ==> p@ == text@,
            r matches Err(e) ==> e == PromptTextError::Empty,
    {
        proof {
            lemma_prompt_text_rule(text@);
        }
        let trimmed = trim_str(text);
        if trimmed.is_empty() {
            Err(PromptTextError::Empty)
        } else {
            Ok(PromptText { text: text.to_owned() })
        }
    }

    /// Returns the prompt text.
    pub fn as_str(&self) -> (s: &str)
        ensures
            s@ == self@,
            trim(s@).len() > 0,
    {
        proof {
            use_type_invariant(self);
        }
        self.text.as_str()
    }

    /// Returns the owned prompt text.
    pub fn into_string(self) -> (s: String)
        ensures
            s@ == self@,
            trim(s@).len() > 0,
    {
        proof {
            use_type_invariant(&self);
        }
        self.text
    }
}

impl AsRef<str> for PromptText {
    fn as_ref(&self) -> (s: &str)
        ensures
            s@ == self@,
    {
        self.text.as_str()
    }
}

impl Clone for PromptText {
    fn clone(&self) -> (c: Self)
        ensures
            c@ == self@,
    {
        proof {
            use_type_invariant(self);
        }
        PromptText { text: self.text.clone() }
    }
}

/// A primitive yes/no answer.
#[derive(Clone, Copy, Debug, PartialEq, Eq, Hash, Structural)]
pub enum YesNoAnswer {
    /// Affirmative answer.
    Yes,
    /// Negative answer.
    No,
}

impl YesNoAnswer {
    /// Returns whether this answer is affirmative.
    pub fn is_yes(self) -> (b: bool)
        ensures
            b == (self == YesNoAnswer::Yes),
    {
        match self {
            YesNoAnswer::Yes => true,
            YesNoAnswer::No => false,
        }
    }

    /// Returns whether this answer is negative.
    pub fn is_no(self) -> (b: bool)
        ensures
            b == (self == YesNoAnswer::No),
    {
        match self {
            YesNoAnswer::Yes => false,
            YesNoAnswer::No => true,
        }
    }
}

/// Errors returned while parsing confirmation answers.
#[derive(Clone, Copy, Debug, PartialEq, Eq, Structural)]
pub enum ConfirmationParseError {
    /// The answer was empty after trimming whitespace.
    Empty,
    /// The answer was not recognized as yes or no.
    Unrecognized,
}

impl ConfirmationParseError {
    /// The human-readable description of this error.
    pub open spec fn message(self) -> Seq<char> {
        match self {
            ConfirmationParseError::Empty => "confirmation answer cannot be empty"@,
            ConfirmationParseError::Unrecognized => "confirmation answer must be yes or no"@,
        }
    }

    /// Returns the human-readable description of this error.
    pub fn to_string(&self) -> (s: String)
        ensures
            s@ == self.message(),
    {
        match self {
            ConfirmationParseError::Empty => "confirmation answer cannot be empty".to_owned(),
            ConfirmationParseError::Unrecognized =>
                "confirmation answer must be yes or no".to_owned(),
        }
    }
}

/// `word` means yes: `y` or `yes` in any ASCII case.
pub open spec fn is_yes_word(word: Seq<char>) -> bool {
    eq_ignore_ascii_case(word, seq!['y']) || eq_ignore_ascii_case(word, seq!['y', 'e', 's'])
}

/// `word` means no: `n` or `no` in any ASCII case.
pub open spec fn is_no_word(word: Seq<char>) -> bool {
    eq_ignore_ascii_case(word, seq!['n']) || eq_ignore_ascii_case(word, seq!['n', 'o'])
}

/// The outcome of parsing `input` as a confirmation answer.
pub open spec fn confirmation_of(input: Seq<char>) -> Result<YesNoAnswer, ConfirmationParseError> {
    let word = trim(input);
    if word.len() == 0 {
        Err(ConfirmationParseError::Empty)
    } else if is_yes_word(word) {
        Ok(YesNoAnswer::Yes)
    } else if is_no_word(word) {
        Ok(YesNoAnswer::No)
    } else {
        Err(ConfirmationParseError::Unrecognized)
    }
}

/// Surrounding whitespace does not change how an answer parses.
pub proof fn lemma_confirmation_ignores_surrounding_whitespace(input: Seq<char>)
    ensures
        confirmation_of(trim(input)) == confirmation_of(input),
{
    lemma_trim_idempotent(input);
}

/// ASCII case does not change how an answer parses.
pub proof fn lemma_confirmation_ignores_ascii_case(a: Seq<char>, b: Seq<char>)
    requires
        eq_ignore_ascii_case(a, b),
    ensures
        confirmation_of(a) == confirmation_of(b),
{
    lemma_trim_ignores_ascii_case(a, b);
    let (wa, wb) = (trim(a), trim(b));
    lemma_eq_ignore_ascii_case_sym(wa, wb);
    assert forall|lit: Seq<char>| eq_ignore_ascii_case(wa, lit) == eq_ignore_ascii_case(wb, lit) by {
        if eq_ignore_ascii_case(wa, lit) {
            lemma_eq_ignore_ascii_case_trans(wb, wa, lit);
        }
        if eq_ignore_ascii_case(wb, lit) {
            lemma_eq_ignore_ascii_case_trans(wa, wb, lit);
        }
    }
}

/// No answer means both yes and no.
pub proof fn lemma_yes_and_no_exclusive(word: Seq<char>)
    ensures
        !(is_yes_word(word) && is_no_word(word)),
{
    if is_yes_word(word) && is_no_word(word) {
        assert(word.len() > 0);
        assert(ascii_lower_code(word[0]) == ascii_lower_code('y'));
        assert(ascii_lower_code(word[0]) == ascii_lower_code('n'));
    }
}

/// How an answer parses: only whitespace is `Empty`; `y` or `yes` in any ASCII
/// case, with any surrounding whitespace, is yes; `n` or `no` likewise is no; and
/// anything else is `Unrecognized`.
pub proof fn lemma_confirmation_rule(input: Seq<char>)
    ensures
        (forall|i: int| 0 <= i < input.len() ==> is_whitespace(#[trigger] input[i]))
            ==> confirmation_of(input) == Err::<YesNoAnswer, ConfirmationParseError>(
            ConfirmationParseError::Empty,
        ),
        eq_ignore_ascii_case(trim(input), seq!['y']) || eq_ignore_ascii_case(
            trim(input),
            seq!['y', 'e', 's'],
        ) ==> confirmation_of(input) == Ok::<YesNoAnswer, ConfirmationParseError>(
            YesNoAnswer::Yes,
        ),
        eq_ignore_ascii_case(trim(input), seq!['n']) || eq_ignore_ascii_case(
            trim(input),
            seq!['n', 'o'],
        ) ==> confirmation_of(input) == Ok::<YesNoAnswer, ConfirmationParseError>(
            YesNoAnswer::No,
        ),
        confirmation_of(input) == Err::<YesNoAnswer, ConfirmationParseError>(
            ConfirmationParseError::Unrecognized,
        ) ==> {
            &&& trim(input).len() > 0
            &&& !eq_ignore_ascii_case(trim(input), seq!['y'])
            &&& !eq_ignore_ascii_case(trim(input), seq!['y', 'e', 's'])
            &&& !eq_ignore_ascii_case(trim(input), seq!['n'])
            &&& !eq_ignore_ascii_case(trim(input), seq!['n', 'o'])
        },
{
    lemma_trim_empty_iff_all_whitespace(input);
    lemma_yes_and_no_exclusive(trim(input));
}

/// Prompt text is accepted exactly when some character of it is not whitespace.
pub proof fn lemma_prompt_text_rule(text: Seq<char>)
    ensures
        trim(text).len() > 0 <==> exists|i: int| 0 <= i < text.len() && !is_whitespace(
            #[trigger] text[i],
        ),
{
    lemma_trim_empty_iff_all_whitespace(text);
}

/// Parses a yes/no confirmation answer.
///
/// Fails with [`ConfirmationParseError::Empty`] when `input` is only whitespace and
/// with [`ConfirmationParseError::Unrecognized`] when the trimmed answer is neither
/// yes nor no.
pub fn parse_confirmation(input: &str) -> (r: Result<YesNoAnswer, ConfirmationParseError>)
    ensures
        r == confirmation_of(input@),
{
    let trimmed = trim_str(input);
    let v = chars_of(trimmed);
    if v.len() == 0 {
        return Err(ConfirmationParseError::Empty);
    }
    let y: [char; 1] = ['y'];
    let yes: [char; 3] = ['y', 'e', 's'];
    let n: [char; 1] = ['n'];
    let no: [char; 2] = ['n', 'o'];
    assert(y@ =~= seq!['y']);
    assert(yes@ =~= seq!['y', 'e', 's']);
    assert(n@ =~= seq!['n']);
    assert(no@ =~= seq!['n', 'o']);
    if chars_eq_ignore_ascii_case(v.as_slice(), y.as_slice()) || chars_eq_ignore_ascii_case(
        v.as_slice(),
        yes.as_slice(),
    ) {
        Ok(YesNoAnswer::Yes)
    } else if chars_eq_ignore_ascii_case(v.as_slice(), n.as_slice()) || chars_eq_ignore_ascii_case(
        v.as_slice(),
        no.as_slice(),
    ) {
        Ok(YesNoAnswer::No)
    } else {
        Err(ConfirmationParseError::Unrecognized)
    }
}

/// Returns whether `input` parses as yes.
pub fn is_yes(input: &str) -> (b: bool)
    ensures
        b == (confirmation_of(input@) == Ok::<YesNoAnswer, ConfirmationParseError>(
            YesNoAnswer::Yes,
        )),
{
    match parse_confirmation(input) {
        Ok(YesNoAnswer::Yes) => true,
        _ => false,
    }
}

/// Returns whether `input` parses as no.
pub fn is_no(input: &str) -> (b: bool)
    ensures
        b == (confirmation_of(input@) == Ok::<YesNoAnswer, ConfirmationParseError>(
            YesNoAnswer::No,
        )),
{
    match parse_confirmation(input) {
        Ok(YesNoAnswer::No) => true,
        _ => false,
    }
}

} // verus!
