//! Command-line key/value option primitives (`--key=value` and `--key value`).
//!
//! An option name is non-empty ASCII letters, digits, and hyphens, neither
//! starting nor ending with a hyphen. A value is any string.
use vstd::prelude::*;

use crate::flag::spec_is_valid_long_flag_name;
use crate::text::{ascii_alphanumeric, chars_of, has_char, is_ascii_alphanumeric, push_char};

verus! {

/// Validation errors for CLI option names.
#[derive(Clone, Copy, Debug, PartialEq, Eq, Structural)]
pub enum OptionNameError {
    /// The option name was empty.
    Empty,
    /// The option name started or ended with a hyphen.
    EdgeHyphen,
    /// The option name contained a character outside the supported primitive set.
    InvalidCharacter,
}

impl OptionNameError {
    /// The human-readable description of this error.
    pub open spec fn message(self) -> Seq<char> {
        match self {
            OptionNameError::Empty => "option name cannot be empty"@,
            OptionNameError::EdgeHyphen => "option name cannot start or end with '-'"@,
            OptionNameError::InvalidCharacter =>
                "option name must be ASCII alphanumeric with optional internal hyphens"@,
        }
    }

    /// Returns the human-readable description of this error.
    pub fn to_string(&self) -> (s: String)
        ensures
            s@ == self.message(),
    {
        match self {
            OptionNameError::Empty => "option name cannot be empty".to_owned(),
            OptionNameError::EdgeHyphen => "option name cannot start or end with '-'".to_owned(),
            OptionNameError::InvalidCharacter =>
                "option name must be ASCII alphanumeric with optional internal hyphens".to_owned(),
        }
    }
}

/// Errors for primitive CLI option construction.
#[derive(Clone, Copy, Debug, PartialEq, Eq, Structural)]
pub enum CliOptionError {
    /// The option name was invalid.
    InvalidName(OptionNameError),
    /// The token did not begin with `--`.
    MissingLongPrefix,
    /// The token did not contain an equals sign.
    MissingEquals,
}

impl From<OptionNameError> for CliOptionError {
    fn from(error: OptionNameError) -> (e: Self)
        ensures
            e == CliOptionError::InvalidName(error),
    {
        CliOptionError::InvalidName(error)
    }
}

impl vstd::std_specs::convert::FromSpecImpl<OptionNameError> for CliOptionError {
    open spec fn obeys_from_spec() -> bool {
        true
    }

    open spec fn from_spec(v: OptionNameError) -> CliOptionError {
        CliOptionError::InvalidName(v)
    }
}

impl CliOptionError {
    /// The human-readable description of this error.
    pub open spec fn message(self) -> Seq<char> {
        match self {
            CliOptionError::InvalidName(e) => e.message(),
            CliOptionError::MissingLongPrefix => "option token must start with --"@,
            CliOptionError::MissingEquals => "option token must contain '='"@,
        }
    }

    /// Returns the human-readable description of this error.
    pub fn to_string(&self) -> (s: String)
        ensures
            s@ == self.message(),
    {
        match self {
            CliOptionError::InvalidName(e) => e.to_string(),
            CliOptionError::MissingLongPrefix => "option token must start with --".to_owned(),
            CliOptionError::MissingEquals => "option token must contain '='".to_owned(),
        }
    }
}

/// A character allowed in an option name.
pub open spec fn is_option_name_char(c: char) -> bool {
    is_ascii_alphanumeric(c) || c == '-'
}

/// The outcome of validating `name` as an option name; the first failing rule decides the error.
pub open spec fn option_name_check(name: Seq<char>) -> Result<(), OptionNameError> {
    if name.len() == 0 {
        Err(OptionNameError::Empty)
    } else if name[0] == '-' || name.last() == '-' {
        Err(OptionNameError::EdgeHyphen)
    } else if forall|i: int| 0 <= i < name.len() ==> is_option_name_char(#[trigger] name[i]) {
        Ok(())
    } else {
        Err(OptionNameError::InvalidCharacter)
    }
}

/// `name` is a valid option name.
pub open spec fn spec_is_valid_option_name(name: Seq<char>) -> bool {
    option_name_check(name) is Ok
}

/// An option name is valid exactly when it is non-empty, neither starts nor ends
/// with `-`, and every character is an ASCII letter, an ASCII digit, or `-`.
pub proof fn lemma_option_name_rule(name: Seq<char>)
    ensures
        spec_is_valid_option_name(name) <==> {
            &&& name.len() > 0
            &&& name[0] != '-'
            &&& name[name.len() - 1] != '-'
            &&& forall|i: int|
                0 <= i < name.len() ==> ('a' <= #[trigger] name[i] && name[i] <= 'z') || ('A'
                    <= name[i] && name[i] <= 'Z') || ('0' <= name[i] && name[i] <= '9') || name[i]
                    == '-'
        },
{
}

/// Which error a rejected option name gets: `Empty`, then `EdgeHyphen` when it
/// starts or ends with `-`, and otherwise `InvalidCharacter`, which only a
/// character other than an ASCII letter, digit, or `-` causes.
pub proof fn lemma_option_name_errors(name: Seq<char>)
    ensures
        name.len() == 0 ==> option_name_check(name) == Err::<(), OptionNameError>(
            OptionNameError::Empty,
        ),
        name.len() > 0 && (name[0] == '-' || name[name.len() - 1] == '-') ==> option_name_check(
            name,
        ) == Err::<(), OptionNameError>(OptionNameError::EdgeHyphen),
        option_name_check(name) == Err::<(), OptionNameError>(OptionNameError::InvalidCharacter)
            ==> exists|i: int|
            0 <= i < name.len() && !(('a' <= #[trigger] name[i] && name[i] <= 'z') || ('A'
                <= name[i] && name[i] <= 'Z') || ('0' <= name[i] && name[i] <= '9') || name[i]
                == '-'),
{
}

/// How an `--key=value` token is split: one without the `--` prefix is
/// `MissingLongPrefix`; one with it but no `=` after it is `MissingEquals`; and a
/// successful split gives the part before the first `=` (which holds no `=`) and
/// everything after it.
pub proof fn lemma_equals_token_split(token: Seq<char>)
    ensures
        !(token.len() >= 2 && token[0] == '-' && token[1] == '-') ==> parse_equals_token(token)
            == Err::<(Seq<char>, Seq<char>), CliOptionError>(CliOptionError::MissingLongPrefix),
        (token.len() >= 2 && token[0] == '-' && token[1] == '-' && forall|i: int|
            2 <= i < token.len() ==> #[trigger] token[i] != '=') ==> parse_equals_token(token)
            == Err::<(Seq<char>, Seq<char>), CliOptionError>(CliOptionError::MissingEquals),
        parse_equals_token(token) matches Ok((name, value)) ==> {
            &&& token == seq!['-', '-'] + name + seq!['='] + value
            &&& forall|i: int| 0 <= i < name.len() ==> #[trigger] name[i] != '='
        },
{
    let rest = token.skip(2);
    lemma_first_index(rest, '=');
    if token.len() >= 2 && token[0] == '-' && token[1] == '-' && forall|i: int|
        2 <= i < token.len() ==> #[trigger] token[i] != '=' {
        assert(!has_char(rest, '=')) by {
            if has_char(rest, '=') {
                let k = choose|k: int| 0 <= k < rest.len() && rest[k] == '=';
                assert(token[k + 2] == '=');
            }
        }
    }
    lemma_equals_token_of_parse(token);
    if parse_equals_token(token) is Ok {
        let i = first_index(rest, '=');
        assert forall|j: int| 0 <= j < rest.take(i).len() implies #[trigger] rest.take(i)[j]
            != '=' by {
            assert(rest.take(i)[j] == rest[j]);
        }
    }
}

/// Option names follow the same rule as long flag names.
pub proof fn lemma_option_name_is_long_flag_name(name: Seq<char>)
    ensures
        spec_is_valid_option_name(name) <==> spec_is_valid_long_flag_name(name),
{
}

/// The position of the first `c` in `s`, or `s.len()` when there is none.
pub open spec fn first_index(s: Seq<char>, c: char) -> int
    decreases s.len(),
{
    if s.len() == 0 || s[0] == c {
        0
    } else {
        1 + first_index(s.drop_first(), c)
    }
}

/// `first_index` is the only position of `c` with no `c` before it.
pub proof fn lemma_first_index(s: Seq<char>, c: char)
    ensures
        0 <= first_index(s, c) <= s.len(),
        first_index(s, c) < s.len() <==> has_char(s, c),
        first_index(s, c) < s.len() ==> s[first_index(s, c)] == c,
        forall|j: int| 0 <= j < first_index(s, c) ==> s[j] != c,
    decreases s.len(),
{
    if s.len() > 0 && s[0] != c {
        let t = s.drop_first();
        lemma_first_index(t, c);
        assert forall|j: int| 0 <= j < first_index(s, c) implies s[j] != c by {
            if j > 0 {
                assert(s[j] == t[j - 1]);
            }
        }
        if has_char(s, c) {
            let k = choose|k: int| 0 <= k < s.len() && s[k] == c;
            assert(t[k - 1] == c);
        }
        if has_char(t, c) {
            let k = choose|k: int| 0 <= k < t.len() && t[k] == c;
            assert(s[k + 1] == c);
        }
    } else if s.len() > 0 {
        assert(s[0] == c);
    }
}

/// A position holding `c` with no `c` before it is `first_index`.
pub proof fn lemma_first_index_at(s: Seq<char>, c: char, i: int)
    requires
        0 <= i <= s.len(),
        i < s.len() ==> s[i] == c,
        forall|j: int| 0 <= j < i ==> s[j] != c,
    ensures
        first_index(s, c) == i,
    decreases s.len(),
{
    lemma_first_index(s, c);
    if first_index(s, c) < i {
        assert(s[first_index(s, c)] == c);
    } else if first_index(s, c) > i {
        assert(s[i] != c);
    }
}

/// The `--key=value` token form of a name and value.
pub open spec fn equals_token(name: Seq<char>, value: Seq<char>) -> Seq<char> {
    seq!['-', '-'] + name + seq!['='] + value
}

/// The outcome of splitting `token` as `--key=value`.
///
/// The token must start with `--`; the rest is split at its first `=`; the part
/// before it must be a valid option name. The checks are made in that order.
pub open spec fn parse_equals_token(token: Seq<char>) -> Result<(Seq<char>, Seq<char>), CliOptionError> {
    if !(token.len() >= 2 && token[0] == '-' && token[1] == '-') {
        Err(CliOptionError::MissingLongPrefix)
    } else {
        let rest = token.skip(2);
        let i = first_index(rest, '=');
        if i >= rest.len() {
            Err(CliOptionError::MissingEquals)
        } else {
            let name = rest.take(i);
            match option_name_check(name) {
                Ok(()) => Ok((name, rest.skip(i + 1))),
                Err(e) => Err(CliOptionError::InvalidName(e)),
            }
        }
    }
}

/// Splitting the token of a valid name and any value gives back that name and value.
pub proof fn lemma_parse_equals_token_of(name: Seq<char>, value: Seq<char>)
    requires
        spec_is_valid_option_name(name),
    ensures
        parse_equals_token(equals_token(name, value)) == Ok::<
            (Seq<char>, Seq<char>),
            CliOptionError,
        >((name, value)),
{
    let token = equals_token(name, value);
    let rest = token.skip(2);
    assert(rest =~= name + seq!['='] + value);
    assert forall|j: int| 0 <= j < name.len() implies rest[j] != '=' by {
        assert(rest[j] == name[j]);
        assert(is_option_name_char(name[j]));
    }
    lemma_first_index_at(rest, '=', name.len() as int);
    assert(rest.take(name.len() as int) =~= name);
    assert(rest.skip(name.len() as int + 1) =~= value);
}

/// A token that splits into a name and value is exactly their token, and the name is valid.
pub proof fn lemma_equals_token_of_parse(token: Seq<char>)
    ensures
        parse_equals_token(token) matches Ok((name, value)) ==> equals_token(name, value) == token
            && spec_is_valid_option_name(name),
{
    if parse_equals_token(token) is Ok {
        let rest = token.skip(2);
        let i = first_index(rest, '=');
        lemma_first_index(rest, '=');
        assert(rest.take(i) + seq!['='] + rest.skip(i + 1) =~= rest);
        assert(seq!['-', '-'] + rest =~= token);
        assert(equals_token(rest.take(i), rest.skip(i + 1)) =~= token);
    }
}

/// A validated CLI option name without a leading `--`.
#[derive(Debug, PartialEq, Eq, Hash)]
pub struct CliOptionName {
    name: String,
}

impl View for CliOptionName {
    type V = Seq<char>;

    closed spec fn view(&self) -> Seq<char> {
        self.name@
    }
}

impl CliOptionName {
    #[verifier::type_invariant]
    spec fn inv(self) -> bool {
        spec_is_valid_option_name(self.name@)
    }

    /// Creates a validated CLI option name.
    ///
    /// Fails when `name` is empty, starts or ends with `-`, or holds a character
    /// other than an ASCII letter, digit, or hyphen.
    pub fn new(name: &str) -> (r: Result<Self, OptionNameError>)
        ensures
            r is Ok <==> spec_is_valid_option_name(name@),
            r is Ok <==> (name@.len() > 0 && name@[0] != '-' && name@[name@.len() - 1] != '-'
                && forall|i: int|
                0 <= i < name@.len() ==> ('a' <= #[trigger] name@[i] && name@[i] <= 'z') || ('A'
                    <= name@[i] && name@[i] <= 'Z') || ('0' <= name@[i] && name@[i] <= '9')
                    || name@[i] == '-'),
            r matches Ok(n) ==> n@ == name@,
            r matches Err(e) ==> option_name_check(name@) == Err::<(), OptionNameError>(e),
    {
        proof {
            lemma_option_name_rule(name@);
        }
        match validate_option_name(name) {
            Ok(()) => Ok(CliOptionName { name: name.to_owned() }),
            Err(e) => Err(e),
        }
    }

    /// Returns the option name without a leading `--`.
    pub fn as_str(&self) -> (s: &str)
        ensures
            s@ == self@,
            spec_is_valid_option_name(s@),
    {
        proof {
            use_type_invariant(self);
        }
        self.name.as_str()
    }
}

impl AsRef<str> for CliOptionName {
    fn as_ref(&self) -> (s: &str)
        ensures
            s@ == self@,
    {
        self.name.as_str()
    }
}

impl Clone for CliOptionName {
    fn clone(&self) -> (c: Self)
        ensures
            c@ == self@,
    {
        proof {
            use_type_invariant(self);
        }
        CliOptionName { name: self.name.clone() }
    }
}

/// An owned CLI option value.
#[derive(Debug, Default, PartialEq, Eq, Hash)]
pub struct OptionValue {
    value: String,
}

impl View for OptionValue {
    type V = Seq<char>;

    closed spec fn view(&self) -> Seq<char> {
        self.value@
    }
}

impl OptionValue {
    /// Creates an owned option value.
    pub fn new(value: &str) -> (v: Self)
        ensures
            v@ == value@,
    {
        OptionValue { value: value.to_owned() }
    }

    /// Returns the borrowed value.
    pub fn as_str(&self) -> (s: &str)
        ensures
            s@ == self@,
    {
        self.value.as_str()
    }

    /// Returns the owned value.
    pub fn into_string(self) -> (s: String)
        ensures
            s@ == self@,
    {
        self.value
    }
}

impl Clone for OptionValue {
    fn clone(&self) -> (c: Self)
        ensures
            c@ == self@,
    {
        OptionValue { value: self.value.clone() }
    }
}

impl AsRef<str> for OptionValue {
    fn as_ref(&self) -> (s: &str)
        ensures
            s@ == self@,
    {
        self.value.as_str()
    }
}

impl From<String> for OptionValue {
    fn from(value: String) -> (v: Self)
        ensures
            v@ == value@,
    {
        OptionValue { value }
    }
}

/// What `from` returns is stated by its own `ensures`, over the view; no spec
/// value stands for it, since a `String` inside is known only by its view.
impl vstd::std_specs::convert::FromSpecImpl<String> for OptionValue {
    open spec fn obeys_from_spec() -> bool {
        false
    }

    open spec fn from_spec(v: String) -> OptionValue {
        vstd::pervasive::arbitrary()
    }
}

impl<'a> From<&'a str> for OptionValue {
    fn from(value: &'a str) -> (v: Self)
        ensures
            v@ == value@,
    {
        OptionValue::new(value)
    }
}

/// What `from` returns is stated by its own `ensures`, over the view; no spec
/// value stands for it, since a `String` inside is known only by its view.
impl<'a> vstd::std_specs::convert::FromSpecImpl<&'a str> for OptionValue {
    open spec fn obeys_from_spec() -> bool {
        false
    }

    open spec fn from_spec(v: &'a str) -> OptionValue {
        vstd::pervasive::arbitrary()
    }
}

/// A primitive command-line key/value option.
#[derive(Debug, PartialEq, Eq, Hash)]
pub struct CliOption {
    name: CliOptionName,
    value: OptionValue,
}

impl View for CliOption {
    type V = (Seq<char>, Seq<char>);

    closed spec fn view(&self) -> (Seq<char>, Seq<char>) {
        (self.name@, self.value@)
    }
}

impl CliOption {
    /// Creates a CLI option from an already validated name and owned value.
    pub fn new(name: CliOptionName, value: OptionValue) -> (o: Self)
        ensures
            o@ == (name@, value@),
    {
        CliOption { name, value }
    }

    /// Creates a CLI option from a name and value pair, such as `--key value`.
    ///
    /// Fails with [`CliOptionError::InvalidName`] when `name` is not a valid option name.
    pub fn from_name_value(name: &str, value: &str) -> (r: Result<Self, CliOptionError>)
        ensures
            r is Ok <==> spec_is_valid_option_name(name@),
            r matches Ok(o) ==> o@ == (name@, value@),
            r matches Err(e) ==> option_name_check(name@) matches Err(ne) && e
                == CliOptionError::InvalidName(ne),
    {
        match CliOptionName::new(name) {
            Ok(n) => Ok(CliOption::new(n, OptionValue::new(value))),
            Err(e) => Err(CliOptionError::InvalidName(e)),
        }
    }

    /// Creates a CLI option from a token like `--key=value`; see [`split_equals_token`].
    pub fn from_equals_token(token: &str) -> (r: Result<Self, CliOptionError>)
        ensures
            r matches Ok(o) ==> parse_equals_token(token@) == Ok::<
                (Seq<char>, Seq<char>),
                CliOptionError,
            >(o@),
            r matches Err(e) ==> parse_equals_token(token@) == Err::<
                (Seq<char>, Seq<char>),
                CliOptionError,
            >(e),
    {
        split_equals_token(token)
    }

    /// Returns the option name.
    pub fn name(&self) -> (n: &CliOptionName)
        ensures
            n@ == self@.0,
    {
        &self.name
    }

    /// Returns the option value.
    pub fn value(&self) -> (v: &OptionValue)
        ensures
            v@ == self@.1,
    {
        &self.value
    }

    /// Returns the `--key=value` token form.
    pub fn to_equals_token(&self) -> (s: String)
        ensures
            s@ == equals_token(self@.0, self@.1),
            parse_equals_token(s@) == Ok::<(Seq<char>, Seq<char>), CliOptionError>(self@),
    {
        let name = self.name.as_str();
        let mut s = String::new();
        push_char(&mut s, '-');
        push_char(&mut s, '-');
        s.append(name);
        push_char(&mut s, '=');
        s.append(self.value.as_str());
        proof {
            assert(s@ =~= equals_token(self@.0, self@.1));
            lemma_parse_equals_token_of(self@.0, self@.1);
        }
        s
    }
}

impl Clone for CliOption {
    fn clone(&self) -> (c: Self)
        ensures
            c@ == self@,
    {
        CliOption { name: self.name.clone(), value: self.value.clone() }
    }
}

/// Returns whether `name` is a valid primitive CLI option name.
pub fn is_valid_option_name(name: &str) -> (b: bool)
    ensures
        b == spec_is_valid_option_name(name@),
{
    validate_option_name(name).is_ok()
}

/// Splits a token like `--key=value` into a primitive CLI option.
///
/// Fails with [`CliOptionError::MissingLongPrefix`] when the token does not start
/// with `--`, then with [`CliOptionError::MissingEquals`] when no `=` follows, then
/// with [`CliOptionError::InvalidName`] when the part before the first `=` is not a
/// valid option name. The value is everything after the first `=`.
pub fn split_equals_token(token: &str) -> (r: Result<CliOption, CliOptionError>)
    ensures
        r matches Ok(o) ==> parse_equals_token(token@) == Ok::<
            (Seq<char>, Seq<char>),
            CliOptionError,
        >(o@),
        r matches Err(e) ==> parse_equals_token(token@) == Err::<
            (Seq<char>, Seq<char>),
            CliOptionError,
        >(e),
{
    let v = chars_of(token);
    let n = v.len();
    if !(n >= 2 && v[0] == '-' && v[1] == '-') {
        return Err(CliOptionError::MissingLongPrefix);
    }
    let ghost rest = token@.skip(2);
    let mut i: usize = 2;
    while i < n && v[i] != '='
        invariant
            2 <= i <= n == v.len(),
            v@ == token@,
            rest == v@.skip(2),
            forall|j: int| 0 <= j < i - 2 ==> rest[j] != '=',
        decreases n - i,
    {
        i = i + 1;
    }
    proof {
        lemma_first_index_at(rest, '=', i - 2);
    }
    if i == n {
        return Err(CliOptionError::MissingEquals);
    }
    let name = token.substring_char(2, i);
    let value = token.substring_char(i + 1, n);
    assert(name@ =~= rest.take(i - 2));
    assert(value@ =~= rest.skip(i - 2 + 1));
    CliOption::from_name_value(name, value)
}

fn validate_option_name(name: &str) -> (r: Result<(), OptionNameError>)
    ensures
        r == option_name_check(name@),
{
    let v = chars_of(name);
    let n = v.len();
    if n == 0 {
        return Err(OptionNameError::Empty);
    }
    if v[0] == '-' || v[n - 1] == '-' {
        return Err(OptionNameError::EdgeHyphen);
    }
    let mut i: usize = 0;
    while i < n
        invariant
            i <= n == v.len(),
            v@ == name@,
            n > 0,
            v@[0] != '-' && v@.last() != '-',
            forall|k: int| 0 <= k < i ==> is_option_name_char(#[trigger] v@[k]),
        decreases n - i,
    {
        if !(ascii_alphanumeric(v[i]) || v[i] == '-') {
            assert(!is_option_name_char(v@[i as int]));
            return Err(OptionNameError::InvalidCharacter);
        }
        i = i + 1;
    }
    Ok(())
}

} // verus!
