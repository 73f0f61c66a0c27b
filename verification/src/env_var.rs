//! Environment variable names, values, and the decisions made on a read.
//!
//! A name is non-empty, does not start with an ASCII digit, and holds only
//! ASCII letters, digits, and underscores. Reading the process environment is
//! left to the caller, which hands the outcome of the read to the functions here.
use vstd::prelude::*;

use crate::text::{ascii_alphanumeric, ascii_digit, chars_of, is_ascii_alphanumeric, is_ascii_digit};

verus! {

/// Validation errors for environment variable names.
#[derive(Clone, Copy, Debug, PartialEq, Eq, Structural)]
pub enum EnvVarNameError {
    /// The variable name was empty.
    Empty,
    /// The variable name started with an ASCII digit.
    StartsWithDigit,
    /// The variable name contained an unsupported character.
    InvalidCharacter,
}

impl EnvVarNameError {
    /// The human-readable description of this error.
    pub open spec fn message(self) -> Seq<char> {
        match self {
            EnvVarNameError::Empty => "environment variable name cannot be empty"@,
            EnvVarNameError::StartsWithDigit =>
                "environment variable name cannot start with a digit"@,
            EnvVarNameError::InvalidCharacter =>
                "environment variable name must use ASCII letters, digits, and underscores"@,
        }
    }

    /// Returns the human-readable description of this error.
    pub fn to_string(&self) -> (s: String)
        ensures
            s@ == self.message(),
    {
        match self {
            EnvVarNameError::Empty => "environment variable name cannot be empty".to_owned(),
            EnvVarNameError::StartsWithDigit =>
                "environment variable name cannot start with a digit".to_owned(),
            EnvVarNameError::InvalidCharacter =>
                "environment variable name must use ASCII letters, digits, and underscores".to_owned(),
        }
    }
}

/// A character allowed in an environment variable name.
pub open spec fn is_env_var_name_char(c: char) -> bool {
    is_ascii_alphanumeric(c) || c == '_'
}

/// The outcome of validating `name`; the first failing rule decides the error.
pub open spec fn env_var_name_check(name: Seq<char>) -> Result<(), EnvVarNameError> {
    if name.len() == 0 {
        Err(EnvVarNameError::Empty)
    } else if is_ascii_digit(name[0]) {
        Err(EnvVarNameError::StartsWithDigit)
    } else if forall|i: int| 0 <= i < name.len() ==> is_env_var_name_char(#[trigger] name[i]) {
        Ok(())
    } else {
        Err(EnvVarNameError::InvalidCharacter)
    }
}

/// `name` is a valid environment variable name.
pub open spec fn spec_is_valid_env_var_name(name: Seq<char>) -> bool {
    env_var_name_check(name) is Ok
}

/// An environment variable name is valid exactly when it is non-empty, does not
/// start with an ASCII digit, and every character is an ASCII letter of either
/// case, an ASCII digit, or `_`.
pub proof fn lemma_env_var_name_rule(name: Seq<char>)
    ensures
        spec_is_valid_env_var_name(name) <==> {
            &&& name.len() > 0
            &&& !('0' <= name[0] && name[0] <= '9')
            &&& forall|i: int|
                0 <= i < name.len() ==> ('a' <= #[trigger] name[i] && name[i] <= 'z') || ('A'
                    <= name[i] && name[i] <= 'Z') || ('0' <= name[i] && name[i] <= '9') || name[i]
                    == '_'
        },
{
}

/// Which error a rejected name gets: `Empty`, then `StartsWithDigit` for a
/// leading ASCII digit, and otherwise `InvalidCharacter`, which only a character
/// other than an ASCII letter, digit, or `_` causes.
pub proof fn lemma_env_var_name_errors(name: Seq<char>)
    ensures
        name.len() == 0 ==> env_var_name_check(name) == Err::<(), EnvVarNameError>(
            EnvVarNameError::Empty,
        ),
        name.len() > 0 && '0' <= name[0] && name[0] <= '9' ==> env_var_name_check(name) == Err::<
            (),
            EnvVarNameError,
        >(EnvVarNameError::StartsWithDigit),
        env_var_name_check(name) == Err::<(), EnvVarNameError>(EnvVarNameError::InvalidCharacter)
            ==> exists|i: int|
            0 <= i < name.len() && !(('a' <= #[trigger] name[i] && name[i] <= 'z') || ('A'
                <= name[i] && name[i] <= 'Z') || ('0' <= name[i] && name[i] <= '9') || name[i]
                == '_'),
{
}

/// An owned, validated environment variable name.
#[derive(Debug, PartialEq, Eq, Hash)]
pub struct EnvVarName {
    name: String,
}

impl View for EnvVarName {
    type V = Seq<char>;

    closed spec fn view(&self) -> Seq<char> {
        self.name@
    }
}

impl EnvVarName {
    #[verifier::type_invariant]
    spec fn inv(self) -> bool {
        spec_is_valid_env_var_name(self.name@)
    }

    /// Creates a validated environment variable name.
    ///
    /// Fails when `name` is empty, starts with an ASCII digit, or holds a character
    /// other than an ASCII letter, digit, or underscore.
    pub fn new(name: &str) -> (r: Result<Self, EnvVarNameError>)
        ensures
            r is Ok <==> spec_is_valid_env_var_name(name@),
            r is Ok <==> (name@.len() > 0 && !('0' <= name@[0] && name@[0] <= '9') && forall|
                i: int,
            |
                0 <= i < name@.len() ==> ('a' <= #[trigger] name@[i] && name@[i] <= 'z') || ('A'
                    <= name@[i] && name@[i] <= 'Z') || ('0' <= name@[i] && name@[i] <= '9')
                    || name@[i] == '_'),
            r matches Ok(n) ==> n@ == name@,
            r matches Err(e) ==> env_var_name_check(name@) == Err::<(), EnvVarNameError>(e),
    {
        proof {
            lemma_env_var_name_rule(name@);
        }
        match validate_env_var_name(name) {
            Ok(()) => Ok(EnvVarName { name: name.to_owned() }),
            Err(e) => Err(e),
        }
    }

    /// Returns the environment variable name.
    pub fn as_str(&self) -> (s: &str)
        ensures
            s@ == self@,
            spec_is_valid_env_var_name(s@),
    {
        proof {
            use_type_invariant(self);
        }
        self.name.as_str()
    }
}

impl AsRef<str> for EnvVarName {
    fn as_ref(&self) -> (s: &str)
        ensures
            s@ == self@,
    {
        self.name.as_str()
    }
}

impl Clone for EnvVarName {
    fn clone(&self) -> (c: Self)
        ensures
            c@ == self@,
    {
        proof {
            use_type_invariant(self);
        }
        EnvVarName { name: self.name.clone() }
    }
}

/// An owned environment variable value.
#[derive(Debug, Default, PartialEq, Eq, Hash)]
pub struct EnvVarValue {
    value: String,
}

impl View for EnvVarValue {
    type V = Seq<char>;

    closed spec fn view(&self) -> Seq<char> {
        self.value@
    }
}

impl EnvVarValue {
    /// Creates an owned environment variable value.
    pub fn new(value: &str) -> (v: Self)
        ensures
            v@ == value@,
    {
        EnvVarValue { value: value.to_owned() }
    }

    /// Returns the borrowed value.
    pub fn as_str(&self) -> (s: &str)
        ensures
            s@ == self@,
    {
        self.value.as_str()
    }

    /// Returns the owned value.
    pub fn into_string(self) -> (s: String)
        ensures
            s@ == self@,
    {
        self.value
    }
}

impl Clone for EnvVarValue {
    fn clone(&self) -> (c: Self)
        ensures
            c@ == self@,
    {
        EnvVarValue { value: self.value.clone() }
    }
}

impl AsRef<str> for EnvVarValue {
    fn as_ref(&self) -> (s: &str)
        ensures
            s@ == self@,
    {
        self.value.as_str()
    }
}

impl From<String> for EnvVarValue {
    fn from(value: String) -> (v: Self)
        ensures
            v@ == value@,
    {
        EnvVarValue { value }
    }
}

/// What `from` returns is stated by its own `ensures`, over the view; no spec
/// value stands for it, since a `String` inside is known only by its view.
impl vstd::std_specs::convert::FromSpecImpl<String> for EnvVarValue {
    open spec fn obeys_from_spec() -> bool {
        false
    }

    open spec fn from_spec(v: String) -> EnvVarValue {
        vstd::pervasive::arbitrary()
    }
}

impl<'a> From<&'a str> for EnvVarValue {
    fn from(value: &'a str) -> (v: Self)
        ensures
            v@ == value@,
    {
        EnvVarValue::new(value)
    }
}

/// What `from` returns is stated by its own `ensures`, over the view; no spec
/// value stands for it, since a `String` inside is known only by its view.
impl<'a> vstd::std_specs::convert::FromSpecImpl<&'a str> for EnvVarValue {
    open spec fn obeys_from_spec() -> bool {
        false
    }

    open spec fn from_spec(v: &'a str) -> EnvVarValue {
        vstd::pervasive::arbitrary()
    }
}

/// Errors returned while reading environment variables.
#[derive(Debug, PartialEq, Eq)]
pub enum EnvVarReadError {
    /// The environment variable was not present.
    NotPresent { name: String },
    /// The environment variable value was not valid Unicode.
    NotUnicode { name: String },
}

impl Clone for EnvVarReadError {
    fn clone(&self) -> (c: Self)
        ensures
            c == *self,
    {
        match self {
            EnvVarReadError::NotPresent { name } => EnvVarReadError::NotPresent { name: name.clone() },
            EnvVarReadError::NotUnicode { name } => EnvVarReadError::NotUnicode { name: name.clone() },
        }
    }
}

impl EnvVarReadError {
    /// The human-readable description of this error, naming the variable.
    pub open spec fn message(self) -> Seq<char> {
        match self {
            EnvVarReadError::NotPresent { name } => "environment variable "@ + name@
                + " is not set"@,
            EnvVarReadError::NotUnicode { name } => "environment variable "@ + name@
                + " is not valid Unicode"@,
        }
    }

    /// Returns the human-readable description of this error, naming the variable.
    pub fn to_string(&self) -> (s: String)
        ensures
            s@ == self.message(),
    {
        let mut s = "environment variable ".to_owned();
        match self {
            EnvVarReadError::NotPresent { name } => {
                s.append(name.as_str());
                s.append(" is not set");
            },
            EnvVarReadError::NotUnicode { name } => {
                s.append(name.as_str());
                s.append(" is not valid Unicode");
            },
        }
        s
    }
}

/// A typed environment variable wrapper with caller-provided parsing.
#[derive(Debug, PartialEq, Eq)]
pub struct TypedEnvVar<T> {
    name: EnvVarName,
    marker: std::marker::PhantomData<T>,
}

impl<T> View for TypedEnvVar<T> {
    type V = Seq<char>;

    closed spec fn view(&self) -> Seq<char> {
        self.name@
    }
}

impl<T> Clone for TypedEnvVar<T> {
    fn clone(&self) -> (c: Self)
        ensures
            c@ == self@,
    {
        TypedEnvVar { name: self.name.clone(), marker: std::marker::PhantomData }
    }
}

/// Errors returned while reading a typed environment variable.
#[derive(Clone, Debug, PartialEq, Eq)]
pub enum TypedEnvVarError<E> {
    /// Reading the environment variable failed.
    Read(EnvVarReadError),
    /// Parsing the environment variable value failed.
    Parse(E),
}

/// A parser's outcome, with a parse failure wrapped as [`TypedEnvVarError::Parse`].
pub open spec fn lift_parse<T, E>(p: Result<T, E>) -> Result<T, TypedEnvVarError<E>> {
    match p {
        Ok(t) => Ok(t),
        Err(e) => Err(TypedEnvVarError::Parse(e)),
    }
}

impl<T> TypedEnvVar<T> {
    /// Creates a typed environment variable wrapper.
    pub fn new(name: EnvVarName) -> (v: Self)
        ensures
            v@ == name@,
    {
        TypedEnvVar { name, marker: std::marker::PhantomData }
    }

    /// Returns the underlying environment variable name.
    pub fn name(&self) -> (n: &EnvVarName)
        ensures
            n@ == self@,
    {
        &self.name
    }

    /// Parses the outcome `read` of reading this variable with a caller-provided parser.
    ///
    /// A failed read is passed on as [`TypedEnvVarError::Read`] and the parser is
    /// not called; otherwise the parser's outcome is returned, a failure wrapped as
    /// [`TypedEnvVarError::Parse`].
    pub fn read_with<E, F: FnOnce(&str) -> Result<T, E>>(
        &self,
        read: Result<EnvVarValue, EnvVarReadError>,
        parser: F,
    ) -> (r: Result<T, TypedEnvVarError<E>>)
        requires
            forall|s: &str| call_requires(parser, (s,)),
        ensures
            read matches Err(e) ==> r == Err::<T, TypedEnvVarError<E>>(TypedEnvVarError::Read(e)),
            read matches Ok(v) ==> exists|s: &str, p: Result<T, E>|
                #![trigger call_ensures(parser, (s,), p)]
                s@ == v@ && call_ensures(parser, (s,), p) && r == lift_parse(p),
    {
        match read {
            Err(e) => Err(TypedEnvVarError::Read(e)),
            Ok(value) => {
                let s = value.as_str();
                let p = parser(s);
                let r = match p {
                    Ok(t) => Ok(t),
                    Err(e) => Err(TypedEnvVarError::Parse(e)),
                };
                assert(call_ensures(parser, (s,), p));
                r
            },
        }
    }
}

/// Returns whether `name` is valid for this crate's environment variable primitive.
pub fn is_valid_env_var_name(name: &str) -> (b: bool)
    ensures
        b == spec_is_valid_env_var_name(name@),
{
    validate_env_var_name(name).is_ok()
}

/// Turns the outcome `read` of reading a variable into an optional value.
///
/// A present value becomes `Some`, a missing variable becomes `None`, and any
/// other failure is passed on.
pub fn read_optional_env_var(read: Result<EnvVarValue, EnvVarReadError>) -> (r: Result<
    Option<EnvVarValue>,
    EnvVarReadError,
>)
    ensures
        read matches Ok(v) ==> r == Ok::<Option<EnvVarValue>, EnvVarReadError>(Some(v)),
        read matches Err(EnvVarReadError::NotPresent { .. }) ==> r == Ok::<
            Option<EnvVarValue>,
            EnvVarReadError,
        >(None),
        read matches Err(EnvVarReadError::NotUnicode { name }) ==> r == Err::<
            Option<EnvVarValue>,
            EnvVarReadError,
        >(EnvVarReadError::NotUnicode { name }),
{
    match read {
        Ok(value) => Ok(Some(value)),
        Err(EnvVarReadError::NotPresent { .. }) => Ok(None),
        Err(error) => Err(error),
    }
}

fn validate_env_var_name(name: &str) -> (r: Result<(), EnvVarNameError>)
    ensures
        r == env_var_name_check(name@),
{
    let v = chars_of(name);
    if v.len() == 0 {
        return Err(EnvVarNameError::Empty);
    }
    if ascii_digit(v[0]) {
        return Err(EnvVarNameError::StartsWithDigit);
    }
    let mut i: usize = 0;
    while i < v.len()
        invariant
            i <= v.len(),
            v@ == name@,
            v@.len() > 0,
            !is_ascii_digit(v@[0]),
            forall|k: int| 0 <= k < i ==> is_env_var_name_char(#[trigger] v@[k]),
        decreases v.len() - i,
    {
        if !(ascii_alphanumeric(v[i]) || v[i] == '_') {
            assert(!is_env_var_name_char(v@[i as int]));
            return Err(EnvVarNameError::InvalidCharacter);
        }
        i = i + 1;
    }
    Ok(())
}

} // verus!
