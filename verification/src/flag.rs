//! Short, long, and boolean flag primitives.
//!
//! A short flag is one ASCII letter or digit, written `-x`. A long flag name is
//! non-empty ASCII letters, digits, and hyphens, neither starting nor ending
//! with a hyphen, written `--name`.
use vstd::prelude::*;

use crate::text::{ascii_alphanumeric, chars_of, is_ascii_alphanumeric, push_char};

verus! {

/// Validation errors for primitive flag names and tokens.
#[derive(Clone, Copy, Debug, PartialEq, Eq, Structural)]
pub enum FlagNameError {
    /// A flag name was empty.
    Empty,
    /// A short flag was not a single ASCII alphanumeric character.
    InvalidShortFlag,
    /// A long flag name was not a plain ASCII flag name.
    InvalidLongFlagName,
    /// A token did not look like a supported primitive flag token.
    InvalidToken,
}

impl FlagNameError {
    /// The human-readable description of this error.
    pub open spec fn message(self) -> Seq<char> {
        match self {
            FlagNameError::Empty => "flag name cannot be empty"@,
            FlagNameError::InvalidShortFlag =>
                "short flag must be one ASCII alphanumeric character"@,
            FlagNameError::InvalidLongFlagName =>
                "long flag name must be ASCII alphanumeric with optional internal hyphens"@,
            FlagNameError::InvalidToken => "flag token must look like -x or --name"@,
        }
    }

    /// Returns the human-readable description of this error.
    pub fn to_string(&self) -> (s: String)
        ensures
            s@ == self.message(),
    {
        match self {
            FlagNameError::Empty => "flag name cannot be empty".to_owned(),
            FlagNameError::InvalidShortFlag =>
                "short flag must be one ASCII alphanumeric character".to_owned(),
            FlagNameError::InvalidLongFlagName =>
                "long flag name must be ASCII alphanumeric with optional internal hyphens".to_owned(),
            FlagNameError::InvalidToken => "flag token must look like -x or --name".to_owned(),
        }
    }
}

/// A character allowed in a long flag name.
pub open spec fn is_long_flag_char(c: char) -> bool {
    is_ascii_alphanumeric(c) || c == '-'
}

/// `name` is a valid long flag name (without the leading `--`).
pub open spec fn spec_is_valid_long_flag_name(name: Seq<char>) -> bool {
    &&& name.len() > 0
    &&& name[0] != '-'
    &&& name.last() != '-'
    &&& forall|i: int| 0 <= i < name.len() ==> is_long_flag_char(#[trigger] name[i])
}

/// The outcome of validating `name` as a long flag name.
pub open spec fn long_flag_check(name: Seq<char>) -> Result<(), FlagNameError> {
    if spec_is_valid_long_flag_name(name) {
        Ok(())
    } else if name.len() == 0 {
        Err(FlagNameError::Empty)
    } else {
        Err(FlagNameError::InvalidLongFlagName)
    }
}

/// What a flag is: a short flag character or a long flag name.
pub ghost enum FlagModel {
    Short(char),
    Long(Seq<char>),
}

/// The flag's name obeys the rules of its kind.
pub open spec fn flag_model_valid(m: FlagModel) -> bool {
    match m {
        FlagModel::Short(c) => is_ascii_alphanumeric(c),
        FlagModel::Long(name) => spec_is_valid_long_flag_name(name),
    }
}

/// The token form of a flag: `-x` or `--name`.
pub open spec fn flag_token(m: FlagModel) -> Seq<char> {
    match m {
        FlagModel::Short(c) => seq!['-', c],
        FlagModel::Long(name) => seq!['-', '-'] + name,
    }
}

/// The outcome of parsing `token` as a flag.
///
/// A token starting with `--` is a long flag named by the rest; otherwise a
/// token of `-` and exactly one more character is a short flag; anything else
/// is not a flag token.
pub open spec fn parse_flag_token(token: Seq<char>) -> Result<FlagModel, FlagNameError> {
    if token.len() >= 2 && token[0] == '-' && token[1] == '-' {
        let name = token.skip(2);
        match long_flag_check(name) {
            Ok(()) => Ok(FlagModel::Long(name)),
            Err(e) => Err(e),
        }
    } else if token.len() == 2 && token[0] == '-' {
        if is_ascii_alphanumeric(token[1]) {
            Ok(FlagModel::Short(token[1]))
        } else {
            Err(FlagNameError::InvalidShortFlag)
        }
    } else {
        Err(FlagNameError::InvalidToken)
    }
}

/// Parsing the token of a valid flag gives back that flag.
pub proof fn lemma_parse_flag_token_of(m: FlagModel)
    requires
        flag_model_valid(m),
    ensures
        parse_flag_token(flag_token(m)) == Ok::<FlagModel, FlagNameError>(m),
{
    match m {
        FlagModel::Short(c) => {},
        FlagModel::Long(name) => {
            assert((seq!['-', '-'] + name).skip(2) =~= name);
        },
    }
}

/// A token that parses as a flag is exactly that flag's token, and the flag is valid.
pub proof fn lemma_flag_token_of_parse(token: Seq<char>)
    ensures
        parse_flag_token(token) matches Ok(m) ==> flag_token(m) == token && flag_model_valid(m),
{
    if parse_flag_token(token) is Ok {
        let m = parse_flag_token(token)->Ok_0;
        if token.len() >= 2 && token[0] == '-' && token[1] == '-' {
            assert(seq!['-', '-'] + token.skip(2) =~= token);
        } else {
            assert(seq!['-', token[1]] =~= token);
        }
    }
}

/// A long flag name is valid exactly when it is non-empty, neither starts nor
/// ends with `-`, and every character is an ASCII letter, an ASCII digit, or `-`.
pub proof fn lemma_long_flag_name_rule(name: Seq<char>)
    ensures
        spec_is_valid_long_flag_name(name) <==> {
            &&& name.len() > 0
            &&& name[0] != '-'
            &&& name[name.len() - 1] != '-'
            &&& forall|i: int|
                0 <= i < name.len() ==> ('a' <= #[trigger] name[i] && name[i] <= 'z') || ('A'
                    <= name[i] && name[i] <= 'Z') || ('0' <= name[i] && name[i] <= '9') || name[i]
                    == '-'
        },
{
}

/// How tokens parse as flags: `--name` gives the long flag `name` when the name
/// is valid (an empty one is `Empty`, another invalid one `InvalidLongFlagName`);
/// `-x` gives the short flag `x` when `x` is an ASCII letter or digit (otherwise
/// `InvalidShortFlag`); a token that does not start with `-`, or is `-` alone, or
/// is `-` with two or more characters after it (not starting with `-`) is `InvalidToken`.
pub proof fn lemma_flag_token_rule(token: Seq<char>)
    ensures
        token.len() >= 2 && token[0] == '-' && token[1] == '-' ==> {
            &&& (spec_is_valid_long_flag_name(token.skip(2)) ==> parse_flag_token(token) == Ok::<
                FlagModel,
                FlagNameError,
            >(FlagModel::Long(token.skip(2))))
            &&& (token.len() == 2 ==> parse_flag_token(token) == Err::<FlagModel, FlagNameError>(
                FlagNameError::Empty,
            ))
            &&& (token.len() > 2 && !spec_is_valid_long_flag_name(token.skip(2))
                ==> parse_flag_token(token) == Err::<FlagModel, FlagNameError>(
                FlagNameError::InvalidLongFlagName,
            ))
        },
        token.len() == 2 && token[0] == '-' && token[1] != '-' ==> {
            &&& (('0' <= token[1] && token[1] <= '9') || ('A' <= token[1] && token[1] <= 'Z') || (
            'a' <= token[1] && token[1] <= 'z') ==> parse_flag_token(token) == Ok::<
                FlagModel,
                FlagNameError,
            >(FlagModel::Short(token[1])))
            &&& (!(('0' <= token[1] && token[1] <= '9') || ('A' <= token[1] && token[1] <= 'Z') || (
            'a' <= token[1] && token[1] <= 'z')) ==> parse_flag_token(token) == Err::<
                FlagModel,
                FlagNameError,
            >(FlagNameError::InvalidShortFlag))
        },
        (token.len() == 0 || token[0] != '-' || token.len() == 1 || (token.len() > 2 && token[1]
            != '-')) ==> parse_flag_token(token) == Err::<FlagModel, FlagNameError>(
            FlagNameError::InvalidToken,
        ),
{
}

/// A one-character short flag such as `-v`.
#[derive(Clone, Copy, Debug, PartialEq, Eq, Hash, Structural)]
pub struct ShortFlag {
    name: char,
}

impl View for ShortFlag {
    type V = char;

    closed spec fn view(&self) -> char {
        self.name
    }
}

impl ShortFlag {
    #[verifier::type_invariant]
    spec fn inv(self) -> bool {
        is_ascii_alphanumeric(self.name)
    }

    /// Creates a short flag from a single name character.
    ///
    /// Fails with [`FlagNameError::InvalidShortFlag`] when `name` is not ASCII alphanumeric.
    pub fn new(name: char) -> (r: Result<Self, FlagNameError>)
        ensures
            r is Ok <==> is_ascii_alphanumeric(name),
            r is Ok <==> (('0' <= name && name <= '9') || ('A' <= name && name <= 'Z') || ('a'
                <= name && name <= 'z')),
            r matches Ok(f) ==> f@ == name,
            r matches Err(e) ==> e == FlagNameError::InvalidShortFlag,
    {
        if is_valid_short_flag(name) {
            Ok(ShortFlag { name })
        } else {
            Err(FlagNameError::InvalidShortFlag)
        }
    }

    /// Returns the short flag name character.
    pub fn name(self) -> (c: char)
        ensures
            c == self@,
            is_ascii_alphanumeric(c),
    {
        proof {
            use_type_invariant(&self);
        }
        self.name
    }

    /// Returns the token form, such as `-v`.
    pub fn to_token(self) -> (s: String)
        ensures
            s@ == flag_token(FlagModel::Short(self@)),
            flag_model_valid(FlagModel::Short(self@)),
    {
        proof {
            use_type_invariant(&self);
        }
        let mut s = String::new();
        push_char(&mut s, '-');
        push_char(&mut s, self.name);
        assert(s@ =~= seq!['-', self.name]);
        s
    }
}

/// A long flag name such as `verbose` for `--verbose`.
#[derive(Debug, PartialEq, Eq, Hash)]
pub struct LongFlag {
    name: String,
}

impl View for LongFlag {
    type V = Seq<char>;

    closed spec fn view(&self) -> Seq<char> {
        self.name@
    }
}

impl LongFlag {
    #[verifier::type_invariant]
    spec fn inv(self) -> bool {
        spec_is_valid_long_flag_name(self.name@)
    }

    /// Creates a long flag from a validated name without the leading `--`.
    ///
    /// Fails with [`FlagNameError::Empty`] for an empty name and with
    /// [`FlagNameError::InvalidLongFlagName`] for any other invalid name.
    pub fn new(name: &str) -> (r: Result<Self, FlagNameError>)
        ensures
            r is Ok <==> spec_is_valid_long_flag_name(name@),
            r is Ok <==> (name@.len() > 0 && name@[0] != '-' && name@[name@.len() - 1] != '-'
                && forall|i: int|
                0 <= i < name@.len() ==> ('a' <= #[trigger] name@[i] && name@[i] <= 'z') || ('A'
                    <= name@[i] && name@[i] <= 'Z') || ('0' <= name@[i] && name@[i] <= '9')
                    || name@[i] == '-'),
            r matches Ok(f) ==> f@ == name@,
            r matches Err(e) ==> long_flag_check(name@) == Err::<(), FlagNameError>(e),
    {
        proof {
            lemma_long_flag_name_rule(name@);
        }
        if is_valid_long_flag_name(name) {
            Ok(LongFlag { name: name.to_owned() })
        } else if name.is_empty() {
            Err(FlagNameError::Empty)
        } else {
            Err(FlagNameError::InvalidLongFlagName)
        }
    }

    /// Returns the long flag name without the leading `--`.
    pub fn as_str(&self) -> (s: &str)
        ensures
            s@ == self@,
            spec_is_valid_long_flag_name(s@),
    {
        proof {
            use_type_invariant(self);
        }
        self.name.as_str()
    }

    /// Returns the token form, such as `--verbose`.
    pub fn to_token(&self) -> (s: String)
        ensures
            s@ == flag_token(FlagModel::Long(self@)),
            flag_model_valid(FlagModel::Long(self@)),
    {
        proof {
            use_type_invariant(self);
        }
        let mut s = String::new();
        push_char(&mut s, '-');
        push_char(&mut s, '-');
        s.append(self.name.as_str());
        assert(s@ =~= seq!['-', '-'] + self.name@);
        s
    }
}

impl AsRef<str> for LongFlag {
    fn as_ref(&self) -> (s: &str)
        ensures
            s@ == self@,
    {
        self.name.as_str()
    }
}

impl Clone for LongFlag {
    fn clone(&self) -> (c: Self)
        ensures
            c@ == self@,
    {
        proof {
            use_type_invariant(self);
        }
        LongFlag { name: self.name.clone() }
    }
}

/// A primitive flag token.
#[derive(Debug, PartialEq, Eq, Hash)]
pub enum Flag {
    /// A short flag such as `-v`.
    Short(ShortFlag),
    /// A long flag such as `--verbose`.
    Long(LongFlag),
}

impl View for Flag {
    type V = FlagModel;

    open spec fn view(&self) -> FlagModel {
        match self {
            Flag::Short(f) => FlagModel::Short(f@),
            Flag::Long(f) => FlagModel::Long(f@),
        }
    }
}

impl Flag {
    /// Parses a primitive flag token.
    ///
    /// The outcome is [`parse_flag_token`] of `token`: a `--name` token gives a
    /// long flag, a `-x` token a short flag, and the first failing rule decides the error.
    pub fn try_from_token(token: &str) -> (r: Result<Self, FlagNameError>)
        ensures
            r matches Ok(f) ==> parse_flag_token(token@) == Ok::<FlagModel, FlagNameError>(f@),
            r matches Err(e) ==> parse_flag_token(token@) == Err::<FlagModel, FlagNameError>(e),
    {
        let v = chars_of(token);
        let n = v.len();
        if n >= 2 && v[0] == '-' && v[1] == '-' {
            let name = token.substring_char(2, n);
            assert(name@ == token@.skip(2));
            return match LongFlag::new(name) {
                Ok(f) => Ok(Flag::Long(f)),
                Err(e) => Err(e),
            };
        }
        if n == 2 && v[0] == '-' {
            return match ShortFlag::new(v[1]) {
                Ok(f) => Ok(Flag::Short(f)),
                Err(e) => Err(e),
            };
        }
        Err(FlagNameError::InvalidToken)
    }

    /// Returns the token form for this flag.
    pub fn to_token(&self) -> (s: String)
        ensures
            s@ == flag_token(self@),
            flag_model_valid(self@),
            parse_flag_token(s@) == Ok::<FlagModel, FlagNameError>(self@),
    {
        let s = match self {
            Flag::Short(f) => f.to_token(),
            Flag::Long(f) => f.to_token(),
        };
        proof {
            lemma_parse_flag_token_of(self@);
        }
        s
    }
}

impl Clone for Flag {
    fn clone(&self) -> (c: Self)
        ensures
            c@ == self@,
    {
        match self {
            Flag::Short(f) => Flag::Short(*f),
            Flag::Long(f) => Flag::Long(f.clone()),
        }
    }
}

/// A flag paired with a boolean state.
#[derive(Debug, PartialEq, Eq, Hash)]
pub struct BooleanFlag {
    flag: Flag,
    enabled: bool,
}

impl View for BooleanFlag {
    type V = (FlagModel, bool);

    closed spec fn view(&self) -> (FlagModel, bool) {
        (self.flag@, self.enabled)
    }
}

impl BooleanFlag {
    /// Creates a boolean flag primitive.
    pub fn new(flag: Flag, enabled: bool) -> (b: Self)
        ensures
            b@ == (flag@, enabled),
    {
        BooleanFlag { flag, enabled }
    }

    /// Creates an enabled boolean flag.
    pub fn enabled(flag: Flag) -> (b: Self)
        ensures
            b@ == (flag@, true),
    {
        BooleanFlag::new(flag, true)
    }

    /// Creates a disabled boolean flag.
    pub fn disabled(flag: Flag) -> (b: Self)
        ensures
            b@ == (flag@, false),
    {
        BooleanFlag::new(flag, false)
    }

    /// Returns the underlying flag.
    pub fn flag(&self) -> (f: &Flag)
        ensures
            f@ == self@.0,
    {
        &self.flag
    }

    /// Returns whether the flag is enabled.
    pub fn is_enabled(&self) -> (b: bool)
        ensures
            b == self@.1,
    {
        self.enabled
    }
}

impl Clone for BooleanFlag {
    fn clone(&self) -> (c: Self)
        ensures
            c@ == self@,
    {
        BooleanFlag { flag: self.flag.clone(), enabled: self.enabled }
    }
}

/// Returns whether `name` is valid for a short flag.
pub fn is_valid_short_flag(name: char) -> (b: bool)
    ensures
        b == is_ascii_alphanumeric(name),
{
    ascii_alphanumeric(name)
}

/// Returns whether `name` is valid for a long flag without the leading `--`.
pub fn is_valid_long_flag_name(name: &str) -> (b: bool)
    ensures
        b == spec_is_valid_long_flag_name(name@),
{
    let v = chars_of(name);
    let n = v.len();
    if n == 0 || v[0] == '-' || v[n - 1] == '-' {
        return false;
    }
    let mut i: usize = 0;
    while i < n
        invariant
            i <= n == v.len(),
            v@ == name@,
            forall|k: int| 0 <= k < i ==> is_long_flag_char(#[trigger] v@[k]),
        decreases n - i,
    {
        if !(ascii_alphanumeric(v[i]) || v[i] == '-') {
            assert(!is_long_flag_char(v@[i as int]));
            return false;
        }
        i = i + 1;
    }
    true
}

} // verus!
