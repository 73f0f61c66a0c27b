//! Command and executable name primitives.
//!
//! A command name is non-empty, holds no path separator (`/` or `\`), and holds
//! no control character.
use vstd::prelude::*;

use crate::text::{chars_of, contains_seq, control, has_char, is_control};

verus! {

/// Validation errors for command and executable names.
#[derive(Clone, Copy, Debug, PartialEq, Eq, Structural)]
pub enum CommandNameError {
    /// The name was empty.
    Empty,
    /// The name contained a path separator.
    ContainsSeparator,
    /// The name contained a control character.
    InvalidCharacter,
    /// A path component could not be represented as Unicode.
    NonUnicode,
}

impl CommandNameError {
    /// The human-readable description of this error.
    pub open spec fn message(self) -> Seq<char> {
        match self {
            CommandNameError::Empty => "command name cannot be empty"@,
            CommandNameError::ContainsSeparator => "command name cannot contain path separators"@,
            CommandNameError::InvalidCharacter => "command name cannot contain control characters"@,
            CommandNameError::NonUnicode => "executable name is not valid Unicode"@,
        }
    }

    /// Returns the human-readable description of this error.
    pub fn to_string(&self) -> (s: String)
        ensures
            s@ == self.message(),
    {
        match self {
            CommandNameError::Empty => "command name cannot be empty".to_owned(),
            CommandNameError::ContainsSeparator =>
                "command name cannot contain path separators".to_owned(),
            CommandNameError::InvalidCharacter =>
                "command name cannot contain control characters".to_owned(),
            CommandNameError::NonUnicode => "executable name is not valid Unicode".to_owned(),
        }
    }
}

/// Some character of `name` is a control character.
pub open spec fn has_control(name: Seq<char>) -> bool {
    exists|i: int| 0 <= i < name.len() && is_control(#[trigger] name[i])
}

/// The outcome of validating `name` as a command name; the first failing rule decides the error.
pub open spec fn command_name_check(name: Seq<char>) -> Result<(), CommandNameError> {
    if name.len() == 0 {
        Err(CommandNameError::Empty)
    } else if has_char(name, '/') || has_char(name, '\\') {
        Err(CommandNameError::ContainsSeparator)
    } else if has_control(name) {
        Err(CommandNameError::InvalidCharacter)
    } else {
        Ok(())
    }
}

/// `name` is a valid command name.
pub open spec fn spec_is_valid_command_name(name: Seq<char>) -> bool {
    command_name_check(name) is Ok
}

/// A command name is valid exactly when it is non-empty and no character of it
/// is `/`, `\`, or a control character; any other character is allowed.
pub proof fn lemma_command_name_rule(name: Seq<char>)
    ensures
        spec_is_valid_command_name(name) <==> (name.len() > 0 && forall|i: int|
            0 <= i < name.len() ==> #[trigger] name[i] != '/' && name[i] != '\\' && !is_control(
                name[i],
            )),
{
    if name.len() > 0 && forall|i: int|
        0 <= i < name.len() ==> #[trigger] name[i] != '/' && name[i] != '\\' && !is_control(
            name[i],
        ) {
        assert(!has_char(name, '/'));
        assert(!has_char(name, '\\'));
        assert(!has_control(name));
    }
    if spec_is_valid_command_name(name) {
        assert forall|i: int| 0 <= i < name.len() implies #[trigger] name[i] != '/' && name[i]
            != '\\' && !is_control(name[i]) by {
            if name[i] == '/' {
                assert(has_char(name, '/'));
            }
            if name[i] == '\\' {
                assert(has_char(name, '\\'));
            }
            if is_control(name[i]) {
                assert(has_control(name));
            }
        }
    }
}

/// Which error a rejected name gets: `Empty` for the empty name, then
/// `ContainsSeparator` when some character is `/` or `\`, and otherwise
/// `InvalidCharacter`, which only a control character causes.
pub proof fn lemma_command_name_errors(name: Seq<char>)
    ensures
        name.len() == 0 ==> command_name_check(name) == Err::<(), CommandNameError>(
            CommandNameError::Empty,
        ),
        forall|i: int|
            #![trigger name[i]]
            0 <= i < name.len() && (name[i] == '/' || name[i] == '\\') ==> command_name_check(name)
                == Err::<(), CommandNameError>(CommandNameError::ContainsSeparator),
        command_name_check(name) == Err::<(), CommandNameError>(CommandNameError::InvalidCharacter)
            ==> exists|i: int| 0 <= i < name.len() && is_control(#[trigger] name[i]),
        command_name_check(name) != Err::<(), CommandNameError>(CommandNameError::NonUnicode),
{
    assert forall|i: int|
        #![trigger name[i]]
        0 <= i < name.len() && (name[i] == '/' || name[i] == '\\') implies command_name_check(name)
        == Err::<(), CommandNameError>(CommandNameError::ContainsSeparator) by {
        if name[i] == '/' {
            assert(has_char(name, '/'));
        } else {
            assert(has_char(name, '\\'));
        }
    }
}

/// A validated command name.
#[derive(Debug, PartialEq, Eq, Hash)]
pub struct CommandName {
    name: String,
}

impl View for CommandName {
    type V = Seq<char>;

    closed spec fn view(&self) -> Seq<char> {
        self.name@
    }
}

impl CommandName {
    #[verifier::type_invariant]
    spec fn inv(self) -> bool {
        spec_is_valid_command_name(self.name@)
    }

    /// Creates a validated command name.
    ///
    /// Fails when `name` is empty, contains a path separator, or contains a control character.
    pub fn new(name: &str) -> (r: Result<Self, CommandNameError>)
        ensures
            r is Ok <==> spec_is_valid_command_name(name@),
            r is Ok <==> (name@.len() > 0 && forall|i: int|
                0 <= i < name@.len() ==> #[trigger] name@[i] != '/' && name@[i] != '\\'
                    && !is_control(name@[i])),
            r matches Ok(c) ==> c@ == name@,
            r matches Err(e) ==> command_name_check(name@) == Err::<(), CommandNameError>(e),
    {
        proof {
            lemma_command_name_rule(name@);
        }
        match validate_command_name(name) {
            Ok(()) => Ok(CommandName { name: name.to_owned() }),
            Err(e) => Err(e),
        }
    }

    /// Returns the command name.
    pub fn as_str(&self) -> (s: &str)
        ensures
            s@ == self@,
            spec_is_valid_command_name(s@),
    {
        proof {
            use_type_invariant(self);
        }
        self.name.as_str()
    }

    /// Returns the owned command name.
    pub fn into_string(self) -> (s: String)
        ensures
            s@ == self@,
            spec_is_valid_command_name(s@),
    {
        proof {
            use_type_invariant(&self);
        }
        self.name
    }
}

impl AsRef<str> for CommandName {
    fn as_ref(&self) -> (s: &str)
        ensures
            s@ == self@,
    {
        self.name.as_str()
    }
}

impl Clone for CommandName {
    fn clone(&self) -> (c: Self)
        ensures
            c@ == self@,
    {
        proof {
            use_type_invariant(self);
        }
        CommandName { name: self.name.clone() }
    }
}

/// A validated executable or binary name.
#[derive(Debug, PartialEq, Eq, Hash)]
pub struct ExecutableName {
    command_name: CommandName,
}

impl View for ExecutableName {
    type V = Seq<char>;

    closed spec fn view(&self) -> Seq<char> {
        self.command_name@
    }
}

impl ExecutableName {
    /// Creates a validated executable name; the rules are those of [`CommandName::new`].
    pub fn new(name: &str) -> (r: Result<Self, CommandNameError>)
        ensures
            r is Ok <==> spec_is_valid_command_name(name@),
            r is Ok <==> (name@.len() > 0 && forall|i: int|
                0 <= i < name@.len() ==> #[trigger] name@[i] != '/' && name@[i] != '\\'
                    && !is_control(name@[i])),
            r matches Ok(c) ==> c@ == name@,
            r matches Err(e) ==> command_name_check(name@) == Err::<(), CommandNameError>(e),
    {
        proof {
            lemma_command_name_rule(name@);
        }
        match CommandName::new(name) {
            Ok(command_name) => Ok(ExecutableName { command_name }),
            Err(e) => Err(e),
        }
    }

    /// Extracts a validated executable name from the final component of a path;
    /// see [`executable_name_from_path`].
    pub fn from_path(path: &str) -> (r: Result<Self, CommandNameError>)
        ensures
            r matches Ok(e) ==> spec_is_valid_command_name(e@) && contains_seq(path@, e@),
            r matches Err(e) ==> e != CommandNameError::NonUnicode,
            r matches Ok(e) ==> (is_portable_path(path@) ==> portable_executable_name(path@)
                == Ok::<Seq<char>, CommandNameError>(e@)),
            r matches Err(e) ==> (is_portable_path(path@) ==> portable_executable_name(path@)
                == Err::<Seq<char>, CommandNameError>(e)),
            r matches Ok(e) ==> (is_plain_name(path@) ==> e@ == path@),
            r matches Err(e) ==> (is_plain_name(path@) ==> command_name_check(path@) == Err::<
                (),
                CommandNameError,
            >(e)),
    {
        executable_name_from_path(path)
    }

    /// Returns the executable name as a command name.
    pub fn command_name(&self) -> (c: &CommandName)
        ensures
            c@ == self@,
    {
        &self.command_name
    }

    /// Returns the display name.
    pub fn display_name(&self) -> (s: &str)
        ensures
            s@ == self@,
            spec_is_valid_command_name(s@),
    {
        self.command_name.as_str()
    }

    /// Returns the owned executable name.
    pub fn into_command_name(self) -> (c: CommandName)
        ensures
            c@ == self@,
    {
        self.command_name
    }
}

impl Clone for ExecutableName {
    fn clone(&self) -> (c: Self)
        ensures
            c@ == self@,
    {
        ExecutableName { command_name: self.command_name.clone() }
    }
}

/// Returns whether `name` is valid for this crate's command name primitive.
pub fn is_valid_command_name(name: &str) -> (b: bool)
    ensures
        b == spec_is_valid_command_name(name@),
{
    validate_command_name(name).is_ok()
}

/// A path whose final component is the same on every platform: it holds no `\`
/// (a separator only on Windows) and no `:` (a drive prefix only on Windows), and
/// it does not start with `//` (a network prefix only on Windows).
pub open spec fn is_portable_path(path: Seq<char>) -> bool {
    &&& !has_char(path, '\\')
    &&& !has_char(path, ':')
    &&& !(path.len() >= 2 && path[0] == '/' && path[1] == '/')
}

/// The position of the last `c` in `s`, or `-1` when there is none.
pub open spec fn last_index(s: Seq<char>, c: char) -> int
    decreases s.len(),
{
    if s.len() == 0 {
        -1
    } else if s.last() == c {
        s.len() - 1
    } else {
        last_index(s.drop_last(), c)
    }
}

/// The final component of a portable path, split at `/`.
///
/// Trailing `/` and `.` components are dropped; there is none when the path is
/// empty, is `/` or `.`, or ends in `..`.
pub open spec fn portable_file_name(path: Seq<char>) -> Option<Seq<char>>
    decreases path.len(),
{
    if path.len() == 0 {
        None
    } else if path.last() == '/' {
        portable_file_name(path.drop_last())
    } else {
        let component = path.skip(last_index(path, '/') + 1);
        if component == seq!['.'] {
            if path.len() == 1 {
                None
            } else {
                portable_file_name(path.drop_last())
            }
        } else if component == seq!['.', '.'] {
            None
        } else {
            Some(component)
        }
    }
}

/// The outcome of extracting an executable name from a portable path.
pub open spec fn portable_executable_name(path: Seq<char>) -> Result<Seq<char>, CommandNameError> {
    match portable_file_name(path) {
        None => Err(CommandNameError::Empty),
        Some(name) => match command_name_check(name) {
            Ok(()) => Ok(name),
            Err(e) => Err(e),
        },
    }
}

/// A plain name: non-empty, no separator or drive colon, and neither `.` nor `..`.
pub open spec fn is_plain_name(name: Seq<char>) -> bool {
    &&& name.len() > 0
    &&& !has_char(name, '/')
    &&& !has_char(name, '\\')
    &&& !has_char(name, ':')
    &&& name != seq!['.']
    &&& name != seq!['.', '.']
}

proof fn lemma_last_index_absent(s: Seq<char>, c: char)
    requires
        !has_char(s, c),
    ensures
        last_index(s, c) == -1,
    decreases s.len(),
{
    if s.len() > 0 {
        assert(s.last() == s[s.len() - 1]);
        assert(!has_char(s.drop_last(), c)) by {
            if has_char(s.drop_last(), c) {
                let k = choose|k: int| 0 <= k < s.drop_last().len() && s.drop_last()[k] == c;
                assert(s[k] == c);
            }
        }
        lemma_last_index_absent(s.drop_last(), c);
    }
}

/// A plain name is a portable path whose file name is the name itself.
pub proof fn lemma_plain_name_is_its_file_name(name: Seq<char>)
    requires
        is_plain_name(name),
    ensures
        is_portable_path(name),
        portable_file_name(name) == Some(name),
{
    assert(name.last() == name[name.len() - 1]);
    lemma_last_index_absent(name, '/');
    assert(name.skip(0) =~= name);
}

/// `std::path::Path::file_name` on `path`, as a string slice.
///
/// The final component is a slice of `path`, so when there is one it occurs in
/// `path`. On a portable path the std documentation fixes which component is
/// final: `/` separates components, repeated separators and a trailing `/` are
/// ignored, `.` components after the start are normalized away, and there is no
/// file name when the path ends in `..` or has no normal component left. On
/// other paths the answer depends on the platform's separators and prefixes, and
/// that is left unsaid.
#[verifier::external_body]
fn path_file_name(path: &str) -> (r: Option<&str>)
    ensures
        r matches Some(n) ==> contains_seq(path@, n@),
        r matches Some(n) ==> (is_portable_path(path@) ==> portable_file_name(path@) == Some(
            n@,
        )),
        r is None ==> (is_portable_path(path@) ==> portable_file_name(path@) is None),
{
    match std::path::Path::new(path).file_name() {
        Some(name) => name.to_str(),
        None => None,
    }
}

/// Turns the final component of a path, if any, into an executable name.
///
/// A missing component is reported as [`CommandNameError::Empty`]; a present one
/// is validated as by [`ExecutableName::new`].
pub fn executable_name_from_file_name(file_name: Option<&str>) -> (r: Result<
    ExecutableName,
    CommandNameError,
>)
    ensures
        file_name is None ==> r == Err::<ExecutableName, CommandNameError>(CommandNameError::Empty),
        file_name matches Some(n) ==> {
            &&& (r is Ok <==> spec_is_valid_command_name(n@))
            &&& (r matches Ok(e) ==> e@ == n@)
            &&& (r matches Err(e) ==> command_name_check(n@) == Err::<(), CommandNameError>(e))
        },
{
    match file_name {
        Some(name) => ExecutableName::new(name),
        None => Err(CommandNameError::Empty),
    }
}

/// Extracts a validated executable name from the final component of a path.
///
/// Fails with [`CommandNameError::Empty`] when the path has no final component,
/// and otherwise as [`ExecutableName::new`] does on that component. On a portable
/// path the outcome is [`portable_executable_name`]; a plain name, for one, is
/// its own file name.
pub fn executable_name_from_path(path: &str) -> (r: Result<ExecutableName, CommandNameError>)
    ensures
        r matches Ok(e) ==> spec_is_valid_command_name(e@) && contains_seq(path@, e@),
        r matches Err(e) ==> e != CommandNameError::NonUnicode,
        r matches Ok(e) ==> (is_portable_path(path@) ==> portable_executable_name(path@)
            == Ok::<Seq<char>, CommandNameError>(e@)),
        r matches Err(e) ==> (is_portable_path(path@) ==> portable_executable_name(path@)
            == Err::<Seq<char>, CommandNameError>(e)),
        r matches Ok(e) ==> (is_plain_name(path@) ==> e@ == path@),
        r matches Err(e) ==> (is_plain_name(path@) ==> command_name_check(path@) == Err::<
            (),
            CommandNameError,
        >(e)),
{
    let file_name = path_file_name(path);
    proof {
        if is_plain_name(path@) {
            lemma_plain_name_is_its_file_name(path@);
        }
    }
    executable_name_from_file_name(file_name)
}

fn validate_command_name(name: &str) -> (r: Result<(), CommandNameError>)
    ensures
        r == command_name_check(name@),
{
    let v = chars_of(name);
    if v.len() == 0 {
        return Err(CommandNameError::Empty);
    }
    let mut i: usize = 0;
    while i < v.len()
        invariant
            i <= v.len(),
            v@ == name@,
            v@.len() > 0,
            forall|k: int| 0 <= k < i ==> v@[k] != '/' && v@[k] != '\\',
        decreases v.len() - i,
    {
        if v[i] == '/' || v[i] == '\\' {
            proof {
                let k = i as int;
                if v@[k] == '/' {
                    assert(has_char(v@, '/'));
                } else {
                    assert(has_char(v@, '\\'));
                }
            }
            return Err(CommandNameError::ContainsSeparator);
        }
        i = i + 1;
    }
    assert(!has_char(v@, '/') && !has_char(v@, '\\'));
    let mut j: usize = 0;
    while j < v.len()
        invariant
            j <= v.len(),
            v@ == name@,
            v@.len() > 0,
            !has_char(v@, '/') && !has_char(v@, '\\'),
            forall|k: int| 0 <= k < j ==> !is_control(#[trigger] v@[k]),
        decreases v.len() - j,
    {
        if control(v[j]) {
            assert(0 <= j < v@.len() && is_control(v@[j as int]));
            assert(has_control(v@));
            return Err(CommandNameError::InvalidCharacter);
        }
        j = j + 1;
    }
    Ok(())
}

} // verus!
