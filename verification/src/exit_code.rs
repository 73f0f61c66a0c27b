//! Portable process exit status primitives.
//!
//! An exit code is a byte `0..=255`; `0` means success.
use vstd::prelude::*;

use crate::text::{decimal, push_decimal, push_signed_decimal, signed_decimal};

verus! {

/// A portable process exit code primitive.
#[derive(Clone, Copy, Debug, Default, PartialEq, Eq, PartialOrd, Ord, Hash, Structural)]
pub struct ExitCode(u8);

impl View for ExitCode {
    type V = u8;

    closed spec fn view(&self) -> u8 {
        self.0
    }
}

/// Exit code conversion errors.
#[derive(Clone, Copy, Debug, PartialEq, Eq, Structural)]
pub enum ExitCodeError {
    /// The signed integer did not fit in a portable `u8` exit code.
    OutOfRange(i32),
}

impl ExitCodeError {
    /// The human-readable description of this error, naming the rejected value.
    pub open spec fn message(self) -> Seq<char> {
        match self {
            ExitCodeError::OutOfRange(code) => "exit code "@ + signed_decimal(code as int)
                + " is outside 0..=255"@,
        }
    }

    /// Returns the human-readable description of this error, naming the rejected value.
    pub fn to_string(&self) -> (s: String)
        ensures
            s@ == self.message(),
    {
        match self {
            ExitCodeError::OutOfRange(code) => {
                let mut s = "exit code ".to_owned();
                push_signed_decimal(&mut s, *code as i64);
                s.append(" is outside 0..=255");
                s
            },
        }
    }
}

/// The exit code with the given byte value.
pub closed spec fn exit_code_of(code: u8) -> ExitCode {
    ExitCode(code)
}

/// The outcome of converting a signed integer to an exit code.
pub open spec fn exit_code_from_i32(code: i32) -> Result<ExitCode, ExitCodeError> {
    if 0 <= code <= 255 {
        Ok(exit_code_of(code as u8))
    } else {
        Err(ExitCodeError::OutOfRange(code))
    }
}

/// Every exit code is the one made from its byte, and the byte is its view.
pub proof fn lemma_exit_code_of(code: u8, c: ExitCode)
    ensures
        exit_code_of(code)@ == code,
        exit_code_of(c@) == c,
{
}

/// Converting an exit code to `i32` and back gives the same exit code.
pub proof fn lemma_exit_code_i32_round_trip(c: ExitCode)
    ensures
        exit_code_from_i32(c@ as i32) == Ok::<ExitCode, ExitCodeError>(c),
{
    lemma_exit_code_of(c@, c);
}

/// An `i32` accepted as an exit code converts back to itself.
pub proof fn lemma_i32_exit_code_round_trip(code: i32)
    ensures
        exit_code_from_i32(code) matches Ok(c) ==> c@ as i32 == code,
{
    lemma_exit_code_of(code as u8, exit_code_of(code as u8));
}

impl ExitCode {
    /// Creates an exit code from an unsigned byte.
    pub fn from_u8(code: u8) -> (c: Self)
        ensures
            c == exit_code_of(code),
            c@ == code,
    {
        ExitCode(code)
    }

    /// Creates an exit code from an `i32` when it fits in `u8`.
    ///
    /// Fails with [`ExitCodeError::OutOfRange`] when `code` is outside `0..=255`.
    pub fn try_from_i32(code: i32) -> (r: Result<Self, ExitCodeError>)
        ensures
            r == exit_code_from_i32(code),
            r is Ok <==> 0 <= code <= 255,
            r matches Ok(c) ==> c@ == code,
    {
        if 0 <= code && code <= 255 {
            Ok(ExitCode(code as u8))
        } else {
            Err(ExitCodeError::OutOfRange(code))
        }
    }

    /// Returns the exit code as `u8`.
    pub fn as_u8(self) -> (b: u8)
        ensures
            b == self@,
    {
        self.0
    }

    /// Returns the exit code as `i32`.
    pub fn as_i32(self) -> (i: i32)
        ensures
            i == self@ as i32,
            0 <= i <= 255,
    {
        self.0 as i32
    }

    /// Returns the exit code in decimal, such as `78`.
    pub fn to_string(&self) -> (s: String)
        ensures
            s@ == decimal(self@ as nat),
    {
        let mut s = String::new();
        push_decimal(&mut s, self.0 as u64);
        assert(s@ =~= decimal(self@ as nat));
        s
    }

    /// Returns whether this is a success exit code.
    pub fn is_success(self) -> (b: bool)
        ensures
            b == (self@ == 0),
    {
        self.0 == 0
    }
}

impl TryFrom<i32> for ExitCode {
    type Error = ExitCodeError;

    fn try_from(value: i32) -> (r: Result<Self, Self::Error>) {
        ExitCode::try_from_i32(value)
    }
}

impl vstd::std_specs::convert::TryFromSpecImpl<i32> for ExitCode {
    open spec fn obeys_try_from_spec() -> bool {
        true
    }

    open spec fn try_from_spec(v: i32) -> Result<Self, Self::Error> {
        exit_code_from_i32(v)
    }
}

impl From<ExitCode> for u8 {
    fn from(value: ExitCode) -> (b: u8) {
        value.as_u8()
    }
}

impl vstd::std_specs::convert::FromSpecImpl<ExitCode> for u8 {
    open spec fn obeys_from_spec() -> bool {
        true
    }

    open spec fn from_spec(v: ExitCode) -> u8 {
        v@
    }
}

impl From<ExitCode> for i32 {
    fn from(value: ExitCode) -> (i: i32) {
        value.as_i32()
    }
}

impl vstd::std_specs::convert::FromSpecImpl<ExitCode> for i32 {
    open spec fn obeys_from_spec() -> bool {
        true
    }

    open spec fn from_spec(v: ExitCode) -> i32 {
        v@ as i32
    }
}

/// Successful completion.
pub fn success() -> (c: ExitCode)
    ensures
        c@ == 0,
{
    ExitCode(0)
}

/// General failure.
pub fn failure() -> (c: ExitCode)
    ensures
        c@ == 1,
{
    ExitCode(1)
}

/// Command line usage error.
pub fn usage_error() -> (c: ExitCode)
    ensures
        c@ == 64,
{
    ExitCode(64)
}

/// Service or dependency unavailable.
pub fn unavailable() -> (c: ExitCode)
    ensures
        c@ == 69,
{
    ExitCode(69)
}

/// Permission denied.
pub fn permission_denied() -> (c: ExitCode)
    ensures
        c@ == 77,
{
    ExitCode(77)
}

/// Configuration error.
pub fn config_error() -> (c: ExitCode)
    ensures
        c@ == 78,
{
    ExitCode(78)
}

} // verus!
