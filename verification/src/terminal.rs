//! Terminal size, color capability, and interactivity primitives.
//!
//! Detection from the process environment and streams is left to the caller,
//! which hands the values it found to the functions here.
use vstd::prelude::*;

use crate::text::{chars_contain, chars_of, contains_seq, eq_ignore_ascii_case, str_eq_ignore_ascii_case};

verus! {

/// Validation errors for terminal dimensions.
#[derive(Clone, Copy, Debug, PartialEq, Eq, Structural)]
pub enum TerminalDimensionError {
    /// Width must be nonzero.
    ZeroWidth,
    /// Height must be nonzero.
    ZeroHeight,
}

impl TerminalDimensionError {
    /// The human-readable description of this error.
    pub open spec fn message(self) -> Seq<char> {
        match self {
            TerminalDimensionError::ZeroWidth => "terminal width must be greater than zero"@,
            TerminalDimensionError::ZeroHeight => "terminal height must be greater than zero"@,
        }
    }

    /// Returns the human-readable description of this error.
    pub fn to_string(&self) -> (s: String)
        ensures
            s@ == self.message(),
    {
        match self {
            TerminalDimensionError::ZeroWidth =>
                "terminal width must be greater than zero".to_owned(),
            TerminalDimensionError::ZeroHeight =>
                "terminal height must be greater than zero".to_owned(),
        }
    }
}

/// A nonzero terminal width in columns.
#[derive(Clone, Copy, Debug, PartialEq, Eq, PartialOrd, Ord, Hash, Structural)]
pub struct TerminalWidth {
    columns: u16,
}

impl View for TerminalWidth {
    type V = u16;

    closed spec fn view(&self) -> u16 {
        self.columns
    }
}

impl TerminalWidth {
    #[verifier::type_invariant]
    spec fn inv(self) -> bool {
        self.columns > 0
    }

    /// Creates a terminal width.
    ///
    /// Fails with [`TerminalDimensionError::ZeroWidth`] when `columns` is zero.
    pub fn new(columns: u16) -> (r: Result<Self, TerminalDimensionError>)
        ensures
            r is Ok <==> columns > 0,
            r matches Ok(w) ==> w@ == columns,
            r matches Err(e) ==> e == TerminalDimensionError::ZeroWidth,
    {
        if columns == 0 {
            Err(TerminalDimensionError::ZeroWidth)
        } else {
            Ok(TerminalWidth { columns })
        }
    }

    /// Returns the width in columns.
    pub fn columns(self) -> (c: u16)
        ensures
            c == self@,
            c > 0,
    {
        proof {
            use_type_invariant(&self);
        }
        self.columns
    }
}

/// A nonzero terminal height in rows.
#[derive(Clone, Copy, Debug, PartialEq, Eq, PartialOrd, Ord, Hash, Structural)]
pub struct TerminalHeight {
    rows: u16,
}

impl View for TerminalHeight {
    type V = u16;

    closed spec fn view(&self) -> u16 {
        self.rows
    }
}

impl TerminalHeight {
    #[verifier::type_invariant]
    spec fn inv(self) -> bool {
        self.rows > 0
    }

    /// Creates a terminal height.
    ///
    /// Fails with [`TerminalDimensionError::ZeroHeight`] when `rows` is zero.
    pub fn new(rows: u16) -> (r: Result<Self, TerminalDimensionError>)
        ensures
            r is Ok <==> rows > 0,
            r matches Ok(h) ==> h@ == rows,
            r matches Err(e) ==> e == TerminalDimensionError::ZeroHeight,
    {
        if rows == 0 {
            Err(TerminalDimensionError::ZeroHeight)
        } else {
            Ok(TerminalHeight { rows })
        }
    }

    /// Returns the height in rows.
    pub fn rows(self) -> (r: u16)
        ensures
            r == self@,
            r > 0,
    {
        proof {
            use_type_invariant(&self);
        }
        self.rows
    }
}

/// A terminal size value made from validated dimensions.
#[derive(Clone, Copy, Debug, PartialEq, Eq, Hash, Structural)]
pub struct TerminalSize {
    width: TerminalWidth,
    height: TerminalHeight,
}

impl View for TerminalSize {
    type V = (u16, u16);

    closed spec fn view(&self) -> (u16, u16) {
        (self.width@, self.height@)
    }
}

impl TerminalSize {
    /// Creates a terminal size from validated dimensions.
    pub fn new(width: TerminalWidth, height: TerminalHeight) -> (s: Self)
        ensures
            s@ == (width@, height@),
    {
        TerminalSize { width, height }
    }

    /// Creates a terminal size from raw column and row counts.
    ///
    /// Fails with [`TerminalDimensionError::ZeroWidth`] when `columns` is zero, and
    /// otherwise with [`TerminalDimensionError::ZeroHeight`] when `rows` is zero.
    pub fn try_new(columns: u16, rows: u16) -> (r: Result<Self, TerminalDimensionError>)
        ensures
            r is Ok <==> columns > 0 && rows > 0,
            r matches Ok(s) ==> s@ == (columns, rows),
            r matches Err(e) ==> (if columns == 0 {
                e == TerminalDimensionError::ZeroWidth
            } else {
                e == TerminalDimensionError::ZeroHeight
            }),
    {
        let width = match TerminalWidth::new(columns) {
            Ok(width) => width,
            Err(error) => return Err(error),
        };
        let height = match TerminalHeight::new(rows) {
            Ok(height) => height,
            Err(error) => return Err(error),
        };
        Ok(TerminalSize::new(width, height))
    }

    /// Returns the validated width.
    pub fn width(self) -> (w: TerminalWidth)
        ensures
            w@ == self@.0,
    {
        self.width
    }

    /// Returns the validated height.
    pub fn height(self) -> (h: TerminalHeight)
        ensures
            h@ == self@.1,
    {
        self.height
    }
}

/// Primitive terminal color capability.
#[derive(Clone, Copy, Debug, PartialEq, Eq, Hash, Structural)]
pub enum ColorSupport {
    /// Color output should not be used.
    NoColor,
    /// Basic ANSI color support is likely available.
    Basic,
    /// 256-color ANSI support is likely available.
    Ansi256,
    /// 24-bit truecolor support is likely available.
    TrueColor,
}

/// The contents of an optional string.
pub open spec fn opt_view(o: Option<&str>) -> Option<Seq<char>> {
    match o {
        Some(s) => Some(s@),
        None => None,
    }
}

/// A `COLORTERM` value announcing 24-bit color: `truecolor` or `24bit`, in any ASCII case.
pub open spec fn is_truecolor_value(v: Seq<char>) -> bool {
    ||| eq_ignore_ascii_case(v, seq!['t', 'r', 'u', 'e', 'c', 'o', 'l', 'o', 'r'])
    ||| eq_ignore_ascii_case(v, seq!['2', '4', 'b', 'i', 't'])
}

/// The color support inferred from the values of `NO_COLOR`, `TERM`, and `COLORTERM`.
///
/// A present `NO_COLOR` disables color; a truecolor `COLORTERM` wins next; then
/// `TERM` decides: `dumb` (any ASCII case), empty, or missing means no color, a
/// value containing `256color` means 256 colors, anything else basic color.
pub open spec fn color_support_of(
    no_color: Option<Seq<char>>,
    term: Option<Seq<char>>,
    colorterm: Option<Seq<char>>,
) -> ColorSupport {
    if no_color is Some {
        ColorSupport::NoColor
    } else if colorterm matches Some(v) && is_truecolor_value(v) {
        ColorSupport::TrueColor
    } else {
        match term {
            Some(v) => if eq_ignore_ascii_case(v, seq!['d', 'u', 'm', 'b']) {
                ColorSupport::NoColor
            } else if contains_seq(v, seq!['2', '5', '6', 'c', 'o', 'l', 'o', 'r']) {
                ColorSupport::Ansi256
            } else if v.len() == 0 {
                ColorSupport::NoColor
            } else {
                ColorSupport::Basic
            },
            None => ColorSupport::NoColor,
        }
    }
}

/// A present `NO_COLOR` disables color whatever the other values are.
pub proof fn lemma_no_color_wins(
    no_color: Seq<char>,
    term: Option<Seq<char>>,
    colorterm: Option<Seq<char>>,
)
    ensures
        color_support_of(Some(no_color), term, colorterm) == ColorSupport::NoColor,
{
}

/// `v` is `truecolor` or `24bit`, in any ASCII case.
pub open spec fn names_truecolor(v: Seq<char>) -> bool {
    ||| eq_ignore_ascii_case(v, seq!['t', 'r', 'u', 'e', 'c', 'o', 'l', 'o', 'r'])
    ||| eq_ignore_ascii_case(v, seq!['2', '4', 'b', 'i', 't'])
}

/// With `NO_COLOR` unset, a `COLORTERM` of `truecolor` or `24bit` (in any ASCII
/// case) means 24-bit color, whatever `TERM` is.
pub proof fn lemma_truecolor_colorterm_wins(term: Option<Seq<char>>, colorterm: Seq<char>)
    requires
        names_truecolor(colorterm),
    ensures
        color_support_of(None, term, Some(colorterm)) == ColorSupport::TrueColor,
{
}

/// 24-bit color is inferred only from a truecolor `COLORTERM`, and only with `NO_COLOR` unset.
pub proof fn lemma_truecolor_only_from_colorterm(
    no_color: Option<Seq<char>>,
    term: Option<Seq<char>>,
    colorterm: Option<Seq<char>>,
)
    ensures
        color_support_of(no_color, term, colorterm) == ColorSupport::TrueColor ==> (colorterm matches Some(v)
            && no_color is None && names_truecolor(v)),
{
}

/// Without `NO_COLOR` and without a truecolor `COLORTERM`, `TERM` decides: a
/// missing or empty one, or `dumb` in any ASCII case, means no color; one that
/// contains `256color` means 256 colors; any other means basic color.
pub proof fn lemma_term_decides(term: Option<Seq<char>>, colorterm: Option<Seq<char>>)
    requires
        !(colorterm matches Some(v) && names_truecolor(v)),
    ensures
        term is None ==> color_support_of(None, term, colorterm) == ColorSupport::NoColor,
        term matches Some(t) ==> (t.len() == 0 ==> color_support_of(None, term, colorterm)
            == ColorSupport::NoColor),
        term matches Some(t) ==> (eq_ignore_ascii_case(t, seq!['d', 'u', 'm', 'b'])
            ==> color_support_of(None, term, colorterm) == ColorSupport::NoColor),
        term matches Some(t) ==> (!eq_ignore_ascii_case(t, seq!['d', 'u', 'm', 'b']) && contains_seq(
            t,
            seq!['2', '5', '6', 'c', 'o', 'l', 'o', 'r'],
        ) ==> color_support_of(None, term, colorterm) == ColorSupport::Ansi256),
        term matches Some(t) ==> (t.len() > 0 && !eq_ignore_ascii_case(t, seq!['d', 'u', 'm', 'b'])
            && !contains_seq(t, seq!['2', '5', '6', 'c', 'o', 'l', 'o', 'r'])
            ==> color_support_of(None, term, colorterm) == ColorSupport::Basic),
{
}

impl ColorSupport {
    /// Infers color support from environment variable values; see [`color_support_of`].
    pub fn from_env_values(no_color: Option<&str>, term: Option<&str>, colorterm: Option<&str>) -> (c:
        Self)
        ensures
            c == color_support_of(opt_view(no_color), opt_view(term), opt_view(colorterm)),
            c == ColorSupport::TrueColor <== (colorterm matches Some(v) && no_color is None
                && names_truecolor(v@)),
            c == ColorSupport::NoColor <== no_color is Some,
    {
        if no_color.is_some() {
            return ColorSupport::NoColor;
        }
        let truecolor: [char; 9] = ['t', 'r', 'u', 'e', 'c', 'o', 'l', 'o', 'r'];
        let bit24: [char; 5] = ['2', '4', 'b', 'i', 't'];
        let dumb: [char; 4] = ['d', 'u', 'm', 'b'];
        let color256: [char; 8] = ['2', '5', '6', 'c', 'o', 'l', 'o', 'r'];
        assert(truecolor@ =~= seq!['t', 'r', 'u', 'e', 'c', 'o', 'l', 'o', 'r']);
        assert(bit24@ =~= seq!['2', '4', 'b', 'i', 't']);
        assert(dumb@ =~= seq!['d', 'u', 'm', 'b']);
        assert(color256@ =~= seq!['2', '5', '6', 'c', 'o', 'l', 'o', 'r']);
        if let Some(value) = colorterm {
            if str_eq_ignore_ascii_case(value, truecolor.as_slice()) || str_eq_ignore_ascii_case(
                value,
                bit24.as_slice(),
            ) {
                return ColorSupport::TrueColor;
            }
        }
        match term {
            Some(value) => {
                let v = chars_of(value);
                if str_eq_ignore_ascii_case(value, dumb.as_slice()) {
                    ColorSupport::NoColor
                } else if chars_contain(v.as_slice(), color256.as_slice()) {
                    ColorSupport::Ansi256
                } else if v.len() == 0 {
                    ColorSupport::NoColor
                } else {
                    ColorSupport::Basic
                }
            },
            None => ColorSupport::NoColor,
        }
    }
}

/// Primitive stream interactivity state.
#[derive(Clone, Copy, Debug, PartialEq, Eq, Hash, Structural)]
pub enum Interactivity {
    /// The stream appears to be attached to a terminal.
    Interactive,
    /// The stream does not appear to be attached to a terminal.
    NonInteractive,
}

impl Interactivity {
    /// Converts a boolean terminal result into an interactivity value.
    pub fn from_bool(is_terminal: bool) -> (i: Self)
        ensures
            i == (if is_terminal {
                Interactivity::Interactive
            } else {
                Interactivity::NonInteractive
            }),
    {
        if is_terminal {
            Interactivity::Interactive
        } else {
            Interactivity::NonInteractive
        }
    }

    /// Returns whether the stream is interactive.
    pub fn is_interactive(self) -> (b: bool)
        ensures
            b == (self == Interactivity::Interactive),
    {
        match self {
            Interactivity::Interactive => true,
            Interactivity::NonInteractive => false,
        }
    }
}

} // verus!
