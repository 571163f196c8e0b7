//! Tokenisation diagnostics: the terminal error value and its rendering.
//!
//! An error is all-or-nothing: the first one aborts the pass and no partial
//! token sequence is returned. It carries the kind of failure, the position
//! (1-based line and column, absolute character offset) at which it was
//! raised, the originating filename, a human-readable message, and a copy of
//! the offending source line so that `render` can underline the column with
//! a caret.

use vstd::prelude::*;
use vstd::string::StringExecFns;

use crate::text;

verus! {

/// The distinguishable kinds of lexical failure.
#[derive(Debug, Clone, Copy, PartialEq, Eq, Structural)]
pub enum TokenisationErrorKind {
    /// A leading character that matches no scanner and no operator table.
    UnexpectedCharacter,
    /// More than one decimal point in a numeric literal.
    MalformedFloat,
    /// A numeric literal run immediately followed by a non-boundary character.
    InvalidNumericSuffix,
    /// An identifier run immediately followed by a non-boundary character.
    InvalidIdentifierSuffix,
    /// An unknown character after a backslash inside a string literal.
    InvalidEscapeSequence,
    /// Input exhausted before the closing quote of a string literal.
    UnterminatedString,
    /// A syntactically valid digit run whose value exceeds the 64-bit
    /// signed range.
    NumericLiteralOverflow,
}

/// A terminal diagnostic value: tokenisation failed at the given position.
#[derive(Debug, Clone, PartialEq)]
pub struct TokenisationError {
    pub kind: TokenisationErrorKind,
    pub line: u32,
    pub column: u32,
    pub index: u32,
    pub filename: String,
    pub message: String,
    pub line_context: String,
}

/// Mathematical view of a tokenisation error.
pub ghost struct TokenisationErrorV {
    pub kind: TokenisationErrorKind,
    pub line: int,
    pub column: int,
    pub index: int,
    pub filename: Seq<char>,
    pub message: Seq<char>,
    pub line_context: Seq<char>,
}

impl View for TokenisationError {
    type V = TokenisationErrorV;

    open spec fn view(&self) -> TokenisationErrorV {
        TokenisationErrorV {
            kind: self.kind,
            line: self.line as int,
            column: self.column as int,
            index: self.index as int,
            filename: self.filename@,
            message: self.message@,
            line_context: self.line_context@,
        }
    }
}

/// The decimal digit character for a value below ten.
pub open spec fn dec_digit_char(d: int) -> char {
    if d == 0 {
        '0'
    } else if d == 1 {
        '1'
    } else if d == 2 {
        '2'
    } else if d == 3 {
        '3'
    } else if d == 4 {
        '4'
    } else if d == 5 {
        '5'
    } else if d == 6 {
        '6'
    } else if d == 7 {
        '7'
    } else if d == 8 {
        '8'
    } else {
        '9'
    }
}

/// The usual decimal rendering of a non-negative integer, most significant
/// digit first.
pub open spec fn spec_dec_str(n: int) -> Seq<char>
    decreases n,
{
    if n < 10 {
        seq![dec_digit_char(n)]
    } else {
        spec_dec_str(n / 10).push(dec_digit_char(n % 10))
    }
}

/// The caret line that `render` places under the offending column: one
/// space for each column before the error, then a single caret.
pub open spec fn spec_caret_line(column: int) -> Seq<char> {
    Seq::new(if column >= 1 { (column - 1) as nat } else { 0 }, |i: int| ' ').push('^')
}

/// What `render` returns for an error: the filename, the position, the
/// message, then the offending source line with a caret under the column.
pub open spec fn spec_render(e: TokenisationErrorV) -> Seq<char> {
    "Failed to tokenise file \""@ + e.filename + "\" ["@ + spec_dec_str(e.line) + ";"@
        + spec_dec_str(e.column) + "] ("@ + spec_dec_str(e.index) + "): "@ + e.message + "\n\n"@
        + e.line_context + "\n"@ + spec_caret_line(e.column)
}

/// The decimal digit character for a value below ten.
fn dec_digit(d: u32) -> (c: char)
    requires
        d < 10,
    ensures
        c == dec_digit_char(d as int),
{
    if d == 0 {
        '0'
    } else if d == 1 {
        '1'
    } else if d == 2 {
        '2'
    } else if d == 3 {
        '3'
    } else if d == 4 {
        '4'
    } else if d == 5 {
        '5'
    } else if d == 6 {
        '6'
    } else if d == 7 {
        '7'
    } else if d == 8 {
        '8'
    } else {
        '9'
    }
}

/// The decimal rendering of a position value.
pub fn dec_string(n: u32) -> (r: String)
    ensures
        r@ == spec_dec_str(n as int),
    decreases n,
{
    if n < 10 {
        let mut r = String::new();
        text::push_char(&mut r, dec_digit(n));
        proof {
            assert(r@ =~= seq![dec_digit_char(n as int)]);
        }
        r
    } else {
        let mut r = dec_string(n / 10);
        text::push_char(&mut r, dec_digit(n % 10));
        r
    }
}

/// The caret line placed under the offending column.
fn caret_line(column: u32) -> (r: String)
    ensures
        r@ == spec_caret_line(column as int),
{
    let n: u32 = if column >= 1 {
        column - 1
    } else {
        0
    };
    let mut r = String::new();
    proof {
        assert(r@ =~= Seq::new(0, |k: int| ' '));
    }
    let mut i: u32 = 0;
    while i < n
        invariant
            i <= n,
            r@ == Seq::new(i as nat, |k: int| ' '),
        decreases n - i,
    {
        text::push_char(&mut r, ' ');
        proof {
            assert(r@ =~= Seq::new((i + 1) as nat, |k: int| ' '));
        }
        i = i + 1;
    }
    text::push_char(&mut r, '^');
    r
}

impl TokenisationError {
    /// The diagnostic text, ready to print: filename, position and
    /// message, then the offending source line with a caret under the
    /// column at which tokenisation failed.
    pub fn render(&self) -> (r: String)
        ensures
            r@ == spec_render(self@),
    {
        let line_s = dec_string(self.line);
        let column_s = dec_string(self.column);
        let index_s = dec_string(self.index);
        let caret = caret_line(self.column);
        let mut r = String::from_str("Failed to tokenise file \"");
        r.append(self.filename.as_str());
        r.append("\" [");
        r.append(line_s.as_str());
        r.append(";");
        r.append(column_s.as_str());
        r.append("] (");
        r.append(index_s.as_str());
        r.append("): ");
        r.append(self.message.as_str());
        r.append("\n\n");
        r.append(self.line_context.as_str());
        r.append("\n");
        r.append(caret.as_str());
        r
    }
}

} // verus!
