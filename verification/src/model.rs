//! The mathematical model of the whole lexical pass.
//!
//! `spec_tokenize` maps a source text (a sequence of characters) and a
//! filename to either the complete token sequence or the first error, with
//! every position, length, message and line context pinned down. The
//! executable scanner in `lexer` is proved to return exactly this value.
//!
//! The model mirrors the scanner's shape: a cursor walks the characters,
//! whitespace is skipped, and the leading character dispatches to one of
//! the sub-scanners (number, identifier or keyword, string, operator).

use vstd::prelude::*;

use crate::diag::{TokenisationErrorKind, TokenisationErrorV};
use crate::token::{TokenTypeV, TokenV};

verus! {

/// The scanner's position: absolute character offset, 1-based line and
/// column. Line and column name the position *after* everything consumed
/// so far, so a token built at a cursor reports its end position.
pub ghost struct Cursor {
    pub index: int,
    pub line: int,
    pub column: int,
}

/// Where every scan begins: offset zero, line one, column one.
pub open spec fn start_cursor() -> Cursor {
    Cursor { index: 0, line: 1, column: 1 }
}

/// The cursor after consuming one character that is not treated as a line
/// break: offset and column advance, the line stays.
pub open spec fn advanced(cur: Cursor) -> Cursor {
    Cursor { index: cur.index + 1, line: cur.line, column: cur.column + 1 }
}

/// The cursor lies within the source: a scan neither runs past the end nor
/// before the start.
pub open spec fn cursor_in_range(s: Seq<char>, cur: Cursor) -> bool {
    0 <= cur.index <= s.len()
}

/// Whitespace that the scanning loop skips between tokens.
pub open spec fn is_ws_char(c: char) -> bool {
    c == ' ' || c == '\t' || c == '\r' || c == '\n'
}

/// An ASCII decimal digit.
pub open spec fn is_digit_char(c: char) -> bool {
    '0' as u32 <= c as u32 <= '9' as u32
}

/// An ASCII letter, which may open an identifier or keyword.
pub open spec fn is_letter_char(c: char) -> bool {
    ('a' as u32 <= c as u32 <= 'z' as u32) || ('A' as u32 <= c as u32 <= 'Z' as u32)
}

/// A character that may continue an identifier.
pub open spec fn is_ident_char(c: char) -> bool {
    is_letter_char(c) || is_digit_char(c) || c == '_'
}

/// A character that may legally follow a literal or identifier without
/// raising a suffix error: whitespace, operator or punctuation.
pub open spec fn is_boundary_char(c: char) -> bool {
    c == ' ' || c == '\t' || c == '\r' || c == '\n' || c == '(' || c == ')' || c == '{'
        || c == '}' || c == '=' || c == '+' || c == '-' || c == '*' || c == '/' || c == '%'
        || c == '^' || c == ',' || c == '.' || c == '!' || c == '>' || c == '<' || c == '&'
        || c == '|'
}

/// The source position right after a literal run is a boundary: end of
/// input, or a boundary character.
pub open spec fn is_boundary_at(s: Seq<char>, index: int) -> bool {
    index >= s.len() || is_boundary_char(s[index])
}

/// A character that routes the dispatch into the operator and punctuation
/// scanner. The minus sign is missing on purpose: the dispatch treats it
/// specially, folding a directly following digit run into a negative
/// numeric literal.
pub open spec fn is_op_start_char(c: char) -> bool {
    c == '+' || c == '*' || c == '/' || c == '%' || c == ',' || c == '.' || c == '!' || c == '='
        || c == '<' || c == '>' || c == '&' || c == '|' || c == '(' || c == ')' || c == '{'
        || c == '}'
}

// ---------------------------------------------------------------------
// Source lines, for the diagnostic line context.
// ---------------------------------------------------------------------

/// One carriage return is stripped from the tail of a line, matching how
/// the source is split for diagnostics.
pub open spec fn strip_tail_cr(line: Seq<char>) -> Seq<char> {
    if line.len() > 0 && line.last() == '\r' {
        line.drop_last()
    } else {
        line
    }
}

/// Walk of the line splitter: `cur` holds the line being collected, `acc`
/// the lines already complete.
pub open spec fn lines_from(s: Seq<char>, i: int, cur: Seq<char>, acc: Seq<Seq<char>>) -> Seq<
    Seq<char>,
>
    decreases s.len() - i,
{
    if 0 <= i < s.len() {
        if s[i] == '\n' {
            lines_from(s, i + 1, Seq::empty(), acc.push(strip_tail_cr(cur)))
        } else {
            lines_from(s, i + 1, cur.push(s[i]), acc)
        }
    } else {
        if cur.len() > 0 {
            acc.push(cur)
        } else {
            acc
        }
    }
}

/// The source split into lines: at each newline, with a single trailing
/// carriage return stripped, and no empty final line for a trailing
/// newline.
pub open spec fn spec_lines(s: Seq<char>) -> Seq<Seq<char>> {
    lines_from(s, 0, Seq::empty(), Seq::empty())
}

/// The text of the given 1-based line, or the empty sequence where the
/// line number runs past the source.
pub open spec fn spec_line_ctx(s: Seq<char>, line: int) -> Seq<char> {
    let ls = spec_lines(s);
    if 1 <= line <= ls.len() {
        ls[line - 1]
    } else {
        Seq::empty()
    }
}

// ---------------------------------------------------------------------
// Token and error construction.
// ---------------------------------------------------------------------

/// A token built at a cursor: the position fields name the token's end.
pub open spec fn mk_token(tt: TokenTypeV, cur: Cursor, fname: Seq<char>, length: int) -> TokenV {
    TokenV {
        token_type: tt,
        line: cur.line,
        column: cur.column,
        index: cur.index,
        filename: fname,
        length: length,
    }
}

/// An error raised at a cursor, carrying the offending source line.
pub open spec fn mk_err(
    s: Seq<char>,
    fname: Seq<char>,
    cur: Cursor,
    kind: TokenisationErrorKind,
    message: Seq<char>,
) -> TokenisationErrorV {
    TokenisationErrorV {
        kind: kind,
        line: cur.line,
        column: cur.column,
        index: cur.index,
        filename: fname,
        message: message,
        line_context: spec_line_ctx(s, cur.line),
    }
}

pub open spec fn msg_unexpected() -> Seq<char> {
    "Unexpected character: "@
}

pub open spec fn msg_num_suffix() -> Seq<char> {
    "Unexpected character in numeric literal: "@
}

pub open spec fn msg_ident_suffix() -> Seq<char> {
    "Unexpected character in identifier: "@
}

pub open spec fn msg_second_point() -> Seq<char> {
    "Illegal second decimal point in float literal: '.'"@
}

pub open spec fn msg_escape() -> Seq<char> {
    "Invalid escape sequence: \\"@
}

pub open spec fn msg_unterminated() -> Seq<char> {
    "Unterminated string literal"@
}

pub open spec fn msg_overflow() -> Seq<char> {
    "Integer literal out of range"@
}

// ---------------------------------------------------------------------
// Whitespace.
// ---------------------------------------------------------------------

/// The cursor after skipping insignificant whitespace: space, tab and
/// carriage return advance the column; a newline starts the next line at
/// column one.
pub open spec fn skip_ws(s: Seq<char>, cur: Cursor) -> Cursor
    decreases s.len() - cur.index,
{
    if 0 <= cur.index < s.len() {
        let c = s[cur.index];
        if c == ' ' || c == '\t' || c == '\r' {
            skip_ws(s, advanced(cur))
        } else if c == '\n' {
            skip_ws(s, Cursor { index: cur.index + 1, line: cur.line + 1, column: 1 })
        } else {
            cur
        }
    } else {
        cur
    }
}

// ---------------------------------------------------------------------
// Numeric literals.
// ---------------------------------------------------------------------

/// The numeric value of a sequence of decimal digits, most significant
/// first.
pub open spec fn digits_value(s: Seq<char>) -> int
    decreases s.len(),
{
    if s.len() == 0 {
        0
    } else {
        digits_value(s.drop_last()) * 10 + (s.last() as u32 - '0' as u32)
    }
}

/// Outcome of the digit-collecting walk: the cursor and text at the end of
/// the run, or the error that stopped it.
pub ghost enum NumScan {
    Done { cur: Cursor, text: Seq<char>, is_float: bool },
    Fail { err: TokenisationErrorV },
}

/// Walk of the numeric scanner: digits are consumed; one decimal point is
/// allowed unless another follows directly (which opens a range operator
/// and ends the run instead); a second decimal point is an error.
pub open spec fn scan_number_loop(
    s: Seq<char>,
    fname: Seq<char>,
    cur: Cursor,
    acc: Seq<char>,
    is_float: bool,
) -> NumScan
    decreases s.len() - cur.index,
{
    if 0 <= cur.index < s.len() {
        let c = s[cur.index];
        if is_digit_char(c) {
            scan_number_loop(s, fname, advanced(cur), acc.push(c), is_float)
        } else if c == '.' {
            if cur.index + 1 < s.len() && s[cur.index + 1] == '.' {
                NumScan::Done { cur, text: acc, is_float }
            } else if is_float {
                NumScan::Fail {
                    err: mk_err(
                        s,
                        fname,
                        cur,
                        TokenisationErrorKind::MalformedFloat,
                        msg_second_point(),
                    ),
                }
            } else {
                scan_number_loop(s, fname, advanced(cur), acc.push('.'), true)
            }
        } else {
            NumScan::Done { cur, text: acc, is_float }
        }
    } else {
        NumScan::Done { cur, text: acc, is_float }
    }
}

/// The numeric sub-scanner: after the run, the next character must be a
/// boundary; an integer run must fit the 64-bit signed range; a float
/// token carries the literal's text.
pub open spec fn spec_get_number(s: Seq<char>, fname: Seq<char>, cur: Cursor) -> Result<
    (TokenV, Cursor),
    TokenisationErrorV,
> {
    match scan_number_loop(s, fname, cur, Seq::empty(), false) {
        NumScan::Fail { err } => Err(err),
        NumScan::Done { cur: end, text, is_float } => {
            if !is_boundary_at(s, end.index) {
                Err(
                    mk_err(
                        s,
                        fname,
                        end,
                        TokenisationErrorKind::InvalidNumericSuffix,
                        msg_num_suffix() + seq![s[end.index]],
                    ),
                )
            } else if is_float {
                Ok((mk_token(TokenTypeV::Float(text), end, fname, text.len() as int), end))
            } else if digits_value(text) > i64::MAX {
                Err(
                    mk_err(
                        s,
                        fname,
                        end,
                        TokenisationErrorKind::NumericLiteralOverflow,
                        msg_overflow(),
                    ),
                )
            } else {
                Ok(
                    (
                        mk_token(TokenTypeV::Int(digits_value(text)), end, fname, text.len() as int),
                        end,
                    ),
                )
            }
        },
    }
}

/// A folded negative numeric literal: the value is negated, the text gets
/// the sign, and every other kind passes through unchanged.
pub open spec fn negate_token(t: TokenV) -> TokenV {
    match t.token_type {
        TokenTypeV::Int(v) => TokenV { token_type: TokenTypeV::Int(-v), ..t },
        TokenTypeV::Float(text) => TokenV { token_type: TokenTypeV::Float(seq!['-'] + text), ..t },
        _ => t,
    }
}

// ---------------------------------------------------------------------
// Identifiers and keywords.
// ---------------------------------------------------------------------

/// Walk of the identifier scanner: letters, digits and underscores are
/// consumed.
pub open spec fn scan_ident_loop(s: Seq<char>, cur: Cursor, acc: Seq<char>) -> (Cursor, Seq<char>)
    decreases s.len() - cur.index,
{
    if 0 <= cur.index < s.len() && is_ident_char(s[cur.index]) {
        scan_ident_loop(s, advanced(cur), acc.push(s[cur.index]))
    } else {
        (cur, acc)
    }
}

/// The fixed keyword set, matched case-sensitively, with the boolean
/// literals; any other text is a generic identifier carrying it.
pub open spec fn keyword_or_ident(text: Seq<char>) -> TokenTypeV {
    if text == "if"@ {
        TokenTypeV::KWIf
    } else if text == "else"@ {
        TokenTypeV::KWElse
    } else if text == "for"@ {
        TokenTypeV::KWFor
    } else if text == "return"@ {
        TokenTypeV::KWReturn
    } else if text == "break"@ {
        TokenTypeV::KWBreak
    } else if text == "continue"@ {
        TokenTypeV::KWContinue
    } else if text == "in"@ {
        TokenTypeV::KWIn
    } else if text == "true"@ {
        TokenTypeV::Bool(true)
    } else if text == "false"@ {
        TokenTypeV::Bool(false)
    } else {
        TokenTypeV::Ident(text)
    }
}

/// The identifier sub-scanner: after the run, the next character must be a
/// boundary; the consumed text is matched against the keyword set.
pub open spec fn spec_get_ident(s: Seq<char>, fname: Seq<char>, cur: Cursor) -> Result<
    (TokenV, Cursor),
    TokenisationErrorV,
> {
    let (end, text) = scan_ident_loop(s, cur, Seq::empty());
    if !is_boundary_at(s, end.index) {
        Err(
            mk_err(
                s,
                fname,
                end,
                TokenisationErrorKind::InvalidIdentifierSuffix,
                msg_ident_suffix() + seq![s[end.index]],
            ),
        )
    } else {
        Ok((mk_token(keyword_or_ident(text), end, fname, text.len() as int), end))
    }
}

// ---------------------------------------------------------------------
// String literals.
// ---------------------------------------------------------------------

/// Outcome of the string-body walk: the cursor after the closing quote and
/// the unescaped value, or the error that stopped it.
pub ghost enum StrScan {
    Done { cur: Cursor, value: Seq<char> },
    Fail { err: TokenisationErrorV },
}

/// The character an escape sequence stands for, where one exists.
pub open spec fn escape_char(c: char) -> Option<char> {
    if c == 'n' {
        Some('\n')
    } else if c == 'r' {
        Some('\r')
    } else if c == 't' {
        Some('\t')
    } else if c == '0' {
        Some('\0')
    } else if c == '\'' {
        Some('\'')
    } else if c == '"' {
        Some('"')
    } else if c == '\\' {
        Some('\\')
    } else {
        None
    }
}

/// Walk of the string scanner, past the opening quote: characters join the
/// value, a backslash arms an escape, the closing quote ends the literal,
/// and exhausted input means the literal never closed. A newline inside a
/// string joins the value without advancing the line counter.
pub open spec fn scan_string_loop(
    s: Seq<char>,
    fname: Seq<char>,
    cur: Cursor,
    acc: Seq<char>,
    escape: bool,
) -> StrScan
    decreases s.len() - cur.index,
{
    if !(0 <= cur.index < s.len()) {
        StrScan::Fail {
            err: mk_err(s, fname, cur, TokenisationErrorKind::UnterminatedString, msg_unterminated()),
        }
    } else {
        let c = s[cur.index];
        let next = advanced(cur);
        if escape {
            match escape_char(c) {
                Some(e) => scan_string_loop(s, fname, next, acc.push(e), false),
                None => StrScan::Fail {
                    err: mk_err(
                        s,
                        fname,
                        next,
                        TokenisationErrorKind::InvalidEscapeSequence,
                        msg_escape() + seq![c],
                    ),
                },
            }
        } else if c == '\\' {
            scan_string_loop(s, fname, next, acc, true)
        } else if c == '"' {
            StrScan::Done { cur: next, value: acc }
        } else {
            scan_string_loop(s, fname, next, acc.push(c), false)
        }
    }
}

/// The string sub-scanner, entered at the opening quote: the token's value
/// is the unescaped text, and its length counts that text plus the two
/// quote delimiters, independent of how many source characters the escapes
/// occupied.
pub open spec fn spec_get_string(s: Seq<char>, fname: Seq<char>, cur: Cursor) -> Result<
    (TokenV, Cursor),
    TokenisationErrorV,
> {
    match scan_string_loop(s, fname, advanced(cur), Seq::empty(), false) {
        StrScan::Fail { err } => Err(err),
        StrScan::Done { cur: end, value } => Ok(
            (mk_token(TokenTypeV::Str(value), end, fname, value.len() as int + 2), end),
        ),
    }
}

// ---------------------------------------------------------------------
// Operators and punctuation.
// ---------------------------------------------------------------------

/// The single-character operator and punctuation table.
pub open spec fn single_char_token(c: char) -> Option<TokenTypeV> {
    if c == '+' {
        Some(TokenTypeV::OpAdd)
    } else if c == '-' {
        Some(TokenTypeV::OpSub)
    } else if c == '*' {
        Some(TokenTypeV::OpMul)
    } else if c == '/' {
        Some(TokenTypeV::OpDiv)
    } else if c == '%' {
        Some(TokenTypeV::OpMod)
    } else if c == ',' {
        Some(TokenTypeV::Comma)
    } else if c == '.' {
        Some(TokenTypeV::Dot)
    } else if c == '!' {
        Some(TokenTypeV::OpNot)
    } else if c == '=' {
        Some(TokenTypeV::OpAssign)
    } else if c == '<' {
        Some(TokenTypeV::OpLt)
    } else if c == '>' {
        Some(TokenTypeV::OpGt)
    } else if c == '(' {
        Some(TokenTypeV::LParen)
    } else if c == ')' {
        Some(TokenTypeV::RParen)
    } else if c == '{' {
        Some(TokenTypeV::LBrace)
    } else if c == '}' {
        Some(TokenTypeV::RBrace)
    } else {
        None
    }
}

/// The two-character operator table, consulted before the single-character
/// one: greedy longest match.
pub open spec fn double_char_token(c: char, next: char) -> Option<TokenTypeV> {
    if c == '*' && next == '*' {
        Some(TokenTypeV::OpPow)
    } else if c == '=' && next == '=' {
        Some(TokenTypeV::OpEq)
    } else if c == '>' && next == '=' {
        Some(TokenTypeV::OpGe)
    } else if c == '<' && next == '=' {
        Some(TokenTypeV::OpLe)
    } else if c == '!' && next == '=' {
        Some(TokenTypeV::OpNe)
    } else if c == '&' && next == '&' {
        Some(TokenTypeV::OpAnd)
    } else if c == '|' && next == '|' {
        Some(TokenTypeV::OpOr)
    } else if c == '=' && next == '>' {
        Some(TokenTypeV::Arrow)
    } else if c == '.' && next == '.' {
        Some(TokenTypeV::Range)
    } else {
        None
    }
}

/// The single-character path: the character is consumed, then either
/// tokenised or reported as unexpected at the position past it.
pub open spec fn spec_get_single(s: Seq<char>, fname: Seq<char>, cur: Cursor) -> Result<
    (TokenV, Cursor),
    TokenisationErrorV,
> {
    let c = s[cur.index];
    let next = advanced(cur);
    match single_char_token(c) {
        Some(tt) => Ok((mk_token(tt, next, fname, 1), next)),
        None => Err(
            mk_err(
                s,
                fname,
                next,
                TokenisationErrorKind::UnexpectedCharacter,
                msg_unexpected() + seq![c],
            ),
        ),
    }
}

/// The greedy operator path: a two-character match consumes both
/// characters; otherwise the single-character path runs from the same
/// unconsumed position.
pub open spec fn spec_get_multi(s: Seq<char>, fname: Seq<char>, cur: Cursor) -> Result<
    (TokenV, Cursor),
    TokenisationErrorV,
> {
    if cur.index + 1 >= s.len() {
        spec_get_single(s, fname, cur)
    } else {
        match double_char_token(s[cur.index], s[cur.index + 1]) {
            Some(tt) => {
                let end = advanced(advanced(cur));
                Ok((mk_token(tt, end, fname, 2), end))
            },
            None => spec_get_single(s, fname, cur),
        }
    }
}

// ---------------------------------------------------------------------
// The scanning loop.
// ---------------------------------------------------------------------

/// One step of the scanning loop: skip whitespace, then dispatch on the
/// leading character. End of input yields the sentinel end marker, which
/// the loop never appends to the output. A minus sign directly followed by
/// a digit folds into a negative numeric literal; any character no scanner
/// claims is unexpected, reported at its own position.
pub open spec fn spec_get_token(s: Seq<char>, fname: Seq<char>, cur: Cursor) -> Result<
    (TokenV, Cursor),
    TokenisationErrorV,
> {
    let at = skip_ws(s, cur);
    if at.index >= s.len() {
        Ok((mk_token(TokenTypeV::EOF, at, fname, 0), at))
    } else {
        let c = s[at.index];
        if c == '-' {
            if at.index + 1 < s.len() && is_digit_char(s[at.index + 1]) {
                match spec_get_number(s, fname, advanced(at)) {
                    Ok((t, end)) => Ok((negate_token(t), end)),
                    Err(e) => Err(e),
                }
            } else {
                let end = advanced(at);
                Ok((mk_token(TokenTypeV::OpSub, end, fname, 1), end))
            }
        } else if is_op_start_char(c) {
            spec_get_multi(s, fname, at)
        } else if is_digit_char(c) {
            spec_get_number(s, fname, at)
        } else if is_letter_char(c) {
            spec_get_ident(s, fname, at)
        } else if c == '"' {
            spec_get_string(s, fname, at)
        } else {
            Err(
                mk_err(
                    s,
                    fname,
                    at,
                    TokenisationErrorKind::UnexpectedCharacter,
                    msg_unexpected() + seq![c],
                ),
            )
        }
    }
}

/// The token sequence from a cursor on: one token per step until the end
/// marker, aborted by the first error. The middle branch can never be
/// taken — a token other than the end marker always advances the cursor
/// (`props::lemma_get_token_advances`) — it only discharges the
/// termination measure.
pub open spec fn spec_tokenize_from(s: Seq<char>, fname: Seq<char>, cur: Cursor) -> Result<
    Seq<TokenV>,
    TokenisationErrorV,
>
    decreases s.len() - cur.index,
{
    match spec_get_token(s, fname, cur) {
        Err(e) => Err(e),
        Ok((t, next)) => {
            if t.token_type is EOF {
                Ok(Seq::empty())
            } else if !(cur.index < next.index <= s.len()) {
                Ok(Seq::empty())
            } else {
                match spec_tokenize_from(s, fname, next) {
                    Err(e) => Err(e),
                    Ok(rest) => Ok(seq![t] + rest),
                }
            }
        },
    }
}

/// The whole pass: the ordered token sequence of the source, without an
/// end-of-input entry, or the first error.
pub open spec fn spec_tokenize(s: Seq<char>, fname: Seq<char>) -> Result<
    Seq<TokenV>,
    TokenisationErrorV,
> {
    spec_tokenize_from(s, fname, start_cursor())
}

} // verus!
