//! The executable scanner, proved equivalent to the model.
//!
//! A `Lexer` owns one source text and a cursor; a single `tokenise` call
//! drains it to either the complete token sequence or the first error,
//! and is proved to return exactly `model::spec_tokenize_from` applied to
//! the source, the filename and the starting cursor.

use vstd::prelude::*;
use vstd::string::{StrSliceExecFns, StringExecFns};

use crate::diag::{TokenisationError, TokenisationErrorKind, TokenisationErrorV};
use crate::model;
use crate::model::{Cursor, NumScan, StrScan};
use crate::props;
use crate::text;
use crate::token::{Token, TokenType, TokenTypeV, TokenV};

verus! {

/// The largest source size, in characters, that a `Lexer` accepts: room
/// is left below `u32::MAX` so that offset, line and column arithmetic
/// stays in range.
pub const MAX_SOURCE_CHARS: u32 = 0xFFFF_FF00;

/// The scanner: the source text, the originating filename carried into
/// every token and error, the cursor, and the source's lines kept for
/// diagnostics.
pub struct Lexer {
    pub filename: String,
    pub source: String,
    pub index: u32,
    pub line: u32,
    pub column: u32,
    pub lines: Vec<String>,
}

impl Lexer {
    /// The scanner's cursor as the model sees it.
    pub open spec fn cursor(self) -> Cursor {
        Cursor { index: self.index as int, line: self.line as int, column: self.column as int }
    }

    /// Well-formedness: the source fits the size bound, the cursor lies
    /// inside it with 1-based line and column that never outrun the
    /// offset, and the kept lines are exactly the source's lines.
    pub open spec fn wf(self) -> bool {
        &&& self.source@.len() <= MAX_SOURCE_CHARS
        &&& self.index <= self.source@.len()
        &&& 1 <= self.line <= self.index as int + 1
        &&& 1 <= self.column <= self.index as int + 1
        &&& text::lines_view(self.lines@) == model::spec_lines(self.source@)
    }

    /// The fields that scanning never touches: only the cursor moves.
    pub open spec fn same_text(pre: Lexer, post: Lexer) -> bool {
        &&& post.filename == pre.filename
        &&& post.source == pre.source
        &&& post.lines == pre.lines
    }

    /// A fresh scanner over one source file: cursor at the start, lines
    /// split for diagnostics.
    pub fn new(filename: String, source: String) -> (r: Lexer)
        requires
            source@.len() <= MAX_SOURCE_CHARS,
        ensures
            r.wf(),
            r.filename == filename,
            r.source == source,
            r.cursor() == model::start_cursor(),
    {
        let lines = text::split_lines(source.as_str());
        Lexer { filename, source, index: 0, line: 1, column: 1, lines }
    }

    /// The character `offset` places past the cursor, if the source still
    /// holds one there.
    fn peek(&self, offset: u32) -> (c: Option<char>)
        requires
            self.wf(),
            offset <= 1,
        ensures
            c == (if 0 <= self.index + offset < self.source@.len() {
                Some(self.source@[self.index as int + offset as int])
            } else {
                None::<char>
            }),
    {
        let n = self.source.as_str().unicode_len();
        let i: usize = self.index as usize + offset as usize;
        if i < n {
            Some(self.source.as_str().get_char(i))
        } else {
            None
        }
    }

    /// Consume one character: offset and column advance; at the end of
    /// the input nothing changes.
    fn advance(&mut self) -> (c: Option<char>)
        requires
            old(self).wf(),
        ensures
            final(self).wf(),
            Lexer::same_text(*old(self), *final(self)),
            final(self).line == old(self).line,
            (if old(self).index < old(self).source@.len() {
                c == Some(old(self).source@[old(self).index as int]) && final(self).cursor()
                    == model::advanced(old(self).cursor())
            } else {
                c == None::<char> && *final(self) == *old(self)
            }),
    {
        let c = self.peek(0);
        if c.is_some() {
            self.index = self.index + 1;
            self.column = self.column + 1;
        }
        c
    }

    /// Skip insignificant whitespace: space, tab and carriage return move
    /// the column; a newline starts the next line at column one.
    fn skip_whitespace(&mut self)
        requires
            old(self).wf(),
        ensures
            final(self).wf(),
            Lexer::same_text(*old(self), *final(self)),
            final(self).cursor() == model::skip_ws(old(self).source@, old(self).cursor()),
    {
        let ghost s = self.source@;
        let ghost start = self.cursor();
        loop
            invariant
                self.wf(),
                self.source@ == s,
                Lexer::same_text(*old(self), *self),
                model::skip_ws(s, start) == model::skip_ws(s, self.cursor()),
            ensures
                self.wf(),
                Lexer::same_text(*old(self), *self),
                model::skip_ws(s, start) == model::skip_ws(s, self.cursor()),
                self.index as int >= s.len() || !(s[self.index as int] == ' ' || s[self.index as int]
                    == '\t' || s[self.index as int] == '\r' || s[self.index as int] == '\n'),
            decreases s.len() - self.index,
        {
            let c = self.peek(0);
            if c.is_none() {
                break ;
            }
            let ch = c.unwrap();
            if ch == ' ' || ch == '\t' || ch == '\r' {
                self.advance();
            } else if ch == '\n' {
                self.advance();
                self.line = self.line + 1;
                self.column = 1;
            } else {
                break ;
            }
        }
    }

    /// The cursor has reached the end of the input.
    fn is_end(&self) -> (r: bool)
        requires
            self.wf(),
        ensures
            r == (self.index >= self.source@.len()),
    {
        self.index as usize >= self.source.as_str().unicode_len()
    }

    /// The cursor stands on a boundary: end of input, whitespace, or an
    /// operator or punctuation character.
    fn is_boundary(&self) -> (r: bool)
        requires
            self.wf(),
        ensures
            r == model::is_boundary_at(self.source@, self.index as int),
    {
        match self.peek(0) {
            None => true,
            Some(c) => boundary_char(c),
        }
    }

    /// An error raised at the cursor, carrying the offending source line.
    fn error(&self, kind: TokenisationErrorKind, message: String) -> (r: TokenisationError)
        requires
            self.wf(),
        ensures
            r@ == model::mk_err(self.source@, self.filename@, self.cursor(), kind, message@),
    {
        let li: usize = (self.line - 1) as usize;
        let line_context = if li < self.lines.len() {
            self.lines[li].clone()
        } else {
            String::new()
        };
        TokenisationError {
            kind,
            line: self.line,
            column: self.column,
            index: self.index,
            filename: self.filename.clone(),
            message,
            line_context,
        }
    }

    /// A token built at the cursor: the position fields name its end.
    fn make_token(&self, token_type: TokenType, length: u32) -> (r: Token)
        requires
            self.wf(),
        ensures
            r@ == model::mk_token(token_type@, self.cursor(), self.filename@, length as int),
    {
        Token {
            token_type,
            line: self.line,
            column: self.column,
            index: self.index,
            filename: self.filename.clone(),
            length,
        }
    }
}

/// The executable outcome of a sub-scanner agrees with the model's: the
/// same token at the same final cursor, or the same error — and an
/// error, too, pins the final cursor: every scanner stops exactly where
/// it raises its error, so nothing is consumed past it.
pub open spec fn matches_scan(
    r: Result<Token, TokenisationError>,
    sr: Result<(TokenV, Cursor), TokenisationErrorV>,
    post: Lexer,
) -> bool {
    match r {
        Ok(t) => sr == Ok::<(TokenV, Cursor), TokenisationErrorV>((t@, post.cursor())),
        Err(e) => sr == Err::<(TokenV, Cursor), TokenisationErrorV>(e@) && post.cursor() == (Cursor {
            index: e@.index,
            line: e@.line,
            column: e@.column,
        }),
    }
}

impl Lexer {
    /// The numeric sub-scanner: a digit run with at most one decimal
    /// point, ended early by a range operator, checked against a
    /// boundary, and parsed.
    fn get_number(&mut self) -> (r: Result<Token, TokenisationError>)
        requires
            old(self).wf(),
        ensures
            final(self).wf(),
            Lexer::same_text(*old(self), *final(self)),
            matches_scan(
                r,
                model::spec_get_number(old(self).source@, old(self).filename@, old(self).cursor()),
                *final(self),
            ),
            ({
                match r {
                    Ok(t) => match t@.token_type {
                        TokenTypeV::Int(v) => v >= 0,
                        _ => true,
                    },
                    Err(_) => true,
                }
            }),
    {
        let ghost s = self.source@;
        let ghost f = self.filename@;
        let ghost start = self.cursor();
        let mut number: Vec<char> = Vec::new();
        let mut is_float = false;
        proof {
            assert(number@ =~= Seq::<char>::empty());
        }
        loop
            invariant
                self.wf(),
                s == old(self).source@,
                f == old(self).filename@,
                start == old(self).cursor(),
                self.source@ == s,
                self.filename@ == f,
                Lexer::same_text(*old(self), *self),
                start.index <= self.index,
                number@.len() <= self.index - start.index,
                !is_float ==> forall|k: int|
                    0 <= k < number@.len() ==> model::is_digit_char(number@[k]),
                model::scan_number_loop(s, f, start, Seq::empty(), false)
                    == model::scan_number_loop(s, f, self.cursor(), number@, is_float),
            ensures
                self.wf(),
                Lexer::same_text(*old(self), *self),
                number@.len() <= self.source@.len(),
                !is_float ==> forall|k: int|
                    0 <= k < number@.len() ==> model::is_digit_char(number@[k]),
                model::scan_number_loop(s, f, start, Seq::empty(), false) == (NumScan::Done {
                    cur: self.cursor(),
                    text: number@,
                    is_float,
                }),
            decreases s.len() - self.index,
        {
            let c = self.peek(0);
            if c.is_none() {
                break ;
            }
            let ch = c.unwrap();
            if digit_char(ch) {
                number.push(ch);
                self.advance();
            } else if ch == '.' {
                let next = self.peek(1);
                if next.is_some() && next.unwrap() == '.' {
                    break ;
                }
                if is_float {
                    let m = String::from_str("Illegal second decimal point in float literal: '.'");
                    return Err(self.error(TokenisationErrorKind::MalformedFloat, m));
                }
                number.push('.');
                self.advance();
                is_float = true;
            } else {
                break ;
            }
        }
        if !self.is_boundary() {
            let cch = self.peek(0).unwrap();
            let mut m = String::from_str("Unexpected character in numeric literal: ");
            text::push_char(&mut m, cch);
            proof {
                assert(m@ =~= model::msg_num_suffix() + seq![cch]);
            }
            return Err(self.error(TokenisationErrorKind::InvalidNumericSuffix, m));
        }
        if is_float {
            let text = text::chars_to_string(&number);
            let length: u32 = number.len() as u32;
            Ok(self.make_token(TokenType::Float(text), length))
        } else {
            match text::parse_i64(&number) {
                Some(v) => {
                    let length: u32 = number.len() as u32;
                    Ok(self.make_token(TokenType::Int(v), length))
                },
                None => Err(
                    self.error(
                        TokenisationErrorKind::NumericLiteralOverflow,
                        String::from_str("Integer literal out of range"),
                    ),
                ),
            }
        }
    }

    /// The identifier sub-scanner: a letter-led run of letters, digits
    /// and underscores, checked against a boundary and matched against
    /// the keyword set.
    fn get_ident(&mut self) -> (r: Result<Token, TokenisationError>)
        requires
            old(self).wf(),
        ensures
            final(self).wf(),
            Lexer::same_text(*old(self), *final(self)),
            matches_scan(
                r,
                model::spec_get_ident(old(self).source@, old(self).filename@, old(self).cursor()),
                *final(self),
            ),
    {
        let ghost s = self.source@;
        let ghost start = self.cursor();
        let mut ident: Vec<char> = Vec::new();
        proof {
            assert(ident@ =~= Seq::<char>::empty());
        }
        loop
            invariant
                self.wf(),
                s == old(self).source@,
                start == old(self).cursor(),
                self.source@ == s,
                Lexer::same_text(*old(self), *self),
                start.index <= self.index,
                ident@.len() <= self.index - start.index,
                model::scan_ident_loop(s, start, Seq::empty()) == model::scan_ident_loop(
                    s,
                    self.cursor(),
                    ident@,
                ),
            ensures
                self.wf(),
                Lexer::same_text(*old(self), *self),
                ident@.len() <= self.source@.len(),
                model::scan_ident_loop(s, start, Seq::empty()) == (self.cursor(), ident@),
            decreases s.len() - self.index,
        {
            let c = self.peek(0);
            if c.is_none() {
                break ;
            }
            let ch = c.unwrap();
            if ident_char(ch) {
                ident.push(ch);
                self.advance();
            } else {
                break ;
            }
        }
        if !self.is_boundary() {
            let cch = self.peek(0).unwrap();
            let mut m = String::from_str("Unexpected character in identifier: ");
            text::push_char(&mut m, cch);
            proof {
                assert(m@ =~= model::msg_ident_suffix() + seq![cch]);
            }
            return Err(self.error(TokenisationErrorKind::InvalidIdentifierSuffix, m));
        }
        let length: u32 = ident.len() as u32;
        let tt = keyword_lookup(&ident);
        Ok(self.make_token(tt, length))
    }

    /// The single-character operator path: consume one character, then
    /// tokenise it or report it as unexpected.
    fn get_single(&mut self) -> (r: Result<Token, TokenisationError>)
        requires
            old(self).wf(),
            old(self).index < old(self).source@.len(),
        ensures
            final(self).wf(),
            Lexer::same_text(*old(self), *final(self)),
            matches_scan(
                r,
                model::spec_get_single(old(self).source@, old(self).filename@, old(self).cursor()),
                *final(self),
            ),
    {
        let c = self.peek(0).unwrap();
        self.advance();
        match c {
            '+' => Ok(self.make_token(TokenType::OpAdd, 1)),
            '-' => Ok(self.make_token(TokenType::OpSub, 1)),
            '*' => Ok(self.make_token(TokenType::OpMul, 1)),
            '/' => Ok(self.make_token(TokenType::OpDiv, 1)),
            '%' => Ok(self.make_token(TokenType::OpMod, 1)),
            ',' => Ok(self.make_token(TokenType::Comma, 1)),
            '.' => Ok(self.make_token(TokenType::Dot, 1)),
            '!' => Ok(self.make_token(TokenType::OpNot, 1)),
            '=' => Ok(self.make_token(TokenType::OpAssign, 1)),
            '<' => Ok(self.make_token(TokenType::OpLt, 1)),
            '>' => Ok(self.make_token(TokenType::OpGt, 1)),
            '(' => Ok(self.make_token(TokenType::LParen, 1)),
            ')' => Ok(self.make_token(TokenType::RParen, 1)),
            '{' => Ok(self.make_token(TokenType::LBrace, 1)),
            '}' => Ok(self.make_token(TokenType::RBrace, 1)),
            _ => {
                let mut m = String::from_str("Unexpected character: ");
                text::push_char(&mut m, c);
                proof {
                    assert(m@ =~= model::msg_unexpected() + seq![c]);
                }
                Err(self.error(TokenisationErrorKind::UnexpectedCharacter, m))
            },
        }
    }

    /// The greedy operator path: a two-character match consumes both
    /// characters; otherwise the single-character path runs from the
    /// same unconsumed position.
    fn get_multi(&mut self) -> (r: Result<Token, TokenisationError>)
        requires
            old(self).wf(),
            old(self).index < old(self).source@.len(),
        ensures
            final(self).wf(),
            Lexer::same_text(*old(self), *final(self)),
            matches_scan(
                r,
                model::spec_get_multi(old(self).source@, old(self).filename@, old(self).cursor()),
                *final(self),
            ),
    {
        let c = self.peek(0).unwrap();
        let next = self.peek(1);
        if next.is_none() {
            return self.get_single();
        }
        let n = next.unwrap();
        if c == '*' && n == '*' {
            self.advance();
            self.advance();
            Ok(self.make_token(TokenType::OpPow, 2))
        } else if c == '=' && n == '=' {
            self.advance();
            self.advance();
            Ok(self.make_token(TokenType::OpEq, 2))
        } else if c == '>' && n == '=' {
            self.advance();
            self.advance();
            Ok(self.make_token(TokenType::OpGe, 2))
        } else if c == '<' && n == '=' {
            self.advance();
            self.advance();
            Ok(self.make_token(TokenType::OpLe, 2))
        } else if c == '!' && n == '=' {
            self.advance();
            self.advance();
            Ok(self.make_token(TokenType::OpNe, 2))
        } else if c == '&' && n == '&' {
            self.advance();
            self.advance();
            Ok(self.make_token(TokenType::OpAnd, 2))
        } else if c == '|' && n == '|' {
            self.advance();
            self.advance();
            Ok(self.make_token(TokenType::OpOr, 2))
        } else if c == '=' && n == '>' {
            self.advance();
            self.advance();
            Ok(self.make_token(TokenType::Arrow, 2))
        } else if c == '.' && n == '.' {
            self.advance();
            self.advance();
            Ok(self.make_token(TokenType::Range, 2))
        } else {
            self.get_single()
        }
    }

    /// The string sub-scanner, entered at the opening quote: unescape the
    /// body up to the closing quote; the token's length counts the value
    /// plus the two delimiters.
    fn get_string(&mut self) -> (r: Result<Token, TokenisationError>)
        requires
            old(self).wf(),
            old(self).index < old(self).source@.len(),
        ensures
            final(self).wf(),
            Lexer::same_text(*old(self), *final(self)),
            matches_scan(
                r,
                model::spec_get_string(old(self).source@, old(self).filename@, old(self).cursor()),
                *final(self),
            ),
    {
        let ghost s = self.source@;
        let ghost f = self.filename@;
        let mut value: Vec<char> = Vec::new();
        self.advance();
        let ghost start = self.cursor();
        let mut escape = false;
        proof {
            assert(value@ =~= Seq::<char>::empty());
        }
        loop
            invariant_except_break
                model::scan_string_loop(s, f, start, Seq::empty(), false)
                    == model::scan_string_loop(s, f, self.cursor(), value@, escape),
            invariant
                self.wf(),
                s == old(self).source@,
                f == old(self).filename@,
                start == model::advanced(old(self).cursor()),
                old(self).index < old(self).source@.len(),
                self.source@ == s,
                self.filename@ == f,
                Lexer::same_text(*old(self), *self),
                start.index <= self.index,
                value@.len() <= self.index - start.index,
            ensures
                self.wf(),
                Lexer::same_text(*old(self), *self),
                value@.len() <= self.source@.len(),
                model::scan_string_loop(s, f, start, Seq::empty(), false) == (StrScan::Done {
                    cur: self.cursor(),
                    value: value@,
                }),
            decreases s.len() - self.index,
        {
            let c = self.advance();
            if c.is_none() {
                let m = String::from_str("Unterminated string literal");
                return Err(self.error(TokenisationErrorKind::UnterminatedString, m));
            }
            let ch = c.unwrap();
            if escape {
                match escape_lookup(ch) {
                    Some(e) => {
                        value.push(e);
                        escape = false;
                    },
                    None => {
                        let mut m = String::from_str("Invalid escape sequence: \\");
                        text::push_char(&mut m, ch);
                        proof {
                            assert(m@ =~= model::msg_escape() + seq![ch]);
                        }
                        return Err(self.error(TokenisationErrorKind::InvalidEscapeSequence, m));
                    },
                }
            } else if ch == '\\' {
                escape = true;
            } else if ch == '"' {
                break ;
            } else {
                value.push(ch);
            }
        }
        let length: u32 = value.len() as u32 + 2;
        let text = text::chars_to_string(&value);
        Ok(self.make_token(TokenType::Str(text), length))
    }

    /// One step of the scanning loop: skip whitespace, then dispatch on
    /// the leading character. End of input yields the sentinel end
    /// marker; a minus sign directly followed by a digit folds into a
    /// negative numeric literal.
    fn get_token(&mut self) -> (r: Result<Token, TokenisationError>)
        requires
            old(self).wf(),
        ensures
            final(self).wf(),
            Lexer::same_text(*old(self), *final(self)),
            matches_scan(
                r,
                model::spec_get_token(old(self).source@, old(self).filename@, old(self).cursor()),
                *final(self),
            ),
    {
        self.skip_whitespace();
        if self.is_end() {
            return Ok(self.make_token(TokenType::EOF, 0));
        }
        let c = self.peek(0).unwrap();
        if c == '-' {
            let next = self.peek(1);
            if next.is_some() && digit_char(next.unwrap()) {
                self.advance();
                match self.get_number() {
                    Err(e) => Err(e),
                    Ok(token) => {
                        let ghost tv = token@;
                        let Token { token_type, line, column, index, filename, length } = token;
                        let negated = match token_type {
                            TokenType::Int(i) => TokenType::Int(-i),
                            TokenType::Float(txt) => {
                                let mut signed = String::from_str("-");
                                signed.append(txt.as_str());
                                proof {
                                    reveal_strlit("-");
                                    assert(signed@ =~= seq!['-'] + txt@);
                                }
                                TokenType::Float(signed)
                            },
                            other => other,
                        };
                        let token = Token { token_type: negated, line, column, index, filename, length };
                        proof {
                            assert(token@ == model::negate_token(tv));
                        }
                        Ok(token)
                    },
                }
            } else {
                self.advance();
                Ok(self.make_token(TokenType::OpSub, 1))
            }
        } else if op_start_char(c) {
            self.get_multi()
        } else if digit_char(c) {
            self.get_number()
        } else if letter_char(c) {
            self.get_ident()
        } else if c == '"' {
            self.get_string()
        } else {
            let mut m = String::from_str("Unexpected character: ");
            text::push_char(&mut m, c);
            proof {
                assert(m@ =~= model::msg_unexpected() + seq![c]);
            }
            Err(self.error(TokenisationErrorKind::UnexpectedCharacter, m))
        }
    }

    /// The whole pass: drain the source to the complete token sequence,
    /// without an end-of-input entry, or to the first error — exactly
    /// what the model says of the source and filename.
    pub fn tokenise(&mut self) -> (r: Result<Vec<Token>, TokenisationError>)
        requires
            old(self).wf(),
        ensures
            final(self).wf(),
            Lexer::same_text(*old(self), *final(self)),
            ({
                match r {
                    Ok(tokens) => model::spec_tokenize_from(
                        old(self).source@,
                        old(self).filename@,
                        old(self).cursor(),
                    ) == Ok::<Seq<TokenV>, TokenisationErrorV>(tokens.deep_view()),
                    Err(e) => model::spec_tokenize_from(
                        old(self).source@,
                        old(self).filename@,
                        old(self).cursor(),
                    ) == Err::<Seq<TokenV>, TokenisationErrorV>(e@) && final(self).cursor() == (
                    Cursor { index: e@.index, line: e@.line, column: e@.column }),
                }
            }),
    {
        let ghost s = self.source@;
        let ghost f = self.filename@;
        let ghost start = self.cursor();
        let mut tokens: Vec<Token> = Vec::new();
        proof {
            assert(tokens.deep_view() =~= Seq::<TokenV>::empty());
        }
        loop
            invariant
                self.wf(),
                s == old(self).source@,
                f == old(self).filename@,
                start == old(self).cursor(),
                self.source@ == s,
                self.filename@ == f,
                Lexer::same_text(*old(self), *self),
                model::spec_tokenize_from(s, f, start) == (match model::spec_tokenize_from(
                    s,
                    f,
                    self.cursor(),
                ) {
                    Ok(rest) => Ok::<Seq<TokenV>, TokenisationErrorV>(tokens.deep_view() + rest),
                    Err(e) => Err::<Seq<TokenV>, TokenisationErrorV>(e),
                }),
            decreases s.len() - self.index,
        {
            let ghost cur0 = self.cursor();
            match self.get_token() {
                Err(e) => {
                    return Err(e);
                },
                Ok(token) => {
                    if token.token_type.is_eof() {
                        proof {
                            assert(tokens.deep_view() + Seq::<TokenV>::empty()
                                =~= tokens.deep_view());
                        }
                        return Ok(tokens);
                    }
                    proof {
                        props::lemma_get_token_advances(s, f, cur0);
                    }
                    let ghost before = tokens.deep_view();
                    tokens.push(token);
                    proof {
                        assert(tokens.deep_view() =~= before.push(token@));
                        let t_next = model::spec_tokenize_from(s, f, self.cursor());
                        if t_next is Ok {
                            let rest = t_next->Ok_0;
                            assert(before + (seq![token@] + rest) =~= before.push(token@) + rest);
                        }
                    }
                },
            }
        }
    }
}

/// The fixed keyword set and the boolean literals, matched
/// case-sensitively; any other text is a generic identifier carrying it.
fn keyword_lookup(text: &Vec<char>) -> (tt: TokenType)
    ensures
        tt@ == model::keyword_or_ident(text@),
{
    proof {
        reveal_strlit("if");
        reveal_strlit("else");
        reveal_strlit("for");
        reveal_strlit("return");
        reveal_strlit("break");
        reveal_strlit("continue");
        reveal_strlit("in");
        reveal_strlit("true");
        reveal_strlit("false");
    }
    let n = text.len();
    if n == 2 && text[0] == 'i' && text[1] == 'f' {
        proof {
            assert(text@ =~= "if"@);
        }
        TokenType::KWIf
    } else if n == 4 && text[0] == 'e' && text[1] == 'l' && text[2] == 's' && text[3] == 'e' {
        proof {
            assert(text@ =~= "else"@);
        }
        TokenType::KWElse
    } else if n == 3 && text[0] == 'f' && text[1] == 'o' && text[2] == 'r' {
        proof {
            assert(text@ =~= "for"@);
        }
        TokenType::KWFor
    } else if n == 6 && text[0] == 'r' && text[1] == 'e' && text[2] == 't' && text[3] == 'u'
        && text[4] == 'r' && text[5] == 'n' {
        proof {
            assert(text@ =~= "return"@);
        }
        TokenType::KWReturn
    } else if n == 5 && text[0] == 'b' && text[1] == 'r' && text[2] == 'e' && text[3] == 'a'
        && text[4] == 'k' {
        proof {
            assert(text@ =~= "break"@);
        }
        TokenType::KWBreak
    } else if n == 8 && text[0] == 'c' && text[1] == 'o' && text[2] == 'n' && text[3] == 't'
        && text[4] == 'i' && text[5] == 'n' && text[6] == 'u' && text[7] == 'e' {
        proof {
            assert(text@ =~= "continue"@);
        }
        TokenType::KWContinue
    } else if n == 2 && text[0] == 'i' && text[1] == 'n' {
        proof {
            assert(text@ =~= "in"@);
        }
        TokenType::KWIn
    } else if n == 4 && text[0] == 't' && text[1] == 'r' && text[2] == 'u' && text[3] == 'e' {
        proof {
            assert(text@ =~= "true"@);
        }
        TokenType::Bool(true)
    } else if n == 5 && text[0] == 'f' && text[1] == 'a' && text[2] == 'l' && text[3] == 's'
        && text[4] == 'e' {
        proof {
            assert(text@ =~= "false"@);
        }
        TokenType::Bool(false)
    } else {
        let s = text::chars_to_string(text);
        TokenType::Ident(s)
    }
}

/// The character an escape sequence stands for, where one exists.
fn escape_lookup(c: char) -> (r: Option<char>)
    ensures
        r == model::escape_char(c),
{
    match c {
        'n' => Some('\n'),
        'r' => Some('\r'),
        't' => Some('\t'),
        '0' => Some('\0'),
        '\'' => Some('\''),
        '"' => Some('"'),
        '\\' => Some('\\'),
        _ => None,
    }
}

/// An ASCII decimal digit.
fn digit_char(c: char) -> (r: bool)
    ensures
        r == model::is_digit_char(c),
{
    let u = c as u32;
    48 <= u && u <= 57
}

/// An ASCII letter.
fn letter_char(c: char) -> (r: bool)
    ensures
        r == model::is_letter_char(c),
{
    let u = c as u32;
    (97 <= u && u <= 122) || (65 <= u && u <= 90)
}

/// A character that may continue an identifier.
fn ident_char(c: char) -> (r: bool)
    ensures
        r == model::is_ident_char(c),
{
    letter_char(c) || digit_char(c) || c == '_'
}

/// A character that may legally follow a literal or identifier.
fn boundary_char(c: char) -> (r: bool)
    ensures
        r == model::is_boundary_char(c),
{
    c == ' ' || c == '\t' || c == '\r' || c == '\n' || c == '(' || c == ')' || c == '{' || c == '}'
        || c == '=' || c == '+' || c == '-' || c == '*' || c == '/' || c == '%' || c == '^' || c
        == ',' || c == '.' || c == '!' || c == '>' || c == '<' || c == '&' || c == '|'
}

/// A character that routes into the operator and punctuation scanner.
fn op_start_char(c: char) -> (r: bool)
    ensures
        r == model::is_op_start_char(c),
{
    c == '+' || c == '*' || c == '/' || c == '%' || c == ',' || c == '.' || c == '!' || c == '='
        || c == '<' || c == '>' || c == '&' || c == '|' || c == '(' || c == ')' || c == '{' || c
        == '}'
}

} // verus!
