//! The parser's frame: its error value with positional diagnostics, and
//! the statement loop over the token sequence. No statement form is
//! recognised yet, so the first token is always reported as unexpected;
//! an empty token sequence parses to an empty tree.

use vstd::prelude::*;
use vstd::string::StringExecFns;

use crate::ast::{StmtNode, AST};
use crate::diag;
use crate::text;
use crate::token::{spec_kind_name, Token, TokenV};

verus! {

/// A terminal diagnostic value: parsing failed at the given token.
#[derive(Debug, Clone, PartialEq)]
pub struct ParsingError {
    pub line: u32,
    pub column: u32,
    pub index: u32,
    pub filename: String,
    pub message: String,
    pub line_context: String,
    pub token_size: u32,
}

/// Mathematical view of a parsing error.
pub ghost struct ParsingErrorV {
    pub line: int,
    pub column: int,
    pub index: int,
    pub filename: Seq<char>,
    pub message: Seq<char>,
    pub line_context: Seq<char>,
    pub token_size: int,
}

impl View for ParsingError {
    type V = ParsingErrorV;

    open spec fn view(&self) -> ParsingErrorV {
        ParsingErrorV {
            line: self.line as int,
            column: self.column as int,
            index: self.index as int,
            filename: self.filename@,
            message: self.message@,
            line_context: self.line_context@,
            token_size: self.token_size as int,
        }
    }
}

/// The parsing error raised at a token: the token's end position and
/// span, the given message, and the offending source line.
pub open spec fn spec_parsing_error(t: TokenV, message: Seq<char>, line: Seq<char>) -> ParsingErrorV {
    ParsingErrorV {
        line: t.line,
        column: t.column,
        index: t.index,
        filename: t.filename,
        message: message,
        line_context: line,
        token_size: t.length,
    }
}

/// The underline that `render` places under the offending token: spaces
/// up to the token's start, then one tilde per spanned character. A
/// token whose span outruns its end column gets no leading spaces.
pub open spec fn spec_underline(column: int, token_size: int) -> Seq<char> {
    let spaces: nat = if column >= 1 + token_size {
        (column - 1 - token_size) as nat
    } else {
        0
    };
    Seq::new(spaces, |i: int| ' ') + Seq::new(if token_size >= 0 {
        token_size as nat
    } else {
        0
    }, |i: int| '~')
}

/// What `render` returns for a parsing error: the message, the
/// position, then the offending source line with the token underlined.
pub open spec fn spec_render_parsing(e: ParsingErrorV) -> Seq<char> {
    "Parsing failed: "@ + e.message + "\n --> "@ + e.filename + ":"@ + diag::spec_dec_str(e.line)
        + ":"@ + diag::spec_dec_str(e.column) + " ("@ + diag::spec_dec_str(e.index) + ")\n\n   "@
        + e.line_context + "\n   "@ + spec_underline(e.column, e.token_size)
}

impl ParsingError {
    /// A parsing error raised at a token, carrying the offending line.
    pub fn new(at: &Token, message: String, line: String) -> (r: ParsingError)
        ensures
            r@ == spec_parsing_error(at@, message@, line@),
    {
        ParsingError {
            line: at.line,
            column: at.column,
            index: at.index,
            filename: at.filename.clone(),
            message: message,
            line_context: line,
            token_size: at.length,
        }
    }

    /// The diagnostic text, ready to print: message and position, then
    /// the offending source line with the token underlined.
    pub fn render(&self) -> (r: String)
        ensures
            r@ == spec_render_parsing(self@),
    {
        let line_s = diag::dec_string(self.line);
        let column_s = diag::dec_string(self.column);
        let index_s = diag::dec_string(self.index);
        let underline = self.underline();
        let mut r = String::from_str("Parsing failed: ");
        r.append(self.message.as_str());
        r.append("\n --> ");
        r.append(self.filename.as_str());
        r.append(":");
        r.append(line_s.as_str());
        r.append(":");
        r.append(column_s.as_str());
        r.append(" (");
        r.append(index_s.as_str());
        r.append(")\n\n   ");
        r.append(self.line_context.as_str());
        r.append("\n   ");
        r.append(underline.as_str());
        r
    }

    /// The underline of the offending token.
    fn underline(&self) -> (r: String)
        ensures
            r@ == spec_underline(self.column as int, self.token_size as int),
    {
        let spaces: u32 = if self.column > self.token_size {
            self.column - 1 - self.token_size
        } else {
            0
        };
        let mut r = String::new();
        proof {
            assert(r@ =~= Seq::new(0, |k: int| ' '));
        }
        let mut i: u32 = 0;
        while i < spaces
            invariant
                i <= spaces,
                r@ == Seq::new(i as nat, |k: int| ' '),
            decreases spaces - i,
        {
            text::push_char(&mut r, ' ');
            proof {
                assert(r@ =~= Seq::new((i + 1) as nat, |k: int| ' '));
            }
            i = i + 1;
        }
        let mut j: u32 = 0;
        while j < self.token_size
            invariant
                j <= self.token_size,
                r@ == Seq::new(spaces as nat, |k: int| ' ') + Seq::new(j as nat, |k: int| '~'),
            decreases self.token_size - j,
        {
            text::push_char(&mut r, '~');
            proof {
                assert(r@ =~= Seq::new(spaces as nat, |k: int| ' ') + Seq::new(
                    (j + 1) as nat,
                    |k: int| '~',
                ));
            }
            j = j + 1;
        }
        proof {
            assert(r@ =~= spec_underline(self.column as int, self.token_size as int));
        }
        r
    }
}

/// The line of the kept sources that a token points into, or the empty
/// text where its line number runs past them.
pub open spec fn spec_token_line(lines: Seq<String>, line: int) -> Seq<char> {
    if 1 <= line <= lines.len() {
        lines[line - 1]@
    } else {
        Seq::empty()
    }
}

/// The error that the statement loop raises at a token while no
/// statement form is recognised.
pub open spec fn spec_stmt_error(tokens: Seq<Token>, lines: Seq<String>, i: int) -> ParsingErrorV {
    spec_parsing_error(
        tokens[i]@,
        "Unexpected token: "@ + spec_kind_name(tokens[i].token_type@),
        spec_token_line(lines, tokens[i].line as int),
    )
}

/// The parser: the token sequence, the source's lines for diagnostics,
/// and a cursor into the tokens.
pub struct Parser {
    tokens: Vec<Token>,
    lines: Vec<String>,
    index: usize,
}

impl Parser {
    /// The tokens the parser was given.
    pub closed spec fn spec_tokens(self) -> Seq<Token> {
        self.tokens@
    }

    /// The source lines the parser was given.
    pub closed spec fn spec_lines(self) -> Seq<String> {
        self.lines@
    }

    /// The cursor into the tokens.
    pub closed spec fn spec_index(self) -> int {
        self.index as int
    }

    /// A parser over a token sequence and the matching source lines.
    pub fn new(tokens: Vec<Token>, lines: Vec<String>) -> (r: Parser)
        ensures
            r.spec_tokens() == tokens@,
            r.spec_lines() == lines@,
            r.spec_index() == 0,
    {
        Parser { tokens: tokens, lines: lines, index: 0 }
    }

    /// The cursor has consumed every token.
    fn is_done(&self) -> (r: bool)
        ensures
            r == (self.spec_index() >= self.spec_tokens().len()),
    {
        self.index >= self.tokens.len()
    }

    /// A parsing error at the token under the cursor.
    fn error(&self, message: String) -> (r: ParsingError)
        requires
            self.spec_index() < self.spec_tokens().len(),
        ensures
            r@ == spec_parsing_error(
                self.spec_tokens()[self.spec_index()]@,
                message@,
                spec_token_line(
                    self.spec_lines(),
                    self.spec_tokens()[self.spec_index()].line as int,
                ),
            ),
    {
        let token = &self.tokens[self.index];
        let in_lines = if token.line >= 1 {
            let li: usize = (token.line - 1) as usize;
            li < self.lines.len()
        } else {
            false
        };
        let line = if in_lines {
            self.lines[(token.line - 1) as usize].clone()
        } else {
            String::new()
        };
        ParsingError::new(token, message, line)
    }

    /// One statement from the cursor on. No statement form is
    /// recognised yet: the token under the cursor is reported as
    /// unexpected.
    fn get_stmt(&mut self) -> (r: Result<StmtNode, ParsingError>)
        requires
            old(self).spec_index() < old(self).spec_tokens().len(),
        ensures
            *final(self) == *old(self),
            r matches Err(pe) && pe@ == spec_stmt_error(
                old(self).spec_tokens(),
                old(self).spec_lines(),
                old(self).spec_index(),
            ),
    {
        let token = &self.tokens[self.index];
        let kind = token.token_type.kind_name();
        let mut m = String::from_str("Unexpected token: ");
        m.append(kind.as_str());
        Err(self.error(m))
    }

    /// Parse the whole token sequence: an empty sequence yields an
    /// empty tree; otherwise the first token is reported as unexpected.
    pub fn parse(&mut self) -> (r: Result<AST, ParsingError>)
        ensures
            match r {
                Ok(ast) => old(self).spec_index() >= old(self).spec_tokens().len()
                    && ast.nodes@.len() == 0,
                Err(e) => old(self).spec_index() < old(self).spec_tokens().len() && e@
                    == spec_stmt_error(
                    old(self).spec_tokens(),
                    old(self).spec_lines(),
                    old(self).spec_index(),
                ),
            },
    {
        let mut ast = AST::new();
        while !self.is_done()
            invariant
                *self == *old(self),
                ast.nodes@.len() == 0,
            decreases old(self).spec_tokens().len() - self.spec_index(),
        {
            match self.get_stmt() {
                Ok(stmt) => {
                    ast.nodes.push(stmt);
                },
                Err(e) => {
                    return Err(e);
                },
            }
        }
        Ok(ast)
    }
}

} // verus!
