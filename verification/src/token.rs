//! The token data model: the interface between the lexer and a parser.
//!
//! A token records its kind (with any literal payload), the 1-based line and
//! column of its *end* cursor position, the absolute character offset at
//! token end, the number of source characters it spans, and the originating
//! filename. Floating-point literals carry the literal's source text, signed
//! for a folded negative literal; turning that text into a machine float is
//! the consumer's concern, not the lexer's.

use vstd::prelude::*;
use vstd::string::StringExecFns;

verus! {

/// The kind of a token, carrying the literal payload where one exists.
#[derive(Debug, Clone, PartialEq)]
pub enum TokenType {
    LParen,
    RParen,
    LBrace,
    RBrace,
    OpAssign,
    OpAdd,
    OpSub,
    OpMul,
    OpDiv,
    OpMod,
    OpPow,
    OpEq,
    OpNe,
    OpLt,
    OpLe,
    OpGt,
    OpGe,
    OpAnd,
    OpOr,
    OpNot,
    Comma,
    Dot,
    Arrow,
    Range,
    KWIf,
    KWElse,
    KWFor,
    KWReturn,
    KWBreak,
    KWContinue,
    KWIn,
    Ident(String),
    Int(i64),
    Float(String),
    Str(String),
    Bool(bool),
    EOF,
}

/// Mathematical view of a token kind: text payloads become character
/// sequences, machine integers become unbounded integers.
pub ghost enum TokenTypeV {
    LParen,
    RParen,
    LBrace,
    RBrace,
    OpAssign,
    OpAdd,
    OpSub,
    OpMul,
    OpDiv,
    OpMod,
    OpPow,
    OpEq,
    OpNe,
    OpLt,
    OpLe,
    OpGt,
    OpGe,
    OpAnd,
    OpOr,
    OpNot,
    Comma,
    Dot,
    Arrow,
    Range,
    KWIf,
    KWElse,
    KWFor,
    KWReturn,
    KWBreak,
    KWContinue,
    KWIn,
    Ident(Seq<char>),
    Int(int),
    Float(Seq<char>),
    Str(Seq<char>),
    Bool(bool),
    EOF,
}

impl View for TokenType {
    type V = TokenTypeV;

    open spec fn view(&self) -> TokenTypeV {
        match self {
            TokenType::LParen => TokenTypeV::LParen,
            TokenType::RParen => TokenTypeV::RParen,
            TokenType::LBrace => TokenTypeV::LBrace,
            TokenType::RBrace => TokenTypeV::RBrace,
            TokenType::OpAssign => TokenTypeV::OpAssign,
            TokenType::OpAdd => TokenTypeV::OpAdd,
            TokenType::OpSub => TokenTypeV::OpSub,
            TokenType::OpMul => TokenTypeV::OpMul,
            TokenType::OpDiv => TokenTypeV::OpDiv,
            TokenType::OpMod => TokenTypeV::OpMod,
            TokenType::OpPow => TokenTypeV::OpPow,
            TokenType::OpEq => TokenTypeV::OpEq,
            TokenType::OpNe => TokenTypeV::OpNe,
            TokenType::OpLt => TokenTypeV::OpLt,
            TokenType::OpLe => TokenTypeV::OpLe,
            TokenType::OpGt => TokenTypeV::OpGt,
            TokenType::OpGe => TokenTypeV::OpGe,
            TokenType::OpAnd => TokenTypeV::OpAnd,
            TokenType::OpOr => TokenTypeV::OpOr,
            TokenType::OpNot => TokenTypeV::OpNot,
            TokenType::Comma => TokenTypeV::Comma,
            TokenType::Dot => TokenTypeV::Dot,
            TokenType::Arrow => TokenTypeV::Arrow,
            TokenType::Range => TokenTypeV::Range,
            TokenType::KWIf => TokenTypeV::KWIf,
            TokenType::KWElse => TokenTypeV::KWElse,
            TokenType::KWFor => TokenTypeV::KWFor,
            TokenType::KWReturn => TokenTypeV::KWReturn,
            TokenType::KWBreak => TokenTypeV::KWBreak,
            TokenType::KWContinue => TokenTypeV::KWContinue,
            TokenType::KWIn => TokenTypeV::KWIn,
            TokenType::Ident(s) => TokenTypeV::Ident(s@),
            TokenType::Int(i) => TokenTypeV::Int(*i as int),
            TokenType::Float(s) => TokenTypeV::Float(s@),
            TokenType::Str(s) => TokenTypeV::Str(s@),
            TokenType::Bool(b) => TokenTypeV::Bool(*b),
            TokenType::EOF => TokenTypeV::EOF,
        }
    }
}

/// The short name of a token kind, used in diagnostics; a literal
/// payload is not written out.
pub open spec fn spec_kind_name(t: TokenTypeV) -> Seq<char> {
    match t {
        TokenTypeV::LParen => "LParen"@,
        TokenTypeV::RParen => "RParen"@,
        TokenTypeV::LBrace => "LBrace"@,
        TokenTypeV::RBrace => "RBrace"@,
        TokenTypeV::OpAssign => "OpAssign"@,
        TokenTypeV::OpAdd => "OpAdd"@,
        TokenTypeV::OpSub => "OpSub"@,
        TokenTypeV::OpMul => "OpMul"@,
        TokenTypeV::OpDiv => "OpDiv"@,
        TokenTypeV::OpMod => "OpMod"@,
        TokenTypeV::OpPow => "OpPow"@,
        TokenTypeV::OpEq => "OpEq"@,
        TokenTypeV::OpNe => "OpNe"@,
        TokenTypeV::OpLt => "OpLt"@,
        TokenTypeV::OpLe => "OpLe"@,
        TokenTypeV::OpGt => "OpGt"@,
        TokenTypeV::OpGe => "OpGe"@,
        TokenTypeV::OpAnd => "OpAnd"@,
        TokenTypeV::OpOr => "OpOr"@,
        TokenTypeV::OpNot => "OpNot"@,
        TokenTypeV::Comma => "Comma"@,
        TokenTypeV::Dot => "Dot"@,
        TokenTypeV::Arrow => "Arrow"@,
        TokenTypeV::Range => "Range"@,
        TokenTypeV::KWIf => "KWIf"@,
        TokenTypeV::KWElse => "KWElse"@,
        TokenTypeV::KWFor => "KWFor"@,
        TokenTypeV::KWReturn => "KWReturn"@,
        TokenTypeV::KWBreak => "KWBreak"@,
        TokenTypeV::KWContinue => "KWContinue"@,
        TokenTypeV::KWIn => "KWIn"@,
        TokenTypeV::Ident(_) => "Ident"@,
        TokenTypeV::Int(_) => "Int"@,
        TokenTypeV::Float(_) => "Float"@,
        TokenTypeV::Str(_) => "Str"@,
        TokenTypeV::Bool(_) => "Bool"@,
        TokenTypeV::EOF => "EOF"@,
    }
}

impl TokenType {
    /// The short name of this kind, for diagnostics.
    pub fn kind_name(&self) -> (r: String)
        ensures
            r@ == spec_kind_name(self@),
    {
        match self {
            TokenType::LParen => String::from_str("LParen"),
            TokenType::RParen => String::from_str("RParen"),
            TokenType::LBrace => String::from_str("LBrace"),
            TokenType::RBrace => String::from_str("RBrace"),
            TokenType::OpAssign => String::from_str("OpAssign"),
            TokenType::OpAdd => String::from_str("OpAdd"),
            TokenType::OpSub => String::from_str("OpSub"),
            TokenType::OpMul => String::from_str("OpMul"),
            TokenType::OpDiv => String::from_str("OpDiv"),
            TokenType::OpMod => String::from_str("OpMod"),
            TokenType::OpPow => String::from_str("OpPow"),
            TokenType::OpEq => String::from_str("OpEq"),
            TokenType::OpNe => String::from_str("OpNe"),
            TokenType::OpLt => String::from_str("OpLt"),
            TokenType::OpLe => String::from_str("OpLe"),
            TokenType::OpGt => String::from_str("OpGt"),
            TokenType::OpGe => String::from_str("OpGe"),
            TokenType::OpAnd => String::from_str("OpAnd"),
            TokenType::OpOr => String::from_str("OpOr"),
            TokenType::OpNot => String::from_str("OpNot"),
            TokenType::Comma => String::from_str("Comma"),
            TokenType::Dot => String::from_str("Dot"),
            TokenType::Arrow => String::from_str("Arrow"),
            TokenType::Range => String::from_str("Range"),
            TokenType::KWIf => String::from_str("KWIf"),
            TokenType::KWElse => String::from_str("KWElse"),
            TokenType::KWFor => String::from_str("KWFor"),
            TokenType::KWReturn => String::from_str("KWReturn"),
            TokenType::KWBreak => String::from_str("KWBreak"),
            TokenType::KWContinue => String::from_str("KWContinue"),
            TokenType::KWIn => String::from_str("KWIn"),
            TokenType::Ident(_) => String::from_str("Ident"),
            TokenType::Int(_) => String::from_str("Int"),
            TokenType::Float(_) => String::from_str("Float"),
            TokenType::Str(_) => String::from_str("Str"),
            TokenType::Bool(_) => String::from_str("Bool"),
            TokenType::EOF => String::from_str("EOF"),
        }
    }

    /// True exactly on the sentinel end-of-input marker.
    pub fn is_eof(&self) -> (r: bool)
        ensures
            r == (self@ is EOF),
    {
        match self {
            TokenType::EOF => true,
            _ => false,
        }
    }
}

/// One classified unit of source text with its position metadata.
#[derive(Debug, Clone, PartialEq)]
pub struct Token {
    pub token_type: TokenType,
    pub line: u32,
    pub column: u32,
    pub index: u32,
    pub filename: String,
    pub length: u32,
}

/// Mathematical view of a token.
pub ghost struct TokenV {
    pub token_type: TokenTypeV,
    pub line: int,
    pub column: int,
    pub index: int,
    pub filename: Seq<char>,
    pub length: int,
}

impl View for Token {
    type V = TokenV;

    open spec fn view(&self) -> TokenV {
        TokenV {
            token_type: self.token_type@,
            line: self.line as int,
            column: self.column as int,
            index: self.index as int,
            filename: self.filename@,
            length: self.length as int,
        }
    }
}

impl DeepView for Token {
    type V = TokenV;

    open spec fn deep_view(&self) -> TokenV {
        self@
    }
}

} // verus!
