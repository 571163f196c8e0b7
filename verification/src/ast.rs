//! The abstract syntax tree that a parser builds from the token
//! sequence. Only the data model lives here: expression and statement
//! nodes, operators, and the tree itself. As in the tokens, a
//! floating-point literal carries its source text.

use vstd::prelude::*;

verus! {

/// A unary or binary operator of the language.
#[derive(Debug, Clone, Copy, PartialEq, Eq, Structural)]
pub enum Operator {
    Add,
    Sub,
    Mul,
    Div,
    Mod,
    Pow,
    Eq,
    Ne,
    Lt,
    Le,
    Gt,
    Ge,
    And,
    Or,
    Not,
}

/// An expression node.
#[derive(Debug)]
pub enum ExprNode {
    Int(i64),
    Float(String),
    Str(String),
    Bool(bool),
    Ident(String),
    Binary(Operator, Box<ExprNode>, Box<ExprNode>),
    Unary(Operator, Box<ExprNode>),
}

/// One named, typed parameter of a function declaration.
#[derive(Debug, Clone, PartialEq)]
pub struct FunctionParameter {
    pub name: String,
    pub typ: String,
}

/// A statement node.
#[derive(Debug)]
pub enum StmtNode {
    Expr(ExprNode),
    Assignment(String, ExprNode),
    Return(ExprNode),
    Break,
    Continue,
    /// Condition, body, else-body.
    If(ExprNode, Vec<StmtNode>, Vec<StmtNode>),
    /// Variable, condition, body.
    For(String, ExprNode, Vec<StmtNode>),
    /// Name, parameters, return type, body.
    Function(String, Vec<FunctionParameter>, String, Vec<StmtNode>),
    /// Filename and line a group of statements came from.
    Context(String, u32),
}

/// The tree: the program's statements in order.
#[derive(Debug)]
pub struct AST {
    pub nodes: Vec<StmtNode>,
}

impl AST {
    /// An empty tree, ready to receive statements.
    pub fn new() -> (r: AST)
        ensures
            r.nodes@.len() == 0,
    {
        AST { nodes: Vec::new() }
    }
}

} // verus!
