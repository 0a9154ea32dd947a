//! The syntax tree that the code generator consumes.
//!
//! A program arrives here already parsed and checked; the code generator only
//! reads it.

use vstd::prelude::*;

verus! {

/// A literal value written in the source text.
#[derive(Clone, Debug)]
pub enum Literal {
    String(String),
    /// A number, held as the bit pattern of its IEEE-754 binary64 value.
    Number(u64),
    Bool(bool),
}

/// The binary operators of the source language.
#[derive(Clone, Copy, Debug, PartialEq, Eq, Structural)]
pub enum BinaryOp {
    Add,
    Sub,
    Mul,
    Div,
    Mod,
    Eq,
    Ne,
    Lt,
    Gt,
    LtEq,
    GtEq,
    And,
    Or,
}

/// The unary operators of the source language.
#[derive(Clone, Copy, Debug, PartialEq, Eq, Structural)]
pub enum UnaryOp {
    Neg,
    Not,
}

/// One piece of an interpolated string.
#[derive(Debug)]
pub enum FStringPart {
    Text(String),
    Expr(Box<Expr>),
}

/// An expression.
#[derive(Debug)]
pub enum Expr {
    Literal(Literal),
    Identifier(String),
    Binary { left: Box<Expr>, op: BinaryOp, right: Box<Expr> },
    Unary { op: UnaryOp, expr: Box<Expr> },
    Call { func: Box<Expr>, args: Vec<Expr> },
    Member { object: Box<Expr>, field: String },
    If { cond: Box<Expr>, then_branch: Box<Expr>, else_branch: Option<Box<Expr>> },
    Range { start: Box<Expr>, end: Box<Expr> },
    FString { parts: Vec<FStringPart> },
    Await(Box<Expr>),
    Spawn(Box<Expr>),
}

/// A sequence of statements between braces.
#[derive(Debug)]
pub struct Block {
    pub statements: Vec<Statement>,
}

/// A parameter of a function: its name and, where written, the name of its type.
#[derive(Clone, Debug)]
pub struct Param {
    pub name: String,
    pub ty: Option<String>,
}

/// A function definition.
#[derive(Debug)]
pub struct Function {
    pub name: String,
    pub params: Vec<Param>,
    pub ret_ty: Option<String>,
    pub body: Block,
}

/// One `elif` arm of a conditional.
#[derive(Debug)]
pub struct ElifBlock {
    pub cond: Expr,
    pub block: Block,
}

/// A statement.
#[derive(Debug)]
pub enum Statement {
    Expr(Expr),
    Let { name: String, expr: Expr },
    Assignment { name: String, expr: Expr },
    If { cond: Expr, then_block: Block, elif_blocks: Vec<ElifBlock>, else_block: Option<Block> },
    For { var: String, iterable: Expr, body: Block },
    While { cond: Expr, body: Block },
    Break,
    Continue,
    Return(Option<Expr>),
    Function(Function),
    Use { module: String, alias: Option<String> },
    Block(Block),
}

/// A whole program: its top-level statements in source order.
#[derive(Debug)]
pub struct Program {
    pub statements: Vec<Statement>,
}

} // verus!
