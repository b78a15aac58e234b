//! The shapes of expression nodes that a parser builds from tokens.

use crate::token::{LiteralTypes, Token};
use vstd::prelude::*;

verus! {

/// An expression of the language.
#[derive(Debug)]
pub enum Expr {
    Assignment(Assignment),
    Binary(Binary),
    Call(Call),
    Get(Get),
    Grouping(Grouping),
    Literal(Literal),
    Logical(Logical),
    Unary(Unary),
    Variable(Variable),
}

/// `name = value`
#[derive(Debug)]
pub struct Assignment {
    pub name: Token,
    pub value: Box<Expr>,
}

/// `left operator right`, for an arithmetic or comparison operator.
#[derive(Debug)]
pub struct Binary {
    pub left: Box<Expr>,
    pub operator: Token,
    pub right: Box<Expr>,
}

/// `callee(arguments)`; `paren` is the closing parenthesis.
#[derive(Debug)]
pub struct Call {
    pub callee: Box<Expr>,
    pub paren: Token,
    pub arguments: Vec<Expr>,
}

/// `object.name`
#[derive(Debug)]
pub struct Get {
    pub object: Box<Expr>,
    pub name: Token,
}

/// `(expr)`
#[derive(Debug)]
pub struct Grouping {
    pub expr: Box<Expr>,
}

/// A literal value.
#[derive(Debug)]
pub struct Literal {
    pub value: LiteralTypes,
}

/// `left operator right`, for `and` and `or`.
#[derive(Debug)]
pub struct Logical {
    pub left: Box<Expr>,
    pub operator: Token,
    pub right: Box<Expr>,
}

/// `operator right`
#[derive(Debug)]
pub struct Unary {
    pub operator: Token,
    pub right: Box<Expr>,
}

/// A use of the variable `name`.
#[derive(Debug)]
pub struct Variable {
    pub name: Token,
}

} // verus!
