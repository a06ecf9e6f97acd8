//! The syntax tree that the evaluator walks.

use crate::token::Token;
use crate::token::TokenType;
use crate::value::Literal;
use std::rc::Rc;
use vstd::prelude::*;

verus! {

/// The surface form a loop was written in; it decides what `continue` runs
/// before the condition is tested again.
#[derive(Clone, Copy, Debug, PartialEq, Eq, Structural)]
pub enum LoopType {
    While,
    For,
    ForEach,
}

/// A function as written: its name, its parameters and its body.
#[derive(Debug)]
pub struct FunctionDecl {
    pub name: Token,
    pub params: Vec<Token>,
    pub body: Vec<Stmt>,
}

/// An expression.
#[derive(Debug)]
#[allow(inconsistent_fields)]
pub enum Expr {
    Binary { left: Box<Expr>, operator: Token, right: Box<Expr> },
    Ternary { condition: Box<Expr>, operator_a: Token, left: Box<Expr>, right: Box<Expr> },
    Grouping { expression: Box<Expr> },
    Unary { operator: Token, right: Box<Expr> },
    Literal { value: Option<Literal> },
    Var { name: Token },
    This { keyword: Token },
    Super { keyword: Token, method: Token },
    Assign { name: Token, assign_type: Option<TokenType>, value: Box<Expr> },
    Logical { left: Box<Expr>, operator: Token, right: Box<Expr> },
    Call { callee: Box<Expr>, paren: Token, arguments: Vec<Expr> },
    Get { object: Box<Expr>, name: Token },
    FieldSet { object: Box<Expr>, name: Token, assign_type: Option<TokenType>, value: Box<Expr> },
    Index { collection: Vec<Expr> },
    IndexGet { object: Box<Expr>, keyword: Token, index: Box<Expr> },
    IndexSet {
        object: Box<Expr>,
        name: Token,
        index: Box<Expr>,
        assign_type: Option<TokenType>,
        value: Box<Expr>,
    },
}

/// A statement.
#[derive(Debug)]
#[allow(inconsistent_fields)]
pub enum Stmt {
    Expression { expression: Expr },
    Var { name: Token, initializer: Option<Expr> },
    Print { expression: Expr },
    Block { statements: Vec<Stmt> },
    Class { name: Token, super_class: Option<Expr>, methods: Vec<Rc<FunctionDecl>> },
    If { condition: Expr, then_branch: Box<Stmt>, else_branch: Option<Box<Stmt>> },
    While { condition: Expr, body: Box<Stmt>, loop_type: LoopType },
    Function { declaration: Rc<FunctionDecl> },
    Return { keyword: Token, value: Option<Expr> },
    Break { keyword: Token },
    Continue { keyword: Token },
}

} // verus!
