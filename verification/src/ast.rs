//! The tree that the transform operates on.
//!
//! A procedure is a named unit with a parameter list and an ordered body of
//! statements; a statement is a tagged variant whose interesting case wraps
//! an expression together with a trailing-statement marker; an expression is
//! a tagged variant whose interesting case is the suspension expression,
//! which wraps the operand being awaited and carries source-location
//! metadata. Names are interned symbols, and a sub-expression the transform
//! never inspects is carried as an opaque handle, so that a host front end
//! can keep its own nodes in a side table.

use vstd::prelude::*;

verus! {

/// Source-location metadata attached to an expression node, kept so that
/// diagnostics for a rewritten node still point at the original span.
#[derive(Clone, Copy, PartialEq, Eq, Structural, Debug)]
pub struct Span {
    pub lo: u64,
    pub hi: u64,
}

/// An interned name: the host front end maps identifiers and paths to
/// symbols and back.
pub type Symbol = u64;

/// A binary operator; the transform never rewrites below one, so the exact
/// set only has to be rich enough for operands that carry suspensions.
#[derive(Clone, Copy, PartialEq, Eq, Debug)]
pub enum BinOp {
    Add,
    Sub,
    Mul,
}

/// An expression node.
#[derive(PartialEq, Eq, Debug)]
pub enum Expression {
    /// A plain identifier or path, as an interned symbol.
    Ident { name: Symbol, span: Span },
    /// An integer literal.
    Lit { value: u64, span: Span },
    /// A call: callee expression applied to an argument list.
    Call { callee: Box<Expression>, args: Args, span: Span },
    /// A binary operation.
    Binary { op: BinOp, lhs: Box<Expression>, rhs: Box<Expression>, span: Span },
    /// A suspension expression: awaits its operand, yielding to a scheduler.
    Await { base: Box<Expression>, span: Span },
    /// A host-language expression the transform carries through untouched,
    /// kept in a side table under this handle.
    Opaque { handle: u64, span: Span },
}

/// The ordered arguments of a call.
#[derive(PartialEq, Eq, Debug)]
pub enum Args {
    Nil,
    Cons(Box<Expression>, Box<Args>),
}

/// A statement of a procedure body.
#[derive(PartialEq, Eq, Debug)]
pub enum Statement {
    /// An expression statement; `trailing` marks the block's final,
    /// value-producing statement.
    Expr { expr: Expression, trailing: bool },
    /// A let binding of a literal initializer.
    Let { name: Symbol, init: Expression, span: Span },
    /// A host-language statement the transform carries through untouched,
    /// kept in a side table under this handle.
    Other { handle: u64, span: Span },
}

/// A named, parameterized unit of code with a sequential body.
#[derive(PartialEq, Eq, Debug)]
pub struct Procedure {
    pub name: Symbol,
    pub params: Vec<Symbol>,
    pub ret: Option<Symbol>,
    pub body: Vec<Statement>,
}

/// The source location an expression node carries.
pub open spec fn expr_span(e: Expression) -> Span {
    match e {
        Expression::Ident { span, .. } => span,
        Expression::Lit { span, .. } => span,
        Expression::Call { span, .. } => span,
        Expression::Binary { span, .. } => span,
        Expression::Await { span, .. } => span,
        Expression::Opaque { span, .. } => span,
    }
}

/// Whether a suspension expression occurs anywhere in `e`, at any depth the
/// tree itself exposes (an opaque node hides its inside from the transform,
/// so nothing below one counts).
pub open spec fn expr_has_await(e: Expression) -> bool
    decreases e,
{
    match e {
        Expression::Await { .. } => true,
        Expression::Call { callee, args, .. } => expr_has_await(*callee) || args_have_await(args),
        Expression::Binary { lhs, rhs, .. } => expr_has_await(*lhs) || expr_has_await(*rhs),
        _ => false,
    }
}

/// Whether a suspension expression occurs anywhere in an argument list.
pub open spec fn args_have_await(a: Args) -> bool
    decreases a,
{
    match a {
        Args::Nil => false,
        Args::Cons(first, rest) => expr_has_await(*first) || args_have_await(*rest),
    }
}

/// Whether a suspension expression occurs anywhere in a statement.
pub open spec fn stmt_has_await(s: Statement) -> bool {
    match s {
        Statement::Expr { expr, .. } => expr_has_await(expr),
        Statement::Let { init, .. } => expr_has_await(init),
        Statement::Other { .. } => false,
    }
}

/// The expression of an expression statement.
pub open spec fn stmt_expr(s: Statement) -> Expression
    recommends
        s matches Statement::Expr { .. },
{
    match s {
        Statement::Expr { expr, .. } => expr,
        _ => arbitrary(),
    }
}

/// Runs the check `expr_has_await` describes.
pub fn expr_contains_await(e: &Expression) -> (b: bool)
    ensures
        b == expr_has_await(*e),
    decreases *e,
{
    match e {
        Expression::Await { .. } => true,
        Expression::Call { callee, args, .. } => {
            expr_contains_await(&**callee) || args_contain_await(args)
        }
        Expression::Binary { lhs, rhs, .. } => {
            expr_contains_await(&**lhs) || expr_contains_await(&**rhs)
        }
        _ => false,
    }
}

/// Runs the check `args_have_await` describes.
pub fn args_contain_await(a: &Args) -> (b: bool)
    ensures
        b == args_have_await(*a),
    decreases *a,
{
    match a {
        Args::Nil => false,
        Args::Cons(first, rest) => expr_contains_await(&**first) || args_contain_await(&**rest),
    }
}

/// Runs the check `stmt_has_await` describes.
pub fn stmt_contains_await(s: &Statement) -> (b: bool)
    ensures
        b == stmt_has_await(*s),
{
    match s {
        Statement::Expr { expr, .. } => expr_contains_await(expr),
        Statement::Let { init, .. } => expr_contains_await(init),
        Statement::Other { .. } => false,
    }
}

} // verus!
