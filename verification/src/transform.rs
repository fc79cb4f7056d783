//! The transform itself: walk the body, rewrite each candidate, reassemble
//! the procedure.

use vstd::prelude::*;

use crate::ast::{Args, Expression, Procedure, Span, Statement, Symbol};

verus! {

/// Whether a statement is a candidate for rewriting: its entire expression
/// is a suspension expression. A suspension nested inside a larger
/// expression does not qualify and is left entirely untouched — a documented
/// limitation of this transform.
pub open spec fn stmt_is_candidate(s: Statement) -> bool {
    match s {
        Statement::Expr { expr, .. } => expr matches Expression::Await { .. },
        _ => false,
    }
}

/// Whether a candidate hides further suspensions inside its operand; such
/// nested suspensions survive the rewrite, again the documented limitation.
pub open spec fn stmt_has_nested_await(s: Statement) -> bool {
    match s {
        Statement::Expr { expr: Expression::Await { base, .. }, .. } => {
            crate::ast::expr_has_await(*base)
        }
        _ => false,
    }
}

/// The replacement node for one candidate: a call to the blocking-invoke
/// symbol whose sole argument is the original operand, carrying the span of
/// the suspension expression it replaces.
pub open spec fn blocking_call(base: Expression, span: Span, block_on: Symbol) -> Expression {
    Expression::Call {
        callee: Box::new(Expression::Ident { name: block_on, span }),
        args: Args::Cons(Box::new(base), Box::new(Args::Nil)),
        span,
    }
}

/// What the transform makes of one statement: a candidate's suspension
/// expression becomes the blocking call, everything else stays itself.
pub open spec fn syncified_stmt(s: Statement, block_on: Symbol) -> Statement {
    match s {
        Statement::Expr { expr: Expression::Await { base, span }, trailing } => {
            Statement::Expr { expr: blocking_call(*base, span, block_on), trailing }
        }
        _ => s,
    }
}

/// What the transform makes of a whole body: each statement rewritten in
/// place, count and order kept.
pub open spec fn syncified_body(body: Seq<Statement>, block_on: Symbol) -> Seq<Statement> {
    body.map_values(|s: Statement| syncified_stmt(s, block_on))
}

/// Tree walker, classification step: decides whether `s` is a candidate.
pub fn is_candidate(s: &Statement) -> (b: bool)
    ensures
        b == stmt_is_candidate(*s),
{
    match s {
        Statement::Expr { expr: Expression::Await { .. }, .. } => true,
        _ => false,
    }
}

/// Node rewriter: wraps the operand of one suspension expression into the
/// blocking-invoke call, moving the operand and keeping the original span.
/// The operand may be any expression, not only a call.
pub fn wrap_blocking(base: Expression, span: Span, block_on: Symbol) -> (e: Expression)
    ensures
        e == blocking_call(base, span, block_on),
{
    Expression::Call {
        callee: Box::new(Expression::Ident { name: block_on, span }),
        args: Args::Cons(Box::new(base), Box::new(Args::Nil)),
        span,
    }
}

/// Rewrites one statement: a candidate's expression payload is replaced by
/// the blocking call, its kind and trailing marker kept; any other statement
/// is returned unchanged.
pub fn transform_stmt(s: Statement, block_on: Symbol) -> (t: Statement)
    ensures
        t == syncified_stmt(s, block_on),
{
    match s {
        Statement::Expr { expr: Expression::Await { base, span }, trailing } => {
            Statement::Expr { expr: wrap_blocking(*base, span, block_on), trailing }
        }
        other => other,
    }
}

/// Tree walker: consumes the body, rewrites each candidate, and produces the
/// new body with count and order preserved.
pub fn transform_body(body: Vec<Statement>, block_on: Symbol) -> (out: Vec<Statement>)
    ensures
        out@ == syncified_body(body@, block_on),
{
    let ghost orig: Seq<Statement> = body@;
    let mut rest: Vec<Statement> = body;
    let mut out: Vec<Statement> = Vec::new();
    while rest.len() > 0
        invariant
            out@.len() + rest@.len() == orig.len(),
            rest@ == orig.subrange(out@.len() as int, orig.len() as int),
            forall|j: int|
                0 <= j < out@.len() ==> out@[j] == syncified_stmt(orig[j], block_on),
        decreases rest@.len(),
    {
        let ghost k: int = out@.len() as int;
        assert(rest@[0] == orig[k]);
        let s = rest.remove(0);
        let t = transform_stmt(s, block_on);
        out.push(t);
        proof {
            assert(rest@ =~= orig.subrange(k + 1, orig.len() as int));
        }
    }
    proof {
        assert(out@ =~= syncified_body(orig, block_on));
    }
    out
}

/// Tree reassembler: a new procedure identical to `proc` in every field
/// except the body, which is replaced by `body`. No discovery or rewriting
/// happens here.
pub fn reassemble(proc: Procedure, body: Vec<Statement>) -> (out: Procedure)
    ensures
        out.name == proc.name,
        out.params == proc.params,
        out.ret == proc.ret,
        out.body == body,
{
    let Procedure { name, params, ret, body: _ } = proc;
    Procedure { name, params, ret, body }
}

/// The whole transform: every candidate statement of the body is replaced by
/// its blocking call, every other statement and every declaration field of
/// the procedure is kept as it was. `block_on` is the well-known symbol of
/// the blocking-invoke function; callers make sure it resolves in the
/// compiled output's scope.
pub fn syncify(proc: Procedure, block_on: Symbol) -> (out: Procedure)
    ensures
        out.name == proc.name,
        out.params == proc.params,
        out.ret == proc.ret,
        out.body@ == syncified_body(proc.body@, block_on),
{
    let mut header = proc;
    let mut body: Vec<Statement> = Vec::new();
    core::mem::swap(&mut body, &mut header.body);
    let body = transform_body(body, block_on);
    reassemble(header, body)
}

} // verus!
