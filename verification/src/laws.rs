//! The guarantees the transform gives, stated over the same spec functions
//! its contracts use.

use vstd::prelude::*;

use crate::ast::{expr_has_await, expr_span, stmt_expr, stmt_has_await, Expression, Span, Statement};
use crate::transform::{
    blocking_call, stmt_has_nested_await, stmt_is_candidate, syncified_body, syncified_stmt,
};

verus! {

/// Idempotence of non-candidates: a statement that is not a statement-level
/// suspension expression comes out of the transform exactly as it went in.
pub proof fn lemma_non_candidate_unchanged(body: Seq<Statement>, block_on: u64)
    ensures
        forall|i: int|
            0 <= i < body.len() && !stmt_is_candidate(body[i])
                ==> syncified_body(body, block_on)[i] == body[i],
{
    assert forall|i: int|
        0 <= i < body.len() && !stmt_is_candidate(body[i])
            implies syncified_body(body, block_on)[i] == body[i] by {
        assert(syncified_body(body, block_on)[i] == syncified_stmt(body[i], block_on));
        assert(syncified_stmt(body[i], block_on) == body[i]);
    }
}

/// Completeness over direct candidates: in a body made only of
/// statement-level suspension expressions whose operands hide no further
/// suspension, the transformed body contains no suspension expression at
/// all.
pub proof fn lemma_direct_candidates_eliminated(body: Seq<Statement>, block_on: u64)
    requires
        forall|i: int|
            0 <= i < body.len()
                ==> stmt_is_candidate(body[i]) && !stmt_has_nested_await(body[i]),
    ensures
        forall|i: int|
            0 <= i < body.len() ==> !stmt_has_await(syncified_body(body, block_on)[i]),
{
    assert forall|i: int|
        0 <= i < body.len() implies !stmt_has_await(syncified_body(body, block_on)[i]) by {
        assert(stmt_is_candidate(body[i]) && !stmt_has_nested_await(body[i]));
        let s = body[i];
        match s {
            Statement::Expr { expr: Expression::Await { base, span }, trailing } => {
                let call = blocking_call(*base, span, block_on);
                assert(!expr_has_await(Expression::Ident { name: block_on, span }));
                assert(!crate::ast::args_have_await(crate::ast::Args::Nil));
                assert(!expr_has_await(*base));
                assert(!crate::ast::args_have_await(
                    crate::ast::Args::Cons(base, Box::new(crate::ast::Args::Nil)),
                ));
                assert(!expr_has_await(call));
                assert(syncified_body(body, block_on)[i] == syncified_stmt(s, block_on));
            }
            _ => {
                assert(false);
            }
        }
    }
}

/// Order preservation: the transformed body has exactly as many statements
/// as the input body, and the statement at each position is the rewrite of
/// the input statement at that same position.
pub proof fn lemma_order_preserved(body: Seq<Statement>, block_on: u64)
    ensures
        syncified_body(body, block_on).len() == body.len(),
        forall|i: int|
            0 <= i < body.len()
                ==> syncified_body(body, block_on)[i] == syncified_stmt(body[i], block_on),
{
}

/// Location preservation: the source location on the replacement call
/// expression equals the one on the suspension expression it replaces, and
/// the statement keeps its kind and trailing marker.
pub proof fn lemma_location_preserved(s: Statement, block_on: u64)
    requires
        stmt_is_candidate(s),
    ensures
        syncified_stmt(s, block_on) matches Statement::Expr { .. },
        expr_span(stmt_expr(syncified_stmt(s, block_on))) == expr_span(stmt_expr(s)),
        stmt_expr(syncified_stmt(s, block_on)) matches Expression::Call { .. },
{
    match s {
        Statement::Expr { expr: Expression::Await { base, span }, trailing } => {
            assert(syncified_stmt(s, block_on) == (Statement::Expr {
                expr: blocking_call(*base, span, block_on),
                trailing,
            }));
        }
        _ => {
            assert(false);
        }
    }
}

} // verus!
