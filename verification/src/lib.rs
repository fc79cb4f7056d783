//! Rewrites suspension points in a procedure body into synchronous,
//! blocking calls.
//!
//! A procedure body is an ordered sequence of statements. A statement whose
//! entire expression is a suspension expression (an `await` of some operand)
//! is a candidate: the transform replaces it, in order and in place, by a
//! call to a well-known blocking-invoke symbol whose sole argument is the
//! original operand, carrying the original node's source location. Every
//! other statement — including one that merely contains a suspension
//! expression nested inside a larger expression, a documented limitation —
//! passes through unchanged.
//!
//! The host language's parser and the mechanism that attaches the transform
//! to a procedure declaration are outside this crate; they hand over a
//! [`ast::Procedure`] value and take one back.

pub mod ast;
pub mod transform;
pub mod laws;
