//! The opaque declarations of the parser's tree types, so that values of
//! them can pass through the conversion into the library's own model.

use vstd::prelude::*;

verus! {

/// Relies on syn::Item: a top-level item of a parsed file.
#[verifier::external_type_specification]
#[verifier::external_body]
pub struct ExSynItem(syn::Item);

/// Relies on syn::Stmt: one statement of a parsed body.
#[verifier::external_type_specification]
#[verifier::external_body]
pub struct ExSynStmt(syn::Stmt);

/// Relies on syn::Expr: one expression of a parsed body.
#[verifier::external_type_specification]
#[verifier::external_body]
pub struct ExSynExpr(syn::Expr);

} // verus!
