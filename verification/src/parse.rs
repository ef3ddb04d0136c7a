use vstd::prelude::*;
use crate::syntax::{FunctionDef, SourceItem, Statement, StatementKind, SyntaxTree};
use syn::Expr;
use syn::Stmt;

verus! {

/// What parsing a file's raw text yields: the library's tree when the text is
/// valid in the target grammar, and nothing otherwise. The result depends on
/// the text alone.
pub uninterp spec fn parse_of(text: Seq<char>) -> Option<SyntaxTree>;

/// Relies on syn::parse_file: it parses the text of one source file, a pure
/// function of the text, and fails exactly on text that is not valid in the
/// grammar. The returned tree is brought into the library's model by
/// `convert_items`, verified below, so the whole result carries the one name
/// `parse_of`.
#[verifier::external_body]
pub(crate) fn parse_source(text: &str) -> (r: Option<SyntaxTree>)
    ensures
        r == parse_of(text@),
{
    match syn::parse_file(text) {
        Ok(file) => Some(convert_items(file.items)),
        Err(_) => None,
    }
}

/// Relies on syn::Item: a function item carries its name and its body's
/// statements; every other item kind is left aside.
#[verifier::external_body]
fn item_fn_parts(item: syn::Item) -> (r: Option<(String, Vec<Stmt>)>) {
    match item {
        syn::Item::Fn(f) => Some((f.sig.ident.to_string(), f.block.stmts)),
        _ => None,
    }
}

/// Relies on syn::Stmt: a bare expression statement whose expression is a
/// conditional, a pattern match, or one of the two conditional loops is a
/// qualifying branch statement; any other statement is not. An expression
/// statement hands its expression back for its nested bodies; a binding, a
/// nested item or a macro carries no nested body of its own here.
#[verifier::external_body]
fn stmt_parts(s: Stmt) -> (r: (StatementKind, Option<Expr>)) {
    match s {
        Stmt::Expr(e, _) => {
            let kind = match &e {
                Expr::If(_) => StatementKind::If,
                Expr::Match(_) => StatementKind::Match,
                Expr::While(_) => StatementKind::While,
                Expr::ForLoop(_) => StatementKind::For,
                _ => StatementKind::Other,
            };
            (kind, Some(e))
        },
        _ => (StatementKind::Other, None),
    }
}

/// Relies on syn::Expr: hands out the statement block nested directly in a
/// branch or loop expression — the then branch of a conditional, the body of
/// a while, for, loop, plain or unsafe block — and the expressions in which
/// further blocks may sit: the else branch and the match arm bodies.
#[verifier::external_body]
fn expr_parts(e: Expr) -> (r: (Vec<Stmt>, Vec<Expr>)) {
    match e {
        Expr::If(x) => (x.then_branch.stmts, x.else_branch.into_iter().map(|p| *p.1).collect()),
        Expr::Match(m) => (vec![], m.arms.into_iter().map(|a| *a.body).collect()),
        Expr::While(w) => (w.body.stmts, vec![]),
        Expr::ForLoop(f) => (f.body.stmts, vec![]),
        Expr::Loop(l) => (l.body.stmts, vec![]),
        Expr::Block(b) => (b.block.stmts, vec![]),
        Expr::Unsafe(u) => (u.block.stmts, vec![]),
        _ => (vec![], vec![]),
    }
}

/// Nesting deeper than this many levels never occurs in a parsed file, since
/// every level of nesting takes at least one character of text.
const CONVERT_DEPTH: usize = usize::MAX;

/// Bring one parsed statement into the library's model: classify it and
/// gather the statements of its nested bodies as its children.
fn convert_stmt(s: Stmt, depth: usize) -> Statement
    decreases depth,
{
    let (kind, expr) = stmt_parts(s);
    let children = match expr {
        Some(e) => {
            if depth > 0 {
                convert_expr_children(e, depth - 1)
            } else {
                Vec::new()
            }
        },
        None => Vec::new(),
    };
    Statement { kind, children }
}

/// Gather, in source order, the model statements of every body nested in one
/// parsed expression.
fn convert_expr_children(e: Expr, depth: usize) -> Vec<Statement>
    decreases depth,
{
    let mut out: Vec<Statement> = Vec::new();
    if depth == 0 {
        return out;
    }
    let (mut block, mut exprs) = expr_parts(e);
    while block.len() > 0
        invariant
            depth >= 1,
        decreases block.len(),
    {
        let s = block.remove(0);
        out.push(convert_stmt(s, depth - 1));
    }
    while exprs.len() > 0
        invariant
            depth >= 1,
        decreases exprs.len(),
    {
        let sub = exprs.remove(0);
        let mut more = convert_expr_children(sub, depth - 1);
        out.append(&mut more);
    }
    out
}

/// Bring the direct statements of one parsed body into the library's model.
fn convert_stmts(mut stmts: Vec<Stmt>) -> Vec<Statement> {
    let mut out: Vec<Statement> = Vec::new();
    while stmts.len() > 0
        decreases stmts.len(),
    {
        let s = stmts.remove(0);
        out.push(convert_stmt(s, CONVERT_DEPTH));
    }
    out
}

/// Bring the top-level items of one parsed file into the library's model.
fn convert_items(mut items: Vec<syn::Item>) -> SyntaxTree {
    let mut out: Vec<SourceItem> = Vec::new();
    while items.len() > 0
        decreases items.len(),
    {
        let item = items.remove(0);
        match item_fn_parts(item) {
            Some((name, stmts)) => {
                out.push(SourceItem::Fn(FunctionDef { name, body: convert_stmts(stmts) }));
            },
            None => {
                out.push(SourceItem::Other);
            },
        }
    }
    SyntaxTree { items: out }
}

} // verus!
