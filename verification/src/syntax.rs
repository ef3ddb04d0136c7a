use vstd::prelude::*;

verus! {

/// The kinds of statement that the complexity metric tells apart. A statement
/// of one of the first four kinds is a qualifying branch statement and adds
/// one execution path; every other statement adds none.
#[derive(Clone, Copy, Debug, PartialEq, Eq, Structural)]
pub enum StatementKind {
    /// A conditional statement, with or without an alternative branch.
    If,
    /// A pattern-match statement, whatever its number of arms.
    Match,
    /// A conditional loop statement.
    While,
    /// An iterator loop statement.
    For,
    /// Any other statement.
    Other,
}

/// A qualifying branch statement: one whose kind adds a path to the score.
pub open spec fn is_branch(k: StatementKind) -> bool {
    k != StatementKind::Other
}

/// One statement of a function body. `children` holds the statements of the
/// nested bodies that belong to this statement — branch arms and loop bodies —
/// in source order, so a body forms a tree of statements.
#[derive(Debug)]
pub struct Statement {
    pub kind: StatementKind,
    pub children: Vec<Statement>,
}

/// A function definition: its name and the ordered direct statements of its
/// body. The structural length of the function is the number of direct
/// statements; statements nested deeper count only toward complexity.
#[derive(Debug)]
pub struct FunctionDef {
    pub name: String,
    pub body: Vec<Statement>,
}

/// A top-level item of a source file. Only function definitions carry
/// structure that the metrics read.
#[derive(Debug)]
pub enum SourceItem {
    Fn(FunctionDef),
    Other,
}

/// The parsed representation of one source file: its top-level items.
#[derive(Debug)]
pub struct SyntaxTree {
    pub items: Vec<SourceItem>,
}

} // verus!
