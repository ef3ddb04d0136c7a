use vstd::prelude::*;
use crate::syntax::{is_branch, FunctionDef, Statement, StatementKind};

verus! {

/// Sums of metric values saturate at the machine's word size instead of
/// wrapping or failing.
pub open spec fn sat(x: nat) -> nat {
    if x > usize::MAX as nat {
        usize::MAX as nat
    } else {
        x
    }
}

/// Saturating addition on machine words, exact against `sat`.
pub fn sat_add(a: usize, b: usize) -> (r: usize)
    ensures
        r as nat == sat(a as nat + b as nat),
{
    if a <= usize::MAX - b {
        a + b
    } else {
        usize::MAX
    }
}

/// Saturation can be applied stepwise: saturating an already saturated
/// partial sum loses nothing.
pub proof fn lemma_sat_absorb(a: nat, b: nat)
    ensures
        sat(sat(a) + b) == sat(a + b),
        sat(a + sat(b)) == sat(a + b),
        sat(sat(a) + sat(b)) == sat(a + b),
{
}

/// The number of qualifying branch statements in this statement's subtree,
/// the statement itself included.
pub open spec fn stmt_score(s: Statement) -> nat
    decreases s,
{
    (if is_branch(s.kind) {
        1nat
    } else {
        0nat
    }) + stmts_score(s.children@)
}

/// The number of qualifying branch statements in a sequence of statement
/// subtrees.
pub open spec fn stmts_score(ss: Seq<Statement>) -> nat
    decreases ss,
{
    if ss.len() == 0 {
        0
    } else {
        stmts_score(ss.drop_last()) + stmt_score(ss.last())
    }
}

/// The complexity of a function: one for its entry path, plus one for each
/// qualifying branch statement found at any nesting depth in its body.
pub open spec fn fn_complexity(f: FunctionDef) -> nat {
    1 + stmts_score(f.body@)
}

/// The complexity formula: whenever the score fits a machine word — as it
/// does for any function that fits in memory — the computed complexity is
/// exactly one plus the number of qualifying branch statements found at any
/// nesting depth in the body, each counted once whatever its number of arms
/// or branches.
pub proof fn lemma_complexity_formula(f: FunctionDef)
    requires
        fn_complexity(f) <= usize::MAX,
    ensures
        sat(fn_complexity(f)) == 1 + stmts_score(f.body@),
{
}

/// The number of qualifying branch statements among the statements of the
/// sequence itself, without descending into their children.
pub open spec fn count_branch_kinds(ss: Seq<Statement>) -> nat
    decreases ss,
{
    if ss.len() == 0 {
        0
    } else {
        count_branch_kinds(ss.drop_last()) + (if is_branch(ss.last().kind) {
            1nat
        } else {
            0nat
        })
    }
}

/// Counting branch kinds distributes over concatenation.
pub proof fn lemma_count_branch_kinds_add(a: Seq<Statement>, b: Seq<Statement>)
    ensures
        count_branch_kinds(a + b) == count_branch_kinds(a) + count_branch_kinds(b),
    decreases b,
{
    if b.len() == 0 {
        assert(a + b =~= a);
    } else {
        lemma_count_branch_kinds_add(a, b.drop_last());
        assert((a + b).drop_last() =~= a + b.drop_last());
        assert((a + b).last() == b.last());
    }
}

/// Every statement of a subtree: the statement itself, then the statements
/// of its nested bodies, transitively, at any depth.
pub open spec fn descendants(s: Statement) -> Seq<Statement>
    decreases s,
{
    seq![s] + descendants_of(s.children@)
}

/// Every statement reachable from a sequence of statement subtrees.
pub open spec fn descendants_of(ss: Seq<Statement>) -> Seq<Statement>
    decreases ss,
{
    if ss.len() == 0 {
        Seq::<Statement>::empty()
    } else {
        descendants_of(ss.drop_last()) + descendants(ss.last())
    }
}

/// A subtree's score is the number of qualifying branch statements among all
/// its descendant statements.
pub proof fn lemma_score_counts_descendants(s: Statement)
    ensures
        stmt_score(s) == count_branch_kinds(descendants(s)),
    decreases s,
{
    lemma_scores_count_descendants(s.children@);
    lemma_count_branch_kinds_add(seq![s], descendants_of(s.children@));
    assert(seq![s].drop_last() =~= Seq::<Statement>::empty());
    assert(seq![s].last() == s);
    assert(count_branch_kinds(Seq::<Statement>::empty()) == 0);
    assert(count_branch_kinds(seq![s]) == (if is_branch(s.kind) {
        1nat
    } else {
        0nat
    }));
}

/// A sequence's score is the number of qualifying branch statements among
/// all statements reachable from it.
pub proof fn lemma_scores_count_descendants(ss: Seq<Statement>)
    ensures
        stmts_score(ss) == count_branch_kinds(descendants_of(ss)),
    decreases ss,
{
    if ss.len() > 0 {
        lemma_scores_count_descendants(ss.drop_last());
        lemma_score_counts_descendants(ss.last());
        lemma_count_branch_kinds_add(descendants_of(ss.drop_last()), descendants(ss.last()));
    }
}

/// The complexity of a function is one plus the number of qualifying branch
/// statements found at any nesting depth within its body — each conditional,
/// pattern match, while or for statement counted exactly once, wherever it
/// sits and whatever it contains.
pub proof fn lemma_complexity_counts_all_depths(f: FunctionDef)
    ensures
        fn_complexity(f) == 1 + count_branch_kinds(descendants_of(f.body@)),
{
    lemma_scores_count_descendants(f.body@);
}

/// Whether a statement's subtree holds any qualifying branch statement.
pub open spec fn stmt_has_branch(s: Statement) -> bool
    decreases s,
{
    is_branch(s.kind) || stmts_have_branch(s.children@)
}

/// Whether any statement of the sequence holds a qualifying branch statement.
pub open spec fn stmts_have_branch(ss: Seq<Statement>) -> bool
    decreases ss,
{
    ss.len() > 0 && (stmts_have_branch(ss.drop_last()) || stmt_has_branch(ss.last()))
}

/// The branch count of a subtree is zero exactly when it holds no qualifying
/// branch statement.
pub proof fn lemma_stmt_score_zero(s: Statement)
    ensures
        stmt_score(s) == 0 <==> !stmt_has_branch(s),
    decreases s,
{
    lemma_stmts_score_zero(s.children@);
}

/// The branch count of a sequence is zero exactly when none of its statements
/// holds a qualifying branch statement.
pub proof fn lemma_stmts_score_zero(ss: Seq<Statement>)
    ensures
        stmts_score(ss) == 0 <==> !stmts_have_branch(ss),
    decreases ss,
{
    if ss.len() > 0 {
        lemma_stmts_score_zero(ss.drop_last());
        lemma_stmt_score_zero(ss.last());
    }
}

/// A function whose body holds no qualifying branch statement has complexity
/// exactly one.
pub proof fn lemma_no_branch_complexity_one(f: FunctionDef)
    requires
        !stmts_have_branch(f.body@),
    ensures
        fn_complexity(f) == 1,
{
    lemma_stmts_score_zero(f.body@);
}

/// Scores the control-flow complexity of one function body by walking its
/// statement tree.
pub struct CyclomaticComplexityVisitor {
    pub complexity: usize,
}

impl CyclomaticComplexityVisitor {
    /// A fresh visitor. The score starts at one: the function's entry path.
    pub fn new() -> (v: Self)
        ensures
            v.complexity == 1,
    {
        CyclomaticComplexityVisitor { complexity: 1 }
    }

    /// Visit one statement and, transitively, every statement nested in it,
    /// adding one to the score for each qualifying branch statement found.
    pub fn visit_stmt(&mut self, s: &Statement)
        ensures
            final(self).complexity as nat == sat(old(self).complexity as nat + stmt_score(*s)),
        decreases *s,
    {
        let ghost base: nat = if is_branch(s.kind) {
            1nat
        } else {
            0nat
        };
        if !(s.kind == StatementKind::Other) {
            self.complexity = sat_add(self.complexity, 1);
        }
        let n = s.children.len();
        let mut i: usize = 0;
        assert(s.children@.subrange(0, 0) =~= Seq::<Statement>::empty());
        while i < n
            invariant
                n == s.children.len(),
                i <= n,
                self.complexity as nat == sat(
                    old(self).complexity as nat + base + stmts_score(
                        s.children@.subrange(0, i as int),
                    ),
                ),
            decreases n - i,
        {
            let ghost prefix = s.children@.subrange(0, i as int);
            self.visit_stmt(&s.children[i]);
            proof {
                let extended = s.children@.subrange(0, i + 1);
                assert(extended.drop_last() =~= prefix);
                assert(extended.last() == s.children@[i as int]);
                lemma_sat_absorb(
                    old(self).complexity as nat + base + stmts_score(prefix),
                    stmt_score(s.children@[i as int]),
                );
            }
            i = i + 1;
        }
        proof {
            assert(s.children@.subrange(0, n as int) =~= s.children@);
        }
    }
}

/// The complexity score of one function definition, exact up to saturation.
pub fn function_complexity(f: &FunctionDef) -> (c: usize)
    ensures
        c as nat == sat(fn_complexity(*f)),
{
    let mut visitor = CyclomaticComplexityVisitor::new();
    let n = f.body.len();
    let mut i: usize = 0;
    assert(f.body@.subrange(0, 0) =~= Seq::<Statement>::empty());
    while i < n
        invariant
            n == f.body.len(),
            i <= n,
            visitor.complexity as nat == sat(1 + stmts_score(f.body@.subrange(0, i as int))),
        decreases n - i,
    {
        let ghost prefix = f.body@.subrange(0, i as int);
        visitor.visit_stmt(&f.body[i]);
        proof {
            let extended = f.body@.subrange(0, i + 1);
            assert(extended.drop_last() =~= prefix);
            assert(extended.last() == f.body@[i as int]);
            lemma_sat_absorb(1 + stmts_score(prefix), stmt_score(f.body@[i as int]));
        }
        i = i + 1;
    }
    proof {
        assert(f.body@.subrange(0, n as int) =~= f.body@);
    }
    visitor.complexity
}

} // verus!
