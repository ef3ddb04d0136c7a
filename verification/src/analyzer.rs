use vstd::prelude::*;
use crate::complexity::{fn_complexity, function_complexity, lemma_sat_absorb, sat, sat_add};
use crate::metrics::{spec_fold, zero_metrics, FileMetrics, ProjectView};
use crate::parse::{parse_of, parse_source};
use crate::syntax::{SourceItem, SyntaxTree};
use crate::text::{char_vec, count_comments, count_loc, spec_comments, spec_loc};

verus! {

/// The number of function definitions among the items.
pub open spec fn items_functions(items: Seq<SourceItem>) -> nat
    decreases items,
{
    if items.len() == 0 {
        0
    } else {
        items_functions(items.drop_last()) + (match items.last() {
            SourceItem::Fn(_) => 1nat,
            SourceItem::Other => 0nat,
        })
    }
}

/// The sum of the complexity scores of the function definitions among the
/// items.
pub open spec fn items_complexity(items: Seq<SourceItem>) -> nat
    decreases items,
{
    if items.len() == 0 {
        0
    } else {
        items_complexity(items.drop_last()) + (match items.last() {
            SourceItem::Fn(f) => fn_complexity(f),
            SourceItem::Other => 0nat,
        })
    }
}

/// The greatest direct statement count of a function body among the items.
pub open spec fn items_longest(items: Seq<SourceItem>) -> nat
    decreases items,
{
    if items.len() == 0 {
        0
    } else {
        let rest = items_longest(items.drop_last());
        let own = match items.last() {
            SourceItem::Fn(f) => f.body@.len(),
            SourceItem::Other => 0nat,
        };
        if own > rest {
            own
        } else {
            rest
        }
    }
}

/// Every function carries a base score of one, so a file's complexity is at
/// least its function count.
pub proof fn lemma_items_complexity_ge_functions(items: Seq<SourceItem>)
    ensures
        items_complexity(items) >= items_functions(items),
    decreases items,
{
    if items.len() > 0 {
        lemma_items_complexity_ge_functions(items.drop_last());
    }
}

/// What the analysis of one file's raw text yields. The line and comment
/// counts come from the raw text alone; the structural fields need a
/// successful parse and stay zero without one.
pub open spec fn spec_analyze(text: Seq<char>) -> FileMetrics {
    let loc = sat(spec_loc(text)) as usize;
    let comments = sat(spec_comments(text)) as usize;
    match parse_of(text) {
        Some(tree) => FileMetrics {
            loc,
            comments,
            functions: sat(items_functions(tree.items@)) as usize,
            cyclomatic_complexity: sat(items_complexity(tree.items@)) as usize,
            longest_function_loc: sat(items_longest(tree.items@)) as usize,
        },
        None => FileMetrics { loc, comments, functions: 0, cyclomatic_complexity: 0, longest_function_loc: 0 },
    }
}

/// Analyze the raw text of one file, exact against `spec_analyze`.
pub fn analyze_source(text: &str) -> (fm: FileMetrics)
    ensures
        fm == spec_analyze(text@),
        fm.wf(),
{
    let chars = char_vec(text);
    let loc = count_loc(&chars);
    let comments = count_comments(&chars);
    match parse_source(text) {
        None => FileMetrics { loc, comments, functions: 0, cyclomatic_complexity: 0, longest_function_loc: 0 },
        Some(tree) => {
            let (functions, cyclomatic_complexity, longest_function_loc) = analyze_tree(&tree);
            FileMetrics { loc, comments, functions, cyclomatic_complexity, longest_function_loc }
        },
    }
}

/// Walk the top-level items of a parsed file: count the function definitions,
/// sum their complexity scores, and track the longest body, each exact
/// against its item-level fold.
pub fn analyze_tree(tree: &SyntaxTree) -> (r: (usize, usize, usize))
    ensures
        r.0 as nat == sat(items_functions(tree.items@)),
        r.1 as nat == sat(items_complexity(tree.items@)),
        r.2 as nat == sat(items_longest(tree.items@)),
        r.1 >= r.0,
{
    let n = tree.items.len();
    let mut functions: usize = 0;
    let mut cyclomatic_complexity: usize = 0;
    let mut longest_function_loc: usize = 0;
    let mut i: usize = 0;
    assert(tree.items@.subrange(0, 0) =~= Seq::<SourceItem>::empty());
    while i < n
        invariant
            n == tree.items.len(),
            i <= n,
            functions <= i,
            functions as nat == items_functions(tree.items@.subrange(0, i as int)),
            cyclomatic_complexity as nat == sat(
                items_complexity(tree.items@.subrange(0, i as int)),
            ),
            longest_function_loc as nat == items_longest(tree.items@.subrange(0, i as int)),
        decreases n - i,
    {
        let ghost prefix = tree.items@.subrange(0, i as int);
        proof {
            let extended = tree.items@.subrange(0, i + 1);
            assert(extended.drop_last() =~= prefix);
            assert(extended.last() == tree.items@[i as int]);
        }
        match &tree.items[i] {
            SourceItem::Fn(f) => {
                functions = functions + 1;
                let c = function_complexity(f);
                cyclomatic_complexity = sat_add(cyclomatic_complexity, c);
                proof {
                    lemma_sat_absorb(items_complexity(prefix), fn_complexity(*f));
                }
                let body_len = f.body.len();
                if body_len > longest_function_loc {
                    longest_function_loc = body_len;
                }
            },
            SourceItem::Other => {},
        }
        i = i + 1;
    }
    proof {
        assert(tree.items@.subrange(0, n as int) =~= tree.items@);
        lemma_items_complexity_ge_functions(tree.items@);
    }
    (functions, cyclomatic_complexity, longest_function_loc)
}

/// The compute part of handling one candidate file: a file that could not be
/// read contributes all-zero metrics and raises no error; the text of a
/// readable file is analyzed.
pub fn analyze_read(text: Option<&str>) -> (fm: FileMetrics)
    ensures
        fm == (match text {
            Some(t) => spec_analyze(t@),
            None => zero_metrics(),
        }),
        fm.wf(),
{
    match text {
        Some(t) => analyze_source(t),
        None => FileMetrics::zero(),
    }
}

/// The input of one whole run: for each candidate file, in traversal order,
/// its path and the text read from it — or nothing, when the file was
/// unreadable and contributes all-zero metrics.
pub open spec fn spec_run(inputs: Seq<(Seq<char>, Option<Seq<char>>)>) -> ProjectView {
    spec_fold(
        inputs.map_values(
            |input: (Seq<char>, Option<Seq<char>>)|
                (
                    input.0,
                    match input.1 {
                        Some(text) => spec_analyze(text),
                        None => zero_metrics(),
                    },
                ),
        ),
    )
}

/// Re-running the analysis over an unchanged file tree yields identical
/// project metrics: the whole run is a function of the paths and the texts
/// read, and every analysis step is fixed by that function — nothing else
/// flows into the totals.
pub proof fn lemma_rerun_identical(
    first: Seq<(Seq<char>, Option<Seq<char>>)>,
    second: Seq<(Seq<char>, Option<Seq<char>>)>,
)
    requires
        first == second,
    ensures
        spec_run(first) == spec_run(second),
{
}

} // verus!
