use vstd::prelude::*;
use crate::complexity::{sat, sat_add};

verus! {

/// A project whose total complexity crosses this value draws a warning.
pub const COMPLEXITY_WARNING_THRESHOLD: usize = 10;

/// A project whose longest function crosses this many statements draws a
/// warning.
pub const LONGEST_FUNCTION_WARNING_THRESHOLD: usize = 50;

/// A project whose comment lines make up less than this share of its lines,
/// in percent, draws a warning.
pub const COMMENT_DENSITY_WARNING_PERCENT: usize = 10;

/// The metrics of one analyzed file. Created once per file and folded into
/// the project totals; never changed afterwards.
#[derive(Clone, Copy, Debug, PartialEq, Eq, Structural)]
pub struct FileMetrics {
    /// Line count of the raw text.
    pub loc: usize,
    /// Lines whose first non-blank characters mark a line comment.
    pub comments: usize,
    /// Function definitions among the file's top-level items.
    pub functions: usize,
    /// Sum of the complexity scores of those functions.
    pub cyclomatic_complexity: usize,
    /// Direct statement count of the longest function body.
    pub longest_function_loc: usize,
}

/// The all-zero metrics: what an unreadable file contributes.
pub open spec fn zero_metrics() -> FileMetrics {
    FileMetrics {
        loc: 0,
        comments: 0,
        functions: 0,
        cyclomatic_complexity: 0,
        longest_function_loc: 0,
    }
}

impl FileMetrics {
    /// Each function carries a base score of at least one, so a file's
    /// complexity is never below its function count.
    pub open spec fn wf(self) -> bool {
        self.cyclomatic_complexity >= self.functions
    }

    /// The metrics of a file that contributes nothing.
    pub fn zero() -> (fm: FileMetrics)
        ensures
            fm == zero_metrics(),
    {
        FileMetrics {
            loc: 0,
            comments: 0,
            functions: 0,
            cyclomatic_complexity: 0,
            longest_function_loc: 0,
        }
    }
}

/// The mathematical value of the running project totals.
#[verifier::ext_equal]
pub ghost struct ProjectView {
    pub loc: nat,
    pub comments: nat,
    pub functions: nat,
    pub cyclomatic_complexity: nat,
    pub longest_function_loc: nat,
    pub max_file_complexity: nat,
    pub file_with_max_complexity: Seq<char>,
}

/// The totals at the start of a run: everything zero, no file recorded.
pub open spec fn empty_view() -> ProjectView {
    ProjectView {
        loc: 0,
        comments: 0,
        functions: 0,
        cyclomatic_complexity: 0,
        longest_function_loc: 0,
        max_file_complexity: 0,
        file_with_max_complexity: Seq::<char>::empty(),
    }
}

/// Folding one file into the totals: the four additive fields are summed, the
/// longest function is the running maximum, and the most complex file is
/// replaced only when the new file's complexity is strictly greater, so ties
/// keep the earliest file.
pub open spec fn step_view(pv: ProjectView, path: Seq<char>, fm: FileMetrics) -> ProjectView {
    ProjectView {
        loc: sat(pv.loc + fm.loc as nat),
        comments: sat(pv.comments + fm.comments as nat),
        functions: sat(pv.functions + fm.functions as nat),
        cyclomatic_complexity: sat(pv.cyclomatic_complexity + fm.cyclomatic_complexity as nat),
        longest_function_loc: if fm.longest_function_loc > pv.longest_function_loc {
            fm.longest_function_loc as nat
        } else {
            pv.longest_function_loc
        },
        max_file_complexity: if fm.cyclomatic_complexity > pv.max_file_complexity {
            fm.cyclomatic_complexity as nat
        } else {
            pv.max_file_complexity
        },
        file_with_max_complexity: if fm.cyclomatic_complexity > pv.max_file_complexity {
            path
        } else {
            pv.file_with_max_complexity
        },
    }
}

/// The totals after folding each file of the sequence in order, starting from
/// the empty totals.
pub open spec fn spec_fold(entries: Seq<(Seq<char>, FileMetrics)>) -> ProjectView
    decreases entries,
{
    if entries.len() == 0 {
        empty_view()
    } else {
        step_view(spec_fold(entries.drop_last()), entries.last().0, entries.last().1)
    }
}

/// The running totals of a project analysis, plus the extremal values that
/// the fold tracks.
#[derive(Debug)]
pub struct ProjectMetrics {
    pub loc: usize,
    pub comments: usize,
    pub functions: usize,
    pub cyclomatic_complexity: usize,
    pub longest_function_loc: usize,
    pub max_file_complexity: usize,
    pub file_with_max_complexity: String,
}

impl View for ProjectMetrics {
    type V = ProjectView;

    open spec fn view(&self) -> ProjectView {
        ProjectView {
            loc: self.loc as nat,
            comments: self.comments as nat,
            functions: self.functions as nat,
            cyclomatic_complexity: self.cyclomatic_complexity as nat,
            longest_function_loc: self.longest_function_loc as nat,
            max_file_complexity: self.max_file_complexity as nat,
            file_with_max_complexity: self.file_with_max_complexity@,
        }
    }
}

impl ProjectMetrics {
    /// The complexity invariant carries over from the files to the totals.
    pub open spec fn wf(self) -> bool {
        self.cyclomatic_complexity >= self.functions
    }

    /// The totals at the start of a run.
    pub fn new() -> (pm: ProjectMetrics)
        ensures
            pm@ == empty_view(),
    {
        let pm = ProjectMetrics {
            loc: 0,
            comments: 0,
            functions: 0,
            cyclomatic_complexity: 0,
            longest_function_loc: 0,
            max_file_complexity: 0,
            file_with_max_complexity: String::new(),
        };
        proof {
            assert(pm@ =~= empty_view());
        }
        pm
    }

    /// Fold one file's metrics into the totals, exact against `step_view`.
    pub fn absorb(&mut self, path: &str, fm: &FileMetrics)
        ensures
            final(self)@ == step_view(old(self)@, path@, *fm),
            old(self).wf() && fm.wf() ==> final(self).wf(),
    {
        self.loc = sat_add(self.loc, fm.loc);
        self.comments = sat_add(self.comments, fm.comments);
        self.functions = sat_add(self.functions, fm.functions);
        self.cyclomatic_complexity = sat_add(self.cyclomatic_complexity, fm.cyclomatic_complexity);
        if fm.longest_function_loc > self.longest_function_loc {
            self.longest_function_loc = fm.longest_function_loc;
        }
        if fm.cyclomatic_complexity > self.max_file_complexity {
            self.max_file_complexity = fm.cyclomatic_complexity;
            self.file_with_max_complexity = String::from_str(path);
        }
        proof {
            assert(self@ =~= step_view(old(self)@, path@, *fm));
        }
    }

    /// Whether each warning threshold is crossed: total complexity above its
    /// bound, longest function above its bound, and comment lines making up
    /// less than the warning share of all lines. The density comparison is
    /// the exact rational one; with no lines at all the density warning stays
    /// off.
    pub fn threshold_warnings(&self) -> (w: (bool, bool, bool))
        ensures
            w.0 == (self.cyclomatic_complexity > COMPLEXITY_WARNING_THRESHOLD),
            w.1 == (self.longest_function_loc > LONGEST_FUNCTION_WARNING_THRESHOLD),
            w.2 == (100 * (self.comments as int) < COMMENT_DENSITY_WARNING_PERCENT * (
            self.loc as int)),
    {
        let complexity_high = self.cyclomatic_complexity > COMPLEXITY_WARNING_THRESHOLD;
        let function_long = self.longest_function_loc > LONGEST_FUNCTION_WARNING_THRESHOLD;
        let density_low = 100 * (self.comments as u128) < (COMMENT_DENSITY_WARNING_PERCENT as u128)
            * (self.loc as u128);
        (complexity_high, function_long, density_low)
    }
}

/// Fold a whole sequence of per-file results into project totals, exact
/// against `spec_fold`.
pub fn aggregate(entries: &Vec<(String, FileMetrics)>) -> (pm: ProjectMetrics)
    ensures
        pm@ == spec_fold(entries@.map_values(|e: (String, FileMetrics)| (e.0@, e.1))),
{
    let ghost mapped = entries@.map_values(|e: (String, FileMetrics)| (e.0@, e.1));
    let mut pm = ProjectMetrics::new();
    let n = entries.len();
    let mut i: usize = 0;
    proof {
        assert(mapped.subrange(0, 0) =~= Seq::<(Seq<char>, FileMetrics)>::empty());
    }
    while i < n
        invariant
            n == entries.len(),
            i <= n,
            mapped == entries@.map_values(|e: (String, FileMetrics)| (e.0@, e.1)),
            pm@ == spec_fold(mapped.subrange(0, i as int)),
        decreases n - i,
    {
        let entry = &entries[i];
        pm.absorb(entry.0.as_str(), &entry.1);
        proof {
            let extended = mapped.subrange(0, i + 1);
            assert(extended.drop_last() =~= mapped.subrange(0, i as int));
            assert(extended.last() == mapped[i as int]);
        }
        i = i + 1;
    }
    proof {
        assert(mapped.subrange(0, n as int) =~= mapped);
    }
    pm
}

/// The sum of one additive field over a sequence of per-file results.
pub open spec fn total_loc(entries: Seq<(Seq<char>, FileMetrics)>) -> nat
    decreases entries,
{
    if entries.len() == 0 {
        0
    } else {
        total_loc(entries.drop_last()) + entries.last().1.loc as nat
    }
}

/// The sum of the comment field over a sequence of per-file results.
pub open spec fn total_comments(entries: Seq<(Seq<char>, FileMetrics)>) -> nat
    decreases entries,
{
    if entries.len() == 0 {
        0
    } else {
        total_comments(entries.drop_last()) + entries.last().1.comments as nat
    }
}

/// The sum of the function count over a sequence of per-file results.
pub open spec fn total_functions(entries: Seq<(Seq<char>, FileMetrics)>) -> nat
    decreases entries,
{
    if entries.len() == 0 {
        0
    } else {
        total_functions(entries.drop_last()) + entries.last().1.functions as nat
    }
}

/// The sum of the complexity field over a sequence of per-file results.
pub open spec fn total_complexity(entries: Seq<(Seq<char>, FileMetrics)>) -> nat
    decreases entries,
{
    if entries.len() == 0 {
        0
    } else {
        total_complexity(entries.drop_last()) + entries.last().1.cyclomatic_complexity as nat
    }
}

/// Additivity of the fold: as long as no sum outgrows a machine word, each
/// additive field of the project totals equals the sum of that field over the
/// files.
pub proof fn lemma_fold_additive(entries: Seq<(Seq<char>, FileMetrics)>)
    requires
        total_loc(entries) <= usize::MAX,
        total_comments(entries) <= usize::MAX,
        total_functions(entries) <= usize::MAX,
        total_complexity(entries) <= usize::MAX,
    ensures
        spec_fold(entries).loc == total_loc(entries),
        spec_fold(entries).comments == total_comments(entries),
        spec_fold(entries).functions == total_functions(entries),
        spec_fold(entries).cyclomatic_complexity == total_complexity(entries),
    decreases entries,
{
    if entries.len() > 0 {
        lemma_fold_additive(entries.drop_last());
    }
}

/// The greatest per-file complexity over a sequence of per-file results.
pub open spec fn max_complexity(entries: Seq<(Seq<char>, FileMetrics)>) -> nat
    decreases entries,
{
    if entries.len() == 0 {
        0
    } else {
        let rest = max_complexity(entries.drop_last());
        if entries.last().1.cyclomatic_complexity > rest {
            entries.last().1.cyclomatic_complexity as nat
        } else {
            rest
        }
    }
}

/// No file's complexity exceeds the greatest one.
pub proof fn lemma_max_complexity_bound(entries: Seq<(Seq<char>, FileMetrics)>)
    ensures
        forall|j: int|
            0 <= j < entries.len() ==> entries[j].1.cyclomatic_complexity <= max_complexity(
                entries,
            ),
    decreases entries,
{
    if entries.len() > 0 {
        lemma_max_complexity_bound(entries.drop_last());
        assert(forall|j: int|
            0 <= j < entries.len() - 1 ==> entries[j] == entries.drop_last()[j]);
    }
}

/// The extremal law of the fold: the recorded maximal file complexity equals
/// the greatest per-file complexity, and the recorded path is the first file
/// attaining it, because only a strictly greater value replaces the record.
/// While every file's complexity is zero, no file is recorded.
pub proof fn lemma_fold_max(entries: Seq<(Seq<char>, FileMetrics)>)
    ensures
        spec_fold(entries).max_file_complexity == max_complexity(entries),
        max_complexity(entries) == 0 ==> spec_fold(entries).file_with_max_complexity
            == Seq::<char>::empty(),
        max_complexity(entries) > 0 ==> exists|i: int|
            0 <= i < entries.len() && entries[i].1.cyclomatic_complexity == max_complexity(entries)
                && spec_fold(entries).file_with_max_complexity == entries[i].0 && (forall|j: int|
                0 <= j < i ==> entries[j].1.cyclomatic_complexity < max_complexity(entries)),
    decreases entries,
{
    if entries.len() > 0 {
        let rest = entries.drop_last();
        lemma_fold_max(rest);
        let m = max_complexity(entries);
        let last = entries.last();
        assert(forall|j: int| 0 <= j < rest.len() ==> entries[j] == rest[j]);
        if last.1.cyclomatic_complexity > max_complexity(rest) {
            let i = entries.len() - 1;
            lemma_max_complexity_bound(rest);
            assert(entries[i].1.cyclomatic_complexity == m
                && spec_fold(entries).file_with_max_complexity == entries[i].0 && (forall|j: int|
                0 <= j < i ==> entries[j].1.cyclomatic_complexity < m));
        } else if m > 0 {
            let i = choose|i: int|
                0 <= i < rest.len() && rest[i].1.cyclomatic_complexity == max_complexity(rest)
                    && spec_fold(rest).file_with_max_complexity == rest[i].0 && (forall|j: int|
                    0 <= j < i ==> rest[j].1.cyclomatic_complexity < max_complexity(rest));
            assert(entries[i].1.cyclomatic_complexity == m
                && spec_fold(entries).file_with_max_complexity == entries[i].0 && (forall|j: int|
                0 <= j < i ==> entries[j].1.cyclomatic_complexity < m));
        }
    }
}

/// Whether every field of the totals still fits a machine word, as the totals
/// of an actual run always do.
pub open spec fn view_bounded(pv: ProjectView) -> bool {
    pv.loc <= usize::MAX && pv.comments <= usize::MAX && pv.functions <= usize::MAX
        && pv.cyclomatic_complexity <= usize::MAX && pv.longest_function_loc <= usize::MAX
        && pv.max_file_complexity <= usize::MAX
}

/// A file that contributes all-zero metrics — an unreadable one — leaves the
/// totals exactly as they were.
pub proof fn lemma_zero_contribution(pv: ProjectView, path: Seq<char>)
    requires
        view_bounded(pv),
    ensures
        step_view(pv, path, zero_metrics()) == pv,
{
    assert(step_view(pv, path, zero_metrics()) =~= pv);
}

} // verus!
