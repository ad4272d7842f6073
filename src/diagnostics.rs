//! Handling of the diagnostics the engine reports for one file: the order in
//! which they are rendered and the counts they add to the run.

use vstd::prelude::*;
use crate::summary::{FileOutcome, error_total, warning_total};

verus! {

/// How serious a reported issue is.
#[derive(Clone, Copy, Debug, PartialEq, Eq, Structural)]
pub enum Severity {
    Error,
    Warning,
}

/// What the driver reads of one diagnostic: its severity and where it starts
/// in the source.
#[derive(Clone, Copy, Debug, PartialEq, Eq, Structural)]
pub struct DiagnosticInfo {
    pub severity: Severity,
    pub start: usize,
}

/// Number of diagnostics of severity `sev` in `s`.
pub open spec fn count_of(s: Seq<DiagnosticInfo>, sev: Severity) -> nat
    decreases s.len(),
{
    if s.len() == 0 {
        0
    } else {
        count_of(s.drop_last(), sev) + (if s.last().severity == sev { 1nat } else { 0nat })
    }
}

/// Diagnostic `i` comes before diagnostic `j` in rendering order: by start
/// position, and by reported position among equal starts.
pub open spec fn precedes(d: Seq<DiagnosticInfo>, i: int, j: int) -> bool {
    d[i].start < d[j].start || (d[i].start == d[j].start && i < j)
}

/// `order` lists every index of `d` exactly once, sorted by start position,
/// and keeps the reported order among diagnostics that start at the same place.
pub open spec fn is_render_order(d: Seq<DiagnosticInfo>, order: Seq<usize>) -> bool {
    &&& order.len() == d.len()
    &&& forall|k: int| 0 <= k < order.len() ==> #[trigger] order[k] < d.len()
    &&& forall|i: usize| i < d.len() ==> #[trigger] order.contains(i)
    &&& forall|a: int, b: int|
        0 <= a < b < order.len() ==> precedes(d, #[trigger] order[a] as int, #[trigger] order[b] as int)
}

/// The indices of `diags` in the order in which they are rendered: ascending
/// start position, ties kept in the order the engine reported them.
pub fn render_order(diags: &Vec<DiagnosticInfo>) -> (order: Vec<usize>)
    ensures
        is_render_order(diags@, order@),
        forall|a: int, b: int|
            0 <= a < b < order@.len() ==> diags@[#[trigger] order@[a] as int].start <= diags@[#[trigger] order@[b] as int].start,
{
    let ghost d = diags@;
    let mut order: Vec<usize> = Vec::new();
    let mut k: usize = 0;
    while k < diags.len()
        invariant
            k <= d.len(),
            d == diags@,
            order@.len() == k,
            forall|m: int| 0 <= m < order@.len() ==> #[trigger] order@[m] < k,
            forall|i: usize| i < k ==> #[trigger] order@.contains(i),
            forall|a: int, b: int|
                0 <= a < b < order@.len() ==> precedes(d, #[trigger] order@[a] as int, #[trigger] order@[b] as int),
        decreases d.len() - k,
    {
        let key = diags[k].start;
        // first position whose diagnostic starts after `key`
        let mut p: usize = 0;
        while p < order.len() && diags[order[p]].start <= key
            invariant
                p <= order@.len(),
                d == diags@,
                order@.len() == k,
                k < d.len(),
                forall|m: int| 0 <= m < order@.len() ==> #[trigger] order@[m] < k,
                forall|m: int| 0 <= m < p ==> d[#[trigger] order@[m] as int].start <= key,
            decreases order@.len() - p,
        {
            p = p + 1;
        }
        proof {
            if p < order@.len() {
                assert(d[order@[p as int] as int].start > key);
                assert forall|m: int| p <= m < order@.len() implies d[#[trigger] order@[m] as int].start > key by {
                    if m > p {
                        assert(precedes(d, order@[p as int] as int, order@[m] as int));
                    }
                }
            }
        }
        let ghost old_order = order@;
        order.insert(p, k);
        proof {
            assert forall|i: usize| i <= k implies #[trigger] order@.contains(i) by {
                if i == k {
                    assert(order@[p as int] == k);
                } else {
                    assert(old_order.contains(i));
                    let m = choose|m: int| 0 <= m < old_order.len() && old_order[m] == i;
                    if m < p {
                        assert(order@[m] == i);
                    } else {
                        assert(order@[m + 1] == i);
                    }
                }
            }
            assert forall|a: int, b: int|
                0 <= a < b < order@.len() implies precedes(d, #[trigger] order@[a] as int, #[trigger] order@[b] as int) by {
                if b < p {
                    assert(order@[a] == old_order[a] && order@[b] == old_order[b]);
                } else if b == p {
                    assert(order@[a] == old_order[a]);
                } else if a < p {
                    assert(order@[a] == old_order[a] && order@[b] == old_order[b - 1]);
                } else if a == p {
                    assert(order@[b] == old_order[b - 1]);
                } else {
                    assert(order@[a] == old_order[a - 1] && order@[b] == old_order[b - 1]);
                }
            }
        }
        k = k + 1;
    }
    order
}

/// Every diagnostic is either an error or a warning.
pub proof fn lemma_counts_cover(s: Seq<DiagnosticInfo>)
    ensures
        count_of(s, Severity::Error) + count_of(s, Severity::Warning) == s.len(),
    decreases s.len(),
{
    if s.len() > 0 {
        lemma_counts_cover(s.drop_last());
    }
}

/// The outcome of a file that parsed and on which the engine reported `d`.
pub open spec fn checked_outcome(d: Seq<DiagnosticInfo>) -> FileOutcome {
    FileOutcome::Checked {
        errors: count_of(d, Severity::Error) as usize,
        warnings: count_of(d, Severity::Warning) as usize,
    }
}

/// What the driver makes of the diagnostics of one parsed file.
pub struct FileReport {
    /// Indices of the diagnostics in rendering order.
    pub order: Vec<usize>,
    pub errors: usize,
    pub warnings: usize,
}

impl FileReport {
    /// The file's contribution to the run summary.
    pub fn outcome(&self) -> (r: FileOutcome)
        ensures
            r == (FileOutcome::Checked { errors: self.errors, warnings: self.warnings }),
    {
        FileOutcome::Checked { errors: self.errors, warnings: self.warnings }
    }
}

/// Counts the errors and warnings among `diags`.
pub fn count_severities(diags: &Vec<DiagnosticInfo>) -> (r: (usize, usize))
    ensures
        r.0 == count_of(diags@, Severity::Error),
        r.1 == count_of(diags@, Severity::Warning),
{
    let mut errors: usize = 0;
    let mut warnings: usize = 0;
    let mut i: usize = 0;
    while i < diags.len()
        invariant
            i <= diags@.len(),
            errors == count_of(diags@.subrange(0, i as int), Severity::Error),
            warnings == count_of(diags@.subrange(0, i as int), Severity::Warning),
        decreases diags@.len() - i,
    {
        proof {
            assert(diags@.subrange(0, i + 1).drop_last() =~= diags@.subrange(0, i as int));
            lemma_counts_cover(diags@.subrange(0, i as int));
        }
        match diags[i].severity {
            Severity::Error => errors = errors + 1,
            Severity::Warning => warnings = warnings + 1,
        }
        i = i + 1;
    }
    assert(diags@.subrange(0, i as int) =~= diags@);
    (errors, warnings)
}

/// Orders and counts the diagnostics the engine reported for one parsed file.
pub fn check_report(diags: &Vec<DiagnosticInfo>) -> (r: FileReport)
    ensures
        is_render_order(diags@, r.order@),
        r.errors == count_of(diags@, Severity::Error),
        r.warnings == count_of(diags@, Severity::Warning),
        r.errors + r.warnings == diags@.len(),
        (FileOutcome::Checked { errors: r.errors, warnings: r.warnings }) == checked_outcome(diags@),
{
    let order = render_order(diags);
    let (errors, warnings) = count_severities(diags);
    proof {
        lemma_counts_cover(diags@);
    }
    FileReport { order, errors, warnings }
}

/// Number of diagnostics over all of `files`.
pub open spec fn diagnostic_total(files: Seq<Seq<DiagnosticInfo>>) -> nat
    decreases files.len(),
{
    if files.len() == 0 {
        0
    } else {
        diagnostic_total(files.drop_last()) + files.last().len()
    }
}

/// Over a run, the lint errors and warnings counted add up to the number of
/// diagnostics the engine reported on the files that parsed. `files[i]` is
/// what the engine reported for the file of `outcomes[i]`; a file that was
/// not checked has none.
pub proof fn lemma_lint_counts_match_diagnostics(
    files: Seq<Seq<DiagnosticInfo>>,
    outcomes: Seq<FileOutcome>,
)
    requires
        files.len() == outcomes.len(),
        forall|i: int| 0 <= i < files.len() ==> #[trigger] files[i].len() <= usize::MAX,
        forall|i: int|
            0 <= i < outcomes.len() ==> (#[trigger] outcomes[i] is Checked ==> outcomes[i]
                == checked_outcome(files[i])),
        forall|i: int|
            0 <= i < outcomes.len() ==> (!(#[trigger] outcomes[i] is Checked) ==> files[i].len()
                == 0),
    ensures
        error_total(outcomes) + warning_total(outcomes) == diagnostic_total(files),
    decreases files.len(),
{
    if files.len() > 0 {
        let n = files.len() - 1;
        assert(outcomes[n] == outcomes.last());
        assert(files[n] == files.last());
        assert forall|i: int| 0 <= i < files.drop_last().len() implies #[trigger] files.drop_last()[i].len() <= usize::MAX by {
            assert(files.drop_last()[i] == files[i]);
        }
        assert forall|i: int| 0 <= i < outcomes.drop_last().len() implies (#[trigger] outcomes.drop_last()[i] is Checked ==> outcomes.drop_last()[i]
                == checked_outcome(files.drop_last()[i])) && (!(outcomes.drop_last()[i] is Checked) ==> files.drop_last()[i].len()
                == 0) by {
            assert(files.drop_last()[i] == files[i]);
            assert(outcomes.drop_last()[i] == outcomes[i]);
        }
        lemma_lint_counts_match_diagnostics(files.drop_last(), outcomes.drop_last());
        lemma_counts_cover(files.last());
    }
}

} // verus!
