//! Per-file outcomes and the run-wide counters folded from them.

use vstd::prelude::*;
use vstd::string::*;

verus! {

/// What one lint task contributed to the run.
#[derive(Clone, Copy, Debug, PartialEq, Eq, Structural)]
pub enum FileOutcome {
    /// The file could not be read; it adds nothing.
    Unreadable,
    /// The file did not parse.
    ParseFailed,
    /// The engine checked the file and reported this many errors and warnings.
    Checked { errors: usize, warnings: usize },
}

/// The three run-wide counters.
#[derive(Clone, Copy, Debug, PartialEq, Eq, Structural)]
pub struct RunSummary {
    pub parse_errors: usize,
    pub lint_errors: usize,
    pub lint_warnings: usize,
}

impl FileOutcome {
    pub open spec fn parse_contribution(self) -> nat {
        match self {
            FileOutcome::ParseFailed => 1,
            _ => 0,
        }
    }

    pub open spec fn error_contribution(self) -> nat {
        match self {
            FileOutcome::Checked { errors, .. } => errors as nat,
            _ => 0,
        }
    }

    pub open spec fn warning_contribution(self) -> nat {
        match self {
            FileOutcome::Checked { warnings, .. } => warnings as nat,
            _ => 0,
        }
    }
}

/// Sum of `f` over the outcomes in `s`.
pub open spec fn total_of(s: Seq<FileOutcome>, f: spec_fn(FileOutcome) -> nat) -> nat
    decreases s.len(),
{
    if s.len() == 0 {
        0
    } else {
        total_of(s.drop_last(), f) + f(s.last())
    }
}

/// Parse failures among `s`.
pub open spec fn parse_total(s: Seq<FileOutcome>) -> nat {
    total_of(s, |o: FileOutcome| o.parse_contribution())
}

/// Lint errors reported over `s`.
pub open spec fn error_total(s: Seq<FileOutcome>) -> nat {
    total_of(s, |o: FileOutcome| o.error_contribution())
}

/// Lint warnings reported over `s`.
pub open spec fn warning_total(s: Seq<FileOutcome>) -> nat {
    total_of(s, |o: FileOutcome| o.warning_contribution())
}

impl RunSummary {
    /// The summary holds exactly what the outcomes in `s` add up to.
    pub open spec fn counts(self, s: Seq<FileOutcome>) -> bool {
        &&& self.parse_errors as nat == parse_total(s)
        &&& self.lint_errors as nat == error_total(s)
        &&& self.lint_warnings as nat == warning_total(s)
    }

    /// Whether `o` can be added without a counter leaving `usize`.
    pub open spec fn has_room_for(self, o: FileOutcome) -> bool {
        &&& self.parse_errors + o.parse_contribution() <= usize::MAX
        &&& self.lint_errors + o.error_contribution() <= usize::MAX
        &&& self.lint_warnings + o.warning_contribution() <= usize::MAX
    }

    /// All counters at zero, as at the start of a run.
    pub fn new() -> (r: RunSummary)
        ensures
            r.parse_errors == 0,
            r.lint_errors == 0,
            r.lint_warnings == 0,
            r.counts(Seq::empty()),
    {
        RunSummary { parse_errors: 0, lint_errors: 0, lint_warnings: 0 }
    }

    /// Adds one file's contribution: a parse failure counts one parse error and
    /// nothing else; a checked file adds its error and warning counts.
    pub fn record(&mut self, o: FileOutcome)
        requires
            old(self).has_room_for(o),
        ensures
            final(self).parse_errors == old(self).parse_errors + o.parse_contribution(),
            final(self).lint_errors == old(self).lint_errors + o.error_contribution(),
            final(self).lint_warnings == old(self).lint_warnings + o.warning_contribution(),
    {
        match o {
            FileOutcome::Unreadable => {},
            FileOutcome::ParseFailed => {
                self.parse_errors = self.parse_errors + 1;
            },
            FileOutcome::Checked { errors, warnings } => {
                self.lint_errors = self.lint_errors + errors;
                self.lint_warnings = self.lint_warnings + warnings;
            },
        }
    }

    /// Sum of the three counters.
    pub open spec fn spec_total(self) -> nat {
        (self.parse_errors + self.lint_errors + self.lint_warnings) as nat
    }

    /// Process exit status: 0 when every counter is 0, else 1.
    pub fn exit_code(&self) -> (r: i32)
        ensures
            r == 0 <==> (self.parse_errors == 0 && self.lint_errors == 0 && self.lint_warnings
                == 0),
            r == 0 || r == 1,
            r == (if self.spec_total() == 0 { 0i32 } else { 1i32 }),
    {
        if self.parse_errors == 0 && self.lint_errors == 0 && self.lint_warnings == 0 {
            0
        } else {
            1
        }
    }
}

/// One line of the printed results: a count, what it counts, and whether it
/// is shown highlighted.
#[derive(Clone, Debug, PartialEq, Eq)]
pub struct SummaryLine {
    pub count: usize,
    pub label: String,
    pub highlighted: bool,
}

impl SummaryLine {
    pub open spec fn shows(self, count: usize, label: Seq<char>) -> bool {
        &&& self.count == count
        &&& self.label@ == label
        &&& self.highlighted == (count > 0)
    }

    fn new(count: usize, label: &str) -> (r: SummaryLine)
        ensures
            r.shows(count, label@),
    {
        SummaryLine { count, label: String::from_str(label), highlighted: count > 0 }
    }
}

impl RunSummary {
    /// The lines printed under the results header: errors, warnings, then
    /// parse errors, each highlighted when not zero.
    pub fn summary_lines(&self) -> (r: Vec<SummaryLine>)
        ensures
            r@.len() == 3,
            r@[0].shows(self.lint_errors, "errors"@),
            r@[1].shows(self.lint_warnings, "warnings"@),
            r@[2].shows(self.parse_errors, "parse errors"@),
    {
        let mut lines: Vec<SummaryLine> = Vec::new();
        lines.push(SummaryLine::new(self.lint_errors, "errors"));
        lines.push(SummaryLine::new(self.lint_warnings, "warnings"));
        lines.push(SummaryLine::new(self.parse_errors, "parse errors"));
        lines
    }
}

/// Folds the outcomes of a run into its summary, or `None` when a counter
/// would not fit in `usize`.
pub fn summarize(outcomes: &Vec<FileOutcome>) -> (r: Option<RunSummary>)
    ensures
        r matches Some(s) ==> s.counts(outcomes@),
        r is None <==> (parse_total(outcomes@) > usize::MAX || error_total(outcomes@)
            > usize::MAX || warning_total(outcomes@) > usize::MAX),
{
    let mut acc = RunSummary::new();
    let mut i: usize = 0;
    while i < outcomes.len()
        invariant
            i <= outcomes@.len(),
            acc.counts(outcomes@.subrange(0, i as int)),
        decreases outcomes@.len() - i,
    {
        let o = outcomes[i];
        let ghost pre = outcomes@.subrange(0, i as int);
        let ghost next = outcomes@.subrange(0, i + 1);
        assert(next.drop_last() =~= pre);
        if !acc.has_room(o) {
            proof {
                lemma_totals_grow(outcomes@, i + 1);
            }
            return None;
        }
        acc.record(o);
        i = i + 1;
    }
    assert(outcomes@.subrange(0, i as int) =~= outcomes@);
    Some(acc)
}

impl RunSummary {
    fn has_room(&self, o: FileOutcome) -> (r: bool)
        ensures
            r == self.has_room_for(o),
    {
        match o {
            FileOutcome::Unreadable => true,
            FileOutcome::ParseFailed => self.parse_errors < usize::MAX,
            FileOutcome::Checked { errors, warnings } => {
                errors <= usize::MAX - self.lint_errors && warnings <= usize::MAX
                    - self.lint_warnings
            },
        }
    }
}

/// A sum over a prefix is at most the sum over the whole sequence.
proof fn lemma_prefix_total(s: Seq<FileOutcome>, k: int, f: spec_fn(FileOutcome) -> nat)
    requires
        0 <= k <= s.len(),
    ensures
        total_of(s.subrange(0, k), f) <= total_of(s, f),
    decreases s.len(),
{
    if k < s.len() {
        assert(s.drop_last().subrange(0, k) =~= s.subrange(0, k));
        lemma_prefix_total(s.drop_last(), k, f);
    } else {
        assert(s.subrange(0, k) =~= s);
    }
}

proof fn lemma_totals_grow(s: Seq<FileOutcome>, k: int)
    requires
        0 <= k <= s.len(),
    ensures
        parse_total(s.subrange(0, k)) <= parse_total(s),
        error_total(s.subrange(0, k)) <= error_total(s),
        warning_total(s.subrange(0, k)) <= warning_total(s),
{
    lemma_prefix_total(s, k, |o: FileOutcome| o.parse_contribution());
    lemma_prefix_total(s, k, |o: FileOutcome| o.error_contribution());
    lemma_prefix_total(s, k, |o: FileOutcome| o.warning_contribution());
}

/// A sum over two runs of outcomes, one after the other, is the sum of the two.
proof fn lemma_total_concat(a: Seq<FileOutcome>, b: Seq<FileOutcome>, f: spec_fn(FileOutcome) -> nat)
    ensures
        total_of(a + b, f) == total_of(a, f) + total_of(b, f),
    decreases b.len(),
{
    if b.len() == 0 {
        assert(a + b =~= a);
    } else {
        assert((a + b).drop_last() =~= a + b.drop_last());
        lemma_total_concat(a, b.drop_last(), f);
    }
}

/// Taking one outcome out of `s` takes exactly its share out of the sum.
proof fn lemma_total_remove(s: Seq<FileOutcome>, i: int, f: spec_fn(FileOutcome) -> nat)
    requires
        0 <= i < s.len(),
    ensures
        total_of(s.remove(i), f) + f(s[i]) == total_of(s, f),
{
    let pre = s.subrange(0, i);
    let post = s.subrange(i + 1, s.len() as int);
    assert(s.remove(i) =~= pre + post);
    assert(s =~= (pre + seq![s[i]]) + post);
    lemma_total_concat(pre, post, f);
    lemma_total_concat(pre + seq![s[i]], post, f);
    lemma_total_concat(pre, seq![s[i]], f);
    let one = seq![s[i]];
    assert(one.drop_last() =~= Seq::<FileOutcome>::empty());
    assert(total_of(one, f) == total_of(one.drop_last(), f) + f(s[i]));
    assert(total_of(one, f) == f(s[i]));
}

/// A sum does not depend on the order of the outcomes.
proof fn lemma_total_permutation(a: Seq<FileOutcome>, b: Seq<FileOutcome>, f: spec_fn(FileOutcome) -> nat)
    requires
        a.to_multiset() =~= b.to_multiset(),
    ensures
        total_of(a, f) == total_of(b, f),
    decreases a.len(),
{
    broadcast use vstd::seq_lib::group_to_multiset_ensures;
    if a.len() == 0 {
        assert(b.to_multiset().len() == 0);
        assert(b.len() == 0);
    } else {
        let x = a.last();
        assert(a.drop_last().push(x) =~= a);
        assert(a.to_multiset().count(x) > 0);
        assert(b.contains(x));
        let i = choose|i: int| 0 <= i < b.len() && b[i] == x;
        assert(b.remove(i).to_multiset() =~= b.to_multiset().remove(x));
        assert(a.drop_last().to_multiset() =~= a.to_multiset().remove(x));
        lemma_total_permutation(a.drop_last(), b.remove(i), f);
        lemma_total_remove(b, i, f);
    }
}

/// The summary of a run does not depend on the order in which its files
/// finished: two runs whose outcomes are the same multiset have the same
/// counters, whatever number of workers produced them.
pub proof fn lemma_summary_order_independent(a: Seq<FileOutcome>, b: Seq<FileOutcome>)
    requires
        a.to_multiset() =~= b.to_multiset(),
    ensures
        parse_total(a) == parse_total(b),
        error_total(a) == error_total(b),
        warning_total(a) == warning_total(b),
        forall|r: RunSummary| r.counts(a) <==> r.counts(b),
{
    lemma_total_permutation(a, b, |o: FileOutcome| o.parse_contribution());
    lemma_total_permutation(a, b, |o: FileOutcome| o.error_contribution());
    lemma_total_permutation(a, b, |o: FileOutcome| o.warning_contribution());
}

/// A file that did not parse counts exactly one parse error and leaves the
/// lint error and warning counts as they were.
pub proof fn lemma_parse_failure_counts_once(s: Seq<FileOutcome>)
    ensures
        parse_total(s.push(FileOutcome::ParseFailed)) == parse_total(s) + 1,
        error_total(s.push(FileOutcome::ParseFailed)) == error_total(s),
        warning_total(s.push(FileOutcome::ParseFailed)) == warning_total(s),
{
    assert(s.push(FileOutcome::ParseFailed).drop_last() =~= s);
}

/// Outcomes from separate targets add up counter by counter; a target that
/// yields no files contributes nothing.
pub proof fn lemma_summary_additive(a: Seq<FileOutcome>, b: Seq<FileOutcome>)
    ensures
        parse_total(a + b) == parse_total(a) + parse_total(b),
        error_total(a + b) == error_total(a) + error_total(b),
        warning_total(a + b) == warning_total(a) + warning_total(b),
        parse_total(Seq::empty()) == 0,
        error_total(Seq::empty()) == 0,
        warning_total(Seq::empty()) == 0,
        forall|r: RunSummary| r.counts(a + Seq::empty()) <==> r.counts(a),
{
    lemma_total_concat(a, b, |o: FileOutcome| o.parse_contribution());
    lemma_total_concat(a, b, |o: FileOutcome| o.error_contribution());
    lemma_total_concat(a, b, |o: FileOutcome| o.warning_contribution());
    assert(a + Seq::empty() =~= a);
}

} // verus!
