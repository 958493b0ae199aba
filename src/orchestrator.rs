//! Runs an ordered sequence of independent, fallible steps and reports on each.

use vstd::prelude::*;

use crate::effect::strings_view;
use crate::paths::concat_text;

verus! {

/// How one step went.
#[derive(Debug, Clone, PartialEq, Eq)]
pub enum StepOutcome {
    Succeeded,
    /// The step failed; the reason.
    Failed(String),
}

pub enum StepOutcomeView {
    Succeeded,
    Failed(Seq<char>),
}

impl View for StepOutcome {
    type V = StepOutcomeView;

    open spec fn view(&self) -> StepOutcomeView {
        match self {
            StepOutcome::Succeeded => StepOutcomeView::Succeeded,
            StepOutcome::Failed(e) => StepOutcomeView::Failed(e@),
        }
    }
}

/// One line of the report: a step's label and its outcome.
#[derive(Debug, Clone, PartialEq, Eq)]
pub struct ReportEntry {
    pub label: String,
    pub outcome: StepOutcome,
}

pub struct ReportEntryView {
    pub label: Seq<char>,
    pub outcome: StepOutcomeView,
}

impl View for ReportEntry {
    type V = ReportEntryView;

    open spec fn view(&self) -> ReportEntryView {
        ReportEntryView { label: self.label@, outcome: self.outcome@ }
    }
}

pub open spec fn entries_view(v: Seq<ReportEntry>) -> Seq<ReportEntryView> {
    v.map_values(|e: ReportEntry| e@)
}

/// The runner of a sequence of steps, given by their labels. It asks for the
/// steps one at a time, in order, and records each outcome, whatever the
/// earlier ones were: no failure cancels a later step.
#[derive(Debug)]
pub struct Orchestrator {
    pub labels: Vec<String>,
    pub report: Vec<ReportEntry>,
}

pub struct OrchestratorView {
    pub labels: Seq<Seq<char>>,
    pub report: Seq<ReportEntryView>,
}

impl View for Orchestrator {
    type V = OrchestratorView;

    open spec fn view(&self) -> OrchestratorView {
        OrchestratorView { labels: strings_view(self.labels@), report: entries_view(self.report@) }
    }
}

impl OrchestratorView {
    /// The index of the step to run next, if any is left.
    pub open spec fn next(self) -> Option<int> {
        if self.report.len() < self.labels.len() {
            Some(self.report.len() as int)
        } else {
            None
        }
    }

    /// Records the outcome of the step that was to run next.
    pub open spec fn record(self, outcome: StepOutcomeView) -> OrchestratorView {
        if self.report.len() < self.labels.len() {
            OrchestratorView {
                report: self.report.push(
                    ReportEntryView { label: self.labels[self.report.len() as int], outcome },
                ),
                ..self
            }
        } else {
            self
        }
    }

    /// Records each of `outcomes` in turn.
    pub open spec fn record_all(self, outcomes: Seq<StepOutcomeView>) -> OrchestratorView
        decreases outcomes.len(),
    {
        if outcomes.len() == 0 {
            self
        } else {
            self.record(outcomes[0]).record_all(outcomes.drop_first())
        }
    }

    /// The report holds one entry for each step run so far, in step order.
    pub open spec fn well_formed(self) -> bool {
        &&& self.report.len() <= self.labels.len()
        &&& forall|i: int| 0 <= i < self.report.len() ==> #[trigger] self.report[i].label == self.labels[i]
    }
}

/// Starts running the steps labelled `labels`, in that order.
pub fn run_all(labels: Vec<String>) -> (r: Orchestrator)
    ensures
        r@.labels == strings_view(labels@),
        r@.report.len() == 0,
{
    let r = Orchestrator { labels, report: Vec::new() };
    assert(r@.report =~= Seq::<ReportEntryView>::empty());
    r
}

impl Orchestrator {
    /// The index of the step to run next, or `None` once every step has run.
    pub fn next_step(&self) -> (r: Option<usize>)
        ensures
            r matches Some(k) ==> self@.next() == Some(k as int),
            r is None ==> self@.next() is None,
    {
        if self.report.len() < self.labels.len() {
            Some(self.report.len())
        } else {
            None
        }
    }

    /// Records the outcome of the step that was to run next; once every step
    /// has run, there is nothing left to record and the report stays as it is.
    pub fn record(&mut self, outcome: StepOutcome)
        ensures
            final(self)@ == old(self)@.record(outcome@),
    {
        let k = self.report.len();
        if k < self.labels.len() {
            let label = self.labels[k].clone();
            self.report.push(ReportEntry { label, outcome });
            assert(self@.report =~= old(self)@.report.push(
                ReportEntryView { label: old(self)@.labels[k as int], outcome: outcome@ },
            ));
        }
    }

    /// Every step has run.
    pub fn is_complete(&self) -> (r: bool)
        ensures
            r == (self@.next() is None),
    {
        self.report.len() >= self.labels.len()
    }
}

/// How a report line presents an entry: the label, then a success or failure mark.
pub open spec fn line_spec(e: ReportEntryView) -> Seq<char> {
    match e.outcome {
        StepOutcomeView::Succeeded => e.label + " success ✓"@,
        StepOutcomeView::Failed(_) => e.label + " failed ✗"@,
    }
}

/// The lines of the rendered report, one per entry, in order.
pub fn report_lines(report: &Vec<ReportEntry>) -> (r: Vec<String>)
    ensures
        r@.len() == report@.len(),
        forall|i: int| 0 <= i < r@.len() ==> #[trigger] r@[i]@ == line_spec(report@[i]@),
{
    let mut r: Vec<String> = Vec::new();
    let mut i: usize = 0;
    while i < report.len()
        invariant
            i <= report@.len(),
            r@.len() == i,
            forall|j: int| 0 <= j < i ==> #[trigger] r@[j]@ == line_spec(report@[j]@),
        decreases report@.len() - i,
    {
        let e = &report[i];
        let line = match e.outcome {
            StepOutcome::Succeeded => concat_text(e.label.as_str(), " success ✓"),
            StepOutcome::Failed(_) => concat_text(e.label.as_str(), " failed ✗"),
        };
        r.push(line);
        i = i + 1;
    }
    r
}

/// No step's failure cuts the run short. Whatever the outcomes, a run that
/// runs the step the orchestrator names next and records its outcome, until
/// none is left, runs every step exactly once, in order (step `k` is the one
/// named after `k` outcomes are in), and ends with a report holding exactly
/// one entry per step, in step order, each with that step's own outcome.
pub proof fn lemma_report_has_every_step(labels: Seq<Seq<char>>, outcomes: Seq<StepOutcomeView>)
    requires
        outcomes.len() == labels.len(),
    ensures
        ({
            let start = OrchestratorView { labels, report: Seq::empty() };
            let done = start.record_all(outcomes);
            &&& forall|k: int| 0 <= k < labels.len() ==> #[trigger] start.record_all(outcomes.take(k)).next() == Some(k)
            &&& done.next() is None
            &&& done.report.len() == labels.len()
            &&& forall|i: int| 0 <= i < labels.len() ==> #[trigger] done.report[i]
                == ReportEntryView { label: labels[i], outcome: outcomes[i] }
        }),
{
    let start = OrchestratorView { labels, report: Seq::empty() };
    assert forall|k: int| 0 <= k <= labels.len() implies ({
        let o = #[trigger] start.record_all(outcomes.take(k));
        &&& o.labels == labels
        &&& o.report.len() == k
        &&& forall|i: int| 0 <= i < k ==> o.report[i] == ReportEntryView { label: labels[i], outcome: outcomes[i] }
    }) by {
        lemma_record_prefix(start, outcomes, k);
    }
    assert(outcomes.take(labels.len() as int) == outcomes);
    assert forall|k: int| 0 <= k < labels.len() implies #[trigger] start.record_all(outcomes.take(k)).next() == Some(k) by {
        lemma_record_prefix(start, outcomes, k);
    }
}

/// Recording an outcome keeps the report one entry per step run, in step order.
pub proof fn lemma_record_well_formed(o: OrchestratorView, outcome: StepOutcomeView)
    requires
        o.well_formed(),
    ensures
        o.record(outcome).well_formed(),
        o.record(outcome).labels == o.labels,
        o.next() is Some ==> o.record(outcome).report.len() == o.report.len() + 1,
{
    let r = o.record(outcome);
    assert forall|i: int| 0 <= i < r.report.len() implies #[trigger] r.report[i].label == r.labels[i] by {
        if i < o.report.len() {
            assert(r.report[i] == o.report[i]);
        }
    }
}

/// Recording a prefix of `outcomes` one more element long is recording the
/// shorter prefix, then that element.
proof fn lemma_record_all_snoc(o: OrchestratorView, outcomes: Seq<StepOutcomeView>, k: int)
    requires
        0 <= k < outcomes.len(),
    ensures
        o.record_all(outcomes.take(k + 1)) == o.record_all(outcomes.take(k)).record(outcomes[k]),
    decreases k,
{
    if k > 0 {
        let rest = outcomes.drop_first();
        assert(outcomes.take(k + 1).drop_first() =~= rest.take(k));
        assert(outcomes.take(k).drop_first() =~= rest.take(k - 1));
        assert(outcomes.take(k + 1)[0] == outcomes[0]);
        assert(outcomes.take(k)[0] == outcomes[0]);
        assert(rest[k - 1] == outcomes[k]);
        lemma_record_all_snoc(o.record(outcomes[0]), rest, k - 1);
    } else {
        let one = outcomes.take(1);
        assert(one.drop_first() =~= Seq::<StepOutcomeView>::empty());
        assert(outcomes.take(0) =~= Seq::<StepOutcomeView>::empty());
        assert(one[0] == outcomes[0]);
        assert(o.record_all(one) == o.record(outcomes[0]).record_all(one.drop_first()));
    }
}

proof fn lemma_record_prefix(start: OrchestratorView, outcomes: Seq<StepOutcomeView>, k: int)
    requires
        start.report.len() == 0,
        outcomes.len() == start.labels.len(),
        0 <= k <= outcomes.len(),
    ensures
        ({
            let o = start.record_all(outcomes.take(k));
            &&& o.labels == start.labels
            &&& o.report.len() == k
            &&& forall|i: int| 0 <= i < k ==> o.report[i] == ReportEntryView { label: start.labels[i], outcome: outcomes[i] }
        }),
    decreases k,
{
    if k == 0 {
        assert(outcomes.take(0) =~= Seq::<StepOutcomeView>::empty());
    } else {
        lemma_record_prefix(start, outcomes, k - 1);
        lemma_record_all_snoc(start, outcomes, k - 1);
        let prev = start.record_all(outcomes.take(k - 1));
        let o = start.record_all(outcomes.take(k));
        assert(o == prev.record(outcomes[k - 1]));
        assert forall|i: int| 0 <= i < k implies o.report[i] == ReportEntryView { label: start.labels[i], outcome: outcomes[i] } by {
            if i < k - 1 {
                assert(o.report[i] == prev.report[i]);
            }
        }
    }
}

} // verus!
