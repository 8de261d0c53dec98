//! A backup run: many synchronizations, a bounded number of them at once.
//!
//! A run starts from the list of repositories. It launches their
//! synchronizations in the order of the list, never more at once than its
//! bound allows, takes the outcome of each as it ends, and is finished
//! when every repository has its outcome. How one synchronization ends has
//! no bearing on any other. The caller starts the tasks and awaits them;
//! the run tells it when to do which.
//!
//! [`BackupView`] is the run as contracts see it; what holds of every run
//! is proved in [`laws`].

pub mod laws;

use crate::domain::{outcome_view, OutcomeView, Repository, RepositoryView, SyncOutcome};
use crate::gateway;
use crate::gateway::repositories_view;
use vstd::prelude::*;
use vstd::string::*;

verus! {

/// How far a run has come: how many synchronizations there are in all, how
/// many of them have ended, and the label shown beside the count, which is
/// the name of the repository that was launched last.
#[derive(Debug, Clone, PartialEq, Eq)]
pub struct ProgressState {
    pub total: usize,
    pub completed: usize,
    pub current_label: String,
}

/// What a [`ProgressState`] is in contracts.
pub struct ProgressView {
    pub total: nat,
    pub completed: nat,
    pub current_label: Seq<char>,
}

impl View for ProgressState {
    type V = ProgressView;

    open spec fn view(&self) -> ProgressView {
        ProgressView {
            total: self.total as nat,
            completed: self.completed as nat,
            current_label: self.current_label@,
        }
    }
}

/// What the caller of a run is to do next.
#[derive(Debug, Clone, Copy, PartialEq, Eq, Structural)]
pub enum Action {
    /// Start the synchronization of the repository at this place of the
    /// list, then ask again.
    Launch(usize),
    /// Await the end of one of the synchronizations that were started, hand
    /// its outcome to the run, then ask again.
    Wait,
    /// Every repository has its outcome: take the report.
    Finish,
}

/// How many of the places hold an outcome.
pub open spec fn completed_count(outcomes: Seq<Option<OutcomeView>>) -> nat
    decreases outcomes.len(),
{
    if outcomes.len() == 0 {
        0
    } else {
        completed_count(outcomes.drop_last()) + if outcomes.last() is Some {
            1nat
        } else {
            0nat
        }
    }
}

/// A run in contracts: the repositories in the order of the list, the most
/// synchronizations allowed at once, how many have been launched (always
/// the first so many of the list), the outcome of each repository that has
/// one, at the repository's place, and the progress.
pub struct BackupView {
    pub repositories: Seq<RepositoryView>,
    pub bound: nat,
    pub launched: nat,
    pub outcomes: Seq<Option<OutcomeView>>,
    pub progress: ProgressView,
}

impl BackupView {
    /// The run before anything was launched.
    pub open spec fn init(repositories: Seq<RepositoryView>, bound: nat) -> BackupView {
        BackupView {
            repositories,
            bound,
            launched: 0,
            outcomes: Seq::new(repositories.len(), |i: int| None),
            progress: ProgressView {
                total: repositories.len(),
                completed: 0,
                current_label: Seq::empty(),
            },
        }
    }

    /// How many repositories the run has.
    pub open spec fn total(self) -> nat {
        self.repositories.len()
    }

    /// How many synchronizations have been launched and have not ended.
    pub open spec fn in_flight(self) -> int {
        self.launched - self.progress.completed
    }

    /// What holds of every run: the bound is at least one; there is one
    /// place for an outcome per repository; the synchronizations that have
    /// ended are among those launched, and exactly they have an outcome;
    /// no more are in flight than the bound allows.
    pub open spec fn wf(self) -> bool {
        &&& self.bound >= 1
        &&& self.outcomes.len() == self.total()
        &&& self.progress.total == self.total()
        &&& self.progress.completed <= self.launched <= self.total()
        &&& self.in_flight() <= self.bound
        &&& forall|i: int| self.launched <= i < self.total() ==> self.outcomes[i] is None
        &&& completed_count(self.outcomes) == self.progress.completed
    }

    /// Whether another synchronization may be launched now: one is left to
    /// launch, and fewer than the bound are in flight.
    pub open spec fn can_launch(self) -> bool {
        self.launched < self.total() && self.in_flight() < self.bound
    }

    /// The run after the next repository of the list was launched: one more
    /// is launched, and the label is its name.
    pub open spec fn launch(self) -> BackupView {
        BackupView {
            launched: self.launched + 1,
            progress: ProgressView {
                current_label: self.repositories[self.launched as int].name,
                ..self.progress
            },
            ..self
        }
    }

    /// The run after it was asked what to do next: the next repository is
    /// launched where that is allowed, and nothing changes where it is not.
    pub open spec fn poll(self) -> BackupView {
        if self.can_launch() {
            self.launch()
        } else {
            self
        }
    }

    /// Whether the synchronization at `index` is in flight: it was launched
    /// and has no outcome yet.
    pub open spec fn awaits(self, index: int) -> bool {
        0 <= index < self.launched && index < self.outcomes.len() && self.outcomes[index] is None
    }

    /// The run after the synchronization at `index` ended with `outcome`:
    /// the outcome stands at its place and one more has ended, where that
    /// synchronization was in flight; nothing changes where it was not.
    pub open spec fn complete(self, index: int, outcome: OutcomeView) -> BackupView {
        if self.awaits(index) {
            BackupView {
                outcomes: self.outcomes.update(index, Some(outcome)),
                progress: ProgressView { completed: self.progress.completed + 1, ..self.progress },
                ..self
            }
        } else {
            self
        }
    }

    /// Whether the run is finished: every repository was launched and
    /// every synchronization has ended.
    pub open spec fn finished(self) -> bool {
        self.launched == self.total() && self.progress.completed == self.total()
    }

    /// The outcomes in the order of the list. It is the report of a
    /// finished run.
    pub open spec fn report(self) -> Seq<OutcomeView> {
        Seq::new(self.total(), |i: int| self.outcomes[i]->0)
    }
}

/// No more places hold an outcome than there are places; where as many do,
/// every place does.
pub proof fn lemma_completed_count_bounds(outcomes: Seq<Option<OutcomeView>>)
    ensures
        completed_count(outcomes) <= outcomes.len(),
        completed_count(outcomes) == outcomes.len() ==> forall|i: int|
            0 <= i < outcomes.len() ==> outcomes[i] is Some,
    decreases outcomes.len(),
{
    if outcomes.len() > 0 {
        lemma_completed_count_bounds(outcomes.drop_last());
        if completed_count(outcomes) == outcomes.len() {
            assert forall|i: int| 0 <= i < outcomes.len() implies outcomes[i] is Some by {
                if i < outcomes.len() - 1 {
                    assert(outcomes.drop_last()[i] == outcomes[i]);
                }
            }
        }
    }
}

/// Where no place holds an outcome, the count is zero.
pub proof fn lemma_completed_count_none(outcomes: Seq<Option<OutcomeView>>)
    requires
        forall|i: int| 0 <= i < outcomes.len() ==> outcomes[i] is None,
    ensures
        completed_count(outcomes) == 0,
    decreases outcomes.len(),
{
    if outcomes.len() > 0 {
        lemma_completed_count_none(outcomes.drop_last());
    }
}

/// Where every place from `from` on holds no outcome, at most `from`
/// places hold one.
pub proof fn lemma_completed_count_prefix(outcomes: Seq<Option<OutcomeView>>, from: int)
    requires
        0 <= from <= outcomes.len(),
        forall|i: int| from <= i < outcomes.len() ==> outcomes[i] is None,
    ensures
        completed_count(outcomes) <= from,
    decreases outcomes.len(),
{
    if outcomes.len() == from {
        lemma_completed_count_bounds(outcomes);
    } else {
        lemma_completed_count_prefix(outcomes.drop_last(), from);
    }
}

/// Where exactly the first `upto` places hold an outcome, the count is
/// `upto`.
pub proof fn lemma_completed_count_exact(outcomes: Seq<Option<OutcomeView>>, upto: int)
    requires
        0 <= upto <= outcomes.len(),
        forall|i: int| 0 <= i < upto ==> outcomes[i] is Some,
        forall|i: int| upto <= i < outcomes.len() ==> outcomes[i] is None,
    ensures
        completed_count(outcomes) == upto,
    decreases outcomes.len(),
{
    if outcomes.len() > 0 {
        if outcomes.len() == upto {
            lemma_completed_count_exact(outcomes.drop_last(), upto - 1);
        } else {
            lemma_completed_count_exact(outcomes.drop_last(), upto);
        }
    }
}

/// Putting an outcome at a place that held none raises the count by one.
pub proof fn lemma_completed_count_update(
    outcomes: Seq<Option<OutcomeView>>,
    index: int,
    outcome: OutcomeView,
)
    requires
        0 <= index < outcomes.len(),
        outcomes[index] is None,
    ensures
        completed_count(outcomes.update(index, Some(outcome))) == completed_count(outcomes) + 1,
    decreases outcomes.len(),
{
    let updated = outcomes.update(index, Some(outcome));
    if index == outcomes.len() - 1 {
        assert(updated.drop_last() =~= outcomes.drop_last());
    } else {
        lemma_completed_count_update(outcomes.drop_last(), index, outcome);
        assert(updated.drop_last() =~= outcomes.drop_last().update(index, Some(outcome)));
    }
}

/// The view of one place of a run: the outcome that stands there, if any.
pub open spec fn slot_view(slot: Option<SyncOutcome>) -> Option<OutcomeView> {
    match slot {
        Some(outcome) => Some(outcome_view(outcome)),
        None => None,
    }
}

/// The views of a sequence of outcomes, in the same order.
pub open spec fn outcomes_view(outcomes: Seq<SyncOutcome>) -> Seq<OutcomeView> {
    outcomes.map_values(|outcome: SyncOutcome| outcome_view(outcome))
}

/// A backup run.
#[derive(Debug)]
pub struct Backup {
    repositories: Vec<Repository>,
    bound: usize,
    launched: usize,
    outcomes: Vec<Option<SyncOutcome>>,
    progress: ProgressState,
}

impl View for Backup {
    type V = BackupView;

    closed spec fn view(&self) -> BackupView {
        BackupView {
            repositories: repositories_view(self.repositories@),
            bound: self.bound as nat,
            launched: self.launched as nat,
            outcomes: self.outcomes@.map_values(|slot: Option<SyncOutcome>| slot_view(slot)),
            progress: self.progress@,
        }
    }
}

impl Backup {
    #[verifier::type_invariant]
    spec fn inv(self) -> bool {
        self@.wf()
    }

    /// A run without repositories. It stands in for a run while that one is
    /// being changed.
    fn idle() -> (run: Backup)
        ensures
            run@ == BackupView::init(Seq::empty(), 1),
    {
        let run = Backup {
            repositories: Vec::new(),
            bound: 1,
            launched: 0,
            outcomes: Vec::new(),
            progress: ProgressState { total: 0, completed: 0, current_label: String::new() },
        };
        assert(run@.repositories =~= Seq::empty());
        assert(run@.outcomes =~= BackupView::init(Seq::empty(), 1).outcomes);
        run
    }

    /// A run over `repositories`, in their order, with at most `bound`
    /// synchronizations at once. Nothing is launched yet.
    ///
    /// A bound of zero would let nothing ever run, so there is no such run.
    pub fn new(repositories: Vec<Repository>, bound: usize) -> (run: Backup)
        requires
            bound >= 1,
        ensures
            run@ == BackupView::init(repositories_view(repositories@), bound as nat),
            run@.wf(),
    {
        let total: usize = repositories.len();
        let mut outcomes: Vec<Option<SyncOutcome>> = Vec::new();
        while outcomes.len() < total
            invariant
                outcomes.len() <= total,
                forall|i: int| 0 <= i < outcomes.len() ==> outcomes[i] is None,
            decreases total - outcomes.len(),
        {
            outcomes.push(None);
        }
        proof {
            let slots = outcomes@.map_values(|slot: Option<SyncOutcome>| slot_view(slot));
            assert(slots =~= Seq::new(total as nat, |i: int| None::<OutcomeView>));
            lemma_completed_count_none(slots);
        }
        Backup {
            repositories,
            bound,
            launched: 0,
            outcomes,
            progress: ProgressState { total, completed: 0, current_label: String::new() },
        }
    }

    /// The repository at `index` of the list, if the list is that long.
    pub fn repository(&self, index: usize) -> (repository: Option<&Repository>)
        ensures
            index < self@.total() ==> repository is Some && repository->0@
                == self@.repositories[index as int],
            index >= self@.total() ==> repository is None,
    {
        if index < self.repositories.len() {
            Some(&self.repositories[index])
        } else {
            None
        }
    }

    /// How far the run has come.
    pub fn progress(&self) -> (progress: &ProgressState)
        ensures
            progress@ == self@.progress,
    {
        &self.progress
    }

    /// The most synchronizations that the run allows at once.
    pub fn bound(&self) -> (bound: usize)
        ensures
            bound == self@.bound,
            bound >= 1,
    {
        proof {
            use_type_invariant(self);
        }
        self.bound
    }

    /// How many synchronizations are in flight.
    pub fn in_flight(&self) -> (count: usize)
        ensures
            count == self@.in_flight(),
            count <= self@.bound,
    {
        proof {
            use_type_invariant(self);
        }
        self.launched - self.progress.completed
    }

    /// Whether every repository has its outcome.
    pub fn is_finished(&self) -> (finished: bool)
        ensures
            finished == self@.finished(),
    {
        proof {
            use_type_invariant(self);
        }
        self.launched == self.repositories.len() && self.progress.completed == self.launched
    }

    /// Says what the caller is to do next, and counts a launch as made.
    ///
    /// While a repository is left to launch and fewer synchronizations than
    /// the bound are in flight, the answer is to launch the next one of the
    /// list: it then counts as launched, and the label is its name. Otherwise,
    /// while any is in flight, the answer is to wait; and when none is, the
    /// run is finished. Only a launch changes the run.
    pub fn next_action(&mut self) -> (action: Action)
        ensures
            final(self)@ == old(self)@.poll(),
            final(self)@.wf(),
            match action {
                Action::Launch(index) => old(self)@.can_launch() && index == old(self)@.launched,
                Action::Wait => !old(self)@.can_launch() && old(self)@.in_flight() > 0,
                Action::Finish => old(self)@.finished(),
            },
    {
        proof {
            use_type_invariant(&*self);
        }
        if self.launched < self.repositories.len() && self.launched - self.progress.completed
            < self.bound {
            let mut run = Backup::idle();
            std::mem::swap(self, &mut run);
            let Backup { repositories, bound, launched, outcomes, progress } = run;
            let label = repositories[launched].dir_name().to_owned();
            let progress = ProgressState {
                total: progress.total,
                completed: progress.completed,
                current_label: label,
            };
            *self = Backup { repositories, bound, launched: launched + 1, outcomes, progress };
            Action::Launch(launched)
        } else if self.progress.completed < self.launched {
            Action::Wait
        } else {
            Action::Finish
        }
    }

    /// Takes the outcome of the synchronization at `index`, which has ended.
    ///
    /// Where that synchronization is in flight, the outcome is put at its
    /// place, one more counts as ended, and nothing is handed back. Where it
    /// is not (it was never launched, or its outcome was taken before), the
    /// run stays as it is and the outcome is handed back. Whether the
    /// outcome is a success or a failure makes no difference.
    pub fn complete(&mut self, index: usize, outcome: SyncOutcome) -> (refused: Option<SyncOutcome>)
        ensures
            final(self)@ == old(self)@.complete(index as int, outcome_view(outcome)),
            final(self)@.wf(),
            old(self)@.awaits(index as int) ==> refused is None,
            !old(self)@.awaits(index as int) ==> refused == Some(outcome),
    {
        proof {
            use_type_invariant(&*self);
        }
        if index < self.launched && self.outcomes[index].is_none() {
            let mut run = Backup::idle();
            std::mem::swap(self, &mut run);
            let Backup { repositories, bound, launched, mut outcomes, progress } = run;
            let ghost slots = outcomes@.map_values(|slot: Option<SyncOutcome>| slot_view(slot));
            let ghost updated = slots.update(index as int, Some(outcome_view(outcome)));
            proof {
                lemma_completed_count_update(slots, index as int, outcome_view(outcome));
                lemma_completed_count_prefix(updated, launched as int);
            }
            outcomes.set(index, Some(outcome));
            let progress = ProgressState {
                total: progress.total,
                completed: progress.completed + 1,
                current_label: progress.current_label,
            };
            assert(outcomes@.map_values(|slot: Option<SyncOutcome>| slot_view(slot)) =~= updated);
            *self = Backup { repositories, bound, launched, outcomes, progress };
            None
        } else {
            Some(outcome)
        }
    }

    /// The report of the run: the outcome of every repository, in the order
    /// of the list. It is there when the run is finished; before that the
    /// run is handed back as it is.
    pub fn into_report(self) -> (report: Result<Vec<SyncOutcome>, Backup>)
        ensures
            self@.finished() ==> report is Ok && outcomes_view(report->Ok_0@) == self@.report(),
            !self@.finished() ==> report == Err::<Vec<SyncOutcome>, Backup>(self),
    {
        proof {
            use_type_invariant(&self);
        }
        if !self.is_finished() {
            return Err(self);
        }
        let ghost view = self@;
        let Backup { outcomes, .. } = self;
        let ghost slots = outcomes@;
        proof {
            lemma_completed_count_bounds(view.outcomes);
            assert forall|i: int| 0 <= i < slots.len() implies slots[i] is Some by {
                assert(view.outcomes[i] is Some);
            }
        }
        let mut report: Vec<SyncOutcome> = Vec::new();
        for slot in iter: outcomes
            invariant
                iter.seq() == slots,
                forall|i: int| 0 <= i < slots.len() ==> slots[i] is Some,
                report.len() == iter.index(),
                forall|i: int| 0 <= i < report.len() ==> Some(report[i]) == slots[i],
        {
            match slot {
                Some(outcome) => {
                    report.push(outcome);
                },
                None => {},
            }
        }
        assert(outcomes_view(report@) =~= view.report());
        Ok(report)
    }
}

/// The line that tells that the repositories could not be listed.
pub open spec fn listing_failure_line(error: gateway::ErrorView) -> Seq<char> {
    "Error fetching repositories: "@ + error.message()
}

/// The line that tells of an outcome, if it is a failure.
pub open spec fn failure_line(outcome: OutcomeView) -> Option<Seq<char>> {
    match outcome {
        Ok(_) => None,
        Err(error) => Some(error.message()),
    }
}

/// The lines that tell of the failures among `outcomes`, in their order.
pub open spec fn failure_lines(outcomes: Seq<OutcomeView>) -> Seq<Seq<char>> {
    outcomes.filter_map(|outcome: OutcomeView| failure_line(outcome))
}

/// Calls `num_cpus::get`, the number of processors that this process may
/// use. The crate documents that it is always at least one; nothing else
/// is claimed of it, and two calls may differ.
#[verifier::external_body]
fn host_parallelism() -> (count: usize)
    ensures
        count >= 1,
{
    num_cpus::get()
}

/// Starts a backup run from what came of listing the repositories.
///
/// Where the listing failed there is no run: nothing can be launched, and
/// what comes back is the one line that tells of the failure. Where it
/// succeeded, the run is over the repositories listed, in their order, with
/// nothing launched yet, and allows as many synchronizations at once as
/// the host has processors.
pub fn backup_repositories_for(listed: Result<Vec<Repository>, gateway::Error>) -> (started: Result<
    Backup,
    String,
>)
    ensures
        match listed {
            Ok(repositories) => {
                &&& started is Ok
                &&& started->Ok_0@ == BackupView::init(
                    repositories_view(repositories@),
                    started->Ok_0@.bound,
                )
                &&& started->Ok_0@.wf()
            },
            Err(error) => started is Err && started->Err_0@ == listing_failure_line(error@),
        },
{
    match listed {
        Ok(repositories) => Ok(Backup::new(repositories, host_parallelism())),
        Err(error) => {
            let mut line = "Error fetching repositories: ".to_owned();
            line.append(error.message().as_str());
            Err(line)
        },
    }
}

/// The lines to print when a run is over: one for each failure among the
/// outcomes, in their order, and none for a success.
pub fn report(result: &Vec<SyncOutcome>) -> (lines: Vec<String>)
    ensures
        lines.deep_view() == failure_lines(outcomes_view(result@)),
{
    let ghost outcomes = outcomes_view(result@);
    let ghost line_of = |outcome: OutcomeView| failure_line(outcome);
    let mut lines: Vec<String> = Vec::new();
    let mut i: usize = 0;
    while i < result.len()
        invariant
            i <= result.len(),
            outcomes == outcomes_view(result@),
            line_of == |outcome: OutcomeView| failure_line(outcome),
            lines.deep_view() == outcomes.take(i as int).filter_map(line_of),
        decreases result.len() - i,
    {
        proof {
            outcomes.lemma_filter_map_take_succ(line_of, i as int);
        }
        match &result[i] {
            Ok(_) => {},
            Err(error) => {
                let ghost before = lines.deep_view();
                lines.push(error.message());
                assert(lines.deep_view() =~= before + seq![error@.message()]);
            },
        }
        i = i + 1;
    }
    assert(outcomes.take(result.len() as int) =~= outcomes);
    lines
}

} // verus!
