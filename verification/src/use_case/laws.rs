//! What holds of every backup run.
//!
//! The laws speak of a run as contracts see it, and of whatever may happen
//! to it: being asked what to do next, and being handed an outcome, in any
//! order and with any outcomes.

use crate::domain::{OutcomeView, RepositoryView};
use crate::use_case::{
    lemma_completed_count_bounds, lemma_completed_count_exact, lemma_completed_count_none,
    lemma_completed_count_prefix, lemma_completed_count_update, BackupView,
};
use vstd::prelude::*;

verus! {

/// One thing that happens to a run: it is asked what to do next, or it is
/// handed the outcome of the synchronization at a place of the list.
pub enum Step {
    Poll,
    Complete(int, OutcomeView),
}

impl BackupView {
    /// The run after `step`.
    pub open spec fn step(self, step: Step) -> BackupView {
        match step {
            Step::Poll => self.poll(),
            Step::Complete(index, outcome) => self.complete(index, outcome),
        }
    }

    /// The run after `steps`, one after the other.
    pub open spec fn replay(self, steps: Seq<Step>) -> BackupView
        decreases steps.len(),
    {
        if steps.len() == 0 {
            self
        } else {
            self.replay(steps.drop_last()).step(steps.last())
        }
    }

    /// Whether two runs are alike but for the outcome at `index`: they agree
    /// in everything else, and on whether there is an outcome at `index`.
    pub open spec fn alike_but_at(self, other: BackupView, index: int) -> bool {
        &&& self.repositories == other.repositories
        &&& self.bound == other.bound
        &&& self.launched == other.launched
        &&& self.progress == other.progress
        &&& self.outcomes.len() == other.outcomes.len()
        &&& forall|i: int|
            0 <= i < self.outcomes.len() && i != index ==> self.outcomes[i] == other.outcomes[i]
        &&& 0 <= index < self.outcomes.len() ==> (self.outcomes[index] is Some
            <==> other.outcomes[index] is Some)
    }
}

/// A run that has launched nothing is as it should be.
pub proof fn lemma_init_wf(repositories: Seq<RepositoryView>, bound: nat)
    requires
        bound >= 1,
    ensures
        BackupView::init(repositories, bound).wf(),
{
    lemma_completed_count_none(BackupView::init(repositories, bound).outcomes);
}

/// Whatever happens to a run that is as it should be, it stays so.
pub proof fn lemma_step_preserves_wf(run: BackupView, step: Step)
    requires
        run.wf(),
    ensures
        run.step(step).wf(),
{
    match step {
        Step::Poll => {},
        Step::Complete(index, outcome) => {
            if run.awaits(index) {
                lemma_completed_count_update(run.outcomes, index, outcome);
                lemma_completed_count_prefix(
                    run.outcomes.update(index, Some(outcome)),
                    run.launched as int,
                );
            }
        },
    }
}

/// A run keeps its list and its bound, whatever happens to it.
pub proof fn lemma_replay_keeps_the_list(run: BackupView, steps: Seq<Step>)
    ensures
        run.replay(steps).repositories == run.repositories,
        run.replay(steps).bound == run.bound,
        run.replay(steps).progress.total == run.progress.total,
        run.replay(steps).outcomes.len() == run.outcomes.len(),
    decreases steps.len(),
{
    if steps.len() > 0 {
        lemma_replay_keeps_the_list(run, steps.drop_last());
    }
}

/// Whatever happens to a run from its start, and in whatever order, the
/// run is as it should be.
pub proof fn lemma_replay_wf(repositories: Seq<RepositoryView>, bound: nat, steps: Seq<Step>)
    requires
        bound >= 1,
    ensures
        BackupView::init(repositories, bound).replay(steps).wf(),
    decreases steps.len(),
{
    if steps.len() == 0 {
        lemma_init_wf(repositories, bound);
    } else {
        lemma_replay_wf(repositories, bound, steps.drop_last());
        lemma_step_preserves_wf(
            BackupView::init(repositories, bound).replay(steps.drop_last()),
            steps.last(),
        );
    }
}

/// Never are more synchronizations in flight than the bound allows,
/// whatever has happened to the run since its start.
pub proof fn lemma_concurrency_is_bounded(
    repositories: Seq<RepositoryView>,
    bound: nat,
    steps: Seq<Step>,
)
    requires
        bound >= 1,
    ensures
        0 <= BackupView::init(repositories, bound).replay(steps).in_flight() <= bound,
{
    lemma_replay_wf(repositories, bound, steps);
    lemma_replay_keeps_the_list(BackupView::init(repositories, bound), steps);
}

/// A run that is asked again and again, while nothing ends, launches one
/// synchronization each time until the bound is reached or the list is
/// used up: after `polls` questions, as many are in flight as the least of
/// `polls`, the bound and the length of the list.
pub proof fn lemma_launches_fill_the_bound(
    repositories: Seq<RepositoryView>,
    bound: nat,
    polls: nat,
)
    ensures
        ({
            let run = BackupView::init(repositories, bound).replay(
                Seq::new(polls, |i: int| Step::Poll),
            );
            let most = if bound <= repositories.len() {
                bound
            } else {
                repositories.len()
            };
            &&& run.progress.completed == 0
            &&& run.bound == bound
            &&& run.repositories == repositories
            &&& run.in_flight() == if polls <= most {
                polls
            } else {
                most
            }
        }),
    decreases polls,
{
    let steps = Seq::new(polls, |i: int| Step::Poll);
    if polls > 0 {
        lemma_launches_fill_the_bound(repositories, bound, (polls - 1) as nat);
        assert(steps.drop_last() =~= Seq::new((polls - 1) as nat, |i: int| Step::Poll));
    }
}

/// A finished run accounts for every repository: each has an outcome, the
/// report holds as many outcomes as there are repositories, the one at
/// each place being that repository's, and the count of ended
/// synchronizations is the length of the list.
pub proof fn lemma_finished_run_accounts_for_all(run: BackupView)
    requires
        run.wf(),
        run.finished(),
    ensures
        run.report().len() == run.total(),
        run.progress.completed == run.total(),
        run.progress.completed == run.progress.total,
        run.in_flight() == 0,
        forall|i: int| 0 <= i < run.total() ==> run.outcomes[i] == Some(#[trigger] run.report()[i]),
{
    lemma_completed_count_bounds(run.outcomes);
}

/// Every repository of the list has one outcome in the end: however a
/// run over a list went from its start, once it is finished its report
/// holds as many outcomes as the list has repositories, none is missing,
/// and as many synchronizations have ended.
pub proof fn lemma_run_reports_every_repository(
    repositories: Seq<RepositoryView>,
    bound: nat,
    steps: Seq<Step>,
)
    requires
        bound >= 1,
        BackupView::init(repositories, bound).replay(steps).finished(),
    ensures
        ({
            let run = BackupView::init(repositories, bound).replay(steps);
            &&& run.report().len() == repositories.len()
            &&& run.progress.completed == repositories.len()
            &&& run.progress.total == repositories.len()
            &&& forall|i: int| 0 <= i < repositories.len() ==> run.outcomes[i] is Some
        }),
{
    let run = BackupView::init(repositories, bound).replay(steps);
    lemma_replay_wf(repositories, bound, steps);
    lemma_replay_keeps_the_list(BackupView::init(repositories, bound), steps);
    lemma_finished_run_accounts_for_all(run);
    assert forall|i: int| 0 <= i < repositories.len() implies run.outcomes[i] is Some by {
        assert(run.outcomes[i] == Some(run.report()[i]));
    }
}

/// A run that is not finished can go on: either the next repository may be
/// launched, or a synchronization is in flight whose outcome the run will
/// take.
pub proof fn lemma_run_is_never_stuck(run: BackupView)
    requires
        run.wf(),
        !run.finished(),
    ensures
        run.can_launch() || exists|index: int| run.awaits(index),
{
    if !run.can_launch() {
        assert(run.in_flight() > 0);
        if forall|index: int| 0 <= index < run.launched ==> run.outcomes[index] is Some {
            lemma_completed_count_exact(run.outcomes, run.launched as int);
            assert(false);
        }
        let index = choose|index: int| 0 <= index < run.launched && !(run.outcomes[index] is Some);
        assert(run.awaits(index));
    }
}

/// A synchronization ends once: after its outcome was taken, a second
/// outcome for the same place changes nothing.
pub proof fn lemma_outcome_is_taken_once(
    run: BackupView,
    index: int,
    first: OutcomeView,
    second: OutcomeView,
)
    requires
        run.awaits(index),
    ensures
        run.complete(index, first).outcomes[index] == Some(first),
        !run.complete(index, first).awaits(index),
        run.complete(index, first).complete(index, second) == run.complete(index, first),
{
}

/// An outcome that a run holds stays as it is, whatever happens next.
pub proof fn lemma_outcome_stays(run: BackupView, index: int, steps: Seq<Step>)
    requires
        0 <= index < run.outcomes.len(),
        run.outcomes[index] is Some,
    ensures
        run.replay(steps).outcomes.len() == run.outcomes.len(),
        run.replay(steps).outcomes[index] == run.outcomes[index],
    decreases steps.len(),
{
    if steps.len() > 0 {
        lemma_outcome_stays(run, index, steps.drop_last());
    }
}

/// The report holds what each synchronization ended with: the outcome that
/// was taken for a place is the outcome at that place of the report,
/// whatever happened before the run was finished.
pub proof fn lemma_report_holds_each_outcome(
    run: BackupView,
    index: int,
    outcome: OutcomeView,
    steps: Seq<Step>,
)
    requires
        run.wf(),
        run.awaits(index),
        run.complete(index, outcome).replay(steps).finished(),
    ensures
        run.complete(index, outcome).replay(steps).report()[index] == outcome,
{
    let taken = run.complete(index, outcome);
    lemma_outcome_stays(taken, index, steps);
    lemma_replay_keeps_the_list(taken, steps);
}

/// How one synchronization ends has no bearing on any other: two runs that
/// differ only in the outcome that was taken for one place stay alike but
/// for that place, whatever happens to both. What is launched and when,
/// which outcomes are taken, the progress, and the outcome of every other
/// repository are the same.
pub proof fn lemma_outcomes_do_not_interfere(
    run: BackupView,
    index: int,
    one: OutcomeView,
    other: OutcomeView,
    steps: Seq<Step>,
)
    ensures
        run.complete(index, one).replay(steps).alike_but_at(
            run.complete(index, other).replay(steps),
            index,
        ),
    decreases steps.len(),
{
    if steps.len() > 0 {
        lemma_outcomes_do_not_interfere(run, index, one, other, steps.drop_last());
    }
}

} // verus!
