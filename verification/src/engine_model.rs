//! The transfer engine as a mathematical state machine: which jobs have
//! started, which are in flight, and what has been collected of those that
//! ended. The laws of the engine are proved here, of every state that a
//! run can reach.

use vstd::prelude::*;
use crate::destination::S3DestinationView;
use crate::errors::TransferErrorView;
use crate::file::DriveFileView;
use crate::transfer::TransferJobView;

verus! {

/// The most jobs that are ever in flight at once. A constant of the design:
/// it trades the rate limits of the two services against throughput.
pub const MAX_CONCURRENT_JOBS: usize = 4;

/// Model of the outcome of one job, as the sink holds it.
pub struct OutcomeView {
    /// The position of the file in the batch.
    pub index: usize,
    /// The file's name.
    pub file: Seq<char>,
    /// The failure, or `None` where the file was copied.
    pub failure: Option<TransferErrorView>,
}

/// Model of the result of a whole run.
pub enum PipelineResultView {
    /// Every job succeeded.
    Success,
    /// Some job failed; this is the first failure that was collected.
    Failure(TransferErrorView),
}

/// What can happen to an engine: the caller asks for the next job, or
/// reports the end of one.
pub enum EngineEvent {
    Start,
    Complete { index: usize, failure: Option<TransferErrorView> },
}

/// Model of the transfer engine.
pub struct EngineView {
    /// The batch, in the order of the listing.
    pub files: Seq<DriveFileView>,
    pub destination: S3DestinationView,
    pub storage_class: Seq<char>,
    /// How many jobs have started. They start in the order of the batch.
    pub started: nat,
    /// The jobs in flight.
    pub running: Seq<usize>,
    /// The sink: the outcomes of the jobs that ended, in the order in which
    /// they were reported.
    pub outcomes: Seq<OutcomeView>,
}

/// Whether `i` is the position in the sink of the first failure.
pub open spec fn is_first_failure(outcomes: Seq<OutcomeView>, i: int) -> bool {
    &&& 0 <= i < outcomes.len()
    &&& outcomes[i].failure is Some
    &&& forall|j: int| 0 <= j < i ==> (#[trigger] outcomes[j]).failure is None
}

/// Whether no outcome of the sink is a failure.
pub open spec fn all_succeeded(outcomes: Seq<OutcomeView>) -> bool {
    forall|i: int| 0 <= i < outcomes.len() ==> (#[trigger] outcomes[i]).failure is None
}

/// The aggregate of a sink: success if every outcome is one, else the first
/// failure.
pub open spec fn aggregate(outcomes: Seq<OutcomeView>) -> PipelineResultView {
    if all_succeeded(outcomes) {
        PipelineResultView::Success
    } else {
        let i = choose|i: int| is_first_failure(outcomes, i);
        PipelineResultView::Failure(outcomes[i].failure.unwrap())
    }
}

impl EngineView {
    /// The engine before any job has started.
    pub open spec fn initial(
        files: Seq<DriveFileView>,
        destination: S3DestinationView,
        storage_class: Seq<char>,
    ) -> EngineView {
        EngineView {
            files,
            destination,
            storage_class,
            started: 0,
            running: Seq::empty(),
            outcomes: Seq::empty(),
        }
    }

    /// The invariant of the engine.
    pub open spec fn wf(self) -> bool {
        &&& self.started <= self.files.len()
        &&& self.files.len() <= usize::MAX
        &&& self.running.len() <= MAX_CONCURRENT_JOBS
        &&& self.running.len() + self.outcomes.len() == self.started
        &&& self.running.no_duplicates()
        &&& forall|i: int| 0 <= i < self.running.len() ==> (#[trigger] self.running[i]) < self.started
        &&& forall|i: int|
            0 <= i < self.outcomes.len() ==> {
                &&& (#[trigger] self.outcomes[i]).index < self.started
                &&& self.outcomes[i].file == self.files[self.outcomes[i].index as int].name
            }
        &&& forall|i: int, j: int|
            0 <= i < self.outcomes.len() && 0 <= j < self.outcomes.len() && i != j ==> (
            #[trigger] self.outcomes[i]).index != (#[trigger] self.outcomes[j]).index
        &&& forall|i: int, j: int|
            0 <= i < self.running.len() && 0 <= j < self.outcomes.len() ==> (
            #[trigger] self.running[i]) != (#[trigger] self.outcomes[j]).index
    }

    /// The number of jobs in flight.
    pub open spec fn in_flight(self) -> nat {
        self.running.len()
    }

    /// Whether a job may start: a slot is free and a file is waiting.
    pub open spec fn can_start(self) -> bool {
        self.running.len() < MAX_CONCURRENT_JOBS && self.started < self.files.len()
    }

    /// The job that starts next.
    pub open spec fn next_job(self) -> TransferJobView
        recommends
            self.started < self.files.len(),
    {
        TransferJobView {
            index: self.started as usize,
            file: self.files[self.started as int],
            destination: self.destination,
            storage_class: self.storage_class,
        }
    }

    /// The engine after the next job has started.
    pub open spec fn start(self) -> EngineView {
        EngineView {
            started: self.started + 1,
            running: self.running.push(self.started as usize),
            ..self
        }
    }

    /// The engine after the job `index` has ended with `failure`. A report
    /// for a job that is not in flight changes nothing.
    pub open spec fn complete(self, index: usize, failure: Option<TransferErrorView>) -> EngineView {
        if self.running.contains(index) {
            EngineView {
                running: self.running.remove_value(index),
                outcomes: self.outcomes.push(
                    OutcomeView { index, file: self.files[index as int].name, failure },
                ),
                ..self
            }
        } else {
            self
        }
    }

    /// Whether the sink holds an outcome for the file at position `k`.
    pub open spec fn has_outcome_for(self, k: int) -> bool {
        exists|i: int| 0 <= i < self.outcomes.len() && (#[trigger] self.outcomes[i]).index == k
    }

    /// Whether every job has started and ended.
    pub open spec fn is_finished(self) -> bool {
        self.started == self.files.len() && self.running.len() == 0
    }

    /// The result of the run, once it is finished.
    pub open spec fn result(self) -> Option<PipelineResultView> {
        if self.is_finished() {
            Some(aggregate(self.outcomes))
        } else {
            None
        }
    }

    /// The engine after one event. A request to start that cannot be met
    /// changes nothing.
    pub open spec fn apply(self, event: EngineEvent) -> EngineView {
        match event {
            EngineEvent::Start => if self.can_start() {
                self.start()
            } else {
                self
            },
            EngineEvent::Complete { index, failure } => self.complete(index, failure),
        }
    }

    /// The engine after a sequence of events.
    pub open spec fn run(self, events: Seq<EngineEvent>) -> EngineView
        decreases events.len(),
    {
        if events.len() == 0 {
            self
        } else {
            self.run(events.drop_last()).apply(events.last())
        }
    }
}

/// Starting a job keeps the invariant and takes one slot.
pub proof fn lemma_start_preserves_wf(s: EngineView)
    requires
        s.wf(),
        s.can_start(),
    ensures
        s.start().wf(),
        s.start().in_flight() == s.in_flight() + 1,
        s.start().outcomes == s.outcomes,
{
    let t = s.start();
    assert forall|i: int, j: int|
        0 <= i < t.running.len() && 0 <= j < t.running.len() && i != j implies t.running[i]
        != t.running[j] by {
        if i < s.running.len() {
            assert(s.running[i] < s.started);
        }
        if j < s.running.len() {
            assert(s.running[j] < s.started);
        }
    }
    assert forall|i: int, j: int|
        0 <= i < t.running.len() && 0 <= j < t.outcomes.len() implies (#[trigger] t.running[i]) != (
    #[trigger] t.outcomes[j]).index by {
        if i < s.running.len() {
            assert(s.running[i] != s.outcomes[j].index);
        } else {
            assert(s.outcomes[j].index < s.started);
        }
    }
}

/// The end of a job keeps the invariant. Where the job was in flight, its
/// slot is freed and its outcome is the last of the sink; nothing else
/// changes, whether the job failed or not.
pub proof fn lemma_complete_preserves_wf(
    s: EngineView,
    index: usize,
    failure: Option<TransferErrorView>,
)
    requires
        s.wf(),
    ensures
        s.complete(index, failure).wf(),
        s.complete(index, failure).started == s.started,
        s.running.contains(index) ==> {
            &&& s.complete(index, failure).in_flight() == s.in_flight() - 1
            &&& !s.complete(index, failure).running.contains(index)
            &&& s.complete(index, failure).outcomes.len() == s.outcomes.len() + 1
            &&& s.complete(index, failure).outcomes.last().index == index
            &&& s.complete(index, failure).outcomes.last().failure == failure
        },
        !s.running.contains(index) ==> s.complete(index, failure) == s,
{
    if s.running.contains(index) {
        let t = s.complete(index, failure);
        s.running.index_of_first_ensures(index);
        let p = s.running.index_of_first(index).unwrap();
        assert(t.running == s.running.remove(p));
        assert forall|i: int| 0 <= i < t.running.len() implies (#[trigger] t.running[i]) < t.started
            && t.running[i] != index by {
            if i < p {
                assert(t.running[i] == s.running[i]);
            } else {
                assert(t.running[i] == s.running[i + 1]);
            }
        }
        assert forall|i: int, j: int|
            0 <= i < t.running.len() && 0 <= j < t.running.len() && i != j implies t.running[i]
            != t.running[j] by {
            let a = if i < p {
                i
            } else {
                i + 1
            };
            let b = if j < p {
                j
            } else {
                j + 1
            };
            assert(t.running[i] == s.running[a] && t.running[j] == s.running[b]);
        }
        assert forall|i: int, j: int|
            0 <= i < t.running.len() && 0 <= j < t.outcomes.len() implies (#[trigger] t.running[i])
            != (#[trigger] t.outcomes[j]).index by {
            let a = if i < p {
                i
            } else {
                i + 1
            };
            assert(t.running[i] == s.running[a]);
            if j < s.outcomes.len() {
                assert(t.outcomes[j] == s.outcomes[j]);
                assert(s.running[a] != s.outcomes[j].index);
            }
        }
        assert forall|i: int, j: int|
            0 <= i < t.outcomes.len() && 0 <= j < t.outcomes.len() && i != j implies (
        #[trigger] t.outcomes[i]).index != (#[trigger] t.outcomes[j]).index by {
            if i < s.outcomes.len() && j < s.outcomes.len() {
                assert(s.outcomes[i].index != s.outcomes[j].index);
            } else if i < s.outcomes.len() {
                assert(s.running[p] != s.outcomes[i].index);
            } else {
                assert(s.running[p] != s.outcomes[j].index);
            }
        }
        assert forall|i: int| 0 <= i < t.outcomes.len() implies {
            &&& (#[trigger] t.outcomes[i]).index < t.started
            &&& t.outcomes[i].file == t.files[t.outcomes[i].index as int].name
        } by {
            if i < s.outcomes.len() {
                assert(t.outcomes[i] == s.outcomes[i]);
            } else {
                assert(s.running[p] < s.started);
            }
        }
        assert(!t.running.contains(index));
    }
}

/// No event breaks the invariant.
pub proof fn lemma_apply_preserves_wf(s: EngineView, event: EngineEvent)
    requires
        s.wf(),
    ensures
        s.apply(event).wf(),
{
    match event {
        EngineEvent::Start => {
            if s.can_start() {
                lemma_start_preserves_wf(s);
            }
        },
        EngineEvent::Complete { index, failure } => {
            lemma_complete_preserves_wf(s, index, failure);
        },
    }
}

/// The invariant holds of every state that a run reaches.
pub proof fn lemma_run_preserves_wf(s: EngineView, events: Seq<EngineEvent>)
    requires
        s.wf(),
    ensures
        s.run(events).wf(),
    decreases events.len(),
{
    if events.len() > 0 {
        lemma_run_preserves_wf(s, events.drop_last());
        lemma_apply_preserves_wf(s.run(events.drop_last()), events.last());
    }
}

/// The concurrency bound: whatever the caller asks for and reports, and in
/// whatever order, at no point of a run are more than
/// [`MAX_CONCURRENT_JOBS`] jobs in flight.
pub proof fn lemma_never_more_than_four_in_flight(
    files: Seq<DriveFileView>,
    destination: S3DestinationView,
    storage_class: Seq<char>,
    events: Seq<EngineEvent>,
)
    requires
        files.len() <= usize::MAX,
    ensures
        EngineView::initial(files, destination, storage_class).run(events).in_flight()
            <= MAX_CONCURRENT_JOBS,
        MAX_CONCURRENT_JOBS == 4,
{
    lemma_run_preserves_wf(EngineView::initial(files, destination, storage_class), events);
}

/// A waiting file starts as soon as a slot is free, and only then: the
/// bound holds files back, and nothing else does.
pub proof fn lemma_start_exactly_when_slot_free(s: EngineView)
    requires
        s.wf(),
        s.started < s.files.len(),
    ensures
        s.apply(EngineEvent::Start) != s <==> s.in_flight() < MAX_CONCURRENT_JOBS,
        s.in_flight() < MAX_CONCURRENT_JOBS ==> s.apply(EngineEvent::Start).started == s.started
            + 1,
{
}

/// Failures do not spread: after the end of a job the same jobs are in
/// flight and the same files are waiting, whether it failed or not.
pub proof fn lemma_failure_cancels_nothing(
    s: EngineView,
    index: usize,
    failure: TransferErrorView,
)
    requires
        s.wf(),
    ensures
        s.complete(index, Some(failure)).running == s.complete(index, None).running,
        s.complete(index, Some(failure)).started == s.complete(index, None).started,
        s.complete(index, Some(failure)).can_start() == s.complete(index, None).can_start(),
        s.complete(index, Some(failure)).is_finished() == s.complete(index, None).is_finished(),
{
}

/// Once a run is finished, every file of the batch was attempted exactly
/// once: the sink holds as many outcomes as there are files, and one for
/// each file.
pub proof fn lemma_every_file_attempted_once(s: EngineView)
    requires
        s.wf(),
        s.is_finished(),
    ensures
        s.outcomes.len() == s.files.len(),
        forall|k: int| 0 <= k < s.files.len() ==> #[trigger] s.has_outcome_for(k),
        forall|i: int, j: int|
            0 <= i < s.outcomes.len() && 0 <= j < s.outcomes.len() && (
            #[trigger] s.outcomes[i]).index == (#[trigger] s.outcomes[j]).index ==> i == j,
{
    let n = s.files.len() as int;
    let indices = Seq::new(s.outcomes.len(), |i: int| s.outcomes[i].index as int);
    assert(indices.no_duplicates()) by {
        assert forall|i: int, j: int|
            0 <= i < indices.len() && 0 <= j < indices.len() && i != j implies indices[i]
            != indices[j] by {
            assert(s.outcomes[i].index != s.outcomes[j].index);
        }
    }
    indices.unique_seq_to_set();
    vstd::set_lib::lemma_int_range(0, n);
    let range = vstd::set_lib::set_int_range(0, n);
    assert(indices.to_set().subset_of(range)) by {
        assert forall|k: int| indices.to_set().contains(k) implies range.contains(k) by {
            let i = choose|i: int| 0 <= i < indices.len() && indices[i] == k;
            assert(s.outcomes[i].index < s.started);
        }
    }
    vstd::set_lib::lemma_set_subset_finite(range, indices.to_set());
    vstd::set_lib::lemma_subset_equality(indices.to_set(), range);
    assert forall|k: int| 0 <= k < s.files.len() implies #[trigger] s.has_outcome_for(k) by {
        assert(range.contains(k));
        assert(indices.to_set().contains(k));
        let i = choose|i: int| 0 <= i < indices.len() && indices[i] == k;
        assert(s.outcomes[i].index == k);
    }
}

/// The aggregate is a failure exactly when some job failed, and then it is
/// the failure that was collected first.
pub proof fn lemma_aggregate_reports_first_failure(outcomes: Seq<OutcomeView>)
    ensures
        aggregate(outcomes) is Success <==> all_succeeded(outcomes),
        forall|i: int|
            is_first_failure(outcomes, i) ==> aggregate(outcomes) == PipelineResultView::Failure(
                outcomes[i].failure.unwrap(),
            ),
        !all_succeeded(outcomes) ==> exists|i: int| is_first_failure(outcomes, i),
{
    if !all_succeeded(outcomes) {
        let some = choose|i: int|
            0 <= i < outcomes.len() && (#[trigger] outcomes[i]).failure is Some;
        lemma_first_failure_exists(outcomes, some);
        let c = choose|i: int| is_first_failure(outcomes, i);
        assert forall|i: int| is_first_failure(outcomes, i) implies i == c by {
            if i < c {
                assert(outcomes[i].failure is None);
            } else if c < i {
                assert(outcomes[c].failure is None);
            }
        }
    } else {
        assert forall|i: int| !is_first_failure(outcomes, i) by {
            if 0 <= i < outcomes.len() {
                assert(outcomes[i].failure is None);
            }
        }
    }
}

/// Before any failure of a sink lies its first failure.
proof fn lemma_first_failure_exists(outcomes: Seq<OutcomeView>, k: int)
    requires
        0 <= k < outcomes.len(),
        outcomes[k].failure is Some,
    ensures
        exists|i: int| is_first_failure(outcomes, i),
    decreases k,
{
    if exists|j: int| 0 <= j < k && (#[trigger] outcomes[j]).failure is Some {
        let j = choose|j: int| 0 <= j < k && (#[trigger] outcomes[j]).failure is Some;
        lemma_first_failure_exists(outcomes, j);
    } else {
        assert(is_first_failure(outcomes, k));
    }
}

/// Whether a run succeeds does not depend on the order in which the jobs
/// end: a sink and any reordering of it are both successes or both
/// failures.
pub proof fn lemma_success_is_independent_of_order(a: Seq<OutcomeView>, b: Seq<OutcomeView>)
    requires
        a.to_multiset() == b.to_multiset(),
    ensures
        aggregate(a) is Success <==> aggregate(b) is Success,
{
    broadcast use vstd::seq_lib::group_to_multiset_ensures;

    lemma_aggregate_reports_first_failure(a);
    lemma_aggregate_reports_first_failure(b);
    assert forall|x: Seq<OutcomeView>, y: Seq<OutcomeView>|
        x.to_multiset() == y.to_multiset() && all_succeeded(x) implies all_succeeded(y) by {
        assert forall|i: int| 0 <= i < y.len() implies (#[trigger] y[i]).failure is None by {
            assert(y.to_multiset().count(y[i]) > 0);
            assert(x.to_multiset().count(y[i]) > 0);
            assert(x.contains(y[i]));
        }
    }
}

} // verus!
