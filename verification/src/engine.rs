//! Transfer engine: hands out the jobs of a batch, never more than
//! [`MAX_CONCURRENT_JOBS`] at once, collects every outcome and aggregates
//! them. The caller runs the jobs; the engine decides.

use vstd::prelude::*;
use vstd::string::*;
use crate::destination::{
    destination_of, parse_s3_url, url_parts, S3Destination, S3DestinationView,
};
use crate::engine_model::{
    aggregate, all_succeeded, is_first_failure, lemma_aggregate_reports_first_failure,
    lemma_complete_preserves_wf, lemma_start_preserves_wf, EngineView, OutcomeView,
    PipelineResultView, MAX_CONCURRENT_JOBS,
};
use crate::errors::{TransferError, TransferErrorView};
use crate::file::{file_views, DriveFileRef};
use crate::transfer::TransferJob;

verus! {

/// The model of an optional failure.
pub open spec fn opt_error(o: Option<TransferError>) -> Option<TransferErrorView> {
    match o {
        Some(e) => Some(e@),
        None => None,
    }
}

/// The outcome of one job.
#[derive(Debug, PartialEq, Eq)]
pub struct TransferOutcome {
    /// The position of the file in the batch.
    pub index: usize,
    /// The file's name.
    pub file: String,
    /// The failure, or `None` where the file was copied.
    pub failure: Option<TransferError>,
}

impl View for TransferOutcome {
    type V = OutcomeView;

    open spec fn view(&self) -> OutcomeView {
        OutcomeView { index: self.index, file: self.file@, failure: opt_error(self.failure) }
    }
}

/// The models of the outcomes of a sequence, in order.
pub open spec fn outcome_views(v: Seq<TransferOutcome>) -> Seq<OutcomeView> {
    v.map_values(|o: TransferOutcome| o@)
}

/// The result of a whole run.
#[derive(Debug, PartialEq, Eq)]
pub enum PipelineResult {
    /// Every job succeeded.
    Success,
    /// Some job failed; this is the first failure that was collected.
    Failure(TransferError),
}

impl View for PipelineResult {
    type V = PipelineResultView;

    open spec fn view(&self) -> PipelineResultView {
        match self {
            PipelineResult::Success => PipelineResultView::Success,
            PipelineResult::Failure(e) => PipelineResultView::Failure(e@),
        }
    }
}

/// Aggregates the outcomes of a run: success if every job succeeded,
/// otherwise the first failure of the sink.
pub fn aggregate_outcomes(outcomes: &Vec<TransferOutcome>) -> (r: PipelineResult)
    ensures
        r@ == aggregate(outcome_views(outcomes@)),
{
    let ghost views = outcome_views(outcomes@);
    let mut i: usize = 0;
    while i < outcomes.len()
        invariant
            i <= outcomes.len(),
            views == outcome_views(outcomes@),
            forall|j: int| 0 <= j < i ==> (#[trigger] views[j]).failure is None,
        decreases outcomes.len() - i,
    {
        match &outcomes[i].failure {
            Some(e) => {
                proof {
                    assert(views[i as int] == outcomes@[i as int]@);
                    assert(is_first_failure(views, i as int));
                    lemma_aggregate_reports_first_failure(views);
                }
                return PipelineResult::Failure(e.clone());
            },
            None => {
                assert(views[i as int] == outcomes@[i as int]@);
            },
        }
        i = i + 1;
    }
    assert(all_succeeded(views));
    PipelineResult::Success
}

/// The transfer engine of one run.
pub struct Engine {
    files: Vec<DriveFileRef>,
    destination: S3Destination,
    storage_class: String,
    started: usize,
    running: Vec<usize>,
    outcomes: Vec<TransferOutcome>,
}

impl View for Engine {
    type V = EngineView;

    closed spec fn view(&self) -> EngineView {
        EngineView {
            files: file_views(self.files@),
            destination: self.destination@,
            storage_class: self.storage_class@,
            started: self.started as nat,
            running: self.running@,
            outcomes: outcome_views(self.outcomes@),
        }
    }
}

impl Engine {
    /// The invariant of the engine. Every engine that this module hands out
    /// has it, and every operation keeps it.
    pub open spec fn wf(&self) -> bool {
        self@.wf()
    }

    /// An engine for a batch of files and a destination that is already
    /// located. No job has started.
    pub fn with_destination(
        files: Vec<DriveFileRef>,
        destination: S3Destination,
        storage_class: &str,
    ) -> (engine: Engine)
        ensures
            engine.wf(),
            engine@ == EngineView::initial(file_views(files@), destination@, storage_class@),
    {
        let count = files.len();
        let engine = Engine {
            files,
            destination,
            storage_class: String::from_str(storage_class),
            started: 0,
            running: Vec::new(),
            outcomes: Vec::new(),
        };
        assert(engine@.outcomes =~= Seq::empty());
        assert(engine@.running =~= Seq::empty());
        assert(engine@.files.len() == count);
        engine
    }

    /// The number of jobs in flight.
    pub fn in_flight(&self) -> (n: usize)
        requires
            self.wf(),
        ensures
            n == self@.in_flight(),
            n <= MAX_CONCURRENT_JOBS,
    {
        self.running.len()
    }

    /// The number of files in the batch.
    pub fn total(&self) -> (n: usize)
        ensures
            n == self@.files.len(),
    {
        self.files.len()
    }

    /// Whether every job has started and ended.
    pub fn is_finished(&self) -> (r: bool)
        requires
            self.wf(),
        ensures
            r == self@.is_finished(),
    {
        self.started == self.files.len() && self.running.len() == 0
    }

    /// The sink: the outcomes collected so far, in the order in which they
    /// were reported.
    pub fn outcomes(&self) -> (r: &Vec<TransferOutcome>)
        ensures
            outcome_views(r@) == self@.outcomes,
    {
        &self.outcomes
    }

    /// Starts the next job, if a slot is free and a file is waiting.
    pub fn start_next(&mut self) -> (job: Option<TransferJob>)
        requires
            old(self).wf(),
        ensures
            final(self).wf(),
            old(self)@.can_start() ==> (job matches Some(j) && j@ == old(self)@.next_job()
                && final(self)@ == old(self)@.start()),
            !old(self)@.can_start() ==> job is None && final(self)@ == old(self)@,
    {
        if self.running.len() < MAX_CONCURRENT_JOBS && self.started < self.files.len() {
            let index = self.started;
            let job = TransferJob {
                index,
                file: self.files[index].clone(),
                destination: self.destination.clone(),
                storage_class: self.storage_class.clone(),
            };
            proof {
                lemma_start_preserves_wf(self@);
            }
            self.running.push(index);
            self.started = index + 1;
            assert(job.file@ == file_views(self.files@)[index as int]);
            Some(job)
        } else {
            None
        }
    }

    /// Records the end of the job `index`: with `failure`, or with success
    /// where there is none. Returns whether that job was in flight; a report
    /// for any other job is not recorded.
    pub fn complete(&mut self, index: usize, failure: Option<TransferError>) -> (recorded: bool)
        requires
            old(self).wf(),
        ensures
            final(self).wf(),
            recorded == old(self)@.running.contains(index),
            final(self)@ == old(self)@.complete(index, opt_error(failure)),
    {
        let ghost before = self@;
        let mut p: usize = 0;
        while p < self.running.len()
            invariant
                self.wf(),
                self@ == before,
                before == old(self)@,
                p <= self.running.len(),
                forall|j: int| 0 <= j < p ==> self.running@[j] != index,
            decreases self.running.len() - p,
        {
            if self.running[p] == index {
                proof {
                    lemma_complete_preserves_wf(self@, index, opt_error(failure));
                    self.running@.index_of_first_ensures(index);
                    assert(self.running@.contains(index));
                    assert(self.running@.index_of_first(index) == Some(p as int));
                    assert(self.running@[p as int] < self.started);
                }
                let ghost sink = self.outcomes@;
                let outcome = TransferOutcome {
                    index,
                    file: self.files[index].name.clone(),
                    failure,
                };
                self.running.remove(p);
                self.outcomes.push(outcome);
                assert(outcome_views(self.outcomes@) =~= outcome_views(sink).push(outcome@));
                assert(file_views(self.files@)[index as int].name == outcome.file@);
                return true;
            }
            p = p + 1;
        }
        assert(!self.running@.contains(index));
        false
    }

    /// The result of the run: the aggregate of the sink, once every job has
    /// ended; `None` before that.
    pub fn result(&self) -> (r: Option<PipelineResult>)
        requires
            self.wf(),
        ensures
            match r {
                Some(result) => self@.result() == Some(result@),
                None => self@.result() is None,
            },
    {
        if self.is_finished() {
            Some(aggregate_outcomes(&self.outcomes))
        } else {
            None
        }
    }
}

/// Begins the back-up of a batch of files to a destination URL. The URL is
/// located once, before any job can start; an invalid one ends the run
/// here. Otherwise the engine that hands out the jobs is returned.
pub fn back_up(files: Vec<DriveFileRef>, destination: &str, s3_storage_class: &str) -> (r: Result<
    Engine,
    TransferError,
>)
    ensures
        match r {
            Ok(engine) => {
                &&& engine.wf()
                &&& destination_of(destination@, url_parts(destination@)) matches Ok(located)
                &&& engine@ == EngineView::initial(
                    file_views(files@),
                    S3DestinationView { bucket: located.0, prefix: located.1 },
                    s3_storage_class@,
                )
            },
            Err(e) => destination_of(destination@, url_parts(destination@)) == Err::<
                (Seq<char>, Seq<char>),
                TransferErrorView,
            >(e@),
        },
{
    match parse_s3_url(destination) {
        Ok((bucket, prefix)) => Ok(
            Engine::with_destination(files, S3Destination { bucket, prefix }, s3_storage_class),
        ),
        Err(e) => Err(e),
    }
}

} // verus!
