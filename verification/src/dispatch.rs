//! The dispatcher and its job units. `submit` turns a batch of paths into
//! one job unit per path and does no transcription work itself, so it cannot
//! block on any job. Each job unit owns its path, converts that path's
//! outcome into exactly one event, and delivers it to the shared sink.
//! Delivery order is the completion order of the jobs, an arbitrary
//! rearrangement of the batch; `deliver_all` is verified for every such
//! order.

use vstd::prelude::*;
use crate::event::{
    EventModel, OCREvent, OutcomeModel, TranscriptionOutcome, event_for, event_of,
};
use crate::sink::{EventSink, SendFailure};

verus! {

/// The unit of work for one path: it holds the correlation key its event
/// will carry, and nothing shared with any sibling job.
#[derive(Debug)]
pub struct JobUnit {
    pub path: String,
}

/// The paths of a sequence of job units, in order.
pub open spec fn job_paths(jobs: Seq<JobUnit>) -> Seq<Seq<char>> {
    jobs.map_values(|j: JobUnit| j.path@)
}

/// The models of a sequence of outcomes, in order.
pub open spec fn outcome_models(outcomes: Seq<TranscriptionOutcome>) -> Seq<OutcomeModel> {
    outcomes.map_values(|o: TranscriptionOutcome| o@)
}

/// The views of a batch of paths, in submission order.
pub open spec fn path_models(paths: Seq<String>) -> Seq<Seq<char>> {
    paths.map_values(|p: String| p@)
}

/// Whether job index `i` occurs somewhere in `order`.
pub open spec fn occurs_in(order: Seq<usize>, i: int) -> bool {
    exists|k: int| #![trigger order[k]] 0 <= k < order.len() && (order[k] as int) == i
}

/// A completion order for `n` jobs: every job index appears in it exactly
/// once. It is any rearrangement of the batch, since jobs finish in an
/// order the dispatcher does not control.
pub open spec fn is_completion_order(order: Seq<usize>, n: nat) -> bool {
    &&& order.len() == n
    &&& forall|k: int| #![trigger order[k]] 0 <= k < n ==> (order[k] as int) < n
    &&& forall|k1: int, k2: int|
        #![trigger order[k1], order[k2]]
        0 <= k1 < n && 0 <= k2 < n && order[k1] == order[k2] ==> k1 == k2
    &&& forall|i: int| 0 <= i < n ==> #[trigger] occurs_in(order, i)
}

/// The events of a whole batch, indexed by submission position.
pub open spec fn batch_events(paths: Seq<Seq<char>>, outcomes: Seq<OutcomeModel>) -> Seq<
    EventModel,
> {
    Seq::new(paths.len(), |i: int| event_of(paths[i], outcomes[i]))
}

/// The events of a batch as they reach the sink when its jobs complete in
/// the given order: the k-th delivered event is the one of job `order[k]`.
pub open spec fn delivered_events(
    paths: Seq<Seq<char>>,
    outcomes: Seq<OutcomeModel>,
    order: Seq<usize>,
) -> Seq<EventModel> {
    Seq::new(order.len(), |k: int| event_of(paths[order[k] as int], outcomes[order[k] as int]))
}

/// Accepts a batch and creates one job unit per path, each owning a copy of
/// its path. It performs no transcription and consumes no outcome: its
/// result is pinned by the paths alone, so submission cannot block on any
/// job completing.
pub fn submit(paths: &Vec<String>) -> (jobs: Vec<JobUnit>)
    ensures
        jobs@.len() == paths@.len(),
        forall|i: int| 0 <= i < paths@.len() ==> #[trigger] jobs@[i].path@ == paths@[i]@,
{
    let mut jobs: Vec<JobUnit> = Vec::new();
    for i in 0..paths.len()
        invariant
            jobs@.len() == i,
            forall|m: int| 0 <= m < i ==> #[trigger] jobs@[m].path@ == paths@[m]@,
    {
        jobs.push(JobUnit { path: paths[i].clone() });
    }
    jobs
}

impl JobUnit {
    /// Runs the reporting half of one job: maps this job's outcome to its
    /// event and delivers it to the sink. The delivered event's path is
    /// this job's own path — correlation is never lost or swapped — and a
    /// refused send is returned as data, leaving the sink's queue intact.
    pub fn complete(&self, outcome: &TranscriptionOutcome, sink: &mut EventSink) -> (r: Result<
        (),
        SendFailure,
    >)
        ensures
            old(sink).is_open() ==> {
                &&& final(sink).is_open()
                &&& final(sink).queue() == old(sink).queue().push(
                    event_of(self.path@, outcome@),
                )
                &&& r is Ok
            },
            !old(sink).is_open() ==> {
                &&& !final(sink).is_open()
                &&& final(sink).queue() == old(sink).queue()
                &&& r is Err
            },
    {
        let event = event_for(&self.path, outcome);
        sink.send(event)
    }
}

/// Delivers the event of every job of a batch, in the given completion
/// order, to an open sink: exactly one event per job is appended, the k-th
/// appended event being the one of job `order[k]`, derived from that job's
/// own path and outcome.
pub fn deliver_all(
    jobs: &Vec<JobUnit>,
    outcomes: &Vec<TranscriptionOutcome>,
    order: &Vec<usize>,
    sink: &mut EventSink,
)
    requires
        outcomes@.len() == jobs@.len(),
        is_completion_order(order@, jobs@.len() as nat),
        old(sink).is_open(),
    ensures
        final(sink).is_open(),
        final(sink).queue() == old(sink).queue() + delivered_events(
            job_paths(jobs@),
            outcome_models(outcomes@),
            order@,
        ),
{
    let ghost delivered = delivered_events(job_paths(jobs@), outcome_models(outcomes@), order@);
    for k in 0..order.len()
        invariant
            outcomes@.len() == jobs@.len(),
            order@.len() == jobs@.len(),
            forall|m: int| 0 <= m < order@.len() ==> (#[trigger] order@[m] as int) < jobs@.len(),
            sink.is_open(),
            delivered == delivered_events(job_paths(jobs@), outcome_models(outcomes@), order@),
            sink.queue() == old(sink).queue() + delivered.subrange(0, k as int),
    {
        let idx = order[k];
        let _ = jobs[idx].complete(&outcomes[idx], sink);
        proof {
            assert(delivered[k as int] == event_of(jobs@[idx as int].path@, outcomes@[idx as int]@));
            assert(sink.queue() =~= old(sink).queue() + delivered.subrange(0, k as int + 1));
        }
    }
    proof {
        assert(delivered.subrange(0, order@.len() as int) =~= delivered);
    }
}

/// Runs a whole batch against outcomes already in hand: submits the paths
/// and delivers every job's event in the given completion order.
pub fn process_batch(
    paths: &Vec<String>,
    outcomes: &Vec<TranscriptionOutcome>,
    order: &Vec<usize>,
    sink: &mut EventSink,
)
    requires
        outcomes@.len() == paths@.len(),
        is_completion_order(order@, paths@.len() as nat),
        old(sink).is_open(),
    ensures
        final(sink).is_open(),
        final(sink).queue() == old(sink).queue() + delivered_events(
            path_models(paths@),
            outcome_models(outcomes@),
            order@,
        ),
{
    let jobs = submit(paths);
    proof {
        assert(job_paths(jobs@) =~= path_models(paths@));
    }
    deliver_all(&jobs, outcomes, order, sink);
}

} // verus!
