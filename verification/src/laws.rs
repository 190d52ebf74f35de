//! The guarantees of the dispatch design, stated and proved over the batch
//! and delivery models: a failing path is isolated from its siblings, every
//! path of a batch is reported exactly once, events keep their correlation
//! under any completion order, and the outcome-to-event mapping is
//! deterministic.

use vstd::prelude::*;
use crate::event::{EventModel, OutcomeModel, event_of, event_path};
use crate::dispatch::{batch_events, delivered_events, is_completion_order, occurs_in};

verus! {

/// Isolation: one path's outcome never alters any other path's event. Two
/// runs of the same batch whose outcomes differ at most at position `j`
/// (say, the port failed there in one run) produce identical events at
/// every other position; in particular a sibling whose text was recognized
/// still gets its `Success` event with that exact text.
pub proof fn lemma_isolation(
    paths: Seq<Seq<char>>,
    outcomes1: Seq<OutcomeModel>,
    outcomes2: Seq<OutcomeModel>,
    j: int,
)
    requires
        outcomes1.len() == paths.len(),
        outcomes2.len() == paths.len(),
        0 <= j < paths.len(),
        forall|i: int| 0 <= i < paths.len() && i != j ==> outcomes1[i] == outcomes2[i],
    ensures
        forall|i: int|
            0 <= i < paths.len() && i != j ==> #[trigger] batch_events(paths, outcomes1)[i]
                == batch_events(paths, outcomes2)[i],
        forall|i: int|
            0 <= i < paths.len() && i != j ==> (outcomes1[i] matches OutcomeModel::Text(t)
                ==> #[trigger] batch_events(paths, outcomes1)[i] == (EventModel::Success {
                path: paths[i],
                ocr_text: t,
            })),
{
}

/// Whether some event of `events` carries `path` as its correlation key.
pub open spec fn path_reported(events: Seq<EventModel>, path: Seq<char>) -> bool {
    exists|k: int| 0 <= k < events.len() && #[trigger] event_path(events[k]) == path
}

/// Whether `path` is one of the submitted `paths`.
pub open spec fn is_submitted_path(paths: Seq<Seq<char>>, path: Seq<char>) -> bool {
    exists|i: int| 0 <= i < paths.len() && #[trigger] paths[i] == path
}

/// Completeness: when every job of a batch of distinct paths completes,
/// exactly one event per path reaches the sink — as many events as paths,
/// each event carrying a submitted path, every submitted path carried by
/// some event, and no path carried twice.
pub proof fn lemma_completeness(
    paths: Seq<Seq<char>>,
    outcomes: Seq<OutcomeModel>,
    order: Seq<usize>,
)
    requires
        outcomes.len() == paths.len(),
        is_completion_order(order, paths.len()),
        forall|i1: int, i2: int|
            #![trigger paths[i1], paths[i2]]
            0 <= i1 < paths.len() && 0 <= i2 < paths.len() && paths[i1] == paths[i2] ==> i1 == i2,
    ensures
        delivered_events(paths, outcomes, order).len() == paths.len(),
        forall|k: int|
            0 <= k < paths.len() ==> is_submitted_path(
                paths,
                event_path(#[trigger] delivered_events(paths, outcomes, order)[k]),
            ),
        forall|i: int|
            0 <= i < paths.len() ==> path_reported(
                delivered_events(paths, outcomes, order),
                #[trigger] paths[i],
            ),
        forall|k1: int, k2: int|
            #![trigger delivered_events(paths, outcomes, order)[k1], delivered_events(paths, outcomes, order)[k2]]
            0 <= k1 < paths.len() && 0 <= k2 < paths.len() && event_path(
                delivered_events(paths, outcomes, order)[k1],
            ) == event_path(delivered_events(paths, outcomes, order)[k2]) ==> k1 == k2,
{
    assert forall|k: int| 0 <= k < paths.len() implies is_submitted_path(
        paths,
        event_path(#[trigger] delivered_events(paths, outcomes, order)[k]),
    ) by {
        let i = order[k] as int;
        assert(0 <= i < paths.len() && paths[i] == event_path(
            delivered_events(paths, outcomes, order)[k],
        ));
    }
    assert forall|i: int| 0 <= i < paths.len() implies path_reported(
        delivered_events(paths, outcomes, order),
        #[trigger] paths[i],
    ) by {
        assert(occurs_in(order, i));
        let k = choose|k: int| 0 <= k < order.len() && (order[k] as int) == i;
        assert(0 <= k < delivered_events(paths, outcomes, order).len() && event_path(
            delivered_events(paths, outcomes, order)[k],
        ) == paths[i]);
    }
}

/// Correlation integrity: whatever order the jobs of a batch complete in,
/// the k-th event to reach the sink is exactly the event of the job that
/// produced it — its path is that job's own path, and when that job's
/// outcome was recognized text, the event pairs that path with that text.
/// No pairing is lost or swapped across concurrent jobs.
pub proof fn lemma_correlation_integrity(
    paths: Seq<Seq<char>>,
    outcomes: Seq<OutcomeModel>,
    order: Seq<usize>,
)
    requires
        outcomes.len() == paths.len(),
        is_completion_order(order, paths.len()),
    ensures
        delivered_events(paths, outcomes, order).len() == paths.len(),
        forall|k: int|
            0 <= k < order.len() ==> #[trigger] delivered_events(paths, outcomes, order)[k]
                == event_of(paths[order[k] as int], outcomes[order[k] as int]),
        forall|k: int|
            0 <= k < order.len() ==> event_path(
                #[trigger] delivered_events(paths, outcomes, order)[k],
            ) == paths[order[k] as int],
        forall|k: int|
            0 <= k < order.len() ==> (outcomes[order[k] as int] matches OutcomeModel::Text(t)
                ==> #[trigger] delivered_events(paths, outcomes, order)[k]
                == (EventModel::Success { path: paths[order[k] as int], ocr_text: t })),
{
}

/// Delivery in submission order is the batch itself: when the jobs happen
/// to complete in the order they were submitted, the sequence reaching the
/// sink is exactly the batch's events, index for index. Completion order
/// only rearranges the batch's events, it never changes them.
pub proof fn lemma_submission_order_delivery(
    paths: Seq<Seq<char>>,
    outcomes: Seq<OutcomeModel>,
    order: Seq<usize>,
)
    requires
        outcomes.len() == paths.len(),
        order.len() == paths.len(),
        forall|k: int| 0 <= k < order.len() ==> (#[trigger] order[k] as int) == k,
    ensures
        delivered_events(paths, outcomes, order) == batch_events(paths, outcomes),
{
    assert(delivered_events(paths, outcomes, order) =~= batch_events(paths, outcomes));
}

/// Idempotent mapping: the event derived for a path is a function of the
/// path and its outcome alone — the same outcome for the same path always
/// yields the same event.
pub proof fn lemma_idempotent_mapping(
    path1: Seq<char>,
    path2: Seq<char>,
    outcome1: OutcomeModel,
    outcome2: OutcomeModel,
)
    requires
        path1 == path2,
        outcome1 == outcome2,
    ensures
        event_of(path1, outcome1) == event_of(path2, outcome2),
{
}

} // verus!
