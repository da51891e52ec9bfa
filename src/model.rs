//! What the response hook asks of the counter and histogram vectors, over a
//! whole run of served requests, and the laws that this obeys.
use vstd::prelude::*;
use vstd::multiset::Multiset;
use crate::labels::{decimal, labels_of, LabelsView};

verus! {

/// One request as the response hook sees it: its matched route template (if
/// any), its method, its final status, and whether its start was stamped.
pub struct ResponseEvent {
    pub route: Option<Seq<char>>,
    pub method: Seq<char>,
    pub status: u16,
    pub timed: bool,
}

/// The counter increments one response makes: one at its labels, or none
/// when no route matched.
pub open spec fn event_increments(e: ResponseEvent) -> Multiset<LabelsView> {
    match labels_of(e.route, e.method, e.status) {
        Some(l) => Multiset::singleton(l),
        None => Multiset::empty(),
    }
}

/// The histogram observations one response makes: one at its labels when a
/// route matched and its start was stamped, else none.
pub open spec fn event_observations(e: ResponseEvent) -> Multiset<LabelsView> {
    match labels_of(e.route, e.method, e.status) {
        Some(l) => if e.timed {
            Multiset::singleton(l)
        } else {
            Multiset::empty()
        },
        None => Multiset::empty(),
    }
}

/// All counter increments of a run: the value of the counter at `l` is
/// `increments(events).count(l)`, and the sum over all label tuples is its `len()`.
pub open spec fn increments(events: Seq<ResponseEvent>) -> Multiset<LabelsView>
    decreases events.len(),
{
    if events.len() == 0 {
        Multiset::empty()
    } else {
        increments(events.drop_last()).add(event_increments(events.last()))
    }
}

/// All histogram observations of a run, by label tuple.
pub open spec fn observations(events: Seq<ResponseEvent>) -> Multiset<LabelsView>
    decreases events.len(),
{
    if events.len() == 0 {
        Multiset::empty()
    } else {
        observations(events.drop_last()).add(event_observations(events.last()))
    }
}

/// Whether a request reached the response hook with a matched route.
pub open spec fn is_routed(e: ResponseEvent) -> bool {
    e.route.is_some()
}

/// Splitting a run in two: what the whole run records is what each part records.
pub proof fn lemma_append(a: Seq<ResponseEvent>, b: Seq<ResponseEvent>)
    ensures
        increments(a + b) == increments(a).add(increments(b)),
        observations(a + b) == observations(a).add(observations(b)),
    decreases b.len(),
{
    if b.len() == 0 {
        assert(a + b =~= a);
        assert(increments(a).add(increments(b)) =~= increments(a));
        assert(observations(a).add(observations(b)) =~= observations(a));
    } else {
        lemma_append(a, b.drop_last());
        assert((a + b).drop_last() =~= a + b.drop_last());
        assert((a + b).last() == b.last());
        assert(increments(a + b) =~= increments(a).add(increments(b)));
        assert(observations(a + b) =~= observations(a).add(observations(b)));
    }
}

/// The counters and histograms do not depend on the order in which requests
/// complete: two groups of requests served in either order, or interleaved as
/// concurrent workers finish them, leave the same totals.
pub proof fn law_order_independent(a: Seq<ResponseEvent>, b: Seq<ResponseEvent>)
    ensures
        increments(a + b) == increments(b + a),
        observations(a + b) == observations(b + a),
{
    lemma_append(a, b);
    lemma_append(b, a);
    assert(increments(a).add(increments(b)) =~= increments(b).add(increments(a)));
    assert(observations(a).add(observations(b)) =~= observations(b).add(observations(a)));
}

/// When every one of N requests reaches the response hook with a matched
/// route, the counter values summed over all label tuples equal N.
pub proof fn law_routed_requests_counted(events: Seq<ResponseEvent>)
    requires
        forall|i: int| 0 <= i < events.len() ==> is_routed(#[trigger] events[i]),
    ensures
        increments(events).len() == events.len(),
    decreases events.len(),
{
    if events.len() > 0 {
        let init = events.drop_last();
        assert forall|i: int| 0 <= i < init.len() implies is_routed(#[trigger] init[i]) by {
            assert(init[i] == events[i]);
        }
        law_routed_requests_counted(init);
        assert(is_routed(events[events.len() - 1]));
    }
}

/// At every label tuple there are never more histogram observations than
/// counter increments: each request observes at most once where it counts.
pub proof fn law_observation_at_most_once(events: Seq<ResponseEvent>, l: LabelsView)
    ensures
        observations(events).count(l) <= increments(events).count(l),
    decreases events.len(),
{
    if events.len() > 0 {
        law_observation_at_most_once(events.drop_last(), l);
    }
}

/// When every request had its start stamped, each counter increment comes
/// with exactly one histogram observation at the same label tuple.
pub proof fn law_timed_requests_observed(events: Seq<ResponseEvent>)
    requires
        forall|i: int| 0 <= i < events.len() ==> (#[trigger] events[i]).timed,
    ensures
        observations(events) == increments(events),
    decreases events.len(),
{
    if events.len() > 0 {
        let init = events.drop_last();
        assert forall|i: int| 0 <= i < init.len() implies (#[trigger] init[i]).timed by {
            assert(init[i] == events[i]);
        }
        law_timed_requests_observed(init);
        assert(events[events.len() - 1].timed);
        assert(event_observations(events.last()) =~= event_increments(events.last()));
    }
}

/// A request that matched no route changes neither the counters nor the
/// histograms, wherever in the run it comes.
pub proof fn law_unrouted_records_nothing(
    before: Seq<ResponseEvent>,
    e: ResponseEvent,
    after: Seq<ResponseEvent>,
)
    requires
        !is_routed(e),
    ensures
        increments(before.push(e) + after) == increments(before + after),
        observations(before.push(e) + after) == observations(before + after),
{
    lemma_append(before.push(e), after);
    lemma_append(before, after);
    assert(before.push(e).drop_last() =~= before);
    assert(increments(before.push(e)) =~= increments(before));
    assert(observations(before.push(e)) =~= observations(before));
}

/// K requests to one route template with one method, all answered with one
/// status, advance the counter at that label tuple by exactly K, whatever
/// was recorded before them.
pub proof fn law_batch_advances_by_its_size(
    before: Seq<ResponseEvent>,
    batch: Seq<ResponseEvent>,
    endpoint: Seq<char>,
    method: Seq<char>,
    status: u16,
)
    requires
        forall|i: int|
            0 <= i < batch.len() ==> (#[trigger] batch[i]).route == Some(endpoint)
                && batch[i].method == method && batch[i].status == status,
    ensures
        increments(before + batch).count((endpoint, method, decimal(status as nat)))
            == increments(before).count((endpoint, method, decimal(status as nat))) + batch.len(),
    decreases batch.len(),
{
    if batch.len() > 0 {
        let init = batch.drop_last();
        assert forall|i: int|
            0 <= i < init.len() implies (#[trigger] init[i]).route == Some(endpoint)
                && init[i].method == method && init[i].status == status by {
            assert(init[i] == batch[i]);
        }
        law_batch_advances_by_its_size(before, init, endpoint, method, status);
        assert((before + batch).drop_last() =~= before + init);
        assert((before + batch).last() == batch.last());
        assert(batch.last() == batch[batch.len() - 1]);
    }
}

} // verus!
