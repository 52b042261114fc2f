//! Planning of the fetches of one query and collection of their results.
//!
//! One document is fetched per requested metric, all at once. The fetches
//! finish in any order; each result is stored in the slot of its request, so
//! that the results are handed on in the order of the requests.

use vstd::prelude::*;
use vstd::set_lib::{
    lemma_int_range, lemma_set_subset_finite, lemma_subset_equality, set_int_range,
};
use crate::errors::CliError;
use crate::metric::Metric;
use crate::url_builder::{metric_url, UrlBuilder};

verus! {

/// The metrics that a query asks for: the chosen one, or the whole catalog
/// where none was chosen.
pub open spec fn requested(metric: Option<Metric>) -> Seq<Metric> {
    match metric {
        Some(metric) => seq![metric],
        None => Metric::catalog(),
    }
}

/// The metrics that a query asks for.
pub fn requested_metrics(metric: Option<&Metric>) -> (metrics: Vec<Metric>)
    ensures
        metrics@ == requested(
            match metric {
                Some(metric) => Some(*metric),
                None => None,
            },
        ),
{
    match metric {
        Some(metric) => {
            let metrics = vec![*metric];
            assert(metrics@ =~= seq![*metric]);
            metrics
        },
        None => Metric::valid_metrics(),
    }
}

/// One document to fetch.
#[derive(Debug)]
pub struct FetchRequest {
    /// The metric that the document holds.
    pub metric: Metric,
    /// Where the document is served.
    pub url: String,
}

/// The fetches for `metrics` of the repository `repo`, one per metric and in
/// the same order.
pub fn plan_requests(repo: &str, metrics: &Vec<Metric>) -> (requests: Vec<FetchRequest>)
    ensures
        requests@.len() == metrics@.len(),
        forall|i: int|
            0 <= i < metrics@.len() ==> {
                &&& (#[trigger] requests@[i]).metric == metrics@[i]
                &&& requests@[i].url@ == metric_url(repo@, metrics@[i])
            },
{
    let builder = UrlBuilder::new(repo);
    let mut requests: Vec<FetchRequest> = Vec::new();
    let mut i: usize = 0;
    while i < metrics.len()
        invariant
            i <= metrics.len(),
            builder@ == repo@,
            requests@.len() == i,
            forall|j: int|
                0 <= j < i ==> {
                    &&& (#[trigger] requests@[j]).metric == metrics@[j]
                    &&& requests@[j].url@ == metric_url(repo@, metrics@[j])
                },
        decreases metrics.len() - i,
    {
        let url = builder.build_url_with_metric(&metrics[i]);
        requests.push(FetchRequest { metric: metrics[i], url });
        i = i + 1;
    }
    requests
}

/// The results of a query as plain sequences.
pub open spec fn results_view(results: Seq<(Metric, String)>) -> Seq<(Metric, Seq<char>)> {
    Seq::new(results.len(), |i: int| (results[i].0, results[i].1@))
}

/// The slots of `count` requests of which none has finished.
pub open spec fn vacant_slots(count: nat) -> Seq<Option<Seq<char>>> {
    Seq::new(count, |i: int| None)
}

/// The slots after the request `index` has finished with `data`. A result
/// for a request that does not exist, or that has finished before, changes
/// nothing.
pub open spec fn filled(slots: Seq<Option<Seq<char>>>, index: int, data: Seq<char>) -> Seq<
    Option<Seq<char>>,
> {
    if 0 <= index < slots.len() && slots[index] is None {
        slots.update(index, Some(data))
    } else {
        slots
    }
}

/// Whether every request has finished.
pub open spec fn all_filled(slots: Seq<Option<Seq<char>>>) -> bool {
    forall|i: int| 0 <= i < slots.len() ==> (#[trigger] slots[i]) is Some
}

/// The results in the order of the requests.
pub open spec fn gathered(metrics: Seq<Metric>, slots: Seq<Option<Seq<char>>>) -> Seq<
    (Metric, Seq<char>),
>
    recommends
        slots.len() == metrics.len(),
        all_filled(slots),
{
    Seq::new(metrics.len(), |i: int| (metrics[i], slots[i]->0))
}

/// What the collector tells its caller to do next.
#[derive(Debug)]
pub enum FetchAction {
    /// Some requests are still running.
    Wait,
    /// Every request has finished: these are the results, in request order.
    Deliver(Vec<(Metric, String)>),
    /// A request has failed: give up with its error.
    Abort(CliError),
}

/// The slots in which the results of concurrent fetches are collected.
pub struct Collector {
    metrics: Vec<Metric>,
    slots: Vec<Option<String>>,
}

impl Collector {
    /// There is one slot for each request.
    #[verifier::type_invariant]
    spec fn one_slot_per_request(self) -> bool {
        self.slots@.len() == self.metrics@.len()
    }

    /// The requested metrics, in request order.
    pub closed spec fn metrics(&self) -> Seq<Metric> {
        self.metrics@
    }

    /// What has been stored for each request so far.
    pub closed spec fn slots(&self) -> Seq<Option<Seq<char>>> {
        Seq::new(
            self.slots@.len(),
            |i: int|
                match self.slots@[i] {
                    Some(data) => Some(data@),
                    None => None,
                },
        )
    }

    /// A collector for the requests of `metrics`, none of which has finished.
    pub fn new(metrics: Vec<Metric>) -> (collector: Self)
        ensures
            collector.metrics() == metrics@,
            collector.slots() == vacant_slots(metrics@.len()),
    {
        let mut slots: Vec<Option<String>> = Vec::new();
        let mut i: usize = 0;
        while i < metrics.len()
            invariant
                i <= metrics.len(),
                slots@.len() == i,
                forall|j: int| 0 <= j < i ==> (#[trigger] slots@[j]) is None,
            decreases metrics.len() - i,
        {
            slots.push(None);
            i = i + 1;
        }
        let collector = Collector { metrics, slots };
        assert(collector.slots() =~= vacant_slots(metrics@.len()));
        collector
    }

    /// Stores the result of the request `index`.
    ///
    /// Returns whether it was stored: a result for a request that does not
    /// exist, or that has finished before, is dropped.
    pub fn accept(&mut self, index: usize, data: String) -> (stored: bool)
        ensures
            final(self).metrics() == old(self).metrics(),
            final(self).slots() == filled(old(self).slots(), index as int, data@),
            final(self).slots().len() == final(self).metrics().len(),
            stored == (index < old(self).slots().len() && old(self).slots()[index as int] is None),
    {
        proof {
            use_type_invariant(&*self);
        }
        if index < self.slots.len() && self.slots[index].is_none() {
            let mut taken = Collector { metrics: Vec::new(), slots: Vec::new() };
            std::mem::swap(self, &mut taken);
            let Collector { metrics, mut slots } = taken;
            slots.set(index, Some(data));
            *self = Collector { metrics, slots };
            assert(self.slots() =~= filled(old(self).slots(), index as int, data@));
            true
        } else {
            assert(self.slots() =~= filled(old(self).slots(), index as int, data@));
            false
        }
    }

    /// Whether every request has finished.
    pub fn is_complete(&self) -> (complete: bool)
        ensures
            complete == all_filled(self.slots()),
    {
        let mut i: usize = 0;
        while i < self.slots.len()
            invariant
                i <= self.slots.len(),
                forall|j: int| 0 <= j < i ==> (#[trigger] self.slots()[j]) is Some,
            decreases self.slots.len() - i,
        {
            if self.slots[i].is_none() {
                assert(self.slots()[i as int] is None);
                return false;
            }
            assert(self.slots()[i as int] is Some);
            i = i + 1;
        }
        true
    }

    /// The results in request order, once every request has finished: one
    /// per request, each the requested metric with the data stored for it.
    pub fn results(&self) -> (results: Option<Vec<(Metric, String)>>)
        ensures
            results is Some <==> all_filled(self.slots()),
            results matches Some(results) ==> {
                &&& results@.len() == self.metrics().len()
                &&& forall|i: int|
                    0 <= i < results@.len() ==> (#[trigger] results@[i]).0 == self.metrics()[i]
                        && Some(results@[i].1@) == self.slots()[i]
                &&& results_view(results@) == gathered(self.metrics(), self.slots())
            },
    {
        proof {
            use_type_invariant(self);
        }
        let mut results: Vec<(Metric, String)> = Vec::new();
        let mut i: usize = 0;
        while i < self.slots.len()
            invariant
                self.slots@.len() == self.metrics@.len(),
                i <= self.slots.len(),
                results@.len() == i,
                forall|j: int| 0 <= j < i ==> (#[trigger] self.slots()[j]) is Some,
                forall|j: int|
                    0 <= j < i ==> (#[trigger] results@[j]).0 == self.metrics()[j] && Some(
                        results@[j].1@,
                    ) == self.slots()[j],
            decreases self.slots.len() - i,
        {
            match &self.slots[i] {
                Some(data) => {
                    assert(self.slots()[i as int] == Some(data@));
                    results.push((self.metrics[i], data.clone()));
                },
                None => {
                    assert(self.slots()[i as int] is None);
                    return None;
                },
            }
            i = i + 1;
        }
        assert(results_view(results@) =~= gathered(self.metrics(), self.slots()));
        Some(results)
    }

    /// Takes in the outcome of the request `index` and says what to do next.
    ///
    /// A failure aborts the whole query with its error. A result is stored
    /// in the slot of its request; once no slot is empty, the results are
    /// delivered in request order: one per request, each the requested
    /// metric with the data stored for it.
    pub fn step(&mut self, index: usize, outcome: Result<String, CliError>) -> (action: FetchAction)
        ensures
            final(self).metrics() == old(self).metrics(),
            match outcome {
                Ok(data) => {
                    &&& final(self).slots() == filled(old(self).slots(), index as int, data@)
                    &&& action is Deliver <==> all_filled(final(self).slots())
                    &&& !(action is Deliver) ==> action is Wait
                    &&& action matches FetchAction::Deliver(results) ==> {
                        &&& results@.len() == final(self).metrics().len()
                        &&& forall|i: int|
                            0 <= i < results@.len() ==> {
                                &&& (#[trigger] results@[i]).0 == final(self).metrics()[i]
                                &&& Some(results@[i].1@) == final(self).slots()[i]
                            }
                        &&& results_view(results@) == gathered(
                            final(self).metrics(),
                            final(self).slots(),
                        )
                    }
                },
                Err(error) => {
                    &&& final(self).slots() == old(self).slots()
                    &&& action == FetchAction::Abort(error)
                },
            },
    {
        match outcome {
            Ok(data) => {
                self.accept(index, data);
                match self.results() {
                    Some(results) => FetchAction::Deliver(results),
                    None => FetchAction::Wait,
                }
            },
            Err(error) => FetchAction::Abort(error),
        }
    }
}

/// The slots after the requests have finished in the order of `arrivals`,
/// each given as the index of a request and its data.
pub open spec fn after_arrivals(
    slots: Seq<Option<Seq<char>>>,
    arrivals: Seq<(int, Seq<char>)>,
) -> Seq<Option<Seq<char>>>
    decreases arrivals.len(),
{
    if arrivals.len() == 0 {
        slots
    } else {
        filled(after_arrivals(slots, arrivals.drop_last()), arrivals.last().0, arrivals.last().1)
    }
}

/// Whether `order` lists each of `count` requests exactly once.
pub open spec fn is_completion_order(order: Seq<int>, count: nat) -> bool {
    &&& order.len() == count
    &&& order.no_duplicates()
    &&& forall|k: int| 0 <= k < order.len() ==> 0 <= #[trigger] order[k] < count
}

/// The arrivals when the requests finish in the order `order` and the
/// request `i` brings `data[i]`.
pub open spec fn arrivals_in(order: Seq<int>, data: Seq<Seq<char>>) -> Seq<(int, Seq<char>)> {
    Seq::new(order.len(), |k: int| (order[k], data[order[k]]))
}

/// An order that lists each of `count` requests once lists every one of them.
proof fn lemma_order_is_onto(order: Seq<int>, count: nat)
    requires
        is_completion_order(order, count),
    ensures
        forall|i: int| 0 <= i < count ==> order.contains(i),
{
    let range = set_int_range(0, count as int);
    lemma_int_range(0, count as int);
    order.unique_seq_to_set();
    assert(order.to_set().subset_of(range)) by {
        assert forall|i: int| order.to_set().contains(i) implies range.contains(i) by {
            let k = choose|k: int| 0 <= k < order.len() && #[trigger] order[k] == i;
            assert(0 <= order[k] < count);
        }
    }
    lemma_set_subset_finite(range, order.to_set());
    lemma_subset_equality(order.to_set(), range);
    assert forall|i: int| 0 <= i < count implies order.contains(i) by {
        assert(range.contains(i));
        assert(order.to_set().contains(i));
    }
}

/// After the first `done` requests of `order` have finished, exactly their
/// slots are filled, each with the data of its own request.
proof fn lemma_partial_arrivals(order: Seq<int>, data: Seq<Seq<char>>, done: nat)
    requires
        is_completion_order(order, data.len()),
        done <= order.len(),
    ensures
        after_arrivals(vacant_slots(data.len()), arrivals_in(order, data).take(done as int)).len()
            == data.len(),
        forall|i: int|
            0 <= i < data.len() ==> #[trigger] after_arrivals(
                vacant_slots(data.len()),
                arrivals_in(order, data).take(done as int),
            )[i] == if order.take(done as int).contains(i) {
                Some(data[i])
            } else {
                None
            },
    decreases done,
{
    let arrivals = arrivals_in(order, data).take(done as int);
    if done > 0 {
        let before = arrivals_in(order, data).take(done - 1);
        let earlier = order.take(done - 1);
        let current = order.take(done as int);
        lemma_partial_arrivals(order, data, (done - 1) as nat);
        assert(arrivals.drop_last() =~= before);
        let index = order[done - 1];
        assert(arrivals.last() == (index, data[index]));
        let slots = after_arrivals(vacant_slots(data.len()), before);
        assert(!earlier.contains(index)) by {
            if earlier.contains(index) {
                let k = choose|k: int| 0 <= k < earlier.len() && #[trigger] earlier[k] == index;
                assert(order[k] == order[done - 1]);
            }
        }
        assert(slots[index] is None);
        assert forall|i: int| 0 <= i < data.len() implies #[trigger] after_arrivals(
            vacant_slots(data.len()),
            arrivals,
        )[i] == if current.contains(i) {
            Some(data[i])
        } else {
            None
        } by {
            if i == index {
                assert(current[done - 1] == index);
            } else if current.contains(i) {
                let k = choose|k: int| 0 <= k < current.len() && #[trigger] current[k] == i;
                assert(earlier[k] == i);
            } else if earlier.contains(i) {
                let k = choose|k: int| 0 <= k < earlier.len() && #[trigger] earlier[k] == i;
                assert(current[k] == i);
            }
        }
    }
}

/// The results come out in the order of the requests, whatever the order in
/// which the requests finish: when each request finishes once, every slot is
/// filled, and the result at each position is the metric requested there
/// with the data that its own fetch brought.
pub proof fn lemma_results_keep_request_order(
    metrics: Seq<Metric>,
    data: Seq<Seq<char>>,
    order: Seq<int>,
)
    requires
        data.len() == metrics.len(),
        is_completion_order(order, metrics.len()),
    ensures
        all_filled(after_arrivals(vacant_slots(metrics.len()), arrivals_in(order, data))),
        gathered(metrics, after_arrivals(vacant_slots(metrics.len()), arrivals_in(order, data)))
            == Seq::new(metrics.len(), |i: int| (metrics[i], data[i])),
        gathered(
            metrics,
            after_arrivals(vacant_slots(metrics.len()), arrivals_in(order, data)),
        ).len() == metrics.len(),
{
    let arrivals = arrivals_in(order, data);
    let slots = after_arrivals(vacant_slots(metrics.len()), arrivals);
    lemma_partial_arrivals(order, data, order.len());
    lemma_order_is_onto(order, metrics.len());
    assert(arrivals.take(order.len() as int) =~= arrivals);
    assert(order.take(order.len() as int) =~= order);
    assert(gathered(metrics, slots) =~= Seq::new(metrics.len(), |i: int| (metrics[i], data[i])));
}

} // verus!
