//! Which subscriptions a batch of deliveries costs their record.
//!
//! A subscription is removed if and only if a delivery to its endpoint failed
//! for good. Failures that may pass, and deliveries that succeeded, leave the
//! store as it is.

use vstd::prelude::*;

use crate::outcome::DeliveryOutcome;
use crate::store::{SubscriptionStore, Table};

verus! {

/// What became of the message for one subscriber.
#[derive(Debug)]
pub struct Delivery {
    /// The subscriber's endpoint.
    pub endpoint: String,
    /// How the attempt ended.
    pub outcome: DeliveryOutcome,
}

/// A delivery as plain values.
pub ghost struct DeliveryView {
    pub endpoint: Seq<char>,
    pub outcome: DeliveryOutcome,
}

impl View for Delivery {
    type V = DeliveryView;

    open spec fn view(&self) -> DeliveryView {
        DeliveryView { endpoint: self.endpoint@, outcome: self.outcome }
    }
}

/// The deliveries of a list as plain values.
pub open spec fn delivery_views(deliveries: Seq<Delivery>) -> Seq<DeliveryView> {
    deliveries.map_values(|d: Delivery| d@)
}

/// The texts of a list of strings.
pub open spec fn texts(strings: Seq<String>) -> Seq<Seq<char>> {
    strings.map_values(|s: String| s@)
}

/// The delivery failed for good.
pub open spec fn is_dead(delivery: DeliveryView) -> bool {
    delivery.outcome is PermanentFailure
}

/// The endpoints to remove: those of the deliveries that failed for good, in
/// the order of the deliveries.
pub open spec fn prune_list(deliveries: Seq<DeliveryView>) -> Seq<Seq<char>> {
    deliveries.filter(|d: DeliveryView| is_dead(d)).map_values(|d: DeliveryView| d.endpoint)
}

/// Some delivery to the endpoint failed for good.
pub open spec fn dead_endpoint(deliveries: Seq<DeliveryView>, endpoint: Seq<char>) -> bool {
    exists|i: int|
        0 <= i < deliveries.len() && (#[trigger] deliveries[i]).endpoint == endpoint && is_dead(
            deliveries[i],
        )
}

/// The table after the batch: without the endpoints to remove.
pub open spec fn pruned(table: Table, deliveries: Seq<DeliveryView>) -> Table {
    table.remove_keys(prune_list(deliveries).to_set())
}

/// No two deliveries of the list went to the same endpoint.
pub open spec fn distinct_deliveries(deliveries: Seq<DeliveryView>) -> bool {
    forall|i: int, j: int|
        0 <= i < j < deliveries.len() ==> deliveries[i].endpoint != deliveries[j].endpoint
}

proof fn lemma_prune_push(deliveries: Seq<DeliveryView>, last: DeliveryView)
    ensures
        prune_list(deliveries.push(last)) == (if is_dead(last) {
            prune_list(deliveries).push(last.endpoint)
        } else {
            prune_list(deliveries)
        }),
{
    reveal(Seq::filter);
    assert(deliveries.push(last).drop_last() =~= deliveries);
}

proof fn lemma_prune_member(deliveries: Seq<DeliveryView>, e: Seq<char>)
    ensures
        prune_list(deliveries).contains(e) <==> dead_endpoint(deliveries, e),
    decreases deliveries.len(),
{
    if deliveries.len() == 0 {
        reveal(Seq::filter);
    } else {
        let front = deliveries.drop_last();
        let last = deliveries.last();
        assert(front.push(last) =~= deliveries);
        lemma_prune_member(front, e);
        lemma_prune_push(front, last);
        let list = prune_list(deliveries);
        let short = prune_list(front);
        if dead_endpoint(deliveries, e) {
            let i = choose|i: int|
                0 <= i < deliveries.len() && (#[trigger] deliveries[i]).endpoint == e && is_dead(
                    deliveries[i],
                );
            if i == front.len() {
                assert(list[short.len() as int] == e);
            } else {
                let k = choose|k: int| 0 <= k < short.len() && short[k] == e;
                assert(list[k] == e);
            }
        }
    }
}

proof fn lemma_prune_distinct(deliveries: Seq<DeliveryView>)
    requires
        distinct_deliveries(deliveries),
    ensures
        prune_list(deliveries).no_duplicates(),
    decreases deliveries.len(),
{
    if deliveries.len() == 0 {
        reveal(Seq::filter);
    } else {
        let front = deliveries.drop_last();
        let last = deliveries.last();
        assert(front.push(last) =~= deliveries);
        assert(distinct_deliveries(front));
        lemma_prune_distinct(front);
        lemma_prune_push(front, last);
        lemma_prune_member(front, last.endpoint);
    }
}

/// Selects the endpoints to remove.
pub fn prune_set(deliveries: &Vec<Delivery>) -> (doomed: Vec<String>)
    ensures
        texts(doomed@) == prune_list(delivery_views(deliveries@)),
{
    let ghost all = delivery_views(deliveries@);
    let n: usize = deliveries.len();
    let mut doomed: Vec<String> = Vec::new();
    let mut i: usize = 0;
    proof {
        reveal(Seq::filter);
    }
    while i < n
        invariant
            i <= n,
            n == deliveries@.len(),
            all == delivery_views(deliveries@),
            texts(doomed@) == prune_list(all.take(i as int)),
        decreases n - i,
    {
        proof {
            lemma_prune_push(all.take(i as int), all[i as int]);
            assert(all.take(i as int).push(all[i as int]) =~= all.take(i + 1));
        }
        if deliveries[i].outcome.is_permanent() {
            doomed.push(deliveries[i].endpoint.clone());
        }
        i += 1;
    }
    assert(all.take(n as int) =~= all);
    doomed
}

/// Removes from the store every subscription that a delivery of the batch
/// found dead, and tells how many removals it issued. Nothing else in the
/// store changes.
pub fn prune(store: &mut SubscriptionStore, deliveries: &Vec<Delivery>) -> (issued: usize)
    ensures
        final(store)@ == pruned(old(store)@, delivery_views(deliveries@)),
        issued == prune_list(delivery_views(deliveries@)).len(),
{
    let doomed = prune_set(deliveries);
    let ghost list = texts(doomed@);
    let ghost before = store@;
    let n: usize = doomed.len();
    let mut k: usize = 0;
    while k < n
        invariant
            k <= n,
            n == doomed@.len(),
            list == texts(doomed@),
            store@ == before.remove_keys(list.take(k as int).to_set()),
        decreases n - k,
    {
        let ghost so_far = list.take(k as int).to_set();
        store.delete(doomed[k].as_str());
        proof {
            let next = list.take(k + 1).to_set();
            assert forall|e: Seq<char>| next.contains(e) == (so_far.contains(e) || e
                == list[k as int]) by {
                if e == list[k as int] {
                    assert(list.take(k + 1)[k as int] == e);
                }
            }
        }
        k += 1;
    }
    assert(list.take(n as int) =~= list);
    n
}

/// After the batch a record is in the table exactly if it was there before
/// and no delivery to its endpoint failed for good; and it is the record that
/// was there.
pub proof fn lemma_removed_iff_dead(
    table: Table,
    deliveries: Seq<DeliveryView>,
    endpoint: Seq<char>,
)
    ensures
        pruned(table, deliveries).contains_key(endpoint) <==> table.contains_key(endpoint)
            && !dead_endpoint(deliveries, endpoint),
        pruned(table, deliveries).contains_key(endpoint) ==> pruned(table, deliveries)[endpoint]
            == table[endpoint],
{
    lemma_prune_member(deliveries, endpoint);
}

/// A delivery that did not fail for good costs the subscriber nothing: where
/// every subscriber is in the batch once, the record of such a subscriber is
/// in the table after the batch as it was before.
pub proof fn lemma_transient_keeps_record(table: Table, deliveries: Seq<DeliveryView>, i: int)
    requires
        distinct_deliveries(deliveries),
        0 <= i < deliveries.len(),
        !is_dead(deliveries[i]),
        table.contains_key(deliveries[i].endpoint),
    ensures
        pruned(table, deliveries).contains_key(deliveries[i].endpoint),
        pruned(table, deliveries)[deliveries[i].endpoint] == table[deliveries[i].endpoint],
{
    lemma_removed_iff_dead(table, deliveries, deliveries[i].endpoint);
}

/// Where every subscriber on record is in the batch once, the batch issues
/// one removal for each delivery that failed for good, and the table holds
/// that many records fewer after it.
pub proof fn lemma_prune_count(table: Table, deliveries: Seq<DeliveryView>)
    requires
        table.dom().finite(),
        distinct_deliveries(deliveries),
        forall|i: int| 0 <= i < deliveries.len() ==> table.contains_key(
            (#[trigger] deliveries[i]).endpoint,
        ),
    ensures
        prune_list(deliveries).len() == deliveries.filter(|d: DeliveryView| is_dead(d)).len(),
        pruned(table, deliveries).dom().finite(),
        pruned(table, deliveries).len() == table.len() - prune_list(deliveries).len(),
{
    let list = prune_list(deliveries);
    lemma_prune_distinct(deliveries);
    list.unique_seq_to_set();
    assert forall|e: Seq<char>| #[trigger] list.to_set().contains(e) implies table.contains_key(
        e,
    ) by {
        lemma_prune_member(deliveries, e);
    }
    table.lemma_remove_keys_len(list.to_set());
    assert(pruned(table, deliveries).dom() =~= table.dom().difference(list.to_set()));
}

} // verus!
