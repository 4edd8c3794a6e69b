//! What the service does on request: register a browser, forget it, notify
//! everyone.
//!
//! Only a caller who is logged in changes the store. A request of anyone else
//! is answered without a word and without effect.

use vstd::prelude::*;

use crate::fanout::{attempt_fits, message_text, notify_all, PushTransport};
use crate::owner::{MaybeUser, User};
use crate::prune::{
    delivery_views, distinct_deliveries, lemma_prune_count, prune_list, pruned, Delivery,
};
use crate::store::{
    deleted, holds_at, lemma_lookup, record_views, upserted, SubscriptionStore, Table,
};
use crate::subscription::{subscription_json, DescriptorView, SubscriptionDescriptor};
use crate::vapid::SigningKeyPair;

verus! {

/// What a request asks of the store.
#[derive(Debug)]
pub enum StoreOrder {
    /// Nothing: the caller may not change the store.
    Nothing,
    /// Register the subscription for the user.
    Register(SubscriptionDescriptor, User),
    /// Remove the subscription of the endpoint.
    Remove(String),
}

/// An order as plain values.
pub ghost enum OrderView {
    Nothing,
    Register(DescriptorView, User),
    Remove(Seq<char>),
}

impl View for StoreOrder {
    type V = OrderView;

    open spec fn view(&self) -> OrderView {
        match *self {
            StoreOrder::Nothing => OrderView::Nothing,
            StoreOrder::Register(descriptor, owner) => OrderView::Register(descriptor@, owner),
            StoreOrder::Remove(endpoint) => OrderView::Remove(endpoint@),
        }
    }
}

/// The subscription that a JSON text holds.
pub open spec fn descriptor_json(json: Seq<char>) -> Option<DescriptorView> {
    match subscription_json(json) {
        Some((endpoint, p256dh, auth)) => Some(DescriptorView { endpoint, p256dh, auth }),
        None => None,
    }
}

/// The order that a request to subscribe amounts to; `None` where a user's
/// request holds no subscription.
pub open spec fn subscribe_order(caller: MaybeUser, json: Seq<char>) -> Option<OrderView> {
    match caller {
        MaybeUser::User(user) => match descriptor_json(json) {
            Some(descriptor) => Some(OrderView::Register(descriptor, user)),
            None => None,
        },
        _ => Some(OrderView::Nothing),
    }
}

/// The order that a request to unsubscribe amounts to; `None` where a user's
/// request holds no subscription.
pub open spec fn unsubscribe_order(caller: MaybeUser, json: Seq<char>) -> Option<OrderView> {
    match caller {
        MaybeUser::User(_) => match descriptor_json(json) {
            Some(descriptor) => Some(OrderView::Remove(descriptor.endpoint)),
            None => None,
        },
        _ => Some(OrderView::Nothing),
    }
}

/// The table after an order was carried out.
pub open spec fn carried_out(table: Table, order: OrderView) -> Table {
    match order {
        OrderView::Nothing => table,
        OrderView::Register(descriptor, owner) => upserted(table, descriptor, owner),
        OrderView::Remove(endpoint) => deleted(table, endpoint),
    }
}

/// Reads a request to subscribe. A user's request is an order to register
/// the subscription it holds under the user's name, and is refused where it
/// holds none. The request of anyone else is an order to do nothing, whatever
/// it holds.
pub fn subscribe_to_push(caller: MaybeUser, json: &str) -> (r: Option<StoreOrder>)
    ensures
        match subscribe_order(caller, json@) {
            Some(order) => r is Some && r->Some_0@ == order,
            None => r is None,
        },
{
    match caller {
        MaybeUser::User(user) => match SubscriptionDescriptor::from_json(json) {
            Some(descriptor) => Some(StoreOrder::Register(descriptor, user)),
            None => None,
        },
        _ => Some(StoreOrder::Nothing),
    }
}

/// Reads a request to unsubscribe. A user's request is an order to remove
/// the endpoint of the subscription it holds, and is refused where it holds
/// none. The request of anyone else is an order to do nothing, whatever it
/// holds.
pub fn unsubscribe_to_push(caller: MaybeUser, json: &str) -> (r: Option<StoreOrder>)
    ensures
        match unsubscribe_order(caller, json@) {
            Some(order) => r is Some && r->Some_0@ == order,
            None => r is None,
        },
{
    match caller {
        MaybeUser::User(_) => match SubscriptionDescriptor::from_json(json) {
            Some(descriptor) => Some(StoreOrder::Remove(descriptor.endpoint)),
            None => None,
        },
        _ => Some(StoreOrder::Nothing),
    }
}

/// Carries out an order on the store.
pub fn carry_out(store: &mut SubscriptionStore, order: StoreOrder)
    ensures
        final(store)@ == carried_out(old(store)@, order@),
{
    match order {
        StoreOrder::Nothing => {},
        StoreOrder::Register(descriptor, owner) => store.upsert(descriptor, owner),
        StoreOrder::Remove(endpoint) => store.delete(endpoint.as_str()),
    }
}

/// Delivers one message to every subscriber on record and removes the
/// subscriptions that turned out to be dead. The report holds one delivery
/// for each record, with the outcome of the attempt made with that record's
/// keys, and the store holds one record fewer for each delivery that failed
/// for good.
pub fn notify_everyone<T: PushTransport>(
    signer: &SigningKeyPair,
    transport: &mut T,
    store: &mut SubscriptionStore,
    msg: &Option<String>,
) -> (report: Vec<Delivery>)
    ensures
        old(store)@.dom().finite(),
        report@.len() == old(store)@.len(),
        distinct_deliveries(delivery_views(report@)),
        forall|i: int|
            0 <= i < report@.len() ==> old(store)@.contains_key((#[trigger] report@[i])@.endpoint),
        forall|i: int|
            0 <= i < report@.len() ==> attempt_fits(
                (#[trigger] report@[i])@.outcome,
                old(store)@[report@[i]@.endpoint].descriptor,
                message_text(*msg),
            ),
        final(store)@ == pruned(old(store)@, delivery_views(report@)),
        final(store)@.len() == old(store)@.len() - prune_list(delivery_views(report@)).len(),
{
    let count = store.len();
    let records = store.list_all();
    let ghost rows = record_views(records@);
    let n: usize = records.len();
    let mut subscribers: Vec<SubscriptionDescriptor> = Vec::new();
    let mut i: usize = 0;
    while i < n
        invariant
            i <= n,
            n == records@.len(),
            subscribers@.len() == i,
            forall|j: int|
                0 <= j < i ==> (#[trigger] subscribers@[j])@ == records@[j]@.descriptor,
        decreases n - i,
    {
        subscribers.push(records[i].descriptor.clone());
        i += 1;
    }
    let ghost before = store@;
    let report = notify_all(signer, transport, store, &subscribers, msg);
    proof {
        let views = delivery_views(report@);
        assert forall|j: int| 0 <= j < views.len() implies (#[trigger] views[j]).endpoint
            == rows[j].descriptor.endpoint by {}
        assert(distinct_deliveries(views));
        assert forall|j: int| 0 <= j < report@.len() implies before.contains_key(
            (#[trigger] report@[j])@.endpoint,
        ) && before[report@[j]@.endpoint].descriptor == subscribers@[j]@ by {
            assert(report@[j]@ == views[j]);
            lemma_lookup(rows, j);
        }
        lemma_prune_count(before, views);
    }
    report
}

/// The text of the demonstration.
pub open spec fn demo_text() -> Seq<char> {
    "Demo av notifikation"@
}

/// Sends the demonstration message to every subscriber on record, and
/// removes the subscriptions that turned out to be dead. The report holds one
/// delivery for each record, with the outcome of the attempt made with that
/// record's keys.
pub fn demo_push<T: PushTransport>(
    signer: &SigningKeyPair,
    transport: &mut T,
    store: &mut SubscriptionStore,
) -> (report: Vec<Delivery>)
    ensures
        report@.len() == old(store)@.len(),
        distinct_deliveries(delivery_views(report@)),
        forall|i: int|
            0 <= i < report@.len() ==> old(store)@.contains_key((#[trigger] report@[i])@.endpoint),
        forall|i: int|
            0 <= i < report@.len() ==> attempt_fits(
                (#[trigger] report@[i])@.outcome,
                old(store)@[report@[i]@.endpoint].descriptor,
                Some(demo_text()),
            ),
        final(store)@ == pruned(old(store)@, delivery_views(report@)),
        final(store)@.len() == old(store)@.len() - prune_list(delivery_views(report@)).len(),
{
    let msg = Some("Demo av notifikation".to_owned());
    notify_everyone(signer, transport, store, &msg)
}

} // verus!
