//! Delivering one message to many subscribers.
//!
//! Every subscriber has an attempt of its own: sign, encrypt, assemble,
//! send. What goes wrong for one of them is that subscriber's outcome and
//! nothing more: a faulty endpoint or faulty keys are found before anything
//! is sent, and are never laid at another subscriber's door. Only when every
//! attempt has ended are the dead subscriptions removed.

use vstd::prelude::*;
use vstd::utf8::encode_utf8;

use crate::assemble::{assemble, assembled, PushRequest, RequestView};
use crate::encrypt::{encrypt, keys_well_formed, EncryptedPayload, PayloadView, MAX_PLAINTEXT};
use crate::outcome::{result_outcome, DeliveryOutcome, PushError, TransportReply};
use crate::prune::{delivery_views, prune, pruned, Delivery, DeliveryView};
use crate::store::SubscriptionStore;
use crate::subscription::{DescriptorView, SubscriptionDescriptor};
use crate::vapid::{has_origin, AssertionView, SigningKeyPair, VapidAssertion};

verus! {

/// A way to post a request to a push service. What it reports is taken as it
/// comes: nothing is assumed of a transport.
pub trait PushTransport {
    /// Posts one request and reports what came back.
    fn send(&mut self, request: &PushRequest) -> TransportReply;
}

/// The text of a message, if there is one.
pub open spec fn message_text(msg: Option<String>) -> Option<Seq<char>> {
    match msg {
        Some(text) => Some(text@),
        None => None,
    }
}

/// There is a message, and it is not empty.
pub open spec fn with_content(msg: Option<Seq<char>>) -> bool {
    msg is Some && encode_utf8(msg->Some_0).len() > 0
}

/// There is a message, and it is longer than a message may be.
pub open spec fn too_long(msg: Option<Seq<char>>) -> bool {
    msg is Some && encode_utf8(msg->Some_0).len() > MAX_PLAINTEXT
}

/// What holds of the preparation of one subscriber's request, whatever the
/// signer and the encryptor made of it.
///
/// An invalid URI is reported exactly for an endpoint that names no push
/// service. A request is one for the subscriber, and where there is a
/// message, the subscriber's keys are well formed and the message is not too
/// long. With malformed keys a message is never prepared, and neither is one
/// that is too long; the error is then the signer's, or says which of the two
/// it was. Without a message, and with an empty one for well-formed keys,
/// only the signer can fail.
pub open spec fn prepared(
    r: Result<PushRequest, PushError>,
    public_key: Seq<u8>,
    subscriber: DescriptorView,
    msg: Option<Seq<char>>,
) -> bool {
    &&& (r is Err && r->Err_0 == PushError::InvalidUri) <==> !has_origin(subscriber.endpoint)
    &&& r is Ok ==> prepared_for(r->Ok_0@, subscriber.endpoint, public_key, with_content(msg))
    &&& r is Ok && msg is Some ==> keys_well_formed(subscriber) && !too_long(msg)
    &&& has_origin(subscriber.endpoint) && msg is Some && !keys_well_formed(subscriber) ==> r is Err
        && (r->Err_0 == PushError::InvalidClaims || r->Err_0 == PushError::InvalidCryptoKeys)
    &&& has_origin(subscriber.endpoint) && keys_well_formed(subscriber) && too_long(msg) ==> r is Err
        && (r->Err_0 == PushError::InvalidClaims || r->Err_0 == PushError::PayloadTooLarge)
    &&& has_origin(subscriber.endpoint) && !with_content(msg) && (msg is None || keys_well_formed(
        subscriber,
    )) && r is Err ==> r->Err_0 == PushError::InvalidClaims
}

/// What holds of the outcome of one subscriber's attempt, whatever the
/// signer, the encryptor and the transport made of it.
///
/// The outcome is the permanent failure of an invalid URI exactly for an
/// endpoint that names no push service. A message is delivered only to
/// well-formed keys and only if it is not too long. With malformed keys a
/// message ends in the permanent failure of the keys, unless the signer
/// failed first; one that is too long ends in a transient failure.
pub open spec fn attempt_fits(
    outcome: DeliveryOutcome,
    subscriber: DescriptorView,
    msg: Option<Seq<char>>,
) -> bool {
    &&& outcome == DeliveryOutcome::PermanentFailure(PushError::InvalidUri) <==> !has_origin(
        subscriber.endpoint,
    )
    &&& outcome is Delivered && msg is Some ==> keys_well_formed(subscriber) && !too_long(msg)
    &&& has_origin(subscriber.endpoint) && msg is Some && !keys_well_formed(subscriber) ==> outcome
        == DeliveryOutcome::TransientFailure(PushError::InvalidClaims) || outcome
        == DeliveryOutcome::PermanentFailure(PushError::InvalidCryptoKeys)
    &&& has_origin(subscriber.endpoint) && keys_well_formed(subscriber) && too_long(msg) ==> outcome
        == DeliveryOutcome::TransientFailure(PushError::InvalidClaims) || outcome
        == DeliveryOutcome::TransientFailure(PushError::PayloadTooLarge)
}

/// The request is one for the endpoint, carries an assertion under the
/// public key, and has a payload exactly if there is a message to carry.
pub open spec fn prepared_for(
    request: RequestView,
    endpoint: Seq<char>,
    public_key: Seq<u8>,
    with_message: bool,
) -> bool {
    exists|token: Seq<char>, payload: PayloadView|
        request == #[trigger] assembled(endpoint, AssertionView { token, public_key }, payload)
            && (payload is Aes128Gcm <==> with_message)
}

/// The endpoints of a list of subscribers.
pub open spec fn endpoints_of(subscribers: Seq<SubscriptionDescriptor>) -> Seq<Seq<char>> {
    subscribers.map_values(|d: SubscriptionDescriptor| d@.endpoint)
}

/// The report of a batch: for each subscriber that has a result, its
/// endpoint and the outcome that the result amounts to.
pub open spec fn report_of(
    endpoints: Seq<Seq<char>>,
    results: Seq<Result<(), PushError>>,
) -> Seq<DeliveryView> {
    Seq::new(
        if endpoints.len() <= results.len() {
            endpoints.len()
        } else {
            results.len()
        },
        |i: int| DeliveryView { endpoint: endpoints[i], outcome: result_outcome(results[i]) },
    )
}

/// Ends the preparation of one subscriber's request, given the assertion
/// signed for it and what the encryptor made of the message: the assembled
/// request, or the encryptor's error.
pub fn finish(
    descriptor: &SubscriptionDescriptor,
    assertion: &VapidAssertion,
    sealed: Result<EncryptedPayload, PushError>,
) -> (r: Result<PushRequest, PushError>)
    ensures
        match sealed {
            Ok(payload) => r is Ok && r->Ok_0@ == assembled(
                descriptor@.endpoint,
                assertion@,
                payload@,
            ),
            Err(error) => r is Err && r->Err_0 == error,
        },
{
    match sealed {
        Ok(payload) => Ok(assemble(descriptor, assertion, payload)),
        Err(error) => Err(error),
    }
}

/// Prepares the request for one subscriber: signs an assertion for the
/// endpoint's push service, encrypts the message for the subscriber, if there
/// is one, and assembles the two. An endpoint that names no push service is
/// refused before anything is signed, and malformed keys are refused before
/// anything is encrypted.
pub fn prepare(
    signer: &SigningKeyPair,
    descriptor: &SubscriptionDescriptor,
    msg: &Option<String>,
) -> (r: Result<PushRequest, PushError>)
    ensures
        prepared(r, signer.public_key(), descriptor@, message_text(*msg)),
{
    match signer.sign(descriptor.endpoint.as_str()) {
        Err(error) => Err(error),
        Ok(assertion) => {
            let sealed = match msg {
                Some(text) => encrypt(descriptor, Some(text.as_str().as_bytes())),
                None => encrypt(descriptor, None),
            };
            let r = finish(descriptor, &assertion, sealed);
            proof {
                if r is Ok {
                    assert(r->Ok_0@ == assembled(
                        descriptor@.endpoint,
                        AssertionView { token: assertion@.token, public_key: signer.public_key() },
                        sealed->Ok_0@,
                    ));
                }
            }
            r
        },
    }
}

/// Prepares the requests of a whole batch, one subscriber after the other.
/// Every subscriber of the list gets its preparation, whatever became of the
/// others.
pub fn prepare_all(
    signer: &SigningKeyPair,
    subscribers: &Vec<SubscriptionDescriptor>,
    msg: &Option<String>,
) -> (r: Vec<Result<PushRequest, PushError>>)
    ensures
        r@.len() == subscribers@.len(),
        forall|i: int|
            0 <= i < r@.len() ==> prepared(
                #[trigger] r@[i],
                signer.public_key(),
                subscribers@[i]@,
                message_text(*msg),
            ),
{
    let n: usize = subscribers.len();
    let mut all: Vec<Result<PushRequest, PushError>> = Vec::new();
    let mut i: usize = 0;
    while i < n
        invariant
            i <= n,
            n == subscribers@.len(),
            all@.len() == i,
            forall|j: int|
                0 <= j < i ==> prepared(
                    #[trigger] all@[j],
                    signer.public_key(),
                    subscribers@[j]@,
                    message_text(*msg),
                ),
        decreases n - i,
    {
        all.push(prepare(signer, &subscribers[i], msg));
        i += 1;
    }
    all
}

/// Runs one subscriber's attempt: prepares the request and posts it. The
/// result is the error of the preparation, where it failed, and else what the
/// transport's reply means. Nothing is posted for a subscriber whose request
/// could not be prepared.
pub fn notify<T: PushTransport>(
    signer: &SigningKeyPair,
    transport: &mut T,
    sub: &SubscriptionDescriptor,
    msg: &Option<String>,
) -> (r: Result<(), PushError>)
    ensures
        (r is Err && r->Err_0 == PushError::InvalidUri) <==> !has_origin(sub@.endpoint),
        r is Ok && msg is Some ==> keys_well_formed(sub@) && !too_long(message_text(*msg)),
        attempt_fits(result_outcome(r), sub@, message_text(*msg)),
{
    match prepare(signer, sub, msg) {
        Err(error) => Err(error),
        Ok(request) => transport.send(&request).into_result(),
    }
}

/// Writes the report of a batch of its subscribers and the results of their
/// attempts, one delivery for each subscriber that has a result.
pub fn conclude(
    subscribers: &Vec<SubscriptionDescriptor>,
    results: &Vec<Result<(), PushError>>,
) -> (report: Vec<Delivery>)
    ensures
        delivery_views(report@) == report_of(endpoints_of(subscribers@), results@),
{
    let n: usize = if subscribers.len() <= results.len() {
        subscribers.len()
    } else {
        results.len()
    };
    let mut report: Vec<Delivery> = Vec::new();
    let mut i: usize = 0;
    while i < n
        invariant
            i <= n,
            n <= subscribers@.len(),
            n <= results@.len(),
            report@.len() == i,
            forall|j: int|
                0 <= j < i ==> (#[trigger] report@[j])@ == (DeliveryView {
                    endpoint: subscribers@[j]@.endpoint,
                    outcome: result_outcome(results@[j]),
                }),
        decreases n - i,
    {
        let outcome = DeliveryOutcome::from_result(results[i]);
        report.push(Delivery { endpoint: subscribers[i].endpoint.clone(), outcome });
        i += 1;
    }
    report
}

/// Delivers one message to every subscriber of the list and removes from the
/// store the subscriptions that turned out to be dead. No subscription is
/// removed before the last attempt has ended. The report holds one delivery
/// for each subscriber, in the order of the list, with the outcome of that
/// subscriber's own attempt.
pub fn notify_all<T: PushTransport>(
    signer: &SigningKeyPair,
    transport: &mut T,
    store: &mut SubscriptionStore,
    subscribers: &Vec<SubscriptionDescriptor>,
    msg: &Option<String>,
) -> (report: Vec<Delivery>)
    ensures
        report@.len() == subscribers@.len(),
        forall|i: int|
            0 <= i < subscribers@.len() ==> (#[trigger] report@[i])@.endpoint
                == subscribers@[i]@.endpoint,
        forall|i: int|
            0 <= i < subscribers@.len() ==> attempt_fits(
                (#[trigger] report@[i])@.outcome,
                subscribers@[i]@,
                message_text(*msg),
            ),
        final(store)@ == pruned(old(store)@, delivery_views(report@)),
{
    let n: usize = subscribers.len();
    let mut results: Vec<Result<(), PushError>> = Vec::new();
    let mut i: usize = 0;
    while i < n
        invariant
            i <= n,
            n == subscribers@.len(),
            results@.len() == i,
            forall|j: int|
                0 <= j < i ==> attempt_fits(
                    result_outcome(#[trigger] results@[j]),
                    subscribers@[j]@,
                    message_text(*msg),
                ),
        decreases n - i,
    {
        let result = notify(signer, transport, &subscribers[i], msg);
        results.push(result);
        i += 1;
    }
    let report = conclude(subscribers, &results);
    let _ = prune(store, &report);
    proof {
        let views = delivery_views(report@);
        assert forall|i: int| 0 <= i < subscribers@.len() implies (#[trigger] report@[i])@
            == views[i] by {}
    }
    report
}

/// What becomes of one subscriber's attempt is that subscriber's outcome and
/// no other's: two batches whose results differ for one subscriber alone
/// report the same outcome for every other subscriber.
pub proof fn lemma_failure_is_contained(
    endpoints: Seq<Seq<char>>,
    results: Seq<Result<(), PushError>>,
    other: Seq<Result<(), PushError>>,
    k: int,
)
    requires
        results.len() == other.len(),
        forall|i: int| 0 <= i < results.len() && i != k ==> results[i] == other[i],
    ensures
        report_of(endpoints, results).len() == report_of(endpoints, other).len(),
        forall|i: int|
            0 <= i < report_of(endpoints, results).len() && i != k ==> report_of(
                endpoints,
                results,
            )[i] == report_of(endpoints, other)[i],
{
}

} // verus!
