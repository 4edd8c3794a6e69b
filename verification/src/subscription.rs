//! One browser's push registration.

use vstd::prelude::*;

use crate::owner::User;

verus! {

/// What a browser hands over when it subscribes: where to send messages for
/// it, and the key material to encrypt them with. The endpoint is its only
/// stable identity.
#[derive(Debug)]
pub struct SubscriptionDescriptor {
    /// The URL at the browser's push service.
    pub endpoint: String,
    /// The browser's public key, in base64url.
    pub p256dh: String,
    /// The browser's authentication secret, in base64url.
    pub auth: String,
}

/// A descriptor as plain text.
pub ghost struct DescriptorView {
    pub endpoint: Seq<char>,
    pub p256dh: Seq<char>,
    pub auth: Seq<char>,
}

impl View for SubscriptionDescriptor {
    type V = DescriptorView;

    open spec fn view(&self) -> DescriptorView {
        DescriptorView { endpoint: self.endpoint@, p256dh: self.p256dh@, auth: self.auth@ }
    }
}

/// What a JSON text holds as a browser's subscription: the endpoint, the
/// public key and the authentication secret; `None` where the text is no such
/// JSON.
pub uninterp spec fn subscription_json(json: Seq<char>) -> Option<
    (Seq<char>, Seq<char>, Seq<char>),
>;

/// Calls `from_str` of the crate serde_json for a `SubscriptionInfo` of the
/// crate web-push, and hands out the endpoint and the two keys that it read.
/// The contract gives the outcome a name.
#[verifier::external_body]
fn read_subscription(json: &str) -> (r: Option<(String, String, String)>)
    ensures
        r.deep_view() == subscription_json(json@),
{
    serde_json::from_str::<web_push::SubscriptionInfo>(json).ok().map(
        |info| (info.endpoint, info.keys.p256dh, info.keys.auth),
    )
}

impl SubscriptionDescriptor {
    /// Reads the subscription that a browser sends, `None` where the text is
    /// not the JSON of one.
    pub fn from_json(json: &str) -> (r: Option<SubscriptionDescriptor>)
        ensures
            match subscription_json(json@) {
                Some((endpoint, p256dh, auth)) => r is Some && r->Some_0@ == (DescriptorView {
                    endpoint,
                    p256dh,
                    auth,
                }),
                None => r is None,
            },
    {
        match read_subscription(json) {
            Some((endpoint, p256dh, auth)) => Some(SubscriptionDescriptor { endpoint, p256dh, auth }),
            None => None,
        }
    }

    /// A descriptor of the three texts.
    pub fn new(endpoint: &str, p256dh: &str, auth: &str) -> (r: SubscriptionDescriptor)
        ensures
            r@.endpoint == endpoint@,
            r@.p256dh == p256dh@,
            r@.auth == auth@,
    {
        SubscriptionDescriptor {
            endpoint: endpoint.to_owned(),
            p256dh: p256dh.to_owned(),
            auth: auth.to_owned(),
        }
    }
}

impl Clone for SubscriptionDescriptor {
    fn clone(&self) -> (r: SubscriptionDescriptor)
        ensures
            r@ == self@,
    {
        SubscriptionDescriptor {
            endpoint: self.endpoint.clone(),
            p256dh: self.p256dh.clone(),
            auth: self.auth.clone(),
        }
    }
}

/// A subscription as the store keeps it: the descriptor and its owner.
#[derive(Debug)]
pub struct SubscriptionRecord {
    pub descriptor: SubscriptionDescriptor,
    pub owner: User,
}

/// A record as plain values.
pub ghost struct RecordView {
    pub descriptor: DescriptorView,
    pub owner: User,
}

impl View for SubscriptionRecord {
    type V = RecordView;

    open spec fn view(&self) -> RecordView {
        RecordView { descriptor: self.descriptor@, owner: self.owner }
    }
}

impl Clone for SubscriptionRecord {
    fn clone(&self) -> (r: SubscriptionRecord)
        ensures
            r@ == self@,
    {
        SubscriptionRecord { descriptor: self.descriptor.clone(), owner: self.owner }
    }
}

} // verus!
