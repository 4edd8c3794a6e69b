//! Putting one push request together.
//!
//! Nothing here signs, encrypts or sends: a request is composed of what the
//! signer and the encryptor produced for one subscriber, so that it can be
//! recorded, compared and sent by any transport.

use vstd::prelude::*;
use vstd::string::*;

use crate::codec::{base64url_text, decimal, decimal_text, encode_base64url};
use crate::encrypt::{EncryptedPayload, PayloadView};
use crate::subscription::SubscriptionDescriptor;
use crate::vapid::{AssertionView, VapidAssertion};

verus! {

/// How long, in seconds, a push service keeps a message for a browser that
/// is offline.
pub const TIME_TO_LIVE: usize = 2419200;

/// One header line of a request.
#[derive(Debug)]
pub struct Header {
    pub name: String,
    pub value: String,
}

/// A header line as plain text.
pub ghost struct HeaderView {
    pub name: Seq<char>,
    pub value: Seq<char>,
}

impl View for Header {
    type V = HeaderView;

    open spec fn view(&self) -> HeaderView {
        HeaderView { name: self.name@, value: self.value@ }
    }
}

/// A request that is ready to be posted to a push service.
#[derive(Debug)]
pub struct PushRequest {
    /// Where to post it: the subscriber's endpoint.
    pub url: String,
    /// The header lines, in the order in which they are sent.
    pub headers: Vec<Header>,
    /// The encrypted message, or nothing.
    pub body: Vec<u8>,
}

/// A request as plain values.
pub ghost struct RequestView {
    pub url: Seq<char>,
    pub headers: Seq<HeaderView>,
    pub body: Seq<u8>,
}

impl View for PushRequest {
    type V = RequestView;

    open spec fn view(&self) -> RequestView {
        RequestView {
            url: self.url@,
            headers: self.headers@.map_values(|h: Header| h@),
            body: self.body@,
        }
    }
}

/// The header line of a name and a value.
pub open spec fn header_line(name: Seq<char>, value: Seq<char>) -> HeaderView {
    HeaderView { name, value }
}

/// The value of the `Authorization` header: the scheme `vapid`, the signed
/// token, and the public key in base64url.
pub open spec fn authorization(assertion: AssertionView) -> Seq<char> {
    "vapid t="@ + assertion.token + ", k="@ + base64url_text(assertion.public_key)
}

/// The request for one subscriber. It goes to the subscriber's endpoint and
/// carries the assertion. A payload adds its encoding, its length and its
/// type, and is the body.
pub open spec fn assembled(
    endpoint: Seq<char>,
    assertion: AssertionView,
    payload: PayloadView,
) -> RequestView {
    match payload {
        PayloadView::Empty => RequestView {
            url: endpoint,
            headers: seq![
                header_line("TTL"@, decimal_text(TIME_TO_LIVE as nat)),
                header_line("Authorization"@, authorization(assertion)),
            ],
            body: Seq::empty(),
        },
        PayloadView::Aes128Gcm(bytes) => RequestView {
            url: endpoint,
            headers: seq![
                header_line("TTL"@, decimal_text(TIME_TO_LIVE as nat)),
                header_line("Content-Encoding"@, "aes128gcm"@),
                header_line("Content-Length"@, decimal_text(bytes.len())),
                header_line("Content-Type"@, "application/octet-stream"@),
                header_line("Authorization"@, authorization(assertion)),
            ],
            body: bytes,
        },
    }
}

fn line(name: &str, value: String) -> (r: Header)
    ensures
        r@ == header_line(name@, value@),
{
    Header { name: name.to_owned(), value }
}

fn authorization_value(assertion: &VapidAssertion) -> (r: String)
    ensures
        r@ == authorization(assertion@),
{
    let mut value = "vapid t=".to_owned();
    value.append(assertion.token.as_str());
    value.append(", k=");
    let key = encode_base64url(assertion.public_key.as_slice());
    value.append(key.as_str());
    value
}

/// Composes the request for one subscriber of the assertion signed for it
/// and the payload encrypted for it.
pub fn assemble(
    descriptor: &SubscriptionDescriptor,
    assertion: &VapidAssertion,
    payload: EncryptedPayload,
) -> (r: PushRequest)
    ensures
        r@ == assembled(descriptor@.endpoint, assertion@, payload@),
{
    let mut headers: Vec<Header> = Vec::new();
    headers.push(line("TTL", decimal(TIME_TO_LIVE)));
    let body = match payload {
        EncryptedPayload::Empty => Vec::new(),
        EncryptedPayload::Aes128Gcm(bytes) => {
            headers.push(line("Content-Encoding", "aes128gcm".to_owned()));
            headers.push(line("Content-Length", decimal(bytes.len())));
            headers.push(line("Content-Type", "application/octet-stream".to_owned()));
            bytes
        },
    };
    headers.push(line("Authorization", authorization_value(assertion)));
    let r = PushRequest { url: descriptor.endpoint.clone(), headers, body };
    assert(r@.headers =~= assembled(descriptor@.endpoint, assertion@, payload@).headers);
    r
}

/// A request names its subscriber: it goes to the subscriber's endpoint, so
/// the requests for two different endpoints differ, whatever they carry.
pub proof fn lemma_request_names_its_subscriber(
    first: Seq<char>,
    second: Seq<char>,
    first_assertion: AssertionView,
    second_assertion: AssertionView,
    first_payload: PayloadView,
    second_payload: PayloadView,
)
    requires
        first != second,
    ensures
        assembled(first, first_assertion, first_payload).url == first,
        assembled(first, first_assertion, first_payload) != assembled(
            second,
            second_assertion,
            second_payload,
        ),
{
}

} // verus!
