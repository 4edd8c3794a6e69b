//! Encryption of one message for one subscriber.
//!
//! The salt and the sender's ephemeral key are made inside the call and are
//! never taken from the caller, so no two payloads can share them. With the
//! encoding used here, both travel at the head of the ciphertext.

use vstd::prelude::*;

use crate::codec::{base64url_bytes, decode_base64url};
use crate::outcome::PushError;
use crate::subscription::{DescriptorView, SubscriptionDescriptor};
use crate::vapid::uri_origin;

verus! {

/// The longest message, in bytes, that is encrypted.
pub const MAX_PLAINTEXT: usize = 3052;

/// How many bytes a subscriber's public key has.
pub const PUBLIC_KEY_LENGTH: usize = 65;

/// How many bytes a subscriber's authentication secret has.
pub const AUTH_SECRET_LENGTH: usize = 16;

/// What goes into the body of a push request.
#[derive(Debug)]
pub enum EncryptedPayload {
    /// Nothing: the browser is woken up and fetches the details itself.
    Empty,
    /// A message, encrypted for one subscriber under the encoding aes128gcm.
    Aes128Gcm(Vec<u8>),
}

/// A payload as plain values.
pub ghost enum PayloadView {
    Empty,
    Aes128Gcm(Seq<u8>),
}

impl View for EncryptedPayload {
    type V = PayloadView;

    open spec fn view(&self) -> PayloadView {
        match *self {
            EncryptedPayload::Empty => PayloadView::Empty,
            EncryptedPayload::Aes128Gcm(bytes) => PayloadView::Aes128Gcm(bytes@),
        }
    }
}

/// The subscriber's two key texts are base64url, the public key of 65 bytes
/// and the authentication secret of 16.
pub open spec fn keys_well_formed(descriptor: DescriptorView) -> bool {
    match (base64url_bytes(descriptor.p256dh), base64url_bytes(descriptor.auth)) {
        (Some(key), Some(secret)) => key.len() == PUBLIC_KEY_LENGTH && secret.len()
            == AUTH_SECRET_LENGTH,
        _ => false,
    }
}

/// One of the two key texts is no base64url, or the authentication secret is
/// not of 16 bytes.
pub open spec fn keys_unreadable(descriptor: DescriptorView) -> bool {
    match (base64url_bytes(descriptor.p256dh), base64url_bytes(descriptor.auth)) {
        (Some(_), Some(secret)) => secret.len() != AUTH_SECRET_LENGTH,
        _ => true,
    }
}

/// Hands the subscriber and the message to a `WebPushMessageBuilder` of the
/// crate web-push, with `ContentEncoding::Aes128Gcm`, calls its `build`, and
/// hands out the encrypted content or the builder's error. The content holds
/// a fresh salt and key, so nothing is claimed of it. What is claimed is the
/// order of the builder's tests. It parses the endpoint first and reports an
/// invalid URI for nothing else. It then decodes the two key texts, with the
/// decoder that `base64url_bytes` names, and fails if one does not decode. It
/// then refuses a message of more than 3052 bytes. The encryptor, last, fails
/// on a secret that is not of 16 bytes.
#[verifier::external_body]
fn seal(descriptor: &SubscriptionDescriptor, plaintext: &[u8]) -> (r: Result<Vec<u8>, PushError>)
    ensures
        r is Ok ==> plaintext@.len() <= MAX_PLAINTEXT,
        r is Err && r->Err_0 == PushError::InvalidUri ==> uri_origin(descriptor@.endpoint) is None,
        keys_unreadable(descriptor@) ==> r is Err,
        uri_origin(descriptor@.endpoint) is Some && base64url_bytes(descriptor@.p256dh) is Some
            && base64url_bytes(descriptor@.auth) is Some && plaintext@.len() > MAX_PLAINTEXT ==> r
            is Err && r->Err_0 == PushError::PayloadTooLarge,
{
    let info = web_push::SubscriptionInfo::new(
        descriptor.endpoint.as_str(),
        descriptor.p256dh.as_str(),
        descriptor.auth.as_str(),
    );
    let mut builder = web_push::WebPushMessageBuilder::new(&info);
    builder.set_payload(web_push::ContentEncoding::Aes128Gcm, plaintext);
    match builder.build() {
        Ok(message) => Ok(message.payload.map(|payload| payload.content).unwrap_or_default()),
        Err(web_push::WebPushError::PayloadTooLarge) => Err(PushError::PayloadTooLarge),
        Err(web_push::WebPushError::InvalidUri) => Err(PushError::InvalidUri),
        Err(web_push::WebPushError::InvalidCryptoKeys) => Err(PushError::InvalidCryptoKeys),
        Err(_) => Err(PushError::Other),
    }
}

fn text_length(text: &str) -> (r: Option<usize>)
    ensures
        match base64url_bytes(text@) {
            Some(bytes) => r is Some && r->Some_0 == bytes.len(),
            None => r is None,
        },
{
    match decode_base64url(text) {
        Some(bytes) => Some(bytes.len()),
        None => None,
    }
}

/// Tells whether the subscriber's key material is well formed.
pub fn has_keys(descriptor: &SubscriptionDescriptor) -> (r: bool)
    ensures
        r == keys_well_formed(descriptor@),
{
    match (text_length(descriptor.p256dh.as_str()), text_length(descriptor.auth.as_str())) {
        (Some(key), Some(secret)) => key == PUBLIC_KEY_LENGTH && secret == AUTH_SECRET_LENGTH,
        _ => false,
    }
}

/// There is a message, and it is not empty.
pub open spec fn has_content(plaintext: Option<&[u8]>) -> bool {
    plaintext is Some && plaintext->Some_0@.len() > 0
}

/// Encrypts a message for one subscriber. Without a message there is nothing
/// to encrypt, and the payload is empty whatever the subscriber's keys are.
/// With a message, malformed key material is an error, whatever the message
/// is. An empty message for well-formed keys gives the empty payload. For any
/// other the encryptor decides, and a message that is too long is an error.
pub fn encrypt(descriptor: &SubscriptionDescriptor, plaintext: Option<&[u8]>) -> (r: Result<
    EncryptedPayload,
    PushError,
>)
    ensures
        plaintext is None ==> r is Ok && r->Ok_0@ == PayloadView::Empty,
        plaintext is Some && !keys_well_formed(descriptor@) ==> r is Err && r->Err_0
            == PushError::InvalidCryptoKeys,
        plaintext is Some && !has_content(plaintext) && keys_well_formed(descriptor@) ==> r is Ok
            && r->Ok_0@ == PayloadView::Empty,
        has_content(plaintext) && r is Ok ==> r->Ok_0@ is Aes128Gcm && plaintext->Some_0@.len()
            <= MAX_PLAINTEXT,
        has_content(plaintext) && keys_well_formed(descriptor@) && uri_origin(
            descriptor@.endpoint,
        ) is Some && plaintext->Some_0@.len() > MAX_PLAINTEXT ==> r is Err && r->Err_0
            == PushError::PayloadTooLarge,
        r is Err && r->Err_0 == PushError::InvalidUri ==> uri_origin(descriptor@.endpoint) is None,
{
    match plaintext {
        None => Ok(EncryptedPayload::Empty),
        Some(bytes) => if !has_keys(descriptor) {
            Err(PushError::InvalidCryptoKeys)
        } else if bytes.len() == 0 {
            Ok(EncryptedPayload::Empty)
        } else {
            match seal(descriptor, bytes) {
                Ok(content) => Ok(EncryptedPayload::Aes128Gcm(content)),
                Err(error) => Err(error),
            }
        },
    }
}

} // verus!
