//! Signed assertions that tell a push service which server is sending.
//!
//! The signing key is loaded once, from the secret that the process is
//! configured with, and is handed to whoever signs. An assertion is made for
//! one endpoint: it names the origin of that endpoint's push service and
//! expires, so it is made anew for every message.

use vstd::prelude::*;

use crate::codec::{base64url_bytes, decode_base64url};
use crate::outcome::PushError;
use crate::owner::EyeError;

verus! {

/// The signer of the crate web-push that holds a private key and no
/// subscriber yet. Nothing inside it is visible here.
#[verifier::external_type_specification]
#[verifier::external_body]
pub struct ExPartialVapidSignatureBuilder(web_push::PartialVapidSignatureBuilder);

/// How many bytes a private key has.
pub const PRIVATE_KEY_LENGTH: usize = 32;

/// Whether the signer accepts the bytes that a base64url text stands for as
/// a private key.
pub uninterp spec fn signing_key_accepted(encoded: Seq<char>) -> bool;

/// The text is the base64url form of as many bytes as a private key has.
pub open spec fn key_sized(encoded: Seq<char>) -> bool {
    match base64url_bytes(encoded) {
        Some(bytes) => bytes.len() == PRIVATE_KEY_LENGTH,
        None => false,
    }
}

/// What a URI parser makes of an endpoint: `None` where the text is no URI,
/// else the URI's scheme and its host, each where it has one.
pub uninterp spec fn uri_origin(endpoint: Seq<char>) -> Option<
    (Option<Seq<char>>, Option<Seq<char>>),
>;

/// The endpoint is a URI with a scheme and a host: it names a push service.
pub open spec fn has_origin(endpoint: Seq<char>) -> bool {
    match uri_origin(endpoint) {
        Some((Some(_), Some(_))) => true,
        _ => false,
    }
}

/// Calls `VapidSignatureBuilder::from_base64_no_sub` of the crate web-push
/// with its `URL_SAFE_NO_PAD`. The builder decodes the text with the decoder
/// that `base64url_bytes` names and takes for granted that the bytes are as
/// many as a private key has: the text must stand for that many. The contract
/// gives a name to whether the call succeeds: the same text is accepted every
/// time or never.
#[verifier::external_body]
fn load_key(encoded: &str) -> (key: Option<web_push::PartialVapidSignatureBuilder>)
    requires
        key_sized(encoded@),
    ensures
        key is Some <==> signing_key_accepted(encoded@),
{
    web_push::VapidSignatureBuilder::from_base64_no_sub(encoded, web_push::URL_SAFE_NO_PAD).ok()
}

/// Calls `PartialVapidSignatureBuilder::get_public_key` of the crate
/// web-push. Nothing is claimed of the bytes.
#[verifier::external_body]
fn public_key_of(key: &web_push::PartialVapidSignatureBuilder) -> (bytes: Vec<u8>) {
    key.get_public_key()
}

/// Parses the endpoint as a `Uri` of the crate http and hands out the scheme
/// and the host that the parser found. The contract gives the outcome a name.
#[verifier::external_body]
fn origin_of(endpoint: &str) -> (origin: Option<(Option<String>, Option<String>)>)
    ensures
        origin.deep_view() == uri_origin(endpoint@),
{
    match endpoint.parse::<http::Uri>() {
        Ok(uri) => Some((uri.scheme_str().map(str::to_owned), uri.host().map(str::to_owned))),
        Err(_) => None,
    }
}

/// Calls `PartialVapidSignatureBuilder::add_sub_info` and
/// `VapidSignatureBuilder::build` of the crate web-push on a copy of the key,
/// and hands out the signed token, `None` where signing failed. The token
/// holds the time at which it expires, so nothing is claimed of it. The
/// builder takes the scheme and the host of the endpoint for granted: the
/// endpoint must have both.
#[verifier::external_body]
fn sign_for(key: &web_push::PartialVapidSignatureBuilder, endpoint: &str) -> (token: Option<String>)
    requires
        has_origin(endpoint@),
{
    let info = web_push::SubscriptionInfo::new(endpoint, "", "");
    key.clone().add_sub_info(&info).build().ok().map(|signature| signature.auth_t)
}

/// The server's key pair, loaded once and never changed.
pub struct SigningKeyPair {
    key: web_push::PartialVapidSignatureBuilder,
    public_key: Vec<u8>,
}

/// A signed token for one push service, and the public key to check it with.
#[derive(Debug)]
pub struct VapidAssertion {
    /// The signed token.
    pub token: String,
    /// The public half of the key that signed it.
    pub public_key: Vec<u8>,
}

/// An assertion as plain values.
pub ghost struct AssertionView {
    pub token: Seq<char>,
    pub public_key: Seq<u8>,
}

impl View for VapidAssertion {
    type V = AssertionView;

    open spec fn view(&self) -> AssertionView {
        AssertionView { token: self.token@, public_key: self.public_key@ }
    }
}

impl SigningKeyPair {
    /// The public half of the key pair.
    pub closed spec fn public_key(&self) -> Seq<u8> {
        self.public_key@
    }

    /// Loads the key pair from the base64url text of the private key. A text
    /// that is no base64url, that stands for more or fewer bytes than a key
    /// has, or that the signer does not accept is a fault of the
    /// configuration.
    pub fn from_base64(encoded: &str) -> (r: Result<SigningKeyPair, EyeError>)
        ensures
            r is Ok <==> key_sized(encoded@) && signing_key_accepted(encoded@),
            r is Err ==> r->Err_0 == EyeError::ConfigError,
    {
        let sized = match decode_base64url(encoded) {
            Some(bytes) => bytes.len() == PRIVATE_KEY_LENGTH,
            None => false,
        };
        if !sized {
            return Err(EyeError::ConfigError);
        }
        match load_key(encoded) {
            Some(key) => {
                let public_key = public_key_of(&key);
                Ok(SigningKeyPair { key, public_key })
            },
            None => Err(EyeError::ConfigError),
        }
    }

    /// The public half of the key pair, as bytes.
    pub fn public_key_bytes(&self) -> (r: Vec<u8>)
        ensures
            r@ == self.public_key(),
    {
        self.public_key.clone()
    }

    /// Signs an assertion for the push service of one endpoint. An endpoint
    /// that names no push service is refused; for every other the signer
    /// decides, and a token that it hands out goes with this pair's public
    /// key.
    pub fn sign(&self, endpoint: &str) -> (r: Result<VapidAssertion, PushError>)
        ensures
            !has_origin(endpoint@) ==> r == Err::<VapidAssertion, PushError>(PushError::InvalidUri),
            has_origin(endpoint@) ==> match r {
                Ok(assertion) => assertion@.public_key == self.public_key(),
                Err(error) => error == PushError::InvalidClaims,
            },
    {
        let named = match origin_of(endpoint) {
            Some((Some(_), Some(_))) => true,
            _ => false,
        };
        if !named {
            return Err(PushError::InvalidUri);
        }
        match sign_for(&self.key, endpoint) {
            Some(token) => Ok(VapidAssertion { token, public_key: self.public_key.clone() }),
            None => Err(PushError::InvalidClaims),
        }
    }
}

} // verus!
