//! Delivery outcomes and the table that decides which failures are permanent.
//!
//! A push service answers every request with an HTTP status. A handful of
//! statuses mean that the subscription itself is dead; every other failure may
//! go away by itself. Only the first group may ever cost a subscriber its
//! record, so the whole policy lives here, in one place.

use vstd::prelude::*;

verus! {

/// Why the delivery to one subscriber failed.
#[derive(Clone, Copy, Debug, PartialEq, Eq, Structural)]
pub enum PushError {
    /// The push service refused the credentials (status 401).
    Unauthorized,
    /// The push service found the request malformed (status 400).
    BadRequest,
    /// The push service failed on its side (status 500 to 599).
    ServerError,
    /// The subscriber's endpoint is no URI with a scheme and a host.
    InvalidUri,
    /// The endpoint is gone for good (status 410).
    EndpointNotValid,
    /// The endpoint is unknown to the push service (status 404).
    EndpointNotFound,
    /// The message is longer than a push message may be (status 413).
    PayloadTooLarge,
    /// The subscriber's key material is absent.
    MissingCryptoKeys,
    /// The subscriber's key material is malformed.
    InvalidCryptoKeys,
    /// The signing key produced no assertion.
    InvalidClaims,
    /// The push service did not answer in time.
    TimedOut,
    /// The push service could not be reached.
    Unreachable,
    /// The transport could make no request of the URL and the header lines.
    RequestRefused,
    /// Any other answer of the push service.
    Other,
}

/// What the transport reports of one request.
#[derive(Clone, Copy, Debug, PartialEq, Eq, Structural)]
pub enum TransportReply {
    /// The push service answered with this HTTP status.
    Status(u16),
    /// No answer came within the configured time.
    TimedOut,
    /// The connection failed.
    Unreachable,
    /// The transport could make no request of the URL and the header lines:
    /// nothing was sent.
    Refused,
}

/// The result of one delivery attempt to one subscriber.
#[derive(Clone, Copy, Debug, PartialEq, Eq, Structural)]
pub enum DeliveryOutcome {
    /// The push service accepted the message.
    Delivered,
    /// The attempt failed, and a later one may succeed.
    TransientFailure(PushError),
    /// The subscription is dead: no later attempt can succeed.
    PermanentFailure(PushError),
}

/// The failures after which a subscription is removed.
pub open spec fn permanent(error: PushError) -> bool {
    error == PushError::Unauthorized
        || error == PushError::BadRequest
        || error == PushError::InvalidUri
        || error == PushError::EndpointNotValid
        || error == PushError::EndpointNotFound
        || error == PushError::MissingCryptoKeys
        || error == PushError::InvalidCryptoKeys
        || error == PushError::RequestRefused
}

/// The failure that an HTTP status stands for, `None` for a success.
pub open spec fn status_failure(status: u16) -> Option<PushError> {
    if 200 <= status < 300 {
        None
    } else if 500 <= status < 600 {
        Some(PushError::ServerError)
    } else if status == 400 {
        Some(PushError::BadRequest)
    } else if status == 401 {
        Some(PushError::Unauthorized)
    } else if status == 404 {
        Some(PushError::EndpointNotFound)
    } else if status == 410 {
        Some(PushError::EndpointNotValid)
    } else if status == 413 {
        Some(PushError::PayloadTooLarge)
    } else {
        Some(PushError::Other)
    }
}

/// The failure that a transport reply stands for, `None` for a success.
pub open spec fn reply_failure(reply: TransportReply) -> Option<PushError> {
    match reply {
        TransportReply::Status(status) => status_failure(status),
        TransportReply::TimedOut => Some(PushError::TimedOut),
        TransportReply::Unreachable => Some(PushError::Unreachable),
        TransportReply::Refused => Some(PushError::RequestRefused),
    }
}

/// The outcome that a failure amounts to.
pub open spec fn failure_outcome(error: PushError) -> DeliveryOutcome {
    if permanent(error) {
        DeliveryOutcome::PermanentFailure(error)
    } else {
        DeliveryOutcome::TransientFailure(error)
    }
}

/// The outcome that a transport reply amounts to.
pub open spec fn reply_outcome(reply: TransportReply) -> DeliveryOutcome {
    match reply_failure(reply) {
        None => DeliveryOutcome::Delivered,
        Some(error) => failure_outcome(error),
    }
}

/// What a transport reply means for the sender: nothing to report, or the
/// failure.
pub open spec fn reply_result(reply: TransportReply) -> Result<(), PushError> {
    match reply_failure(reply) {
        None => Ok(()),
        Some(error) => Err(error),
    }
}

/// The outcome that the result of one subscriber's attempt amounts to.
pub open spec fn result_outcome(result: Result<(), PushError>) -> DeliveryOutcome {
    match result {
        Ok(_) => DeliveryOutcome::Delivered,
        Err(error) => failure_outcome(error),
    }
}

impl PushError {
    /// Whether this failure means that the subscription is dead.
    pub fn is_permanent(&self) -> (r: bool)
        ensures
            r == permanent(*self),
    {
        match self {
            PushError::Unauthorized => true,
            PushError::BadRequest => true,
            PushError::InvalidUri => true,
            PushError::EndpointNotValid => true,
            PushError::EndpointNotFound => true,
            PushError::MissingCryptoKeys => true,
            PushError::InvalidCryptoKeys => true,
            PushError::RequestRefused => true,
            PushError::ServerError => false,
            PushError::PayloadTooLarge => false,
            PushError::InvalidClaims => false,
            PushError::TimedOut => false,
            PushError::Unreachable => false,
            PushError::Other => false,
        }
    }

    /// Reads an HTTP status: `None` for 200 to 299, else the failure it names.
    pub fn from_status(status: u16) -> (r: Option<PushError>)
        ensures
            r == status_failure(status),
            r is None <==> 200 <= status < 300,
            r is Some && permanent(r->Some_0) <==> status == 400 || status == 401 || status == 404
                || status == 410,
    {
        if 200 <= status && status < 300 {
            None
        } else if 500 <= status && status < 600 {
            Some(PushError::ServerError)
        } else {
            match status {
                400 => Some(PushError::BadRequest),
                401 => Some(PushError::Unauthorized),
                404 => Some(PushError::EndpointNotFound),
                410 => Some(PushError::EndpointNotValid),
                413 => Some(PushError::PayloadTooLarge),
                _ => Some(PushError::Other),
            }
        }
    }
}

impl TransportReply {
    /// Reads the reply as the result of the attempt.
    pub fn into_result(self) -> (r: Result<(), PushError>)
        ensures
            r == reply_result(self),
    {
        let failure = match self {
            TransportReply::Status(status) => PushError::from_status(status),
            TransportReply::TimedOut => Some(PushError::TimedOut),
            TransportReply::Unreachable => Some(PushError::Unreachable),
            TransportReply::Refused => Some(PushError::RequestRefused),
        };
        match failure {
            None => Ok(()),
            Some(error) => Err(error),
        }
    }
}

impl DeliveryOutcome {
    /// The outcome of an attempt that failed with `error`.
    pub fn from_error(error: PushError) -> (r: DeliveryOutcome)
        ensures
            r == failure_outcome(error),
            !(r is Delivered),
            r is PermanentFailure <==> permanent(error),
    {
        if error.is_permanent() {
            DeliveryOutcome::PermanentFailure(error)
        } else {
            DeliveryOutcome::TransientFailure(error)
        }
    }

    /// The outcome of an attempt that the transport answered with `reply`.
    pub fn from_reply(reply: TransportReply) -> (r: DeliveryOutcome)
        ensures
            r == reply_outcome(reply),
    {
        let failure = match reply {
            TransportReply::Status(status) => PushError::from_status(status),
            TransportReply::TimedOut => Some(PushError::TimedOut),
            TransportReply::Unreachable => Some(PushError::Unreachable),
            TransportReply::Refused => Some(PushError::RequestRefused),
        };
        match failure {
            None => DeliveryOutcome::Delivered,
            Some(error) => DeliveryOutcome::from_error(error),
        }
    }

    /// The outcome of an attempt that ended with `result`.
    pub fn from_result(result: Result<(), PushError>) -> (r: DeliveryOutcome)
        ensures
            r == result_outcome(result),
    {
        match result {
            Ok(_) => DeliveryOutcome::Delivered,
            Err(error) => DeliveryOutcome::from_error(error),
        }
    }

    /// Whether the message reached the push service.
    pub fn is_delivered(&self) -> (r: bool)
        ensures
            r == (*self is Delivered),
    {
        match self {
            DeliveryOutcome::Delivered => true,
            _ => false,
        }
    }

    /// Whether the subscription must be removed.
    pub fn is_permanent(&self) -> (r: bool)
        ensures
            r == (*self is PermanentFailure),
    {
        match self {
            DeliveryOutcome::PermanentFailure(_) => true,
            _ => false,
        }
    }
}

/// A reply is a permanent failure exactly for the statuses 400, 401, 404 and
/// 410 and for a request that the transport refused to make; it is a delivery
/// exactly for the statuses 200 to 299. Timeouts, lost connections and every
/// other status are transient. No reply is read as a fault of the endpoint or
/// of the keys: those are found before anything is sent.
pub proof fn lemma_reply_table(reply: TransportReply)
    ensures
        reply_outcome(reply) is PermanentFailure <==> reply is Refused || (reply is Status && (
        reply->Status_0 == 400 || reply->Status_0 == 401 || reply->Status_0 == 404
            || reply->Status_0 == 410)),
        reply_outcome(reply) is Delivered <==> reply is Status && 200 <= reply->Status_0 < 300,
        result_outcome(reply_result(reply)) == reply_outcome(reply),
        reply_failure(reply) != Some(PushError::InvalidUri),
        reply_failure(reply) != Some(PushError::InvalidCryptoKeys),
        reply_failure(reply) != Some(PushError::MissingCryptoKeys),
        reply_failure(reply) != Some(PushError::InvalidClaims),
{
}

} // verus!
