//! What a webhook call of the payment provider carries.

use crate::errors::Denial;
use vstd::prelude::*;

verus! {

/// How many bytes of a webhook body are read where no limit is configured.
pub const DEFAULT_BODY_LIMIT: u64 = 1_000_000;

/// The body of a webhook call.
#[derive(Debug)]
pub struct WebhookEventPayload {
    pub contents: String,
}

/// The I/O error of the standard library, carried through unread.
#[verifier::external_type_specification]
#[verifier::external_body]
pub struct ExIoError(std::io::Error);

/// Why the body of a webhook call was not taken.
#[derive(Debug)]
pub enum PayloadError {
    TooLarge,
    NoColon,
    InvalidAge,
    Io(std::io::Error),
}

/// The signature that came with a webhook call.
#[derive(Debug)]
pub struct StripeSignature<'a> {
    pub signature: &'a str,
}

impl WebhookEventPayload {
    /// The payload of a body that was read up to the limit: the body where
    /// all of it was read, `TooLarge` where more was left.
    pub fn from_body(contents: String, complete: bool) -> (payload: Result<
        WebhookEventPayload,
        PayloadError,
    >)
        ensures
            complete ==> payload is Ok && payload->Ok_0.contents == contents,
            !complete ==> payload is Err && payload->Err_0 is TooLarge,
    {
        if complete {
            Ok(WebhookEventPayload { contents })
        } else {
            Err(PayloadError::TooLarge)
        }
    }
}

impl<'a> StripeSignature<'a> {
    /// The signature in the `Stripe-Signature` header of a call. A call
    /// without one is a bad request.
    pub fn from_header(header: Option<&'a str>) -> (signature: Result<StripeSignature<'a>, Denial>)
        ensures
            match header {
                Some(value) => signature is Ok && signature->Ok_0.signature == value,
                None => signature is Err && signature->Err_0 == Denial::BadRequest,
            },
    {
        match header {
            Some(signature) => Ok(StripeSignature { signature }),
            None => Err(Denial::BadRequest),
        }
    }
}

} // verus!
