//! Non-blocking observation of an optional cancellation handle.

use tokio_util::sync::CancellationToken;
use vstd::prelude::*;

verus! {

/// Declares `tokio_util::sync::CancellationToken` so that values of it can
/// be held and passed through; the token stays opaque here.
#[verifier::external_type_specification]
#[verifier::external_body]
pub struct ExCancellationToken(CancellationToken);

/// Relies on `tokio_util::sync::CancellationToken::is_cancelled`: a
/// point-in-time, non-blocking read of externally owned cancellation state.
/// The answer depends on what other tasks did, so nothing is promised about
/// which value comes back.
pub assume_specification[ CancellationToken::is_cancelled ](t: &CancellationToken) -> bool;

/// Report whether a cancellation handle exists and was already cancelled at
/// the moment it was sampled; absence of a handle reports "not cancelled".
/// A single read, never blocking and never cancelling anything itself.
pub fn is_token_cancelled(cancellation_token: &Option<CancellationToken>) -> (r: bool)
    ensures
        cancellation_token.is_none() ==> !r,
{
    match cancellation_token {
        Some(token) => token.is_cancelled(),
        None => false,
    }
}

} // verus!
