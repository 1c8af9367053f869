//! Cancellation handles.
//!
//! A cancellation token is a shared flag: once cancelled, every holder of
//! the token or of one of its clones observes it cooperatively.  Because
//! the flag is shared across tasks, nothing can be promised about what a
//! later observation returns; the logic that consults a token is written
//! to be correct for either answer.

use vstd::prelude::*;
use tokio_util::sync::CancellationToken;

verus! {

#[verifier::external_type_specification]
#[verifier::external_body]
pub struct ExCancellationToken(CancellationToken);

/// Relies on tokio_util's CancellationToken::new for a fresh token.
#[verifier::external_body]
pub fn new_token() -> CancellationToken {
    CancellationToken::new()
}

/// Relies on tokio_util's Clone for CancellationToken: the clone shares
/// the original's flag.
#[verifier::external_body]
pub fn clone_token(token: &CancellationToken) -> CancellationToken {
    token.clone()
}

/// Relies on tokio_util's CancellationToken::cancel: it signals the
/// shared flag.
#[verifier::external_body]
pub fn cancel_token(token: &CancellationToken) {
    token.cancel()
}

/// Relies on tokio_util's CancellationToken::is_cancelled.  Another task
/// may signal the flag at any moment, so no answer is promised.
#[verifier::external_body]
pub fn token_is_cancelled(token: &CancellationToken) -> bool {
    token.is_cancelled()
}

} // verus!
