//! Bodies of the service's responses, as plain values.

use vstd::prelude::*;

verus! {

/// The answer to a run submission.
#[derive(Debug, Clone, PartialEq, Eq)]
pub struct CreateRunResponse {
    pub run_id: String,
    pub status: String,
}

/// The answer to a token exchange.
#[derive(Debug, Clone, PartialEq, Eq)]
pub struct GetTokenResponse {
    pub token: String,
}

} // verus!
