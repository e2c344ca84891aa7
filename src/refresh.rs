//! Wire shapes of the refresh exchange.
use vstd::prelude::*;

use crate::middleware::TokenType;

verus! {

/// Settings of the refresh exchange (none are configurable yet).
#[derive(Debug)]
pub struct RefreshConfig {}

/// Body sent to the refresh endpoint to mint a new access token.
#[derive(Debug, Clone)]
pub struct RefreshRequest {
    pub client_id: String,
    pub client_secret: String,
    pub grant_type: String,
    pub refresh_token: String,
}

/// Response when requesting a new access token using a refresh token.
#[derive(Debug, Clone)]
pub struct RefreshResponse {
    pub access_token: String,
    pub expires_in: u64,
    pub scope: String,
    pub token_type: TokenType,
}

} // verus!
