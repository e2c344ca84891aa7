//! Step 2 of the flow: what the redirect carries, and the code exchange.
use vstd::prelude::*;

use crate::middleware::TokenType;

verus! {

/// The parameters that the provider's redirect carries.
#[derive(Debug, Clone)]
pub struct RedirectData {
    pub code: String,
    pub state: Option<String>,
}

/// The form sent to the exchange endpoint to redeem a code.
#[derive(Debug)]
pub struct ExchangeData<'a> {
    pub code: String,
    pub client_id: &'a str,
    pub client_secret: &'a str,
    pub redirect_uri: &'a str,
    pub grant_type: &'static str,
}

/// What the exchange endpoint answers.
#[derive(Debug, Clone)]
pub struct ExchangeResponse {
    pub access_token: String,
    pub expires_in: u64,
    pub refresh_token: Option<String>,
    pub scope: Option<String>,
    pub token_type: TokenType,
}

} // verus!
