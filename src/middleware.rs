//! The authorizing middleware: its token state, how it signs a request and
//! what it sends to the refresh endpoint.
use vstd::prelude::*;

use crate::refresh::RefreshRequest;

verus! {

/// How the access token is presented: the standard bearer scheme, or a
/// header of the given name holding the raw token.
#[derive(Debug, Clone)]
pub enum TokenType {
    Bearer,
    Other(String),
}

/// The text that a token type is sent as on the wire.
pub open spec fn token_type_text(token_type: TokenType) -> Seq<char> {
    match token_type {
        TokenType::Bearer => "Bearer"@,
        TokenType::Other(name) => name@,
    }
}

impl TokenType {
    /// The token type that a provider names on the wire: the literal
    /// `Bearer` is the standard scheme, any other text names a header.
    pub fn from_wire(text: String) -> (r: TokenType)
        ensures
            text@ == "Bearer"@ ==> r is Bearer,
            text@ != "Bearer"@ ==> r == TokenType::Other(text),
    {
        if text.eq(&String::from_str("Bearer")) {
            TokenType::Bearer
        } else {
            TokenType::Other(text)
        }
    }

    /// The text that this token type is sent as on the wire.
    pub fn wire_text(&self) -> (r: String)
        ensures
            r@ == token_type_text(*self),
    {
        match self {
            TokenType::Bearer => String::from_str("Bearer"),
            TokenType::Other(name) => name.clone(),
        }
    }
}

/// What an observer is handed after each successful refresh.
#[derive(Debug, Clone)]
pub struct RefreshData {
    pub access_token: String,
}

/// One header that carries the access token: its name and its value.
#[derive(Debug, Clone)]
pub struct SignedHeader {
    pub name: String,
    pub value: String,
}

/// The name of the header that `token_type` signs with.
pub open spec fn header_name(token_type: TokenType) -> Seq<char> {
    match token_type {
        TokenType::Bearer => "Authorization"@,
        TokenType::Other(name) => name@,
    }
}

/// The value of the header that carries `token` under `token_type`.
pub open spec fn header_value(token_type: TokenType, token: Seq<char>) -> Seq<char> {
    match token_type {
        TokenType::Bearer => "Bearer "@ + token,
        TokenType::Other(_) => token,
    }
}

/// `h` presents `token` under the scheme `token_type`.
pub open spec fn signs_with(h: SignedHeader, token_type: TokenType, token: Seq<char>) -> bool {
    &&& h.name@ == header_name(token_type)
    &&& h.value@ == header_value(token_type, token)
}

/// The middleware: the provider's refresh settings and the token state.
#[derive(Debug)]
pub struct OAuth2 {
    // Configuration
    pub refresh_endpoint: String,
    pub client_id: String,
    pub client_secret: String,
    pub token_type: TokenType,
    // State
    pub access_token: String,
    pub refresh_token: String,
}

impl OAuth2 {
    /// The header that signs an outbound request with the current access token.
    pub fn authorize(&self) -> (r: SignedHeader)
        ensures
            signs_with(r, self.token_type, self.access_token@),
    {
        match &self.token_type {
            TokenType::Bearer => SignedHeader {
                name: String::from_str("Authorization"),
                value: String::from_str("Bearer ").concat(self.access_token.as_str()),
            },
            TokenType::Other(name) => SignedHeader {
                name: name.clone(),
                value: self.access_token.clone(),
            },
        }
    }

    /// The body sent to the refresh endpoint: the client's credentials and
    /// the stored refresh token.
    pub fn refresh_request(&self) -> (r: RefreshRequest)
        ensures
            r.client_id@ == self.client_id@,
            r.client_secret@ == self.client_secret@,
            r.grant_type@ == "refresh_token"@,
            r.refresh_token@ == self.refresh_token@,
    {
        RefreshRequest {
            client_id: self.client_id.clone(),
            client_secret: self.client_secret.clone(),
            grant_type: String::from_str("refresh_token"),
            refresh_token: self.refresh_token.clone(),
        }
    }

    /// Installs a refreshed access token; nothing else changes.
    pub fn install_token(&mut self, data: &RefreshData)
        ensures
            final(self).access_token@ == data.access_token@,
            final(self).refresh_endpoint == old(self).refresh_endpoint,
            final(self).client_id == old(self).client_id,
            final(self).client_secret == old(self).client_secret,
            final(self).token_type == old(self).token_type,
            final(self).refresh_token == old(self).refresh_token,
    {
        self.access_token = data.access_token.clone();
    }
}

} // verus!
