//! Client side of the OAuth2 authorization-code flow, and a request-signing
//! middleware that keeps the access token valid by refreshing it when the
//! provider rejects a request.
//!
//! `OAuth2Flow` takes a user through the flow; `OAuth2` signs requests and
//! decides, step by step, how a rejected request is refreshed and retried.
use vstd::prelude::*;

use crate::query::{
    encode_query, encoded_query, grant_from_url, is_grant, pairs_view, parse_uri, parsed_uri,
    redirect_grant, uri_parses,
};
use crate::step1_init::access_type_text;

pub mod cycle;
pub mod middleware;
pub mod query;
pub mod refresh;
pub mod step1_init;
pub mod step2_exchange;

pub use cycle::{Action, Event, FailureKind, RequestCycle, Stage};
pub use middleware::{OAuth2, RefreshData, SignedHeader, TokenType};
pub use refresh::{RefreshConfig, RefreshRequest, RefreshResponse};
pub use step1_init::{AccessType, Initialize};
pub use step2_exchange::{ExchangeData, ExchangeResponse, RedirectData};

verus! {

/// Errors of the flow's first steps.
#[derive(Debug, Clone, Copy, PartialEq, Eq, Structural)]
pub enum FlowError {
    /// The configuration gives no well-formed authorization URL.
    Config,
    /// The redirect URL has no query, or its query holds no code.
    MalformedRedirect,
}

/// The main entry point for taking the user through the OAuth2 flow.
#[derive(Debug, Clone)]
pub struct OAuth2Flow {
    pub client_id: String,
    pub client_secret: String,
    /// The endpoint to initialize the flow (step 1).
    pub init_endpoint: String,
    /// The endpoint to exchange the code for an access token (step 2).
    pub exchange_endpoint: String,
    /// The endpoint to refresh the access token.
    pub refresh_endpoint: String,
    pub redirect_uri: String,
}

/// The exchange answered without a refresh token. This happens on
/// re-authorization when the consent prompt was not forced.
#[derive(Debug, Clone, Copy, PartialEq, Eq, Structural)]
pub struct MissingRefreshToken;

impl MissingRefreshToken {
    /// The text that explains the error.
    pub fn message(&self) -> (r: String)
        ensures
            r@ == "`refresh_token` missing from ExchangeResponse. This will happen on re-authorization if you did not use `prompt=consent`. See `OAuth2Flow::create_authorization_url` docs for more."@,
    {
        String::from_str(
            "`refresh_token` missing from ExchangeResponse. This will happen on re-authorization if you did not use `prompt=consent`. See `OAuth2Flow::create_authorization_url` docs for more.",
        )
    }
}

/// The parameters of the authorization request, in the order they are sent:
/// an absent state or prompt is left out.
pub open spec fn authorization_params(flow: OAuth2Flow, init: Initialize) -> Seq<(Seq<char>, Seq<char>)> {
    seq![
        ("client_id"@, flow.client_id@),
        ("redirect_uri"@, flow.redirect_uri@),
        ("response_type"@, "code"@),
        ("scope"@, init.scope@),
        ("access_type"@, access_type_text(init.access_type)),
    ] + match init.state {
        Some(s) => seq![("state"@, s@)],
        None => Seq::empty(),
    } + match init.prompt {
        Some(p) => seq![("prompt"@, p@)],
        None => Seq::empty(),
    }
}

/// The authorization URL: the init endpoint, `?`, and the encoded
/// parameters; `None` where a parameter cannot be encoded.
pub open spec fn authorization_url_text(flow: OAuth2Flow, init: Initialize) -> Option<Seq<char>> {
    match encoded_query(authorization_params(flow, init)) {
        Some(q) => Some(flow.init_endpoint@ + "?"@ + q),
        None => None,
    }
}

/// The middleware that `flow` builds around the given token state.
pub open spec fn middleware_of(
    m: OAuth2,
    flow: OAuth2Flow,
    token_type: TokenType,
    access: Seq<char>,
    refresh: Seq<char>,
) -> bool {
    &&& m.refresh_endpoint@ == flow.refresh_endpoint@
    &&& m.client_id@ == flow.client_id@
    &&& m.client_secret@ == flow.client_secret@
    &&& m.token_type == token_type
    &&& m.access_token@ == access
    &&& m.refresh_token@ == refresh
}

impl OAuth2Flow {
    /// The parameters of the authorization request, in the order they are sent.
    pub fn authorization_params(&self, init: &Initialize) -> (r: Vec<(String, String)>)
        ensures
            pairs_view(r@) == authorization_params(*self, *init),
    {
        let mut v: Vec<(String, String)> = Vec::new();
        v.push((String::from_str("client_id"), self.client_id.clone()));
        v.push((String::from_str("redirect_uri"), self.redirect_uri.clone()));
        v.push((String::from_str("response_type"), String::from_str("code")));
        v.push((String::from_str("scope"), init.scope.clone()));
        v.push((String::from_str("access_type"), init.access_type.as_text()));
        match &init.state {
            Some(s) => v.push((String::from_str("state"), s.clone())),
            None => {},
        }
        match &init.prompt {
            Some(p) => v.push((String::from_str("prompt"), p.clone())),
            None => {},
        }
        assert(pairs_view(v@) =~= authorization_params(*self, *init));
        v
    }

    /// Step 1: the text of the URL to send the user to.
    pub fn authorization_url(&self, init: &Initialize) -> (r: Result<String, FlowError>)
        ensures
            match r {
                Ok(u) => authorization_url_text(*self, *init) == Some(u@),
                Err(e) => authorization_url_text(*self, *init) is None && e == FlowError::Config,
            },
    {
        let params = self.authorization_params(init);
        match encode_query(&params) {
            Ok(q) => Ok(self.init_endpoint.clone().concat("?").concat(q.as_str())),
            Err(e) => Err(e),
        }
    }

    /// Step 1: the URL to send the user to.
    ///
    /// Depending on the prompt given here, the exchange's response may lack a
    /// refresh token: with `consent` it always has one; otherwise it may have
    /// one only on the first authorization.
    pub fn create_authorization_url(&self, init: Initialize) -> (r: Result<httpclient::Uri, FlowError>)
        ensures
            r is Ok <==> (authorization_url_text(*self, init) matches Some(u) && uri_parses(u)),
            r is Err ==> r == Err::<httpclient::Uri, FlowError>(FlowError::Config),
            r matches Ok(u) ==> (authorization_url_text(*self, init) matches Some(t) && u
                == parsed_uri(t)),
    {
        match self.authorization_url(&init) {
            Ok(text) => match parse_uri(text.as_str()) {
                Some(uri) => Ok(uri),
                None => Err(FlowError::Config),
            },
            Err(e) => Err(e),
        }
    }

    /// Step 2a: the code and state that the redirect URL carries.
    pub fn extract_code(&self, url: String) -> (r: Result<RedirectData, FlowError>)
        ensures
            match r {
                Ok(d) => redirect_grant(url@) matches Some(g) && is_grant(d, g),
                Err(e) => redirect_grant(url@) is None && e == FlowError::MalformedRedirect,
            },
    {
        grant_from_url(url.as_str())
    }

    /// Step 2b: the form that redeems `code` at the exchange endpoint.
    pub fn create_exchange_data(&self, code: String) -> (r: ExchangeData<'_>)
        ensures
            r.code == code,
            r.client_id@ == self.client_id@,
            r.client_secret@ == self.client_secret@,
            r.redirect_uri@ == self.redirect_uri@,
            r.grant_type@ == "authorization_code"@,
    {
        ExchangeData {
            code,
            client_id: self.client_id.as_str(),
            redirect_uri: self.redirect_uri.as_str(),
            client_secret: self.client_secret.as_str(),
            grant_type: "authorization_code",
        }
    }

    /// Step 3: the middleware built from the exchange's response. Fails
    /// where the response carries no refresh token.
    pub fn middleware_from_exchange(&self, exchange: ExchangeResponse) -> (r: Result<OAuth2, MissingRefreshToken>)
        ensures
            match r {
                Ok(m) => exchange.refresh_token matches Some(t) && middleware_of(
                    m,
                    *self,
                    exchange.token_type,
                    exchange.access_token@,
                    t@,
                ),
                Err(_) => exchange.refresh_token is None,
            },
    {
        match exchange.refresh_token {
            Some(refresh_token) => Ok(OAuth2 {
                refresh_endpoint: self.refresh_endpoint.clone(),
                client_id: self.client_id.clone(),
                client_secret: self.client_secret.clone(),
                token_type: exchange.token_type,
                access_token: exchange.access_token,
                refresh_token,
            }),
            None => Err(MissingRefreshToken),
        }
    }

    /// A bearer-scheme middleware from tokens kept from an earlier session.
    pub fn bearer_middleware(&self, access: String, refresh: String) -> (r: OAuth2)
        ensures
            middleware_of(r, *self, TokenType::Bearer, access@, refresh@),
    {
        OAuth2 {
            refresh_endpoint: self.refresh_endpoint.clone(),
            client_id: self.client_id.clone(),
            client_secret: self.client_secret.clone(),
            token_type: TokenType::Bearer,
            access_token: access,
            refresh_token: refresh,
        }
    }

    /// A middleware of any scheme from tokens kept from an earlier session.
    pub fn middleware_from_pieces(&self, access: String, refresh: String, token_type: TokenType) -> (r: OAuth2)
        ensures
            middleware_of(r, *self, token_type, access@, refresh@),
    {
        OAuth2 {
            refresh_endpoint: self.refresh_endpoint.clone(),
            client_id: self.client_id.clone(),
            client_secret: self.client_secret.clone(),
            token_type,
            access_token: access,
            refresh_token: refresh,
        }
    }
}

} // verus!
