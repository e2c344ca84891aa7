//! Step 1 of the flow: the parameters of the authorization request.
use vstd::prelude::*;

verus! {

/// Parameters for initializing the OAuth2 flow.
#[derive(Debug, Clone)]
pub struct Initialize {
    pub scope: String,
    pub access_type: AccessType,
    pub state: Option<String>,
    pub prompt: Option<String>,
}

impl Initialize {
    /// Parameters with neither a state nor a prompt.
    pub fn no_state(scope: String, access_type: AccessType) -> (r: Self)
        ensures
            r.scope == scope,
            r.access_type == access_type,
            r.state is None,
            r.prompt is None,
    {
        Self { scope, access_type, state: None, prompt: None }
    }

    /// The same parameters with `prompt` set.
    pub fn prompt(self, prompt: String) -> (r: Self)
        ensures
            r.scope == self.scope,
            r.access_type == self.access_type,
            r.state == self.state,
            r.prompt == Some(prompt),
    {
        Self { prompt: Some(prompt), ..self }
    }
}

/// Whether the provider may issue a refresh token (`offline`), or another
/// value passed through as written.
#[derive(Debug, Clone)]
pub enum AccessType {
    Offline,
    Other(String),
}

/// The text that `access_type` is sent as.
pub open spec fn access_type_text(access_type: AccessType) -> Seq<char> {
    match access_type {
        AccessType::Offline => "offline"@,
        AccessType::Other(s) => s@,
    }
}

impl AccessType {
    /// The text that this access type is sent as.
    pub fn as_text(&self) -> (r: String)
        ensures
            r@ == access_type_text(*self),
    {
        match self {
            AccessType::Offline => String::from_str("offline"),
            AccessType::Other(s) => s.clone(),
        }
    }
}

} // verus!
