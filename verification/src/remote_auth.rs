//! The sign-in state of the remote service client: who is signed in, with
//! which session token, and at which service.

use vstd::prelude::*;

verus! {

/// An HTTP client error (`reqwest::Error`), carried through unchanged.
#[verifier::external_type_specification]
#[verifier::external_body]
pub struct ExReqwestError(reqwest::Error);

/// Errors of the remote service client.
#[derive(Debug)]
pub enum RemoteError {
    /// No one is signed in.
    NotAuthenticated,
    /// The service refused the credentials.
    AuthFailed(String),
    /// The HTTP request failed.
    Http(reqwest::Error),
}

/// Who is signed in.
#[derive(Debug, Clone)]
pub struct AuthState {
    pub user_id: String,
    pub session_token: String,
    pub team_id: Option<String>,
    pub role: Option<String>,
    pub api_url: String,
}

/// The sign-in state of the client. (The HTTP client that performs the
/// sign-in requests is held by the caller.)
#[derive(Debug)]
pub struct AuthClient {
    state: Option<AuthState>,
}

impl AuthClient {
    pub closed spec fn state_spec(&self) -> Option<AuthState> {
        self.state
    }

    /// A client with no one signed in.
    pub fn new() -> (r: Self)
        ensures
            r.state_spec() is None,
    {
        AuthClient { state: None }
    }

    /// The current sign-in, if any.
    pub fn state(&self) -> (r: Option<&AuthState>)
        ensures
            match r {
                Some(s) => self.state_spec() == Some(*s),
                None => self.state_spec() is None,
            },
    {
        match &self.state {
            Some(s) => Some(s),
            None => None,
        }
    }

    /// Whether someone is signed in.
    pub fn is_authenticated(&self) -> (r: bool)
        ensures
            r == self.state_spec() is Some,
    {
        self.state.is_some()
    }

    /// The client after a successful sign-in as `state`.
    pub fn signed_in(self, state: AuthState) -> (r: Self)
        ensures
            r.state_spec() == Some(state),
    {
        AuthClient { state: Some(state) }
    }

    /// Logout: clear the local state.
    pub fn logout(self) -> (r: Self)
        ensures
            r.state_spec() is None,
    {
        AuthClient { state: None }
    }

    /// The current sign-in, or `NotAuthenticated`.
    pub fn require_auth(&self) -> (r: Result<&AuthState, RemoteError>)
        ensures
            match r {
                Ok(s) => self.state_spec() == Some(*s),
                Err(e) => self.state_spec() is None && e is NotAuthenticated,
            },
    {
        match &self.state {
            Some(s) => Ok(s),
            None => Err(RemoteError::NotAuthenticated),
        }
    }
}

/// Keepalive ping interval (milliseconds).
pub const PING_INTERVAL_MS: u64 = 30_000;

} // verus!
