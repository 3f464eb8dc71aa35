//! What can go wrong between the client and the network, and how a failure
//! is told from what the network said.

use crate::ui::components::text::{contains_text, has_part};
use vstd::prelude::*;
use vstd::string::StringExecFns;

verus! {

/// Why a request to the network failed.
pub enum ApiError {
    NotAuthenticated,
    SessionExpired,
    NetworkError(String),
    RateLimited,
    InvalidCredentials,
    Unknown(String),
}

impl ApiError {
    /// What the error says of itself.
    pub open spec fn message_text(&self) -> Seq<char> {
        match self {
            ApiError::NotAuthenticated => "Not authenticated"@,
            ApiError::SessionExpired => "Session expired"@,
            ApiError::NetworkError(detail) => "Network error: "@ + detail@,
            ApiError::RateLimited => "Rate limited"@,
            ApiError::InvalidCredentials => "Invalid credentials"@,
            ApiError::Unknown(detail) => "Unknown error: "@ + detail@,
        }
    }

    /// What the error says of itself, as a string.
    pub fn message(&self) -> (text: String)
        ensures
            text@ == self.message_text(),
    {
        match self {
            ApiError::NotAuthenticated => "Not authenticated".to_owned(),
            ApiError::SessionExpired => "Session expired".to_owned(),
            ApiError::NetworkError(detail) => {
                let mut text = "Network error: ".to_owned();
                text.append(detail.as_str());
                text
            },
            ApiError::RateLimited => "Rate limited".to_owned(),
            ApiError::InvalidCredentials => "Invalid credentials".to_owned(),
            ApiError::Unknown(detail) => {
                let mut text = "Unknown error: ".to_owned();
                text.append(detail.as_str());
                text
            },
        }
    }

    /// Why a login failed, from what the network said: the credentials were
    /// wrong where it speaks of an invalid password; anything else counts as
    /// a failure of the network.
    pub fn from_login_failure(said: &str) -> (error: ApiError)
        ensures
            has_part(said@, "Invalid password"@) ==> error is InvalidCredentials,
            !has_part(said@, "Invalid password"@) ==> (error matches ApiError::NetworkError(detail)
                && detail@ == said@),
    {
        if contains_text(said, "Invalid password") {
            ApiError::InvalidCredentials
        } else {
            ApiError::NetworkError(said.to_owned())
        }
    }

    /// Why fetching the timeline failed, from what the network said: the
    /// rate limit was hit where it speaks of one; else the session has expired
    /// where it says that the request was unauthorized; anything else counts
    /// as a failure of the network.
    pub fn from_timeline_failure(said: &str) -> (error: ApiError)
        ensures
            has_part(said@, "rate limit"@) ==> error is RateLimited,
            !has_part(said@, "rate limit"@) && has_part(said@, "unauthorized"@)
                ==> error is SessionExpired,
            !has_part(said@, "rate limit"@) && !has_part(said@, "unauthorized"@)
                ==> (error matches ApiError::NetworkError(detail) && detail@ == said@),
    {
        if contains_text(said, "rate limit") {
            ApiError::RateLimited
        } else if contains_text(said, "unauthorized") {
            ApiError::SessionExpired
        } else {
            ApiError::NetworkError(said.to_owned())
        }
    }

    /// Whether a request that failed with this error is tried once more
    /// after the session was refreshed: only where the session had expired,
    /// and only where the request was not tried again already.
    pub fn retry_after_refresh(&self, tried_again: bool) -> (retry: bool)
        ensures
            retry == (*self is SessionExpired && !tried_again),
    {
        match self {
            ApiError::SessionExpired => !tried_again,
            _ => false,
        }
    }
}

} // verus!
