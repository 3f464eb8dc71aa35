//! What the client shows before anybody is logged in.

use vstd::prelude::*;

verus! {

pub struct LoginView {
    pub username: Option<String>,
    pub password_mode: bool,
    pub error: Option<String>,
    pub loading: bool,
}

/// What the login view says below its title.
pub enum LoginStatus {
    /// A login is under way.
    LoggingIn,
    /// The last login failed; the string says why.
    Failed(String),
    /// The password of the named user is asked for.
    EnterPassword(String),
    /// Nothing has happened yet.
    Welcome,
}

impl LoginView {
    pub fn new() -> (view: Self)
        ensures
            view.username is None,
            !view.password_mode,
            view.error is None,
            !view.loading,
    {
        Self { username: None, password_mode: false, error: None, loading: false }
    }

    /// What the view says: that a login is under way; else why the last one
    /// failed; else that the password of the user is asked for, where a user
    /// is known; else how to begin.
    pub fn status(&self) -> (status: LoginStatus)
        ensures
            status == if self.loading {
                LoginStatus::LoggingIn
            } else if self.error is Some {
                LoginStatus::Failed(self.error->0)
            } else if self.password_mode && self.username is Some {
                LoginStatus::EnterPassword(self.username->0)
            } else {
                LoginStatus::Welcome
            },
    {
        if self.loading {
            LoginStatus::LoggingIn
        } else {
            match &self.error {
                Some(error) => LoginStatus::Failed(error.clone()),
                None => {
                    if self.password_mode {
                        match &self.username {
                            Some(username) => LoginStatus::EnterPassword(username.clone()),
                            None => LoginStatus::Welcome,
                        }
                    } else {
                        LoginStatus::Welcome
                    }
                },
            }
        }
    }
}

} // verus!
