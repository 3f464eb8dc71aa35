//! The profile shown above the posts of an author.

use vstd::prelude::*;

verus! {

/// The rows that a profile takes.
pub const PROFILE_ROWS: u16 = 8;

/// What the network says of an author.
pub struct ProfileData {
    pub did: String,
    pub handle: String,
    pub display_name: Option<String>,
    pub description: Option<String>,
    pub avatar: Option<String>,
    pub posts_count: Option<i64>,
    pub follows_count: Option<i64>,
    pub followers_count: Option<i64>,
    /// The record by which the viewer follows the author, if there is one.
    pub following: Option<String>,
}

/// The picture of an author.
pub struct AuthorAvatar {
    pub url: String,
}

pub struct AuthorProfile {
    pub profile: ProfileData,
    pub height: u16,
    pub avatar: Option<AuthorAvatar>,
}

impl AuthorProfile {
    pub fn new(profile: ProfileData) -> (shown: Self)
        ensures
            shown.profile == profile,
            shown.height == PROFILE_ROWS,
            shown.avatar is Some == profile.avatar is Some,
            shown.avatar is Some ==> shown.avatar->0.url == profile.avatar->0,
    {
        let avatar = match &profile.avatar {
            Some(url) => Some(AuthorAvatar { url: url.clone() }),
            None => None,
        };
        Self { profile, height: PROFILE_ROWS, avatar }
    }

    pub fn height(&self) -> (rows: u16)
        ensures
            rows == self.height,
    {
        self.height
    }
}

} // verus!
