//! The line above a post: who wrote it, when, and how the viewer relates to
//! the author.

use super::types::{PostComponent, PostContext, PostViewData};
use crate::ui::layout::Rect;
use vstd::prelude::*;

verus! {

/// How the viewer relates to the author of a post.
#[derive(Clone, Copy, PartialEq, Eq, Structural, Debug)]
pub enum FollowingStatus {
    Following,
    NotFollowing,
    Self_,
}

/// The name shown for an author: the display name, or the handle where the
/// author has none.
pub open spec fn shown_name(post: &PostViewData) -> Seq<char> {
    match post.author.display_name {
        Some(name) => name@,
        None => post.author.handle@,
    }
}

/// The viewer follows the author of `post`.
pub open spec fn follows_author(post: &PostViewData) -> bool {
    post.author.has_viewer_state && post.author.following is Some
}

pub struct PostHeader {
    pub author_display_name: String,
    pub author_handle: String,
    pub timestamp: String,
    pub is_reply: bool,
    pub following_status: FollowingStatus,
    pub context: PostContext,
}

impl PostHeader {
    pub fn new(post: &PostViewData, context: PostContext) -> (header: Self)
        ensures
            header.author_display_name@ == shown_name(post),
            header.author_handle@ == post.author.handle@,
            header.timestamp@ == post.indexed_at@,
            header.is_reply == post.record.has_reply,
            header.following_status == if follows_author(post) {
                FollowingStatus::Following
            } else {
                FollowingStatus::NotFollowing
            },
            header.context == context,
    {
        let author_display_name = match &post.author.display_name {
            Some(name) => name.clone(),
            None => post.author.handle.clone(),
        };
        Self {
            author_display_name,
            author_handle: post.author.handle.clone(),
            timestamp: post.indexed_at.clone(),
            is_reply: Self::check_is_reply(post),
            following_status: Self::determine_following_status(post),
            context,
        }
    }

    /// Whether the record of the post says that it is a reply.
    pub fn check_is_reply(post: &PostViewData) -> (is_reply: bool)
        ensures
            is_reply == post.record.has_reply,
    {
        post.record.has_reply
    }

    /// Following where the network says that the viewer follows the author,
    /// not following in every other case.
    pub fn determine_following_status(post: &PostViewData) -> (status: FollowingStatus)
        ensures
            status == if follows_author(post) {
                FollowingStatus::Following
            } else {
                FollowingStatus::NotFollowing
            },
    {
        if post.author.has_viewer_state {
            if post.author.following.is_some() {
                FollowingStatus::Following
            } else {
                FollowingStatus::NotFollowing
            }
        } else {
            FollowingStatus::NotFollowing
        }
    }

    /// The words shown for the following status; none for an author who is
    /// not followed.
    pub fn following_status_label(&self) -> (label: String)
        ensures
            label@ == match self.following_status {
                FollowingStatus::Following => "Following"@,
                FollowingStatus::NotFollowing => ""@,
                FollowingStatus::Self_ => "You"@,
            },
    {
        match self.following_status {
            FollowingStatus::Following => "Following".to_owned(),
            FollowingStatus::NotFollowing => "".to_owned(),
            FollowingStatus::Self_ => "You".to_owned(),
        }
    }

}

impl PostComponent for PostHeader {
    /// The header takes one row.
    open spec fn rows(&self, area: Rect) -> u16 {
        1
    }

    fn height(&self, _area: Rect) -> (rows: u16) {
        1
    }
}

} // verus!
