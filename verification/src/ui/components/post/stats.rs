//! The counts below a post.

use super::types::{PostComponent, PostContext, PostViewData};
use crate::ui::layout::Rect;
use vstd::prelude::*;

verus! {

/// A count as it is shown: nothing counts as zero, and a count outside of
/// what a `u32` holds is shown as the nearest one inside.
pub open spec fn shown_count(count: Option<i64>) -> u32 {
    match count {
        Some(n) => if n < 0 {
            0u32
        } else if n > u32::MAX {
            u32::MAX
        } else {
            n as u32
        },
        None => 0u32,
    }
}

pub struct PostStats {
    pub likes: u32,
    pub reposts: u32,
    pub replies: u32,
    pub has_liked: bool,
    pub has_reposted: bool,
    pub context: PostContext,
}

impl PostStats {
    pub fn new(post: &PostViewData, context: PostContext) -> (stats: Self)
        ensures
            stats.likes == shown_count(post.like_count),
            stats.reposts == shown_count(post.repost_count),
            stats.replies == shown_count(post.reply_count),
            stats.has_liked == post.viewer_like is Some,
            stats.has_reposted == post.viewer_repost is Some,
            stats.context == context,
    {
        Self {
            likes: Self::count(post.like_count),
            reposts: Self::count(post.repost_count),
            replies: Self::count(post.reply_count),
            has_liked: Self::check_liked(post),
            has_reposted: Self::check_reposted(post),
            context,
        }
    }

    /// A count as it is shown, see `shown_count`.
    pub fn count(count: Option<i64>) -> (shown: u32)
        ensures
            shown == shown_count(count),
    {
        match count {
            Some(n) => if n < 0 {
                0
            } else if n > 4294967295 {
                4294967295
            } else {
                n as u32
            },
            None => 0,
        }
    }

    /// Whether the viewer likes the post.
    pub fn check_liked(post: &PostViewData) -> (liked: bool)
        ensures
            liked == post.viewer_like is Some,
    {
        post.viewer_like.is_some()
    }

    /// Whether the viewer reposted the post.
    pub fn check_reposted(post: &PostViewData) -> (reposted: bool)
        ensures
            reposted == post.viewer_repost is Some,
    {
        post.viewer_repost.is_some()
    }

}

impl PostComponent for PostStats {
    /// The counts take one row.
    open spec fn rows(&self, area: Rect) -> u16 {
        1
    }

    fn height(&self, _area: Rect) -> (rows: u16) {
        1
    }
}

} // verus!
