//! The picture of the author beside a post.

use super::types::{PostComponent, PostContext};
use crate::ui::layout::Rect;
use vstd::prelude::*;

verus! {

pub struct PostAvatar {
    pub url: String,
    pub context: PostContext,
}

impl PostAvatar {
    pub fn new(url: String, context: PostContext) -> (avatar: Self)
        ensures
            avatar.url == url,
            avatar.context == context,
    {
        Self { url, context }
    }

}

impl PostComponent for PostAvatar {
    /// The avatar takes three rows.
    open spec fn rows(&self, area: Rect) -> u16 {
        3
    }

    fn height(&self, _area: Rect) -> (rows: u16) {
        3
    }
}

} // verus!
