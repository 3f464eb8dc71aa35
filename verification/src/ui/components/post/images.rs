//! The image block of a post.

use super::types::{ImageData, PostComponent, PostContext};
use crate::ui::layout::Rect;
use vstd::prelude::*;

verus! {

/// The rows that an image block takes.
pub const IMAGE_ROWS: u16 = 15;

pub struct PostImages {
    pub images: Vec<ImageData>,
    pub context: PostContext,
}

impl PostImages {
    pub fn new(images: Vec<ImageData>, context: PostContext) -> (block: Self)
        ensures
            block.images == images,
            block.context == context,
    {
        Self { images, context }
    }

}

impl PostComponent for PostImages {
    /// Fifteen rows where there is an image to show, none where the block is empty.
    open spec fn rows(&self, area: Rect) -> u16 {
        if self.images@.len() == 0 {
            0u16
        } else {
            IMAGE_ROWS
        }
    }

    fn height(&self, _area: Rect) -> (rows: u16) {
        if self.images.len() == 0 {
            0
        } else {
            IMAGE_ROWS
        }
    }
}

} // verus!
