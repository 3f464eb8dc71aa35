//! A post quoted inside another post.

use super::content::{wrapped_rows, PostContent};
use super::header::PostHeader;
use super::stats::PostStats;
use super::types::{PostComponent, PostContext, PostViewData};
use crate::ui::components::text::clamp_rows;
use crate::ui::layout::Rect;
use vstd::prelude::*;

verus! {

pub struct QuotedPost {
    pub post: PostViewData,
    pub header: PostHeader,
    pub content: PostContent,
    pub stats: PostStats,
    pub context: PostContext,
}

impl QuotedPost {
    pub fn new(post: PostViewData, context: PostContext) -> (quoted: Self)
        ensures
            quoted.post == post,
            quoted.context == context,
            quoted.content.text@ == super::content::shown_text(post.record.text),
            quoted.header.author_display_name@ == super::header::shown_name(&post),
            quoted.header.author_handle@ == post.author.handle@,
            quoted.header.timestamp@ == post.indexed_at@,
            quoted.header.is_reply == post.record.has_reply,
            quoted.stats.likes == super::stats::shown_count(post.like_count),
            quoted.stats.reposts == super::stats::shown_count(post.repost_count),
            quoted.stats.replies == super::stats::shown_count(post.reply_count),
            quoted.stats.has_liked == post.viewer_like is Some,
            quoted.stats.has_reposted == post.viewer_repost is Some,
    {
        let header = PostHeader::new(&post, context);
        let content = PostContent::new(&post, context);
        let stats = PostStats::new(&post, context);
        Self { post, header, content, stats, context }
    }

}

impl PostComponent for QuotedPost {
    /// The rows of the quote block: a border above and below, the header, the text wrapped inside the borders, and the counts.
    open spec fn rows(&self, area: Rect) -> u16 {
        clamp_rows(
            4 + wrapped_rows(
                self.content.text@,
                if area.width >= 2 {
                    (area.width - 2) as u16
                } else {
                    0u16
                },
                4,
            ) as int,
        )
    }

    fn height(&self, area: Rect) -> (rows: u16) {
        let inner_width: u16 = if area.width >= 2 {
            area.width - 2
        } else {
            0
        };
        let inner_area = Rect { x: area.x, y: area.y, width: inner_width, height: area.height };
        let content_height: u32 = self.header.height(inner_area) as u32 + self.content.height(
            inner_area,
        ) as u32 + self.stats.height(inner_area) as u32;
        let total: u32 = content_height + 2;
        if total > 65535 {
            65535
        } else {
            total as u16
        }
    }
}

} // verus!
