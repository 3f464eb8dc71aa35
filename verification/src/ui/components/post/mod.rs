//! A post as a list shows it: the parts it is drawn from, made once from the
//! record of the post.

pub mod avatar;
pub mod content;
pub mod header;
pub mod images;
pub mod quoted_post;
pub mod stats;
pub mod types;

use avatar::PostAvatar;
use content::PostContent;
use header::PostHeader;
use images::PostImages;
use quoted_post::QuotedPost;
use stats::PostStats;
use types::{
    clone_images, Embed, ImageData, PostComponent, PostContext, PostViewData, QuotedRecord,
};
use crate::ui::components::post_list::{
    gives_heights, height_accessor, slots_show, PostListBase, Slot,
};
use crate::ui::layout::Rect;
use std::collections::VecDeque;
use vstd::prelude::*;

verus! {

/// A part of a post that is drawn below its header.
#[derive(Clone, Copy, PartialEq, Eq, Structural, Debug)]
pub enum PostPart {
    Content,
    Images,
    QuotedPost,
    Stats,
}

/// Where a part of a post is drawn.
#[derive(Clone, Copy, PartialEq, Eq, Structural, Debug)]
pub struct PartPlace {
    pub part: PostPart,
    pub area: Rect,
}

/// The heights of `parts`, in their order.
pub open spec fn part_heights(parts: Seq<(PostPart, u16)>) -> Seq<u16> {
    Seq::new(parts.len(), |i: int| parts[i].1)
}

/// `places` are where the parts `parts` of a post are drawn inside `inner`:
/// one below the other, below the one row of the header, each as wide as
/// `inner`, as long as rows are left; a part gets its height in rows, or the
/// rows that are left where those are fewer.
pub open spec fn parts_placed(parts: Seq<(PostPart, u16)>, inner: Rect, places: Seq<PartPlace>) -> bool {
    exists|slots: Seq<Slot>|
        {
            &&& #[trigger] slots_show(
                part_heights(parts),
                1,
                0,
                inner.y as int,
                inner.height as int,
                slots,
            )
            &&& places.len() == slots.len()
            &&& forall|j: int|
                0 <= j < places.len() ==> (#[trigger] places[j]).part == parts[j].0 && places[j].area
                    == (Rect {
                    x: inner.x,
                    y: slots[j].y,
                    width: inner.width,
                    height: slots[j].height,
                })
        }
}

/// The images of a post: those of its image block, or those that come with a
/// record it embeds.
pub open spec fn post_images(post: &PostViewData) -> Option<Seq<ImageData>> {
    match post.embed {
        Embed::Images(images) => Some(images@),
        Embed::RecordWithMedia(Some(images)) => Some(images@),
        _ => None,
    }
}

/// The quoted post as a post of its own. It keeps what the network says of the
/// quoted post; nothing is known of how the viewer relates to it.
pub open spec fn is_quoted_post(quoted: &QuotedRecord, post: &PostViewData) -> bool {
    &&& post.uri == quoted.uri
    &&& post.cid == quoted.cid
    &&& post.author == quoted.author
    &&& post.record == quoted.record
    &&& post.indexed_at == quoted.indexed_at
    &&& post.like_count == quoted.like_count
    &&& post.repost_count == quoted.repost_count
    &&& post.reply_count == quoted.reply_count
    &&& post.quote_count == quoted.quote_count
    &&& post.viewer_like is None
    &&& post.viewer_repost is None
    &&& match quoted.images {
        Some(images) => post.embed matches Embed::Images(own) && own@ == images@,
        None => post.embed is Nothing,
    }
}

/// `shown` is what is drawn for `post`: its parts say what the record of the
/// post says. The header names the author, by the display name where there
/// is one, and says when the post was indexed, whether it is a reply and
/// whether the viewer follows the author; the counts are those of the post;
/// there is an avatar, an image block and a quoted post exactly where the
/// post has them.
pub open spec fn shows_post(shown: &Post, post: &PostViewData) -> bool {
    &&& shown.uri@ == post.uri@
    &&& shown.avatar is Some == post.author.avatar is Some
    &&& shown.avatar is Some ==> shown.avatar->0.url@ == post.author.avatar->0@
    &&& shown.content.text@ == content::shown_text(post.record.text)
    &&& shown.header.author_display_name@ == header::shown_name(post)
    &&& shown.header.author_handle@ == post.author.handle@
    &&& shown.header.timestamp@ == post.indexed_at@
    &&& shown.header.is_reply == post.record.has_reply
    &&& shown.header.following_status == if header::follows_author(post) {
        header::FollowingStatus::Following
    } else {
        header::FollowingStatus::NotFollowing
    }
    &&& shown.stats.likes == stats::shown_count(post.like_count)
    &&& shown.stats.reposts == stats::shown_count(post.repost_count)
    &&& shown.stats.replies == stats::shown_count(post.reply_count)
    &&& shown.stats.has_liked == post.viewer_like is Some
    &&& shown.stats.has_reposted == post.viewer_repost is Some
    &&& shown.quoted_post is Some == post.embed is Quote
    &&& shown.quoted_post is Some ==> is_quoted_post(
        &post.embed->Quote_0,
        &shown.quoted_post->0.post,
    ) && shown.quoted_post->0.content.text@ == content::shown_text(
        post.embed->Quote_0.record.text,
    )
    &&& shown.images is Some == post_images(post) is Some
    &&& shown.images is Some ==> shown.images->0.images@ == post_images(post)->0
}

/// What is drawn for a post is drawn for every post that equals it.
pub proof fn lemma_shows_same_post(shown: &Post, post: &PostViewData, other: &PostViewData)
    requires
        shows_post(shown, post),
        post.same(other),
    ensures
        shows_post(shown, other),
{
}

pub struct Post {
    pub header: PostHeader,
    pub avatar: Option<PostAvatar>,
    pub content: PostContent,
    pub quoted_post: Option<QuotedPost>,
    pub images: Option<PostImages>,
    pub stats: PostStats,
    pub context: PostContext,
    pub uri: String,
}

impl Post {
    pub fn new(post: PostViewData, context: PostContext) -> (shown: Self)
        ensures
            shown.uri == post.uri,
            shown.context == context,
            shows_post(&shown, &post),
    {
        let avatar = match &post.author.avatar {
            Some(avatar_url) => Some(PostAvatar::new(avatar_url.clone(), context)),
            None => None,
        };
        let header = PostHeader::new(&post, context);
        let content = PostContent::new(&post, context);
        let quoted_post = match Self::extract_quoted_post_data(&post) {
            Some(quoted) => Some(QuotedPost::new(quoted, context)),
            None => None,
        };
        let images = match Self::extract_images_from_post(&post) {
            Some(extracted_images) => Some(PostImages::new(extracted_images, context)),
            None => None,
        };
        let stats = PostStats::new(&post, context);
        let uri = post.uri;
        Self { header, avatar, content, quoted_post, images, stats, context, uri }
    }

    /// The post that `post` quotes, as a post of its own; none where `post`
    /// embeds no post that can be shown.
    pub fn extract_quoted_post_data(post: &PostViewData) -> (quoted: Option<PostViewData>)
        ensures
            quoted is Some == post.embed is Quote,
            quoted is Some ==> is_quoted_post(&post.embed->Quote_0, &quoted->0),
    {
        match &post.embed {
            Embed::Quote(record) => Some(
                PostViewData {
                    uri: record.uri.clone(),
                    cid: record.cid.clone(),
                    author: record.author.clone(),
                    record: record.record.clone(),
                    indexed_at: record.indexed_at.clone(),
                    like_count: record.like_count,
                    repost_count: record.repost_count,
                    reply_count: record.reply_count,
                    quote_count: record.quote_count,
                    viewer_like: None,
                    viewer_repost: None,
                    embed: match &record.images {
                        Some(images) => Embed::Images(clone_images(images)),
                        None => Embed::Nothing,
                    },
                },
            ),
            _ => None,
        }
    }

    /// The images of `post`, see `post_images`.
    pub fn extract_images_from_post(post: &PostViewData) -> (images: Option<Vec<ImageData>>)
        ensures
            images is Some == post_images(post) is Some,
            images is Some ==> images->0@ == post_images(post)->0,
    {
        match &post.embed {
            Embed::Images(images) => Some(clone_images(images)),
            Embed::RecordWithMedia(Some(images)) => Some(clone_images(images)),
            _ => None,
        }
    }

    /// The parts that are drawn below the header, each with the rows that it
    /// asks for in an area as wide as `inner`: the text, the images where
    /// there are any, the quoted post where there is one, and the counts.
    pub open spec fn parts(&self, inner: Rect) -> Seq<(PostPart, u16)> {
        seq![(PostPart::Content, self.content.rows(inner))] + match self.images {
            Some(images) => seq![(PostPart::Images, images.rows(inner))],
            None => Seq::empty(),
        } + match self.quoted_post {
            Some(quoted) => seq![(PostPart::QuotedPost, quoted.rows(inner))],
            None => Seq::empty(),
        } + seq![(PostPart::Stats, self.stats.rows(inner))]
    }

    /// The row of the header: the first row of `inner`.
    pub fn header_row(inner: Rect) -> (row: Rect)
        ensures
            row == (Rect { x: inner.x, y: inner.y, width: inner.width, height: 1 }),
    {
        Rect { x: inner.x, y: inner.y, width: inner.width, height: 1 }
    }

    /// Where the parts of the post are drawn inside `inner`, see
    /// `parts_placed`.
    pub fn layout(&self, inner: Rect) -> (places: Vec<PartPlace>)
        ensures
            parts_placed(self.parts(inner), inner, places@),
    {
        let mut kinds: Vec<PostPart> = Vec::new();
        let mut heights: VecDeque<u16> = VecDeque::new();
        kinds.push(PostPart::Content);
        heights.push_back(self.content.height(inner));
        match &self.images {
            Some(images) => {
                kinds.push(PostPart::Images);
                heights.push_back(images.height(inner));
            },
            None => {},
        }
        match &self.quoted_post {
            Some(quoted_post) => {
                kinds.push(PostPart::QuotedPost);
                heights.push_back(quoted_post.height(inner));
            },
            None => {},
        }
        kinds.push(PostPart::Stats);
        heights.push_back(self.stats.height(inner));
        let ghost parts = self.parts(inner);
        assert(heights@ =~= part_heights(parts));
        assert(kinds@.len() == parts.len());
        assert(forall|j: int| 0 <= j < kinds@.len() ==> kinds@[j] == parts[j].0);
        let own = |rows: &u16| -> (same: u16)
            ensures
                same == *rows,
            { *rows };
        assert(height_accessor(heights@, own));
        assert(gives_heights(heights@, own, heights@));
        let start = PostListBase { selected_index: 0, scroll_offset: 0, last_known_height: 0 };
        let slots = start.visible_slots(&heights, own, 1, inner.y, inner.height);
        let mut places: Vec<PartPlace> = Vec::new();
        let mut j: usize = 0;
        while j < slots.len()
            invariant
                j <= slots@.len(),
                slots@.len() <= kinds@.len(),
                places@.len() == j,
                forall|k: int|
                    0 <= k < j ==> (#[trigger] places@[k]).part == kinds@[k] && places@[k].area == (Rect {
                        x: inner.x,
                        y: slots@[k].y,
                        width: inner.width,
                        height: slots@[k].height,
                    }),
            decreases slots@.len() - j,
        {
            places.push(
                PartPlace {
                    part: kinds[j],
                    area: Rect {
                        x: inner.x,
                        y: slots[j].y,
                        width: inner.width,
                        height: slots[j].height,
                    },
                },
            );
            j += 1;
        }
        assert(slots_show(part_heights(parts), 1, 0, inner.y as int, inner.height as int, slots@));
        places
    }

    pub fn get_uri(&self) -> (uri: &String)
        ensures
            *uri == self.uri,
    {
        &self.uri
    }

    pub fn has_avatar(&self) -> (has: bool)
        ensures
            has == self.avatar is Some,
    {
        self.avatar.is_some()
    }
}

} // verus!
