//! The plain records that the lists hold: a post as the network returned it,
//! with everything that the client reads from it kept as ordinary values.

use crate::ui::layout::Rect;
use vstd::prelude::*;

verus! {

/// Whether a post is drawn as the selected one.
pub struct PostState {
    pub selected: bool,
}

/// A part of a post that is drawn in rows of its own.
pub trait PostComponent {
    /// The rows that the part asks for in `area`.
    spec fn rows(&self, area: Rect) -> u16;

    /// The rows that the part asks for in `area`.
    fn height(&self, area: Rect) -> (rows: u16)
        ensures
            rows == self.rows(area),
    ;
}

/// What a post component needs to know of the list that shows it.
#[derive(Clone, Copy)]
pub struct PostContext {
    pub indent_level: u16,
}

/// What the record of a post holds where its text belongs.
pub enum RecordText {
    /// The record holds a text.
    Text(String),
    /// The record holds an explicit null in place of a text.
    Null,
    /// The record holds something else there; the string shows what.
    Unexpected(String),
    /// The record has no text at all.
    Missing,
    /// The record itself is null.
    NullRecord,
    /// The record is no object; the string shows what it is.
    Other(String),
}

impl Clone for RecordText {
    fn clone(&self) -> (copy: Self)
        ensures
            copy == *self,
    {
        match self {
            RecordText::Text(text) => RecordText::Text(text.clone()),
            RecordText::Null => RecordText::Null,
            RecordText::Unexpected(shown) => RecordText::Unexpected(shown.clone()),
            RecordText::Missing => RecordText::Missing,
            RecordText::NullRecord => RecordText::NullRecord,
            RecordText::Other(shown) => RecordText::Other(shown.clone()),
        }
    }
}

/// Clones an optional string; the copy equals what was cloned.
pub fn clone_optional_string(value: &Option<String>) -> (copy: Option<String>)
    ensures
        copy == *value,
{
    match value {
        Some(text) => Some(text.clone()),
        None => None,
    }
}

/// The author of a post or of a notification.
pub struct Author {
    pub did: String,
    pub handle: String,
    pub display_name: Option<String>,
    pub avatar: Option<String>,
    /// Whether the network said anything about how the viewer relates to the author.
    pub has_viewer_state: bool,
    /// The record by which the viewer follows the author, if there is one.
    pub following: Option<String>,
}

impl Clone for Author {
    fn clone(&self) -> (copy: Self)
        ensures
            copy == *self,
    {
        Author {
            did: self.did.clone(),
            handle: self.handle.clone(),
            display_name: clone_optional_string(&self.display_name),
            avatar: clone_optional_string(&self.avatar),
            has_viewer_state: self.has_viewer_state,
            following: clone_optional_string(&self.following),
        }
    }
}

/// One image attached to a post.
pub struct ImageData {
    pub thumb: String,
    pub fullsize: String,
    pub alt: String,
}

impl ImageData {
    /// The words that describe the image; none where there are none.
    pub fn get_alt_text(&self) -> (alt: Option<&str>)
        ensures
            self.alt@.len() == 0 ==> alt is None,
            self.alt@.len() > 0 ==> alt is Some && alt->0@ == self.alt@,
    {
        if self.alt.as_str().is_empty() {
            None
        } else {
            Some(self.alt.as_str())
        }
    }
}

impl Clone for ImageData {
    fn clone(&self) -> (copy: Self)
        ensures
            copy == *self,
    {
        ImageData {
            thumb: self.thumb.clone(),
            fullsize: self.fullsize.clone(),
            alt: self.alt.clone(),
        }
    }
}

/// Clones a list of images; the copy holds the same images.
pub fn clone_images(images: &Vec<ImageData>) -> (copy: Vec<ImageData>)
    ensures
        copy@ == images@,
{
    let mut copy: Vec<ImageData> = Vec::new();
    let mut i: usize = 0;
    while i < images.len()
        invariant
            i <= images@.len(),
            copy@ == images@.subrange(0, i as int),
        decreases images@.len() - i,
    {
        copy.push(images[i].clone());
        assert(copy@ =~= images@.subrange(0, i + 1));
        i += 1;
    }
    assert(images@.subrange(0, images@.len() as int) =~= images@);
    copy
}

/// Two optional image lists hold the same images.
pub open spec fn same_images(a: Option<Vec<ImageData>>, b: Option<Vec<ImageData>>) -> bool {
    match (a, b) {
        (Some(x), Some(y)) => x@ == y@,
        (None, None) => true,
        _ => false,
    }
}

/// Clones an optional list of images.
pub fn clone_optional_images(images: &Option<Vec<ImageData>>) -> (copy: Option<Vec<ImageData>>)
    ensures
        same_images(copy, *images),
{
    match images {
        Some(list) => Some(clone_images(list)),
        None => None,
    }
}

/// What the client reads from the record of a post.
pub struct Record {
    pub text: RecordText,
    /// Whether the record says that the post is a reply.
    pub has_reply: bool,
    /// The post that the record names as the one replied to, where it names one.
    pub reply_parent: Option<String>,
}

impl Clone for Record {
    fn clone(&self) -> (copy: Self)
        ensures
            copy == *self,
    {
        Record {
            text: self.text.clone(),
            has_reply: self.has_reply,
            reply_parent: clone_optional_string(&self.reply_parent),
        }
    }
}

/// A post that another post quotes, as far as the network hands it out.
pub struct QuotedRecord {
    pub uri: String,
    pub cid: String,
    pub author: Author,
    pub record: Record,
    pub indexed_at: String,
    pub like_count: Option<i64>,
    pub repost_count: Option<i64>,
    pub reply_count: Option<i64>,
    pub quote_count: Option<i64>,
    /// The images of the quoted post, if it has an image block.
    pub images: Option<Vec<ImageData>>,
}

impl QuotedRecord {
    /// Equal field by field, the images by what the lists hold.
    pub open spec fn same(&self, other: &QuotedRecord) -> bool {
        &&& self.uri == other.uri
        &&& self.cid == other.cid
        &&& self.author == other.author
        &&& self.record == other.record
        &&& self.indexed_at == other.indexed_at
        &&& self.like_count == other.like_count
        &&& self.repost_count == other.repost_count
        &&& self.reply_count == other.reply_count
        &&& self.quote_count == other.quote_count
        &&& same_images(self.images, other.images)
    }
}

impl Clone for QuotedRecord {
    fn clone(&self) -> (copy: Self)
        ensures
            copy.same(self),
    {
        QuotedRecord {
            uri: self.uri.clone(),
            cid: self.cid.clone(),
            author: self.author.clone(),
            record: self.record.clone(),
            indexed_at: self.indexed_at.clone(),
            like_count: self.like_count,
            repost_count: self.repost_count,
            reply_count: self.reply_count,
            quote_count: self.quote_count,
            images: clone_optional_images(&self.images),
        }
    }
}

/// What a post embeds.
pub enum Embed {
    /// Nothing.
    Nothing,
    /// An image block.
    Images(Vec<ImageData>),
    /// Another post, quoted.
    Quote(QuotedRecord),
    /// A record that cannot be shown as a quoted post.
    OtherRecord,
    /// A record together with media; the images where the media are images.
    RecordWithMedia(Option<Vec<ImageData>>),
    /// Anything else.
    Other,
}

impl Embed {
    /// The same embed, lists compared by what they hold.
    pub open spec fn same(&self, other: &Embed) -> bool {
        match (*self, *other) {
            (Embed::Nothing, Embed::Nothing) => true,
            (Embed::Images(a), Embed::Images(b)) => a@ == b@,
            (Embed::Quote(a), Embed::Quote(b)) => a.same(&b),
            (Embed::OtherRecord, Embed::OtherRecord) => true,
            (Embed::RecordWithMedia(a), Embed::RecordWithMedia(b)) => same_images(a, b),
            (Embed::Other, Embed::Other) => true,
            _ => false,
        }
    }
}

impl Clone for Embed {
    fn clone(&self) -> (copy: Self)
        ensures
            copy.same(self),
    {
        match self {
            Embed::Nothing => Embed::Nothing,
            Embed::Images(images) => Embed::Images(clone_images(images)),
            Embed::Quote(quoted) => Embed::Quote(quoted.clone()),
            Embed::OtherRecord => Embed::OtherRecord,
            Embed::RecordWithMedia(media) => Embed::RecordWithMedia(clone_optional_images(media)),
            Embed::Other => Embed::Other,
        }
    }
}

/// A post as the lists hold it. Its `uri` is what identifies it.
pub struct PostViewData {
    pub uri: String,
    pub cid: String,
    pub author: Author,
    pub record: Record,
    pub indexed_at: String,
    pub like_count: Option<i64>,
    pub repost_count: Option<i64>,
    pub reply_count: Option<i64>,
    pub quote_count: Option<i64>,
    /// The record by which the viewer likes the post, if there is one.
    pub viewer_like: Option<String>,
    /// The record by which the viewer reposted the post, if there is one.
    pub viewer_repost: Option<String>,
    pub embed: Embed,
}

impl PostViewData {
    /// Equal field by field, lists compared by what they hold.
    pub open spec fn same(&self, other: &PostViewData) -> bool {
        &&& self.uri == other.uri
        &&& self.cid == other.cid
        &&& self.author == other.author
        &&& self.record == other.record
        &&& self.indexed_at == other.indexed_at
        &&& self.like_count == other.like_count
        &&& self.repost_count == other.repost_count
        &&& self.reply_count == other.reply_count
        &&& self.quote_count == other.quote_count
        &&& self.viewer_like == other.viewer_like
        &&& self.viewer_repost == other.viewer_repost
        &&& self.embed.same(&other.embed)
    }
}

impl Clone for PostViewData {
    fn clone(&self) -> (copy: Self)
        ensures
            copy.same(self),
    {
        PostViewData {
            uri: self.uri.clone(),
            cid: self.cid.clone(),
            author: self.author.clone(),
            record: self.record.clone(),
            indexed_at: self.indexed_at.clone(),
            like_count: self.like_count,
            repost_count: self.repost_count,
            reply_count: self.reply_count,
            quote_count: self.quote_count,
            viewer_like: clone_optional_string(&self.viewer_like),
            viewer_repost: clone_optional_string(&self.viewer_repost),
            embed: self.embed.clone(),
        }
    }
}

/// A notification as the notification list holds it.
pub struct NotificationData {
    pub uri: String,
    pub cid: String,
    pub author: Author,
    pub reason: String,
    pub is_read: bool,
    pub indexed_at: String,
}

impl Clone for NotificationData {
    fn clone(&self) -> (copy: Self)
        ensures
            copy == *self,
    {
        NotificationData {
            uri: self.uri.clone(),
            cid: self.cid.clone(),
            author: self.author.clone(),
            reason: self.reason.clone(),
            is_read: self.is_read,
            indexed_at: self.indexed_at.clone(),
        }
    }
}

/// An item of a list: a post, or a notification. Its `uri` is what
/// identifies it.
pub enum ContentItem {
    Post(PostViewData),
    Notification(NotificationData),
}

impl ContentItem {
    /// The key of the item.
    pub fn uri(&self) -> (uri: &String)
        ensures
            uri == match self {
                ContentItem::Post(post) => &post.uri,
                ContentItem::Notification(notification) => &notification.uri,
            },
    {
        match self {
            ContentItem::Post(post) => &post.uri,
            ContentItem::Notification(notification) => &notification.uri,
        }
    }
}

} // verus!
