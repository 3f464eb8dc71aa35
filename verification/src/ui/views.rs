//! The lists that the client shows, one above the other: the view on top is
//! the one that is drawn, scrolled and changed.

use super::components::author_feed::AuthorFeed;
use super::components::author_profile::{AuthorProfile, ProfileData};
use super::components::feed::{rendered_for, Feed};
use super::components::height_cache::{item_rows, HeightCache};
use super::components::notifications::NotificationView;
use super::components::post::types::{ContentItem, PostContext, PostViewData};
use super::components::post::{lemma_shows_same_post, shows_post, Post};
use super::components::post_list::{
    clamp_cursor, clamped, height_inputs, post_uris, PostList, PostListBase,
};
use super::components::text::str_eq;
use super::components::thread::{
    selected_after, string_views, thread_posts, thread_refused, OutputThreadRefs, Thread,
    ThreadRelationships,
};
use std::collections::VecDeque;
use vstd::prelude::*;
use vstd::string::StringExecFns;

verus! {

/// Where the first post with the key `uri` stands in `posts`; the length of
/// `posts` where none has it.
pub open spec fn position_of(posts: Seq<PostViewData>, uri: Seq<char>) -> int
    decreases posts.len(),
{
    if posts.len() == 0 {
        0
    } else if posts[0].uri@ == uri {
        0
    } else {
        1 + position_of(posts.drop_first(), uri)
    }
}

/// `position_of` is the first place of the key, or the length.
pub proof fn lemma_position_of(posts: Seq<PostViewData>, uri: Seq<char>)
    ensures
        0 <= position_of(posts, uri) <= posts.len(),
        position_of(posts, uri) < posts.len() ==> posts[position_of(posts, uri)].uri@ == uri,
        forall|k: int| 0 <= k < position_of(posts, uri) ==> (#[trigger] posts[k]).uri@ != uri,
    decreases posts.len(),
{
    if posts.len() > 0 && posts[0].uri@ != uri {
        let rest = posts.drop_first();
        lemma_position_of(rest, uri);
        assert forall|k: int| 0 <= k < position_of(posts, uri) implies (#[trigger] posts[k]).uri@
            != uri by {
            if k > 0 {
                assert(rest[k - 1] == posts[k]);
            }
        }
    }
}

/// `posts` with the first post that has the key of `item` replaced by `item`;
/// `posts` itself where no post has that key.
pub open spec fn updated_posts(posts: Seq<PostViewData>, item: PostViewData) -> Seq<PostViewData> {
    if position_of(posts, item.uri@) < posts.len() {
        posts.update(position_of(posts, item.uri@), item)
    } else {
        posts
    }
}

/// `posts` without the first post that has the key `uri`; `posts` itself
/// where no post has that key.
pub open spec fn without_post(posts: Seq<PostViewData>, uri: Seq<char>) -> Seq<PostViewData> {
    if position_of(posts, uri) < posts.len() {
        posts.remove(position_of(posts, uri))
    } else {
        posts
    }
}

/// Where the first post with the key `uri` stands in `posts`.
pub fn find_position(posts: &VecDeque<PostViewData>, uri: &str) -> (found: Option<usize>)
    ensures
        found is Some == (position_of(posts@, uri@) < posts@.len()),
        found is Some ==> found->0 == position_of(posts@, uri@),
{
    let mut i: usize = 0;
    assert(posts@.skip(0) =~= posts@);
    while i < posts.len()
        invariant
            i <= posts@.len(),
            position_of(posts@, uri@) == i + position_of(posts@.skip(i as int), uri@),
        decreases posts@.len() - i,
    {
        assert(posts@.skip(i as int).drop_first() =~= posts@.skip(i + 1));
        if str_eq(posts[i].uri.as_str(), uri) {
            return Some(i);
        }
        i += 1;
    }
    None
}

/// The heights that are remembered after `item` took the place of the post
/// with its key: the height of that post is forgotten where `item` differs
/// from it in what the height depends on.
pub open spec fn cached_after_update(
    posts: Seq<PostViewData>,
    cached: Map<Seq<char>, u16>,
    item: PostViewData,
) -> Map<Seq<char>, u16> {
    if position_of(posts, item.uri@) < posts.len() && height_inputs(
        &posts[position_of(posts, item.uri@)],
    ) != height_inputs(&item) {
        cached.remove(item.uri@)
    } else {
        cached
    }
}

/// Puts `updated_post` in the place of the first post with its key, and what
/// is drawn for it along with it. The height of the post is forgotten where
/// the new post may need other rows than the old one.
fn replace_post(
    posts: &mut VecDeque<PostViewData>,
    rendered_posts: &mut Vec<Post>,
    heights: &mut HeightCache,
    updated_post: PostViewData,
    indent_level: u16,
)
    ensures
        final(posts)@ == updated_posts(old(posts)@, updated_post),
        final(heights)@ == cached_after_update(old(posts)@, old(heights)@, updated_post),
        final(rendered_posts)@.len() == old(rendered_posts)@.len(),
        rendered_for(old(rendered_posts)@, old(posts)@) ==> rendered_for(
            final(rendered_posts)@,
            final(posts)@,
        ),
        position_of(old(posts)@, updated_post.uri@) < old(posts)@.len() && position_of(
            old(posts)@,
            updated_post.uri@,
        ) < old(rendered_posts)@.len() ==> {
            let shown = final(rendered_posts)@[position_of(old(posts)@, updated_post.uri@)];
            &&& shows_post(&shown, &updated_post)
            &&& shown.context.indent_level == indent_level
            &&& final(rendered_posts)@ == old(rendered_posts)@.update(
                position_of(old(posts)@, updated_post.uri@),
                shown,
            )
        },
        !(position_of(old(posts)@, updated_post.uri@) < old(posts)@.len() && position_of(
            old(posts)@,
            updated_post.uri@,
        ) < old(rendered_posts)@.len()) ==> final(rendered_posts)@ == old(rendered_posts)@,
{
    match find_position(posts, updated_post.uri.as_str()) {
        Some(index) => {
            let copy = updated_post.clone();
            let shown = Post::new(copy, PostContext { indent_level });
            proof {
                lemma_shows_same_post(&shown, &copy, &updated_post);
            }
            if !PostListBase::same_height_inputs(&posts[index], &updated_post) {
                heights.remove(updated_post.uri.as_str());
            }
            if index < rendered_posts.len() {
                let _ = rendered_posts.remove(index);
                rendered_posts.insert(index, shown);
            }
            let _ = posts.remove(index);
            posts.insert(index, updated_post);
            proof {
                lemma_position_of(old(posts)@, updated_post.uri@);
                assert(posts@ =~= old(posts)@.update(index as int, updated_post));
                if index < old(rendered_posts)@.len() {
                    assert(rendered_posts@ =~= old(rendered_posts)@.update(index as int, shown));
                }
            }
        },
        None => {
            proof {
                lemma_position_of(old(posts)@, updated_post.uri@);
            }
        },
    }
}

/// Takes the first post with the key `uri` out of `posts`, and what is drawn
/// for it along with it. The result says whether there was one.
fn take_out_post(
    posts: &mut VecDeque<PostViewData>,
    rendered_posts: &mut Vec<Post>,
    uri: &str,
) -> (removed: bool)
    ensures
        removed == (position_of(old(posts)@, uri@) < old(posts)@.len()),
        final(posts)@ == without_post(old(posts)@, uri@),
        rendered_for(old(rendered_posts)@, old(posts)@) ==> rendered_for(
            final(rendered_posts)@,
            final(posts)@,
        ),
        final(rendered_posts)@ == if removed && position_of(old(posts)@, uri@) < old(rendered_posts)@.len() {
            old(rendered_posts)@.remove(position_of(old(posts)@, uri@))
        } else {
            old(rendered_posts)@
        },
{
    match find_position(posts, uri) {
        Some(index) => {
            let _ = posts.remove(index);
            if index < rendered_posts.len() {
                let _ = rendered_posts.remove(index);
            }
            proof {
                assert(posts@ =~= old(posts)@.remove(index as int));
                if index < old(rendered_posts)@.len() {
                    assert(rendered_posts@ =~= old(rendered_posts)@.remove(index as int));
                }
            }
            true
        },
        None => false,
    }
}

/// The keys of `posts`, in their order.
fn uris_of(posts: &VecDeque<PostViewData>) -> (uris: Vec<String>)
    ensures
        string_views(uris@) == post_uris(posts@),
{
    let mut uris: Vec<String> = Vec::new();
    let mut i: usize = 0;
    while i < posts.len()
        invariant
            i <= posts@.len(),
            uris@.len() == i,
            forall|k: int| 0 <= k < i ==> (#[trigger] uris@[k])@ == posts@[k].uri@,
        decreases posts@.len() - i,
    {
        uris.push(posts[i].uri.clone());
        i += 1;
    }
    assert(string_views(uris@) =~= post_uris(posts@));
    uris
}

/// After a post was put in the place of the selected one, the selected post
/// is that post: where the first post with the key of `item` is the selected
/// one, it is `item` once the list was updated with `item`.
pub proof fn lemma_updated_post_is_selected(
    posts: Seq<PostViewData>,
    item: PostViewData,
    selected: int,
)
    requires
        0 <= selected < posts.len(),
        position_of(posts, item.uri@) == selected,
    ensures
        updated_posts(posts, item).len() == posts.len(),
        updated_posts(posts, item)[selected] == item,
        forall|k: int|
            0 <= k < posts.len() && k != selected ==> updated_posts(posts, item)[k] == posts[k],
{
}

/// One list of the client.
pub enum ListView {
    Timeline(Feed),
    Thread(Thread),
    AuthorFeed(AuthorFeed),
    Notifications(NotificationView),
}

impl ListView {
    /// The cursor of the list.
    pub open spec fn base(&self) -> PostListBase {
        match self {
            ListView::Timeline(feed) => feed.base,
            ListView::Thread(thread) => thread.base,
            ListView::AuthorFeed(author_feed) => author_feed.base,
            ListView::Notifications(notification_view) => notification_view.base,
        }
    }

    /// The posts of the list; a list of notifications has none.
    pub open spec fn posts(&self) -> Seq<PostViewData> {
        match self {
            ListView::Timeline(feed) => feed.posts@,
            ListView::Thread(thread) => thread.posts@,
            ListView::AuthorFeed(author_feed) => author_feed.posts@,
            ListView::Notifications(_) => Seq::empty(),
        }
    }

    /// Every post of the list has its drawn counterpart.
    pub open spec fn wf(&self) -> bool {
        match self {
            ListView::Timeline(feed) => feed.wf(),
            ListView::Thread(thread) => thread.wf(),
            ListView::AuthorFeed(author_feed) => author_feed.wf(),
            ListView::Notifications(_) => true,
        }
    }

    /// What is drawn for the posts of the list, post for post; nothing for a
    /// list of notifications, which are drawn as they stand.
    pub open spec fn drawn(&self) -> Seq<Post> {
        match self {
            ListView::Timeline(feed) => feed.rendered_posts@,
            ListView::Thread(thread) => thread.rendered_posts@,
            ListView::AuthorFeed(author_feed) => author_feed.rendered_posts@,
            ListView::Notifications(_) => Seq::empty(),
        }
    }

    /// What a thread has worked out of its posts; nothing for another list.
    pub open spec fn relationships(&self) -> Option<ThreadRelationships> {
        match self {
            ListView::Thread(thread) => thread.cached_relationships,
            _ => None,
        }
    }

    /// How far the post `uri` is indented where the list draws it: in a
    /// thread as far as the thread has worked out for it, else not at all.
    pub open spec fn level_of(&self, uri: Seq<char>) -> u16 {
        match self.relationships() {
            Some(relationships) => if relationships.indents().contains_key(uri) {
                relationships.indents()[uri]
            } else {
                0
            },
            None => 0,
        }
    }

    /// What stands around the posts is as in `other`: the mark of the next
    /// page and the status line of a timeline, the post that a thread is
    /// about and its status line, the profile above an author's posts.
    pub open spec fn same_setting(&self, other: &ListView) -> bool {
        match (self, other) {
            (ListView::Timeline(feed), ListView::Timeline(before)) => feed.cursor == before.cursor
                && feed.status_line == before.status_line,
            (ListView::Thread(thread), ListView::Thread(before)) => thread.anchor_uri
                == before.anchor_uri && thread.status_line == before.status_line,
            (ListView::AuthorFeed(author_feed), ListView::AuthorFeed(before)) => author_feed.profile
                == before.profile,
            (ListView::Notifications(_), ListView::Notifications(_)) => true,
            _ => false,
        }
    }

    /// The same kind of list as `other`.
    pub open spec fn same_kind(&self, other: &ListView) -> bool {
        match (self, other) {
            (ListView::Timeline(_), ListView::Timeline(_)) => true,
            (ListView::Thread(_), ListView::Thread(_)) => true,
            (ListView::AuthorFeed(_), ListView::AuthorFeed(_)) => true,
            (ListView::Notifications(_), ListView::Notifications(_)) => true,
            _ => false,
        }
    }

    /// The heights of the items of the list: what is remembered, or the
    /// height that the list takes for an item of unknown height.
    pub open spec fn heights(&self) -> Seq<u16> {
        match self {
            ListView::Timeline(feed) => item_rows(
                feed.uris(),
                feed.cached(),
                feed.default_rows(),
            ),
            ListView::Thread(thread) => item_rows(
                thread.uris(),
                thread.cached(),
                thread.default_rows(),
            ),
            ListView::AuthorFeed(author_feed) => item_rows(
                author_feed.uris(),
                author_feed.cached(),
                author_feed.default_rows(),
            ),
            ListView::Notifications(notification_view) => item_rows(
                notification_view.uris(),
                notification_view.cached(),
                notification_view.default_rows(),
            ),
        }
    }

    /// The rows drawn above the first item while nothing is scrolled away.
    pub open spec fn lead(&self) -> int {
        match self {
            ListView::AuthorFeed(author_feed) => author_feed.profile.height as int,
            _ => 0,
        }
    }

    /// The list with `base` as its cursor.
    pub open spec fn with_base(self, base: PostListBase) -> ListView {
        match self {
            ListView::Timeline(feed) => ListView::Timeline(Feed { base, ..feed }),
            ListView::Thread(thread) => ListView::Thread(Thread { base, ..thread }),
            ListView::AuthorFeed(author_feed) => ListView::AuthorFeed(
                AuthorFeed { base, ..author_feed },
            ),
            ListView::Notifications(notification_view) => ListView::Notifications(
                NotificationView { base, ..notification_view },
            ),
        }
    }

    /// The list after its selection moved one item down; an empty list stays
    /// as it is.
    pub open spec fn scrolled_down(self) -> ListView {
        if self.heights().len() == 0 {
            self
        } else {
            self.with_base(self.base().after_scroll_down(self.heights(), self.lead()))
        }
    }

    /// The list after its selection moved one item up.
    pub open spec fn scrolled_up(self) -> ListView {
        self.with_base(self.base().after_scroll_up())
    }

    /// The keys of all posts of the list, in its order.
    pub fn get_all_post_uris(&self) -> (uris: Vec<String>)
        ensures
            string_views(uris@) == post_uris(self.posts()),
    {
        match self {
            ListView::Timeline(feed) => uris_of(&feed.posts),
            ListView::Thread(thread) => uris_of(&thread.posts),
            ListView::AuthorFeed(author_feed) => uris_of(&author_feed.posts),
            ListView::Notifications(_notification_view) => {
                let uris: Vec<String> = Vec::new();
                assert(string_views(uris@) =~= post_uris(self.posts()));
                uris
            },
        }
    }

    /// Moves the selection of the list one item down, see
    /// `PostListBase::after_scroll_down`. An empty list stays as it is.
    pub fn scroll_down(&mut self)
        ensures
            *final(self) == old(self).scrolled_down(),
            final(self).same_kind(old(self)),
            final(self).posts() == old(self).posts(),
            final(self).heights() == old(self).heights(),
            final(self).lead() == old(self).lead(),
            old(self).wf() ==> final(self).wf(),
            final(self).base() == if old(self).heights().len() == 0 {
                old(self).base()
            } else {
                old(self).base().after_scroll_down(old(self).heights(), old(self).lead())
            },
    {
        match self {
            ListView::Timeline(feed) => feed.scroll_down(),
            ListView::Thread(thread) => thread.scroll_down(),
            ListView::AuthorFeed(author_feed) => author_feed.scroll_down(),
            ListView::Notifications(notification_view) => notification_view.scroll_down(),
        }
    }

    /// Moves the selection of the list one item up, see
    /// `PostListBase::after_scroll_up`.
    pub fn scroll_up(&mut self)
        ensures
            *final(self) == old(self).scrolled_up(),
            final(self).same_kind(old(self)),
            final(self).posts() == old(self).posts(),
            final(self).heights() == old(self).heights(),
            final(self).lead() == old(self).lead(),
            old(self).wf() ==> final(self).wf(),
            final(self).base() == old(self).base().after_scroll_up(),
    {
        match self {
            ListView::Timeline(feed) => feed.scroll_up(),
            ListView::Thread(thread) => thread.scroll_up(),
            ListView::AuthorFeed(author_feed) => author_feed.scroll_up(),
            ListView::Notifications(notification_view) => notification_view.scroll_up(),
        }
    }

    /// A copy of the selected post; none where the selection points at no
    /// post, and none for a list of notifications.
    pub fn get_selected_post(&self) -> (post: Option<PostViewData>)
        ensures
            self.base().selected_index < self.posts().len() ==> post is Some && post->0.same(
                &self.posts()[self.base().selected_index as int],
            ),
            self.base().selected_index >= self.posts().len() ==> post is None,
    {
        match self {
            ListView::Timeline(feed) => feed.get_selected_post(),
            ListView::Thread(thread) => thread.get_selected_post(),
            ListView::AuthorFeed(author_feed) => author_feed.get_selected_post(),
            ListView::Notifications(_notification_view) => None,
        }
    }

    /// A copy of the selected item: the selected notification of a list of
    /// notifications, the selected post of any other list; none where the
    /// selection points at nothing.
    pub fn selected_item(&self) -> (item: Option<ContentItem>)
        ensures
            match self {
                ListView::Notifications(list) => if list.base.selected_index
                    < list.notifications@.len() {
                    item matches Some(ContentItem::Notification(notification)) && notification
                        == list.notifications@[list.base.selected_index as int]
                } else {
                    item is None
                },
                _ => if self.base().selected_index < self.posts().len() {
                    item matches Some(ContentItem::Post(post)) && post.same(
                        &self.posts()[self.base().selected_index as int],
                    )
                } else {
                    item is None
                },
            },
    {
        match self {
            ListView::Notifications(list) => {
                if list.base.selected_index < list.notifications.len() {
                    Some(ContentItem::Notification(list.get_notification()))
                } else {
                    None
                }
            },
            _ => match self.get_selected_post() {
                Some(post) => Some(ContentItem::Post(post)),
                None => None,
            },
        }
    }

    /// Whether the thread of the post `uri` can be opened from this list:
    /// always, but for the post that an open thread is about already.
    pub fn can_view_thread(&self, uri: &str) -> (allowed: bool)
        ensures
            allowed == match self {
                ListView::Thread(thread) => uri@ != thread.anchor_uri@,
                _ => true,
            },
    {
        match self {
            ListView::Thread(thread) => !str_eq(uri, thread.anchor_uri.as_str()),
            _ => true,
        }
    }

    /// Takes the post with the key `uri` out of the list, where the list holds
    /// one, and brings the cursor back into the list. A thread works out anew
    /// which of its posts are shown. A list of notifications stays as it is.
    pub fn remove_post(&mut self, uri: &str)
        ensures
            final(self).same_kind(old(self)),
            final(self).cached() == old(self).cached(),
            final(self).lead() == old(self).lead(),
            final(self).posts() == without_post(old(self).posts(), uri@),
            old(self).wf() ==> final(self).wf(),
            *old(self) is Notifications ==> *final(self) == *old(self),
            !(*old(self) is Notifications) ==> final(self).base() == if position_of(
                old(self).posts(),
                uri@,
            ) < old(self).posts().len() {
                clamped(old(self).base(), final(self).posts().len())
            } else {
                old(self).base()
            },
            *final(self) matches ListView::Thread(thread) ==> (position_of(old(self).posts(), uri@)
                < old(self).posts().len() ==> thread.relationships_hold()),
            position_of(old(self).posts(), uri@) >= old(self).posts().len() ==> final(self).relationships() == old(self).relationships(),
            final(self).same_setting(old(self)),
            final(self).drawn() == if position_of(old(self).posts(), uri@) < old(self).posts().len()
                && position_of(old(self).posts(), uri@) < old(self).drawn().len() {
                old(self).drawn().remove(position_of(old(self).posts(), uri@))
            } else {
                old(self).drawn()
            },
    {
        match self {
            ListView::Timeline(feed) => {
                if take_out_post(&mut feed.posts, &mut feed.rendered_posts, uri) {
                    clamp_cursor(&mut feed.base, feed.posts.len());
                }
            },
            ListView::Thread(thread) => {
                if take_out_post(&mut thread.posts, &mut thread.rendered_posts, uri) {
                    clamp_cursor(&mut thread.base, thread.posts.len());
                    thread.update_relationships();
                }
            },
            ListView::AuthorFeed(author_feed) => {
                if take_out_post(&mut author_feed.posts, &mut author_feed.rendered_posts, uri) {
                    clamp_cursor(&mut author_feed.base, author_feed.posts.len());
                }
            },
            ListView::Notifications(_) => {},
        }
    }

    /// The heights that the list remembers, by key.
    pub open spec fn cached(&self) -> Map<Seq<char>, u16> {
        match self {
            ListView::Timeline(feed) => feed.post_heights@,
            ListView::Thread(thread) => thread.post_heights@,
            ListView::AuthorFeed(author_feed) => author_feed.post_heights@,
            ListView::Notifications(notification_view) => notification_view.notification_heights@,
        }
    }

    /// The list is `before` with `updated_post` in the place of the first post
    /// with its key, where `before` holds one: what is drawn in that place
    /// shows the new post, indented as `before` indents that key, and the
    /// height of the post is forgotten where the new post may need other
    /// rows than the old one. The cursor, the order of the list and what
    /// stands around the posts are as in `before`.
    pub open spec fn post_updated(&self, before: &ListView, updated_post: PostViewData) -> bool {
        let place = position_of(before.posts(), updated_post.uri@);
        &&& self.same_kind(before)
        &&& self.same_setting(before)
        &&& self.relationships() == before.relationships()
        &&& self.base() == before.base()
        &&& self.lead() == before.lead()
        &&& self.posts() == updated_posts(before.posts(), updated_post)
        &&& self.drawn() == if place < before.posts().len() && place < before.drawn().len() {
            before.drawn().update(place, self.drawn()[place])
        } else {
            before.drawn()
        }
        &&& place < before.posts().len() && place < before.drawn().len() ==> {
            &&& shows_post(&self.drawn()[place], &updated_post)
            &&& self.drawn()[place].context.indent_level == before.level_of(updated_post.uri@)
        }
        &&& !(before is Notifications) ==> self.cached() == cached_after_update(
            before.posts(),
            before.cached(),
            updated_post,
        )
        &&& before.wf() ==> self.wf()
        &&& before is Notifications ==> self == before
    }

    /// Puts `updated_post` in the place of the post with its key, where the
    /// list holds one, and makes anew what is drawn for it, see
    /// `post_updated`. A list of notifications stays as it is.
    pub fn update_post(&mut self, updated_post: PostViewData)
        ensures
            final(self).post_updated(old(self), updated_post),
    {
        match self {
            ListView::Timeline(feed) => {
                replace_post(
                    &mut feed.posts,
                    &mut feed.rendered_posts,
                    &mut feed.post_heights,
                    updated_post,
                    0,
                );
            },
            ListView::Thread(thread) => {
                let indent_level = match &thread.cached_relationships {
                    Some(relationships) => relationships.get_indent_level(
                        updated_post.uri.as_str(),
                    ),
                    None => 0,
                };
                replace_post(
                    &mut thread.posts,
                    &mut thread.rendered_posts,
                    &mut thread.post_heights,
                    updated_post,
                    indent_level,
                );
            },
            ListView::AuthorFeed(author_feed) => {
                replace_post(
                    &mut author_feed.posts,
                    &mut author_feed.rendered_posts,
                    &mut author_feed.post_heights,
                    updated_post,
                    0,
                );
            },
            ListView::Notifications(_notification_view) => {},
        }
    }
}

/// What the network returned when a thread was asked for.
pub enum ThreadResponse {
    /// A thread, or word that its post is gone or hidden.
    Refs(OutputThreadRefs),
    /// Something that the client does not know; the strings name its kind
    /// and show what it holds.
    Unknown(String, String),
}

/// Why a view could not be opened.
pub enum ViewError {
    /// The network returned something that is no thread.
    UnknownThread { kind: String, data: String },
}

/// The views that are open, the one that was opened last on top. The view at
/// the bottom is there from the start and is never closed.
pub struct ViewStack {
    views: Vec<ListView>,
}

impl ViewError {
    /// What the error says of itself.
    pub fn message(&self) -> (text: String)
        ensures
            self matches ViewError::UnknownThread { kind, data } && text@
                == "Unknown thread data type: "@ + kind@ + ", data: "@ + data@,
    {
        match self {
            ViewError::UnknownThread { kind, data } => {
                let mut text = "Unknown thread data type: ".to_owned();
                text.append(kind.as_str());
                text.append(", data: ");
                text.append(data.as_str());
                text
            },
        }
    }
}

impl ViewStack {
    /// A stack always holds one view at least.
    pub open spec fn wf(&self) -> bool {
        self.views().len() >= 1
    }

    /// The open views, the bottom one first.
    pub closed spec fn views(&self) -> Seq<ListView> {
        self.views@
    }

    /// The view at the bottom is the timeline.
    pub open spec fn rests_on_timeline(&self) -> bool {
        self.views().len() >= 1 && self.views()[0] is Timeline
    }

    /// A stack that holds the timeline alone, empty and at its start.
    pub fn new() -> (stack: Self)
        ensures
            stack.wf(),
            stack.views().len() == 1,
            stack.rests_on_timeline(),
            stack.views()[0] matches ListView::Timeline(feed) && feed.posts@.len() == 0
                && feed.wf() && feed.base == (PostListBase {
                selected_index: 0,
                scroll_offset: 0,
                last_known_height: 0,
            }) && feed.rendered_posts@.len() == 0 && feed.cursor is None && feed.post_heights@
                == Map::<Seq<char>, u16>::empty() && feed.status_line is Some
                && feed.status_line->0@.len() == 0,
    {
        let initial_feed = Feed::new();
        let mut views: Vec<ListView> = Vec::new();
        views.push(ListView::Timeline(initial_feed));
        Self { views }
    }

    /// How many views are open.
    pub fn len(&self) -> (count: usize)
        ensures
            count == self.views().len(),
    {
        self.views.len()
    }

    /// The view on top, to look at.
    pub fn current(&self) -> (view: &ListView)
        requires
            self.wf(),
        ensures
            *view == self.views().last(),
    {
        let top: usize = self.views.len() - 1;
        &self.views[top]
    }

    /// The view on top. What is done to it is done to the top of the stack,
    /// and to nothing else.
    pub fn current_view(&mut self) -> (view: &mut ListView)
        requires
            old(self).wf(),
        ensures
            final(self).wf(),
            *view == old(self).views().last(),
            final(self).views() == old(self).views().update(
                old(self).views().len() - 1,
                *final(view),
            ),
    {
        let top: usize = self.views.len() - 1;
        &mut self.views[top]
    }

    /// Opens the thread that the network returned, on top of the other
    /// views. Where the network returned something that is no thread, the
    /// stack stays as it is.
    pub fn push_thread_view(&mut self, response: ThreadResponse) -> (result: Result<(), ViewError>)
        ensures
            old(self).wf() ==> final(self).wf(),
            old(self).rests_on_timeline() ==> final(self).rests_on_timeline(),
            result is Err == response is Unknown,
            result is Err ==> final(self).views() == old(self).views(),
            response matches ThreadResponse::Refs(thread_data) ==> {
                &&& final(self).views().len() == old(self).views().len() + 1
                &&& final(self).views().drop_last() == old(self).views()
                &&& final(self).views().last() matches ListView::Thread(thread) && {
                    &&& thread.wf()
                    &&& thread.relationships_hold()
                    &&& thread.base.scroll_offset == 0
                    &&& thread_data matches OutputThreadRefs::AppBskyFeedDefsThreadViewPost {
                        post,
                        ..
                    } ==> thread.anchor_uri@ == post.uri@ && (!thread_refused(thread_data)
                        ==> thread.base.selected_index == selected_after(
                        0,
                        0,
                        thread_posts(thread_data),
                        post.uri@,
                    ))
                    &&& thread.posts@ == if thread_refused(thread_data) {
                        Seq::<PostViewData>::empty()
                    } else {
                        thread_posts(thread_data)
                    }
                }
            },
    {
        match response {
            ThreadResponse::Refs(thread_refs) => {
                let thread_view = Thread::new(thread_refs);
                self.push(ListView::Thread(thread_view));
                Ok(())
            },
            ThreadResponse::Unknown(kind, data) => Err(ViewError::UnknownThread { kind, data }),
        }
    }

    /// Opens the posts of an author below the profile of the author, on top
    /// of the other views.
    pub fn push_author_feed_view(&mut self, profile: ProfileData, feed_data: Vec<PostViewData>)
        ensures
            final(self).wf(),
            old(self).rests_on_timeline() ==> final(self).rests_on_timeline(),
            final(self).views().len() == old(self).views().len() + 1,
            final(self).views().drop_last() == old(self).views(),
            final(self).views().last() matches ListView::AuthorFeed(author_feed) && {
                &&& author_feed.wf()
                &&& author_feed.posts@ == feed_data@
                &&& author_feed.profile.profile == profile
                &&& author_feed.base == (PostListBase {
                    selected_index: 0,
                    scroll_offset: 0,
                    last_known_height: 0,
                })
            },
    {
        let author_profile = AuthorProfile::new(profile);
        let author_feed_view = AuthorFeed::new(author_profile, feed_data);
        self.push(ListView::AuthorFeed(author_feed_view));
    }

    /// Opens the notifications, still empty, on top of the other views.
    pub fn push_notifications_view(&mut self)
        ensures
            final(self).wf(),
            old(self).rests_on_timeline() ==> final(self).rests_on_timeline(),
            final(self).views().len() == old(self).views().len() + 1,
            final(self).views().drop_last() == old(self).views(),
            final(self).views().last() matches ListView::Notifications(notifications)
                && notifications.notifications@.len() == 0 && notifications.base == (PostListBase {
                selected_index: 0,
                scroll_offset: 0,
                last_known_height: 0,
            }),
    {
        let notifications = NotificationView::new();
        self.push(ListView::Notifications(notifications));
    }

    /// Puts a view on top.
    fn push(&mut self, view: ListView)
        ensures
            final(self).views() == old(self).views().push(view),
    {
        self.views.push(view);
    }

    /// Closes the view on top and hands it out, unless it is the only one:
    /// the view at the bottom stays.
    pub fn pop_view(&mut self) -> (closed: Option<ListView>)
        ensures
            old(self).views().len() > 1 ==> closed == Some(old(self).views().last()) && final(self).views() == old(self).views().drop_last(),
            old(self).views().len() <= 1 ==> closed is None && final(self).views() == old(self).views(),
            old(self).rests_on_timeline() ==> final(self).rests_on_timeline(),
            old(self).wf() ==> final(self).wf(),
    {
        if self.views.len() > 1 {
            self.views.pop()
        } else {
            None
        }
    }

    /// Closes every view but the one at the bottom.
    pub fn pop_to_timeline(&mut self)
        requires
            old(self).wf(),
        ensures
            final(self).wf(),
            final(self).views() == old(self).views().take(1),
    {
        assert(self.views@ =~= old(self).views@.take(self.views@.len() as int));
        while self.views.len() > 1
            invariant
                1 <= self.views@.len() <= old(self).views@.len(),
                self.views@ == old(self).views@.take(self.views@.len() as int),
            decreases self.views@.len(),
        {
            let ghost before = self.views@;
            let _ = self.views.pop();
            assert(self.views@ =~= before.drop_last());
            assert(before.drop_last() =~= old(self).views@.take(self.views@.len() as int));
        }
    }
}

} // verus!
