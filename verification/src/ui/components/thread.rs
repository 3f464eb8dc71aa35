//! A thread: the post that it is about, the chain of posts that it answers,
//! and the posts that answer it.

use super::feed::{rendered_for, DEFAULT_POST_ROWS};
use super::height_cache::{rows_or, HeightCache};
use super::post::types::{clone_optional_string, PostContext, PostViewData};
use super::post::{lemma_shows_same_post, Post};
use super::post_list::{
    clamp_cursor, clamped, ensure_heights, gives_heights, height_accessor,
    lemma_gives_post_rows, lemma_remembered, measured_posts, needs_more, post_uris,
    rows_from_total, slots_show, PostList, PostListBase, Slot,
};
use crate::ui::components::text::str_eq;
use crate::ui::layout::Rect;
use std::collections::VecDeque;
use vstd::hash_map::StringHashMap;
use vstd::hash_set::StringHashSet;
use vstd::prelude::*;
use vstd::string::StringExecFns;

verus! {

/// What stands where the parent of a post of a thread belongs.
pub enum ThreadViewPostParentRefs {
    /// The parent, with its own parent.
    ThreadViewPost(Box<ThreadViewPost>),
    /// The parent no longer exists.
    NotFoundPost,
    /// The parent is hidden from the viewer.
    BlockedPost,
}

/// The place of a parent in what the network returned.
pub enum ParentLink {
    /// The post answers nothing.
    Absent,
    /// Something known stands there.
    Refs(ThreadViewPostParentRefs),
    /// Something stands there that the client does not know; the strings
    /// name its kind and show what it holds.
    Unknown(String, String),
}

/// A post of the chain above the post that a thread is about.
pub struct ThreadViewPost {
    pub post: PostViewData,
    pub parent: ParentLink,
}

/// One of the answers to the post that a thread is about.
pub enum ThreadViewPostRepliesItem {
    /// An answer that can be shown.
    ThreadViewPost(PostViewData),
    /// An answer that cannot: it is gone, hidden, or of a kind not known.
    Other,
}

/// What the network returns for a thread.
pub enum OutputThreadRefs {
    /// The post that the thread is about, its parent and its answers.
    AppBskyFeedDefsThreadViewPost {
        post: PostViewData,
        parent: ParentLink,
        replies: Option<Vec<ThreadViewPostRepliesItem>>,
    },
    /// The post is gone or hidden.
    Other,
}

/// Why a thread could not be taken as it was returned.
pub enum ThreadError {
    /// Above a parent stands something that the client does not know.
    UnknownParent { kind: String, data: String },
}

impl ThreadError {
    /// What the error says of itself.
    pub fn message(&self) -> (text: String)
        ensures
            self matches ThreadError::UnknownParent { kind, data } && text@
                == "Unknown parent's parent data type: "@ + kind@ + ", data: "@ + data@,
    {
        match self {
            ThreadError::UnknownParent { kind, data } => {
                let mut text = "Unknown parent's parent data type: ".to_owned();
                text.append(kind.as_str());
                text.append(", data: ");
                text.append(data.as_str());
                text
            },
        }
    }
}

/// Which posts of a thread are shown, how far each is indented, and which
/// post each answers.
pub struct ThreadRelationships {
    visible_posts: StringHashSet,
    indent_levels: StringHashMap<u16>,
    post_to_parent: StringHashMap<String>,
}

impl ThreadRelationships {
    /// The keys of the posts that are shown.
    pub closed spec fn visible(&self) -> Set<Seq<char>> {
        self.visible_posts@
    }

    /// How far each post is indented, by its key.
    pub closed spec fn indents(&self) -> Map<Seq<char>, u16> {
        self.indent_levels@
    }

    /// The key of the post that each post answers, by its key.
    pub closed spec fn parents(&self) -> Map<Seq<char>, Seq<char>> {
        self.post_to_parent@.map_values(|parent: String| parent@)
    }

    pub fn new() -> (relationships: Self)
        ensures
            relationships.visible() == Set::<Seq<char>>::empty(),
            relationships.indents() == Map::<Seq<char>, u16>::empty(),
            relationships.parents() == Map::<Seq<char>, Seq<char>>::empty(),
    {
        let relationships = Self {
            visible_posts: StringHashSet::new(),
            indent_levels: StringHashMap::new(),
            post_to_parent: StringHashMap::new(),
        };
        assert(relationships.parents() =~= Map::<Seq<char>, Seq<char>>::empty());
        relationships
    }

    /// How far the post `uri` is indented: not at all where nothing is known
    /// of it.
    pub fn get_indent_level(&self, uri: &str) -> (level: u16)
        ensures
            level == if self.indents().contains_key(uri@) {
                self.indents()[uri@]
            } else {
                0
            },
    {
        match self.indent_levels.get(uri) {
            Some(level) => *level,
            None => 0,
        }
    }

    /// Shows the post `post_uri`, indented by `indent_level`, and remembers
    /// its parent where one is given.
    pub fn mark_visible(&mut self, post_uri: &str, parent_uri: Option<&str>, indent_level: u16)
        ensures
            final(self).visible() == old(self).visible().insert(post_uri@),
            final(self).indents() == old(self).indents().insert(post_uri@, indent_level),
            final(self).parents() == match parent_uri {
                Some(parent) => old(self).parents().insert(post_uri@, parent@),
                None => old(self).parents(),
            },
    {
        self.visible_posts.insert(post_uri.to_owned());
        self.indent_levels.insert(post_uri.to_owned(), indent_level);
        match parent_uri {
            Some(parent) => {
                self.post_to_parent.insert(post_uri.to_owned(), parent.to_owned());
                assert(self.parents() =~= old(self).parents().insert(post_uri@, parent@));
            },
            None => {},
        }
    }

    pub fn is_visible(&self, uri: &str) -> (visible: bool)
        ensures
            visible == self.visible().contains(uri@),
    {
        self.visible_posts.contains(uri)
    }

    /// The key of the post that the post `uri` answers, where one is remembered.
    pub fn parent_of(&self, uri: &str) -> (parent: Option<String>)
        ensures
            parent is Some == self.parents().contains_key(uri@),
            parent is Some ==> parent->0@ == self.parents()[uri@],
    {
        match self.post_to_parent.get(uri) {
            Some(parent) => Some(parent.clone()),
            None => None,
        }
    }
}

/// The posts of a chain of parents, the topmost first.
pub open spec fn chain_posts(refs: ThreadViewPostParentRefs) -> Seq<PostViewData>
    decreases refs,
{
    match refs {
        ThreadViewPostParentRefs::ThreadViewPost(node) => match node.parent {
            ParentLink::Refs(above) => chain_posts(above).push(node.post),
            _ => seq![node.post],
        },
        _ => Seq::empty(),
    }
}

/// The chain of parents ends in something that the client does not know.
pub open spec fn chain_unknown(refs: ThreadViewPostParentRefs) -> bool
    decreases refs,
{
    match refs {
        ThreadViewPostParentRefs::ThreadViewPost(node) => match node.parent {
            ParentLink::Refs(above) => chain_unknown(above),
            ParentLink::Unknown(_, _) => true,
            ParentLink::Absent => false,
        },
        _ => false,
    }
}

/// What a chain of parents says of its topmost end, where that end is a post
/// that cannot be shown.
pub open spec fn chain_status(refs: ThreadViewPostParentRefs) -> Option<Seq<char>>
    decreases refs,
{
    match refs {
        ThreadViewPostParentRefs::ThreadViewPost(node) => match node.parent {
            ParentLink::Refs(above) => chain_status(above),
            _ => None,
        },
        ThreadViewPostParentRefs::NotFoundPost => Some("Parent post not found"@),
        ThreadViewPostParentRefs::BlockedPost => Some("Parent post is blocked"@),
    }
}

/// The answers that can be shown, in their order.
pub open spec fn shown_replies(replies: Seq<ThreadViewPostRepliesItem>) -> Seq<PostViewData>
    decreases replies.len(),
{
    if replies.len() == 0 {
        Seq::empty()
    } else {
        let before = shown_replies(replies.drop_last());
        match replies.last() {
            ThreadViewPostRepliesItem::ThreadViewPost(post) => before.push(post),
            ThreadViewPostRepliesItem::Other => before,
        }
    }
}

/// The place that the selection has after `added` were appended to a thread
/// about `anchor_uri` that held `count` posts and had `selected` selected:
/// the place of the last appended post with that key, if there is one.
pub open spec fn selected_after(
    selected: usize,
    count: int,
    added: Seq<PostViewData>,
    anchor_uri: Seq<char>,
) -> usize
    decreases added.len(),
{
    if added.len() == 0 {
        selected
    } else if added.last().uri@ == anchor_uri {
        (count + added.len() - 1) as usize
    } else {
        selected_after(selected, count, added.drop_last(), anchor_uri)
    }
}

/// The place that the selection has after a thread that had `selected`
/// selected took `thread_data` in place of its posts: the place of the post
/// that the thread is about, where the thread was taken.
pub open spec fn reloaded_selection(selected: usize, thread_data: OutputThreadRefs) -> usize {
    match thread_data {
        OutputThreadRefs::AppBskyFeedDefsThreadViewPost { post, .. } => if thread_refused(
            thread_data,
        ) {
            selected
        } else {
            selected_after(selected, 0, thread_posts(thread_data), post.uri@)
        },
        OutputThreadRefs::Other => selected,
    }
}

pub struct Thread {
    pub posts: VecDeque<PostViewData>,
    pub rendered_posts: Vec<Post>,
    pub post_heights: HeightCache,
    pub status_line: Option<String>,
    pub anchor_uri: String,
    pub base: PostListBase,
    pub cached_relationships: Option<ThreadRelationships>,
}

impl Thread {
    /// Every post has its drawn counterpart.
    pub open spec fn wf(&self) -> bool {
        rendered_for(self.rendered_posts@, self.posts@)
    }

    /// What is worked out of the posts is up to date: shown are the chain of
    /// posts from the post that the thread is about upwards, and the posts
    /// that answer that post, indented as `shows` says.
    pub open spec fn relationships_hold(&self) -> bool {
        &&& self.cached_relationships is Some
        &&& shows(
            &self.cached_relationships->0,
            self.posts@,
            self.anchor_uri@,
            ancestor_chain(self.posts@, self.anchor_uri@, Seq::empty(), self.posts@.len()),
            0,
            if find_post(self.posts@, self.anchor_uri@) is Some {
                self.posts@.len() as int
            } else {
                0
            },
        )
    }

    /// Everything but the posts, their drawn counterparts and the selection
    /// is as it is in `other`.
    pub open spec fn same_frame(&self, other: &Thread) -> bool {
        &&& self.post_heights == other.post_heights
        &&& self.anchor_uri == other.anchor_uri
        &&& self.base.scroll_offset == other.base.scroll_offset
        &&& self.base.last_known_height == other.base.last_known_height
        &&& self.cached_relationships == other.cached_relationships
    }

    /// The thread that the network returned: its posts in the order of
    /// `thread_posts`, the post that it is about selected, and the posts that
    /// are shown worked out. A thread that is refused leaves the list empty.
    pub fn new(thread_data: OutputThreadRefs) -> (thread: Self)
        ensures
            thread.wf(),
            thread.post_heights@ == Map::<Seq<char>, u16>::empty(),
            thread.base.scroll_offset == 0,
            thread.base.last_known_height == 0,
            thread.posts@ == if thread_refused(thread_data) {
                Seq::<PostViewData>::empty()
            } else {
                thread_posts(thread_data)
            },
            thread_data matches OutputThreadRefs::AppBskyFeedDefsThreadViewPost { post, .. }
                ==> thread.anchor_uri@ == post.uri@ && (!thread_refused(thread_data)
                ==> thread.base.selected_index == selected_after(
                0,
                0,
                thread_posts(thread_data),
                post.uri@,
            )),
            thread.relationships_hold(),
            thread.status_line is Some,
            thread.status_line->0@ == match thread_data {
                OutputThreadRefs::AppBskyFeedDefsThreadViewPost { parent, .. } => if thread_refused(
                    thread_data,
                ) {
                    Seq::<char>::empty()
                } else {
                    match parent_status(parent) {
                        Some(status) => status,
                        None => Seq::<char>::empty(),
                    }
                },
                OutputThreadRefs::Other => Seq::<char>::empty(),
            },
    {
        let mut thread = Self {
            posts: VecDeque::new(),
            rendered_posts: Vec::new(),
            post_heights: HeightCache::new(),
            status_line: Some(String::new()),
            anchor_uri: String::new(),
            base: PostListBase::new(),
            cached_relationships: None,
        };
        let _ = thread.process_thread_data(thread_data);
        assert(thread.posts@ =~= if thread_refused(thread_data) {
            Seq::<PostViewData>::empty()
        } else {
            thread_posts(thread_data)
        });
        thread.update_relationships();
        thread
    }

    /// The thread is `before` after `thread_data` was taken in place of its
    /// posts: it holds the posts of `thread_data`, or none where that is
    /// refused; which of them are shown is worked out anew; the selection
    /// goes to the post that the thread is about, and the cursor is brought
    /// into the new list. The heights stay.
    pub open spec fn reloaded_from(&self, before: &Thread, thread_data: OutputThreadRefs) -> bool {
        &&& self.wf()
        &&& self.post_heights == before.post_heights
        &&& self.posts@ == if thread_refused(thread_data) {
            Seq::<PostViewData>::empty()
        } else {
            thread_posts(thread_data)
        }
        &&& thread_data matches OutputThreadRefs::AppBskyFeedDefsThreadViewPost { post, .. }
            ==> self.anchor_uri@ == post.uri@
        &&& thread_data is Other ==> self.anchor_uri == before.anchor_uri
        &&& self.base == clamped(
            PostListBase {
                selected_index: reloaded_selection(before.base.selected_index, thread_data),
                scroll_offset: before.base.scroll_offset,
                last_known_height: before.base.last_known_height,
            },
            self.posts@.len(),
        )
        &&& self.posts@.len() > 0 ==> self.base.wf(self.posts@.len())
        &&& self.relationships_hold()
    }

    /// Replaces the posts by a thread that was fetched anew, see
    /// `reloaded_from`. A thread that is refused leaves the list empty, and
    /// the result says why.
    pub fn reload(&mut self, thread_data: OutputThreadRefs) -> (result: Result<(), ThreadError>)
        ensures
            final(self).reloaded_from(old(self), thread_data),
            result is Err == thread_refused(thread_data),
    {
        self.posts.clear();
        self.rendered_posts.clear();
        let result = self.process_thread_data(thread_data);
        assert(self.posts@ =~= if thread_refused(thread_data) {
            Seq::<PostViewData>::empty()
        } else {
            thread_posts(thread_data)
        });
        self.update_relationships();
        clamp_cursor(&mut self.base, self.posts.len());
        result
    }

    pub fn selected_index(&self) -> (index: usize)
        ensures
            index == self.base.selected_index,
    {
        self.base.selected_index
    }

    /// The rows that each post takes where the thread is drawn: its height,
    /// remembered or taken as six rows, and no row for a post that is not
    /// shown.
    pub open spec fn drawn_rows(&self) -> Seq<u16> {
        Seq::new(
            self.posts@.len(),
            |i: int|
                if self.cached_relationships matches Some(relationships)
                    && !relationships.visible().contains(self.posts@[i].uri@) {
                    0u16
                } else {
                    rows_or(self.post_heights@, self.posts@[i].uri@, DEFAULT_POST_ROWS)
                },
        )
    }

    /// Where the posts are drawn that `area` shows, see `slots_show`. A post
    /// that is not shown gets a place without rows.
    pub fn visible_slots(&self, area: Rect) -> (slots: Vec<Slot>)
        ensures
            slots_show(
                self.drawn_rows(),
                0,
                self.base.scroll_offset as int,
                area.y as int,
                area.height as int,
                slots@,
            ),
    {
        let cache = &self.post_heights;
        let shown = &self.cached_relationships;
        let height = |post: &PostViewData| -> (rows: u16)
            ensures
                rows == if shown matches Some(relationships) && !relationships.visible().contains(
                    post.uri@,
                ) {
                    0u16
                } else {
                    rows_or(cache@, post.uri@, DEFAULT_POST_ROWS)
                },
            {
                let hidden = match shown {
                    Some(relationships) => !relationships.is_visible(post.uri.as_str()),
                    None => false,
                };
                if hidden {
                    0
                } else {
                    cache.height_or(post.uri.as_str(), DEFAULT_POST_ROWS)
                }
            };
        proof {
            assert(height_accessor(self.posts@, height));
            assert(gives_heights(self.posts@, height, self.drawn_rows()));
        }
        self.base.visible_slots(&self.posts, height, 0, area.y, area.height)
    }

    /// Appends one post. A post with the key that the thread is about becomes
    /// the selected one.
    pub fn add_post(&mut self, post: PostViewData)
        ensures
            old(self).wf() ==> final(self).wf(),
            final(self).posts@ == old(self).posts@.push(post),
            final(self).rendered_posts@.len() == old(self).rendered_posts@.len() + 1,
            final(self).same_frame(old(self)),
            final(self).status_line == old(self).status_line,
            final(self).base.selected_index == if post.uri@ == old(self).anchor_uri@ {
                old(self).posts@.len() as usize
            } else {
                old(self).base.selected_index
            },
    {
        let is_anchor = str_eq(post.uri.as_str(), self.anchor_uri.as_str());
        let copy = post.clone();
        let shown = Post::new(copy, PostContext { indent_level: 0 });
        proof {
            lemma_shows_same_post(&shown, &copy, &post);
        }
        self.rendered_posts.push(shown);
        self.posts.push_back(post);
        if is_anchor {
            self.base.selected_index = self.posts.len() - 1;
        }
    }

    /// Appends the posts of a chain of parents, the topmost first, and says in
    /// the status line why the chain ends where it ends in a post that cannot
    /// be shown. A chain that ends in something unknown is refused as a whole.
    pub fn process_parent_thread(&mut self, parent_refs: ThreadViewPostParentRefs) -> (result:
        Result<(), ThreadError>)
        ensures
            result is Err == chain_unknown(parent_refs),
            result is Err ==> *final(self) == *old(self),
            result is Ok ==> {
                &&& old(self).wf() ==> final(self).wf()
                &&& final(self).posts@ == old(self).posts@ + chain_posts(parent_refs)
                &&& final(self).rendered_posts@.len() == old(self).rendered_posts@.len()
                    + chain_posts(parent_refs).len()
                &&& final(self).same_frame(old(self))
                &&& final(self).base.selected_index == selected_after(
                    old(self).base.selected_index,
                    old(self).posts@.len() as int,
                    chain_posts(parent_refs),
                    old(self).anchor_uri@,
                )
                &&& match chain_status(parent_refs) {
                    Some(status) => final(self).status_line is Some && final(self).status_line->0@ == status,
                    None => final(self).status_line == old(self).status_line,
                }
            },
        decreases parent_refs,
    {
        match parent_refs {
            ThreadViewPostParentRefs::ThreadViewPost(boxed) => {
                let node: ThreadViewPost = *boxed;
                let ThreadViewPost { post, parent } = node;
                match parent {
                    ParentLink::Refs(parent_parent_refs) => {
                        match self.process_parent_thread(parent_parent_refs) {
                            Ok(()) => {},
                            Err(error) => {
                                return Err(error);
                            },
                        }
                    },
                    ParentLink::Unknown(kind, data) => {
                        return Err(ThreadError::UnknownParent { kind, data });
                    },
                    ParentLink::Absent => {},
                }
                let ghost selected_above = self.base.selected_index;
                proof {
                    assert(selected_above == selected_after(
                        old(self).base.selected_index,
                        old(self).posts@.len() as int,
                        parent_posts(parent),
                        old(self).anchor_uri@,
                    ));
                }
                self.add_post(post);
                proof {
                    let added = chain_posts(parent_refs);
                    let above = parent_posts(parent);
                    assert(added =~= above.push(post));
                    assert(added.drop_last() =~= above);
                    assert(added.last() == post);
                    assert(self.posts@ =~= old(self).posts@ + added);
                }
                Ok(())
            },
            ThreadViewPostParentRefs::NotFoundPost => {
                self.status_line = Some("Parent post not found".to_owned());
                assert(self.posts@ =~= old(self).posts@ + chain_posts(parent_refs));
                Ok(())
            },
            ThreadViewPostParentRefs::BlockedPost => {
                self.status_line = Some("Parent post is blocked".to_owned());
                assert(self.posts@ =~= old(self).posts@ + chain_posts(parent_refs));
                Ok(())
            },
        }
    }

    /// Takes a thread as the network returned it: the thread is from now on
    /// about the post of `thread_data`; the chain above that post, the post
    /// itself and the answers that can be shown are appended in this order.
    /// A chain that ends in something unknown is refused, and nothing is
    /// appended then.
    pub fn process_thread_data(&mut self, thread_data: OutputThreadRefs) -> (result: Result<
        (),
        ThreadError,
    >)
        ensures
            final(self).post_heights == old(self).post_heights,
            final(self).base.scroll_offset == old(self).base.scroll_offset,
            final(self).base.last_known_height == old(self).base.last_known_height,
            final(self).cached_relationships == old(self).cached_relationships,
            result is Err == thread_refused(thread_data),
            result is Err ==> {
                &&& final(self).posts == old(self).posts
                &&& final(self).rendered_posts == old(self).rendered_posts
                &&& final(self).status_line == old(self).status_line
                &&& final(self).base == old(self).base
            },
            thread_data is Other ==> *final(self) == *old(self),
            thread_data matches OutputThreadRefs::AppBskyFeedDefsThreadViewPost {
                post,
                parent,
                replies,
            } ==> {
                &&& final(self).anchor_uri@ == post.uri@
                &&& result is Ok ==> {
                    &&& old(self).wf() ==> final(self).wf()
                    &&& final(self).posts@ == old(self).posts@ + thread_posts(thread_data)
                    &&& final(self).base.selected_index == selected_after(
                        old(self).base.selected_index,
                        old(self).posts@.len() as int,
                        thread_posts(thread_data),
                        post.uri@,
                    )
                    &&& match parent_status(parent) {
                        Some(status) => final(self).status_line is Some && final(self).status_line->0@ == status,
                        None => final(self).status_line == old(self).status_line,
                    }
                }
            },
    {
        match thread_data {
            OutputThreadRefs::AppBskyFeedDefsThreadViewPost { post, parent, replies } => {
                self.anchor_uri = post.uri.clone();
                let ghost start = self.posts@;
                let ghost chain = parent_posts(parent);
                match parent {
                    ParentLink::Refs(parent_refs) => {
                        match self.process_parent_thread(parent_refs) {
                            Ok(()) => {},
                            Err(error) => {
                                return Err(error);
                            },
                        }
                    },
                    _ => {
                        assert(self.posts@ =~= start + chain);
                    },
                }
                self.add_post(post);
                assert(chain.push(post).drop_last() =~= chain);
                match replies {
                    Some(replies) => {
                        let ghost all = replies@;
                        for reply in it: replies
                            invariant
                                it.seq() == all,
                                old(self).wf() ==> self.wf(),
                                self.anchor_uri@ == post.uri@,
                                self.post_heights == old(self).post_heights,
                                self.base.scroll_offset == old(self).base.scroll_offset,
                                self.base.last_known_height == old(self).base.last_known_height,
                                self.cached_relationships == old(self).cached_relationships,
                                start == old(self).posts@,
                                match parent_status(parent) {
                                    Some(status) => self.status_line is Some
                                        && self.status_line->0@ == status,
                                    None => self.status_line == old(self).status_line,
                                },
                                self.posts@ == start + chain.push(post) + shown_replies(
                                    all.take(it.index() as int),
                                ),
                                self.base.selected_index == selected_after(
                                    old(self).base.selected_index,
                                    start.len() as int,
                                    chain.push(post) + shown_replies(all.take(it.index() as int)),
                                    post.uri@,
                                ),
                        {
                            let ghost seen = all.take(it.index() as int);
                            let ghost added = chain.push(post) + shown_replies(seen);
                            assert(all.take(it.index() + 1).drop_last() =~= seen);
                            match reply {
                                ThreadViewPostRepliesItem::ThreadViewPost(reply_post) => {
                                    self.add_post(reply_post);
                                    assert(chain.push(post) + shown_replies(seen).push(reply_post)
                                        =~= added.push(reply_post));
                                    assert(added.push(reply_post).drop_last() =~= added);
                                    assert(self.posts@ =~= start + chain.push(post)
                                        + shown_replies(seen).push(reply_post));
                                },
                                ThreadViewPostRepliesItem::Other => {},
                            }
                        }
                        assert(all.take(all.len() as int) =~= all);
                        assert(self.posts@ =~= start + thread_posts(thread_data));
                    },
                    None => {
                        assert(chain.push(post) + Seq::<PostViewData>::empty() =~= chain.push(
                            post,
                        ));
                        assert(self.posts@ =~= start + thread_posts(thread_data));
                    },
                }
                Ok(())
            },
            OutputThreadRefs::Other => Ok(()),
        }
    }

    /// Whether `uris` holds the key `uri`.
    fn holds_uri(uris: &Vec<String>, uri: &str) -> (held: bool)
        ensures
            held == string_views(uris@).contains(uri@),
    {
        let mut i: usize = 0;
        while i < uris.len()
            invariant
                i <= uris@.len(),
                forall|k: int| 0 <= k < i ==> uris@[k]@ != uri@,
            decreases uris@.len() - i,
        {
            if str_eq(uris[i].as_str(), uri) {
                assert(string_views(uris@)[i as int] == uri@);
                return true;
            }
            i += 1;
        }
        assert forall|k: int| 0 <= k < string_views(uris@).len() implies string_views(uris@)[k]
            != uri@ by {}
        false
    }

    /// The chain of posts from the post that the thread is about upwards, see
    /// `ancestor_chain`.
    fn parent_chain(&self) -> (chain: Vec<String>)
        ensures
            string_views(chain@) == ancestor_chain(
                self.posts@,
                self.anchor_uri@,
                Seq::empty(),
                self.posts@.len(),
            ),
    {
        let mut parent_chain: Vec<String> = Vec::new();
        let mut current_uri = self.anchor_uri.clone();
        let mut at_end = false;
        let count: usize = self.posts.len();
        let ghost whole = ancestor_chain(
            self.posts@,
            self.anchor_uri@,
            Seq::empty(),
            self.posts@.len(),
        );
        assert(string_views(parent_chain@) =~= Seq::<Seq<char>>::empty());
        assert(Seq::<Seq<char>>::empty() + whole =~= whole);
        while !at_end && parent_chain.len() < count
            invariant
                count == self.posts@.len(),
                parent_chain@.len() <= count,
                at_end ==> whole == string_views(parent_chain@),
                !at_end ==> whole == string_views(parent_chain@) + ancestor_chain(
                    self.posts@,
                    current_uri@,
                    string_views(parent_chain@),
                    (count - parent_chain@.len()) as nat,
                ),
            decreases count - parent_chain@.len() + if at_end { 0int } else { 1int },
        {
            let ghost so_far = string_views(parent_chain@);
            let ghost fuel = (count - parent_chain@.len()) as nat;
            let ghost rest = ancestor_chain(self.posts@, current_uri@, so_far, fuel);
            if Self::holds_uri(&parent_chain, current_uri.as_str()) {
                at_end = true;
                assert(so_far + rest =~= so_far);
            } else {
                match self.find_post_by_uri(current_uri.as_str()) {
                    Some(post) => {
                        let ghost uri = current_uri@;
                        parent_chain.push(current_uri.clone());
                        assert(string_views(parent_chain@) =~= so_far.push(uri));
                        match Self::get_parent_uri_from_record(post) {
                            Some(parent_uri) => {
                                current_uri = parent_uri;
                                assert(whole =~= string_views(parent_chain@) + ancestor_chain(
                                    self.posts@,
                                    current_uri@,
                                    string_views(parent_chain@),
                                    (fuel - 1) as nat,
                                ));
                            },
                            None => {
                                at_end = true;
                                assert(whole =~= string_views(parent_chain@));
                            },
                        }
                    },
                    None => {
                        at_end = true;
                        assert(so_far + rest =~= so_far);
                    },
                }
            }
        }
        proof {
            if !at_end {
                assert(ancestor_chain(
                    self.posts@,
                    current_uri@,
                    string_views(parent_chain@),
                    0,
                ) =~= Seq::<Seq<char>>::empty());
                assert(string_views(parent_chain@) + Seq::<Seq<char>>::empty() =~= string_views(
                    parent_chain@,
                ));
            }
        }
        parent_chain
    }

    /// A level of indentation from a count, 65535 at most.
    fn level_from(count: usize) -> (level: u16)
        ensures
            level == clamp_level(count as int),
    {
        if count > 65535 {
            65535
        } else {
            count as u16
        }
    }

    /// Works out anew which posts are shown and how far each is indented.
    ///
    /// Shown are the chain of posts from the post that the thread is about up
    /// to the topmost post that the thread holds, and the posts that answer
    /// the post that the thread is about. See `shows` for the indentation.
    pub fn update_relationships(&mut self)
        ensures
            final(self).posts == old(self).posts,
            final(self).rendered_posts == old(self).rendered_posts,
            final(self).post_heights == old(self).post_heights,
            final(self).status_line == old(self).status_line,
            final(self).anchor_uri == old(self).anchor_uri,
            final(self).base == old(self).base,
            final(self).relationships_hold(),
    {
        let mut relationships = ThreadRelationships::new();
        let parent_chain = self.parent_chain();
        let ghost posts = self.posts@;
        let ghost anchor = self.anchor_uri@;
        let ghost chain = string_views(parent_chain@);
        proof {
            lemma_chain_distinct(posts, anchor, Seq::empty(), posts.len());
        }
        let length: usize = parent_chain.len();
        let mut depth: usize = 0;
        while depth < length
            invariant
                depth <= length,
                length == parent_chain@.len(),
                chain == string_views(parent_chain@),
                posts == self.posts@,
                forall|p: int| 0 <= p < chain.len() ==> find_post(posts, #[trigger] chain[p]) is Some,
                forall|p: int, q: int| 0 <= p < q < chain.len() ==> chain[p] != chain[q],
                shows(&relationships, posts, anchor, chain, length - depth, 0),
            decreases length - depth,
        {
            let place: usize = length - 1 - depth;
            let indent = Self::level_from(depth);
            let ghost before = relationships;
            let ghost uri = chain[place as int];
            assert(uri == parent_chain@[place as int]@);
            match self.find_post_by_uri(parent_chain[place].as_str()) {
                Some(post) => {
                    match Self::get_parent_uri_from_record(post) {
                        Some(parent_uri) => {
                            relationships.mark_visible(
                                parent_chain[place].as_str(),
                                Some(parent_uri.as_str()),
                                indent,
                            );
                        },
                        None => {
                            relationships.mark_visible(parent_chain[place].as_str(), None, indent);
                        },
                    }
                },
                None => {},
            }
            proof {
                assert forall|key: Seq<char>| #[trigger]
                    relationships.visible().contains(key) <==> chain_part(chain, place as int, key)
                        || reply_before(posts, anchor, key, 0) by {
                    if chain_part(chain, place as int, key) {
                        let p = choose|p: int| place <= p < chain.len() && #[trigger] chain[p] == key;
                        if p > place {
                            assert(chain_part(chain, place + 1, key));
                        }
                    }
                    if before.visible().contains(key) {
                        assert(chain_part(chain, place + 1, key));
                        let p = choose|p: int|
                            place + 1 <= p < chain.len() && #[trigger] chain[p] == key;
                        assert(place <= p < chain.len() && chain[p] == key);
                    }
                    if key == uri {
                        assert(chain[place as int] == key);
                    }
                }
                assert forall|p: int|
                    place <= p < chain.len() && !reply_before(
                        posts,
                        anchor,
                        #[trigger] chain[p],
                        0,
                    ) implies {
                    &&& relationships.indents()[chain[p]] == clamp_level(chain.len() - 1 - p)
                    &&& match find_post(posts, chain[p]) {
                        Some(post) => match post.record.reply_parent {
                            Some(parent) => relationships.parents().contains_key(chain[p])
                                && relationships.parents()[chain[p]] == parent@,
                            None => !relationships.parents().contains_key(chain[p]),
                        },
                        None => !relationships.parents().contains_key(chain[p]),
                    }
                } by {
                    if p > place {
                        assert(chain[p] != chain[place as int]);
                    } else {
                        if before.parents().contains_key(uri) {
                            assert(before.visible().contains(uri));
                            assert(chain_part(chain, place + 1, uri));
                            let q = choose|q: int|
                                place + 1 <= q < chain.len() && #[trigger] chain[q] == uri;
                            assert(chain[place as int] != chain[q]);
                        }
                    }
                }
            }
            depth += 1;
        }
        let count: usize = self.posts.len();
        match self.find_post_by_uri(self.anchor_uri.as_str()) {
            Some(anchor_post) => {
                proof {
                    lemma_find_post(posts, anchor);
                    assert(chain.len() > 0);
                    assert(chain[0] == anchor);
                    assert(!reply_before(posts, anchor, chain[0], 0));
                    assert(chain_part(chain, 0, anchor));
                }
                let anchor_indent = relationships.get_indent_level(self.anchor_uri.as_str());
                let reply_indent: u16 = if anchor_indent < 65535 {
                    anchor_indent + 1
                } else {
                    65535
                };
                let mut i: usize = 0;
                while i < count
                    invariant
                        i <= count,
                        count == self.posts@.len(),
                        posts == self.posts@,
                        anchor == self.anchor_uri@,
                        anchor_post.uri@ == anchor,
                        reply_indent == clamp_level(clamp_level(chain.len() - 1) + 1),
                        shows(&relationships, posts, anchor, chain, 0, i as int),
                    decreases count - i,
                {
                    let ghost before = relationships;
                    let ghost key_i = posts[i as int].uri@;
                    let mut marked = false;
                    match Self::get_parent_uri_from_record(&self.posts[i]) {
                        Some(parent_uri) => {
                            if str_eq(parent_uri.as_str(), anchor_post.uri.as_str()) {
                                relationships.mark_visible(
                                    self.posts[i].uri.as_str(),
                                    Some(parent_uri.as_str()),
                                    reply_indent,
                                );
                                marked = true;
                            }
                        },
                        None => {},
                    }
                    proof {
                        assert(marked == reply_at(posts, anchor, i as int));
                        assert forall|key: Seq<char>| #[trigger]
                            reply_before(posts, anchor, key, i + 1) <==> reply_before(
                                posts,
                                anchor,
                                key,
                                i as int,
                            ) || (marked && key == key_i) by {
                            if reply_before(posts, anchor, key, i + 1) {
                                let j = choose|j: int|
                                    0 <= j < i + 1 && #[trigger] posts[j].uri@ == key && reply_at(
                                        posts,
                                        anchor,
                                        j,
                                    );
                                if j < i {
                                    assert(reply_before(posts, anchor, key, i as int));
                                }
                            }
                            if reply_before(posts, anchor, key, i as int) {
                                let j = choose|j: int|
                                    0 <= j < i && #[trigger] posts[j].uri@ == key && reply_at(
                                        posts,
                                        anchor,
                                        j,
                                    );
                                assert(0 <= j < i + 1);
                            }
                            if marked && key == key_i {
                                assert(posts[i as int].uri@ == key);
                            }
                        }
                        assert forall|key: Seq<char>| #[trigger]
                            relationships.visible().contains(key) <==> chain_part(chain, 0, key)
                                || reply_before(posts, anchor, key, i + 1) by {
                            assert(before.visible().contains(key) <==> chain_part(chain, 0, key)
                                || reply_before(posts, anchor, key, i as int));
                        }
                        assert forall|key: Seq<char>| #[trigger]
                            relationships.indents().contains_key(key)
                                <==> relationships.visible().contains(key) by {
                            assert(before.indents().contains_key(key) <==> before.visible().contains(
                                key,
                            ));
                        }
                        assert forall|key: Seq<char>| #[trigger]
                            reply_before(posts, anchor, key, i + 1) implies {
                            &&& relationships.indents()[key] == clamp_level(
                                clamp_level(chain.len() - 1) + 1,
                            )
                            &&& relationships.parents().contains_key(key)
                            &&& relationships.parents()[key] == anchor
                        } by {
                            if !(marked && key == key_i) {
                                assert(reply_before(posts, anchor, key, i as int));
                            }
                        }
                        assert forall|p: int|
                            0 <= p < chain.len() && !reply_before(
                                posts,
                                anchor,
                                #[trigger] chain[p],
                                i + 1,
                            ) implies {
                            &&& relationships.indents()[chain[p]] == clamp_level(
                                chain.len() - 1 - p,
                            )
                            &&& match find_post(posts, chain[p]) {
                                Some(post) => match post.record.reply_parent {
                                    Some(parent) => relationships.parents().contains_key(chain[p])
                                        && relationships.parents()[chain[p]] == parent@,
                                    None => !relationships.parents().contains_key(chain[p]),
                                },
                                None => !relationships.parents().contains_key(chain[p]),
                            }
                        } by {
                            assert(!reply_before(posts, anchor, chain[p], i as int));
                        }
                        assert forall|key: Seq<char>| #[trigger]
                            relationships.parents().contains_key(key)
                                implies relationships.visible().contains(key) by {
                            if before.parents().contains_key(key) {
                                assert(before.visible().contains(key));
                            }
                        }
                    }
                    i += 1;
                }
            },
            None => {},
        }
        self.cached_relationships = Some(relationships);
    }

    /// The first post with the key `uri`.
    pub fn find_post_by_uri(&self, uri: &str) -> (found: Option<&PostViewData>)
        ensures
            found is Some == find_post(self.posts@, uri@) is Some,
            found is Some ==> *found->0 == find_post(self.posts@, uri@)->0,
    {
        let mut i: usize = 0;
        assert(self.posts@.skip(0) =~= self.posts@);
        while i < self.posts.len()
            invariant
                i <= self.posts@.len(),
                find_post(self.posts@, uri@) == find_post(self.posts@.skip(i as int), uri@),
            decreases self.posts@.len() - i,
        {
            assert(self.posts@.skip(i as int).drop_first() =~= self.posts@.skip(i + 1));
            if str_eq(self.posts[i].uri.as_str(), uri) {
                return Some(&self.posts[i]);
            }
            i += 1;
        }
        None
    }

    /// The key of the post that `post` answers, as its record names it.
    pub fn get_parent_uri_from_record(post: &PostViewData) -> (parent: Option<String>)
        ensures
            parent == post.record.reply_parent,
    {
        clone_optional_string(&post.record.reply_parent)
    }
}

impl PostList for Thread {
    open spec fn base(&self) -> PostListBase {
        self.base
    }

    open spec fn uris(&self) -> Seq<Seq<char>> {
        post_uris(self.posts@)
    }

    open spec fn cached(&self) -> Map<Seq<char>, u16> {
        self.post_heights@
    }

    open spec fn default_rows(&self) -> u16 {
        DEFAULT_POST_ROWS
    }

    open spec fn lead_rows(&self) -> u16 {
        0
    }

    open spec fn shown_posts(&self) -> Seq<PostViewData> {
        self.posts@
    }

    open spec fn measured_rows(&self, width: u16) -> Seq<u16> {
        measured_posts(self.posts@, width)
    }

    fn get_total_height_before_scroll(&self) -> (rows: u16) {
        let cache = &self.post_heights;
        let known = |post: &PostViewData| -> (rows: u16)
            ensures
                rows == rows_or(cache@, post.uri@, 0),
            { cache.height_or(post.uri.as_str(), 0) };
        proof {
            lemma_gives_post_rows(self.posts@, known, cache@, 0);
        }
        let total = PostListBase::rows_before(&self.posts, known, self.base.scroll_offset);
        rows_from_total(total)
    }

    fn get_last_visible_index(&self, area_height: u16) -> (last: usize) {
        let cache = &self.post_heights;
        let height = |post: &PostViewData| -> (rows: u16)
            ensures
                rows == rows_or(cache@, post.uri@, DEFAULT_POST_ROWS),
            { cache.height_or(post.uri.as_str(), DEFAULT_POST_ROWS) };
        proof {
            lemma_gives_post_rows(self.posts@, height, cache@, DEFAULT_POST_ROWS);
        }
        self.base.last_visible_index(&self.posts, height, 0, area_height)
    }

    /// Every post without a remembered height gets the height that it has in
    /// an area as wide as `area`.
    fn ensure_post_heights(&mut self, area: Rect)
        ensures
            final(self).posts == old(self).posts,
            final(self).rendered_posts == old(self).rendered_posts,
            final(self).status_line == old(self).status_line,
            final(self).anchor_uri == old(self).anchor_uri,
            final(self).cached_relationships == old(self).cached_relationships,
    {
        ensure_heights(&self.posts, &mut self.post_heights, area.width);
        proof {
            lemma_remembered(
                post_uris(self.posts@),
                measured_posts(self.posts@, area.width),
                old(self).post_heights@,
            );
        }
    }

    fn scroll_down(&mut self)
        ensures
            final(self).posts == old(self).posts,
            final(self).rendered_posts == old(self).rendered_posts,
            final(self).post_heights == old(self).post_heights,
            final(self).status_line == old(self).status_line,
            final(self).anchor_uri == old(self).anchor_uri,
            final(self).cached_relationships == old(self).cached_relationships,
    {
        if self.posts.len() == 0 {
            return ;
        }
        let cache = &self.post_heights;
        let height = |post: &PostViewData| -> (rows: u16)
            ensures
                rows == rows_or(cache@, post.uri@, DEFAULT_POST_ROWS),
            { cache.height_or(post.uri.as_str(), DEFAULT_POST_ROWS) };
        proof {
            lemma_gives_post_rows(self.posts@, height, cache@, DEFAULT_POST_ROWS);
        }
        self.base.handle_scroll_down(&self.posts, height);
    }

    fn scroll_up(&mut self)
        ensures
            final(self).posts == old(self).posts,
            final(self).rendered_posts == old(self).rendered_posts,
            final(self).post_heights == old(self).post_heights,
            final(self).status_line == old(self).status_line,
            final(self).anchor_uri == old(self).anchor_uri,
            final(self).cached_relationships == old(self).cached_relationships,
    {
        self.base.handle_scroll_up();
    }

    fn needs_more_content(&self) -> (needed: bool) {
        needs_more(self.base.selected_index, self.posts.len())
    }

    fn selected_index(&self) -> (index: usize) {
        self.base.selected_index
    }

    fn get_post(&self, index: usize) -> (post: Option<PostViewData>) {
        if index < self.posts.len() {
            Some(self.posts[index].clone())
        } else {
            None
        }
    }
}

/// The chain of posts from the post `uri` upwards, each followed by the post
/// that it answers, as far as the thread holds them. The chain ends at a post
/// that answers nothing or whose parent the thread does not hold, before a
/// post that stands in `seen` or in the chain already, and after `fuel` posts
/// at the latest.
pub open spec fn ancestor_chain(
    posts: Seq<PostViewData>,
    uri: Seq<char>,
    seen: Seq<Seq<char>>,
    fuel: nat,
) -> Seq<Seq<char>>
    decreases fuel,
{
    if fuel == 0 || seen.contains(uri) {
        Seq::empty()
    } else {
        match find_post(posts, uri) {
            None => Seq::empty(),
            Some(post) => match post.record.reply_parent {
                Some(parent) => seq![uri] + ancestor_chain(
                    posts,
                    parent@,
                    seen.push(uri),
                    (fuel - 1) as nat,
                ),
                None => seq![uri],
            },
        }
    }
}

/// No post stands twice in a chain, none of them stands in `seen`, and the
/// thread holds every one of them.
pub proof fn lemma_chain_distinct(
    posts: Seq<PostViewData>,
    uri: Seq<char>,
    seen: Seq<Seq<char>>,
    fuel: nat,
)
    ensures
        forall|p: int|
            0 <= p < ancestor_chain(posts, uri, seen, fuel).len() ==> !seen.contains(
                #[trigger] ancestor_chain(posts, uri, seen, fuel)[p],
            ) && find_post(posts, ancestor_chain(posts, uri, seen, fuel)[p]) is Some,
        forall|p: int, q: int|
            0 <= p < q < ancestor_chain(posts, uri, seen, fuel).len() ==> ancestor_chain(
                posts,
                uri,
                seen,
                fuel,
            )[p] != ancestor_chain(posts, uri, seen, fuel)[q],
        ancestor_chain(posts, uri, seen, fuel).len() <= fuel,
        ancestor_chain(posts, uri, seen, fuel).len() > 0 ==> ancestor_chain(
            posts,
            uri,
            seen,
            fuel,
        )[0] == uri,
    decreases fuel,
{
    let chain = ancestor_chain(posts, uri, seen, fuel);
    if fuel == 0 || seen.contains(uri) {
    } else {
        match find_post(posts, uri) {
            None => {},
            Some(post) => match post.record.reply_parent {
                Some(parent) => {
                    let above = ancestor_chain(posts, parent@, seen.push(uri), (fuel - 1) as nat);
                    lemma_chain_distinct(posts, parent@, seen.push(uri), (fuel - 1) as nat);
                    assert(chain =~= seq![uri] + above);
                    assert(seen.push(uri)[seen.len() as int] == uri);
                    assert forall|p: int| 0 <= p < chain.len() implies !seen.contains(
                        #[trigger] chain[p],
                    ) && find_post(posts, chain[p]) is Some by {
                        if p > 0 {
                            assert(chain[p] == above[p - 1]);
                            assert(!seen.push(uri).contains(above[p - 1]));
                            if seen.contains(chain[p]) {
                                let k = choose|k: int| 0 <= k < seen.len() && seen[k] == chain[p];
                                assert(seen.push(uri)[k] == chain[p]);
                            }
                        }
                    }
                    assert forall|p: int, q: int| 0 <= p < q < chain.len() implies chain[p]
                        != chain[q] by {
                        assert(chain[q] == above[q - 1]);
                        assert(!seen.push(uri).contains(above[q - 1]));
                        if p > 0 {
                            assert(chain[p] == above[p - 1]);
                        }
                    }
                },
                None => {},
            },
        }
    }
}

/// A post that `find_post` finds has the key that was looked for.
pub proof fn lemma_find_post(posts: Seq<PostViewData>, uri: Seq<char>)
    ensures
        find_post(posts, uri) matches Some(post) ==> post.uri@ == uri && posts.len() > 0,
    decreases posts.len(),
{
    if posts.len() > 0 && posts[0].uri@ != uri {
        lemma_find_post(posts.drop_first(), uri);
    }
}

/// The post at place `j` answers the post `anchor`.
pub open spec fn reply_at(posts: Seq<PostViewData>, anchor: Seq<char>, j: int) -> bool {
    posts[j].record.reply_parent matches Some(parent) && parent@ == anchor
}

/// One of the first `upto` posts has the key `uri` and answers the post
/// `anchor`.
pub open spec fn reply_before(
    posts: Seq<PostViewData>,
    anchor: Seq<char>,
    uri: Seq<char>,
    upto: int,
) -> bool {
    exists|j: int| 0 <= j < upto && #[trigger] posts[j].uri@ == uri && reply_at(posts, anchor, j)
}

/// The post `uri` stands in `chain` at place `from` or above it.
pub open spec fn chain_part(chain: Seq<Seq<char>>, from: int, uri: Seq<char>) -> bool {
    exists|p: int| from <= p < chain.len() && #[trigger] chain[p] == uri
}

/// A number as a `u16`: numbers above 65535 become 65535.
pub open spec fn clamp_level(level: int) -> u16 {
    if level > 65535 {
        65535u16
    } else if level < 0 {
        0u16
    } else {
        level as u16
    }
}

/// `relationships` shows the posts of `chain` from place `from` on and the
/// answers to `anchor` among the first `upto` posts, and nothing else.
///
/// A post of the chain is indented by as many levels as posts stand above it
/// in the chain: the topmost is not indented, the post `anchor` is indented
/// most. Its parent is the one that its record names. An answer to `anchor`
/// is indented one level more than `anchor`, and its parent is `anchor`; this
/// also holds of an answer that stands in the chain.
pub open spec fn shows(
    relationships: &ThreadRelationships,
    posts: Seq<PostViewData>,
    anchor: Seq<char>,
    chain: Seq<Seq<char>>,
    from: int,
    upto: int,
) -> bool {
    &&& forall|uri: Seq<char>| #[trigger]
        relationships.visible().contains(uri) <==> chain_part(chain, from, uri) || reply_before(
            posts,
            anchor,
            uri,
            upto,
        )
    &&& forall|uri: Seq<char>| #[trigger]
        relationships.indents().contains_key(uri) <==> relationships.visible().contains(uri)
    &&& forall|uri: Seq<char>| #[trigger]
        reply_before(posts, anchor, uri, upto) ==> {
            &&& relationships.indents()[uri] == clamp_level(clamp_level(chain.len() - 1) + 1)
            &&& relationships.parents().contains_key(uri)
            &&& relationships.parents()[uri] == anchor
        }
    &&& forall|p: int|
        from <= p < chain.len() && !reply_before(posts, anchor, #[trigger] chain[p], upto) ==> {
            &&& relationships.indents()[chain[p]] == clamp_level(chain.len() - 1 - p)
            &&& match find_post(posts, chain[p]) {
                Some(post) => match post.record.reply_parent {
                    Some(parent) => relationships.parents().contains_key(chain[p])
                        && relationships.parents()[chain[p]] == parent@,
                    None => !relationships.parents().contains_key(chain[p]),
                },
                None => !relationships.parents().contains_key(chain[p]),
            }
        }
    &&& forall|uri: Seq<char>| #[trigger]
        relationships.parents().contains_key(uri) ==> relationships.visible().contains(uri)
}

/// The keys that `strings` hold, in their order.
pub open spec fn string_views(strings: Seq<String>) -> Seq<Seq<char>> {
    Seq::new(strings.len(), |i: int| strings[i]@)
}

/// The posts above the post that a thread is about, the topmost first.
pub open spec fn parent_posts(parent: ParentLink) -> Seq<PostViewData> {
    match parent {
        ParentLink::Refs(refs) => chain_posts(refs),
        _ => Seq::empty(),
    }
}

/// What the chain above the post of a thread says of its topmost end.
pub open spec fn parent_status(parent: ParentLink) -> Option<Seq<char>> {
    match parent {
        ParentLink::Refs(refs) => chain_status(refs),
        _ => None,
    }
}

/// The thread cannot be taken: the chain above its post ends in something
/// that the client does not know.
pub open spec fn thread_refused(thread_data: OutputThreadRefs) -> bool {
    match thread_data {
        OutputThreadRefs::AppBskyFeedDefsThreadViewPost { parent, .. } => match parent {
            ParentLink::Refs(refs) => chain_unknown(refs),
            _ => false,
        },
        OutputThreadRefs::Other => false,
    }
}

/// The posts of a thread in the order in which they are listed: the chain of
/// parents from the topmost down, the post that the thread is about, and the
/// answers to it that can be shown.
pub open spec fn thread_posts(thread_data: OutputThreadRefs) -> Seq<PostViewData> {
    match thread_data {
        OutputThreadRefs::AppBskyFeedDefsThreadViewPost { post, parent, replies } => {
            parent_posts(parent).push(post) + match replies {
                Some(list) => shown_replies(list@),
                None => Seq::empty(),
            }
        },
        OutputThreadRefs::Other => Seq::empty(),
    }
}

/// The first post of `posts` with the key `uri`.
pub open spec fn find_post(posts: Seq<PostViewData>, uri: Seq<char>) -> Option<PostViewData>
    decreases posts.len(),
{
    if posts.len() == 0 {
        None
    } else if posts[0].uri@ == uri {
        Some(posts[0])
    } else {
        find_post(posts.drop_first(), uri)
    }
}

} // verus!
