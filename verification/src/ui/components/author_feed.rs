//! The posts of one author, below the profile of the author.

use super::author_profile::AuthorProfile;
use super::feed::{rendered_for, DEFAULT_POST_ROWS};
use super::height_cache::{item_rows, rows_or, HeightCache};
use super::post::types::{PostContext, PostViewData};
use super::post::{lemma_shows_same_post, Post};
use super::post_list::{
    clamp_cursor, clamped, ensure_heights, lemma_gives_post_rows, lemma_remembered,
    measured_posts, needs_more, post_uris, rows_from_total, slots_show, PostList, PostListBase,
    Slot,
};
use crate::ui::layout::Rect;
use std::collections::VecDeque;
use vstd::prelude::*;

verus! {

pub struct AuthorFeed {
    pub profile: AuthorProfile,
    pub posts: VecDeque<PostViewData>,
    pub rendered_posts: Vec<Post>,
    pub post_heights: HeightCache,
    pub base: PostListBase,
}

impl AuthorFeed {
    /// Every post has its drawn counterpart.
    pub open spec fn wf(&self) -> bool {
        rendered_for(self.rendered_posts@, self.posts@)
    }

    pub fn new(profile: AuthorProfile, feed_data: Vec<PostViewData>) -> (feed: Self)
        ensures
            feed.profile == profile,
            feed.posts@ == feed_data@,
            feed.post_heights@ == Map::<Seq<char>, u16>::empty(),
            feed.base == (PostListBase { selected_index: 0, scroll_offset: 0, last_known_height: 0 }),
            feed.wf(),
    {
        let mut author_feed = Self {
            profile,
            posts: VecDeque::new(),
            rendered_posts: Vec::new(),
            post_heights: HeightCache::new(),
            base: PostListBase::new(),
        };
        author_feed.process_feed_data(feed_data);
        assert(author_feed.posts@ =~= feed_data@);
        author_feed
    }

    /// Appends the posts of a page in the order in which they came.
    pub fn process_feed_data(&mut self, feed_data: Vec<PostViewData>)
        ensures
            old(self).wf() ==> final(self).wf(),
            final(self).posts@ == old(self).posts@ + feed_data@,
            final(self).rendered_posts@.len() == old(self).rendered_posts@.len()
                + feed_data@.len(),
            final(self).profile == old(self).profile,
            final(self).post_heights == old(self).post_heights,
            final(self).base == old(self).base,
    {
        let ghost all = feed_data@;
        let ghost start = self.posts@;
        for post in it: feed_data
            invariant
                it.seq() == all,
                old(self).wf() ==> self.wf(),
                self.rendered_posts@.len() == old(self).rendered_posts@.len() + it.index(),
                self.profile == old(self).profile,
                self.post_heights == old(self).post_heights,
                self.base == old(self).base,
                start == old(self).posts@,
                self.posts@ == start + all.take(it.index() as int),
        {
            self.add_post(post);
            assert(self.posts@ =~= start + all.take(it.index() + 1));
        }
        assert(all.take(all.len() as int) =~= all);
    }

    /// Appends one post.
    pub fn add_post(&mut self, post: PostViewData)
        ensures
            old(self).wf() ==> final(self).wf(),
            final(self).posts@ == old(self).posts@.push(post),
            final(self).rendered_posts@.len() == old(self).rendered_posts@.len() + 1,
            final(self).profile == old(self).profile,
            final(self).post_heights == old(self).post_heights,
            final(self).base == old(self).base,
    {
        let copy = post.clone();
        let shown = Post::new(copy, PostContext { indent_level: 0 });
        proof {
            lemma_shows_same_post(&shown, &copy, &post);
        }
        self.rendered_posts.push(shown);
        self.posts.push_back(post);
    }

    /// Where the posts are drawn that `area` shows, below the profile where
    /// nothing is scrolled away, see `slots_show`.
    pub fn visible_slots(&self, area: Rect) -> (slots: Vec<Slot>)
        ensures
            slots_show(
                item_rows(post_uris(self.posts@), self.post_heights@, DEFAULT_POST_ROWS),
                self.profile.height as int,
                self.base.scroll_offset as int,
                area.y as int,
                area.height as int,
                slots@,
            ),
    {
        let cache = &self.post_heights;
        let height = |post: &PostViewData| -> (rows: u16)
            ensures
                rows == rows_or(cache@, post.uri@, DEFAULT_POST_ROWS),
            { cache.height_or(post.uri.as_str(), DEFAULT_POST_ROWS) };
        proof {
            lemma_gives_post_rows(self.posts@, height, cache@, DEFAULT_POST_ROWS);
        }
        self.base.visible_slots(&self.posts, height, self.profile.height(), area.y, area.height)
    }

    /// The list is `before` with `feed_data` in place of its posts, and the
    /// cursor brought into the new list. Profile and heights stay.
    pub open spec fn replaced_from(&self, before: &AuthorFeed, feed_data: Seq<PostViewData>) -> bool {
        &&& self.wf()
        &&& self.posts@ == feed_data
        &&& self.profile == before.profile
        &&& self.post_heights == before.post_heights
        &&& self.base == clamped(before.base, feed_data.len())
        &&& feed_data.len() > 0 ==> self.base.wf(feed_data.len())
    }

    /// Replaces the posts by a freshly fetched page, see `replaced_from`.
    pub fn replace_posts(&mut self, feed_data: Vec<PostViewData>)
        ensures
            final(self).replaced_from(old(self), feed_data@),
    {
        self.posts.clear();
        self.rendered_posts.clear();
        self.process_feed_data(feed_data);
        assert(self.posts@ =~= feed_data@);
        clamp_cursor(&mut self.base, self.posts.len());
    }
}

impl PostList for AuthorFeed {
    open spec fn base(&self) -> PostListBase {
        self.base
    }

    open spec fn uris(&self) -> Seq<Seq<char>> {
        post_uris(self.posts@)
    }

    open spec fn cached(&self) -> Map<Seq<char>, u16> {
        self.post_heights@
    }

    open spec fn default_rows(&self) -> u16 {
        DEFAULT_POST_ROWS
    }

    /// The profile is drawn above the first post.
    open spec fn lead_rows(&self) -> u16 {
        self.profile.height
    }

    open spec fn shown_posts(&self) -> Seq<PostViewData> {
        self.posts@
    }

    open spec fn measured_rows(&self, width: u16) -> Seq<u16> {
        measured_posts(self.posts@, width)
    }

    fn get_total_height_before_scroll(&self) -> (rows: u16) {
        let profile_height: u16 = if self.base.scroll_offset == 0 {
            self.profile.height()
        } else {
            0
        };
        let cache = &self.post_heights;
        let known = |post: &PostViewData| -> (rows: u16)
            ensures
                rows == rows_or(cache@, post.uri@, 0),
            { cache.height_or(post.uri.as_str(), 0) };
        proof {
            lemma_gives_post_rows(self.posts@, known, cache@, 0);
        }
        let total = PostListBase::rows_before(&self.posts, known, self.base.scroll_offset);
        rows_from_total(total + (profile_height as u128))
    }

    fn get_last_visible_index(&self, area_height: u16) -> (last: usize) {
        let cache = &self.post_heights;
        let height = |post: &PostViewData| -> (rows: u16)
            ensures
                rows == rows_or(cache@, post.uri@, DEFAULT_POST_ROWS),
            { cache.height_or(post.uri.as_str(), DEFAULT_POST_ROWS) };
        proof {
            lemma_gives_post_rows(self.posts@, height, cache@, DEFAULT_POST_ROWS);
        }
        self.base.last_visible_index(&self.posts, height, self.profile.height(), area_height)
    }

    /// Every post without a remembered height gets the height that it has in
    /// an area as wide as `area`.
    fn ensure_post_heights(&mut self, area: Rect)
        ensures
            final(self).posts == old(self).posts,
            final(self).rendered_posts == old(self).rendered_posts,
            final(self).profile == old(self).profile,
    {
        ensure_heights(&self.posts, &mut self.post_heights, area.width);
        proof {
            lemma_remembered(
                post_uris(self.posts@),
                measured_posts(self.posts@, area.width),
                old(self).post_heights@,
            );
        }
    }

    /// The profile counts as rows above the first post for as long as the
    /// viewport starts at the top.
    fn scroll_down(&mut self)
        ensures
            final(self).posts == old(self).posts,
            final(self).rendered_posts == old(self).rendered_posts,
            final(self).post_heights == old(self).post_heights,
            final(self).profile == old(self).profile,
    {
        if self.posts.len() == 0 {
            return ;
        }
        let cache = &self.post_heights;
        let height = |post: &PostViewData| -> (rows: u16)
            ensures
                rows == rows_or(cache@, post.uri@, DEFAULT_POST_ROWS),
            { cache.height_or(post.uri.as_str(), DEFAULT_POST_ROWS) };
        proof {
            lemma_gives_post_rows(self.posts@, height, cache@, DEFAULT_POST_ROWS);
        }
        self.base.scroll_down_below(&self.posts, height, self.profile.height());
    }

    /// A step up to the first post shows the profile again.
    fn scroll_up(&mut self)
        ensures
            final(self).posts == old(self).posts,
            final(self).rendered_posts == old(self).rendered_posts,
            final(self).post_heights == old(self).post_heights,
            final(self).profile == old(self).profile,
            old(self).base.selected_index == 1 ==> final(self).base.scroll_offset == 0,
    {
        self.base.handle_scroll_up();
    }

    fn needs_more_content(&self) -> (needed: bool) {
        needs_more(self.base.selected_index, self.posts.len())
    }

    fn selected_index(&self) -> (index: usize) {
        self.base.selected_index
    }

    fn get_post(&self, index: usize) -> (post: Option<PostViewData>) {
        if index < self.posts.len() {
            Some(self.posts[index].clone())
        } else {
            None
        }
    }
}

} // verus!
