//! The home timeline.

use super::height_cache::{item_rows, rows_or, HeightCache};
use super::post::types::{PostContext, PostViewData};
use super::post::{lemma_shows_same_post, shows_post, Post};
use super::post_list::{
    clamp_cursor, clamped, ensure_heights, lemma_gives_post_rows, lemma_remembered,
    measured_posts, needs_more, post_uris, rows_from_total, slots_show, PostList, PostListBase,
    Slot,
};
use crate::ui::components::text::str_eq;
use crate::ui::layout::Rect;
use std::collections::VecDeque;
use vstd::prelude::*;

verus! {

/// The rows taken for a post whose height is not known yet.
pub const DEFAULT_POST_ROWS: u16 = 6;

pub struct Feed {
    pub posts: VecDeque<PostViewData>,
    pub rendered_posts: Vec<Post>,
    pub cursor: Option<String>,
    pub post_heights: HeightCache,
    pub status_line: Option<String>,
    pub base: PostListBase,
}

/// `rendered` holds, post for post, what is drawn for `posts`, see
/// `shows_post`.
pub open spec fn rendered_for(rendered: Seq<Post>, posts: Seq<PostViewData>) -> bool {
    &&& rendered.len() == posts.len()
    &&& forall|i: int| 0 <= i < posts.len() ==> shows_post(&#[trigger] rendered[i], &posts[i])
}

impl Feed {
    /// Every post has its drawn counterpart.
    pub open spec fn wf(&self) -> bool {
        rendered_for(self.rendered_posts@, self.posts@)
    }

    pub fn new() -> (feed: Self)
        ensures
            feed.posts@.len() == 0,
            feed.rendered_posts@.len() == 0,
            feed.cursor is None,
            feed.post_heights@ == Map::<Seq<char>, u16>::empty(),
            feed.status_line is Some && feed.status_line->0@.len() == 0,
            feed.base == (PostListBase { selected_index: 0, scroll_offset: 0, last_known_height: 0 }),
            feed.wf(),
    {
        Self {
            posts: VecDeque::new(),
            rendered_posts: Vec::new(),
            cursor: None,
            post_heights: HeightCache::new(),
            status_line: Some(String::new()),
            base: PostListBase::new(),
        }
    }

    pub fn post_heights(&self) -> (heights: &HeightCache)
        ensures
            heights@ == self.post_heights@,
    {
        &self.post_heights
    }

    /// Appends a page of posts in the order in which it came.
    fn append_posts(&mut self, page: Vec<PostViewData>)
        ensures
            old(self).wf() ==> final(self).wf(),
            final(self).rendered_posts@.len() == old(self).rendered_posts@.len() + page@.len(),
            final(self).posts@ == old(self).posts@ + page@,
            final(self).cursor == old(self).cursor,
            final(self).post_heights == old(self).post_heights,
            final(self).status_line == old(self).status_line,
            final(self).base == old(self).base,
    {
        let ghost all = page@;
        let ghost start = self.posts@;
        for feed_post in it: page
            invariant
                it.seq() == all,
                old(self).wf() ==> self.wf(),
                self.rendered_posts@.len() == old(self).rendered_posts@.len() + it.index(),
                self.cursor == old(self).cursor,
                self.post_heights == old(self).post_heights,
                self.status_line == old(self).status_line,
                self.base == old(self).base,
                start == old(self).posts@,
                self.posts@ == start + all.take(it.index() as int),
        {
            let copy = feed_post.clone();
            let shown = Post::new(copy, PostContext { indent_level: 0 });
            proof {
                lemma_shows_same_post(&shown, &copy, &feed_post);
            }
            self.rendered_posts.push(shown);
            self.posts.push_back(feed_post);
            assert(self.posts@ =~= start + all.take(it.index() + 1));
        }
        assert(all.take(all.len() as int) =~= all);
        assert(self.posts@ =~= start + all);
    }

    /// Takes the first page of the timeline: its posts are appended, and its
    /// cursor is the place from which the next page continues.
    pub fn load_initial_posts(&mut self, page: Vec<PostViewData>, cursor: Option<String>)
        ensures
            old(self).wf() ==> final(self).wf(),
            final(self).rendered_posts@.len() == old(self).rendered_posts@.len() + page@.len(),
            final(self).posts@ == old(self).posts@ + page@,
            final(self).cursor == cursor,
            final(self).post_heights == old(self).post_heights,
            final(self).status_line == old(self).status_line,
            final(self).base == old(self).base,
    {
        self.append_posts(page);
        self.cursor = cursor;
    }

    /// Takes the page that follows what is loaded.
    pub fn scroll(&mut self, page: Vec<PostViewData>, cursor: Option<String>)
        ensures
            old(self).wf() ==> final(self).wf(),
            final(self).rendered_posts@.len() == old(self).rendered_posts@.len() + page@.len(),
            final(self).posts@ == old(self).posts@ + page@,
            final(self).cursor == cursor,
            final(self).post_heights == old(self).post_heights,
            final(self).status_line == old(self).status_line,
            final(self).base == old(self).base,
    {
        self.append_posts(page);
        self.cursor = cursor;
    }
}

impl Feed {
    /// Where the posts are drawn that `area` shows, see `slots_show`.
    pub fn visible_slots(&self, area: Rect) -> (slots: Vec<Slot>)
        ensures
            slots_show(
                item_rows(post_uris(self.posts@), self.post_heights@, DEFAULT_POST_ROWS),
                0,
                self.base.scroll_offset as int,
                area.y as int,
                area.height as int,
                slots@,
            ),
    {
        let cache = &self.post_heights;
        let height = |post: &PostViewData| -> (rows: u16)
            ensures
                rows == rows_or(cache@, post.uri@, DEFAULT_POST_ROWS),
            { cache.height_or(post.uri.as_str(), DEFAULT_POST_ROWS) };
        proof {
            lemma_gives_post_rows(self.posts@, height, cache@, DEFAULT_POST_ROWS);
        }
        self.base.visible_slots(&self.posts, height, 0, area.y, area.height)
    }

    pub fn selected_index(&self) -> (index: usize)
        ensures
            index == self.base.selected_index,
    {
        self.base.selected_index
    }

    /// A post is selected, and `page` still holds it.
    pub open spec fn keeps_selection(&self, page: Seq<PostViewData>) -> bool {
        self.base.selected_index < self.posts@.len() && post_uris(page).contains(
            self.posts@[self.base.selected_index as int].uri@,
        )
    }

    /// The feed is `before` after `page` was taken as its first page, with
    /// `cursor` as the mark of the next one: the page stands in place of the
    /// posts where a post was selected, and behind them where none was; the
    /// cursor is brought into the new list; heights and status line stay.
    pub open spec fn reloaded_from(
        &self,
        before: &Feed,
        page: Seq<PostViewData>,
        cursor: Option<String>,
    ) -> bool {
        &&& before.wf() ==> self.wf()
        &&& self.post_heights == before.post_heights
        &&& self.status_line == before.status_line
        &&& self.cursor == cursor
        &&& self.posts@ == if before.base.selected_index < before.posts@.len() {
            page
        } else {
            before.posts@ + page
        }
        &&& self.base == clamped(before.base, self.posts@.len())
        &&& self.posts@.len() > 0 ==> self.base.wf(self.posts@.len())
    }

    /// Replaces what is loaded by a freshly fetched first page, and brings
    /// the cursor into the new list, see `reloaded_from`. Where the page
    /// still holds the post that was selected, the result is true; where it
    /// does not, or nothing was selected, the page is taken as a first load
    /// and the result is false.
    pub fn reload_feed(&mut self, page: Vec<PostViewData>, cursor: Option<String>) -> (restored:
        bool)
        ensures
            final(self).reloaded_from(old(self), page@, cursor),
            restored == old(self).keeps_selection(page@),
    {
        if self.base.selected_index < self.posts.len() {
            let found = Self::position_of(&page, self.posts[self.base.selected_index].uri.as_str());
            self.posts.clear();
            self.rendered_posts.clear();
            self.append_posts(page);
            self.cursor = cursor;
            assert(self.posts@ =~= page@);
            clamp_cursor(&mut self.base, self.posts.len());
            found.is_some()
        } else {
            self.append_posts(page);
            self.cursor = cursor;
            clamp_cursor(&mut self.base, self.posts.len());
            false
        }
    }

    /// Where the post `uri` stands in `posts`: its first place, if it has one.
    pub fn position_of(posts: &Vec<PostViewData>, uri: &str) -> (found: Option<usize>)
        ensures
            found is Some <==> post_uris(posts@).contains(uri@),
            found matches Some(index) ==> index < posts@.len() && posts@[index as int].uri@ == uri@
                && forall|k: int| 0 <= k < index ==> posts@[k].uri@ != uri@,
    {
        let mut i: usize = 0;
        while i < posts.len()
            invariant
                i <= posts@.len(),
                forall|k: int| 0 <= k < i ==> posts@[k].uri@ != uri@,
            decreases posts@.len() - i,
        {
            if str_eq(posts[i].uri.as_str(), uri) {
                assert(post_uris(posts@)[i as int] == uri@);
                return Some(i);
            }
            i += 1;
        }
        assert forall|k: int| 0 <= k < post_uris(posts@).len() implies post_uris(posts@)[k]
            != uri@ by {}
        None
    }
}

impl PostList for Feed {
    open spec fn base(&self) -> PostListBase {
        self.base
    }

    open spec fn uris(&self) -> Seq<Seq<char>> {
        post_uris(self.posts@)
    }

    open spec fn cached(&self) -> Map<Seq<char>, u16> {
        self.post_heights@
    }

    open spec fn default_rows(&self) -> u16 {
        DEFAULT_POST_ROWS
    }

    open spec fn lead_rows(&self) -> u16 {
        0
    }

    open spec fn shown_posts(&self) -> Seq<PostViewData> {
        self.posts@
    }

    open spec fn measured_rows(&self, width: u16) -> Seq<u16> {
        measured_posts(self.posts@, width)
    }

    fn get_total_height_before_scroll(&self) -> (rows: u16) {
        let cache = &self.post_heights;
        let known = |post: &PostViewData| -> (rows: u16)
            ensures
                rows == rows_or(cache@, post.uri@, 0),
            { cache.height_or(post.uri.as_str(), 0) };
        proof {
            lemma_gives_post_rows(self.posts@, known, cache@, 0);
        }
        let total = PostListBase::rows_before(&self.posts, known, self.base.scroll_offset);
        rows_from_total(total)
    }

    fn get_last_visible_index(&self, area_height: u16) -> (last: usize) {
        let cache = &self.post_heights;
        let height = |post: &PostViewData| -> (rows: u16)
            ensures
                rows == rows_or(cache@, post.uri@, DEFAULT_POST_ROWS),
            { cache.height_or(post.uri.as_str(), DEFAULT_POST_ROWS) };
        proof {
            lemma_gives_post_rows(self.posts@, height, cache@, DEFAULT_POST_ROWS);
        }
        self.base.last_visible_index(&self.posts, height, 0, area_height)
    }

    /// Every post without a remembered height gets the height that it has in
    /// an area as wide as `area`.
    fn ensure_post_heights(&mut self, area: Rect)
        ensures
            final(self).posts == old(self).posts,
            final(self).rendered_posts == old(self).rendered_posts,
            final(self).cursor == old(self).cursor,
            final(self).status_line == old(self).status_line,
    {
        ensure_heights(&self.posts, &mut self.post_heights, area.width);
        proof {
            lemma_remembered(
                post_uris(self.posts@),
                measured_posts(self.posts@, area.width),
                old(self).post_heights@,
            );
        }
    }

    fn scroll_down(&mut self)
        ensures
            final(self).posts == old(self).posts,
            final(self).rendered_posts == old(self).rendered_posts,
            final(self).cursor == old(self).cursor,
            final(self).post_heights == old(self).post_heights,
            final(self).status_line == old(self).status_line,
    {
        if self.posts.len() == 0 {
            return ;
        }
        let cache = &self.post_heights;
        let height = |post: &PostViewData| -> (rows: u16)
            ensures
                rows == rows_or(cache@, post.uri@, DEFAULT_POST_ROWS),
            { cache.height_or(post.uri.as_str(), DEFAULT_POST_ROWS) };
        proof {
            lemma_gives_post_rows(self.posts@, height, cache@, DEFAULT_POST_ROWS);
        }
        self.base.handle_scroll_down(&self.posts, height);
    }

    fn scroll_up(&mut self)
        ensures
            final(self).posts == old(self).posts,
            final(self).rendered_posts == old(self).rendered_posts,
            final(self).cursor == old(self).cursor,
            final(self).post_heights == old(self).post_heights,
            final(self).status_line == old(self).status_line,
    {
        self.base.handle_scroll_up();
    }

    fn needs_more_content(&self) -> (needed: bool) {
        needs_more(self.base.selected_index, self.posts.len())
    }

    fn selected_index(&self) -> (index: usize) {
        self.base.selected_index
    }

    fn get_post(&self, index: usize) -> (post: Option<PostViewData>) {
        if index < self.posts.len() {
            Some(self.posts[index].clone())
        } else {
            None
        }
    }
}

} // verus!
