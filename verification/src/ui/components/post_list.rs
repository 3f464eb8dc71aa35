//! The scroll cursor shared by every list of the client, and the capability
//! that each list offers.

use super::height_cache::{item_rows, rows_or, HeightCache};
use super::post::content::wrapped_rows;
use super::post::types::{Embed, NotificationData, PostViewData, RecordText};
use super::post::{post_images, Post};
use crate::ui::components::text::{clamp_rows, columns_for_text, str_eq, wrapped_line_count};
use crate::ui::layout::Rect;
use std::collections::VecDeque;
use vstd::prelude::*;

verus! {

/// Rows needed to draw the items `from..to` of a list whose item heights are
/// `heights`, one below the other. Zero when the range is empty.
pub open spec fn rows_between(heights: Seq<u16>, from: int, to: int) -> int
    decreases to - from,
{
    if from >= to {
        0
    } else {
        rows_between(heights, from, to - 1) + heights[to - 1]
    }
}

/// Rows that a list draws above its first item when the viewport starts at
/// `offset`: the `lead` rows of what stands above the list (a profile, say) are
/// drawn only while nothing has been scrolled away.
pub open spec fn lead_at(lead: int, offset: int) -> int {
    if offset == 0 {
        lead
    } else {
        0
    }
}

/// Rows between the top of the viewport and the bottom of item `index` when
/// the first drawn item is `offset`: what the viewport must offer to show
/// `index` unclipped.
pub open spec fn span_rows(heights: Seq<u16>, lead: int, offset: int, index: int) -> int {
    lead_at(lead, offset) + rows_between(heights, offset, index) + heights[index]
}

/// Item `index` lies fully inside a viewport of `viewport` rows whose first
/// drawn item is `offset`.
pub open spec fn fits(heights: Seq<u16>, lead: int, offset: int, index: int, viewport: int) -> bool {
    span_rows(heights, lead, offset, index) <= viewport
}

/// Dropping the first item of a range removes exactly its rows.
pub proof fn lemma_rows_drop_first(heights: Seq<u16>, from: int, to: int)
    requires
        from < to,
    ensures
        rows_between(heights, from, to) == heights[from] + rows_between(heights, from + 1, to),
    decreases to - from,
{
    if from + 1 < to {
        lemma_rows_drop_first(heights, from, to - 1);
    } else {
        assert(rows_between(heights, from, to - 1) == 0);
        assert(rows_between(heights, from + 1, to) == 0);
    }
}

/// The rows of a range are those of its two parts.
pub proof fn lemma_rows_split(heights: Seq<u16>, from: int, mid: int, to: int)
    requires
        from <= mid <= to,
    ensures
        rows_between(heights, from, to) == rows_between(heights, from, mid) + rows_between(
            heights,
            mid,
            to,
        ),
    decreases to - mid,
{
    if mid < to {
        lemma_rows_split(heights, from, mid, to - 1);
    }
}

/// A range of `to - from` items needs at most 65535 rows for each of them.
pub proof fn lemma_rows_bounds(heights: Seq<u16>, from: int, to: int)
    ensures
        0 <= rows_between(heights, from, to),
        from <= to ==> rows_between(heights, from, to) <= 65535 * (to - from),
        from >= to ==> rows_between(heights, from, to) == 0,
    decreases to - from,
{
    if from < to {
        lemma_rows_bounds(heights, from, to - 1);
    }
}

/// The rows of a post whose text takes `text_lines` lines: two borders, the
/// header and the counts; the text; for a quoted post its two borders, its
/// header, its text and its counts, and fifteen rows more if it has images;
/// fifteen rows if the post itself has images.
pub open spec fn post_rows(text_lines: nat, quote: Option<(nat, bool)>, has_images: bool) -> int {
    4 + text_lines + match quote {
        Some((quote_lines, quote_has_images)) => 4 + quote_lines + if quote_has_images {
            15int
        } else {
            0int
        },
        None => 0int,
    } + if has_images {
        15int
    } else {
        0int
    }
}

/// The rows that the text of a record takes at `width` columns less `padding`;
/// none for a record without a text.
pub open spec fn record_text_rows(text: RecordText, width: u16, padding: u16) -> nat {
    match text {
        RecordText::Text(own) => wrapped_rows(own@, width, padding),
        _ => 0,
    }
}

/// The height of `post` in an area `width` columns wide, 65535 rows at most.
pub open spec fn post_height(post: &PostViewData, width: u16) -> u16 {
    clamp_rows(
        post_rows(
            record_text_rows(post.record.text, width, 4),
            match post.embed {
                Embed::Quote(quoted) => Some(
                    (record_text_rows(quoted.record.text, width, 6), quoted.images is Some),
                ),
                _ => None,
            },
            post_images(post) is Some,
        ),
    )
}

/// The text of a record as far as it takes rows: none for a record without
/// a text.
pub open spec fn text_of(text: RecordText) -> Option<Seq<char>> {
    match text {
        RecordText::Text(own) => Some(own@),
        _ => None,
    }
}

/// What the height of a post depends on besides the width: its text, the
/// text of the post that it quotes and whether that post has images, and
/// whether the post itself has images.
pub open spec fn height_inputs(post: &PostViewData) -> (
    Option<Seq<char>>,
    Option<(Option<Seq<char>>, bool)>,
    bool,
) {
    (
        text_of(post.record.text),
        match post.embed {
            Embed::Quote(quoted) => Some((text_of(quoted.record.text), quoted.images is Some)),
            _ => None,
        },
        post_images(post) is Some,
    )
}

/// Two posts that agree in what the height depends on have the same height
/// at every width.
pub proof fn lemma_same_inputs_same_height(a: &PostViewData, b: &PostViewData, width: u16)
    requires
        height_inputs(a) == height_inputs(b),
    ensures
        post_height(a, width) == post_height(b, width),
{
}

/// `get_height` can be called on every item of `posts`.
pub open spec fn height_accessor<T, F: Fn(&T) -> u16>(posts: Seq<T>, get_height: F) -> bool {
    forall|i: int| 0 <= i < posts.len() ==> call_requires(get_height, (&#[trigger] posts[i],))
}

/// `heights` holds, item by item, the one height that `get_height` can give.
pub open spec fn gives_heights<T, F: Fn(&T) -> u16>(
    posts: Seq<T>,
    get_height: F,
    heights: Seq<u16>,
) -> bool {
    &&& heights.len() == posts.len()
    &&& forall|i: int, h: u16|
        0 <= i < posts.len() && call_ensures(get_height, (&#[trigger] posts[i],), h)
            ==> h == heights[i]
}

/// Where scrolling down leaves the first drawn item. From `start`, the
/// viewport of `viewport` rows moves forward to `offset`: the first position at
/// which item `next` is drawn unclipped, or the last item of the list where no
/// position before it does. A viewport that starts below `next` stays.
pub open spec fn scrolled_to(
    heights: Seq<u16>,
    lead: int,
    start: int,
    next: int,
    viewport: int,
    offset: int,
) -> bool {
    if start > next {
        offset == start
    } else {
        &&& start <= offset < heights.len()
        &&& fits(heights, lead, offset, next, viewport) || offset == heights.len() - 1
        &&& forall|k: int| start <= k < offset ==> !fits(heights, lead, k, next, viewport)
    }
}

/// `last` is the last item that a viewport of `viewport` rows shows unclipped
/// when its first drawn item is `offset`: the item before the first one that
/// does not fit. Where not even the first drawn item fits, or there is none,
/// it is `offset` itself.
pub open spec fn last_visible(
    heights: Seq<u16>,
    lead: int,
    offset: int,
    viewport: int,
    last: int,
) -> bool {
    if offset >= heights.len() || !fits(heights, lead, offset, offset, viewport) {
        last == offset
    } else {
        &&& offset <= last < heights.len()
        &&& fits(heights, lead, offset, last, viewport)
        &&& last + 1 < heights.len() ==> !fits(heights, lead, offset, last + 1, viewport)
    }
}

/// Where an item of a list is drawn: which item it is, the row at which it
/// begins, and how many rows it gets.
#[derive(Clone, Copy, PartialEq, Eq, Structural, Debug)]
pub struct Slot {
    pub index: usize,
    pub y: u16,
    pub height: u16,
}

/// The row as a `u16`: rows beyond 65535 count as row 65535.
pub open spec fn clamp_row(row: int) -> u16 {
    if row > 65535 {
        65535u16
    } else {
        row as u16
    }
}

/// `slot` is the place of the item that stands `j` items after the first
/// drawn item `offset`: it begins below the rows of the items before it, and
/// gets its height in rows, or the rows that are left where those are fewer.
pub open spec fn slot_shows(
    heights: Seq<u16>,
    lead: int,
    offset: int,
    top: int,
    rows: int,
    j: int,
    slot: Slot,
) -> bool {
    let used = lead_at(lead, offset) + rows_between(heights, offset, offset + j);
    &&& slot.index == offset + j
    &&& used < rows
    &&& slot.y == clamp_row(top + used)
    &&& slot.height == if heights[offset + j] <= rows - used {
        heights[offset + j]
    } else {
        (rows - used) as u16
    }
}

/// `slots` are the places of the items that a viewport shows which begins at
/// the row `top`, has `rows` rows and starts at the item `offset`, below
/// `lead` rows where `offset` is the first item.
///
/// The items are drawn one below the other from `offset` on. An item is
/// drawn as long as rows are left when its turn comes, and gets its height
/// in rows, or the rows that are left where those are fewer.
pub open spec fn slots_show(
    heights: Seq<u16>,
    lead: int,
    offset: int,
    top: int,
    rows: int,
    slots: Seq<Slot>,
) -> bool {
    &&& offset + slots.len() <= heights.len() || slots.len() == 0
    &&& forall|j: int|
        0 <= j < slots.len() ==> slot_shows(heights, lead, offset, top, rows, j, #[trigger] slots[j])
    &&& offset + slots.len() < heights.len() ==> lead_at(lead, offset) + rows_between(
        heights,
        offset,
        offset + slots.len(),
    ) >= rows
}

/// The first position from `from` on at which item `next` is drawn unclipped,
/// or the last item of the list where no position before it does.
pub open spec fn first_fit(heights: Seq<u16>, lead: int, from: int, next: int, viewport: int) -> int
    decreases heights.len() - from,
{
    if from >= heights.len() - 1 || fits(heights, lead, from, next, viewport) {
        from
    } else {
        first_fit(heights, lead, from + 1, next, viewport)
    }
}

/// What `first_fit` finds: a position of the list at or after `from`, at which
/// `next` fits unless it is the last one, and before which `next` never fits.
pub proof fn lemma_first_fit_from(heights: Seq<u16>, lead: int, from: int, next: int, viewport: int)
    requires
        0 <= from < heights.len(),
    ensures
        from <= first_fit(heights, lead, from, next, viewport) < heights.len(),
        fits(heights, lead, first_fit(heights, lead, from, next, viewport), next, viewport)
            || first_fit(heights, lead, from, next, viewport) == heights.len() - 1,
        forall|k: int|
            from <= k < first_fit(heights, lead, from, next, viewport) ==> !fits(
                heights,
                lead,
                k,
                next,
                viewport,
            ),
    decreases heights.len() - from,
{
    if from >= heights.len() - 1 || fits(heights, lead, from, next, viewport) {
    } else {
        lemma_first_fit_from(heights, lead, from + 1, next, viewport);
        let found = first_fit(heights, lead, from + 1, next, viewport);
        assert forall|k: int| from <= k < found implies !fits(heights, lead, k, next, viewport) by {
            if k > from {
                assert(from + 1 <= k < found);
            }
        }
    }
}

/// `first_fit` is the position that `scrolled_to` describes, and the only one.
pub proof fn lemma_first_fit(
    heights: Seq<u16>,
    lead: int,
    start: int,
    next: int,
    viewport: int,
    offset: int,
)
    requires
        start <= next,
        0 <= start < heights.len(),
    ensures
        scrolled_to(
            heights,
            lead,
            start,
            next,
            viewport,
            first_fit(heights, lead, start, next, viewport),
        ),
        scrolled_to(heights, lead, start, next, viewport, offset) ==> offset == first_fit(
            heights,
            lead,
            start,
            next,
            viewport,
        ),
{
    lemma_first_fit_from(heights, lead, start, next, viewport);
    let found = first_fit(heights, lead, start, next, viewport);
    if scrolled_to(heights, lead, start, next, viewport, offset) {
        if offset < found {
            assert(!fits(heights, lead, offset, next, viewport));
        } else if found < offset {
            assert(!fits(heights, lead, found, next, viewport));
        }
    }
}

/// The position of a list: which item is selected, which item is drawn first,
/// and how many rows the viewport had when it was last drawn.
pub struct PostListBase {
    pub selected_index: usize,
    pub scroll_offset: usize,
    pub last_known_height: u16,
}

impl PostListBase {
    /// The cursor is valid for a list of `len` items: the first drawn item is
    /// not below the selected one, and the selected one exists.
    pub open spec fn wf(&self, len: nat) -> bool {
        self.scroll_offset <= self.selected_index && self.selected_index < len
    }

    /// The selected item is drawn unclipped, below `lead` rows where the
    /// viewport starts at the top of the list.
    pub open spec fn selection_visible(&self, heights: Seq<u16>, lead: int) -> bool {
        fits(
            heights,
            lead,
            self.scroll_offset as int,
            self.selected_index as int,
            self.last_known_height as int,
        )
    }

    /// The cursor after one step down a list with these item heights, above
    /// which `lead` rows are drawn while the viewport starts at the top.
    pub open spec fn after_scroll_down(self, heights: Seq<u16>, lead: int) -> Self {
        if self.selected_index + 1 >= heights.len() {
            self
        } else {
            Self {
                selected_index: (self.selected_index + 1) as usize,
                scroll_offset: if self.scroll_offset > self.selected_index + 1 {
                    self.scroll_offset
                } else {
                    first_fit(
                        heights,
                        lead,
                        self.scroll_offset as int,
                        self.selected_index + 1,
                        self.last_known_height as int,
                    ) as usize
                },
                last_known_height: self.last_known_height,
            }
        }
    }

    /// The cursor after one step up.
    pub open spec fn after_scroll_up(self) -> Self {
        if self.selected_index == 0 {
            self
        } else {
            Self {
                selected_index: (self.selected_index - 1) as usize,
                scroll_offset: if self.selected_index - 1 < self.scroll_offset {
                    (self.selected_index - 1) as usize
                } else {
                    self.scroll_offset
                },
                last_known_height: self.last_known_height,
            }
        }
    }

    /// The cursor after `steps` steps down.
    pub open spec fn after_scroll_downs(self, heights: Seq<u16>, lead: int, steps: nat) -> Self
        decreases steps,
    {
        if steps == 0 {
            self
        } else {
            self.after_scroll_down(heights, lead).after_scroll_downs(
                heights,
                lead,
                (steps - 1) as nat,
            )
        }
    }

    pub fn new() -> (base: Self)
        ensures
            base.selected_index == 0,
            base.scroll_offset == 0,
            base.last_known_height == 0,
    {
        Self { selected_index: 0, scroll_offset: 0, last_known_height: 0 }
    }

    /// The height of a post from how many lines its text takes, see `post_rows`;
    /// 65535 rows at most.
    pub fn rows_for_post(text_lines: usize, quote: Option<(usize, bool)>, has_images: bool) -> (rows:
        u16)
        ensures
            rows == clamp_rows(
                post_rows(
                    text_lines as nat,
                    match quote {
                        Some((lines, images)) => Some((lines as nat, images)),
                        None => None,
                    },
                    has_images,
                ),
            ),
    {
        let mut height: u128 = 4;
        height = height + (text_lines as u128);
        match quote {
            Some((quote_lines, quote_has_images)) => {
                height = height + 4 + (quote_lines as u128);
                if quote_has_images {
                    height = height + 15;
                }
            },
            None => {},
        }
        if has_images {
            height = height + 15;
        }
        if height > 65535 {
            65535
        } else {
            height as u16
        }
    }

    /// The text of a post; none where its record holds no text.
    pub fn get_post_text(post: &PostViewData) -> (text: Option<String>)
        ensures
            match post.record.text {
                RecordText::Text(own) => text == Some(own),
                _ => text is None,
            },
    {
        match &post.record.text {
            RecordText::Text(own) => Some(own.clone()),
            _ => None,
        }
    }

    /// Whether two texts of records take the same rows at every width.
    fn same_text(a: &RecordText, b: &RecordText) -> (same: bool)
        ensures
            same == (text_of(*a) == text_of(*b)),
    {
        match a {
            RecordText::Text(own) => match b {
                RecordText::Text(other) => str_eq(own.as_str(), other.as_str()),
                _ => false,
            },
            _ => match b {
                RecordText::Text(_) => false,
                _ => true,
            },
        }
    }

    /// Whether two posts agree in what the height depends on, see
    /// `height_inputs`.
    pub fn same_height_inputs(a: &PostViewData, b: &PostViewData) -> (same: bool)
        ensures
            same == (height_inputs(a) == height_inputs(b)),
    {
        let same_quote = match &a.embed {
            Embed::Quote(quoted) => match &b.embed {
                Embed::Quote(other) => Self::same_text(&quoted.record.text, &other.record.text)
                    && quoted.images.is_some() == other.images.is_some(),
                _ => false,
            },
            _ => match &b.embed {
                Embed::Quote(_) => false,
                _ => true,
            },
        };
        let images_a = Post::extract_images_from_post(a).is_some();
        let images_b = Post::extract_images_from_post(b).is_some();
        Self::same_text(&a.record.text, &b.record.text) && same_quote && images_a == images_b
    }

    /// How many lines the text of a post takes at `available_width` columns
    /// less `padding`; none for a post without a text.
    fn text_lines(post: &PostViewData, available_width: u16, padding: u16) -> (lines: usize)
        ensures
            lines == record_text_rows(post.record.text, available_width, padding),
    {
        match Self::get_post_text(post) {
            Some(text) => {
                let chars_per_line = columns_for_text(available_width, padding);
                wrapped_line_count(text.as_str(), chars_per_line)
            },
            None => 0,
        }
    }

    /// The height of `post` in an area `available_width` columns wide.
    pub fn calculate_post_height(post: &PostViewData, available_width: u16) -> (height: u16)
        ensures
            height == post_height(post, available_width),
    {
        let text_lines = Self::text_lines(post, available_width, 4);
        let quote = match Post::extract_quoted_post_data(post) {
            Some(quoted_post) => {
                let quote_lines = Self::text_lines(&quoted_post, available_width, 6);
                let quote_has_images = Post::extract_images_from_post(&quoted_post).is_some();
                Some((quote_lines, quote_has_images))
            },
            None => None,
        };
        let has_images = Post::extract_images_from_post(post).is_some();
        Self::rows_for_post(text_lines, quote, has_images)
    }

    /// Moves the selection one item down. Before it moves, the viewport is
    /// scrolled forward, item by item, until the item about to be selected is
    /// drawn unclipped; scrolling stops at the last item of the list at the
    /// latest. Nothing changes when the last item is already selected.
    pub fn handle_scroll_down<T, F: Fn(&T) -> u16>(&mut self, posts: &VecDeque<T>, get_height: F)
        requires
            posts@.len() > 0,
            height_accessor(posts@, get_height),
        ensures
            forall|heights: Seq<u16>| #[trigger]
                gives_heights(posts@, get_height, heights) ==> *final(self) == old(self).after_scroll_down(heights, 0),
            final(self).last_known_height == old(self).last_known_height,
            final(self).selected_index == if old(self).selected_index + 1 < posts@.len() {
                (old(self).selected_index + 1) as usize
            } else {
                old(self).selected_index
            },
            old(self).selected_index + 1 >= posts@.len() ==> *final(self) == *old(self),
            old(self).scroll_offset <= final(self).scroll_offset,
            final(self).scroll_offset == old(self).scroll_offset || final(self).scroll_offset
                < posts@.len(),
    {
        self.scroll_down_below(posts, get_height, 0)
    }

    /// Moves the selection one item down as `handle_scroll_down` does, in a
    /// list above whose first item `lead` more rows are drawn for as long as
    /// the viewport starts at the top.
    pub fn scroll_down_below<T, F: Fn(&T) -> u16>(
        &mut self,
        posts: &VecDeque<T>,
        get_height: F,
        lead: u16,
    )
        requires
            posts@.len() > 0,
            height_accessor(posts@, get_height),
        ensures
            forall|heights: Seq<u16>| #[trigger]
                gives_heights(posts@, get_height, heights) ==> {
                    &&& *final(self) == old(self).after_scroll_down(heights, lead as int)
                    &&& old(self).selected_index + 1 < posts@.len() ==> scrolled_to(
                        heights,
                        lead as int,
                        old(self).scroll_offset as int,
                        old(self).selected_index + 1,
                        old(self).last_known_height as int,
                        final(self).scroll_offset as int,
                    )
                },
            final(self).last_known_height == old(self).last_known_height,
            final(self).selected_index == if old(self).selected_index + 1 < posts@.len() {
                (old(self).selected_index + 1) as usize
            } else {
                old(self).selected_index
            },
            old(self).selected_index + 1 >= posts@.len() ==> *final(self) == *old(self),
            old(self).scroll_offset <= final(self).scroll_offset,
            final(self).scroll_offset == old(self).scroll_offset || final(self).scroll_offset
                < posts@.len(),
    {
        if self.selected_index >= posts.len() - 1 {
            return ;
        }
        let ghost start = self.scroll_offset as int;
        let next: usize = self.selected_index + 1;
        if self.scroll_offset <= next {
            let mut y_position: u128 = if self.scroll_offset == 0 {
                lead as u128
            } else {
                0
            };
            let mut i: usize = self.scroll_offset;
            while i < next
                invariant
                    self.scroll_offset <= i <= next < posts@.len(),
                    height_accessor(posts@, get_height),
                    y_position <= 65535 * (i - self.scroll_offset + 1),
                    forall|heights: Seq<u16>| #[trigger]
                        gives_heights(posts@, get_height, heights) ==> y_position == lead_at(
                            lead as int,
                            self.scroll_offset as int,
                        ) + rows_between(heights, self.scroll_offset as int, i as int),
                decreases next - i,
            {
                let height = get_height(&posts[i]);
                y_position = y_position + (height as u128);
                i += 1;
            }
            let height = get_height(&posts[next]);
            let viewport: u128 = self.last_known_height as u128;
            let last: usize = posts.len() - 1;
            while y_position + (height as u128) > viewport && self.scroll_offset < last
                invariant
                    start <= self.scroll_offset < posts@.len(),
                    start <= next < posts@.len(),
                    last == posts@.len() - 1,
                    posts@.len() <= usize::MAX,
                    height_accessor(posts@, get_height),
                    call_ensures(get_height, (&posts@[next as int],), height),
                    viewport == self.last_known_height,
                    self.last_known_height == old(self).last_known_height,
                    self.selected_index == old(self).selected_index,
                    y_position <= 65535 * (posts@.len() + 1),
                    forall|heights: Seq<u16>| #[trigger]
                        gives_heights(posts@, get_height, heights) ==> {
                            &&& y_position == lead_at(lead as int, self.scroll_offset as int)
                                + rows_between(heights, self.scroll_offset as int, next as int)
                            &&& forall|k: int|
                                start <= k < self.scroll_offset ==> !fits(
                                    heights,
                                    lead as int,
                                    k,
                                    next as int,
                                    viewport as int,
                                )
                        },
                decreases posts@.len() - self.scroll_offset,
            {
                let ghost offset = self.scroll_offset as int;
                if self.scroll_offset == 0 {
                    y_position = Self::rows_less(y_position, lead);
                }
                if self.scroll_offset < next {
                    let first_height = get_height(&posts[self.scroll_offset]);
                    y_position = Self::rows_less(y_position, first_height);
                }
                self.scroll_offset += 1;
                proof {
                    assert forall|heights: Seq<u16>| #[trigger]
                        gives_heights(posts@, get_height, heights) implies {
                        &&& y_position == lead_at(lead as int, self.scroll_offset as int)
                            + rows_between(heights, self.scroll_offset as int, next as int)
                        &&& forall|k: int|
                            start <= k < self.scroll_offset ==> !fits(
                                heights,
                                lead as int,
                                k,
                                next as int,
                                viewport as int,
                            )
                    } by {
                        lemma_rows_bounds(heights, offset, next as int);
                        lemma_rows_bounds(heights, offset + 1, next as int);
                        if offset < next {
                            lemma_rows_drop_first(heights, offset, next as int);
                        }
                        assert(height == heights[next as int]);
                        assert(!fits(heights, lead as int, offset, next as int, viewport as int));
                    }
                }
            }
            proof {
                assert forall|heights: Seq<u16>| #[trigger]
                    gives_heights(posts@, get_height, heights) implies {
                    &&& self.scroll_offset == first_fit(
                        heights,
                        lead as int,
                        start,
                        next as int,
                        viewport as int,
                    )
                    &&& scrolled_to(
                        heights,
                        lead as int,
                        start,
                        next as int,
                        viewport as int,
                        self.scroll_offset as int,
                    )
                } by {
                    assert(height == heights[next as int]);
                    lemma_first_fit(
                        heights,
                        lead as int,
                        start,
                        next as int,
                        viewport as int,
                        self.scroll_offset as int,
                    );
                }
            }
        }
        self.selected_index = next;
    }

    /// The last item that the viewport shows unclipped when it has
    /// `area_height` rows, see `last_visible`.
    pub fn last_visible_index<T, F: Fn(&T) -> u16>(
        &self,
        posts: &VecDeque<T>,
        get_height: F,
        lead: u16,
        area_height: u16,
    ) -> (last: usize)
        requires
            height_accessor(posts@, get_height),
        ensures
            forall|heights: Seq<u16>| #[trigger]
                gives_heights(posts@, get_height, heights) ==> last_visible(
                    heights,
                    lead as int,
                    self.scroll_offset as int,
                    area_height as int,
                    last as int,
                ),
    {
        let mut total_height: u32 = if self.scroll_offset == 0 {
            lead as u32
        } else {
            0
        };
        let mut last_visible_item: usize = self.scroll_offset;
        let mut i: usize = self.scroll_offset;
        let mut full = false;
        let count: usize = posts.len();
        while i < count && !full
            invariant
                count == posts@.len(),
                self.scroll_offset <= i,
                i <= count || i == self.scroll_offset,
                height_accessor(posts@, get_height),
                total_height <= 65535 + 65535,
                i == self.scroll_offset ==> last_visible_item == i && total_height == lead_at(
                    lead as int,
                    self.scroll_offset as int,
                ),
                i > self.scroll_offset ==> last_visible_item == i - 1 && total_height
                    <= area_height,
                forall|heights: Seq<u16>| #[trigger]
                    gives_heights(posts@, get_height, heights) ==> {
                        &&& total_height == lead_at(lead as int, self.scroll_offset as int)
                            + rows_between(heights, self.scroll_offset as int, i as int)
                        &&& full ==> i < count && !fits(
                            heights,
                            lead as int,
                            self.scroll_offset as int,
                            i as int,
                            area_height as int,
                        )
                    },
            decreases count - i + if full { 0int } else { 1int },
        {
            let height = get_height(&posts[i]);
            if total_height + (height as u32) > (area_height as u32) {
                full = true;
            } else {
                total_height = total_height + (height as u32);
                last_visible_item = i;
                i += 1;
            }
        }
        proof {
            assert forall|heights: Seq<u16>| #[trigger]
                gives_heights(posts@, get_height, heights) implies last_visible(
                heights,
                lead as int,
                self.scroll_offset as int,
                area_height as int,
                last_visible_item as int,
            ) by {
                let offset = self.scroll_offset as int;
                assert(rows_between(heights, offset, offset) == 0);
                if i > offset {
                    assert(rows_between(heights, offset, i as int) == rows_between(
                        heights,
                        offset,
                        i - 1,
                    ) + heights[i - 1]);
                    assert(rows_between(heights, offset, offset + 1) == heights[offset]);
                    lemma_rows_bounds(heights, offset + 1, i as int);
                    lemma_rows_split(heights, offset, offset + 1, i as int);
                    assert(fits(heights, lead as int, offset, offset, area_height as int));
                    assert(fits(heights, lead as int, offset, i - 1, area_height as int));
                }
            }
        }
        last_visible_item
    }

    /// Where the items are drawn that a viewport shows which begins at the
    /// row `top` and has `rows` rows, see `slots_show`.
    pub fn visible_slots<T, F: Fn(&T) -> u16>(
        &self,
        posts: &VecDeque<T>,
        get_height: F,
        lead: u16,
        top: u16,
        rows: u16,
    ) -> (slots: Vec<Slot>)
        requires
            height_accessor(posts@, get_height),
        ensures
            forall|heights: Seq<u16>| #[trigger]
                gives_heights(posts@, get_height, heights) ==> slots_show(
                    heights,
                    lead as int,
                    self.scroll_offset as int,
                    top as int,
                    rows as int,
                    slots@,
                ),
    {
        let mut slots: Vec<Slot> = Vec::new();
        let count: usize = posts.len();
        let offset: usize = self.scroll_offset;
        if offset >= count {
            return slots;
        }
        let mut used: u32 = if offset == 0 {
            lead as u32
        } else {
            0
        };
        let mut i: usize = offset;
        while i < count && used < rows as u32
            invariant
                offset <= i <= count,
                count == posts@.len(),
                offset == self.scroll_offset,
                height_accessor(posts@, get_height),
                slots@.len() == i - offset,
                used <= 65535 + 65535,
                forall|heights: Seq<u16>| #[trigger]
                    gives_heights(posts@, get_height, heights) ==> {
                        &&& used >= rows || used == lead_at(lead as int, offset as int)
                            + rows_between(heights, offset as int, i as int)
                        &&& used >= rows ==> lead_at(lead as int, offset as int) + rows_between(
                            heights,
                            offset as int,
                            i as int,
                        ) >= rows
                        &&& forall|j: int|
                            0 <= j < slots@.len() ==> slot_shows(
                                heights,
                                lead as int,
                                offset as int,
                                top as int,
                                rows as int,
                                j,
                                #[trigger] slots@[j],
                            )
                    },
            decreases count - i,
        {
            let height = get_height(&posts[i]);
            let remaining: u32 = rows as u32 - used;
            let given: u16 = if (height as u32) <= remaining {
                height
            } else {
                remaining as u16
            };
            let row: u32 = top as u32 + used;
            let y: u16 = if row > 65535 {
                65535
            } else {
                row as u16
            };
            let ghost shown = slots@;
            slots.push(Slot { index: i, y, height: given });
            let ghost used_before = used;
            used = if used + height as u32 >= rows as u32 {
                rows as u32
            } else {
                used + height as u32
            };
            proof {
                assert forall|heights: Seq<u16>| #[trigger]
                    gives_heights(posts@, get_height, heights) implies {
                    &&& used >= rows || used == lead_at(lead as int, offset as int) + rows_between(
                        heights,
                        offset as int,
                        i + 1,
                    )
                    &&& used >= rows ==> lead_at(lead as int, offset as int) + rows_between(
                        heights,
                        offset as int,
                        i + 1,
                    ) >= rows
                    &&& forall|j: int|
                        0 <= j < slots@.len() ==> slot_shows(
                            heights,
                            lead as int,
                            offset as int,
                            top as int,
                            rows as int,
                            j,
                            #[trigger] slots@[j],
                        )
                } by {
                    assert(height == heights[i as int]);
                    assert(used_before == lead_at(lead as int, offset as int) + rows_between(
                        heights,
                        offset as int,
                        i as int,
                    ));
                    assert forall|j: int| 0 <= j < slots@.len() implies slot_shows(
                        heights,
                        lead as int,
                        offset as int,
                        top as int,
                        rows as int,
                        j,
                        #[trigger] slots@[j],
                    ) by {
                        if j < shown.len() {
                            assert(slots@[j] == shown[j]);
                        } else {
                            assert(offset + j == i);
                            assert(slots@[j] == (Slot { index: i, y, height: given }));
                        }
                    }
                    assert(rows_between(heights, offset as int, i + 1) == rows_between(
                        heights,
                        offset as int,
                        i as int,
                    ) + heights[i as int]);
                    assert(used >= rows || used == lead_at(lead as int, offset as int)
                        + rows_between(heights, offset as int, i + 1));
                    assert(used >= rows ==> lead_at(lead as int, offset as int) + rows_between(
                        heights,
                        offset as int,
                        i + 1,
                    ) >= rows);
                }
            }
            i += 1;
        }
        slots
    }

    /// The rows of the first `count` items of `posts`, or of all where there
    /// are fewer.
    pub fn rows_before<T, F: Fn(&T) -> u16>(posts: &VecDeque<T>, get_height: F, count: usize) -> (rows:
        u128)
        requires
            height_accessor(posts@, get_height),
        ensures
            rows <= 65535 * posts@.len(),
            forall|heights: Seq<u16>| #[trigger]
                gives_heights(posts@, get_height, heights) ==> rows == rows_between(
                    heights,
                    0,
                    if count <= posts@.len() {
                        count as int
                    } else {
                        posts@.len() as int
                    },
                ),
    {
        let end: usize = if count <= posts.len() {
            count
        } else {
            posts.len()
        };
        let mut rows: u128 = 0;
        let mut i: usize = 0;
        while i < end
            invariant
                i <= end <= posts@.len(),
                height_accessor(posts@, get_height),
                rows <= 65535 * i,
                forall|heights: Seq<u16>| #[trigger]
                    gives_heights(posts@, get_height, heights) ==> rows == rows_between(
                        heights,
                        0,
                        i as int,
                    ),
            decreases end - i,
        {
            let height = get_height(&posts[i]);
            rows = rows + (height as u128);
            i += 1;
        }
        rows
    }

    /// `rows` without `less` rows, and no rows where there are fewer.
    fn rows_less(rows: u128, less: u16) -> (rest: u128)
        ensures
            rest == if rows >= less {
                rows - less
            } else {
                0
            },
    {
        if rows >= less as u128 {
            rows - (less as u128)
        } else {
            0
        }
    }

    /// Moves the selection one item up and, where that item lies above the
    /// viewport, lets the viewport start at it. Nothing changes on the first item.
    pub fn handle_scroll_up(&mut self)
        ensures
            *final(self) == old(self).after_scroll_up(),
            old(self).selected_index == 0 ==> *final(self) == *old(self),
            old(self).selected_index > 0 ==> {
                &&& final(self).selected_index == old(self).selected_index - 1
                &&& final(self).scroll_offset == if old(self).selected_index - 1 < old(self).scroll_offset {
                    (old(self).selected_index - 1) as usize
                } else {
                    old(self).scroll_offset
                }
            },
    {
        if self.selected_index == 0 {
            return ;
        }
        self.selected_index -= 1;
        if self.selected_index < self.scroll_offset {
            self.scroll_offset = self.selected_index;
        }
    }
}

/// The keys of `posts`, in their order.
pub open spec fn post_uris(posts: Seq<PostViewData>) -> Seq<Seq<char>> {
    Seq::new(posts.len(), |i: int| posts[i].uri@)
}

/// A smaller of two numbers.
pub open spec fn min_of(a: int, b: int) -> int {
    if a <= b {
        a
    } else {
        b
    }
}

/// The selection has come within five items of the end of a list of `count`
/// items.
pub fn needs_more(selected_index: usize, count: usize) -> (needed: bool)
    ensures
        needed == (selected_index + 5 >= count),
{
    count < 5 || selected_index >= count - 5
}

/// A sum of rows as a `u16`, 65535 at most.
pub fn rows_from_total(total: u128) -> (rows: u16)
    ensures
        rows == clamp_rows(total as int),
{
    if total > 65535 {
        65535
    } else {
        total as u16
    }
}

/// A closure that looks the height of a post up by its key, and takes
/// `default` where the key is unknown, gives the heights `item_rows`.
pub proof fn lemma_gives_post_rows<F: Fn(&PostViewData) -> u16>(
    posts: Seq<PostViewData>,
    get_height: F,
    cached: Map<Seq<char>, u16>,
    default: u16,
)
    requires
        forall|post: &PostViewData| call_requires(get_height, (post,)),
        forall|post: &PostViewData, rows: u16|
            call_ensures(get_height, (post,), rows) ==> rows == rows_or(cached, post.uri@, default),
    ensures
        height_accessor(posts, get_height),
        gives_heights(posts, get_height, item_rows(post_uris(posts), cached, default)),
{
}

/// The keys of `notifications`, in their order.
pub open spec fn notification_uris(notifications: Seq<NotificationData>) -> Seq<Seq<char>> {
    Seq::new(notifications.len(), |i: int| notifications[i].uri@)
}

/// A closure that looks the height of a notification up by its key, and takes
/// `default` where the key is unknown, gives the heights `item_rows`.
pub proof fn lemma_gives_notification_rows<F: Fn(&NotificationData) -> u16>(
    notifications: Seq<NotificationData>,
    get_height: F,
    cached: Map<Seq<char>, u16>,
    default: u16,
)
    requires
        forall|notification: &NotificationData| call_requires(get_height, (notification,)),
        forall|notification: &NotificationData, rows: u16|
            call_ensures(get_height, (notification,), rows) ==> rows == rows_or(
                cached,
                notification.uri@,
                default,
            ),
    ensures
        height_accessor(notifications, get_height),
        gives_heights(
            notifications,
            get_height,
            item_rows(notification_uris(notifications), cached, default),
        ),
{
}

/// The heights remembered after the items `uris` were gone through from the
/// first to the last, `cached` being remembered before: an item whose key
/// has no height by then gets the rows that `rows` gives for it.
pub open spec fn remembered(uris: Seq<Seq<char>>, rows: Seq<u16>, cached: Map<Seq<char>, u16>) -> Map<
    Seq<char>,
    u16,
>
    decreases uris.len(),
{
    if uris.len() == 0 || rows.len() != uris.len() {
        cached
    } else {
        let before = remembered(uris.drop_last(), rows.drop_last(), cached);
        if before.contains_key(uris.last()) {
            before
        } else {
            before.insert(uris.last(), rows.last())
        }
    }
}

/// The rows that each post of `posts` needs in a viewport `width` columns
/// wide.
pub open spec fn measured_posts(posts: Seq<PostViewData>, width: u16) -> Seq<u16> {
    Seq::new(posts.len(), |i: int| post_height(&posts[i], width))
}

/// What `remembered` holds: a height for every item; the heights that were
/// remembered before, unchanged; no key but those and the keys of the items;
/// and for an item without a height before, the rows of the first item with
/// its key.
pub proof fn lemma_remembered(uris: Seq<Seq<char>>, rows: Seq<u16>, cached: Map<Seq<char>, u16>)
    requires
        rows.len() == uris.len(),
    ensures
        forall|i: int|
            0 <= i < uris.len() ==> remembered(uris, rows, cached).contains_key(#[trigger] uris[i]),
        forall|uri: Seq<char>| #[trigger]
            cached.contains_key(uri) ==> remembered(uris, rows, cached).contains_key(uri)
                && remembered(uris, rows, cached)[uri] == cached[uri],
        forall|uri: Seq<char>| #[trigger]
            remembered(uris, rows, cached).contains_key(uri) ==> cached.contains_key(uri)
                || uris.contains(uri),
        forall|i: int|
            0 <= i < uris.len() && !cached.contains_key(#[trigger] uris[i]) && (forall|j: int|
                0 <= j < i ==> uris[j] != uris[i]) ==> remembered(uris, rows, cached)[uris[i]]
                == rows[i],
    decreases uris.len(),
{
    if uris.len() > 0 {
        let head = uris.drop_last();
        let before = remembered(head, rows.drop_last(), cached);
        let after = remembered(uris, rows, cached);
        lemma_remembered(head, rows.drop_last(), cached);
        assert forall|i: int| 0 <= i < uris.len() implies after.contains_key(
            #[trigger] uris[i],
        ) by {
            if i < head.len() {
                assert(before.contains_key(head[i]));
            }
        }
        assert forall|uri: Seq<char>| #[trigger] after.contains_key(uri) implies cached.contains_key(
            uri,
        ) || uris.contains(uri) by {
            if before.contains_key(uri) && !cached.contains_key(uri) {
                let k = choose|k: int| 0 <= k < head.len() && head[k] == uri;
                assert(uris[k] == uri);
            } else if !before.contains_key(uri) {
                assert(uris[uris.len() - 1] == uri);
            }
        }
        assert forall|i: int|
            0 <= i < uris.len() && !cached.contains_key(#[trigger] uris[i]) && (forall|j: int|
                0 <= j < i ==> uris[j] != uris[i]) implies after[uris[i]] == rows[i] by {
            if i < head.len() {
                assert(head[i] == uris[i]);
                assert(forall|j: int| 0 <= j < i ==> head[j] == uris[j]);
                assert(before[head[i]] == rows.drop_last()[i]);
            } else {
                if before.contains_key(uris[i]) {
                    let k = choose|k: int| 0 <= k < head.len() && head[k] == uris[i];
                    assert(uris[k] == uris[i]);
                }
            }
        }
    }
}

/// Computes and remembers the height of every post of `posts` that has none
/// in `cache`, for an area `width` columns wide, see `remembered`.
pub fn ensure_heights(posts: &VecDeque<PostViewData>, cache: &mut HeightCache, width: u16)
    ensures
        final(cache)@ == remembered(
            post_uris(posts@),
            measured_posts(posts@, width),
            old(cache)@,
        ),
{
    let mut i: usize = 0;
    while i < posts.len()
        invariant
            i <= posts@.len(),
            cache@ == remembered(
                post_uris(posts@.take(i as int)),
                measured_posts(posts@.take(i as int), width),
                old(cache)@,
            ),
        decreases posts@.len() - i,
    {
        let _ = cache.height_of(&posts[i], width);
        proof {
            let next = posts@.take(i + 1);
            assert(post_uris(next).drop_last() =~= post_uris(posts@.take(i as int)));
            assert(measured_posts(next, width).drop_last() =~= measured_posts(
                posts@.take(i as int),
                width,
            ));
            assert(post_uris(next).last() == posts@[i as int].uri@);
            assert(measured_posts(next, width).last() == post_height(&posts@[i as int], width));
        }
        i += 1;
    }
    assert(posts@.take(posts@.len() as int) =~= posts@);
}

/// What every list of the client offers: a cursor over items that are known
/// by their keys, heights that are remembered by key, and the operations that
/// scroll, measure and read the list.
pub trait PostList {
    /// The cursor of the list.
    spec fn base(&self) -> PostListBase;

    /// The keys of the items, in the order of the list.
    spec fn uris(&self) -> Seq<Seq<char>>;

    /// The heights that the list remembers, by key.
    spec fn cached(&self) -> Map<Seq<char>, u16>;

    /// The height taken for an item whose height is not remembered.
    spec fn default_rows(&self) -> u16;

    /// The rows drawn above the first item while nothing is scrolled away.
    spec fn lead_rows(&self) -> u16;

    /// The posts that the list can hand out, in the order of the list.
    spec fn shown_posts(&self) -> Seq<PostViewData>;

    /// The rows that each item needs in a viewport `width` columns wide, in
    /// the order of the list.
    spec fn measured_rows(&self, width: u16) -> Seq<u16>;

    /// The rows of everything that lies above the first drawn item, as far as
    /// heights are remembered; 65535 at most.
    fn get_total_height_before_scroll(&self) -> (rows: u16)
        ensures
            rows == clamp_rows(
                lead_at(self.lead_rows() as int, self.base().scroll_offset as int) + rows_between(
                    item_rows(self.uris(), self.cached(), 0),
                    0,
                    min_of(self.base().scroll_offset as int, self.uris().len() as int),
                ),
            ),
    ;

    /// The last item that a viewport of `area_height` rows shows unclipped.
    fn get_last_visible_index(&self, area_height: u16) -> (last: usize)
        ensures
            last_visible(
                item_rows(self.uris(), self.cached(), self.default_rows()),
                self.lead_rows() as int,
                self.base().scroll_offset as int,
                area_height as int,
                last as int,
            ),
    ;

    /// Remembers a height for every item that has none yet: the rows that
    /// the item needs in an area as wide as `area`, see `remembered`. What is
    /// remembered already stays, and nothing else changes.
    fn ensure_post_heights(&mut self, area: Rect)
        ensures
            final(self).base() == old(self).base(),
            final(self).uris() == old(self).uris(),
            final(self).shown_posts() == old(self).shown_posts(),
            final(self).cached() == remembered(
                old(self).uris(),
                old(self).measured_rows(area.width),
                old(self).cached(),
            ),
            forall|i: int|
                0 <= i < old(self).uris().len() ==> final(self).cached().contains_key(
                    #[trigger] old(self).uris()[i],
                ),
            forall|uri: Seq<char>| #[trigger]
                old(self).cached().contains_key(uri) ==> final(self).cached().contains_key(uri)
                    && final(self).cached()[uri] == old(self).cached()[uri],
            forall|uri: Seq<char>| #[trigger]
                final(self).cached().contains_key(uri) ==> old(self).cached().contains_key(uri)
                    || old(self).uris().contains(uri),
    ;

    /// Moves the selection one item down and scrolls so far that the selected
    /// item is drawn unclipped. An empty list stays as it is.
    fn scroll_down(&mut self)
        ensures
            final(self).uris() == old(self).uris(),
            final(self).cached() == old(self).cached(),
            final(self).shown_posts() == old(self).shown_posts(),
            final(self).base() == if old(self).uris().len() == 0 {
                old(self).base()
            } else {
                old(self).base().after_scroll_down(
                    item_rows(old(self).uris(), old(self).cached(), old(self).default_rows()),
                    old(self).lead_rows() as int,
                )
            },
    ;

    /// Moves the selection one item up and scrolls up to it where needed.
    fn scroll_up(&mut self)
        ensures
            final(self).uris() == old(self).uris(),
            final(self).cached() == old(self).cached(),
            final(self).shown_posts() == old(self).shown_posts(),
            final(self).base() == old(self).base().after_scroll_up(),
    ;

    /// Whether the selection has come within five items of the end of what
    /// is loaded, so that more should be fetched.
    fn needs_more_content(&self) -> (needed: bool)
        ensures
            needed == (self.base().selected_index + 5 >= self.uris().len()),
    ;

    fn selected_index(&self) -> (index: usize)
        ensures
            index == self.base().selected_index,
    ;

    /// A copy of the post at `index`, where the list has one there.
    fn get_post(&self, index: usize) -> (post: Option<PostViewData>)
        ensures
            index < self.shown_posts().len() ==> post is Some && post->0.same(
                &self.shown_posts()[index as int],
            ),
            index >= self.shown_posts().len() ==> post is None,
    ;

    /// A copy of the selected post, where the list has one.
    fn get_selected_post(&self) -> (post: Option<PostViewData>)
        ensures
            self.base().selected_index < self.shown_posts().len() ==> post is Some
                && post->0.same(&self.shown_posts()[self.base().selected_index as int]),
            self.base().selected_index >= self.shown_posts().len() ==> post is None,
    {
        self.get_post(self.selected_index())
    }
}

/// One step down from a valid cursor, onto an item that fits the viewport
/// below what is drawn above the list, leaves a valid cursor whose selected
/// item is drawn unclipped.
pub proof fn lemma_scroll_down_shows_selection(base: PostListBase, heights: Seq<u16>, lead: int)
    requires
        heights.len() <= usize::MAX,
        0 <= lead,
        base.wf(heights.len()),
        base.selected_index + 1 < heights.len(),
        heights[base.selected_index + 1] <= base.last_known_height,
    ensures
        base.after_scroll_down(heights, lead).wf(heights.len()),
        base.after_scroll_down(heights, lead).selection_visible(heights, lead),
{
    let next = base.selected_index + 1;
    let viewport = base.last_known_height as int;
    let found = first_fit(heights, lead, base.scroll_offset as int, next, viewport);
    lemma_first_fit_from(heights, lead, base.scroll_offset as int, next, viewport);
    assert(rows_between(heights, next, next) == 0);
    assert(fits(heights, lead, next, next, viewport));
    if found > next {
        assert(!fits(heights, lead, next, next, viewport));
    }
}

/// However often the selection moves down, it stays inside the list: it
/// never passes the last item.
pub proof fn lemma_scroll_downs_stay_inside(
    base: PostListBase,
    heights: Seq<u16>,
    lead: int,
    steps: nat,
)
    requires
        heights.len() <= usize::MAX,
        base.selected_index < heights.len(),
    ensures
        base.after_scroll_downs(heights, lead, steps).selected_index <= heights.len() - 1,
        base.after_scroll_downs(heights, lead, steps).selected_index >= base.selected_index,
        base.after_scroll_downs(heights, lead, steps).selected_index <= base.selected_index
            + steps,
    decreases steps,
{
    if steps > 0 {
        lemma_scroll_downs_stay_inside(
            base.after_scroll_down(heights, lead),
            heights,
            lead,
            (steps - 1) as nat,
        );
    }
}

/// However often the selection moves down a list in which no item is taller
/// than the viewport, the selected item stays inside the list and is drawn
/// unclipped: its rows lie inside the rows of the viewport.
pub proof fn lemma_scroll_downs_keep_selection_visible(
    base: PostListBase,
    heights: Seq<u16>,
    lead: int,
    steps: nat,
)
    requires
        heights.len() <= usize::MAX,
        0 <= lead,
        base.wf(heights.len()),
        base.selection_visible(heights, lead),
        forall|i: int| 0 <= i < heights.len() ==> heights[i] <= base.last_known_height,
    ensures
        base.after_scroll_downs(heights, lead, steps).wf(heights.len()),
        base.after_scroll_downs(heights, lead, steps).selection_visible(heights, lead),
        base.after_scroll_downs(heights, lead, steps).selected_index <= heights.len() - 1,
        base.after_scroll_downs(heights, lead, steps).last_known_height == base.last_known_height,
    decreases steps,
{
    if steps > 0 {
        if base.selected_index + 1 < heights.len() {
            lemma_scroll_down_shows_selection(base, heights, lead);
        }
        lemma_scroll_downs_keep_selection_visible(
            base.after_scroll_down(heights, lead),
            heights,
            lead,
            (steps - 1) as nat,
        );
    }
}

/// A step up followed at once by a step down selects the item that was
/// selected before, whenever there was an item to step up to. The first drawn
/// item may differ.
pub proof fn lemma_scroll_up_then_down_restores_selection(
    base: PostListBase,
    heights: Seq<u16>,
    lead: int,
)
    requires
        heights.len() <= usize::MAX,
        base.wf(heights.len()),
        base.selected_index > 0,
    ensures
        base.after_scroll_up().after_scroll_down(heights, lead).selected_index
            == base.selected_index,
        base.after_scroll_up().wf(heights.len()),
{
}

/// The cursor brought into a list of `len` items: on an empty list it points
/// at the start; else the selection is the last item at most, and the first
/// drawn item the selected one at most.
pub open spec fn clamped(base: PostListBase, len: nat) -> PostListBase {
    if len == 0 {
        PostListBase { selected_index: 0, scroll_offset: 0, last_known_height: base.last_known_height }
    } else {
        PostListBase {
            selected_index: min_of(base.selected_index as int, len - 1) as usize,
            scroll_offset: min_of(
                base.scroll_offset as int,
                min_of(base.selected_index as int, len - 1),
            ) as usize,
            last_known_height: base.last_known_height,
        }
    }
}

/// Brings a cursor into a list of `len` items, see `clamped`.
pub fn clamp_cursor(base: &mut PostListBase, len: usize)
    ensures
        *final(base) == clamped(*old(base), len as nat),
        len > 0 ==> final(base).wf(len as nat),
{
    if len == 0 {
        base.selected_index = 0;
        base.scroll_offset = 0;
    } else {
        if base.selected_index > len - 1 {
            base.selected_index = len - 1;
        }
        if base.scroll_offset > base.selected_index {
            base.scroll_offset = base.selected_index;
        }
    }
}

} // verus!
