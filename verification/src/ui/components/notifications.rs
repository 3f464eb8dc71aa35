//! The list of notifications.

use super::height_cache::{item_rows, rows_or, HeightCache};
use super::post::types::{NotificationData, PostViewData};
use super::post_list::{
    lemma_gives_notification_rows, lemma_remembered, needs_more, notification_uris, remembered,
    rows_from_total, slots_show, PostList, PostListBase, Slot,
};
use crate::ui::components::text::str_eq;
use crate::ui::layout::{Color, Rect};
use std::collections::VecDeque;
use vstd::prelude::*;
use vstd::string::StringExecFns;

verus! {

/// The rows that a notification takes: what it says, whether it is new, and a
/// row of padding.
pub const NOTIFICATION_ROWS: u16 = 3;

/// The sign shown for a notification of the kind `reason`.
pub open spec fn icon_for(reason: Seq<char>) -> Seq<char> {
    if reason == "like"@ {
        "❤️"@
    } else if reason == "repost"@ {
        "🔁"@
    } else if reason == "follow"@ {
        "👤"@
    } else if reason == "reply"@ {
        "💬"@
    } else if reason == "mention"@ {
        "@"@
    } else if reason == "quote"@ {
        "💭"@
    } else {
        "📨"@
    }
}

/// What is said of the author of a notification of the kind `reason`.
pub open spec fn action_for(reason: Seq<char>) -> Seq<char> {
    if reason == "like"@ {
        "liked your post"@
    } else if reason == "repost"@ {
        "reposted your post"@
    } else if reason == "follow"@ {
        "followed you"@
    } else if reason == "reply"@ {
        "replied to your post"@
    } else if reason == "mention"@ {
        "mentioned you"@
    } else if reason == "quote"@ {
        "quoted your post"@
    } else {
        "interacted with you"@
    }
}

/// The colour in which a notification of the kind `reason` is drawn.
pub open spec fn color_for(reason: Seq<char>) -> Color {
    if reason == "like"@ {
        Color::Red
    } else if reason == "repost"@ {
        Color::Green
    } else if reason == "follow"@ {
        Color::Blue
    } else if reason == "reply"@ {
        Color::Yellow
    } else if reason == "mention"@ {
        Color::Cyan
    } else if reason == "quote"@ {
        Color::Magenta
    } else {
        Color::White
    }
}

pub struct NotificationView {
    pub notifications: VecDeque<NotificationData>,
    pub notification_heights: HeightCache,
    pub base: PostListBase,
}

impl NotificationView {
    pub fn new() -> (view: Self)
        ensures
            view.notifications@.len() == 0,
            view.notification_heights@ == Map::<Seq<char>, u16>::empty(),
            view.base == (PostListBase { selected_index: 0, scroll_offset: 0, last_known_height: 0 }),
    {
        Self {
            notifications: VecDeque::new(),
            notification_heights: HeightCache::new(),
            base: PostListBase::new(),
        }
    }

    /// Replaces the notifications by a freshly fetched page and selects the
    /// first of them.
    pub fn load_notifications(&mut self, page: Vec<NotificationData>)
        ensures
            final(self).notifications@ == page@,
            final(self).notification_heights == old(self).notification_heights,
            final(self).base.selected_index == 0,
            final(self).base.scroll_offset == 0,
            final(self).base.last_known_height == old(self).base.last_known_height,
    {
        self.notifications.clear();
        let ghost all = page@;
        for notification in it: page
            invariant
                it.seq() == all,
                self.notification_heights == old(self).notification_heights,
                self.base == old(self).base,
                self.notifications@ == all.take(it.index() as int),
        {
            self.notifications.push_back(notification);
            assert(self.notifications@ =~= all.take(it.index() + 1));
        }
        assert(all.take(all.len() as int) =~= all);
        self.base.selected_index = 0;
        self.base.scroll_offset = 0;
    }

    pub fn get_notification_color(&self, reason: &str) -> (color: Color)
        ensures
            color == color_for(reason@),
    {
        if str_eq(reason, "like") {
            Color::Red
        } else if str_eq(reason, "repost") {
            Color::Green
        } else if str_eq(reason, "follow") {
            Color::Blue
        } else if str_eq(reason, "reply") {
            Color::Yellow
        } else if str_eq(reason, "mention") {
            Color::Cyan
        } else if str_eq(reason, "quote") {
            Color::Magenta
        } else {
            Color::White
        }
    }

    pub fn get_notification_icon(&self, reason: &str) -> (icon: &'static str)
        ensures
            icon@ == icon_for(reason@),
    {
        if str_eq(reason, "like") {
            "❤️"
        } else if str_eq(reason, "repost") {
            "🔁"
        } else if str_eq(reason, "follow") {
            "👤"
        } else if str_eq(reason, "reply") {
            "💬"
        } else if str_eq(reason, "mention") {
            "@"
        } else if str_eq(reason, "quote") {
            "💭"
        } else {
            "📨"
        }
    }

    /// What is said of the author of a notification of the kind `reason`.
    pub fn notification_action(reason: &str) -> (action: &'static str)
        ensures
            action@ == action_for(reason@),
    {
        if str_eq(reason, "like") {
            "liked your post"
        } else if str_eq(reason, "repost") {
            "reposted your post"
        } else if str_eq(reason, "follow") {
            "followed you"
        } else if str_eq(reason, "reply") {
            "replied to your post"
        } else if str_eq(reason, "mention") {
            "mentioned you"
        } else if str_eq(reason, "quote") {
            "quoted your post"
        } else {
            "interacted with you"
        }
    }

    /// The line shown for a notification: its sign, the handle of its author
    /// behind an `@`, and what the author did.
    pub fn format_notification(&self, notification: &NotificationData) -> (line: String)
        ensures
            line@ == icon_for(notification.reason@) + " @"@ + notification.author.handle@ + " "@
                + action_for(notification.reason@),
    {
        let icon = self.get_notification_icon(notification.reason.as_str());
        let action = Self::notification_action(notification.reason.as_str());
        let mut line = icon.to_owned();
        line.append(" @");
        line.append(notification.author.handle.as_str());
        line.append(" ");
        line.append(action);
        line
    }

    /// A copy of the selected notification.
    pub fn get_notification(&self) -> (notification: NotificationData)
        requires
            self.base.selected_index < self.notifications@.len(),
        ensures
            notification == self.notifications@[self.base.selected_index as int],
    {
        self.notifications[self.base.selected_index].clone()
    }

    /// Takes the newest notification that the network has, where it has one:
    /// unless a notification with its key is in the list already, it becomes
    /// the first of the list, three rows high.
    pub fn handle_new_notification(&mut self, _uri: String, latest: Option<NotificationData>)
        ensures
            final(self).base == old(self).base,
            match latest {
                Some(notification) => if notification_uris(old(self).notifications@).contains(
                    notification.uri@,
                ) {
                    &&& final(self).notifications@ == old(self).notifications@
                    &&& final(self).notification_heights@ == old(self).notification_heights@
                } else {
                    &&& final(self).notifications@ == seq![notification] + old(self).notifications@
                    &&& final(self).notification_heights@ == old(self).notification_heights@.insert(notification.uri@, NOTIFICATION_ROWS)
                },
                None => {
                    &&& final(self).notifications@ == old(self).notifications@
                    &&& final(self).notification_heights@ == old(self).notification_heights@
                },
            },
    {
        match latest {
            Some(new_notification) => {
                if !self.holds(new_notification.uri.as_str()) {
                    let uri = new_notification.uri.clone();
                    self.notifications.push_front(new_notification);
                    self.notification_heights.insert(uri, NOTIFICATION_ROWS);
                }
            },
            None => {},
        }
    }

    /// Where the notifications are drawn that `area` shows, see `slots_show`.
    pub fn visible_slots(&self, area: Rect) -> (slots: Vec<Slot>)
        ensures
            slots_show(
                item_rows(
                    notification_uris(self.notifications@),
                    self.notification_heights@,
                    NOTIFICATION_ROWS,
                ),
                0,
                self.base.scroll_offset as int,
                area.y as int,
                area.height as int,
                slots@,
            ),
    {
        let cache = &self.notification_heights;
        let height = |notification: &NotificationData| -> (rows: u16)
            ensures
                rows == rows_or(cache@, notification.uri@, NOTIFICATION_ROWS),
            { cache.height_or(notification.uri.as_str(), NOTIFICATION_ROWS) };
        proof {
            lemma_gives_notification_rows(self.notifications@, height, cache@, NOTIFICATION_ROWS);
        }
        self.base.visible_slots(&self.notifications, height, 0, area.y, area.height)
    }

    /// Whether the list holds a notification with the key `uri`.
    pub fn holds(&self, uri: &str) -> (held: bool)
        ensures
            held == notification_uris(self.notifications@).contains(uri@),
    {
        let mut i: usize = 0;
        while i < self.notifications.len()
            invariant
                i <= self.notifications@.len(),
                forall|k: int| 0 <= k < i ==> self.notifications@[k].uri@ != uri@,
            decreases self.notifications@.len() - i,
        {
            if str_eq(self.notifications[i].uri.as_str(), uri) {
                assert(notification_uris(self.notifications@)[i as int] == uri@);
                return true;
            }
            i += 1;
        }
        assert forall|k: int|
            0 <= k < notification_uris(self.notifications@).len() implies notification_uris(
            self.notifications@,
        )[k] != uri@ by {}
        false
    }
}

impl PostList for NotificationView {
    open spec fn base(&self) -> PostListBase {
        self.base
    }

    open spec fn uris(&self) -> Seq<Seq<char>> {
        notification_uris(self.notifications@)
    }

    open spec fn cached(&self) -> Map<Seq<char>, u16> {
        self.notification_heights@
    }

    open spec fn default_rows(&self) -> u16 {
        NOTIFICATION_ROWS
    }

    open spec fn lead_rows(&self) -> u16 {
        0
    }

    open spec fn shown_posts(&self) -> Seq<PostViewData> {
        Seq::empty()
    }

    /// Three rows for every notification, whatever the width.
    open spec fn measured_rows(&self, width: u16) -> Seq<u16> {
        Seq::new(self.notifications@.len(), |k: int| NOTIFICATION_ROWS)
    }

    fn get_total_height_before_scroll(&self) -> (rows: u16) {
        let cache = &self.notification_heights;
        let known = |notification: &NotificationData| -> (rows: u16)
            ensures
                rows == rows_or(cache@, notification.uri@, 0),
            { cache.height_or(notification.uri.as_str(), 0) };
        proof {
            lemma_gives_notification_rows(self.notifications@, known, cache@, 0);
        }
        let total = PostListBase::rows_before(&self.notifications, known, self.base.scroll_offset);
        rows_from_total(total)
    }

    fn get_last_visible_index(&self, area_height: u16) -> (last: usize) {
        let cache = &self.notification_heights;
        let height = |notification: &NotificationData| -> (rows: u16)
            ensures
                rows == rows_or(cache@, notification.uri@, NOTIFICATION_ROWS),
            { cache.height_or(notification.uri.as_str(), NOTIFICATION_ROWS) };
        proof {
            lemma_gives_notification_rows(self.notifications@, height, cache@, NOTIFICATION_ROWS);
        }
        self.base.last_visible_index(&self.notifications, height, 0, area_height)
    }

    /// Every notification without a remembered height gets three rows.
    fn ensure_post_heights(&mut self, _area: Rect)
        ensures
            final(self).notifications == old(self).notifications,
    {
        let mut i: usize = 0;
        while i < self.notifications.len()
            invariant
                i <= self.notifications@.len(),
                self.notifications == old(self).notifications,
                self.base == old(self).base,
                self.notification_heights@ == remembered(
                    notification_uris(self.notifications@.take(i as int)),
                    Seq::new(i as nat, |k: int| NOTIFICATION_ROWS),
                    old(self).notification_heights@,
                ),
            decreases self.notifications@.len() - i,
        {
            proof {
                let next = self.notifications@.take(i + 1);
                assert(notification_uris(next).drop_last() =~= notification_uris(
                    self.notifications@.take(i as int),
                ));
                assert(Seq::new((i + 1) as nat, |k: int| NOTIFICATION_ROWS).drop_last() =~= Seq::new(
                    i as nat,
                    |k: int| NOTIFICATION_ROWS,
                ));
                assert(notification_uris(next).last() == self.notifications@[i as int].uri@);
            }
            if !self.notification_heights.contains(self.notifications[i].uri.as_str()) {
                self.notification_heights.insert(self.notifications[i].uri.clone(), NOTIFICATION_ROWS);
            }
            i += 1;
        }
        proof {
            assert(self.notifications@.take(self.notifications@.len() as int)
                =~= self.notifications@);
            lemma_remembered(
                notification_uris(self.notifications@),
                Seq::new(self.notifications@.len(), |k: int| NOTIFICATION_ROWS),
                old(self).notification_heights@,
            );
        }
    }

    fn scroll_down(&mut self)
        ensures
            final(self).notifications == old(self).notifications,
            final(self).notification_heights == old(self).notification_heights,
    {
        if self.notifications.len() == 0 {
            return ;
        }
        let cache = &self.notification_heights;
        let height = |notification: &NotificationData| -> (rows: u16)
            ensures
                rows == rows_or(cache@, notification.uri@, NOTIFICATION_ROWS),
            { cache.height_or(notification.uri.as_str(), NOTIFICATION_ROWS) };
        proof {
            lemma_gives_notification_rows(self.notifications@, height, cache@, NOTIFICATION_ROWS);
        }
        self.base.handle_scroll_down(&self.notifications, height);
    }

    fn scroll_up(&mut self)
        ensures
            final(self).notifications == old(self).notifications,
            final(self).notification_heights == old(self).notification_heights,
    {
        self.base.handle_scroll_up();
    }

    fn needs_more_content(&self) -> (needed: bool) {
        needs_more(self.base.selected_index, self.notifications.len())
    }

    fn selected_index(&self) -> (index: usize) {
        self.base.selected_index
    }

    /// A list of notifications hands out no posts.
    fn get_post(&self, _index: usize) -> (post: Option<PostViewData>) {
        None
    }
}

} // verus!
