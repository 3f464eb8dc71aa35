//! What the client does with a key that was pressed or a command that was
//! typed: how its own state changes, and what it asks of the network. The
//! asking itself is left to the caller, who hands the answer back.

use super::components::author_profile::ProfileData;
use super::components::command_input::{command_names, CommandInput};
use super::components::post::types::{
    clone_optional_string, Embed, NotificationData, PostViewData,
};
use super::components::post::Post;
use super::components::post_composer::PostComposer;
use super::components::notifications::NOTIFICATION_ROWS;
use super::components::post_list::{notification_uris, PostList, PostListBase};
use super::components::text::{
    decimal, decimal_text, first_word, first_word_of, lowercase_of, second_word, second_word_of,
    str_eq, to_lowercase,
};
use super::components::thread::{thread_refused, OutputThreadRefs};
use super::views::{ListView, ViewStack};
use vstd::prelude::*;
use vstd::string::StringExecFns;

verus! {

/// A key of the keyboard, as far as the client tells keys apart.
#[derive(Clone, Copy, PartialEq, Eq, Structural, Debug)]
pub enum KeyCode {
    Backspace,
    Enter,
    Left,
    Right,
    Up,
    Down,
    Tab,
    Esc,
    Char(char),
    Other,
}

/// The keys that were held down along with a key.
#[derive(Clone, Copy, PartialEq, Eq, Structural, Debug)]
pub struct KeyModifiers {
    pub shift: bool,
    pub control: bool,
    pub alt: bool,
    /// Any other key of this kind.
    pub other: bool,
}

impl KeyModifiers {
    /// No such key was held down.
    pub open spec fn is_none(&self) -> bool {
        !self.shift && !self.control && !self.alt && !self.other
    }

    /// Shift was held down, and nothing else.
    pub open spec fn is_shift(&self) -> bool {
        self.shift && !self.control && !self.alt && !self.other
    }

    /// Control was held down, and nothing else.
    pub open spec fn is_control(&self) -> bool {
        !self.shift && self.control && !self.alt && !self.other
    }

    /// A character typed with these keys is text: nothing but shift was held
    /// down.
    pub open spec fn types_text(&self) -> bool {
        self.is_none() || self.is_shift()
    }

    pub fn none(&self) -> (held: bool)
        ensures
            held == self.is_none(),
    {
        !self.shift && !self.control && !self.alt && !self.other
    }

    pub fn shift_only(&self) -> (held: bool)
        ensures
            held == self.is_shift(),
    {
        self.shift && !self.control && !self.alt && !self.other
    }

    pub fn control_only(&self) -> (held: bool)
        ensures
            held == self.is_control(),
    {
        !self.shift && self.control && !self.alt && !self.other
    }
}

/// A key that was pressed.
#[derive(Clone, Copy, PartialEq, Eq, Structural, Debug)]
pub struct KeyEvent {
    pub code: KeyCode,
    pub modifiers: KeyModifiers,
}

/// What failed when the caller could not do what it was asked to do.
#[derive(Clone, Copy, PartialEq, Eq, Structural, Debug)]
pub enum Failure {
    /// Something that a command asked for.
    Command,
    /// Publishing a post.
    CreatePost,
    /// Opening a thread.
    Thread,
    /// Opening the thread of a quoted post.
    QuotedThread,
    /// Opening the posts of an author.
    AuthorFeed,
    /// Opening the posts of the user who is logged in.
    OwnProfile,
    /// Fetching the view anew after following or unfollowing.
    RefreshView,
    /// Fetching the profile of the author to follow.
    GetProfile,
    /// Deleting a post.
    DeletePost,
}

/// What the caller is asked to do after a key or a command. Each of these
/// needs the network; when it is done, the caller hands the outcome back.
/// Where a variant says `report`, a failure is handed to `fail` under that
/// name; else a failure is passed over.
pub enum Action {
    /// Nothing.
    Nothing,
    /// Publish a post; then `post_created`, or `fail` for `CreatePost`.
    CreatePost { content: String, reply_to: Option<String> },
    /// Fetch the page of the timeline that follows `cursor`; then
    /// `page_loaded`.
    LoadMore { cursor: Option<String> },
    /// Fetch the first page of the timeline; then `page_loaded`.
    LoadInitial,
    /// Like the post, then fetch the post anew and hand it to `update_post`.
    Like { uri: String, cid: String },
    /// Take back the like that the record `like` stands for, then fetch the
    /// post anew.
    Unlike { uri: String, like: String },
    /// Repost the post, then fetch the post anew.
    Repost { uri: String, cid: String },
    /// Take back the repost that the record `repost` stands for, then fetch
    /// the post anew.
    Unrepost { uri: String, repost: String },
    /// Fetch the profile of the author and hand it to `follow_step`, or
    /// `fail` for `GetProfile`.
    ToggleFollow { did: String },
    /// Follow the author; then fetch the view anew, or `fail` for
    /// `RefreshView`.
    Follow { did: String },
    /// Stop following the author; then fetch the view anew, or `fail` for
    /// `RefreshView`.
    Unfollow { did: String },
    /// Fetch the thread of the post and hand it to `open_thread`.
    OpenThread { uri: String, report: Option<Failure> },
    /// Fetch the notifications and hand them to `notifications_loaded`.
    LoadNotifications { report: Option<Failure> },
    /// Fetch the profile and the posts of the author and hand them to
    /// `open_author_feed`.
    OpenAuthorFeed { did: String, report: Option<Failure> },
    /// As `OpenAuthorFeed`, for the user who is logged in.
    OpenOwnProfile,
    /// As `OpenAuthorFeed`, for the user with this handle.
    OpenProfileByHandle { handle: String },
    /// Fetch anew what the view on top shows, as `refresh_request` says.
    Refresh { report: Option<Failure> },
    /// Open the thread of the post where `open_thread` says so, then
    /// `begin_reply`.
    Reply { uri: String, open_thread: bool },
    /// Ask who is logged in, and hand the answer to `delete_step`.
    DeletePost { uri: String, author_did: String },
    /// Delete the post; then `post_deleted`, or `fail` for `DeletePost`;
    /// after each of them fetch the view anew.
    RemovePost { uri: String },
}

/// How the screen is divided, from top to bottom.
#[derive(Clone, Copy, PartialEq, Eq, Structural, Debug)]
pub enum ScreenLayout {
    /// The main part, three rows for the command line, one row for the
    /// status line.
    WithCommand,
    /// Ten rows for the main part, the rest for the editor, one row for the
    /// status line.
    Composing,
    /// The main part, and one row for the status line.
    Plain,
}

/// What is drawn in the main part of the screen.
#[derive(Clone, Copy, PartialEq, Eq, Structural, Debug)]
pub enum MainPane {
    /// The post that the open thread is about, and below it the editor.
    AnchorAndComposer,
    /// The editor.
    Composer,
    /// The view on top.
    View,
}

/// What has to be fetched to show the view on top anew.
pub enum RefreshRequest {
    /// The first page of the timeline.
    Timeline,
    /// The thread of the post.
    Thread { anchor_uri: String },
    /// The posts of the author.
    AuthorFeed { did: String },
    /// The notifications.
    Notifications,
}

/// What the client knows of itself while it runs.
pub struct App {
    pub loading: bool,
    pub error: Option<String>,
    pub view_stack: ViewStack,
    pub status_line: String,
    pub post_composer: Option<PostComposer>,
    pub composing: bool,
    pub command_input: CommandInput,
    pub command_mode: bool,
}

/// The line that tells the keys and the place of the selection.
pub open spec fn place_line(selected: nat, total: nat) -> Seq<char> {
    "🌆 Press q to quit, j/k to navigate, l to like/unlike, v to view a thread, a to view a profile, and ESC to back out of one "@
        + decimal(selected) + " / "@ + decimal(total)
}

/// The key of the author of the selected item of `view`: of the selected
/// notification in a list of notifications, of the selected post elsewhere.
pub open spec fn selected_author(view: &ListView) -> Option<Seq<char>> {
    match view {
        ListView::Notifications(list) => if list.base.selected_index < list.notifications@.len() {
            Some(list.notifications@[list.base.selected_index as int].author.did@)
        } else {
            None
        },
        _ => if view.base().selected_index < view.posts().len() {
            Some(view.posts()[view.base().selected_index as int].author.did@)
        } else {
            None
        },
    }
}

/// The post that is selected in `view`, if there is one.
pub open spec fn selected_post(view: &ListView) -> Option<PostViewData> {
    if view.base().selected_index < view.posts().len() {
        Some(view.posts()[view.base().selected_index as int])
    } else {
        None
    }
}

/// How many items `view` holds.
pub open spec fn item_count(view: &ListView) -> nat {
    match view {
        ListView::Notifications(list) => list.notifications@.len(),
        _ => view.posts().len(),
    }
}

impl App {
    /// The parts of the state are valid each.
    pub open spec fn wf(&self) -> bool {
        &&& self.view_stack.wf()
        &&& self.command_input.wf()
        &&& self.post_composer matches Some(composer) ==> composer.wf()
    }

    /// The view on top.
    pub open spec fn top(&self) -> ListView {
        self.view_stack.views().last()
    }

    /// The state in which the client starts: nothing is loading and nothing
    /// has gone wrong, the only view is the timeline, still empty and at its
    /// start, no post is written and no command is typed, and the command
    /// line is empty, without history, and knows the names of the commands.
    pub fn new() -> (app: Self)
        ensures
            app.wf(),
            !app.loading,
            app.error is None,
            app.view_stack.views().len() == 1,
            app.view_stack.rests_on_timeline(),
            app.top() matches ListView::Timeline(feed) && {
                &&& feed.wf()
                &&& feed.posts@.len() == 0
                &&& feed.rendered_posts@.len() == 0
                &&& feed.cursor is None
                &&& feed.post_heights@ == Map::<Seq<char>, u16>::empty()
                &&& feed.status_line is Some && feed.status_line->0@.len() == 0
                &&& feed.base == (PostListBase {
                    selected_index: 0,
                    scroll_offset: 0,
                    last_known_height: 0,
                })
            },
            app.status_line@.len() == 0,
            app.post_composer is None,
            !app.composing,
            !app.command_mode,
            app.command_input.content@.len() == 0,
            app.command_input.cursor_position == 0,
            app.command_input.command_history@.len() == 0,
            app.command_input.history_position is None,
            app.command_input.commands@ == command_names(),
            app.command_input.tab_completion.suggestions@.len() == 0,
            app.command_input.tab_completion.current_index is None,
            app.command_input.tab_completion.partial_command@.len() == 0,
    {
        Self {
            loading: false,
            error: None,
            view_stack: ViewStack::new(),
            status_line: String::new(),
            post_composer: None,
            composing: false,
            command_input: CommandInput::new(),
            command_mode: false,
        }
    }

    /// Says in the status line what goes on: that something is loading; else
    /// what went wrong last; else the keys and the place of the selection in
    /// the view on top, counted from one.
    pub fn update_status(&mut self)
        requires
            old(self).view_stack.wf(),
        ensures
            final(self).loading == old(self).loading,
            final(self).error == old(self).error,
            final(self).view_stack == old(self).view_stack,
            final(self).post_composer == old(self).post_composer,
            final(self).composing == old(self).composing,
            final(self).command_input == old(self).command_input,
            final(self).command_mode == old(self).command_mode,
            final(self).status_line@ == if old(self).loading {
                "Loading..."@
            } else if old(self).error is Some {
                old(self).error->0@
            } else {
                place_line(
                    (old(self).top().base().selected_index + 1) as nat,
                    item_count(&old(self).top()),
                )
            },
    {
        if self.loading {
            self.status_line = "Loading...".to_owned();
        } else {
            match &self.error {
                Some(err) => {
                    self.status_line = err.clone();
                },
                None => {
                    let (selected, total): (usize, usize) = match self.view_stack.current() {
                        ListView::Timeline(feed) => (feed.base.selected_index, feed.posts.len()),
                        ListView::Thread(thread) => (thread.base.selected_index, thread.posts.len()),
                        ListView::AuthorFeed(author_feed) => (
                            author_feed.base.selected_index,
                            author_feed.posts.len(),
                        ),
                        ListView::Notifications(notification_view) => (
                            notification_view.base.selected_index,
                            notification_view.notifications.len(),
                        ),
                    };
                    let mut line =
                        "🌆 Press q to quit, j/k to navigate, l to like/unlike, v to view a thread, a to view a profile, and ESC to back out of one ".to_owned();
                    line.append(decimal_text((selected as u128) + 1).as_str());
                    line.append(" / ");
                    line.append(decimal_text(total as u128).as_str());
                    self.status_line = line;
                },
            }
        }
    }

    /// A copy of the key of the author of the selected item, see
    /// `selected_author`.
    pub fn selected_author_did(&self) -> (did: Option<String>)
        requires
            self.view_stack.wf(),
        ensures
            did is Some == selected_author(&self.top()) is Some,
            did is Some ==> did->0@ == selected_author(&self.top())->0,
    {
        match self.view_stack.current() {
            ListView::Notifications(list) => {
                if list.base.selected_index < list.notifications.len() {
                    Some(list.notifications[list.base.selected_index].author.did.clone())
                } else {
                    None
                }
            },
            ListView::Timeline(feed) => {
                if feed.base.selected_index < feed.posts.len() {
                    Some(feed.posts[feed.base.selected_index].author.did.clone())
                } else {
                    None
                }
            },
            ListView::Thread(thread) => {
                if thread.base.selected_index < thread.posts.len() {
                    Some(thread.posts[thread.base.selected_index].author.did.clone())
                } else {
                    None
                }
            },
            ListView::AuthorFeed(author_feed) => {
                if author_feed.base.selected_index < author_feed.posts.len() {
                    Some(author_feed.posts[author_feed.base.selected_index].author.did.clone())
                } else {
                    None
                }
            },
        }
    }

    /// How the screen is divided: with a command line while a command is
    /// typed, else with an editor while a post is written, else plainly.
    pub fn screen_layout(&self) -> (layout: ScreenLayout)
        ensures
            layout == if self.command_mode {
                ScreenLayout::WithCommand
            } else if self.composing {
                ScreenLayout::Composing
            } else {
                ScreenLayout::Plain
            },
    {
        if self.command_mode {
            ScreenLayout::WithCommand
        } else if self.composing {
            ScreenLayout::Composing
        } else {
            ScreenLayout::Plain
        }
    }

    /// What is drawn in the main part: while a post is written, the editor,
    /// below the post that is answered where a thread is open; else the view
    /// on top.
    pub fn main_pane(&self) -> (pane: MainPane)
        requires
            self.view_stack.wf(),
        ensures
            pane == if self.composing {
                if self.top() is Thread {
                    MainPane::AnchorAndComposer
                } else {
                    MainPane::Composer
                }
            } else {
                MainPane::View
            },
    {
        if self.composing {
            match self.view_stack.current() {
                ListView::Thread(_) => MainPane::AnchorAndComposer,
                _ => MainPane::Composer,
            }
        } else {
            MainPane::View
        }
    }

    /// Puts a post that was fetched anew in the place of the post with its
    /// key in the view on top, see `ListView::update_post`.
    pub fn update_post(&mut self, updated_post: PostViewData)
        requires
            old(self).view_stack.wf(),
        ensures
            final(self).view_stack.wf(),
            final(self).loading == old(self).loading,
            final(self).error == old(self).error,
            final(self).status_line == old(self).status_line,
            final(self).post_composer == old(self).post_composer,
            final(self).composing == old(self).composing,
            final(self).command_input == old(self).command_input,
            final(self).command_mode == old(self).command_mode,
            final(self).view_stack.views().len() == old(self).view_stack.views().len(),
            final(self).view_stack.views().drop_last() == old(self).view_stack.views().drop_last(),
            final(self).top().post_updated(&old(self).top(), updated_post),
    {
        let view = self.view_stack.current_view();
        view.update_post(updated_post);
        proof {
            assert(self.view_stack.views().drop_last() =~= old(self).view_stack.views().drop_last());
        }
    }

    /// What has to be fetched to show the view on top anew.
    pub fn refresh_request(&self) -> (request: RefreshRequest)
        requires
            self.view_stack.wf(),
        ensures
            match self.top() {
                ListView::Timeline(_) => request is Timeline,
                ListView::Thread(thread) => request matches RefreshRequest::Thread { anchor_uri }
                    && anchor_uri == thread.anchor_uri,
                ListView::AuthorFeed(author_feed) => request matches RefreshRequest::AuthorFeed {
                    did,
                } && did == author_feed.profile.profile.did,
                ListView::Notifications(_) => request is Notifications,
            },
    {
        match self.view_stack.current() {
            ListView::Timeline(_feed) => RefreshRequest::Timeline,
            ListView::Thread(thread) => RefreshRequest::Thread {
                anchor_uri: thread.anchor_uri.clone(),
            },
            ListView::AuthorFeed(author_feed) => RefreshRequest::AuthorFeed {
                did: author_feed.profile.profile.did.clone(),
            },
            ListView::Notifications(_notifications) => RefreshRequest::Notifications,
        }
    }
}

/// What a key does to the selection of likes: the like is taken back where
/// the viewer likes the selected post, and given where not.
pub open spec fn like_action(view: &ListView, action: &Action) -> bool {
    match selected_post(view) {
        Some(post) => match post.viewer_like {
            Some(like) => action matches Action::Unlike { uri, like: record } && uri@ == post.uri@
                && record@ == like@,
            None => action matches Action::Like { uri, cid } && uri@ == post.uri@ && cid@
                == post.cid@,
        },
        None => action is Nothing,
    }
}

/// As `like_action`, for reposts.
pub open spec fn repost_action(view: &ListView, action: &Action) -> bool {
    match selected_post(view) {
        Some(post) => match post.viewer_repost {
            Some(repost) => action matches Action::Unrepost { uri, repost: record } && uri@
                == post.uri@ && record@ == repost@,
            None => action matches Action::Repost { uri, cid } && uri@ == post.uri@ && cid@
                == post.cid@,
        },
        None => action is Nothing,
    }
}

/// The profile of the author of the selected item is asked for, to decide
/// between following and unfollowing.
pub open spec fn follow_action(view: &ListView, action: &Action) -> bool {
    match selected_author(view) {
        Some(author) => action matches Action::ToggleFollow { did } && did@ == author,
        None => action is Nothing,
    }
}

/// The thread of the post `uri` can be opened from `view`.
pub open spec fn thread_allowed(view: &ListView, uri: Seq<char>) -> bool {
    match view {
        ListView::Thread(thread) => uri != thread.anchor_uri@,
        _ => true,
    }
}

/// The thread of the selected post is opened, unless it is open already.
pub open spec fn thread_action(view: &ListView, action: &Action) -> bool {
    match selected_post(view) {
        Some(post) => if thread_allowed(view, post.uri@) {
            action matches Action::OpenThread { uri, report } && uri@ == post.uri@ && report
                == Some(Failure::Thread)
        } else {
            action is Nothing
        },
        None => action is Nothing,
    }
}

/// The thread of the post that the selected post quotes is opened, unless
/// it is open already.
pub open spec fn quoted_thread_action(view: &ListView, action: &Action) -> bool {
    match selected_post(view) {
        Some(post) => match post.embed {
            Embed::Quote(quoted) => if thread_allowed(view, quoted.uri@) {
                action matches Action::OpenThread { uri, report } && uri@ == quoted.uri@ && report
                    == Some(Failure::QuotedThread)
            } else {
                action is Nothing
            },
            _ => action is Nothing,
        },
        None => action is Nothing,
    }
}

/// The posts of the author of the selected item are opened, unless they are
/// what `view` shows already.
pub open spec fn author_action(view: &ListView, action: &Action) -> bool {
    match selected_author(view) {
        Some(author) => if view matches ListView::AuthorFeed(author_feed)
            && author_feed.profile.profile.did@ == author {
            action is Nothing
        } else {
            action matches Action::OpenAuthorFeed { did, report } && did@ == author && report
                == Some(Failure::AuthorFeed)
        },
        None => action is Nothing,
    }
}

impl App {
    /// Everything but the command line and its mode is in `after` as it is in
    /// `before`; the status line is left out.
    pub open spec fn same_views(before: &App, after: &App) -> bool {
        &&& after.loading == before.loading
        &&& after.error == before.error
        &&& after.view_stack == before.view_stack
        &&& after.post_composer == before.post_composer
        &&& after.composing == before.composing
    }

    /// Everything but the views and what is loading is in `after` as it is
    /// in `before`; the status line is left out.
    pub open spec fn same_editors(before: &App, after: &App) -> bool {
        &&& after.error == before.error
        &&& after.post_composer == before.post_composer
        &&& after.composing == before.composing
        &&& after.command_input == before.command_input
        &&& after.command_mode == before.command_mode
    }

    /// Everything but the status line is in `after` as it is in `before`.
    pub open spec fn same_state(before: &App, after: &App) -> bool {
        &&& Self::same_views(before, after)
        &&& after.command_input == before.command_input
        &&& after.command_mode == before.command_mode
    }

    /// The views of `after` are those of `before` with `top` in the place of
    /// the view on top.
    pub open spec fn top_replaced(before: &App, after: &App, top: ListView) -> bool {
        after.view_stack.views() == before.view_stack.views().update(
            before.view_stack.views().len() - 1,
            top,
        )
    }

    /// What a command does, leaving out the status line. `command` is the
    /// line that was typed; its first word names the command.
    ///
    /// `reply` asks to answer the selected post, `post` starts a new post,
    /// `refresh` fetches the view anew, `notifications` opens the
    /// notifications, `timeline` closes every view above the timeline;
    /// `follow`, `like` and `repost` do what the keys for them do; `profile`
    /// opens the posts of the user whose handle follows it, or of the author
    /// of the selected item; `delete` asks to delete the selected post. Any
    /// other word does nothing.
    pub open spec fn command_effect(
        before: &App,
        command: Seq<char>,
        after: &App,
        action: &Action,
    ) -> bool {
        let word = first_word(command);
        let top = before.top();
        if word.len() == 0 {
            Self::same_state(before, after) && action is Nothing
        } else if word == "reply"@ {
            &&& Self::same_state(before, after)
            &&& match selected_post(&top) {
                Some(post) => action matches Action::Reply { uri, open_thread } && uri@
                    == post.uri@ && open_thread == thread_allowed(&top, post.uri@),
                None => action is Nothing,
            }
        } else if word == "post"@ {
            &&& after.loading == before.loading
            &&& after.error == before.error
            &&& after.view_stack == before.view_stack
            &&& after.command_input == before.command_input
            &&& after.command_mode == before.command_mode
            &&& after.composing
            &&& after.post_composer matches Some(composer) && composer.content@.len() == 0
                && composer.cursor_position == 0 && composer.reply_to is None
            &&& action is Nothing
        } else if word == "refresh"@ {
            &&& Self::same_state(before, after)
            &&& action matches Action::Refresh { report } && report == Some(Failure::Command)
        } else if word == "notifications"@ {
            &&& Self::same_editors(before, after)
            &&& after.loading
            &&& after.view_stack.views().len() == before.view_stack.views().len() + 1
            &&& after.view_stack.views().drop_last() == before.view_stack.views()
            &&& after.view_stack.views().last() matches ListView::Notifications(list)
                && list.notifications@.len() == 0
            &&& action matches Action::LoadNotifications { report } && report == Some(
                Failure::Command,
            )
        } else if word == "timeline"@ {
            &&& Self::same_editors(before, after)
            &&& after.loading == before.loading
            &&& after.view_stack.views() == before.view_stack.views().take(1)
            &&& action is Nothing
        } else if word == "follow"@ {
            Self::same_state(before, after) && follow_action(&top, action)
        } else if word == "like"@ {
            Self::same_state(before, after) && like_action(&top, action)
        } else if word == "repost"@ {
            Self::same_state(before, after) && repost_action(&top, action)
        } else if word == "profile"@ {
            &&& Self::same_state(before, after)
            &&& if second_word(command).len() > 0 {
                action matches Action::OpenProfileByHandle { handle } && handle@ == second_word(
                    command,
                )
            } else {
                match selected_author(&top) {
                    Some(author) => action matches Action::OpenAuthorFeed { did, report } && did@
                        == author && report is None,
                    None => action is Nothing,
                }
            }
        } else if word == "delete"@ {
            &&& Self::same_state(before, after)
            &&& match selected_post(&top) {
                Some(post) => action matches Action::DeletePost { uri, author_did } && uri@
                    == post.uri@ && author_did@ == post.author.did@,
                None => action is Nothing,
            }
        } else {
            Self::same_state(before, after) && action is Nothing
        }
    }

    /// Does what the command line `command` asks for, see `command_effect`.
    /// A line whose first word is no command is answered in the status line.
    pub fn handle_command(&mut self, command: &str) -> (action: Action)
        requires
            old(self).wf(),
        ensures
            final(self).wf(),
            Self::command_effect(old(self), command@, final(self), &action),
            final(self).status_line@ == if Self::known_command(first_word(command@)) {
                old(self).status_line@
            } else {
                "Unknown command: "@ + command@
            },
    {
        let word = first_word_of(command);
        let name = word.as_str();
        if name.unicode_len() == 0 {
            Action::Nothing
        } else if str_eq(name, "reply") {
            match self.view_stack.current().get_selected_post() {
                Some(post) => {
                    let open_thread = self.view_stack.current().can_view_thread(post.uri.as_str());
                    Action::Reply { uri: post.uri, open_thread }
                },
                None => Action::Nothing,
            }
        } else if str_eq(name, "post") {
            self.post_composer = Some(PostComposer::new(None));
            self.composing = true;
            Action::Nothing
        } else if str_eq(name, "refresh") {
            Action::Refresh { report: Some(Failure::Command) }
        } else if str_eq(name, "notifications") {
            self.view_stack.push_notifications_view();
            self.loading = true;
            Action::LoadNotifications { report: Some(Failure::Command) }
        } else if str_eq(name, "timeline") {
            self.view_stack.pop_to_timeline();
            Action::Nothing
        } else if str_eq(name, "follow") {
            self.handle_follow()
        } else if str_eq(name, "like") {
            self.handle_like_post()
        } else if str_eq(name, "repost") {
            self.handle_repost()
        } else if str_eq(name, "profile") {
            let handle = second_word_of(command);
            if handle.as_str().unicode_len() > 0 {
                Action::OpenProfileByHandle { handle }
            } else {
                match self.selected_author_did() {
                    Some(did) => Action::OpenAuthorFeed { did, report: None },
                    None => Action::Nothing,
                }
            }
        } else if str_eq(name, "delete") {
            match self.view_stack.current().get_selected_post() {
                Some(post) => Action::DeletePost { uri: post.uri, author_did: post.author.did },
                None => Action::Nothing,
            }
        } else {
            self.status_line = prefixed("Unknown command: ", command);
            Action::Nothing
        }
    }

    /// What a key does while a command is typed, leaving out the status
    /// line.
    ///
    /// Escape leaves the command line and empties it. Enter hands the line
    /// that was typed to `handle_command`, in lower case, and leaves the
    /// command line; on an empty line it does nothing. Tab completes the word
    /// that is being typed. A character that was typed with nothing but shift
    /// held down goes into the line. Backspace, the arrows to the left and to
    /// the right edit the line, the arrows up and down walk the history.
    pub open spec fn command_key_effect(
        before: &App,
        key: KeyEvent,
        after: &App,
        action: &Action,
    ) -> bool {
        match key.code {
            KeyCode::Esc => {
                &&& Self::same_views(before, after)
                &&& !after.command_mode
                &&& CommandInput::cleared(&before.command_input, &after.command_input)
                &&& action is Nothing
            },
            KeyCode::Enter => if before.command_input.content@.len() == 0 {
                Self::same_state(before, after) && action is Nothing
            } else {
                exists|submitted: App|
                    {
                        &&& Self::same_views(before, &submitted)
                        &&& !submitted.command_mode
                        &&& CommandInput::submitted(
                            &before.command_input,
                            &submitted.command_input,
                            Some(before.command_input.content),
                        )
                        &&& #[trigger] Self::command_effect(
                            &submitted,
                            lowercase_of(before.command_input.content@),
                            after,
                            action,
                        )
                    }
            },
            KeyCode::Tab => {
                &&& Self::same_views(before, after)
                &&& after.command_mode == before.command_mode
                &&& CommandInput::tab_outcome(&before.command_input, &after.command_input)
                &&& action is Nothing
            },
            KeyCode::Char(c) => {
                &&& Self::same_views(before, after)
                &&& after.command_mode == before.command_mode
                &&& if key.modifiers.types_text() {
                    CommandInput::typed(&before.command_input, c, &after.command_input)
                } else {
                    after.command_input == before.command_input
                }
                &&& action is Nothing
            },
            KeyCode::Backspace => {
                &&& Self::same_views(before, after)
                &&& after.command_mode == before.command_mode
                &&& CommandInput::erased(&before.command_input, &after.command_input)
                &&& action is Nothing
            },
            KeyCode::Left => {
                &&& Self::same_views(before, after)
                &&& after.command_mode == before.command_mode
                &&& CommandInput::went_left(&before.command_input, &after.command_input)
                &&& action is Nothing
            },
            KeyCode::Right => {
                &&& Self::same_views(before, after)
                &&& after.command_mode == before.command_mode
                &&& CommandInput::went_right(&before.command_input, &after.command_input)
                &&& action is Nothing
            },
            KeyCode::Up => {
                &&& Self::same_views(before, after)
                &&& after.command_mode == before.command_mode
                &&& CommandInput::went_up(&before.command_input, &after.command_input)
                &&& action is Nothing
            },
            KeyCode::Down => {
                &&& Self::same_views(before, after)
                &&& after.command_mode == before.command_mode
                &&& CommandInput::went_down(&before.command_input, &after.command_input)
                &&& action is Nothing
            },
            KeyCode::Other => Self::same_state(before, after) && action is Nothing,
        }
    }

    /// Handles a key while a command is typed, see `command_key_effect`.
    pub fn handle_command_key(&mut self, key: KeyEvent) -> (action: Action)
        requires
            old(self).wf(),
        ensures
            final(self).wf(),
            Self::command_key_effect(old(self), key, final(self), &action),
    {
        match key.code {
            KeyCode::Esc => {
                self.command_mode = false;
                self.command_input.clear();
                Action::Nothing
            },
            KeyCode::Enter => {
                match self.command_input.submit_command() {
                    Some(command) => {
                        self.command_mode = false;
                        let ghost submitted = *self;
                        let lowered = to_lowercase(command.as_str());
                        let action = self.handle_command(lowered.as_str());
                        proof {
                            assert(Self::command_effect(
                                &submitted,
                                lowercase_of(old(self).command_input.content@),
                                self,
                                &action,
                            ));
                        }
                        action
                    },
                    None => Action::Nothing,
                }
            },
            KeyCode::Tab => {
                self.command_input.handle_tab();
                Action::Nothing
            },
            KeyCode::Char(c) => {
                if key.modifiers.none() || key.modifiers.shift_only() {
                    self.command_input.insert_char(c);
                }
                Action::Nothing
            },
            KeyCode::Backspace => {
                self.command_input.delete_char();
                Action::Nothing
            },
            KeyCode::Left => {
                self.command_input.move_cursor_left();
                Action::Nothing
            },
            KeyCode::Right => {
                self.command_input.move_cursor_right();
                Action::Nothing
            },
            KeyCode::Up => {
                self.command_input.history_up();
                Action::Nothing
            },
            KeyCode::Down => {
                self.command_input.history_down();
                Action::Nothing
            },
            KeyCode::Other => Action::Nothing,
        }
    }

    /// Everything but the post that is being written is in `after` as it is
    /// in `before`; the status line is left out.
    pub open spec fn same_but_composer(before: &App, after: &App) -> bool {
        &&& after.loading == before.loading
        &&& after.error == before.error
        &&& after.view_stack == before.view_stack
        &&& after.composing == before.composing
        &&& after.command_input == before.command_input
        &&& after.command_mode == before.command_mode
    }

    /// What a key does while a post is written, leaving out the status line.
    ///
    /// Escape gives the post up. The letter s with control held down asks to
    /// publish it. A character that was typed with nothing but shift held down
    /// goes into the post. Backspace and the arrows to the left and to the
    /// right edit it.
    pub open spec fn compose_key_effect(
        before: &App,
        key: KeyEvent,
        after: &App,
        action: &Action,
    ) -> bool {
        match key.code {
            KeyCode::Esc => {
                &&& after.loading == before.loading
                &&& after.error == before.error
                &&& after.view_stack == before.view_stack
                &&& after.command_input == before.command_input
                &&& after.command_mode == before.command_mode
                &&& !after.composing
                &&& after.post_composer is None
                &&& action is Nothing
            },
            KeyCode::Char(c) => if c == 's' && key.modifiers.is_control() {
                &&& Self::same_state(before, after)
                &&& match before.post_composer {
                    Some(composer) => action matches Action::CreatePost { content, reply_to }
                        && content@ == composer.content@ && reply_to == composer.reply_to,
                    None => action is Nothing,
                }
            } else {
                &&& Self::same_but_composer(before, after)
                &&& action is Nothing
                &&& match before.post_composer {
                    Some(composer) => if key.modifiers.types_text() {
                        after.post_composer matches Some(edited) && PostComposer::typed(
                            &composer,
                            c,
                            &edited,
                        )
                    } else {
                        after.post_composer == before.post_composer
                    },
                    None => after.post_composer is None,
                }
            },
            KeyCode::Backspace => {
                &&& Self::same_but_composer(before, after)
                &&& action is Nothing
                &&& match before.post_composer {
                    Some(composer) => after.post_composer matches Some(edited)
                        && PostComposer::erased(&composer, &edited),
                    None => after.post_composer is None,
                }
            },
            KeyCode::Left => {
                &&& Self::same_but_composer(before, after)
                &&& action is Nothing
                &&& match before.post_composer {
                    Some(composer) => after.post_composer matches Some(edited)
                        && PostComposer::went_left(&composer, &edited),
                    None => after.post_composer is None,
                }
            },
            KeyCode::Right => {
                &&& Self::same_but_composer(before, after)
                &&& action is Nothing
                &&& match before.post_composer {
                    Some(composer) => after.post_composer matches Some(edited)
                        && PostComposer::went_right(&composer, &edited),
                    None => after.post_composer is None,
                }
            },
            _ => Self::same_state(before, after) && action is Nothing,
        }
    }

    /// Handles a key while a post is written, see `compose_key_effect`.
    pub fn handle_compose_key(&mut self, key: KeyEvent) -> (action: Action)
        requires
            old(self).wf(),
        ensures
            final(self).wf(),
            Self::compose_key_effect(old(self), key, final(self), &action),
    {
        match key.code {
            KeyCode::Esc => {
                self.composing = false;
                self.post_composer = None;
                Action::Nothing
            },
            KeyCode::Char(c) => {
                if c == 's' && key.modifiers.control_only() {
                    match &self.post_composer {
                        Some(composer) => Action::CreatePost {
                            content: composer.get_content().to_owned(),
                            reply_to: clone_optional_string(&composer.reply_to),
                        },
                        None => Action::Nothing,
                    }
                } else {
                    if key.modifiers.none() || key.modifiers.shift_only() {
                        match &mut self.post_composer {
                            Some(composer) => {
                                composer.insert_char(c);
                            },
                            None => {},
                        }
                    }
                    Action::Nothing
                }
            },
            KeyCode::Backspace => {
                match &mut self.post_composer {
                    Some(composer) => {
                        composer.delete_char();
                    },
                    None => {},
                }
                Action::Nothing
            },
            KeyCode::Left => {
                match &mut self.post_composer {
                    Some(composer) => {
                        composer.move_cursor_left();
                    },
                    None => {},
                }
                Action::Nothing
            },
            KeyCode::Right => {
                match &mut self.post_composer {
                    Some(composer) => {
                        composer.move_cursor_right();
                    },
                    None => {},
                }
                Action::Nothing
            },
            _ => Action::Nothing,
        }
    }

    /// What a key does while a list is looked at, leaving out the status
    /// line.
    ///
    /// A colon opens the command line. The letters j and k move the selection
    /// down and up; where the selection of the timeline comes within five
    /// posts of its end, the next page is asked for. The letters l, r and f
    /// like, repost and follow, or take that back. The letter v opens the
    /// thread of the selected post, a capital V the thread of the post that it
    /// quotes, n the notifications, a the posts of the author of the selected
    /// item, a capital A those of the user. Escape closes the view on top,
    /// unless it is the only one. Letters count with no key held down along
    /// with them, capital letters with shift alone.
    pub open spec fn visual_key_effect(
        before: &App,
        key: KeyEvent,
        after: &App,
        action: &Action,
    ) -> bool {
        let top = before.top();
        let plain = key.modifiers.is_none();
        let shifted = key.modifiers.is_shift();
        match key.code {
            KeyCode::Char(c) => if c == ':' && plain {
                &&& Self::same_views(before, after)
                &&& after.command_input == before.command_input
                &&& after.command_mode
                &&& action is Nothing
            } else if c == 'j' && plain {
                &&& Self::same_editors(before, after)
                &&& Self::top_replaced(before, after, top.scrolled_down())
                &&& match top.scrolled_down() {
                    ListView::Timeline(feed) => if feed.base.selected_index + 5
                        >= feed.posts@.len() {
                        after.loading && (action matches Action::LoadMore { cursor } && cursor
                            == feed.cursor)
                    } else {
                        after.loading == before.loading && action is Nothing
                    },
                    _ => after.loading == before.loading && action is Nothing,
                }
            } else if c == 'k' && plain {
                &&& Self::same_editors(before, after)
                &&& after.loading == before.loading
                &&& Self::top_replaced(before, after, top.scrolled_up())
                &&& action is Nothing
            } else if c == 'l' && plain {
                Self::same_state(before, after) && like_action(&top, action)
            } else if c == 'r' && plain {
                Self::same_state(before, after) && repost_action(&top, action)
            } else if c == 'f' && plain {
                Self::same_state(before, after) && follow_action(&top, action)
            } else if c == 'v' && plain {
                Self::same_state(before, after) && thread_action(&top, action)
            } else if c == 'V' && shifted {
                Self::same_state(before, after) && quoted_thread_action(&top, action)
            } else if c == 'n' && plain {
                &&& Self::same_editors(before, after)
                &&& after.loading
                &&& action matches Action::LoadNotifications { report } && report is None
                &&& if top is Notifications {
                    after.view_stack == before.view_stack
                } else {
                    &&& after.view_stack.views().len() == before.view_stack.views().len() + 1
                    &&& after.view_stack.views().drop_last() == before.view_stack.views()
                    &&& after.view_stack.views().last() matches ListView::Notifications(list)
                        && list.notifications@.len() == 0
                }
            } else if c == 'a' && plain {
                Self::same_state(before, after) && author_action(&top, action)
            } else if c == 'A' && shifted {
                Self::same_state(before, after) && action is OpenOwnProfile
            } else {
                Self::same_state(before, after) && action is Nothing
            },
            KeyCode::Esc => {
                &&& Self::same_editors(before, after)
                &&& after.loading == before.loading
                &&& after.view_stack.views() == if before.view_stack.views().len() > 1 {
                    before.view_stack.views().drop_last()
                } else {
                    before.view_stack.views()
                }
                &&& action is Nothing
            },
            _ => Self::same_state(before, after) && action is Nothing,
        }
    }

    /// Handles a key while a list is looked at, see `visual_key_effect`.
    pub fn handle_visual_key(&mut self, key: KeyEvent) -> (action: Action)
        requires
            old(self).wf(),
        ensures
            final(self).wf(),
            Self::visual_key_effect(old(self), key, final(self), &action),
    {
        let plain = key.modifiers.none();
        let shifted = key.modifiers.shift_only();
        match key.code {
            KeyCode::Char(c) => {
                if c == ':' && plain {
                    self.command_mode = true;
                    Action::Nothing
                } else if c == 'j' && plain {
                    let view = self.view_stack.current_view();
                    view.scroll_down();
                    let more: Option<Option<String>> = match view {
                        ListView::Timeline(feed) => {
                            if feed.needs_more_content() {
                                Some(clone_optional_string(&feed.cursor))
                            } else {
                                None
                            }
                        },
                        _ => None,
                    };
                    match more {
                        Some(cursor) => {
                            self.loading = true;
                            Action::LoadMore { cursor }
                        },
                        None => Action::Nothing,
                    }
                } else if c == 'k' && plain {
                    let view = self.view_stack.current_view();
                    view.scroll_up();
                    Action::Nothing
                } else if c == 'l' && plain {
                    self.handle_like_post()
                } else if c == 'r' && plain {
                    self.handle_repost()
                } else if c == 'f' && plain {
                    self.handle_follow()
                } else if c == 'v' && plain {
                    match self.view_stack.current().get_selected_post() {
                        Some(post) => {
                            if self.view_stack.current().can_view_thread(post.uri.as_str()) {
                                Action::OpenThread { uri: post.uri, report: Some(Failure::Thread) }
                            } else {
                                Action::Nothing
                            }
                        },
                        None => Action::Nothing,
                    }
                } else if c == 'V' && shifted {
                    match self.view_stack.current().get_selected_post() {
                        Some(post) => match Post::extract_quoted_post_data(&post) {
                            Some(quoted_post) => {
                                if self.view_stack.current().can_view_thread(
                                    quoted_post.uri.as_str(),
                                ) {
                                    Action::OpenThread {
                                        uri: quoted_post.uri,
                                        report: Some(Failure::QuotedThread),
                                    }
                                } else {
                                    Action::Nothing
                                }
                            },
                            None => Action::Nothing,
                        },
                        None => Action::Nothing,
                    }
                } else if c == 'n' && plain {
                    let currently_notifs_view = match self.view_stack.current() {
                        ListView::Notifications(_) => true,
                        _ => false,
                    };
                    if !currently_notifs_view {
                        self.view_stack.push_notifications_view();
                    }
                    self.loading = true;
                    Action::LoadNotifications { report: None }
                } else if c == 'a' && plain {
                    match self.selected_author_did() {
                        Some(did) => {
                            let is_same_author = match self.view_stack.current() {
                                ListView::AuthorFeed(author_feed) => str_eq(
                                    author_feed.profile.profile.did.as_str(),
                                    did.as_str(),
                                ),
                                _ => false,
                            };
                            if is_same_author {
                                Action::Nothing
                            } else {
                                Action::OpenAuthorFeed { did, report: Some(Failure::AuthorFeed) }
                            }
                        },
                        None => Action::Nothing,
                    }
                } else if c == 'A' && shifted {
                    Action::OpenOwnProfile
                } else {
                    Action::Nothing
                }
            },
            KeyCode::Esc => {
                let _ = self.view_stack.pop_view();
                Action::Nothing
            },
            _ => Action::Nothing,
        }
    }

    /// What a key does, leaving out the status line: what it does in the
    /// command line while a command is typed, else what it does to the post
    /// while one is written, else what it does to the list.
    pub open spec fn input_effect(before: &App, key: KeyEvent, after: &App, action: &Action) -> bool {
        if before.command_mode {
            Self::command_key_effect(before, key, after, action)
        } else if before.composing {
            Self::compose_key_effect(before, key, after, action)
        } else {
            Self::visual_key_effect(before, key, after, action)
        }
    }

    /// What the status line says of the state, see `update_status`.
    pub open spec fn status_text(&self) -> Seq<char> {
        if self.loading {
            "Loading..."@
        } else if self.error is Some {
            self.error->0@
        } else {
            place_line(
                (self.top().base().selected_index + 1) as nat,
                item_count(&self.top()),
            )
        }
    }

    /// Takes a key: the state changes as `input_effect` says, the status line
    /// says what goes on after that, and the result is what the caller is
    /// asked to do.
    pub fn handle_input(&mut self, key: KeyEvent) -> (action: Action)
        requires
            old(self).wf(),
        ensures
            final(self).wf(),
            final(self).status_line@ == final(self).status_text(),
            Self::input_effect(old(self), key, final(self), &action),
    {
        let action = if self.command_mode {
            self.handle_command_key(key)
        } else if self.composing {
            self.handle_compose_key(key)
        } else {
            self.handle_visual_key(key)
        };
        let ghost handled = *self;
        self.update_status();
        proof {
            Self::lemma_effects_leave_status_out(old(self), key, &handled, self, &action);
        }
        action
    }

    /// The effect of a key says nothing of the status line: a state that
    /// differs from `after` in the status line alone shows the same effect.
    pub proof fn lemma_effects_leave_status_out(
        before: &App,
        key: KeyEvent,
        after: &App,
        relined: &App,
        action: &Action,
    )
        requires
            Self::input_effect(before, key, after, action),
            Self::same_state(after, relined),
        ensures
            Self::input_effect(before, key, relined, action),
    {
        if before.command_mode && key.code is Enter && before.command_input.content@.len() > 0 {
            let submitted = choose|submitted: App|
                {
                    &&& Self::same_views(before, &submitted)
                    &&& !submitted.command_mode
                    &&& CommandInput::submitted(
                        &before.command_input,
                        &submitted.command_input,
                        Some(before.command_input.content),
                    )
                    &&& #[trigger] Self::command_effect(
                        &submitted,
                        lowercase_of(before.command_input.content@),
                        after,
                        action,
                    )
                };
            assert(Self::command_effect(
                &submitted,
                lowercase_of(before.command_input.content@),
                relined,
                action,
            ));
        }
    }

    /// Whether the key ends the client: the letter q while a list is looked
    /// at.
    pub fn should_quit(&self, key: KeyEvent) -> (quit: bool)
        ensures
            quit == (key.code == KeyCode::Char('q') && !self.command_mode && !self.composing),
    {
        match key.code {
            KeyCode::Char(c) => c == 'q' && !self.command_mode && !self.composing,
            _ => false,
        }
    }

    /// Lets the user write an answer to the post `uri`.
    pub fn begin_reply(&mut self, uri: String)
        ensures
            old(self).view_stack.wf() && old(self).command_input.wf() ==> final(self).wf(),
            final(self).loading == old(self).loading,
            final(self).error == old(self).error,
            final(self).view_stack == old(self).view_stack,
            final(self).command_input == old(self).command_input,
            final(self).command_mode == old(self).command_mode,
            final(self).status_line == old(self).status_line,
            final(self).composing,
            final(self).post_composer matches Some(composer) && composer.content@.len() == 0
                && composer.cursor_position == 0 && composer.reply_to == Some(uri),
    {
        self.post_composer = Some(PostComposer::new(Some(uri)));
        self.composing = true;
    }

    /// Takes note that the post was published: the editor closes, and what
    /// the post may show up in is asked for anew: the first page of the
    /// timeline, or the thread that is open.
    pub fn post_created(&mut self) -> (action: Action)
        requires
            old(self).view_stack.wf(),
        ensures
            final(self).status_line@ == "Post created successfully"@,
            !final(self).composing,
            final(self).post_composer is None,
            final(self).loading == old(self).loading,
            final(self).error == old(self).error,
            final(self).view_stack == old(self).view_stack,
            final(self).command_input == old(self).command_input,
            final(self).command_mode == old(self).command_mode,
            match old(self).top() {
                ListView::Timeline(_) => action is LoadInitial,
                ListView::Thread(thread) => action matches Action::OpenThread { uri, report }
                    && uri == thread.anchor_uri && report is None,
                _ => action is Nothing,
            },
    {
        self.status_line = "Post created successfully".to_owned();
        self.composing = false;
        self.post_composer = None;
        match self.view_stack.current() {
            ListView::Timeline(_feed) => Action::LoadInitial,
            ListView::Thread(thread) => Action::OpenThread {
                uri: thread.anchor_uri.clone(),
                report: None,
            },
            _ => Action::Nothing,
        }
    }

    /// The words that say what failed.
    pub open spec fn failure_words(failure: Failure) -> Seq<char> {
        match failure {
            Failure::Command => "Command error: "@,
            Failure::CreatePost => "Failed to create post: "@,
            Failure::Thread => "Failed to load thread: "@,
            Failure::QuotedThread => "Failed to load quoted thread: "@,
            Failure::AuthorFeed => "Failed to load author feed: "@,
            Failure::OwnProfile => "Failed to load your profile: "@,
            Failure::RefreshView => "Failed to refresh view: "@,
            Failure::GetProfile => "Failed to get profile: "@,
            Failure::DeletePost => "Failed to delete post: "@,
        }
    }

    /// Takes note of what failed: the error says what failed, and why. The
    /// lists stay as they are.
    pub fn fail(&mut self, failure: Failure, message: &str)
        ensures
            final(self).error matches Some(error) && error@ == Self::failure_words(failure)
                + message@,
            final(self).loading == old(self).loading,
            final(self).view_stack == old(self).view_stack,
            final(self).status_line == old(self).status_line,
            final(self).post_composer == old(self).post_composer,
            final(self).composing == old(self).composing,
            final(self).command_input == old(self).command_input,
            final(self).command_mode == old(self).command_mode,
    {
        let words = match failure {
            Failure::Command => "Command error: ",
            Failure::CreatePost => "Failed to create post: ",
            Failure::Thread => "Failed to load thread: ",
            Failure::QuotedThread => "Failed to load quoted thread: ",
            Failure::AuthorFeed => "Failed to load author feed: ",
            Failure::OwnProfile => "Failed to load your profile: ",
            Failure::RefreshView => "Failed to refresh view: ",
            Failure::GetProfile => "Failed to get profile: ",
            Failure::DeletePost => "Failed to delete post: ",
        };
        self.error = Some(prefixed(words, message));
    }

    /// Takes a page of the timeline that was asked for: where the timeline is
    /// on top, the page is appended to it. Nothing is loading after that.
    pub fn page_loaded(&mut self, page: Vec<PostViewData>, cursor: Option<String>)
        requires
            old(self).view_stack.wf(),
        ensures
            final(self).view_stack.wf(),
            !final(self).loading,
            final(self).error == old(self).error,
            final(self).status_line == old(self).status_line,
            final(self).post_composer == old(self).post_composer,
            final(self).composing == old(self).composing,
            final(self).command_input == old(self).command_input,
            final(self).command_mode == old(self).command_mode,
            final(self).view_stack.views().len() == old(self).view_stack.views().len(),
            final(self).view_stack.views().drop_last() == old(self).view_stack.views().drop_last(),
            match old(self).top() {
                ListView::Timeline(before) => final(self).top() matches ListView::Timeline(feed)
                    && feed.posts@ == before.posts@ + page@ && feed.cursor == cursor && feed.base
                    == before.base && feed.post_heights == before.post_heights && (before.wf()
                    ==> feed.wf()),
                _ => final(self).top() == old(self).top(),
            },
    {
        let view = self.view_stack.current_view();
        match view {
            ListView::Timeline(feed) => {
                feed.scroll(page, cursor);
            },
            _ => {},
        }
        self.loading = false;
        proof {
            assert(self.view_stack.views().drop_last() =~= old(self).view_stack.views().drop_last());
        }
    }

    /// Takes the notifications that were asked for: where the notifications
    /// are on top, they are replaced by the page. Nothing is loading after
    /// that.
    pub fn notifications_loaded(&mut self, page: Vec<NotificationData>)
        requires
            old(self).view_stack.wf(),
        ensures
            final(self).view_stack.wf(),
            !final(self).loading,
            final(self).error == old(self).error,
            final(self).status_line == old(self).status_line,
            final(self).post_composer == old(self).post_composer,
            final(self).composing == old(self).composing,
            final(self).command_input == old(self).command_input,
            final(self).command_mode == old(self).command_mode,
            final(self).view_stack.views().len() == old(self).view_stack.views().len(),
            final(self).view_stack.views().drop_last() == old(self).view_stack.views().drop_last(),
            match old(self).top() {
                ListView::Notifications(before) => final(self).top() matches ListView::Notifications(
                    list,
                ) && list.notifications@ == page@ && list.base.selected_index == 0
                    && list.base.scroll_offset == 0 && list.notification_heights
                    == before.notification_heights,
                _ => final(self).top() == old(self).top(),
            },
    {
        let view = self.view_stack.current_view();
        match view {
            ListView::Notifications(notifications) => {
                notifications.load_notifications(page);
            },
            _ => {},
        }
        self.loading = false;
        proof {
            assert(self.view_stack.views().drop_last() =~= old(self).view_stack.views().drop_last());
        }
    }

    /// Takes a thread that was fetched to show the open thread anew: where a
    /// thread is on top, it takes the posts, see `Thread::reloaded_from`.
    /// The result is false where the thread was refused.
    pub fn thread_reloaded(&mut self, thread_data: OutputThreadRefs) -> (taken: bool)
        requires
            old(self).view_stack.wf(),
        ensures
            final(self).view_stack.wf(),
            Self::same_editors(old(self), final(self)),
            final(self).loading == old(self).loading,
            final(self).status_line == old(self).status_line,
            final(self).view_stack.views().len() == old(self).view_stack.views().len(),
            final(self).view_stack.views().drop_last() == old(self).view_stack.views().drop_last(),
            match old(self).top() {
                ListView::Thread(before) => final(self).top() matches ListView::Thread(thread)
                    && thread.reloaded_from(&before, thread_data) && taken == !thread_refused(
                    thread_data,
                ),
                _ => final(self).top() == old(self).top() && taken,
            },
    {
        let view = self.view_stack.current_view();
        let taken = match view {
            ListView::Thread(thread) => thread.reload(thread_data).is_ok(),
            _ => true,
        };
        proof {
            assert(self.view_stack.views().drop_last() =~= old(self).view_stack.views().drop_last());
        }
        taken
    }

    /// Takes the posts of an author that were fetched to show the author
    /// anew: where the posts of an author are on top, the list takes them,
    /// see `AuthorFeed::replaced_from`.
    pub fn author_posts_reloaded(&mut self, posts: Vec<PostViewData>)
        requires
            old(self).view_stack.wf(),
        ensures
            final(self).view_stack.wf(),
            Self::same_editors(old(self), final(self)),
            final(self).loading == old(self).loading,
            final(self).status_line == old(self).status_line,
            final(self).view_stack.views().len() == old(self).view_stack.views().len(),
            final(self).view_stack.views().drop_last() == old(self).view_stack.views().drop_last(),
            match old(self).top() {
                ListView::AuthorFeed(before) => final(self).top() matches ListView::AuthorFeed(
                    author_feed,
                ) && author_feed.replaced_from(&before, posts@),
                _ => final(self).top() == old(self).top(),
            },
    {
        let view = self.view_stack.current_view();
        match view {
            ListView::AuthorFeed(author_feed) => {
                author_feed.replace_posts(posts);
            },
            _ => {},
        }
        proof {
            assert(self.view_stack.views().drop_last() =~= old(self).view_stack.views().drop_last());
        }
    }

    /// Whether the notifications are on top, so that it is worth asking the
    /// network for them.
    pub fn shows_notifications(&self) -> (shown: bool)
        requires
            self.view_stack.wf(),
        ensures
            shown == (self.top() is Notifications),
    {
        match self.view_stack.current() {
            ListView::Notifications(_) => true,
            _ => false,
        }
    }

    /// Takes the newest notification that the network has, after word came
    /// that there is a new one: where the notifications are on top, the list
    /// takes it, see `NotificationView::handle_new_notification`.
    pub fn notification_arrived(&mut self, uri: String, latest: Option<NotificationData>)
        requires
            old(self).view_stack.wf(),
        ensures
            final(self).view_stack.wf(),
            Self::same_editors(old(self), final(self)),
            final(self).loading == old(self).loading,
            final(self).status_line == old(self).status_line,
            final(self).view_stack.views().len() == old(self).view_stack.views().len(),
            final(self).view_stack.views().drop_last() == old(self).view_stack.views().drop_last(),
            match old(self).top() {
                ListView::Notifications(before) => final(self).top() matches ListView::Notifications(
                    list,
                ) && list.base == before.base && match latest {
                    Some(notification) => if notification_uris(before.notifications@).contains(
                        notification.uri@,
                    ) {
                        &&& list.notifications@ == before.notifications@
                        &&& list.notification_heights@ == before.notification_heights@
                    } else {
                        &&& list.notifications@ == seq![notification] + before.notifications@
                        &&& list.notification_heights@ == before.notification_heights@.insert(
                            notification.uri@,
                            NOTIFICATION_ROWS,
                        )
                    },
                    None => {
                        &&& list.notifications@ == before.notifications@
                        &&& list.notification_heights@ == before.notification_heights@
                    },
                },
                _ => final(self).top() == old(self).top(),
            },
    {
        let view = self.view_stack.current_view();
        match view {
            ListView::Notifications(notifications) => {
                notifications.handle_new_notification(uri, latest);
            },
            _ => {},
        }
        proof {
            assert(self.view_stack.views().drop_last() =~= old(self).view_stack.views().drop_last());
        }
    }

    /// Takes note that the post was deleted.
    pub fn post_deleted(&mut self)
        ensures
            final(self).status_line@ == "Post deleted successfully"@,
            Self::same_state(old(self), final(self)),
    {
        self.status_line = "Post deleted successfully".to_owned();
    }

    /// Decides on a post that the user asked to delete, once it is known who
    /// is logged in. Only the author of a post may delete it: where
    /// `author_did` is the user who is logged in, the post is to be deleted,
    /// and nothing changes yet. Where it is someone else, the status line
    /// says so, nothing is sent, and the view is fetched anew; so it is where
    /// nobody is logged in, without a word in the status line.
    pub fn delete_step(&mut self, uri: String, author_did: &str, session_did: Option<&str>) -> (action:
        Action)
        ensures
            Self::same_state(old(self), final(self)),
            match session_did {
                Some(did) => if did@ == author_did@ {
                    &&& action == (Action::RemovePost { uri })
                    &&& final(self).status_line == old(self).status_line
                } else {
                    &&& action == (Action::Refresh { report: None })
                    &&& final(self).status_line@ == "You can only delete your own posts"@
                },
                None => {
                    &&& action == (Action::Refresh { report: None })
                    &&& final(self).status_line == old(self).status_line
                },
            },
    {
        match session_did {
            Some(did) => {
                if str_eq(did, author_did) {
                    Action::RemovePost { uri }
                } else {
                    self.status_line = "You can only delete your own posts".to_owned();
                    Action::Refresh { report: None }
                }
            },
            None => Action::Refresh { report: None },
        }
    }

    /// Decides between following and unfollowing the author `did`, once the
    /// profile of the author is known: the viewer stops following where the
    /// profile holds the record by which the viewer follows, and follows
    /// where it holds none.
    pub fn follow_step(did: String, profile: &ProfileData) -> (action: Action)
        ensures
            action == if profile.following is Some {
                Action::Unfollow { did }
            } else {
                Action::Follow { did }
            },
    {
        match &profile.following {
            Some(_) => Action::Unfollow { did },
            None => Action::Follow { did },
        }
    }

    /// Takes the first page of the timeline that was fetched to show the
    /// timeline anew: where the timeline is on top, the page replaces what
    /// it holds, see `Feed::reloaded_from`. Where the post that was selected
    /// is still there and the selection stands within five items of the end,
    /// the page that follows is asked for at once.
    pub fn timeline_reloaded(&mut self, page: Vec<PostViewData>, cursor: Option<String>) -> (action:
        Action)
        requires
            old(self).view_stack.wf(),
        ensures
            final(self).view_stack.wf(),
            final(self).loading == old(self).loading,
            final(self).error == old(self).error,
            final(self).status_line == old(self).status_line,
            final(self).post_composer == old(self).post_composer,
            final(self).composing == old(self).composing,
            final(self).command_input == old(self).command_input,
            final(self).command_mode == old(self).command_mode,
            final(self).view_stack.views().len() == old(self).view_stack.views().len(),
            final(self).view_stack.views().drop_last() == old(self).view_stack.views().drop_last(),
            match old(self).top() {
                ListView::Timeline(before) => {
                    &&& final(self).top() matches ListView::Timeline(feed) && feed.reloaded_from(
                        &before,
                        page@,
                        cursor,
                    ) && action == if before.keeps_selection(page@) && feed.base.selected_index + 5
                        >= feed.posts@.len() {
                        Action::LoadMore { cursor }
                    } else {
                        Action::Nothing
                    }
                },
                _ => final(self).top() == old(self).top() && action is Nothing,
            },
    {
        let view = self.view_stack.current_view();
        let action = match view {
            ListView::Timeline(feed) => {
                let restored = feed.reload_feed(page, cursor);
                if restored && feed.needs_more_content() {
                    Action::LoadMore { cursor: clone_optional_string(&feed.cursor) }
                } else {
                    Action::Nothing
                }
            },
            _ => Action::Nothing,
        };
        proof {
            assert(self.view_stack.views().drop_last() =~= old(self).view_stack.views().drop_last());
        }
        action
    }

    /// `word` is empty or the name of a command.
    pub open spec fn known_command(word: Seq<char>) -> bool {
        word.len() == 0 || word == "reply"@ || word == "post"@ || word == "refresh"@ || word
            == "notifications"@ || word == "timeline"@ || word == "follow"@ || word == "like"@
            || word == "repost"@ || word == "profile"@ || word == "delete"@
    }

    /// Asks to like the selected post, or to take the like back, see
    /// `like_action`.
    pub fn handle_like_post(&self) -> (action: Action)
        requires
            self.view_stack.wf(),
        ensures
            like_action(&self.top(), &action),
    {
        match self.view_stack.current().get_selected_post() {
            Some(post) => match post.viewer_like {
                Some(like) => Action::Unlike { uri: post.uri, like },
                None => Action::Like { uri: post.uri, cid: post.cid },
            },
            None => Action::Nothing,
        }
    }

    /// Asks to repost the selected post, or to take the repost back, see
    /// `repost_action`.
    pub fn handle_repost(&self) -> (action: Action)
        requires
            self.view_stack.wf(),
        ensures
            repost_action(&self.top(), &action),
    {
        match self.view_stack.current().get_selected_post() {
            Some(post) => match post.viewer_repost {
                Some(repost) => Action::Unrepost { uri: post.uri, repost },
                None => Action::Repost { uri: post.uri, cid: post.cid },
            },
            None => Action::Nothing,
        }
    }

    /// Asks to follow the author of the selected item, or to stop following,
    /// see `follow_action`.
    pub fn handle_follow(&self) -> (action: Action)
        requires
            self.view_stack.wf(),
        ensures
            follow_action(&self.top(), &action),
    {
        match self.selected_author_did() {
            Some(did) => Action::ToggleFollow { did },
            None => Action::Nothing,
        }
    }
}

/// `prefix` followed by `message`.
pub fn prefixed(prefix: &str, message: &str) -> (text: String)
    ensures
        text@ == prefix@ + message@,
{
    let mut text = prefix.to_owned();
    text.append(message);
    text
}

} // verus!
