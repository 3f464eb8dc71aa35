use skyline::ui::app::{
    prefixed, Action, App, Failure, KeyCode, KeyEvent, KeyModifiers, MainPane, RefreshRequest,
    ScreenLayout,
};
use skyline::ui::components::author_profile::ProfileData;
use skyline::ui::components::post::types::{
    Author, Embed, NotificationData, PostViewData, QuotedRecord, Record, RecordText,
};
use skyline::ui::components::thread::{OutputThreadRefs, ParentLink};
use skyline::ui::views::{ListView, ThreadResponse};

const NONE: KeyModifiers = KeyModifiers { shift: false, control: false, alt: false, other: false };
const SHIFT: KeyModifiers = KeyModifiers { shift: true, control: false, alt: false, other: false };
const CONTROL: KeyModifiers = KeyModifiers { shift: false, control: true, alt: false, other: false };

fn key(c: char) -> KeyEvent {
    KeyEvent { code: KeyCode::Char(c), modifiers: NONE }
}

fn shifted(c: char) -> KeyEvent {
    KeyEvent { code: KeyCode::Char(c), modifiers: SHIFT }
}

fn code(code: KeyCode) -> KeyEvent {
    KeyEvent { code, modifiers: NONE }
}

fn author(handle: &str) -> Author {
    Author {
        did: format!("did:plc:{}", handle),
        handle: handle.to_string(),
        display_name: None,
        avatar: None,
        has_viewer_state: false,
        following: None,
    }
}

fn post(uri: &str, handle: &str) -> PostViewData {
    PostViewData {
        uri: uri.to_string(),
        cid: format!("cid-{}", uri),
        author: author(handle),
        record: Record {
            text: RecordText::Text("text".to_string()),
            has_reply: false,
            reply_parent: None,
        },
        indexed_at: "2024-11-05T10:00:00Z".to_string(),
        like_count: None,
        repost_count: None,
        reply_count: None,
        quote_count: None,
        viewer_like: None,
        viewer_repost: None,
        embed: Embed::Nothing,
    }
}

fn page(from: usize, count: usize) -> Vec<PostViewData> {
    (from..from + count).map(|i| post(&format!("at://post/{}", i), "alice")).collect()
}

fn app_with(posts: Vec<PostViewData>) -> App {
    let mut app = App::new();
    app.page_loaded(posts, Some("cursor-1".to_string()));
    app
}

fn type_command(app: &mut App, command: &str) -> Action {
    assert!(matches!(app.handle_input(key(':')), Action::Nothing));
    for c in command.chars() {
        assert!(matches!(app.handle_input(key(c)), Action::Nothing));
    }
    app.handle_input(code(KeyCode::Enter))
}

fn selected(app: &App) -> usize {
    match app.view_stack.current() {
        ListView::Timeline(feed) => feed.base.selected_index,
        ListView::Thread(thread) => thread.base.selected_index,
        ListView::AuthorFeed(feed) => feed.base.selected_index,
        ListView::Notifications(list) => list.base.selected_index,
    }
}

const KEYS: &str = "🌆 Press q to quit, j/k to navigate, l to like/unlike, v to view a thread, a to view a profile, and ESC to back out of one ";

#[test]
fn a_new_app_looks_at_the_empty_timeline() {
    let mut app = App::new();
    assert!(!app.loading && !app.composing && !app.command_mode);
    assert_eq!(app.error, None);
    assert!(app.post_composer.is_none());
    assert_eq!(app.view_stack.len(), 1);
    assert_eq!(app.status_line, "");
    match app.view_stack.current() {
        ListView::Timeline(feed) => {
            assert_eq!(feed.posts.len(), 0);
            assert_eq!(feed.rendered_posts.len(), 0);
            assert_eq!(feed.cursor, None);
            assert_eq!(feed.post_heights.get("at://post/0"), None);
            assert_eq!((feed.base.selected_index, feed.base.scroll_offset), (0, 0));
        }
        _ => panic!("no timeline"),
    }
    assert_eq!(app.command_input.content, "");
    assert_eq!(app.command_input.cursor_position, 0);
    assert!(app.command_input.command_history.is_empty());
    assert_eq!(app.command_input.history_position, None);
    assert_eq!(app.command_input.commands.len(), 7);
    assert!(app.command_input.tab_completion.suggestions.is_empty());
    app.update_status();
    assert_eq!(app.status_line, format!("{}1 / 0", KEYS));
    assert_eq!(app.screen_layout(), ScreenLayout::Plain);
    assert_eq!(app.main_pane(), MainPane::View);
}

#[test]
fn update_status_prefers_loading_over_errors_over_the_place() {
    let mut app = app_with(page(0, 12));
    app.update_status();
    assert_eq!(app.status_line, format!("{}1 / 12", KEYS));
    app.fail(Failure::Thread, "timeout");
    app.update_status();
    assert_eq!(app.status_line, "Failed to load thread: timeout");
    app.loading = true;
    app.update_status();
    assert_eq!(app.status_line, "Loading...");
}

#[test]
fn j_and_k_move_the_selection() {
    let mut app = app_with(page(0, 12));
    assert!(matches!(app.handle_input(key('j')), Action::Nothing));
    assert!(matches!(app.handle_input(key('j')), Action::Nothing));
    assert_eq!(selected(&app), 2);
    assert_eq!(app.status_line, format!("{}3 / 12", KEYS));
    assert!(matches!(app.handle_input(key('k')), Action::Nothing));
    assert_eq!(selected(&app), 1);
    // With a key held down along with them the letters do nothing.
    assert!(matches!(app.handle_input(shifted('j')), Action::Nothing));
    assert_eq!(selected(&app), 1);
}

#[test]
fn j_asks_for_more_near_the_end_of_the_timeline() {
    let mut app = app_with(page(0, 10));
    for _ in 0..4 {
        assert!(matches!(app.handle_input(key('j')), Action::Nothing));
        assert!(!app.loading);
    }
    match app.handle_input(key('j')) {
        Action::LoadMore { cursor } => assert_eq!(cursor, Some("cursor-1".to_string())),
        _ => panic!("no page was asked for"),
    }
    assert_eq!(selected(&app), 5);
    assert!(app.loading);
    assert_eq!(app.status_line, "Loading...");
    app.page_loaded(page(10, 10), Some("cursor-2".to_string()));
    assert!(!app.loading);
    match app.view_stack.current() {
        ListView::Timeline(feed) => {
            assert_eq!(feed.posts.len(), 20);
            assert_eq!(feed.cursor, Some("cursor-2".to_string()));
        }
        _ => panic!("no timeline"),
    }
    assert!(matches!(app.handle_input(key('j')), Action::Nothing));
}

#[test]
fn l_and_r_toggle_like_and_repost() {
    let mut liked = post("at://post/0", "alice");
    liked.viewer_like = Some("at://me/like/1".to_string());
    let mut reposted = post("at://post/1", "alice");
    reposted.viewer_repost = Some("at://me/repost/1".to_string());
    let mut app = app_with(vec![liked, reposted]);
    match app.handle_input(key('l')) {
        Action::Unlike { uri, like } => {
            assert_eq!((uri.as_str(), like.as_str()), ("at://post/0", "at://me/like/1"))
        }
        _ => panic!("the like was not taken back"),
    }
    match app.handle_input(key('r')) {
        Action::Repost { uri, cid } => {
            assert_eq!((uri.as_str(), cid.as_str()), ("at://post/0", "cid-at://post/0"))
        }
        _ => panic!("no repost"),
    }
    app.handle_input(key('j'));
    match app.handle_input(key('l')) {
        Action::Like { uri, cid } => {
            assert_eq!((uri.as_str(), cid.as_str()), ("at://post/1", "cid-at://post/1"))
        }
        _ => panic!("no like"),
    }
    match app.handle_input(key('r')) {
        Action::Unrepost { uri, repost } => {
            assert_eq!((uri.as_str(), repost.as_str()), ("at://post/1", "at://me/repost/1"))
        }
        _ => panic!("the repost was not taken back"),
    }
    let mut empty = App::new();
    assert!(matches!(empty.handle_input(key('l')), Action::Nothing));
    assert!(matches!(empty.handle_input(key('r')), Action::Nothing));
    assert!(matches!(empty.handle_input(key('f')), Action::Nothing));
    assert!(matches!(empty.handle_input(key('v')), Action::Nothing));
    assert!(matches!(empty.handle_input(key('a')), Action::Nothing));
}

#[test]
fn f_follows_the_author_of_the_selection() {
    let mut app = app_with(vec![post("at://post/0", "bob")]);
    match app.handle_input(key('f')) {
        Action::ToggleFollow { did } => assert_eq!(did, "did:plc:bob"),
        _ => panic!("nobody to follow"),
    }
    assert_eq!(app.selected_author_did(), Some("did:plc:bob".to_string()));
}

#[test]
fn v_opens_the_thread_unless_it_is_open() {
    let mut app = app_with(vec![post("at://post/0", "bob")]);
    match app.handle_input(key('v')) {
        Action::OpenThread { uri, report } => {
            assert_eq!(uri, "at://post/0");
            assert_eq!(report, Some(Failure::Thread));
        }
        _ => panic!("no thread was asked for"),
    }
    let thread = OutputThreadRefs::AppBskyFeedDefsThreadViewPost {
        post: post("at://post/0", "bob"),
        parent: ParentLink::Absent,
        replies: None,
    };
    assert!(app.view_stack.push_thread_view(ThreadResponse::Refs(thread)).is_ok());
    assert!(matches!(app.handle_input(key('v')), Action::Nothing));
    assert_eq!(app.main_pane(), MainPane::View);
    assert!(matches!(
        app.refresh_request(),
        RefreshRequest::Thread { anchor_uri } if anchor_uri == "at://post/0"
    ));
    assert!(matches!(app.handle_input(code(KeyCode::Esc)), Action::Nothing));
    assert_eq!(app.view_stack.len(), 1);
    assert!(matches!(app.handle_input(code(KeyCode::Esc)), Action::Nothing));
    assert_eq!(app.view_stack.len(), 1);
}

#[test]
fn capital_v_opens_the_thread_of_the_quoted_post() {
    let mut quoting = post("at://post/0", "bob");
    quoting.embed = Embed::Quote(QuotedRecord {
        uri: "at://quoted/9".to_string(),
        cid: "cid-q".to_string(),
        author: author("carol"),
        record: Record { text: RecordText::Missing, has_reply: false, reply_parent: None },
        indexed_at: "2024-11-05T10:00:00Z".to_string(),
        like_count: None,
        repost_count: None,
        reply_count: None,
        quote_count: None,
        images: None,
    });
    let mut app = app_with(vec![quoting, post("at://post/1", "bob")]);
    match app.handle_input(shifted('V')) {
        Action::OpenThread { uri, report } => {
            assert_eq!(uri, "at://quoted/9");
            assert_eq!(report, Some(Failure::QuotedThread));
        }
        _ => panic!("no thread was asked for"),
    }
    assert!(matches!(app.handle_input(key('V')), Action::Nothing));
    app.handle_input(key('j'));
    assert!(matches!(app.handle_input(shifted('V')), Action::Nothing));
}

#[test]
fn n_opens_the_notifications_once() {
    let mut app = app_with(page(0, 3));
    assert!(matches!(app.handle_input(key('n')), Action::LoadNotifications { report: None }));
    assert_eq!(app.view_stack.len(), 2);
    assert!(app.loading);
    assert!(matches!(app.refresh_request(), RefreshRequest::Notifications));
    let notification = NotificationData {
        uri: "at://n/1".to_string(),
        cid: "cid-n".to_string(),
        author: author("dave"),
        reason: "follow".to_string(),
        is_read: true,
        indexed_at: "2024-11-05T10:00:00Z".to_string(),
    };
    app.notifications_loaded(vec![notification]);
    assert!(!app.loading);
    assert!(matches!(app.handle_input(key('n')), Action::LoadNotifications { report: None }));
    assert_eq!(app.view_stack.len(), 2);
    app.notifications_loaded(vec![]);
    assert!(matches!(app.handle_input(key('a')), Action::Nothing));
    assert!(matches!(app.handle_input(key('f')), Action::Nothing));
}

#[test]
fn a_opens_the_author_of_a_notification() {
    let mut app = App::new();
    app.handle_input(key('n'));
    app.notifications_loaded(vec![NotificationData {
        uri: "at://n/1".to_string(),
        cid: "cid-n".to_string(),
        author: author("dave"),
        reason: "follow".to_string(),
        is_read: true,
        indexed_at: "2024-11-05T10:00:00Z".to_string(),
    }]);
    match app.handle_input(key('a')) {
        Action::OpenAuthorFeed { did, report } => {
            assert_eq!(did, "did:plc:dave");
            assert_eq!(report, Some(Failure::AuthorFeed));
        }
        _ => panic!("no author was asked for"),
    }
    app.update_status();
    assert_eq!(app.status_line, format!("{}1 / 1", KEYS));
}

#[test]
fn a_opens_the_author_unless_their_posts_are_shown() {
    let mut app = app_with(vec![post("at://post/0", "bob")]);
    assert!(matches!(
        app.handle_input(key('a')),
        Action::OpenAuthorFeed { did, .. } if did == "did:plc:bob"
    ));
    let profile = |handle: &str| ProfileData {
        did: format!("did:plc:{}", handle),
        handle: handle.to_string(),
        display_name: None,
        description: None,
        avatar: None,
        posts_count: None,
        follows_count: None,
        followers_count: None,
        following: None,
    };
    app.view_stack.push_author_feed_view(profile("bob"), vec![post("at://post/0", "bob")]);
    assert!(matches!(app.handle_input(key('a')), Action::Nothing));
    assert!(matches!(
        app.refresh_request(),
        RefreshRequest::AuthorFeed { did } if did == "did:plc:bob"
    ));
    app.view_stack.push_author_feed_view(profile("carol"), vec![post("at://post/5", "bob")]);
    assert!(matches!(app.handle_input(key('a')), Action::OpenAuthorFeed { .. }));
    assert!(matches!(app.handle_input(shifted('A')), Action::OpenOwnProfile));
    assert!(matches!(app.handle_input(key('A')), Action::Nothing));
}

#[test]
fn the_command_line_takes_text_and_leaves_with_escape() {
    let mut app = app_with(page(0, 3));
    app.handle_input(key(':'));
    assert!(app.command_mode);
    assert_eq!(app.screen_layout(), ScreenLayout::WithCommand);
    app.handle_input(key('j'));
    app.handle_input(shifted('K'));
    app.handle_input(KeyEvent { code: KeyCode::Char('x'), modifiers: CONTROL });
    assert_eq!(app.command_input.content, "jK");
    assert_eq!(selected(&app), 0);
    app.handle_input(code(KeyCode::Left));
    app.handle_input(code(KeyCode::Backspace));
    assert_eq!(app.command_input.content, "K");
    app.handle_input(code(KeyCode::Right));
    assert_eq!(app.command_input.cursor_position, 1);
    assert!(!app.should_quit(key('q')));
    app.handle_input(code(KeyCode::Esc));
    assert!(!app.command_mode);
    assert_eq!(app.command_input.content, "");
    assert!(app.should_quit(key('q')));
    assert!(!app.should_quit(key('x')));
}

#[test]
fn enter_runs_the_command_in_lower_case() {
    let mut app = app_with(page(0, 3));
    assert!(matches!(
        type_command(&mut app, "REFRESH now"),
        Action::Refresh { report: Some(Failure::Command) }
    ));
    assert!(!app.command_mode);
    assert_eq!(app.command_input.command_history, ["REFRESH now"]);
    app.handle_input(key(':'));
    assert!(matches!(app.handle_input(code(KeyCode::Enter)), Action::Nothing));
    assert!(app.command_mode);
    app.handle_input(code(KeyCode::Up));
    assert_eq!(app.command_input.content, "REFRESH now");
    app.handle_input(code(KeyCode::Down));
    assert_eq!(app.command_input.content, "");
    app.handle_input(key('t'));
    app.handle_input(code(KeyCode::Tab));
    assert_eq!(app.command_input.content, "timeline");
}

#[test]
fn commands_ask_for_what_they_name() {
    let mut app = app_with(vec![post("at://post/0", "bob")]);
    assert!(matches!(
        app.handle_command("reply"),
        Action::Reply { uri, open_thread: true } if uri == "at://post/0"
    ));
    assert!(matches!(app.handle_command("like"), Action::Like { .. }));
    assert!(matches!(app.handle_command("repost"), Action::Repost { .. }));
    assert!(matches!(app.handle_command("follow"), Action::ToggleFollow { .. }));
    assert!(matches!(
        app.handle_command("delete"),
        Action::DeletePost { uri, author_did } if uri == "at://post/0" && author_did == "did:plc:bob"
    ));
    assert!(matches!(
        app.handle_command("profile carol.test"),
        Action::OpenProfileByHandle { handle } if handle == "carol.test"
    ));
    assert!(matches!(
        app.handle_command("profile"),
        Action::OpenAuthorFeed { did, report: None } if did == "did:plc:bob"
    ));
    assert!(matches!(app.handle_command(""), Action::Nothing));
    assert!(matches!(app.handle_command("   "), Action::Nothing));
    assert!(matches!(
        app.handle_command("notifications"),
        Action::LoadNotifications { report: Some(Failure::Command) }
    ));
    assert_eq!(app.view_stack.len(), 2);
    assert!(app.loading);
    assert!(matches!(app.handle_command("notifications"), Action::LoadNotifications { .. }));
    assert_eq!(app.view_stack.len(), 3);
    assert!(matches!(app.handle_command("reply"), Action::Nothing));
    assert!(matches!(app.handle_command("delete"), Action::Nothing));
    assert!(matches!(app.handle_command("timeline"), Action::Nothing));
    assert_eq!(app.view_stack.len(), 1);
}

#[test]
fn an_unknown_command_is_answered_in_the_status_line() {
    let mut app = app_with(page(0, 2));
    assert!(matches!(app.handle_command("dance wildly"), Action::Nothing));
    assert_eq!(app.status_line, "Unknown command: dance wildly");
    // After a key the status line says what goes on again.
    assert!(matches!(type_command(&mut app, "dance"), Action::Nothing));
    assert_eq!(app.status_line, format!("{}1 / 2", KEYS));
}

#[test]
fn post_command_opens_the_composer() {
    let mut app = app_with(page(0, 2));
    assert!(matches!(type_command(&mut app, "post"), Action::Nothing));
    assert!(app.composing);
    assert_eq!(app.screen_layout(), ScreenLayout::Composing);
    assert_eq!(app.main_pane(), MainPane::Composer);
    assert!(!app.should_quit(key('q')));
    for c in "Hi!".chars() {
        let event = if c.is_uppercase() { shifted(c) } else { key(c) };
        assert!(matches!(app.handle_input(event), Action::Nothing));
    }
    app.handle_input(key('j'));
    app.handle_input(code(KeyCode::Backspace));
    app.handle_input(code(KeyCode::Left));
    app.handle_input(key('?'));
    app.handle_input(code(KeyCode::Right));
    assert_eq!(app.post_composer.as_ref().unwrap().get_content(), "Hi?!");
    assert_eq!(selected(&app), 0);
    match app.handle_input(KeyEvent { code: KeyCode::Char('s'), modifiers: CONTROL }) {
        Action::CreatePost { content, reply_to } => {
            assert_eq!(content, "Hi?!");
            assert_eq!(reply_to, None);
        }
        _ => panic!("nothing to publish"),
    }
    assert!(app.composing);
    assert!(matches!(app.post_created(), Action::LoadInitial));
    assert!(!app.composing);
    assert!(app.post_composer.is_none());
    assert_eq!(app.status_line, "Post created successfully");
}

#[test]
fn escape_gives_the_post_up() {
    let mut app = app_with(page(0, 2));
    app.begin_reply("at://post/1".to_string());
    assert!(app.composing);
    assert_eq!(app.post_composer.as_ref().unwrap().reply_to, Some("at://post/1".to_string()));
    app.handle_input(key('x'));
    assert!(matches!(app.handle_input(code(KeyCode::Esc)), Action::Nothing));
    assert!(!app.composing);
    assert!(app.post_composer.is_none());
    assert_eq!(app.view_stack.len(), 1);
}

#[test]
fn a_post_written_in_a_thread_reloads_the_thread() {
    let mut app = app_with(page(0, 1));
    let thread = OutputThreadRefs::AppBskyFeedDefsThreadViewPost {
        post: post("at://post/0", "bob"),
        parent: ParentLink::Absent,
        replies: None,
    };
    assert!(app.view_stack.push_thread_view(ThreadResponse::Refs(thread)).is_ok());
    assert!(matches!(
        app.handle_command("reply"),
        Action::Reply { open_thread: false, .. }
    ));
    app.begin_reply("at://post/0".to_string());
    assert_eq!(app.main_pane(), MainPane::AnchorAndComposer);
    assert!(matches!(
        app.post_created(),
        Action::OpenThread { uri, report: None } if uri == "at://post/0"
    ));
}

#[test]
fn failures_are_named() {
    let mut app = App::new();
    let expected = [
        (Failure::Command, "Command error: x"),
        (Failure::CreatePost, "Failed to create post: x"),
        (Failure::Thread, "Failed to load thread: x"),
        (Failure::QuotedThread, "Failed to load quoted thread: x"),
        (Failure::AuthorFeed, "Failed to load author feed: x"),
        (Failure::OwnProfile, "Failed to load your profile: x"),
        (Failure::RefreshView, "Failed to refresh view: x"),
        (Failure::GetProfile, "Failed to get profile: x"),
        (Failure::DeletePost, "Failed to delete post: x"),
    ];
    for (failure, text) in expected {
        app.fail(failure, "x");
        assert_eq!(app.error, Some(text.to_string()));
    }
    assert_eq!(prefixed("a: ", "b"), "a: b");
}

#[test]
fn delete_outcomes_are_told_in_the_status_line() {
    let mut app = App::new();
    app.post_deleted();
    assert_eq!(app.status_line, "Post deleted successfully");
}

#[test]
fn only_the_author_may_delete_a_post() {
    let mut app = app_with(page(0, 3));
    app.status_line = "before".to_string();
    let action = app.delete_step("at://post/0".to_string(), "did:plc:bob", Some("did:plc:bob"));
    assert!(matches!(action, Action::RemovePost { uri } if uri == "at://post/0"));
    assert_eq!(app.status_line, "before");

    let action = app.delete_step("at://post/0".to_string(), "did:plc:bob", Some("did:plc:alice"));
    assert!(matches!(action, Action::Refresh { report: None }));
    assert_eq!(app.status_line, "You can only delete your own posts");
    assert_eq!(app.view_stack.len(), 1);
    assert!(app.error.is_none());
    match app.view_stack.current() {
        ListView::Timeline(feed) => assert_eq!(feed.posts.len(), 3),
        _ => panic!("no timeline"),
    }

    app.status_line = "before".to_string();
    let action = app.delete_step("at://post/0".to_string(), "did:plc:bob", None);
    assert!(matches!(action, Action::Refresh { report: None }));
    assert_eq!(app.status_line, "before");
}

#[test]
fn follow_step_follows_or_stops_following() {
    let mut profile = ProfileData {
        did: "did:plc:bob".to_string(),
        handle: "bob.test".to_string(),
        display_name: None,
        description: None,
        avatar: None,
        posts_count: None,
        follows_count: None,
        followers_count: None,
        following: None,
    };
    let action = App::follow_step("did:plc:bob".to_string(), &profile);
    assert!(matches!(action, Action::Follow { did } if did == "did:plc:bob"));
    profile.following = Some("at://follow/1".to_string());
    let action = App::follow_step("did:plc:bob".to_string(), &profile);
    assert!(matches!(action, Action::Unfollow { did } if did == "did:plc:bob"));
}

#[test]
fn a_reloaded_timeline_asks_for_more_near_its_end() {
    let mut app = app_with(page(0, 10));
    if let ListView::Timeline(feed) = app.view_stack.current_view() {
        feed.base.selected_index = 6;
        feed.base.scroll_offset = 5;
    }
    let action = app.timeline_reloaded(page(0, 10), Some("next".to_string()));
    assert!(matches!(action, Action::LoadMore { cursor } if cursor == Some("next".to_string())));
    assert_eq!(selected(&app), 6);

    let action = app.timeline_reloaded(page(0, 20), Some("next".to_string()));
    assert!(matches!(action, Action::Nothing));
    match app.view_stack.current() {
        ListView::Timeline(feed) => {
            assert_eq!(feed.posts.len(), 20);
            assert_eq!(feed.cursor, Some("next".to_string()));
        }
        _ => panic!("no timeline"),
    }
}

#[test]
fn a_reloaded_timeline_that_lost_the_selection_asks_for_nothing() {
    let mut app = app_with(page(0, 10));
    if let ListView::Timeline(feed) = app.view_stack.current_view() {
        feed.base.selected_index = 9;
        feed.base.scroll_offset = 8;
    }
    let action = app.timeline_reloaded(page(20, 3), None);
    assert!(matches!(action, Action::Nothing));
    match app.view_stack.current() {
        ListView::Timeline(feed) => {
            assert_eq!(feed.posts.len(), 3);
            assert_eq!((feed.base.selected_index, feed.base.scroll_offset), (2, 2));
        }
        _ => panic!("no timeline"),
    }
}

#[test]
fn update_post_reaches_the_view_on_top() {
    let mut app = app_with(page(0, 3));
    let mut fresh = post("at://post/1", "alice");
    fresh.like_count = Some(5);
    app.update_post(fresh);
    match app.view_stack.current() {
        ListView::Timeline(feed) => assert_eq!(feed.posts[1].like_count, Some(5)),
        _ => panic!("no timeline"),
    }
    assert!(matches!(app.refresh_request(), RefreshRequest::Timeline));
}

#[test]
fn a_reloaded_thread_replaces_the_thread_on_top() {
    let mut app = app_with(page(0, 3));
    let thread = |text: &str| {
        let mut anchor = post("at://post/0", "bob");
        anchor.record.text = RecordText::Text(text.to_string());
        OutputThreadRefs::AppBskyFeedDefsThreadViewPost {
            post: anchor,
            parent: ParentLink::Absent,
            replies: None,
        }
    };
    // The timeline is on top: the thread is passed over.
    assert!(app.thread_reloaded(thread("first")));
    assert!(matches!(app.view_stack.current(), ListView::Timeline(feed) if feed.posts.len() == 3));
    assert!(app.view_stack.push_thread_view(ThreadResponse::Refs(thread("first"))).is_ok());
    if let ListView::Thread(open) = app.view_stack.current_view() {
        open.base.selected_index = 7;
        open.base.scroll_offset = 7;
    }
    assert!(app.thread_reloaded(thread("second")));
    assert_eq!(app.view_stack.len(), 2);
    match app.view_stack.current() {
        ListView::Thread(open) => {
            assert_eq!(open.posts.len(), 1);
            assert_eq!(open.rendered_posts[0].content.text, "second");
            assert_eq!((open.base.selected_index, open.base.scroll_offset), (0, 0));
        }
        _ => panic!("no thread"),
    }
}

#[test]
fn reloaded_posts_of_an_author_replace_those_on_top() {
    let mut app = app_with(page(0, 3));
    let profile = ProfileData {
        did: "did:plc:bob".to_string(),
        handle: "bob".to_string(),
        display_name: None,
        description: None,
        avatar: None,
        posts_count: None,
        follows_count: None,
        followers_count: None,
        following: None,
    };
    app.author_posts_reloaded(page(5, 1));
    assert!(matches!(app.view_stack.current(), ListView::Timeline(feed) if feed.posts.len() == 3));
    app.view_stack.push_author_feed_view(profile, page(0, 4));
    if let ListView::AuthorFeed(feed) = app.view_stack.current_view() {
        feed.base.selected_index = 3;
        feed.base.scroll_offset = 2;
    }
    app.author_posts_reloaded(page(5, 2));
    match app.view_stack.current() {
        ListView::AuthorFeed(feed) => {
            assert_eq!(feed.posts.len(), 2);
            assert_eq!(feed.posts[0].uri, "at://post/5");
            assert_eq!((feed.base.selected_index, feed.base.scroll_offset), (1, 1));
        }
        _ => panic!("no posts of an author"),
    }
}

#[test]
fn a_new_notification_goes_to_the_notifications_on_top() {
    let notification = |uri: &str| NotificationData {
        uri: uri.to_string(),
        cid: "cid-n".to_string(),
        author: author("dave"),
        reason: "like".to_string(),
        is_read: false,
        indexed_at: "2024-11-05T10:00:00Z".to_string(),
    };
    let mut app = app_with(page(0, 3));
    assert!(!app.shows_notifications());
    app.notification_arrived("at://n/1".to_string(), Some(notification("at://n/1")));
    assert!(matches!(app.view_stack.current(), ListView::Timeline(feed) if feed.posts.len() == 3));
    app.view_stack.push_notifications_view();
    assert!(app.shows_notifications());
    app.notification_arrived("at://n/1".to_string(), Some(notification("at://n/1")));
    app.notification_arrived("at://n/2".to_string(), Some(notification("at://n/2")));
    app.notification_arrived("at://n/2".to_string(), Some(notification("at://n/2")));
    app.notification_arrived("at://n/3".to_string(), None);
    match app.view_stack.current() {
        ListView::Notifications(list) => {
            assert_eq!(list.notifications.len(), 2);
            assert_eq!(list.notifications[0].uri, "at://n/2");
            assert_eq!(list.notification_heights.get("at://n/1"), Some(3));
        }
        _ => panic!("no notifications"),
    }
}

#[test]
fn key_modifiers_are_told_apart() {
    assert!(NONE.none() && !NONE.shift_only() && !NONE.control_only());
    assert!(SHIFT.shift_only() && !SHIFT.none());
    assert!(CONTROL.control_only() && !CONTROL.none());
    let both = KeyModifiers { shift: true, control: true, alt: false, other: false };
    assert!(!both.none() && !both.shift_only() && !both.control_only());
}
