use skyline::ui::components::author_profile::ProfileData;
use skyline::ui::components::post::types::{
    Author, ContentItem, Embed, NotificationData, PostViewData, Record, RecordText,
};
use skyline::ui::components::post_list::{clamp_cursor, PostListBase};
use skyline::ui::components::thread::{OutputThreadRefs, ParentLink, ThreadViewPostRepliesItem};
use skyline::ui::views::{find_position, ListView, ThreadResponse, ViewError, ViewStack};
use std::collections::VecDeque;

fn post(uri: &str, text: &str, parent: Option<&str>) -> PostViewData {
    PostViewData {
        uri: uri.to_string(),
        cid: format!("cid-{}", uri),
        author: Author {
            did: "did:plc:alice".to_string(),
            handle: "alice.test".to_string(),
            display_name: None,
            avatar: None,
            has_viewer_state: false,
            following: None,
        },
        record: Record {
            text: RecordText::Text(text.to_string()),
            has_reply: parent.is_some(),
            reply_parent: parent.map(|p| p.to_string()),
        },
        indexed_at: "2024-11-05T10:00:00Z".to_string(),
        like_count: Some(1),
        repost_count: None,
        reply_count: None,
        quote_count: None,
        viewer_like: None,
        viewer_repost: None,
        embed: Embed::Nothing,
    }
}

fn page(count: usize) -> Vec<PostViewData> {
    (0..count).map(|i| post(&format!("at://post/{}", i), "text", None)).collect()
}

fn profile() -> ProfileData {
    ProfileData {
        did: "did:plc:alice".to_string(),
        handle: "alice.test".to_string(),
        display_name: None,
        description: None,
        avatar: None,
        posts_count: None,
        follows_count: None,
        followers_count: None,
        following: None,
    }
}

fn thread_data() -> OutputThreadRefs {
    OutputThreadRefs::AppBskyFeedDefsThreadViewPost {
        post: post("at://a", "anchor", None),
        parent: ParentLink::Absent,
        replies: Some(vec![
            ThreadViewPostRepliesItem::ThreadViewPost(post("at://r1", "one", Some("at://a"))),
            ThreadViewPostRepliesItem::ThreadViewPost(post("at://r2", "two", Some("at://a"))),
        ]),
    }
}

fn timeline(count: usize) -> ViewStack {
    let mut stack = ViewStack::new();
    if let ListView::Timeline(feed) = stack.current_view() {
        feed.load_initial_posts(page(count), None);
    }
    stack
}

fn selected(view: &ListView) -> usize {
    match view {
        ListView::Timeline(feed) => feed.base.selected_index,
        ListView::Thread(thread) => thread.base.selected_index,
        ListView::AuthorFeed(feed) => feed.base.selected_index,
        ListView::Notifications(list) => list.base.selected_index,
    }
}

#[test]
fn a_new_stack_rests_on_the_timeline() {
    let mut stack = ViewStack::new();
    assert_eq!(stack.len(), 1);
    assert!(matches!(stack.current(), ListView::Timeline(_)));
    assert!(matches!(stack.current_view(), ListView::Timeline(_)));
    assert!(stack.current().get_selected_post().is_none());
}

#[test]
fn the_timeline_is_never_popped() {
    let mut stack = ViewStack::new();
    assert!(stack.pop_view().is_none());
    assert_eq!(stack.len(), 1);
    stack.push_notifications_view();
    assert_eq!(stack.len(), 2);
    assert!(matches!(stack.current(), ListView::Notifications(_)));
    assert!(matches!(stack.pop_view(), Some(ListView::Notifications(_))));
    assert!(stack.pop_view().is_none());
    assert!(matches!(stack.current(), ListView::Timeline(_)));
}

#[test]
fn push_thread_view_opens_the_thread() {
    let mut stack = timeline(3);
    let result = stack.push_thread_view(ThreadResponse::Refs(thread_data()));
    assert!(result.is_ok());
    assert_eq!(stack.len(), 2);
    match stack.current() {
        ListView::Thread(thread) => {
            assert_eq!(thread.posts.len(), 3);
            assert_eq!(thread.anchor_uri, "at://a");
            let relationships = thread.cached_relationships.as_ref().unwrap();
            assert_eq!(relationships.get_indent_level("at://r2"), 1);
        }
        _ => panic!("no thread on top"),
    }
}

#[test]
fn push_thread_view_leaves_the_stack_alone_on_failure() {
    let mut stack = timeline(3);
    let result = stack
        .push_thread_view(ThreadResponse::Unknown("app.test#odd".to_string(), "Null".to_string()));
    match result {
        Err(error) => {
            assert_eq!(error.message(), "Unknown thread data type: app.test#odd, data: Null");
            let ViewError::UnknownThread { kind, data } = error;
            assert_eq!((kind.as_str(), data.as_str()), ("app.test#odd", "Null"));
        }
        Ok(()) => panic!("something was pushed"),
    }
    assert_eq!(stack.len(), 1);
    assert!(matches!(stack.current(), ListView::Timeline(feed) if feed.posts.len() == 3));
}

#[test]
fn push_author_feed_view_opens_profile_and_posts() {
    let mut stack = timeline(1);
    stack.push_author_feed_view(profile(), page(4));
    assert_eq!(stack.len(), 2);
    match stack.current() {
        ListView::AuthorFeed(feed) => {
            assert_eq!(feed.posts.len(), 4);
            assert_eq!(feed.profile.profile.did, "did:plc:alice");
            assert_eq!(feed.profile.height(), 8);
        }
        _ => panic!("no author feed on top"),
    }
}

#[test]
fn pop_to_timeline_closes_everything_above() {
    let mut stack = timeline(2);
    stack.push_notifications_view();
    stack.push_author_feed_view(profile(), page(1));
    let _ = stack.push_thread_view(ThreadResponse::Refs(thread_data()));
    assert_eq!(stack.len(), 4);
    stack.pop_to_timeline();
    assert_eq!(stack.len(), 1);
    assert!(matches!(stack.current(), ListView::Timeline(feed) if feed.posts.len() == 2));
}

#[test]
fn what_is_done_to_the_current_view_stays() {
    let mut stack = timeline(10);
    stack.current_view().scroll_down();
    stack.current_view().scroll_down();
    assert_eq!(selected(stack.current()), 2);
    stack.push_notifications_view();
    assert_eq!(selected(stack.current()), 0);
    let _ = stack.pop_view();
    assert_eq!(selected(stack.current()), 2);
    stack.current_view().scroll_up();
    assert_eq!(selected(stack.current()), 1);
}

#[test]
fn update_post_then_selected_post_gives_the_update() {
    let mut stack = timeline(5);
    stack.current_view().scroll_down();
    stack.current_view().scroll_down();
    let mut fresh = post("at://post/2", "edited", None);
    fresh.like_count = Some(99);
    fresh.viewer_like = Some("at://me/like/7".to_string());
    stack.current_view().update_post(fresh);
    let shown = stack.current().get_selected_post().unwrap();
    assert_eq!(shown.uri, "at://post/2");
    assert_eq!(shown.like_count, Some(99));
    assert_eq!(shown.viewer_like, Some("at://me/like/7".to_string()));
    assert!(matches!(&shown.record.text, RecordText::Text(text) if text == "edited"));
    match stack.current() {
        ListView::Timeline(feed) => {
            assert_eq!(feed.posts.len(), 5);
            assert_eq!(feed.rendered_posts[2].stats.likes, 99);
            assert_eq!(feed.rendered_posts[2].content.text, "edited");
            assert_eq!(feed.posts[1].like_count, Some(1));
            assert_eq!(feed.base.selected_index, 2);
        }
        _ => panic!("no timeline"),
    }
}

#[test]
fn update_post_without_a_match_changes_nothing() {
    let mut stack = timeline(2);
    stack.current_view().update_post(post("at://other", "x", None));
    assert_eq!(stack.current().get_all_post_uris(), ["at://post/0", "at://post/1"]);
    stack.push_notifications_view();
    stack.current_view().update_post(post("at://post/0", "x", None));
    assert!(stack.current().get_all_post_uris().is_empty());
}

#[test]
fn update_post_in_a_thread_keeps_the_indent() {
    let mut stack = timeline(1);
    let _ = stack.push_thread_view(ThreadResponse::Refs(thread_data()));
    stack.current_view().update_post(post("at://r1", "edited", Some("at://a")));
    match stack.current() {
        ListView::Thread(thread) => {
            assert_eq!(thread.rendered_posts[1].context.indent_level, 1);
            assert_eq!(thread.rendered_posts[1].content.text, "edited");
            assert_eq!(thread.posts.len(), 3);
        }
        _ => panic!("no thread"),
    }
}

#[test]
fn removing_the_only_post_leaves_a_valid_empty_list() {
    let mut stack = timeline(1);
    assert!(stack.current().get_selected_post().is_some());
    stack.current_view().remove_post("at://post/0");
    assert!(stack.current().get_selected_post().is_none());
    assert!(stack.current().get_all_post_uris().is_empty());
    assert_eq!(selected(stack.current()), 0);
    stack.current_view().scroll_down();
    stack.current_view().scroll_up();
    stack.current_view().remove_post("at://post/0");
    assert_eq!(selected(stack.current()), 0);
    match stack.current() {
        ListView::Timeline(feed) => assert_eq!(feed.rendered_posts.len(), 0),
        _ => panic!("no timeline"),
    }
}

#[test]
fn removing_the_last_post_brings_the_selection_back() {
    let mut stack = timeline(3);
    stack.current_view().scroll_down();
    stack.current_view().scroll_down();
    stack.current_view().remove_post("at://post/2");
    assert_eq!(stack.current().get_all_post_uris(), ["at://post/0", "at://post/1"]);
    assert_eq!(selected(stack.current()), 1);
    assert_eq!(stack.current().get_selected_post().unwrap().uri, "at://post/1");
    stack.current_view().remove_post("at://nothing");
    assert_eq!(stack.current().get_all_post_uris().len(), 2);
}

#[test]
fn removing_from_a_thread_works_the_relationships_out_anew() {
    let mut stack = timeline(1);
    let _ = stack.push_thread_view(ThreadResponse::Refs(thread_data()));
    stack.current_view().remove_post("at://r1");
    match stack.current() {
        ListView::Thread(thread) => {
            let relationships = thread.cached_relationships.as_ref().unwrap();
            assert!(!relationships.is_visible("at://r1"));
            assert!(relationships.is_visible("at://r2"));
            assert_eq!(thread.posts.len(), 2);
            assert_eq!(thread.rendered_posts.len(), 2);
        }
        _ => panic!("no thread"),
    }
}

#[test]
fn can_view_thread_unless_it_is_open() {
    let mut stack = timeline(1);
    assert!(stack.current().can_view_thread("at://a"));
    let _ = stack.push_thread_view(ThreadResponse::Refs(thread_data()));
    assert!(!stack.current().can_view_thread("at://a"));
    assert!(stack.current().can_view_thread("at://r1"));
}

#[test]
fn find_position_and_clamp_cursor() {
    let posts: VecDeque<PostViewData> = page(3).into();
    assert_eq!(find_position(&posts, "at://post/2"), Some(2));
    assert_eq!(find_position(&posts, "at://post/3"), None);
    let mut base = PostListBase { selected_index: 7, scroll_offset: 5, last_known_height: 20 };
    clamp_cursor(&mut base, 3);
    assert_eq!((base.selected_index, base.scroll_offset, base.last_known_height), (2, 2, 20));
    clamp_cursor(&mut base, 0);
    assert_eq!((base.selected_index, base.scroll_offset), (0, 0));
    let mut base = PostListBase { selected_index: 1, scroll_offset: 0, last_known_height: 20 };
    clamp_cursor(&mut base, 3);
    assert_eq!((base.selected_index, base.scroll_offset), (1, 0));
}

#[test]
fn update_post_forgets_the_height_when_the_content_changes() {
    let mut stack = timeline(3);
    if let ListView::Timeline(feed) = stack.current_view() {
        feed.post_heights.insert("at://post/0".to_string(), 5);
        feed.post_heights.insert("at://post/1".to_string(), 5);
    }
    // Other counts do not change the height: it stays remembered.
    let mut liked = post("at://post/0", "text", None);
    liked.like_count = Some(12);
    stack.current_view().update_post(liked);
    // Another text may need other rows: the height is forgotten.
    stack.current_view().update_post(post("at://post/1", "text\nthat\ngrew", None));
    match stack.current() {
        ListView::Timeline(feed) => {
            assert_eq!(feed.post_heights.get("at://post/0"), Some(5));
            assert_eq!(feed.post_heights.get("at://post/1"), None);
        }
        _ => panic!("no timeline"),
    }
}

#[test]
fn selected_item_is_a_post_or_a_notification() {
    let mut stack = timeline(2);
    stack.current_view().scroll_down();
    match stack.current().selected_item() {
        Some(item) => {
            assert_eq!(item.uri(), "at://post/1");
            assert!(matches!(item, ContentItem::Post(_)));
        }
        None => panic!("nothing selected"),
    }
    stack.push_notifications_view();
    assert!(stack.current().selected_item().is_none());
    if let ListView::Notifications(list) = stack.current_view() {
        list.load_notifications(vec![NotificationData {
            uri: "at://n/1".to_string(),
            cid: "cid-n".to_string(),
            author: Author {
                did: "did:plc:bob".to_string(),
                handle: "bob.test".to_string(),
                display_name: None,
                avatar: None,
                has_viewer_state: false,
                following: None,
            },
            reason: "like".to_string(),
            is_read: false,
            indexed_at: "2024-11-05T10:00:00Z".to_string(),
        }]);
    }
    match stack.current().selected_item() {
        Some(ContentItem::Notification(notification)) => assert_eq!(notification.reason, "like"),
        _ => panic!("no notification selected"),
    }
    stack.current_view().remove_post("at://n/1");
    assert!(stack.current().selected_item().is_some());
}
