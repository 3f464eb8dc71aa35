use skyline::ui::components::height_cache::HeightCache;
use skyline::ui::components::post::content::PostContent;
use skyline::ui::components::post::header::{FollowingStatus, PostHeader};
use skyline::ui::components::post::images::PostImages;
use skyline::ui::components::post::quoted_post::QuotedPost;
use skyline::ui::components::post::stats::PostStats;
use skyline::ui::components::post::avatar::PostAvatar;
use skyline::ui::components::post::types::{
    Author, Embed, ImageData, PostComponent, PostContext, PostViewData, QuotedRecord, Record,
    RecordText,
};
use skyline::ui::components::post::{PartPlace, Post, PostPart};
use skyline::ui::components::post_list::PostListBase;
use skyline::ui::components::text::{
    columns_for_text, count_lines, decimal_text, first_word_of, last_word_before,
    rows_from_count, second_word_of, with_char_at, without_char_at, wrapped_line_count,
};
use skyline::ui::layout::Rect;

const SENTENCE: &str = "Memory safety without garbage collection.";

fn author(handle: &str) -> Author {
    Author {
        did: format!("did:plc:{}", handle),
        handle: handle.to_string(),
        display_name: None,
        avatar: None,
        has_viewer_state: false,
        following: None,
    }
}

fn record(text: RecordText) -> Record {
    Record { text, has_reply: false, reply_parent: None }
}

fn post(uri: &str, text: RecordText, embed: Embed) -> PostViewData {
    PostViewData {
        uri: uri.to_string(),
        cid: format!("cid-{}", uri),
        author: author("alice.test"),
        record: record(text),
        indexed_at: "2024-11-05T10:00:00Z".to_string(),
        like_count: Some(3),
        repost_count: None,
        reply_count: Some(1),
        quote_count: None,
        viewer_like: None,
        viewer_repost: None,
        embed,
    }
}

fn text_post(uri: &str, text: &str) -> PostViewData {
    post(uri, RecordText::Text(text.to_string()), Embed::Nothing)
}

fn image(alt: &str) -> ImageData {
    ImageData {
        thumb: "https://cdn.test/thumb.jpg".to_string(),
        fullsize: "https://cdn.test/full.jpg".to_string(),
        alt: alt.to_string(),
    }
}

fn quoted(text: &str, images: Option<Vec<ImageData>>) -> QuotedRecord {
    QuotedRecord {
        uri: "at://quoted/1".to_string(),
        cid: "cid-quoted".to_string(),
        author: author("bob.test"),
        record: record(RecordText::Text(text.to_string())),
        indexed_at: "2024-11-04T10:00:00Z".to_string(),
        like_count: Some(7),
        repost_count: Some(2),
        reply_count: None,
        quote_count: None,
        images,
    }
}

fn area(width: u16, height: u16) -> Rect {
    Rect { x: 0, y: 0, width, height }
}

#[test]
fn count_lines_follows_line_feeds() {
    assert_eq!(count_lines(""), 0);
    assert_eq!(count_lines("one"), 1);
    assert_eq!(count_lines("one\n"), 1);
    assert_eq!(count_lines("one\ntwo"), 2);
    assert_eq!(count_lines("one\r\ntwo\r\n"), 2);
    assert_eq!(count_lines("\n"), 1);
    assert_eq!(count_lines("a\n\n"), 2);
    assert_eq!(count_lines("a\n\nb"), 3);
    assert_eq!(count_lines("héllo\nwörld"), 2);
}

#[test]
fn count_lines_agrees_with_std_lines() {
    for text in ["", "x", "x\n", "\n\n", "a\rb", "a\r\n", "a\n\r\nb", " \n ", "日本\n語"] {
        assert_eq!(count_lines(text), text.lines().count(), "{:?}", text);
    }
}

#[test]
fn wrapped_line_count_wraps_at_the_width() {
    // The wrapper must wrap: unchanged text would be one line.
    assert_eq!(wrapped_line_count(SENTENCE, 15), 3);
    assert_eq!(wrapped_line_count(SENTENCE, 80), 1);
    assert_eq!(wrapped_line_count("", 10), 0);
    assert_eq!(wrapped_line_count("a\nb\nc", 10), 3);
    assert_eq!(wrapped_line_count("foo", 1), 3);
}

#[test]
fn columns_for_text_leaves_one_column_at_least() {
    assert_eq!(columns_for_text(80, 4), 76);
    assert_eq!(columns_for_text(5, 4), 1);
    assert_eq!(columns_for_text(4, 4), 1);
    assert_eq!(columns_for_text(0, 4), 1);
    assert_eq!(columns_for_text(10, 6), 4);
}

#[test]
fn rows_from_count_stops_at_the_largest_row_count() {
    assert_eq!(rows_from_count(0), 0);
    assert_eq!(rows_from_count(65535), 65535);
    assert_eq!(rows_from_count(65536), 65535);
    assert_eq!(rows_from_count(usize::MAX), 65535);
}

#[test]
fn rows_for_post_adds_up_the_parts() {
    assert_eq!(PostListBase::rows_for_post(0, None, false), 4);
    assert_eq!(PostListBase::rows_for_post(3, None, false), 7);
    assert_eq!(PostListBase::rows_for_post(3, None, true), 22);
    assert_eq!(PostListBase::rows_for_post(3, Some((2, false)), false), 13);
    assert_eq!(PostListBase::rows_for_post(3, Some((2, true)), false), 28);
    assert_eq!(PostListBase::rows_for_post(3, Some((2, true)), true), 43);
    assert_eq!(PostListBase::rows_for_post(0, Some((0, false)), false), 8);
}

#[test]
fn rows_for_post_stops_at_the_largest_row_count() {
    assert_eq!(PostListBase::rows_for_post(65531, None, false), 65535);
    assert_eq!(PostListBase::rows_for_post(65532, None, false), 65535);
    assert_eq!(PostListBase::rows_for_post(usize::MAX, Some((usize::MAX, true)), true), 65535);
}

#[test]
fn get_post_text_is_the_text_of_the_record_only() {
    let with_text = text_post("at://a/1", "hello");
    assert_eq!(PostListBase::get_post_text(&with_text), Some("hello".to_string()));
    for text in [
        RecordText::Null,
        RecordText::Missing,
        RecordText::NullRecord,
        RecordText::Unexpected("Integer(4)".to_string()),
        RecordText::Other("Bool(true)".to_string()),
    ] {
        let without = post("at://a/2", text, Embed::Nothing);
        assert_eq!(PostListBase::get_post_text(&without), None);
    }
}

#[test]
fn calculate_post_height_of_plain_text() {
    let one_line = text_post("at://a/1", "short");
    assert_eq!(PostListBase::calculate_post_height(&one_line, 80), 5);
    let wrapped = text_post("at://a/2", SENTENCE);
    assert_eq!(PostListBase::calculate_post_height(&wrapped, 19), 7);
    let no_text = post("at://a/3", RecordText::Missing, Embed::Nothing);
    assert_eq!(PostListBase::calculate_post_height(&no_text, 80), 4);
    let empty = text_post("at://a/4", "");
    assert_eq!(PostListBase::calculate_post_height(&empty, 80), 4);
}

#[test]
fn calculate_post_height_with_images_and_quote() {
    let with_images = post(
        "at://a/1",
        RecordText::Text("short".to_string()),
        Embed::Images(vec![image("a cat")]),
    );
    assert_eq!(PostListBase::calculate_post_height(&with_images, 80), 20);
    let with_media = post(
        "at://a/2",
        RecordText::Text("short".to_string()),
        Embed::RecordWithMedia(Some(vec![image("a dog")])),
    );
    assert_eq!(PostListBase::calculate_post_height(&with_media, 80), 20);
    let other_media = post(
        "at://a/3",
        RecordText::Text("short".to_string()),
        Embed::RecordWithMedia(None),
    );
    assert_eq!(PostListBase::calculate_post_height(&other_media, 80), 5);
    let with_quote = post(
        "at://a/4",
        RecordText::Text("short".to_string()),
        Embed::Quote(quoted("a\nb", None)),
    );
    // 4 + 1 for the post, 4 + 2 for the quote.
    assert_eq!(PostListBase::calculate_post_height(&with_quote, 80), 11);
    let quote_with_images = post(
        "at://a/5",
        RecordText::Text("short".to_string()),
        Embed::Quote(quoted("a\nb", Some(vec![image("")]))),
    );
    assert_eq!(PostListBase::calculate_post_height(&quote_with_images, 80), 26);
    let quote_wrapped = post(
        "at://a/6",
        RecordText::Text("short".to_string()),
        Embed::Quote(quoted(SENTENCE, None)),
    );
    // The quote wraps at the width less six columns.
    assert_eq!(PostListBase::calculate_post_height(&quote_wrapped, 21), 12);
    let other = post("at://a/7", RecordText::Text("short".to_string()), Embed::OtherRecord);
    assert_eq!(PostListBase::calculate_post_height(&other, 80), 5);
}

#[test]
fn height_of_is_computed_once_and_remembered() {
    let wrapped = text_post("at://a/1", SENTENCE);
    let mut cache = HeightCache::new();
    assert!(!cache.contains("at://a/1"));
    assert_eq!(cache.get("at://a/1"), None);
    let first = cache.height_of(&wrapped, 19);
    assert_eq!(first, 7);
    assert!(cache.contains("at://a/1"));
    assert_eq!(cache.get("at://a/1"), Some(7));
    let second = cache.height_of(&wrapped, 19);
    assert_eq!(second, first);
    // At another width a fresh computation would give another height; the
    // remembered one is handed out.
    let mut fresh = HeightCache::new();
    assert_eq!(fresh.height_of(&wrapped, 200), 5);
    assert_eq!(cache.height_of(&wrapped, 200), 7);
    assert_eq!(cache.get("at://a/1"), Some(7));
}

#[test]
fn height_cache_insert_and_default() {
    let mut cache = HeightCache::new();
    assert_eq!(cache.height_or("at://a/1", 6), 6);
    cache.insert("at://a/1".to_string(), 9);
    assert_eq!(cache.height_or("at://a/1", 6), 9);
    cache.insert("at://a/1".to_string(), 11);
    assert_eq!(cache.get("at://a/1"), Some(11));
    assert_eq!(cache.height_or("at://a/2", 3), 3);
}

#[test]
fn extract_text_content_names_what_is_missing() {
    let shown = |text: RecordText| {
        PostContent::extract_text_content(&post("at://a/1", text, Embed::Nothing))
    };
    assert_eq!(shown(RecordText::Text("hi".to_string())), "hi");
    assert_eq!(shown(RecordText::Null), "(Null content)");
    assert_eq!(shown(RecordText::Missing), "(No text content)");
    assert_eq!(shown(RecordText::NullRecord), "(Null content)");
    assert_eq!(
        shown(RecordText::Unexpected("Integer(4)".to_string())),
        "(Unexpected format: Integer(4))"
    );
    assert_eq!(shown(RecordText::Other("Bool(true)".to_string())), "Other: Bool(true)");
}

#[test]
fn post_content_height_wraps_inside_the_padding() {
    let context = PostContext { indent_level: 0 };
    let content = PostContent::new(&text_post("at://a/1", SENTENCE), context);
    assert_eq!(content.text, SENTENCE);
    assert_eq!(content.calculate_height(19), 3);
    assert_eq!(content.height(area(80, 10)), 1);
    let placeholder = PostContent::new(&post("at://a/2", RecordText::Missing, Embed::Nothing), context);
    assert_eq!(placeholder.height(area(80, 10)), 1);
}

#[test]
fn post_stats_show_counts_and_viewer_state() {
    let context = PostContext { indent_level: 0 };
    let mut liked = text_post("at://a/1", "x");
    liked.viewer_like = Some("at://me/like/1".to_string());
    liked.like_count = Some(-4);
    liked.repost_count = Some(5_000_000_000);
    let stats = PostStats::new(&liked, context);
    assert_eq!(stats.likes, 0);
    assert_eq!(stats.reposts, u32::MAX);
    assert_eq!(stats.replies, 1);
    assert!(stats.has_liked);
    assert!(!stats.has_reposted);
    assert_eq!(stats.height(area(80, 10)), 1);
    assert_eq!(PostStats::count(None), 0);
    assert_eq!(PostStats::count(Some(42)), 42);
    assert!(PostStats::check_liked(&liked));
    assert!(!PostStats::check_reposted(&liked));
}

#[test]
fn post_header_names_the_author_and_the_following_status() {
    let context = PostContext { indent_level: 0 };
    let mut data = text_post("at://a/1", "x");
    let header = PostHeader::new(&data, context);
    assert_eq!(header.author_display_name, "alice.test");
    assert_eq!(header.author_handle, "alice.test");
    assert_eq!(header.timestamp, "2024-11-05T10:00:00Z");
    assert!(!header.is_reply);
    assert_eq!(header.following_status, FollowingStatus::NotFollowing);
    assert_eq!(header.following_status_label(), "");
    assert_eq!(header.height(area(80, 10)), 1);

    data.author.display_name = Some("Alice".to_string());
    data.author.has_viewer_state = true;
    data.author.following = Some("at://me/follow/1".to_string());
    data.record.has_reply = true;
    let header = PostHeader::new(&data, context);
    assert_eq!(header.author_display_name, "Alice");
    assert!(header.is_reply);
    assert_eq!(header.following_status, FollowingStatus::Following);
    assert_eq!(header.following_status_label(), "Following");

    // Without word from the network nobody counts as followed.
    data.author.has_viewer_state = false;
    assert_eq!(PostHeader::determine_following_status(&data), FollowingStatus::NotFollowing);
    assert!(PostHeader::check_is_reply(&data));
}

#[test]
fn post_parts_are_made_from_the_record() {
    let context = PostContext { indent_level: 2 };
    let mut data = post(
        "at://a/1",
        RecordText::Text("hello".to_string()),
        Embed::Quote(quoted("quoted text", Some(vec![image("x")]))),
    );
    data.author.avatar = Some("https://cdn.test/avatar.jpg".to_string());
    let shown = Post::new(data, context);
    assert_eq!(shown.get_uri(), "at://a/1");
    assert!(shown.has_avatar());
    assert_eq!(shown.avatar.as_ref().unwrap().url, "https://cdn.test/avatar.jpg");
    assert_eq!(shown.content.text, "hello");
    assert!(shown.images.is_none());
    let quote = shown.quoted_post.as_ref().unwrap();
    assert_eq!(quote.post.uri, "at://quoted/1");
    assert_eq!(quote.content.text, "quoted text");
    assert_eq!(quote.stats.likes, 7);
    assert!(quote.post.viewer_like.is_none());
    assert!(matches!(&quote.post.embed, Embed::Images(images) if images.len() == 1));
    assert_eq!(shown.context.indent_level, 2);
}

#[test]
fn extract_images_and_quote() {
    let plain = text_post("at://a/1", "x");
    assert!(Post::extract_images_from_post(&plain).is_none());
    assert!(Post::extract_quoted_post_data(&plain).is_none());
    let with_images =
        post("at://a/2", RecordText::Missing, Embed::Images(vec![image("one"), image("two")]));
    let images = Post::extract_images_from_post(&with_images).unwrap();
    assert_eq!(images.len(), 2);
    assert_eq!(images[1].alt, "two");
    let with_quote = post("at://a/3", RecordText::Missing, Embed::Quote(quoted("q", None)));
    let quote = Post::extract_quoted_post_data(&with_quote).unwrap();
    assert_eq!(quote.uri, "at://quoted/1");
    assert_eq!(quote.cid, "cid-quoted");
    assert_eq!(quote.author.handle, "bob.test");
    assert_eq!(quote.like_count, Some(7));
    assert!(matches!(quote.embed, Embed::Nothing));
    assert!(Post::extract_images_from_post(&with_quote).is_none());
    let other = post("at://a/4", RecordText::Missing, Embed::OtherRecord);
    assert!(Post::extract_quoted_post_data(&other).is_none());
}

#[test]
fn quoted_post_and_images_heights() {
    let context = PostContext { indent_level: 0 };
    let quote = QuotedPost::new(text_post("at://q/1", "a\nb\nc"), context);
    assert_eq!(quote.height(area(80, 10)), 7);
    let wrapped = QuotedPost::new(text_post("at://q/2", SENTENCE), context);
    // Two columns of border and four of padding leave fifteen of 21.
    assert_eq!(wrapped.height(area(21, 10)), 7);
    let images = PostImages::new(vec![image("x")], context);
    assert_eq!(images.height(area(80, 10)), 15);
    let none = PostImages::new(vec![], context);
    assert_eq!(none.height(area(80, 10)), 0);
}

#[test]
fn post_layout_stacks_the_parts_below_the_header() {
    let context = PostContext { indent_level: 0 };
    let data = post(
        "at://a/1",
        RecordText::Text("a\nb".to_string()),
        Embed::Images(vec![image("x")]),
    );
    let shown = Post::new(data, context);
    let inner = Rect { x: 1, y: 5, width: 40, height: 30 };
    assert_eq!(Post::header_row(inner), Rect { x: 1, y: 5, width: 40, height: 1 });
    assert_eq!(
        shown.layout(inner),
        vec![
            PartPlace { part: PostPart::Content, area: Rect { x: 1, y: 6, width: 40, height: 2 } },
            PartPlace { part: PostPart::Images, area: Rect { x: 1, y: 8, width: 40, height: 15 } },
            PartPlace { part: PostPart::Stats, area: Rect { x: 1, y: 23, width: 40, height: 1 } },
        ]
    );
    // With ten rows the images are clipped and the counts are left out.
    let short = Rect { x: 1, y: 5, width: 40, height: 10 };
    assert_eq!(
        shown.layout(short),
        vec![
            PartPlace { part: PostPart::Content, area: Rect { x: 1, y: 6, width: 40, height: 2 } },
            PartPlace { part: PostPart::Images, area: Rect { x: 1, y: 8, width: 40, height: 7 } },
        ]
    );
    let header_only = Rect { x: 1, y: 5, width: 40, height: 1 };
    assert!(shown.layout(header_only).is_empty());
}

#[test]
fn character_helpers_edit_by_character() {
    assert_eq!(with_char_at("héllo", 2, 'x'), "héxllo");
    assert_eq!(with_char_at("", 0, 'x'), "x");
    assert_eq!(with_char_at("ab", 2, 'c'), "abc");
    assert_eq!(without_char_at("héllo", 1), "hllo");
    assert_eq!(without_char_at("abc", 2), "ab");
}

#[test]
fn word_helpers_split_at_white_space() {
    assert_eq!(first_word_of("  profile  alice.test now"), "profile");
    assert_eq!(second_word_of("  profile  alice.test now"), "alice.test");
    assert_eq!(first_word_of(""), "");
    assert_eq!(first_word_of("   "), "");
    assert_eq!(second_word_of("post"), "");
    assert_eq!(second_word_of("post   "), "");
    assert_eq!(first_word_of("a\tb"), "a");
    assert_eq!(second_word_of("a\tb"), "b");
    assert_eq!(last_word_before("reply to", 8), "to");
    assert_eq!(last_word_before("reply to", 5), "reply");
    assert_eq!(last_word_before("reply to ", 9), "to");
    assert_eq!(last_word_before("   ", 3), "");
    assert_eq!(last_word_before("abc", 0), "");
}

#[test]
fn decimal_text_writes_numbers() {
    assert_eq!(decimal_text(0), "0");
    assert_eq!(decimal_text(7), "7");
    assert_eq!(decimal_text(10), "10");
    assert_eq!(decimal_text(1234567890), "1234567890");
    assert_eq!(decimal_text(u128::MAX), u128::MAX.to_string());
}

#[test]
fn same_height_inputs_looks_at_text_images_and_quote() {
    let plain = text_post("at://a/1", "text");
    let mut counted = text_post("at://a/1", "text");
    counted.like_count = Some(100);
    counted.viewer_like = Some("at://me/like/1".to_string());
    assert!(PostListBase::same_height_inputs(&plain, &counted));
    assert!(!PostListBase::same_height_inputs(&plain, &text_post("at://a/1", "other")));
    let missing = post("at://a/1", RecordText::Missing, Embed::Nothing);
    let null = post("at://a/1", RecordText::Null, Embed::Nothing);
    assert!(PostListBase::same_height_inputs(&missing, &null));
    assert!(!PostListBase::same_height_inputs(&plain, &missing));
    let with_images =
        post("at://a/1", RecordText::Text("text".to_string()), Embed::Images(vec![image("x")]));
    let with_media = post(
        "at://a/1",
        RecordText::Text("text".to_string()),
        Embed::RecordWithMedia(Some(vec![image("y"), image("z")])),
    );
    assert!(!PostListBase::same_height_inputs(&plain, &with_images));
    assert!(PostListBase::same_height_inputs(&with_images, &with_media));
    let quote = |text: &str, images: Option<Vec<ImageData>>| {
        post("at://a/1", RecordText::Text("text".to_string()), Embed::Quote(quoted(text, images)))
    };
    assert!(PostListBase::same_height_inputs(&quote("q", None), &quote("q", None)));
    assert!(!PostListBase::same_height_inputs(&quote("q", None), &quote("r", None)));
    assert!(!PostListBase::same_height_inputs(&quote("q", None), &quote("q", Some(vec![]))));
    assert!(!PostListBase::same_height_inputs(&quote("q", None), &plain));
}

#[test]
fn height_cache_forgets_on_remove() {
    let mut cache = HeightCache::new();
    cache.insert("at://a/1".to_string(), 9);
    cache.remove("at://a/1");
    cache.remove("at://a/2");
    assert!(!cache.contains("at://a/1"));
    assert_eq!(cache.height_of(&text_post("at://a/1", "x"), 80), 5);
}

#[test]
fn avatar_is_three_rows_high() {
    let avatar = PostAvatar::new("https://cdn.test/a.jpg".to_string(), PostContext { indent_level: 1 });
    assert_eq!(avatar.url, "https://cdn.test/a.jpg");
    assert_eq!(avatar.context.indent_level, 1);
    assert_eq!(avatar.height(area(80, 10)), 3);
}

#[test]
fn alt_text_is_there_unless_it_is_empty() {
    assert_eq!(image("a cat").get_alt_text(), Some("a cat"));
    assert_eq!(image("").get_alt_text(), None);
}
