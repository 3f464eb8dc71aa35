use skyline::ui::components::command_input::{CommandInput, TabCompletion};
use skyline::ui::components::login::{LoginStatus, LoginView};
use skyline::ui::components::post_composer::{PostComposer, CHARACTER_LIMIT};
use skyline::ui::layout::Color;

fn typed(text: &str) -> CommandInput {
    let mut input = CommandInput::new();
    for c in text.chars() {
        input.insert_char(c);
    }
    input
}

#[test]
fn new_command_input_is_empty() {
    let input = CommandInput::new();
    assert_eq!(input.content, "");
    assert_eq!(input.cursor_position, 0);
    assert!(input.command_history.is_empty());
    assert_eq!(input.history_position, None);
    assert_eq!(
        input.commands,
        ["delete", "notifications", "post", "profile", "refresh", "reply", "timeline"]
    );
}

#[test]
fn command_input_edits_at_the_cursor() {
    let mut input = typed("pst");
    assert_eq!((input.content.as_str(), input.cursor_position), ("pst", 3));
    input.move_cursor_left();
    input.move_cursor_left();
    input.insert_char('o');
    assert_eq!((input.content.as_str(), input.cursor_position), ("post", 2));
    input.move_cursor_right();
    input.move_cursor_right();
    input.move_cursor_right();
    assert_eq!(input.cursor_position, 4);
    input.delete_char();
    assert_eq!((input.content.as_str(), input.cursor_position), ("pos", 3));
    input.move_cursor_left();
    input.move_cursor_left();
    input.move_cursor_left();
    input.move_cursor_left();
    assert_eq!(input.cursor_position, 0);
    input.delete_char();
    assert_eq!((input.content.as_str(), input.cursor_position), ("pos", 0));
    input.clear();
    assert_eq!((input.content.as_str(), input.cursor_position), ("", 0));
}

#[test]
fn command_input_counts_the_cursor_in_characters() {
    let mut input = typed("héé");
    assert_eq!(input.cursor_position, 3);
    input.delete_char();
    assert_eq!(input.content, "hé");
    input.move_cursor_left();
    input.insert_char('ü');
    assert_eq!((input.content.as_str(), input.cursor_position), ("hüé", 2));
    input.move_cursor_right();
    input.move_cursor_right();
    assert_eq!(input.cursor_position, 3);
}

#[test]
fn submit_command_fills_the_history() {
    let mut input = typed("refresh");
    assert_eq!(input.submit_command(), Some("refresh".to_string()));
    assert_eq!((input.content.as_str(), input.cursor_position), ("", 0));
    assert_eq!(input.command_history, ["refresh"]);
    assert_eq!(input.submit_command(), None);
    assert_eq!(input.command_history, ["refresh"]);
}

#[test]
fn history_walks_up_and_down() {
    let mut input = CommandInput::new();
    input.history_up();
    assert_eq!(input.content, "");
    assert_eq!(input.history_position, None);
    for command in ["post", "refresh", "timeline"] {
        for c in command.chars() {
            input.insert_char(c);
        }
        input.submit_command();
    }
    input.history_down();
    assert_eq!(input.history_position, None);
    input.history_up();
    assert_eq!((input.content.as_str(), input.history_position), ("timeline", Some(2)));
    assert_eq!(input.cursor_position, 8);
    input.history_up();
    input.history_up();
    assert_eq!((input.content.as_str(), input.history_position), ("post", Some(0)));
    input.history_up();
    assert_eq!((input.content.as_str(), input.history_position), ("post", Some(0)));
    input.history_down();
    assert_eq!((input.content.as_str(), input.history_position), ("refresh", Some(1)));
    input.history_down();
    input.history_down();
    assert_eq!((input.content.as_str(), input.history_position), ("", None));
    assert_eq!(input.cursor_position, 0);
    assert_eq!(input.command_history.len(), 3);
}

#[test]
fn tab_completion_offers_matching_commands_in_order() {
    let commands = vec!["delete", "notifications", "post", "profile", "refresh", "reply", "timeline"];
    let mut completion = TabCompletion::new();
    assert_eq!(completion.next_suggestion(), None);
    completion.update_suggestions("p", &commands);
    assert_eq!(completion.suggestions, ["post", "profile"]);
    assert_eq!(completion.partial_command, "p");
    assert_eq!(completion.current_index, Some(0));
    assert_eq!(completion.next_suggestion(), Some("post".to_string()));
    assert_eq!(completion.next_suggestion(), Some("profile".to_string()));
    assert_eq!(completion.next_suggestion(), Some("post".to_string()));
    completion.update_suggestions("x", &commands);
    assert!(completion.suggestions.is_empty());
    assert_eq!(completion.current_index, None);
    assert_eq!(completion.next_suggestion(), None);
    completion.update_suggestions("", &commands);
    assert_eq!(completion.suggestions.len(), 7);
    completion.update_suggestions("re", &commands);
    assert_eq!(completion.suggestions, ["refresh", "reply"]);
}

#[test]
fn tab_completion_sorts_the_names_and_offers_each_once() {
    let commands = vec!["reply", "post", "refresh", "profile", "post", "reply", "delete"];
    let mut completion = TabCompletion::new();
    completion.update_suggestions("", &commands);
    assert_eq!(completion.suggestions, ["delete", "post", "profile", "refresh", "reply"]);
    assert_eq!(completion.current_index, Some(0));
    completion.update_suggestions("re", &commands);
    assert_eq!(completion.suggestions, ["refresh", "reply"]);
    assert_eq!(completion.partial_command, "re");
    completion.update_suggestions("p", &commands);
    assert_eq!(completion.suggestions, ["post", "profile"]);
    assert_eq!(completion.next_suggestion(), Some("post".to_string()));
}

#[test]
fn tab_completion_orders_names_as_strings_are_ordered() {
    let commands = vec!["b", "ab", "a", "B", "\u{e9}", "abc", "z", ""];
    let mut completion = TabCompletion::new();
    completion.update_suggestions("", &commands);
    assert_eq!(completion.suggestions, ["", "B", "a", "ab", "abc", "b", "z", "\u{e9}"]);
    completion.update_suggestions("a", &commands);
    assert_eq!(completion.suggestions, ["a", "ab", "abc"]);
}

#[test]
fn handle_tab_completes_the_word_that_is_typed() {
    let mut input = typed("N");
    assert_eq!(input.get_current_word(), "N");
    input.handle_tab();
    assert_eq!(input.content, "notifications");
    assert_eq!(input.cursor_position, 13);
    let mut input = typed("re");
    input.handle_tab();
    assert_eq!(input.content, "refresh");
    let mut input = typed("xyz");
    input.handle_tab();
    assert_eq!((input.content.as_str(), input.cursor_position), ("xyz", 3));
    let mut input = typed("say p");
    input.handle_tab();
    assert_eq!(input.content, "say post");
    assert_eq!(input.cursor_position, 8);
}

#[test]
fn handle_tab_takes_the_word_before_the_cursor() {
    let mut input = typed("tixx");
    input.move_cursor_left();
    input.move_cursor_left();
    assert_eq!(input.get_current_word(), "ti");
    input.handle_tab();
    // What follows the cursor is dropped.
    assert_eq!((input.content.as_str(), input.cursor_position), ("timeline", 8));
    let empty = CommandInput::new();
    assert_eq!(empty.get_current_word(), "");
}

#[test]
fn composer_edits_and_counts() {
    let mut composer = PostComposer::new(Some("at://post/1".to_string()));
    assert_eq!(composer.reply_to, Some("at://post/1".to_string()));
    assert_eq!(composer.get_content(), "");
    for c in "héllo".chars() {
        composer.insert_char(c);
    }
    assert_eq!(composer.get_content(), "héllo");
    assert_eq!(composer.get_character_count(), 5);
    assert_eq!(composer.cursor_position, 5);
    composer.move_cursor_left();
    composer.move_cursor_left();
    composer.delete_char();
    assert_eq!((composer.get_content(), composer.cursor_position), ("hélo", 2));
    composer.move_cursor_right();
    composer.move_cursor_right();
    composer.move_cursor_right();
    assert_eq!(composer.cursor_position, 4);
    composer.clear();
    assert_eq!((composer.get_content(), composer.cursor_position), ("", 0));
    composer.delete_char();
    composer.move_cursor_left();
    assert_eq!(composer.cursor_position, 0);
    assert_eq!(composer.reply_to, Some("at://post/1".to_string()));
}

#[test]
fn composer_stops_at_the_character_limit() {
    let mut composer = PostComposer::new(None);
    for _ in 0..CHARACTER_LIMIT + 5 {
        composer.insert_char('é');
    }
    assert_eq!(composer.get_character_count(), 300);
    assert_eq!(composer.cursor_position, 300);
    composer.delete_char();
    composer.insert_char('x');
    composer.insert_char('y');
    assert_eq!(composer.get_character_count(), 300);
    assert!(composer.get_content().ends_with("éx"));
}

#[test]
fn composer_count_colour_by_thresholds() {
    let mut composer = PostComposer::new(None);
    assert_eq!(composer.get_character_count_status(), (0, Color::Green));
    for count in 1..=300usize {
        composer.insert_char('a');
        let expected = if count <= 250 {
            Color::Green
        } else if count <= 290 {
            Color::Yellow
        } else {
            Color::Red
        };
        assert_eq!(composer.get_character_count_status(), (count, expected));
    }
}

#[test]
fn login_view_says_what_goes_on() {
    let mut view = LoginView::new();
    assert_eq!(view.username, None);
    assert!(!view.password_mode);
    assert_eq!(view.error, None);
    assert!(!view.loading);
    assert!(matches!(view.status(), LoginStatus::Welcome));
    view.password_mode = true;
    assert!(matches!(view.status(), LoginStatus::Welcome));
    view.username = Some("alice.test".to_string());
    assert!(matches!(view.status(), LoginStatus::EnterPassword(name) if name == "alice.test"));
    view.error = Some("Invalid credentials".to_string());
    assert!(matches!(view.status(), LoginStatus::Failed(why) if why == "Invalid credentials"));
    view.loading = true;
    assert!(matches!(view.status(), LoginStatus::LoggingIn));
}
