pub mod author_feed;
pub mod author_profile;
pub mod command_input;
pub mod feed;
pub mod height_cache;
pub mod images;
pub mod login;
pub mod notifications;
pub mod post;
pub mod post_composer;
pub mod post_list;
pub mod text;
pub mod thread;
