//! Skyline: the list, scrolling and navigation core of a terminal client for a
//! social network. Every item of this crate is verified with Verus.

pub mod client;
pub mod ui;
