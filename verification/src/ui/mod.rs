pub mod app;
pub mod components;
pub mod layout;
pub mod views;
