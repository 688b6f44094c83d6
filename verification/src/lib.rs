//! Review-response toolkit: store adapters, a session state machine and a
//! composition buffer for answering app-store reviews from a terminal.

pub mod ai;
pub mod api;
pub mod app_store;
pub mod config;
pub mod editor;
pub mod google_play;
pub mod http;
pub mod json;
pub mod jwt;
pub mod listing;
pub mod protocol;
pub mod replies;
pub mod review;
pub mod screen;
pub mod shape;
pub mod text;
pub mod time;
pub mod token;
pub mod ui;
