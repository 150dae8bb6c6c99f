//! The verified core of Maraetai, a terminal music player for a Subsonic
//! library: the playback queue and its engine, the control protocol, the
//! library client's requests and parsers, and the terminal interface's state.
pub mod auth;
pub mod cli;
pub mod client;
pub mod config;
pub mod control;
pub mod engine;
pub mod engine_laws;
pub mod errand;
pub mod ieee;
pub mod json;
pub mod library;
pub mod lyrics;
pub mod mpris;
pub mod play_order;
pub mod playback;
pub mod protocol;
pub mod range;
pub mod screen;
pub mod text;
pub mod time;
pub mod tui;
pub mod tui_laws;
pub mod update_check;
pub mod url;
pub mod view;
