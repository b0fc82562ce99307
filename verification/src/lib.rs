//! The logic of a terminal Spotify client: the application state machine,
//! the reconnect policy, the theme, and what the screen shows.
use vstd::prelude::*;

pub mod action;
pub mod app;
pub mod clock;
pub mod laws;
pub mod laws_app;
pub mod laws_library;
pub mod laws_link;
pub mod laws_playback;
pub mod laws_screen;
pub mod message;
pub mod model;
pub mod player;
pub mod reconnect;
pub mod text;
pub mod theme;
pub mod ui;

verus! {

} // verus!
