//! Playback and session logic of the shush Spotify client.
pub mod clock;
pub mod compat;
pub mod backend;
pub mod error;
pub mod components;
pub mod iced_gui;
pub mod util;
