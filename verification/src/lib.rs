//! Keyboard-first terminal manager for here.now: the verified core.
//!
//! The library holds the data model of the here.now API, the state machine of
//! the terminal application (keys in, commands out), the text that the screens
//! show, and the pure parts of the HTTP client (paths, error messages,
//! credential normalisation).
pub mod api;
pub mod app;
pub mod deletion;
pub mod keys;
pub mod laws;
pub mod messages;
pub mod model;
pub mod replies;
pub mod slug_set;
pub mod text;
pub mod time;
pub mod view;
