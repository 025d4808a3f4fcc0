//! What the Spotify worker does with each action, and what the interface
//! shows.
pub mod spotify_worker;
pub mod ui;
