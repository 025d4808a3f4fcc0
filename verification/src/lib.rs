//! A terminal Spotify client: the verified core.
pub mod text;
pub mod json;
pub mod events;
pub mod spotify;
pub mod app_state;
pub mod worker;
