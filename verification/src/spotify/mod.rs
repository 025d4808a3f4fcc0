//! The Spotify Web API client and the authorization flow.
pub mod auth_handler;
pub mod client;

pub use client::SpotifyClient;
