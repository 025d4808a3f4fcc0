//! The messages exchanged between the interface and the Spotify worker.
pub mod message;
