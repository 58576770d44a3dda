//! An in-memory music library: named playlists, each an ordered list of
//! distinct song names, with the three operations on them (create a playlist,
//! add a song, play a song) and the decisions of the dialogue around them.
//!
//! Every operation reports its outcome as a value. The contracts are stated
//! over a mathematical model: a playlist collection is a map from a name to
//! the sequence of its songs.
//!
//! - `error`: the failures and their texts.
//! - `playlists`: the collection and its operations.
//! - `laws`: what holds of the operations, whatever the collection.
//! - `listing`: the overview of all playlists, line by line.
//! - `dialogue`: what a line of input means, and what is told in answer.

pub mod error;
pub mod playlists;
pub mod laws;
pub mod listing;
pub mod dialogue;

pub use error::MusicError;
pub use playlists::{add_song, create_playlist, play_song, Playlists};
