//! The failures that the operations on playlists can report.

use vstd::prelude::*;
use vstd::string::*;

verus! {

/// Why an operation on the playlists failed.
///
/// `InvalidUser` is reserved: no operation of this library produces it.
#[derive(Debug, PartialEq, Eq)]
pub enum MusicError {
    PlaylistAlreadyExists(String),
    PlaylistNotFound(String),
    SongAlreadyInPlaylist(String),
    SongNotFound(String),
    EmptyPlaylist(String),
    Offline,
    InvalidUser,
}

/// The mathematical value of a [`MusicError`]: the same variants, each
/// carrying the offending name as a sequence of characters.
pub ghost enum ErrorModel {
    PlaylistAlreadyExists(Seq<char>),
    PlaylistNotFound(Seq<char>),
    SongAlreadyInPlaylist(Seq<char>),
    SongNotFound(Seq<char>),
    EmptyPlaylist(Seq<char>),
    Offline,
    InvalidUser,
}

impl ErrorModel {
    /// The one-line text shown to the user for this failure.
    pub open spec fn message(self) -> Seq<char> {
        match self {
            ErrorModel::PlaylistAlreadyExists(n) => "Playlist '"@ + n + "' eksisterer allerede."@,
            ErrorModel::PlaylistNotFound(n) => "Playlist '"@ + n + "' blev ikke fundet."@,
            ErrorModel::SongAlreadyInPlaylist(s) => "Sangen '"@ + s + "' er allerede på listen."@,
            ErrorModel::SongNotFound(s) => "Sangen '"@ + s + "' findes ikke."@,
            ErrorModel::EmptyPlaylist(n) => "Playlist '"@ + n + "' er tom."@,
            ErrorModel::Offline => "Ingen internetforbindelse – prøv igen."@,
            ErrorModel::InvalidUser => "Ugyldigt brugernavn."@,
        }
    }
}

impl View for MusicError {
    type V = ErrorModel;

    open spec fn view(&self) -> ErrorModel {
        match self {
            MusicError::PlaylistAlreadyExists(n) => ErrorModel::PlaylistAlreadyExists(n@),
            MusicError::PlaylistNotFound(n) => ErrorModel::PlaylistNotFound(n@),
            MusicError::SongAlreadyInPlaylist(s) => ErrorModel::SongAlreadyInPlaylist(s@),
            MusicError::SongNotFound(s) => ErrorModel::SongNotFound(s@),
            MusicError::EmptyPlaylist(n) => ErrorModel::EmptyPlaylist(n@),
            MusicError::Offline => ErrorModel::Offline,
            MusicError::InvalidUser => ErrorModel::InvalidUser,
        }
    }
}

/// Builds `before`, then `name`, then `after`, as one string.
pub fn embed(before: &str, name: &str, after: &str) -> (text: String)
    ensures
        text@ == before@ + name@ + after@,
{
    let mut text = String::from_str(before);
    text.append(name);
    text.append(after);
    text
}

impl MusicError {
    /// The one-line text shown to the user for this failure. It names the
    /// playlist or the song at fault, where there is one.
    pub fn message(&self) -> (text: String)
        ensures
            text@ == self@.message(),
    {
        match self {
            MusicError::PlaylistAlreadyExists(n) => embed("Playlist '", n.as_str(), "' eksisterer allerede."),
            MusicError::PlaylistNotFound(n) => embed("Playlist '", n.as_str(), "' blev ikke fundet."),
            MusicError::SongAlreadyInPlaylist(s) => embed("Sangen '", s.as_str(), "' er allerede på listen."),
            MusicError::SongNotFound(s) => embed("Sangen '", s.as_str(), "' findes ikke."),
            MusicError::EmptyPlaylist(n) => embed("Playlist '", n.as_str(), "' er tom."),
            MusicError::Offline => String::from_str("Ingen internetforbindelse – prøv igen."),
            MusicError::InvalidUser => String::from_str("Ugyldigt brugernavn."),
        }
    }
}

} // verus!
