//! The decisions of the dialogue with the user: what a line of input means,
//! when a request goes to the playlists at all, what is told in answer, and
//! when a second try is offered. Reading and printing are the caller's.

use vstd::prelude::*;
use vstd::string::*;
use crate::error::{embed, ErrorModel, MusicError};
use crate::playlists::{
    add_song, added, create_playlist, created, now_playing, play_song, played, songs_distinct,
    Playlists, Shelf,
};

verus! {

/// `line` without the white space at its two ends, as `str::trim` gives it.
pub uninterp spec fn trimmed(line: Seq<char>) -> Seq<char>;

/// `text` in lower case, as `str::to_lowercase` gives it.
pub uninterp spec fn lowercase(text: Seq<char>) -> Seq<char>;

/// Calls `str::trim` of the standard library. Trusted: the result is the
/// slice of `line` that `trim` returns, a function of the characters of
/// `line` alone, which this library calls `trimmed`.
#[verifier::external_body]
fn trim_line<'a>(line: &'a str) -> (text: &'a str)
    ensures
        text@ == trimmed(line@),
{
    line.trim()
}

/// Calls `str::to_lowercase` of the standard library. Trusted: the result is
/// the string that `to_lowercase` returns, a function of the characters of
/// `text` alone, which this library calls `lowercase`.
#[verifier::external_body]
fn lower(text: &str) -> (low: String)
    ensures
        low@ == lowercase(text@),
{
    text.to_lowercase()
}

/// Whether two texts are the same, character by character.
pub fn same_text(a: &str, b: &str) -> (same: bool)
    ensures
        same == (a@ == b@),
{
    let left = String::from_str(a);
    let right = String::from_str(b);
    left == right
}

/// What the user typed into a field: the line without the white space at
/// its two ends. An empty text means that no value was supplied.
pub fn field_text(line: &str) -> (text: String)
    ensures
        text@ == trimmed(line@),
{
    String::from_str(trim_line(line))
}

/// Whether a text that is already in lower case is the word for yes.
pub fn is_yes_word(low: &str) -> (yes: bool)
    ensures
        yes == (low@ == "j"@),
{
    same_text(low, "j")
}

/// Whether an answer to a yes-or-no question says yes: in lower case it is
/// the word for yes. Anything else says no.
pub fn affirms(answer: &str) -> (yes: bool)
    ensures
        yes == (lowercase(answer@) == "j"@),
{
    let low = lower(answer);
    is_yes_word(low.as_str())
}

/// What the user picked from the menu.
#[derive(Debug, Clone, Copy, PartialEq, Eq)]
pub enum MenuChoice {
    CreatePlaylist,
    AddSong,
    PlaySong,
    ListAll,
    Quit,
    Invalid,
}

/// The menu entry that a text picks: `1` to `4` the four tasks, `0` to
/// leave, anything else none.
pub open spec fn choice_of(text: Seq<char>) -> MenuChoice {
    if text == "1"@ {
        MenuChoice::CreatePlaylist
    } else if text == "2"@ {
        MenuChoice::AddSong
    } else if text == "3"@ {
        MenuChoice::PlaySong
    } else if text == "4"@ {
        MenuChoice::ListAll
    } else if text == "0"@ {
        MenuChoice::Quit
    } else {
        MenuChoice::Invalid
    }
}

/// The menu entry that `text` picks, taken as it is.
pub fn menu_choice(text: &str) -> (choice: MenuChoice)
    ensures
        choice == choice_of(text@),
{
    if same_text(text, "1") {
        MenuChoice::CreatePlaylist
    } else if same_text(text, "2") {
        MenuChoice::AddSong
    } else if same_text(text, "3") {
        MenuChoice::PlaySong
    } else if same_text(text, "4") {
        MenuChoice::ListAll
    } else if same_text(text, "0") {
        MenuChoice::Quit
    } else {
        MenuChoice::Invalid
    }
}

/// The menu entry that a line of input picks, white space at its ends aside.
pub fn read_choice(line: &str) -> (choice: MenuChoice)
    ensures
        choice == choice_of(trimmed(line@)),
{
    menu_choice(trim_line(line))
}

/// What the user is told after a request.
#[derive(Debug, PartialEq, Eq)]
pub enum Notice {
    /// The request was carried out; the text says what was done.
    Success(String),
    /// The playlists refused the request.
    Failure(MusicError),
    /// The request never reached the playlists: a field was left empty.
    Warning(String),
}

/// The mathematical value of a [`Notice`].
pub ghost enum NoticeModel {
    Success(Seq<char>),
    Failure(ErrorModel),
    Warning(Seq<char>),
}

impl NoticeModel {
    /// The line to show, without the sign in front of it.
    pub open spec fn text(self) -> Seq<char> {
        match self {
            NoticeModel::Success(text) => text,
            NoticeModel::Failure(e) => e.message(),
            NoticeModel::Warning(text) => text,
        }
    }
}

impl View for Notice {
    type V = NoticeModel;

    open spec fn view(&self) -> NoticeModel {
        match self {
            Notice::Success(text) => NoticeModel::Success(text@),
            Notice::Failure(e) => NoticeModel::Failure(e@),
            Notice::Warning(text) => NoticeModel::Warning(text@),
        }
    }
}

impl Notice {
    /// The line to show, without the sign in front of it.
    pub fn text(&self) -> (text: String)
        ensures
            text@ == self@.text(),
    {
        match self {
            Notice::Success(text) => text.clone(),
            Notice::Failure(e) => e.message(),
            Notice::Warning(text) => text.clone(),
        }
    }

    /// Whether a second try is to be offered: only after a request to play
    /// failed for want of a connection.
    pub fn offers_retry(&self) -> (offer: bool)
        ensures
            offer == (self@ == NoticeModel::Failure(ErrorModel::Offline)),
    {
        match self {
            Notice::Failure(MusicError::Offline) => true,
            _ => false,
        }
    }
}

/// The answer to a request to create the playlist `name`.
pub open spec fn create_notice(shelf: Shelf, name: Seq<char>) -> NoticeModel {
    if name.len() == 0 {
        NoticeModel::Warning("Navn må ikke være tomt."@)
    } else {
        match created(shelf, name) {
            Ok(_) => NoticeModel::Success("Playlist '"@ + name + "' oprettet!"@),
            Err(e) => NoticeModel::Failure(e),
        }
    }
}

/// The answer to a request to add `song` to `playlist`.
pub open spec fn add_notice(shelf: Shelf, playlist: Seq<char>, song: Seq<char>) -> NoticeModel {
    if playlist.len() == 0 || song.len() == 0 {
        NoticeModel::Warning("Ingen felter må være tomme."@)
    } else {
        match added(shelf, playlist, song) {
            Ok(_) => NoticeModel::Success(
                "'"@ + song + "' tilføjet til '"@ + playlist + "'!"@,
            ),
            Err(e) => NoticeModel::Failure(e),
        }
    }
}

/// The answer to a request to play `song` from `playlist`.
pub open spec fn play_notice(
    shelf: Shelf,
    playlist: Seq<char>,
    song: Seq<char>,
    online: bool,
) -> NoticeModel {
    if playlist.len() == 0 || song.len() == 0 {
        NoticeModel::Warning("Ingen felter må være tomme."@)
    } else {
        match played(shelf, playlist, song, online) {
            Ok(text) => NoticeModel::Success(text),
            Err(e) => NoticeModel::Failure(e),
        }
    }
}

/// Handles a request to create the playlist `name`. An empty name is
/// answered with a warning and never reaches the playlists; any other is
/// created, or refused as `create_playlist` refuses it.
pub fn request_create(playlists: &mut Playlists, name: &str) -> (notice: Notice)
    ensures
        notice@ == create_notice(old(playlists)@, name@),
        final(playlists)@ == (if name@.len() > 0 && !old(playlists)@.contains_key(name@) {
            old(playlists)@.insert(name@, Seq::empty())
        } else {
            old(playlists)@
        }),
        final(playlists).order() == (if name@.len() > 0 && !old(playlists)@.contains_key(name@) {
            old(playlists).order().push(name@)
        } else {
            old(playlists).order()
        }),
        name@.len() > 0 ==> songs_distinct(final(playlists)@),
{
    if name.is_empty() {
        return Notice::Warning(String::from_str("Navn må ikke være tomt."));
    }
    match create_playlist(playlists, name) {
        Ok(_) => Notice::Success(embed("Playlist '", name, "' oprettet!")),
        Err(e) => Notice::Failure(e),
    }
}

/// Handles a request to add `song` to `playlist`. An empty field is answered
/// with a warning and never reaches the playlists; else the song is added,
/// or refused as `add_song` refuses it.
pub fn request_add(playlists: &mut Playlists, playlist: &str, song: &str) -> (notice: Notice)
    ensures
        notice@ == add_notice(old(playlists)@, playlist@, song@),
        final(playlists)@ == (if playlist@.len() > 0 && song@.len() > 0 {
            match added(old(playlists)@, playlist@, song@) {
                Ok(next) => next,
                Err(_) => old(playlists)@,
            }
        } else {
            old(playlists)@
        }),
        final(playlists).order() == old(playlists).order(),
        playlist@.len() > 0 && song@.len() > 0 ==> songs_distinct(final(playlists)@),
{
    if playlist.is_empty() || song.is_empty() {
        return Notice::Warning(String::from_str("Ingen felter må være tomme."));
    }
    match add_song(playlists, playlist, song) {
        Ok(_) => {
            let mut text = embed("'", song, "' tilføjet til '");
            text.append(playlist);
            text.append("'!");
            Notice::Success(text)
        },
        Err(e) => Notice::Failure(e),
    }
}

/// Handles a request to play `song` from `playlist`. An empty field is
/// answered with a warning; else the song is played, or refused as
/// `play_song` refuses it. Nothing is changed.
pub fn request_play(playlists: &Playlists, playlist: &str, song: &str, online: bool) -> (notice:
    Notice)
    ensures
        notice@ == play_notice(playlists@, playlist@, song@, online),
{
    if playlist.is_empty() || song.is_empty() {
        return Notice::Warning(String::from_str("Ingen felter må være tomme."));
    }
    match play_song(playlists, playlist, song, online) {
        Ok(text) => Notice::Success(text),
        Err(e) => Notice::Failure(e),
    }
}

/// The second try at a request to play that was refused for want of a
/// connection. If the user said yes (`again`), the request is made once
/// more, as if online, and its answer is returned; if not, nothing is done.
/// There is no third try.
pub fn retry_play(playlists: &Playlists, playlist: &str, song: &str, again: bool) -> (second:
    Option<Notice>)
    ensures
        match second {
            Some(notice) => again && notice@ == play_notice(playlists@, playlist@, song@, true),
            None => !again,
        },
{
    if again {
        Some(request_play(playlists, playlist, song, true))
    } else {
        None
    }
}

/// A second try is offered exactly where it will succeed: when a request to
/// play was refused for want of a connection, the same request made online
/// on the same playlists announces the song.
pub proof fn law_retry_succeeds(shelf: Shelf, playlist: Seq<char>, song: Seq<char>)
    ensures
        play_notice(shelf, playlist, song, false) == NoticeModel::Failure(ErrorModel::Offline)
            <==> play_notice(shelf, playlist, song, true) is Success,
        play_notice(shelf, playlist, song, true) is Success ==> play_notice(
            shelf,
            playlist,
            song,
            true,
        ) == NoticeModel::Success(now_playing(song)),
{
}

/// A request with an empty field changes nothing and is answered with a
/// warning, whatever the playlists hold.
pub proof fn law_empty_field_warns(shelf: Shelf, playlist: Seq<char>, song: Seq<char>, online: bool)
    requires
        playlist.len() == 0 || song.len() == 0,
    ensures
        add_notice(shelf, playlist, song) is Warning,
        play_notice(shelf, playlist, song, online) is Warning,
        create_notice(shelf, Seq::empty()) is Warning,
{
}

} // verus!
