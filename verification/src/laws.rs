//! What holds of the operations on playlists, whatever the collection and
//! the names: each statement is proved from the functions that say what the
//! operations do.

use vstd::prelude::*;
use crate::error::ErrorModel;
use crate::playlists::{added, created, now_playing, played, songs_distinct, Shelf};

verus! {

/// Creating a playlist under a name that is taken fails with
/// `PlaylistAlreadyExists`; in particular a second creation under one name
/// does, right after the first.
pub proof fn law_names_unique(shelf: Shelf, name: Seq<char>)
    ensures
        shelf.contains_key(name) ==> created(shelf, name) == Err::<Shelf, ErrorModel>(
            ErrorModel::PlaylistAlreadyExists(name),
        ),
        created(shelf, name) matches Ok(next) ==> created(next, name) == Err::<Shelf, ErrorModel>(
            ErrorModel::PlaylistAlreadyExists(name),
        ),
{
}

/// A playlist that is there stays there: neither creating another playlist
/// nor adding a song removes a name.
pub proof fn law_names_stay(shelf: Shelf, name: Seq<char>, other: Seq<char>, song: Seq<char>)
    requires
        shelf.contains_key(name),
    ensures
        created(shelf, other) matches Ok(next) ==> next.contains_key(name) && next[name]
            == shelf[name],
        added(shelf, other, song) matches Ok(next) ==> next.contains_key(name),
{
}

/// Adding a song that the playlist holds fails with `SongAlreadyInPlaylist`;
/// in particular a second addition of one song does, right after the first.
pub proof fn law_no_duplicate_songs(shelf: Shelf, playlist: Seq<char>, song: Seq<char>)
    ensures
        shelf.contains_key(playlist) && shelf[playlist].contains(song) ==> added(
            shelf,
            playlist,
            song,
        ) == Err::<Shelf, ErrorModel>(ErrorModel::SongAlreadyInPlaylist(song)),
        added(shelf, playlist, song) matches Ok(next) ==> added(next, playlist, song) == Err::<
            Shelf,
            ErrorModel,
        >(ErrorModel::SongAlreadyInPlaylist(song)),
{
    if let Ok(next) = added(shelf, playlist, song) {
        let songs = shelf[playlist].push(song);
        assert(songs[songs.len() - 1] == song);
        assert(next[playlist].contains(song));
    }
}

/// Where no playlist holds a song twice, none does after a playlist was
/// created or a song was added.
pub proof fn law_songs_stay_distinct(
    shelf: Shelf,
    name: Seq<char>,
    playlist: Seq<char>,
    song: Seq<char>,
)
    requires
        songs_distinct(shelf),
    ensures
        created(shelf, name) matches Ok(next) ==> songs_distinct(next),
        added(shelf, playlist, song) matches Ok(next) ==> songs_distinct(next),
{
    if let Ok(next) = created(shelf, name) {
        assert forall|k: Seq<char>| #[trigger] next.contains_key(k) implies next[k].no_duplicates() by {
            if k != name {
                assert(shelf.contains_key(k));
            }
        }
    }
    if let Ok(next) = added(shelf, playlist, song) {
        assert forall|k: Seq<char>| #[trigger] next.contains_key(k) implies next[k].no_duplicates() by {
            assert(shelf.contains_key(k));
            if k == playlist {
                let before = shelf[playlist];
                let after = before.push(song);
                assert forall|a: int, b: int|
                    0 <= a < after.len() && 0 <= b < after.len() && a != b implies after[a]
                    != after[b] by {
                    if a < before.len() && b < before.len() {
                        assert(before[a] != before[b]);
                    } else if a < before.len() {
                        assert(before.contains(before[a]));
                    } else {
                        assert(before.contains(before[b]));
                    }
                }
            }
        }
    }
}

/// A song that is added comes last in its playlist. The songs that were
/// there keep their places, and every other playlist stays as it was.
pub proof fn law_songs_keep_order(shelf: Shelf, playlist: Seq<char>, song: Seq<char>)
    ensures
        added(shelf, playlist, song) matches Ok(next) ==> {
            &&& next.dom() == shelf.dom()
            &&& next[playlist].len() == shelf[playlist].len() + 1
            &&& next[playlist].last() == song
            &&& forall|i: int|
                0 <= i < shelf[playlist].len() ==> next[playlist][i] == shelf[playlist][i]
            &&& forall|other: Seq<char>| other != playlist ==> next[other] == shelf[other]
        },
{
    if let Ok(next) = added(shelf, playlist, song) {
        assert(next.dom() =~= shelf.dom());
    }
}

/// What is wrong with a request to play is told in a fixed order: a missing
/// playlist first, then an empty one, then a missing song, and the
/// connection last. Only a request with nothing wrong is played.
pub proof fn law_play_order(shelf: Shelf, playlist: Seq<char>, song: Seq<char>, online: bool)
    ensures
        !shelf.contains_key(playlist) ==> played(shelf, playlist, song, online) == Err::<
            Seq<char>,
            ErrorModel,
        >(ErrorModel::PlaylistNotFound(playlist)),
        shelf.contains_key(playlist) && shelf[playlist].len() == 0 ==> played(
            shelf,
            playlist,
            song,
            online,
        ) == Err::<Seq<char>, ErrorModel>(ErrorModel::EmptyPlaylist(playlist)),
        shelf.contains_key(playlist) && shelf[playlist].len() > 0 && !shelf[playlist].contains(song)
            ==> played(shelf, playlist, song, online) == Err::<Seq<char>, ErrorModel>(
            ErrorModel::SongNotFound(song),
        ),
        shelf.contains_key(playlist) && shelf[playlist].contains(song) && !online ==> played(
            shelf,
            playlist,
            song,
            online,
        ) == Err::<Seq<char>, ErrorModel>(ErrorModel::Offline),
        shelf.contains_key(playlist) && shelf[playlist].contains(song) && online ==> played(
            shelf,
            playlist,
            song,
            online,
        ) == Ok::<Seq<char>, ErrorModel>(now_playing(song)),
{
}

/// No operation on the playlists fails with `InvalidUser`: that failure is
/// kept for later use.
pub proof fn law_invalid_user_unused(
    shelf: Shelf,
    playlist: Seq<char>,
    song: Seq<char>,
    online: bool,
)
    ensures
        created(shelf, playlist) != Err::<Shelf, ErrorModel>(ErrorModel::InvalidUser),
        added(shelf, playlist, song) != Err::<Shelf, ErrorModel>(ErrorModel::InvalidUser),
        played(shelf, playlist, song, online) != Err::<Seq<char>, ErrorModel>(
            ErrorModel::InvalidUser,
        ),
{
}

/// The text that announces a song holds the song's name, right after its
/// opening words.
pub proof fn law_announcement_names_song(song: Seq<char>)
    ensures
        exists|at: int|
            0 <= at && at + song.len() <= now_playing(song).len() && #[trigger] now_playing(
                song,
            ).subrange(at, at + song.len()) == song,
{
    let at = "♪  Afspiller nu: '"@.len() as int;
    assert(now_playing(song).subrange(at, at + song.len()) =~= song);
}

/// A request that failed only for want of a connection succeeds when it is
/// made again online, on the same collection. And being online changes
/// nothing else: any other failure is the same online and offline.
pub proof fn law_retry_online(shelf: Shelf, playlist: Seq<char>, song: Seq<char>)
    ensures
        played(shelf, playlist, song, false) == Err::<Seq<char>, ErrorModel>(ErrorModel::Offline)
            <==> played(shelf, playlist, song, true) is Ok,
        played(shelf, playlist, song, true) matches Ok(text) ==> text == now_playing(song),
        played(shelf, playlist, song, true) matches Err(e) ==> e != ErrorModel::Offline && played(
            shelf,
            playlist,
            song,
            false,
        ) == Err::<Seq<char>, ErrorModel>(e),
{
}

} // verus!
