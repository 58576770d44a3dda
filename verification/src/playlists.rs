//! The playlist collection and the three operations on it.
//!
//! A collection is modelled as a map from a playlist's name to the sequence of
//! its songs, in the order in which they were added. What each operation does
//! is a function on that map; the executable operations are proved to compute
//! it.

use vstd::prelude::*;
use vstd::string::*;
use crate::error::{embed, ErrorModel, MusicError};

verus! {

/// The model of a collection: each playlist's name with its songs in order.
pub type Shelf = Map<Seq<char>, Seq<Seq<char>>>;

/// The songs of a list as character sequences, in the list's order.
pub open spec fn titles(songs: Seq<String>) -> Seq<Seq<char>> {
    Seq::new(songs.len(), |i: int| songs[i]@)
}

/// No playlist of the shelf holds a song twice.
pub open spec fn songs_distinct(shelf: Shelf) -> bool {
    forall|name: Seq<char>| #[trigger] shelf.contains_key(name) ==> shelf[name].no_duplicates()
}

/// The text that announces that `song` is playing.
pub open spec fn now_playing(song: Seq<char>) -> Seq<char> {
    "♪  Afspiller nu: '"@ + song + "'  ♪"@
}

/// What creating a playlist does: the shelf with the new, empty playlist, or
/// the failure when the name is taken.
pub open spec fn created(shelf: Shelf, name: Seq<char>) -> Result<Shelf, ErrorModel> {
    if shelf.contains_key(name) {
        Err(ErrorModel::PlaylistAlreadyExists(name))
    } else {
        Ok(shelf.insert(name, Seq::empty()))
    }
}

/// What adding a song does: the shelf with the song appended to the playlist,
/// or the failure. A missing playlist is reported before a song that is
/// already there.
pub open spec fn added(shelf: Shelf, playlist: Seq<char>, song: Seq<char>) -> Result<
    Shelf,
    ErrorModel,
> {
    if !shelf.contains_key(playlist) {
        Err(ErrorModel::PlaylistNotFound(playlist))
    } else if shelf[playlist].contains(song) {
        Err(ErrorModel::SongAlreadyInPlaylist(song))
    } else {
        Ok(shelf.insert(playlist, shelf[playlist].push(song)))
    }
}

/// What playing a song answers. The checks come in a fixed order: the
/// playlist exists, it is not empty, it holds the song, and only then the
/// connection. Playing is a reading: its answer holds no new shelf, the
/// shelf stays as it is.
pub open spec fn played(shelf: Shelf, playlist: Seq<char>, song: Seq<char>, online: bool) -> Result<
    Seq<char>,
    ErrorModel,
> {
    if !shelf.contains_key(playlist) {
        Err(ErrorModel::PlaylistNotFound(playlist))
    } else if shelf[playlist].len() == 0 {
        Err(ErrorModel::EmptyPlaylist(playlist))
    } else if !shelf[playlist].contains(song) {
        Err(ErrorModel::SongNotFound(song))
    } else if !online {
        Err(ErrorModel::Offline)
    } else {
        Ok(now_playing(song))
    }
}

/// One playlist: its name and its songs in the order they were added.
struct Playlist {
    name: String,
    songs: Vec<String>,
}

/// No two playlists share a name, and no playlist holds a song twice.
spec fn coherent(entries: Seq<Playlist>) -> bool {
    &&& forall|i: int, j: int|
        0 <= i < j < entries.len() ==> entries[i].name@ != entries[j].name@
    &&& forall|i: int| 0 <= i < entries.len() ==> (#[trigger] titles(entries[i].songs@)).no_duplicates()
}

/// Some playlist among `entries` is called `name`.
spec fn listed(entries: Seq<Playlist>, name: Seq<char>) -> bool {
    exists|i: int| 0 <= i < entries.len() && (#[trigger] entries[i]).name@ == name
}

/// The place of a playlist called `name` among `entries`.
spec fn place(entries: Seq<Playlist>, name: Seq<char>) -> int {
    choose|i: int| 0 <= i < entries.len() && (#[trigger] entries[i]).name@ == name
}

/// The names of `entries`, first to last.
spec fn order_of(entries: Seq<Playlist>) -> Seq<Seq<char>> {
    Seq::new(entries.len(), |i: int| entries[i].name@)
}

/// The shelf that `entries` stand for.
spec fn shelf_of(entries: Seq<Playlist>) -> Shelf {
    Map::new(
        |name: Seq<char>| listed(entries, name),
        |name: Seq<char>| titles(entries[place(entries, name)].songs@),
    )
}

/// Where names are unique, the playlist at place `i` is the one its name
/// leads to.
proof fn lemma_place(entries: Seq<Playlist>, i: int)
    requires
        coherent(entries),
        0 <= i < entries.len(),
    ensures
        listed(entries, entries[i].name@),
        place(entries, entries[i].name@) == i,
        shelf_of(entries).contains_key(entries[i].name@),
        shelf_of(entries)[entries[i].name@] == titles(entries[i].songs@),
{
    let name = entries[i].name@;
    assert(entries[i].name@ == name);
    let p = place(entries, name);
    assert(0 <= p < entries.len() && entries[p].name@ == name);
    if p < i {
        assert(entries[p].name@ != entries[i].name@);
    } else if i < p {
        assert(entries[i].name@ != entries[p].name@);
    }
}

/// Where the entries are coherent, no playlist of their shelf holds a song
/// twice.
proof fn lemma_shelf_distinct(entries: Seq<Playlist>)
    requires
        coherent(entries),
    ensures
        songs_distinct(shelf_of(entries)),
{
    let shelf = shelf_of(entries);
    assert forall|name: Seq<char>| #[trigger] shelf.contains_key(name) implies shelf[name].no_duplicates() by {
        let p = place(entries, name);
        assert(titles(entries[p].songs@).no_duplicates());
    }
}

/// A playlist under a new name joins the shelf and leaves the rest as it was.
proof fn lemma_entry_pushed(before: Seq<Playlist>, entry: Playlist)
    requires
        coherent(before),
        !listed(before, entry.name@),
        titles(entry.songs@).no_duplicates(),
    ensures
        coherent(before.push(entry)),
        shelf_of(before.push(entry)) == shelf_of(before).insert(
            entry.name@,
            titles(entry.songs@),
        ),
{
    let after = before.push(entry);
    let last = before.len() as int;
    assert forall|i: int, j: int| 0 <= i < j < after.len() implies after[i].name@
        != after[j].name@ by {
        if j == last {
            assert(before[i].name@ != entry.name@);
        }
    }
    assert(coherent(after));
    let goal = shelf_of(before).insert(entry.name@, titles(entry.songs@));
    assert forall|name: Seq<char>| shelf_of(after).contains_key(name) <==> goal.contains_key(
        name,
    ) by {
        if listed(after, name) {
            let i = place(after, name);
            if i < last {
                assert(before[i].name@ == name);
            }
        }
        if listed(before, name) {
            let i = place(before, name);
            assert(after[i].name@ == name);
        }
        if name == entry.name@ {
            assert(after[last].name@ == name);
        }
    }
    assert forall|name: Seq<char>| shelf_of(after).contains_key(name) implies shelf_of(after)[name]
        == goal[name] by {
        let i = place(after, name);
        lemma_place(after, i);
        if i < last {
            lemma_place(before, i);
        }
    }
    assert(shelf_of(after) =~= goal);
}

/// New songs for the playlist at place `i` change that playlist on the shelf
/// and no other.
proof fn lemma_entry_replaced(before: Seq<Playlist>, i: int, entry: Playlist)
    requires
        coherent(before),
        0 <= i < before.len(),
        entry.name@ == before[i].name@,
        titles(entry.songs@).no_duplicates(),
    ensures
        coherent(before.update(i, entry)),
        shelf_of(before.update(i, entry)) == shelf_of(before).insert(
            entry.name@,
            titles(entry.songs@),
        ),
{
    let after = before.update(i, entry);
    assert forall|a: int, b: int| 0 <= a < b < after.len() implies after[a].name@
        != after[b].name@ by {
        assert(before[a].name@ != before[b].name@);
    }
    assert forall|k: int| 0 <= k < after.len() implies (#[trigger] titles(
        after[k].songs@,
    )).no_duplicates() by {
        if k != i {
            assert(titles(before[k].songs@).no_duplicates());
        }
    }
    assert(coherent(after));
    let goal = shelf_of(before).insert(entry.name@, titles(entry.songs@));
    assert forall|name: Seq<char>| shelf_of(after).contains_key(name) <==> goal.contains_key(
        name,
    ) by {
        if listed(after, name) {
            let k = place(after, name);
            assert(before[k].name@ == name);
        }
        if listed(before, name) {
            let k = place(before, name);
            assert(after[k].name@ == name);
        }
        if name == entry.name@ {
            assert(after[i].name@ == name);
        }
    }
    assert forall|name: Seq<char>| shelf_of(after).contains_key(name) implies shelf_of(after)[name]
        == goal[name] by {
        let k = place(after, name);
        lemma_place(after, k);
        lemma_place(before, k);
    }
    assert(shelf_of(after) =~= goal);
}

/// A song that the list does not hold may follow it without a repeat.
proof fn lemma_song_pushed(songs: Seq<String>, song: String)
    requires
        titles(songs).no_duplicates(),
        !titles(songs).contains(song@),
    ensures
        titles(songs.push(song)) == titles(songs).push(song@),
        titles(songs.push(song)).no_duplicates(),
{
    let after = titles(songs.push(song));
    assert(after =~= titles(songs).push(song@));
    assert forall|a: int, b: int| 0 <= a < after.len() && 0 <= b < after.len() && a != b implies after[a] != after[b] by {
        if a < songs.len() && b < songs.len() {
            assert(titles(songs)[a] != titles(songs)[b]);
        } else if a < songs.len() {
            assert(titles(songs)[a] != song@);
        } else {
            assert(titles(songs)[b] != song@);
        }
    }
}

/// The playlist collection: every playlist by its name, each with its songs
/// in the order in which they were added.
///
/// Playlist names are unique and no playlist holds a song twice. Names are
/// compared exactly, character by character.
pub struct Playlists {
    entries: Vec<Playlist>,
}

impl View for Playlists {
    type V = Shelf;

    closed spec fn view(&self) -> Shelf {
        shelf_of(self.entries@)
    }
}

/// The place of the playlist called `name`, if there is one.
fn find_playlist(entries: &Vec<Playlist>, name: &String) -> (found: Option<usize>)
    ensures
        match found {
            Some(i) => i < entries@.len() && entries@[i as int].name@ == name@,
            None => !listed(entries@, name@),
        },
{
    let mut i: usize = 0;
    while i < entries.len()
        invariant
            i <= entries@.len(),
            forall|k: int| 0 <= k < i ==> entries@[k].name@ != name@,
        decreases entries@.len() - i,
    {
        if entries[i].name == *name {
            return Some(i);
        }
        i += 1;
    }
    None
}

/// Whether `songs` holds `song`.
fn holds_song(songs: &Vec<String>, song: &String) -> (found: bool)
    ensures
        found == titles(songs@).contains(song@),
{
    let mut i: usize = 0;
    while i < songs.len()
        invariant
            i <= songs@.len(),
            forall|k: int| 0 <= k < i ==> titles(songs@)[k] != song@,
        decreases songs@.len() - i,
    {
        if songs[i] == *song {
            assert(titles(songs@)[i as int] == song@);
            return true;
        }
        i += 1;
    }
    false
}

impl Playlists {
    #[verifier::type_invariant]
    spec fn well_formed(self) -> bool {
        coherent(self.entries@)
    }

    /// The names of the playlists in the order in which they were created,
    /// which is the order in which they are listed.
    pub closed spec fn order(&self) -> Seq<Seq<char>> {
        order_of(self.entries@)
    }

    /// The empty collection.
    pub fn new() -> (playlists: Self)
        ensures
            playlists@ == Map::<Seq<char>, Seq<Seq<char>>>::empty(),
            playlists.order() == Seq::<Seq<char>>::empty(),
            songs_distinct(playlists@),
    {
        let playlists = Playlists { entries: Vec::new() };
        assert(playlists.order() =~= Seq::<Seq<char>>::empty());
        assert(playlists@ =~= Map::<Seq<char>, Seq<Seq<char>>>::empty());
        playlists
    }

    /// Whether there is no playlist at all.
    pub fn is_empty(&self) -> (empty: bool)
        ensures
            empty == (self@ == Map::<Seq<char>, Seq<Seq<char>>>::empty()),
            empty == (self.order().len() == 0),
    {
        let empty = self.entries.len() == 0;
        proof {
            if empty {
                assert(self@ =~= Map::<Seq<char>, Seq<Seq<char>>>::empty());
            } else {
                assert(listed(self.entries@, self.entries@[0].name@));
                assert(self@.contains_key(self.entries@[0].name@));
            }
        }
        empty
    }

    /// Whether there is a playlist called `name`.
    pub fn contains(&self, name: &str) -> (found: bool)
        ensures
            found == self@.contains_key(name@),
    {
        let key = String::from_str(name);
        find_playlist(&self.entries, &key).is_some()
    }

    /// The names of all playlists, each once, in the order in which they
    /// were created.
    pub fn names(&self) -> (names: Vec<String>)
        ensures
            titles(names@) == self.order(),
            titles(names@).no_duplicates(),
            forall|name: Seq<char>| titles(names@).contains(name) <==> self@.contains_key(name),
    {
        proof {
            use_type_invariant(self);
        }
        let mut names: Vec<String> = Vec::new();
        let mut i: usize = 0;
        while i < self.entries.len()
            invariant
                i <= self.entries@.len(),
                names@.len() == i,
                forall|k: int| 0 <= k < i ==> (#[trigger] names@[k])@ == self.entries@[k].name@,
            decreases self.entries@.len() - i,
        {
            names.push(self.entries[i].name.clone());
            i += 1;
        }
        proof {
            let entries = self.entries@;
            let got = titles(names@);
            assert(got =~= self.order());
            assert forall|a: int, b: int| 0 <= a < got.len() && 0 <= b < got.len() && a != b implies got[a] != got[b] by {
                assert(names@[a]@ == entries[a].name@ && names@[b]@ == entries[b].name@);
                if a < b {
                    assert(entries[a].name@ != entries[b].name@);
                } else {
                    assert(entries[b].name@ != entries[a].name@);
                }
            }
            assert forall|name: Seq<char>| got.contains(name) <==> self@.contains_key(name) by {
                if got.contains(name) {
                    let k = choose|k: int| 0 <= k < got.len() && got[k] == name;
                    assert(names@[k]@ == entries[k].name@);
                    assert(listed(entries, name));
                }
                if listed(entries, name) {
                    let k = place(entries, name);
                    assert(names@[k]@ == entries[k].name@);
                    assert(got[k] == name);
                }
            }
        }
        names
    }

    /// The songs of the playlist called `name`, in the order in which they
    /// were added; `None` if there is no such playlist.
    pub fn songs(&self, name: &str) -> (songs: Option<Vec<String>>)
        ensures
            match songs {
                Some(list) => self@.contains_key(name@) && titles(list@) == self@[name@],
                None => !self@.contains_key(name@),
            },
            songs_distinct(self@),
    {
        proof {
            use_type_invariant(self);
            lemma_shelf_distinct(self.entries@);
        }
        let key = String::from_str(name);
        match find_playlist(&self.entries, &key) {
            None => None,
            Some(i) => {
                proof {
                    lemma_place(self.entries@, i as int);
                }
                let stored = &self.entries[i].songs;
                let mut list: Vec<String> = Vec::new();
                let mut k: usize = 0;
                while k < stored.len()
                    invariant
                        k <= stored@.len(),
                        list@.len() == k,
                        forall|j: int| 0 <= j < k ==> (#[trigger] list@[j])@ == stored@[j]@,
                    decreases stored@.len() - k,
                {
                    list.push(stored[k].clone());
                    k += 1;
                }
                assert(titles(list@) =~= titles(stored@));
                Some(list)
            },
        }
    }
}

/// Creates the empty playlist `name`.
///
/// Fails with `PlaylistAlreadyExists(name)` when a playlist of that name is
/// there, and then changes nothing. The name is taken as it is: an empty one
/// is a name like any other.
pub fn create_playlist(playlists: &mut Playlists, name: &str) -> (res: Result<(), MusicError>)
    ensures
        match created(old(playlists)@, name@) {
            Ok(shelf) => res is Ok && final(playlists)@ == shelf,
            Err(e) => res matches Err(x) && x@ == e && final(playlists)@ == old(playlists)@,
        },
        final(playlists).order() == (if res is Ok {
            old(playlists).order().push(name@)
        } else {
            old(playlists).order()
        }),
        songs_distinct(final(playlists)@),
{
    proof {
        use_type_invariant(&*playlists);
        lemma_shelf_distinct(playlists.entries@);
    }
    let key = String::from_str(name);
    match find_playlist(&playlists.entries, &key) {
        Some(i) => {
            proof {
                lemma_place(playlists.entries@, i as int);
            }
            Err(MusicError::PlaylistAlreadyExists(key))
        },
        None => {
            let entry = Playlist { name: key, songs: Vec::new() };
            let mut entries: Vec<Playlist> = Vec::new();
            std::mem::swap(&mut entries, &mut playlists.entries);
            proof {
                assert(titles(entry.songs@) =~= Seq::<Seq<char>>::empty());
                lemma_entry_pushed(entries@, entry);
                lemma_shelf_distinct(entries@.push(entry));
                assert(order_of(entries@.push(entry)) =~= order_of(entries@).push(name@));
            }
            entries.push(entry);
            playlists.entries = entries;
            Ok(())
        },
    }
}

/// Appends `song` to the playlist `playlist`.
///
/// Fails with `PlaylistNotFound(playlist)` when there is no such playlist,
/// else with `SongAlreadyInPlaylist(song)` when the playlist holds the song.
/// A failure changes nothing.
pub fn add_song(playlists: &mut Playlists, playlist: &str, song: &str) -> (res: Result<
    (),
    MusicError,
>)
    ensures
        match added(old(playlists)@, playlist@, song@) {
            Ok(shelf) => res is Ok && final(playlists)@ == shelf,
            Err(e) => res matches Err(x) && x@ == e && final(playlists)@ == old(playlists)@,
        },
        final(playlists).order() == old(playlists).order(),
        songs_distinct(final(playlists)@),
{
    proof {
        use_type_invariant(&*playlists);
        lemma_shelf_distinct(playlists.entries@);
    }
    let key = String::from_str(playlist);
    let title = String::from_str(song);
    match find_playlist(&playlists.entries, &key) {
        None => Err(MusicError::PlaylistNotFound(key)),
        Some(i) => {
            proof {
                lemma_place(playlists.entries@, i as int);
            }
            if holds_song(&playlists.entries[i].songs, &title) {
                Err(MusicError::SongAlreadyInPlaylist(title))
            } else {
                let mut entries: Vec<Playlist> = Vec::new();
                std::mem::swap(&mut entries, &mut playlists.entries);
                let ghost before = entries@;
                proof {
                    lemma_song_pushed(before[i as int].songs@, title);
                }
                entries[i].songs.push(title);
                proof {
                    assert(entries@ =~= before.update(i as int, entries@[i as int]));
                    lemma_entry_replaced(before, i as int, entries@[i as int]);
                    lemma_shelf_distinct(entries@);
                    assert(order_of(entries@) =~= order_of(before));
                }
                playlists.entries = entries;
                Ok(())
            }
        },
    }
}

/// Plays `song` from the playlist `playlist`: answers the text that announces
/// it. Nothing is changed.
///
/// The failures, in the order in which they are looked for:
/// `PlaylistNotFound(playlist)`, `EmptyPlaylist(playlist)`,
/// `SongNotFound(song)`, and `Offline` when `online` is false. So the
/// connection is blamed only for a song that could be played.
pub fn play_song(playlists: &Playlists, playlist: &str, song: &str, online: bool) -> (res: Result<
    String,
    MusicError,
>)
    ensures
        match played(playlists@, playlist@, song@, online) {
            Ok(text) => res matches Ok(t) && t@ == text,
            Err(e) => res matches Err(x) && x@ == e,
        },
{
    proof {
        use_type_invariant(playlists);
    }
    let key = String::from_str(playlist);
    match find_playlist(&playlists.entries, &key) {
        None => Err(MusicError::PlaylistNotFound(key)),
        Some(i) => {
            proof {
                lemma_place(playlists.entries@, i as int);
            }
            let songs = &playlists.entries[i].songs;
            let title = String::from_str(song);
            if songs.len() == 0 {
                Err(MusicError::EmptyPlaylist(key))
            } else if !holds_song(songs, &title) {
                Err(MusicError::SongNotFound(title))
            } else if !online {
                Err(MusicError::Offline)
            } else {
                Ok(embed("♪  Afspiller nu: '", song, "'  ♪"))
            }
        },
    }
}

} // verus!
