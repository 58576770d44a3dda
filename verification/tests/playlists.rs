use mediaplayer::error::MusicError;
use mediaplayer::playlists::{add_song, create_playlist, play_song, Playlists};

fn text(s: &str) -> String {
    s.to_string()
}

fn road_trip() -> Playlists {
    let mut playlists = Playlists::new();
    create_playlist(&mut playlists, "Road Trip").unwrap();
    add_song(&mut playlists, "Road Trip", "Sunny Day").unwrap();
    playlists
}

#[test]
fn new_collection_is_empty() {
    let playlists = Playlists::new();
    assert!(playlists.is_empty());
    assert!(playlists.names().is_empty());
    assert!(!playlists.contains("Road Trip"));
    assert_eq!(playlists.songs("Road Trip"), None);
}

#[test]
fn create_adds_an_empty_playlist() {
    let mut playlists = Playlists::new();
    assert_eq!(create_playlist(&mut playlists, "Road Trip"), Ok(()));
    assert!(!playlists.is_empty());
    assert!(playlists.contains("Road Trip"));
    assert_eq!(playlists.names(), vec![text("Road Trip")]);
    assert_eq!(playlists.songs("Road Trip"), Some(vec![]));
}

#[test]
fn create_twice_fails_and_changes_nothing() {
    let mut playlists = road_trip();
    create_playlist(&mut playlists, "Chill").unwrap();
    assert_eq!(
        create_playlist(&mut playlists, "Road Trip"),
        Err(MusicError::PlaylistAlreadyExists(text("Road Trip")))
    );
    assert_eq!(playlists.names(), vec![text("Road Trip"), text("Chill")]);
    assert_eq!(playlists.songs("Road Trip"), Some(vec![text("Sunny Day")]));
    assert_eq!(playlists.songs("Chill"), Some(vec![]));
}

#[test]
fn names_are_case_sensitive() {
    let mut playlists = road_trip();
    assert_eq!(create_playlist(&mut playlists, "road trip"), Ok(()));
    assert_eq!(add_song(&mut playlists, "Road Trip", "sunny day"), Ok(()));
    assert_eq!(
        playlists.songs("Road Trip"),
        Some(vec![text("Sunny Day"), text("sunny day")])
    );
    assert_eq!(playlists.songs("road trip"), Some(vec![]));
}

#[test]
fn create_takes_an_empty_name_as_it_is() {
    let mut playlists = Playlists::new();
    assert_eq!(create_playlist(&mut playlists, ""), Ok(()));
    assert!(playlists.contains(""));
    assert_eq!(
        create_playlist(&mut playlists, ""),
        Err(MusicError::PlaylistAlreadyExists(text("")))
    );
}

#[test]
fn add_song_to_missing_playlist_fails() {
    let mut playlists = road_trip();
    assert_eq!(
        add_song(&mut playlists, "Nowhere", "Sunny Day"),
        Err(MusicError::PlaylistNotFound(text("Nowhere")))
    );
    assert_eq!(playlists.names(), vec![text("Road Trip")]);
    assert_eq!(playlists.songs("Road Trip"), Some(vec![text("Sunny Day")]));
}

#[test]
fn add_song_twice_fails_and_keeps_the_length() {
    let mut playlists = road_trip();
    add_song(&mut playlists, "Road Trip", "Highway").unwrap();
    assert_eq!(
        add_song(&mut playlists, "Road Trip", "Sunny Day"),
        Err(MusicError::SongAlreadyInPlaylist(text("Sunny Day")))
    );
    assert_eq!(
        playlists.songs("Road Trip"),
        Some(vec![text("Sunny Day"), text("Highway")])
    );
}

#[test]
fn missing_playlist_is_reported_before_duplicate_song() {
    let mut playlists = road_trip();
    assert_eq!(
        add_song(&mut playlists, "Sunny Day", "Sunny Day"),
        Err(MusicError::PlaylistNotFound(text("Sunny Day")))
    );
}

#[test]
fn songs_keep_the_order_of_addition() {
    let mut playlists = Playlists::new();
    create_playlist(&mut playlists, "A").unwrap();
    create_playlist(&mut playlists, "B").unwrap();
    for song in ["c", "a", "b", "z", "d"] {
        assert_eq!(add_song(&mut playlists, "A", song), Ok(()));
    }
    add_song(&mut playlists, "B", "a").unwrap();
    assert!(add_song(&mut playlists, "A", "a").is_err());
    assert_eq!(
        playlists.songs("A"),
        Some(vec![text("c"), text("a"), text("b"), text("z"), text("d")])
    );
    assert_eq!(playlists.songs("B"), Some(vec![text("a")]));
}

#[test]
fn same_song_may_be_in_two_playlists() {
    let mut playlists = road_trip();
    create_playlist(&mut playlists, "Chill").unwrap();
    assert_eq!(add_song(&mut playlists, "Chill", "Sunny Day"), Ok(()));
    assert_eq!(playlists.songs("Chill"), Some(vec![text("Sunny Day")]));
}

#[test]
fn play_missing_playlist_fails_online_or_not() {
    let playlists = road_trip();
    for online in [false, true] {
        assert_eq!(
            play_song(&playlists, "Nowhere", "Sunny Day", online),
            Err(MusicError::PlaylistNotFound(text("Nowhere")))
        );
    }
}

#[test]
fn play_from_empty_playlist_fails() {
    let mut playlists = road_trip();
    create_playlist(&mut playlists, "Empty List").unwrap();
    for online in [false, true] {
        assert_eq!(
            play_song(&playlists, "Empty List", "Sunny Day", online),
            Err(MusicError::EmptyPlaylist(text("Empty List")))
        );
    }
}

#[test]
fn play_missing_song_fails_before_offline() {
    let playlists = road_trip();
    for online in [false, true] {
        assert_eq!(
            play_song(&playlists, "Road Trip", "Missing Song", online),
            Err(MusicError::SongNotFound(text("Missing Song")))
        );
    }
}

#[test]
fn play_offline_fails() {
    let playlists = road_trip();
    assert_eq!(
        play_song(&playlists, "Road Trip", "Sunny Day", false),
        Err(MusicError::Offline)
    );
}

#[test]
fn play_online_announces_the_song() {
    let playlists = road_trip();
    assert_eq!(
        play_song(&playlists, "Road Trip", "Sunny Day", true),
        Ok(text("♪  Afspiller nu: 'Sunny Day'  ♪"))
    );
}

#[test]
fn play_finds_a_song_that_is_not_first() {
    let mut playlists = road_trip();
    add_song(&mut playlists, "Road Trip", "Highway").unwrap();
    add_song(&mut playlists, "Road Trip", "Dusk").unwrap();
    let message = play_song(&playlists, "Road Trip", "Dusk", true).unwrap();
    assert!(message.contains("Dusk"));
    assert_eq!(message, "♪  Afspiller nu: 'Dusk'  ♪");
}

#[test]
fn play_changes_nothing() {
    let mut playlists = road_trip();
    create_playlist(&mut playlists, "Empty List").unwrap();
    let _ = play_song(&playlists, "Road Trip", "Sunny Day", true);
    let _ = play_song(&playlists, "Road Trip", "Sunny Day", false);
    let _ = play_song(&playlists, "Road Trip", "Missing Song", true);
    let _ = play_song(&playlists, "Empty List", "Sunny Day", true);
    let _ = play_song(&playlists, "Nowhere", "Sunny Day", true);
    assert_eq!(playlists.names(), vec![text("Road Trip"), text("Empty List")]);
    assert_eq!(playlists.songs("Road Trip"), Some(vec![text("Sunny Day")]));
    assert_eq!(playlists.songs("Empty List"), Some(vec![]));
    assert!(!playlists.contains("Nowhere"));
}

#[test]
fn road_trip_scenario() {
    let mut playlists = Playlists::new();
    assert_eq!(create_playlist(&mut playlists, "Road Trip"), Ok(()));
    assert_eq!(
        create_playlist(&mut playlists, "Road Trip"),
        Err(MusicError::PlaylistAlreadyExists(text("Road Trip")))
    );
    assert_eq!(add_song(&mut playlists, "Road Trip", "Sunny Day"), Ok(()));
    assert_eq!(
        add_song(&mut playlists, "Road Trip", "Sunny Day"),
        Err(MusicError::SongAlreadyInPlaylist(text("Sunny Day")))
    );
    assert_eq!(
        play_song(&playlists, "Road Trip", "Sunny Day", false),
        Err(MusicError::Offline)
    );
    let message = play_song(&playlists, "Road Trip", "Sunny Day", true).unwrap();
    assert!(message.contains("Sunny Day"));
    assert_eq!(
        play_song(&playlists, "Road Trip", "Missing Song", true),
        Err(MusicError::SongNotFound(text("Missing Song")))
    );
    assert_eq!(create_playlist(&mut playlists, "Empty List"), Ok(()));
    assert_eq!(
        play_song(&playlists, "Empty List", "Sunny Day", true),
        Err(MusicError::EmptyPlaylist(text("Empty List")))
    );
}

#[test]
fn error_messages_name_what_is_wrong() {
    assert_eq!(
        MusicError::PlaylistAlreadyExists(text("Road Trip")).message(),
        "Playlist 'Road Trip' eksisterer allerede."
    );
    assert_eq!(
        MusicError::PlaylistNotFound(text("Road Trip")).message(),
        "Playlist 'Road Trip' blev ikke fundet."
    );
    assert_eq!(
        MusicError::SongAlreadyInPlaylist(text("Sunny Day")).message(),
        "Sangen 'Sunny Day' er allerede på listen."
    );
    assert_eq!(
        MusicError::SongNotFound(text("Sunny Day")).message(),
        "Sangen 'Sunny Day' findes ikke."
    );
    assert_eq!(
        MusicError::EmptyPlaylist(text("Empty List")).message(),
        "Playlist 'Empty List' er tom."
    );
    assert_eq!(
        MusicError::Offline.message(),
        "Ingen internetforbindelse – prøv igen."
    );
    assert_eq!(MusicError::InvalidUser.message(), "Ugyldigt brugernavn.");
}

#[test]
fn names_with_non_ascii_characters() {
    let mut playlists = Playlists::new();
    create_playlist(&mut playlists, "Søndag").unwrap();
    add_song(&mut playlists, "Søndag", "Blå himmel").unwrap();
    assert_eq!(
        play_song(&playlists, "Søndag", "Blå himmel", true),
        Ok(text("♪  Afspiller nu: 'Blå himmel'  ♪"))
    );
    assert_eq!(
        play_song(&playlists, "Sondag", "Blå himmel", true),
        Err(MusicError::PlaylistNotFound(text("Sondag")))
    );
}

#[test]
fn operations_are_reachable_from_the_crate_root() {
    let mut playlists = mediaplayer::Playlists::new();
    assert_eq!(mediaplayer::create_playlist(&mut playlists, "Mix"), Ok(()));
    assert_eq!(mediaplayer::add_song(&mut playlists, "Mix", "One"), Ok(()));
    assert_eq!(
        mediaplayer::play_song(&playlists, "Mix", "One", false),
        Err(mediaplayer::MusicError::Offline)
    );
}
