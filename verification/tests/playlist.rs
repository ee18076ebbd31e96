use mpris::errors::InvalidPlaylist;
use mpris::errors::InvalidPlaylistOrdering;
use mpris::{MprisError, Playlist, PlaylistOrdering};

#[test]
fn parsing() {
    assert_eq!("Alphabetical".parse(), Ok(PlaylistOrdering::Alphabetical));
    assert_eq!("Created".parse(), Ok(PlaylistOrdering::CreationDate));
    assert_eq!("Modified".parse(), Ok(PlaylistOrdering::ModifiedDate));
    assert_eq!("Played".parse(), Ok(PlaylistOrdering::LastPlayDate));
    assert_eq!("User".parse(), Ok(PlaylistOrdering::UserDefined));

    assert!("alphabetical".parse::<PlaylistOrdering>().is_err());
    assert!("created".parse::<PlaylistOrdering>().is_err());
    assert!("modified".parse::<PlaylistOrdering>().is_err());
    assert!("played".parse::<PlaylistOrdering>().is_err());
    assert!("user".parse::<PlaylistOrdering>().is_err());
    assert!("wrong".parse::<PlaylistOrdering>().is_err());
    assert!("".parse::<PlaylistOrdering>().is_err())
}

#[test]
fn parsing_says_what_it_expects() {
    let expected = InvalidPlaylistOrdering::from(
        "expected \"Alphabetical\", \"Created\", \"Modified\", \"Played\" or \"User\"",
    );
    assert_eq!("CreationDate".parse::<PlaylistOrdering>(), Err(expected.clone()));
    assert_eq!(PlaylistOrdering::parse(""), Err(expected.clone()));
    assert_eq!(
        MprisError::from(expected),
        MprisError::ParseError(
            "expected \"Alphabetical\", \"Created\", \"Modified\", \"Played\" or \"User\"".to_string()
        )
    );
}

#[test]
fn as_str() {
    assert_eq!(
        PlaylistOrdering::Alphabetical.as_str_value(),
        "Alphabetical"
    );
    assert_eq!(PlaylistOrdering::CreationDate.as_str_value(), "Created");
    assert_eq!(PlaylistOrdering::ModifiedDate.as_str_value(), "Modified");
    assert_eq!(PlaylistOrdering::LastPlayDate.as_str_value(), "Played");
    assert_eq!(PlaylistOrdering::UserDefined.as_str_value(), "User");
}

#[test]
fn disaply() {
    assert_eq!(&PlaylistOrdering::Alphabetical.to_string(), "Alphabetical");
    assert_eq!(&PlaylistOrdering::CreationDate.to_string(), "CreationDate");
    assert_eq!(&PlaylistOrdering::LastPlayDate.to_string(), "LastPlayDate");
    assert_eq!(&PlaylistOrdering::UserDefined.to_string(), "UserDefined");
}

#[test]
fn ordering_names_round_trip() {
    for ordering in [
        PlaylistOrdering::Alphabetical,
        PlaylistOrdering::CreationDate,
        PlaylistOrdering::ModifiedDate,
        PlaylistOrdering::LastPlayDate,
        PlaylistOrdering::UserDefined,
    ] {
        assert_eq!(PlaylistOrdering::parse(ordering.as_str_value()), Ok(ordering));
    }
    assert_eq!(&PlaylistOrdering::ModifiedDate.to_string(), "ModifiedDate");
}

#[test]
fn playlist_new() {
    let new = Playlist::new(
        String::from("/valid/path"),
        String::from("TestName"),
        Some(String::from("TestIcon")),
    );
    let playlist = new.expect("the path is valid");
    assert_eq!(playlist.get_id_as_str(), "/valid/path");
    assert_eq!(playlist.get_name(), "TestName");
    assert_eq!(playlist.get_icon(), Some("TestIcon"));
    assert_eq!(
        Ok(playlist),
        Playlist::new(
            String::from("/valid/path"),
            String::from("TestName"),
            Some(String::from("TestIcon")),
        )
    );
}

#[test]
fn gets() {
    let new = Playlist::new(
        String::from("/valid/path"),
        String::from("TestName"),
        Some(String::from("TestIcon")),
    )
    .unwrap();
    assert_eq!(new.get_name(), "TestName");
    assert_eq!(new.get_icon(), Some("TestIcon"));
    assert_eq!(
        zbus::ObjectPath::try_from(new.get_id_as_str()).unwrap(),
        zbus::ObjectPath::from_str_unchecked("/valid/path")
    );
    assert_eq!(new.get_id_as_str(), "/valid/path");

    let without_icon =
        Playlist::new(String::from("/valid/path"), String::from("TestName"), None).unwrap();
    assert_eq!(without_icon.get_icon(), None);
}

#[test]
fn playlist_with_invalid_path() {
    assert_eq!(
        Playlist::new(String::from("invalid/path"), String::from("n"), None),
        Err(InvalidPlaylist::from("Invalid object path"))
    );
    assert_eq!(
        Playlist::from_parts(String::from(""), String::from("n"), String::from("i")),
        Err(InvalidPlaylist::from("Invalid object path"))
    );
    assert_eq!(
        MprisError::from(InvalidPlaylist::from("Invalid object path")),
        MprisError::ParseError("Invalid object path".to_string())
    );
}

#[test]
fn playlist_from_parts() {
    let with_icon =
        Playlist::from_parts(String::from("/a"), String::from("name"), String::from("icon"))
            .unwrap();
    assert_eq!(with_icon.get_icon(), Some("icon"));
    let without =
        Playlist::from_parts(String::from("/a"), String::from("name"), String::new()).unwrap();
    assert_eq!(without.get_icon(), None);
    assert_eq!(without.get_name(), "name");
    assert_eq!(without.get_id_as_str(), "/a");
    assert_ne!(with_icon, without);
    assert_eq!(without.clone(), without);
}
