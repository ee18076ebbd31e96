use mpris::errors::{InvalidLoopStatus, InvalidPlaybackStatus};
use mpris::{LoopStatus, MprisError, PlaybackStatus};

#[test]
fn valid_playback_status() {
    assert_eq!("Playing".parse(), Ok(PlaybackStatus::Playing));
    assert_eq!("Paused".parse(), Ok(PlaybackStatus::Paused));
    assert_eq!("Stopped".parse(), Ok(PlaybackStatus::Stopped));
}

#[test]
fn invalid_playback_status() {
    assert_eq!(
        "".parse::<PlaybackStatus>(),
        Err(InvalidPlaybackStatus::from(""))
    );
    assert_eq!(
        "playing".parse::<PlaybackStatus>(),
        Err(InvalidPlaybackStatus::from("playing"))
    );
    assert_eq!(
        "wrong".parse::<PlaybackStatus>(),
        Err(InvalidPlaybackStatus::from("wrong"))
    );
}

#[test]
fn playback_status_as_str() {
    assert_eq!(PlaybackStatus::Playing.as_str(), "Playing");
    assert_eq!(PlaybackStatus::Paused.as_str(), "Paused");
    assert_eq!(PlaybackStatus::Stopped.as_str(), "Stopped");
}

#[test]
fn valid_loop_status() {
    assert_eq!("None".parse(), Ok(LoopStatus::NoLoop));
    assert_eq!("Track".parse(), Ok(LoopStatus::Track));
    assert_eq!("Playlist".parse(), Ok(LoopStatus::Playlist));
}

#[test]
fn invalid_loop_status() {
    assert_eq!("".parse::<LoopStatus>(), Err(InvalidLoopStatus::from("")));
    assert_eq!(
        "track".parse::<LoopStatus>(),
        Err(InvalidLoopStatus::from("track"))
    );
    assert_eq!(
        "wrong".parse::<LoopStatus>(),
        Err(InvalidLoopStatus::from("wrong"))
    );
}

#[test]
fn loop_status_as_str() {
    assert_eq!(LoopStatus::NoLoop.as_str(), "None");
    assert_eq!(LoopStatus::Track.as_str(), "Track");
    assert_eq!(LoopStatus::Playlist.as_str(), "Playlist");
}

#[test]
fn status_names_round_trip() {
    for status in [PlaybackStatus::Playing, PlaybackStatus::Paused, PlaybackStatus::Stopped] {
        assert_eq!(PlaybackStatus::parse(status.as_str()), Ok(status));
        assert_eq!(status.to_string(), status.as_str());
    }
    for status in [LoopStatus::NoLoop, LoopStatus::Track, LoopStatus::Playlist] {
        assert_eq!(LoopStatus::parse(status.as_str()), Ok(status));
        assert_eq!(status.to_string(), status.as_str());
    }
}

#[test]
fn status_errors_become_parse_errors() {
    assert_eq!(
        MprisError::from(InvalidPlaybackStatus::from("wrong")),
        MprisError::ParseError("wrong".to_string())
    );
    assert_eq!(
        MprisError::from(InvalidLoopStatus::from("track")),
        MprisError::ParseError("track".to_string())
    );
    assert_eq!(
        MprisError::from("something else".to_string()),
        MprisError::Miscellaneous("something else".to_string())
    );
    assert_eq!(InvalidLoopStatus::from("track").to_string(), "track");
    assert_eq!(InvalidPlaybackStatus::from("x".to_string()).to_string(), "x");
}
