use mpris::errors::MprisError;
use mpris::metadata::Metadata;
use mpris::{
    Event, EventError, Float64, LoopStatus, MprisEvent, Phase, PlaybackStatus, PlayerEvents,
    PlayerWatcher, Policy, Progress, Reply, Request, TrackID, TrackList,
};

fn float(number: f64) -> Float64 {
    Float64::from_bits(number.to_bits())
}

fn id(text: &str) -> TrackID {
    TrackID::try_from(text).unwrap()
}

fn ids(texts: &[&str]) -> Vec<TrackID> {
    texts.iter().map(|text| id(text)).collect()
}

fn texts(list: &TrackList) -> Vec<String> {
    list.ids().iter().map(|id| id.as_str().to_string()).collect()
}

fn track(track: &str, title: &str) -> Metadata {
    let mut metadata = Metadata::new();
    metadata.track_id = Some(id(track));
    metadata.title = Some(title.to_string());
    metadata
}

fn snapshot(status: PlaybackStatus, shuffle: bool, metadata: Metadata) -> Progress {
    Progress::new(
        status,
        LoopStatus::NoLoop,
        shuffle,
        float(1.0),
        float(1.0),
        metadata,
    )
}

fn fresh(status: PlaybackStatus, shuffle: bool, metadata: Metadata) -> Reply {
    Reply::Progress {
        progress: snapshot(status, shuffle, metadata),
        volume_differs: false,
        rate_differs: false,
    }
}

fn failure() -> EventError {
    EventError::DBusError(MprisError::DbusError("the bus is down".to_string()))
}

/// Brings the iterator to the point where it waits for notifications.
fn wake(events: &mut PlayerEvents) {
    assert_eq!(events.step(Reply::Next), Request::CheckAlive);
    assert_eq!(events.phase(), Phase::Liveness);
    assert_eq!(events.step(Reply::Alive(true)), Request::Wait);
    assert_eq!(events.phase(), Phase::Notifications);
}

#[test]
fn playing_after_stopped_is_one_event() {
    let mut events = PlayerEvents::new(
        snapshot(PlaybackStatus::Stopped, false, track("/a", "A")),
        None,
    );
    wake(&mut events);
    assert_eq!(
        events.step(Reply::Notifications(vec![MprisEvent::PlayerPropertiesChanged])),
        Request::FetchProgress
    );
    assert_eq!(events.phase(), Phase::Snapshot);
    assert_eq!(
        events.step(fresh(PlaybackStatus::Playing, false, track("/a", "A"))),
        Request::Deliver(Event::Playing)
    );
    assert_eq!(events.phase(), Phase::Idle);
    assert_eq!(
        events.last_progress().map(|progress| progress.playback_status()),
        Some(PlaybackStatus::Playing)
    );
    // Nothing else was derived: the next call starts a new round.
    assert_eq!(events.step(Reply::Next), Request::CheckAlive);
}

#[test]
fn snapshot_is_replaced_even_without_events() {
    let mut events = PlayerEvents::new(
        snapshot(PlaybackStatus::Playing, false, track("/a", "A")),
        None,
    );
    wake(&mut events);
    assert_eq!(
        events.step(Reply::Notifications(vec![
            MprisEvent::PlayerPropertiesChanged,
            MprisEvent::PlayerPropertiesChanged,
        ])),
        Request::FetchProgress
    );
    let mut other_album = track("/a", "A");
    other_album.album_name = Some("Album".to_string());
    assert_eq!(
        events.step(fresh(PlaybackStatus::Playing, false, other_album.clone())),
        Request::CheckAlive
    );
    assert_eq!(
        events.last_progress().map(|progress| progress.metadata().clone()),
        Some(other_album)
    );
}

#[test]
fn replaced_track_list_is_one_event() {
    let mut mirror = TrackList::new(ids(&["/a", "/b"]));
    mirror.replace_track_metadata(&id("/a"), track("/a", "A"));
    let mut events = PlayerEvents::new(
        snapshot(PlaybackStatus::Playing, false, track("/a", "A")),
        Some(mirror),
    );
    wake(&mut events);
    assert_eq!(
        events.step(Reply::Notifications(vec![MprisEvent::TrackListReplaced {
            ids: ids(&["/a", "/b", "/c"])
        }])),
        Request::Deliver(Event::TrackListReplaced)
    );
    assert_eq!(texts(events.track_list().unwrap()), vec!["/a", "/b", "/c"]);
    assert_eq!(events.track_list().unwrap().metadata_of(&id("/a")), None);
    assert_eq!(events.step(Reply::Next), Request::CheckAlive);
}

#[test]
fn events_of_a_batch_come_in_their_order() {
    let mut events = PlayerEvents::new(
        snapshot(PlaybackStatus::Playing, false, track("/a", "A")),
        Some(TrackList::new(ids(&["/a"]))),
    );
    wake(&mut events);
    assert_eq!(
        events.step(Reply::Notifications(vec![
            MprisEvent::Seeked { position_in_us: 7 },
            MprisEvent::PlayerPropertiesChanged,
            MprisEvent::TrackAdded { after_id: id("/a"), metadata: track("/b", "B") },
        ])),
        Request::FetchProgress
    );
    assert_eq!(
        events.step(fresh(PlaybackStatus::Paused, false, track("/b", "B"))),
        Request::Deliver(Event::Seeked { position_in_us: 7 })
    );
    assert_eq!(
        events.step(Reply::Next),
        Request::Deliver(Event::TrackAdded(id("/b")))
    );
    assert_eq!(events.step(Reply::Next), Request::Deliver(Event::Paused));
    assert_eq!(
        events.step(Reply::Next),
        Request::Deliver(Event::TrackChanged(track("/b", "B")))
    );
    assert_eq!(events.step(Reply::Next), Request::CheckAlive);
    assert_eq!(texts(events.track_list().unwrap()), vec!["/a", "/b"]);
}

#[test]
fn shuffle_reads_the_track_list_again() {
    let mut events = PlayerEvents::new(
        snapshot(PlaybackStatus::Playing, false, track("/a", "A")),
        Some(TrackList::new(ids(&["/a", "/b"]))),
    );
    wake(&mut events);
    assert_eq!(
        events.step(Reply::Notifications(vec![MprisEvent::PlayerPropertiesChanged])),
        Request::FetchProgress
    );
    assert_eq!(
        events.step(fresh(PlaybackStatus::Playing, true, track("/a", "A"))),
        Request::FetchTrackList
    );
    assert_eq!(events.phase(), Phase::Listing);
    assert_eq!(
        events.step(Reply::TrackList(Some(ids(&["/b", "/a"])))),
        Request::Deliver(Event::ShuffleToggled(true))
    );
    assert_eq!(
        events.step(Reply::Next),
        Request::Deliver(Event::TrackListReplaced)
    );
    assert_eq!(texts(events.track_list().unwrap()), vec!["/b", "/a"]);
    assert_eq!(events.step(Reply::Next), Request::CheckAlive);
}

#[test]
fn shuffle_policy_and_players_without_track_list() {
    let quiet = Policy { compare_artists: false, reload_on_shuffle: false };
    let mut events = PlayerEvents::with_policy(
        snapshot(PlaybackStatus::Playing, false, track("/a", "A")),
        Some(TrackList::new(ids(&["/a"]))),
        quiet,
    );
    wake(&mut events);
    events.step(Reply::Notifications(vec![MprisEvent::PlayerPropertiesChanged]));
    assert_eq!(
        events.step(fresh(PlaybackStatus::Playing, true, track("/a", "A"))),
        Request::Deliver(Event::ShuffleToggled(true))
    );

    let mut without_list = PlayerEvents::new(
        snapshot(PlaybackStatus::Playing, false, track("/a", "A")),
        None,
    );
    wake(&mut without_list);
    without_list.step(Reply::Notifications(vec![
        MprisEvent::PlayerPropertiesChanged,
        MprisEvent::TrackListPropertiesChanged,
    ]));
    assert_eq!(
        without_list.step(fresh(PlaybackStatus::Playing, true, track("/a", "A"))),
        Request::Deliver(Event::ShuffleToggled(true))
    );
    assert!(without_list.track_list().is_none());
}

#[test]
fn track_list_properties_read_the_list_again() {
    let mut events = PlayerEvents::new(
        snapshot(PlaybackStatus::Playing, false, track("/a", "A")),
        Some(TrackList::new(ids(&["/a"]))),
    );
    wake(&mut events);
    assert_eq!(
        events.step(Reply::Notifications(vec![MprisEvent::TrackListPropertiesChanged])),
        Request::FetchTrackList
    );
    // The player turns out to have no track list: nothing changes.
    assert_eq!(events.step(Reply::TrackList(None)), Request::CheckAlive);
    assert_eq!(texts(events.track_list().unwrap()), vec!["/a"]);
}

#[test]
fn shutdown_is_the_last_event() {
    let mut events = PlayerEvents::new(
        snapshot(PlaybackStatus::Playing, false, track("/a", "A")),
        None,
    );
    wake(&mut events);
    assert_eq!(
        events.step(Reply::Notifications(vec![
            MprisEvent::PlayerQuit,
            MprisEvent::Seeked { position_in_us: 1 },
            MprisEvent::PlayerPropertiesChanged,
        ])),
        Request::Deliver(Event::PlayerShutDown)
    );
    assert_eq!(events.step(Reply::Next), Request::CheckAlive);
    assert_eq!(events.step(Reply::Alive(false)), Request::Finish);
    assert_eq!(events.phase(), Phase::Idle);
    // Asking again finds the player gone again.
    assert_eq!(events.step(Reply::Next), Request::CheckAlive);
    assert_eq!(events.step(Reply::Alive(false)), Request::Finish);
}

#[test]
fn events_before_the_quit_come_before_the_shutdown() {
    let mut events = PlayerEvents::new(
        snapshot(PlaybackStatus::Playing, false, track("/a", "A")),
        None,
    );
    wake(&mut events);
    assert_eq!(
        events.step(Reply::Notifications(vec![
            MprisEvent::Seeked { position_in_us: 1 },
            MprisEvent::PlayerPropertiesChanged,
            MprisEvent::PlayerQuit,
        ])),
        Request::Deliver(Event::Seeked { position_in_us: 1 })
    );
    assert_eq!(
        events.step(Reply::Next),
        Request::Deliver(Event::PlayerShutDown)
    );
    assert_eq!(events.step(Reply::Next), Request::CheckAlive);
    assert_eq!(events.step(Reply::Alive(false)), Request::Finish);
}

#[test]
fn errors_are_handed_out_and_iteration_goes_on() {
    let mut events = PlayerEvents::new(
        snapshot(PlaybackStatus::Playing, false, track("/a", "A")),
        Some(TrackList::new(ids(&["/a", "/b"]))),
    );
    wake(&mut events);
    events.step(Reply::Notifications(vec![
        MprisEvent::TrackRemoved { id: id("/b") },
        MprisEvent::PlayerPropertiesChanged,
    ]));
    assert_eq!(
        events.step(Reply::Failed(failure())),
        Request::Fail(failure())
    );
    assert_eq!(events.phase(), Phase::Idle);
    // What the batch did before the failure stays done.
    assert_eq!(texts(events.track_list().unwrap()), vec!["/a"]);
    assert_eq!(
        events.step(Reply::Next),
        Request::Deliver(Event::TrackRemoved(id("/b")))
    );
    wake(&mut events);
    assert_eq!(
        events.step(Reply::Notifications(vec![MprisEvent::TrackListPropertiesChanged])),
        Request::FetchTrackList
    );
    assert_eq!(
        events.step(Reply::Failed(EventError::TrackListError(MprisError::Unsupported))),
        Request::Fail(EventError::TrackListError(MprisError::Unsupported))
    );
    assert_eq!(events.step(Reply::Next), Request::CheckAlive);
}

#[test]
fn answers_that_nothing_waits_for_start_over() {
    let mut events = PlayerEvents::new(
        snapshot(PlaybackStatus::Playing, false, track("/a", "A")),
        None,
    );
    assert_eq!(
        events.step(Reply::Notifications(vec![MprisEvent::Seeked { position_in_us: 1 }])),
        Request::CheckAlive
    );
    assert_eq!(events.step(Reply::TrackList(None)), Request::CheckAlive);
    assert_eq!(events.step(Reply::Failed(failure())), Request::CheckAlive);
    assert_eq!(
        events.step(Reply::PlayerFound { track_list: None }),
        Request::CheckAlive
    );
    assert_eq!(events.step(Reply::Alive(true)), Request::Wait);
    assert_eq!(events.step(Reply::Alive(true)), Request::CheckAlive);
}

fn wake_watcher(watcher: &mut PlayerWatcher) {
    assert_eq!(watcher.step(Reply::Next), Request::CheckAlive);
    assert_eq!(watcher.step(Reply::Alive(true)), Request::Wait);
}

#[test]
fn watcher_waits_for_a_player() {
    let mut watcher = PlayerWatcher::new(None);
    assert!(!watcher.has_player());
    assert_eq!(watcher.name(), None);
    assert!(watcher.last_progress().is_none());
    assert_eq!(watcher.step(Reply::Next), Request::FindPlayer);
    assert_eq!(watcher.phase(), Phase::Search);
    assert_eq!(
        watcher.step(Reply::PlayerFound { track_list: Some(ids(&["/a"])) }),
        Request::Deliver(Event::PlayerStart)
    );
    assert!(watcher.has_player());
    assert_eq!(texts(watcher.track_list().unwrap()), vec!["/a"]);
    wake_watcher(&mut watcher);
    assert_eq!(
        watcher.step(Reply::Notifications(vec![MprisEvent::PlayerPropertiesChanged])),
        Request::FetchProgress
    );
    // The first snapshot of a new player tells everything, and reads the
    // track list again for the shuffle switch.
    assert_eq!(
        watcher.step(fresh(PlaybackStatus::Paused, false, track("/a", "A"))),
        Request::FetchTrackList
    );
    assert_eq!(
        watcher.step(Reply::TrackList(Some(ids(&["/a", "/b"])))),
        Request::Deliver(Event::Paused)
    );
    assert_eq!(
        watcher.step(Reply::Next),
        Request::Deliver(Event::LoopingChanged(LoopStatus::NoLoop))
    );
    assert_eq!(
        watcher.step(Reply::Next),
        Request::Deliver(Event::ShuffleToggled(false))
    );
    assert_eq!(
        watcher.step(Reply::Next),
        Request::Deliver(Event::VolumeChanged(float(1.0)))
    );
    assert_eq!(
        watcher.step(Reply::Next),
        Request::Deliver(Event::PlaybackRateChanged(float(1.0)))
    );
    assert_eq!(
        watcher.step(Reply::Next),
        Request::Deliver(Event::TrackChanged(track("/a", "A")))
    );
    assert_eq!(
        watcher.step(Reply::Next),
        Request::Deliver(Event::TrackListReplaced)
    );
    assert_eq!(watcher.step(Reply::Next), Request::CheckAlive);
}

#[test]
fn watcher_with_a_player_from_the_start() {
    let found = Some((
        snapshot(PlaybackStatus::Stopped, false, track("/a", "A")),
        Some(TrackList::new(ids(&["/a"]))),
    ));
    let mut watcher = PlayerWatcher::new_with_name("VLC", found);
    assert!(watcher.has_player());
    assert_eq!(watcher.name(), Some(&"VLC".to_string()));
    wake_watcher(&mut watcher);
    assert_eq!(
        watcher.step(Reply::Notifications(vec![MprisEvent::PlayerPropertiesChanged])),
        Request::FetchProgress
    );
    assert_eq!(
        watcher.step(fresh(PlaybackStatus::Playing, false, track("/a", "A"))),
        Request::Deliver(Event::Playing)
    );
    assert_eq!(watcher.step(Reply::Next), Request::CheckAlive);
}

#[test]
fn watcher_tells_of_a_silent_loss_and_waits_again() {
    let found = Some((
        snapshot(PlaybackStatus::Stopped, false, track("/a", "A")),
        Some(TrackList::new(ids(&["/a"]))),
    ));
    let mut watcher = PlayerWatcher::new(found);
    assert_eq!(watcher.step(Reply::Next), Request::CheckAlive);
    assert_eq!(
        watcher.step(Reply::Alive(false)),
        Request::Deliver(Event::PlayerShutDown)
    );
    assert!(!watcher.has_player());
    assert!(watcher.track_list().is_none());
    assert!(watcher.last_progress().is_none());
    assert_eq!(watcher.step(Reply::Next), Request::FindPlayer);
    assert_eq!(
        watcher.step(Reply::PlayerFound { track_list: None }),
        Request::Deliver(Event::PlayerStart)
    );
    assert!(watcher.track_list().is_none());
    assert_eq!(watcher.step(Reply::Next), Request::CheckAlive);
}

#[test]
fn watcher_tells_of_an_announced_shutdown_once() {
    let found = Some((
        snapshot(PlaybackStatus::Stopped, false, track("/a", "A")),
        None,
    ));
    let mut watcher = PlayerWatcher::new(found);
    wake_watcher(&mut watcher);
    assert_eq!(
        watcher.step(Reply::Notifications(vec![MprisEvent::PlayerQuit])),
        Request::Deliver(Event::PlayerShutDown)
    );
    assert_eq!(watcher.step(Reply::Next), Request::CheckAlive);
    assert_eq!(watcher.step(Reply::Alive(false)), Request::FindPlayer);
    assert!(!watcher.has_player());
    assert_eq!(
        watcher.step(Reply::Failed(failure())),
        Request::Fail(failure())
    );
    assert_eq!(watcher.step(Reply::Next), Request::FindPlayer);
}

#[test]
fn watcher_without_a_player_says_so() {
    let mut watcher = PlayerWatcher::new(None);
    assert_eq!(
        watcher.step(Reply::Notifications(vec![MprisEvent::PlayerQuit])),
        Request::Fail(EventError::NoPlayer)
    );
    assert_eq!(
        watcher.step(Reply::Alive(true)),
        Request::Fail(EventError::NoPlayer)
    );
    assert_eq!(
        watcher.step(fresh(PlaybackStatus::Playing, false, Metadata::new())),
        Request::Fail(EventError::NoPlayer)
    );
    assert_eq!(
        watcher.step(Reply::TrackList(None)),
        Request::Fail(EventError::NoPlayer)
    );
    assert_eq!(
        watcher.step(Reply::PlayerFound { track_list: None }),
        Request::FindPlayer
    );
    let mut with_player = PlayerWatcher::build(
        None,
        Some((snapshot(PlaybackStatus::Playing, false, Metadata::new()), None)),
        Policy::default(),
    );
    assert_eq!(with_player.step(Reply::TrackList(None)), Request::CheckAlive);
}

#[test]
fn event_error_from_a_player_error() {
    assert_eq!(
        EventError::from(MprisError::Unsupported),
        EventError::DBusError(MprisError::Unsupported)
    );
}
