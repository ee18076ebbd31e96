use mpris::cycle::{apply_notification, apply_notifications, Wants};
use mpris::detect::{
    detect_loop_status_events, detect_metadata_events, detect_playback_rate_events,
    detect_playback_status_events, detect_progress_events, detect_shuffle_events,
    detect_volume_events,
};
use mpris::metadata::Metadata;
use mpris::{
    Event, Float64, LoopStatus, MprisEvent, PlaybackStatus, Policy, Progress, TrackID, TrackList,
};

fn float(number: f64) -> Float64 {
    Float64::from_bits(number.to_bits())
}

fn is_different_float(a: f64, b: f64) -> bool {
    (a - b).abs() > f64::EPSILON
}

fn id(text: &str) -> TrackID {
    TrackID::try_from(text).unwrap()
}

fn ids(texts: &[&str]) -> Vec<TrackID> {
    texts.iter().map(|text| id(text)).collect()
}

fn texts(list: &TrackList) -> Vec<String> {
    list.ids().iter().map(|id| id.as_str().to_string()).collect()
}

fn track(track: &str, title: &str) -> Metadata {
    let mut metadata = Metadata::new();
    metadata.track_id = Some(id(track));
    metadata.title = Some(title.to_string());
    metadata.url = Some("file:///music".to_string());
    metadata.artists = Some(vec!["Artist".to_string()]);
    metadata
}

fn progress(status: PlaybackStatus, volume: f64, metadata: Metadata) -> Progress {
    Progress::new(
        status,
        LoopStatus::NoLoop,
        false,
        float(volume),
        float(1.0),
        metadata,
    )
}

fn volume_events(old: f64, new: f64) -> Vec<Event> {
    let last = progress(PlaybackStatus::Playing, old, track("/a", "A"));
    let next = progress(PlaybackStatus::Playing, new, track("/a", "A"));
    let mut buffer = Vec::new();
    let differs = is_different_float(
        f64::from_bits(last.current_volume().to_bits()),
        f64::from_bits(next.current_volume().to_bits()),
    );
    detect_volume_events(Some(&last), &next, differs, &mut buffer);
    buffer
}

#[test]
fn event_from_playback_status() {
    assert_eq!(Event::from(PlaybackStatus::Playing), Event::Playing);
    assert_eq!(Event::from(PlaybackStatus::Paused), Event::Paused);
    assert_eq!(Event::from(PlaybackStatus::Stopped), Event::Stopped);
}

#[test]
fn volume_noise_is_no_event() {
    assert_eq!(volume_events(1.0, 1.0 + f64::EPSILON), vec![]);
    assert_eq!(volume_events(0.5, 0.5), vec![]);
    assert_eq!(
        volume_events(0.5, 0.51),
        vec![Event::VolumeChanged(float(0.51))]
    );
    assert_eq!(
        volume_events(1.0, 0.0),
        vec![Event::VolumeChanged(float(0.0))]
    );
}

#[test]
fn volume_and_rate_follow_the_callers_word() {
    let last = progress(PlaybackStatus::Playing, 0.5, track("/a", "A"));
    let next = progress(PlaybackStatus::Playing, 0.7, track("/a", "A"));
    let mut buffer = vec![Event::Paused];
    detect_volume_events(Some(&last), &next, false, &mut buffer);
    detect_playback_rate_events(Some(&last), &next, false, &mut buffer);
    assert_eq!(buffer, vec![Event::Paused]);
    detect_volume_events(Some(&last), &next, true, &mut buffer);
    detect_playback_rate_events(Some(&last), &next, true, &mut buffer);
    assert_eq!(
        buffer,
        vec![
            Event::Paused,
            Event::VolumeChanged(float(0.7)),
            Event::PlaybackRateChanged(float(1.0))
        ]
    );
    let mut first = Vec::new();
    detect_volume_events(None, &next, false, &mut first);
    detect_playback_rate_events(None, &next, false, &mut first);
    assert_eq!(
        first,
        vec![
            Event::VolumeChanged(float(0.7)),
            Event::PlaybackRateChanged(float(1.0))
        ]
    );
}

#[test]
fn status_events_only_on_change() {
    let last = progress(PlaybackStatus::Stopped, 0.5, track("/a", "A"));
    let same = progress(PlaybackStatus::Stopped, 0.5, track("/a", "A"));
    let playing = progress(PlaybackStatus::Playing, 0.5, track("/a", "A"));
    let paused = progress(PlaybackStatus::Paused, 0.5, track("/a", "A"));
    let mut buffer = Vec::new();
    detect_playback_status_events(Some(&last), &same, &mut buffer);
    assert_eq!(buffer, vec![]);
    detect_playback_status_events(Some(&last), &playing, &mut buffer);
    detect_playback_status_events(Some(&playing), &paused, &mut buffer);
    detect_playback_status_events(Some(&paused), &last, &mut buffer);
    detect_playback_status_events(None, &last, &mut buffer);
    assert_eq!(
        buffer,
        vec![Event::Playing, Event::Paused, Event::Stopped, Event::Stopped]
    );
}

#[test]
fn loop_and_shuffle_events_only_on_change() {
    let last = progress(PlaybackStatus::Playing, 0.5, track("/a", "A"));
    let changed = Progress::new(
        PlaybackStatus::Playing,
        LoopStatus::Playlist,
        true,
        float(0.5),
        float(1.0),
        track("/a", "A"),
    );
    let mut buffer = Vec::new();
    detect_loop_status_events(Some(&last), &last, &mut buffer);
    assert!(!detect_shuffle_events(Some(&last), &last, &mut buffer));
    assert_eq!(buffer, vec![]);
    detect_loop_status_events(Some(&last), &changed, &mut buffer);
    assert!(detect_shuffle_events(Some(&last), &changed, &mut buffer));
    assert!(detect_shuffle_events(Some(&changed), &last, &mut buffer));
    assert!(detect_shuffle_events(None, &last, &mut buffer));
    detect_loop_status_events(None, &last, &mut buffer);
    assert_eq!(
        buffer,
        vec![
            Event::LoopingChanged(LoopStatus::Playlist),
            Event::ShuffleToggled(true),
            Event::ShuffleToggled(false),
            Event::ShuffleToggled(false),
            Event::LoopingChanged(LoopStatus::NoLoop),
        ]
    );
}

fn track_events(last: &Metadata, next: &Metadata, policy: Policy) -> Vec<Event> {
    let last = progress(PlaybackStatus::Playing, 0.5, last.clone());
    let next = progress(PlaybackStatus::Playing, 0.5, next.clone());
    let mut buffer = Vec::new();
    detect_metadata_events(Some(&last), &next, policy, &mut buffer);
    buffer
}

#[test]
fn track_change_by_id_url_or_title() {
    let policy = Policy::default();
    assert_eq!(policy, Policy { compare_artists: false, reload_on_shuffle: true });
    let base = track("/a", "A");
    assert_eq!(track_events(&base, &base, policy), vec![]);

    let other_id = track("/b", "A");
    assert_eq!(
        track_events(&base, &other_id, policy),
        vec![Event::TrackChanged(other_id.clone())]
    );
    let other_title = track("/a", "B");
    assert_eq!(
        track_events(&base, &other_title, policy),
        vec![Event::TrackChanged(other_title.clone())]
    );
    let mut other_url = base.clone();
    other_url.url = Some("http://radio".to_string());
    assert_eq!(
        track_events(&base, &other_url, policy),
        vec![Event::TrackChanged(other_url.clone())]
    );
    let mut no_url = base.clone();
    no_url.url = None;
    assert_eq!(
        track_events(&base, &no_url, policy),
        vec![Event::TrackChanged(no_url.clone())]
    );
    let mut no_id = base.clone();
    no_id.track_id = None;
    assert_eq!(
        track_events(&no_id, &base, policy),
        vec![Event::TrackChanged(base.clone())]
    );
    let mut other_album = base.clone();
    other_album.album_name = Some("Album".to_string());
    other_album.length = None;
    assert_eq!(track_events(&base, &other_album, policy), vec![]);
}

#[test]
fn artists_count_only_where_the_policy_says_so() {
    let base = track("/a", "A");
    let mut other_artists = base.clone();
    other_artists.artists = Some(vec!["Somebody else".to_string()]);
    let lenient = Policy::default();
    let strict = Policy { compare_artists: true, reload_on_shuffle: true };
    assert_eq!(track_events(&base, &other_artists, lenient), vec![]);
    assert_eq!(
        track_events(&base, &other_artists, strict),
        vec![Event::TrackChanged(other_artists.clone())]
    );
    assert_eq!(track_events(&base, &base, strict), vec![]);
}

#[test]
fn all_events_in_their_order() {
    let last = progress(PlaybackStatus::Stopped, 0.5, track("/a", "A"));
    let next = Progress::new(
        PlaybackStatus::Playing,
        LoopStatus::Track,
        true,
        float(0.25),
        float(2.0),
        track("/b", "B"),
    );
    let mut buffer = Vec::new();
    let shuffled =
        detect_progress_events(Some(&last), &next, true, true, Policy::default(), &mut buffer);
    assert!(shuffled);
    assert_eq!(
        buffer,
        vec![
            Event::Playing,
            Event::LoopingChanged(LoopStatus::Track),
            Event::ShuffleToggled(true),
            Event::VolumeChanged(float(0.25)),
            Event::PlaybackRateChanged(float(2.0)),
            Event::TrackChanged(track("/b", "B")),
        ]
    );
    let mut nothing = Vec::new();
    assert!(!detect_progress_events(
        Some(&last),
        &last,
        false,
        false,
        Policy::default(),
        &mut nothing
    ));
    assert_eq!(nothing, vec![]);
    let mut first = Vec::new();
    assert!(detect_progress_events(None, &last, false, false, Policy::default(), &mut first));
    assert_eq!(
        first,
        vec![
            Event::Stopped,
            Event::LoopingChanged(LoopStatus::NoLoop),
            Event::ShuffleToggled(false),
            Event::VolumeChanged(float(0.5)),
            Event::PlaybackRateChanged(float(1.0)),
            Event::TrackChanged(track("/a", "A")),
        ]
    );
}

const NOTHING: Wants = Wants { quit: false, refresh: false, reload: false };

#[test]
fn notifications_change_the_mirror() {
    let mut buffer = Vec::new();
    let mut list = Some(TrackList::new(ids(&["/a", "/b"])));
    let wants = apply_notifications(
        vec![
            MprisEvent::TrackAdded { after_id: id("/a"), metadata: track("/x", "X") },
            MprisEvent::Seeked { position_in_us: 42 },
            MprisEvent::TrackRemoved { id: id("/b") },
            MprisEvent::TrackRemoved { id: id("/unknown") },
            MprisEvent::TrackMetadataChanged { old_id: id("/x"), metadata: track("/y", "Y") },
            MprisEvent::TrackMetadataChanged { old_id: id("/gone"), metadata: track("/z", "Z") },
            MprisEvent::TrackAdded { after_id: id("/a"), metadata: Metadata::new() },
        ],
        &mut buffer,
        &mut list,
    );
    assert_eq!(wants, NOTHING);
    assert_eq!(texts(list.as_ref().unwrap()), vec!["/a", "/y"]);
    assert_eq!(
        list.as_ref().unwrap().metadata_of(&id("/y")),
        Some(&track("/y", "Y"))
    );
    assert_eq!(
        buffer,
        vec![
            Event::TrackAdded(id("/x")),
            Event::Seeked { position_in_us: 42 },
            Event::TrackRemoved(id("/b")),
            Event::TrackRemoved(id("/unknown")),
            Event::TrackMetadataChanged { old_id: id("/x"), new_id: id("/y") },
        ]
    );
}

#[test]
fn notifications_without_a_mirror() {
    let mut buffer = Vec::new();
    let mut list = None;
    let wants = apply_notifications(
        vec![
            MprisEvent::TrackAdded { after_id: id("/a"), metadata: track("/x", "X") },
            MprisEvent::TrackRemoved { id: id("/b") },
            MprisEvent::TrackMetadataChanged { old_id: id("/x"), metadata: track("/y", "Y") },
            MprisEvent::TrackListReplaced { ids: ids(&["/a"]) },
            MprisEvent::TrackListPropertiesChanged,
            MprisEvent::PlayerPropertiesChanged,
            MprisEvent::PlayerPropertiesChanged,
        ],
        &mut buffer,
        &mut list,
    );
    assert_eq!(wants, Wants { quit: false, refresh: true, reload: true });
    assert!(list.is_none());
    assert_eq!(
        buffer,
        vec![
            Event::TrackAdded(id("/x")),
            Event::TrackRemoved(id("/b")),
            Event::TrackListReplaced,
        ]
    );
    assert_eq!(apply_notifications(vec![], &mut buffer, &mut list), NOTHING);
    assert_eq!(buffer.len(), 3);
}

#[test]
fn replaced_list_regardless_of_known_metadata() {
    let mut buffer = Vec::new();
    let mut mirror = TrackList::new(ids(&["/a", "/b"]));
    mirror.replace_track_metadata(&id("/a"), track("/a", "A"));
    mirror.replace_track_metadata(&id("/b"), track("/b", "B"));
    let mut list = Some(mirror);
    let wants = apply_notifications(
        vec![MprisEvent::TrackListReplaced { ids: ids(&["/a", "/b", "/c"]) }],
        &mut buffer,
        &mut list,
    );
    assert_eq!(wants, NOTHING);
    assert_eq!(texts(list.as_ref().unwrap()), vec!["/a", "/b", "/c"]);
    assert_eq!(buffer, vec![Event::TrackListReplaced]);
    assert_eq!(list.as_ref().unwrap().metadata_of(&id("/a")), None);
}

#[test]
fn nothing_is_looked_at_after_quit() {
    let mut buffer = Vec::new();
    let mut list = Some(TrackList::new(ids(&["/a"])));
    let wants = apply_notifications(
        vec![
            MprisEvent::Seeked { position_in_us: 1 },
            MprisEvent::PlayerPropertiesChanged,
            MprisEvent::PlayerQuit,
            MprisEvent::Seeked { position_in_us: 2 },
            MprisEvent::TrackRemoved { id: id("/a") },
            MprisEvent::TrackListPropertiesChanged,
            MprisEvent::PlayerQuit,
        ],
        &mut buffer,
        &mut list,
    );
    assert_eq!(wants, Wants { quit: true, refresh: true, reload: false });
    assert_eq!(
        buffer,
        vec![Event::Seeked { position_in_us: 1 }, Event::PlayerShutDown]
    );
    assert_eq!(texts(list.as_ref().unwrap()), vec!["/a"]);
    let after = apply_notification(
        MprisEvent::Seeked { position_in_us: 3 },
        &mut buffer,
        &mut list,
        wants,
    );
    assert_eq!(after, wants);
    assert_eq!(buffer.len(), 2);
}
