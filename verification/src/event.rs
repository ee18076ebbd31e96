//! The events that are derived for the users of a player, the notifications
//! that a connection delivers, and the errors of event streams.
use vstd::prelude::*;
use vstd::std_specs::convert::FromSpecImpl;

use crate::errors::{MprisError, MprisErrorView};
use crate::metadata::{Float64, Metadata, MetadataView, TrackID};
use crate::status::{LoopStatus, PlaybackStatus};
use crate::track_list::id_texts;

verus! {

/// A change in the state of a player.
///
/// The passing of playback time is no event; a jump within the track is one
/// only for players that report it.
#[derive(Debug, PartialEq)]
pub enum Event {
    /// The player was shut down.
    PlayerShutDown,
    /// A player was started.
    PlayerStart,
    /// The player was paused.
    Paused,
    /// The player started playing media.
    Playing,
    /// The player was stopped.
    Stopped,
    /// The loop status was changed; the new one is given.
    LoopingChanged(LoopStatus),
    /// Shuffling was switched; the new setting is given.
    ShuffleToggled(bool),
    /// The volume was changed; the new one is given.
    VolumeChanged(Float64),
    /// The playback rate was changed; the new one is given.
    PlaybackRateChanged(Float64),
    /// The track changed; the metadata of the new one is given.
    TrackChanged(Metadata),
    /// The player jumped to another position in the track.
    Seeked {
        /// The new position, in microseconds.
        position_in_us: u64,
    },
    /// A track was added to the track list.
    TrackAdded(TrackID),
    /// A track was removed from the track list.
    TrackRemoved(TrackID),
    /// The metadata of a track of the track list changed, and with it
    /// perhaps its identifier.
    TrackMetadataChanged {
        /// The identifier of the track before the change.
        old_id: TrackID,
        /// The identifier of the track after the change; it can be `old_id`.
        new_id: TrackID,
    },
    /// The track list was replaced.
    TrackListReplaced,
}

/// The mathematical value of an [`Event`].
pub enum EventView {
    PlayerShutDown,
    PlayerStart,
    Paused,
    Playing,
    Stopped,
    LoopingChanged(LoopStatus),
    ShuffleToggled(bool),
    VolumeChanged(u64),
    PlaybackRateChanged(u64),
    TrackChanged(MetadataView),
    Seeked { position_in_us: u64 },
    TrackAdded(Seq<char>),
    TrackRemoved(Seq<char>),
    TrackMetadataChanged { old_id: Seq<char>, new_id: Seq<char> },
    TrackListReplaced,
}

impl View for Event {
    type V = EventView;

    open spec fn view(&self) -> EventView {
        match self {
            Event::PlayerShutDown => EventView::PlayerShutDown,
            Event::PlayerStart => EventView::PlayerStart,
            Event::Paused => EventView::Paused,
            Event::Playing => EventView::Playing,
            Event::Stopped => EventView::Stopped,
            Event::LoopingChanged(status) => EventView::LoopingChanged(*status),
            Event::ShuffleToggled(shuffle) => EventView::ShuffleToggled(*shuffle),
            Event::VolumeChanged(volume) => EventView::VolumeChanged(volume.bits),
            Event::PlaybackRateChanged(rate) => EventView::PlaybackRateChanged(rate.bits),
            Event::TrackChanged(metadata) => EventView::TrackChanged(metadata@),
            Event::Seeked { position_in_us } => EventView::Seeked {
                position_in_us: *position_in_us,
            },
            Event::TrackAdded(id) => EventView::TrackAdded(id@),
            Event::TrackRemoved(id) => EventView::TrackRemoved(id@),
            Event::TrackMetadataChanged { old_id, new_id } => EventView::TrackMetadataChanged {
                old_id: old_id@,
                new_id: new_id@,
            },
            Event::TrackListReplaced => EventView::TrackListReplaced,
        }
    }
}

/// The mathematical values of a list of events.
pub open spec fn event_views(events: Seq<Event>) -> Seq<EventView> {
    events.map_values(|event: Event| event@)
}

/// The event that tells of a playback status.
pub open spec fn status_event(status: PlaybackStatus) -> EventView {
    match status {
        PlaybackStatus::Playing => EventView::Playing,
        PlaybackStatus::Paused => EventView::Paused,
        PlaybackStatus::Stopped => EventView::Stopped,
    }
}

impl FromSpecImpl<PlaybackStatus> for Event {
    open spec fn obeys_from_spec() -> bool {
        true
    }

    open spec fn from_spec(status: PlaybackStatus) -> Event {
        match status {
            PlaybackStatus::Playing => Event::Playing,
            PlaybackStatus::Paused => Event::Paused,
            PlaybackStatus::Stopped => Event::Stopped,
        }
    }
}

impl From<PlaybackStatus> for Event {
    fn from(status: PlaybackStatus) -> (event: Event)
        ensures
            event@ == status_event(status),
    {
        match status {
            PlaybackStatus::Playing => Event::Playing,
            PlaybackStatus::Paused => Event::Paused,
            PlaybackStatus::Stopped => Event::Stopped,
        }
    }
}

/// What a connection delivers about a player, before anything is made of it.
#[derive(Debug, PartialEq)]
pub enum MprisEvent {
    /// The player left the bus.
    PlayerQuit,
    /// Some property of the player changed.
    PlayerPropertiesChanged,
    /// The player jumped to another position in the track.
    Seeked {
        /// The new position, in microseconds.
        position_in_us: u64,
    },
    /// Some property of the track list changed.
    TrackListPropertiesChanged,
    /// The track list was replaced by the given one.
    TrackListReplaced { ids: Vec<TrackID> },
    /// A track was added behind the track `after_id`.
    TrackAdded { after_id: TrackID, metadata: Metadata },
    /// A track was removed.
    TrackRemoved { id: TrackID },
    /// The metadata of the track `old_id` was replaced.
    TrackMetadataChanged { old_id: TrackID, metadata: Metadata },
}

/// The mathematical value of an [`MprisEvent`].
pub enum MprisEventView {
    PlayerQuit,
    PlayerPropertiesChanged,
    Seeked { position_in_us: u64 },
    TrackListPropertiesChanged,
    TrackListReplaced { ids: Seq<Seq<char>> },
    TrackAdded { after_id: Seq<char>, metadata: MetadataView },
    TrackRemoved { id: Seq<char> },
    TrackMetadataChanged { old_id: Seq<char>, metadata: MetadataView },
}

impl View for MprisEvent {
    type V = MprisEventView;

    open spec fn view(&self) -> MprisEventView {
        match self {
            MprisEvent::PlayerQuit => MprisEventView::PlayerQuit,
            MprisEvent::PlayerPropertiesChanged => MprisEventView::PlayerPropertiesChanged,
            MprisEvent::Seeked { position_in_us } => MprisEventView::Seeked {
                position_in_us: *position_in_us,
            },
            MprisEvent::TrackListPropertiesChanged => MprisEventView::TrackListPropertiesChanged,
            MprisEvent::TrackListReplaced { ids } => MprisEventView::TrackListReplaced {
                ids: id_texts(ids@),
            },
            MprisEvent::TrackAdded { after_id, metadata } => MprisEventView::TrackAdded {
                after_id: after_id@,
                metadata: metadata@,
            },
            MprisEvent::TrackRemoved { id } => MprisEventView::TrackRemoved { id: id@ },
            MprisEvent::TrackMetadataChanged { old_id, metadata } => {
                MprisEventView::TrackMetadataChanged { old_id: old_id@, metadata: metadata@ }
            },
        }
    }
}

/// The mathematical values of a list of notifications.
pub open spec fn notification_views(pending: Seq<MprisEvent>) -> Seq<MprisEventView> {
    pending.map_values(|notification: MprisEvent| notification@)
}

/// What can go wrong while events are derived.
#[derive(Debug, PartialEq, Clone)]
pub enum EventError {
    /// The talk with the player over the bus failed.
    DBusError(MprisError),
    /// The track list could not be read again.
    TrackListError(MprisError),
    /// There is no player to derive events from.
    NoPlayer,
}

/// The mathematical value of an [`EventError`].
pub enum EventErrorView {
    DBusError(MprisErrorView),
    TrackListError(MprisErrorView),
    NoPlayer,
}

impl View for EventError {
    type V = EventErrorView;

    open spec fn view(&self) -> EventErrorView {
        match self {
            EventError::DBusError(error) => EventErrorView::DBusError(error@),
            EventError::TrackListError(error) => EventErrorView::TrackListError(error@),
            EventError::NoPlayer => EventErrorView::NoPlayer,
        }
    }
}

impl FromSpecImpl<MprisError> for EventError {
    open spec fn obeys_from_spec() -> bool {
        true
    }

    open spec fn from_spec(error: MprisError) -> EventError {
        EventError::DBusError(error)
    }
}

impl From<MprisError> for EventError {
    fn from(error: MprisError) -> (wrapped: EventError)
        ensures
            wrapped@ == EventErrorView::DBusError(error@),
    {
        EventError::DBusError(error)
    }
}

/// The two choices that the derivation of events leaves open.
#[derive(Debug, Clone, Copy, PartialEq, Eq, Structural)]
pub struct Policy {
    /// Whether a change of the artists alone counts as a change of the
    /// track. Track identifier, address and title always count.
    pub compare_artists: bool,
    /// Whether the track list is read again whenever shuffling is switched.
    /// Some players replace the list then without a word.
    pub reload_on_shuffle: bool,
}

impl Default for Policy {
    /// Artists do not count, and a shuffle switch reads the track list again.
    fn default() -> (policy: Policy)
        ensures
            policy == (Policy { compare_artists: false, reload_on_shuffle: true }),
    {
        Policy { compare_artists: false, reload_on_shuffle: true }
    }
}

} // verus!
