//! Media players that speak MPRIS2 over D-Bus: their metadata, their track
//! lists, and the events that are derived from what the bus tells of them.
//!
//! The library holds what is decided and computed. It never touches the bus:
//! the event iterators [`PlayerEvents`] and [`PlayerWatcher`] say what they
//! need of the bus next ([`Request`]) and take the answers ([`Reply`]).
//!
//! - [`metadata`]: the values of the bus, metadata values, track identifiers
//!   and the metadata record, with its strict and its forgiving reading.
//! - [`track_list`]: the mirror of a player's track list and its edits.
//! - [`detect`], [`cycle`], [`tracker`]: the derivation of events from
//!   snapshots and notifications.
//! - [`player_events`], [`player_watcher`], [`protocol`]: the iterators.
//! - [`find`], [`player`]: which players there are, which one is taken, and
//!   whether a player is running.
use vstd::prelude::*;

pub mod cycle;
pub mod detect;
mod duration;
pub mod errors;
pub mod event;
mod extensions;
pub mod find;
pub mod metadata;
pub mod object_path;
pub mod player;
pub mod player_events;
pub mod player_watcher;
mod playlist;
mod progress;
pub mod protocol;
mod status;
pub mod text;
mod text_map;
pub mod track_list;
pub mod tracker;

pub use duration::{clamp_micros, duration_of, MprisDuration, MAX_MICROS};
pub use errors::MprisError;
pub use event::{Event, EventError, EventView, MprisEvent, MprisEventView, Policy};
pub use extensions::{duration_micros, DurationExt};
pub use find::{ActivePick, FindingError, PlayerFinder};
pub use metadata::{
    check_start, Float64, Metadata, MetadataIter, MetadataValue, TrackID, ValueView, NO_TRACK,
};
pub use player_events::{PlayerEvents, PlayerEventsView};
pub use player_watcher::{PlayerWatcher, PlayerWatcherView};
pub use playlist::{icon_of, icon_view, ordering_refusal, Playlist, PlaylistOrdering, PlaylistView};
pub use progress::{Progress, ProgressView};
pub use protocol::{Phase, Reply, Request};
pub use status::{LoopStatus, PlaybackStatus};
pub use text_map::TextMap;
pub use track_list::{TrackList, TrackListView};
pub use tracker::{Tracker, TrackerView};

verus! {

/// Every MPRIS2 player owns a bus name that starts with this.
pub const MPRIS2_PREFIX: &'static str = "org.mpris.MediaPlayer2.";

} // verus!
