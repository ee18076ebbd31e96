//! The talk between an event iterator and the code that drives it.
//!
//! An iterator never touches the bus. It says what it needs next, the
//! driver does it and answers, and so on until there is an event to hand out.
use vstd::prelude::*;

use crate::event::{
    notification_views, Event, EventError, EventErrorView, EventView, MprisEvent, MprisEventView,
};
use crate::metadata::TrackID;
use crate::progress::{Progress, ProgressView};
use crate::track_list::id_texts;

verus! {

/// What an iterator asks of its driver.
#[derive(Debug, PartialEq)]
pub enum Request {
    /// Hand this event to the user.
    Deliver(Event),
    /// Tell the user that there will be no more events.
    Finish,
    /// Find out whether the player is still on the bus, and answer with
    /// [`Reply::Alive`].
    CheckAlive,
    /// Wait until the connection has something about the player, and answer
    /// with all of it in [`Reply::Notifications`].
    Wait,
    /// Read a fresh snapshot of the player, and answer with
    /// [`Reply::Progress`], or with [`Reply::Failed`].
    FetchProgress,
    /// Read the whole track list of the player, and answer with
    /// [`Reply::TrackList`], or with [`Reply::Failed`].
    FetchTrackList,
    /// Wait until a player is on the bus, and answer with
    /// [`Reply::PlayerFound`], or with [`Reply::Failed`].
    FindPlayer,
    /// Hand this error to the user in place of an event.
    Fail(EventError),
}

/// The mathematical value of a [`Request`].
pub enum RequestView {
    Deliver(EventView),
    Finish,
    CheckAlive,
    Wait,
    FetchProgress,
    FetchTrackList,
    FindPlayer,
    Fail(EventErrorView),
}

impl View for Request {
    type V = RequestView;

    open spec fn view(&self) -> RequestView {
        match self {
            Request::Deliver(event) => RequestView::Deliver(event@),
            Request::Finish => RequestView::Finish,
            Request::CheckAlive => RequestView::CheckAlive,
            Request::Wait => RequestView::Wait,
            Request::FetchProgress => RequestView::FetchProgress,
            Request::FetchTrackList => RequestView::FetchTrackList,
            Request::FindPlayer => RequestView::FindPlayer,
            Request::Fail(error) => RequestView::Fail(error@),
        }
    }
}

/// What the driver tells an iterator.
#[derive(Debug)]
pub enum Reply {
    /// The user asks for the next event.
    Next,
    /// Whether the player is still on the bus.
    Alive(bool),
    /// What the connection had about the player, in the order in which it came.
    Notifications(Vec<MprisEvent>),
    /// A fresh snapshot of the player, and whether its volume and its
    /// playback rate differ from those of the last snapshot by more than
    /// rounding explains. Without a last snapshot the two are not looked at.
    Progress { progress: Progress, volume_differs: bool, rate_differs: bool },
    /// The tracks of the player's track list; `None` for a player without one.
    TrackList(Option<Vec<TrackID>>),
    /// A player is on the bus; its track list, as in [`Reply::TrackList`].
    PlayerFound { track_list: Option<Vec<TrackID>> },
    /// What was asked for could not be done.
    Failed(EventError),
}

/// The mathematical value of a [`Reply`].
pub enum ReplyView {
    Next,
    Alive(bool),
    Notifications(Seq<MprisEventView>),
    Progress { progress: ProgressView, volume_differs: bool, rate_differs: bool },
    TrackList(Option<Seq<Seq<char>>>),
    PlayerFound { track_list: Option<Seq<Seq<char>>> },
    Failed(EventErrorView),
}

/// The texts of an optional list of track identifiers.
pub open spec fn optional_id_texts(ids: Option<Vec<TrackID>>) -> Option<Seq<Seq<char>>> {
    match ids {
        Some(list) => Some(id_texts(list@)),
        None => None,
    }
}

impl View for Reply {
    type V = ReplyView;

    open spec fn view(&self) -> ReplyView {
        match self {
            Reply::Next => ReplyView::Next,
            Reply::Alive(alive) => ReplyView::Alive(*alive),
            Reply::Notifications(pending) => ReplyView::Notifications(notification_views(pending@)),
            Reply::Progress { progress, volume_differs, rate_differs } => ReplyView::Progress {
                progress: progress@,
                volume_differs: *volume_differs,
                rate_differs: *rate_differs,
            },
            Reply::TrackList(ids) => ReplyView::TrackList(optional_id_texts(*ids)),
            Reply::PlayerFound { track_list } => ReplyView::PlayerFound {
                track_list: optional_id_texts(*track_list),
            },
            Reply::Failed(error) => ReplyView::Failed(error@),
        }
    }
}

/// Which answer an iterator is waiting for.
#[derive(Debug, Clone, Copy, PartialEq, Eq, Structural)]
pub enum Phase {
    /// None: the iterator waits for the user to ask for an event.
    Idle,
    /// The answer to [`Request::CheckAlive`].
    Liveness,
    /// The answer to [`Request::Wait`].
    Notifications,
    /// The answer to [`Request::FetchProgress`].
    Snapshot,
    /// The answer to [`Request::FetchTrackList`].
    Listing,
    /// The answer to [`Request::FindPlayer`].
    Search,
}

} // verus!
