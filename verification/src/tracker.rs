//! What an event iterator keeps between the rounds: the events that wait
//! for the user, the last snapshot of the player and the mirror of its track
//! list.
use vstd::prelude::*;

use crate::cycle::{apply_notifications, list_view, notice_all, Cycle, Wants};
use crate::detect::{detect_progress_events, emit, progress_events, progress_view, shuffle_changed};
use crate::event::{
    event_views, notification_views, Event, EventView, MprisEvent, MprisEventView, Policy,
};
use crate::metadata::TrackID;
use crate::progress::{Progress, ProgressView};
use crate::protocol::optional_id_texts;
use crate::track_list::{TrackList, TrackListView};

verus! {

/// The state of event derivation for one player.
#[derive(Debug)]
pub struct Tracker {
    /// The events that were derived and not handed out yet, oldest first.
    buffer: Vec<Event>,
    /// The snapshot that the next one is compared with.
    last_progress: Option<Progress>,
    /// The mirror of the player's track list, where it has one.
    track_list: Option<TrackList>,
    policy: Policy,
    /// Whether the round at hand has the track list to read again.
    reload: bool,
}

/// The mathematical value of a [`Tracker`].
pub struct TrackerView {
    pub buffer: Seq<EventView>,
    pub last_progress: Option<ProgressView>,
    pub track_list: Option<TrackListView>,
    pub policy: Policy,
    pub reload: bool,
}

/// The mathematical value of an optional snapshot.
pub open spec fn optional_progress_view(progress: Option<Progress>) -> Option<ProgressView> {
    match progress {
        Some(p) => Some(p@),
        None => None,
    }
}

impl TrackerView {
    /// The round that starts from this state.
    pub open spec fn cycle(self) -> Cycle {
        Cycle {
            buffer: self.buffer,
            track_list: self.track_list,
            wants: Wants { quit: false, refresh: false, reload: false },
        }
    }

    /// What a batch of notifications asks for.
    pub open spec fn wants(self, pending: Seq<MprisEventView>) -> Wants {
        notice_all(self.cycle(), pending).wants
    }

    /// The state after a batch of notifications: the track list is changed
    /// as they say, their events wait in the buffer, and it is noted whether
    /// they ask for the track list to be read again.
    pub open spec fn noticed(self, pending: Seq<MprisEventView>) -> TrackerView {
        TrackerView {
            buffer: notice_all(self.cycle(), pending).buffer,
            track_list: notice_all(self.cycle(), pending).track_list,
            reload: notice_all(self.cycle(), pending).wants.reload,
            ..self
        }
    }

    /// The state after a fresh snapshot: the events of its differences wait
    /// in the buffer, it is the last snapshot from now on, and a switch of
    /// shuffling asks for the track list to be read again, where the policy
    /// says so.
    pub open spec fn observed(
        self,
        new: ProgressView,
        volume_differs: bool,
        rate_differs: bool,
    ) -> TrackerView {
        TrackerView {
            buffer: self.buffer + progress_events(
                self.last_progress,
                new,
                volume_differs,
                rate_differs,
                self.policy,
            ),
            last_progress: Some(new),
            reload: self.reload || (self.policy.reload_on_shuffle && shuffle_changed(
                self.last_progress,
                new,
            )),
            ..self
        }
    }

    /// Whether the track list is to be read again: a round asked for it,
    /// and there is a mirror to bring up to date.
    pub open spec fn must_relist(self) -> bool {
        self.reload && self.track_list is Some
    }

    /// The state after the track list was read again: the mirror holds the
    /// tracks that were read and knows no metadata, and the event of the
    /// replacement waits in the buffer. A player that turns out to have no
    /// track list changes nothing.
    pub open spec fn relisted(self, ids: Option<Seq<Seq<char>>>) -> TrackerView {
        match ids {
            Some(list) => TrackerView {
                buffer: self.buffer.push(EventView::TrackListReplaced),
                track_list: Some(TrackListView { ids: list, metadata: Map::empty() }),
                reload: false,
                ..self
            },
            None => TrackerView { reload: false, ..self },
        }
    }

    /// The state in which no round is at hand.
    pub open spec fn settled(self) -> TrackerView {
        TrackerView { reload: false, ..self }
    }

    /// The state with one more event at the end of the buffer.
    pub open spec fn told(self, event: EventView) -> TrackerView {
        TrackerView { buffer: self.buffer.push(event), ..self }
    }

    /// The state without the oldest event of the buffer.
    pub open spec fn popped(self) -> TrackerView {
        TrackerView { buffer: self.buffer.drop_first(), ..self }
    }

    /// The state for a new player: no snapshot, the given track list, and
    /// the events that wait already.
    pub open spec fn attached(self, ids: Option<Seq<Seq<char>>>) -> TrackerView {
        TrackerView {
            last_progress: None,
            track_list: match ids {
                Some(list) => Some(TrackListView { ids: list, metadata: Map::empty() }),
                None => None,
            },
            reload: false,
            ..self
        }
    }

    /// The state without a player: no snapshot and no track list.
    pub open spec fn detached(self) -> TrackerView {
        TrackerView { last_progress: None, track_list: None, reload: false, ..self }
    }
}

impl View for Tracker {
    type V = TrackerView;

    closed spec fn view(&self) -> TrackerView {
        TrackerView {
            buffer: event_views(self.buffer@),
            last_progress: optional_progress_view(self.last_progress),
            track_list: list_view(self.track_list),
            policy: self.policy,
            reload: self.reload,
        }
    }
}

impl Tracker {
    /// The state at the start: no event waits.
    pub fn new(
        last_progress: Option<Progress>,
        track_list: Option<TrackList>,
        policy: Policy,
    ) -> (tracker: Self)
        ensures
            tracker@ == (TrackerView {
                buffer: Seq::empty(),
                last_progress: optional_progress_view(last_progress),
                track_list: list_view(track_list),
                policy,
                reload: false,
            }),
    {
        let tracker = Tracker {
            buffer: Vec::new(),
            last_progress,
            track_list,
            policy,
            reload: false,
        };
        assert(event_views(tracker.buffer@) =~= Seq::<EventView>::empty());
        tracker
    }

    /// The mirror of the player's track list; `None` for a player without one.
    pub fn track_list(&self) -> (list: Option<&TrackList>)
        ensures
            match list {
                Some(found) => self@.track_list == Some(found@),
                None => self@.track_list is None,
            },
    {
        self.track_list.as_ref()
    }

    /// The snapshot that the next one is compared with.
    pub fn last_progress(&self) -> (progress: Option<&Progress>)
        ensures
            progress_view(progress) == self@.last_progress,
    {
        self.last_progress.as_ref()
    }

    /// The number of events that wait for the user.
    pub fn waiting(&self) -> (count: usize)
        ensures
            count == self@.buffer.len(),
    {
        self.buffer.len()
    }

    /// Whether the track list is to be read again.
    pub fn must_relist(&self) -> (must: bool)
        ensures
            must == self@.must_relist(),
    {
        self.reload && self.track_list.is_some()
    }

    /// Takes the oldest event out of the buffer.
    pub fn pop(&mut self) -> (event: Option<Event>)
        ensures
            match event {
                Some(oldest) => old(self)@.buffer.len() > 0 && oldest@ == old(self)@.buffer[0]
                    && final(self)@ == old(self)@.popped(),
                None => old(self)@.buffer.len() == 0 && final(self)@ == old(self)@,
            },
    {
        if self.buffer.len() > 0 {
            let oldest = self.buffer.remove(0);
            assert(event_views(self.buffer@) =~= event_views(old(self).buffer@).drop_first());
            Some(oldest)
        } else {
            None
        }
    }

    /// Appends an event to the buffer.
    pub fn tell(&mut self, event: Event)
        ensures
            final(self)@ == old(self)@.told(event@),
    {
        emit(&mut self.buffer, event);
    }

    /// Takes a batch of notifications, and hands back what they ask for.
    pub fn notice(&mut self, pending: Vec<MprisEvent>) -> (wants: Wants)
        ensures
            final(self)@ == old(self)@.noticed(notification_views(pending@)),
            wants == old(self)@.wants(notification_views(pending@)),
    {
        let wants = apply_notifications(pending, &mut self.buffer, &mut self.track_list);
        self.reload = wants.reload;
        wants
    }

    /// Takes a fresh snapshot of the player.
    pub fn observe(&mut self, progress: Progress, volume_differs: bool, rate_differs: bool)
        ensures
            final(self)@ == old(self)@.observed(progress@, volume_differs, rate_differs),
    {
        let shuffled = detect_progress_events(
            self.last_progress.as_ref(),
            &progress,
            volume_differs,
            rate_differs,
            self.policy,
            &mut self.buffer,
        );
        if shuffled && self.policy.reload_on_shuffle {
            self.reload = true;
        }
        self.last_progress = Some(progress);
    }

    /// Takes the track list that was read again.
    pub fn relist(&mut self, ids: Option<Vec<TrackID>>)
        ensures
            final(self)@ == old(self)@.relisted(optional_id_texts(ids)),
    {
        self.reload = false;
        match ids {
            Some(list) => {
                self.track_list = Some(TrackList::new(list));
                emit(&mut self.buffer, Event::TrackListReplaced);
            },
            None => {},
        }
    }

    /// Ends the round at hand.
    pub fn settle(&mut self)
        ensures
            final(self)@ == old(self)@.settled(),
    {
        self.reload = false;
    }

    /// Starts over for a new player with the given track list.
    pub fn attach(&mut self, ids: Option<Vec<TrackID>>)
        ensures
            final(self)@ == old(self)@.attached(optional_id_texts(ids)),
    {
        self.last_progress = None;
        self.reload = false;
        self.track_list = match ids {
            Some(list) => Some(TrackList::new(list)),
            None => None,
        };
    }

    /// Forgets the player.
    pub fn detach(&mut self)
        ensures
            final(self)@ == old(self)@.detached(),
    {
        self.last_progress = None;
        self.track_list = None;
        self.reload = false;
    }
}

} // verus!
