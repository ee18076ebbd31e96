//! The events of whichever player is there: the watcher waits for a player,
//! follows it until it is gone, and waits for the next.
use vstd::prelude::*;

use crate::cycle::list_view;
use crate::detect::progress_view;
use crate::event::{Event, EventError, EventErrorView, EventView, MprisEventView, Policy};
use crate::progress::{Progress, ProgressView};
use crate::protocol::{Phase, Reply, ReplyView, Request, RequestView};
use crate::track_list::{TrackList, TrackListView};
use crate::tracker::{Tracker, TrackerView};

verus! {

/// Derives the events of a player, and of the players that come after it.
///
/// Without a player the watcher asks its driver to wait for one, and tells of
/// it with [`Event::PlayerStart`]. When the player is gone, the watcher tells
/// of that with [`Event::PlayerShutDown`], unless the player has announced it
/// and the event was derived from that, forgets what it knew of the player,
/// and waits for the next one. It never ends by itself.
///
/// Of a new player nothing is known but its track list, so the first
/// snapshot gives an event for each of its fields.
#[derive(Debug)]
pub struct PlayerWatcher {
    tracker: Tracker,
    phase: Phase,
    /// The name of the player to watch; any player will do where there is none.
    name: Option<String>,
    /// Whether there is a player at the moment.
    attached: bool,
    /// Whether the shutdown of the player at hand has been told already.
    told: bool,
}

/// The mathematical value of a [`PlayerWatcher`].
pub struct PlayerWatcherView {
    pub tracker: TrackerView,
    pub phase: Phase,
    pub name: Option<Seq<char>>,
    pub attached: bool,
    pub told: bool,
}

impl PlayerWatcherView {
    /// What happens when no round is at hand: the oldest event that waits
    /// is handed out; where none waits, a player is waited for if there is
    /// none, and else the next round starts with the question whether the
    /// player is alive.
    pub open spec fn resume(self, tracker: TrackerView) -> (PlayerWatcherView, RequestView) {
        if tracker.buffer.len() > 0 {
            (
                PlayerWatcherView {
                    tracker: tracker.settled().popped(),
                    phase: Phase::Idle,
                    ..self
                },
                RequestView::Deliver(tracker.buffer[0]),
            )
        } else if !self.attached {
            (
                PlayerWatcherView { tracker: tracker.settled(), phase: Phase::Search, ..self },
                RequestView::FindPlayer,
            )
        } else {
            (
                PlayerWatcherView { tracker: tracker.settled(), phase: Phase::Liveness, ..self },
                RequestView::CheckAlive,
            )
        }
    }

    /// What happens when all that a round wanted of the player's state is
    /// there: the track list is read again where that is due, and else the
    /// round is over.
    pub open spec fn reconcile(self, tracker: TrackerView) -> (PlayerWatcherView, RequestView) {
        if tracker.must_relist() {
            (
                PlayerWatcherView { tracker, phase: Phase::Listing, ..self },
                RequestView::FetchTrackList,
            )
        } else {
            self.resume(tracker)
        }
    }

    /// What happens when a batch of notifications has come. After the
    /// player has quit nothing is asked of it any more, and its shutdown
    /// counts as told.
    pub open spec fn after_notifications(self, pending: Seq<MprisEventView>) -> (
        PlayerWatcherView,
        RequestView,
    ) {
        let tracker = self.tracker.noticed(pending);
        let wants = self.tracker.wants(pending);
        if wants.quit {
            (PlayerWatcherView { told: true, ..self }).resume(tracker)
        } else if wants.refresh {
            (
                PlayerWatcherView { tracker, phase: Phase::Snapshot, ..self },
                RequestView::FetchProgress,
            )
        } else {
            self.reconcile(tracker)
        }
    }

    /// What happens when the player is found gone: its shutdown is told
    /// unless it was, and what was known of it is forgotten.
    pub open spec fn after_loss(self) -> (PlayerWatcherView, RequestView) {
        let tracker = if self.told {
            self.tracker.detached()
        } else {
            self.tracker.detached().told(EventView::PlayerShutDown)
        };
        (PlayerWatcherView { attached: false, told: false, ..self }).resume(tracker)
    }

    /// What happens when a player has appeared: its start is told, and its
    /// track list is the mirror from now on.
    pub open spec fn after_find(self, ids: Option<Seq<Seq<char>>>) -> (
        PlayerWatcherView,
        RequestView,
    ) {
        (PlayerWatcherView { attached: true, told: false, ..self }).resume(
            self.tracker.attached(ids).told(EventView::PlayerStart),
        )
    }

    /// Whether the state hangs together: without a player nothing is known
    /// of one and nothing is awaited from one, and a round or a search
    /// starts only when no event waits.
    pub open spec fn wf(self) -> bool {
        &&& !self.attached ==> self.tracker.last_progress is None && self.tracker.track_list is None
        &&& !self.attached ==> self.phase == Phase::Idle || self.phase == Phase::Search
        &&& self.phase == Phase::Search ==> !self.attached
        &&& self.phase == Phase::Liveness || self.phase == Phase::Notifications || self.phase
            == Phase::Search ==> self.tracker.buffer.len() == 0
    }

    /// Whether the answer tells something of a player.
    pub open spec fn about_player(reply: ReplyView) -> bool {
        reply is Alive || reply is Notifications || reply is Progress || reply is TrackList
    }

    /// The state after an answer of the driver, and what is asked of the
    /// driver next. An answer about a player that comes while there is none
    /// gives the error [`EventError::NoPlayer`]; any other answer that nothing
    /// was waiting for starts over, as the user's call for the next event does.
    pub open spec fn step(self, reply: ReplyView) -> (PlayerWatcherView, RequestView) {
        match (self.phase, reply) {
            (Phase::Search, ReplyView::PlayerFound { track_list }) => self.after_find(track_list),
            (Phase::Liveness, ReplyView::Alive(alive)) => if alive {
                (PlayerWatcherView { phase: Phase::Notifications, ..self }, RequestView::Wait)
            } else {
                self.after_loss()
            },
            (Phase::Notifications, ReplyView::Notifications(pending)) => self.after_notifications(
                pending,
            ),
            (
                Phase::Snapshot,
                ReplyView::Progress { progress, volume_differs, rate_differs },
            ) => self.reconcile(self.tracker.observed(progress, volume_differs, rate_differs)),
            (Phase::Listing, ReplyView::TrackList(ids)) => self.resume(self.tracker.relisted(ids)),
            (Phase::Search, ReplyView::Failed(error)) => (
                PlayerWatcherView { tracker: self.tracker.settled(), phase: Phase::Idle, ..self },
                RequestView::Fail(error),
            ),
            (Phase::Snapshot, ReplyView::Failed(error)) => (
                PlayerWatcherView { tracker: self.tracker.settled(), phase: Phase::Idle, ..self },
                RequestView::Fail(error),
            ),
            (Phase::Listing, ReplyView::Failed(error)) => (
                PlayerWatcherView { tracker: self.tracker.settled(), phase: Phase::Idle, ..self },
                RequestView::Fail(error),
            ),
            _ => if !self.attached && Self::about_player(reply) {
                (
                    PlayerWatcherView {
                        tracker: self.tracker.settled(),
                        phase: Phase::Idle,
                        ..self
                    },
                    RequestView::Fail(EventErrorView::NoPlayer),
                )
            } else {
                self.resume(self.tracker)
            },
        }
    }
}

/// The mathematical value of an optional name.
pub open spec fn name_view(name: Option<String>) -> Option<Seq<char>> {
    match name {
        Some(text) => Some(text@),
        None => None,
    }
}

impl View for PlayerWatcher {
    type V = PlayerWatcherView;

    closed spec fn view(&self) -> PlayerWatcherView {
        PlayerWatcherView {
            tracker: self.tracker@,
            phase: self.phase,
            name: name_view(self.name),
            attached: self.attached,
            told: self.told,
        }
    }
}

/// The mathematical value of what is known of a player at the start.
pub open spec fn found_progress(found: Option<(Progress, Option<TrackList>)>) -> Option<
    ProgressView,
> {
    match found {
        Some(pair) => Some(pair.0@),
        None => None,
    }
}

/// The mathematical value of the track list of a player at the start.
pub open spec fn found_track_list(found: Option<(Progress, Option<TrackList>)>) -> Option<
    TrackListView,
> {
    match found {
        Some(pair) => list_view(pair.1),
        None => None,
    }
}

impl PlayerWatcher {
    /// The watcher of any player. `found` holds the first snapshot of the
    /// player that is there at the start, and its track list where it has
    /// one; `None` where no player is there yet.
    pub fn new(found: Option<(Progress, Option<TrackList>)>) -> (watcher: Self)
        ensures
            watcher@ == (PlayerWatcherView {
                tracker: TrackerView {
                    buffer: Seq::empty(),
                    last_progress: found_progress(found),
                    track_list: found_track_list(found),
                    policy: Policy { compare_artists: false, reload_on_shuffle: true },
                    reload: false,
                },
                phase: Phase::Idle,
                name: None,
                attached: found is Some,
                told: false,
            }),
    {
        PlayerWatcher::build(None, found, Policy::default())
    }

    /// The watcher of the players with the given name. `found` is as for
    /// [`PlayerWatcher::new`].
    pub fn new_with_name(name: &str, found: Option<(Progress, Option<TrackList>)>) -> (watcher:
        Self)
        ensures
            watcher@ == (PlayerWatcherView {
                tracker: TrackerView {
                    buffer: Seq::empty(),
                    last_progress: found_progress(found),
                    track_list: found_track_list(found),
                    policy: Policy { compare_artists: false, reload_on_shuffle: true },
                    reload: false,
                },
                phase: Phase::Idle,
                name: Some(name@),
                attached: found is Some,
                told: false,
            }),
    {
        PlayerWatcher::build(Some(name.to_owned()), found, Policy::default())
    }

    /// A watcher with a name or none, and a policy of the caller's choice.
    pub fn build(
        name: Option<String>,
        found: Option<(Progress, Option<TrackList>)>,
        policy: Policy,
    ) -> (watcher: Self)
        ensures
            watcher@ == (PlayerWatcherView {
                tracker: TrackerView {
                    buffer: Seq::empty(),
                    last_progress: found_progress(found),
                    track_list: found_track_list(found),
                    policy,
                    reload: false,
                },
                phase: Phase::Idle,
                name: name_view(name),
                attached: found is Some,
                told: false,
            }),
    {
        match found {
            Some((progress, track_list)) => PlayerWatcher {
                tracker: Tracker::new(Some(progress), track_list, policy),
                phase: Phase::Idle,
                name,
                attached: true,
                told: false,
            },
            None => PlayerWatcher {
                tracker: Tracker::new(None, None, policy),
                phase: Phase::Idle,
                name,
                attached: false,
                told: false,
            },
        }
    }

    /// The name of the players that are watched; `None` where any player will do.
    pub fn name(&self) -> (name: Option<&String>)
        ensures
            match name {
                Some(text) => self@.name == Some(text@),
                None => self@.name is None,
            },
    {
        self.name.as_ref()
    }

    /// Whether there is a player at the moment.
    pub fn has_player(&self) -> (attached: bool)
        ensures
            attached == self@.attached,
    {
        self.attached
    }

    /// The track list of the player, kept up to date; `None` where there is
    /// no player, or one without a track list.
    pub fn track_list(&self) -> (list: Option<&TrackList>)
        ensures
            match list {
                Some(found) => self@.tracker.track_list == Some(found@),
                None => self@.tracker.track_list is None,
            },
    {
        self.tracker.track_list()
    }

    /// The snapshot that the next one will be compared with.
    pub fn last_progress(&self) -> (progress: Option<&Progress>)
        ensures
            progress_view(progress) == self@.tracker.last_progress,
    {
        self.tracker.last_progress()
    }

    /// Which answer the watcher is waiting for.
    pub fn phase(&self) -> (phase: Phase)
        ensures
            phase == self@.phase,
    {
        self.phase
    }

    fn resume(&mut self) -> (request: Request)
        ensures
            (final(self)@, request@) == old(self)@.resume(old(self)@.tracker),
    {
        self.tracker.settle();
        match self.tracker.pop() {
            Some(event) => {
                self.phase = Phase::Idle;
                Request::Deliver(event)
            },
            None => {
                if !self.attached {
                    self.phase = Phase::Search;
                    Request::FindPlayer
                } else {
                    self.phase = Phase::Liveness;
                    Request::CheckAlive
                }
            },
        }
    }

    fn reconcile(&mut self) -> (request: Request)
        ensures
            (final(self)@, request@) == old(self)@.reconcile(old(self)@.tracker),
    {
        if self.tracker.must_relist() {
            self.phase = Phase::Listing;
            Request::FetchTrackList
        } else {
            self.resume()
        }
    }

    fn fail(&mut self, error: EventError) -> (request: Request)
        ensures
            final(self)@ == (PlayerWatcherView {
                tracker: old(self)@.tracker.settled(),
                phase: Phase::Idle,
                ..old(self)@
            }),
            request@ == RequestView::Fail(error@),
    {
        self.tracker.settle();
        self.phase = Phase::Idle;
        Request::Fail(error)
    }

    /// Takes an answer of the driver and says what to do next: see
    /// [`PlayerWatcherView::step`]. The user's call for an event is the
    /// answer [`Reply::Next`]; the driver goes on until it is told to hand
    /// something to the user.
    pub fn step(&mut self, reply: Reply) -> (request: Request)
        ensures
            (final(self)@, request@) == old(self)@.step(reply@),
    {
        match (self.phase, reply) {
            (Phase::Search, Reply::PlayerFound { track_list }) => {
                self.tracker.attach(track_list);
                self.tracker.tell(Event::PlayerStart);
                self.attached = true;
                self.told = false;
                self.resume()
            },
            (Phase::Liveness, Reply::Alive(alive)) => {
                if alive {
                    self.phase = Phase::Notifications;
                    Request::Wait
                } else {
                    self.tracker.detach();
                    if !self.told {
                        self.tracker.tell(Event::PlayerShutDown);
                    }
                    self.attached = false;
                    self.told = false;
                    self.resume()
                }
            },
            (Phase::Notifications, Reply::Notifications(pending)) => {
                let wants = self.tracker.notice(pending);
                if wants.quit {
                    self.told = true;
                    self.resume()
                } else if wants.refresh {
                    self.phase = Phase::Snapshot;
                    Request::FetchProgress
                } else {
                    self.reconcile()
                }
            },
            (Phase::Snapshot, Reply::Progress { progress, volume_differs, rate_differs }) => {
                self.tracker.observe(progress, volume_differs, rate_differs);
                self.reconcile()
            },
            (Phase::Listing, Reply::TrackList(ids)) => {
                self.tracker.relist(ids);
                self.resume()
            },
            (Phase::Search, Reply::Failed(error)) => self.fail(error),
            (Phase::Snapshot, Reply::Failed(error)) => self.fail(error),
            (Phase::Listing, Reply::Failed(error)) => self.fail(error),
            (_, reply) => {
                let about_player = match reply {
                    Reply::Alive(_) => true,
                    Reply::Notifications(_) => true,
                    Reply::Progress { .. } => true,
                    Reply::TrackList(_) => true,
                    _ => false,
                };
                if !self.attached && about_player {
                    self.fail(EventError::NoPlayer)
                } else {
                    self.resume()
                }
            },
        }
    }
}

/// Every step leaves the state of a watcher hanging together.
pub proof fn lemma_step_keeps_wf(watcher: PlayerWatcherView, reply: ReplyView)
    requires
        watcher.wf(),
    ensures
        watcher.step(reply).0.wf(),
{
}

/// What is asked of the driver and what the watcher then waits for go
/// together, and the track list is asked for only where there is a mirror
/// of it.
pub proof fn lemma_request_matches_phase(watcher: PlayerWatcherView, reply: ReplyView)
    ensures
        match watcher.step(reply).1 {
            RequestView::CheckAlive => watcher.step(reply).0.phase == Phase::Liveness,
            RequestView::Wait => watcher.step(reply).0.phase == Phase::Notifications,
            RequestView::FetchProgress => watcher.step(reply).0.phase == Phase::Snapshot,
            RequestView::FetchTrackList => watcher.step(reply).0.phase == Phase::Listing
                && watcher.step(reply).0.tracker.track_list is Some,
            RequestView::FindPlayer => watcher.step(reply).0.phase == Phase::Search,
            _ => watcher.step(reply).0.phase == Phase::Idle,
        },
{
}

/// A watcher that hangs together reports a missing player only for an
/// answer that nothing asked for.
pub proof fn lemma_no_player_only_unasked(watcher: PlayerWatcherView, reply: ReplyView)
    requires
        watcher.wf(),
        watcher.step(reply).1 == RequestView::Fail(EventErrorView::NoPlayer),
        !(reply is Failed),
    ensures
        !watcher.attached,
        PlayerWatcherView::about_player(reply),
        watcher.phase == Phase::Idle || watcher.phase == Phase::Search,
{
}

/// A watcher never tells its driver that the events have come to an end.
pub proof fn lemma_watcher_never_finishes(watcher: PlayerWatcherView, reply: ReplyView)
    ensures
        watcher.step(reply).1 != RequestView::Finish,
{
}

/// A player that appears is told of first: with no event waiting, the
/// answer that a player was found hands out the event of its start.
pub proof fn lemma_start_is_told(watcher: PlayerWatcherView, ids: Option<Seq<Seq<char>>>)
    requires
        watcher.phase == Phase::Search,
        watcher.tracker.buffer.len() == 0,
    ensures
        watcher.step(ReplyView::PlayerFound { track_list: ids }).1 == RequestView::Deliver(
            EventView::PlayerStart,
        ),
        watcher.step(ReplyView::PlayerFound { track_list: ids }).0.attached,
        watcher.step(ReplyView::PlayerFound { track_list: ids }).0.tracker.last_progress is None,
{
}

/// A player that is found gone without a word is told of, and forgotten:
/// with no event waiting, the answer hands out the event of the shutdown,
/// and the next thing asked for is a new player.
pub proof fn lemma_loss_is_told(watcher: PlayerWatcherView)
    requires
        watcher.phase == Phase::Liveness,
        watcher.tracker.buffer.len() == 0,
        !watcher.told,
    ensures
        watcher.step(ReplyView::Alive(false)).1 == RequestView::Deliver(EventView::PlayerShutDown),
        !watcher.step(ReplyView::Alive(false)).0.attached,
        watcher.step(ReplyView::Alive(false)).0.tracker.last_progress is None,
        watcher.step(ReplyView::Alive(false)).0.tracker.track_list is None,
        watcher.step(ReplyView::Alive(false)).0.step(ReplyView::Next).1 == RequestView::FindPlayer,
{
    let after = watcher.step(ReplyView::Alive(false)).0;
    assert(after.tracker.buffer =~= Seq::<EventView>::empty());
}

} // verus!
