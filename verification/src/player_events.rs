//! The events of one player, for as long as it runs.
use vstd::prelude::*;

use crate::cycle::{list_view, notice, notice_all, Cycle};
use crate::detect::progress_view;
use crate::event::{EventView, MprisEventView, Policy};
use crate::progress::Progress;
use crate::protocol::{Phase, Reply, ReplyView, Request, RequestView};
use crate::track_list::TrackList;
use crate::tracker::{Tracker, TrackerView};

verus! {

/// Derives the events of one player.
///
/// The iterator ends when the player is found gone, after the event of its
/// shutdown was handed out, if the player announced it. Events that were
/// derived in one round are handed out in their order before the next round.
/// An error is handed out in place of an event, and the next call goes on.
#[derive(Debug)]
pub struct PlayerEvents {
    tracker: Tracker,
    phase: Phase,
}

/// The mathematical value of a [`PlayerEvents`].
pub struct PlayerEventsView {
    pub tracker: TrackerView,
    pub phase: Phase,
}

impl PlayerEventsView {
    /// What happens when no round is at hand: the oldest event that waits
    /// is handed out, or, where none waits, the next round starts with the
    /// question whether the player is alive.
    pub open spec fn resume(tracker: TrackerView) -> (PlayerEventsView, RequestView) {
        if tracker.buffer.len() > 0 {
            (
                PlayerEventsView { tracker: tracker.settled().popped(), phase: Phase::Idle },
                RequestView::Deliver(tracker.buffer[0]),
            )
        } else {
            (
                PlayerEventsView { tracker: tracker.settled(), phase: Phase::Liveness },
                RequestView::CheckAlive,
            )
        }
    }

    /// What happens when all that a round wanted of the player's state is
    /// there: the track list is read again where that is due, and else the
    /// round is over.
    pub open spec fn reconcile(tracker: TrackerView) -> (PlayerEventsView, RequestView) {
        if tracker.must_relist() {
            (PlayerEventsView { tracker, phase: Phase::Listing }, RequestView::FetchTrackList)
        } else {
            Self::resume(tracker)
        }
    }

    /// What happens when a batch of notifications has come. After the
    /// player has quit nothing is asked of it any more.
    pub open spec fn after_notifications(self, pending: Seq<MprisEventView>) -> (
        PlayerEventsView,
        RequestView,
    ) {
        let tracker = self.tracker.noticed(pending);
        let wants = self.tracker.wants(pending);
        if wants.quit {
            Self::resume(tracker)
        } else if wants.refresh {
            (PlayerEventsView { tracker, phase: Phase::Snapshot }, RequestView::FetchProgress)
        } else {
            Self::reconcile(tracker)
        }
    }

    /// Whether the state hangs together: a round starts only when no event
    /// waits.
    pub open spec fn wf(self) -> bool {
        self.phase == Phase::Liveness || self.phase == Phase::Notifications
            ==> self.tracker.buffer.len() == 0
    }

    /// The state after the user has asked for the next event `calls` times
    /// in a row.
    pub open spec fn after_calls(self, calls: nat) -> PlayerEventsView
        decreases calls,
    {
        if calls == 0 {
            self
        } else {
            self.after_calls((calls - 1) as nat).step(ReplyView::Next).0
        }
    }

    /// The state after an answer of the driver, and what is asked of the
    /// driver next. An answer that nothing was waiting for starts over, as
    /// the user's call for the next event does.
    pub open spec fn step(self, reply: ReplyView) -> (PlayerEventsView, RequestView) {
        match (self.phase, reply) {
            (Phase::Liveness, ReplyView::Alive(alive)) => if alive {
                (PlayerEventsView { phase: Phase::Notifications, ..self }, RequestView::Wait)
            } else {
                (PlayerEventsView { phase: Phase::Idle, ..self }, RequestView::Finish)
            },
            (Phase::Notifications, ReplyView::Notifications(pending)) => self.after_notifications(
                pending,
            ),
            (
                Phase::Snapshot,
                ReplyView::Progress { progress, volume_differs, rate_differs },
            ) => Self::reconcile(self.tracker.observed(progress, volume_differs, rate_differs)),
            (Phase::Listing, ReplyView::TrackList(ids)) => Self::resume(self.tracker.relisted(ids)),
            (Phase::Snapshot, ReplyView::Failed(error)) => (
                PlayerEventsView { tracker: self.tracker.settled(), phase: Phase::Idle },
                RequestView::Fail(error),
            ),
            (Phase::Listing, ReplyView::Failed(error)) => (
                PlayerEventsView { tracker: self.tracker.settled(), phase: Phase::Idle },
                RequestView::Fail(error),
            ),
            _ => Self::resume(self.tracker),
        }
    }
}

impl View for PlayerEvents {
    type V = PlayerEventsView;

    closed spec fn view(&self) -> PlayerEventsView {
        PlayerEventsView { tracker: self.tracker@, phase: self.phase }
    }
}

impl PlayerEvents {
    /// The iterator for a player of which a first snapshot was taken, and
    /// its track list where it has one.
    pub fn new(progress: Progress, track_list: Option<TrackList>) -> (events: Self)
        ensures
            events@.phase == Phase::Idle,
            events@.tracker == (TrackerView {
                buffer: Seq::empty(),
                last_progress: Some(progress@),
                track_list: list_view(track_list),
                policy: Policy { compare_artists: false, reload_on_shuffle: true },
                reload: false,
            }),
    {
        PlayerEvents::with_policy(progress, track_list, Policy::default())
    }

    /// As [`PlayerEvents::new`], with a policy of the caller's choice.
    pub fn with_policy(
        progress: Progress,
        track_list: Option<TrackList>,
        policy: Policy,
    ) -> (events: Self)
        ensures
            events@.phase == Phase::Idle,
            events@.tracker == (TrackerView {
                buffer: Seq::empty(),
                last_progress: Some(progress@),
                track_list: list_view(track_list),
                policy,
                reload: false,
            }),
    {
        PlayerEvents {
            tracker: Tracker::new(Some(progress), track_list, policy),
            phase: Phase::Idle,
        }
    }

    /// The track list of the player, kept up to date; `None` for a player
    /// that has no track list.
    pub fn track_list(&self) -> (list: Option<&TrackList>)
        ensures
            match list {
                Some(found) => self@.tracker.track_list == Some(found@),
                None => self@.tracker.track_list is None,
            },
    {
        self.tracker.track_list()
    }

    /// The snapshot that the next one will be compared with.
    pub fn last_progress(&self) -> (progress: Option<&Progress>)
        ensures
            progress_view(progress) == self@.tracker.last_progress,
    {
        self.tracker.last_progress()
    }

    /// Which answer the iterator is waiting for.
    pub fn phase(&self) -> (phase: Phase)
        ensures
            phase == self@.phase,
    {
        self.phase
    }

    fn resume(&mut self) -> (request: Request)
        ensures
            (final(self)@, request@) == PlayerEventsView::resume(old(self)@.tracker),
    {
        self.tracker.settle();
        match self.tracker.pop() {
            Some(event) => {
                self.phase = Phase::Idle;
                Request::Deliver(event)
            },
            None => {
                self.phase = Phase::Liveness;
                Request::CheckAlive
            },
        }
    }

    fn reconcile(&mut self) -> (request: Request)
        ensures
            (final(self)@, request@) == PlayerEventsView::reconcile(old(self)@.tracker),
    {
        if self.tracker.must_relist() {
            self.phase = Phase::Listing;
            Request::FetchTrackList
        } else {
            self.resume()
        }
    }

    /// Takes an answer of the driver and says what to do next: see
    /// [`PlayerEventsView::step`]. The user's call for an event is the
    /// answer [`Reply::Next`]; the driver goes on until it is told to hand
    /// something to the user.
    pub fn step(&mut self, reply: Reply) -> (request: Request)
        ensures
            (final(self)@, request@) == old(self)@.step(reply@),
    {
        match (self.phase, reply) {
            (Phase::Liveness, Reply::Alive(alive)) => {
                if alive {
                    self.phase = Phase::Notifications;
                    Request::Wait
                } else {
                    self.phase = Phase::Idle;
                    Request::Finish
                }
            },
            (Phase::Notifications, Reply::Notifications(pending)) => {
                let wants = self.tracker.notice(pending);
                if wants.quit {
                    self.resume()
                } else if wants.refresh {
                    self.phase = Phase::Snapshot;
                    Request::FetchProgress
                } else {
                    self.reconcile()
                }
            },
            (Phase::Snapshot, Reply::Progress { progress, volume_differs, rate_differs }) => {
                self.tracker.observe(progress, volume_differs, rate_differs);
                self.reconcile()
            },
            (Phase::Listing, Reply::TrackList(ids)) => {
                self.tracker.relist(ids);
                self.resume()
            },
            (Phase::Snapshot, Reply::Failed(error)) => {
                self.tracker.settle();
                self.phase = Phase::Idle;
                Request::Fail(error)
            },
            (Phase::Listing, Reply::Failed(error)) => {
                self.tracker.settle();
                self.phase = Phase::Idle;
                Request::Fail(error)
            },
            _ => self.resume(),
        }
    }
}

/// Every step leaves the state of an iterator hanging together.
pub proof fn lemma_step_keeps_wf(events: PlayerEventsView, reply: ReplyView)
    requires
        events.wf(),
    ensures
        events.step(reply).0.wf(),
{
}

/// What is asked of the driver and what the iterator then waits for go
/// together, and the track list is asked for only where there is a mirror
/// of it.
pub proof fn lemma_request_matches_phase(events: PlayerEventsView, reply: ReplyView)
    ensures
        match events.step(reply).1 {
            RequestView::CheckAlive => events.step(reply).0.phase == Phase::Liveness,
            RequestView::Wait => events.step(reply).0.phase == Phase::Notifications,
            RequestView::FetchProgress => events.step(reply).0.phase == Phase::Snapshot,
            RequestView::FetchTrackList => events.step(reply).0.phase == Phase::Listing
                && events.step(reply).0.tracker.track_list is Some,
            RequestView::FindPlayer => false,
            _ => events.step(reply).0.phase == Phase::Idle,
        },
{
}

/// The events that wait are handed out oldest first, one for each call of
/// the user, and only when none is left the next round starts.
pub proof fn lemma_events_in_order(events: PlayerEventsView, calls: nat)
    requires
        calls <= events.tracker.buffer.len(),
    ensures
        events.after_calls(calls).tracker.buffer == events.tracker.buffer.skip(calls as int),
        calls < events.tracker.buffer.len() ==> events.after_calls(calls).step(ReplyView::Next).1
            == RequestView::Deliver(events.tracker.buffer[calls as int]),
        calls == events.tracker.buffer.len() ==> events.after_calls(calls).step(
            ReplyView::Next,
        ).1 == RequestView::CheckAlive,
    decreases calls,
{
    if calls > 0 {
        lemma_events_in_order(events, (calls - 1) as nat);
        let before = events.after_calls((calls - 1) as nat);
        assert(before.tracker.buffer.drop_first() =~= events.tracker.buffer.skip(calls as int));
    } else {
        assert(events.tracker.buffer.skip(0) =~= events.tracker.buffer);
    }
}

/// Once the player has quit, a round looks at no further notification.
pub proof fn lemma_nothing_after_quit(cycle: Cycle, pending: Seq<MprisEventView>)
    requires
        cycle.wants.quit,
    ensures
        notice_all(cycle, pending) == cycle,
    decreases pending.len(),
{
    if pending.len() > 0 {
        lemma_nothing_after_quit(cycle, pending.drop_last());
    }
}

/// The notice that the player has quit ends a round with the event of the
/// shutdown as the last one in the buffer, whatever follows it in the batch.
pub proof fn lemma_quit_is_last(cycle: Cycle, pending: Seq<MprisEventView>, at: int)
    requires
        0 <= at < pending.len(),
        pending[at] == MprisEventView::PlayerQuit,
        !notice_all(cycle, pending.take(at)).wants.quit,
    ensures
        notice_all(cycle, pending).wants.quit,
        notice_all(cycle, pending).buffer == notice_all(cycle, pending.take(at)).buffer.push(
            EventView::PlayerShutDown,
        ),
        notice_all(cycle, pending).track_list == notice_all(cycle, pending.take(at)).track_list,
{
    let step = |c: Cycle, notification: MprisEventView| notice(c, notification);
    let before = notice_all(cycle, pending.take(at));
    let upto = pending.take(at + 1);
    assert(upto.drop_last() =~= pending.take(at));
    assert(upto.last() == pending[at]);
    assert(notice_all(cycle, upto) == notice(before, pending[at]));
    pending.lemma_fold_left_split(cycle, step, at + 1);
    assert(pending.subrange(0, at + 1) =~= upto);
    lemma_nothing_after_quit(
        notice_all(cycle, upto),
        pending.subrange(at + 1, pending.len() as int),
    );
}

/// When a batch tells that the player has quit, and nothing before that in
/// the batch gave an event while none was waiting, the event of the shutdown
/// is the next thing handed out; and when the player is then found gone, the
/// iterator ends.
pub proof fn lemma_shutdown_then_finish(
    events: PlayerEventsView,
    pending: Seq<MprisEventView>,
    at: int,
)
    requires
        events.phase == Phase::Notifications,
        0 <= at < pending.len(),
        pending[at] == MprisEventView::PlayerQuit,
        events.tracker.noticed(pending.take(at)).buffer.len() == 0,
    ensures
        events.step(ReplyView::Notifications(pending)).1 == RequestView::Deliver(
            EventView::PlayerShutDown,
        ),
        events.step(ReplyView::Notifications(pending)).0.step(ReplyView::Next).1
            == RequestView::CheckAlive,
        events.step(ReplyView::Notifications(pending)).0.step(ReplyView::Next).0.step(
            ReplyView::Alive(false),
        ).1 == RequestView::Finish,
{
    let cycle = events.tracker.cycle();
    let before = notice_all(cycle, pending.take(at));
    if before.wants.quit {
        lemma_quit_leaves_event(cycle, pending.take(at));
    }
    lemma_quit_is_last(cycle, pending, at);
    let after = events.step(ReplyView::Notifications(pending)).0;
    assert(events.tracker.noticed(pending).buffer =~= seq![EventView::PlayerShutDown]);
    assert(after.tracker.buffer =~= Seq::<EventView>::empty());
}

/// When a batch tells that the player has quit, the event of the shutdown
/// is the last of the events that are handed out, in the order in which they
/// were derived, before the iterator asks for the player again; and when the
/// player is then found gone, the iterator ends.
pub proof fn lemma_shutdown_is_the_last_event(
    events: PlayerEventsView,
    pending: Seq<MprisEventView>,
    at: int,
)
    requires
        events.phase == Phase::Notifications,
        0 <= at < pending.len(),
        pending[at] == MprisEventView::PlayerQuit,
        !events.tracker.wants(pending.take(at)).quit,
    ensures
        events.tracker.noticed(pending).buffer.len() > 0,
        events.tracker.noticed(pending).buffer.last() == EventView::PlayerShutDown,
        events.step(ReplyView::Notifications(pending)).1 == RequestView::Deliver(
            events.tracker.noticed(pending).buffer[0],
        ),
        forall|i: int|
            1 <= i < events.tracker.noticed(pending).buffer.len() ==> (#[trigger] events.step(
                ReplyView::Notifications(pending),
            ).0.after_calls((i - 1) as nat)).step(ReplyView::Next).1 == RequestView::Deliver(
                events.tracker.noticed(pending).buffer[i],
            ),
        events.step(ReplyView::Notifications(pending)).0.after_calls(
            (events.tracker.noticed(pending).buffer.len() - 1) as nat,
        ).step(ReplyView::Next).1 == RequestView::CheckAlive,
        events.step(ReplyView::Notifications(pending)).0.after_calls(
            (events.tracker.noticed(pending).buffer.len() - 1) as nat,
        ).step(ReplyView::Next).0.step(ReplyView::Alive(false)).1 == RequestView::Finish,
{
    let cycle = events.tracker.cycle();
    lemma_quit_is_last(cycle, pending, at);
    let buffer = events.tracker.noticed(pending).buffer;
    let first = events.step(ReplyView::Notifications(pending)).0;
    assert(first.tracker.buffer =~= buffer.skip(1));
    assert forall|i: int| 1 <= i < buffer.len() implies (#[trigger] first.after_calls(
        (i - 1) as nat,
    )).step(ReplyView::Next).1 == RequestView::Deliver(buffer[i]) by {
        lemma_events_in_order(first, (i - 1) as nat);
    }
    lemma_events_in_order(first, (buffer.len() - 1) as nat);
}

/// A round in which the player has quit has at least the event of the
/// shutdown in the buffer.
pub proof fn lemma_quit_leaves_event(cycle: Cycle, pending: Seq<MprisEventView>)
    requires
        !cycle.wants.quit,
        notice_all(cycle, pending).wants.quit,
    ensures
        notice_all(cycle, pending).buffer.len() > 0,
    decreases pending.len(),
{
    if pending.len() > 0 {
        let before = notice_all(cycle, pending.drop_last());
        if before.wants.quit {
            lemma_quit_leaves_event(cycle, pending.drop_last());
        }
    }
}

} // verus!
