//! One round of event derivation: what the pending notifications do to the
//! mirrored track list, which events they give, and what is left to ask of
//! the player.
use vstd::prelude::*;

use crate::detect::emit;
use crate::event::{
    event_views, notification_views, Event, EventView, MprisEvent, MprisEventView,
};
use crate::track_list::{first_index, TrackList, TrackListView};

verus! {

/// What a round has found that it must do or must not do any more.
#[derive(Debug, Clone, Copy, PartialEq, Eq, Structural)]
pub struct Wants {
    /// The player has quit: the round is over.
    pub quit: bool,
    /// A fresh snapshot of the player is wanted.
    pub refresh: bool,
    /// The track list is to be read again.
    pub reload: bool,
}

/// The state of a round, as a mathematical value: the events in the
/// buffer, the mirrored track list where the player has one, and what the
/// round wants.
pub struct Cycle {
    pub buffer: Seq<EventView>,
    pub track_list: Option<TrackListView>,
    pub wants: Wants,
}

/// The mathematical value of an optional track list.
pub open spec fn list_view(track_list: Option<TrackList>) -> Option<TrackListView> {
    match track_list {
        Some(list) => Some(list@),
        None => None,
    }
}

/// The round after one notification. Once the player has quit, nothing
/// that follows is looked at.
pub open spec fn notice(cycle: Cycle, notification: MprisEventView) -> Cycle {
    if cycle.wants.quit {
        cycle
    } else {
        match notification {
            MprisEventView::PlayerQuit => Cycle {
                buffer: cycle.buffer.push(EventView::PlayerShutDown),
                wants: Wants { quit: true, ..cycle.wants },
                ..cycle
            },
            MprisEventView::PlayerPropertiesChanged => Cycle {
                wants: Wants { refresh: true, ..cycle.wants },
                ..cycle
            },
            MprisEventView::Seeked { position_in_us } => Cycle {
                buffer: cycle.buffer.push(EventView::Seeked { position_in_us }),
                ..cycle
            },
            MprisEventView::TrackListPropertiesChanged => Cycle {
                wants: Wants { reload: true, ..cycle.wants },
                ..cycle
            },
            MprisEventView::TrackListReplaced { ids } => Cycle {
                buffer: cycle.buffer.push(EventView::TrackListReplaced),
                track_list: match cycle.track_list {
                    Some(list) => Some(list.replaced(ids)),
                    None => None,
                },
                ..cycle
            },
            MprisEventView::TrackAdded { after_id, metadata } => match metadata.track_id {
                Some(id) => Cycle {
                    buffer: cycle.buffer.push(EventView::TrackAdded(id)),
                    track_list: match cycle.track_list {
                        Some(list) => Some(list.inserted(after_id, metadata)),
                        None => None,
                    },
                    ..cycle
                },
                None => cycle,
            },
            MprisEventView::TrackRemoved { id } => Cycle {
                buffer: cycle.buffer.push(EventView::TrackRemoved(id)),
                track_list: match cycle.track_list {
                    Some(list) => Some(list.removed(id)),
                    None => None,
                },
                ..cycle
            },
            MprisEventView::TrackMetadataChanged { old_id, metadata } => match cycle.track_list {
                Some(list) => match first_index(list.ids, old_id) {
                    Some(_) => Cycle {
                        buffer: cycle.buffer.push(
                            EventView::TrackMetadataChanged {
                                old_id,
                                new_id: TrackListView::renamed(old_id, metadata),
                            },
                        ),
                        track_list: Some(list.with_track_metadata(old_id, metadata)),
                        ..cycle
                    },
                    None => cycle,
                },
                None => cycle,
            },
        }
    }
}

/// The round after all notifications of a batch, taken in their order.
pub open spec fn notice_all(cycle: Cycle, pending: Seq<MprisEventView>) -> Cycle {
    pending.fold_left(cycle, |c: Cycle, notification: MprisEventView| notice(c, notification))
}

/// The notice that the track list was replaced puts the new tracks in the
/// place of the mirror, whatever tracks and metadata the mirror held, and
/// gives one event.
pub proof fn lemma_replaced_whatever_was_known(cycle: Cycle, ids: Seq<Seq<char>>)
    requires
        !cycle.wants.quit,
        cycle.track_list is Some,
    ensures
        notice(cycle, MprisEventView::TrackListReplaced { ids }) == (Cycle {
            buffer: cycle.buffer.push(EventView::TrackListReplaced),
            track_list: Some(TrackListView { ids, metadata: Map::empty() }),
            wants: cycle.wants,
        }),
{
}

/// The list with its members in the opposite order.
fn reversed(list: Vec<MprisEvent>) -> (turned: Vec<MprisEvent>)
    ensures
        turned@ == list@.reverse(),
{
    let mut rest = list;
    let mut turned: Vec<MprisEvent> = Vec::new();
    while rest.len() > 0
        invariant
            rest@.len() + turned@.len() == list@.len(),
            forall|i: int| 0 <= i < rest@.len() ==> rest@[i] == list@[i],
            forall|i: int| 0 <= i < turned@.len() ==> turned@[i] == list@[list@.len() - 1 - i],
        decreases rest@.len(),
    {
        match rest.pop() {
            Some(last) => turned.push(last),
            None => {},
        }
    }
    assert(turned@ =~= list@.reverse());
    turned
}

/// Takes one notification: changes the mirrored track list as it says,
/// appends the events that it gives, and notes what it asks for.
pub fn apply_notification(
    notification: MprisEvent,
    buffer: &mut Vec<Event>,
    track_list: &mut Option<TrackList>,
    wants: Wants,
) -> (now: Wants)
    ensures
        (Cycle {
            buffer: event_views(final(buffer)@),
            track_list: list_view(*final(track_list)),
            wants: now,
        }) == notice(
            Cycle {
                buffer: event_views(old(buffer)@),
                track_list: list_view(*old(track_list)),
                wants,
            },
            notification@,
        ),
{
    if wants.quit {
        return wants;
    }
    match notification {
        MprisEvent::PlayerQuit => {
            emit(buffer, Event::PlayerShutDown);
            Wants { quit: true, refresh: wants.refresh, reload: wants.reload }
        },
        MprisEvent::PlayerPropertiesChanged => Wants {
            quit: wants.quit,
            refresh: true,
            reload: wants.reload,
        },
        MprisEvent::Seeked { position_in_us } => {
            emit(buffer, Event::Seeked { position_in_us });
            wants
        },
        MprisEvent::TrackListPropertiesChanged => Wants {
            quit: wants.quit,
            refresh: wants.refresh,
            reload: true,
        },
        MprisEvent::TrackListReplaced { ids } => {
            match track_list {
                Some(list) => list.replace(ids),
                None => {},
            }
            emit(buffer, Event::TrackListReplaced);
            wants
        },
        MprisEvent::TrackAdded { after_id, metadata } => {
            let added = match &metadata.track_id {
                Some(id) => Some(id.clone()),
                None => None,
            };
            match added {
                Some(id) => {
                    match track_list {
                        Some(list) => list.insert(&after_id, metadata),
                        None => {},
                    }
                    emit(buffer, Event::TrackAdded(id));
                },
                None => {},
            }
            wants
        },
        MprisEvent::TrackRemoved { id } => {
            match track_list {
                Some(list) => list.remove(&id),
                None => {},
            }
            emit(buffer, Event::TrackRemoved(id));
            wants
        },
        MprisEvent::TrackMetadataChanged { old_id, metadata } => {
            match track_list {
                Some(list) => match list.replace_track_metadata(&old_id, metadata) {
                    Some(new_id) => emit(buffer, Event::TrackMetadataChanged { old_id, new_id }),
                    None => {},
                },
                None => {},
            }
            wants
        },
    }
}

/// Takes a batch of notifications in their order, up to the one that says
/// that the player has quit, and hands back what they ask for.
pub fn apply_notifications(
    pending: Vec<MprisEvent>,
    buffer: &mut Vec<Event>,
    track_list: &mut Option<TrackList>,
) -> (wants: Wants)
    ensures
        (Cycle {
            buffer: event_views(final(buffer)@),
            track_list: list_view(*final(track_list)),
            wants,
        }) == notice_all(
            Cycle {
                buffer: event_views(old(buffer)@),
                track_list: list_view(*old(track_list)),
                wants: Wants { quit: false, refresh: false, reload: false },
            },
            notification_views(pending@),
        ),
{
    let ghost all = notification_views(pending@);
    let ghost start = Cycle {
        buffer: event_views(buffer@),
        track_list: list_view(*track_list),
        wants: Wants { quit: false, refresh: false, reload: false },
    };
    let ghost step = |c: Cycle, notification: MprisEventView| notice(c, notification);
    let mut stack = reversed(pending);
    let mut wants = Wants { quit: false, refresh: false, reload: false };
    let mut done: usize = 0;
    let total = stack.len();
    assert(all.take(0) =~= Seq::<MprisEventView>::empty());
    while done < total
        invariant
            done <= total,
            total == all.len(),
            stack@.len() == total - done,
            forall|i: int| 0 <= i < stack@.len() ==> stack@[i]@ == all[total - 1 - i],
            step == |c: Cycle, notification: MprisEventView| notice(c, notification),
            (Cycle {
                buffer: event_views(buffer@),
                track_list: list_view(*track_list),
                wants,
            }) == all.take(done as int).fold_left(start, step),
        decreases total - done,
    {
        match stack.pop() {
            Some(notification) => {
                proof {
                    assert(notification@ == all[done as int]);
                    assert(all.take(done + 1).drop_last() =~= all.take(done as int));
                    assert(all.take(done + 1).last() == all[done as int]);
                }
                wants = apply_notification(notification, buffer, track_list, wants);
            },
            None => {},
        }
        done += 1;
    }
    assert(all.take(total as int) =~= all);
    wants
}

} // verus!
