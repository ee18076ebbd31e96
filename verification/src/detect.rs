//! The comparison of two snapshots of a player, field by field, and the
//! events that the differences give.
use vstd::prelude::*;

use crate::event::{event_views, status_event, Event, EventView, Policy};
use crate::metadata::{same_optional_id, same_optional_text, same_optional_texts};
use crate::progress::{Progress, ProgressView};

verus! {

/// The mathematical value of an optional snapshot.
pub open spec fn progress_view(progress: Option<&Progress>) -> Option<ProgressView> {
    match progress {
        Some(p) => Some(p@),
        None => None,
    }
}

/// The event of the playback status: one where the status is not that of
/// the last snapshot, or where there is no last snapshot.
pub open spec fn playback_status_events(last: Option<ProgressView>, new: ProgressView) -> Seq<
    EventView,
> {
    if last is Some && last->0.playback_status == new.playback_status {
        seq![]
    } else {
        seq![status_event(new.playback_status)]
    }
}

/// The event of the loop status, as for the playback status.
pub open spec fn loop_status_events(last: Option<ProgressView>, new: ProgressView) -> Seq<
    EventView,
> {
    if last is Some && last->0.loop_status == new.loop_status {
        seq![]
    } else {
        seq![EventView::LoopingChanged(new.loop_status)]
    }
}

/// Whether the shuffle switch of the new snapshot is news.
pub open spec fn shuffle_changed(last: Option<ProgressView>, new: ProgressView) -> bool {
    !(last is Some && last->0.shuffle == new.shuffle)
}

/// The event of the shuffle switch, as for the playback status.
pub open spec fn shuffle_events(last: Option<ProgressView>, new: ProgressView) -> Seq<EventView> {
    if shuffle_changed(last, new) {
        seq![EventView::ShuffleToggled(new.shuffle)]
    } else {
        seq![]
    }
}

/// The event of the volume: one where the volume `differs` from that of the
/// last snapshot by more than rounding explains, or where there is no last
/// snapshot.
pub open spec fn volume_events(last: Option<ProgressView>, new: ProgressView, differs: bool) -> Seq<
    EventView,
> {
    if last is Some && !differs {
        seq![]
    } else {
        seq![EventView::VolumeChanged(new.current_volume)]
    }
}

/// The event of the playback rate, as for the volume.
pub open spec fn playback_rate_events(
    last: Option<ProgressView>,
    new: ProgressView,
    differs: bool,
) -> Seq<EventView> {
    if last is Some && !differs {
        seq![]
    } else {
        seq![EventView::PlaybackRateChanged(new.rate)]
    }
}

/// Whether the new snapshot shows another track than the last one: the
/// track identifier, the address or the title differs, or, where the policy
/// says so, the artists do. Without a last snapshot every track is another.
pub open spec fn track_changed(
    last: Option<ProgressView>,
    new: ProgressView,
    policy: Policy,
) -> bool {
    match last {
        None => true,
        Some(old) => {
            ||| old.metadata.track_id != new.metadata.track_id
            ||| old.metadata.url != new.metadata.url
            ||| old.metadata.title != new.metadata.title
            ||| (policy.compare_artists && old.metadata.artists != new.metadata.artists)
        },
    }
}

/// The event of the track: one, with the new metadata, where the track changed.
pub open spec fn metadata_events(
    last: Option<ProgressView>,
    new: ProgressView,
    policy: Policy,
) -> Seq<EventView> {
    if track_changed(last, new, policy) {
        seq![EventView::TrackChanged(new.metadata)]
    } else {
        seq![]
    }
}

/// All events that a new snapshot gives, in their order: playback status,
/// loop status, shuffle, volume, playback rate, track.
pub open spec fn progress_events(
    last: Option<ProgressView>,
    new: ProgressView,
    volume_differs: bool,
    rate_differs: bool,
    policy: Policy,
) -> Seq<EventView> {
    playback_status_events(last, new) + loop_status_events(last, new) + shuffle_events(last, new)
        + volume_events(last, new, volume_differs) + playback_rate_events(last, new, rate_differs)
        + metadata_events(last, new, policy)
}

/// Without a last snapshot a new one gives an event for each of its
/// fields, whatever is said of volume and rate.
pub proof fn lemma_first_snapshot_tells_all(
    new: ProgressView,
    volume_differs: bool,
    rate_differs: bool,
    policy: Policy,
)
    ensures
        progress_events(None, new, volume_differs, rate_differs, policy) == seq![
            status_event(new.playback_status),
            EventView::LoopingChanged(new.loop_status),
            EventView::ShuffleToggled(new.shuffle),
            EventView::VolumeChanged(new.current_volume),
            EventView::PlaybackRateChanged(new.rate),
            EventView::TrackChanged(new.metadata),
        ],
        shuffle_changed(None, new),
{
    assert(progress_events(None, new, volume_differs, rate_differs, policy) =~= seq![
        status_event(new.playback_status),
        EventView::LoopingChanged(new.loop_status),
        EventView::ShuffleToggled(new.shuffle),
        EventView::VolumeChanged(new.current_volume),
        EventView::PlaybackRateChanged(new.rate),
        EventView::TrackChanged(new.metadata),
    ]);
}

/// A snapshot that shows nothing new gives no event: the same statuses and
/// the same shuffle switch, volume and rate that do not differ, and the same
/// track by all that counts.
pub proof fn lemma_same_snapshot_tells_nothing(last: ProgressView, new: ProgressView, policy: Policy)
    requires
        last.playback_status == new.playback_status,
        last.loop_status == new.loop_status,
        last.shuffle == new.shuffle,
        !track_changed(Some(last), new, policy),
    ensures
        progress_events(Some(last), new, false, false, policy) == Seq::<EventView>::empty(),
{
    assert(progress_events(Some(last), new, false, false, policy) =~= Seq::<EventView>::empty());
}

/// A snapshot that differs from the last one in the playback status alone
/// gives the event of the new status and no other.
pub proof fn lemma_only_status_changed(last: ProgressView, new: ProgressView, policy: Policy)
    requires
        new == (ProgressView { playback_status: new.playback_status, ..last }),
        new.playback_status != last.playback_status,
    ensures
        progress_events(Some(last), new, false, false, policy) == seq![
            status_event(new.playback_status),
        ],
{
    assert(progress_events(Some(last), new, false, false, policy) =~= seq![
        status_event(new.playback_status),
    ]);
}

/// Where the metadata of two snapshots differ in the artists alone, the
/// track counts as changed exactly if the policy lets the artists count
/// and they differ.
pub proof fn lemma_artists_alone(last: ProgressView, new: ProgressView, policy: Policy)
    requires
        new.metadata == (crate::metadata::MetadataView {
            artists: new.metadata.artists,
            ..last.metadata
        }),
    ensures
        track_changed(Some(last), new, policy) == (policy.compare_artists
            && new.metadata.artists != last.metadata.artists),
{
}

/// Appends `event` to the buffer.
pub(crate) fn emit(buffer: &mut Vec<Event>, event: Event)
    ensures
        event_views(final(buffer)@) == event_views(old(buffer)@).push(event@),
{
    buffer.push(event);
    assert(event_views(buffer@) =~= event_views(old(buffer)@).push(event@));
}

/// Appends the event of the playback status, where there is one.
pub fn detect_playback_status_events(
    last: Option<&Progress>,
    new_progress: &Progress,
    buffer: &mut Vec<Event>,
)
    ensures
        event_views(final(buffer)@) == event_views(old(buffer)@) + playback_status_events(
            progress_view(last),
            new_progress@,
        ),
{
    let new_status = new_progress.playback_status();
    let changed = match last {
        Some(old) => old.playback_status() != new_status,
        None => true,
    };
    if changed {
        emit(buffer, Event::from(new_status));
    }
    assert(event_views(buffer@) =~= event_views(old(buffer)@) + playback_status_events(
        progress_view(last),
        new_progress@,
    ));
}

/// Appends the event of the loop status, where there is one.
pub fn detect_loop_status_events(
    last: Option<&Progress>,
    new_progress: &Progress,
    buffer: &mut Vec<Event>,
)
    ensures
        event_views(final(buffer)@) == event_views(old(buffer)@) + loop_status_events(
            progress_view(last),
            new_progress@,
        ),
{
    let loop_status = new_progress.loop_status();
    let changed = match last {
        Some(old) => old.loop_status() != loop_status,
        None => true,
    };
    if changed {
        emit(buffer, Event::LoopingChanged(loop_status));
    }
    assert(event_views(buffer@) =~= event_views(old(buffer)@) + loop_status_events(
        progress_view(last),
        new_progress@,
    ));
}

/// Appends the event of the shuffle switch, where there is one, and says
/// whether there was.
pub fn detect_shuffle_events(
    last: Option<&Progress>,
    new_progress: &Progress,
    buffer: &mut Vec<Event>,
) -> (changed: bool)
    ensures
        changed == shuffle_changed(progress_view(last), new_progress@),
        event_views(final(buffer)@) == event_views(old(buffer)@) + shuffle_events(
            progress_view(last),
            new_progress@,
        ),
{
    let status = new_progress.shuffle();
    let changed = match last {
        Some(old) => old.shuffle() != status,
        None => true,
    };
    if changed {
        emit(buffer, Event::ShuffleToggled(status));
    }
    assert(event_views(buffer@) =~= event_views(old(buffer)@) + shuffle_events(
        progress_view(last),
        new_progress@,
    ));
    changed
}

/// Appends the event of the volume, where there is one. Whether the volume
/// differs from the last one is for the caller to say, who can compare
/// floating-point numbers.
pub fn detect_volume_events(
    last: Option<&Progress>,
    new_progress: &Progress,
    differs: bool,
    buffer: &mut Vec<Event>,
)
    ensures
        event_views(final(buffer)@) == event_views(old(buffer)@) + volume_events(
            progress_view(last),
            new_progress@,
            differs,
        ),
{
    if last.is_none() || differs {
        emit(buffer, Event::VolumeChanged(new_progress.current_volume()));
    }
    assert(event_views(buffer@) =~= event_views(old(buffer)@) + volume_events(
        progress_view(last),
        new_progress@,
        differs,
    ));
}

/// Appends the event of the playback rate, where there is one. Whether the
/// rate differs from the last one is for the caller to say.
pub fn detect_playback_rate_events(
    last: Option<&Progress>,
    new_progress: &Progress,
    differs: bool,
    buffer: &mut Vec<Event>,
)
    ensures
        event_views(final(buffer)@) == event_views(old(buffer)@) + playback_rate_events(
            progress_view(last),
            new_progress@,
            differs,
        ),
{
    if last.is_none() || differs {
        emit(buffer, Event::PlaybackRateChanged(new_progress.playback_rate()));
    }
    assert(event_views(buffer@) =~= event_views(old(buffer)@) + playback_rate_events(
        progress_view(last),
        new_progress@,
        differs,
    ));
}

/// Appends the event of the track, where the track changed.
///
/// Players do not always give a track a new identifier, radio streams least
/// of all. So the address and the title count as well, and the artists
/// where the policy asks for them.
pub fn detect_metadata_events(
    last: Option<&Progress>,
    new_progress: &Progress,
    policy: Policy,
    buffer: &mut Vec<Event>,
)
    ensures
        event_views(final(buffer)@) == event_views(old(buffer)@) + metadata_events(
            progress_view(last),
            new_progress@,
            policy,
        ),
{
    let new_metadata = new_progress.metadata();
    let changed = match last {
        None => true,
        Some(old) => {
            let old_metadata = old.metadata();
            !same_optional_id(&old_metadata.track_id, &new_metadata.track_id)
                || !same_optional_text(&old_metadata.url, &new_metadata.url)
                || !same_optional_text(&old_metadata.title, &new_metadata.title) || (
            policy.compare_artists && !same_optional_texts(
                &old_metadata.artists,
                &new_metadata.artists,
            ))
        },
    };
    if changed {
        emit(buffer, Event::TrackChanged(new_metadata.clone()));
    }
    assert(event_views(buffer@) =~= event_views(old(buffer)@) + metadata_events(
        progress_view(last),
        new_progress@,
        policy,
    ));
}

/// Appends all events that a new snapshot gives, in their order, and says
/// whether the shuffle switch is among them.
pub fn detect_progress_events(
    last: Option<&Progress>,
    new_progress: &Progress,
    volume_differs: bool,
    rate_differs: bool,
    policy: Policy,
    buffer: &mut Vec<Event>,
) -> (shuffled: bool)
    ensures
        shuffled == shuffle_changed(progress_view(last), new_progress@),
        event_views(final(buffer)@) == event_views(old(buffer)@) + progress_events(
            progress_view(last),
            new_progress@,
            volume_differs,
            rate_differs,
            policy,
        ),
{
    detect_playback_status_events(last, new_progress, buffer);
    detect_loop_status_events(last, new_progress, buffer);
    let shuffled = detect_shuffle_events(last, new_progress, buffer);
    detect_volume_events(last, new_progress, volume_differs, buffer);
    detect_playback_rate_events(last, new_progress, rate_differs, buffer);
    detect_metadata_events(last, new_progress, policy, buffer);
    assert(event_views(buffer@) =~= event_views(old(buffer)@) + progress_events(
        progress_view(last),
        new_progress@,
        volume_differs,
        rate_differs,
        policy,
    ));
    shuffled
}

} // verus!
