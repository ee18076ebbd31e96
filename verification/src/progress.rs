//! A snapshot of what a player reports about its playback.
use vstd::prelude::*;

use crate::metadata::{Float64, Metadata, MetadataView};
use crate::status::{LoopStatus, PlaybackStatus};

verus! {

/// What a player reported at one moment: its playback and loop status, its
/// shuffle switch, its volume and playback rate, and the metadata of its
/// track. A snapshot is never changed; a later one takes its place.
#[derive(Debug)]
pub struct Progress {
    metadata: Metadata,
    playback_status: PlaybackStatus,
    shuffle: bool,
    loop_status: LoopStatus,
    rate: Float64,
    current_volume: Float64,
}

/// The mathematical value of a [`Progress`].
pub struct ProgressView {
    pub metadata: MetadataView,
    pub playback_status: PlaybackStatus,
    pub shuffle: bool,
    pub loop_status: LoopStatus,
    /// The bit pattern of the playback rate.
    pub rate: u64,
    /// The bit pattern of the volume.
    pub current_volume: u64,
}

impl View for Progress {
    type V = ProgressView;

    closed spec fn view(&self) -> ProgressView {
        ProgressView {
            metadata: self.metadata@,
            playback_status: self.playback_status,
            shuffle: self.shuffle,
            loop_status: self.loop_status,
            rate: self.rate.bits,
            current_volume: self.current_volume.bits,
        }
    }
}

impl Progress {
    /// The snapshot that holds what was read from a player.
    pub fn new(
        playback_status: PlaybackStatus,
        loop_status: LoopStatus,
        shuffle: bool,
        current_volume: Float64,
        rate: Float64,
        metadata: Metadata,
    ) -> (progress: Self)
        ensures
            progress@ == (ProgressView {
                metadata: metadata@,
                playback_status,
                shuffle,
                loop_status,
                rate: rate.bits,
                current_volume: current_volume.bits,
            }),
    {
        Progress { metadata, playback_status, shuffle, loop_status, rate, current_volume }
    }

    /// The metadata of the track.
    pub fn metadata(&self) -> (metadata: &Metadata)
        ensures
            metadata@ == self@.metadata,
    {
        &self.metadata
    }

    /// The playback status.
    pub fn playback_status(&self) -> (status: PlaybackStatus)
        ensures
            status == self@.playback_status,
    {
        self.playback_status
    }

    /// Whether the player shuffles.
    pub fn shuffle(&self) -> (shuffle: bool)
        ensures
            shuffle == self@.shuffle,
    {
        self.shuffle
    }

    /// The loop status.
    pub fn loop_status(&self) -> (status: LoopStatus)
        ensures
            status == self@.loop_status,
    {
        self.loop_status
    }

    /// The playback rate, where 1.0 is the normal speed.
    pub fn playback_rate(&self) -> (rate: Float64)
        ensures
            rate.bits == self@.rate,
    {
        self.rate
    }

    /// The volume, where 0.0 is silence and 1.0 is the full volume.
    pub fn current_volume(&self) -> (volume: Float64)
        ensures
            volume.bits == self@.current_volume,
    {
        self.current_volume
    }
}

} // verus!
