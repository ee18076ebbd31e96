//! Playback and loop status of a player, as the protocol names them.
use std::str::FromStr;
use vstd::prelude::*;

use crate::errors::{InvalidLoopStatus, InvalidPlaybackStatus};
use crate::text::same_text;

verus! {

/// The playback status of a player.
#[derive(Debug, PartialEq, Eq, Copy, Clone, Hash, Structural)]
pub enum PlaybackStatus {
    /// A track is currently playing.
    Playing,
    /// A track is currently paused.
    Paused,
    /// There is no track currently playing.
    Stopped,
}

impl PlaybackStatus {
    /// The protocol's name of the status.
    pub open spec fn text(self) -> Seq<char> {
        match self {
            PlaybackStatus::Playing => "Playing"@,
            PlaybackStatus::Paused => "Paused"@,
            PlaybackStatus::Stopped => "Stopped"@,
        }
    }

    /// The status that a text names, if it names one. Names are case sensitive.
    pub open spec fn from_text(text: Seq<char>) -> Option<PlaybackStatus> {
        if text == "Playing"@ {
            Some(PlaybackStatus::Playing)
        } else if text == "Paused"@ {
            Some(PlaybackStatus::Paused)
        } else if text == "Stopped"@ {
            Some(PlaybackStatus::Stopped)
        } else {
            None
        }
    }

    pub fn as_str(&self) -> (name: &str)
        ensures
            name@ == self.text(),
    {
        match self {
            PlaybackStatus::Playing => "Playing",
            PlaybackStatus::Paused => "Paused",
            PlaybackStatus::Stopped => "Stopped",
        }
    }

    /// The name of the status as an owned string.
    pub fn to_string(&self) -> (name: String)
        ensures
            name@ == self.text(),
    {
        self.as_str().to_owned()
    }

    /// Reads a status from its name. Any other text is handed back in the error.
    pub fn parse(text: &str) -> (parsed: Result<PlaybackStatus, InvalidPlaybackStatus>)
        ensures
            match Self::from_text(text@) {
                Some(status) => parsed == Ok::<PlaybackStatus, InvalidPlaybackStatus>(status),
                None => parsed is Err && parsed->Err_0@ == text@,
            },
    {
        if same_text(text, "Playing") {
            Ok(PlaybackStatus::Playing)
        } else if same_text(text, "Paused") {
            Ok(PlaybackStatus::Paused)
        } else if same_text(text, "Stopped") {
            Ok(PlaybackStatus::Stopped)
        } else {
            Err(InvalidPlaybackStatus::from(text))
        }
    }

    /// Every status is read back from its own name.
    pub proof fn lemma_name_round_trip(status: PlaybackStatus)
        ensures
            Self::from_text(status.text()) == Some(status),
    {
        reveal_strlit("Playing");
        reveal_strlit("Paused");
        reveal_strlit("Stopped");
        assert("Playing"@.len() == 7 && "Paused"@.len() == 6);
        assert("Stopped"@[0] == 'S' && "Playing"@[0] == 'P');
    }
}

impl FromStr for PlaybackStatus {
    type Err = InvalidPlaybackStatus;

    fn from_str(string: &str) -> (parsed: Result<Self, Self::Err>)
        ensures
            match PlaybackStatus::from_text(string@) {
                Some(status) => parsed == Ok::<PlaybackStatus, InvalidPlaybackStatus>(status),
                None => parsed is Err && parsed->Err_0@ == string@,
            },
    {
        PlaybackStatus::parse(string)
    }
}

/// The looping status of a player.
#[derive(Debug, PartialEq, Eq, Copy, Clone, Hash, Structural)]
pub enum LoopStatus {
    /// The playback will stop when there are no more tracks to play.
    NoLoop,
    /// The current track will start again from the beginning once it has finished playing.
    Track,
    /// The playback loops through a list of tracks.
    Playlist,
}

impl LoopStatus {
    /// The protocol's name of the status.
    pub open spec fn text(self) -> Seq<char> {
        match self {
            LoopStatus::NoLoop => "None"@,
            LoopStatus::Track => "Track"@,
            LoopStatus::Playlist => "Playlist"@,
        }
    }

    /// The status that a text names, if it names one. Names are case sensitive.
    pub open spec fn from_text(text: Seq<char>) -> Option<LoopStatus> {
        if text == "None"@ {
            Some(LoopStatus::NoLoop)
        } else if text == "Track"@ {
            Some(LoopStatus::Track)
        } else if text == "Playlist"@ {
            Some(LoopStatus::Playlist)
        } else {
            None
        }
    }

    pub fn as_str(&self) -> (name: &str)
        ensures
            name@ == self.text(),
    {
        match self {
            LoopStatus::NoLoop => "None",
            LoopStatus::Track => "Track",
            LoopStatus::Playlist => "Playlist",
        }
    }

    /// The name of the status as an owned string.
    pub fn to_string(&self) -> (name: String)
        ensures
            name@ == self.text(),
    {
        self.as_str().to_owned()
    }

    /// Reads a status from its name. Any other text is handed back in the error.
    pub fn parse(text: &str) -> (parsed: Result<LoopStatus, InvalidLoopStatus>)
        ensures
            match Self::from_text(text@) {
                Some(status) => parsed == Ok::<LoopStatus, InvalidLoopStatus>(status),
                None => parsed is Err && parsed->Err_0@ == text@,
            },
    {
        if same_text(text, "None") {
            Ok(LoopStatus::NoLoop)
        } else if same_text(text, "Track") {
            Ok(LoopStatus::Track)
        } else if same_text(text, "Playlist") {
            Ok(LoopStatus::Playlist)
        } else {
            Err(InvalidLoopStatus::from(text))
        }
    }

    /// Every status is read back from its own name.
    pub proof fn lemma_name_round_trip(status: LoopStatus)
        ensures
            Self::from_text(status.text()) == Some(status),
    {
        reveal_strlit("None");
        reveal_strlit("Track");
        reveal_strlit("Playlist");
        assert("None"@.len() == 4 && "Track"@.len() == 5 && "Playlist"@.len() == 8);
    }
}

impl FromStr for LoopStatus {
    type Err = InvalidLoopStatus;

    fn from_str(string: &str) -> (parsed: Result<Self, Self::Err>)
        ensures
            match LoopStatus::from_text(string@) {
                Some(status) => parsed == Ok::<LoopStatus, InvalidLoopStatus>(status),
                None => parsed is Err && parsed->Err_0@ == string@,
            },
    {
        LoopStatus::parse(string)
    }
}

} // verus!
