//! Playlists of a player, and the orders in which a player can list them.
use std::str::FromStr;
use vstd::prelude::*;

use crate::errors::{InvalidPlaylist, InvalidPlaylistOrdering};
use crate::object_path::{check_object_path, is_object_path, object_path_refusal};
use crate::text::same_text;

verus! {

/// A playlist of a player: its object path, its name and perhaps an icon.
#[derive(Debug, PartialEq, Eq, Hash)]
pub struct Playlist {
    id: String,
    name: String,
    icon: Option<String>,
}

/// The mathematical value of a [`Playlist`].
pub struct PlaylistView {
    pub id: Seq<char>,
    pub name: Seq<char>,
    pub icon: Option<Seq<char>>,
}

/// The mathematical value of an optional icon.
pub open spec fn icon_view(icon: Option<String>) -> Option<Seq<char>> {
    match icon {
        Some(text) => Some(text@),
        None => None,
    }
}

/// The icon that a player means by `text`: none where the text is empty.
pub open spec fn icon_of(text: Seq<char>) -> Option<Seq<char>> {
    if text.len() == 0 {
        None
    } else {
        Some(text)
    }
}

impl View for Playlist {
    type V = PlaylistView;

    closed spec fn view(&self) -> PlaylistView {
        PlaylistView { id: self.id@, name: self.name@, icon: icon_view(self.icon) }
    }
}

impl Clone for Playlist {
    fn clone(&self) -> (copy: Self)
        ensures
            copy@ == self@,
    {
        proof {
            use_type_invariant(self);
        }
        Playlist { id: self.id.clone(), name: self.name.clone(), icon: self.icon.clone() }
    }
}

impl Playlist {
    #[verifier::type_invariant]
    pub open spec fn is_valid(self) -> bool {
        is_object_path(self@.id)
    }

    /// The playlist with the given object path, name and icon. A text that
    /// zbus does not take for an object path is refused, with the words of zbus.
    pub fn new(id: String, name: String, icon: Option<String>) -> (made: Result<
        Self,
        InvalidPlaylist,
    >)
        ensures
            is_object_path(id@) ==> made is Ok && made->Ok_0@ == (PlaylistView {
                id: id@,
                name: name@,
                icon: icon_view(icon),
            }),
            !is_object_path(id@) ==> made is Err && made->Err_0@ == object_path_refusal(),
    {
        match check_object_path(id.as_str()) {
            Ok(_) => Ok(Playlist { id, name, icon }),
            Err(text) => Err(InvalidPlaylist::from(text)),
        }
    }

    /// The playlist that a player reports with an object path, a name and
    /// the text of an icon, where an empty text means that there is no icon.
    pub fn from_parts(id: String, name: String, icon: String) -> (made: Result<
        Self,
        InvalidPlaylist,
    >)
        ensures
            is_object_path(id@) ==> made is Ok && made->Ok_0@ == (PlaylistView {
                id: id@,
                name: name@,
                icon: icon_of(icon@),
            }),
            !is_object_path(id@) ==> made is Err && made->Err_0@ == object_path_refusal(),
    {
        let icon = if icon.as_str().is_empty() {
            None
        } else {
            Some(icon)
        };
        Playlist::new(id, name, icon)
    }

    /// The name of the playlist.
    pub fn get_name(&self) -> (name: &str)
        ensures
            name@ == self@.name,
    {
        self.name.as_str()
    }

    /// The icon of the playlist.
    pub fn get_icon(&self) -> (icon: Option<&str>)
        ensures
            match icon {
                Some(text) => self@.icon == Some(text@),
                None => self@.icon is None,
            },
    {
        match &self.icon {
            Some(text) => Some(text.as_str()),
            None => None,
        }
    }

    /// The object path of the playlist, as a text.
    pub fn get_id_as_str(&self) -> (id: &str)
        ensures
            id@ == self@.id,
            is_object_path(id@),
    {
        proof {
            use_type_invariant(self);
        }
        self.id.as_str()
    }
}

/// The text of the error for a text that names no ordering.
pub open spec fn ordering_refusal() -> Seq<char> {
    "expected \"Alphabetical\", \"Created\", \"Modified\", \"Played\" or \"User\""@
}

/// The order in which a player lists its playlists.
#[derive(Debug, Clone, Copy, PartialEq, Eq, Hash, Structural)]
pub enum PlaylistOrdering {
    /// By name, from A to Z.
    Alphabetical,
    /// By the date of creation, oldest first.
    CreationDate,
    /// By the date of the last change, oldest first.
    ModifiedDate,
    /// By the date of the last playback, oldest first.
    LastPlayDate,
    /// In the order that the user gave the playlists.
    UserDefined,
}

impl PlaylistOrdering {
    /// The protocol's name of the ordering.
    pub open spec fn text(self) -> Seq<char> {
        match self {
            PlaylistOrdering::Alphabetical => "Alphabetical"@,
            PlaylistOrdering::CreationDate => "Created"@,
            PlaylistOrdering::ModifiedDate => "Modified"@,
            PlaylistOrdering::LastPlayDate => "Played"@,
            PlaylistOrdering::UserDefined => "User"@,
        }
    }

    /// The name of the ordering as it is shown to people.
    pub open spec fn shown(self) -> Seq<char> {
        match self {
            PlaylistOrdering::Alphabetical => "Alphabetical"@,
            PlaylistOrdering::CreationDate => "CreationDate"@,
            PlaylistOrdering::ModifiedDate => "ModifiedDate"@,
            PlaylistOrdering::LastPlayDate => "LastPlayDate"@,
            PlaylistOrdering::UserDefined => "UserDefined"@,
        }
    }

    /// The ordering that a text names in the protocol, if it names one.
    pub open spec fn from_text(text: Seq<char>) -> Option<PlaylistOrdering> {
        if text == "Alphabetical"@ {
            Some(PlaylistOrdering::Alphabetical)
        } else if text == "Created"@ {
            Some(PlaylistOrdering::CreationDate)
        } else if text == "Modified"@ {
            Some(PlaylistOrdering::ModifiedDate)
        } else if text == "Played"@ {
            Some(PlaylistOrdering::LastPlayDate)
        } else if text == "User"@ {
            Some(PlaylistOrdering::UserDefined)
        } else {
            None
        }
    }

    pub fn as_str_value(&self) -> (name: &str)
        ensures
            name@ == self.text(),
    {
        match self {
            PlaylistOrdering::Alphabetical => "Alphabetical",
            PlaylistOrdering::CreationDate => "Created",
            PlaylistOrdering::ModifiedDate => "Modified",
            PlaylistOrdering::LastPlayDate => "Played",
            PlaylistOrdering::UserDefined => "User",
        }
    }

    /// The name of the ordering as it is shown to people.
    pub fn to_string(&self) -> (name: String)
        ensures
            name@ == self.shown(),
    {
        match self {
            PlaylistOrdering::Alphabetical => "Alphabetical".to_owned(),
            PlaylistOrdering::CreationDate => "CreationDate".to_owned(),
            PlaylistOrdering::ModifiedDate => "ModifiedDate".to_owned(),
            PlaylistOrdering::LastPlayDate => "LastPlayDate".to_owned(),
            PlaylistOrdering::UserDefined => "UserDefined".to_owned(),
        }
    }

    /// Reads an ordering from its name in the protocol.
    pub fn parse(text: &str) -> (parsed: Result<PlaylistOrdering, InvalidPlaylistOrdering>)
        ensures
            match Self::from_text(text@) {
                Some(ordering) => parsed == Ok::<PlaylistOrdering, InvalidPlaylistOrdering>(
                    ordering,
                ),
                None => parsed is Err && parsed->Err_0@ == ordering_refusal(),
            },
    {
        if same_text(text, "Alphabetical") {
            Ok(PlaylistOrdering::Alphabetical)
        } else if same_text(text, "Created") {
            Ok(PlaylistOrdering::CreationDate)
        } else if same_text(text, "Modified") {
            Ok(PlaylistOrdering::ModifiedDate)
        } else if same_text(text, "Played") {
            Ok(PlaylistOrdering::LastPlayDate)
        } else if same_text(text, "User") {
            Ok(PlaylistOrdering::UserDefined)
        } else {
            Err(
                InvalidPlaylistOrdering::from(
                    "expected \"Alphabetical\", \"Created\", \"Modified\", \"Played\" or \"User\"",
                ),
            )
        }
    }

    /// Every ordering is read back from its own name.
    pub proof fn lemma_name_round_trip(ordering: PlaylistOrdering)
        ensures
            Self::from_text(ordering.text()) == Some(ordering),
    {
        reveal_strlit("Alphabetical");
        reveal_strlit("Created");
        reveal_strlit("Modified");
        reveal_strlit("Played");
        reveal_strlit("User");
        assert("Alphabetical"@.len() == 12 && "Created"@.len() == 7 && "Modified"@.len() == 8
            && "Played"@.len() == 6 && "User"@.len() == 4);
    }
}

impl FromStr for PlaylistOrdering {
    type Err = InvalidPlaylistOrdering;

    fn from_str(s: &str) -> (parsed: Result<Self, Self::Err>)
        ensures
            match PlaylistOrdering::from_text(s@) {
                Some(ordering) => parsed == Ok::<PlaylistOrdering, InvalidPlaylistOrdering>(
                    ordering,
                ),
                None => parsed is Err && parsed->Err_0@ == ordering_refusal(),
            },
    {
        PlaylistOrdering::parse(s)
    }
}

} // verus!
