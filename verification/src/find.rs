//! Finding players: which names on the bus belong to players, in which
//! order players are looked at, and which of them is taken.
use vstd::prelude::*;
use vstd::std_specs::convert::FromSpecImpl;

use crate::errors::{MprisError, MprisErrorView};
use crate::metadata::texts;
use crate::status::PlaybackStatus;
use crate::text::{
    lemma_text_le_total, lemma_text_le_transitive, lowercase, not_after, starts_with, text_le,
    to_lowercase,
};
use crate::MPRIS2_PREFIX;

verus! {

/// Why no player was found.
#[derive(Debug, PartialEq)]
pub enum FindingError {
    /// There is no player that fits.
    NoPlayerFound,
    /// The bus could not be asked.
    DBusError(MprisError),
}

/// The mathematical value of a [`FindingError`].
pub enum FindingErrorView {
    NoPlayerFound,
    DBusError(MprisErrorView),
}

impl View for FindingError {
    type V = FindingErrorView;

    open spec fn view(&self) -> FindingErrorView {
        match self {
            FindingError::NoPlayerFound => FindingErrorView::NoPlayerFound,
            FindingError::DBusError(error) => FindingErrorView::DBusError(error@),
        }
    }
}

impl FromSpecImpl<MprisError> for FindingError {
    open spec fn obeys_from_spec() -> bool {
        true
    }

    open spec fn from_spec(error: MprisError) -> FindingError {
        FindingError::DBusError(error)
    }
}

impl From<MprisError> for FindingError {
    fn from(error: MprisError) -> (wrapped: FindingError)
        ensures
            wrapped@ == FindingErrorView::DBusError(error@),
    {
        FindingError::DBusError(error)
    }
}

/// Whether a bus name is that of a player.
pub open spec fn is_player_bus(name: Seq<char>) -> bool {
    "org.mpris.MediaPlayer2."@.is_prefix_of(name)
}

/// The names of players among bus names, in the order of the bus names.
pub open spec fn player_buses(names: Seq<Seq<char>>) -> Seq<Seq<char>> {
    names.filter(|name: Seq<char>| is_player_bus(name))
}

/// Whether the names stand in the order of their lower-case forms.
pub open spec fn in_lowercase_order(names: Seq<Seq<char>>) -> bool {
    forall|i: int, j: int|
        0 <= i <= j < names.len() ==> text_le(lowercase(names[i]), lowercase(names[j]))
}

/// Whether `identity` is the name `name`, whatever the case of the letters.
pub open spec fn is_named(identity: Seq<char>, name: Seq<char>) -> bool {
    lowercase(identity) == lowercase(name)
}

/// Whether the player at place `at` is the first with the name `name`.
pub open spec fn is_first_named(identities: Seq<Seq<char>>, name: Seq<char>, at: int) -> bool {
    &&& 0 <= at < identities.len()
    &&& is_named(identities[at], name)
    &&& forall|before: int| 0 <= before < at ==> !is_named(identities[before], name)
}

/// Whether `identity` is the name `name`, whatever the case of the letters.
pub fn same_name(identity: &str, name: &str) -> (same: bool)
    ensures
        same == is_named(identity@, name@),
{
    to_lowercase(identity) == to_lowercase(name)
}

/// The place of the first player whose identity is `name`, whatever the
/// case of the letters.
pub fn find_by_name(identities: &Vec<String>, name: &str) -> (found: Option<usize>)
    ensures
        match found {
            Some(at) => is_first_named(texts(identities@), name@, at as int),
            None => forall|at: int|
                0 <= at < identities@.len() ==> !is_named(#[trigger] texts(identities@)[at], name@),
        },
{
    let wanted = to_lowercase(name);
    let mut at: usize = 0;
    while at < identities.len()
        invariant
            at <= identities@.len(),
            wanted@ == lowercase(name@),
            forall|before: int|
                0 <= before < at ==> !is_named(#[trigger] texts(identities@)[before], name@),
        decreases identities@.len() - at,
    {
        if to_lowercase(identities[at].as_str()) == wanted {
            return Some(at);
        }
        at += 1;
    }
    None
}

/// The players on a bus: their bus names, in the order in which they are
/// looked at.
#[derive(Debug)]
pub struct PlayerFinder {
    buses: Vec<String>,
}

impl View for PlayerFinder {
    type V = Seq<Seq<char>>;

    /// The bus names of the players.
    closed spec fn view(&self) -> Seq<Seq<char>> {
        texts(self.buses@)
    }
}

impl PlayerFinder {
    /// The players among the names that are on the bus: the names that
    /// start as the bus names of players do, in the order of their
    /// lower-case forms.
    pub fn for_names(names: &Vec<String>) -> (finder: Self)
        ensures
            finder@.to_multiset() == player_buses(texts(names@)).to_multiset(),
            in_lowercase_order(finder@),
    {
        PlayerFinder { buses: all_player_bus_names(names) }
    }

    /// The bus names of all players.
    pub fn all_player_buses(&self) -> (buses: &Vec<String>)
        ensures
            texts(buses@) == self@,
    {
        &self.buses
    }

    /// The bus name of the player that is taken where any will do: the first.
    pub fn active_player_bus(&self) -> (bus: Option<String>)
        ensures
            match bus {
                Some(name) => self@.len() > 0 && name@ == self@[0],
                None => self@.len() == 0,
            },
    {
        if self.buses.len() > 0 {
            Some(self.buses[0].clone())
        } else {
            None
        }
    }

    /// The place of the first player whose identity is `name`, whatever the
    /// case of the letters. `identities` holds what the players call
    /// themselves, in the order of their bus names.
    pub fn find_with_name(&self, identities: &Vec<String>, name: &str) -> (found: Result<
        usize,
        FindingError,
    >)
        ensures
            match found {
                Ok(at) => is_first_named(texts(identities@), name@, at as int),
                Err(error) => error@ == FindingErrorView::NoPlayerFound && forall|at: int|
                    0 <= at < identities@.len() ==> !is_named(
                        #[trigger] texts(identities@)[at],
                        name@,
                    ),
            },
    {
        match find_by_name(identities, name) {
            Some(at) => Ok(at),
            None => Err(FindingError::NoPlayerFound),
        }
    }
}

/// The bus names of players among the names on a bus, in the order of
/// their lower-case forms.
pub fn all_player_bus_names(names: &Vec<String>) -> (buses: Vec<String>)
    ensures
        texts(buses@).to_multiset() == player_buses(texts(names@)).to_multiset(),
        in_lowercase_order(texts(buses@)),
{
    let ghost is_player = |name: Seq<char>| is_player_bus(name);
    let mut buses: Vec<String> = Vec::new();
    let mut keys: Vec<String> = Vec::new();
    let mut next: usize = 0;
    proof {
        assert(texts(names@).take(0) =~= Seq::<Seq<char>>::empty());
        reveal(Seq::filter);
        assert(texts(buses@) =~= Seq::<Seq<char>>::empty());
    }
    while next < names.len()
        invariant
            next <= names@.len(),
            is_player == |name: Seq<char>| is_player_bus(name),
            keys@.len() == buses@.len(),
            forall|i: int| 0 <= i < keys@.len() ==> keys@[i]@ == lowercase(buses@[i]@),
            forall|i: int, j: int| 0 <= i <= j < keys@.len() ==> text_le(keys@[i]@, keys@[j]@),
            texts(buses@).to_multiset() == texts(names@).take(next as int).filter(
                is_player,
            ).to_multiset(),
        decreases names@.len() - next,
    {
        let name = &names[next];
        proof {
            let seen = texts(names@).take(next as int);
            assert(texts(names@).take(next + 1) =~= seen.push(name@));
            seen.lemma_filter_push(name@, is_player);
        }
        if starts_with(name.as_str(), MPRIS2_PREFIX) {
            let key = to_lowercase(name.as_str());
            let mut at: usize = 0;
            while at < keys.len() && not_after(keys[at].as_str(), key.as_str())
                invariant
                    at <= keys@.len(),
                    forall|i: int| 0 <= i < at ==> text_le(keys@[i]@, key@),
                decreases keys@.len() - at,
            {
                at += 1;
            }
            let ghost old_keys = keys@;
            let ghost old_buses = buses@;
            keys.insert(at, key);
            buses.insert(at, name.clone());
            proof {
                assert forall|i: int, j: int| 0 <= i <= j < keys@.len() implies text_le(
                    keys@[i]@,
                    keys@[j]@,
                ) by {
                    if i == j {
                        lemma_text_le_total(keys@[i]@, keys@[i]@);
                    } else if j == at {
                        assert(keys@[i] == old_keys[i]);
                    } else if i == at {
                        assert(keys@[j] == old_keys[j - 1]);
                        lemma_text_le_total(old_keys[at as int]@, key@);
                        lemma_text_le_transitive(key@, old_keys[at as int]@, old_keys[j - 1]@);
                    } else {
                        let oi = if i < at { i } else { i - 1 };
                        let oj = if j < at { j } else { j - 1 };
                        assert(keys@[i] == old_keys[oi] && keys@[j] == old_keys[oj]);
                    }
                }
                assert forall|i: int| 0 <= i < keys@.len() implies keys@[i]@ == lowercase(
                    buses@[i]@,
                ) by {
                    if i < at {
                        assert(keys@[i] == old_keys[i] && buses@[i] == old_buses[i]);
                    } else if i > at {
                        assert(keys@[i] == old_keys[i - 1] && buses@[i] == old_buses[i - 1]);
                    }
                }
                assert(texts(buses@) =~= texts(old_buses).insert(at as int, name@));
                vstd::seq_lib::to_multiset_insert(texts(old_buses), at as int, name@);
                texts(names@).take(next as int).filter(is_player).to_multiset_ensures();
            }
        }
        next += 1;
    }
    proof {
        assert(texts(names@).take(names@.len() as int) =~= texts(names@));
        assert forall|i: int, j: int| 0 <= i <= j < buses@.len() implies text_le(
            lowercase(texts(buses@)[i]),
            lowercase(texts(buses@)[j]),
        ) by {
            assert(text_le(keys@[i]@, keys@[j]@));
        }
    }
    buses
}

/// The choice among players where any will do, as far as it can be made
/// without a player that plays: the first that is paused, the first of the
/// others that has a track, and the first of the rest.
#[derive(Debug)]
pub struct ActivePick<P> {
    pub first_paused: Option<P>,
    pub first_with_track: Option<P>,
    pub first_found: Option<P>,
}

impl<P> ActivePick<P> {
    /// Whether it matters for a player with this status that it has a track.
    pub open spec fn asks_for_track(self, status: PlaybackStatus) -> bool {
        &&& status != PlaybackStatus::Playing
        &&& !(self.first_paused is None && status == PlaybackStatus::Paused)
        &&& self.first_with_track is None
    }

    /// The choice after a player that does not play was looked at.
    pub open spec fn placed(self, player: P, status: PlaybackStatus, has_track: bool) -> Self {
        if self.first_paused is None && status == PlaybackStatus::Paused {
            ActivePick { first_paused: Some(player), ..self }
        } else if self.first_with_track is None && has_track {
            ActivePick { first_with_track: Some(player), ..self }
        } else if self.first_found is None {
            ActivePick { first_found: Some(player), ..self }
        } else {
            self
        }
    }

    /// The player that is taken in the end.
    pub open spec fn chosen(self) -> Option<P> {
        if self.first_paused is Some {
            self.first_paused
        } else if self.first_with_track is Some {
            self.first_with_track
        } else {
            self.first_found
        }
    }

    /// The choice before any player was looked at.
    pub fn new() -> (pick: Self)
        ensures
            pick.first_paused is None,
            pick.first_with_track is None,
            pick.first_found is None,
    {
        ActivePick { first_paused: None, first_with_track: None, first_found: None }
    }

    /// Whether it must be found out that a player with this status has a
    /// track before the player is looked at.
    pub fn needs_track(&self, status: PlaybackStatus) -> (needed: bool)
        ensures
            needed == self.asks_for_track(status),
    {
        if status == PlaybackStatus::Playing {
            false
        } else if self.first_paused.is_none() && status == PlaybackStatus::Paused {
            false
        } else {
            self.first_with_track.is_none()
        }
    }

    /// Looks at the next player. A player that plays is taken at once and
    /// handed back; any other is kept in the place that is due to it, if that
    /// place is free. `has_track` counts only where [`ActivePick::needs_track`]
    /// says so.
    pub fn place(&mut self, player: P, status: PlaybackStatus, has_track: bool) -> (playing:
        Option<P>)
        ensures
            status == PlaybackStatus::Playing ==> playing == Some(player) && *final(self) == *old(
                self,
            ),
            status != PlaybackStatus::Playing ==> playing is None && *final(self) == old(
                self,
            ).placed(player, status, has_track),
    {
        if status == PlaybackStatus::Playing {
            return Some(player);
        }
        if self.first_paused.is_none() && status == PlaybackStatus::Paused {
            self.first_paused = Some(player);
        } else if self.first_with_track.is_none() && has_track {
            self.first_with_track = Some(player);
        } else if self.first_found.is_none() {
            self.first_found = Some(player);
        }
        None
    }

    /// The player that is taken when none plays.
    pub fn choice(self) -> (player: Option<P>)
        ensures
            player == self.chosen(),
    {
        if self.first_paused.is_some() {
            self.first_paused
        } else if self.first_with_track.is_some() {
            self.first_with_track
        } else {
            self.first_found
        }
    }
}

} // verus!
