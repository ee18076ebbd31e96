//! Track identifiers.
use core::cmp::Ordering;
use vstd::prelude::*;
use vstd::std_specs::cmp::{PartialEqSpecImpl, PartialOrdSpecImpl};
use vstd::std_specs::convert::{FromSpecImpl, TryFromSpecImpl};

use super::bus_value::BusValue;
use super::values::{texts, MetadataValue, ValueView};
use crate::errors::InvalidTrackID;
use crate::object_path::{check_object_path, is_object_path, object_path_refusal};
use crate::text::{compare_texts, same_text, starts_with, text_order};

verus! {

/// The identifier that stands for "no track": a player reports it when
/// nothing is loaded, and a track list uses it for the place before its
/// first entry.
pub const NO_TRACK: &'static str = "/org/mpris/MediaPlayer2/TrackList/NoTrack";

/// The text of [`NO_TRACK`].
pub open spec fn no_track_text() -> Seq<char> {
    "/org/mpris/MediaPlayer2/TrackList/NoTrack"@
}

/// The beginning of the paths that the protocol keeps for itself.
pub open spec fn reserved_prefix() -> Seq<char> {
    "/org/mpris"@
}

/// Whether `text` lies in the protocol's own namespace and so cannot name a
/// track: it starts with the reserved prefix and is not [`NO_TRACK`].
pub open spec fn is_reserved(text: Seq<char>) -> bool {
    reserved_prefix().is_prefix_of(text) && text != no_track_text()
}

/// Whether `text` can be a track identifier: an object path that is not reserved.
pub open spec fn is_track_id(text: Seq<char>) -> bool {
    !is_reserved(text) && is_object_path(text)
}

/// The text of the error with which `text` is refused as a track identifier.
pub open spec fn track_id_refusal(text: Seq<char>) -> Seq<char> {
    if is_reserved(text) {
        "TrackID can't start with \"/org/mpris\""@
    } else {
        object_path_refusal()
    }
}

/// The track identifier that a text is, or the error text that says why it is none.
pub open spec fn track_id_of_text(text: Seq<char>) -> Result<Seq<char>, Seq<char>> {
    if is_track_id(text) {
        Ok(text)
    } else {
        Err(track_id_refusal(text))
    }
}

/// The track identifier that a metadata value holds: a string, or the one
/// member of a list of exactly one string, that is an identifier.
pub open spec fn track_id_of(value: ValueView) -> Result<Seq<char>, Seq<char>> {
    match value {
        ValueView::String(text) => track_id_of_text(text),
        ValueView::Strings(list) => if list.len() == 1 {
            track_id_of_text(list[0])
        } else {
            Err("not a string"@)
        },
        _ => Err("not a string"@),
    }
}

/// Refuses the texts that lie in the protocol's own namespace, and hands
/// every other text back.
pub fn check_start(s: &str) -> (checked: Result<&str, InvalidTrackID>)
    ensures
        !is_reserved(s@) ==> checked is Ok && checked->Ok_0@ == s@,
        is_reserved(s@) ==> checked is Err && checked->Err_0@
            == "TrackID can't start with \"/org/mpris\""@,
{
    if starts_with(s, "/org/mpris") && !same_text(s, NO_TRACK) {
        Err(InvalidTrackID::from("TrackID can't start with \"/org/mpris\""))
    } else {
        Ok(s)
    }
}

/// The identifier of a track: an object path outside the protocol's own
/// namespace, or [`NO_TRACK`]. Identifiers are compared and ordered as
/// their texts are.
#[derive(Debug, Eq, Hash, Ord)]
pub struct TrackID {
    path: String,
}

impl View for TrackID {
    type V = Seq<char>;

    /// The text of the path.
    closed spec fn view(&self) -> Seq<char> {
        self.path@
    }
}

impl PartialEqSpecImpl for TrackID {
    open spec fn obeys_eq_spec() -> bool {
        true
    }

    open spec fn eq_spec(&self, other: &TrackID) -> bool {
        self@ == other@
    }
}

impl PartialEq for TrackID {
    fn eq(&self, other: &TrackID) -> (same: bool) {
        self.path == other.path
    }
}

impl PartialOrdSpecImpl for TrackID {
    open spec fn obeys_partial_cmp_spec() -> bool {
        true
    }

    open spec fn partial_cmp_spec(&self, other: &TrackID) -> Option<Ordering> {
        Some(text_order(self@, other@))
    }
}

impl PartialOrd for TrackID {
    fn partial_cmp(&self, other: &TrackID) -> (order: Option<Ordering>) {
        Some(compare_texts(self.path.as_str(), other.path.as_str()))
    }
}

impl Clone for TrackID {
    fn clone(&self) -> (copy: Self)
        ensures
            copy@ == self@,
    {
        proof {
            use_type_invariant(self);
        }
        TrackID { path: self.path.clone() }
    }
}

impl TrackID {
    #[verifier::type_invariant]
    pub open spec fn is_valid(self) -> bool {
        is_track_id(self@)
    }

    /// Makes an identifier of `id`, or says why it is none: it is reserved, or
    /// zbus refuses it as an object path.
    pub fn new(id: String) -> (made: Result<Self, InvalidTrackID>)
        ensures
            match track_id_of_text(id@) {
                Ok(text) => made is Ok && made->Ok_0@ == text,
                Err(text) => made is Err && made->Err_0@ == text,
            },
    {
        match check_start(id.as_str()) {
            Err(error) => Err(error),
            Ok(_) => match check_object_path(id.as_str()) {
                Ok(_) => Ok(TrackID { path: id }),
                Err(text) => Err(InvalidTrackID(text)),
            },
        }
    }

    /// The identifier that stands for "no track".
    pub fn no_track() -> (id: Self)
        ensures
            id@ == no_track_text(),
    {
        proof {
            lemma_no_track_is_track_id();
        }
        TrackID { path: NO_TRACK.to_owned() }
    }

    /// Whether this is the identifier that stands for "no track".
    pub fn is_no_track(&self) -> (is: bool)
        ensures
            is == (self@ == no_track_text()),
    {
        same_text(self.path.as_str(), NO_TRACK)
    }

    /// The text of the identifier.
    pub fn as_str(&self) -> (text: &str)
        ensures
            text@ == self@,
            is_track_id(text@),
    {
        proof {
            use_type_invariant(self);
        }
        self.path.as_str()
    }
}

/// [`NO_TRACK`] is a track identifier, although it starts with the reserved prefix.
pub proof fn lemma_no_track_is_track_id()
    ensures
        is_track_id(no_track_text()),
        reserved_prefix().is_prefix_of(no_track_text()),
{
    reveal_strlit("/org/mpris/MediaPlayer2/TrackList/NoTrack");
    reveal_strlit("/org/mpris");
    let text = no_track_text();
    assert(text.len() == 41);
    assert(reserved_prefix() =~= text.subrange(0, 10));
}

/// Every text that starts with the reserved prefix, but for [`NO_TRACK`]
/// itself, is refused as a track identifier.
pub proof fn lemma_reserved_is_refused(text: Seq<char>)
    requires
        reserved_prefix().is_prefix_of(text),
        text != no_track_text(),
    ensures
        track_id_of_text(text) is Err,
        track_id_of(ValueView::String(text)) is Err,
{
}

impl TryFromSpecImpl<String> for TrackID {
    open spec fn obeys_try_from_spec() -> bool {
        false
    }

    open spec fn try_from_spec(value: String) -> Result<TrackID, InvalidTrackID> {
        arbitrary()
    }
}

impl TryFrom<String> for TrackID {
    type Error = InvalidTrackID;

    fn try_from(value: String) -> (made: Result<Self, Self::Error>)
        ensures
            match track_id_of_text(value@) {
                Ok(text) => made is Ok && made->Ok_0@ == text,
                Err(text) => made is Err && made->Err_0@ == text,
            },
    {
        TrackID::new(value)
    }
}

impl<'a> TryFromSpecImpl<&'a str> for TrackID {
    open spec fn obeys_try_from_spec() -> bool {
        false
    }

    open spec fn try_from_spec(value: &'a str) -> Result<TrackID, InvalidTrackID> {
        arbitrary()
    }
}

impl<'a> TryFrom<&'a str> for TrackID {
    type Error = InvalidTrackID;

    fn try_from(value: &'a str) -> (made: Result<Self, Self::Error>)
        ensures
            match track_id_of_text(value@) {
                Ok(text) => made is Ok && made->Ok_0@ == text,
                Err(text) => made is Err && made->Err_0@ == text,
            },
    {
        TrackID::new(value.to_owned())
    }
}

impl TryFromSpecImpl<MetadataValue> for TrackID {
    open spec fn obeys_try_from_spec() -> bool {
        false
    }

    open spec fn try_from_spec(value: MetadataValue) -> Result<TrackID, InvalidTrackID> {
        arbitrary()
    }
}

impl TryFrom<MetadataValue> for TrackID {
    type Error = InvalidTrackID;

    fn try_from(value: MetadataValue) -> (made: Result<Self, Self::Error>)
        ensures
            match track_id_of(value@) {
                Ok(text) => made is Ok && made->Ok_0@ == text,
                Err(text) => made is Err && made->Err_0@ == text,
            },
    {
        match value {
            MetadataValue::String(s) => TrackID::new(s),
            MetadataValue::Strings(mut s) => {
                if s.len() == 1 {
                    match s.pop() {
                        Some(only) => TrackID::new(only),
                        None => Err(InvalidTrackID::from("not a string")),
                    }
                } else {
                    Err(InvalidTrackID::from("not a string"))
                }
            },
            _ => Err(InvalidTrackID::from("not a string")),
        }
    }
}

impl core::ops::Deref for TrackID {
    type Target = str;

    fn deref(&self) -> (text: &str)
        ensures
            text@ == self@,
    {
        self.path.as_str()
    }
}

impl FromSpecImpl<TrackID> for String {
    open spec fn obeys_from_spec() -> bool {
        false
    }

    open spec fn from_spec(value: TrackID) -> String {
        arbitrary()
    }
}

impl From<TrackID> for String {
    fn from(value: TrackID) -> (text: String)
        ensures
            text@ == value@,
            is_track_id(text@),
    {
        proof {
            use_type_invariant(&value);
        }
        value.path
    }
}

/// The track identifier that a value of the bus holds: a string or an
/// object path that is an identifier.
pub open spec fn track_id_of_bus_value(value: BusValue) -> Result<Seq<char>, Seq<char>> {
    match value {
        BusValue::Str(text) => track_id_of_text(text@),
        BusValue::ObjectPath(text) => track_id_of_text(text@),
        _ => Err("not a String or ObjectPath"@),
    }
}

impl TryFromSpecImpl<BusValue> for TrackID {
    open spec fn obeys_try_from_spec() -> bool {
        false
    }

    open spec fn try_from_spec(value: BusValue) -> Result<TrackID, InvalidTrackID> {
        arbitrary()
    }
}

impl TryFrom<BusValue> for TrackID {
    type Error = InvalidTrackID;

    fn try_from(value: BusValue) -> (made: Result<Self, Self::Error>)
        ensures
            match track_id_of_bus_value(value) {
                Ok(text) => made is Ok && made->Ok_0@ == text,
                Err(text) => made is Err && made->Err_0@ == text,
            },
    {
        match value {
            BusValue::Str(text) => TrackID::new(text),
            BusValue::ObjectPath(text) => TrackID::new(text),
            _ => Err(InvalidTrackID::from("not a String or ObjectPath")),
        }
    }
}

impl FromSpecImpl<TrackID> for MetadataValue {
    open spec fn obeys_from_spec() -> bool {
        false
    }

    open spec fn from_spec(value: TrackID) -> MetadataValue {
        arbitrary()
    }
}

impl From<TrackID> for MetadataValue {
    fn from(value: TrackID) -> (wrapped: MetadataValue)
        ensures
            wrapped@ == ValueView::String(value@),
    {
        MetadataValue::String(String::from(value))
    }
}

} // verus!
