//! Reading metadata from the raw map that a player reports.
use vstd::prelude::*;
use vstd::std_specs::convert::TryFromSpecImpl;
use vstd::string::StringExecFns;

use super::metadata::{
    duration_view, float_view, is_known_key, text_view, texts_view, track_id_view, value_view,
    values_of, Metadata, MetadataView, RawMetadata,
};
use super::track_id::{track_id_of, TrackID};
use super::values::{float_of, string_of, strings_of, u64_of, Float64, MetadataValue, ValueView};
use crate::duration::{duration_of, MprisDuration};
use crate::errors::InvalidMetadata;

verus! {

/// What an entry gives for a field that holds a list of strings: nothing where
/// the entry is missing, the value where it has the right shape, and else the
/// text that says what is wrong with it.
pub open spec fn read_texts(entry: Option<ValueView>) -> Result<Option<Seq<Seq<char>>>, Seq<char>> {
    match entry {
        None => Ok(None),
        Some(value) => match strings_of(value) {
            Ok(v) => Ok(Some(v)),
            Err(text) => Err(text),
        },
    }
}

/// What an entry gives for a field that holds a string: nothing where
/// the entry is missing, the value where it has the right shape, and else the
/// text that says what is wrong with it.
pub open spec fn read_text(entry: Option<ValueView>) -> Result<Option<Seq<char>>, Seq<char>> {
    match entry {
        None => Ok(None),
        Some(value) => match string_of(value) {
            Ok(v) => Ok(Some(v)),
            Err(text) => Err(text),
        },
    }
}

/// What an entry gives for a field that holds an unsigned integer: nothing where
/// the entry is missing, the value where it has the right shape, and else the
/// text that says what is wrong with it.
pub open spec fn read_unsigned(entry: Option<ValueView>) -> Result<Option<u64>, Seq<char>> {
    match entry {
        None => Ok(None),
        Some(value) => match u64_of(value) {
            Ok(v) => Ok(Some(v)),
            Err(text) => Err(text),
        },
    }
}

/// What an entry gives for a field that holds a floating-point number: nothing where
/// the entry is missing, the value where it has the right shape, and else the
/// text that says what is wrong with it.
pub open spec fn read_float(entry: Option<ValueView>) -> Result<Option<u64>, Seq<char>> {
    match entry {
        None => Ok(None),
        Some(value) => match float_of(value) {
            Ok(v) => Ok(Some(v)),
            Err(text) => Err(text),
        },
    }
}

/// What an entry gives for a field that holds a duration: nothing where
/// the entry is missing, the value where it has the right shape, and else the
/// text that says what is wrong with it.
pub open spec fn read_duration(entry: Option<ValueView>) -> Result<Option<nat>, Seq<char>> {
    match entry {
        None => Ok(None),
        Some(value) => match duration_of(value) {
            Ok(v) => Ok(Some(v)),
            Err(text) => Err(text),
        },
    }
}

/// What an entry gives for a field that holds a track identifier: nothing where
/// the entry is missing, the value where it has the right shape, and else the
/// text that says what is wrong with it.
pub open spec fn read_track_id(entry: Option<ValueView>) -> Result<Option<Seq<char>>, Seq<char>> {
    match entry {
        None => Ok(None),
        Some(value) => match track_id_of(value) {
            Ok(v) => Ok(Some(v)),
            Err(text) => Err(text),
        },
    }
}

/// What a field holds after a read that forgives: the value that was read,
/// or nothing where the entry was refused.
pub open spec fn forgiven<T>(read: Result<Option<T>, Seq<char>>) -> Option<T> {
    match read {
        Ok(field) => field,
        Err(_) => None,
    }
}

/// The text of the error for an entry that was refused: what is wrong with
/// the value, and the key it stands under.
pub open spec fn complaint<T>(read: Result<Option<T>, Seq<char>>, key: Seq<char>) -> Option<
    Seq<char>,
> {
    match read {
        Ok(_) => None,
        Err(text) => Some(text + " for "@ + key),
    }
}

/// The metadata that a raw map gives when every entry of the wrong shape is
/// left out: each well-known key fills its field, all other entries stay raw.
pub open spec fn parse_lossy(raw: Map<Seq<char>, ValueView>) -> MetadataView {
    MetadataView {
        album_artists: forgiven(read_texts(raw.get("xesam:albumArtist"@))),
        album_name: forgiven(read_text(raw.get("xesam:album"@))),
        art_url: forgiven(read_text(raw.get("mpris:artUrl"@))),
        artists: forgiven(read_texts(raw.get("xesam:artist"@))),
        audio_bpm: forgiven(read_unsigned(raw.get("xesam:audioBPM"@))),
        auto_rating: forgiven(read_float(raw.get("xesam:autoRating"@))),
        comments: forgiven(read_texts(raw.get("xesam:comment"@))),
        composers: forgiven(read_texts(raw.get("xesam:composer"@))),
        content_created: forgiven(read_text(raw.get("xesam:contentCreated"@))),
        disc_number: forgiven(read_unsigned(raw.get("xesam:discNumber"@))),
        first_used: forgiven(read_text(raw.get("xesam:firstUsed"@))),
        genres: forgiven(read_texts(raw.get("xesam:genre"@))),
        last_used: forgiven(read_text(raw.get("xesam:lastUsed"@))),
        length: forgiven(read_duration(raw.get("mpris:length"@))),
        lyricists: forgiven(read_texts(raw.get("xesam:lyricist"@))),
        lyrics: forgiven(read_text(raw.get("xesam:asText"@))),
        title: forgiven(read_text(raw.get("xesam:title"@))),
        track_id: forgiven(read_track_id(raw.get("mpris:trackid"@))),
        track_number: forgiven(read_unsigned(raw.get("xesam:trackNumber"@))),
        url: forgiven(read_text(raw.get("xesam:url"@))),
        use_count: forgiven(read_unsigned(raw.get("xesam:useCount"@))),
        user_rating: forgiven(read_float(raw.get("xesam:userRating"@))),
        others: raw.remove_keys(Set::new(|key: Seq<char>| is_known_key(key))),
    }
}

/// The complaint about the first well-known entry of the wrong shape, in the
/// order of the fields of [`Metadata`]; `None` where every one is in order.
pub open spec fn first_complaint(raw: Map<Seq<char>, ValueView>) -> Option<Seq<char>> {
    if complaint(
        read_texts(raw.get("xesam:albumArtist"@)),
        "xesam:albumArtist"@,
    ) is Some {
        complaint(read_texts(raw.get("xesam:albumArtist"@)), "xesam:albumArtist"@)
    } else if complaint(read_text(raw.get("xesam:album"@)), "xesam:album"@) is Some {
        complaint(read_text(raw.get("xesam:album"@)), "xesam:album"@)
    } else if complaint(read_text(raw.get("mpris:artUrl"@)), "mpris:artUrl"@) is Some {
        complaint(read_text(raw.get("mpris:artUrl"@)), "mpris:artUrl"@)
    } else if complaint(read_texts(raw.get("xesam:artist"@)), "xesam:artist"@) is Some {
        complaint(read_texts(raw.get("xesam:artist"@)), "xesam:artist"@)
    } else if complaint(
        read_unsigned(raw.get("xesam:audioBPM"@)),
        "xesam:audioBPM"@,
    ) is Some {
        complaint(read_unsigned(raw.get("xesam:audioBPM"@)), "xesam:audioBPM"@)
    } else if complaint(
        read_float(raw.get("xesam:autoRating"@)),
        "xesam:autoRating"@,
    ) is Some {
        complaint(read_float(raw.get("xesam:autoRating"@)), "xesam:autoRating"@)
    } else if complaint(read_texts(raw.get("xesam:comment"@)), "xesam:comment"@) is Some {
        complaint(read_texts(raw.get("xesam:comment"@)), "xesam:comment"@)
    } else if complaint(read_texts(raw.get("xesam:composer"@)), "xesam:composer"@) is Some {
        complaint(read_texts(raw.get("xesam:composer"@)), "xesam:composer"@)
    } else if complaint(
        read_text(raw.get("xesam:contentCreated"@)),
        "xesam:contentCreated"@,
    ) is Some {
        complaint(read_text(raw.get("xesam:contentCreated"@)), "xesam:contentCreated"@)
    } else if complaint(
        read_unsigned(raw.get("xesam:discNumber"@)),
        "xesam:discNumber"@,
    ) is Some {
        complaint(read_unsigned(raw.get("xesam:discNumber"@)), "xesam:discNumber"@)
    } else if complaint(read_text(raw.get("xesam:firstUsed"@)), "xesam:firstUsed"@) is Some {
        complaint(read_text(raw.get("xesam:firstUsed"@)), "xesam:firstUsed"@)
    } else if complaint(read_texts(raw.get("xesam:genre"@)), "xesam:genre"@) is Some {
        complaint(read_texts(raw.get("xesam:genre"@)), "xesam:genre"@)
    } else if complaint(read_text(raw.get("xesam:lastUsed"@)), "xesam:lastUsed"@) is Some {
        complaint(read_text(raw.get("xesam:lastUsed"@)), "xesam:lastUsed"@)
    } else if complaint(read_duration(raw.get("mpris:length"@)), "mpris:length"@) is Some {
        complaint(read_duration(raw.get("mpris:length"@)), "mpris:length"@)
    } else if complaint(read_texts(raw.get("xesam:lyricist"@)), "xesam:lyricist"@) is Some {
        complaint(read_texts(raw.get("xesam:lyricist"@)), "xesam:lyricist"@)
    } else if complaint(read_text(raw.get("xesam:asText"@)), "xesam:asText"@) is Some {
        complaint(read_text(raw.get("xesam:asText"@)), "xesam:asText"@)
    } else if complaint(read_text(raw.get("xesam:title"@)), "xesam:title"@) is Some {
        complaint(read_text(raw.get("xesam:title"@)), "xesam:title"@)
    } else if complaint(read_track_id(raw.get("mpris:trackid"@)), "mpris:trackid"@) is Some {
        complaint(read_track_id(raw.get("mpris:trackid"@)), "mpris:trackid"@)
    } else if complaint(
        read_unsigned(raw.get("xesam:trackNumber"@)),
        "xesam:trackNumber"@,
    ) is Some {
        complaint(read_unsigned(raw.get("xesam:trackNumber"@)), "xesam:trackNumber"@)
    } else if complaint(read_text(raw.get("xesam:url"@)), "xesam:url"@) is Some {
        complaint(read_text(raw.get("xesam:url"@)), "xesam:url"@)
    } else if complaint(
        read_unsigned(raw.get("xesam:useCount"@)),
        "xesam:useCount"@,
    ) is Some {
        complaint(read_unsigned(raw.get("xesam:useCount"@)), "xesam:useCount"@)
    } else if complaint(
        read_float(raw.get("xesam:userRating"@)),
        "xesam:userRating"@,
    ) is Some {
        complaint(read_float(raw.get("xesam:userRating"@)), "xesam:userRating"@)
    } else {
        None
    }
}

/// The metadata that a raw map gives when nothing is forgiven. The empty map
/// is the empty metadata. Any other map must hold a track identifier, and
/// every well-known entry must have the shape of its field.
pub open spec fn parse_strict(raw: Map<Seq<char>, ValueView>) -> Result<MetadataView, Seq<char>> {
    if raw == Map::<Seq<char>, ValueView>::empty() {
        Ok(MetadataView::empty())
    } else if !raw.contains_key("mpris:trackid"@) {
        Err("metadata doesn't contain the mpris:trackid key"@)
    } else {
        match first_complaint(raw) {
            Some(text) => Err(text),
            None => Ok(parse_lossy(raw)),
        }
    }
}

/// The error for the entry under `key` of which `text` says what is wrong.
fn refuse(text: String, key: &str) -> (error: InvalidMetadata)
    ensures
        error@ == text@ + " for "@ + key@,
{
    let mut message = text;
    message.append(" for ");
    message.append(key);
    InvalidMetadata(message)
}

fn texts_from(entry: Option<MetadataValue>) -> (read: Result<Option<Vec<String>>, String>)
    ensures
        match read_texts(value_view(entry)) {
            Ok(field) => read is Ok && texts_view(read->Ok_0) == field,
            Err(text) => read is Err && read->Err_0@ == text,
        },
{
    match entry {
        None => Ok(None),
        Some(value) => match Vec::<String>::try_from(value) {
            Ok(field) => Ok(Some(field)),
            Err(error) => Err(error.0),
        },
    }
}

fn text_from(entry: Option<MetadataValue>) -> (read: Result<Option<String>, String>)
    ensures
        match read_text(value_view(entry)) {
            Ok(field) => read is Ok && text_view(read->Ok_0) == field,
            Err(text) => read is Err && read->Err_0@ == text,
        },
{
    match entry {
        None => Ok(None),
        Some(value) => match String::try_from(value) {
            Ok(field) => Ok(Some(field)),
            Err(error) => Err(error.0),
        },
    }
}

fn unsigned_from(entry: Option<MetadataValue>) -> (read: Result<Option<u64>, String>)
    ensures
        match read_unsigned(value_view(entry)) {
            Ok(field) => read is Ok && read->Ok_0 == field,
            Err(text) => read is Err && read->Err_0@ == text,
        },
{
    match entry {
        None => Ok(None),
        Some(value) => match u64::try_from(value) {
            Ok(field) => Ok(Some(field)),
            Err(error) => Err(error.0),
        },
    }
}

fn float_from(entry: Option<MetadataValue>) -> (read: Result<Option<Float64>, String>)
    ensures
        match read_float(value_view(entry)) {
            Ok(field) => read is Ok && float_view(read->Ok_0) == field,
            Err(text) => read is Err && read->Err_0@ == text,
        },
{
    match entry {
        None => Ok(None),
        Some(value) => match Float64::try_from(value) {
            Ok(field) => Ok(Some(field)),
            Err(error) => Err(error.0),
        },
    }
}

fn duration_from(entry: Option<MetadataValue>) -> (read: Result<Option<MprisDuration>, String>)
    ensures
        match read_duration(value_view(entry)) {
            Ok(field) => read is Ok && duration_view(read->Ok_0) == field,
            Err(text) => read is Err && read->Err_0@ == text,
        },
{
    match entry {
        None => Ok(None),
        Some(value) => match MprisDuration::try_from(value) {
            Ok(field) => Ok(Some(field)),
            Err(error) => Err(error.0),
        },
    }
}

fn track_id_from(entry: Option<MetadataValue>) -> (read: Result<Option<TrackID>, String>)
    ensures
        match read_track_id(value_view(entry)) {
            Ok(field) => read is Ok && track_id_view(read->Ok_0) == field,
            Err(text) => read is Err && read->Err_0@ == text,
        },
{
    match entry {
        None => Ok(None),
        Some(value) => match TrackID::try_from(value) {
            Ok(field) => Ok(Some(field)),
            Err(error) => Err(error.0),
        },
    }
}

/// A copy of the value that the raw map has under `key`.
fn entry(raw: &RawMetadata, key: &str) -> (found: Option<MetadataValue>)
    ensures
        value_view(found) == values_of(raw@).get(key@),
{
    match raw.get(key) {
        Some(value) => Some(value.clone()),
        None => None,
    }
}

/// The raw map without the entries under well-known keys.
fn without_known(raw: RawMetadata) -> (rest: RawMetadata)
    ensures
        values_of(rest@) == values_of(raw@).remove_keys(
            Set::new(|key: Seq<char>| is_known_key(key)),
        ),
{
    let mut rest = raw;
    rest.remove("xesam:albumArtist");
    rest.remove("xesam:album");
    rest.remove("mpris:artUrl");
    rest.remove("xesam:artist");
    rest.remove("xesam:audioBPM");
    rest.remove("xesam:autoRating");
    rest.remove("xesam:comment");
    rest.remove("xesam:composer");
    rest.remove("xesam:contentCreated");
    rest.remove("xesam:discNumber");
    rest.remove("xesam:firstUsed");
    rest.remove("xesam:genre");
    rest.remove("xesam:lastUsed");
    rest.remove("mpris:length");
    rest.remove("xesam:lyricist");
    rest.remove("xesam:asText");
    rest.remove("xesam:title");
    rest.remove("mpris:trackid");
    rest.remove("xesam:trackNumber");
    rest.remove("xesam:url");
    rest.remove("xesam:useCount");
    rest.remove("xesam:userRating");
    assert forall|key: Seq<char>| rest@.contains_key(key) <==> (raw@.contains_key(key)
        && !is_known_key(key)) by {}
    assert forall|key: Seq<char>| rest@.contains_key(key) implies rest@[key] == raw@[key] by {}
    assert(values_of(rest@) =~= values_of(raw@).remove_keys(
        Set::new(|key: Seq<char>| is_known_key(key)),
    ));
    rest
}

impl Metadata {
    /// Reads metadata from a raw map and forgives: an entry under a
    /// well-known key whose value has the wrong shape is dropped.
    pub fn from_raw_lossy(raw: RawMetadata) -> (metadata: Self)
        ensures
            metadata@ == parse_lossy(values_of(raw@)),
            metadata@.wf(),
    {
        let album_artists = match texts_from(entry(&raw, "xesam:albumArtist")) {
            Ok(field) => field,
            Err(_) => None,
        };
        let album_name = match text_from(entry(&raw, "xesam:album")) {
            Ok(field) => field,
            Err(_) => None,
        };
        let art_url = match text_from(entry(&raw, "mpris:artUrl")) {
            Ok(field) => field,
            Err(_) => None,
        };
        let artists = match texts_from(entry(&raw, "xesam:artist")) {
            Ok(field) => field,
            Err(_) => None,
        };
        let audio_bpm = match unsigned_from(entry(&raw, "xesam:audioBPM")) {
            Ok(field) => field,
            Err(_) => None,
        };
        let auto_rating = match float_from(entry(&raw, "xesam:autoRating")) {
            Ok(field) => field,
            Err(_) => None,
        };
        let comments = match texts_from(entry(&raw, "xesam:comment")) {
            Ok(field) => field,
            Err(_) => None,
        };
        let composers = match texts_from(entry(&raw, "xesam:composer")) {
            Ok(field) => field,
            Err(_) => None,
        };
        let content_created = match text_from(entry(&raw, "xesam:contentCreated")) {
            Ok(field) => field,
            Err(_) => None,
        };
        let disc_number = match unsigned_from(entry(&raw, "xesam:discNumber")) {
            Ok(field) => field,
            Err(_) => None,
        };
        let first_used = match text_from(entry(&raw, "xesam:firstUsed")) {
            Ok(field) => field,
            Err(_) => None,
        };
        let genres = match texts_from(entry(&raw, "xesam:genre")) {
            Ok(field) => field,
            Err(_) => None,
        };
        let last_used = match text_from(entry(&raw, "xesam:lastUsed")) {
            Ok(field) => field,
            Err(_) => None,
        };
        let length = match duration_from(entry(&raw, "mpris:length")) {
            Ok(field) => field,
            Err(_) => None,
        };
        let lyricists = match texts_from(entry(&raw, "xesam:lyricist")) {
            Ok(field) => field,
            Err(_) => None,
        };
        let lyrics = match text_from(entry(&raw, "xesam:asText")) {
            Ok(field) => field,
            Err(_) => None,
        };
        let title = match text_from(entry(&raw, "xesam:title")) {
            Ok(field) => field,
            Err(_) => None,
        };
        let track_id = match track_id_from(entry(&raw, "mpris:trackid")) {
            Ok(field) => field,
            Err(_) => None,
        };
        let track_number = match unsigned_from(entry(&raw, "xesam:trackNumber")) {
            Ok(field) => field,
            Err(_) => None,
        };
        let url = match text_from(entry(&raw, "xesam:url")) {
            Ok(field) => field,
            Err(_) => None,
        };
        let use_count = match unsigned_from(entry(&raw, "xesam:useCount")) {
            Ok(field) => field,
            Err(_) => None,
        };
        let user_rating = match float_from(entry(&raw, "xesam:userRating")) {
            Ok(field) => field,
            Err(_) => None,
        };
        let metadata = Metadata {
            album_artists,
            album_name,
            art_url,
            artists,
            audio_bpm,
            auto_rating,
            comments,
            composers,
            content_created,
            disc_number,
            first_used,
            genres,
            last_used,
            length,
            lyricists,
            lyrics,
            title,
            track_id,
            track_number,
            url,
            use_count,
            user_rating,
            others: without_known(raw),
        };
        metadata
    }
}

impl TryFromSpecImpl<RawMetadata> for Metadata {
    open spec fn obeys_try_from_spec() -> bool {
        false
    }

    open spec fn try_from_spec(raw: RawMetadata) -> Result<Metadata, InvalidMetadata> {
        arbitrary()
    }
}

impl TryFrom<RawMetadata> for Metadata {
    type Error = InvalidMetadata;

    /// Reads metadata from a raw map and forgives nothing: see [`parse_strict`].
    fn try_from(raw: RawMetadata) -> (parsed: Result<Self, Self::Error>)
        ensures
            match parse_strict(values_of(raw@)) {
                Ok(metadata) => parsed is Ok && parsed->Ok_0@ == metadata && metadata.wf(),
                Err(text) => parsed is Err && parsed->Err_0@ == text,
            },
    {
        if raw.is_empty() {
            proof {
                assert(values_of(raw@) =~= Map::<Seq<char>, ValueView>::empty());
            }
            return Ok(Metadata::new());
        }
        proof {
            if values_of(raw@) == Map::<Seq<char>, ValueView>::empty() {
                assert forall|key: Seq<char>| !raw@.contains_key(key) by {
                    assert(!values_of(raw@).contains_key(key));
                }
                assert(raw@ =~= Map::<Seq<char>, MetadataValue>::empty());
            }
        }
        if !raw.contains_key("mpris:trackid") {
            return Err(InvalidMetadata::from("metadata doesn't contain the mpris:trackid key"));
        }
        let album_artists = match texts_from(entry(&raw, "xesam:albumArtist")) {
            Ok(field) => field,
            Err(text) => return Err(refuse(text, "xesam:albumArtist")),
        };
        let album_name = match text_from(entry(&raw, "xesam:album")) {
            Ok(field) => field,
            Err(text) => return Err(refuse(text, "xesam:album")),
        };
        let art_url = match text_from(entry(&raw, "mpris:artUrl")) {
            Ok(field) => field,
            Err(text) => return Err(refuse(text, "mpris:artUrl")),
        };
        let artists = match texts_from(entry(&raw, "xesam:artist")) {
            Ok(field) => field,
            Err(text) => return Err(refuse(text, "xesam:artist")),
        };
        let audio_bpm = match unsigned_from(entry(&raw, "xesam:audioBPM")) {
            Ok(field) => field,
            Err(text) => return Err(refuse(text, "xesam:audioBPM")),
        };
        let auto_rating = match float_from(entry(&raw, "xesam:autoRating")) {
            Ok(field) => field,
            Err(text) => return Err(refuse(text, "xesam:autoRating")),
        };
        let comments = match texts_from(entry(&raw, "xesam:comment")) {
            Ok(field) => field,
            Err(text) => return Err(refuse(text, "xesam:comment")),
        };
        let composers = match texts_from(entry(&raw, "xesam:composer")) {
            Ok(field) => field,
            Err(text) => return Err(refuse(text, "xesam:composer")),
        };
        let content_created = match text_from(entry(&raw, "xesam:contentCreated")) {
            Ok(field) => field,
            Err(text) => return Err(refuse(text, "xesam:contentCreated")),
        };
        let disc_number = match unsigned_from(entry(&raw, "xesam:discNumber")) {
            Ok(field) => field,
            Err(text) => return Err(refuse(text, "xesam:discNumber")),
        };
        let first_used = match text_from(entry(&raw, "xesam:firstUsed")) {
            Ok(field) => field,
            Err(text) => return Err(refuse(text, "xesam:firstUsed")),
        };
        let genres = match texts_from(entry(&raw, "xesam:genre")) {
            Ok(field) => field,
            Err(text) => return Err(refuse(text, "xesam:genre")),
        };
        let last_used = match text_from(entry(&raw, "xesam:lastUsed")) {
            Ok(field) => field,
            Err(text) => return Err(refuse(text, "xesam:lastUsed")),
        };
        let length = match duration_from(entry(&raw, "mpris:length")) {
            Ok(field) => field,
            Err(text) => return Err(refuse(text, "mpris:length")),
        };
        let lyricists = match texts_from(entry(&raw, "xesam:lyricist")) {
            Ok(field) => field,
            Err(text) => return Err(refuse(text, "xesam:lyricist")),
        };
        let lyrics = match text_from(entry(&raw, "xesam:asText")) {
            Ok(field) => field,
            Err(text) => return Err(refuse(text, "xesam:asText")),
        };
        let title = match text_from(entry(&raw, "xesam:title")) {
            Ok(field) => field,
            Err(text) => return Err(refuse(text, "xesam:title")),
        };
        let track_id = match track_id_from(entry(&raw, "mpris:trackid")) {
            Ok(field) => field,
            Err(text) => return Err(refuse(text, "mpris:trackid")),
        };
        let track_number = match unsigned_from(entry(&raw, "xesam:trackNumber")) {
            Ok(field) => field,
            Err(text) => return Err(refuse(text, "xesam:trackNumber")),
        };
        let url = match text_from(entry(&raw, "xesam:url")) {
            Ok(field) => field,
            Err(text) => return Err(refuse(text, "xesam:url")),
        };
        let use_count = match unsigned_from(entry(&raw, "xesam:useCount")) {
            Ok(field) => field,
            Err(text) => return Err(refuse(text, "xesam:useCount")),
        };
        let user_rating = match float_from(entry(&raw, "xesam:userRating")) {
            Ok(field) => field,
            Err(text) => return Err(refuse(text, "xesam:userRating")),
        };
        let metadata = Metadata {
            album_artists,
            album_name,
            art_url,
            artists,
            audio_bpm,
            auto_rating,
            comments,
            composers,
            content_created,
            disc_number,
            first_used,
            genres,
            last_used,
            length,
            lyricists,
            lyrics,
            title,
            track_id,
            track_number,
            url,
            use_count,
            user_rating,
            others: without_known(raw),
        };
        Ok(metadata)
    }
}

} // verus!
