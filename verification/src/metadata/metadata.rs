//! The metadata of a track: the well-known entries as typed fields, and
//! every other entry as a raw value.
use vstd::prelude::*;
use vstd::std_specs::cmp::PartialEqSpecImpl;

use super::track_id::{is_track_id, TrackID};
use super::values::{copy_texts, same_texts, texts, Float64, MetadataValue, ValueView};
use crate::duration::{MprisDuration, MAX_MICROS};
use crate::text::same_text;
use crate::text_map::TextMap;

verus! {

/// A metadata map as a player reports it: raw values under their keys.
pub type RawMetadata = TextMap<MetadataValue>;

/// The mathematical value of a raw metadata map.
pub open spec fn values_of(raw: Map<Seq<char>, MetadataValue>) -> Map<Seq<char>, ValueView> {
    raw.map_values(|value: MetadataValue| value@)
}

/// The mathematical value of an optional raw value.
pub open spec fn value_view(value: Option<MetadataValue>) -> Option<ValueView> {
    match value {
        Some(v) => Some(v@),
        None => None,
    }
}

/// The mathematical value of an optional string.
pub open spec fn text_view(field: Option<String>) -> Option<Seq<char>> {
    match field {
        Some(v) => Some(v@),
        None => None,
    }
}

/// The mathematical value of an optional list of strings.
pub open spec fn texts_view(field: Option<Vec<String>>) -> Option<Seq<Seq<char>>> {
    match field {
        Some(v) => Some(texts(v@)),
        None => None,
    }
}

/// The bit pattern of an optional floating-point number.
pub open spec fn float_view(field: Option<Float64>) -> Option<u64> {
    match field {
        Some(v) => Some(v.bits),
        None => None,
    }
}

/// The microseconds of an optional duration.
pub open spec fn duration_view(field: Option<MprisDuration>) -> Option<nat> {
    match field {
        Some(v) => Some(v@),
        None => None,
    }
}

/// The text of an optional track identifier.
pub open spec fn track_id_view(field: Option<TrackID>) -> Option<Seq<char>> {
    match field {
        Some(v) => Some(v@),
        None => None,
    }
}

/// The place of the field of a well-known key among the fields of
/// [`Metadata`]; `None` for every other key.
pub open spec fn key_place(key: Seq<char>) -> Option<int> {
    if key == "xesam:albumArtist"@ {
        Some(0)
    } else if key == "xesam:album"@ {
        Some(1)
    } else if key == "mpris:artUrl"@ {
        Some(2)
    } else if key == "xesam:artist"@ {
        Some(3)
    } else if key == "xesam:audioBPM"@ {
        Some(4)
    } else if key == "xesam:autoRating"@ {
        Some(5)
    } else if key == "xesam:comment"@ {
        Some(6)
    } else if key == "xesam:composer"@ {
        Some(7)
    } else if key == "xesam:contentCreated"@ {
        Some(8)
    } else if key == "xesam:discNumber"@ {
        Some(9)
    } else if key == "xesam:firstUsed"@ {
        Some(10)
    } else if key == "xesam:genre"@ {
        Some(11)
    } else if key == "xesam:lastUsed"@ {
        Some(12)
    } else if key == "mpris:length"@ {
        Some(13)
    } else if key == "xesam:lyricist"@ {
        Some(14)
    } else if key == "xesam:asText"@ {
        Some(15)
    } else if key == "xesam:title"@ {
        Some(16)
    } else if key == "mpris:trackid"@ {
        Some(17)
    } else if key == "xesam:trackNumber"@ {
        Some(18)
    } else if key == "xesam:url"@ {
        Some(19)
    } else if key == "xesam:useCount"@ {
        Some(20)
    } else if key == "xesam:userRating"@ {
        Some(21)
    } else {
        None
    }
}

/// Whether `key` is one of the well-known keys, those that [`Metadata`] has a field for.
pub open spec fn is_known_key(key: Seq<char>) -> bool {
    key_place(key) is Some
}

/// The well-known key of the field with the name `field`, as the field is
/// written in [`Metadata`].
pub open spec fn key_of_field(field: Seq<char>) -> Option<Seq<char>> {
    if field == "album_artists"@ {
        Some("xesam:albumArtist"@)
    } else if field == "album_name"@ {
        Some("xesam:album"@)
    } else if field == "art_url"@ {
        Some("mpris:artUrl"@)
    } else if field == "artists"@ {
        Some("xesam:artist"@)
    } else if field == "audio_bpm"@ {
        Some("xesam:audioBPM"@)
    } else if field == "auto_rating"@ {
        Some("xesam:autoRating"@)
    } else if field == "comments"@ {
        Some("xesam:comment"@)
    } else if field == "composers"@ {
        Some("xesam:composer"@)
    } else if field == "content_created"@ {
        Some("xesam:contentCreated"@)
    } else if field == "disc_number"@ {
        Some("xesam:discNumber"@)
    } else if field == "first_used"@ {
        Some("xesam:firstUsed"@)
    } else if field == "genres"@ {
        Some("xesam:genre"@)
    } else if field == "last_used"@ {
        Some("xesam:lastUsed"@)
    } else if field == "length"@ {
        Some("mpris:length"@)
    } else if field == "lyricists"@ {
        Some("xesam:lyricist"@)
    } else if field == "lyrics"@ {
        Some("xesam:asText"@)
    } else if field == "title"@ {
        Some("xesam:title"@)
    } else if field == "track_id"@ {
        Some("mpris:trackid"@)
    } else if field == "track_number"@ {
        Some("xesam:trackNumber"@)
    } else if field == "url"@ {
        Some("xesam:url"@)
    } else if field == "use_count"@ {
        Some("xesam:useCount"@)
    } else if field == "user_rating"@ {
        Some("xesam:userRating"@)
    } else {
        None
    }
}

/// The metadata of a track. Every well-known entry has a field, which is
/// `None` where the player reported nothing under its key; `others` holds
/// the entries under all other keys.
#[derive(Debug)]
pub struct Metadata {
    /// The artists of the album.
    ///
    /// `xesam:albumArtist`
    pub album_artists: Option<Vec<String>>,
    /// The name of the album.
    ///
    /// `xesam:album`
    pub album_name: Option<String>,
    /// Where an image for the track is found.
    ///
    /// `mpris:artUrl`
    pub art_url: Option<String>,
    /// The artists of the track.
    ///
    /// `xesam:artist`
    pub artists: Option<Vec<String>>,
    /// The speed of the music, in beats per minute.
    ///
    /// `xesam:audioBPM`
    pub audio_bpm: Option<u64>,
    /// A rating that the player worked out, from 0.0 to 1.0.
    ///
    /// `xesam:autoRating`
    pub auto_rating: Option<Float64>,
    /// Free comments.
    ///
    /// `xesam:comment`
    pub comments: Option<Vec<String>>,
    /// The composers of the track.
    ///
    /// `xesam:composer`
    pub composers: Option<Vec<String>>,
    /// When the track was made, as a date and time.
    ///
    /// `xesam:contentCreated`
    pub content_created: Option<String>,
    /// The number of the disc within the album.
    ///
    /// `xesam:discNumber`
    pub disc_number: Option<u64>,
    /// When the track was first played, as a date and time.
    ///
    /// `xesam:firstUsed`
    pub first_used: Option<String>,
    /// The genres of the track.
    ///
    /// `xesam:genre`
    pub genres: Option<Vec<String>>,
    /// When the track was last played, as a date and time.
    ///
    /// `xesam:lastUsed`
    pub last_used: Option<String>,
    /// How long the track lasts.
    ///
    /// `mpris:length`
    pub length: Option<MprisDuration>,
    /// The lyricists of the track.
    ///
    /// `xesam:lyricist`
    pub lyricists: Option<Vec<String>>,
    /// The lyrics of the track.
    ///
    /// `xesam:asText`
    pub lyrics: Option<String>,
    /// The title of the track.
    ///
    /// `xesam:title`
    pub title: Option<String>,
    /// The identifier of the track.
    ///
    /// `mpris:trackid`
    pub track_id: Option<TrackID>,
    /// The number of the track on its disc.
    ///
    /// `xesam:trackNumber`
    pub track_number: Option<u64>,
    /// Where the media file is found.
    ///
    /// `xesam:url`
    pub url: Option<String>,
    /// How often the track has been played.
    ///
    /// `xesam:useCount`
    pub use_count: Option<u64>,
    /// A rating that the user gave, from 0.0 to 1.0.
    ///
    /// `xesam:userRating`
    pub user_rating: Option<Float64>,
    /// The entries under keys that are not well known.
    pub others: RawMetadata,
}

/// The mathematical value of a [`Metadata`].
pub struct MetadataView {
    pub album_artists: Option<Seq<Seq<char>>>,
    pub album_name: Option<Seq<char>>,
    pub art_url: Option<Seq<char>>,
    pub artists: Option<Seq<Seq<char>>>,
    pub audio_bpm: Option<u64>,
    pub auto_rating: Option<u64>,
    pub comments: Option<Seq<Seq<char>>>,
    pub composers: Option<Seq<Seq<char>>>,
    pub content_created: Option<Seq<char>>,
    pub disc_number: Option<u64>,
    pub first_used: Option<Seq<char>>,
    pub genres: Option<Seq<Seq<char>>>,
    pub last_used: Option<Seq<char>>,
    pub length: Option<nat>,
    pub lyricists: Option<Seq<Seq<char>>>,
    pub lyrics: Option<Seq<char>>,
    pub title: Option<Seq<char>>,
    pub track_id: Option<Seq<char>>,
    pub track_number: Option<u64>,
    pub url: Option<Seq<char>>,
    pub use_count: Option<u64>,
    pub user_rating: Option<u64>,
    pub others: Map<Seq<char>, ValueView>,
}

impl MetadataView {
    /// The metadata without any entry.
    pub open spec fn empty() -> MetadataView {
        MetadataView {
            album_artists: None,
            album_name: None,
            art_url: None,
            artists: None,
            audio_bpm: None,
            auto_rating: None,
            comments: None,
            composers: None,
            content_created: None,
            disc_number: None,
            first_used: None,
            genres: None,
            last_used: None,
            length: None,
            lyricists: None,
            lyrics: None,
            title: None,
            track_id: None,
            track_number: None,
            url: None,
            use_count: None,
            user_rating: None,
            others: Map::empty(),
        }
    }

    /// Whether the metadata has no entry at all.
    pub open spec fn is_empty(self) -> bool {
        &&& self.album_artists is None
        &&& self.album_name is None
        &&& self.art_url is None
        &&& self.artists is None
        &&& self.audio_bpm is None
        &&& self.auto_rating is None
        &&& self.comments is None
        &&& self.composers is None
        &&& self.content_created is None
        &&& self.disc_number is None
        &&& self.first_used is None
        &&& self.genres is None
        &&& self.last_used is None
        &&& self.length is None
        &&& self.lyricists is None
        &&& self.lyrics is None
        &&& self.title is None
        &&& self.track_id is None
        &&& self.track_number is None
        &&& self.url is None
        &&& self.use_count is None
        &&& self.user_rating is None
        &&& self.others == Map::<Seq<char>, ValueView>::empty()
    }

    /// Whether the metadata is well formed: no well-known key stands among
    /// `others`, the length is a duration and the track identifier is one.
    pub open spec fn wf(self) -> bool {
        &&& forall|key: Seq<char>| is_known_key(key) ==> !self.others.contains_key(key)
        &&& (self.length matches Some(micros) ==> micros <= MAX_MICROS)
        &&& (self.track_id matches Some(id) ==> is_track_id(id))
    }
}

impl View for Metadata {
    type V = MetadataView;

    open spec fn view(&self) -> MetadataView {
        MetadataView {
            album_artists: texts_view(self.album_artists),
            album_name: text_view(self.album_name),
            art_url: text_view(self.art_url),
            artists: texts_view(self.artists),
            audio_bpm: self.audio_bpm,
            auto_rating: float_view(self.auto_rating),
            comments: texts_view(self.comments),
            composers: texts_view(self.composers),
            content_created: text_view(self.content_created),
            disc_number: self.disc_number,
            first_used: text_view(self.first_used),
            genres: texts_view(self.genres),
            last_used: text_view(self.last_used),
            length: duration_view(self.length),
            lyricists: texts_view(self.lyricists),
            lyrics: text_view(self.lyrics),
            title: text_view(self.title),
            track_id: track_id_view(self.track_id),
            track_number: self.track_number,
            url: text_view(self.url),
            use_count: self.use_count,
            user_rating: float_view(self.user_rating),
            others: values_of(self.others@),
        }
    }
}

/// Whether two optional strings hold the same text, or both none.
pub(crate) fn same_optional_text(a: &Option<String>, b: &Option<String>) -> (same: bool)
    ensures
        same == (text_view(*a) == text_view(*b)),
{
    match (a, b) {
        (Some(x), Some(y)) => *x == *y,
        (None, None) => true,
        _ => false,
    }
}

/// Whether two optional lists hold the same texts in the same order, or both none.
pub(crate) fn same_optional_texts(a: &Option<Vec<String>>, b: &Option<Vec<String>>) -> (same:
    bool)
    ensures
        same == (texts_view(*a) == texts_view(*b)),
{
    match (a, b) {
        (Some(x), Some(y)) => same_texts(x, y),
        (None, None) => true,
        _ => false,
    }
}

/// Whether two optional track identifiers are the same, or both none.
pub(crate) fn same_optional_id(a: &Option<TrackID>, b: &Option<TrackID>) -> (same: bool)
    ensures
        same == (track_id_view(*a) == track_id_view(*b)),
{
    match (a, b) {
        (Some(x), Some(y)) => *x == *y,
        (None, None) => true,
        _ => false,
    }
}

/// Whether two optional numbers are the same, or both none.
fn same_optional_number(a: &Option<u64>, b: &Option<u64>) -> (same: bool)
    ensures
        same == (*a == *b),
{
    match (a, b) {
        (Some(x), Some(y)) => *x == *y,
        (None, None) => true,
        _ => false,
    }
}

/// Whether two optional floating-point numbers have the same bits, or both none.
fn same_optional_float(a: &Option<Float64>, b: &Option<Float64>) -> (same: bool)
    ensures
        same == (float_view(*a) == float_view(*b)),
{
    match (a, b) {
        (Some(x), Some(y)) => x.bits == y.bits,
        (None, None) => true,
        _ => false,
    }
}

/// Whether two optional durations are as long, or both none.
fn same_optional_duration(a: &Option<MprisDuration>, b: &Option<MprisDuration>) -> (same: bool)
    ensures
        same == (duration_view(*a) == duration_view(*b)),
{
    match (a, b) {
        (Some(x), Some(y)) => x.as_micros() == y.as_micros(),
        (None, None) => true,
        _ => false,
    }
}

/// A copy of an optional list of strings.
fn copy_optional_texts(field: &Option<Vec<String>>) -> (copy: Option<Vec<String>>)
    ensures
        texts_view(copy) == texts_view(*field),
{
    match field {
        Some(list) => Some(copy_texts(list)),
        None => None,
    }
}

/// A copy of an optional track identifier.
fn copy_optional_id(field: &Option<TrackID>) -> (copy: Option<TrackID>)
    ensures
        track_id_view(copy) == track_id_view(*field),
{
    match field {
        Some(id) => Some(id.clone()),
        None => None,
    }
}

impl Metadata {
    /// The metadata without any entry.
    pub fn new() -> (metadata: Self)
        ensures
            metadata@ == MetadataView::empty(),
    {
        let metadata = Metadata {
            album_artists: None,
            album_name: None,
            art_url: None,
            artists: None,
            audio_bpm: None,
            auto_rating: None,
            comments: None,
            composers: None,
            content_created: None,
            disc_number: None,
            first_used: None,
            genres: None,
            last_used: None,
            length: None,
            lyricists: None,
            lyrics: None,
            title: None,
            track_id: None,
            track_number: None,
            url: None,
            use_count: None,
            user_rating: None,
            others: TextMap::new(),
        };
        assert(values_of(metadata.others@) =~= Map::<Seq<char>, ValueView>::empty());
        metadata
    }

    /// Whether the metadata has no entry at all.
    pub fn is_empty(&self) -> (empty: bool)
        ensures
            empty == self@.is_empty(),
    {
        let no_others = self.others.is_empty();
        proof {
            if no_others {
                assert(values_of(self.others@) =~= Map::<Seq<char>, ValueView>::empty());
            } else {
                if values_of(self.others@) == Map::<Seq<char>, ValueView>::empty() {
                    assert forall|key: Seq<char>| !self.others@.contains_key(key) by {
                        assert(!values_of(self.others@).contains_key(key));
                    }
                    assert(self.others@ =~= Map::<Seq<char>, MetadataValue>::empty());
                }
            }
        }
        self.album_artists.is_none()
        && self.album_name.is_none()
        && self.art_url.is_none()
        && self.artists.is_none()
        && self.audio_bpm.is_none()
        && self.auto_rating.is_none()
        && self.comments.is_none()
        && self.composers.is_none()
        && self.content_created.is_none()
        && self.disc_number.is_none()
        && self.first_used.is_none()
        && self.genres.is_none()
        && self.last_used.is_none()
        && self.length.is_none()
        && self.lyricists.is_none()
        && self.lyrics.is_none()
        && self.title.is_none()
        && self.track_id.is_none()
        && self.track_number.is_none()
        && self.url.is_none()
        && self.use_count.is_none()
        && self.user_rating.is_none()
        && no_others
    }

    /// The well-known key under which the field with the name `field` is reported.
    pub fn get_metadata_key(&self, field: &str) -> (key: Option<&str>)
        ensures
            match key_of_field(field@) {
                Some(text) => key is Some && key->0@ == text,
                None => key is None,
            },
    {
        if same_text(field, "album_artists") {
            Some("xesam:albumArtist")
        } else if same_text(field, "album_name") {
            Some("xesam:album")
        } else if same_text(field, "art_url") {
            Some("mpris:artUrl")
        } else if same_text(field, "artists") {
            Some("xesam:artist")
        } else if same_text(field, "audio_bpm") {
            Some("xesam:audioBPM")
        } else if same_text(field, "auto_rating") {
            Some("xesam:autoRating")
        } else if same_text(field, "comments") {
            Some("xesam:comment")
        } else if same_text(field, "composers") {
            Some("xesam:composer")
        } else if same_text(field, "content_created") {
            Some("xesam:contentCreated")
        } else if same_text(field, "disc_number") {
            Some("xesam:discNumber")
        } else if same_text(field, "first_used") {
            Some("xesam:firstUsed")
        } else if same_text(field, "genres") {
            Some("xesam:genre")
        } else if same_text(field, "last_used") {
            Some("xesam:lastUsed")
        } else if same_text(field, "length") {
            Some("mpris:length")
        } else if same_text(field, "lyricists") {
            Some("xesam:lyricist")
        } else if same_text(field, "lyrics") {
            Some("xesam:asText")
        } else if same_text(field, "title") {
            Some("xesam:title")
        } else if same_text(field, "track_id") {
            Some("mpris:trackid")
        } else if same_text(field, "track_number") {
            Some("xesam:trackNumber")
        } else if same_text(field, "url") {
            Some("xesam:url")
        } else if same_text(field, "use_count") {
            Some("xesam:useCount")
        } else if same_text(field, "user_rating") {
            Some("xesam:userRating")
        } else {
            None
        }
    }
}

impl PartialEqSpecImpl for Metadata {
    open spec fn obeys_eq_spec() -> bool {
        true
    }

    open spec fn eq_spec(&self, other: &Metadata) -> bool {
        self@ == other@
    }
}

impl PartialEq for Metadata {
    /// Two metadata are equal when all their fields are, and they hold the
    /// same other entries.
    fn eq(&self, other: &Metadata) -> (same: bool) {
        same_optional_texts(&self.album_artists, &other.album_artists)
        && same_optional_text(&self.album_name, &other.album_name)
        && same_optional_text(&self.art_url, &other.art_url)
        && same_optional_texts(&self.artists, &other.artists)
        && same_optional_number(&self.audio_bpm, &other.audio_bpm)
        && same_optional_float(&self.auto_rating, &other.auto_rating)
        && same_optional_texts(&self.comments, &other.comments)
        && same_optional_texts(&self.composers, &other.composers)
        && same_optional_text(&self.content_created, &other.content_created)
        && same_optional_number(&self.disc_number, &other.disc_number)
        && same_optional_text(&self.first_used, &other.first_used)
        && same_optional_texts(&self.genres, &other.genres)
        && same_optional_text(&self.last_used, &other.last_used)
        && same_optional_duration(&self.length, &other.length)
        && same_optional_texts(&self.lyricists, &other.lyricists)
        && same_optional_text(&self.lyrics, &other.lyrics)
        && same_optional_text(&self.title, &other.title)
        && same_optional_id(&self.track_id, &other.track_id)
        && same_optional_number(&self.track_number, &other.track_number)
        && same_optional_text(&self.url, &other.url)
        && same_optional_number(&self.use_count, &other.use_count)
        && same_optional_float(&self.user_rating, &other.user_rating)
        && self.others == other.others
    }
}

impl Clone for Metadata {
    fn clone(&self) -> (copy: Self)
        ensures
            copy@ == self@,
    {
        Metadata {
            album_artists: copy_optional_texts(&self.album_artists),
            album_name: self.album_name.clone(),
            art_url: self.art_url.clone(),
            artists: copy_optional_texts(&self.artists),
            audio_bpm: self.audio_bpm,
            auto_rating: self.auto_rating,
            comments: copy_optional_texts(&self.comments),
            composers: copy_optional_texts(&self.composers),
            content_created: self.content_created.clone(),
            disc_number: self.disc_number,
            first_used: self.first_used.clone(),
            genres: copy_optional_texts(&self.genres),
            last_used: self.last_used.clone(),
            length: self.length,
            lyricists: copy_optional_texts(&self.lyricists),
            lyrics: self.lyrics.clone(),
            title: self.title.clone(),
            track_id: copy_optional_id(&self.track_id),
            track_number: self.track_number,
            url: self.url.clone(),
            use_count: self.use_count,
            user_rating: self.user_rating,
            others: self.others.clone(),
        }
    }
}

impl Default for Metadata {
    fn default() -> (metadata: Self)
        ensures
            metadata@ == MetadataView::empty(),
    {
        Metadata::new()
    }
}

} // verus!
