//! What holds between writing metadata as a raw map and reading it back.
use vstd::prelude::*;

use super::metadata::{is_known_key, MetadataView};
use super::parse::{
    first_complaint, parse_lossy, parse_strict, read_duration, read_float, read_text, read_texts,
    read_track_id, read_unsigned,
};
use super::unparse::{
    lemma_keys_differ, lemma_unparse_get, unparse, wrap_duration, wrap_float, wrap_text,
    wrap_texts, wrap_unsigned,
};
use super::values::ValueView;

verus! {

/// The raw map of a well-formed metadata has under every well-known key
/// the value of that key's field, and nothing where the field is empty.
pub proof fn lemma_unparse_known(metadata: MetadataView)
    requires
        metadata.wf(),
    ensures
        unparse(metadata).get("xesam:albumArtist"@) == wrap_texts(metadata.album_artists),
        unparse(metadata).get("xesam:album"@) == wrap_text(metadata.album_name),
        unparse(metadata).get("mpris:artUrl"@) == wrap_text(metadata.art_url),
        unparse(metadata).get("xesam:artist"@) == wrap_texts(metadata.artists),
        unparse(metadata).get("xesam:audioBPM"@) == wrap_unsigned(metadata.audio_bpm),
        unparse(metadata).get("xesam:autoRating"@) == wrap_float(metadata.auto_rating),
        unparse(metadata).get("xesam:comment"@) == wrap_texts(metadata.comments),
        unparse(metadata).get("xesam:composer"@) == wrap_texts(metadata.composers),
        unparse(metadata).get("xesam:contentCreated"@) == wrap_text(metadata.content_created),
        unparse(metadata).get("xesam:discNumber"@) == wrap_unsigned(metadata.disc_number),
        unparse(metadata).get("xesam:firstUsed"@) == wrap_text(metadata.first_used),
        unparse(metadata).get("xesam:genre"@) == wrap_texts(metadata.genres),
        unparse(metadata).get("xesam:lastUsed"@) == wrap_text(metadata.last_used),
        unparse(metadata).get("mpris:length"@) == wrap_duration(metadata.length),
        unparse(metadata).get("xesam:lyricist"@) == wrap_texts(metadata.lyricists),
        unparse(metadata).get("xesam:asText"@) == wrap_text(metadata.lyrics),
        unparse(metadata).get("xesam:title"@) == wrap_text(metadata.title),
        unparse(metadata).get("mpris:trackid"@) == wrap_text(metadata.track_id),
        unparse(metadata).get("xesam:trackNumber"@) == wrap_unsigned(metadata.track_number),
        unparse(metadata).get("xesam:url"@) == wrap_text(metadata.url),
        unparse(metadata).get("xesam:useCount"@) == wrap_unsigned(metadata.use_count),
        unparse(metadata).get("xesam:userRating"@) == wrap_float(metadata.user_rating),
{
    lemma_keys_differ();
    lemma_unparse_get(metadata, "xesam:albumArtist"@);
    assert(is_known_key("xesam:albumArtist"@));
    lemma_unparse_get(metadata, "xesam:album"@);
    assert(is_known_key("xesam:album"@));
    lemma_unparse_get(metadata, "mpris:artUrl"@);
    assert(is_known_key("mpris:artUrl"@));
    lemma_unparse_get(metadata, "xesam:artist"@);
    assert(is_known_key("xesam:artist"@));
    lemma_unparse_get(metadata, "xesam:audioBPM"@);
    assert(is_known_key("xesam:audioBPM"@));
    lemma_unparse_get(metadata, "xesam:autoRating"@);
    assert(is_known_key("xesam:autoRating"@));
    lemma_unparse_get(metadata, "xesam:comment"@);
    assert(is_known_key("xesam:comment"@));
    lemma_unparse_get(metadata, "xesam:composer"@);
    assert(is_known_key("xesam:composer"@));
    lemma_unparse_get(metadata, "xesam:contentCreated"@);
    assert(is_known_key("xesam:contentCreated"@));
    lemma_unparse_get(metadata, "xesam:discNumber"@);
    assert(is_known_key("xesam:discNumber"@));
    lemma_unparse_get(metadata, "xesam:firstUsed"@);
    assert(is_known_key("xesam:firstUsed"@));
    lemma_unparse_get(metadata, "xesam:genre"@);
    assert(is_known_key("xesam:genre"@));
    lemma_unparse_get(metadata, "xesam:lastUsed"@);
    assert(is_known_key("xesam:lastUsed"@));
    lemma_unparse_get(metadata, "mpris:length"@);
    assert(is_known_key("mpris:length"@));
    lemma_unparse_get(metadata, "xesam:lyricist"@);
    assert(is_known_key("xesam:lyricist"@));
    lemma_unparse_get(metadata, "xesam:asText"@);
    assert(is_known_key("xesam:asText"@));
    lemma_unparse_get(metadata, "xesam:title"@);
    assert(is_known_key("xesam:title"@));
    lemma_unparse_get(metadata, "mpris:trackid"@);
    assert(is_known_key("mpris:trackid"@));
    lemma_unparse_get(metadata, "xesam:trackNumber"@);
    assert(is_known_key("xesam:trackNumber"@));
    lemma_unparse_get(metadata, "xesam:url"@);
    assert(is_known_key("xesam:url"@));
    lemma_unparse_get(metadata, "xesam:useCount"@);
    assert(is_known_key("xesam:useCount"@));
    lemma_unparse_get(metadata, "xesam:userRating"@);
    assert(is_known_key("xesam:userRating"@));
}

/// The raw map of a metadata has under every key that is not well known what
/// `others` has.
pub proof fn lemma_unparse_others(metadata: MetadataView, key: Seq<char>)
    requires
        !is_known_key(key),
    ensures
        unparse(metadata).get(key) == metadata.others.get(key),
{
    lemma_unparse_get(metadata, key);
}

/// Every entry that was written for a field is read as the value of that
/// field, and where nothing was written, nothing is read.
pub proof fn lemma_written_is_read(metadata: MetadataView)
    requires
        metadata.wf(),
    ensures
        read_texts(unparse(metadata).get("xesam:albumArtist"@))
            == Ok::<Option<Seq<Seq<char>>>, Seq<char>>(metadata.album_artists),
        read_text(unparse(metadata).get("xesam:album"@))
            == Ok::<Option<Seq<char>>, Seq<char>>(metadata.album_name),
        read_text(unparse(metadata).get("mpris:artUrl"@))
            == Ok::<Option<Seq<char>>, Seq<char>>(metadata.art_url),
        read_texts(unparse(metadata).get("xesam:artist"@))
            == Ok::<Option<Seq<Seq<char>>>, Seq<char>>(metadata.artists),
        read_unsigned(unparse(metadata).get("xesam:audioBPM"@))
            == Ok::<Option<u64>, Seq<char>>(metadata.audio_bpm),
        read_float(unparse(metadata).get("xesam:autoRating"@))
            == Ok::<Option<u64>, Seq<char>>(metadata.auto_rating),
        read_texts(unparse(metadata).get("xesam:comment"@))
            == Ok::<Option<Seq<Seq<char>>>, Seq<char>>(metadata.comments),
        read_texts(unparse(metadata).get("xesam:composer"@))
            == Ok::<Option<Seq<Seq<char>>>, Seq<char>>(metadata.composers),
        read_text(unparse(metadata).get("xesam:contentCreated"@))
            == Ok::<Option<Seq<char>>, Seq<char>>(metadata.content_created),
        read_unsigned(unparse(metadata).get("xesam:discNumber"@))
            == Ok::<Option<u64>, Seq<char>>(metadata.disc_number),
        read_text(unparse(metadata).get("xesam:firstUsed"@))
            == Ok::<Option<Seq<char>>, Seq<char>>(metadata.first_used),
        read_texts(unparse(metadata).get("xesam:genre"@))
            == Ok::<Option<Seq<Seq<char>>>, Seq<char>>(metadata.genres),
        read_text(unparse(metadata).get("xesam:lastUsed"@))
            == Ok::<Option<Seq<char>>, Seq<char>>(metadata.last_used),
        read_duration(unparse(metadata).get("mpris:length"@))
            == Ok::<Option<nat>, Seq<char>>(metadata.length),
        read_texts(unparse(metadata).get("xesam:lyricist"@))
            == Ok::<Option<Seq<Seq<char>>>, Seq<char>>(metadata.lyricists),
        read_text(unparse(metadata).get("xesam:asText"@))
            == Ok::<Option<Seq<char>>, Seq<char>>(metadata.lyrics),
        read_text(unparse(metadata).get("xesam:title"@))
            == Ok::<Option<Seq<char>>, Seq<char>>(metadata.title),
        read_track_id(unparse(metadata).get("mpris:trackid"@))
            == Ok::<Option<Seq<char>>, Seq<char>>(metadata.track_id),
        read_unsigned(unparse(metadata).get("xesam:trackNumber"@))
            == Ok::<Option<u64>, Seq<char>>(metadata.track_number),
        read_text(unparse(metadata).get("xesam:url"@))
            == Ok::<Option<Seq<char>>, Seq<char>>(metadata.url),
        read_unsigned(unparse(metadata).get("xesam:useCount"@))
            == Ok::<Option<u64>, Seq<char>>(metadata.use_count),
        read_float(unparse(metadata).get("xesam:userRating"@))
            == Ok::<Option<u64>, Seq<char>>(metadata.user_rating),
{
    lemma_unparse_known(metadata);
}

/// Reading with forgiveness what was written gives the metadata back, for
/// every well-formed metadata.
pub proof fn lemma_lossy_round_trip(metadata: MetadataView)
    requires
        metadata.wf(),
    ensures
        parse_lossy(unparse(metadata)) == metadata,
{
    let raw = unparse(metadata);
    lemma_written_is_read(metadata);
    let read = parse_lossy(raw);
    assert forall|key: Seq<char>| read.others.contains_key(key) <==> metadata.others.contains_key(
        key,
    ) by {
        if !is_known_key(key) {
            lemma_unparse_others(metadata, key);
        }
    }
    assert forall|key: Seq<char>| read.others.contains_key(key) implies read.others[key]
        == metadata.others[key] by {
        lemma_unparse_others(metadata, key);
    }
    assert(read.others =~= metadata.others);
}

/// Reading strictly what was written gives the metadata back: for every
/// well-formed metadata that has a track identifier, the strict reading of
/// its raw map succeeds with that metadata.
pub proof fn lemma_strict_round_trip(metadata: MetadataView)
    requires
        metadata.wf(),
        metadata.track_id is Some,
    ensures
        parse_strict(unparse(metadata)) == Ok::<MetadataView, Seq<char>>(metadata),
{
    let raw = unparse(metadata);
    lemma_unparse_known(metadata);
    assert(raw.contains_key("mpris:trackid"@));
    lemma_written_is_read(metadata);
    assert(first_complaint(raw) is None);
    lemma_lossy_round_trip(metadata);
}

/// The strict reading, where it succeeds, gives what the forgiving reading gives.
pub proof fn lemma_strict_is_lossy(raw: Map<Seq<char>, ValueView>)
    requires
        parse_strict(raw) is Ok,
    ensures
        parse_strict(raw) == Ok::<MetadataView, Seq<char>>(parse_lossy(raw)),
{
    if raw == Map::<Seq<char>, ValueView>::empty() {
        assert(parse_lossy(raw).others =~= Map::<Seq<char>, ValueView>::empty());
    }
}

/// A metadata without a track identifier cannot be read back strictly: for
/// every well-formed metadata that has an entry but no track identifier, the
/// strict reading of its raw map fails for want of the identifier.
pub proof fn lemma_strict_needs_track_id(metadata: MetadataView)
    requires
        metadata.wf(),
        metadata.track_id is None,
        !metadata.is_empty(),
    ensures
        parse_strict(unparse(metadata)) == Err::<MetadataView, Seq<char>>(
            "metadata doesn't contain the mpris:trackid key"@,
        ),
{
    let raw = unparse(metadata);
    lemma_unparse_known(metadata);
    assert(!raw.contains_key("mpris:trackid"@));
    if metadata.others == Map::<Seq<char>, ValueView>::empty() {
        if metadata.album_artists is Some {
            assert(raw.contains_key("xesam:albumArtist"@));
        } else if metadata.album_name is Some {
            assert(raw.contains_key("xesam:album"@));
        } else if metadata.art_url is Some {
            assert(raw.contains_key("mpris:artUrl"@));
        } else if metadata.artists is Some {
            assert(raw.contains_key("xesam:artist"@));
        } else if metadata.audio_bpm is Some {
            assert(raw.contains_key("xesam:audioBPM"@));
        } else if metadata.auto_rating is Some {
            assert(raw.contains_key("xesam:autoRating"@));
        } else if metadata.comments is Some {
            assert(raw.contains_key("xesam:comment"@));
        } else if metadata.composers is Some {
            assert(raw.contains_key("xesam:composer"@));
        } else if metadata.content_created is Some {
            assert(raw.contains_key("xesam:contentCreated"@));
        } else if metadata.disc_number is Some {
            assert(raw.contains_key("xesam:discNumber"@));
        } else if metadata.first_used is Some {
            assert(raw.contains_key("xesam:firstUsed"@));
        } else if metadata.genres is Some {
            assert(raw.contains_key("xesam:genre"@));
        } else if metadata.last_used is Some {
            assert(raw.contains_key("xesam:lastUsed"@));
        } else if metadata.length is Some {
            assert(raw.contains_key("mpris:length"@));
        } else if metadata.lyricists is Some {
            assert(raw.contains_key("xesam:lyricist"@));
        } else if metadata.lyrics is Some {
            assert(raw.contains_key("xesam:asText"@));
        } else if metadata.title is Some {
            assert(raw.contains_key("xesam:title"@));
        } else if metadata.track_id is Some {
            assert(raw.contains_key("mpris:trackid"@));
        } else if metadata.track_number is Some {
            assert(raw.contains_key("xesam:trackNumber"@));
        } else if metadata.url is Some {
            assert(raw.contains_key("xesam:url"@));
        } else if metadata.use_count is Some {
            assert(raw.contains_key("xesam:useCount"@));
        } else if metadata.user_rating is Some {
            assert(raw.contains_key("xesam:userRating"@));
        }
    } else {
        if forall|key: Seq<char>| !metadata.others.contains_key(key) {
            assert(metadata.others =~= Map::<Seq<char>, ValueView>::empty());
        }
        let key = choose|key: Seq<char>| metadata.others.contains_key(key);
        lemma_unparse_others(metadata, key);
        assert(raw.contains_key(key));
    }
}

} // verus!
