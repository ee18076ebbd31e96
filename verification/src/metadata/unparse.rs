//! Writing metadata back as the raw map that stands for it.
use vstd::prelude::*;
use vstd::std_specs::convert::FromSpecImpl;
use vstd::std_specs::vec::{axiom_spec_into_iter, into_iter_elts};

use super::metadata::{
    duration_view, float_view, key_place, text_view, texts_view, track_id_view, value_view,
    values_of, Metadata, MetadataView, RawMetadata,
};
use super::track_id::TrackID;
use super::values::{Float64, MetadataValue, ValueView};
use crate::duration::MprisDuration;

verus! {

/// The raw value that stands for a field that holds a list of strings.
pub open spec fn wrap_texts(field: Option<Seq<Seq<char>>>) -> Option<ValueView> {
    match field {
        Some(v) => Some(ValueView::Strings(v)),
        None => None,
    }
}

/// The raw value that stands for a field that holds a string or a track identifier.
pub open spec fn wrap_text(field: Option<Seq<char>>) -> Option<ValueView> {
    match field {
        Some(v) => Some(ValueView::String(v)),
        None => None,
    }
}

/// The raw value that stands for a field that holds an unsigned integer.
pub open spec fn wrap_unsigned(field: Option<u64>) -> Option<ValueView> {
    match field {
        Some(v) => Some(ValueView::UnsignedInt(v)),
        None => None,
    }
}

/// The raw value that stands for a field that holds a floating-point number.
pub open spec fn wrap_float(field: Option<u64>) -> Option<ValueView> {
    match field {
        Some(v) => Some(ValueView::Float(v)),
        None => None,
    }
}

/// The raw value that stands for a field that holds a duration.
pub open spec fn wrap_duration(field: Option<nat>) -> Option<ValueView> {
    match field {
        Some(v) => Some(ValueView::SignedInt(v as i64)),
        None => None,
    }
}

/// The raw value that stands for the field of the well-known key `key`;
/// `None` where the field is empty or the key is not well known.
pub open spec fn known_value(metadata: MetadataView, key: Seq<char>) -> Option<ValueView> {
    let place = key_place(key);
    if place == Some(0int) {
        wrap_texts(metadata.album_artists)
    } else if place == Some(1int) {
        wrap_text(metadata.album_name)
    } else if place == Some(2int) {
        wrap_text(metadata.art_url)
    } else if place == Some(3int) {
        wrap_texts(metadata.artists)
    } else if place == Some(4int) {
        wrap_unsigned(metadata.audio_bpm)
    } else if place == Some(5int) {
        wrap_float(metadata.auto_rating)
    } else if place == Some(6int) {
        wrap_texts(metadata.comments)
    } else if place == Some(7int) {
        wrap_texts(metadata.composers)
    } else if place == Some(8int) {
        wrap_text(metadata.content_created)
    } else if place == Some(9int) {
        wrap_unsigned(metadata.disc_number)
    } else if place == Some(10int) {
        wrap_text(metadata.first_used)
    } else if place == Some(11int) {
        wrap_texts(metadata.genres)
    } else if place == Some(12int) {
        wrap_text(metadata.last_used)
    } else if place == Some(13int) {
        wrap_duration(metadata.length)
    } else if place == Some(14int) {
        wrap_texts(metadata.lyricists)
    } else if place == Some(15int) {
        wrap_text(metadata.lyrics)
    } else if place == Some(16int) {
        wrap_text(metadata.title)
    } else if place == Some(17int) {
        wrap_text(metadata.track_id)
    } else if place == Some(18int) {
        wrap_unsigned(metadata.track_number)
    } else if place == Some(19int) {
        wrap_text(metadata.url)
    } else if place == Some(20int) {
        wrap_unsigned(metadata.use_count)
    } else if place == Some(21int) {
        wrap_float(metadata.user_rating)
    } else {
        None
    }
}

/// The map with `value` under `key`, or the map itself where there is no value.
pub open spec fn put(
    map: Map<Seq<char>, ValueView>,
    key: Seq<char>,
    value: Option<ValueView>,
) -> Map<Seq<char>, ValueView> {
    match value {
        Some(v) => map.insert(key, v),
        None => map,
    }
}

/// The raw map that stands for the metadata: the entries of `others`, and
/// over them the value of every field that is not empty, under its key.
#[verifier::opaque]
pub open spec fn unparse(metadata: MetadataView) -> Map<Seq<char>, ValueView> {
    let raw = metadata.others;
    let raw = put(raw, "xesam:albumArtist"@, wrap_texts(metadata.album_artists));
    let raw = put(raw, "xesam:album"@, wrap_text(metadata.album_name));
    let raw = put(raw, "mpris:artUrl"@, wrap_text(metadata.art_url));
    let raw = put(raw, "xesam:artist"@, wrap_texts(metadata.artists));
    let raw = put(raw, "xesam:audioBPM"@, wrap_unsigned(metadata.audio_bpm));
    let raw = put(raw, "xesam:autoRating"@, wrap_float(metadata.auto_rating));
    let raw = put(raw, "xesam:comment"@, wrap_texts(metadata.comments));
    let raw = put(raw, "xesam:composer"@, wrap_texts(metadata.composers));
    let raw = put(raw, "xesam:contentCreated"@, wrap_text(metadata.content_created));
    let raw = put(raw, "xesam:discNumber"@, wrap_unsigned(metadata.disc_number));
    let raw = put(raw, "xesam:firstUsed"@, wrap_text(metadata.first_used));
    let raw = put(raw, "xesam:genre"@, wrap_texts(metadata.genres));
    let raw = put(raw, "xesam:lastUsed"@, wrap_text(metadata.last_used));
    let raw = put(raw, "mpris:length"@, wrap_duration(metadata.length));
    let raw = put(raw, "xesam:lyricist"@, wrap_texts(metadata.lyricists));
    let raw = put(raw, "xesam:asText"@, wrap_text(metadata.lyrics));
    let raw = put(raw, "xesam:title"@, wrap_text(metadata.title));
    let raw = put(raw, "mpris:trackid"@, wrap_text(metadata.track_id));
    let raw = put(raw, "xesam:trackNumber"@, wrap_unsigned(metadata.track_number));
    let raw = put(raw, "xesam:url"@, wrap_text(metadata.url));
    let raw = put(raw, "xesam:useCount"@, wrap_unsigned(metadata.use_count));
    let raw = put(raw, "xesam:userRating"@, wrap_float(metadata.user_rating));
    raw
}

/// Every well-known key has a place of its own, so that no two well-known
/// keys are the same.
pub proof fn lemma_keys_differ()
    ensures
        key_place("xesam:albumArtist"@) == Some(0int),
        key_place("xesam:album"@) == Some(1int),
        key_place("mpris:artUrl"@) == Some(2int),
        key_place("xesam:artist"@) == Some(3int),
        key_place("xesam:audioBPM"@) == Some(4int),
        key_place("xesam:autoRating"@) == Some(5int),
        key_place("xesam:comment"@) == Some(6int),
        key_place("xesam:composer"@) == Some(7int),
        key_place("xesam:contentCreated"@) == Some(8int),
        key_place("xesam:discNumber"@) == Some(9int),
        key_place("xesam:firstUsed"@) == Some(10int),
        key_place("xesam:genre"@) == Some(11int),
        key_place("xesam:lastUsed"@) == Some(12int),
        key_place("mpris:length"@) == Some(13int),
        key_place("xesam:lyricist"@) == Some(14int),
        key_place("xesam:asText"@) == Some(15int),
        key_place("xesam:title"@) == Some(16int),
        key_place("mpris:trackid"@) == Some(17int),
        key_place("xesam:trackNumber"@) == Some(18int),
        key_place("xesam:url"@) == Some(19int),
        key_place("xesam:useCount"@) == Some(20int),
        key_place("xesam:userRating"@) == Some(21int),
{
    reveal_strlit("xesam:albumArtist");
    reveal_strlit("xesam:album");
    reveal_strlit("mpris:artUrl");
    reveal_strlit("xesam:artist");
    reveal_strlit("xesam:audioBPM");
    reveal_strlit("xesam:autoRating");
    reveal_strlit("xesam:comment");
    reveal_strlit("xesam:composer");
    reveal_strlit("xesam:contentCreated");
    reveal_strlit("xesam:discNumber");
    reveal_strlit("xesam:firstUsed");
    reveal_strlit("xesam:genre");
    reveal_strlit("xesam:lastUsed");
    reveal_strlit("mpris:length");
    reveal_strlit("xesam:lyricist");
    reveal_strlit("xesam:asText");
    reveal_strlit("xesam:title");
    reveal_strlit("mpris:trackid");
    reveal_strlit("xesam:trackNumber");
    reveal_strlit("xesam:url");
    reveal_strlit("xesam:useCount");
    reveal_strlit("xesam:userRating");
    assert("xesam:albumArtist"@.len() == 17 && "xesam:albumArtist"@[0] == 'x'
        && "xesam:albumArtist"@[6] == 'a' && "xesam:albumArtist"@[7] == 'l');
    assert("xesam:album"@.len() == 11 && "xesam:album"@[0] == 'x'
        && "xesam:album"@[6] == 'a' && "xesam:album"@[7] == 'l');
    assert("mpris:artUrl"@.len() == 12 && "mpris:artUrl"@[0] == 'm'
        && "mpris:artUrl"@[6] == 'a' && "mpris:artUrl"@[7] == 'r');
    assert("xesam:artist"@.len() == 12 && "xesam:artist"@[0] == 'x'
        && "xesam:artist"@[6] == 'a' && "xesam:artist"@[7] == 'r');
    assert("xesam:audioBPM"@.len() == 14 && "xesam:audioBPM"@[0] == 'x'
        && "xesam:audioBPM"@[6] == 'a' && "xesam:audioBPM"@[7] == 'u');
    assert("xesam:autoRating"@.len() == 16 && "xesam:autoRating"@[0] == 'x'
        && "xesam:autoRating"@[6] == 'a' && "xesam:autoRating"@[7] == 'u');
    assert("xesam:comment"@.len() == 13 && "xesam:comment"@[0] == 'x'
        && "xesam:comment"@[6] == 'c' && "xesam:comment"@[7] == 'o');
    assert("xesam:composer"@.len() == 14 && "xesam:composer"@[0] == 'x'
        && "xesam:composer"@[6] == 'c' && "xesam:composer"@[7] == 'o');
    assert("xesam:contentCreated"@.len() == 20 && "xesam:contentCreated"@[0] == 'x'
        && "xesam:contentCreated"@[6] == 'c' && "xesam:contentCreated"@[7] == 'o');
    assert("xesam:discNumber"@.len() == 16 && "xesam:discNumber"@[0] == 'x'
        && "xesam:discNumber"@[6] == 'd' && "xesam:discNumber"@[7] == 'i');
    assert("xesam:firstUsed"@.len() == 15 && "xesam:firstUsed"@[0] == 'x'
        && "xesam:firstUsed"@[6] == 'f' && "xesam:firstUsed"@[7] == 'i');
    assert("xesam:genre"@.len() == 11 && "xesam:genre"@[0] == 'x'
        && "xesam:genre"@[6] == 'g' && "xesam:genre"@[7] == 'e');
    assert("xesam:lastUsed"@.len() == 14 && "xesam:lastUsed"@[0] == 'x'
        && "xesam:lastUsed"@[6] == 'l' && "xesam:lastUsed"@[7] == 'a');
    assert("mpris:length"@.len() == 12 && "mpris:length"@[0] == 'm'
        && "mpris:length"@[6] == 'l' && "mpris:length"@[7] == 'e');
    assert("xesam:lyricist"@.len() == 14 && "xesam:lyricist"@[0] == 'x'
        && "xesam:lyricist"@[6] == 'l' && "xesam:lyricist"@[7] == 'y');
    assert("xesam:asText"@.len() == 12 && "xesam:asText"@[0] == 'x'
        && "xesam:asText"@[6] == 'a' && "xesam:asText"@[7] == 's');
    assert("xesam:title"@.len() == 11 && "xesam:title"@[0] == 'x'
        && "xesam:title"@[6] == 't' && "xesam:title"@[7] == 'i');
    assert("mpris:trackid"@.len() == 13 && "mpris:trackid"@[0] == 'm'
        && "mpris:trackid"@[6] == 't' && "mpris:trackid"@[7] == 'r');
    assert("xesam:trackNumber"@.len() == 17 && "xesam:trackNumber"@[0] == 'x'
        && "xesam:trackNumber"@[6] == 't' && "xesam:trackNumber"@[7] == 'r');
    assert("xesam:url"@.len() == 9 && "xesam:url"@[0] == 'x'
        && "xesam:url"@[6] == 'u' && "xesam:url"@[7] == 'r');
    assert("xesam:useCount"@.len() == 14 && "xesam:useCount"@[0] == 'x'
        && "xesam:useCount"@[6] == 'u' && "xesam:useCount"@[7] == 's');
    assert("xesam:userRating"@.len() == 16 && "xesam:userRating"@[0] == 'x'
        && "xesam:userRating"@[6] == 'u' && "xesam:userRating"@[7] == 's');
}

/// What a map has under `key` after [`put`].
proof fn lemma_put_get(
    map: Map<Seq<char>, ValueView>,
    at: Seq<char>,
    value: Option<ValueView>,
    key: Seq<char>,
)
    ensures
        put(map, at, value).get(key) == if key == at && value is Some {
            value
        } else {
            map.get(key)
        },
{
}

/// What the raw map of a metadata has under any key: the value of the
/// field, where the key is well known and the field is not empty, and else
/// what `others` has.
pub proof fn lemma_unparse_get(metadata: MetadataView, key: Seq<char>)
    ensures
        unparse(metadata).get(key) == match known_value(metadata, key) {
            Some(value) => Some(value),
            None => metadata.others.get(key),
        },
{
    reveal(unparse);
    let r0 = metadata.others;
    let g0 = r0.get(key);
    let r1 = put(r0, "xesam:albumArtist"@, wrap_texts(metadata.album_artists));
    lemma_put_get(r0, "xesam:albumArtist"@, wrap_texts(metadata.album_artists), key);
    let g1 = if key == "xesam:albumArtist"@ && wrap_texts(metadata.album_artists) is Some {
        wrap_texts(metadata.album_artists)
    } else {
        g0
    };
    assert(r1.get(key) == g1);
    let r2 = put(r1, "xesam:album"@, wrap_text(metadata.album_name));
    lemma_put_get(r1, "xesam:album"@, wrap_text(metadata.album_name), key);
    let g2 = if key == "xesam:album"@ && wrap_text(metadata.album_name) is Some {
        wrap_text(metadata.album_name)
    } else {
        g1
    };
    assert(r2.get(key) == g2);
    let r3 = put(r2, "mpris:artUrl"@, wrap_text(metadata.art_url));
    lemma_put_get(r2, "mpris:artUrl"@, wrap_text(metadata.art_url), key);
    let g3 = if key == "mpris:artUrl"@ && wrap_text(metadata.art_url) is Some {
        wrap_text(metadata.art_url)
    } else {
        g2
    };
    assert(r3.get(key) == g3);
    let r4 = put(r3, "xesam:artist"@, wrap_texts(metadata.artists));
    lemma_put_get(r3, "xesam:artist"@, wrap_texts(metadata.artists), key);
    let g4 = if key == "xesam:artist"@ && wrap_texts(metadata.artists) is Some {
        wrap_texts(metadata.artists)
    } else {
        g3
    };
    assert(r4.get(key) == g4);
    let r5 = put(r4, "xesam:audioBPM"@, wrap_unsigned(metadata.audio_bpm));
    lemma_put_get(r4, "xesam:audioBPM"@, wrap_unsigned(metadata.audio_bpm), key);
    let g5 = if key == "xesam:audioBPM"@ && wrap_unsigned(metadata.audio_bpm) is Some {
        wrap_unsigned(metadata.audio_bpm)
    } else {
        g4
    };
    assert(r5.get(key) == g5);
    let r6 = put(r5, "xesam:autoRating"@, wrap_float(metadata.auto_rating));
    lemma_put_get(r5, "xesam:autoRating"@, wrap_float(metadata.auto_rating), key);
    let g6 = if key == "xesam:autoRating"@ && wrap_float(metadata.auto_rating) is Some {
        wrap_float(metadata.auto_rating)
    } else {
        g5
    };
    assert(r6.get(key) == g6);
    let r7 = put(r6, "xesam:comment"@, wrap_texts(metadata.comments));
    lemma_put_get(r6, "xesam:comment"@, wrap_texts(metadata.comments), key);
    let g7 = if key == "xesam:comment"@ && wrap_texts(metadata.comments) is Some {
        wrap_texts(metadata.comments)
    } else {
        g6
    };
    assert(r7.get(key) == g7);
    let r8 = put(r7, "xesam:composer"@, wrap_texts(metadata.composers));
    lemma_put_get(r7, "xesam:composer"@, wrap_texts(metadata.composers), key);
    let g8 = if key == "xesam:composer"@ && wrap_texts(metadata.composers) is Some {
        wrap_texts(metadata.composers)
    } else {
        g7
    };
    assert(r8.get(key) == g8);
    let r9 = put(r8, "xesam:contentCreated"@, wrap_text(metadata.content_created));
    lemma_put_get(r8, "xesam:contentCreated"@, wrap_text(metadata.content_created), key);
    let g9 = if key == "xesam:contentCreated"@ && wrap_text(metadata.content_created) is Some {
        wrap_text(metadata.content_created)
    } else {
        g8
    };
    assert(r9.get(key) == g9);
    let r10 = put(r9, "xesam:discNumber"@, wrap_unsigned(metadata.disc_number));
    lemma_put_get(r9, "xesam:discNumber"@, wrap_unsigned(metadata.disc_number), key);
    let g10 = if key == "xesam:discNumber"@ && wrap_unsigned(metadata.disc_number) is Some {
        wrap_unsigned(metadata.disc_number)
    } else {
        g9
    };
    assert(r10.get(key) == g10);
    let r11 = put(r10, "xesam:firstUsed"@, wrap_text(metadata.first_used));
    lemma_put_get(r10, "xesam:firstUsed"@, wrap_text(metadata.first_used), key);
    let g11 = if key == "xesam:firstUsed"@ && wrap_text(metadata.first_used) is Some {
        wrap_text(metadata.first_used)
    } else {
        g10
    };
    assert(r11.get(key) == g11);
    let r12 = put(r11, "xesam:genre"@, wrap_texts(metadata.genres));
    lemma_put_get(r11, "xesam:genre"@, wrap_texts(metadata.genres), key);
    let g12 = if key == "xesam:genre"@ && wrap_texts(metadata.genres) is Some {
        wrap_texts(metadata.genres)
    } else {
        g11
    };
    assert(r12.get(key) == g12);
    let r13 = put(r12, "xesam:lastUsed"@, wrap_text(metadata.last_used));
    lemma_put_get(r12, "xesam:lastUsed"@, wrap_text(metadata.last_used), key);
    let g13 = if key == "xesam:lastUsed"@ && wrap_text(metadata.last_used) is Some {
        wrap_text(metadata.last_used)
    } else {
        g12
    };
    assert(r13.get(key) == g13);
    let r14 = put(r13, "mpris:length"@, wrap_duration(metadata.length));
    lemma_put_get(r13, "mpris:length"@, wrap_duration(metadata.length), key);
    let g14 = if key == "mpris:length"@ && wrap_duration(metadata.length) is Some {
        wrap_duration(metadata.length)
    } else {
        g13
    };
    assert(r14.get(key) == g14);
    let r15 = put(r14, "xesam:lyricist"@, wrap_texts(metadata.lyricists));
    lemma_put_get(r14, "xesam:lyricist"@, wrap_texts(metadata.lyricists), key);
    let g15 = if key == "xesam:lyricist"@ && wrap_texts(metadata.lyricists) is Some {
        wrap_texts(metadata.lyricists)
    } else {
        g14
    };
    assert(r15.get(key) == g15);
    let r16 = put(r15, "xesam:asText"@, wrap_text(metadata.lyrics));
    lemma_put_get(r15, "xesam:asText"@, wrap_text(metadata.lyrics), key);
    let g16 = if key == "xesam:asText"@ && wrap_text(metadata.lyrics) is Some {
        wrap_text(metadata.lyrics)
    } else {
        g15
    };
    assert(r16.get(key) == g16);
    let r17 = put(r16, "xesam:title"@, wrap_text(metadata.title));
    lemma_put_get(r16, "xesam:title"@, wrap_text(metadata.title), key);
    let g17 = if key == "xesam:title"@ && wrap_text(metadata.title) is Some {
        wrap_text(metadata.title)
    } else {
        g16
    };
    assert(r17.get(key) == g17);
    let r18 = put(r17, "mpris:trackid"@, wrap_text(metadata.track_id));
    lemma_put_get(r17, "mpris:trackid"@, wrap_text(metadata.track_id), key);
    let g18 = if key == "mpris:trackid"@ && wrap_text(metadata.track_id) is Some {
        wrap_text(metadata.track_id)
    } else {
        g17
    };
    assert(r18.get(key) == g18);
    let r19 = put(r18, "xesam:trackNumber"@, wrap_unsigned(metadata.track_number));
    lemma_put_get(r18, "xesam:trackNumber"@, wrap_unsigned(metadata.track_number), key);
    let g19 = if key == "xesam:trackNumber"@ && wrap_unsigned(metadata.track_number) is Some {
        wrap_unsigned(metadata.track_number)
    } else {
        g18
    };
    assert(r19.get(key) == g19);
    let r20 = put(r19, "xesam:url"@, wrap_text(metadata.url));
    lemma_put_get(r19, "xesam:url"@, wrap_text(metadata.url), key);
    let g20 = if key == "xesam:url"@ && wrap_text(metadata.url) is Some {
        wrap_text(metadata.url)
    } else {
        g19
    };
    assert(r20.get(key) == g20);
    let r21 = put(r20, "xesam:useCount"@, wrap_unsigned(metadata.use_count));
    lemma_put_get(r20, "xesam:useCount"@, wrap_unsigned(metadata.use_count), key);
    let g21 = if key == "xesam:useCount"@ && wrap_unsigned(metadata.use_count) is Some {
        wrap_unsigned(metadata.use_count)
    } else {
        g20
    };
    assert(r21.get(key) == g21);
    let r22 = put(r21, "xesam:userRating"@, wrap_float(metadata.user_rating));
    lemma_put_get(r21, "xesam:userRating"@, wrap_float(metadata.user_rating), key);
    let g22 = if key == "xesam:userRating"@ && wrap_float(metadata.user_rating) is Some {
        wrap_float(metadata.user_rating)
    } else {
        g21
    };
    assert(r22.get(key) == g22);
    assert(unparse(metadata) == r22);
    lemma_keys_differ();
    if key == "xesam:albumArtist"@ {
        assert(g22 == if wrap_texts(metadata.album_artists) is Some {
            wrap_texts(metadata.album_artists)
        } else {
            g0
        });
    } else if key == "xesam:album"@ {
        assert(g22 == if wrap_text(metadata.album_name) is Some {
            wrap_text(metadata.album_name)
        } else {
            g0
        });
    } else if key == "mpris:artUrl"@ {
        assert(g22 == if wrap_text(metadata.art_url) is Some {
            wrap_text(metadata.art_url)
        } else {
            g0
        });
    } else if key == "xesam:artist"@ {
        assert(g22 == if wrap_texts(metadata.artists) is Some {
            wrap_texts(metadata.artists)
        } else {
            g0
        });
    } else if key == "xesam:audioBPM"@ {
        assert(g22 == if wrap_unsigned(metadata.audio_bpm) is Some {
            wrap_unsigned(metadata.audio_bpm)
        } else {
            g0
        });
    } else if key == "xesam:autoRating"@ {
        assert(g22 == if wrap_float(metadata.auto_rating) is Some {
            wrap_float(metadata.auto_rating)
        } else {
            g0
        });
    } else if key == "xesam:comment"@ {
        assert(g22 == if wrap_texts(metadata.comments) is Some {
            wrap_texts(metadata.comments)
        } else {
            g0
        });
    } else if key == "xesam:composer"@ {
        assert(g22 == if wrap_texts(metadata.composers) is Some {
            wrap_texts(metadata.composers)
        } else {
            g0
        });
    } else if key == "xesam:contentCreated"@ {
        assert(g22 == if wrap_text(metadata.content_created) is Some {
            wrap_text(metadata.content_created)
        } else {
            g0
        });
    } else if key == "xesam:discNumber"@ {
        assert(g22 == if wrap_unsigned(metadata.disc_number) is Some {
            wrap_unsigned(metadata.disc_number)
        } else {
            g0
        });
    } else if key == "xesam:firstUsed"@ {
        assert(g22 == if wrap_text(metadata.first_used) is Some {
            wrap_text(metadata.first_used)
        } else {
            g0
        });
    } else if key == "xesam:genre"@ {
        assert(g22 == if wrap_texts(metadata.genres) is Some {
            wrap_texts(metadata.genres)
        } else {
            g0
        });
    } else if key == "xesam:lastUsed"@ {
        assert(g22 == if wrap_text(metadata.last_used) is Some {
            wrap_text(metadata.last_used)
        } else {
            g0
        });
    } else if key == "mpris:length"@ {
        assert(g22 == if wrap_duration(metadata.length) is Some {
            wrap_duration(metadata.length)
        } else {
            g0
        });
    } else if key == "xesam:lyricist"@ {
        assert(g22 == if wrap_texts(metadata.lyricists) is Some {
            wrap_texts(metadata.lyricists)
        } else {
            g0
        });
    } else if key == "xesam:asText"@ {
        assert(g22 == if wrap_text(metadata.lyrics) is Some {
            wrap_text(metadata.lyrics)
        } else {
            g0
        });
    } else if key == "xesam:title"@ {
        assert(g22 == if wrap_text(metadata.title) is Some {
            wrap_text(metadata.title)
        } else {
            g0
        });
    } else if key == "mpris:trackid"@ {
        assert(g22 == if wrap_text(metadata.track_id) is Some {
            wrap_text(metadata.track_id)
        } else {
            g0
        });
    } else if key == "xesam:trackNumber"@ {
        assert(g22 == if wrap_unsigned(metadata.track_number) is Some {
            wrap_unsigned(metadata.track_number)
        } else {
            g0
        });
    } else if key == "xesam:url"@ {
        assert(g22 == if wrap_text(metadata.url) is Some {
            wrap_text(metadata.url)
        } else {
            g0
        });
    } else if key == "xesam:useCount"@ {
        assert(g22 == if wrap_unsigned(metadata.use_count) is Some {
            wrap_unsigned(metadata.use_count)
        } else {
            g0
        });
    } else if key == "xesam:userRating"@ {
        assert(g22 == if wrap_float(metadata.user_rating) is Some {
            wrap_float(metadata.user_rating)
        } else {
            g0
        });
    } else {
        assert(g22 == g0);
    }
}

/// Sets the entry under `key`, where there is a value for it.
fn put_entry(map: &mut RawMetadata, key: &str, value: Option<MetadataValue>)
    ensures
        values_of(final(map)@) == put(values_of(old(map)@), key@, value_view(value)),
{
    match value {
        Some(v) => {
            map.insert(key.to_owned(), v);
            assert(values_of(map@) =~= values_of(old(map)@).insert(key@, v@));
        },
        None => {},
    }
}

fn pack_texts(field: Option<Vec<String>>) -> (value: Option<MetadataValue>)
    ensures
        value_view(value) == wrap_texts(texts_view(field)),
{
    match field {
        Some(v) => Some(MetadataValue::from(v)),
        None => None,
    }
}

fn pack_text(field: Option<String>) -> (value: Option<MetadataValue>)
    ensures
        value_view(value) == wrap_text(text_view(field)),
{
    match field {
        Some(v) => Some(MetadataValue::from(v)),
        None => None,
    }
}

fn pack_unsigned(field: Option<u64>) -> (value: Option<MetadataValue>)
    ensures
        value_view(value) == wrap_unsigned(field),
{
    match field {
        Some(v) => Some(MetadataValue::from(v)),
        None => None,
    }
}

fn pack_float(field: Option<Float64>) -> (value: Option<MetadataValue>)
    ensures
        value_view(value) == wrap_float(float_view(field)),
{
    match field {
        Some(v) => Some(MetadataValue::from(v)),
        None => None,
    }
}

fn pack_duration(field: Option<MprisDuration>) -> (value: Option<MetadataValue>)
    ensures
        value_view(value) == wrap_duration(duration_view(field)),
{
    match field {
        Some(v) => Some(MetadataValue::from(v)),
        None => None,
    }
}

fn pack_track_id(field: Option<TrackID>) -> (value: Option<MetadataValue>)
    ensures
        value_view(value) == wrap_text(track_id_view(field)),
{
    match field {
        Some(v) => Some(MetadataValue::from(v)),
        None => None,
    }
}

impl FromSpecImpl<Metadata> for RawMetadata {
    open spec fn obeys_from_spec() -> bool {
        false
    }

    open spec fn from_spec(value: Metadata) -> RawMetadata {
        arbitrary()
    }
}

impl From<Metadata> for RawMetadata {
    /// The raw map that stands for the metadata: see [`unparse`].
    fn from(value: Metadata) -> (raw: RawMetadata)
        ensures
            values_of(raw@) == unparse(value@),
    {
        reveal(unparse);
        let mut map = value.others;
        put_entry(&mut map, "xesam:albumArtist", pack_texts(value.album_artists));
        put_entry(&mut map, "xesam:album", pack_text(value.album_name));
        put_entry(&mut map, "mpris:artUrl", pack_text(value.art_url));
        put_entry(&mut map, "xesam:artist", pack_texts(value.artists));
        put_entry(&mut map, "xesam:audioBPM", pack_unsigned(value.audio_bpm));
        put_entry(&mut map, "xesam:autoRating", pack_float(value.auto_rating));
        put_entry(&mut map, "xesam:comment", pack_texts(value.comments));
        put_entry(&mut map, "xesam:composer", pack_texts(value.composers));
        put_entry(&mut map, "xesam:contentCreated", pack_text(value.content_created));
        put_entry(&mut map, "xesam:discNumber", pack_unsigned(value.disc_number));
        put_entry(&mut map, "xesam:firstUsed", pack_text(value.first_used));
        put_entry(&mut map, "xesam:genre", pack_texts(value.genres));
        put_entry(&mut map, "xesam:lastUsed", pack_text(value.last_used));
        put_entry(&mut map, "mpris:length", pack_duration(value.length));
        put_entry(&mut map, "xesam:lyricist", pack_texts(value.lyricists));
        put_entry(&mut map, "xesam:asText", pack_text(value.lyrics));
        put_entry(&mut map, "xesam:title", pack_text(value.title));
        put_entry(&mut map, "mpris:trackid", pack_track_id(value.track_id));
        put_entry(&mut map, "xesam:trackNumber", pack_unsigned(value.track_number));
        put_entry(&mut map, "xesam:url", pack_text(value.url));
        put_entry(&mut map, "xesam:useCount", pack_unsigned(value.use_count));
        put_entry(&mut map, "xesam:userRating", pack_float(value.user_rating));
        map
    }
}

/// What [`Metadata::into_pairs`] hands out.
pub type MetadataIter = std::vec::IntoIter<(String, Option<MetadataValue>)>;

/// Whether `pairs` holds a metadata as pairs of key and value: every
/// well-known key with the value of its field, in the order of the fields,
/// and behind them every entry of `others` once, in no particular order.
pub open spec fn is_pairs_of(
    pairs: Seq<(String, Option<MetadataValue>)>,
    metadata: Metadata,
) -> bool {
    &&& pairs.len() == 22 + metadata.others@.dom().len()
    &&& pairs[0].0@ == "xesam:albumArtist"@
    &&& value_view(pairs[0].1) == known_value(metadata@, "xesam:albumArtist"@)
    &&& pairs[1].0@ == "xesam:album"@
    &&& value_view(pairs[1].1) == known_value(metadata@, "xesam:album"@)
    &&& pairs[2].0@ == "mpris:artUrl"@
    &&& value_view(pairs[2].1) == known_value(metadata@, "mpris:artUrl"@)
    &&& pairs[3].0@ == "xesam:artist"@
    &&& value_view(pairs[3].1) == known_value(metadata@, "xesam:artist"@)
    &&& pairs[4].0@ == "xesam:audioBPM"@
    &&& value_view(pairs[4].1) == known_value(metadata@, "xesam:audioBPM"@)
    &&& pairs[5].0@ == "xesam:autoRating"@
    &&& value_view(pairs[5].1) == known_value(metadata@, "xesam:autoRating"@)
    &&& pairs[6].0@ == "xesam:comment"@
    &&& value_view(pairs[6].1) == known_value(metadata@, "xesam:comment"@)
    &&& pairs[7].0@ == "xesam:composer"@
    &&& value_view(pairs[7].1) == known_value(metadata@, "xesam:composer"@)
    &&& pairs[8].0@ == "xesam:contentCreated"@
    &&& value_view(pairs[8].1) == known_value(metadata@, "xesam:contentCreated"@)
    &&& pairs[9].0@ == "xesam:discNumber"@
    &&& value_view(pairs[9].1) == known_value(metadata@, "xesam:discNumber"@)
    &&& pairs[10].0@ == "xesam:firstUsed"@
    &&& value_view(pairs[10].1) == known_value(metadata@, "xesam:firstUsed"@)
    &&& pairs[11].0@ == "xesam:genre"@
    &&& value_view(pairs[11].1) == known_value(metadata@, "xesam:genre"@)
    &&& pairs[12].0@ == "xesam:lastUsed"@
    &&& value_view(pairs[12].1) == known_value(metadata@, "xesam:lastUsed"@)
    &&& pairs[13].0@ == "mpris:length"@
    &&& value_view(pairs[13].1) == known_value(metadata@, "mpris:length"@)
    &&& pairs[14].0@ == "xesam:lyricist"@
    &&& value_view(pairs[14].1) == known_value(metadata@, "xesam:lyricist"@)
    &&& pairs[15].0@ == "xesam:asText"@
    &&& value_view(pairs[15].1) == known_value(metadata@, "xesam:asText"@)
    &&& pairs[16].0@ == "xesam:title"@
    &&& value_view(pairs[16].1) == known_value(metadata@, "xesam:title"@)
    &&& pairs[17].0@ == "mpris:trackid"@
    &&& value_view(pairs[17].1) == known_value(metadata@, "mpris:trackid"@)
    &&& pairs[18].0@ == "xesam:trackNumber"@
    &&& value_view(pairs[18].1) == known_value(metadata@, "xesam:trackNumber"@)
    &&& pairs[19].0@ == "xesam:url"@
    &&& value_view(pairs[19].1) == known_value(metadata@, "xesam:url"@)
    &&& pairs[20].0@ == "xesam:useCount"@
    &&& value_view(pairs[20].1) == known_value(metadata@, "xesam:useCount"@)
    &&& pairs[21].0@ == "xesam:userRating"@
    &&& value_view(pairs[21].1) == known_value(metadata@, "xesam:userRating"@)
    &&& forall|i: int|
        22 <= i < pairs.len() ==> metadata.others@.contains_key(#[trigger] pairs[i].0@)
            && pairs[i].1 == Some(metadata.others@[pairs[i].0@])
    &&& forall|i: int, j: int| 22 <= i < j < pairs.len() ==> pairs[i].0@ != pairs[j].0@
}

impl Metadata {
    /// Every well-known key with the value of its field, in the order of the
    /// fields, and behind them the entries of `others`.
    pub fn into_pairs(self) -> (pairs: Vec<(String, Option<MetadataValue>)>)
        ensures
            is_pairs_of(pairs@, self),
    {
        let mut pairs: Vec<(String, Option<MetadataValue>)> = Vec::new();
        pairs.push(("xesam:albumArtist".to_owned(), pack_texts(self.album_artists)));
        pairs.push(("xesam:album".to_owned(), pack_text(self.album_name)));
        pairs.push(("mpris:artUrl".to_owned(), pack_text(self.art_url)));
        pairs.push(("xesam:artist".to_owned(), pack_texts(self.artists)));
        pairs.push(("xesam:audioBPM".to_owned(), pack_unsigned(self.audio_bpm)));
        pairs.push(("xesam:autoRating".to_owned(), pack_float(self.auto_rating)));
        pairs.push(("xesam:comment".to_owned(), pack_texts(self.comments)));
        pairs.push(("xesam:composer".to_owned(), pack_texts(self.composers)));
        pairs.push(("xesam:contentCreated".to_owned(), pack_text(self.content_created)));
        pairs.push(("xesam:discNumber".to_owned(), pack_unsigned(self.disc_number)));
        pairs.push(("xesam:firstUsed".to_owned(), pack_text(self.first_used)));
        pairs.push(("xesam:genre".to_owned(), pack_texts(self.genres)));
        pairs.push(("xesam:lastUsed".to_owned(), pack_text(self.last_used)));
        pairs.push(("mpris:length".to_owned(), pack_duration(self.length)));
        pairs.push(("xesam:lyricist".to_owned(), pack_texts(self.lyricists)));
        pairs.push(("xesam:asText".to_owned(), pack_text(self.lyrics)));
        pairs.push(("xesam:title".to_owned(), pack_text(self.title)));
        pairs.push(("mpris:trackid".to_owned(), pack_track_id(self.track_id)));
        pairs.push(("xesam:trackNumber".to_owned(), pack_unsigned(self.track_number)));
        pairs.push(("xesam:url".to_owned(), pack_text(self.url)));
        pairs.push(("xesam:useCount".to_owned(), pack_unsigned(self.use_count)));
        pairs.push(("xesam:userRating".to_owned(), pack_float(self.user_rating)));
        let mut rest = self.others.into_pairs();
        let ghost tail = rest@;
        let ghost head = pairs@;
        proof {
            assert(head[0].0@ == "xesam:albumArtist"@);
            assert(value_view(head[0].1) == wrap_texts(texts_view(self.album_artists)));
            assert(head[1].0@ == "xesam:album"@);
            assert(value_view(head[1].1) == wrap_text(text_view(self.album_name)));
            assert(head[2].0@ == "mpris:artUrl"@);
            assert(value_view(head[2].1) == wrap_text(text_view(self.art_url)));
            assert(head[3].0@ == "xesam:artist"@);
            assert(value_view(head[3].1) == wrap_texts(texts_view(self.artists)));
            assert(head[4].0@ == "xesam:audioBPM"@);
            assert(value_view(head[4].1) == wrap_unsigned((self.audio_bpm)));
            assert(head[5].0@ == "xesam:autoRating"@);
            assert(value_view(head[5].1) == wrap_float(float_view(self.auto_rating)));
            assert(head[6].0@ == "xesam:comment"@);
            assert(value_view(head[6].1) == wrap_texts(texts_view(self.comments)));
            assert(head[7].0@ == "xesam:composer"@);
            assert(value_view(head[7].1) == wrap_texts(texts_view(self.composers)));
            assert(head[8].0@ == "xesam:contentCreated"@);
            assert(value_view(head[8].1) == wrap_text(text_view(self.content_created)));
            assert(head[9].0@ == "xesam:discNumber"@);
            assert(value_view(head[9].1) == wrap_unsigned((self.disc_number)));
            assert(head[10].0@ == "xesam:firstUsed"@);
            assert(value_view(head[10].1) == wrap_text(text_view(self.first_used)));
            assert(head[11].0@ == "xesam:genre"@);
            assert(value_view(head[11].1) == wrap_texts(texts_view(self.genres)));
            assert(head[12].0@ == "xesam:lastUsed"@);
            assert(value_view(head[12].1) == wrap_text(text_view(self.last_used)));
            assert(head[13].0@ == "mpris:length"@);
            assert(value_view(head[13].1) == wrap_duration(duration_view(self.length)));
            assert(head[14].0@ == "xesam:lyricist"@);
            assert(value_view(head[14].1) == wrap_texts(texts_view(self.lyricists)));
            assert(head[15].0@ == "xesam:asText"@);
            assert(value_view(head[15].1) == wrap_text(text_view(self.lyrics)));
            assert(head[16].0@ == "xesam:title"@);
            assert(value_view(head[16].1) == wrap_text(text_view(self.title)));
            assert(head[17].0@ == "mpris:trackid"@);
            assert(value_view(head[17].1) == wrap_text(track_id_view(self.track_id)));
            assert(head[18].0@ == "xesam:trackNumber"@);
            assert(value_view(head[18].1) == wrap_unsigned((self.track_number)));
            assert(head[19].0@ == "xesam:url"@);
            assert(value_view(head[19].1) == wrap_text(text_view(self.url)));
            assert(head[20].0@ == "xesam:useCount"@);
            assert(value_view(head[20].1) == wrap_unsigned((self.use_count)));
            assert(head[21].0@ == "xesam:userRating"@);
            assert(value_view(head[21].1) == wrap_float(float_view(self.user_rating)));
        }
        let mut i: usize = 0;
        let n = rest.len();
        assert(n == self.others@.dom().len());
        while i < n
            invariant
                i <= n,
                n == tail.len(),
                head.len() == 22,
                rest@.len() == n - i,
                pairs@.len() == 22 + i,
                forall|j: int| 0 <= j < n - i ==> rest@[j] == tail[j],
                forall|j: int| 0 <= j < 22 ==> pairs@[j] == head[j],
                forall|j: int|
                    0 <= j < i ==> (#[trigger] pairs@[22 + j]).0 == tail[n - 1 - j].0
                        && pairs@[22 + j].1 == Some(tail[n - 1 - j].1),
            decreases n - i,
        {
            match rest.pop() {
                Some((key, value)) => {
                    pairs.push((key, Some(value)));
                },
                None => {},
            }
            i += 1;
        }
        proof {
            lemma_keys_differ();
            assert forall|i: int| 22 <= i < pairs@.len() implies self.others@.contains_key(
                #[trigger] pairs@[i].0@,
            ) && pairs@[i].1 == Some(self.others@[pairs@[i].0@]) by {
                assert(pairs@[22 + (i - 22)].0 == tail[tail.len() - 1 - (i - 22)].0);
                assert(self.others@.contains_key(tail[tail.len() - 1 - (i - 22)].0@));
            }
            assert forall|i: int, j: int| 22 <= i < j < pairs@.len() implies pairs@[i].0@
                != pairs@[j].0@ by {
                assert(pairs@[22 + (i - 22)].0 == tail[tail.len() - 1 - (i - 22)].0);
                assert(pairs@[22 + (j - 22)].0 == tail[tail.len() - 1 - (j - 22)].0);
            }
        }
        pairs
    }
}

impl IntoIterator for Metadata {
    type Item = (String, Option<MetadataValue>);

    type IntoIter = MetadataIter;

    /// Walks over what [`Metadata::into_pairs`] holds: the items that the
    /// iterator has to give are those pairs, in their order.
    fn into_iter(self) -> (iter: Self::IntoIter)
        ensures
            is_pairs_of(into_iter_elts(iter), self),
    {
        broadcast use axiom_spec_into_iter;

        self.into_pairs().into_iter()
    }
}

} // verus!
