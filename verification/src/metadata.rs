//! Track metadata: the values a player reports, track identifiers, and the
//! record that holds the well-known entries.
mod bus_value;
mod laws;
mod metadata;
mod parse;
mod track_id;
mod unparse;
mod values;

pub use self::bus_value::{metadata_value_of, strings_among, BusValue};
pub use self::laws::{
    lemma_lossy_round_trip, lemma_strict_is_lossy, lemma_strict_needs_track_id,
    lemma_strict_round_trip, lemma_unparse_known, lemma_unparse_others, lemma_written_is_read,
};
pub use self::metadata::{
    duration_view, float_view, is_known_key, key_of_field, text_view, texts_view, track_id_view,
    value_view, values_of, Metadata, MetadataView, RawMetadata,
};

pub use self::parse::{
    complaint, first_complaint, forgiven, parse_lossy, parse_strict, read_duration, read_float,
    read_text, read_texts, read_track_id, read_unsigned,
};
pub use self::unparse::{
    is_pairs_of, known_value, lemma_keys_differ, lemma_unparse_get, put, unparse, wrap_duration,
    wrap_float, wrap_text, wrap_texts, wrap_unsigned, MetadataIter,
};
pub use self::track_id::{
    check_start, is_reserved, is_track_id, lemma_no_track_is_track_id, lemma_reserved_is_refused,
    no_track_text, reserved_prefix, track_id_of, track_id_of_bus_value, track_id_of_text,
    track_id_refusal, TrackID,
    NO_TRACK,
};
pub(crate) use self::metadata::{same_optional_id, same_optional_text, same_optional_texts};
pub use self::values::{
    bool_of, float_of, i64_of, string_of, strings_of, texts, u64_of, Float64, MetadataValue,
    ValueView,
};
