use mpris::errors::InvalidMetadata;
use mpris::metadata::{Metadata, RawMetadata};
use mpris::{Float64, MetadataValue, MprisDuration, MprisError, TextMap, TrackID};

fn float(number: f64) -> Float64 {
    Float64::from_bits(number.to_bits())
}

fn raw_of(entries: Vec<(&str, MetadataValue)>) -> RawMetadata {
    let mut raw = TextMap::new();
    for (key, value) in entries {
        raw.insert(key.to_string(), value);
    }
    raw
}

fn full_raw() -> RawMetadata {
    raw_of(vec![
        ("xesam:albumArtist", vec![String::new()].into()),
        ("xesam:album", String::new().into()),
        ("mpris:artUrl", String::new().into()),
        ("xesam:artist", vec![String::new()].into()),
        ("xesam:audioBPM", 0_i64.into()),
        ("xesam:autoRating", float(0.0).into()),
        ("xesam:comment", vec![String::new()].into()),
        ("xesam:composer", vec![String::new()].into()),
        ("xesam:contentCreated", String::new().into()),
        ("xesam:discNumber", 0_i64.into()),
        ("xesam:firstUsed", String::new().into()),
        ("xesam:genre", vec![String::new()].into()),
        ("xesam:lastUsed", String::new().into()),
        ("mpris:length", MprisDuration::default().into()),
        ("xesam:lyricist", vec![String::new()].into()),
        ("xesam:asText", String::new().into()),
        ("xesam:title", String::new().into()),
        ("mpris:trackid", TrackID::no_track().into()),
        ("xesam:trackNumber", 0_i64.into()),
        ("xesam:url", String::new().into()),
        ("xesam:useCount", 0_i64.into()),
        ("xesam:userRating", float(0.0).into()),
        ("other", MetadataValue::Unsupported),
    ])
}

fn full_metadata() -> Metadata {
    Metadata {
        album_artists: Some(vec![String::new()]),
        album_name: Some(String::new()),
        art_url: Some(String::new()),
        artists: Some(vec![String::new()]),
        audio_bpm: Some(0),
        auto_rating: Some(float(0.0)),
        comments: Some(vec![String::new()]),
        composers: Some(vec![String::new()]),
        content_created: Some(String::new()),
        disc_number: Some(0),
        first_used: Some(String::new()),
        genres: Some(vec![String::new()]),
        last_used: Some(String::new()),
        length: Some(MprisDuration::default()),
        lyricists: Some(vec![String::new()]),
        lyrics: Some(String::new()),
        title: Some(String::new()),
        track_id: Some(TrackID::no_track()),
        track_number: Some(0),
        url: Some(String::new()),
        use_count: Some(0),
        user_rating: Some(float(0.0)),
        others: raw_of(vec![("other", MetadataValue::Unsupported)]),
    }
}

#[test]
fn empty_new_default() {
    let empty = Metadata {
        album_artists: None,
        album_name: None,
        art_url: None,
        artists: None,
        audio_bpm: None,
        auto_rating: None,
        comments: None,
        composers: None,
        content_created: None,
        disc_number: None,
        first_used: None,
        genres: None,
        last_used: None,
        length: None,
        lyricists: None,
        lyrics: None,
        title: None,
        track_id: None,
        track_number: None,
        url: None,
        use_count: None,
        user_rating: None,
        others: TextMap::new(),
    };
    assert_eq!(empty, Metadata::default());
    assert_eq!(empty, Metadata::new())
}

#[test]
fn is_empty() {
    let mut m = Metadata::new();
    assert!(m.is_empty());

    let mut field = m.clone();
    field.disc_number = Some(0);
    assert!(!field.is_empty());

    m.others
        .insert("test".to_string(), MetadataValue::Boolean(false));
    assert!(!m.is_empty());

    m.others.remove("test");
    assert!(m.is_empty());
}

#[test]
fn default_back_and_forth() {
    let untouched = Metadata::new();
    assert_eq!(
        Metadata::try_from(RawMetadata::from(untouched.clone())),
        Ok(untouched)
    )
}

#[test]
fn try_from_raw() {
    let meta = Metadata::try_from(full_raw());
    assert_eq!(meta, Ok(full_metadata()));
}

#[test]
fn try_from_raw_fail() {
    let mut map = TextMap::new();

    // Wrong type
    map.insert("xesam:autoRating".to_string(), true.into());
    let m = Metadata::try_from(map.clone());
    assert!(m.is_err());

    // Correct type but no TrackID
    map.insert("xesam:autoRating".to_string(), float(0.0).into());
    let m = Metadata::try_from(map.clone());
    assert!(m.is_err());

    map.insert("mpris:trackid".to_string(), TrackID::no_track().into());
    let m = Metadata::try_from(map);
    assert!(m.is_ok());
}

#[test]
fn equality() {
    let mut first = Metadata::new();
    first.auto_rating = Some(float(0.0));
    first.others.insert(String::from("test"), true.into());

    let mut second = Metadata::new();
    second.auto_rating = Some(float(0.0));
    assert_ne!(first, second.clone());

    second.others.insert(String::from("test"), true.into());
    assert_eq!(first, second);
}

#[test]
fn empty() {
    let iter = Metadata::new().into_iter();
    let (left, right) = iter.size_hint();
    assert_eq!(Some(left), right);
    assert_eq!(left, 22);

    for (_, v) in iter {
        assert!(v.is_none());
    }
}

#[test]
fn strict_errors_say_why() {
    let without_id = raw_of(vec![("xesam:autoRating", float(0.0).into())]);
    assert_eq!(
        Metadata::try_from(without_id),
        Err(InvalidMetadata::from(
            "metadata doesn't contain the mpris:trackid key"
        ))
    );
    // The missing identifier is found before a value of the wrong shape.
    let both = raw_of(vec![("xesam:autoRating", true.into())]);
    assert_eq!(
        Metadata::try_from(both),
        Err(InvalidMetadata::from(
            "metadata doesn't contain the mpris:trackid key"
        ))
    );
    let wrong_shape = raw_of(vec![
        ("mpris:trackid", TrackID::no_track().into()),
        ("xesam:autoRating", true.into()),
    ]);
    assert_eq!(
        Metadata::try_from(wrong_shape),
        Err(InvalidMetadata::from(
            "expected MetadataValue::Float for xesam:autoRating"
        ))
    );
    // Of two wrong values the one of the earlier field is reported.
    let two_wrong = raw_of(vec![
        ("xesam:userRating", true.into()),
        ("mpris:trackid", TrackID::no_track().into()),
        ("xesam:title", 5_u64.into()),
        ("xesam:album", MetadataValue::Strings(vec![])),
    ]);
    assert_eq!(
        Metadata::try_from(two_wrong),
        Err(InvalidMetadata::from(
            "MetadataValue::Strings contains more than 1 String for xesam:album"
        ))
    );
    let bad_id = raw_of(vec![("mpris:trackid", "/org/mpris/x".to_string().into())]);
    assert_eq!(
        Metadata::try_from(bad_id),
        Err(InvalidMetadata::from(
            "TrackID can't start with \"/org/mpris\" for mpris:trackid"
        ))
    );
    let no_path = raw_of(vec![("mpris:trackid", "x".to_string().into())]);
    assert_eq!(
        Metadata::try_from(no_path),
        Err(InvalidMetadata::from("Invalid object path for mpris:trackid"))
    );
    let bad_length = raw_of(vec![
        ("mpris:trackid", TrackID::no_track().into()),
        ("mpris:length", (-1_i64).into()),
    ]);
    assert_eq!(
        Metadata::try_from(bad_length),
        Err(InvalidMetadata::from(
            "can't create MprisDuration, value is negative for mpris:length"
        ))
    );
    let bad_number = raw_of(vec![
        ("mpris:trackid", TrackID::no_track().into()),
        ("xesam:trackNumber", (-1_i64).into()),
    ]);
    assert_eq!(
        Metadata::try_from(bad_number),
        Err(InvalidMetadata::from("value is negative for xesam:trackNumber"))
    );
    assert_eq!(
        MprisError::from(InvalidMetadata::from("why")),
        MprisError::ParseError("why".to_string())
    );
}

#[test]
fn lossy_drops_what_strict_refuses() {
    let raw = raw_of(vec![
        ("xesam:autoRating", true.into()),
        ("xesam:title", "A title".to_string().into()),
        ("xesam:artist", "One artist".to_string().into()),
        ("xesam:album", MetadataValue::Strings(vec!["a".to_string(), "b".to_string()])),
        ("mpris:length", u64::MAX.into()),
        ("xesam:useCount", (-3_i64).into()),
        ("xesam:discNumber", 2_i64.into()),
        ("mpris:trackid", "/org/mpris/reserved".to_string().into()),
        ("custom:key", MetadataValue::SignedInt(-1)),
    ]);
    let mut expected = Metadata::new();
    expected.title = Some("A title".to_string());
    expected.artists = Some(vec!["One artist".to_string()]);
    expected.disc_number = Some(2);
    expected
        .others
        .insert("custom:key".to_string(), MetadataValue::SignedInt(-1));
    assert_eq!(Metadata::from_raw_lossy(raw), expected);
    assert_eq!(Metadata::from_raw_lossy(TextMap::new()), Metadata::new());
    assert_eq!(Metadata::from_raw_lossy(full_raw()), full_metadata());
}

#[test]
fn strict_reads_back_what_was_written() {
    let mut metadata = Metadata::new();
    metadata.track_id = Some(TrackID::try_from("/track/1").unwrap());
    metadata.title = Some("Title".to_string());
    metadata.artists = Some(vec!["A".to_string(), "B".to_string()]);
    metadata.length = Some(MprisDuration::new_from_u64(123_456));
    metadata.user_rating = Some(float(0.75));
    metadata.use_count = Some(u64::MAX);
    metadata
        .others
        .insert("custom:key".to_string(), MetadataValue::Unsupported);
    let raw = RawMetadata::from(metadata.clone());
    assert_eq!(raw.len(), 7);
    assert_eq!(
        raw.get("mpris:length"),
        Some(&MetadataValue::SignedInt(123_456))
    );
    assert_eq!(
        raw.get("mpris:trackid"),
        Some(&MetadataValue::String("/track/1".to_string()))
    );
    assert_eq!(raw.get("xesam:useCount"), Some(&MetadataValue::UnsignedInt(u64::MAX)));
    assert_eq!(Metadata::try_from(raw), Ok(metadata));

    let full = full_metadata();
    assert_eq!(Metadata::try_from(RawMetadata::from(full.clone())), Ok(full));
    let written = RawMetadata::from(full_metadata());
    assert_eq!(written.len(), 23);
    assert_eq!(written.get("xesam:audioBPM"), Some(&MetadataValue::UnsignedInt(0)));
    assert_eq!(written.get("other"), Some(&MetadataValue::Unsupported));
    assert_eq!(
        written.get("xesam:artist"),
        Some(&MetadataValue::Strings(vec![String::new()]))
    );
}

#[test]
fn strict_refuses_metadata_without_track_id() {
    let mut metadata = Metadata::new();
    metadata.title = Some("Title".to_string());
    assert_eq!(
        Metadata::try_from(RawMetadata::from(metadata)),
        Err(InvalidMetadata::from(
            "metadata doesn't contain the mpris:trackid key"
        ))
    );
    let mut only_others = Metadata::new();
    only_others
        .others
        .insert("custom".to_string(), MetadataValue::Boolean(true));
    assert_eq!(
        Metadata::try_from(RawMetadata::from(only_others)),
        Err(InvalidMetadata::from(
            "metadata doesn't contain the mpris:trackid key"
        ))
    );
}

#[test]
fn pairs_in_the_order_of_the_fields() {
    let mut metadata = Metadata::new();
    metadata.album_name = Some("Album".to_string());
    metadata.user_rating = Some(float(1.0));
    metadata
        .others
        .insert("custom".to_string(), MetadataValue::Boolean(true));
    let pairs = metadata.into_pairs();
    assert_eq!(pairs.len(), 23);
    assert_eq!(pairs[0], ("xesam:albumArtist".to_string(), None));
    assert_eq!(
        pairs[1],
        (
            "xesam:album".to_string(),
            Some(MetadataValue::String("Album".to_string()))
        )
    );
    assert_eq!(pairs[17], ("mpris:trackid".to_string(), None));
    assert_eq!(
        pairs[21],
        (
            "xesam:userRating".to_string(),
            Some(MetadataValue::Float(float(1.0)))
        )
    );
    assert_eq!(
        pairs[22],
        ("custom".to_string(), Some(MetadataValue::Boolean(true)))
    );
    let keys: Vec<String> = full_metadata().into_iter().map(|(key, _)| key).collect();
    assert_eq!(keys.len(), 23);
    assert_eq!(keys[2], "mpris:artUrl");
    assert_eq!(keys[13], "mpris:length");
    assert_eq!(keys[22], "other");
}

#[test]
fn metadata_keys_of_fields() {
    let metadata = Metadata::new();
    assert_eq!(metadata.get_metadata_key("album_artists"), Some("xesam:albumArtist"));
    assert_eq!(metadata.get_metadata_key("lyrics"), Some("xesam:asText"));
    assert_eq!(metadata.get_metadata_key("track_id"), Some("mpris:trackid"));
    assert_eq!(metadata.get_metadata_key("user_rating"), Some("xesam:userRating"));
    assert_eq!(metadata.get_metadata_key("others"), None);
    assert_eq!(metadata.get_metadata_key("xesam:title"), None);
    assert_eq!(metadata.get_metadata_key(""), None);
}

#[test]
fn raw_map_behaves_like_a_map() {
    let mut map: TextMap<MetadataValue> = TextMap::new();
    assert!(map.is_empty());
    assert_eq!(map.len(), 0);
    assert_eq!(map.insert("a".to_string(), MetadataValue::SignedInt(1)), None);
    assert_eq!(map.insert("b".to_string(), MetadataValue::SignedInt(2)), None);
    assert_eq!(
        map.insert("a".to_string(), MetadataValue::SignedInt(3)),
        Some(MetadataValue::SignedInt(1))
    );
    assert_eq!(map.len(), 2);
    assert!(map.contains_key("a"));
    assert!(!map.contains_key("c"));
    assert_eq!(map.get("a"), Some(&MetadataValue::SignedInt(3)));
    assert_eq!(map.get("c"), None);
    let mut other: TextMap<MetadataValue> = TextMap::new();
    other.insert("b".to_string(), MetadataValue::SignedInt(2));
    assert_ne!(map, other);
    other.insert("a".to_string(), MetadataValue::SignedInt(3));
    assert_eq!(map, other);
    assert_eq!(map.clone(), other);
    other.insert("a".to_string(), MetadataValue::SignedInt(4));
    assert_ne!(map, other);
    assert_eq!(map.remove("b"), Some(MetadataValue::SignedInt(2)));
    assert_eq!(map.remove("b"), None);
    assert_eq!(map.len(), 1);
    let pairs = map.into_pairs();
    assert_eq!(pairs, vec![("a".to_string(), MetadataValue::SignedInt(3))]);
}
