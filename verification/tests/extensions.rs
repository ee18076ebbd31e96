use std::time::Duration;

use mpris::{DurationExt, MprisError};

#[test]
fn valid_convert() {
    assert_eq!(Duration::default().convert_to_micro(), Ok(0));
    assert_eq!(
        Duration::from_micros(i64::MAX as u64).convert_to_micro(),
        Ok(i64::MAX)
    )
}

#[test]
fn invalid_convert() {
    assert!(Duration::from_micros(i64::MAX as u64 + 1)
        .convert_to_micro()
        .is_err());
}

#[test]
fn invalid_convert_says_why() {
    assert_eq!(
        Duration::from_micros(u64::MAX).convert_to_micro(),
        Err(MprisError::Miscellaneous(
            "could not convert Duration into microseconds, Duration too big".to_string()
        ))
    );
    assert_eq!(Duration::from_nanos(2_500).convert_to_micro(), Ok(2));
}
