use std::time::Duration;

use mpris::errors::InvalidMprisDuration;
use mpris::{Float64, MetadataValue, MprisDuration, MAX_MICROS};

const MAX: u64 = i64::MAX as u64;

#[test]
fn duration_new() {
    assert_eq!(MAX_MICROS, MAX);
    assert_eq!(u64::from(MprisDuration::new_max()), MAX);
    assert_eq!(u64::from(MprisDuration::new_from_u64(0)), 0);
    assert_eq!(u64::from(MprisDuration::default()), 0);
    assert_eq!(MprisDuration::new_from_u64(u64::MAX), MprisDuration::new_max());
}

#[test]
fn new_from_i64_clamps_at_both_ends() {
    assert_eq!(MprisDuration::new_from_i64(i64::MIN), MprisDuration::default());
    assert_eq!(MprisDuration::new_from_i64(-1), MprisDuration::default());
    assert_eq!(MprisDuration::new_from_i64(0), MprisDuration::default());
    assert_eq!(u64::from(MprisDuration::new_from_i64(17)), 17);
    assert_eq!(MprisDuration::new_from_i64(i64::MAX), MprisDuration::new_max());
    assert_eq!(MprisDuration::new_from_u64(MAX + 1), MprisDuration::new_max());
    assert_eq!(u64::from(MprisDuration::new_from_u64(MAX - 1)), MAX - 1);
    assert_eq!(MprisDuration::new_max().as_micros(), MAX);
}

#[test]
fn into_duration() {
    assert_eq!(
        Duration::from(MprisDuration::new_from_u64(0)),
        Duration::from_micros(0)
    );
    assert_eq!(
        Duration::from(MprisDuration::new_from_u64(123456789)),
        Duration::from_micros(123456789)
    );
    assert_eq!(
        Duration::from(MprisDuration::new_max()),
        Duration::from_micros(MAX)
    );
}

#[test]
fn try_from_duration() {
    assert_eq!(
        MprisDuration::try_from(Duration::default()),
        Ok(MprisDuration::default())
    );
    assert_eq!(
        MprisDuration::try_from(Duration::from_micros(MAX)),
        Ok(MprisDuration::new_max())
    );

    assert!(MprisDuration::try_from(Duration::from_micros(MAX + 1)).is_err());
}

#[test]
fn try_from_duration_counts_whole_microseconds() {
    assert_eq!(
        MprisDuration::try_from(Duration::from_nanos(1_999)),
        Ok(MprisDuration::new_from_u64(1))
    );
    assert_eq!(
        MprisDuration::try_from(Duration::new(2, 500_000)),
        Ok(MprisDuration::new_from_u64(2_000_500))
    );
    assert_eq!(
        MprisDuration::try_from(Duration::MAX),
        Err(InvalidMprisDuration::new_too_big())
    );
    assert_eq!(
        MprisDuration::try_from_micros(u128::MAX),
        Err(InvalidMprisDuration::new_too_big())
    );
    assert_eq!(
        MprisDuration::try_from_micros(5),
        Ok(MprisDuration::new_from_u64(5))
    );
}

#[test]
fn into_ints() {
    let d = MprisDuration::default();
    assert_eq!(i64::from(d), 0);
    assert_eq!(u64::from(d), 0);
    let d_max = MprisDuration::new_max();
    assert_eq!(i64::from(d_max), i64::MAX);
    assert_eq!(u64::from(d_max), MAX);
}

#[test]
fn try_from_ints() {
    assert!(MprisDuration::try_from(i64::MIN).is_err());
    assert_eq!(MprisDuration::try_from(0_i64), Ok(MprisDuration::default()));
    assert_eq!(
        MprisDuration::try_from(i64::MAX),
        Ok(MprisDuration::new_max())
    );
    assert_eq!(MprisDuration::try_from(0_u64), Ok(MprisDuration::default()));
    assert!(MprisDuration::try_from(MAX + 1).is_err());
}

#[test]
fn try_from_ints_says_why() {
    assert_eq!(
        MprisDuration::try_from(-1_i64),
        Err(InvalidMprisDuration::new_negative())
    );
    assert_eq!(
        MprisDuration::try_from(MAX + 1),
        Err(InvalidMprisDuration::new_too_big())
    );
    assert_eq!(
        InvalidMprisDuration::new_negative().to_string(),
        "can't create MprisDuration, value is negative"
    );
    assert_eq!(
        InvalidMprisDuration::new_too_big().to_string(),
        "can't create MprisDuration, value too big"
    );
}

#[test]
fn try_from_metadata_value() {
    assert!(MprisDuration::try_from(MetadataValue::Boolean(false)).is_err());
    assert!(MprisDuration::try_from(MetadataValue::Float(Float64::from_bits(0.0f64.to_bits()))).is_err());
    assert!(MprisDuration::try_from(MetadataValue::SignedInt(0)).is_ok());
    assert!(MprisDuration::try_from(MetadataValue::UnsignedInt(0)).is_ok());
    assert!(MprisDuration::try_from(MetadataValue::String(String::new())).is_err());
    assert!(MprisDuration::try_from(MetadataValue::Strings(vec![])).is_err());
    assert!(MprisDuration::try_from(MetadataValue::Unsupported).is_err());
}

#[test]
fn try_from_metadata_value_says_why() {
    assert_eq!(
        MprisDuration::try_from(MetadataValue::Unsupported),
        Err(InvalidMprisDuration::from("unsupported MetadataValue type"))
    );
    assert_eq!(
        MprisDuration::try_from(MetadataValue::SignedInt(-5)),
        Err(InvalidMprisDuration::new_negative())
    );
    assert_eq!(
        MprisDuration::try_from(MetadataValue::UnsignedInt(u64::MAX)),
        Err(InvalidMprisDuration::new_too_big())
    );
    assert_eq!(
        MprisDuration::try_from(MetadataValue::UnsignedInt(42)),
        Ok(MprisDuration::new_from_u64(42))
    );
    assert_eq!(
        MetadataValue::from(MprisDuration::new_from_u64(42)),
        MetadataValue::SignedInt(42)
    );
}

#[test]
fn math() {
    assert_eq!(
        MprisDuration::new_from_u64(1) * 10,
        MprisDuration::new_from_u64(10)
    );
    #[allow(clippy::erasing_op)]
    {
        assert_eq!(
            MprisDuration::new_from_u64(1) * 0,
            MprisDuration::new_from_u64(0)
        );
    }
    assert_eq!(MprisDuration::new_max() * 2, MprisDuration::new_max());

    assert_eq!(
        MprisDuration::new_from_u64(0) / 1,
        MprisDuration::new_from_u64(0)
    );
    assert_eq!(
        MprisDuration::new_from_u64(10) / 3,
        MprisDuration::new_from_u64(10 / 3)
    );
    assert_eq!(
        MprisDuration::new_max() / MAX,
        MprisDuration::new_from_u64(1)
    );
    assert_eq!(
        MprisDuration::new_from_u64(1) / MAX,
        MprisDuration::new_from_u64(0)
    );

    assert_eq!(
        MprisDuration::new_from_u64(0) + 1,
        MprisDuration::new_from_u64(1)
    );
    assert_eq!(MprisDuration::new_max() + 1, MprisDuration::new_max());

    assert_eq!(
        MprisDuration::new_from_u64(0) - 1,
        MprisDuration::new_from_u64(0)
    );
    assert_eq!(
        MprisDuration::new_from_u64(10) - 1,
        MprisDuration::new_from_u64(9)
    );
}

#[test]
fn math_saturates() {
    assert_eq!(MprisDuration::new_from_u64(3) * u64::MAX, MprisDuration::new_max());
    assert_eq!(MprisDuration::new_from_u64(7) + u64::MAX, MprisDuration::new_max());
    assert_eq!(MprisDuration::new_from_u64(7) - u64::MAX, MprisDuration::default());
    assert_eq!(MprisDuration::new_from_u64(MAX - 1) + 1, MprisDuration::new_max());
    assert_eq!(MprisDuration::new_from_u64(6) * 7, MprisDuration::new_from_u64(42));
}
