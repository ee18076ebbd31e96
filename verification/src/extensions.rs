//! What the library needs of `std::time::Duration`.
use std::time::Duration;
use vstd::prelude::*;

use crate::errors::{MprisError, MprisErrorView};

verus! {

/// The number of whole microseconds that a `Duration` spans.
pub uninterp spec fn duration_micros(duration: Duration) -> nat;

/// `Duration::as_micros` returns the whole microseconds of the duration.
pub assume_specification[ Duration::as_micros ](duration: &Duration) -> (micros: u128)
    ensures
        micros == duration_micros(*duration),
;

/// `Duration::from_micros` builds the duration that spans exactly that many
/// microseconds.
pub assume_specification[ Duration::from_micros ](micros: u64) -> (duration: Duration)
    ensures
        duration_micros(duration) == micros,
;

/// The text of the error that [`DurationExt::convert_to_micro`] reports.
pub open spec fn too_big_text() -> Seq<char> {
    "could not convert Duration into microseconds, Duration too big"@
}

pub trait DurationExt {
    /// The duration in microseconds, if that number fits an `i64`.
    fn convert_to_micro(self) -> Result<i64, MprisError>;
}

impl DurationExt for Duration {
    fn convert_to_micro(self) -> (micros: Result<i64, MprisError>)
        ensures
            duration_micros(self) <= i64::MAX ==> micros == Ok::<i64, MprisError>(
                duration_micros(self) as i64,
            ),
            duration_micros(self) > i64::MAX ==> micros is Err && micros->Err_0@
                == MprisErrorView::Miscellaneous(too_big_text()),
    {
        let micros: u128 = self.as_micros();
        if micros <= 0x7fff_ffff_ffff_ffff {
            Ok(micros as i64)
        } else {
            Err(
                MprisError::Miscellaneous(
                    "could not convert Duration into microseconds, Duration too big".to_owned(),
                ),
            )
        }
    }
}

} // verus!
