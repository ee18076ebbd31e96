//! A span of time as the protocol carries it: a whole number of microseconds
//! that fits a signed 64-bit integer.
use std::time::Duration;
use vstd::prelude::*;
use vstd::std_specs::convert::{FromSpecImpl, TryFromSpecImpl};
use vstd::std_specs::ops::{AddSpecImpl, DivSpecImpl, MulSpecImpl, SubSpecImpl};

use crate::errors::InvalidMprisDuration;
use crate::extensions::duration_micros;
use crate::metadata::{MetadataValue, ValueView};

verus! {

/// The largest number of microseconds that an [`MprisDuration`] holds.
pub const MAX_MICROS: u64 = 0x7fff_ffff_ffff_ffff;

/// The number in `0..=MAX_MICROS` that is nearest to `value`.
pub open spec fn clamp_micros(value: int) -> nat {
    if value < 0 {
        0
    } else if value > MAX_MICROS {
        MAX_MICROS as nat
    } else {
        value as nat
    }
}

/// The number of microseconds that a metadata value stands for as a
/// duration: an integer between 0 and [`MAX_MICROS`].
pub open spec fn duration_of(value: ValueView) -> Result<nat, Seq<char>> {
    match value {
        ValueView::SignedInt(v) => if v < 0 {
            Err("can't create MprisDuration, value is negative"@)
        } else {
            Ok(v as nat)
        },
        ValueView::UnsignedInt(v) => if v > MAX_MICROS {
            Err("can't create MprisDuration, value too big"@)
        } else {
            Ok(v as nat)
        },
        _ => Err("unsupported MetadataValue type"@),
    }
}

/// A number of microseconds between 0 and [`MAX_MICROS`].
#[derive(Debug, PartialEq, Eq, Clone, Copy, Hash, PartialOrd, Ord)]
pub struct MprisDuration(u64);

impl View for MprisDuration {
    type V = nat;

    /// The number of microseconds.
    closed spec fn view(&self) -> nat {
        self.0 as nat
    }
}

impl MprisDuration {
    #[verifier::type_invariant]
    spec fn within_bounds(self) -> bool {
        self.0 <= MAX_MICROS
    }

    /// The duration of `value` microseconds, or the longest one if `value` is too big.
    pub fn new_from_u64(value: u64) -> (duration: Self)
        ensures
            duration@ == clamp_micros(value as int),
    {
        if value > MAX_MICROS {
            MprisDuration(MAX_MICROS)
        } else {
            MprisDuration(value)
        }
    }

    /// The duration of `value` microseconds, or the empty one if `value` is negative.
    pub fn new_from_i64(value: i64) -> (duration: Self)
        ensures
            duration@ == clamp_micros(value as int),
    {
        if value < 0 {
            MprisDuration(0)
        } else {
            MprisDuration(value as u64)
        }
    }

    /// The longest duration.
    pub fn new_max() -> (duration: Self)
        ensures
            duration@ == MAX_MICROS,
    {
        MprisDuration(MAX_MICROS)
    }

    /// The number of microseconds.
    pub fn as_micros(&self) -> (micros: u64)
        ensures
            micros == self@,
            micros <= MAX_MICROS,
    {
        proof {
            use_type_invariant(self);
        }
        self.0
    }

    /// Reads a number of microseconds of any size: it is a duration exactly
    /// when it is at most [`MAX_MICROS`].
    pub fn try_from_micros(micros: u128) -> (duration: Result<Self, InvalidMprisDuration>)
        ensures
            micros <= MAX_MICROS ==> duration is Ok && duration->Ok_0@ == micros,
            micros > MAX_MICROS ==> duration is Err && duration->Err_0@
                == "can't create MprisDuration, value too big"@,
    {
        if micros > 0x7fff_ffff_ffff_ffff {
            Err(InvalidMprisDuration::new_too_big())
        } else {
            Ok(MprisDuration(micros as u64))
        }
    }
}

impl Default for MprisDuration {
    fn default() -> (duration: Self)
        ensures
            duration@ == 0,
    {
        MprisDuration(0)
    }
}

impl FromSpecImpl<MprisDuration> for Duration {
    open spec fn obeys_from_spec() -> bool {
        false
    }

    open spec fn from_spec(value: MprisDuration) -> Duration {
        arbitrary()
    }
}

impl From<MprisDuration> for Duration {
    fn from(value: MprisDuration) -> (duration: Duration)
        ensures
            duration_micros(duration) == value@,
    {
        Duration::from_micros(value.0)
    }
}

impl TryFromSpecImpl<Duration> for MprisDuration {
    open spec fn obeys_try_from_spec() -> bool {
        false
    }

    open spec fn try_from_spec(value: Duration) -> Result<Self, InvalidMprisDuration> {
        arbitrary()
    }
}

impl TryFrom<Duration> for MprisDuration {
    type Error = InvalidMprisDuration;

    fn try_from(value: Duration) -> (duration: Result<Self, Self::Error>)
        ensures
            duration_micros(value) <= MAX_MICROS ==> duration is Ok && duration->Ok_0@
                == duration_micros(value),
            duration_micros(value) > MAX_MICROS ==> duration is Err && duration->Err_0@
                == "can't create MprisDuration, value too big"@,
    {
        MprisDuration::try_from_micros(value.as_micros())
    }
}

impl FromSpecImpl<MprisDuration> for i64 {
    open spec fn obeys_from_spec() -> bool {
        true
    }

    open spec fn from_spec(value: MprisDuration) -> i64 {
        value@ as i64
    }
}

impl From<MprisDuration> for i64 {
    fn from(value: MprisDuration) -> (micros: i64)
        ensures
            micros == value@,
    {
        proof {
            use_type_invariant(value);
        }
        value.0 as i64
    }
}

impl FromSpecImpl<MprisDuration> for u64 {
    open spec fn obeys_from_spec() -> bool {
        true
    }

    open spec fn from_spec(value: MprisDuration) -> u64 {
        value@ as u64
    }
}

impl From<MprisDuration> for u64 {
    fn from(value: MprisDuration) -> (micros: u64)
        ensures
            micros == value@,
    {
        value.0
    }
}

impl TryFromSpecImpl<i64> for MprisDuration {
    open spec fn obeys_try_from_spec() -> bool {
        false
    }

    open spec fn try_from_spec(value: i64) -> Result<Self, InvalidMprisDuration> {
        arbitrary()
    }
}

impl TryFrom<i64> for MprisDuration {
    type Error = InvalidMprisDuration;

    fn try_from(value: i64) -> (duration: Result<Self, Self::Error>)
        ensures
            value >= 0 ==> duration is Ok && duration->Ok_0@ == value,
            value < 0 ==> duration is Err && duration->Err_0@
                == "can't create MprisDuration, value is negative"@,
    {
        if value < 0 {
            Err(InvalidMprisDuration::new_negative())
        } else {
            Ok(MprisDuration(value as u64))
        }
    }
}

impl TryFromSpecImpl<u64> for MprisDuration {
    open spec fn obeys_try_from_spec() -> bool {
        false
    }

    open spec fn try_from_spec(value: u64) -> Result<Self, InvalidMprisDuration> {
        arbitrary()
    }
}

impl TryFrom<u64> for MprisDuration {
    type Error = InvalidMprisDuration;

    fn try_from(value: u64) -> (duration: Result<Self, Self::Error>)
        ensures
            value <= MAX_MICROS ==> duration is Ok && duration->Ok_0@ == value,
            value > MAX_MICROS ==> duration is Err && duration->Err_0@
                == "can't create MprisDuration, value too big"@,
    {
        if value > MAX_MICROS {
            Err(InvalidMprisDuration::new_too_big())
        } else {
            Ok(MprisDuration(value))
        }
    }
}

impl TryFromSpecImpl<MetadataValue> for MprisDuration {
    open spec fn obeys_try_from_spec() -> bool {
        false
    }

    open spec fn try_from_spec(value: MetadataValue) -> Result<Self, InvalidMprisDuration> {
        arbitrary()
    }
}

impl TryFrom<MetadataValue> for MprisDuration {
    type Error = InvalidMprisDuration;

    fn try_from(value: MetadataValue) -> (duration: Result<Self, Self::Error>)
        ensures
            match duration_of(value@) {
                Ok(micros) => duration is Ok && duration->Ok_0@ == micros,
                Err(text) => duration is Err && duration->Err_0@ == text,
            },
    {
        match value {
            MetadataValue::SignedInt(micros) => MprisDuration::try_from(micros),
            MetadataValue::UnsignedInt(micros) => MprisDuration::try_from(micros),
            _ => Err(InvalidMprisDuration::from("unsupported MetadataValue type")),
        }
    }
}

impl FromSpecImpl<MprisDuration> for MetadataValue {
    open spec fn obeys_from_spec() -> bool {
        false
    }

    open spec fn from_spec(value: MprisDuration) -> MetadataValue {
        arbitrary()
    }
}

impl From<MprisDuration> for MetadataValue {
    fn from(value: MprisDuration) -> (wrapped: MetadataValue)
        ensures
            wrapped@ == ValueView::SignedInt(value@ as i64),
            value@ <= MAX_MICROS,
    {
        MetadataValue::SignedInt(i64::from(value))
    }
}

impl MulSpecImpl<u64> for MprisDuration {
    open spec fn obeys_mul_spec() -> bool {
        false
    }

    open spec fn mul_req(self, rhs: u64) -> bool {
        true
    }

    open spec fn mul_spec(self, rhs: u64) -> MprisDuration {
        arbitrary()
    }
}

impl core::ops::Mul<u64> for MprisDuration {
    type Output = MprisDuration;

    /// The product, or the longest duration where the product is too big.
    fn mul(self, rhs: u64) -> (product: MprisDuration)
        ensures
            product@ == clamp_micros(self@ * rhs),
    {
        proof {
            use_type_invariant(self);
        }
        match self.0.checked_mul(rhs) {
            Some(micros) => MprisDuration::new_from_u64(micros),
            None => MprisDuration(MAX_MICROS),
        }
    }
}

impl DivSpecImpl<u64> for MprisDuration {
    open spec fn obeys_div_spec() -> bool {
        false
    }

    open spec fn div_req(self, rhs: u64) -> bool {
        rhs != 0
    }

    open spec fn div_spec(self, rhs: u64) -> MprisDuration {
        arbitrary()
    }
}

impl core::ops::Div<u64> for MprisDuration {
    type Output = MprisDuration;

    /// The quotient, rounded down. The divisor is not zero.
    fn div(self, rhs: u64) -> (quotient: MprisDuration)
        ensures
            quotient@ == self@ / (rhs as nat),
    {
        proof {
            use_type_invariant(self);
        }
        MprisDuration::new_from_u64(self.0 / rhs)
    }
}

impl AddSpecImpl<u64> for MprisDuration {
    open spec fn obeys_add_spec() -> bool {
        false
    }

    open spec fn add_req(self, rhs: u64) -> bool {
        true
    }

    open spec fn add_spec(self, rhs: u64) -> MprisDuration {
        arbitrary()
    }
}

impl core::ops::Add<u64> for MprisDuration {
    type Output = MprisDuration;

    /// The sum, or the longest duration where the sum is too big.
    fn add(self, rhs: u64) -> (sum: MprisDuration)
        ensures
            sum@ == clamp_micros(self@ + rhs),
    {
        proof {
            use_type_invariant(self);
        }
        match self.0.checked_add(rhs) {
            Some(micros) => MprisDuration::new_from_u64(micros),
            None => MprisDuration(MAX_MICROS),
        }
    }
}

impl SubSpecImpl<u64> for MprisDuration {
    open spec fn obeys_sub_spec() -> bool {
        false
    }

    open spec fn sub_req(self, rhs: u64) -> bool {
        true
    }

    open spec fn sub_spec(self, rhs: u64) -> MprisDuration {
        arbitrary()
    }
}

impl core::ops::Sub<u64> for MprisDuration {
    type Output = MprisDuration;

    /// The difference, or the empty duration where `rhs` is the larger.
    fn sub(self, rhs: u64) -> (difference: MprisDuration)
        ensures
            difference@ == clamp_micros(self@ - rhs),
    {
        proof {
            use_type_invariant(self);
        }
        if rhs > self.0 {
            MprisDuration(0)
        } else {
            MprisDuration(self.0 - rhs)
        }
    }
}

impl<'a> MulSpecImpl<&'a u64> for MprisDuration {
    open spec fn obeys_mul_spec() -> bool {
        false
    }

    open spec fn mul_req(self, rhs: &'a u64) -> bool {
        true
    }

    open spec fn mul_spec(self, rhs: &'a u64) -> MprisDuration {
        arbitrary()
    }
}

impl<'a> core::ops::Mul<&'a u64> for MprisDuration {
    type Output = MprisDuration;

    /// The product, or the longest duration where the product is too big.
    fn mul(self, rhs: &'a u64) -> (product: MprisDuration)
        ensures
            product@ == clamp_micros(self@ * *rhs),
    {
        self * *rhs
    }
}

impl<'a> DivSpecImpl<&'a u64> for MprisDuration {
    open spec fn obeys_div_spec() -> bool {
        false
    }

    open spec fn div_req(self, rhs: &'a u64) -> bool {
        *rhs != 0
    }

    open spec fn div_spec(self, rhs: &'a u64) -> MprisDuration {
        arbitrary()
    }
}

impl<'a> core::ops::Div<&'a u64> for MprisDuration {
    type Output = MprisDuration;

    /// The quotient, rounded down. The divisor is not zero.
    fn div(self, rhs: &'a u64) -> (quotient: MprisDuration)
        ensures
            quotient@ == self@ / (*rhs as nat),
    {
        self / *rhs
    }
}

impl<'a> AddSpecImpl<&'a u64> for MprisDuration {
    open spec fn obeys_add_spec() -> bool {
        false
    }

    open spec fn add_req(self, rhs: &'a u64) -> bool {
        true
    }

    open spec fn add_spec(self, rhs: &'a u64) -> MprisDuration {
        arbitrary()
    }
}

impl<'a> core::ops::Add<&'a u64> for MprisDuration {
    type Output = MprisDuration;

    /// The sum, or the longest duration where the sum is too big.
    fn add(self, rhs: &'a u64) -> (sum: MprisDuration)
        ensures
            sum@ == clamp_micros(self@ + *rhs),
    {
        self + *rhs
    }
}

impl<'a> SubSpecImpl<&'a u64> for MprisDuration {
    open spec fn obeys_sub_spec() -> bool {
        false
    }

    open spec fn sub_req(self, rhs: &'a u64) -> bool {
        true
    }

    open spec fn sub_spec(self, rhs: &'a u64) -> MprisDuration {
        arbitrary()
    }
}

impl<'a> core::ops::Sub<&'a u64> for MprisDuration {
    type Output = MprisDuration;

    /// The difference, or the empty duration where `rhs` is the larger.
    fn sub(self, rhs: &'a u64) -> (difference: MprisDuration)
        ensures
            difference@ == clamp_micros(self@ - *rhs),
    {
        self - *rhs
    }
}

} // verus!
