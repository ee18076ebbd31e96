//! The values that a metadata map holds, and their conversions.
use vstd::prelude::*;
use vstd::std_specs::cmp::PartialEqSpecImpl;
use vstd::std_specs::convert::{FromSpecImpl, TryFromSpecImpl};

use crate::errors::InvalidMetadataValue;

verus! {

/// A 64-bit floating-point number, kept as its IEEE 754 bit pattern. Two
/// values are equal when their bit patterns are.
#[derive(Debug, Clone, Copy, PartialEq, Eq, Hash, Structural)]
pub struct Float64 {
    pub bits: u64,
}

impl Float64 {
    /// The number with the bit pattern `bits`.
    pub fn from_bits(bits: u64) -> (number: Self)
        ensures
            number.bits == bits,
    {
        Float64 { bits }
    }

    /// The bit pattern of the number.
    pub fn to_bits(self) -> (bits: u64)
        ensures
            bits == self.bits,
    {
        self.bits
    }
}

/// The texts of a list of strings.
pub open spec fn texts(strings: Seq<String>) -> Seq<Seq<char>> {
    strings.map_values(|s: String| s@)
}

/// The subset of bus values that players use in metadata.
#[derive(Debug)]
pub enum MetadataValue {
    Boolean(bool),
    Float(Float64),
    SignedInt(i64),
    UnsignedInt(u64),
    String(String),
    Strings(Vec<String>),
    /// A value of any other kind, such as a nested structure.
    Unsupported,
}

/// The mathematical value of a [`MetadataValue`].
pub enum ValueView {
    Boolean(bool),
    /// The bit pattern of the number.
    Float(u64),
    SignedInt(i64),
    UnsignedInt(u64),
    String(Seq<char>),
    Strings(Seq<Seq<char>>),
    Unsupported,
}

impl View for MetadataValue {
    type V = ValueView;

    open spec fn view(&self) -> ValueView {
        match self {
            MetadataValue::Boolean(v) => ValueView::Boolean(*v),
            MetadataValue::Float(v) => ValueView::Float(v.bits),
            MetadataValue::SignedInt(v) => ValueView::SignedInt(*v),
            MetadataValue::UnsignedInt(v) => ValueView::UnsignedInt(*v),
            MetadataValue::String(v) => ValueView::String(v@),
            MetadataValue::Strings(v) => ValueView::Strings(texts(v@)),
            MetadataValue::Unsupported => ValueView::Unsupported,
        }
    }
}

/// The boolean that a value holds; no other shape is one.
pub open spec fn bool_of(value: ValueView) -> Result<bool, Seq<char>> {
    match value {
        ValueView::Boolean(v) => Ok(v),
        _ => Err("expected MetadataValue::Boolean"@),
    }
}

/// The bit pattern of the floating-point number that a value holds; no other
/// shape is one.
pub open spec fn float_of(value: ValueView) -> Result<u64, Seq<char>> {
    match value {
        ValueView::Float(v) => Ok(v),
        _ => Err("expected MetadataValue::Float"@),
    }
}

/// The signed integer that a value stands for: a signed one, or an unsigned
/// one that is not above `i64::MAX`.
pub open spec fn i64_of(value: ValueView) -> Result<i64, Seq<char>> {
    match value {
        ValueView::SignedInt(v) => Ok(v),
        ValueView::UnsignedInt(v) => if v <= i64::MAX {
            Ok(v as i64)
        } else {
            Err("value too big for i64"@)
        },
        _ => Err("expected MetadataValue::SignedInt or MetadataValue::UnsignedInt"@),
    }
}

/// The unsigned integer that a value stands for: an unsigned one, or a signed
/// one that is not negative.
pub open spec fn u64_of(value: ValueView) -> Result<u64, Seq<char>> {
    match value {
        ValueView::UnsignedInt(v) => Ok(v),
        ValueView::SignedInt(v) => if v >= 0 {
            Ok(v as u64)
        } else {
            Err("value is negative"@)
        },
        _ => Err("expected MetadataValue::SignedInt or MetadataValue::UnsignedInt"@),
    }
}

/// The string that a value stands for: a string, or the one member of a list
/// of exactly one string.
pub open spec fn string_of(value: ValueView) -> Result<Seq<char>, Seq<char>> {
    match value {
        ValueView::String(v) => Ok(v),
        ValueView::Strings(v) => if v.len() == 1 {
            Ok(v[0])
        } else {
            Err("MetadataValue::Strings contains more than 1 String"@)
        },
        _ => Err("expected MetadataValue::Strings or MetadataValue::String"@),
    }
}

/// The list of strings that a value stands for: a list, or a single string
/// as a list of one.
pub open spec fn strings_of(value: ValueView) -> Result<Seq<Seq<char>>, Seq<char>> {
    match value {
        ValueView::String(v) => Ok(seq![v]),
        ValueView::Strings(v) => Ok(v),
        _ => Err("expected MetadataValue::Strings or MetadataValue::String"@),
    }
}

/// Whether the two lists hold the same texts in the same order.
pub(crate) fn same_texts(a: &Vec<String>, b: &Vec<String>) -> (same: bool)
    ensures
        same == (texts(a@) == texts(b@)),
{
    if a.len() != b.len() {
        assert(texts(a@).len() != texts(b@).len());
        return false;
    }
    let mut i: usize = 0;
    while i < a.len()
        invariant
            i <= a.len(),
            a.len() == b.len(),
            forall|j: int| 0 <= j < i ==> a@[j]@ == b@[j]@,
        decreases a.len() - i,
    {
        if a[i] != b[i] {
            assert(texts(a@)[i as int] != texts(b@)[i as int]);
            return false;
        }
        i += 1;
    }
    assert(texts(a@) =~= texts(b@));
    true
}

/// A copy of the list.
pub(crate) fn copy_texts(list: &Vec<String>) -> (copy: Vec<String>)
    ensures
        texts(copy@) == texts(list@),
        copy@.len() == list@.len(),
{
    let mut copy: Vec<String> = Vec::new();
    let mut i: usize = 0;
    while i < list.len()
        invariant
            i <= list.len(),
            copy@.len() == i,
            forall|j: int| 0 <= j < i ==> copy@[j]@ == list@[j]@,
        decreases list.len() - i,
    {
        copy.push(list[i].clone());
        i += 1;
    }
    assert(texts(copy@) =~= texts(list@));
    copy
}

impl Clone for MetadataValue {
    fn clone(&self) -> (copy: Self)
        ensures
            copy@ == self@,
    {
        match self {
            MetadataValue::Boolean(v) => MetadataValue::Boolean(*v),
            MetadataValue::Float(v) => MetadataValue::Float(*v),
            MetadataValue::SignedInt(v) => MetadataValue::SignedInt(*v),
            MetadataValue::UnsignedInt(v) => MetadataValue::UnsignedInt(*v),
            MetadataValue::String(v) => MetadataValue::String(v.clone()),
            MetadataValue::Strings(v) => MetadataValue::Strings(copy_texts(v)),
            MetadataValue::Unsupported => MetadataValue::Unsupported,
        }
    }
}

impl PartialEqSpecImpl for MetadataValue {
    open spec fn obeys_eq_spec() -> bool {
        true
    }

    open spec fn eq_spec(&self, other: &MetadataValue) -> bool {
        self@ == other@
    }
}

impl PartialEq for MetadataValue {
    /// Two values are equal when they have the same shape and hold the same.
    fn eq(&self, other: &MetadataValue) -> (same: bool) {
        match (self, other) {
            (MetadataValue::Boolean(a), MetadataValue::Boolean(b)) => *a == *b,
            (MetadataValue::Float(a), MetadataValue::Float(b)) => a.bits == b.bits,
            (MetadataValue::SignedInt(a), MetadataValue::SignedInt(b)) => *a == *b,
            (MetadataValue::UnsignedInt(a), MetadataValue::UnsignedInt(b)) => *a == *b,
            (MetadataValue::String(a), MetadataValue::String(b)) => *a == *b,
            (MetadataValue::Strings(a), MetadataValue::Strings(b)) => same_texts(a, b),
            (MetadataValue::Unsupported, MetadataValue::Unsupported) => true,
            _ => false,
        }
    }
}

impl MetadataValue {
    /// The string that the value stands for, unless there is none or it is empty.
    pub fn into_nonempty_string(self) -> (text: Option<String>)
        ensures
            match string_of(self@) {
                Ok(t) => if t.len() == 0 {
                    text is None
                } else {
                    text is Some && text->0@ == t
                },
                Err(_) => text is None,
            },
    {
        match String::try_from(self) {
            Ok(s) => if s.as_str().is_empty() {
                None
            } else {
                Some(s)
            },
            Err(_) => None,
        }
    }

    /// The strings that the value holds: those of a list, or a single
    /// string as a list of one.
    pub fn into_strings(self) -> (list: Option<Vec<String>>)
        ensures
            match strings_of(self@) {
                Ok(expected) => list is Some && texts(list->0@) == expected,
                Err(_) => list is None,
            },
    {
        match Vec::<String>::try_from(self) {
            Ok(list) => Some(list),
            Err(_) => None,
        }
    }

    /// The integer that the value holds, with an unsigned one above
    /// `i64::MAX` taken as `i64::MAX`.
    pub fn into_i64(self) -> (number: Option<i64>)
        ensures
            number == match self@ {
                ValueView::SignedInt(i) => Some(i),
                ValueView::UnsignedInt(i) => Some(
                    if i > i64::MAX {
                        i64::MAX
                    } else {
                        i as i64
                    },
                ),
                _ => None,
            },
    {
        match self {
            MetadataValue::SignedInt(i) => Some(i),
            MetadataValue::UnsignedInt(i) => if i > 0x7fff_ffff_ffff_ffff {
                Some(0x7fff_ffff_ffff_ffff)
            } else {
                Some(i as i64)
            },
            _ => None,
        }
    }

    /// The integer that the value holds, with a negative one taken as zero.
    pub fn into_u64(self) -> (number: Option<u64>)
        ensures
            number == match self@ {
                ValueView::SignedInt(i) => Some(
                    if i < 0 {
                        0u64
                    } else {
                        i as u64
                    },
                ),
                ValueView::UnsignedInt(i) => Some(i),
                _ => None,
            },
    {
        match self {
            MetadataValue::SignedInt(i) => if i < 0 {
                Some(0)
            } else {
                Some(i as u64)
            },
            MetadataValue::UnsignedInt(i) => Some(i),
            _ => None,
        }
    }
}

impl FromSpecImpl<bool> for MetadataValue {
    open spec fn obeys_from_spec() -> bool {
        true
    }

    open spec fn from_spec(value: bool) -> Self {
        MetadataValue::Boolean(value)
    }
}

impl From<bool> for MetadataValue {
    fn from(value: bool) -> (wrapped: Self)
        ensures
            wrapped@ == ValueView::Boolean(value),
    {
        MetadataValue::Boolean(value)
    }
}

impl FromSpecImpl<Float64> for MetadataValue {
    open spec fn obeys_from_spec() -> bool {
        true
    }

    open spec fn from_spec(value: Float64) -> Self {
        MetadataValue::Float(value)
    }
}

impl From<Float64> for MetadataValue {
    fn from(value: Float64) -> (wrapped: Self)
        ensures
            wrapped@ == ValueView::Float(value.bits),
    {
        MetadataValue::Float(value)
    }
}

impl FromSpecImpl<i64> for MetadataValue {
    open spec fn obeys_from_spec() -> bool {
        true
    }

    open spec fn from_spec(value: i64) -> Self {
        MetadataValue::SignedInt(value)
    }
}

impl From<i64> for MetadataValue {
    fn from(value: i64) -> (wrapped: Self)
        ensures
            wrapped@ == ValueView::SignedInt(value),
    {
        MetadataValue::SignedInt(value)
    }
}

impl FromSpecImpl<u64> for MetadataValue {
    open spec fn obeys_from_spec() -> bool {
        true
    }

    open spec fn from_spec(value: u64) -> Self {
        MetadataValue::UnsignedInt(value)
    }
}

impl From<u64> for MetadataValue {
    fn from(value: u64) -> (wrapped: Self)
        ensures
            wrapped@ == ValueView::UnsignedInt(value),
    {
        MetadataValue::UnsignedInt(value)
    }
}

impl FromSpecImpl<String> for MetadataValue {
    open spec fn obeys_from_spec() -> bool {
        true
    }

    open spec fn from_spec(value: String) -> Self {
        MetadataValue::String(value)
    }
}

impl From<String> for MetadataValue {
    fn from(value: String) -> (wrapped: Self)
        ensures
            wrapped@ == ValueView::String(value@),
    {
        MetadataValue::String(value)
    }
}

impl FromSpecImpl<Vec<String>> for MetadataValue {
    open spec fn obeys_from_spec() -> bool {
        true
    }

    open spec fn from_spec(value: Vec<String>) -> Self {
        MetadataValue::Strings(value)
    }
}

impl From<Vec<String>> for MetadataValue {
    fn from(value: Vec<String>) -> (wrapped: Self)
        ensures
            wrapped@ == ValueView::Strings(texts(value@)),
    {
        MetadataValue::Strings(value)
    }
}

impl TryFromSpecImpl<MetadataValue> for bool {
    open spec fn obeys_try_from_spec() -> bool {
        false
    }

    open spec fn try_from_spec(value: MetadataValue) -> Result<bool, InvalidMetadataValue> {
        arbitrary()
    }
}

impl TryFrom<MetadataValue> for bool {
    type Error = InvalidMetadataValue;

    fn try_from(value: MetadataValue) -> (read: Result<Self, Self::Error>)
        ensures
            match bool_of(value@) {
                Ok(v) => read == Ok::<bool, InvalidMetadataValue>(v),
                Err(text) => read is Err && read->Err_0@ == text,
            },
    {
        match value {
            MetadataValue::Boolean(v) => Ok(v),
            _ => Err(InvalidMetadataValue::from("expected MetadataValue::Boolean")),
        }
    }
}

impl TryFromSpecImpl<MetadataValue> for Float64 {
    open spec fn obeys_try_from_spec() -> bool {
        false
    }

    open spec fn try_from_spec(value: MetadataValue) -> Result<Float64, InvalidMetadataValue> {
        arbitrary()
    }
}

impl TryFrom<MetadataValue> for Float64 {
    type Error = InvalidMetadataValue;

    fn try_from(value: MetadataValue) -> (read: Result<Self, Self::Error>)
        ensures
            match float_of(value@) {
                Ok(bits) => read == Ok::<Float64, InvalidMetadataValue>(Float64 { bits }),
                Err(text) => read is Err && read->Err_0@ == text,
            },
    {
        match value {
            MetadataValue::Float(v) => Ok(v),
            _ => Err(InvalidMetadataValue::from("expected MetadataValue::Float")),
        }
    }
}

impl TryFromSpecImpl<MetadataValue> for i64 {
    open spec fn obeys_try_from_spec() -> bool {
        false
    }

    open spec fn try_from_spec(value: MetadataValue) -> Result<i64, InvalidMetadataValue> {
        arbitrary()
    }
}

impl TryFrom<MetadataValue> for i64 {
    type Error = InvalidMetadataValue;

    fn try_from(value: MetadataValue) -> (read: Result<Self, Self::Error>)
        ensures
            match i64_of(value@) {
                Ok(v) => read == Ok::<i64, InvalidMetadataValue>(v),
                Err(text) => read is Err && read->Err_0@ == text,
            },
    {
        match value {
            MetadataValue::SignedInt(v) => Ok(v),
            MetadataValue::UnsignedInt(v) => {
                if v <= 0x7fff_ffff_ffff_ffff {
                    Ok(v as i64)
                } else {
                    Err(InvalidMetadataValue::from("value too big for i64"))
                }
            },
            _ => Err(
                InvalidMetadataValue::from(
                    "expected MetadataValue::SignedInt or MetadataValue::UnsignedInt",
                ),
            ),
        }
    }
}

impl TryFromSpecImpl<MetadataValue> for u64 {
    open spec fn obeys_try_from_spec() -> bool {
        false
    }

    open spec fn try_from_spec(value: MetadataValue) -> Result<u64, InvalidMetadataValue> {
        arbitrary()
    }
}

impl TryFrom<MetadataValue> for u64 {
    type Error = InvalidMetadataValue;

    fn try_from(value: MetadataValue) -> (read: Result<Self, Self::Error>)
        ensures
            match u64_of(value@) {
                Ok(v) => read == Ok::<u64, InvalidMetadataValue>(v),
                Err(text) => read is Err && read->Err_0@ == text,
            },
    {
        match value {
            MetadataValue::UnsignedInt(v) => Ok(v),
            MetadataValue::SignedInt(v) => {
                if v >= 0 {
                    Ok(v as u64)
                } else {
                    Err(InvalidMetadataValue::from("value is negative"))
                }
            },
            _ => Err(
                InvalidMetadataValue::from(
                    "expected MetadataValue::SignedInt or MetadataValue::UnsignedInt",
                ),
            ),
        }
    }
}

impl TryFromSpecImpl<MetadataValue> for String {
    open spec fn obeys_try_from_spec() -> bool {
        false
    }

    open spec fn try_from_spec(value: MetadataValue) -> Result<String, InvalidMetadataValue> {
        arbitrary()
    }
}

impl TryFrom<MetadataValue> for String {
    type Error = InvalidMetadataValue;

    fn try_from(value: MetadataValue) -> (read: Result<Self, Self::Error>)
        ensures
            match string_of(value@) {
                Ok(text) => read is Ok && read->Ok_0@ == text,
                Err(text) => read is Err && read->Err_0@ == text,
            },
    {
        match value {
            MetadataValue::String(v) => Ok(v),
            MetadataValue::Strings(mut v) => {
                if v.len() == 1 {
                    match v.pop() {
                        Some(only) => Ok(only),
                        None => Err(InvalidMetadataValue::from("")),
                    }
                } else {
                    Err(
                        InvalidMetadataValue::from(
                            "MetadataValue::Strings contains more than 1 String",
                        ),
                    )
                }
            },
            _ => Err(
                InvalidMetadataValue::from(
                    "expected MetadataValue::Strings or MetadataValue::String",
                ),
            ),
        }
    }
}

impl TryFromSpecImpl<MetadataValue> for Vec<String> {
    open spec fn obeys_try_from_spec() -> bool {
        false
    }

    open spec fn try_from_spec(value: MetadataValue) -> Result<Vec<String>, InvalidMetadataValue> {
        arbitrary()
    }
}

impl TryFrom<MetadataValue> for Vec<String> {
    type Error = InvalidMetadataValue;

    fn try_from(value: MetadataValue) -> (read: Result<Self, Self::Error>)
        ensures
            match strings_of(value@) {
                Ok(list) => read is Ok && texts(read->Ok_0@) == list,
                Err(text) => read is Err && read->Err_0@ == text,
            },
    {
        match value {
            MetadataValue::String(v) => {
                let mut list: Vec<String> = Vec::new();
                list.push(v);
                assert(texts(list@) =~= seq![v@]);
                Ok(list)
            },
            MetadataValue::Strings(v) => Ok(v),
            _ => Err(
                InvalidMetadataValue::from(
                    "expected MetadataValue::Strings or MetadataValue::String",
                ),
            ),
        }
    }
}

} // verus!
