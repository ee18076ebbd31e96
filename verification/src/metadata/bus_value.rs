//! The values that the bus carries, and what metadata makes of them.
use vstd::prelude::*;
use vstd::std_specs::convert::FromSpecImpl;

use super::values::{texts, Float64, MetadataValue, ValueView};
use crate::text::same_text;

verus! {

/// A value of the bus, as far as metadata looks into it.
#[derive(Debug)]
pub enum BusValue {
    Bool(bool),
    U8(u8),
    I16(i16),
    U16(u16),
    I32(i32),
    U32(u32),
    I64(i64),
    U64(u64),
    F64(Float64),
    Str(String),
    /// A type signature, by its text.
    Signature(String),
    /// An object path, by its text.
    ObjectPath(String),
    /// A value that is wrapped as a variant.
    Variant(Box<BusValue>),
    /// An array, with its own type signature, such as `as` for an array of strings.
    Array { signature: String, elements: Vec<BusValue> },
    Dict,
    Structure,
    Fd,
}

/// The texts of the strings among the members of an array, in their order.
pub open spec fn strings_among(elements: Seq<BusValue>) -> Seq<Seq<char>> {
    elements.filter(|element: BusValue| element is Str).map_values(
        |element: BusValue| element->Str_0@,
    )
}

/// The metadata value that stands for a value of the bus. Integers keep
/// their value and their sign, strings, signatures and object paths are
/// strings, an array of strings is a list of strings, a variant is what it
/// wraps, and everything else is unsupported.
pub open spec fn metadata_value_of(value: BusValue) -> ValueView
    decreases value,
{
    match value {
        BusValue::Bool(v) => ValueView::Boolean(v),
        BusValue::I16(v) => ValueView::SignedInt(v as i64),
        BusValue::I32(v) => ValueView::SignedInt(v as i64),
        BusValue::I64(v) => ValueView::SignedInt(v),
        BusValue::U8(v) => ValueView::UnsignedInt(v as u64),
        BusValue::U16(v) => ValueView::UnsignedInt(v as u64),
        BusValue::U32(v) => ValueView::UnsignedInt(v as u64),
        BusValue::U64(v) => ValueView::UnsignedInt(v),
        BusValue::F64(v) => ValueView::Float(v.bits),
        BusValue::Str(v) => ValueView::String(v@),
        BusValue::Signature(v) => ValueView::String(v@),
        BusValue::ObjectPath(v) => ValueView::String(v@),
        BusValue::Variant(inner) => metadata_value_of(*inner),
        BusValue::Array { signature, elements } => if signature@ == "as"@ {
            ValueView::Strings(strings_among(elements@))
        } else {
            ValueView::Unsupported
        },
        BusValue::Dict => ValueView::Unsupported,
        BusValue::Structure => ValueView::Unsupported,
        BusValue::Fd => ValueView::Unsupported,
    }
}

/// Copies of the strings among the members of an array.
fn strings_of_elements(elements: &Vec<BusValue>) -> (strings: Vec<String>)
    ensures
        texts(strings@) == strings_among(elements@),
{
    let ghost is_string = |element: BusValue| element is Str;
    let ghost text_of = |element: BusValue| element->Str_0@;
    let mut strings: Vec<String> = Vec::new();
    let mut at: usize = 0;
    proof {
        reveal(Seq::filter);
        assert(elements@.take(0) =~= Seq::<BusValue>::empty());
        assert(texts(strings@) =~= elements@.take(0).filter(is_string).map_values(
            text_of,
        ));
    }
    while at < elements.len()
        invariant
            at <= elements@.len(),
            is_string == |element: BusValue| element is Str,
            text_of == |element: BusValue| element->Str_0@,
            texts(strings@) == elements@.take(at as int).filter(
                is_string,
            ).map_values(text_of),
        decreases elements@.len() - at,
    {
        proof {
            let seen = elements@.take(at as int);
            assert(elements@.take(at + 1) =~= seen.push(elements@[at as int]));
            seen.lemma_filter_push(elements@[at as int], is_string);
        }
        match &elements[at] {
            BusValue::Str(text) => {
                let ghost before = strings@;
                strings.push(text.clone());
                proof {
                    let kept = elements@.take(at as int).filter(is_string);
                    let element = elements@[at as int];
                    assert(text_of(element) == text@);
                    assert(texts(strings@) =~= texts(before).push(text@));
                    assert(kept.push(element).map_values(text_of) =~= kept.map_values(
                        text_of,
                    ).push(text_of(element)));
                }
            },
            _ => {},
        }
        at += 1;
    }
    proof {
        assert(elements@.take(elements@.len() as int) =~= elements@);
    }
    strings
}

impl FromSpecImpl<BusValue> for MetadataValue {
    open spec fn obeys_from_spec() -> bool {
        false
    }

    open spec fn from_spec(value: BusValue) -> MetadataValue {
        arbitrary()
    }
}

impl From<BusValue> for MetadataValue {
    /// The metadata value that stands for a value of the bus: see
    /// [`metadata_value_of`].
    fn from(value: BusValue) -> (read: MetadataValue)
        ensures
            read@ == metadata_value_of(value),
        decreases value,
    {
        match value {
            BusValue::Bool(v) => MetadataValue::Boolean(v),
            BusValue::I16(v) => MetadataValue::SignedInt(v as i64),
            BusValue::I32(v) => MetadataValue::SignedInt(v as i64),
            BusValue::I64(v) => MetadataValue::SignedInt(v),
            BusValue::U8(v) => MetadataValue::UnsignedInt(v as u64),
            BusValue::U16(v) => MetadataValue::UnsignedInt(v as u64),
            BusValue::U32(v) => MetadataValue::UnsignedInt(v as u64),
            BusValue::U64(v) => MetadataValue::UnsignedInt(v),
            BusValue::F64(v) => MetadataValue::Float(v),
            BusValue::Str(v) => MetadataValue::String(v),
            BusValue::Signature(v) => MetadataValue::String(v),
            BusValue::ObjectPath(v) => MetadataValue::String(v),
            BusValue::Variant(inner) => MetadataValue::from(*inner),
            BusValue::Array { signature, elements } => {
                if same_text(signature.as_str(), "as") {
                    MetadataValue::Strings(strings_of_elements(&elements))
                } else {
                    MetadataValue::Unsupported
                }
            },
            BusValue::Dict => MetadataValue::Unsupported,
            BusValue::Structure => MetadataValue::Unsupported,
            BusValue::Fd => MetadataValue::Unsupported,
        }
    }
}

} // verus!
