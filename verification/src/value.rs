//! What the library reads out of a value that came over the bus.
//!
//! A value of `zvariant` is a tree of many kinds of nodes. The library reads
//! two things from one: the text of a string, and the texts of the items of
//! an array. What a value holds of the two is a matter of `zvariant`, and has
//! a name here; everything that is decided about it is decided on plain
//! strings.

use vstd::prelude::*;
use zvariant::{OwnedValue, Value};

verus! {

/// `zvariant::Value`: a value of any type that the bus can carry.
#[verifier::external_type_specification]
#[verifier::external_body]
pub struct ExValue<'a>(zvariant::Value<'a>);

/// `zvariant::OwnedValue`: a `Value` that borrows nothing.
#[verifier::external_type_specification]
#[verifier::external_body]
pub struct ExOwnedValue(zvariant::OwnedValue);

/// Why a value could not be read as what was asked for.
#[derive(PartialEq, Eq, Structural, Debug, Copy, Clone)]
pub enum ConversionError {
    /// The value is of another type than the one asked for.
    Unsupported,
    /// The value is a string, but none of the names that stand for something.
    UnknownName,
}

/// The text that a value holds: the characters of the string that the value
/// is, as `Value::Str` and `Str::as_str` of `zvariant` give them, and nothing
/// for a value of any other type.
pub uninterp spec fn text_held(value: OwnedValue) -> Option<Seq<char>>;

/// The texts of the items that a value holds: for a value that is an array,
/// as `Value::Array` and `Array::inner` of `zvariant` give its items, there is
/// one entry for each item, in their order, which is the item's text if the
/// item is a string and nothing if it is of another type. For a value that is
/// no array there is nothing at all.
pub uninterp spec fn texts_held(value: OwnedValue) -> Option<Seq<Option<Seq<char>>>>;

/// The characters of a text that may be missing.
pub open spec fn optional_text(text: Option<String>) -> Option<Seq<char>> {
    match text {
        Some(name) => Some(name@),
        None => None,
    }
}

/// The characters of each text that is there.
pub open spec fn optional_texts(texts: Seq<Option<String>>) -> Seq<Option<Seq<char>>> {
    texts.map_values(|text: Option<String>| optional_text(text))
}

/// The variant `Value::Str` and `Str::as_str`, behind `OwnedValue::deref`:
/// the text of a value that is a string, and nothing for a value of any other
/// type.
#[verifier::external_body]
pub(crate) fn text_of(value: &OwnedValue) -> (r: Option<String>)
    ensures
        optional_text(r) == text_held(*value),
{
    match &**value {
        Value::Str(text) => Some(text.as_str().to_owned()),
        _ => None,
    }
}

/// The variant `Value::Array` and `Array::len`, behind `OwnedValue::deref`:
/// the number of items of a value that is an array, and nothing for a value of
/// any other type.
#[verifier::external_body]
pub(crate) fn item_count(value: &OwnedValue) -> (r: Option<usize>)
    ensures
        r.is_some() == texts_held(*value).is_some(),
        r.is_some() ==> r.unwrap() == texts_held(*value).unwrap().len(),
{
    match &**value {
        Value::Array(items) => Some(items.len()),
        _ => None,
    }
}

/// The variant `Value::Array`, `Array::inner` and the variant `Value::Str` of
/// the item at `at`: the text of that item if it is a string, and nothing if
/// it is of another type. The position must be that of an item: indexing
/// beyond the items panics.
#[verifier::external_body]
pub(crate) fn item_text(value: &OwnedValue, at: usize) -> (r: Option<String>)
    requires
        texts_held(*value).is_some(),
        at < texts_held(*value).unwrap().len(),
    ensures
        optional_text(r) == texts_held(*value).unwrap()[at as int],
{
    match &**value {
        Value::Array(items) => match &items.inner()[at] {
            Value::Str(text) => Some(text.as_str().to_owned()),
            _ => None,
        },
        _ => None,
    }
}

/// The text of `value`, if it is a string.
pub fn text_in(value: &OwnedValue) -> (text: Option<String>)
    ensures
        optional_text(text) == text_held(*value),
{
    text_of(value)
}

/// For each item of `value`, its text if the item is a string; nothing at all
/// if `value` is no array.
pub fn texts_in(value: &OwnedValue) -> (texts: Option<Vec<Option<String>>>)
    ensures
        match texts_held(*value) {
            Some(held) => texts matches Some(found) && optional_texts(found@) == held,
            None => texts is None,
        },
{
    match item_count(value) {
        None => None,
        Some(count) => {
            let ghost held = texts_held(*value).unwrap();
            let mut texts: Vec<Option<String>> = Vec::new();
            for i in 0..count
                invariant
                    texts_held(*value) == Some(held),
                    held.len() == count,
                    texts.len() == i,
                    forall|k: int| 0 <= k < i ==> optional_text(#[trigger] texts[k]) == held[k],
            {
                texts.push(item_text(value, i));
            }
            proof {
                assert(optional_texts(texts@) =~= held);
            }
            Some(texts)
        },
    }
}

} // verus!
