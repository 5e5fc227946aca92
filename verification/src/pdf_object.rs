//! A mathematical model of the few `lopdf` values the encoder emits, and
//! trusted wrappers around the `lopdf` calls that build them.
//!
//! `lopdf::Object` and `lopdf::Dictionary` are opaque here; what such a value
//! holds is named by [`obj_model`] and [`dict_model`], and each wrapper states
//! how the call it makes relates those models.

use vstd::prelude::*;

verus! {

#[verifier::external_type_specification]
#[verifier::external_body]
pub struct ExObject(lopdf::Object);

#[verifier::external_type_specification]
#[verifier::external_body]
pub struct ExDictionary(lopdf::Dictionary);

/// Model of a PDF object value, as far as this crate builds them.
///
/// A real number appears here only with an integer value
/// (`RealInt(v)` stands for the real number equal to `v`), which covers
/// every real this encoder ever emits.
pub enum ObjModel {
    /// An integer object.
    Integer(int),
    /// A name object, given by its text.
    Name(Seq<char>),
    /// A real-number object whose value is exactly this integer.
    RealInt(int),
    /// An array object, given by the models of its elements.
    Array(Seq<ObjModel>),
    /// A stream object: its dictionary's contents and its body bytes.
    StreamObj(Map<Seq<char>, ObjModel>, Seq<u8>),
}

/// What a `lopdf::Object` value holds.
pub uninterp spec fn obj_model(object: lopdf::Object) -> ObjModel;

/// What a `lopdf::Dictionary` holds: its entries, keyed by their text.
pub uninterp spec fn dict_model(dict: lopdf::Dictionary) -> Map<Seq<char>, ObjModel>;

/// Relies on `lopdf::Object::Integer`: the variant holds exactly the given `i64`.
#[verifier::external_body]
pub(crate) fn obj_integer(value: i64) -> (object: lopdf::Object)
    ensures
        obj_model(object) == ObjModel::Integer(value as int),
{
    lopdf::Object::Integer(value)
}

/// Relies on `lopdf::Object::Name`: the variant holds the name's bytes, here
/// the UTF-8 bytes of the given text.
#[verifier::external_body]
pub(crate) fn obj_name(name: &str) -> (object: lopdf::Object)
    ensures
        obj_model(object) == ObjModel::Name(name@),
{
    lopdf::Object::Name(name.into())
}

/// Relies on `lopdf::Object::Real` and on `From<u8> for f32`, which the
/// standard library documents as lossless: the variant holds the real number
/// whose value is exactly the given small integer.
#[verifier::external_body]
pub(crate) fn obj_real_unit(value: u8) -> (object: lopdf::Object)
    ensures
        obj_model(object) == ObjModel::RealInt(value as int),
{
    lopdf::Object::Real(value.into())
}

/// Relies on `lopdf::Object::Array`: the variant holds exactly the given
/// elements, in order.
#[verifier::external_body]
pub(crate) fn obj_array(elements: Vec<lopdf::Object>) -> (object: lopdf::Object)
    ensures
        obj_model(object) == ObjModel::Array(elements@.map_values(|e: lopdf::Object| obj_model(e))),
{
    lopdf::Object::Array(elements)
}

/// The model of a dictionary with no entries.
pub open spec fn empty_dict() -> Map<Seq<char>, ObjModel> {
    Map::empty()
}

/// Relies on `lopdf::Dictionary::new`: the new dictionary has no entries.
#[verifier::external_body]
pub(crate) fn dict_new() -> (dict: lopdf::Dictionary)
    ensures
        dict_model(dict) == empty_dict(),
{
    lopdf::Dictionary::new()
}

/// Relies on `lopdf::Dictionary::set`: it inserts the entry, replacing any
/// entry under the same key.
#[verifier::external_body]
pub(crate) fn dict_set(dict: &mut lopdf::Dictionary, key: &str, value: lopdf::Object)
    ensures
        dict_model(*final(dict)) == dict_model(*old(dict)).insert(key@, obj_model(value)),
{
    dict.set(key, value)
}

/// Relies on `lopdf::Stream::new`, wrapped as `lopdf::Object::Stream`: the
/// stream keeps the dictionary and the body as given, except that `new` sets
/// the dictionary's `Length` entry to the body's byte count.
#[verifier::external_body]
pub(crate) fn stream_object(dict: lopdf::Dictionary, content: Vec<u8>) -> (object: lopdf::Object)
    requires
        content@.len() <= i64::MAX as int,
    ensures
        obj_model(object) == ObjModel::StreamObj(
            dict_model(dict).insert("Length"@, ObjModel::Integer(content@.len() as int)),
            content@,
        ),
{
    lopdf::Object::Stream(lopdf::Stream::new(dict, content))
}

} // verus!
