//! The ICC profile value and its encoder.

use vstd::prelude::*;

use crate::pdf_object::ObjModel;
use crate::pdf_object::dict_model;
use crate::pdf_object::dict_new;
use crate::pdf_object::dict_set;
use crate::pdf_object::empty_dict;
use crate::pdf_object::obj_array;
use crate::pdf_object::obj_integer;
use crate::pdf_object::obj_model;
use crate::pdf_object::obj_name;
use crate::pdf_object::obj_real_unit;
use crate::pdf_object::stream_object;

verus! {

/// Color-space type of an ICC profile.
#[derive(Debug, Clone, Copy, PartialEq, Eq, Structural)]
pub enum IccProfileType {
    Cmyk,
    Rgb,
    Grayscale,
}

/// An ICC color profile, held as an opaque byte buffer, together with the
/// declared color-space type and two flags that select optional entries of
/// the encoded stream dictionary.
#[derive(Debug, Clone)]
pub struct IccProfile {
    /// Binary ICC profile data.
    icc: Vec<u8>,
    /// The declared color-space type of the profile.
    icc_type: IccProfileType,
    /// Whether the encoded dictionary carries an `Alternate` color space.
    pub has_alternate: bool,
    /// Whether the encoded dictionary carries a `Range` array.
    pub has_range: bool,
}

/// Ghost model of an [`IccProfile`].
pub struct ProfileModel {
    pub bytes: Seq<u8>,
    pub profile_type: IccProfileType,
    pub has_alternate: bool,
    pub has_range: bool,
}

impl View for IccProfile {
    type V = ProfileModel;

    closed spec fn view(&self) -> ProfileModel {
        ProfileModel {
            bytes: self.icc@,
            profile_type: self.icc_type,
            has_alternate: self.has_alternate,
            has_range: self.has_range,
        }
    }
}

/// The component count `N` of a color-space type.
pub open spec fn component_count(profile_type: IccProfileType) -> int {
    match profile_type {
        IccProfileType::Cmyk => 4,
        IccProfileType::Rgb => 3,
        IccProfileType::Grayscale => 1,
    }
}

/// The alternate color-space name of a color-space type.
pub open spec fn alternate_name(profile_type: IccProfileType) -> Seq<char> {
    match profile_type {
        IccProfileType::Cmyk => "DeviceCMYK"@,
        IccProfileType::Rgb => "DeviceRGB"@,
        IccProfileType::Grayscale => "DeviceGray"@,
    }
}

/// The `Range` array: always the eight bounds `0, 1, 0, 1, 0, 1, 0, 1`,
/// whatever the component count. Writers expect this fixed shape, so it is
/// kept even where a count of `2 * N` entries might seem more fitting.
pub open spec fn range_entries() -> Seq<ObjModel> {
    seq![
        ObjModel::RealInt(0),
        ObjModel::RealInt(1),
        ObjModel::RealInt(0),
        ObjModel::RealInt(1),
        ObjModel::RealInt(0),
        ObjModel::RealInt(1),
        ObjModel::RealInt(0),
        ObjModel::RealInt(1),
    ]
}

/// The dictionary of the encoded stream: `N` and `Length` always, the
/// `Alternate` name and the `Range` array only where the profile's flags ask
/// for them.
pub open spec fn encoded_dict(profile: ProfileModel) -> Map<Seq<char>, ObjModel> {
    let base = empty_dict()
        .insert("N"@, ObjModel::Integer(component_count(profile.profile_type)))
        .insert("Length"@, ObjModel::Integer(profile.bytes.len() as int));
    let with_alternate = if profile.has_alternate {
        base.insert("Alternate"@, ObjModel::Name(alternate_name(profile.profile_type)))
    } else {
        base
    };
    if profile.has_range {
        with_alternate.insert("Range"@, ObjModel::Array(range_entries()))
    } else {
        with_alternate
    }
}

/// The four dictionary keys the encoder writes are pairwise distinct.
proof fn lemma_keys_distinct()
    ensures
        "N"@ != "Length"@,
        "N"@ != "Alternate"@,
        "N"@ != "Range"@,
        "Length"@ != "Alternate"@,
        "Length"@ != "Range"@,
        "Alternate"@ != "Range"@,
{
    reveal_strlit("N");
    reveal_strlit("Length");
    reveal_strlit("Alternate");
    reveal_strlit("Range");
    assert("N"@.len() == 1);
    assert("Length"@.len() == 6);
    assert("Alternate"@.len() == 9);
    assert("Range"@.len() == 5);
}

/// The `(N, alternate name)` pair of a color-space type, as the fixed table
/// gives it.
pub fn profile_parameters(profile_type: &IccProfileType) -> (parameters: (i64, &'static str))
    ensures
        parameters.0 as int == component_count(*profile_type),
        (parameters.1)@ == alternate_name(*profile_type),
{
    match profile_type {
        IccProfileType::Cmyk => (4, "DeviceCMYK"),
        IccProfileType::Rgb => (3, "DeviceRGB"),
        IccProfileType::Grayscale => (1, "DeviceGray"),
    }
}

impl IccProfile {
    /// Creates a new ICC profile value from raw bytes and a color-space type.
    pub fn new(icc: Vec<u8>, icc_type: IccProfileType) -> (profile: IccProfile)
        ensures
            profile@ == (ProfileModel {
                bytes: icc@,
                profile_type: icc_type,
                has_alternate: true,
                has_range: false,
            }),
    {
        IccProfile {
            icc,
            icc_type,
            has_alternate: true,
            has_range: false,
        }
    }

    /// Returns the same profile with `has_alternate` replaced; nothing else
    /// changes.
    pub fn with_alternate_profile(self, has_alternate: bool) -> (profile: IccProfile)
        ensures
            profile@ == (ProfileModel { has_alternate, ..self@ }),
    {
        let mut profile = self;
        profile.has_alternate = has_alternate;
        profile
    }

    /// Returns the same profile with `has_range` replaced; nothing else
    /// changes.
    pub fn with_range(self, has_range: bool) -> (profile: IccProfile)
        ensures
            profile@ == (ProfileModel { has_range, ..self@ }),
    {
        let mut profile = self;
        profile.has_range = has_range;
        profile
    }

    /// Encodes the profile as a single stream object: the dictionary
    /// described by [`encoded_dict`], over a body that is exactly the raw
    /// profile bytes.
    pub fn into_obj(self) -> (objects: Vec<lopdf::Object>)
        requires
            self@.bytes.len() <= i64::MAX as int,
        ensures
            objects@.len() == 1,
            obj_model(objects@[0]) == ObjModel::StreamObj(encoded_dict(self@), self@.bytes),
    {
        let parameters = profile_parameters(&self.icc_type);

        let mut stream_dict = dict_new();
        dict_set(&mut stream_dict, "N", obj_integer(parameters.0));
        dict_set(&mut stream_dict, "Length", obj_integer(self.icc.len() as i64));

        if self.has_alternate {
            dict_set(&mut stream_dict, "Alternate", obj_name(parameters.1));
        }

        if self.has_range {
            let mut bounds: Vec<lopdf::Object> = Vec::new();
            bounds.push(obj_real_unit(0));
            bounds.push(obj_real_unit(1));
            bounds.push(obj_real_unit(0));
            bounds.push(obj_real_unit(1));
            bounds.push(obj_real_unit(0));
            bounds.push(obj_real_unit(1));
            bounds.push(obj_real_unit(0));
            bounds.push(obj_real_unit(1));
            proof {
                assert(bounds@.map_values(|e: lopdf::Object| obj_model(e)) =~= range_entries());
            }
            dict_set(&mut stream_dict, "Range", obj_array(bounds));
        }

        proof {
            lemma_keys_distinct();
            assert(dict_model(stream_dict).insert(
                "Length"@,
                ObjModel::Integer(self@.bytes.len() as int),
            ) =~= encoded_dict(self@));
        }
        let stream = stream_object(stream_dict, self.icc);

        let mut objects: Vec<lopdf::Object> = Vec::new();
        objects.push(stream);
        objects
    }
}

/// The fixed table: each color-space type's component count and alternate
/// color-space name, exactly as written.
pub proof fn lemma_parameter_table()
    ensures
        component_count(IccProfileType::Cmyk) == 4,
        alternate_name(IccProfileType::Cmyk) == "DeviceCMYK"@,
        component_count(IccProfileType::Rgb) == 3,
        alternate_name(IccProfileType::Rgb) == "DeviceRGB"@,
        component_count(IccProfileType::Grayscale) == 1,
        alternate_name(IccProfileType::Grayscale) == "DeviceGray"@,
{
}

/// The encoded dictionary always carries the two mandatory entries: `N` is
/// the profile type's component count, and `Length` is the exact byte length
/// of the profile's buffer, also when that buffer is empty.
pub proof fn lemma_mandatory_entries(profile: ProfileModel)
    ensures
        encoded_dict(profile).contains_pair(
            "N"@,
            ObjModel::Integer(component_count(profile.profile_type)),
        ),
        encoded_dict(profile).contains_pair(
            "Length"@,
            ObjModel::Integer(profile.bytes.len() as int),
        ),
{
    lemma_keys_distinct();
}

/// The `Alternate` entry is present exactly when `has_alternate` is set, and
/// then holds the name the fixed table gives for the profile type.
pub proof fn lemma_alternate_entry(profile: ProfileModel)
    ensures
        profile.has_alternate ==> encoded_dict(profile).contains_pair(
            "Alternate"@,
            ObjModel::Name(alternate_name(profile.profile_type)),
        ),
        !profile.has_alternate ==> !encoded_dict(profile).dom().contains("Alternate"@),
{
    lemma_keys_distinct();
}

/// The `Range` entry is present exactly when `has_range` is set, and then
/// holds the fixed eight-entry array `[0, 1, 0, 1, 0, 1, 0, 1]`, for every
/// profile type.
pub proof fn lemma_range_entry(profile: ProfileModel)
    ensures
        profile.has_range ==> encoded_dict(profile).contains_pair(
            "Range"@,
            ObjModel::Array(range_entries()),
        ),
        !profile.has_range ==> !encoded_dict(profile).dom().contains("Range"@),
        range_entries().len() == 8,
{
    lemma_keys_distinct();
}

/// The encoder writes no key besides the four fixed ones: the dictionary's
/// domain is contained in `{N, Length, Alternate, Range}`.
pub proof fn lemma_no_other_entries(profile: ProfileModel, key: Seq<char>)
    requires
        encoded_dict(profile).dom().contains(key),
    ensures
        key == "N"@ || key == "Length"@ || key == "Alternate"@ || key == "Range"@,
{
}

/// Encoding is a pure function of the profile value: any two stream models
/// that satisfy the encoder's contract for equal profiles are identical.
pub proof fn lemma_encode_deterministic(
    first: ObjModel,
    second: ObjModel,
    profile: ProfileModel,
)
    requires
        first == ObjModel::StreamObj(encoded_dict(profile), profile.bytes),
        second == ObjModel::StreamObj(encoded_dict(profile), profile.bytes),
    ensures
        first == second,
{
}

} // verus!
