//! Records and their partial forms.
//!
//! A record is a complete entity with an id. Its partial form has the same
//! fields, each given or left out, and serves as a patch and as a filtered
//! view. What the operations do is stated per record type, field by field;
//! the laws that hold of every record type are stated here over the wire
//! form, where a field is the value under its wire name.

use crate::json::{lookup, JsonValue};
use crate::parse::{Duplicate, JsonCodec, Presence, ToJson};
use crate::text::same_text;
use vstd::prelude::*;

verus! {

/// Whether `c` is a decimal digit or one of the letters `a` to `f`.
pub open spec fn is_lower_hex(c: char) -> bool {
    ('0' <= c && c <= '9') || ('a' <= c && c <= 'f')
}

/// The shape of a fresh id: a random (version 4) UUID written as 32
/// lower-case hexadecimal digits in groups of 8, 4, 4, 4 and 12 with a hyphen
/// between the groups.
pub open spec fn is_fresh_id(s: Seq<char>) -> bool {
    &&& s.len() == 36
    &&& forall|i: int|
        0 <= i < 36 ==> if i == 8 || i == 13 || i == 18 || i == 23 {
            #[trigger] s[i] == '-'
        } else {
            is_lower_hex(s[i])
        }
    &&& s[14] == '4'
    &&& (s[19] == '8' || s[19] == '9' || s[19] == 'a' || s[19] == 'b')
}

/// A fresh id for a record.
///
/// Calls `uuid::Uuid::new_v4`, then `hyphenated` and `to_string` on the
/// result. The id is random, so the contract states only its shape: the
/// hyphenated lower-case form, with the version digit 4 and a variant digit
/// of 8, 9, a or b. The generator aborts the process where the system has no
/// source of randomness.
#[verifier::external_body]
pub fn new_id() -> (id: String)
    ensures
        is_fresh_id(id@),
{
    uuid::Uuid::new_v4().hyphenated().to_string()
}

/// `value` as the field with the wire name `name` in a filtered view: given
/// if the name is among `properties`, left out if it is not.
#[verifier::opaque]
pub open spec fn chosen<T>(properties: Seq<Seq<char>>, name: Seq<char>, value: T) -> Presence<T> {
    if properties.contains(name) {
        Presence::Present(value)
    } else {
        Presence::Absent
    }
}

/// A copy of `value` as a field that is given, if `name` is among
/// `properties`; else a field that is left out.
pub fn copy_asked<T: Duplicate>(properties: &Vec<String>, name: &str, value: &T) -> (r: Presence<T>)
    ensures
        r.deep_view() == chosen(properties.deep_view(), name@, value.deep_view()),
{
    reveal(chosen);
    if names_include(properties, name) {
        Presence::Present(value.duplicate())
    } else {
        Presence::Absent
    }
}

/// A copy of what the patch gives for a field, or of the field's value
/// where the patch leaves it out.
pub fn copy_patched<T: Duplicate>(patch: &Presence<T>, value: &T) -> (r: T)
    ensures
        r.deep_view() == patch.deep_view().or(value.deep_view()),
{
    match patch {
        Presence::Present(v) => v.duplicate(),
        Presence::Absent => value.duplicate(),
    }
}

/// Whether `name` is one of `names`.
pub fn names_include(names: &Vec<String>, name: &str) -> (r: bool)
    ensures
        r == names.deep_view().contains(name@),
{
    for i in 0..names.len()
        invariant
            forall|k: int| 0 <= k < i ==> names.deep_view()[k] != name@,
    {
        if same_text(names[i].as_str(), name) {
            assert(names.deep_view()[i as int] == name@);
            return true;
        }
    }
    false
}

/// The value under the wire name `name` in a record's written form, if it
/// has one.
pub open spec fn field_of(json: JsonValue, name: Seq<char>) -> Option<JsonValue> {
    match json {
        JsonValue::Object(o) => lookup(o, name),
        _ => None,
    }
}

/// The partial form of a record: every field, the id too, given or left out.
pub trait PartialRecord: JsonCodec + Duplicate + Default {
    /// The id field of `v`.
    spec fn id_of(v: Self::V) -> Presence<Seq<char>>;

    fn id(&self) -> (r: Presence<String>)
        ensures
            r.deep_view() == Self::id_of(self.deep_view()),
    ;
}

/// A full record.
pub trait Record: JsonCodec + Duplicate + Default {
    type Partial: PartialRecord;

    /// The id of `v`.
    spec fn id_of(v: Self::V) -> Seq<char>;

    /// `v` with every field that `p` gives set to the value given there.
    spec fn patched(v: Self::V, p: <Self::Partial as DeepView>::V) -> Self::V;

    /// The partial form that gives every field of `v`.
    spec fn projected(v: Self::V) -> <Self::Partial as DeepView>::V;

    /// The partial form that gives the id of `v` and those of its fields
    /// whose wire name is among `properties`.
    spec fn filtered(v: Self::V, properties: Seq<Seq<char>>) -> <Self::Partial as DeepView>::V;

    fn id(&self) -> (r: String)
        ensures
            r@ == Self::id_of(self.deep_view()),
    ;

    /// Applies a patch: a new record, the receiver is left as it is.
    fn updated_with(&self, p: &Self::Partial) -> (r: Self)
        ensures
            r.deep_view() == Self::patched(self.deep_view(), p.deep_view()),
    ;

    fn to_partial(&self) -> (p: Self::Partial)
        ensures
            p.deep_view() == Self::projected(self.deep_view()),
    ;

    /// Names in `properties` that are no wire name of the record are passed
    /// over.
    fn to_filtered_partial(&self, properties: &Vec<String>) -> (p: Self::Partial)
        ensures
            p.deep_view() == Self::filtered(self.deep_view(), properties.deep_view()),
    ;

    /// Patching a record with its own projection gives the record back.
    proof fn law_patch_with_projection(v: Self::V)
        ensures
            Self::patched(v, Self::projected(v)) == v,
    ;

    /// Field by field, a patch overlays the record: under every wire name
    /// the patched record holds what the patch holds there, and what the
    /// record held where the patch holds nothing.
    proof fn law_patch_overlays(v: Self::V, p: <Self::Partial as DeepView>::V, name: Seq<char>)
        ensures
            field_of(Self::encoded(Self::patched(v, p)), name) == match field_of(
                Self::Partial::encoded(p),
                name,
            ) {
                Some(j) => Some(j),
                None => field_of(Self::encoded(v), name),
            },
    ;

    /// The projection gives every field: it is written as the record is.
    proof fn law_projection_is_whole(v: Self::V)
        ensures
            Self::Partial::encoded(Self::projected(v)) == Self::encoded(v),
    ;

    /// A filtered projection always gives the id. Under any other wire name
    /// it holds what the record holds if the name is among `properties`, and
    /// nothing if it is not. A name that the record does not have holds
    /// nothing either way.
    proof fn law_filter_selects(v: Self::V, properties: Seq<Seq<char>>, name: Seq<char>)
        ensures
            Self::Partial::id_of(Self::filtered(v, properties)) == Presence::Present(
                Self::id_of(v),
            ),
            field_of(Self::Partial::encoded(Self::filtered(v, properties)), name) == if name
                == "id"@ || properties.contains(name) {
                field_of(Self::encoded(v), name)
            } else {
                None
            },
    ;
}

/// A patch that gives at most the field `f` leaves every other field of the
/// record as it was.
pub proof fn lemma_patch_is_selective<R: Record>(
    v: R::V,
    p: <R::Partial as DeepView>::V,
    f: Seq<char>,
    other: Seq<char>,
)
    requires
        forall|name: Seq<char>| name != f ==> field_of(R::Partial::encoded(p), name) is None,
        other != f,
    ensures
        field_of(R::encoded(R::patched(v, p)), other) == field_of(R::encoded(v), other),
{
    R::law_patch_overlays(v, p, other);
}

} // verus!
