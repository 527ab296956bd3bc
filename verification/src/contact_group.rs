//! Groups of contacts.

use crate::json::{lemma_lookup_put_slot, lemma_object_value, Json, JsonValue, TextMap};
use crate::parse::{
    get_field, put_field, Duplicate, FieldCodec, FromJson, FromJsonField, JsonCodec, ParseError,
    ParseErrorView, Presence, ToJson, ToJsonField,
};
use crate::record::{
    chosen, copy_asked, copy_patched, field_of, is_fresh_id, new_id, PartialRecord, Record,
};
use vstd::prelude::*;

verus! {

/// A named group of contacts, held by their ids.
#[derive(Clone, Debug, PartialEq)]
pub struct ContactGroup {
    id: String,
    name: String,
    contact_ids: Vec<String>,
}

/// A value of [`ContactGroup`] in contracts.
pub ghost struct ContactGroupView {
    pub id: Seq<char>,
    pub name: Seq<char>,
    pub contact_ids: Seq<Seq<char>>,
}

impl DeepView for ContactGroup {
    type V = ContactGroupView;

    closed spec fn deep_view(&self) -> ContactGroupView {
        ContactGroupView {
            id: self.id.deep_view(),
            name: self.name.deep_view(),
            contact_ids: self.contact_ids.deep_view(),
        }
    }
}

impl ContactGroup {
    /// The record with the id `id` and every other field at the default of
    /// its type.
    pub open spec fn blank(id: Seq<char>) -> ContactGroupView {
        ContactGroupView {
            id,
            name: Seq::<char>::empty(),
            contact_ids: Seq::empty(),
        }
    }

    /// What tells the wire names of the record apart: the length of each, and
    /// for
    /// names of one length a character in which they differ.
    pub proof fn lemma_wire_names()
        ensures
            "id"@.len() == 2,
            "name"@.len() == 4,
            "contactIds"@.len() == 10,
    {
        reveal_strlit("id");
        reveal_strlit("name");
        reveal_strlit("contactIds");
    }
}

impl Default for ContactGroup {
    /// A record with a fresh id.
    fn default() -> (r: Self)
        ensures
            is_fresh_id(r.deep_view().id),
            r.deep_view() == Self::blank(r.deep_view().id),
    {
        let r = ContactGroup {
            id: new_id(),
            name: String::new(),
            contact_ids: Vec::new(),
        };
        assert(r.contact_ids.deep_view() =~= Seq::empty());
        assert(r.deep_view() =~~= Self::blank(r.deep_view().id));
        r
    }
}

impl Duplicate for ContactGroup {
    fn duplicate(&self) -> (r: Self) {
        let id = self.id.duplicate();
        let name = self.name.duplicate();
        let contact_ids = self.contact_ids.duplicate();
        ContactGroup { id, name, contact_ids }
    }
}

impl ToJson for ContactGroup {
    /// An object with one key for each field.
    open spec fn encoded(v: ContactGroupView) -> JsonValue {
        let o = Seq::empty();
        let o = put_field::<String>(o, "id"@, v.id);
        let o = put_field::<String>(o, "name"@, v.name);
        let o = put_field::<Vec<String>>(o, "contactIds"@, v.contact_ids);
        JsonValue::Object(o)
    }

    fn to_json(&self) -> (json: Json) {
        let mut d: TextMap<Json> = TextMap::new();
        assert(d.deep_view() =~= Seq::empty());
        self.id.to_json_field(&mut d, "id");
        self.name.to_json_field(&mut d, "name");
        self.contact_ids.to_json_field(&mut d, "contactIds");
        proof {
            lemma_object_value(d);
        }
        Json::Object(d)
    }
}

impl FromJson for ContactGroup {
    /// The fields are read in the order in which they are declared; the
    /// first that fails gives the error.
    open spec fn decoded(json: JsonValue) -> Result<ContactGroupView, ParseErrorView> {
        match json {
            JsonValue::Object(o) => {
                let id = get_field::<String>(o, "id"@);
                let name = get_field::<String>(o, "name"@);
                let contact_ids = get_field::<Vec<String>>(o, "contactIds"@);
                if id is Err {
                    Err(id->Err_0)
                } else if name is Err {
                    Err(name->Err_0)
                } else if contact_ids is Err {
                    Err(contact_ids->Err_0)
                } else {
                    Ok(
                        ContactGroupView {
                            id: id->Ok_0,
                            name: name->Ok_0,
                            contact_ids: contact_ids->Ok_0,
                        },
                    )
                }
            },
            _ => Err(ParseErrorView::InvalidJsonType("ContactGroup"@)),
        }
    }

    fn from_json(json: &Json) -> (r: Result<Self, ParseError>) {
        match json {
            Json::Object(o) => {
                proof {
                    lemma_object_value(*o);
                }
                let id = match <String as FromJsonField>::from_json_field(o, "id") {
                    Ok(v) => v,
                    Err(e) => return Err(e),
                };
                let name = match <String as FromJsonField>::from_json_field(o, "name") {
                    Ok(v) => v,
                    Err(e) => return Err(e),
                };
                let contact_ids = match <Vec<String> as FromJsonField>::from_json_field(
                    o,
                    "contactIds",
                ) {
                    Ok(v) => v,
                    Err(e) => return Err(e),
                };
                Ok(ContactGroup { id, name, contact_ids })
            },
            _ => Err(ParseError::InvalidJsonType("ContactGroup".to_string())),
        }
    }
}

impl JsonCodec for ContactGroup {
    open spec fn valid(v: ContactGroupView) -> bool {
        &&& <String as FieldCodec>::field_valid(v.id)
        &&& <String as FieldCodec>::field_valid(v.name)
        &&& <Vec<String> as FieldCodec>::field_valid(v.contact_ids)
    }

    proof fn round_trip(v: ContactGroupView) {
        let o = Self::encoded(v)->Object_0;
        Self::lemma_wire_names();
        assert(get_field::<String>(o, "id"@) == Ok::<Seq<char>, ParseErrorView>(v.id)) by {
            Self::lemma_slots(v, "id"@);
            <String as FieldCodec>::field_round_trip(v.id, "id"@);
        }
        assert(get_field::<String>(o, "name"@) == Ok::<Seq<char>, ParseErrorView>(v.name)) by {
            Self::lemma_slots(v, "name"@);
            <String as FieldCodec>::field_round_trip(v.name, "name"@);
        }
        assert(get_field::<Vec<String>>(o, "contactIds"@) == Ok::<
            Seq<Seq<char>>,
            ParseErrorView,
        >(v.contact_ids)) by {
            Self::lemma_slots(v, "contactIds"@);
            <Vec<String> as FieldCodec>::field_round_trip(v.contact_ids, "contactIds"@);
        }
    }
}

impl ContactGroup {
    /// What the written form of `v` holds under `name`.
    pub open spec fn slot(v: ContactGroupView, name: Seq<char>) -> Option<JsonValue> {
        if name == "id"@ {
            <String as ToJsonField>::field_encoded(v.id)
        } else if name == "name"@ {
            <String as ToJsonField>::field_encoded(v.name)
        } else if name == "contactIds"@ {
            <Vec<String> as ToJsonField>::field_encoded(v.contact_ids)
        } else {
            None
        }
    }

    /// The written form holds each field under its wire name and nothing
    /// under any other name.
    pub proof fn lemma_slots(v: ContactGroupView, name: Seq<char>)
        ensures
            field_of(Self::encoded(v), name) == Self::slot(v, name),
    {
        Self::lemma_wire_names();
        if name == "id"@ {
            assert(field_of(Self::encoded(v), name) == Self::slot(v, name)) by {
                broadcast use lemma_lookup_put_slot;

            }
        } else if name == "name"@ {
            assert(field_of(Self::encoded(v), name) == Self::slot(v, name)) by {
                broadcast use lemma_lookup_put_slot;

            }
        } else if name == "contactIds"@ {
            assert(field_of(Self::encoded(v), name) == Self::slot(v, name)) by {
                broadcast use lemma_lookup_put_slot;

            }
        } else {
            assert(field_of(Self::encoded(v), name) is None) by {
                broadcast use lemma_lookup_put_slot;

            }
        }
    }
}

/// A [`ContactGroup`] with every field given or left out.
#[derive(Clone, Debug, PartialEq)]
pub struct PartialContactGroup {
    id: Presence<String>,
    name: Presence<String>,
    contact_ids: Presence<Vec<String>>,
}

/// A value of [`PartialContactGroup`] in contracts.
pub ghost struct PartialContactGroupView {
    pub id: Presence<Seq<char>>,
    pub name: Presence<Seq<char>>,
    pub contact_ids: Presence<Seq<Seq<char>>>,
}

impl DeepView for PartialContactGroup {
    type V = PartialContactGroupView;

    closed spec fn deep_view(&self) -> PartialContactGroupView {
        PartialContactGroupView {
            id: self.id.deep_view(),
            name: self.name.deep_view(),
            contact_ids: self.contact_ids.deep_view(),
        }
    }
}

impl PartialContactGroup {
    /// The default value: every field at the default of its type.
    pub open spec fn blank() -> PartialContactGroupView {
        PartialContactGroupView {
            id: Presence::Absent,
            name: Presence::Absent,
            contact_ids: Presence::Absent,
        }
    }
}

impl Default for PartialContactGroup {
    fn default() -> (r: Self)
        ensures
            r.deep_view() == Self::blank(),
    {
        let id: Presence<String> = Presence::Absent;
        let name: Presence<String> = Presence::Absent;
        let contact_ids: Presence<Vec<String>> = Presence::Absent;
        PartialContactGroup { id, name, contact_ids }
    }
}

impl Duplicate for PartialContactGroup {
    fn duplicate(&self) -> (r: Self) {
        let id = self.id.duplicate();
        let name = self.name.duplicate();
        let contact_ids = self.contact_ids.duplicate();
        PartialContactGroup { id, name, contact_ids }
    }
}

impl ToJson for PartialContactGroup {
    /// An object with one key for each field.
    open spec fn encoded(v: PartialContactGroupView) -> JsonValue {
        let o = Seq::empty();
        let o = put_field::<Presence<String>>(o, "id"@, v.id);
        let o = put_field::<Presence<String>>(o, "name"@, v.name);
        let o = put_field::<Presence<Vec<String>>>(o, "contactIds"@, v.contact_ids);
        JsonValue::Object(o)
    }

    fn to_json(&self) -> (json: Json) {
        let mut d: TextMap<Json> = TextMap::new();
        assert(d.deep_view() =~= Seq::empty());
        self.id.to_json_field(&mut d, "id");
        self.name.to_json_field(&mut d, "name");
        self.contact_ids.to_json_field(&mut d, "contactIds");
        proof {
            lemma_object_value(d);
        }
        Json::Object(d)
    }
}

impl FromJson for PartialContactGroup {
    /// The fields are read in the order in which they are declared; the
    /// first that fails gives the error.
    open spec fn decoded(json: JsonValue) -> Result<PartialContactGroupView, ParseErrorView> {
        match json {
            JsonValue::Object(o) => {
                let id = get_field::<Presence<String>>(o, "id"@);
                let name = get_field::<Presence<String>>(o, "name"@);
                let contact_ids = get_field::<Presence<Vec<String>>>(o, "contactIds"@);
                if id is Err {
                    Err(id->Err_0)
                } else if name is Err {
                    Err(name->Err_0)
                } else if contact_ids is Err {
                    Err(contact_ids->Err_0)
                } else {
                    Ok(
                        PartialContactGroupView {
                            id: id->Ok_0,
                            name: name->Ok_0,
                            contact_ids: contact_ids->Ok_0,
                        },
                    )
                }
            },
            _ => Err(ParseErrorView::InvalidJsonType("ContactGroup"@)),
        }
    }

    fn from_json(json: &Json) -> (r: Result<Self, ParseError>) {
        match json {
            Json::Object(o) => {
                proof {
                    lemma_object_value(*o);
                }
                let id = match <Presence<String> as FromJsonField>::from_json_field(o, "id") {
                    Ok(v) => v,
                    Err(e) => return Err(e),
                };
                let name = match <Presence<String> as FromJsonField>::from_json_field(o, "name") {
                    Ok(v) => v,
                    Err(e) => return Err(e),
                };
                let contact_ids = match <Presence<Vec<String>> as FromJsonField>::from_json_field(
                    o,
                    "contactIds",
                ) {
                    Ok(v) => v,
                    Err(e) => return Err(e),
                };
                Ok(PartialContactGroup { id, name, contact_ids })
            },
            _ => Err(ParseError::InvalidJsonType("ContactGroup".to_string())),
        }
    }
}

impl JsonCodec for PartialContactGroup {
    open spec fn valid(v: PartialContactGroupView) -> bool {
        &&& <Presence<String> as FieldCodec>::field_valid(v.id)
        &&& <Presence<String> as FieldCodec>::field_valid(v.name)
        &&& <Presence<Vec<String>> as FieldCodec>::field_valid(v.contact_ids)
    }

    proof fn round_trip(v: PartialContactGroupView) {
        let o = Self::encoded(v)->Object_0;
        ContactGroup::lemma_wire_names();
        assert(get_field::<Presence<String>>(o, "id"@) == Ok::<
            Presence<Seq<char>>,
            ParseErrorView,
        >(v.id)) by {
            Self::lemma_slots(v, "id"@);
            <Presence<String> as FieldCodec>::field_round_trip(v.id, "id"@);
        }
        assert(get_field::<Presence<String>>(o, "name"@) == Ok::<
            Presence<Seq<char>>,
            ParseErrorView,
        >(v.name)) by {
            Self::lemma_slots(v, "name"@);
            <Presence<String> as FieldCodec>::field_round_trip(v.name, "name"@);
        }
        assert(get_field::<Presence<Vec<String>>>(o, "contactIds"@) == Ok::<
            Presence<Seq<Seq<char>>>,
            ParseErrorView,
        >(v.contact_ids)) by {
            Self::lemma_slots(v, "contactIds"@);
            <Presence<Vec<String>> as FieldCodec>::field_round_trip(v.contact_ids, "contactIds"@);
        }
    }
}

impl PartialContactGroup {
    /// What the written form of `v` holds under `name`.
    pub open spec fn slot(v: PartialContactGroupView, name: Seq<char>) -> Option<JsonValue> {
        if name == "id"@ {
            <Presence<String> as ToJsonField>::field_encoded(v.id)
        } else if name == "name"@ {
            <Presence<String> as ToJsonField>::field_encoded(v.name)
        } else if name == "contactIds"@ {
            <Presence<Vec<String>> as ToJsonField>::field_encoded(v.contact_ids)
        } else {
            None
        }
    }

    /// The written form holds each field under its wire name and nothing
    /// under any other name.
    pub proof fn lemma_slots(v: PartialContactGroupView, name: Seq<char>)
        ensures
            field_of(Self::encoded(v), name) == Self::slot(v, name),
    {
        ContactGroup::lemma_wire_names();
        if name == "id"@ {
            assert(field_of(Self::encoded(v), name) == Self::slot(v, name)) by {
                broadcast use lemma_lookup_put_slot;

            }
        } else if name == "name"@ {
            assert(field_of(Self::encoded(v), name) == Self::slot(v, name)) by {
                broadcast use lemma_lookup_put_slot;

            }
        } else if name == "contactIds"@ {
            assert(field_of(Self::encoded(v), name) == Self::slot(v, name)) by {
                broadcast use lemma_lookup_put_slot;

            }
        } else {
            assert(field_of(Self::encoded(v), name) is None) by {
                broadcast use lemma_lookup_put_slot;

            }
        }
    }
}

impl PartialRecord for PartialContactGroup {
    open spec fn id_of(v: PartialContactGroupView) -> Presence<Seq<char>> {
        v.id
    }

    fn id(&self) -> (r: Presence<String>) {
        self.id.duplicate()
    }
}

impl Record for ContactGroup {
    type Partial = PartialContactGroup;

    open spec fn id_of(v: ContactGroupView) -> Seq<char> {
        v.id
    }

    open spec fn patched(v: ContactGroupView, p: PartialContactGroupView) -> ContactGroupView {
        ContactGroupView {
            id: p.id.or(v.id),
            name: p.name.or(v.name),
            contact_ids: p.contact_ids.or(v.contact_ids),
        }
    }

    open spec fn projected(v: ContactGroupView) -> PartialContactGroupView {
        PartialContactGroupView {
            id: Presence::Present(v.id),
            name: Presence::Present(v.name),
            contact_ids: Presence::Present(v.contact_ids),
        }
    }

    open spec fn filtered(
        v: ContactGroupView,
        properties: Seq<Seq<char>>,
    ) -> PartialContactGroupView {
        PartialContactGroupView {
            id: Presence::Present(v.id),
            name: chosen(properties, "name"@, v.name),
            contact_ids: chosen(properties, "contactIds"@, v.contact_ids),
        }
    }

    fn id(&self) -> (r: String) {
        self.id.clone()
    }

    fn updated_with(&self, p: &PartialContactGroup) -> (r: Self) {
        let id = copy_patched(&p.id, &self.id);
        let name = copy_patched(&p.name, &self.name);
        let contact_ids = copy_patched(&p.contact_ids, &self.contact_ids);
        ContactGroup { id, name, contact_ids }
    }

    fn to_partial(&self) -> (p: PartialContactGroup) {
        let id = Presence::Present(self.id.duplicate());
        let name = Presence::Present(self.name.duplicate());
        let contact_ids = Presence::Present(self.contact_ids.duplicate());
        PartialContactGroup { id, name, contact_ids }
    }

    fn to_filtered_partial(&self, properties: &Vec<String>) -> (p: PartialContactGroup) {
        let id = Presence::Present(self.id.duplicate());
        let name = copy_asked(properties, "name", &self.name);
        let contact_ids = copy_asked(properties, "contactIds", &self.contact_ids);
        PartialContactGroup { id, name, contact_ids }
    }

    proof fn law_patch_with_projection(v: ContactGroupView) {
    }

    proof fn law_patch_overlays(v: ContactGroupView, p: PartialContactGroupView, name: Seq<char>) {
        assert(Self::slot(Self::patched(v, p), name) == match PartialContactGroup::slot(p, name) {
            Some(j) => Some(j),
            None => Self::slot(v, name),
        });
        Self::lemma_slots(Self::patched(v, p), name);
        Self::lemma_slots(v, name);
        PartialContactGroup::lemma_slots(p, name);
    }

    proof fn law_projection_is_whole(v: ContactGroupView) {
    }

    proof fn law_filter_selects(v: ContactGroupView, properties: Seq<Seq<char>>, name: Seq<char>) {
        reveal(chosen);
        assert(PartialContactGroup::slot(Self::filtered(v, properties), name) == if name == "id"@
            || properties.contains(name) {
            Self::slot(v, name)
        } else {
            None
        });
        Self::lemma_slots(v, name);
        PartialContactGroup::lemma_slots(Self::filtered(v, properties), name);
    }
}

} // verus!
