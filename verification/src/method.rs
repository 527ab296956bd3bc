//! Method calls and responses: their arguments, their errors, and the
//! closed sets of methods that a batch is made of.

use crate::calendar::Calendar;
use crate::calendar_event::CalendarEvent;
use crate::contact::Contact;
use crate::contact_group::ContactGroup;
use crate::json::{
    lemma_array_value, lemma_lookup_put_slot, lemma_object_value, Json, JsonValue, TextMap,
};
use crate::mailbox::Mailbox;
use crate::parse::{
    get_field, put_field, Duplicate, FieldCodec, FromJson, FromJsonField, JsonCodec, ParseError,
    ParseErrorView, Presence, ToJson, ToJsonField,
};
use crate::record::{field_of, Record};
use crate::text::same_text;
use std::marker::PhantomData;
use vstd::prelude::*;

verus! {

/// What a client asks for when it fetches records: which ones, which of their
/// properties, and since which state.
#[derive(Debug, PartialEq)]
pub struct GetRequestArgs<R: Record> {
    pub _marker: PhantomData<R>,
    pub ids: Presence<Vec<String>>,
    pub properties: Presence<Vec<String>>,
    pub since_state: Presence<String>,
}

/// A value of [`GetRequestArgs`] in contracts.
pub ghost struct GetRequestArgsView {
    pub ids: Presence<Seq<Seq<char>>>,
    pub properties: Presence<Seq<Seq<char>>>,
    pub since_state: Presence<Seq<char>>,
}

impl<R: Record> DeepView for GetRequestArgs<R> {
    type V = GetRequestArgsView;

    open spec fn deep_view(&self) -> GetRequestArgsView {
        GetRequestArgsView {
            ids: self.ids.deep_view(),
            properties: self.properties.deep_view(),
            since_state: self.since_state.deep_view(),
        }
    }
}

impl<R: Record> GetRequestArgs<R> {
    /// The default value: every field at the default of its type.
    pub open spec fn blank() -> GetRequestArgsView {
        GetRequestArgsView {
            ids: Presence::Absent,
            properties: Presence::Absent,
            since_state: Presence::Absent,
        }
    }
}

impl<R: Record> Default for GetRequestArgs<R> {
    fn default() -> (r: Self)
        ensures
            r.deep_view() == Self::blank(),
    {
        let ids: Presence<Vec<String>> = Presence::Absent;
        let properties: Presence<Vec<String>> = Presence::Absent;
        let since_state: Presence<String> = Presence::Absent;
        GetRequestArgs { _marker: PhantomData, ids, properties, since_state }
    }
}

impl<R: Record> GetRequestArgs<R> {
    /// What tells the wire names of this type apart: the length of each, and
    /// for
    /// names of one length a character in which they differ.
    pub proof fn lemma_wire_names()
        ensures
            "ids"@.len() == 3,
            "properties"@.len() == 10,
            "sinceState"@.len() == 10,
            "properties"@[0] == 'p',
            "sinceState"@[0] == 's',
    {
        reveal_strlit("ids");
        reveal_strlit("properties");
        reveal_strlit("sinceState");
    }
}

impl<R: Record> Duplicate for GetRequestArgs<R> {
    fn duplicate(&self) -> (r: Self) {
        let ids = self.ids.duplicate();
        let properties = self.properties.duplicate();
        let since_state = self.since_state.duplicate();
        GetRequestArgs { _marker: PhantomData, ids, properties, since_state }
    }
}

impl<R: Record> Clone for GetRequestArgs<R> {
    fn clone(&self) -> (r: Self)
        ensures
            r.deep_view() == self.deep_view(),
    {
        self.duplicate()
    }
}

impl<R: Record> ToJson for GetRequestArgs<R> {
    /// An object with one key for each field.
    open spec fn encoded(v: GetRequestArgsView) -> JsonValue {
        let o = Seq::empty();
        let o = put_field::<Presence<Vec<String>>>(o, "ids"@, v.ids);
        let o = put_field::<Presence<Vec<String>>>(o, "properties"@, v.properties);
        let o = put_field::<Presence<String>>(o, "sinceState"@, v.since_state);
        JsonValue::Object(o)
    }

    fn to_json(&self) -> (json: Json) {
        let mut d: TextMap<Json> = TextMap::new();
        assert(d.deep_view() =~= Seq::empty());
        self.ids.to_json_field(&mut d, "ids");
        self.properties.to_json_field(&mut d, "properties");
        self.since_state.to_json_field(&mut d, "sinceState");
        proof {
            lemma_object_value(d);
        }
        Json::Object(d)
    }
}

impl<R: Record> FromJson for GetRequestArgs<R> {
    /// The fields are read in the order in which they are declared; the
    /// first that fails gives the error.
    open spec fn decoded(json: JsonValue) -> Result<GetRequestArgsView, ParseErrorView> {
        match json {
            JsonValue::Object(o) => {
                let ids = get_field::<Presence<Vec<String>>>(o, "ids"@);
                let properties = get_field::<Presence<Vec<String>>>(o, "properties"@);
                let since_state = get_field::<Presence<String>>(o, "sinceState"@);
                if ids is Err {
                    Err(ids->Err_0)
                } else if properties is Err {
                    Err(properties->Err_0)
                } else if since_state is Err {
                    Err(since_state->Err_0)
                } else {
                    Ok(
                        GetRequestArgsView {
                            ids: ids->Ok_0,
                            properties: properties->Ok_0,
                            since_state: since_state->Ok_0,
                        },
                    )
                }
            },
            _ => Err(ParseErrorView::InvalidJsonType("GetRequestArgs"@)),
        }
    }

    fn from_json(json: &Json) -> (r: Result<Self, ParseError>) {
        match json {
            Json::Object(o) => {
                proof {
                    lemma_object_value(*o);
                }
                let ids = match <Presence<Vec<String>> as FromJsonField>::from_json_field(
                    o,
                    "ids",
                ) {
                    Ok(v) => v,
                    Err(e) => return Err(e),
                };
                let properties = match <Presence<Vec<String>> as FromJsonField>::from_json_field(
                    o,
                    "properties",
                ) {
                    Ok(v) => v,
                    Err(e) => return Err(e),
                };
                let since_state = match <Presence<String> as FromJsonField>::from_json_field(
                    o,
                    "sinceState",
                ) {
                    Ok(v) => v,
                    Err(e) => return Err(e),
                };
                Ok(GetRequestArgs { _marker: PhantomData, ids, properties, since_state })
            },
            _ => Err(ParseError::InvalidJsonType("GetRequestArgs".to_string())),
        }
    }
}

impl<R: Record> JsonCodec for GetRequestArgs<R> {
    open spec fn valid(v: GetRequestArgsView) -> bool {
        &&& <Presence<Vec<String>> as FieldCodec>::field_valid(v.ids)
        &&& <Presence<Vec<String>> as FieldCodec>::field_valid(v.properties)
        &&& <Presence<String> as FieldCodec>::field_valid(v.since_state)
    }

    proof fn round_trip(v: GetRequestArgsView) {
        let o = Self::encoded(v)->Object_0;
        Self::lemma_wire_names();
        assert(get_field::<Presence<Vec<String>>>(o, "ids"@) == Ok::<
            Presence<Seq<Seq<char>>>,
            ParseErrorView,
        >(v.ids)) by {
            Self::lemma_slots(v, "ids"@);
            <Presence<Vec<String>> as FieldCodec>::field_round_trip(v.ids, "ids"@);
        }
        assert(get_field::<Presence<Vec<String>>>(o, "properties"@) == Ok::<
            Presence<Seq<Seq<char>>>,
            ParseErrorView,
        >(v.properties)) by {
            Self::lemma_slots(v, "properties"@);
            <Presence<Vec<String>> as FieldCodec>::field_round_trip(v.properties, "properties"@);
        }
        assert(get_field::<Presence<String>>(o, "sinceState"@) == Ok::<
            Presence<Seq<char>>,
            ParseErrorView,
        >(v.since_state)) by {
            Self::lemma_slots(v, "sinceState"@);
            <Presence<String> as FieldCodec>::field_round_trip(v.since_state, "sinceState"@);
        }
    }
}

impl<R: Record> GetRequestArgs<R> {
    /// What the written form of `v` holds under `name`.
    pub open spec fn slot(v: GetRequestArgsView, name: Seq<char>) -> Option<JsonValue> {
        if name == "ids"@ {
            <Presence<Vec<String>> as ToJsonField>::field_encoded(v.ids)
        } else if name == "properties"@ {
            <Presence<Vec<String>> as ToJsonField>::field_encoded(v.properties)
        } else if name == "sinceState"@ {
            <Presence<String> as ToJsonField>::field_encoded(v.since_state)
        } else {
            None
        }
    }

    /// The written form holds each field under its wire name and nothing
    /// under any other name.
    pub proof fn lemma_slots(v: GetRequestArgsView, name: Seq<char>)
        ensures
            field_of(Self::encoded(v), name) == Self::slot(v, name),
    {
        Self::lemma_wire_names();
        if name == "ids"@ {
            assert(field_of(Self::encoded(v), name) == Self::slot(v, name)) by {
                broadcast use lemma_lookup_put_slot;

            }
        } else if name == "properties"@ {
            assert(field_of(Self::encoded(v), name) == Self::slot(v, name)) by {
                broadcast use lemma_lookup_put_slot;

            }
        } else if name == "sinceState"@ {
            assert(field_of(Self::encoded(v), name) == Self::slot(v, name)) by {
                broadcast use lemma_lookup_put_slot;

            }
        } else {
            assert(field_of(Self::encoded(v), name) is None) by {
                broadcast use lemma_lookup_put_slot;

            }
        }
    }
}

/// The records that were fetched, the state they are in, and the ids that were
/// not found.
#[derive(Debug, PartialEq)]
pub struct GetResponseArgs<R: Record> {
    pub _marker: PhantomData<R>,
    pub state: String,
    pub list: Option<Vec<R::Partial>>,
    pub not_found: Option<Vec<String>>,
}

/// A value of [`GetResponseArgs`] in contracts.
pub ghost struct GetResponseArgsView<R: Record> {
    pub state: Seq<char>,
    pub list: Option<Seq<<R::Partial as DeepView>::V>>,
    pub not_found: Option<Seq<Seq<char>>>,
}

impl<R: Record> DeepView for GetResponseArgs<R> {
    type V = GetResponseArgsView<R>;

    open spec fn deep_view(&self) -> GetResponseArgsView<R> {
        GetResponseArgsView {
            state: self.state.deep_view(),
            list: self.list.deep_view(),
            not_found: self.not_found.deep_view(),
        }
    }
}

impl<R: Record> GetResponseArgs<R> {
    /// The default value: every field at the default of its type.
    pub open spec fn blank() -> GetResponseArgsView<R> {
        GetResponseArgsView {
            state: Seq::<char>::empty(),
            list: None,
            not_found: None,
        }
    }
}

impl<R: Record> Default for GetResponseArgs<R> {
    fn default() -> (r: Self)
        ensures
            r.deep_view() == Self::blank(),
    {
        let state: String = String::new();
        let list: Option<Vec<R::Partial>> = None;
        let not_found: Option<Vec<String>> = None;
        GetResponseArgs { _marker: PhantomData, state, list, not_found }
    }
}

impl<R: Record> GetResponseArgs<R> {
    /// What tells the wire names of this type apart: the length of each, and
    /// for
    /// names of one length a character in which they differ.
    pub proof fn lemma_wire_names()
        ensures
            "state"@.len() == 5,
            "list"@.len() == 4,
            "notFound"@.len() == 8,
    {
        reveal_strlit("state");
        reveal_strlit("list");
        reveal_strlit("notFound");
    }
}

impl<R: Record> Duplicate for GetResponseArgs<R> {
    fn duplicate(&self) -> (r: Self) {
        let state = self.state.duplicate();
        let list = self.list.duplicate();
        let not_found = self.not_found.duplicate();
        GetResponseArgs { _marker: PhantomData, state, list, not_found }
    }
}

impl<R: Record> Clone for GetResponseArgs<R> {
    fn clone(&self) -> (r: Self)
        ensures
            r.deep_view() == self.deep_view(),
    {
        self.duplicate()
    }
}

impl<R: Record> ToJson for GetResponseArgs<R> {
    /// An object with one key for each field.
    open spec fn encoded(v: GetResponseArgsView<R>) -> JsonValue {
        let o = Seq::empty();
        let o = put_field::<String>(o, "state"@, v.state);
        let o = put_field::<Option<Vec<R::Partial>>>(o, "list"@, v.list);
        let o = put_field::<Option<Vec<String>>>(o, "notFound"@, v.not_found);
        JsonValue::Object(o)
    }

    fn to_json(&self) -> (json: Json) {
        let mut d: TextMap<Json> = TextMap::new();
        assert(d.deep_view() =~= Seq::empty());
        self.state.to_json_field(&mut d, "state");
        self.list.to_json_field(&mut d, "list");
        self.not_found.to_json_field(&mut d, "notFound");
        proof {
            lemma_object_value(d);
        }
        Json::Object(d)
    }
}

impl<R: Record> FromJson for GetResponseArgs<R> {
    /// The fields are read in the order in which they are declared; the
    /// first that fails gives the error.
    open spec fn decoded(json: JsonValue) -> Result<GetResponseArgsView<R>, ParseErrorView> {
        match json {
            JsonValue::Object(o) => {
                let state = get_field::<String>(o, "state"@);
                let list = get_field::<Option<Vec<R::Partial>>>(o, "list"@);
                let not_found = get_field::<Option<Vec<String>>>(o, "notFound"@);
                if state is Err {
                    Err(state->Err_0)
                } else if list is Err {
                    Err(list->Err_0)
                } else if not_found is Err {
                    Err(not_found->Err_0)
                } else {
                    Ok(
                        GetResponseArgsView {
                            state: state->Ok_0,
                            list: list->Ok_0,
                            not_found: not_found->Ok_0,
                        },
                    )
                }
            },
            _ => Err(ParseErrorView::InvalidJsonType("GetResponseArgs"@)),
        }
    }

    fn from_json(json: &Json) -> (r: Result<Self, ParseError>) {
        match json {
            Json::Object(o) => {
                proof {
                    lemma_object_value(*o);
                }
                let state = match <String as FromJsonField>::from_json_field(o, "state") {
                    Ok(v) => v,
                    Err(e) => return Err(e),
                };
                let list = match <Option<Vec<R::Partial>> as FromJsonField>::from_json_field(
                    o,
                    "list",
                ) {
                    Ok(v) => v,
                    Err(e) => return Err(e),
                };
                let not_found = match <Option<Vec<String>> as FromJsonField>::from_json_field(
                    o,
                    "notFound",
                ) {
                    Ok(v) => v,
                    Err(e) => return Err(e),
                };
                Ok(GetResponseArgs { _marker: PhantomData, state, list, not_found })
            },
            _ => Err(ParseError::InvalidJsonType("GetResponseArgs".to_string())),
        }
    }
}

impl<R: Record> JsonCodec for GetResponseArgs<R> {
    open spec fn valid(v: GetResponseArgsView<R>) -> bool {
        &&& <String as FieldCodec>::field_valid(v.state)
        &&& <Option<Vec<R::Partial>> as FieldCodec>::field_valid(v.list)
        &&& <Option<Vec<String>> as FieldCodec>::field_valid(v.not_found)
    }

    proof fn round_trip(v: GetResponseArgsView<R>) {
        let o = Self::encoded(v)->Object_0;
        Self::lemma_wire_names();
        assert(get_field::<String>(o, "state"@) == Ok::<Seq<char>, ParseErrorView>(v.state)) by {
            Self::lemma_slots(v, "state"@);
            <String as FieldCodec>::field_round_trip(v.state, "state"@);
        }
        assert(get_field::<Option<Vec<R::Partial>>>(o, "list"@) == Ok::<
            Option<Seq<<R::Partial as DeepView>::V>>,
            ParseErrorView,
        >(v.list)) by {
            Self::lemma_slots(v, "list"@);
            <Option<Vec<R::Partial>> as FieldCodec>::field_round_trip(v.list, "list"@);
        }
        assert(get_field::<Option<Vec<String>>>(o, "notFound"@) == Ok::<
            Option<Seq<Seq<char>>>,
            ParseErrorView,
        >(v.not_found)) by {
            Self::lemma_slots(v, "notFound"@);
            <Option<Vec<String>> as FieldCodec>::field_round_trip(v.not_found, "notFound"@);
        }
    }
}

impl<R: Record> GetResponseArgs<R> {
    /// What the written form of `v` holds under `name`.
    pub open spec fn slot(v: GetResponseArgsView<R>, name: Seq<char>) -> Option<JsonValue> {
        if name == "state"@ {
            <String as ToJsonField>::field_encoded(v.state)
        } else if name == "list"@ {
            <Option<Vec<R::Partial>> as ToJsonField>::field_encoded(v.list)
        } else if name == "notFound"@ {
            <Option<Vec<String>> as ToJsonField>::field_encoded(v.not_found)
        } else {
            None
        }
    }

    /// The written form holds each field under its wire name and nothing
    /// under any other name.
    pub proof fn lemma_slots(v: GetResponseArgsView<R>, name: Seq<char>)
        ensures
            field_of(Self::encoded(v), name) == Self::slot(v, name),
    {
        Self::lemma_wire_names();
        if name == "state"@ {
            assert(field_of(Self::encoded(v), name) == Self::slot(v, name)) by {
                broadcast use lemma_lookup_put_slot;

            }
        } else if name == "list"@ {
            assert(field_of(Self::encoded(v), name) == Self::slot(v, name)) by {
                broadcast use lemma_lookup_put_slot;

            }
        } else if name == "notFound"@ {
            assert(field_of(Self::encoded(v), name) == Self::slot(v, name)) by {
                broadcast use lemma_lookup_put_slot;

            }
        } else {
            assert(field_of(Self::encoded(v), name) is None) by {
                broadcast use lemma_lookup_put_slot;

            }
        }
    }
}

/// What a client asks for when it fetches the changes since a state.
#[derive(Debug, PartialEq)]
pub struct GetUpdatesRequestArgs<R: Record> {
    pub _marker: PhantomData<R>,
    pub since_state: String,
    pub max_changes: Presence<u64>,
    pub fetch_records: Presence<bool>,
    pub fetch_record_properties: Presence<Vec<String>>,
}

/// A value of [`GetUpdatesRequestArgs`] in contracts.
pub ghost struct GetUpdatesRequestArgsView {
    pub since_state: Seq<char>,
    pub max_changes: Presence<u64>,
    pub fetch_records: Presence<bool>,
    pub fetch_record_properties: Presence<Seq<Seq<char>>>,
}

impl<R: Record> DeepView for GetUpdatesRequestArgs<R> {
    type V = GetUpdatesRequestArgsView;

    open spec fn deep_view(&self) -> GetUpdatesRequestArgsView {
        GetUpdatesRequestArgsView {
            since_state: self.since_state.deep_view(),
            max_changes: self.max_changes.deep_view(),
            fetch_records: self.fetch_records.deep_view(),
            fetch_record_properties: self.fetch_record_properties.deep_view(),
        }
    }
}

impl<R: Record> GetUpdatesRequestArgs<R> {
    /// The default value: every field at the default of its type.
    pub open spec fn blank() -> GetUpdatesRequestArgsView {
        GetUpdatesRequestArgsView {
            since_state: Seq::<char>::empty(),
            max_changes: Presence::Absent,
            fetch_records: Presence::Absent,
            fetch_record_properties: Presence::Absent,
        }
    }
}

impl<R: Record> Default for GetUpdatesRequestArgs<R> {
    fn default() -> (r: Self)
        ensures
            r.deep_view() == Self::blank(),
    {
        let since_state: String = String::new();
        let max_changes: Presence<u64> = Presence::Absent;
        let fetch_records: Presence<bool> = Presence::Absent;
        let fetch_record_properties: Presence<Vec<String>> = Presence::Absent;
        GetUpdatesRequestArgs {
            _marker: PhantomData,
            since_state,
            max_changes,
            fetch_records,
            fetch_record_properties,
        }
    }
}

impl<R: Record> GetUpdatesRequestArgs<R> {
    /// What tells the wire names of this type apart: the length of each, and
    /// for
    /// names of one length a character in which they differ.
    pub proof fn lemma_wire_names()
        ensures
            "sinceState"@.len() == 10,
            "maxChanges"@.len() == 10,
            "fetchRecords"@.len() == 12,
            "fetchRecordProperties"@.len() == 21,
            "sinceState"@[0] == 's',
            "maxChanges"@[0] == 'm',
    {
        reveal_strlit("sinceState");
        reveal_strlit("maxChanges");
        reveal_strlit("fetchRecords");
        reveal_strlit("fetchRecordProperties");
    }
}

impl<R: Record> Duplicate for GetUpdatesRequestArgs<R> {
    fn duplicate(&self) -> (r: Self) {
        let since_state = self.since_state.duplicate();
        let max_changes = self.max_changes.duplicate();
        let fetch_records = self.fetch_records.duplicate();
        let fetch_record_properties = self.fetch_record_properties.duplicate();
        GetUpdatesRequestArgs {
            _marker: PhantomData,
            since_state,
            max_changes,
            fetch_records,
            fetch_record_properties,
        }
    }
}

impl<R: Record> Clone for GetUpdatesRequestArgs<R> {
    fn clone(&self) -> (r: Self)
        ensures
            r.deep_view() == self.deep_view(),
    {
        self.duplicate()
    }
}

impl<R: Record> ToJson for GetUpdatesRequestArgs<R> {
    /// An object with one key for each field.
    open spec fn encoded(v: GetUpdatesRequestArgsView) -> JsonValue {
        let o = Seq::empty();
        let o = put_field::<String>(o, "sinceState"@, v.since_state);
        let o = put_field::<Presence<u64>>(o, "maxChanges"@, v.max_changes);
        let o = put_field::<Presence<bool>>(o, "fetchRecords"@, v.fetch_records);
        let o = put_field::<Presence<Vec<String>>>(
            o,
            "fetchRecordProperties"@,
            v.fetch_record_properties,
        );
        JsonValue::Object(o)
    }

    fn to_json(&self) -> (json: Json) {
        let mut d: TextMap<Json> = TextMap::new();
        assert(d.deep_view() =~= Seq::empty());
        self.since_state.to_json_field(&mut d, "sinceState");
        self.max_changes.to_json_field(&mut d, "maxChanges");
        self.fetch_records.to_json_field(&mut d, "fetchRecords");
        self.fetch_record_properties.to_json_field(&mut d, "fetchRecordProperties");
        proof {
            lemma_object_value(d);
        }
        Json::Object(d)
    }
}

impl<R: Record> FromJson for GetUpdatesRequestArgs<R> {
    /// The fields are read in the order in which they are declared; the
    /// first that fails gives the error.
    open spec fn decoded(json: JsonValue) -> Result<GetUpdatesRequestArgsView, ParseErrorView> {
        match json {
            JsonValue::Object(o) => {
                let since_state = get_field::<String>(o, "sinceState"@);
                let max_changes = get_field::<Presence<u64>>(o, "maxChanges"@);
                let fetch_records = get_field::<Presence<bool>>(o, "fetchRecords"@);
                let fetch_record_properties = get_field::<Presence<Vec<String>>>(
                    o,
                    "fetchRecordProperties"@,
                );
                if since_state is Err {
                    Err(since_state->Err_0)
                } else if max_changes is Err {
                    Err(max_changes->Err_0)
                } else if fetch_records is Err {
                    Err(fetch_records->Err_0)
                } else if fetch_record_properties is Err {
                    Err(fetch_record_properties->Err_0)
                } else {
                    Ok(
                        GetUpdatesRequestArgsView {
                            since_state: since_state->Ok_0,
                            max_changes: max_changes->Ok_0,
                            fetch_records: fetch_records->Ok_0,
                            fetch_record_properties: fetch_record_properties->Ok_0,
                        },
                    )
                }
            },
            _ => Err(ParseErrorView::InvalidJsonType("GetUpdatesRequestArgs"@)),
        }
    }

    fn from_json(json: &Json) -> (r: Result<Self, ParseError>) {
        match json {
            Json::Object(o) => {
                proof {
                    lemma_object_value(*o);
                }
                let since_state = match <String as FromJsonField>::from_json_field(
                    o,
                    "sinceState",
                ) {
                    Ok(v) => v,
                    Err(e) => return Err(e),
                };
                let max_changes = match <Presence<u64> as FromJsonField>::from_json_field(
                    o,
                    "maxChanges",
                ) {
                    Ok(v) => v,
                    Err(e) => return Err(e),
                };
                let fetch_records = match <Presence<bool> as FromJsonField>::from_json_field(
                    o,
                    "fetchRecords",
                ) {
                    Ok(v) => v,
                    Err(e) => return Err(e),
                };
                let fetch_record_properties = match <Presence<Vec<String>> as FromJsonField>::from_json_field(
                    o,
                    "fetchRecordProperties",
                ) {
                    Ok(v) => v,
                    Err(e) => return Err(e),
                };
                Ok(GetUpdatesRequestArgs {
                    _marker: PhantomData,
                    since_state,
                    max_changes,
                    fetch_records,
                    fetch_record_properties,
                })
            },
            _ => Err(ParseError::InvalidJsonType("GetUpdatesRequestArgs".to_string())),
        }
    }
}

impl<R: Record> JsonCodec for GetUpdatesRequestArgs<R> {
    open spec fn valid(v: GetUpdatesRequestArgsView) -> bool {
        &&& <String as FieldCodec>::field_valid(v.since_state)
        &&& <Presence<u64> as FieldCodec>::field_valid(v.max_changes)
        &&& <Presence<bool> as FieldCodec>::field_valid(v.fetch_records)
        &&& <Presence<Vec<String>> as FieldCodec>::field_valid(v.fetch_record_properties)
    }

    proof fn round_trip(v: GetUpdatesRequestArgsView) {
        let o = Self::encoded(v)->Object_0;
        Self::lemma_wire_names();
        assert(get_field::<String>(o, "sinceState"@) == Ok::<
            Seq<char>,
            ParseErrorView,
        >(v.since_state)) by {
            Self::lemma_slots(v, "sinceState"@);
            <String as FieldCodec>::field_round_trip(v.since_state, "sinceState"@);
        }
        assert(get_field::<Presence<u64>>(o, "maxChanges"@) == Ok::<
            Presence<u64>,
            ParseErrorView,
        >(v.max_changes)) by {
            Self::lemma_slots(v, "maxChanges"@);
            <Presence<u64> as FieldCodec>::field_round_trip(v.max_changes, "maxChanges"@);
        }
        assert(get_field::<Presence<bool>>(o, "fetchRecords"@) == Ok::<
            Presence<bool>,
            ParseErrorView,
        >(v.fetch_records)) by {
            Self::lemma_slots(v, "fetchRecords"@);
            <Presence<bool> as FieldCodec>::field_round_trip(v.fetch_records, "fetchRecords"@);
        }
        assert(get_field::<Presence<Vec<String>>>(o, "fetchRecordProperties"@) == Ok::<
            Presence<Seq<Seq<char>>>,
            ParseErrorView,
        >(v.fetch_record_properties)) by {
            Self::lemma_slots(v, "fetchRecordProperties"@);
            <Presence<Vec<String>> as FieldCodec>::field_round_trip(
                v.fetch_record_properties,
                "fetchRecordProperties"@,
            );
        }
    }
}

impl<R: Record> GetUpdatesRequestArgs<R> {
    /// What the written form of `v` holds under `name`.
    pub open spec fn slot(v: GetUpdatesRequestArgsView, name: Seq<char>) -> Option<JsonValue> {
        if name == "sinceState"@ {
            <String as ToJsonField>::field_encoded(v.since_state)
        } else if name == "maxChanges"@ {
            <Presence<u64> as ToJsonField>::field_encoded(v.max_changes)
        } else if name == "fetchRecords"@ {
            <Presence<bool> as ToJsonField>::field_encoded(v.fetch_records)
        } else if name == "fetchRecordProperties"@ {
            <Presence<Vec<String>> as ToJsonField>::field_encoded(v.fetch_record_properties)
        } else {
            None
        }
    }

    /// The written form holds each field under its wire name and nothing
    /// under any other name.
    pub proof fn lemma_slots(v: GetUpdatesRequestArgsView, name: Seq<char>)
        ensures
            field_of(Self::encoded(v), name) == Self::slot(v, name),
    {
        Self::lemma_wire_names();
        if name == "sinceState"@ {
            assert(field_of(Self::encoded(v), name) == Self::slot(v, name)) by {
                broadcast use lemma_lookup_put_slot;

            }
        } else if name == "maxChanges"@ {
            assert(field_of(Self::encoded(v), name) == Self::slot(v, name)) by {
                broadcast use lemma_lookup_put_slot;

            }
        } else if name == "fetchRecords"@ {
            assert(field_of(Self::encoded(v), name) == Self::slot(v, name)) by {
                broadcast use lemma_lookup_put_slot;

            }
        } else if name == "fetchRecordProperties"@ {
            assert(field_of(Self::encoded(v), name) == Self::slot(v, name)) by {
                broadcast use lemma_lookup_put_slot;

            }
        } else {
            assert(field_of(Self::encoded(v), name) is None) by {
                broadcast use lemma_lookup_put_slot;

            }
        }
    }
}

/// The ids of the records that changed and of those that were removed between
/// two states.
#[derive(Debug, PartialEq)]
pub struct GetUpdatesResponseArgs<R: Record> {
    pub _marker: PhantomData<R>,
    pub old_state: String,
    pub new_state: String,
    pub changed: Vec<String>,
    pub removed: Vec<String>,
}

/// A value of [`GetUpdatesResponseArgs`] in contracts.
pub ghost struct GetUpdatesResponseArgsView {
    pub old_state: Seq<char>,
    pub new_state: Seq<char>,
    pub changed: Seq<Seq<char>>,
    pub removed: Seq<Seq<char>>,
}

impl<R: Record> DeepView for GetUpdatesResponseArgs<R> {
    type V = GetUpdatesResponseArgsView;

    open spec fn deep_view(&self) -> GetUpdatesResponseArgsView {
        GetUpdatesResponseArgsView {
            old_state: self.old_state.deep_view(),
            new_state: self.new_state.deep_view(),
            changed: self.changed.deep_view(),
            removed: self.removed.deep_view(),
        }
    }
}

impl<R: Record> GetUpdatesResponseArgs<R> {
    /// The default value: every field at the default of its type.
    pub open spec fn blank() -> GetUpdatesResponseArgsView {
        GetUpdatesResponseArgsView {
            old_state: Seq::<char>::empty(),
            new_state: Seq::<char>::empty(),
            changed: Seq::empty(),
            removed: Seq::empty(),
        }
    }
}

impl<R: Record> Default for GetUpdatesResponseArgs<R> {
    fn default() -> (r: Self)
        ensures
            r.deep_view() == Self::blank(),
    {
        let old_state: String = String::new();
        let new_state: String = String::new();
        let changed: Vec<String> = Vec::new();
        assert(changed.deep_view() =~= Seq::empty());
        let removed: Vec<String> = Vec::new();
        assert(removed.deep_view() =~= Seq::empty());
        GetUpdatesResponseArgs { _marker: PhantomData, old_state, new_state, changed, removed }
    }
}

impl<R: Record> GetUpdatesResponseArgs<R> {
    /// What tells the wire names of this type apart: the length of each, and
    /// for
    /// names of one length a character in which they differ.
    pub proof fn lemma_wire_names()
        ensures
            "oldState"@.len() == 8,
            "newState"@.len() == 8,
            "changed"@.len() == 7,
            "removed"@.len() == 7,
            "changed"@[0] == 'c',
            "removed"@[0] == 'r',
            "oldState"@[0] == 'o',
            "newState"@[0] == 'n',
    {
        reveal_strlit("oldState");
        reveal_strlit("newState");
        reveal_strlit("changed");
        reveal_strlit("removed");
    }
}

impl<R: Record> Duplicate for GetUpdatesResponseArgs<R> {
    fn duplicate(&self) -> (r: Self) {
        let old_state = self.old_state.duplicate();
        let new_state = self.new_state.duplicate();
        let changed = self.changed.duplicate();
        let removed = self.removed.duplicate();
        GetUpdatesResponseArgs { _marker: PhantomData, old_state, new_state, changed, removed }
    }
}

impl<R: Record> Clone for GetUpdatesResponseArgs<R> {
    fn clone(&self) -> (r: Self)
        ensures
            r.deep_view() == self.deep_view(),
    {
        self.duplicate()
    }
}

impl<R: Record> ToJson for GetUpdatesResponseArgs<R> {
    /// An object with one key for each field.
    open spec fn encoded(v: GetUpdatesResponseArgsView) -> JsonValue {
        let o = Seq::empty();
        let o = put_field::<String>(o, "oldState"@, v.old_state);
        let o = put_field::<String>(o, "newState"@, v.new_state);
        let o = put_field::<Vec<String>>(o, "changed"@, v.changed);
        let o = put_field::<Vec<String>>(o, "removed"@, v.removed);
        JsonValue::Object(o)
    }

    fn to_json(&self) -> (json: Json) {
        let mut d: TextMap<Json> = TextMap::new();
        assert(d.deep_view() =~= Seq::empty());
        self.old_state.to_json_field(&mut d, "oldState");
        self.new_state.to_json_field(&mut d, "newState");
        self.changed.to_json_field(&mut d, "changed");
        self.removed.to_json_field(&mut d, "removed");
        proof {
            lemma_object_value(d);
        }
        Json::Object(d)
    }
}

impl<R: Record> FromJson for GetUpdatesResponseArgs<R> {
    /// The fields are read in the order in which they are declared; the
    /// first that fails gives the error.
    open spec fn decoded(json: JsonValue) -> Result<GetUpdatesResponseArgsView, ParseErrorView> {
        match json {
            JsonValue::Object(o) => {
                let old_state = get_field::<String>(o, "oldState"@);
                let new_state = get_field::<String>(o, "newState"@);
                let changed = get_field::<Vec<String>>(o, "changed"@);
                let removed = get_field::<Vec<String>>(o, "removed"@);
                if old_state is Err {
                    Err(old_state->Err_0)
                } else if new_state is Err {
                    Err(new_state->Err_0)
                } else if changed is Err {
                    Err(changed->Err_0)
                } else if removed is Err {
                    Err(removed->Err_0)
                } else {
                    Ok(
                        GetUpdatesResponseArgsView {
                            old_state: old_state->Ok_0,
                            new_state: new_state->Ok_0,
                            changed: changed->Ok_0,
                            removed: removed->Ok_0,
                        },
                    )
                }
            },
            _ => Err(ParseErrorView::InvalidJsonType("GetUpdatesResponseArgs"@)),
        }
    }

    fn from_json(json: &Json) -> (r: Result<Self, ParseError>) {
        match json {
            Json::Object(o) => {
                proof {
                    lemma_object_value(*o);
                }
                let old_state = match <String as FromJsonField>::from_json_field(o, "oldState") {
                    Ok(v) => v,
                    Err(e) => return Err(e),
                };
                let new_state = match <String as FromJsonField>::from_json_field(o, "newState") {
                    Ok(v) => v,
                    Err(e) => return Err(e),
                };
                let changed = match <Vec<String> as FromJsonField>::from_json_field(o, "changed") {
                    Ok(v) => v,
                    Err(e) => return Err(e),
                };
                let removed = match <Vec<String> as FromJsonField>::from_json_field(o, "removed") {
                    Ok(v) => v,
                    Err(e) => return Err(e),
                };
                Ok(GetUpdatesResponseArgs {
                    _marker: PhantomData,
                    old_state,
                    new_state,
                    changed,
                    removed,
                })
            },
            _ => Err(ParseError::InvalidJsonType("GetUpdatesResponseArgs".to_string())),
        }
    }
}

impl<R: Record> JsonCodec for GetUpdatesResponseArgs<R> {
    open spec fn valid(v: GetUpdatesResponseArgsView) -> bool {
        &&& <String as FieldCodec>::field_valid(v.old_state)
        &&& <String as FieldCodec>::field_valid(v.new_state)
        &&& <Vec<String> as FieldCodec>::field_valid(v.changed)
        &&& <Vec<String> as FieldCodec>::field_valid(v.removed)
    }

    proof fn round_trip(v: GetUpdatesResponseArgsView) {
        let o = Self::encoded(v)->Object_0;
        Self::lemma_wire_names();
        assert(get_field::<String>(o, "oldState"@) == Ok::<
            Seq<char>,
            ParseErrorView,
        >(v.old_state)) by {
            Self::lemma_slots(v, "oldState"@);
            <String as FieldCodec>::field_round_trip(v.old_state, "oldState"@);
        }
        assert(get_field::<String>(o, "newState"@) == Ok::<
            Seq<char>,
            ParseErrorView,
        >(v.new_state)) by {
            Self::lemma_slots(v, "newState"@);
            <String as FieldCodec>::field_round_trip(v.new_state, "newState"@);
        }
        assert(get_field::<Vec<String>>(o, "changed"@) == Ok::<
            Seq<Seq<char>>,
            ParseErrorView,
        >(v.changed)) by {
            Self::lemma_slots(v, "changed"@);
            <Vec<String> as FieldCodec>::field_round_trip(v.changed, "changed"@);
        }
        assert(get_field::<Vec<String>>(o, "removed"@) == Ok::<
            Seq<Seq<char>>,
            ParseErrorView,
        >(v.removed)) by {
            Self::lemma_slots(v, "removed"@);
            <Vec<String> as FieldCodec>::field_round_trip(v.removed, "removed"@);
        }
    }
}

impl<R: Record> GetUpdatesResponseArgs<R> {
    /// What the written form of `v` holds under `name`.
    pub open spec fn slot(v: GetUpdatesResponseArgsView, name: Seq<char>) -> Option<JsonValue> {
        if name == "oldState"@ {
            <String as ToJsonField>::field_encoded(v.old_state)
        } else if name == "newState"@ {
            <String as ToJsonField>::field_encoded(v.new_state)
        } else if name == "changed"@ {
            <Vec<String> as ToJsonField>::field_encoded(v.changed)
        } else if name == "removed"@ {
            <Vec<String> as ToJsonField>::field_encoded(v.removed)
        } else {
            None
        }
    }

    /// The written form holds each field under its wire name and nothing
    /// under any other name.
    pub proof fn lemma_slots(v: GetUpdatesResponseArgsView, name: Seq<char>)
        ensures
            field_of(Self::encoded(v), name) == Self::slot(v, name),
    {
        Self::lemma_wire_names();
        if name == "oldState"@ {
            assert(field_of(Self::encoded(v), name) == Self::slot(v, name)) by {
                broadcast use lemma_lookup_put_slot;

            }
        } else if name == "newState"@ {
            assert(field_of(Self::encoded(v), name) == Self::slot(v, name)) by {
                broadcast use lemma_lookup_put_slot;

            }
        } else if name == "changed"@ {
            assert(field_of(Self::encoded(v), name) == Self::slot(v, name)) by {
                broadcast use lemma_lookup_put_slot;

            }
        } else if name == "removed"@ {
            assert(field_of(Self::encoded(v), name) == Self::slot(v, name)) by {
                broadcast use lemma_lookup_put_slot;

            }
        } else {
            assert(field_of(Self::encoded(v), name) is None) by {
                broadcast use lemma_lookup_put_slot;

            }
        }
    }
}

/// The records to create, under keys that the client chose, those to update and
/// those to destroy, by id.
#[derive(Debug, PartialEq)]
pub struct SetRequestArgs<R: Record> {
    pub _marker: PhantomData<R>,
    pub if_in_state: Presence<String>,
    pub create: Presence<TextMap<R::Partial>>,
    pub update: Presence<TextMap<R::Partial>>,
    pub destroy: Presence<Vec<String>>,
}

/// A value of [`SetRequestArgs`] in contracts.
pub ghost struct SetRequestArgsView<R: Record> {
    pub if_in_state: Presence<Seq<char>>,
    pub create: Presence<Seq<(Seq<char>, <R::Partial as DeepView>::V)>>,
    pub update: Presence<Seq<(Seq<char>, <R::Partial as DeepView>::V)>>,
    pub destroy: Presence<Seq<Seq<char>>>,
}

impl<R: Record> DeepView for SetRequestArgs<R> {
    type V = SetRequestArgsView<R>;

    open spec fn deep_view(&self) -> SetRequestArgsView<R> {
        SetRequestArgsView {
            if_in_state: self.if_in_state.deep_view(),
            create: self.create.deep_view(),
            update: self.update.deep_view(),
            destroy: self.destroy.deep_view(),
        }
    }
}

impl<R: Record> SetRequestArgs<R> {
    /// The default value: every field at the default of its type.
    pub open spec fn blank() -> SetRequestArgsView<R> {
        SetRequestArgsView {
            if_in_state: Presence::Absent,
            create: Presence::Absent,
            update: Presence::Absent,
            destroy: Presence::Absent,
        }
    }
}

impl<R: Record> Default for SetRequestArgs<R> {
    fn default() -> (r: Self)
        ensures
            r.deep_view() == Self::blank(),
    {
        let if_in_state: Presence<String> = Presence::Absent;
        let create: Presence<TextMap<R::Partial>> = Presence::Absent;
        let update: Presence<TextMap<R::Partial>> = Presence::Absent;
        let destroy: Presence<Vec<String>> = Presence::Absent;
        SetRequestArgs { _marker: PhantomData, if_in_state, create, update, destroy }
    }
}

impl<R: Record> SetRequestArgs<R> {
    /// What tells the wire names of this type apart: the length of each, and
    /// for
    /// names of one length a character in which they differ.
    pub proof fn lemma_wire_names()
        ensures
            "ifInState"@.len() == 9,
            "create"@.len() == 6,
            "update"@.len() == 6,
            "destroy"@.len() == 7,
            "create"@[0] == 'c',
            "update"@[0] == 'u',
    {
        reveal_strlit("ifInState");
        reveal_strlit("create");
        reveal_strlit("update");
        reveal_strlit("destroy");
    }
}

impl<R: Record> Duplicate for SetRequestArgs<R> {
    fn duplicate(&self) -> (r: Self) {
        let if_in_state = self.if_in_state.duplicate();
        let create = self.create.duplicate();
        let update = self.update.duplicate();
        let destroy = self.destroy.duplicate();
        SetRequestArgs { _marker: PhantomData, if_in_state, create, update, destroy }
    }
}

impl<R: Record> Clone for SetRequestArgs<R> {
    fn clone(&self) -> (r: Self)
        ensures
            r.deep_view() == self.deep_view(),
    {
        self.duplicate()
    }
}

impl<R: Record> ToJson for SetRequestArgs<R> {
    /// An object with one key for each field.
    open spec fn encoded(v: SetRequestArgsView<R>) -> JsonValue {
        let o = Seq::empty();
        let o = put_field::<Presence<String>>(o, "ifInState"@, v.if_in_state);
        let o = put_field::<Presence<TextMap<R::Partial>>>(o, "create"@, v.create);
        let o = put_field::<Presence<TextMap<R::Partial>>>(o, "update"@, v.update);
        let o = put_field::<Presence<Vec<String>>>(o, "destroy"@, v.destroy);
        JsonValue::Object(o)
    }

    fn to_json(&self) -> (json: Json) {
        let mut d: TextMap<Json> = TextMap::new();
        assert(d.deep_view() =~= Seq::empty());
        self.if_in_state.to_json_field(&mut d, "ifInState");
        self.create.to_json_field(&mut d, "create");
        self.update.to_json_field(&mut d, "update");
        self.destroy.to_json_field(&mut d, "destroy");
        proof {
            lemma_object_value(d);
        }
        Json::Object(d)
    }
}

impl<R: Record> FromJson for SetRequestArgs<R> {
    /// The fields are read in the order in which they are declared; the
    /// first that fails gives the error.
    open spec fn decoded(json: JsonValue) -> Result<SetRequestArgsView<R>, ParseErrorView> {
        match json {
            JsonValue::Object(o) => {
                let if_in_state = get_field::<Presence<String>>(o, "ifInState"@);
                let create = get_field::<Presence<TextMap<R::Partial>>>(o, "create"@);
                let update = get_field::<Presence<TextMap<R::Partial>>>(o, "update"@);
                let destroy = get_field::<Presence<Vec<String>>>(o, "destroy"@);
                if if_in_state is Err {
                    Err(if_in_state->Err_0)
                } else if create is Err {
                    Err(create->Err_0)
                } else if update is Err {
                    Err(update->Err_0)
                } else if destroy is Err {
                    Err(destroy->Err_0)
                } else {
                    Ok(
                        SetRequestArgsView {
                            if_in_state: if_in_state->Ok_0,
                            create: create->Ok_0,
                            update: update->Ok_0,
                            destroy: destroy->Ok_0,
                        },
                    )
                }
            },
            _ => Err(ParseErrorView::InvalidJsonType("SetRequestArgs"@)),
        }
    }

    fn from_json(json: &Json) -> (r: Result<Self, ParseError>) {
        match json {
            Json::Object(o) => {
                proof {
                    lemma_object_value(*o);
                }
                let if_in_state = match <Presence<String> as FromJsonField>::from_json_field(
                    o,
                    "ifInState",
                ) {
                    Ok(v) => v,
                    Err(e) => return Err(e),
                };
                let create = match <Presence<TextMap<R::Partial>> as FromJsonField>::from_json_field(
                    o,
                    "create",
                ) {
                    Ok(v) => v,
                    Err(e) => return Err(e),
                };
                let update = match <Presence<TextMap<R::Partial>> as FromJsonField>::from_json_field(
                    o,
                    "update",
                ) {
                    Ok(v) => v,
                    Err(e) => return Err(e),
                };
                let destroy = match <Presence<Vec<String>> as FromJsonField>::from_json_field(
                    o,
                    "destroy",
                ) {
                    Ok(v) => v,
                    Err(e) => return Err(e),
                };
                Ok(SetRequestArgs { _marker: PhantomData, if_in_state, create, update, destroy })
            },
            _ => Err(ParseError::InvalidJsonType("SetRequestArgs".to_string())),
        }
    }
}

impl<R: Record> JsonCodec for SetRequestArgs<R> {
    open spec fn valid(v: SetRequestArgsView<R>) -> bool {
        &&& <Presence<String> as FieldCodec>::field_valid(v.if_in_state)
        &&& <Presence<TextMap<R::Partial>> as FieldCodec>::field_valid(v.create)
        &&& <Presence<TextMap<R::Partial>> as FieldCodec>::field_valid(v.update)
        &&& <Presence<Vec<String>> as FieldCodec>::field_valid(v.destroy)
    }

    proof fn round_trip(v: SetRequestArgsView<R>) {
        let o = Self::encoded(v)->Object_0;
        Self::lemma_wire_names();
        assert(get_field::<Presence<String>>(o, "ifInState"@) == Ok::<
            Presence<Seq<char>>,
            ParseErrorView,
        >(v.if_in_state)) by {
            Self::lemma_slots(v, "ifInState"@);
            <Presence<String> as FieldCodec>::field_round_trip(v.if_in_state, "ifInState"@);
        }
        assert(get_field::<Presence<TextMap<R::Partial>>>(o, "create"@) == Ok::<
            Presence<Seq<(Seq<char>, <R::Partial as DeepView>::V)>>,
            ParseErrorView,
        >(v.create)) by {
            Self::lemma_slots(v, "create"@);
            <Presence<TextMap<R::Partial>> as FieldCodec>::field_round_trip(v.create, "create"@);
        }
        assert(get_field::<Presence<TextMap<R::Partial>>>(o, "update"@) == Ok::<
            Presence<Seq<(Seq<char>, <R::Partial as DeepView>::V)>>,
            ParseErrorView,
        >(v.update)) by {
            Self::lemma_slots(v, "update"@);
            <Presence<TextMap<R::Partial>> as FieldCodec>::field_round_trip(v.update, "update"@);
        }
        assert(get_field::<Presence<Vec<String>>>(o, "destroy"@) == Ok::<
            Presence<Seq<Seq<char>>>,
            ParseErrorView,
        >(v.destroy)) by {
            Self::lemma_slots(v, "destroy"@);
            <Presence<Vec<String>> as FieldCodec>::field_round_trip(v.destroy, "destroy"@);
        }
    }
}

impl<R: Record> SetRequestArgs<R> {
    /// What the written form of `v` holds under `name`.
    pub open spec fn slot(v: SetRequestArgsView<R>, name: Seq<char>) -> Option<JsonValue> {
        if name == "ifInState"@ {
            <Presence<String> as ToJsonField>::field_encoded(v.if_in_state)
        } else if name == "create"@ {
            <Presence<TextMap<R::Partial>> as ToJsonField>::field_encoded(v.create)
        } else if name == "update"@ {
            <Presence<TextMap<R::Partial>> as ToJsonField>::field_encoded(v.update)
        } else if name == "destroy"@ {
            <Presence<Vec<String>> as ToJsonField>::field_encoded(v.destroy)
        } else {
            None
        }
    }

    /// The written form holds each field under its wire name and nothing
    /// under any other name.
    pub proof fn lemma_slots(v: SetRequestArgsView<R>, name: Seq<char>)
        ensures
            field_of(Self::encoded(v), name) == Self::slot(v, name),
    {
        Self::lemma_wire_names();
        if name == "ifInState"@ {
            assert(field_of(Self::encoded(v), name) == Self::slot(v, name)) by {
                broadcast use lemma_lookup_put_slot;

            }
        } else if name == "create"@ {
            assert(field_of(Self::encoded(v), name) == Self::slot(v, name)) by {
                broadcast use lemma_lookup_put_slot;

            }
        } else if name == "update"@ {
            assert(field_of(Self::encoded(v), name) == Self::slot(v, name)) by {
                broadcast use lemma_lookup_put_slot;

            }
        } else if name == "destroy"@ {
            assert(field_of(Self::encoded(v), name) == Self::slot(v, name)) by {
                broadcast use lemma_lookup_put_slot;

            }
        } else {
            assert(field_of(Self::encoded(v), name) is None) by {
                broadcast use lemma_lookup_put_slot;

            }
        }
    }
}

/// What became of a set request: the records created, under the keys of the
/// request, the ids updated and destroyed, and the errors for the rest.
#[derive(Debug, PartialEq)]
pub struct SetResponseArgs<R: Record> {
    pub _marker: PhantomData<R>,
    pub old_state: Option<String>,
    pub new_state: String,
    pub created: TextMap<R::Partial>,
    pub updated: Vec<String>,
    pub destroyed: Vec<String>,
    pub not_created: TextMap<SetError>,
    pub not_updated: TextMap<SetError>,
    pub not_destroyed: TextMap<SetError>,
}

/// A value of [`SetResponseArgs`] in contracts.
pub ghost struct SetResponseArgsView<R: Record> {
    pub old_state: Option<Seq<char>>,
    pub new_state: Seq<char>,
    pub created: Seq<(Seq<char>, <R::Partial as DeepView>::V)>,
    pub updated: Seq<Seq<char>>,
    pub destroyed: Seq<Seq<char>>,
    pub not_created: Seq<(Seq<char>, SetErrorView)>,
    pub not_updated: Seq<(Seq<char>, SetErrorView)>,
    pub not_destroyed: Seq<(Seq<char>, SetErrorView)>,
}

impl<R: Record> DeepView for SetResponseArgs<R> {
    type V = SetResponseArgsView<R>;

    open spec fn deep_view(&self) -> SetResponseArgsView<R> {
        SetResponseArgsView {
            old_state: self.old_state.deep_view(),
            new_state: self.new_state.deep_view(),
            created: self.created.deep_view(),
            updated: self.updated.deep_view(),
            destroyed: self.destroyed.deep_view(),
            not_created: self.not_created.deep_view(),
            not_updated: self.not_updated.deep_view(),
            not_destroyed: self.not_destroyed.deep_view(),
        }
    }
}

impl<R: Record> SetResponseArgs<R> {
    /// The default value: every field at the default of its type.
    pub open spec fn blank() -> SetResponseArgsView<R> {
        SetResponseArgsView {
            old_state: None,
            new_state: Seq::<char>::empty(),
            created: Seq::empty(),
            updated: Seq::empty(),
            destroyed: Seq::empty(),
            not_created: Seq::empty(),
            not_updated: Seq::empty(),
            not_destroyed: Seq::empty(),
        }
    }
}

impl<R: Record> Default for SetResponseArgs<R> {
    fn default() -> (r: Self)
        ensures
            r.deep_view() == Self::blank(),
    {
        let old_state: Option<String> = None;
        let new_state: String = String::new();
        let created: TextMap<R::Partial> = TextMap::new();
        assert(created.deep_view() =~= Seq::empty());
        let updated: Vec<String> = Vec::new();
        assert(updated.deep_view() =~= Seq::empty());
        let destroyed: Vec<String> = Vec::new();
        assert(destroyed.deep_view() =~= Seq::empty());
        let not_created: TextMap<SetError> = TextMap::new();
        assert(not_created.deep_view() =~= Seq::empty());
        let not_updated: TextMap<SetError> = TextMap::new();
        assert(not_updated.deep_view() =~= Seq::empty());
        let not_destroyed: TextMap<SetError> = TextMap::new();
        assert(not_destroyed.deep_view() =~= Seq::empty());
        SetResponseArgs {
            _marker: PhantomData,
            old_state,
            new_state,
            created,
            updated,
            destroyed,
            not_created,
            not_updated,
            not_destroyed,
        }
    }
}

impl<R: Record> SetResponseArgs<R> {
    /// What tells the wire names of this type apart: the length of each, and
    /// for
    /// names of one length a character in which they differ.
    pub proof fn lemma_wire_names()
        ensures
            "oldState"@.len() == 8,
            "newState"@.len() == 8,
            "created"@.len() == 7,
            "updated"@.len() == 7,
            "destroyed"@.len() == 9,
            "notCreated"@.len() == 10,
            "notUpdated"@.len() == 10,
            "notDestroyed"@.len() == 12,
            "created"@[0] == 'c',
            "updated"@[0] == 'u',
            "oldState"@[0] == 'o',
            "newState"@[0] == 'n',
            "notCreated"@[3] == 'C',
            "notUpdated"@[3] == 'U',
    {
        reveal_strlit("oldState");
        reveal_strlit("newState");
        reveal_strlit("created");
        reveal_strlit("updated");
        reveal_strlit("destroyed");
        reveal_strlit("notCreated");
        reveal_strlit("notUpdated");
        reveal_strlit("notDestroyed");
    }
}

impl<R: Record> Duplicate for SetResponseArgs<R> {
    fn duplicate(&self) -> (r: Self) {
        let old_state = self.old_state.duplicate();
        let new_state = self.new_state.duplicate();
        let created = self.created.duplicate();
        let updated = self.updated.duplicate();
        let destroyed = self.destroyed.duplicate();
        let not_created = self.not_created.duplicate();
        let not_updated = self.not_updated.duplicate();
        let not_destroyed = self.not_destroyed.duplicate();
        SetResponseArgs {
            _marker: PhantomData,
            old_state,
            new_state,
            created,
            updated,
            destroyed,
            not_created,
            not_updated,
            not_destroyed,
        }
    }
}

impl<R: Record> Clone for SetResponseArgs<R> {
    fn clone(&self) -> (r: Self)
        ensures
            r.deep_view() == self.deep_view(),
    {
        self.duplicate()
    }
}

impl<R: Record> ToJson for SetResponseArgs<R> {
    /// An object with one key for each field.
    open spec fn encoded(v: SetResponseArgsView<R>) -> JsonValue {
        let o = Seq::empty();
        let o = put_field::<Option<String>>(o, "oldState"@, v.old_state);
        let o = put_field::<String>(o, "newState"@, v.new_state);
        let o = put_field::<TextMap<R::Partial>>(o, "created"@, v.created);
        let o = put_field::<Vec<String>>(o, "updated"@, v.updated);
        let o = put_field::<Vec<String>>(o, "destroyed"@, v.destroyed);
        let o = put_field::<TextMap<SetError>>(o, "notCreated"@, v.not_created);
        let o = put_field::<TextMap<SetError>>(o, "notUpdated"@, v.not_updated);
        let o = put_field::<TextMap<SetError>>(o, "notDestroyed"@, v.not_destroyed);
        JsonValue::Object(o)
    }

    fn to_json(&self) -> (json: Json) {
        let mut d: TextMap<Json> = TextMap::new();
        assert(d.deep_view() =~= Seq::empty());
        self.old_state.to_json_field(&mut d, "oldState");
        self.new_state.to_json_field(&mut d, "newState");
        self.created.to_json_field(&mut d, "created");
        self.updated.to_json_field(&mut d, "updated");
        self.destroyed.to_json_field(&mut d, "destroyed");
        self.not_created.to_json_field(&mut d, "notCreated");
        self.not_updated.to_json_field(&mut d, "notUpdated");
        self.not_destroyed.to_json_field(&mut d, "notDestroyed");
        proof {
            lemma_object_value(d);
        }
        Json::Object(d)
    }
}

impl<R: Record> FromJson for SetResponseArgs<R> {
    /// The fields are read in the order in which they are declared; the
    /// first that fails gives the error.
    open spec fn decoded(json: JsonValue) -> Result<SetResponseArgsView<R>, ParseErrorView> {
        match json {
            JsonValue::Object(o) => {
                let old_state = get_field::<Option<String>>(o, "oldState"@);
                let new_state = get_field::<String>(o, "newState"@);
                let created = get_field::<TextMap<R::Partial>>(o, "created"@);
                let updated = get_field::<Vec<String>>(o, "updated"@);
                let destroyed = get_field::<Vec<String>>(o, "destroyed"@);
                let not_created = get_field::<TextMap<SetError>>(o, "notCreated"@);
                let not_updated = get_field::<TextMap<SetError>>(o, "notUpdated"@);
                let not_destroyed = get_field::<TextMap<SetError>>(o, "notDestroyed"@);
                if old_state is Err {
                    Err(old_state->Err_0)
                } else if new_state is Err {
                    Err(new_state->Err_0)
                } else if created is Err {
                    Err(created->Err_0)
                } else if updated is Err {
                    Err(updated->Err_0)
                } else if destroyed is Err {
                    Err(destroyed->Err_0)
                } else if not_created is Err {
                    Err(not_created->Err_0)
                } else if not_updated is Err {
                    Err(not_updated->Err_0)
                } else if not_destroyed is Err {
                    Err(not_destroyed->Err_0)
                } else {
                    Ok(
                        SetResponseArgsView {
                            old_state: old_state->Ok_0,
                            new_state: new_state->Ok_0,
                            created: created->Ok_0,
                            updated: updated->Ok_0,
                            destroyed: destroyed->Ok_0,
                            not_created: not_created->Ok_0,
                            not_updated: not_updated->Ok_0,
                            not_destroyed: not_destroyed->Ok_0,
                        },
                    )
                }
            },
            _ => Err(ParseErrorView::InvalidJsonType("SetResponseArgs"@)),
        }
    }

    fn from_json(json: &Json) -> (r: Result<Self, ParseError>) {
        match json {
            Json::Object(o) => {
                proof {
                    lemma_object_value(*o);
                }
                let old_state = match <Option<String> as FromJsonField>::from_json_field(
                    o,
                    "oldState",
                ) {
                    Ok(v) => v,
                    Err(e) => return Err(e),
                };
                let new_state = match <String as FromJsonField>::from_json_field(o, "newState") {
                    Ok(v) => v,
                    Err(e) => return Err(e),
                };
                let created = match <TextMap<R::Partial> as FromJsonField>::from_json_field(
                    o,
                    "created",
                ) {
                    Ok(v) => v,
                    Err(e) => return Err(e),
                };
                let updated = match <Vec<String> as FromJsonField>::from_json_field(o, "updated") {
                    Ok(v) => v,
                    Err(e) => return Err(e),
                };
                let destroyed = match <Vec<String> as FromJsonField>::from_json_field(
                    o,
                    "destroyed",
                ) {
                    Ok(v) => v,
                    Err(e) => return Err(e),
                };
                let not_created = match <TextMap<SetError> as FromJsonField>::from_json_field(
                    o,
                    "notCreated",
                ) {
                    Ok(v) => v,
                    Err(e) => return Err(e),
                };
                let not_updated = match <TextMap<SetError> as FromJsonField>::from_json_field(
                    o,
                    "notUpdated",
                ) {
                    Ok(v) => v,
                    Err(e) => return Err(e),
                };
                let not_destroyed = match <TextMap<SetError> as FromJsonField>::from_json_field(
                    o,
                    "notDestroyed",
                ) {
                    Ok(v) => v,
                    Err(e) => return Err(e),
                };
                Ok(SetResponseArgs {
                    _marker: PhantomData,
                    old_state,
                    new_state,
                    created,
                    updated,
                    destroyed,
                    not_created,
                    not_updated,
                    not_destroyed,
                })
            },
            _ => Err(ParseError::InvalidJsonType("SetResponseArgs".to_string())),
        }
    }
}

impl<R: Record> JsonCodec for SetResponseArgs<R> {
    open spec fn valid(v: SetResponseArgsView<R>) -> bool {
        &&& <Option<String> as FieldCodec>::field_valid(v.old_state)
        &&& <String as FieldCodec>::field_valid(v.new_state)
        &&& <TextMap<R::Partial> as FieldCodec>::field_valid(v.created)
        &&& <Vec<String> as FieldCodec>::field_valid(v.updated)
        &&& <Vec<String> as FieldCodec>::field_valid(v.destroyed)
        &&& <TextMap<SetError> as FieldCodec>::field_valid(v.not_created)
        &&& <TextMap<SetError> as FieldCodec>::field_valid(v.not_updated)
        &&& <TextMap<SetError> as FieldCodec>::field_valid(v.not_destroyed)
    }

    proof fn round_trip(v: SetResponseArgsView<R>) {
        let o = Self::encoded(v)->Object_0;
        Self::lemma_wire_names();
        assert(get_field::<Option<String>>(o, "oldState"@) == Ok::<
            Option<Seq<char>>,
            ParseErrorView,
        >(v.old_state)) by {
            Self::lemma_slots(v, "oldState"@);
            <Option<String> as FieldCodec>::field_round_trip(v.old_state, "oldState"@);
        }
        assert(get_field::<String>(o, "newState"@) == Ok::<
            Seq<char>,
            ParseErrorView,
        >(v.new_state)) by {
            Self::lemma_slots(v, "newState"@);
            <String as FieldCodec>::field_round_trip(v.new_state, "newState"@);
        }
        assert(get_field::<TextMap<R::Partial>>(o, "created"@) == Ok::<
            Seq<(Seq<char>, <R::Partial as DeepView>::V)>,
            ParseErrorView,
        >(v.created)) by {
            Self::lemma_slots(v, "created"@);
            <TextMap<R::Partial> as FieldCodec>::field_round_trip(v.created, "created"@);
        }
        assert(get_field::<Vec<String>>(o, "updated"@) == Ok::<
            Seq<Seq<char>>,
            ParseErrorView,
        >(v.updated)) by {
            Self::lemma_slots(v, "updated"@);
            <Vec<String> as FieldCodec>::field_round_trip(v.updated, "updated"@);
        }
        assert(get_field::<Vec<String>>(o, "destroyed"@) == Ok::<
            Seq<Seq<char>>,
            ParseErrorView,
        >(v.destroyed)) by {
            Self::lemma_slots(v, "destroyed"@);
            <Vec<String> as FieldCodec>::field_round_trip(v.destroyed, "destroyed"@);
        }
        assert(get_field::<TextMap<SetError>>(o, "notCreated"@) == Ok::<
            Seq<(Seq<char>, SetErrorView)>,
            ParseErrorView,
        >(v.not_created)) by {
            Self::lemma_slots(v, "notCreated"@);
            <TextMap<SetError> as FieldCodec>::field_round_trip(v.not_created, "notCreated"@);
        }
        assert(get_field::<TextMap<SetError>>(o, "notUpdated"@) == Ok::<
            Seq<(Seq<char>, SetErrorView)>,
            ParseErrorView,
        >(v.not_updated)) by {
            Self::lemma_slots(v, "notUpdated"@);
            <TextMap<SetError> as FieldCodec>::field_round_trip(v.not_updated, "notUpdated"@);
        }
        assert(get_field::<TextMap<SetError>>(o, "notDestroyed"@) == Ok::<
            Seq<(Seq<char>, SetErrorView)>,
            ParseErrorView,
        >(v.not_destroyed)) by {
            Self::lemma_slots(v, "notDestroyed"@);
            <TextMap<SetError> as FieldCodec>::field_round_trip(v.not_destroyed, "notDestroyed"@);
        }
    }
}

impl<R: Record> SetResponseArgs<R> {
    /// What the written form of `v` holds under `name`.
    pub open spec fn slot(v: SetResponseArgsView<R>, name: Seq<char>) -> Option<JsonValue> {
        if name == "oldState"@ {
            <Option<String> as ToJsonField>::field_encoded(v.old_state)
        } else if name == "newState"@ {
            <String as ToJsonField>::field_encoded(v.new_state)
        } else if name == "created"@ {
            <TextMap<R::Partial> as ToJsonField>::field_encoded(v.created)
        } else if name == "updated"@ {
            <Vec<String> as ToJsonField>::field_encoded(v.updated)
        } else if name == "destroyed"@ {
            <Vec<String> as ToJsonField>::field_encoded(v.destroyed)
        } else if name == "notCreated"@ {
            <TextMap<SetError> as ToJsonField>::field_encoded(v.not_created)
        } else if name == "notUpdated"@ {
            <TextMap<SetError> as ToJsonField>::field_encoded(v.not_updated)
        } else if name == "notDestroyed"@ {
            <TextMap<SetError> as ToJsonField>::field_encoded(v.not_destroyed)
        } else {
            None
        }
    }

    /// The written form holds each field under its wire name and nothing
    /// under any other name.
    pub proof fn lemma_slots(v: SetResponseArgsView<R>, name: Seq<char>)
        ensures
            field_of(Self::encoded(v), name) == Self::slot(v, name),
    {
        Self::lemma_wire_names();
        if name == "oldState"@ {
            assert(field_of(Self::encoded(v), name) == Self::slot(v, name)) by {
                broadcast use lemma_lookup_put_slot;

            }
        } else if name == "newState"@ {
            assert(field_of(Self::encoded(v), name) == Self::slot(v, name)) by {
                broadcast use lemma_lookup_put_slot;

            }
        } else if name == "created"@ {
            assert(field_of(Self::encoded(v), name) == Self::slot(v, name)) by {
                broadcast use lemma_lookup_put_slot;

            }
        } else if name == "updated"@ {
            assert(field_of(Self::encoded(v), name) == Self::slot(v, name)) by {
                broadcast use lemma_lookup_put_slot;

            }
        } else if name == "destroyed"@ {
            assert(field_of(Self::encoded(v), name) == Self::slot(v, name)) by {
                broadcast use lemma_lookup_put_slot;

            }
        } else if name == "notCreated"@ {
            assert(field_of(Self::encoded(v), name) == Self::slot(v, name)) by {
                broadcast use lemma_lookup_put_slot;

            }
        } else if name == "notUpdated"@ {
            assert(field_of(Self::encoded(v), name) == Self::slot(v, name)) by {
                broadcast use lemma_lookup_put_slot;

            }
        } else if name == "notDestroyed"@ {
            assert(field_of(Self::encoded(v), name) == Self::slot(v, name)) by {
                broadcast use lemma_lookup_put_slot;

            }
        } else {
            assert(field_of(Self::encoded(v), name) is None) by {
                broadcast use lemma_lookup_put_slot;

            }
        }
    }
}

/// Why a record was not created, updated or destroyed.
#[derive(Clone, Debug, PartialEq)]
pub struct SetError {
    typ: String,
    description: Option<String>,
}

/// A value of [`SetError`] in contracts.
pub ghost struct SetErrorView {
    pub typ: Seq<char>,
    pub description: Option<Seq<char>>,
}

impl DeepView for SetError {
    type V = SetErrorView;

    closed spec fn deep_view(&self) -> SetErrorView {
        SetErrorView {
            typ: self.typ.deep_view(),
            description: self.description.deep_view(),
        }
    }
}

impl SetError {
    /// The default value: every field at the default of its type.
    pub open spec fn blank() -> SetErrorView {
        SetErrorView {
            typ: Seq::<char>::empty(),
            description: None,
        }
    }
}

impl Default for SetError {
    fn default() -> (r: Self)
        ensures
            r.deep_view() == Self::blank(),
    {
        let typ: String = String::new();
        let description: Option<String> = None;
        SetError { typ, description }
    }
}

impl SetError {
    /// What tells the wire names of this type apart: the length of each, and
    /// for
    /// names of one length a character in which they differ.
    pub proof fn lemma_wire_names()
        ensures
            "type"@.len() == 4,
            "description"@.len() == 11,
    {
        reveal_strlit("type");
        reveal_strlit("description");
    }
}

impl Duplicate for SetError {
    fn duplicate(&self) -> (r: Self) {
        let typ = self.typ.duplicate();
        let description = self.description.duplicate();
        SetError { typ, description }
    }
}

impl ToJson for SetError {
    /// An object with one key for each field.
    open spec fn encoded(v: SetErrorView) -> JsonValue {
        let o = Seq::empty();
        let o = put_field::<String>(o, "type"@, v.typ);
        let o = put_field::<Option<String>>(o, "description"@, v.description);
        JsonValue::Object(o)
    }

    fn to_json(&self) -> (json: Json) {
        let mut d: TextMap<Json> = TextMap::new();
        assert(d.deep_view() =~= Seq::empty());
        self.typ.to_json_field(&mut d, "type");
        self.description.to_json_field(&mut d, "description");
        proof {
            lemma_object_value(d);
        }
        Json::Object(d)
    }
}

impl FromJson for SetError {
    /// The fields are read in the order in which they are declared; the
    /// first that fails gives the error.
    open spec fn decoded(json: JsonValue) -> Result<SetErrorView, ParseErrorView> {
        match json {
            JsonValue::Object(o) => {
                let typ = get_field::<String>(o, "type"@);
                let description = get_field::<Option<String>>(o, "description"@);
                if typ is Err {
                    Err(typ->Err_0)
                } else if description is Err {
                    Err(description->Err_0)
                } else {
                    Ok(
                        SetErrorView {
                            typ: typ->Ok_0,
                            description: description->Ok_0,
                        },
                    )
                }
            },
            _ => Err(ParseErrorView::InvalidJsonType("SetError"@)),
        }
    }

    fn from_json(json: &Json) -> (r: Result<Self, ParseError>) {
        match json {
            Json::Object(o) => {
                proof {
                    lemma_object_value(*o);
                }
                let typ = match <String as FromJsonField>::from_json_field(o, "type") {
                    Ok(v) => v,
                    Err(e) => return Err(e),
                };
                let description = match <Option<String> as FromJsonField>::from_json_field(
                    o,
                    "description",
                ) {
                    Ok(v) => v,
                    Err(e) => return Err(e),
                };
                Ok(SetError { typ, description })
            },
            _ => Err(ParseError::InvalidJsonType("SetError".to_string())),
        }
    }
}

impl JsonCodec for SetError {
    open spec fn valid(v: SetErrorView) -> bool {
        &&& <String as FieldCodec>::field_valid(v.typ)
        &&& <Option<String> as FieldCodec>::field_valid(v.description)
    }

    proof fn round_trip(v: SetErrorView) {
        let o = Self::encoded(v)->Object_0;
        Self::lemma_wire_names();
        assert(get_field::<String>(o, "type"@) == Ok::<Seq<char>, ParseErrorView>(v.typ)) by {
            Self::lemma_slots(v, "type"@);
            <String as FieldCodec>::field_round_trip(v.typ, "type"@);
        }
        assert(get_field::<Option<String>>(o, "description"@) == Ok::<
            Option<Seq<char>>,
            ParseErrorView,
        >(v.description)) by {
            Self::lemma_slots(v, "description"@);
            <Option<String> as FieldCodec>::field_round_trip(v.description, "description"@);
        }
    }
}

impl SetError {
    /// What the written form of `v` holds under `name`.
    pub open spec fn slot(v: SetErrorView, name: Seq<char>) -> Option<JsonValue> {
        if name == "type"@ {
            <String as ToJsonField>::field_encoded(v.typ)
        } else if name == "description"@ {
            <Option<String> as ToJsonField>::field_encoded(v.description)
        } else {
            None
        }
    }

    /// The written form holds each field under its wire name and nothing
    /// under any other name.
    pub proof fn lemma_slots(v: SetErrorView, name: Seq<char>)
        ensures
            field_of(Self::encoded(v), name) == Self::slot(v, name),
    {
        Self::lemma_wire_names();
        if name == "type"@ {
            assert(field_of(Self::encoded(v), name) == Self::slot(v, name)) by {
                broadcast use lemma_lookup_put_slot;

            }
        } else if name == "description"@ {
            assert(field_of(Self::encoded(v), name) == Self::slot(v, name)) by {
                broadcast use lemma_lookup_put_slot;

            }
        } else {
            assert(field_of(Self::encoded(v), name) is None) by {
                broadcast use lemma_lookup_put_slot;

            }
        }
    }
}

/// What a server says of a failure, in its own words.
#[derive(Clone, Debug, PartialEq)]
pub struct ErrorDescription(pub String);

impl DeepView for ErrorDescription {
    type V = Seq<char>;

    open spec fn deep_view(&self) -> Seq<char> {
        self.0@
    }
}

impl Duplicate for ErrorDescription {
    fn duplicate(&self) -> (r: Self) {
        ErrorDescription(self.0.clone())
    }
}

impl ToJson for ErrorDescription {
    open spec fn encoded(v: Seq<char>) -> JsonValue {
        JsonValue::String(v)
    }

    fn to_json(&self) -> (json: Json) {
        self.0.to_json()
    }
}

impl FromJson for ErrorDescription {
    open spec fn decoded(json: JsonValue) -> Result<Seq<char>, ParseErrorView> {
        String::decoded(json)
    }

    fn from_json(json: &Json) -> (r: Result<ErrorDescription, ParseError>) {
        match String::from_json(json) {
            Ok(v) => Ok(ErrorDescription(v)),
            Err(e) => Err(e),
        }
    }
}

impl JsonCodec for ErrorDescription {
    open spec fn valid(v: Seq<char>) -> bool {
        true
    }

    proof fn round_trip(v: Seq<char>) {
    }
}

/// The failures of a method call that the protocol names. They come as
/// well-formed responses; three of them can carry a description.
#[derive(Clone, Debug, PartialEq)]
pub enum MethodError {
    UnknownMethod(Presence<ErrorDescription>),
    InvalidArguments(Presence<ErrorDescription>),
    TooManyChanges,
    CannotCalculateChanges,
    StateMismatch,
    AccountNotFound,
    AccountNoMail,
    AccountReadOnly,
    AnchorNotFound,
    NotFound,
    InvalidMailboxes,
    MaxQuotaReached,
    FromAccountNotFound,
    ToAccountNotFound,
    FromAccountNoMail,
    ToAccountNoMail,
    AccountNoContacts,
    AccountNoCalendars,
    UnsupportedSort,
    InternalError(Presence<ErrorDescription>),
}

/// A [`MethodError`] in contracts.
pub ghost enum MethodErrorView {
    UnknownMethod(Presence<Seq<char>>),
    InvalidArguments(Presence<Seq<char>>),
    TooManyChanges,
    CannotCalculateChanges,
    StateMismatch,
    AccountNotFound,
    AccountNoMail,
    AccountReadOnly,
    AnchorNotFound,
    NotFound,
    InvalidMailboxes,
    MaxQuotaReached,
    FromAccountNotFound,
    ToAccountNotFound,
    FromAccountNoMail,
    ToAccountNoMail,
    AccountNoContacts,
    AccountNoCalendars,
    UnsupportedSort,
    InternalError(Presence<Seq<char>>),
}

impl DeepView for MethodError {
    type V = MethodErrorView;

    open spec fn deep_view(&self) -> MethodErrorView {
        match self {
            MethodError::UnknownMethod(d) => MethodErrorView::UnknownMethod(d.deep_view()),
            MethodError::InvalidArguments(d) => MethodErrorView::InvalidArguments(d.deep_view()),
            MethodError::TooManyChanges => MethodErrorView::TooManyChanges,
            MethodError::CannotCalculateChanges => MethodErrorView::CannotCalculateChanges,
            MethodError::StateMismatch => MethodErrorView::StateMismatch,
            MethodError::AccountNotFound => MethodErrorView::AccountNotFound,
            MethodError::AccountNoMail => MethodErrorView::AccountNoMail,
            MethodError::AccountReadOnly => MethodErrorView::AccountReadOnly,
            MethodError::AnchorNotFound => MethodErrorView::AnchorNotFound,
            MethodError::NotFound => MethodErrorView::NotFound,
            MethodError::InvalidMailboxes => MethodErrorView::InvalidMailboxes,
            MethodError::MaxQuotaReached => MethodErrorView::MaxQuotaReached,
            MethodError::FromAccountNotFound => MethodErrorView::FromAccountNotFound,
            MethodError::ToAccountNotFound => MethodErrorView::ToAccountNotFound,
            MethodError::FromAccountNoMail => MethodErrorView::FromAccountNoMail,
            MethodError::ToAccountNoMail => MethodErrorView::ToAccountNoMail,
            MethodError::AccountNoContacts => MethodErrorView::AccountNoContacts,
            MethodError::AccountNoCalendars => MethodErrorView::AccountNoCalendars,
            MethodError::UnsupportedSort => MethodErrorView::UnsupportedSort,
            MethodError::InternalError(d) => MethodErrorView::InternalError(d.deep_view()),
        }
    }
}

impl MethodError {
    /// The token that stands for the kind of error on the wire.
    pub open spec fn token(v: MethodErrorView) -> Seq<char> {
        match v {
            MethodErrorView::UnknownMethod(_) => "unknownMethod"@,
            MethodErrorView::InvalidArguments(_) => "invalidArguments"@,
            MethodErrorView::TooManyChanges => "tooManyChanges"@,
            MethodErrorView::CannotCalculateChanges => "cannotCalculateChanges"@,
            MethodErrorView::StateMismatch => "stateMismatch"@,
            MethodErrorView::AccountNotFound => "accountNotFound"@,
            MethodErrorView::AccountNoMail => "accountNoMail"@,
            MethodErrorView::AccountReadOnly => "accountReadOnly"@,
            MethodErrorView::AnchorNotFound => "anchorNotFound"@,
            MethodErrorView::NotFound => "notFound"@,
            MethodErrorView::InvalidMailboxes => "invalidMailboxes"@,
            MethodErrorView::MaxQuotaReached => "maxQuotaReached"@,
            MethodErrorView::FromAccountNotFound => "fromAccountNotFound"@,
            MethodErrorView::ToAccountNotFound => "toAccountNotFound"@,
            MethodErrorView::FromAccountNoMail => "fromAccountNoMail"@,
            MethodErrorView::ToAccountNoMail => "toAccountNoMail"@,
            MethodErrorView::AccountNoContacts => "accountNoContacts"@,
            MethodErrorView::AccountNoCalendars => "accountNoCalendars"@,
            MethodErrorView::UnsupportedSort => "unsupportedSort"@,
            MethodErrorView::InternalError(_) => "internalError"@,
        }
    }

    /// The description that the error carries: none for the kinds that
    /// cannot carry one.
    pub open spec fn detail(v: MethodErrorView) -> Option<Presence<Seq<char>>> {
        match v {
            MethodErrorView::UnknownMethod(d) => Some(d),
            MethodErrorView::InvalidArguments(d) => Some(d),
            MethodErrorView::InternalError(d) => Some(d),
            _ => None,
        }
    }

    /// A short name for the kind of error.
    pub open spec fn kind_text(v: MethodErrorView) -> Seq<char> {
        match v {
            MethodErrorView::UnknownMethod(_) => "unknown method"@,
            MethodErrorView::InvalidArguments(_) => "invalid arguments for method"@,
            MethodErrorView::TooManyChanges => "number of available changes is higher than requested max"@,
            MethodErrorView::CannotCalculateChanges => "can't calculate changes from supplied state"@,
            MethodErrorView::StateMismatch => "supplied state does not match current state"@,
            MethodErrorView::AccountNotFound => "account not found"@,
            MethodErrorView::AccountNoMail => "account does not contain any mail data"@,
            MethodErrorView::AccountReadOnly => "account is read-only"@,
            MethodErrorView::AnchorNotFound => "requested anchor not found in message list"@,
            MethodErrorView::NotFound => "requested file not found"@,
            MethodErrorView::InvalidMailboxes => "mailbox not found or invalid mailbox combination"@,
            MethodErrorView::MaxQuotaReached => "max quota reached"@,
            MethodErrorView::FromAccountNotFound => "from account not found"@,
            MethodErrorView::ToAccountNotFound => "to account not found"@,
            MethodErrorView::FromAccountNoMail => "from account does not contain any mail data"@,
            MethodErrorView::ToAccountNoMail => "to account does not contain any mail data"@,
            MethodErrorView::AccountNoContacts => "account does not contain any contact data"@,
            MethodErrorView::AccountNoCalendars => "account does not contain any calendar data"@,
            MethodErrorView::UnsupportedSort => "unable to sort on requested properties"@,
            MethodErrorView::InternalError(_) => "internal error"@,
        }
    }

    /// The error with the kind that `token` stands for and, where the kind
    /// carries one, the description read from the object `o`; `None` where
    /// `token` is no token.
    pub open spec fn of_token(token: Seq<char>, o: Seq<(Seq<char>, JsonValue)>) -> Option<
        Result<MethodErrorView, ParseErrorView>,
    > {
        let description = get_field::<Presence<ErrorDescription>>(o, "description"@);
        if token == "unknownMethod"@ {
            Some(
                match description {
                    Ok(d) => Ok(MethodErrorView::UnknownMethod(d)),
                    Err(e) => Err(e),
                },
            )
        } else if token == "invalidArguments"@ {
            Some(
                match description {
                    Ok(d) => Ok(MethodErrorView::InvalidArguments(d)),
                    Err(e) => Err(e),
                },
            )
        } else if token == "tooManyChanges"@ {
            Some(Ok(MethodErrorView::TooManyChanges))
        } else if token == "cannotCalculateChanges"@ {
            Some(Ok(MethodErrorView::CannotCalculateChanges))
        } else if token == "stateMismatch"@ {
            Some(Ok(MethodErrorView::StateMismatch))
        } else if token == "accountNotFound"@ {
            Some(Ok(MethodErrorView::AccountNotFound))
        } else if token == "accountNoMail"@ {
            Some(Ok(MethodErrorView::AccountNoMail))
        } else if token == "accountReadOnly"@ {
            Some(Ok(MethodErrorView::AccountReadOnly))
        } else if token == "anchorNotFound"@ {
            Some(Ok(MethodErrorView::AnchorNotFound))
        } else if token == "notFound"@ {
            Some(Ok(MethodErrorView::NotFound))
        } else if token == "invalidMailboxes"@ {
            Some(Ok(MethodErrorView::InvalidMailboxes))
        } else if token == "maxQuotaReached"@ {
            Some(Ok(MethodErrorView::MaxQuotaReached))
        } else if token == "fromAccountNotFound"@ {
            Some(Ok(MethodErrorView::FromAccountNotFound))
        } else if token == "toAccountNotFound"@ {
            Some(Ok(MethodErrorView::ToAccountNotFound))
        } else if token == "fromAccountNoMail"@ {
            Some(Ok(MethodErrorView::FromAccountNoMail))
        } else if token == "toAccountNoMail"@ {
            Some(Ok(MethodErrorView::ToAccountNoMail))
        } else if token == "accountNoContacts"@ {
            Some(Ok(MethodErrorView::AccountNoContacts))
        } else if token == "accountNoCalendars"@ {
            Some(Ok(MethodErrorView::AccountNoCalendars))
        } else if token == "unsupportedSort"@ {
            Some(Ok(MethodErrorView::UnsupportedSort))
        } else if token == "internalError"@ {
            Some(
                match description {
                    Ok(d) => Ok(MethodErrorView::InternalError(d)),
                    Err(e) => Err(e),
                },
            )
        } else {
            None
        }
    }

    /// What tells the tokens apart: the length of each, and for tokens of
    /// one length a character in which they differ.
    pub proof fn lemma_tokens()
        ensures
            "unknownMethod"@.len() == 13,
            "invalidArguments"@.len() == 16,
            "tooManyChanges"@.len() == 14,
            "cannotCalculateChanges"@.len() == 22,
            "stateMismatch"@.len() == 13,
            "accountNotFound"@.len() == 15,
            "accountNoMail"@.len() == 13,
            "accountReadOnly"@.len() == 15,
            "anchorNotFound"@.len() == 14,
            "notFound"@.len() == 8,
            "invalidMailboxes"@.len() == 16,
            "maxQuotaReached"@.len() == 15,
            "fromAccountNotFound"@.len() == 19,
            "toAccountNotFound"@.len() == 17,
            "fromAccountNoMail"@.len() == 17,
            "toAccountNoMail"@.len() == 15,
            "accountNoContacts"@.len() == 17,
            "accountNoCalendars"@.len() == 18,
            "unsupportedSort"@.len() == 15,
            "internalError"@.len() == 13,
            "unknownMethod"@[0] == 'u',
            "stateMismatch"@[0] == 's',
            "accountNoMail"@[0] == 'a',
            "internalError"@[0] == 'i',
            "tooManyChanges"@[0] == 't',
            "anchorNotFound"@[0] == 'a',
            "accountNotFound"@[7] == 'N',
            "accountReadOnly"@[7] == 'R',
            "maxQuotaReached"@[7] == 'a',
            "toAccountNoMail"@[7] == 'n',
            "unsupportedSort"@[7] == 'r',
            "invalidArguments"@[7] == 'A',
            "invalidMailboxes"@[7] == 'M',
            "toAccountNotFound"@[0] == 't',
            "fromAccountNoMail"@[0] == 'f',
            "accountNoContacts"@[0] == 'a',
    {
        reveal_strlit("unknownMethod");
        reveal_strlit("invalidArguments");
        reveal_strlit("tooManyChanges");
        reveal_strlit("cannotCalculateChanges");
        reveal_strlit("stateMismatch");
        reveal_strlit("accountNotFound");
        reveal_strlit("accountNoMail");
        reveal_strlit("accountReadOnly");
        reveal_strlit("anchorNotFound");
        reveal_strlit("notFound");
        reveal_strlit("invalidMailboxes");
        reveal_strlit("maxQuotaReached");
        reveal_strlit("fromAccountNotFound");
        reveal_strlit("toAccountNotFound");
        reveal_strlit("fromAccountNoMail");
        reveal_strlit("toAccountNoMail");
        reveal_strlit("accountNoContacts");
        reveal_strlit("accountNoCalendars");
        reveal_strlit("unsupportedSort");
        reveal_strlit("internalError");
    }

    /// A short name for the kind of error.
    pub fn description(&self) -> (r: &'static str)
        ensures
            r@ == Self::kind_text(self.deep_view()),
    {
        match self {
            MethodError::UnknownMethod(_) => "unknown method",
            MethodError::InvalidArguments(_) => "invalid arguments for method",
            MethodError::TooManyChanges => "number of available changes is higher than requested max",
            MethodError::CannotCalculateChanges => "can't calculate changes from supplied state",
            MethodError::StateMismatch => "supplied state does not match current state",
            MethodError::AccountNotFound => "account not found",
            MethodError::AccountNoMail => "account does not contain any mail data",
            MethodError::AccountReadOnly => "account is read-only",
            MethodError::AnchorNotFound => "requested anchor not found in message list",
            MethodError::NotFound => "requested file not found",
            MethodError::InvalidMailboxes => "mailbox not found or invalid mailbox combination",
            MethodError::MaxQuotaReached => "max quota reached",
            MethodError::FromAccountNotFound => "from account not found",
            MethodError::ToAccountNotFound => "to account not found",
            MethodError::FromAccountNoMail => "from account does not contain any mail data",
            MethodError::ToAccountNoMail => "to account does not contain any mail data",
            MethodError::AccountNoContacts => "account does not contain any contact data",
            MethodError::AccountNoCalendars => "account does not contain any calendar data",
            MethodError::UnsupportedSort => "unable to sort on requested properties",
            MethodError::InternalError(_) => "internal error",
        }
    }

    /// The error as a message: the name of its kind, with the description
    /// in brackets behind it where it carries one.
    pub fn to_string(&self) -> (r: String)
        ensures
            r@ == match Self::detail(self.deep_view()) {
                Some(Presence::Present(d)) => Self::kind_text(self.deep_view()) + " ("@ + d + ")"@,
                _ => Self::kind_text(self.deep_view()),
            },
    {
        match self {
            MethodError::UnknownMethod(Presence::Present(d)) => {
                String::from_str("unknown method").concat(" (").concat(d.0.as_str()).concat(")")
            },
            MethodError::InvalidArguments(Presence::Present(d)) => {
                String::from_str("invalid arguments for method").concat(" (").concat(d.0.as_str()).concat(")")
            },
            MethodError::InternalError(Presence::Present(d)) => {
                String::from_str("internal error").concat(" (").concat(d.0.as_str()).concat(")")
            },
            e => String::from_str(e.description()),
        }
    }
}

impl Duplicate for MethodError {
    fn duplicate(&self) -> (r: Self) {
        match self {
            MethodError::UnknownMethod(d) => MethodError::UnknownMethod(d.duplicate()),
            MethodError::InvalidArguments(d) => MethodError::InvalidArguments(d.duplicate()),
            MethodError::TooManyChanges => MethodError::TooManyChanges,
            MethodError::CannotCalculateChanges => MethodError::CannotCalculateChanges,
            MethodError::StateMismatch => MethodError::StateMismatch,
            MethodError::AccountNotFound => MethodError::AccountNotFound,
            MethodError::AccountNoMail => MethodError::AccountNoMail,
            MethodError::AccountReadOnly => MethodError::AccountReadOnly,
            MethodError::AnchorNotFound => MethodError::AnchorNotFound,
            MethodError::NotFound => MethodError::NotFound,
            MethodError::InvalidMailboxes => MethodError::InvalidMailboxes,
            MethodError::MaxQuotaReached => MethodError::MaxQuotaReached,
            MethodError::FromAccountNotFound => MethodError::FromAccountNotFound,
            MethodError::ToAccountNotFound => MethodError::ToAccountNotFound,
            MethodError::FromAccountNoMail => MethodError::FromAccountNoMail,
            MethodError::ToAccountNoMail => MethodError::ToAccountNoMail,
            MethodError::AccountNoContacts => MethodError::AccountNoContacts,
            MethodError::AccountNoCalendars => MethodError::AccountNoCalendars,
            MethodError::UnsupportedSort => MethodError::UnsupportedSort,
            MethodError::InternalError(d) => MethodError::InternalError(d.duplicate()),
        }
    }
}

impl ToJson for MethodError {
    /// An object with the token under `type` and, where the error carries
    /// a description that is given, the description under `description`.
    open spec fn encoded(v: MethodErrorView) -> JsonValue {
        let o = put_field::<String>(Seq::empty(), "type"@, Self::token(v));
        match Self::detail(v) {
            Some(d) => JsonValue::Object(
                put_field::<Presence<ErrorDescription>>(o, "description"@, d),
            ),
            None => JsonValue::Object(o),
        }
    }

    fn to_json(&self) -> (json: Json) {
        let mut d: TextMap<Json> = TextMap::new();
        assert(d.deep_view() =~= Seq::empty());
        let token = match self {
            MethodError::UnknownMethod(_) => "unknownMethod",
            MethodError::InvalidArguments(_) => "invalidArguments",
            MethodError::TooManyChanges => "tooManyChanges",
            MethodError::CannotCalculateChanges => "cannotCalculateChanges",
            MethodError::StateMismatch => "stateMismatch",
            MethodError::AccountNotFound => "accountNotFound",
            MethodError::AccountNoMail => "accountNoMail",
            MethodError::AccountReadOnly => "accountReadOnly",
            MethodError::AnchorNotFound => "anchorNotFound",
            MethodError::NotFound => "notFound",
            MethodError::InvalidMailboxes => "invalidMailboxes",
            MethodError::MaxQuotaReached => "maxQuotaReached",
            MethodError::FromAccountNotFound => "fromAccountNotFound",
            MethodError::ToAccountNotFound => "toAccountNotFound",
            MethodError::FromAccountNoMail => "fromAccountNoMail",
            MethodError::ToAccountNoMail => "toAccountNoMail",
            MethodError::AccountNoContacts => "accountNoContacts",
            MethodError::AccountNoCalendars => "accountNoCalendars",
            MethodError::UnsupportedSort => "unsupportedSort",
            MethodError::InternalError(_) => "internalError",
        };
        token.to_string().to_json_field(&mut d, "type");
        match self {
            MethodError::UnknownMethod(desc) | MethodError::InvalidArguments(desc) | MethodError::InternalError(desc) => {
                desc.to_json_field(&mut d, "description");
            },
            _ => {},
        }
        proof {
            lemma_object_value(d);
        }
        Json::Object(d)
    }
}

impl FromJson for MethodError {
    /// The kind is read from `type`, which must be there and hold a token;
    /// the description, for the kinds that carry one, from `description`.
    open spec fn decoded(json: JsonValue) -> Result<MethodErrorView, ParseErrorView> {
        match json {
            JsonValue::Object(o) => match get_field::<String>(o, "type"@) {
                Err(e) => Err(e),
                Ok(token) => match Self::of_token(token, o) {
                    Some(r) => r,
                    None => Err(ParseErrorView::InvalidStructure("MethodError"@)),
                },
            },
            _ => Err(ParseErrorView::InvalidJsonType("MethodError"@)),
        }
    }

    fn from_json(json: &Json) -> (r: Result<MethodError, ParseError>) {
        match json {
            Json::Object(o) => {
                proof {
                    lemma_object_value(*o);
                }
                let typ = match <String as FromJsonField>::from_json_field(o, "type") {
                    Ok(v) => v,
                    Err(e) => return Err(e),
                };
                let token = typ.as_str();
                if same_text(token, "unknownMethod") {
                    match <Presence<ErrorDescription> as FromJsonField>::from_json_field(
                        o,
                        "description",
                    ) {
                        Ok(d) => Ok(MethodError::UnknownMethod(d)),
                        Err(e) => Err(e),
                    }
                } else if same_text(token, "invalidArguments") {
                    match <Presence<ErrorDescription> as FromJsonField>::from_json_field(
                        o,
                        "description",
                    ) {
                        Ok(d) => Ok(MethodError::InvalidArguments(d)),
                        Err(e) => Err(e),
                    }
                } else if same_text(token, "tooManyChanges") {
                    Ok(MethodError::TooManyChanges)
                } else if same_text(token, "cannotCalculateChanges") {
                    Ok(MethodError::CannotCalculateChanges)
                } else if same_text(token, "stateMismatch") {
                    Ok(MethodError::StateMismatch)
                } else if same_text(token, "accountNotFound") {
                    Ok(MethodError::AccountNotFound)
                } else if same_text(token, "accountNoMail") {
                    Ok(MethodError::AccountNoMail)
                } else if same_text(token, "accountReadOnly") {
                    Ok(MethodError::AccountReadOnly)
                } else if same_text(token, "anchorNotFound") {
                    Ok(MethodError::AnchorNotFound)
                } else if same_text(token, "notFound") {
                    Ok(MethodError::NotFound)
                } else if same_text(token, "invalidMailboxes") {
                    Ok(MethodError::InvalidMailboxes)
                } else if same_text(token, "maxQuotaReached") {
                    Ok(MethodError::MaxQuotaReached)
                } else if same_text(token, "fromAccountNotFound") {
                    Ok(MethodError::FromAccountNotFound)
                } else if same_text(token, "toAccountNotFound") {
                    Ok(MethodError::ToAccountNotFound)
                } else if same_text(token, "fromAccountNoMail") {
                    Ok(MethodError::FromAccountNoMail)
                } else if same_text(token, "toAccountNoMail") {
                    Ok(MethodError::ToAccountNoMail)
                } else if same_text(token, "accountNoContacts") {
                    Ok(MethodError::AccountNoContacts)
                } else if same_text(token, "accountNoCalendars") {
                    Ok(MethodError::AccountNoCalendars)
                } else if same_text(token, "unsupportedSort") {
                    Ok(MethodError::UnsupportedSort)
                } else if same_text(token, "internalError") {
                    match <Presence<ErrorDescription> as FromJsonField>::from_json_field(
                        o,
                        "description",
                    ) {
                        Ok(d) => Ok(MethodError::InternalError(d)),
                        Err(e) => Err(e),
                    }
                } else {
                    Err(ParseError::InvalidStructure("MethodError".to_string()))
                }
            },
            _ => Err(ParseError::InvalidJsonType("MethodError".to_string())),
        }
    }
}

impl JsonCodec for MethodError {
    open spec fn valid(v: MethodErrorView) -> bool {
        true
    }

    proof fn round_trip(v: MethodErrorView) {
        broadcast use lemma_lookup_put_slot;

        Self::lemma_tokens();
        reveal_strlit("type");
        reveal_strlit("description");
        assert("type"@.len() != "description"@.len());
        let o = Self::encoded(v)->Object_0;
        assert(get_field::<String>(o, "type"@) == Ok::<Seq<char>, ParseErrorView>(
            Self::token(v),
        ));
        if let Some(d) = Self::detail(v) {
            <Presence<ErrorDescription> as FieldCodec>::field_round_trip(d, "description"@);
            assert(get_field::<Presence<ErrorDescription>>(o, "description"@) == Ok::<
                Presence<Seq<char>>,
                ParseErrorView,
            >(d));
        }
    }
}

/// Calls and responses that carry the id by which the client tells them
/// apart.
pub trait ClientId: DeepView {
    /// The client id of `v`.
    spec fn client_id_of(v: Self::V) -> Seq<char>;

    fn client_id(&self) -> (r: String)
        ensures
            r@ == Self::client_id_of(self.deep_view()),
    ;
}

/// A method call of a client: the arguments of the method and the client id.
#[derive(Clone, Debug, PartialEq)]
pub enum RequestMethod {
    GetCalendars(GetRequestArgs<Calendar>, String),
    GetCalendarUpdates(GetUpdatesRequestArgs<Calendar>, String),
    SetCalendars(SetRequestArgs<Calendar>, String),
    GetCalendarEvents(GetRequestArgs<CalendarEvent>, String),
    GetCalendarEventUpdates(GetUpdatesRequestArgs<CalendarEvent>, String),
    SetCalendarEvents(SetRequestArgs<CalendarEvent>, String),
    GetContacts(GetRequestArgs<Contact>, String),
    GetContactUpdates(GetUpdatesRequestArgs<Contact>, String),
    SetContacts(SetRequestArgs<Contact>, String),
    GetContactGroups(GetRequestArgs<ContactGroup>, String),
    GetContactGroupUpdates(GetUpdatesRequestArgs<ContactGroup>, String),
    SetContactGroups(SetRequestArgs<ContactGroup>, String),
    GetMailboxes(GetRequestArgs<Mailbox>, String),
    GetMailboxUpdates(GetUpdatesRequestArgs<Mailbox>, String),
    SetMailboxes(SetRequestArgs<Mailbox>, String),
    RequestError(MethodError, String),
}

/// A value of [`RequestMethod`] in contracts.
pub ghost enum RequestMethodView {
    GetCalendars(GetRequestArgsView, Seq<char>),
    GetCalendarUpdates(GetUpdatesRequestArgsView, Seq<char>),
    SetCalendars(SetRequestArgsView<Calendar>, Seq<char>),
    GetCalendarEvents(GetRequestArgsView, Seq<char>),
    GetCalendarEventUpdates(GetUpdatesRequestArgsView, Seq<char>),
    SetCalendarEvents(SetRequestArgsView<CalendarEvent>, Seq<char>),
    GetContacts(GetRequestArgsView, Seq<char>),
    GetContactUpdates(GetUpdatesRequestArgsView, Seq<char>),
    SetContacts(SetRequestArgsView<Contact>, Seq<char>),
    GetContactGroups(GetRequestArgsView, Seq<char>),
    GetContactGroupUpdates(GetUpdatesRequestArgsView, Seq<char>),
    SetContactGroups(SetRequestArgsView<ContactGroup>, Seq<char>),
    GetMailboxes(GetRequestArgsView, Seq<char>),
    GetMailboxUpdates(GetUpdatesRequestArgsView, Seq<char>),
    SetMailboxes(SetRequestArgsView<Mailbox>, Seq<char>),
    RequestError(MethodErrorView, Seq<char>),
}

impl DeepView for RequestMethod {
    type V = RequestMethodView;

    open spec fn deep_view(&self) -> RequestMethodView {
        match self {
            RequestMethod::GetCalendars(args, id) => {
                RequestMethodView::GetCalendars(args.deep_view(), id@)
            },
            RequestMethod::GetCalendarUpdates(args, id) => {
                RequestMethodView::GetCalendarUpdates(args.deep_view(), id@)
            },
            RequestMethod::SetCalendars(args, id) => {
                RequestMethodView::SetCalendars(args.deep_view(), id@)
            },
            RequestMethod::GetCalendarEvents(args, id) => {
                RequestMethodView::GetCalendarEvents(args.deep_view(), id@)
            },
            RequestMethod::GetCalendarEventUpdates(args, id) => {
                RequestMethodView::GetCalendarEventUpdates(args.deep_view(), id@)
            },
            RequestMethod::SetCalendarEvents(args, id) => {
                RequestMethodView::SetCalendarEvents(args.deep_view(), id@)
            },
            RequestMethod::GetContacts(args, id) => {
                RequestMethodView::GetContacts(args.deep_view(), id@)
            },
            RequestMethod::GetContactUpdates(args, id) => {
                RequestMethodView::GetContactUpdates(args.deep_view(), id@)
            },
            RequestMethod::SetContacts(args, id) => {
                RequestMethodView::SetContacts(args.deep_view(), id@)
            },
            RequestMethod::GetContactGroups(args, id) => {
                RequestMethodView::GetContactGroups(args.deep_view(), id@)
            },
            RequestMethod::GetContactGroupUpdates(args, id) => {
                RequestMethodView::GetContactGroupUpdates(args.deep_view(), id@)
            },
            RequestMethod::SetContactGroups(args, id) => {
                RequestMethodView::SetContactGroups(args.deep_view(), id@)
            },
            RequestMethod::GetMailboxes(args, id) => {
                RequestMethodView::GetMailboxes(args.deep_view(), id@)
            },
            RequestMethod::GetMailboxUpdates(args, id) => {
                RequestMethodView::GetMailboxUpdates(args.deep_view(), id@)
            },
            RequestMethod::SetMailboxes(args, id) => {
                RequestMethodView::SetMailboxes(args.deep_view(), id@)
            },
            RequestMethod::RequestError(args, id) => {
                RequestMethodView::RequestError(args.deep_view(), id@)
            },
        }
    }
}

impl RequestMethod {
    /// The name of the method on the wire.
    pub open spec fn method_name(v: RequestMethodView) -> Seq<char> {
        match v {
            RequestMethodView::GetCalendars(_, _) => "getCalendars"@,
            RequestMethodView::GetCalendarUpdates(_, _) => "getCalendarUpdates"@,
            RequestMethodView::SetCalendars(_, _) => "setCalendars"@,
            RequestMethodView::GetCalendarEvents(_, _) => "getCalendarEvents"@,
            RequestMethodView::GetCalendarEventUpdates(_, _) => "getCalendarEventUpdates"@,
            RequestMethodView::SetCalendarEvents(_, _) => "setCalendarEvents"@,
            RequestMethodView::GetContacts(_, _) => "getContacts"@,
            RequestMethodView::GetContactUpdates(_, _) => "getContactUpdates"@,
            RequestMethodView::SetContacts(_, _) => "setContacts"@,
            RequestMethodView::GetContactGroups(_, _) => "getContactGroups"@,
            RequestMethodView::GetContactGroupUpdates(_, _) => "getContactGroupUpdates"@,
            RequestMethodView::SetContactGroups(_, _) => "setContactGroups"@,
            RequestMethodView::GetMailboxes(_, _) => "getMailboxes"@,
            RequestMethodView::GetMailboxUpdates(_, _) => "getMailboxUpdates"@,
            RequestMethodView::SetMailboxes(_, _) => "setMailboxes"@,
            RequestMethodView::RequestError(_, _) => "error"@,
        }
    }

    /// The arguments as they are written.
    pub open spec fn arguments(v: RequestMethodView) -> JsonValue {
        match v {
            RequestMethodView::GetCalendars(args, _) => {
                <GetRequestArgs<Calendar> as ToJson>::encoded(args)
            },
            RequestMethodView::GetCalendarUpdates(args, _) => {
                <GetUpdatesRequestArgs<Calendar> as ToJson>::encoded(args)
            },
            RequestMethodView::SetCalendars(args, _) => {
                <SetRequestArgs<Calendar> as ToJson>::encoded(args)
            },
            RequestMethodView::GetCalendarEvents(args, _) => {
                <GetRequestArgs<CalendarEvent> as ToJson>::encoded(args)
            },
            RequestMethodView::GetCalendarEventUpdates(args, _) => {
                <GetUpdatesRequestArgs<CalendarEvent> as ToJson>::encoded(args)
            },
            RequestMethodView::SetCalendarEvents(args, _) => {
                <SetRequestArgs<CalendarEvent> as ToJson>::encoded(args)
            },
            RequestMethodView::GetContacts(args, _) => {
                <GetRequestArgs<Contact> as ToJson>::encoded(args)
            },
            RequestMethodView::GetContactUpdates(args, _) => {
                <GetUpdatesRequestArgs<Contact> as ToJson>::encoded(args)
            },
            RequestMethodView::SetContacts(args, _) => {
                <SetRequestArgs<Contact> as ToJson>::encoded(args)
            },
            RequestMethodView::GetContactGroups(args, _) => {
                <GetRequestArgs<ContactGroup> as ToJson>::encoded(args)
            },
            RequestMethodView::GetContactGroupUpdates(args, _) => {
                <GetUpdatesRequestArgs<ContactGroup> as ToJson>::encoded(args)
            },
            RequestMethodView::SetContactGroups(args, _) => {
                <SetRequestArgs<ContactGroup> as ToJson>::encoded(args)
            },
            RequestMethodView::GetMailboxes(args, _) => {
                <GetRequestArgs<Mailbox> as ToJson>::encoded(args)
            },
            RequestMethodView::GetMailboxUpdates(args, _) => {
                <GetUpdatesRequestArgs<Mailbox> as ToJson>::encoded(args)
            },
            RequestMethodView::SetMailboxes(args, _) => {
                <SetRequestArgs<Mailbox> as ToJson>::encoded(args)
            },
            RequestMethodView::RequestError(args, _) => <MethodError as ToJson>::encoded(args),
        }
    }

    /// Whether `name` is the name of a method of this set.
    pub open spec fn is_method_name(name: Seq<char>) -> bool {
           name == "getCalendars"@
        || name == "getCalendarUpdates"@
        || name == "setCalendars"@
        || name == "getCalendarEvents"@
        || name == "getCalendarEventUpdates"@
        || name == "setCalendarEvents"@
        || name == "getContacts"@
        || name == "getContactUpdates"@
        || name == "setContacts"@
        || name == "getContactGroups"@
        || name == "getContactGroupUpdates"@
        || name == "setContactGroups"@
        || name == "getMailboxes"@
        || name == "getMailboxUpdates"@
        || name == "setMailboxes"@
        || name == "error"@
    }

    /// The call of the method `name` for the client `id`, its arguments
    /// read from `args`. A name that is no method of this set gives no
    /// error: it gives the error variant with `UnknownMethod` and the name,
    /// so that the client id is kept.
    pub open spec fn dispatched(name: Seq<char>, args: JsonValue, id: Seq<char>) -> Result<
        RequestMethodView,
        ParseErrorView,
    > {
        if name == "getCalendars"@ {
            match <GetRequestArgs<Calendar> as FromJson>::decoded(args) {
                Ok(a) => Ok(RequestMethodView::GetCalendars(a, id)),
                Err(e) => Err(e),
            }
        } else if name == "getCalendarUpdates"@ {
            match <GetUpdatesRequestArgs<Calendar> as FromJson>::decoded(args) {
                Ok(a) => Ok(RequestMethodView::GetCalendarUpdates(a, id)),
                Err(e) => Err(e),
            }
        } else if name == "setCalendars"@ {
            match <SetRequestArgs<Calendar> as FromJson>::decoded(args) {
                Ok(a) => Ok(RequestMethodView::SetCalendars(a, id)),
                Err(e) => Err(e),
            }
        } else if name == "getCalendarEvents"@ {
            match <GetRequestArgs<CalendarEvent> as FromJson>::decoded(args) {
                Ok(a) => Ok(RequestMethodView::GetCalendarEvents(a, id)),
                Err(e) => Err(e),
            }
        } else if name == "getCalendarEventUpdates"@ {
            match <GetUpdatesRequestArgs<CalendarEvent> as FromJson>::decoded(args) {
                Ok(a) => Ok(RequestMethodView::GetCalendarEventUpdates(a, id)),
                Err(e) => Err(e),
            }
        } else if name == "setCalendarEvents"@ {
            match <SetRequestArgs<CalendarEvent> as FromJson>::decoded(args) {
                Ok(a) => Ok(RequestMethodView::SetCalendarEvents(a, id)),
                Err(e) => Err(e),
            }
        } else if name == "getContacts"@ {
            match <GetRequestArgs<Contact> as FromJson>::decoded(args) {
                Ok(a) => Ok(RequestMethodView::GetContacts(a, id)),
                Err(e) => Err(e),
            }
        } else if name == "getContactUpdates"@ {
            match <GetUpdatesRequestArgs<Contact> as FromJson>::decoded(args) {
                Ok(a) => Ok(RequestMethodView::GetContactUpdates(a, id)),
                Err(e) => Err(e),
            }
        } else if name == "setContacts"@ {
            match <SetRequestArgs<Contact> as FromJson>::decoded(args) {
                Ok(a) => Ok(RequestMethodView::SetContacts(a, id)),
                Err(e) => Err(e),
            }
        } else if name == "getContactGroups"@ {
            match <GetRequestArgs<ContactGroup> as FromJson>::decoded(args) {
                Ok(a) => Ok(RequestMethodView::GetContactGroups(a, id)),
                Err(e) => Err(e),
            }
        } else if name == "getContactGroupUpdates"@ {
            match <GetUpdatesRequestArgs<ContactGroup> as FromJson>::decoded(args) {
                Ok(a) => Ok(RequestMethodView::GetContactGroupUpdates(a, id)),
                Err(e) => Err(e),
            }
        } else if name == "setContactGroups"@ {
            match <SetRequestArgs<ContactGroup> as FromJson>::decoded(args) {
                Ok(a) => Ok(RequestMethodView::SetContactGroups(a, id)),
                Err(e) => Err(e),
            }
        } else if name == "getMailboxes"@ {
            match <GetRequestArgs<Mailbox> as FromJson>::decoded(args) {
                Ok(a) => Ok(RequestMethodView::GetMailboxes(a, id)),
                Err(e) => Err(e),
            }
        } else if name == "getMailboxUpdates"@ {
            match <GetUpdatesRequestArgs<Mailbox> as FromJson>::decoded(args) {
                Ok(a) => Ok(RequestMethodView::GetMailboxUpdates(a, id)),
                Err(e) => Err(e),
            }
        } else if name == "setMailboxes"@ {
            match <SetRequestArgs<Mailbox> as FromJson>::decoded(args) {
                Ok(a) => Ok(RequestMethodView::SetMailboxes(a, id)),
                Err(e) => Err(e),
            }
        } else if name == "error"@ {
            match <MethodError as FromJson>::decoded(args) {
                Ok(a) => Ok(RequestMethodView::RequestError(a, id)),
                Err(e) => Err(e),
            }
        } else {
            Ok(
                RequestMethodView::RequestError(
                    MethodErrorView::UnknownMethod(Presence::Present(name)),
                    id,
                ),
            )
        }
    }

    /// What tells the method names apart: the length of each, and for
    /// names of one length a character in which they differ.
    pub proof fn lemma_method_names()
        ensures
            "getCalendars"@.len() == 12,
            "getCalendarUpdates"@.len() == 18,
            "setCalendars"@.len() == 12,
            "getCalendarEvents"@.len() == 17,
            "getCalendarEventUpdates"@.len() == 23,
            "setCalendarEvents"@.len() == 17,
            "getContacts"@.len() == 11,
            "getContactUpdates"@.len() == 17,
            "setContacts"@.len() == 11,
            "getContactGroups"@.len() == 16,
            "getContactGroupUpdates"@.len() == 22,
            "setContactGroups"@.len() == 16,
            "getMailboxes"@.len() == 12,
            "getMailboxUpdates"@.len() == 17,
            "setMailboxes"@.len() == 12,
            "error"@.len() == 5,
            "getContacts"@[0] == 'g',
            "setContacts"@[0] == 's',
            "getCalendars"@[0] == 'g',
            "getCalendars"@[3] == 'C',
            "setCalendars"@[0] == 's',
            "setCalendars"@[3] == 'C',
            "getMailboxes"@[0] == 'g',
            "getMailboxes"@[3] == 'M',
            "setMailboxes"@[0] == 's',
            "setMailboxes"@[3] == 'M',
            "getContactGroups"@[0] == 'g',
            "setContactGroups"@[0] == 's',
            "getCalendarEvents"@[0] == 'g',
            "getCalendarEvents"@[5] == 'l',
            "setCalendarEvents"@[0] == 's',
            "setCalendarEvents"@[5] == 'l',
            "getContactUpdates"@[0] == 'g',
            "getContactUpdates"@[5] == 'n',
            "getMailboxUpdates"@[0] == 'g',
            "getMailboxUpdates"@[5] == 'i',
    {
        reveal_strlit("getCalendars");
        reveal_strlit("getCalendarUpdates");
        reveal_strlit("setCalendars");
        reveal_strlit("getCalendarEvents");
        reveal_strlit("getCalendarEventUpdates");
        reveal_strlit("setCalendarEvents");
        reveal_strlit("getContacts");
        reveal_strlit("getContactUpdates");
        reveal_strlit("setContacts");
        reveal_strlit("getContactGroups");
        reveal_strlit("getContactGroupUpdates");
        reveal_strlit("setContactGroups");
        reveal_strlit("getMailboxes");
        reveal_strlit("getMailboxUpdates");
        reveal_strlit("setMailboxes");
        reveal_strlit("error");
    }

    /// A call under a name that is no method of this set is read as the
    /// error variant with `UnknownMethod`, the name as its description and
    /// the client id kept, whatever the arguments hold.
    pub proof fn lemma_unknown_method(name: Seq<char>, args: JsonValue, id: Seq<char>)
        requires
            !Self::is_method_name(name),
        ensures
            <RequestMethod as FromJson>::decoded(
                JsonValue::Array(seq![JsonValue::String(name), args, JsonValue::String(id)]),
            ) == Ok::<RequestMethodView, ParseErrorView>(
                RequestMethodView::RequestError(
                    MethodErrorView::UnknownMethod(Presence::Present(name)),
                    id,
                ),
            ),
    {
    }
}

impl Duplicate for RequestMethod {
    fn duplicate(&self) -> (r: Self) {
        match self {
            RequestMethod::GetCalendars(args, id) => {
                RequestMethod::GetCalendars(args.duplicate(), id.clone())
            },
            RequestMethod::GetCalendarUpdates(args, id) => {
                RequestMethod::GetCalendarUpdates(args.duplicate(), id.clone())
            },
            RequestMethod::SetCalendars(args, id) => {
                RequestMethod::SetCalendars(args.duplicate(), id.clone())
            },
            RequestMethod::GetCalendarEvents(args, id) => {
                RequestMethod::GetCalendarEvents(args.duplicate(), id.clone())
            },
            RequestMethod::GetCalendarEventUpdates(args, id) => {
                RequestMethod::GetCalendarEventUpdates(args.duplicate(), id.clone())
            },
            RequestMethod::SetCalendarEvents(args, id) => {
                RequestMethod::SetCalendarEvents(args.duplicate(), id.clone())
            },
            RequestMethod::GetContacts(args, id) => {
                RequestMethod::GetContacts(args.duplicate(), id.clone())
            },
            RequestMethod::GetContactUpdates(args, id) => {
                RequestMethod::GetContactUpdates(args.duplicate(), id.clone())
            },
            RequestMethod::SetContacts(args, id) => {
                RequestMethod::SetContacts(args.duplicate(), id.clone())
            },
            RequestMethod::GetContactGroups(args, id) => {
                RequestMethod::GetContactGroups(args.duplicate(), id.clone())
            },
            RequestMethod::GetContactGroupUpdates(args, id) => {
                RequestMethod::GetContactGroupUpdates(args.duplicate(), id.clone())
            },
            RequestMethod::SetContactGroups(args, id) => {
                RequestMethod::SetContactGroups(args.duplicate(), id.clone())
            },
            RequestMethod::GetMailboxes(args, id) => {
                RequestMethod::GetMailboxes(args.duplicate(), id.clone())
            },
            RequestMethod::GetMailboxUpdates(args, id) => {
                RequestMethod::GetMailboxUpdates(args.duplicate(), id.clone())
            },
            RequestMethod::SetMailboxes(args, id) => {
                RequestMethod::SetMailboxes(args.duplicate(), id.clone())
            },
            RequestMethod::RequestError(args, id) => {
                RequestMethod::RequestError(args.duplicate(), id.clone())
            },
        }
    }
}

impl ToJson for RequestMethod {
    /// The array of method name, arguments and client id.
    open spec fn encoded(v: RequestMethodView) -> JsonValue {
        JsonValue::Array(
            seq![
                JsonValue::String(Self::method_name(v)),
                Self::arguments(v),
                JsonValue::String(Self::client_id_of(v)),
            ],
        )
    }

    fn to_json(&self) -> (json: Json) {
        let (name, args, id) = match self {
            RequestMethod::GetCalendars(args, id) => ("getCalendars", args.to_json(), id),
            RequestMethod::GetCalendarUpdates(args, id) => {
                ("getCalendarUpdates", args.to_json(), id)
            },
            RequestMethod::SetCalendars(args, id) => ("setCalendars", args.to_json(), id),
            RequestMethod::GetCalendarEvents(args, id) => ("getCalendarEvents", args.to_json(), id),
            RequestMethod::GetCalendarEventUpdates(args, id) => {
                ("getCalendarEventUpdates", args.to_json(), id)
            },
            RequestMethod::SetCalendarEvents(args, id) => ("setCalendarEvents", args.to_json(), id),
            RequestMethod::GetContacts(args, id) => ("getContacts", args.to_json(), id),
            RequestMethod::GetContactUpdates(args, id) => ("getContactUpdates", args.to_json(), id),
            RequestMethod::SetContacts(args, id) => ("setContacts", args.to_json(), id),
            RequestMethod::GetContactGroups(args, id) => ("getContactGroups", args.to_json(), id),
            RequestMethod::GetContactGroupUpdates(args, id) => {
                ("getContactGroupUpdates", args.to_json(), id)
            },
            RequestMethod::SetContactGroups(args, id) => ("setContactGroups", args.to_json(), id),
            RequestMethod::GetMailboxes(args, id) => ("getMailboxes", args.to_json(), id),
            RequestMethod::GetMailboxUpdates(args, id) => ("getMailboxUpdates", args.to_json(), id),
            RequestMethod::SetMailboxes(args, id) => ("setMailboxes", args.to_json(), id),
            RequestMethod::RequestError(args, id) => ("error", args.to_json(), id),
        };
        let mut items: Vec<Json> = Vec::new();
        items.push(Json::String(name.to_string()));
        items.push(args);
        items.push(Json::String(id.clone()));
        proof {
            lemma_array_value(items);
            assert(items.deep_view() =~= Self::encoded(self.deep_view())->Array_0);
        }
        Json::Array(items)
    }
}

impl FromJson for RequestMethod {
    /// An array of three: the method name and the client id, which must be
    /// text, are read first, then the arguments as the method asks.
    open spec fn decoded(json: JsonValue) -> Result<RequestMethodView, ParseErrorView> {
        match json {
            JsonValue::Array(a) => if a.len() != 3 {
                Err(ParseErrorView::InvalidStructure("RequestMethod"@))
            } else {
                match String::decoded(a[0]) {
                    Err(e) => Err(e),
                    Ok(name) => match String::decoded(a[2]) {
                        Err(e) => Err(e),
                        Ok(id) => Self::dispatched(name, a[1], id),
                    },
                }
            },
            _ => Err(ParseErrorView::InvalidJsonType("RequestMethod"@)),
        }
    }

    fn from_json(json: &Json) -> (r: Result<RequestMethod, ParseError>) {
        match json {
            Json::Array(a) => {
                proof {
                    lemma_array_value(*a);
                }
                if a.len() != 3 {
                    return Err(ParseError::InvalidStructure("RequestMethod".to_string()));
                }
                let method = match String::from_json(&a[0]) {
                    Ok(v) => v,
                    Err(e) => return Err(e),
                };
                let client_id = match String::from_json(&a[2]) {
                    Ok(v) => v,
                    Err(e) => return Err(e),
                };
                let name = method.as_str();
                if same_text(name, "getCalendars") {
                    match <GetRequestArgs<Calendar> as FromJson>::from_json(&a[1]) {
                        Ok(args) => Ok(RequestMethod::GetCalendars(args, client_id)),
                        Err(e) => Err(e),
                    }
                } else if same_text(name, "getCalendarUpdates") {
                    match <GetUpdatesRequestArgs<Calendar> as FromJson>::from_json(&a[1]) {
                        Ok(args) => Ok(RequestMethod::GetCalendarUpdates(args, client_id)),
                        Err(e) => Err(e),
                    }
                } else if same_text(name, "setCalendars") {
                    match <SetRequestArgs<Calendar> as FromJson>::from_json(&a[1]) {
                        Ok(args) => Ok(RequestMethod::SetCalendars(args, client_id)),
                        Err(e) => Err(e),
                    }
                } else if same_text(name, "getCalendarEvents") {
                    match <GetRequestArgs<CalendarEvent> as FromJson>::from_json(&a[1]) {
                        Ok(args) => Ok(RequestMethod::GetCalendarEvents(args, client_id)),
                        Err(e) => Err(e),
                    }
                } else if same_text(name, "getCalendarEventUpdates") {
                    match <GetUpdatesRequestArgs<CalendarEvent> as FromJson>::from_json(&a[1]) {
                        Ok(args) => Ok(RequestMethod::GetCalendarEventUpdates(args, client_id)),
                        Err(e) => Err(e),
                    }
                } else if same_text(name, "setCalendarEvents") {
                    match <SetRequestArgs<CalendarEvent> as FromJson>::from_json(&a[1]) {
                        Ok(args) => Ok(RequestMethod::SetCalendarEvents(args, client_id)),
                        Err(e) => Err(e),
                    }
                } else if same_text(name, "getContacts") {
                    match <GetRequestArgs<Contact> as FromJson>::from_json(&a[1]) {
                        Ok(args) => Ok(RequestMethod::GetContacts(args, client_id)),
                        Err(e) => Err(e),
                    }
                } else if same_text(name, "getContactUpdates") {
                    match <GetUpdatesRequestArgs<Contact> as FromJson>::from_json(&a[1]) {
                        Ok(args) => Ok(RequestMethod::GetContactUpdates(args, client_id)),
                        Err(e) => Err(e),
                    }
                } else if same_text(name, "setContacts") {
                    match <SetRequestArgs<Contact> as FromJson>::from_json(&a[1]) {
                        Ok(args) => Ok(RequestMethod::SetContacts(args, client_id)),
                        Err(e) => Err(e),
                    }
                } else if same_text(name, "getContactGroups") {
                    match <GetRequestArgs<ContactGroup> as FromJson>::from_json(&a[1]) {
                        Ok(args) => Ok(RequestMethod::GetContactGroups(args, client_id)),
                        Err(e) => Err(e),
                    }
                } else if same_text(name, "getContactGroupUpdates") {
                    match <GetUpdatesRequestArgs<ContactGroup> as FromJson>::from_json(&a[1]) {
                        Ok(args) => Ok(RequestMethod::GetContactGroupUpdates(args, client_id)),
                        Err(e) => Err(e),
                    }
                } else if same_text(name, "setContactGroups") {
                    match <SetRequestArgs<ContactGroup> as FromJson>::from_json(&a[1]) {
                        Ok(args) => Ok(RequestMethod::SetContactGroups(args, client_id)),
                        Err(e) => Err(e),
                    }
                } else if same_text(name, "getMailboxes") {
                    match <GetRequestArgs<Mailbox> as FromJson>::from_json(&a[1]) {
                        Ok(args) => Ok(RequestMethod::GetMailboxes(args, client_id)),
                        Err(e) => Err(e),
                    }
                } else if same_text(name, "getMailboxUpdates") {
                    match <GetUpdatesRequestArgs<Mailbox> as FromJson>::from_json(&a[1]) {
                        Ok(args) => Ok(RequestMethod::GetMailboxUpdates(args, client_id)),
                        Err(e) => Err(e),
                    }
                } else if same_text(name, "setMailboxes") {
                    match <SetRequestArgs<Mailbox> as FromJson>::from_json(&a[1]) {
                        Ok(args) => Ok(RequestMethod::SetMailboxes(args, client_id)),
                        Err(e) => Err(e),
                    }
                } else if same_text(name, "error") {
                    match <MethodError as FromJson>::from_json(&a[1]) {
                        Ok(args) => Ok(RequestMethod::RequestError(args, client_id)),
                        Err(e) => Err(e),
                    }
                } else {
                    Ok(
                        RequestMethod::RequestError(
                            MethodError::UnknownMethod(
                                Presence::Present(ErrorDescription(method)),
                            ),
                            client_id,
                        ),
                    )
                }
            },
            _ => Err(ParseError::InvalidJsonType("RequestMethod".to_string())),
        }
    }
}

impl JsonCodec for RequestMethod {
    /// The calls whose arguments are valid.
    open spec fn valid(v: RequestMethodView) -> bool {
        match v {
            RequestMethodView::GetCalendars(args, _) => {
                <GetRequestArgs<Calendar> as JsonCodec>::valid(args)
            },
            RequestMethodView::GetCalendarUpdates(args, _) => {
                <GetUpdatesRequestArgs<Calendar> as JsonCodec>::valid(args)
            },
            RequestMethodView::SetCalendars(args, _) => {
                <SetRequestArgs<Calendar> as JsonCodec>::valid(args)
            },
            RequestMethodView::GetCalendarEvents(args, _) => {
                <GetRequestArgs<CalendarEvent> as JsonCodec>::valid(args)
            },
            RequestMethodView::GetCalendarEventUpdates(args, _) => {
                <GetUpdatesRequestArgs<CalendarEvent> as JsonCodec>::valid(args)
            },
            RequestMethodView::SetCalendarEvents(args, _) => {
                <SetRequestArgs<CalendarEvent> as JsonCodec>::valid(args)
            },
            RequestMethodView::GetContacts(args, _) => {
                <GetRequestArgs<Contact> as JsonCodec>::valid(args)
            },
            RequestMethodView::GetContactUpdates(args, _) => {
                <GetUpdatesRequestArgs<Contact> as JsonCodec>::valid(args)
            },
            RequestMethodView::SetContacts(args, _) => {
                <SetRequestArgs<Contact> as JsonCodec>::valid(args)
            },
            RequestMethodView::GetContactGroups(args, _) => {
                <GetRequestArgs<ContactGroup> as JsonCodec>::valid(args)
            },
            RequestMethodView::GetContactGroupUpdates(args, _) => {
                <GetUpdatesRequestArgs<ContactGroup> as JsonCodec>::valid(args)
            },
            RequestMethodView::SetContactGroups(args, _) => {
                <SetRequestArgs<ContactGroup> as JsonCodec>::valid(args)
            },
            RequestMethodView::GetMailboxes(args, _) => {
                <GetRequestArgs<Mailbox> as JsonCodec>::valid(args)
            },
            RequestMethodView::GetMailboxUpdates(args, _) => {
                <GetUpdatesRequestArgs<Mailbox> as JsonCodec>::valid(args)
            },
            RequestMethodView::SetMailboxes(args, _) => {
                <SetRequestArgs<Mailbox> as JsonCodec>::valid(args)
            },
            RequestMethodView::RequestError(args, _) => <MethodError as JsonCodec>::valid(args),
        }
    }

    proof fn round_trip(v: RequestMethodView) {
        Self::lemma_method_names();
        match v {
            RequestMethodView::GetCalendars(args, _) => {
                <GetRequestArgs<Calendar> as JsonCodec>::round_trip(args);
            },
            RequestMethodView::GetCalendarUpdates(args, _) => {
                <GetUpdatesRequestArgs<Calendar> as JsonCodec>::round_trip(args);
            },
            RequestMethodView::SetCalendars(args, _) => {
                <SetRequestArgs<Calendar> as JsonCodec>::round_trip(args);
            },
            RequestMethodView::GetCalendarEvents(args, _) => {
                <GetRequestArgs<CalendarEvent> as JsonCodec>::round_trip(args);
            },
            RequestMethodView::GetCalendarEventUpdates(args, _) => {
                <GetUpdatesRequestArgs<CalendarEvent> as JsonCodec>::round_trip(args);
            },
            RequestMethodView::SetCalendarEvents(args, _) => {
                <SetRequestArgs<CalendarEvent> as JsonCodec>::round_trip(args);
            },
            RequestMethodView::GetContacts(args, _) => {
                <GetRequestArgs<Contact> as JsonCodec>::round_trip(args);
            },
            RequestMethodView::GetContactUpdates(args, _) => {
                <GetUpdatesRequestArgs<Contact> as JsonCodec>::round_trip(args);
            },
            RequestMethodView::SetContacts(args, _) => {
                <SetRequestArgs<Contact> as JsonCodec>::round_trip(args);
            },
            RequestMethodView::GetContactGroups(args, _) => {
                <GetRequestArgs<ContactGroup> as JsonCodec>::round_trip(args);
            },
            RequestMethodView::GetContactGroupUpdates(args, _) => {
                <GetUpdatesRequestArgs<ContactGroup> as JsonCodec>::round_trip(args);
            },
            RequestMethodView::SetContactGroups(args, _) => {
                <SetRequestArgs<ContactGroup> as JsonCodec>::round_trip(args);
            },
            RequestMethodView::GetMailboxes(args, _) => {
                <GetRequestArgs<Mailbox> as JsonCodec>::round_trip(args);
            },
            RequestMethodView::GetMailboxUpdates(args, _) => {
                <GetUpdatesRequestArgs<Mailbox> as JsonCodec>::round_trip(args);
            },
            RequestMethodView::SetMailboxes(args, _) => {
                <SetRequestArgs<Mailbox> as JsonCodec>::round_trip(args);
            },
            RequestMethodView::RequestError(args, _) => {
                <MethodError as JsonCodec>::round_trip(args);
            },
        }
    }
}

impl ClientId for RequestMethod {
    open spec fn client_id_of(v: RequestMethodView) -> Seq<char> {
        match v {
            RequestMethodView::GetCalendars(_, id) => id,
            RequestMethodView::GetCalendarUpdates(_, id) => id,
            RequestMethodView::SetCalendars(_, id) => id,
            RequestMethodView::GetCalendarEvents(_, id) => id,
            RequestMethodView::GetCalendarEventUpdates(_, id) => id,
            RequestMethodView::SetCalendarEvents(_, id) => id,
            RequestMethodView::GetContacts(_, id) => id,
            RequestMethodView::GetContactUpdates(_, id) => id,
            RequestMethodView::SetContacts(_, id) => id,
            RequestMethodView::GetContactGroups(_, id) => id,
            RequestMethodView::GetContactGroupUpdates(_, id) => id,
            RequestMethodView::SetContactGroups(_, id) => id,
            RequestMethodView::GetMailboxes(_, id) => id,
            RequestMethodView::GetMailboxUpdates(_, id) => id,
            RequestMethodView::SetMailboxes(_, id) => id,
            RequestMethodView::RequestError(_, id) => id,
        }
    }

    fn client_id(&self) -> (r: String) {
        match self {
            RequestMethod::GetCalendars(_, id) => id.clone(),
            RequestMethod::GetCalendarUpdates(_, id) => id.clone(),
            RequestMethod::SetCalendars(_, id) => id.clone(),
            RequestMethod::GetCalendarEvents(_, id) => id.clone(),
            RequestMethod::GetCalendarEventUpdates(_, id) => id.clone(),
            RequestMethod::SetCalendarEvents(_, id) => id.clone(),
            RequestMethod::GetContacts(_, id) => id.clone(),
            RequestMethod::GetContactUpdates(_, id) => id.clone(),
            RequestMethod::SetContacts(_, id) => id.clone(),
            RequestMethod::GetContactGroups(_, id) => id.clone(),
            RequestMethod::GetContactGroupUpdates(_, id) => id.clone(),
            RequestMethod::SetContactGroups(_, id) => id.clone(),
            RequestMethod::GetMailboxes(_, id) => id.clone(),
            RequestMethod::GetMailboxUpdates(_, id) => id.clone(),
            RequestMethod::SetMailboxes(_, id) => id.clone(),
            RequestMethod::RequestError(_, id) => id.clone(),
        }
    }
}

/// The response of a server to a method call: its arguments and the client id
/// of the call.
#[derive(Clone, Debug, PartialEq)]
pub enum ResponseMethod {
    Calendars(GetResponseArgs<Calendar>, String),
    CalendarUpdates(GetUpdatesResponseArgs<Calendar>, String),
    CalendarsSet(SetResponseArgs<Calendar>, String),
    CalendarEvents(GetResponseArgs<CalendarEvent>, String),
    CalendarEventUpdates(GetUpdatesResponseArgs<CalendarEvent>, String),
    CalendarEventsSet(SetResponseArgs<CalendarEvent>, String),
    Contacts(GetResponseArgs<Contact>, String),
    ContactUpdates(GetUpdatesResponseArgs<Contact>, String),
    ContactsSet(SetResponseArgs<Contact>, String),
    ContactGroups(GetResponseArgs<ContactGroup>, String),
    ContactGroupUpdates(GetUpdatesResponseArgs<ContactGroup>, String),
    ContactGroupsSet(SetResponseArgs<ContactGroup>, String),
    Mailboxes(GetResponseArgs<Mailbox>, String),
    MailboxUpdates(GetUpdatesResponseArgs<Mailbox>, String),
    MailboxesSet(SetResponseArgs<Mailbox>, String),
    ResponseError(MethodError, String),
}

/// A value of [`ResponseMethod`] in contracts.
pub ghost enum ResponseMethodView {
    Calendars(GetResponseArgsView<Calendar>, Seq<char>),
    CalendarUpdates(GetUpdatesResponseArgsView, Seq<char>),
    CalendarsSet(SetResponseArgsView<Calendar>, Seq<char>),
    CalendarEvents(GetResponseArgsView<CalendarEvent>, Seq<char>),
    CalendarEventUpdates(GetUpdatesResponseArgsView, Seq<char>),
    CalendarEventsSet(SetResponseArgsView<CalendarEvent>, Seq<char>),
    Contacts(GetResponseArgsView<Contact>, Seq<char>),
    ContactUpdates(GetUpdatesResponseArgsView, Seq<char>),
    ContactsSet(SetResponseArgsView<Contact>, Seq<char>),
    ContactGroups(GetResponseArgsView<ContactGroup>, Seq<char>),
    ContactGroupUpdates(GetUpdatesResponseArgsView, Seq<char>),
    ContactGroupsSet(SetResponseArgsView<ContactGroup>, Seq<char>),
    Mailboxes(GetResponseArgsView<Mailbox>, Seq<char>),
    MailboxUpdates(GetUpdatesResponseArgsView, Seq<char>),
    MailboxesSet(SetResponseArgsView<Mailbox>, Seq<char>),
    ResponseError(MethodErrorView, Seq<char>),
}

impl DeepView for ResponseMethod {
    type V = ResponseMethodView;

    open spec fn deep_view(&self) -> ResponseMethodView {
        match self {
            ResponseMethod::Calendars(args, id) => {
                ResponseMethodView::Calendars(args.deep_view(), id@)
            },
            ResponseMethod::CalendarUpdates(args, id) => {
                ResponseMethodView::CalendarUpdates(args.deep_view(), id@)
            },
            ResponseMethod::CalendarsSet(args, id) => {
                ResponseMethodView::CalendarsSet(args.deep_view(), id@)
            },
            ResponseMethod::CalendarEvents(args, id) => {
                ResponseMethodView::CalendarEvents(args.deep_view(), id@)
            },
            ResponseMethod::CalendarEventUpdates(args, id) => {
                ResponseMethodView::CalendarEventUpdates(args.deep_view(), id@)
            },
            ResponseMethod::CalendarEventsSet(args, id) => {
                ResponseMethodView::CalendarEventsSet(args.deep_view(), id@)
            },
            ResponseMethod::Contacts(args, id) => {
                ResponseMethodView::Contacts(args.deep_view(), id@)
            },
            ResponseMethod::ContactUpdates(args, id) => {
                ResponseMethodView::ContactUpdates(args.deep_view(), id@)
            },
            ResponseMethod::ContactsSet(args, id) => {
                ResponseMethodView::ContactsSet(args.deep_view(), id@)
            },
            ResponseMethod::ContactGroups(args, id) => {
                ResponseMethodView::ContactGroups(args.deep_view(), id@)
            },
            ResponseMethod::ContactGroupUpdates(args, id) => {
                ResponseMethodView::ContactGroupUpdates(args.deep_view(), id@)
            },
            ResponseMethod::ContactGroupsSet(args, id) => {
                ResponseMethodView::ContactGroupsSet(args.deep_view(), id@)
            },
            ResponseMethod::Mailboxes(args, id) => {
                ResponseMethodView::Mailboxes(args.deep_view(), id@)
            },
            ResponseMethod::MailboxUpdates(args, id) => {
                ResponseMethodView::MailboxUpdates(args.deep_view(), id@)
            },
            ResponseMethod::MailboxesSet(args, id) => {
                ResponseMethodView::MailboxesSet(args.deep_view(), id@)
            },
            ResponseMethod::ResponseError(args, id) => {
                ResponseMethodView::ResponseError(args.deep_view(), id@)
            },
        }
    }
}

impl ResponseMethod {
    /// The name of the method on the wire.
    pub open spec fn method_name(v: ResponseMethodView) -> Seq<char> {
        match v {
            ResponseMethodView::Calendars(_, _) => "calendars"@,
            ResponseMethodView::CalendarUpdates(_, _) => "calendarUpdates"@,
            ResponseMethodView::CalendarsSet(_, _) => "calendarsSet"@,
            ResponseMethodView::CalendarEvents(_, _) => "calendarEvents"@,
            ResponseMethodView::CalendarEventUpdates(_, _) => "calendarEventUpdates"@,
            ResponseMethodView::CalendarEventsSet(_, _) => "calendarEventsSet"@,
            ResponseMethodView::Contacts(_, _) => "contacts"@,
            ResponseMethodView::ContactUpdates(_, _) => "contactUpdates"@,
            ResponseMethodView::ContactsSet(_, _) => "contactsSet"@,
            ResponseMethodView::ContactGroups(_, _) => "contactGroups"@,
            ResponseMethodView::ContactGroupUpdates(_, _) => "contactGroupUpdates"@,
            ResponseMethodView::ContactGroupsSet(_, _) => "contactGroupsSet"@,
            ResponseMethodView::Mailboxes(_, _) => "mailboxes"@,
            ResponseMethodView::MailboxUpdates(_, _) => "mailboxUpdates"@,
            ResponseMethodView::MailboxesSet(_, _) => "mailboxesSet"@,
            ResponseMethodView::ResponseError(_, _) => "error"@,
        }
    }

    /// The arguments as they are written.
    pub open spec fn arguments(v: ResponseMethodView) -> JsonValue {
        match v {
            ResponseMethodView::Calendars(args, _) => {
                <GetResponseArgs<Calendar> as ToJson>::encoded(args)
            },
            ResponseMethodView::CalendarUpdates(args, _) => {
                <GetUpdatesResponseArgs<Calendar> as ToJson>::encoded(args)
            },
            ResponseMethodView::CalendarsSet(args, _) => {
                <SetResponseArgs<Calendar> as ToJson>::encoded(args)
            },
            ResponseMethodView::CalendarEvents(args, _) => {
                <GetResponseArgs<CalendarEvent> as ToJson>::encoded(args)
            },
            ResponseMethodView::CalendarEventUpdates(args, _) => {
                <GetUpdatesResponseArgs<CalendarEvent> as ToJson>::encoded(args)
            },
            ResponseMethodView::CalendarEventsSet(args, _) => {
                <SetResponseArgs<CalendarEvent> as ToJson>::encoded(args)
            },
            ResponseMethodView::Contacts(args, _) => {
                <GetResponseArgs<Contact> as ToJson>::encoded(args)
            },
            ResponseMethodView::ContactUpdates(args, _) => {
                <GetUpdatesResponseArgs<Contact> as ToJson>::encoded(args)
            },
            ResponseMethodView::ContactsSet(args, _) => {
                <SetResponseArgs<Contact> as ToJson>::encoded(args)
            },
            ResponseMethodView::ContactGroups(args, _) => {
                <GetResponseArgs<ContactGroup> as ToJson>::encoded(args)
            },
            ResponseMethodView::ContactGroupUpdates(args, _) => {
                <GetUpdatesResponseArgs<ContactGroup> as ToJson>::encoded(args)
            },
            ResponseMethodView::ContactGroupsSet(args, _) => {
                <SetResponseArgs<ContactGroup> as ToJson>::encoded(args)
            },
            ResponseMethodView::Mailboxes(args, _) => {
                <GetResponseArgs<Mailbox> as ToJson>::encoded(args)
            },
            ResponseMethodView::MailboxUpdates(args, _) => {
                <GetUpdatesResponseArgs<Mailbox> as ToJson>::encoded(args)
            },
            ResponseMethodView::MailboxesSet(args, _) => {
                <SetResponseArgs<Mailbox> as ToJson>::encoded(args)
            },
            ResponseMethodView::ResponseError(args, _) => <MethodError as ToJson>::encoded(args),
        }
    }

    /// Whether `name` is the name of a method of this set.
    pub open spec fn is_method_name(name: Seq<char>) -> bool {
           name == "calendars"@
        || name == "calendarUpdates"@
        || name == "calendarsSet"@
        || name == "calendarEvents"@
        || name == "calendarEventUpdates"@
        || name == "calendarEventsSet"@
        || name == "contacts"@
        || name == "contactUpdates"@
        || name == "contactsSet"@
        || name == "contactGroups"@
        || name == "contactGroupUpdates"@
        || name == "contactGroupsSet"@
        || name == "mailboxes"@
        || name == "mailboxUpdates"@
        || name == "mailboxesSet"@
        || name == "error"@
    }

    /// The call of the method `name` for the client `id`, its arguments
    /// read from `args`. A name that is no method of this set gives no
    /// error: it gives the error variant with `UnknownMethod` and the name,
    /// so that the client id is kept.
    pub open spec fn dispatched(name: Seq<char>, args: JsonValue, id: Seq<char>) -> Result<
        ResponseMethodView,
        ParseErrorView,
    > {
        if name == "calendars"@ {
            match <GetResponseArgs<Calendar> as FromJson>::decoded(args) {
                Ok(a) => Ok(ResponseMethodView::Calendars(a, id)),
                Err(e) => Err(e),
            }
        } else if name == "calendarUpdates"@ {
            match <GetUpdatesResponseArgs<Calendar> as FromJson>::decoded(args) {
                Ok(a) => Ok(ResponseMethodView::CalendarUpdates(a, id)),
                Err(e) => Err(e),
            }
        } else if name == "calendarsSet"@ {
            match <SetResponseArgs<Calendar> as FromJson>::decoded(args) {
                Ok(a) => Ok(ResponseMethodView::CalendarsSet(a, id)),
                Err(e) => Err(e),
            }
        } else if name == "calendarEvents"@ {
            match <GetResponseArgs<CalendarEvent> as FromJson>::decoded(args) {
                Ok(a) => Ok(ResponseMethodView::CalendarEvents(a, id)),
                Err(e) => Err(e),
            }
        } else if name == "calendarEventUpdates"@ {
            match <GetUpdatesResponseArgs<CalendarEvent> as FromJson>::decoded(args) {
                Ok(a) => Ok(ResponseMethodView::CalendarEventUpdates(a, id)),
                Err(e) => Err(e),
            }
        } else if name == "calendarEventsSet"@ {
            match <SetResponseArgs<CalendarEvent> as FromJson>::decoded(args) {
                Ok(a) => Ok(ResponseMethodView::CalendarEventsSet(a, id)),
                Err(e) => Err(e),
            }
        } else if name == "contacts"@ {
            match <GetResponseArgs<Contact> as FromJson>::decoded(args) {
                Ok(a) => Ok(ResponseMethodView::Contacts(a, id)),
                Err(e) => Err(e),
            }
        } else if name == "contactUpdates"@ {
            match <GetUpdatesResponseArgs<Contact> as FromJson>::decoded(args) {
                Ok(a) => Ok(ResponseMethodView::ContactUpdates(a, id)),
                Err(e) => Err(e),
            }
        } else if name == "contactsSet"@ {
            match <SetResponseArgs<Contact> as FromJson>::decoded(args) {
                Ok(a) => Ok(ResponseMethodView::ContactsSet(a, id)),
                Err(e) => Err(e),
            }
        } else if name == "contactGroups"@ {
            match <GetResponseArgs<ContactGroup> as FromJson>::decoded(args) {
                Ok(a) => Ok(ResponseMethodView::ContactGroups(a, id)),
                Err(e) => Err(e),
            }
        } else if name == "contactGroupUpdates"@ {
            match <GetUpdatesResponseArgs<ContactGroup> as FromJson>::decoded(args) {
                Ok(a) => Ok(ResponseMethodView::ContactGroupUpdates(a, id)),
                Err(e) => Err(e),
            }
        } else if name == "contactGroupsSet"@ {
            match <SetResponseArgs<ContactGroup> as FromJson>::decoded(args) {
                Ok(a) => Ok(ResponseMethodView::ContactGroupsSet(a, id)),
                Err(e) => Err(e),
            }
        } else if name == "mailboxes"@ {
            match <GetResponseArgs<Mailbox> as FromJson>::decoded(args) {
                Ok(a) => Ok(ResponseMethodView::Mailboxes(a, id)),
                Err(e) => Err(e),
            }
        } else if name == "mailboxUpdates"@ {
            match <GetUpdatesResponseArgs<Mailbox> as FromJson>::decoded(args) {
                Ok(a) => Ok(ResponseMethodView::MailboxUpdates(a, id)),
                Err(e) => Err(e),
            }
        } else if name == "mailboxesSet"@ {
            match <SetResponseArgs<Mailbox> as FromJson>::decoded(args) {
                Ok(a) => Ok(ResponseMethodView::MailboxesSet(a, id)),
                Err(e) => Err(e),
            }
        } else if name == "error"@ {
            match <MethodError as FromJson>::decoded(args) {
                Ok(a) => Ok(ResponseMethodView::ResponseError(a, id)),
                Err(e) => Err(e),
            }
        } else {
            Ok(
                ResponseMethodView::ResponseError(
                    MethodErrorView::UnknownMethod(Presence::Present(name)),
                    id,
                ),
            )
        }
    }

    /// What tells the method names apart: the length of each, and for
    /// names of one length a character in which they differ.
    pub proof fn lemma_method_names()
        ensures
            "calendars"@.len() == 9,
            "calendarUpdates"@.len() == 15,
            "calendarsSet"@.len() == 12,
            "calendarEvents"@.len() == 14,
            "calendarEventUpdates"@.len() == 20,
            "calendarEventsSet"@.len() == 17,
            "contacts"@.len() == 8,
            "contactUpdates"@.len() == 14,
            "contactsSet"@.len() == 11,
            "contactGroups"@.len() == 13,
            "contactGroupUpdates"@.len() == 19,
            "contactGroupsSet"@.len() == 16,
            "mailboxes"@.len() == 9,
            "mailboxUpdates"@.len() == 14,
            "mailboxesSet"@.len() == 12,
            "error"@.len() == 5,
            "calendars"@[0] == 'c',
            "mailboxes"@[0] == 'm',
            "calendarsSet"@[0] == 'c',
            "mailboxesSet"@[0] == 'm',
            "calendarEvents"@[2] == 'l',
            "contactUpdates"@[2] == 'n',
            "mailboxUpdates"@[2] == 'i',
    {
        reveal_strlit("calendars");
        reveal_strlit("calendarUpdates");
        reveal_strlit("calendarsSet");
        reveal_strlit("calendarEvents");
        reveal_strlit("calendarEventUpdates");
        reveal_strlit("calendarEventsSet");
        reveal_strlit("contacts");
        reveal_strlit("contactUpdates");
        reveal_strlit("contactsSet");
        reveal_strlit("contactGroups");
        reveal_strlit("contactGroupUpdates");
        reveal_strlit("contactGroupsSet");
        reveal_strlit("mailboxes");
        reveal_strlit("mailboxUpdates");
        reveal_strlit("mailboxesSet");
        reveal_strlit("error");
    }

    /// A call under a name that is no method of this set is read as the
    /// error variant with `UnknownMethod`, the name as its description and
    /// the client id kept, whatever the arguments hold.
    pub proof fn lemma_unknown_method(name: Seq<char>, args: JsonValue, id: Seq<char>)
        requires
            !Self::is_method_name(name),
        ensures
            <ResponseMethod as FromJson>::decoded(
                JsonValue::Array(seq![JsonValue::String(name), args, JsonValue::String(id)]),
            ) == Ok::<ResponseMethodView, ParseErrorView>(
                ResponseMethodView::ResponseError(
                    MethodErrorView::UnknownMethod(Presence::Present(name)),
                    id,
                ),
            ),
    {
    }
}

impl Duplicate for ResponseMethod {
    fn duplicate(&self) -> (r: Self) {
        match self {
            ResponseMethod::Calendars(args, id) => {
                ResponseMethod::Calendars(args.duplicate(), id.clone())
            },
            ResponseMethod::CalendarUpdates(args, id) => {
                ResponseMethod::CalendarUpdates(args.duplicate(), id.clone())
            },
            ResponseMethod::CalendarsSet(args, id) => {
                ResponseMethod::CalendarsSet(args.duplicate(), id.clone())
            },
            ResponseMethod::CalendarEvents(args, id) => {
                ResponseMethod::CalendarEvents(args.duplicate(), id.clone())
            },
            ResponseMethod::CalendarEventUpdates(args, id) => {
                ResponseMethod::CalendarEventUpdates(args.duplicate(), id.clone())
            },
            ResponseMethod::CalendarEventsSet(args, id) => {
                ResponseMethod::CalendarEventsSet(args.duplicate(), id.clone())
            },
            ResponseMethod::Contacts(args, id) => {
                ResponseMethod::Contacts(args.duplicate(), id.clone())
            },
            ResponseMethod::ContactUpdates(args, id) => {
                ResponseMethod::ContactUpdates(args.duplicate(), id.clone())
            },
            ResponseMethod::ContactsSet(args, id) => {
                ResponseMethod::ContactsSet(args.duplicate(), id.clone())
            },
            ResponseMethod::ContactGroups(args, id) => {
                ResponseMethod::ContactGroups(args.duplicate(), id.clone())
            },
            ResponseMethod::ContactGroupUpdates(args, id) => {
                ResponseMethod::ContactGroupUpdates(args.duplicate(), id.clone())
            },
            ResponseMethod::ContactGroupsSet(args, id) => {
                ResponseMethod::ContactGroupsSet(args.duplicate(), id.clone())
            },
            ResponseMethod::Mailboxes(args, id) => {
                ResponseMethod::Mailboxes(args.duplicate(), id.clone())
            },
            ResponseMethod::MailboxUpdates(args, id) => {
                ResponseMethod::MailboxUpdates(args.duplicate(), id.clone())
            },
            ResponseMethod::MailboxesSet(args, id) => {
                ResponseMethod::MailboxesSet(args.duplicate(), id.clone())
            },
            ResponseMethod::ResponseError(args, id) => {
                ResponseMethod::ResponseError(args.duplicate(), id.clone())
            },
        }
    }
}

impl ToJson for ResponseMethod {
    /// The array of method name, arguments and client id.
    open spec fn encoded(v: ResponseMethodView) -> JsonValue {
        JsonValue::Array(
            seq![
                JsonValue::String(Self::method_name(v)),
                Self::arguments(v),
                JsonValue::String(Self::client_id_of(v)),
            ],
        )
    }

    fn to_json(&self) -> (json: Json) {
        let (name, args, id) = match self {
            ResponseMethod::Calendars(args, id) => ("calendars", args.to_json(), id),
            ResponseMethod::CalendarUpdates(args, id) => ("calendarUpdates", args.to_json(), id),
            ResponseMethod::CalendarsSet(args, id) => ("calendarsSet", args.to_json(), id),
            ResponseMethod::CalendarEvents(args, id) => ("calendarEvents", args.to_json(), id),
            ResponseMethod::CalendarEventUpdates(args, id) => {
                ("calendarEventUpdates", args.to_json(), id)
            },
            ResponseMethod::CalendarEventsSet(args, id) => {
                ("calendarEventsSet", args.to_json(), id)
            },
            ResponseMethod::Contacts(args, id) => ("contacts", args.to_json(), id),
            ResponseMethod::ContactUpdates(args, id) => ("contactUpdates", args.to_json(), id),
            ResponseMethod::ContactsSet(args, id) => ("contactsSet", args.to_json(), id),
            ResponseMethod::ContactGroups(args, id) => ("contactGroups", args.to_json(), id),
            ResponseMethod::ContactGroupUpdates(args, id) => {
                ("contactGroupUpdates", args.to_json(), id)
            },
            ResponseMethod::ContactGroupsSet(args, id) => ("contactGroupsSet", args.to_json(), id),
            ResponseMethod::Mailboxes(args, id) => ("mailboxes", args.to_json(), id),
            ResponseMethod::MailboxUpdates(args, id) => ("mailboxUpdates", args.to_json(), id),
            ResponseMethod::MailboxesSet(args, id) => ("mailboxesSet", args.to_json(), id),
            ResponseMethod::ResponseError(args, id) => ("error", args.to_json(), id),
        };
        let mut items: Vec<Json> = Vec::new();
        items.push(Json::String(name.to_string()));
        items.push(args);
        items.push(Json::String(id.clone()));
        proof {
            lemma_array_value(items);
            assert(items.deep_view() =~= Self::encoded(self.deep_view())->Array_0);
        }
        Json::Array(items)
    }
}

impl FromJson for ResponseMethod {
    /// An array of three: the method name and the client id, which must be
    /// text, are read first, then the arguments as the method asks.
    open spec fn decoded(json: JsonValue) -> Result<ResponseMethodView, ParseErrorView> {
        match json {
            JsonValue::Array(a) => if a.len() != 3 {
                Err(ParseErrorView::InvalidStructure("ResponseMethod"@))
            } else {
                match String::decoded(a[0]) {
                    Err(e) => Err(e),
                    Ok(name) => match String::decoded(a[2]) {
                        Err(e) => Err(e),
                        Ok(id) => Self::dispatched(name, a[1], id),
                    },
                }
            },
            _ => Err(ParseErrorView::InvalidJsonType("ResponseMethod"@)),
        }
    }

    fn from_json(json: &Json) -> (r: Result<ResponseMethod, ParseError>) {
        match json {
            Json::Array(a) => {
                proof {
                    lemma_array_value(*a);
                }
                if a.len() != 3 {
                    return Err(ParseError::InvalidStructure("ResponseMethod".to_string()));
                }
                let method = match String::from_json(&a[0]) {
                    Ok(v) => v,
                    Err(e) => return Err(e),
                };
                let client_id = match String::from_json(&a[2]) {
                    Ok(v) => v,
                    Err(e) => return Err(e),
                };
                let name = method.as_str();
                if same_text(name, "calendars") {
                    match <GetResponseArgs<Calendar> as FromJson>::from_json(&a[1]) {
                        Ok(args) => Ok(ResponseMethod::Calendars(args, client_id)),
                        Err(e) => Err(e),
                    }
                } else if same_text(name, "calendarUpdates") {
                    match <GetUpdatesResponseArgs<Calendar> as FromJson>::from_json(&a[1]) {
                        Ok(args) => Ok(ResponseMethod::CalendarUpdates(args, client_id)),
                        Err(e) => Err(e),
                    }
                } else if same_text(name, "calendarsSet") {
                    match <SetResponseArgs<Calendar> as FromJson>::from_json(&a[1]) {
                        Ok(args) => Ok(ResponseMethod::CalendarsSet(args, client_id)),
                        Err(e) => Err(e),
                    }
                } else if same_text(name, "calendarEvents") {
                    match <GetResponseArgs<CalendarEvent> as FromJson>::from_json(&a[1]) {
                        Ok(args) => Ok(ResponseMethod::CalendarEvents(args, client_id)),
                        Err(e) => Err(e),
                    }
                } else if same_text(name, "calendarEventUpdates") {
                    match <GetUpdatesResponseArgs<CalendarEvent> as FromJson>::from_json(&a[1]) {
                        Ok(args) => Ok(ResponseMethod::CalendarEventUpdates(args, client_id)),
                        Err(e) => Err(e),
                    }
                } else if same_text(name, "calendarEventsSet") {
                    match <SetResponseArgs<CalendarEvent> as FromJson>::from_json(&a[1]) {
                        Ok(args) => Ok(ResponseMethod::CalendarEventsSet(args, client_id)),
                        Err(e) => Err(e),
                    }
                } else if same_text(name, "contacts") {
                    match <GetResponseArgs<Contact> as FromJson>::from_json(&a[1]) {
                        Ok(args) => Ok(ResponseMethod::Contacts(args, client_id)),
                        Err(e) => Err(e),
                    }
                } else if same_text(name, "contactUpdates") {
                    match <GetUpdatesResponseArgs<Contact> as FromJson>::from_json(&a[1]) {
                        Ok(args) => Ok(ResponseMethod::ContactUpdates(args, client_id)),
                        Err(e) => Err(e),
                    }
                } else if same_text(name, "contactsSet") {
                    match <SetResponseArgs<Contact> as FromJson>::from_json(&a[1]) {
                        Ok(args) => Ok(ResponseMethod::ContactsSet(args, client_id)),
                        Err(e) => Err(e),
                    }
                } else if same_text(name, "contactGroups") {
                    match <GetResponseArgs<ContactGroup> as FromJson>::from_json(&a[1]) {
                        Ok(args) => Ok(ResponseMethod::ContactGroups(args, client_id)),
                        Err(e) => Err(e),
                    }
                } else if same_text(name, "contactGroupUpdates") {
                    match <GetUpdatesResponseArgs<ContactGroup> as FromJson>::from_json(&a[1]) {
                        Ok(args) => Ok(ResponseMethod::ContactGroupUpdates(args, client_id)),
                        Err(e) => Err(e),
                    }
                } else if same_text(name, "contactGroupsSet") {
                    match <SetResponseArgs<ContactGroup> as FromJson>::from_json(&a[1]) {
                        Ok(args) => Ok(ResponseMethod::ContactGroupsSet(args, client_id)),
                        Err(e) => Err(e),
                    }
                } else if same_text(name, "mailboxes") {
                    match <GetResponseArgs<Mailbox> as FromJson>::from_json(&a[1]) {
                        Ok(args) => Ok(ResponseMethod::Mailboxes(args, client_id)),
                        Err(e) => Err(e),
                    }
                } else if same_text(name, "mailboxUpdates") {
                    match <GetUpdatesResponseArgs<Mailbox> as FromJson>::from_json(&a[1]) {
                        Ok(args) => Ok(ResponseMethod::MailboxUpdates(args, client_id)),
                        Err(e) => Err(e),
                    }
                } else if same_text(name, "mailboxesSet") {
                    match <SetResponseArgs<Mailbox> as FromJson>::from_json(&a[1]) {
                        Ok(args) => Ok(ResponseMethod::MailboxesSet(args, client_id)),
                        Err(e) => Err(e),
                    }
                } else if same_text(name, "error") {
                    match <MethodError as FromJson>::from_json(&a[1]) {
                        Ok(args) => Ok(ResponseMethod::ResponseError(args, client_id)),
                        Err(e) => Err(e),
                    }
                } else {
                    Ok(
                        ResponseMethod::ResponseError(
                            MethodError::UnknownMethod(
                                Presence::Present(ErrorDescription(method)),
                            ),
                            client_id,
                        ),
                    )
                }
            },
            _ => Err(ParseError::InvalidJsonType("ResponseMethod".to_string())),
        }
    }
}

impl JsonCodec for ResponseMethod {
    /// The calls whose arguments are valid.
    open spec fn valid(v: ResponseMethodView) -> bool {
        match v {
            ResponseMethodView::Calendars(args, _) => {
                <GetResponseArgs<Calendar> as JsonCodec>::valid(args)
            },
            ResponseMethodView::CalendarUpdates(args, _) => {
                <GetUpdatesResponseArgs<Calendar> as JsonCodec>::valid(args)
            },
            ResponseMethodView::CalendarsSet(args, _) => {
                <SetResponseArgs<Calendar> as JsonCodec>::valid(args)
            },
            ResponseMethodView::CalendarEvents(args, _) => {
                <GetResponseArgs<CalendarEvent> as JsonCodec>::valid(args)
            },
            ResponseMethodView::CalendarEventUpdates(args, _) => {
                <GetUpdatesResponseArgs<CalendarEvent> as JsonCodec>::valid(args)
            },
            ResponseMethodView::CalendarEventsSet(args, _) => {
                <SetResponseArgs<CalendarEvent> as JsonCodec>::valid(args)
            },
            ResponseMethodView::Contacts(args, _) => {
                <GetResponseArgs<Contact> as JsonCodec>::valid(args)
            },
            ResponseMethodView::ContactUpdates(args, _) => {
                <GetUpdatesResponseArgs<Contact> as JsonCodec>::valid(args)
            },
            ResponseMethodView::ContactsSet(args, _) => {
                <SetResponseArgs<Contact> as JsonCodec>::valid(args)
            },
            ResponseMethodView::ContactGroups(args, _) => {
                <GetResponseArgs<ContactGroup> as JsonCodec>::valid(args)
            },
            ResponseMethodView::ContactGroupUpdates(args, _) => {
                <GetUpdatesResponseArgs<ContactGroup> as JsonCodec>::valid(args)
            },
            ResponseMethodView::ContactGroupsSet(args, _) => {
                <SetResponseArgs<ContactGroup> as JsonCodec>::valid(args)
            },
            ResponseMethodView::Mailboxes(args, _) => {
                <GetResponseArgs<Mailbox> as JsonCodec>::valid(args)
            },
            ResponseMethodView::MailboxUpdates(args, _) => {
                <GetUpdatesResponseArgs<Mailbox> as JsonCodec>::valid(args)
            },
            ResponseMethodView::MailboxesSet(args, _) => {
                <SetResponseArgs<Mailbox> as JsonCodec>::valid(args)
            },
            ResponseMethodView::ResponseError(args, _) => <MethodError as JsonCodec>::valid(args),
        }
    }

    proof fn round_trip(v: ResponseMethodView) {
        Self::lemma_method_names();
        match v {
            ResponseMethodView::Calendars(args, _) => {
                <GetResponseArgs<Calendar> as JsonCodec>::round_trip(args);
            },
            ResponseMethodView::CalendarUpdates(args, _) => {
                <GetUpdatesResponseArgs<Calendar> as JsonCodec>::round_trip(args);
            },
            ResponseMethodView::CalendarsSet(args, _) => {
                <SetResponseArgs<Calendar> as JsonCodec>::round_trip(args);
            },
            ResponseMethodView::CalendarEvents(args, _) => {
                <GetResponseArgs<CalendarEvent> as JsonCodec>::round_trip(args);
            },
            ResponseMethodView::CalendarEventUpdates(args, _) => {
                <GetUpdatesResponseArgs<CalendarEvent> as JsonCodec>::round_trip(args);
            },
            ResponseMethodView::CalendarEventsSet(args, _) => {
                <SetResponseArgs<CalendarEvent> as JsonCodec>::round_trip(args);
            },
            ResponseMethodView::Contacts(args, _) => {
                <GetResponseArgs<Contact> as JsonCodec>::round_trip(args);
            },
            ResponseMethodView::ContactUpdates(args, _) => {
                <GetUpdatesResponseArgs<Contact> as JsonCodec>::round_trip(args);
            },
            ResponseMethodView::ContactsSet(args, _) => {
                <SetResponseArgs<Contact> as JsonCodec>::round_trip(args);
            },
            ResponseMethodView::ContactGroups(args, _) => {
                <GetResponseArgs<ContactGroup> as JsonCodec>::round_trip(args);
            },
            ResponseMethodView::ContactGroupUpdates(args, _) => {
                <GetUpdatesResponseArgs<ContactGroup> as JsonCodec>::round_trip(args);
            },
            ResponseMethodView::ContactGroupsSet(args, _) => {
                <SetResponseArgs<ContactGroup> as JsonCodec>::round_trip(args);
            },
            ResponseMethodView::Mailboxes(args, _) => {
                <GetResponseArgs<Mailbox> as JsonCodec>::round_trip(args);
            },
            ResponseMethodView::MailboxUpdates(args, _) => {
                <GetUpdatesResponseArgs<Mailbox> as JsonCodec>::round_trip(args);
            },
            ResponseMethodView::MailboxesSet(args, _) => {
                <SetResponseArgs<Mailbox> as JsonCodec>::round_trip(args);
            },
            ResponseMethodView::ResponseError(args, _) => {
                <MethodError as JsonCodec>::round_trip(args);
            },
        }
    }
}

impl ClientId for ResponseMethod {
    open spec fn client_id_of(v: ResponseMethodView) -> Seq<char> {
        match v {
            ResponseMethodView::Calendars(_, id) => id,
            ResponseMethodView::CalendarUpdates(_, id) => id,
            ResponseMethodView::CalendarsSet(_, id) => id,
            ResponseMethodView::CalendarEvents(_, id) => id,
            ResponseMethodView::CalendarEventUpdates(_, id) => id,
            ResponseMethodView::CalendarEventsSet(_, id) => id,
            ResponseMethodView::Contacts(_, id) => id,
            ResponseMethodView::ContactUpdates(_, id) => id,
            ResponseMethodView::ContactsSet(_, id) => id,
            ResponseMethodView::ContactGroups(_, id) => id,
            ResponseMethodView::ContactGroupUpdates(_, id) => id,
            ResponseMethodView::ContactGroupsSet(_, id) => id,
            ResponseMethodView::Mailboxes(_, id) => id,
            ResponseMethodView::MailboxUpdates(_, id) => id,
            ResponseMethodView::MailboxesSet(_, id) => id,
            ResponseMethodView::ResponseError(_, id) => id,
        }
    }

    fn client_id(&self) -> (r: String) {
        match self {
            ResponseMethod::Calendars(_, id) => id.clone(),
            ResponseMethod::CalendarUpdates(_, id) => id.clone(),
            ResponseMethod::CalendarsSet(_, id) => id.clone(),
            ResponseMethod::CalendarEvents(_, id) => id.clone(),
            ResponseMethod::CalendarEventUpdates(_, id) => id.clone(),
            ResponseMethod::CalendarEventsSet(_, id) => id.clone(),
            ResponseMethod::Contacts(_, id) => id.clone(),
            ResponseMethod::ContactUpdates(_, id) => id.clone(),
            ResponseMethod::ContactsSet(_, id) => id.clone(),
            ResponseMethod::ContactGroups(_, id) => id.clone(),
            ResponseMethod::ContactGroupUpdates(_, id) => id.clone(),
            ResponseMethod::ContactGroupsSet(_, id) => id.clone(),
            ResponseMethod::Mailboxes(_, id) => id.clone(),
            ResponseMethod::MailboxUpdates(_, id) => id.clone(),
            ResponseMethod::MailboxesSet(_, id) => id.clone(),
            ResponseMethod::ResponseError(_, id) => id.clone(),
        }
    }
}

/// The method calls of one request, in their order.
#[derive(Clone, Debug, PartialEq)]
pub struct RequestBatch(pub Vec<RequestMethod>);

impl DeepView for RequestBatch {
    type V = Seq<RequestMethodView>;

    open spec fn deep_view(&self) -> Seq<RequestMethodView> {
        self.0.deep_view()
    }
}

impl Default for RequestBatch {
    fn default() -> (r: Self)
        ensures
            r.deep_view() == Seq::<RequestMethodView>::empty(),
    {
        let items: Vec<RequestMethod> = Vec::new();
        assert(items.deep_view() =~= Seq::empty());
        RequestBatch(items)
    }
}

impl Duplicate for RequestBatch {
    fn duplicate(&self) -> (r: Self) {
        RequestBatch(self.0.duplicate())
    }
}

impl ToJson for RequestBatch {
    /// The array of the calls in their order.
    open spec fn encoded(v: Seq<RequestMethodView>) -> JsonValue {
        <Vec<RequestMethod> as ToJson>::encoded(v)
    }

    fn to_json(&self) -> (json: Json) {
        self.0.to_json()
    }
}

impl FromJson for RequestBatch {
    open spec fn decoded(json: JsonValue) -> Result<Seq<RequestMethodView>, ParseErrorView> {
        <Vec<RequestMethod> as FromJson>::decoded(json)
    }

    fn from_json(json: &Json) -> (r: Result<RequestBatch, ParseError>) {
        match <Vec<RequestMethod> as FromJson>::from_json(json) {
            Ok(v) => Ok(RequestBatch(v)),
            Err(e) => Err(e),
        }
    }
}

impl JsonCodec for RequestBatch {
    open spec fn valid(v: Seq<RequestMethodView>) -> bool {
        <Vec<RequestMethod> as JsonCodec>::valid(v)
    }

    proof fn round_trip(v: Seq<RequestMethodView>) {
        <Vec<RequestMethod> as JsonCodec>::round_trip(v);
    }
}

/// The responses to the calls of one request, in their order.
#[derive(Clone, Debug, PartialEq)]
pub struct ResponseBatch(pub Vec<ResponseMethod>);

impl DeepView for ResponseBatch {
    type V = Seq<ResponseMethodView>;

    open spec fn deep_view(&self) -> Seq<ResponseMethodView> {
        self.0.deep_view()
    }
}

impl Default for ResponseBatch {
    fn default() -> (r: Self)
        ensures
            r.deep_view() == Seq::<ResponseMethodView>::empty(),
    {
        let items: Vec<ResponseMethod> = Vec::new();
        assert(items.deep_view() =~= Seq::empty());
        ResponseBatch(items)
    }
}

impl Duplicate for ResponseBatch {
    fn duplicate(&self) -> (r: Self) {
        ResponseBatch(self.0.duplicate())
    }
}

impl ToJson for ResponseBatch {
    /// The array of the calls in their order.
    open spec fn encoded(v: Seq<ResponseMethodView>) -> JsonValue {
        <Vec<ResponseMethod> as ToJson>::encoded(v)
    }

    fn to_json(&self) -> (json: Json) {
        self.0.to_json()
    }
}

impl FromJson for ResponseBatch {
    open spec fn decoded(json: JsonValue) -> Result<Seq<ResponseMethodView>, ParseErrorView> {
        <Vec<ResponseMethod> as FromJson>::decoded(json)
    }

    fn from_json(json: &Json) -> (r: Result<ResponseBatch, ParseError>) {
        match <Vec<ResponseMethod> as FromJson>::from_json(json) {
            Ok(v) => Ok(ResponseBatch(v)),
            Err(e) => Err(e),
        }
    }
}

impl JsonCodec for ResponseBatch {
    open spec fn valid(v: Seq<ResponseMethodView>) -> bool {
        <Vec<ResponseMethod> as JsonCodec>::valid(v)
    }

    proof fn round_trip(v: Seq<ResponseMethodView>) {
        <Vec<ResponseMethod> as JsonCodec>::round_trip(v);
    }
}

} // verus!
