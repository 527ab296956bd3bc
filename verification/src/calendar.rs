//! Calendars.

use crate::json::{lemma_lookup_put_slot, lemma_object_value, Json, JsonValue, TextMap};
use crate::parse::{
    get_field, put_field, Duplicate, FieldCodec, FromJson, FromJsonField, JsonCodec, ParseError,
    ParseErrorView, Presence, ToJson, ToJsonField,
};
use crate::record::{
    chosen, copy_asked, copy_patched, field_of, is_fresh_id, new_id, PartialRecord, Record,
};
use vstd::prelude::*;

verus! {

/// A calendar: its name and colour, and what the user may do with it.
#[derive(Clone, Debug, PartialEq)]
pub struct Calendar {
    id: String,
    name: String,
    color: String,
    sort_order: u64,
    is_visible: bool,
    may_read_free_busy: bool,
    may_read_items: bool,
    may_add_items: bool,
    may_modify_items: bool,
    may_remove_items: bool,
    may_rename: bool,
    may_delete: bool,
}

/// A value of [`Calendar`] in contracts.
pub ghost struct CalendarView {
    pub id: Seq<char>,
    pub name: Seq<char>,
    pub color: Seq<char>,
    pub sort_order: u64,
    pub is_visible: bool,
    pub may_read_free_busy: bool,
    pub may_read_items: bool,
    pub may_add_items: bool,
    pub may_modify_items: bool,
    pub may_remove_items: bool,
    pub may_rename: bool,
    pub may_delete: bool,
}

impl DeepView for Calendar {
    type V = CalendarView;

    closed spec fn deep_view(&self) -> CalendarView {
        CalendarView {
            id: self.id.deep_view(),
            name: self.name.deep_view(),
            color: self.color.deep_view(),
            sort_order: self.sort_order.deep_view(),
            is_visible: self.is_visible.deep_view(),
            may_read_free_busy: self.may_read_free_busy.deep_view(),
            may_read_items: self.may_read_items.deep_view(),
            may_add_items: self.may_add_items.deep_view(),
            may_modify_items: self.may_modify_items.deep_view(),
            may_remove_items: self.may_remove_items.deep_view(),
            may_rename: self.may_rename.deep_view(),
            may_delete: self.may_delete.deep_view(),
        }
    }
}

impl Calendar {
    /// The record with the id `id` and every other field at the default of
    /// its type.
    pub open spec fn blank(id: Seq<char>) -> CalendarView {
        CalendarView {
            id,
            name: Seq::<char>::empty(),
            color: Seq::<char>::empty(),
            sort_order: 0,
            is_visible: false,
            may_read_free_busy: false,
            may_read_items: false,
            may_add_items: false,
            may_modify_items: false,
            may_remove_items: false,
            may_rename: false,
            may_delete: false,
        }
    }

    /// What tells the wire names of the record apart: the length of each, and
    /// for
    /// names of one length a character in which they differ.
    pub proof fn lemma_wire_names()
        ensures
            "id"@.len() == 2,
            "name"@.len() == 4,
            "color"@.len() == 5,
            "sortOrder"@.len() == 9,
            "isVisible"@.len() == 9,
            "mayReadFreeBusy"@.len() == 15,
            "mayReadItems"@.len() == 12,
            "mayAddItems"@.len() == 11,
            "mayModifyItems"@.len() == 14,
            "mayRemoveItems"@.len() == 14,
            "mayRename"@.len() == 9,
            "mayDelete"@.len() == 9,
            "sortOrder"@[3] == 't',
            "isVisible"@[3] == 'i',
            "mayRename"@[3] == 'R',
            "mayDelete"@[3] == 'D',
            "mayModifyItems"@[3] == 'M',
            "mayRemoveItems"@[3] == 'R',
    {
        reveal_strlit("id");
        reveal_strlit("name");
        reveal_strlit("color");
        reveal_strlit("sortOrder");
        reveal_strlit("isVisible");
        reveal_strlit("mayReadFreeBusy");
        reveal_strlit("mayReadItems");
        reveal_strlit("mayAddItems");
        reveal_strlit("mayModifyItems");
        reveal_strlit("mayRemoveItems");
        reveal_strlit("mayRename");
        reveal_strlit("mayDelete");
    }
}

impl Default for Calendar {
    /// A record with a fresh id.
    fn default() -> (r: Self)
        ensures
            is_fresh_id(r.deep_view().id),
            r.deep_view() == Self::blank(r.deep_view().id),
    {
        let r = Calendar {
            id: new_id(),
            name: String::new(),
            color: String::new(),
            sort_order: 0,
            is_visible: false,
            may_read_free_busy: false,
            may_read_items: false,
            may_add_items: false,
            may_modify_items: false,
            may_remove_items: false,
            may_rename: false,
            may_delete: false,
        };
        assert(r.deep_view() =~~= Self::blank(r.deep_view().id));
        r
    }
}

impl Duplicate for Calendar {
    fn duplicate(&self) -> (r: Self) {
        let id = self.id.duplicate();
        let name = self.name.duplicate();
        let color = self.color.duplicate();
        let sort_order = self.sort_order.duplicate();
        let is_visible = self.is_visible.duplicate();
        let may_read_free_busy = self.may_read_free_busy.duplicate();
        let may_read_items = self.may_read_items.duplicate();
        let may_add_items = self.may_add_items.duplicate();
        let may_modify_items = self.may_modify_items.duplicate();
        let may_remove_items = self.may_remove_items.duplicate();
        let may_rename = self.may_rename.duplicate();
        let may_delete = self.may_delete.duplicate();
        Calendar {
            id,
            name,
            color,
            sort_order,
            is_visible,
            may_read_free_busy,
            may_read_items,
            may_add_items,
            may_modify_items,
            may_remove_items,
            may_rename,
            may_delete,
        }
    }
}

impl ToJson for Calendar {
    /// An object with one key for each field.
    open spec fn encoded(v: CalendarView) -> JsonValue {
        let o = Seq::empty();
        let o = put_field::<String>(o, "id"@, v.id);
        let o = put_field::<String>(o, "name"@, v.name);
        let o = put_field::<String>(o, "color"@, v.color);
        let o = put_field::<u64>(o, "sortOrder"@, v.sort_order);
        let o = put_field::<bool>(o, "isVisible"@, v.is_visible);
        let o = put_field::<bool>(o, "mayReadFreeBusy"@, v.may_read_free_busy);
        let o = put_field::<bool>(o, "mayReadItems"@, v.may_read_items);
        let o = put_field::<bool>(o, "mayAddItems"@, v.may_add_items);
        let o = put_field::<bool>(o, "mayModifyItems"@, v.may_modify_items);
        let o = put_field::<bool>(o, "mayRemoveItems"@, v.may_remove_items);
        let o = put_field::<bool>(o, "mayRename"@, v.may_rename);
        let o = put_field::<bool>(o, "mayDelete"@, v.may_delete);
        JsonValue::Object(o)
    }

    fn to_json(&self) -> (json: Json) {
        let mut d: TextMap<Json> = TextMap::new();
        assert(d.deep_view() =~= Seq::empty());
        self.id.to_json_field(&mut d, "id");
        self.name.to_json_field(&mut d, "name");
        self.color.to_json_field(&mut d, "color");
        self.sort_order.to_json_field(&mut d, "sortOrder");
        self.is_visible.to_json_field(&mut d, "isVisible");
        self.may_read_free_busy.to_json_field(&mut d, "mayReadFreeBusy");
        self.may_read_items.to_json_field(&mut d, "mayReadItems");
        self.may_add_items.to_json_field(&mut d, "mayAddItems");
        self.may_modify_items.to_json_field(&mut d, "mayModifyItems");
        self.may_remove_items.to_json_field(&mut d, "mayRemoveItems");
        self.may_rename.to_json_field(&mut d, "mayRename");
        self.may_delete.to_json_field(&mut d, "mayDelete");
        proof {
            lemma_object_value(d);
        }
        Json::Object(d)
    }
}

impl FromJson for Calendar {
    /// The fields are read in the order in which they are declared; the
    /// first that fails gives the error.
    open spec fn decoded(json: JsonValue) -> Result<CalendarView, ParseErrorView> {
        match json {
            JsonValue::Object(o) => {
                let id = get_field::<String>(o, "id"@);
                let name = get_field::<String>(o, "name"@);
                let color = get_field::<String>(o, "color"@);
                let sort_order = get_field::<u64>(o, "sortOrder"@);
                let is_visible = get_field::<bool>(o, "isVisible"@);
                let may_read_free_busy = get_field::<bool>(o, "mayReadFreeBusy"@);
                let may_read_items = get_field::<bool>(o, "mayReadItems"@);
                let may_add_items = get_field::<bool>(o, "mayAddItems"@);
                let may_modify_items = get_field::<bool>(o, "mayModifyItems"@);
                let may_remove_items = get_field::<bool>(o, "mayRemoveItems"@);
                let may_rename = get_field::<bool>(o, "mayRename"@);
                let may_delete = get_field::<bool>(o, "mayDelete"@);
                if id is Err {
                    Err(id->Err_0)
                } else if name is Err {
                    Err(name->Err_0)
                } else if color is Err {
                    Err(color->Err_0)
                } else if sort_order is Err {
                    Err(sort_order->Err_0)
                } else if is_visible is Err {
                    Err(is_visible->Err_0)
                } else if may_read_free_busy is Err {
                    Err(may_read_free_busy->Err_0)
                } else if may_read_items is Err {
                    Err(may_read_items->Err_0)
                } else if may_add_items is Err {
                    Err(may_add_items->Err_0)
                } else if may_modify_items is Err {
                    Err(may_modify_items->Err_0)
                } else if may_remove_items is Err {
                    Err(may_remove_items->Err_0)
                } else if may_rename is Err {
                    Err(may_rename->Err_0)
                } else if may_delete is Err {
                    Err(may_delete->Err_0)
                } else {
                    Ok(
                        CalendarView {
                            id: id->Ok_0,
                            name: name->Ok_0,
                            color: color->Ok_0,
                            sort_order: sort_order->Ok_0,
                            is_visible: is_visible->Ok_0,
                            may_read_free_busy: may_read_free_busy->Ok_0,
                            may_read_items: may_read_items->Ok_0,
                            may_add_items: may_add_items->Ok_0,
                            may_modify_items: may_modify_items->Ok_0,
                            may_remove_items: may_remove_items->Ok_0,
                            may_rename: may_rename->Ok_0,
                            may_delete: may_delete->Ok_0,
                        },
                    )
                }
            },
            _ => Err(ParseErrorView::InvalidJsonType("Calendar"@)),
        }
    }

    fn from_json(json: &Json) -> (r: Result<Self, ParseError>) {
        match json {
            Json::Object(o) => {
                proof {
                    lemma_object_value(*o);
                }
                let id = match <String as FromJsonField>::from_json_field(o, "id") {
                    Ok(v) => v,
                    Err(e) => return Err(e),
                };
                let name = match <String as FromJsonField>::from_json_field(o, "name") {
                    Ok(v) => v,
                    Err(e) => return Err(e),
                };
                let color = match <String as FromJsonField>::from_json_field(o, "color") {
                    Ok(v) => v,
                    Err(e) => return Err(e),
                };
                let sort_order = match <u64 as FromJsonField>::from_json_field(o, "sortOrder") {
                    Ok(v) => v,
                    Err(e) => return Err(e),
                };
                let is_visible = match <bool as FromJsonField>::from_json_field(o, "isVisible") {
                    Ok(v) => v,
                    Err(e) => return Err(e),
                };
                let may_read_free_busy = match <bool as FromJsonField>::from_json_field(
                    o,
                    "mayReadFreeBusy",
                ) {
                    Ok(v) => v,
                    Err(e) => return Err(e),
                };
                let may_read_items = match <bool as FromJsonField>::from_json_field(
                    o,
                    "mayReadItems",
                ) {
                    Ok(v) => v,
                    Err(e) => return Err(e),
                };
                let may_add_items = match <bool as FromJsonField>::from_json_field(
                    o,
                    "mayAddItems",
                ) {
                    Ok(v) => v,
                    Err(e) => return Err(e),
                };
                let may_modify_items = match <bool as FromJsonField>::from_json_field(
                    o,
                    "mayModifyItems",
                ) {
                    Ok(v) => v,
                    Err(e) => return Err(e),
                };
                let may_remove_items = match <bool as FromJsonField>::from_json_field(
                    o,
                    "mayRemoveItems",
                ) {
                    Ok(v) => v,
                    Err(e) => return Err(e),
                };
                let may_rename = match <bool as FromJsonField>::from_json_field(o, "mayRename") {
                    Ok(v) => v,
                    Err(e) => return Err(e),
                };
                let may_delete = match <bool as FromJsonField>::from_json_field(o, "mayDelete") {
                    Ok(v) => v,
                    Err(e) => return Err(e),
                };
                Ok(Calendar {
                    id,
                    name,
                    color,
                    sort_order,
                    is_visible,
                    may_read_free_busy,
                    may_read_items,
                    may_add_items,
                    may_modify_items,
                    may_remove_items,
                    may_rename,
                    may_delete,
                })
            },
            _ => Err(ParseError::InvalidJsonType("Calendar".to_string())),
        }
    }
}

impl JsonCodec for Calendar {
    open spec fn valid(v: CalendarView) -> bool {
        &&& <String as FieldCodec>::field_valid(v.id)
        &&& <String as FieldCodec>::field_valid(v.name)
        &&& <String as FieldCodec>::field_valid(v.color)
        &&& <u64 as FieldCodec>::field_valid(v.sort_order)
        &&& <bool as FieldCodec>::field_valid(v.is_visible)
        &&& <bool as FieldCodec>::field_valid(v.may_read_free_busy)
        &&& <bool as FieldCodec>::field_valid(v.may_read_items)
        &&& <bool as FieldCodec>::field_valid(v.may_add_items)
        &&& <bool as FieldCodec>::field_valid(v.may_modify_items)
        &&& <bool as FieldCodec>::field_valid(v.may_remove_items)
        &&& <bool as FieldCodec>::field_valid(v.may_rename)
        &&& <bool as FieldCodec>::field_valid(v.may_delete)
    }

    proof fn round_trip(v: CalendarView) {
        let o = Self::encoded(v)->Object_0;
        Self::lemma_wire_names();
        assert(get_field::<String>(o, "id"@) == Ok::<Seq<char>, ParseErrorView>(v.id)) by {
            Self::lemma_slots(v, "id"@);
            <String as FieldCodec>::field_round_trip(v.id, "id"@);
        }
        assert(get_field::<String>(o, "name"@) == Ok::<Seq<char>, ParseErrorView>(v.name)) by {
            Self::lemma_slots(v, "name"@);
            <String as FieldCodec>::field_round_trip(v.name, "name"@);
        }
        assert(get_field::<String>(o, "color"@) == Ok::<Seq<char>, ParseErrorView>(v.color)) by {
            Self::lemma_slots(v, "color"@);
            <String as FieldCodec>::field_round_trip(v.color, "color"@);
        }
        assert(get_field::<u64>(o, "sortOrder"@) == Ok::<u64, ParseErrorView>(v.sort_order)) by {
            Self::lemma_slots(v, "sortOrder"@);
            <u64 as FieldCodec>::field_round_trip(v.sort_order, "sortOrder"@);
        }
        assert(get_field::<bool>(o, "isVisible"@) == Ok::<bool, ParseErrorView>(v.is_visible)) by {
            Self::lemma_slots(v, "isVisible"@);
            <bool as FieldCodec>::field_round_trip(v.is_visible, "isVisible"@);
        }
        assert(get_field::<bool>(o, "mayReadFreeBusy"@) == Ok::<
            bool,
            ParseErrorView,
        >(v.may_read_free_busy)) by {
            Self::lemma_slots(v, "mayReadFreeBusy"@);
            <bool as FieldCodec>::field_round_trip(v.may_read_free_busy, "mayReadFreeBusy"@);
        }
        assert(get_field::<bool>(o, "mayReadItems"@) == Ok::<
            bool,
            ParseErrorView,
        >(v.may_read_items)) by {
            Self::lemma_slots(v, "mayReadItems"@);
            <bool as FieldCodec>::field_round_trip(v.may_read_items, "mayReadItems"@);
        }
        assert(get_field::<bool>(o, "mayAddItems"@) == Ok::<
            bool,
            ParseErrorView,
        >(v.may_add_items)) by {
            Self::lemma_slots(v, "mayAddItems"@);
            <bool as FieldCodec>::field_round_trip(v.may_add_items, "mayAddItems"@);
        }
        assert(get_field::<bool>(o, "mayModifyItems"@) == Ok::<
            bool,
            ParseErrorView,
        >(v.may_modify_items)) by {
            Self::lemma_slots(v, "mayModifyItems"@);
            <bool as FieldCodec>::field_round_trip(v.may_modify_items, "mayModifyItems"@);
        }
        assert(get_field::<bool>(o, "mayRemoveItems"@) == Ok::<
            bool,
            ParseErrorView,
        >(v.may_remove_items)) by {
            Self::lemma_slots(v, "mayRemoveItems"@);
            <bool as FieldCodec>::field_round_trip(v.may_remove_items, "mayRemoveItems"@);
        }
        assert(get_field::<bool>(o, "mayRename"@) == Ok::<bool, ParseErrorView>(v.may_rename)) by {
            Self::lemma_slots(v, "mayRename"@);
            <bool as FieldCodec>::field_round_trip(v.may_rename, "mayRename"@);
        }
        assert(get_field::<bool>(o, "mayDelete"@) == Ok::<bool, ParseErrorView>(v.may_delete)) by {
            Self::lemma_slots(v, "mayDelete"@);
            <bool as FieldCodec>::field_round_trip(v.may_delete, "mayDelete"@);
        }
    }
}

impl Calendar {
    /// What the written form of `v` holds under `name`.
    pub open spec fn slot(v: CalendarView, name: Seq<char>) -> Option<JsonValue> {
        if name == "id"@ {
            <String as ToJsonField>::field_encoded(v.id)
        } else if name == "name"@ {
            <String as ToJsonField>::field_encoded(v.name)
        } else if name == "color"@ {
            <String as ToJsonField>::field_encoded(v.color)
        } else if name == "sortOrder"@ {
            <u64 as ToJsonField>::field_encoded(v.sort_order)
        } else if name == "isVisible"@ {
            <bool as ToJsonField>::field_encoded(v.is_visible)
        } else if name == "mayReadFreeBusy"@ {
            <bool as ToJsonField>::field_encoded(v.may_read_free_busy)
        } else if name == "mayReadItems"@ {
            <bool as ToJsonField>::field_encoded(v.may_read_items)
        } else if name == "mayAddItems"@ {
            <bool as ToJsonField>::field_encoded(v.may_add_items)
        } else if name == "mayModifyItems"@ {
            <bool as ToJsonField>::field_encoded(v.may_modify_items)
        } else if name == "mayRemoveItems"@ {
            <bool as ToJsonField>::field_encoded(v.may_remove_items)
        } else if name == "mayRename"@ {
            <bool as ToJsonField>::field_encoded(v.may_rename)
        } else if name == "mayDelete"@ {
            <bool as ToJsonField>::field_encoded(v.may_delete)
        } else {
            None
        }
    }

    /// The written form holds each field under its wire name and nothing
    /// under any other name.
    pub proof fn lemma_slots(v: CalendarView, name: Seq<char>)
        ensures
            field_of(Self::encoded(v), name) == Self::slot(v, name),
    {
        Self::lemma_wire_names();
        if name == "id"@ {
            assert(field_of(Self::encoded(v), name) == Self::slot(v, name)) by {
                broadcast use lemma_lookup_put_slot;

            }
        } else if name == "name"@ {
            assert(field_of(Self::encoded(v), name) == Self::slot(v, name)) by {
                broadcast use lemma_lookup_put_slot;

            }
        } else if name == "color"@ {
            assert(field_of(Self::encoded(v), name) == Self::slot(v, name)) by {
                broadcast use lemma_lookup_put_slot;

            }
        } else if name == "sortOrder"@ {
            assert(field_of(Self::encoded(v), name) == Self::slot(v, name)) by {
                broadcast use lemma_lookup_put_slot;

            }
        } else if name == "isVisible"@ {
            assert(field_of(Self::encoded(v), name) == Self::slot(v, name)) by {
                broadcast use lemma_lookup_put_slot;

            }
        } else if name == "mayReadFreeBusy"@ {
            assert(field_of(Self::encoded(v), name) == Self::slot(v, name)) by {
                broadcast use lemma_lookup_put_slot;

            }
        } else if name == "mayReadItems"@ {
            assert(field_of(Self::encoded(v), name) == Self::slot(v, name)) by {
                broadcast use lemma_lookup_put_slot;

            }
        } else if name == "mayAddItems"@ {
            assert(field_of(Self::encoded(v), name) == Self::slot(v, name)) by {
                broadcast use lemma_lookup_put_slot;

            }
        } else if name == "mayModifyItems"@ {
            assert(field_of(Self::encoded(v), name) == Self::slot(v, name)) by {
                broadcast use lemma_lookup_put_slot;

            }
        } else if name == "mayRemoveItems"@ {
            assert(field_of(Self::encoded(v), name) == Self::slot(v, name)) by {
                broadcast use lemma_lookup_put_slot;

            }
        } else if name == "mayRename"@ {
            assert(field_of(Self::encoded(v), name) == Self::slot(v, name)) by {
                broadcast use lemma_lookup_put_slot;

            }
        } else if name == "mayDelete"@ {
            assert(field_of(Self::encoded(v), name) == Self::slot(v, name)) by {
                broadcast use lemma_lookup_put_slot;

            }
        } else {
            assert(field_of(Self::encoded(v), name) is None) by {
                broadcast use lemma_lookup_put_slot;

            }
        }
    }
}

/// A [`Calendar`] with every field given or left out.
#[derive(Clone, Debug, PartialEq)]
pub struct PartialCalendar {
    id: Presence<String>,
    name: Presence<String>,
    color: Presence<String>,
    sort_order: Presence<u64>,
    is_visible: Presence<bool>,
    may_read_free_busy: Presence<bool>,
    may_read_items: Presence<bool>,
    may_add_items: Presence<bool>,
    may_modify_items: Presence<bool>,
    may_remove_items: Presence<bool>,
    may_rename: Presence<bool>,
    may_delete: Presence<bool>,
}

/// A value of [`PartialCalendar`] in contracts.
pub ghost struct PartialCalendarView {
    pub id: Presence<Seq<char>>,
    pub name: Presence<Seq<char>>,
    pub color: Presence<Seq<char>>,
    pub sort_order: Presence<u64>,
    pub is_visible: Presence<bool>,
    pub may_read_free_busy: Presence<bool>,
    pub may_read_items: Presence<bool>,
    pub may_add_items: Presence<bool>,
    pub may_modify_items: Presence<bool>,
    pub may_remove_items: Presence<bool>,
    pub may_rename: Presence<bool>,
    pub may_delete: Presence<bool>,
}

impl DeepView for PartialCalendar {
    type V = PartialCalendarView;

    closed spec fn deep_view(&self) -> PartialCalendarView {
        PartialCalendarView {
            id: self.id.deep_view(),
            name: self.name.deep_view(),
            color: self.color.deep_view(),
            sort_order: self.sort_order.deep_view(),
            is_visible: self.is_visible.deep_view(),
            may_read_free_busy: self.may_read_free_busy.deep_view(),
            may_read_items: self.may_read_items.deep_view(),
            may_add_items: self.may_add_items.deep_view(),
            may_modify_items: self.may_modify_items.deep_view(),
            may_remove_items: self.may_remove_items.deep_view(),
            may_rename: self.may_rename.deep_view(),
            may_delete: self.may_delete.deep_view(),
        }
    }
}

impl PartialCalendar {
    /// The default value: every field at the default of its type.
    pub open spec fn blank() -> PartialCalendarView {
        PartialCalendarView {
            id: Presence::Absent,
            name: Presence::Absent,
            color: Presence::Absent,
            sort_order: Presence::Absent,
            is_visible: Presence::Absent,
            may_read_free_busy: Presence::Absent,
            may_read_items: Presence::Absent,
            may_add_items: Presence::Absent,
            may_modify_items: Presence::Absent,
            may_remove_items: Presence::Absent,
            may_rename: Presence::Absent,
            may_delete: Presence::Absent,
        }
    }
}

impl Default for PartialCalendar {
    fn default() -> (r: Self)
        ensures
            r.deep_view() == Self::blank(),
    {
        let id: Presence<String> = Presence::Absent;
        let name: Presence<String> = Presence::Absent;
        let color: Presence<String> = Presence::Absent;
        let sort_order: Presence<u64> = Presence::Absent;
        let is_visible: Presence<bool> = Presence::Absent;
        let may_read_free_busy: Presence<bool> = Presence::Absent;
        let may_read_items: Presence<bool> = Presence::Absent;
        let may_add_items: Presence<bool> = Presence::Absent;
        let may_modify_items: Presence<bool> = Presence::Absent;
        let may_remove_items: Presence<bool> = Presence::Absent;
        let may_rename: Presence<bool> = Presence::Absent;
        let may_delete: Presence<bool> = Presence::Absent;
        PartialCalendar {
            id,
            name,
            color,
            sort_order,
            is_visible,
            may_read_free_busy,
            may_read_items,
            may_add_items,
            may_modify_items,
            may_remove_items,
            may_rename,
            may_delete,
        }
    }
}

impl Duplicate for PartialCalendar {
    fn duplicate(&self) -> (r: Self) {
        let id = self.id.duplicate();
        let name = self.name.duplicate();
        let color = self.color.duplicate();
        let sort_order = self.sort_order.duplicate();
        let is_visible = self.is_visible.duplicate();
        let may_read_free_busy = self.may_read_free_busy.duplicate();
        let may_read_items = self.may_read_items.duplicate();
        let may_add_items = self.may_add_items.duplicate();
        let may_modify_items = self.may_modify_items.duplicate();
        let may_remove_items = self.may_remove_items.duplicate();
        let may_rename = self.may_rename.duplicate();
        let may_delete = self.may_delete.duplicate();
        PartialCalendar {
            id,
            name,
            color,
            sort_order,
            is_visible,
            may_read_free_busy,
            may_read_items,
            may_add_items,
            may_modify_items,
            may_remove_items,
            may_rename,
            may_delete,
        }
    }
}

impl ToJson for PartialCalendar {
    /// An object with one key for each field.
    open spec fn encoded(v: PartialCalendarView) -> JsonValue {
        let o = Seq::empty();
        let o = put_field::<Presence<String>>(o, "id"@, v.id);
        let o = put_field::<Presence<String>>(o, "name"@, v.name);
        let o = put_field::<Presence<String>>(o, "color"@, v.color);
        let o = put_field::<Presence<u64>>(o, "sortOrder"@, v.sort_order);
        let o = put_field::<Presence<bool>>(o, "isVisible"@, v.is_visible);
        let o = put_field::<Presence<bool>>(o, "mayReadFreeBusy"@, v.may_read_free_busy);
        let o = put_field::<Presence<bool>>(o, "mayReadItems"@, v.may_read_items);
        let o = put_field::<Presence<bool>>(o, "mayAddItems"@, v.may_add_items);
        let o = put_field::<Presence<bool>>(o, "mayModifyItems"@, v.may_modify_items);
        let o = put_field::<Presence<bool>>(o, "mayRemoveItems"@, v.may_remove_items);
        let o = put_field::<Presence<bool>>(o, "mayRename"@, v.may_rename);
        let o = put_field::<Presence<bool>>(o, "mayDelete"@, v.may_delete);
        JsonValue::Object(o)
    }

    fn to_json(&self) -> (json: Json) {
        let mut d: TextMap<Json> = TextMap::new();
        assert(d.deep_view() =~= Seq::empty());
        self.id.to_json_field(&mut d, "id");
        self.name.to_json_field(&mut d, "name");
        self.color.to_json_field(&mut d, "color");
        self.sort_order.to_json_field(&mut d, "sortOrder");
        self.is_visible.to_json_field(&mut d, "isVisible");
        self.may_read_free_busy.to_json_field(&mut d, "mayReadFreeBusy");
        self.may_read_items.to_json_field(&mut d, "mayReadItems");
        self.may_add_items.to_json_field(&mut d, "mayAddItems");
        self.may_modify_items.to_json_field(&mut d, "mayModifyItems");
        self.may_remove_items.to_json_field(&mut d, "mayRemoveItems");
        self.may_rename.to_json_field(&mut d, "mayRename");
        self.may_delete.to_json_field(&mut d, "mayDelete");
        proof {
            lemma_object_value(d);
        }
        Json::Object(d)
    }
}

impl FromJson for PartialCalendar {
    /// The fields are read in the order in which they are declared; the
    /// first that fails gives the error.
    open spec fn decoded(json: JsonValue) -> Result<PartialCalendarView, ParseErrorView> {
        match json {
            JsonValue::Object(o) => {
                let id = get_field::<Presence<String>>(o, "id"@);
                let name = get_field::<Presence<String>>(o, "name"@);
                let color = get_field::<Presence<String>>(o, "color"@);
                let sort_order = get_field::<Presence<u64>>(o, "sortOrder"@);
                let is_visible = get_field::<Presence<bool>>(o, "isVisible"@);
                let may_read_free_busy = get_field::<Presence<bool>>(o, "mayReadFreeBusy"@);
                let may_read_items = get_field::<Presence<bool>>(o, "mayReadItems"@);
                let may_add_items = get_field::<Presence<bool>>(o, "mayAddItems"@);
                let may_modify_items = get_field::<Presence<bool>>(o, "mayModifyItems"@);
                let may_remove_items = get_field::<Presence<bool>>(o, "mayRemoveItems"@);
                let may_rename = get_field::<Presence<bool>>(o, "mayRename"@);
                let may_delete = get_field::<Presence<bool>>(o, "mayDelete"@);
                if id is Err {
                    Err(id->Err_0)
                } else if name is Err {
                    Err(name->Err_0)
                } else if color is Err {
                    Err(color->Err_0)
                } else if sort_order is Err {
                    Err(sort_order->Err_0)
                } else if is_visible is Err {
                    Err(is_visible->Err_0)
                } else if may_read_free_busy is Err {
                    Err(may_read_free_busy->Err_0)
                } else if may_read_items is Err {
                    Err(may_read_items->Err_0)
                } else if may_add_items is Err {
                    Err(may_add_items->Err_0)
                } else if may_modify_items is Err {
                    Err(may_modify_items->Err_0)
                } else if may_remove_items is Err {
                    Err(may_remove_items->Err_0)
                } else if may_rename is Err {
                    Err(may_rename->Err_0)
                } else if may_delete is Err {
                    Err(may_delete->Err_0)
                } else {
                    Ok(
                        PartialCalendarView {
                            id: id->Ok_0,
                            name: name->Ok_0,
                            color: color->Ok_0,
                            sort_order: sort_order->Ok_0,
                            is_visible: is_visible->Ok_0,
                            may_read_free_busy: may_read_free_busy->Ok_0,
                            may_read_items: may_read_items->Ok_0,
                            may_add_items: may_add_items->Ok_0,
                            may_modify_items: may_modify_items->Ok_0,
                            may_remove_items: may_remove_items->Ok_0,
                            may_rename: may_rename->Ok_0,
                            may_delete: may_delete->Ok_0,
                        },
                    )
                }
            },
            _ => Err(ParseErrorView::InvalidJsonType("Calendar"@)),
        }
    }

    fn from_json(json: &Json) -> (r: Result<Self, ParseError>) {
        match json {
            Json::Object(o) => {
                proof {
                    lemma_object_value(*o);
                }
                let id = match <Presence<String> as FromJsonField>::from_json_field(o, "id") {
                    Ok(v) => v,
                    Err(e) => return Err(e),
                };
                let name = match <Presence<String> as FromJsonField>::from_json_field(o, "name") {
                    Ok(v) => v,
                    Err(e) => return Err(e),
                };
                let color = match <Presence<String> as FromJsonField>::from_json_field(o, "color") {
                    Ok(v) => v,
                    Err(e) => return Err(e),
                };
                let sort_order = match <Presence<u64> as FromJsonField>::from_json_field(
                    o,
                    "sortOrder",
                ) {
                    Ok(v) => v,
                    Err(e) => return Err(e),
                };
                let is_visible = match <Presence<bool> as FromJsonField>::from_json_field(
                    o,
                    "isVisible",
                ) {
                    Ok(v) => v,
                    Err(e) => return Err(e),
                };
                let may_read_free_busy = match <Presence<bool> as FromJsonField>::from_json_field(
                    o,
                    "mayReadFreeBusy",
                ) {
                    Ok(v) => v,
                    Err(e) => return Err(e),
                };
                let may_read_items = match <Presence<bool> as FromJsonField>::from_json_field(
                    o,
                    "mayReadItems",
                ) {
                    Ok(v) => v,
                    Err(e) => return Err(e),
                };
                let may_add_items = match <Presence<bool> as FromJsonField>::from_json_field(
                    o,
                    "mayAddItems",
                ) {
                    Ok(v) => v,
                    Err(e) => return Err(e),
                };
                let may_modify_items = match <Presence<bool> as FromJsonField>::from_json_field(
                    o,
                    "mayModifyItems",
                ) {
                    Ok(v) => v,
                    Err(e) => return Err(e),
                };
                let may_remove_items = match <Presence<bool> as FromJsonField>::from_json_field(
                    o,
                    "mayRemoveItems",
                ) {
                    Ok(v) => v,
                    Err(e) => return Err(e),
                };
                let may_rename = match <Presence<bool> as FromJsonField>::from_json_field(
                    o,
                    "mayRename",
                ) {
                    Ok(v) => v,
                    Err(e) => return Err(e),
                };
                let may_delete = match <Presence<bool> as FromJsonField>::from_json_field(
                    o,
                    "mayDelete",
                ) {
                    Ok(v) => v,
                    Err(e) => return Err(e),
                };
                Ok(PartialCalendar {
                    id,
                    name,
                    color,
                    sort_order,
                    is_visible,
                    may_read_free_busy,
                    may_read_items,
                    may_add_items,
                    may_modify_items,
                    may_remove_items,
                    may_rename,
                    may_delete,
                })
            },
            _ => Err(ParseError::InvalidJsonType("Calendar".to_string())),
        }
    }
}

impl JsonCodec for PartialCalendar {
    open spec fn valid(v: PartialCalendarView) -> bool {
        &&& <Presence<String> as FieldCodec>::field_valid(v.id)
        &&& <Presence<String> as FieldCodec>::field_valid(v.name)
        &&& <Presence<String> as FieldCodec>::field_valid(v.color)
        &&& <Presence<u64> as FieldCodec>::field_valid(v.sort_order)
        &&& <Presence<bool> as FieldCodec>::field_valid(v.is_visible)
        &&& <Presence<bool> as FieldCodec>::field_valid(v.may_read_free_busy)
        &&& <Presence<bool> as FieldCodec>::field_valid(v.may_read_items)
        &&& <Presence<bool> as FieldCodec>::field_valid(v.may_add_items)
        &&& <Presence<bool> as FieldCodec>::field_valid(v.may_modify_items)
        &&& <Presence<bool> as FieldCodec>::field_valid(v.may_remove_items)
        &&& <Presence<bool> as FieldCodec>::field_valid(v.may_rename)
        &&& <Presence<bool> as FieldCodec>::field_valid(v.may_delete)
    }

    proof fn round_trip(v: PartialCalendarView) {
        let o = Self::encoded(v)->Object_0;
        Calendar::lemma_wire_names();
        assert(get_field::<Presence<String>>(o, "id"@) == Ok::<
            Presence<Seq<char>>,
            ParseErrorView,
        >(v.id)) by {
            Self::lemma_slots(v, "id"@);
            <Presence<String> as FieldCodec>::field_round_trip(v.id, "id"@);
        }
        assert(get_field::<Presence<String>>(o, "name"@) == Ok::<
            Presence<Seq<char>>,
            ParseErrorView,
        >(v.name)) by {
            Self::lemma_slots(v, "name"@);
            <Presence<String> as FieldCodec>::field_round_trip(v.name, "name"@);
        }
        assert(get_field::<Presence<String>>(o, "color"@) == Ok::<
            Presence<Seq<char>>,
            ParseErrorView,
        >(v.color)) by {
            Self::lemma_slots(v, "color"@);
            <Presence<String> as FieldCodec>::field_round_trip(v.color, "color"@);
        }
        assert(get_field::<Presence<u64>>(o, "sortOrder"@) == Ok::<
            Presence<u64>,
            ParseErrorView,
        >(v.sort_order)) by {
            Self::lemma_slots(v, "sortOrder"@);
            <Presence<u64> as FieldCodec>::field_round_trip(v.sort_order, "sortOrder"@);
        }
        assert(get_field::<Presence<bool>>(o, "isVisible"@) == Ok::<
            Presence<bool>,
            ParseErrorView,
        >(v.is_visible)) by {
            Self::lemma_slots(v, "isVisible"@);
            <Presence<bool> as FieldCodec>::field_round_trip(v.is_visible, "isVisible"@);
        }
        assert(get_field::<Presence<bool>>(o, "mayReadFreeBusy"@) == Ok::<
            Presence<bool>,
            ParseErrorView,
        >(v.may_read_free_busy)) by {
            Self::lemma_slots(v, "mayReadFreeBusy"@);
            <Presence<bool> as FieldCodec>::field_round_trip(
                v.may_read_free_busy,
                "mayReadFreeBusy"@,
            );
        }
        assert(get_field::<Presence<bool>>(o, "mayReadItems"@) == Ok::<
            Presence<bool>,
            ParseErrorView,
        >(v.may_read_items)) by {
            Self::lemma_slots(v, "mayReadItems"@);
            <Presence<bool> as FieldCodec>::field_round_trip(v.may_read_items, "mayReadItems"@);
        }
        assert(get_field::<Presence<bool>>(o, "mayAddItems"@) == Ok::<
            Presence<bool>,
            ParseErrorView,
        >(v.may_add_items)) by {
            Self::lemma_slots(v, "mayAddItems"@);
            <Presence<bool> as FieldCodec>::field_round_trip(v.may_add_items, "mayAddItems"@);
        }
        assert(get_field::<Presence<bool>>(o, "mayModifyItems"@) == Ok::<
            Presence<bool>,
            ParseErrorView,
        >(v.may_modify_items)) by {
            Self::lemma_slots(v, "mayModifyItems"@);
            <Presence<bool> as FieldCodec>::field_round_trip(v.may_modify_items, "mayModifyItems"@);
        }
        assert(get_field::<Presence<bool>>(o, "mayRemoveItems"@) == Ok::<
            Presence<bool>,
            ParseErrorView,
        >(v.may_remove_items)) by {
            Self::lemma_slots(v, "mayRemoveItems"@);
            <Presence<bool> as FieldCodec>::field_round_trip(v.may_remove_items, "mayRemoveItems"@);
        }
        assert(get_field::<Presence<bool>>(o, "mayRename"@) == Ok::<
            Presence<bool>,
            ParseErrorView,
        >(v.may_rename)) by {
            Self::lemma_slots(v, "mayRename"@);
            <Presence<bool> as FieldCodec>::field_round_trip(v.may_rename, "mayRename"@);
        }
        assert(get_field::<Presence<bool>>(o, "mayDelete"@) == Ok::<
            Presence<bool>,
            ParseErrorView,
        >(v.may_delete)) by {
            Self::lemma_slots(v, "mayDelete"@);
            <Presence<bool> as FieldCodec>::field_round_trip(v.may_delete, "mayDelete"@);
        }
    }
}

impl PartialCalendar {
    /// What the written form of `v` holds under `name`.
    pub open spec fn slot(v: PartialCalendarView, name: Seq<char>) -> Option<JsonValue> {
        if name == "id"@ {
            <Presence<String> as ToJsonField>::field_encoded(v.id)
        } else if name == "name"@ {
            <Presence<String> as ToJsonField>::field_encoded(v.name)
        } else if name == "color"@ {
            <Presence<String> as ToJsonField>::field_encoded(v.color)
        } else if name == "sortOrder"@ {
            <Presence<u64> as ToJsonField>::field_encoded(v.sort_order)
        } else if name == "isVisible"@ {
            <Presence<bool> as ToJsonField>::field_encoded(v.is_visible)
        } else if name == "mayReadFreeBusy"@ {
            <Presence<bool> as ToJsonField>::field_encoded(v.may_read_free_busy)
        } else if name == "mayReadItems"@ {
            <Presence<bool> as ToJsonField>::field_encoded(v.may_read_items)
        } else if name == "mayAddItems"@ {
            <Presence<bool> as ToJsonField>::field_encoded(v.may_add_items)
        } else if name == "mayModifyItems"@ {
            <Presence<bool> as ToJsonField>::field_encoded(v.may_modify_items)
        } else if name == "mayRemoveItems"@ {
            <Presence<bool> as ToJsonField>::field_encoded(v.may_remove_items)
        } else if name == "mayRename"@ {
            <Presence<bool> as ToJsonField>::field_encoded(v.may_rename)
        } else if name == "mayDelete"@ {
            <Presence<bool> as ToJsonField>::field_encoded(v.may_delete)
        } else {
            None
        }
    }

    /// The written form holds each field under its wire name and nothing
    /// under any other name.
    pub proof fn lemma_slots(v: PartialCalendarView, name: Seq<char>)
        ensures
            field_of(Self::encoded(v), name) == Self::slot(v, name),
    {
        Calendar::lemma_wire_names();
        if name == "id"@ {
            assert(field_of(Self::encoded(v), name) == Self::slot(v, name)) by {
                broadcast use lemma_lookup_put_slot;

            }
        } else if name == "name"@ {
            assert(field_of(Self::encoded(v), name) == Self::slot(v, name)) by {
                broadcast use lemma_lookup_put_slot;

            }
        } else if name == "color"@ {
            assert(field_of(Self::encoded(v), name) == Self::slot(v, name)) by {
                broadcast use lemma_lookup_put_slot;

            }
        } else if name == "sortOrder"@ {
            assert(field_of(Self::encoded(v), name) == Self::slot(v, name)) by {
                broadcast use lemma_lookup_put_slot;

            }
        } else if name == "isVisible"@ {
            assert(field_of(Self::encoded(v), name) == Self::slot(v, name)) by {
                broadcast use lemma_lookup_put_slot;

            }
        } else if name == "mayReadFreeBusy"@ {
            assert(field_of(Self::encoded(v), name) == Self::slot(v, name)) by {
                broadcast use lemma_lookup_put_slot;

            }
        } else if name == "mayReadItems"@ {
            assert(field_of(Self::encoded(v), name) == Self::slot(v, name)) by {
                broadcast use lemma_lookup_put_slot;

            }
        } else if name == "mayAddItems"@ {
            assert(field_of(Self::encoded(v), name) == Self::slot(v, name)) by {
                broadcast use lemma_lookup_put_slot;

            }
        } else if name == "mayModifyItems"@ {
            assert(field_of(Self::encoded(v), name) == Self::slot(v, name)) by {
                broadcast use lemma_lookup_put_slot;

            }
        } else if name == "mayRemoveItems"@ {
            assert(field_of(Self::encoded(v), name) == Self::slot(v, name)) by {
                broadcast use lemma_lookup_put_slot;

            }
        } else if name == "mayRename"@ {
            assert(field_of(Self::encoded(v), name) == Self::slot(v, name)) by {
                broadcast use lemma_lookup_put_slot;

            }
        } else if name == "mayDelete"@ {
            assert(field_of(Self::encoded(v), name) == Self::slot(v, name)) by {
                broadcast use lemma_lookup_put_slot;

            }
        } else {
            assert(field_of(Self::encoded(v), name) is None) by {
                broadcast use lemma_lookup_put_slot;

            }
        }
    }
}

impl PartialRecord for PartialCalendar {
    open spec fn id_of(v: PartialCalendarView) -> Presence<Seq<char>> {
        v.id
    }

    fn id(&self) -> (r: Presence<String>) {
        self.id.duplicate()
    }
}

impl Record for Calendar {
    type Partial = PartialCalendar;

    open spec fn id_of(v: CalendarView) -> Seq<char> {
        v.id
    }

    open spec fn patched(v: CalendarView, p: PartialCalendarView) -> CalendarView {
        CalendarView {
            id: p.id.or(v.id),
            name: p.name.or(v.name),
            color: p.color.or(v.color),
            sort_order: p.sort_order.or(v.sort_order),
            is_visible: p.is_visible.or(v.is_visible),
            may_read_free_busy: p.may_read_free_busy.or(v.may_read_free_busy),
            may_read_items: p.may_read_items.or(v.may_read_items),
            may_add_items: p.may_add_items.or(v.may_add_items),
            may_modify_items: p.may_modify_items.or(v.may_modify_items),
            may_remove_items: p.may_remove_items.or(v.may_remove_items),
            may_rename: p.may_rename.or(v.may_rename),
            may_delete: p.may_delete.or(v.may_delete),
        }
    }

    open spec fn projected(v: CalendarView) -> PartialCalendarView {
        PartialCalendarView {
            id: Presence::Present(v.id),
            name: Presence::Present(v.name),
            color: Presence::Present(v.color),
            sort_order: Presence::Present(v.sort_order),
            is_visible: Presence::Present(v.is_visible),
            may_read_free_busy: Presence::Present(v.may_read_free_busy),
            may_read_items: Presence::Present(v.may_read_items),
            may_add_items: Presence::Present(v.may_add_items),
            may_modify_items: Presence::Present(v.may_modify_items),
            may_remove_items: Presence::Present(v.may_remove_items),
            may_rename: Presence::Present(v.may_rename),
            may_delete: Presence::Present(v.may_delete),
        }
    }

    open spec fn filtered(v: CalendarView, properties: Seq<Seq<char>>) -> PartialCalendarView {
        PartialCalendarView {
            id: Presence::Present(v.id),
            name: chosen(properties, "name"@, v.name),
            color: chosen(properties, "color"@, v.color),
            sort_order: chosen(properties, "sortOrder"@, v.sort_order),
            is_visible: chosen(properties, "isVisible"@, v.is_visible),
            may_read_free_busy: chosen(properties, "mayReadFreeBusy"@, v.may_read_free_busy),
            may_read_items: chosen(properties, "mayReadItems"@, v.may_read_items),
            may_add_items: chosen(properties, "mayAddItems"@, v.may_add_items),
            may_modify_items: chosen(properties, "mayModifyItems"@, v.may_modify_items),
            may_remove_items: chosen(properties, "mayRemoveItems"@, v.may_remove_items),
            may_rename: chosen(properties, "mayRename"@, v.may_rename),
            may_delete: chosen(properties, "mayDelete"@, v.may_delete),
        }
    }

    fn id(&self) -> (r: String) {
        self.id.clone()
    }

    fn updated_with(&self, p: &PartialCalendar) -> (r: Self) {
        let id = copy_patched(&p.id, &self.id);
        let name = copy_patched(&p.name, &self.name);
        let color = copy_patched(&p.color, &self.color);
        let sort_order = copy_patched(&p.sort_order, &self.sort_order);
        let is_visible = copy_patched(&p.is_visible, &self.is_visible);
        let may_read_free_busy = copy_patched(&p.may_read_free_busy, &self.may_read_free_busy);
        let may_read_items = copy_patched(&p.may_read_items, &self.may_read_items);
        let may_add_items = copy_patched(&p.may_add_items, &self.may_add_items);
        let may_modify_items = copy_patched(&p.may_modify_items, &self.may_modify_items);
        let may_remove_items = copy_patched(&p.may_remove_items, &self.may_remove_items);
        let may_rename = copy_patched(&p.may_rename, &self.may_rename);
        let may_delete = copy_patched(&p.may_delete, &self.may_delete);
        Calendar {
            id,
            name,
            color,
            sort_order,
            is_visible,
            may_read_free_busy,
            may_read_items,
            may_add_items,
            may_modify_items,
            may_remove_items,
            may_rename,
            may_delete,
        }
    }

    fn to_partial(&self) -> (p: PartialCalendar) {
        let id = Presence::Present(self.id.duplicate());
        let name = Presence::Present(self.name.duplicate());
        let color = Presence::Present(self.color.duplicate());
        let sort_order = Presence::Present(self.sort_order.duplicate());
        let is_visible = Presence::Present(self.is_visible.duplicate());
        let may_read_free_busy = Presence::Present(self.may_read_free_busy.duplicate());
        let may_read_items = Presence::Present(self.may_read_items.duplicate());
        let may_add_items = Presence::Present(self.may_add_items.duplicate());
        let may_modify_items = Presence::Present(self.may_modify_items.duplicate());
        let may_remove_items = Presence::Present(self.may_remove_items.duplicate());
        let may_rename = Presence::Present(self.may_rename.duplicate());
        let may_delete = Presence::Present(self.may_delete.duplicate());
        PartialCalendar {
            id,
            name,
            color,
            sort_order,
            is_visible,
            may_read_free_busy,
            may_read_items,
            may_add_items,
            may_modify_items,
            may_remove_items,
            may_rename,
            may_delete,
        }
    }

    fn to_filtered_partial(&self, properties: &Vec<String>) -> (p: PartialCalendar) {
        let id = Presence::Present(self.id.duplicate());
        let name = copy_asked(properties, "name", &self.name);
        let color = copy_asked(properties, "color", &self.color);
        let sort_order = copy_asked(properties, "sortOrder", &self.sort_order);
        let is_visible = copy_asked(properties, "isVisible", &self.is_visible);
        let may_read_free_busy = copy_asked(
            properties,
            "mayReadFreeBusy",
            &self.may_read_free_busy,
        );
        let may_read_items = copy_asked(properties, "mayReadItems", &self.may_read_items);
        let may_add_items = copy_asked(properties, "mayAddItems", &self.may_add_items);
        let may_modify_items = copy_asked(properties, "mayModifyItems", &self.may_modify_items);
        let may_remove_items = copy_asked(properties, "mayRemoveItems", &self.may_remove_items);
        let may_rename = copy_asked(properties, "mayRename", &self.may_rename);
        let may_delete = copy_asked(properties, "mayDelete", &self.may_delete);
        PartialCalendar {
            id,
            name,
            color,
            sort_order,
            is_visible,
            may_read_free_busy,
            may_read_items,
            may_add_items,
            may_modify_items,
            may_remove_items,
            may_rename,
            may_delete,
        }
    }

    proof fn law_patch_with_projection(v: CalendarView) {
    }

    proof fn law_patch_overlays(v: CalendarView, p: PartialCalendarView, name: Seq<char>) {
        assert(Self::slot(Self::patched(v, p), name) == match PartialCalendar::slot(p, name) {
            Some(j) => Some(j),
            None => Self::slot(v, name),
        });
        Self::lemma_slots(Self::patched(v, p), name);
        Self::lemma_slots(v, name);
        PartialCalendar::lemma_slots(p, name);
    }

    proof fn law_projection_is_whole(v: CalendarView) {
    }

    proof fn law_filter_selects(v: CalendarView, properties: Seq<Seq<char>>, name: Seq<char>) {
        reveal(chosen);
        assert(PartialCalendar::slot(Self::filtered(v, properties), name) == if name == "id"@
            || properties.contains(name) {
            Self::slot(v, name)
        } else {
            None
        });
        Self::lemma_slots(v, name);
        PartialCalendar::lemma_slots(Self::filtered(v, properties), name);
    }
}

} // verus!
