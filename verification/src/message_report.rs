//! Reporting messages as spam or as no spam.

use crate::json::{lemma_lookup_put_slot, lemma_object_value, Json, JsonValue, TextMap};
use crate::parse::{
    get_field, put_field, Duplicate, FieldCodec, FromJson, FromJsonField, JsonCodec, ParseError,
    ParseErrorView, Presence, ToJson, ToJsonField,
};
use crate::record::field_of;
use vstd::prelude::*;

verus! {

/// The messages to report.
#[derive(Clone, Debug, PartialEq)]
pub struct ReportMessagesRequestArgs {
    pub account_id: Presence<String>,
    pub message_ids: Vec<String>,
    pub as_spam: bool,
}

/// A value of [`ReportMessagesRequestArgs`] in contracts.
pub ghost struct ReportMessagesRequestArgsView {
    pub account_id: Presence<Seq<char>>,
    pub message_ids: Seq<Seq<char>>,
    pub as_spam: bool,
}

impl DeepView for ReportMessagesRequestArgs {
    type V = ReportMessagesRequestArgsView;

    open spec fn deep_view(&self) -> ReportMessagesRequestArgsView {
        ReportMessagesRequestArgsView {
            account_id: self.account_id.deep_view(),
            message_ids: self.message_ids.deep_view(),
            as_spam: self.as_spam.deep_view(),
        }
    }
}

impl ReportMessagesRequestArgs {
    /// The default value: every field at the default of its type.
    pub open spec fn blank() -> ReportMessagesRequestArgsView {
        ReportMessagesRequestArgsView {
            account_id: Presence::Absent,
            message_ids: Seq::empty(),
            as_spam: false,
        }
    }
}

impl Default for ReportMessagesRequestArgs {
    fn default() -> (r: Self)
        ensures
            r.deep_view() == Self::blank(),
    {
        let account_id: Presence<String> = Presence::Absent;
        let message_ids: Vec<String> = Vec::new();
        assert(message_ids.deep_view() =~= Seq::empty());
        let as_spam: bool = false;
        ReportMessagesRequestArgs { account_id, message_ids, as_spam }
    }
}

impl ReportMessagesRequestArgs {
    /// What tells the wire names of this type apart: the length of each, and
    /// for
    /// names of one length a character in which they differ.
    pub proof fn lemma_wire_names()
        ensures
            "accountId"@.len() == 9,
            "messageIds"@.len() == 10,
            "asSpam"@.len() == 6,
    {
        reveal_strlit("accountId");
        reveal_strlit("messageIds");
        reveal_strlit("asSpam");
    }
}

impl Duplicate for ReportMessagesRequestArgs {
    fn duplicate(&self) -> (r: Self) {
        let account_id = self.account_id.duplicate();
        let message_ids = self.message_ids.duplicate();
        let as_spam = self.as_spam.duplicate();
        ReportMessagesRequestArgs { account_id, message_ids, as_spam }
    }
}

impl ToJson for ReportMessagesRequestArgs {
    /// An object with one key for each field.
    open spec fn encoded(v: ReportMessagesRequestArgsView) -> JsonValue {
        let o = Seq::empty();
        let o = put_field::<Presence<String>>(o, "accountId"@, v.account_id);
        let o = put_field::<Vec<String>>(o, "messageIds"@, v.message_ids);
        let o = put_field::<bool>(o, "asSpam"@, v.as_spam);
        JsonValue::Object(o)
    }

    fn to_json(&self) -> (json: Json) {
        let mut d: TextMap<Json> = TextMap::new();
        assert(d.deep_view() =~= Seq::empty());
        self.account_id.to_json_field(&mut d, "accountId");
        self.message_ids.to_json_field(&mut d, "messageIds");
        self.as_spam.to_json_field(&mut d, "asSpam");
        proof {
            lemma_object_value(d);
        }
        Json::Object(d)
    }
}

impl FromJson for ReportMessagesRequestArgs {
    /// The fields are read in the order in which they are declared; the
    /// first that fails gives the error.
    open spec fn decoded(json: JsonValue) -> Result<ReportMessagesRequestArgsView, ParseErrorView> {
        match json {
            JsonValue::Object(o) => {
                let account_id = get_field::<Presence<String>>(o, "accountId"@);
                let message_ids = get_field::<Vec<String>>(o, "messageIds"@);
                let as_spam = get_field::<bool>(o, "asSpam"@);
                if account_id is Err {
                    Err(account_id->Err_0)
                } else if message_ids is Err {
                    Err(message_ids->Err_0)
                } else if as_spam is Err {
                    Err(as_spam->Err_0)
                } else {
                    Ok(
                        ReportMessagesRequestArgsView {
                            account_id: account_id->Ok_0,
                            message_ids: message_ids->Ok_0,
                            as_spam: as_spam->Ok_0,
                        },
                    )
                }
            },
            _ => Err(ParseErrorView::InvalidJsonType("ReportMessagesRequestArgs"@)),
        }
    }

    fn from_json(json: &Json) -> (r: Result<Self, ParseError>) {
        match json {
            Json::Object(o) => {
                proof {
                    lemma_object_value(*o);
                }
                let account_id = match <Presence<String> as FromJsonField>::from_json_field(
                    o,
                    "accountId",
                ) {
                    Ok(v) => v,
                    Err(e) => return Err(e),
                };
                let message_ids = match <Vec<String> as FromJsonField>::from_json_field(
                    o,
                    "messageIds",
                ) {
                    Ok(v) => v,
                    Err(e) => return Err(e),
                };
                let as_spam = match <bool as FromJsonField>::from_json_field(o, "asSpam") {
                    Ok(v) => v,
                    Err(e) => return Err(e),
                };
                Ok(ReportMessagesRequestArgs { account_id, message_ids, as_spam })
            },
            _ => Err(ParseError::InvalidJsonType("ReportMessagesRequestArgs".to_string())),
        }
    }
}

impl JsonCodec for ReportMessagesRequestArgs {
    open spec fn valid(v: ReportMessagesRequestArgsView) -> bool {
        &&& <Presence<String> as FieldCodec>::field_valid(v.account_id)
        &&& <Vec<String> as FieldCodec>::field_valid(v.message_ids)
        &&& <bool as FieldCodec>::field_valid(v.as_spam)
    }

    proof fn round_trip(v: ReportMessagesRequestArgsView) {
        let o = Self::encoded(v)->Object_0;
        Self::lemma_wire_names();
        assert(get_field::<Presence<String>>(o, "accountId"@) == Ok::<
            Presence<Seq<char>>,
            ParseErrorView,
        >(v.account_id)) by {
            Self::lemma_slots(v, "accountId"@);
            <Presence<String> as FieldCodec>::field_round_trip(v.account_id, "accountId"@);
        }
        assert(get_field::<Vec<String>>(o, "messageIds"@) == Ok::<
            Seq<Seq<char>>,
            ParseErrorView,
        >(v.message_ids)) by {
            Self::lemma_slots(v, "messageIds"@);
            <Vec<String> as FieldCodec>::field_round_trip(v.message_ids, "messageIds"@);
        }
        assert(get_field::<bool>(o, "asSpam"@) == Ok::<bool, ParseErrorView>(v.as_spam)) by {
            Self::lemma_slots(v, "asSpam"@);
            <bool as FieldCodec>::field_round_trip(v.as_spam, "asSpam"@);
        }
    }
}

impl ReportMessagesRequestArgs {
    /// What the written form of `v` holds under `name`.
    pub open spec fn slot(v: ReportMessagesRequestArgsView, name: Seq<char>) -> Option<JsonValue> {
        if name == "accountId"@ {
            <Presence<String> as ToJsonField>::field_encoded(v.account_id)
        } else if name == "messageIds"@ {
            <Vec<String> as ToJsonField>::field_encoded(v.message_ids)
        } else if name == "asSpam"@ {
            <bool as ToJsonField>::field_encoded(v.as_spam)
        } else {
            None
        }
    }

    /// The written form holds each field under its wire name and nothing
    /// under any other name.
    pub proof fn lemma_slots(v: ReportMessagesRequestArgsView, name: Seq<char>)
        ensures
            field_of(Self::encoded(v), name) == Self::slot(v, name),
    {
        Self::lemma_wire_names();
        if name == "accountId"@ {
            assert(field_of(Self::encoded(v), name) == Self::slot(v, name)) by {
                broadcast use lemma_lookup_put_slot;

            }
        } else if name == "messageIds"@ {
            assert(field_of(Self::encoded(v), name) == Self::slot(v, name)) by {
                broadcast use lemma_lookup_put_slot;

            }
        } else if name == "asSpam"@ {
            assert(field_of(Self::encoded(v), name) == Self::slot(v, name)) by {
                broadcast use lemma_lookup_put_slot;

            }
        } else {
            assert(field_of(Self::encoded(v), name) is None) by {
                broadcast use lemma_lookup_put_slot;

            }
        }
    }
}

/// The messages that were reported, and the ids that were not found.
#[derive(Clone, Debug, PartialEq)]
pub struct ReportMessagesResponseArgs {
    pub account_id: String,
    pub as_spam: bool,
    pub reported: Vec<String>,
    pub not_found: Option<Vec<String>>,
}

/// A value of [`ReportMessagesResponseArgs`] in contracts.
pub ghost struct ReportMessagesResponseArgsView {
    pub account_id: Seq<char>,
    pub as_spam: bool,
    pub reported: Seq<Seq<char>>,
    pub not_found: Option<Seq<Seq<char>>>,
}

impl DeepView for ReportMessagesResponseArgs {
    type V = ReportMessagesResponseArgsView;

    open spec fn deep_view(&self) -> ReportMessagesResponseArgsView {
        ReportMessagesResponseArgsView {
            account_id: self.account_id.deep_view(),
            as_spam: self.as_spam.deep_view(),
            reported: self.reported.deep_view(),
            not_found: self.not_found.deep_view(),
        }
    }
}

impl ReportMessagesResponseArgs {
    /// The default value: every field at the default of its type.
    pub open spec fn blank() -> ReportMessagesResponseArgsView {
        ReportMessagesResponseArgsView {
            account_id: Seq::<char>::empty(),
            as_spam: false,
            reported: Seq::empty(),
            not_found: None,
        }
    }
}

impl Default for ReportMessagesResponseArgs {
    fn default() -> (r: Self)
        ensures
            r.deep_view() == Self::blank(),
    {
        let account_id: String = String::new();
        let as_spam: bool = false;
        let reported: Vec<String> = Vec::new();
        assert(reported.deep_view() =~= Seq::empty());
        let not_found: Option<Vec<String>> = None;
        ReportMessagesResponseArgs { account_id, as_spam, reported, not_found }
    }
}

impl ReportMessagesResponseArgs {
    /// What tells the wire names of this type apart: the length of each, and
    /// for
    /// names of one length a character in which they differ.
    pub proof fn lemma_wire_names()
        ensures
            "accountId"@.len() == 9,
            "asSpam"@.len() == 6,
            "reported"@.len() == 8,
            "notFound"@.len() == 8,
            "reported"@[0] == 'r',
            "notFound"@[0] == 'n',
    {
        reveal_strlit("accountId");
        reveal_strlit("asSpam");
        reveal_strlit("reported");
        reveal_strlit("notFound");
    }
}

impl Duplicate for ReportMessagesResponseArgs {
    fn duplicate(&self) -> (r: Self) {
        let account_id = self.account_id.duplicate();
        let as_spam = self.as_spam.duplicate();
        let reported = self.reported.duplicate();
        let not_found = self.not_found.duplicate();
        ReportMessagesResponseArgs { account_id, as_spam, reported, not_found }
    }
}

impl ToJson for ReportMessagesResponseArgs {
    /// An object with one key for each field.
    open spec fn encoded(v: ReportMessagesResponseArgsView) -> JsonValue {
        let o = Seq::empty();
        let o = put_field::<String>(o, "accountId"@, v.account_id);
        let o = put_field::<bool>(o, "asSpam"@, v.as_spam);
        let o = put_field::<Vec<String>>(o, "reported"@, v.reported);
        let o = put_field::<Option<Vec<String>>>(o, "notFound"@, v.not_found);
        JsonValue::Object(o)
    }

    fn to_json(&self) -> (json: Json) {
        let mut d: TextMap<Json> = TextMap::new();
        assert(d.deep_view() =~= Seq::empty());
        self.account_id.to_json_field(&mut d, "accountId");
        self.as_spam.to_json_field(&mut d, "asSpam");
        self.reported.to_json_field(&mut d, "reported");
        self.not_found.to_json_field(&mut d, "notFound");
        proof {
            lemma_object_value(d);
        }
        Json::Object(d)
    }
}

impl FromJson for ReportMessagesResponseArgs {
    /// The fields are read in the order in which they are declared; the
    /// first that fails gives the error.
    open spec fn decoded(
        json: JsonValue,
    ) -> Result<ReportMessagesResponseArgsView, ParseErrorView> {
        match json {
            JsonValue::Object(o) => {
                let account_id = get_field::<String>(o, "accountId"@);
                let as_spam = get_field::<bool>(o, "asSpam"@);
                let reported = get_field::<Vec<String>>(o, "reported"@);
                let not_found = get_field::<Option<Vec<String>>>(o, "notFound"@);
                if account_id is Err {
                    Err(account_id->Err_0)
                } else if as_spam is Err {
                    Err(as_spam->Err_0)
                } else if reported is Err {
                    Err(reported->Err_0)
                } else if not_found is Err {
                    Err(not_found->Err_0)
                } else {
                    Ok(
                        ReportMessagesResponseArgsView {
                            account_id: account_id->Ok_0,
                            as_spam: as_spam->Ok_0,
                            reported: reported->Ok_0,
                            not_found: not_found->Ok_0,
                        },
                    )
                }
            },
            _ => Err(ParseErrorView::InvalidJsonType("ReportMessagesResponseArgs"@)),
        }
    }

    fn from_json(json: &Json) -> (r: Result<Self, ParseError>) {
        match json {
            Json::Object(o) => {
                proof {
                    lemma_object_value(*o);
                }
                let account_id = match <String as FromJsonField>::from_json_field(o, "accountId") {
                    Ok(v) => v,
                    Err(e) => return Err(e),
                };
                let as_spam = match <bool as FromJsonField>::from_json_field(o, "asSpam") {
                    Ok(v) => v,
                    Err(e) => return Err(e),
                };
                let reported = match <Vec<String> as FromJsonField>::from_json_field(
                    o,
                    "reported",
                ) {
                    Ok(v) => v,
                    Err(e) => return Err(e),
                };
                let not_found = match <Option<Vec<String>> as FromJsonField>::from_json_field(
                    o,
                    "notFound",
                ) {
                    Ok(v) => v,
                    Err(e) => return Err(e),
                };
                Ok(ReportMessagesResponseArgs { account_id, as_spam, reported, not_found })
            },
            _ => Err(ParseError::InvalidJsonType("ReportMessagesResponseArgs".to_string())),
        }
    }
}

impl JsonCodec for ReportMessagesResponseArgs {
    open spec fn valid(v: ReportMessagesResponseArgsView) -> bool {
        &&& <String as FieldCodec>::field_valid(v.account_id)
        &&& <bool as FieldCodec>::field_valid(v.as_spam)
        &&& <Vec<String> as FieldCodec>::field_valid(v.reported)
        &&& <Option<Vec<String>> as FieldCodec>::field_valid(v.not_found)
    }

    proof fn round_trip(v: ReportMessagesResponseArgsView) {
        let o = Self::encoded(v)->Object_0;
        Self::lemma_wire_names();
        assert(get_field::<String>(o, "accountId"@) == Ok::<
            Seq<char>,
            ParseErrorView,
        >(v.account_id)) by {
            Self::lemma_slots(v, "accountId"@);
            <String as FieldCodec>::field_round_trip(v.account_id, "accountId"@);
        }
        assert(get_field::<bool>(o, "asSpam"@) == Ok::<bool, ParseErrorView>(v.as_spam)) by {
            Self::lemma_slots(v, "asSpam"@);
            <bool as FieldCodec>::field_round_trip(v.as_spam, "asSpam"@);
        }
        assert(get_field::<Vec<String>>(o, "reported"@) == Ok::<
            Seq<Seq<char>>,
            ParseErrorView,
        >(v.reported)) by {
            Self::lemma_slots(v, "reported"@);
            <Vec<String> as FieldCodec>::field_round_trip(v.reported, "reported"@);
        }
        assert(get_field::<Option<Vec<String>>>(o, "notFound"@) == Ok::<
            Option<Seq<Seq<char>>>,
            ParseErrorView,
        >(v.not_found)) by {
            Self::lemma_slots(v, "notFound"@);
            <Option<Vec<String>> as FieldCodec>::field_round_trip(v.not_found, "notFound"@);
        }
    }
}

impl ReportMessagesResponseArgs {
    /// What the written form of `v` holds under `name`.
    pub open spec fn slot(v: ReportMessagesResponseArgsView, name: Seq<char>) -> Option<JsonValue> {
        if name == "accountId"@ {
            <String as ToJsonField>::field_encoded(v.account_id)
        } else if name == "asSpam"@ {
            <bool as ToJsonField>::field_encoded(v.as_spam)
        } else if name == "reported"@ {
            <Vec<String> as ToJsonField>::field_encoded(v.reported)
        } else if name == "notFound"@ {
            <Option<Vec<String>> as ToJsonField>::field_encoded(v.not_found)
        } else {
            None
        }
    }

    /// The written form holds each field under its wire name and nothing
    /// under any other name.
    pub proof fn lemma_slots(v: ReportMessagesResponseArgsView, name: Seq<char>)
        ensures
            field_of(Self::encoded(v), name) == Self::slot(v, name),
    {
        Self::lemma_wire_names();
        if name == "accountId"@ {
            assert(field_of(Self::encoded(v), name) == Self::slot(v, name)) by {
                broadcast use lemma_lookup_put_slot;

            }
        } else if name == "asSpam"@ {
            assert(field_of(Self::encoded(v), name) == Self::slot(v, name)) by {
                broadcast use lemma_lookup_put_slot;

            }
        } else if name == "reported"@ {
            assert(field_of(Self::encoded(v), name) == Self::slot(v, name)) by {
                broadcast use lemma_lookup_put_slot;

            }
        } else if name == "notFound"@ {
            assert(field_of(Self::encoded(v), name) == Self::slot(v, name)) by {
                broadcast use lemma_lookup_put_slot;

            }
        } else {
            assert(field_of(Self::encoded(v), name) is None) by {
                broadcast use lemma_lookup_put_slot;

            }
        }
    }
}

} // verus!
