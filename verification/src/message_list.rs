//! Lists of messages: the filters that select them and the arguments of
//! the methods that fetch them.

use crate::json::{
    lemma_array_value, lemma_deepened_lookup, lemma_deepened_put, lemma_found_is_part,
    lemma_lookup_put_slot, lemma_object_value, lookup, put_slot, Json, JsonValue, TextMap,
};
use crate::parse::{
    get_field, put_field, result_view, Duplicate, FieldCodec, FromJson, FromJsonField, JsonCodec,
    ParseError, ParseErrorView, Presence, ToJson, ToJsonField,
};
use crate::record::field_of;
use crate::types::Date;
use vstd::prelude::*;

verus! {

/// An operator over filters.
#[derive(Debug, PartialEq)]
pub struct FilterOperator {
    operator: String,
    conditions: Vec<Filter>,
}

/// A value of [`FilterOperator`] in contracts.
pub ghost struct FilterOperatorView {
    pub operator: Seq<char>,
    pub conditions: Seq<FilterView>,
}

/// What a value of [`FilterOperator`] stands for.
pub closed spec fn filter_operator_view(p: FilterOperator) -> FilterOperatorView
    decreases p, 0nat,
{
    FilterOperatorView {
        operator: p.operator.deep_view(),
        conditions: filter_list_view(p.conditions),
    }
}

impl DeepView for FilterOperator {
    type V = FilterOperatorView;

    closed spec fn deep_view(&self) -> FilterOperatorView {
        filter_operator_view(*self)
    }
}

/// The written form of a value of [`FilterOperator`]: an object with one key
/// for each
/// field.
pub open spec fn filter_operator_encoded(v: FilterOperatorView) -> JsonValue
    decreases v, 0nat,
{
    let o = Seq::empty();
    let o = put_field::<String>(o, "operator"@, v.operator);
    let o = put_slot(o, "conditions"@, Some(filter_list_encoded(v.conditions)));
    JsonValue::Object(o)
}

/// What a JSON value is read as: the fields in the order in which they are
/// declared; the first that fails gives the error.
pub open spec fn filter_operator_decoded(
    json: JsonValue,
) -> Result<FilterOperatorView, ParseErrorView>
    decreases json, 0nat,
{
    match json {
        JsonValue::Object(o) => {
            let operator = get_field::<String>(o, "operator"@);
            let conditions = filter_list_field_decoded(o, "conditions"@);
            if operator is Err {
                Err(operator->Err_0)
            } else if conditions is Err {
                Err(conditions->Err_0)
            } else {
                Ok(
                    FilterOperatorView {
                        operator: operator->Ok_0,
                        conditions: conditions->Ok_0,
                    },
                )
            }
        },
        _ => Err(ParseErrorView::InvalidJsonType("FilterOperator"@)),
    }
}

/// The values of [`FilterOperator`] that read back from their written form.
pub open spec fn filter_operator_valid(v: FilterOperatorView) -> bool
    decreases v, 0nat,
{
    &&& <String as FieldCodec>::field_valid(v.operator)
    &&& filter_list_valid(v.conditions)
}

/// Reads a value of [`FilterOperator`].
pub fn read_filter_operator(json: &Json) -> (r: Result<FilterOperator, ParseError>)
    ensures
        result_view(r) == filter_operator_decoded(json@),
    decreases json, 0nat,
{
    match json {
        Json::Object(o) => {
            proof {
                lemma_object_value(*o);
            }
            let operator = match <String as FromJsonField>::from_json_field(o, "operator") {
                Ok(v) => v,
                Err(e) => return Err(e),
            };
            let conditions = match read_filter_list_field(o, "conditions") {
                Ok(v) => v,
                Err(e) => return Err(e),
            };
            Ok(FilterOperator { operator, conditions })
        },
        _ => Err(ParseError::InvalidJsonType("FilterOperator".to_string())),
    }
}

/// Writes a value of [`FilterOperator`].
pub fn write_filter_operator(p: &FilterOperator) -> (json: Json)
    ensures
        json@ == filter_operator_encoded(p.deep_view()),
    decreases p, 0nat,
{
    let mut d: TextMap<Json> = TextMap::new();
    assert(d.deep_view() =~= Seq::empty());
    p.operator.to_json_field(&mut d, "operator");
    write_filter_list_field(&p.conditions, &mut d, "conditions");
    proof {
        lemma_object_value(d);
    }
    Json::Object(d)
}

/// Copies a value of [`FilterOperator`].
pub fn copy_filter_operator(p: &FilterOperator) -> (r: FilterOperator)
    ensures
        r.deep_view() == p.deep_view(),
    decreases p, 0nat,
{
    let conditions = copy_filter_list(&p.conditions);
    assert(filter_list_view(conditions) == filter_list_view(p.conditions));
    let operator = p.operator.duplicate();
    FilterOperator { operator, conditions }
}

impl FilterOperator {
    /// What tells the wire names of this type apart: the length of each, and
    /// for
    /// names of one length a character in which they differ.
    pub proof fn lemma_wire_names()
        ensures
            "operator"@.len() == 8,
            "conditions"@.len() == 10,
    {
        reveal_strlit("operator");
        reveal_strlit("conditions");
    }

    /// The default value: every field at the default of its type.
    pub open spec fn blank() -> FilterOperatorView {
        FilterOperatorView {
            operator: Seq::<char>::empty(),
            conditions: Seq::empty(),
        }
    }

    /// What the written form of `v` holds under `name`.
    pub open spec fn slot(v: FilterOperatorView, name: Seq<char>) -> Option<JsonValue> {
        if name == "operator"@ {
            <String as ToJsonField>::field_encoded(v.operator)
        } else if name == "conditions"@ {
            Some(filter_list_encoded(v.conditions))
        } else {
            None
        }
    }

    /// The written form holds each field under its wire name and nothing
    /// under any other name.
    pub proof fn lemma_slots(v: FilterOperatorView, name: Seq<char>)
        ensures
            field_of(filter_operator_encoded(v), name) == Self::slot(v, name),
    {
        FilterOperator::lemma_wire_names();
        if name == "operator"@ {
            assert(field_of(filter_operator_encoded(v), name) == Self::slot(v, name)) by {
                broadcast use lemma_lookup_put_slot;

            }
        } else if name == "conditions"@ {
            assert(field_of(filter_operator_encoded(v), name) == Self::slot(v, name)) by {
                broadcast use lemma_lookup_put_slot;

            }
        } else {
            assert(field_of(filter_operator_encoded(v), name) is None) by {
                broadcast use lemma_lookup_put_slot;

            }
        }
    }
}

/// Reading the written form of a valid value of [`FilterOperator`] gives it
/// back.
pub proof fn lemma_filter_operator_round_trip(v: FilterOperatorView)
    requires
        filter_operator_valid(v),
    ensures
        filter_operator_decoded(filter_operator_encoded(v)) == Ok::<
            FilterOperatorView,
            ParseErrorView,
        >(v),
    decreases v, 0nat,
{
    let o = filter_operator_encoded(v)->Object_0;
    FilterOperator::lemma_wire_names();
    assert(get_field::<String>(o, "operator"@) == Ok::<Seq<char>, ParseErrorView>(v.operator)) by {
        FilterOperator::lemma_slots(v, "operator"@);
        <String as FieldCodec>::field_round_trip(v.operator, "operator"@);
    }
    assert(filter_list_field_decoded(o, "conditions"@) == Ok::<
        Seq<FilterView>,
        ParseErrorView,
    >(v.conditions)) by {
        FilterOperator::lemma_slots(v, "conditions"@);
        lemma_filter_list_round_trip(v.conditions);
    }
}

impl Clone for FilterOperator {
    fn clone(&self) -> (r: Self)
        ensures
            r.deep_view() == self.deep_view(),
    {
        copy_filter_operator(self)
    }
}

impl Duplicate for FilterOperator {
    fn duplicate(&self) -> (r: Self) {
        copy_filter_operator(self)
    }
}

impl ToJson for FilterOperator {
    open spec fn encoded(v: FilterOperatorView) -> JsonValue {
        filter_operator_encoded(v)
    }

    fn to_json(&self) -> (json: Json) {
        write_filter_operator(self)
    }
}

impl FromJson for FilterOperator {
    open spec fn decoded(json: JsonValue) -> Result<FilterOperatorView, ParseErrorView> {
        filter_operator_decoded(json)
    }

    fn from_json(json: &Json) -> (r: Result<Self, ParseError>) {
        read_filter_operator(json)
    }
}

impl JsonCodec for FilterOperator {
    open spec fn valid(v: FilterOperatorView) -> bool {
        filter_operator_valid(v)
    }

    proof fn round_trip(v: FilterOperatorView) {
        lemma_filter_operator_round_trip(v);
    }
}

impl Default for FilterOperator {
    fn default() -> (r: Self)
        ensures
            r.deep_view() == Self::blank(),
    {
        let operator: String = String::new();
        let conditions: Vec<Filter> = Vec::new();
        assert(filter_list_view(conditions) =~= Seq::empty());
        FilterOperator { operator, conditions }
    }
}

/// What a message must meet to pass a filter; a condition that is left out is
/// not asked for.
#[derive(Clone, Debug, PartialEq)]
pub struct FilterCondition {
    in_mailboxes: Presence<Vec<String>>,
    not_in_mailboxes: Presence<Vec<String>>,
    before: Presence<Date>,
    after: Presence<Date>,
    min_size: Presence<u64>,
    max_size: Presence<u64>,
    thread_is_flagged: Presence<bool>,
    thread_is_unread: Presence<bool>,
    is_flagged: Presence<bool>,
    is_unread: Presence<bool>,
    is_answered: Presence<bool>,
    is_draft: Presence<bool>,
    has_attachment: Presence<bool>,
    text: Presence<String>,
    from: Presence<String>,
    to: Presence<String>,
    cc: Presence<String>,
    bcc: Presence<String>,
    subject: Presence<String>,
    body: Presence<String>,
    header: Presence<Vec<String>>,
}

/// A value of [`FilterCondition`] in contracts.
pub ghost struct FilterConditionView {
    pub in_mailboxes: Presence<Seq<Seq<char>>>,
    pub not_in_mailboxes: Presence<Seq<Seq<char>>>,
    pub before: Presence<Date>,
    pub after: Presence<Date>,
    pub min_size: Presence<u64>,
    pub max_size: Presence<u64>,
    pub thread_is_flagged: Presence<bool>,
    pub thread_is_unread: Presence<bool>,
    pub is_flagged: Presence<bool>,
    pub is_unread: Presence<bool>,
    pub is_answered: Presence<bool>,
    pub is_draft: Presence<bool>,
    pub has_attachment: Presence<bool>,
    pub text: Presence<Seq<char>>,
    pub from: Presence<Seq<char>>,
    pub to: Presence<Seq<char>>,
    pub cc: Presence<Seq<char>>,
    pub bcc: Presence<Seq<char>>,
    pub subject: Presence<Seq<char>>,
    pub body: Presence<Seq<char>>,
    pub header: Presence<Seq<Seq<char>>>,
}

impl DeepView for FilterCondition {
    type V = FilterConditionView;

    closed spec fn deep_view(&self) -> FilterConditionView {
        FilterConditionView {
            in_mailboxes: self.in_mailboxes.deep_view(),
            not_in_mailboxes: self.not_in_mailboxes.deep_view(),
            before: self.before.deep_view(),
            after: self.after.deep_view(),
            min_size: self.min_size.deep_view(),
            max_size: self.max_size.deep_view(),
            thread_is_flagged: self.thread_is_flagged.deep_view(),
            thread_is_unread: self.thread_is_unread.deep_view(),
            is_flagged: self.is_flagged.deep_view(),
            is_unread: self.is_unread.deep_view(),
            is_answered: self.is_answered.deep_view(),
            is_draft: self.is_draft.deep_view(),
            has_attachment: self.has_attachment.deep_view(),
            text: self.text.deep_view(),
            from: self.from.deep_view(),
            to: self.to.deep_view(),
            cc: self.cc.deep_view(),
            bcc: self.bcc.deep_view(),
            subject: self.subject.deep_view(),
            body: self.body.deep_view(),
            header: self.header.deep_view(),
        }
    }
}

impl FilterCondition {
    /// The default value: every field at the default of its type.
    pub open spec fn blank() -> FilterConditionView {
        FilterConditionView {
            in_mailboxes: Presence::Absent,
            not_in_mailboxes: Presence::Absent,
            before: Presence::Absent,
            after: Presence::Absent,
            min_size: Presence::Absent,
            max_size: Presence::Absent,
            thread_is_flagged: Presence::Absent,
            thread_is_unread: Presence::Absent,
            is_flagged: Presence::Absent,
            is_unread: Presence::Absent,
            is_answered: Presence::Absent,
            is_draft: Presence::Absent,
            has_attachment: Presence::Absent,
            text: Presence::Absent,
            from: Presence::Absent,
            to: Presence::Absent,
            cc: Presence::Absent,
            bcc: Presence::Absent,
            subject: Presence::Absent,
            body: Presence::Absent,
            header: Presence::Absent,
        }
    }
}

impl Default for FilterCondition {
    fn default() -> (r: Self)
        ensures
            r.deep_view() == Self::blank(),
    {
        let in_mailboxes: Presence<Vec<String>> = Presence::Absent;
        let not_in_mailboxes: Presence<Vec<String>> = Presence::Absent;
        let before: Presence<Date> = Presence::Absent;
        let after: Presence<Date> = Presence::Absent;
        let min_size: Presence<u64> = Presence::Absent;
        let max_size: Presence<u64> = Presence::Absent;
        let thread_is_flagged: Presence<bool> = Presence::Absent;
        let thread_is_unread: Presence<bool> = Presence::Absent;
        let is_flagged: Presence<bool> = Presence::Absent;
        let is_unread: Presence<bool> = Presence::Absent;
        let is_answered: Presence<bool> = Presence::Absent;
        let is_draft: Presence<bool> = Presence::Absent;
        let has_attachment: Presence<bool> = Presence::Absent;
        let text: Presence<String> = Presence::Absent;
        let from: Presence<String> = Presence::Absent;
        let to: Presence<String> = Presence::Absent;
        let cc: Presence<String> = Presence::Absent;
        let bcc: Presence<String> = Presence::Absent;
        let subject: Presence<String> = Presence::Absent;
        let body: Presence<String> = Presence::Absent;
        let header: Presence<Vec<String>> = Presence::Absent;
        FilterCondition {
            in_mailboxes,
            not_in_mailboxes,
            before,
            after,
            min_size,
            max_size,
            thread_is_flagged,
            thread_is_unread,
            is_flagged,
            is_unread,
            is_answered,
            is_draft,
            has_attachment,
            text,
            from,
            to,
            cc,
            bcc,
            subject,
            body,
            header,
        }
    }
}

impl FilterCondition {
    /// What tells the wire names of this type apart: the length of each, and
    /// for
    /// names of one length a character in which they differ.
    pub proof fn lemma_wire_names()
        ensures
            "inMailboxes"@.len() == 11,
            "notInnMailboxes"@.len() == 15,
            "before"@.len() == 6,
            "after"@.len() == 5,
            "minSize"@.len() == 7,
            "maxSize"@.len() == 7,
            "threadIsFlagged"@.len() == 15,
            "threadIsUnread"@.len() == 14,
            "isFlagged"@.len() == 9,
            "isUnread"@.len() == 8,
            "isAnswered"@.len() == 10,
            "isDraft"@.len() == 7,
            "hasAttachment"@.len() == 13,
            "text"@.len() == 4,
            "from"@.len() == 4,
            "to"@.len() == 2,
            "cc"@.len() == 2,
            "bcc"@.len() == 3,
            "subject"@.len() == 7,
            "body"@.len() == 4,
            "header"@.len() == 6,
            "to"@[0] == 't',
            "cc"@[0] == 'c',
            "text"@[0] == 't',
            "from"@[0] == 'f',
            "body"@[0] == 'b',
            "before"@[0] == 'b',
            "header"@[0] == 'h',
            "minSize"@[1] == 'i',
            "maxSize"@[1] == 'a',
            "isDraft"@[1] == 's',
            "subject"@[1] == 'u',
            "notInnMailboxes"@[0] == 'n',
            "threadIsFlagged"@[0] == 't',
    {
        reveal_strlit("inMailboxes");
        reveal_strlit("notInnMailboxes");
        reveal_strlit("before");
        reveal_strlit("after");
        reveal_strlit("minSize");
        reveal_strlit("maxSize");
        reveal_strlit("threadIsFlagged");
        reveal_strlit("threadIsUnread");
        reveal_strlit("isFlagged");
        reveal_strlit("isUnread");
        reveal_strlit("isAnswered");
        reveal_strlit("isDraft");
        reveal_strlit("hasAttachment");
        reveal_strlit("text");
        reveal_strlit("from");
        reveal_strlit("to");
        reveal_strlit("cc");
        reveal_strlit("bcc");
        reveal_strlit("subject");
        reveal_strlit("body");
        reveal_strlit("header");
    }
}

impl Duplicate for FilterCondition {
    fn duplicate(&self) -> (r: Self) {
        let in_mailboxes = self.in_mailboxes.duplicate();
        let not_in_mailboxes = self.not_in_mailboxes.duplicate();
        let before = self.before.duplicate();
        let after = self.after.duplicate();
        let min_size = self.min_size.duplicate();
        let max_size = self.max_size.duplicate();
        let thread_is_flagged = self.thread_is_flagged.duplicate();
        let thread_is_unread = self.thread_is_unread.duplicate();
        let is_flagged = self.is_flagged.duplicate();
        let is_unread = self.is_unread.duplicate();
        let is_answered = self.is_answered.duplicate();
        let is_draft = self.is_draft.duplicate();
        let has_attachment = self.has_attachment.duplicate();
        let text = self.text.duplicate();
        let from = self.from.duplicate();
        let to = self.to.duplicate();
        let cc = self.cc.duplicate();
        let bcc = self.bcc.duplicate();
        let subject = self.subject.duplicate();
        let body = self.body.duplicate();
        let header = self.header.duplicate();
        FilterCondition {
            in_mailboxes,
            not_in_mailboxes,
            before,
            after,
            min_size,
            max_size,
            thread_is_flagged,
            thread_is_unread,
            is_flagged,
            is_unread,
            is_answered,
            is_draft,
            has_attachment,
            text,
            from,
            to,
            cc,
            bcc,
            subject,
            body,
            header,
        }
    }
}

impl ToJson for FilterCondition {
    /// An object with one key for each field.
    open spec fn encoded(v: FilterConditionView) -> JsonValue {
        let o = Seq::empty();
        let o = put_field::<Presence<Vec<String>>>(o, "inMailboxes"@, v.in_mailboxes);
        let o = put_field::<Presence<Vec<String>>>(o, "notInnMailboxes"@, v.not_in_mailboxes);
        let o = put_field::<Presence<Date>>(o, "before"@, v.before);
        let o = put_field::<Presence<Date>>(o, "after"@, v.after);
        let o = put_field::<Presence<u64>>(o, "minSize"@, v.min_size);
        let o = put_field::<Presence<u64>>(o, "maxSize"@, v.max_size);
        let o = put_field::<Presence<bool>>(o, "threadIsFlagged"@, v.thread_is_flagged);
        let o = put_field::<Presence<bool>>(o, "threadIsUnread"@, v.thread_is_unread);
        let o = put_field::<Presence<bool>>(o, "isFlagged"@, v.is_flagged);
        let o = put_field::<Presence<bool>>(o, "isUnread"@, v.is_unread);
        let o = put_field::<Presence<bool>>(o, "isAnswered"@, v.is_answered);
        let o = put_field::<Presence<bool>>(o, "isDraft"@, v.is_draft);
        let o = put_field::<Presence<bool>>(o, "hasAttachment"@, v.has_attachment);
        let o = put_field::<Presence<String>>(o, "text"@, v.text);
        let o = put_field::<Presence<String>>(o, "from"@, v.from);
        let o = put_field::<Presence<String>>(o, "to"@, v.to);
        let o = put_field::<Presence<String>>(o, "cc"@, v.cc);
        let o = put_field::<Presence<String>>(o, "bcc"@, v.bcc);
        let o = put_field::<Presence<String>>(o, "subject"@, v.subject);
        let o = put_field::<Presence<String>>(o, "body"@, v.body);
        let o = put_field::<Presence<Vec<String>>>(o, "header"@, v.header);
        JsonValue::Object(o)
    }

    fn to_json(&self) -> (json: Json) {
        let mut d: TextMap<Json> = TextMap::new();
        assert(d.deep_view() =~= Seq::empty());
        self.in_mailboxes.to_json_field(&mut d, "inMailboxes");
        self.not_in_mailboxes.to_json_field(&mut d, "notInnMailboxes");
        self.before.to_json_field(&mut d, "before");
        self.after.to_json_field(&mut d, "after");
        self.min_size.to_json_field(&mut d, "minSize");
        self.max_size.to_json_field(&mut d, "maxSize");
        self.thread_is_flagged.to_json_field(&mut d, "threadIsFlagged");
        self.thread_is_unread.to_json_field(&mut d, "threadIsUnread");
        self.is_flagged.to_json_field(&mut d, "isFlagged");
        self.is_unread.to_json_field(&mut d, "isUnread");
        self.is_answered.to_json_field(&mut d, "isAnswered");
        self.is_draft.to_json_field(&mut d, "isDraft");
        self.has_attachment.to_json_field(&mut d, "hasAttachment");
        self.text.to_json_field(&mut d, "text");
        self.from.to_json_field(&mut d, "from");
        self.to.to_json_field(&mut d, "to");
        self.cc.to_json_field(&mut d, "cc");
        self.bcc.to_json_field(&mut d, "bcc");
        self.subject.to_json_field(&mut d, "subject");
        self.body.to_json_field(&mut d, "body");
        self.header.to_json_field(&mut d, "header");
        proof {
            lemma_object_value(d);
        }
        Json::Object(d)
    }
}

impl FromJson for FilterCondition {
    /// The fields are read in the order in which they are declared; the
    /// first that fails gives the error.
    open spec fn decoded(json: JsonValue) -> Result<FilterConditionView, ParseErrorView> {
        match json {
            JsonValue::Object(o) => {
                let in_mailboxes = get_field::<Presence<Vec<String>>>(o, "inMailboxes"@);
                let not_in_mailboxes = get_field::<Presence<Vec<String>>>(o, "notInnMailboxes"@);
                let before = get_field::<Presence<Date>>(o, "before"@);
                let after = get_field::<Presence<Date>>(o, "after"@);
                let min_size = get_field::<Presence<u64>>(o, "minSize"@);
                let max_size = get_field::<Presence<u64>>(o, "maxSize"@);
                let thread_is_flagged = get_field::<Presence<bool>>(o, "threadIsFlagged"@);
                let thread_is_unread = get_field::<Presence<bool>>(o, "threadIsUnread"@);
                let is_flagged = get_field::<Presence<bool>>(o, "isFlagged"@);
                let is_unread = get_field::<Presence<bool>>(o, "isUnread"@);
                let is_answered = get_field::<Presence<bool>>(o, "isAnswered"@);
                let is_draft = get_field::<Presence<bool>>(o, "isDraft"@);
                let has_attachment = get_field::<Presence<bool>>(o, "hasAttachment"@);
                let text = get_field::<Presence<String>>(o, "text"@);
                let from = get_field::<Presence<String>>(o, "from"@);
                let to = get_field::<Presence<String>>(o, "to"@);
                let cc = get_field::<Presence<String>>(o, "cc"@);
                let bcc = get_field::<Presence<String>>(o, "bcc"@);
                let subject = get_field::<Presence<String>>(o, "subject"@);
                let body = get_field::<Presence<String>>(o, "body"@);
                let header = get_field::<Presence<Vec<String>>>(o, "header"@);
                if in_mailboxes is Err {
                    Err(in_mailboxes->Err_0)
                } else if not_in_mailboxes is Err {
                    Err(not_in_mailboxes->Err_0)
                } else if before is Err {
                    Err(before->Err_0)
                } else if after is Err {
                    Err(after->Err_0)
                } else if min_size is Err {
                    Err(min_size->Err_0)
                } else if max_size is Err {
                    Err(max_size->Err_0)
                } else if thread_is_flagged is Err {
                    Err(thread_is_flagged->Err_0)
                } else if thread_is_unread is Err {
                    Err(thread_is_unread->Err_0)
                } else if is_flagged is Err {
                    Err(is_flagged->Err_0)
                } else if is_unread is Err {
                    Err(is_unread->Err_0)
                } else if is_answered is Err {
                    Err(is_answered->Err_0)
                } else if is_draft is Err {
                    Err(is_draft->Err_0)
                } else if has_attachment is Err {
                    Err(has_attachment->Err_0)
                } else if text is Err {
                    Err(text->Err_0)
                } else if from is Err {
                    Err(from->Err_0)
                } else if to is Err {
                    Err(to->Err_0)
                } else if cc is Err {
                    Err(cc->Err_0)
                } else if bcc is Err {
                    Err(bcc->Err_0)
                } else if subject is Err {
                    Err(subject->Err_0)
                } else if body is Err {
                    Err(body->Err_0)
                } else if header is Err {
                    Err(header->Err_0)
                } else {
                    Ok(
                        FilterConditionView {
                            in_mailboxes: in_mailboxes->Ok_0,
                            not_in_mailboxes: not_in_mailboxes->Ok_0,
                            before: before->Ok_0,
                            after: after->Ok_0,
                            min_size: min_size->Ok_0,
                            max_size: max_size->Ok_0,
                            thread_is_flagged: thread_is_flagged->Ok_0,
                            thread_is_unread: thread_is_unread->Ok_0,
                            is_flagged: is_flagged->Ok_0,
                            is_unread: is_unread->Ok_0,
                            is_answered: is_answered->Ok_0,
                            is_draft: is_draft->Ok_0,
                            has_attachment: has_attachment->Ok_0,
                            text: text->Ok_0,
                            from: from->Ok_0,
                            to: to->Ok_0,
                            cc: cc->Ok_0,
                            bcc: bcc->Ok_0,
                            subject: subject->Ok_0,
                            body: body->Ok_0,
                            header: header->Ok_0,
                        },
                    )
                }
            },
            _ => Err(ParseErrorView::InvalidJsonType("FilterCondition"@)),
        }
    }

    fn from_json(json: &Json) -> (r: Result<Self, ParseError>) {
        match json {
            Json::Object(o) => {
                proof {
                    lemma_object_value(*o);
                }
                let in_mailboxes = match <Presence<Vec<String>> as FromJsonField>::from_json_field(
                    o,
                    "inMailboxes",
                ) {
                    Ok(v) => v,
                    Err(e) => return Err(e),
                };
                let not_in_mailboxes = match <Presence<Vec<String>> as FromJsonField>::from_json_field(
                    o,
                    "notInnMailboxes",
                ) {
                    Ok(v) => v,
                    Err(e) => return Err(e),
                };
                let before = match <Presence<Date> as FromJsonField>::from_json_field(o, "before") {
                    Ok(v) => v,
                    Err(e) => return Err(e),
                };
                let after = match <Presence<Date> as FromJsonField>::from_json_field(o, "after") {
                    Ok(v) => v,
                    Err(e) => return Err(e),
                };
                let min_size = match <Presence<u64> as FromJsonField>::from_json_field(
                    o,
                    "minSize",
                ) {
                    Ok(v) => v,
                    Err(e) => return Err(e),
                };
                let max_size = match <Presence<u64> as FromJsonField>::from_json_field(
                    o,
                    "maxSize",
                ) {
                    Ok(v) => v,
                    Err(e) => return Err(e),
                };
                let thread_is_flagged = match <Presence<bool> as FromJsonField>::from_json_field(
                    o,
                    "threadIsFlagged",
                ) {
                    Ok(v) => v,
                    Err(e) => return Err(e),
                };
                let thread_is_unread = match <Presence<bool> as FromJsonField>::from_json_field(
                    o,
                    "threadIsUnread",
                ) {
                    Ok(v) => v,
                    Err(e) => return Err(e),
                };
                let is_flagged = match <Presence<bool> as FromJsonField>::from_json_field(
                    o,
                    "isFlagged",
                ) {
                    Ok(v) => v,
                    Err(e) => return Err(e),
                };
                let is_unread = match <Presence<bool> as FromJsonField>::from_json_field(
                    o,
                    "isUnread",
                ) {
                    Ok(v) => v,
                    Err(e) => return Err(e),
                };
                let is_answered = match <Presence<bool> as FromJsonField>::from_json_field(
                    o,
                    "isAnswered",
                ) {
                    Ok(v) => v,
                    Err(e) => return Err(e),
                };
                let is_draft = match <Presence<bool> as FromJsonField>::from_json_field(
                    o,
                    "isDraft",
                ) {
                    Ok(v) => v,
                    Err(e) => return Err(e),
                };
                let has_attachment = match <Presence<bool> as FromJsonField>::from_json_field(
                    o,
                    "hasAttachment",
                ) {
                    Ok(v) => v,
                    Err(e) => return Err(e),
                };
                let text = match <Presence<String> as FromJsonField>::from_json_field(o, "text") {
                    Ok(v) => v,
                    Err(e) => return Err(e),
                };
                let from = match <Presence<String> as FromJsonField>::from_json_field(o, "from") {
                    Ok(v) => v,
                    Err(e) => return Err(e),
                };
                let to = match <Presence<String> as FromJsonField>::from_json_field(o, "to") {
                    Ok(v) => v,
                    Err(e) => return Err(e),
                };
                let cc = match <Presence<String> as FromJsonField>::from_json_field(o, "cc") {
                    Ok(v) => v,
                    Err(e) => return Err(e),
                };
                let bcc = match <Presence<String> as FromJsonField>::from_json_field(o, "bcc") {
                    Ok(v) => v,
                    Err(e) => return Err(e),
                };
                let subject = match <Presence<String> as FromJsonField>::from_json_field(
                    o,
                    "subject",
                ) {
                    Ok(v) => v,
                    Err(e) => return Err(e),
                };
                let body = match <Presence<String> as FromJsonField>::from_json_field(o, "body") {
                    Ok(v) => v,
                    Err(e) => return Err(e),
                };
                let header = match <Presence<Vec<String>> as FromJsonField>::from_json_field(
                    o,
                    "header",
                ) {
                    Ok(v) => v,
                    Err(e) => return Err(e),
                };
                Ok(FilterCondition {
                    in_mailboxes,
                    not_in_mailboxes,
                    before,
                    after,
                    min_size,
                    max_size,
                    thread_is_flagged,
                    thread_is_unread,
                    is_flagged,
                    is_unread,
                    is_answered,
                    is_draft,
                    has_attachment,
                    text,
                    from,
                    to,
                    cc,
                    bcc,
                    subject,
                    body,
                    header,
                })
            },
            _ => Err(ParseError::InvalidJsonType("FilterCondition".to_string())),
        }
    }
}

impl JsonCodec for FilterCondition {
    open spec fn valid(v: FilterConditionView) -> bool {
        &&& <Presence<Vec<String>> as FieldCodec>::field_valid(v.in_mailboxes)
        &&& <Presence<Vec<String>> as FieldCodec>::field_valid(v.not_in_mailboxes)
        &&& <Presence<Date> as FieldCodec>::field_valid(v.before)
        &&& <Presence<Date> as FieldCodec>::field_valid(v.after)
        &&& <Presence<u64> as FieldCodec>::field_valid(v.min_size)
        &&& <Presence<u64> as FieldCodec>::field_valid(v.max_size)
        &&& <Presence<bool> as FieldCodec>::field_valid(v.thread_is_flagged)
        &&& <Presence<bool> as FieldCodec>::field_valid(v.thread_is_unread)
        &&& <Presence<bool> as FieldCodec>::field_valid(v.is_flagged)
        &&& <Presence<bool> as FieldCodec>::field_valid(v.is_unread)
        &&& <Presence<bool> as FieldCodec>::field_valid(v.is_answered)
        &&& <Presence<bool> as FieldCodec>::field_valid(v.is_draft)
        &&& <Presence<bool> as FieldCodec>::field_valid(v.has_attachment)
        &&& <Presence<String> as FieldCodec>::field_valid(v.text)
        &&& <Presence<String> as FieldCodec>::field_valid(v.from)
        &&& <Presence<String> as FieldCodec>::field_valid(v.to)
        &&& <Presence<String> as FieldCodec>::field_valid(v.cc)
        &&& <Presence<String> as FieldCodec>::field_valid(v.bcc)
        &&& <Presence<String> as FieldCodec>::field_valid(v.subject)
        &&& <Presence<String> as FieldCodec>::field_valid(v.body)
        &&& <Presence<Vec<String>> as FieldCodec>::field_valid(v.header)
    }

    proof fn round_trip(v: FilterConditionView) {
        let o = Self::encoded(v)->Object_0;
        Self::lemma_wire_names();
        assert(get_field::<Presence<Vec<String>>>(o, "inMailboxes"@) == Ok::<
            Presence<Seq<Seq<char>>>,
            ParseErrorView,
        >(v.in_mailboxes)) by {
            Self::lemma_slots(v, "inMailboxes"@);
            <Presence<Vec<String>> as FieldCodec>::field_round_trip(v.in_mailboxes, "inMailboxes"@);
        }
        assert(get_field::<Presence<Vec<String>>>(o, "notInnMailboxes"@) == Ok::<
            Presence<Seq<Seq<char>>>,
            ParseErrorView,
        >(v.not_in_mailboxes)) by {
            Self::lemma_slots(v, "notInnMailboxes"@);
            <Presence<Vec<String>> as FieldCodec>::field_round_trip(
                v.not_in_mailboxes,
                "notInnMailboxes"@,
            );
        }
        assert(get_field::<Presence<Date>>(o, "before"@) == Ok::<
            Presence<Date>,
            ParseErrorView,
        >(v.before)) by {
            Self::lemma_slots(v, "before"@);
            <Presence<Date> as FieldCodec>::field_round_trip(v.before, "before"@);
        }
        assert(get_field::<Presence<Date>>(o, "after"@) == Ok::<
            Presence<Date>,
            ParseErrorView,
        >(v.after)) by {
            Self::lemma_slots(v, "after"@);
            <Presence<Date> as FieldCodec>::field_round_trip(v.after, "after"@);
        }
        assert(get_field::<Presence<u64>>(o, "minSize"@) == Ok::<
            Presence<u64>,
            ParseErrorView,
        >(v.min_size)) by {
            Self::lemma_slots(v, "minSize"@);
            <Presence<u64> as FieldCodec>::field_round_trip(v.min_size, "minSize"@);
        }
        assert(get_field::<Presence<u64>>(o, "maxSize"@) == Ok::<
            Presence<u64>,
            ParseErrorView,
        >(v.max_size)) by {
            Self::lemma_slots(v, "maxSize"@);
            <Presence<u64> as FieldCodec>::field_round_trip(v.max_size, "maxSize"@);
        }
        assert(get_field::<Presence<bool>>(o, "threadIsFlagged"@) == Ok::<
            Presence<bool>,
            ParseErrorView,
        >(v.thread_is_flagged)) by {
            Self::lemma_slots(v, "threadIsFlagged"@);
            <Presence<bool> as FieldCodec>::field_round_trip(
                v.thread_is_flagged,
                "threadIsFlagged"@,
            );
        }
        assert(get_field::<Presence<bool>>(o, "threadIsUnread"@) == Ok::<
            Presence<bool>,
            ParseErrorView,
        >(v.thread_is_unread)) by {
            Self::lemma_slots(v, "threadIsUnread"@);
            <Presence<bool> as FieldCodec>::field_round_trip(v.thread_is_unread, "threadIsUnread"@);
        }
        assert(get_field::<Presence<bool>>(o, "isFlagged"@) == Ok::<
            Presence<bool>,
            ParseErrorView,
        >(v.is_flagged)) by {
            Self::lemma_slots(v, "isFlagged"@);
            <Presence<bool> as FieldCodec>::field_round_trip(v.is_flagged, "isFlagged"@);
        }
        assert(get_field::<Presence<bool>>(o, "isUnread"@) == Ok::<
            Presence<bool>,
            ParseErrorView,
        >(v.is_unread)) by {
            Self::lemma_slots(v, "isUnread"@);
            <Presence<bool> as FieldCodec>::field_round_trip(v.is_unread, "isUnread"@);
        }
        assert(get_field::<Presence<bool>>(o, "isAnswered"@) == Ok::<
            Presence<bool>,
            ParseErrorView,
        >(v.is_answered)) by {
            Self::lemma_slots(v, "isAnswered"@);
            <Presence<bool> as FieldCodec>::field_round_trip(v.is_answered, "isAnswered"@);
        }
        assert(get_field::<Presence<bool>>(o, "isDraft"@) == Ok::<
            Presence<bool>,
            ParseErrorView,
        >(v.is_draft)) by {
            Self::lemma_slots(v, "isDraft"@);
            <Presence<bool> as FieldCodec>::field_round_trip(v.is_draft, "isDraft"@);
        }
        assert(get_field::<Presence<bool>>(o, "hasAttachment"@) == Ok::<
            Presence<bool>,
            ParseErrorView,
        >(v.has_attachment)) by {
            Self::lemma_slots(v, "hasAttachment"@);
            <Presence<bool> as FieldCodec>::field_round_trip(v.has_attachment, "hasAttachment"@);
        }
        assert(get_field::<Presence<String>>(o, "text"@) == Ok::<
            Presence<Seq<char>>,
            ParseErrorView,
        >(v.text)) by {
            Self::lemma_slots(v, "text"@);
            <Presence<String> as FieldCodec>::field_round_trip(v.text, "text"@);
        }
        assert(get_field::<Presence<String>>(o, "from"@) == Ok::<
            Presence<Seq<char>>,
            ParseErrorView,
        >(v.from)) by {
            Self::lemma_slots(v, "from"@);
            <Presence<String> as FieldCodec>::field_round_trip(v.from, "from"@);
        }
        assert(get_field::<Presence<String>>(o, "to"@) == Ok::<
            Presence<Seq<char>>,
            ParseErrorView,
        >(v.to)) by {
            Self::lemma_slots(v, "to"@);
            <Presence<String> as FieldCodec>::field_round_trip(v.to, "to"@);
        }
        assert(get_field::<Presence<String>>(o, "cc"@) == Ok::<
            Presence<Seq<char>>,
            ParseErrorView,
        >(v.cc)) by {
            Self::lemma_slots(v, "cc"@);
            <Presence<String> as FieldCodec>::field_round_trip(v.cc, "cc"@);
        }
        assert(get_field::<Presence<String>>(o, "bcc"@) == Ok::<
            Presence<Seq<char>>,
            ParseErrorView,
        >(v.bcc)) by {
            Self::lemma_slots(v, "bcc"@);
            <Presence<String> as FieldCodec>::field_round_trip(v.bcc, "bcc"@);
        }
        assert(get_field::<Presence<String>>(o, "subject"@) == Ok::<
            Presence<Seq<char>>,
            ParseErrorView,
        >(v.subject)) by {
            Self::lemma_slots(v, "subject"@);
            <Presence<String> as FieldCodec>::field_round_trip(v.subject, "subject"@);
        }
        assert(get_field::<Presence<String>>(o, "body"@) == Ok::<
            Presence<Seq<char>>,
            ParseErrorView,
        >(v.body)) by {
            Self::lemma_slots(v, "body"@);
            <Presence<String> as FieldCodec>::field_round_trip(v.body, "body"@);
        }
        assert(get_field::<Presence<Vec<String>>>(o, "header"@) == Ok::<
            Presence<Seq<Seq<char>>>,
            ParseErrorView,
        >(v.header)) by {
            Self::lemma_slots(v, "header"@);
            <Presence<Vec<String>> as FieldCodec>::field_round_trip(v.header, "header"@);
        }
    }
}

impl FilterCondition {
    /// What the written form of `v` holds under `name`.
    pub open spec fn slot(v: FilterConditionView, name: Seq<char>) -> Option<JsonValue> {
        if name == "inMailboxes"@ {
            <Presence<Vec<String>> as ToJsonField>::field_encoded(v.in_mailboxes)
        } else if name == "notInnMailboxes"@ {
            <Presence<Vec<String>> as ToJsonField>::field_encoded(v.not_in_mailboxes)
        } else if name == "before"@ {
            <Presence<Date> as ToJsonField>::field_encoded(v.before)
        } else if name == "after"@ {
            <Presence<Date> as ToJsonField>::field_encoded(v.after)
        } else if name == "minSize"@ {
            <Presence<u64> as ToJsonField>::field_encoded(v.min_size)
        } else if name == "maxSize"@ {
            <Presence<u64> as ToJsonField>::field_encoded(v.max_size)
        } else if name == "threadIsFlagged"@ {
            <Presence<bool> as ToJsonField>::field_encoded(v.thread_is_flagged)
        } else if name == "threadIsUnread"@ {
            <Presence<bool> as ToJsonField>::field_encoded(v.thread_is_unread)
        } else if name == "isFlagged"@ {
            <Presence<bool> as ToJsonField>::field_encoded(v.is_flagged)
        } else if name == "isUnread"@ {
            <Presence<bool> as ToJsonField>::field_encoded(v.is_unread)
        } else if name == "isAnswered"@ {
            <Presence<bool> as ToJsonField>::field_encoded(v.is_answered)
        } else if name == "isDraft"@ {
            <Presence<bool> as ToJsonField>::field_encoded(v.is_draft)
        } else if name == "hasAttachment"@ {
            <Presence<bool> as ToJsonField>::field_encoded(v.has_attachment)
        } else if name == "text"@ {
            <Presence<String> as ToJsonField>::field_encoded(v.text)
        } else if name == "from"@ {
            <Presence<String> as ToJsonField>::field_encoded(v.from)
        } else if name == "to"@ {
            <Presence<String> as ToJsonField>::field_encoded(v.to)
        } else if name == "cc"@ {
            <Presence<String> as ToJsonField>::field_encoded(v.cc)
        } else if name == "bcc"@ {
            <Presence<String> as ToJsonField>::field_encoded(v.bcc)
        } else if name == "subject"@ {
            <Presence<String> as ToJsonField>::field_encoded(v.subject)
        } else if name == "body"@ {
            <Presence<String> as ToJsonField>::field_encoded(v.body)
        } else if name == "header"@ {
            <Presence<Vec<String>> as ToJsonField>::field_encoded(v.header)
        } else {
            None
        }
    }

    /// The written form holds each field under its wire name and nothing
    /// under any other name.
    pub proof fn lemma_slots(v: FilterConditionView, name: Seq<char>)
        ensures
            field_of(Self::encoded(v), name) == Self::slot(v, name),
    {
        Self::lemma_wire_names();
        if name == "inMailboxes"@ {
            assert(field_of(Self::encoded(v), name) == Self::slot(v, name)) by {
                broadcast use lemma_lookup_put_slot;

            }
        } else if name == "notInnMailboxes"@ {
            assert(field_of(Self::encoded(v), name) == Self::slot(v, name)) by {
                broadcast use lemma_lookup_put_slot;

            }
        } else if name == "before"@ {
            assert(field_of(Self::encoded(v), name) == Self::slot(v, name)) by {
                broadcast use lemma_lookup_put_slot;

            }
        } else if name == "after"@ {
            assert(field_of(Self::encoded(v), name) == Self::slot(v, name)) by {
                broadcast use lemma_lookup_put_slot;

            }
        } else if name == "minSize"@ {
            assert(field_of(Self::encoded(v), name) == Self::slot(v, name)) by {
                broadcast use lemma_lookup_put_slot;

            }
        } else if name == "maxSize"@ {
            assert(field_of(Self::encoded(v), name) == Self::slot(v, name)) by {
                broadcast use lemma_lookup_put_slot;

            }
        } else if name == "threadIsFlagged"@ {
            assert(field_of(Self::encoded(v), name) == Self::slot(v, name)) by {
                broadcast use lemma_lookup_put_slot;

            }
        } else if name == "threadIsUnread"@ {
            assert(field_of(Self::encoded(v), name) == Self::slot(v, name)) by {
                broadcast use lemma_lookup_put_slot;

            }
        } else if name == "isFlagged"@ {
            assert(field_of(Self::encoded(v), name) == Self::slot(v, name)) by {
                broadcast use lemma_lookup_put_slot;

            }
        } else if name == "isUnread"@ {
            assert(field_of(Self::encoded(v), name) == Self::slot(v, name)) by {
                broadcast use lemma_lookup_put_slot;

            }
        } else if name == "isAnswered"@ {
            assert(field_of(Self::encoded(v), name) == Self::slot(v, name)) by {
                broadcast use lemma_lookup_put_slot;

            }
        } else if name == "isDraft"@ {
            assert(field_of(Self::encoded(v), name) == Self::slot(v, name)) by {
                broadcast use lemma_lookup_put_slot;

            }
        } else if name == "hasAttachment"@ {
            assert(field_of(Self::encoded(v), name) == Self::slot(v, name)) by {
                broadcast use lemma_lookup_put_slot;

            }
        } else if name == "text"@ {
            assert(field_of(Self::encoded(v), name) == Self::slot(v, name)) by {
                broadcast use lemma_lookup_put_slot;

            }
        } else if name == "from"@ {
            assert(field_of(Self::encoded(v), name) == Self::slot(v, name)) by {
                broadcast use lemma_lookup_put_slot;

            }
        } else if name == "to"@ {
            assert(field_of(Self::encoded(v), name) == Self::slot(v, name)) by {
                broadcast use lemma_lookup_put_slot;

            }
        } else if name == "cc"@ {
            assert(field_of(Self::encoded(v), name) == Self::slot(v, name)) by {
                broadcast use lemma_lookup_put_slot;

            }
        } else if name == "bcc"@ {
            assert(field_of(Self::encoded(v), name) == Self::slot(v, name)) by {
                broadcast use lemma_lookup_put_slot;

            }
        } else if name == "subject"@ {
            assert(field_of(Self::encoded(v), name) == Self::slot(v, name)) by {
                broadcast use lemma_lookup_put_slot;

            }
        } else if name == "body"@ {
            assert(field_of(Self::encoded(v), name) == Self::slot(v, name)) by {
                broadcast use lemma_lookup_put_slot;

            }
        } else if name == "header"@ {
            assert(field_of(Self::encoded(v), name) == Self::slot(v, name)) by {
                broadcast use lemma_lookup_put_slot;

            }
        } else {
            assert(field_of(Self::encoded(v), name) is None) by {
                broadcast use lemma_lookup_put_slot;

            }
        }
    }
}

/// A filter on messages: a condition, or an operator over filters.
#[derive(Debug, PartialEq)]
pub enum Filter {
    Operator(FilterOperator),
    Condition(FilterCondition),
}

/// A [`Filter`] in contracts.
pub ghost enum FilterView {
    Operator(FilterOperatorView),
    Condition(FilterConditionView),
}

/// What a [`Filter`] stands for.
pub closed spec fn filter_view(f: Filter) -> FilterView
    decreases f, 1nat,
{
    match f {
        Filter::Operator(o) => FilterView::Operator(filter_operator_view(o)),
        Filter::Condition(c) => FilterView::Condition(c.deep_view()),
    }
}

impl DeepView for Filter {
    type V = FilterView;

    closed spec fn deep_view(&self) -> FilterView {
        filter_view(*self)
    }
}

/// What a list of filters stands for.
pub closed spec fn filter_list_view(v: Vec<Filter>) -> Seq<FilterView>
    decreases v, 0nat,
{
    Seq::new(
        v@.len(),
        |i: int|
            if 0 <= i < v@.len() {
                filter_view(v@[i])
            } else {
                FilterView::Condition(FilterCondition::blank())
            },
    )
}

/// A filter is written as the operator or the condition that it is.
pub open spec fn filter_encoded(v: FilterView) -> JsonValue
    decreases v, 1nat,
{
    match v {
        FilterView::Operator(o) => filter_operator_encoded(o),
        FilterView::Condition(c) => <FilterCondition as ToJson>::encoded(c),
    }
}

/// The written form of a list of filters: the array of the filters
/// written.
pub open spec fn filter_list_encoded(v: Seq<FilterView>) -> JsonValue
    decreases v, 0nat,
{
    JsonValue::Array(
        Seq::new(
            v.len(),
            |i: int|
                if 0 <= i < v.len() {
                    filter_encoded(v[i])
                } else {
                    JsonValue::Null
                },
        ),
    )
}

/// An object with the key `operator` is read as an operator, any other
/// object as a condition.
pub open spec fn filter_decoded(json: JsonValue) -> Result<FilterView, ParseErrorView>
    decreases json, 1nat,
{
    match json {
        JsonValue::Object(o) => if lookup(o, "operator"@) is Some {
            match filter_operator_decoded(json) {
                Ok(x) => Ok(FilterView::Operator(x)),
                Err(e) => Err(e),
            }
        } else {
            match <FilterCondition as FromJson>::decoded(json) {
                Ok(x) => Ok(FilterView::Condition(x)),
                Err(e) => Err(e),
            }
        },
        _ => Err(ParseErrorView::InvalidJsonType("Filter"@)),
    }
}

/// The first `n` items read one after the other: all of them, or the error
/// of the first that fails.
pub open spec fn filter_items_decoded(a: Seq<JsonValue>, n: nat) -> Result<
    Seq<FilterView>,
    ParseErrorView,
>
    decreases a, n,
{
    if n == 0 || n > a.len() {
        Ok(Seq::empty())
    } else {
        match filter_items_decoded(a, (n - 1) as nat) {
            Err(e) => Err(e),
            Ok(vs) => match filter_decoded(a[n - 1]) {
                Err(e) => Err(e),
                Ok(v) => Ok(vs.push(v)),
            },
        }
    }
}

/// What a JSON value is read as: the items of an array in their order.
pub open spec fn filter_list_decoded(json: JsonValue) -> Result<Seq<FilterView>, ParseErrorView>
    decreases json, 0nat,
{
    match json {
        JsonValue::Array(a) => filter_items_decoded(a, a.len()),
        _ => Err(ParseErrorView::InvalidJsonType("Vec"@)),
    }
}

/// What the conditions of an operator are read as from the field `name` of
/// the object `o`, which must have the field.
pub open spec fn filter_list_field_decoded(
    o: Seq<(Seq<char>, JsonValue)>,
    name: Seq<char>,
) -> Result<
    Seq<FilterView>,
    ParseErrorView,
>
    decreases o, 0nat,
{
    match lookup(o, name) {
        Some(j) => {
            proof {
                lemma_found_is_part(o, name);
            }
            filter_list_decoded(j)
        },
        None => Err(ParseErrorView::MissingField(name)),
    }
}

/// The filters that read back from their written form.
pub open spec fn filter_valid(v: FilterView) -> bool
    decreases v, 1nat,
{
    match v {
        FilterView::Operator(o) => filter_operator_valid(o),
        FilterView::Condition(c) => <FilterCondition as JsonCodec>::valid(c),
    }
}

/// The first `n` filters of the list are valid.
pub open spec fn filter_items_valid(v: Seq<FilterView>, n: nat) -> bool
    decreases v, n,
{
    n == 0 || n > v.len() || (filter_items_valid(v, (n - 1) as nat) && filter_valid(v[n - 1]))
}

/// Every filter of the list is valid.
pub open spec fn filter_list_valid(v: Seq<FilterView>) -> bool
    decreases v, v.len() + 1,
{
    filter_items_valid(v, v.len())
}

/// Reading the written form of a valid filter gives it back.
pub proof fn lemma_filter_round_trip(v: FilterView)
    requires
        filter_valid(v),
    ensures
        filter_decoded(filter_encoded(v)) == Ok::<FilterView, ParseErrorView>(v),
        filter_encoded(v) is Object,
    decreases v, 1nat,
{
    match v {
        FilterView::Operator(o) => {
            FilterOperator::lemma_slots(o, "operator"@);
            lemma_filter_operator_round_trip(o);
        },
        FilterView::Condition(c) => {
            FilterCondition::lemma_wire_names();
            reveal_strlit("operator");
            reveal_strlit("isUnread");
            assert("operator"@.len() == 8);
            assert("operator"@[0] != "isUnread"@[0]);
            FilterCondition::lemma_slots(c, "operator"@);
            <FilterCondition as JsonCodec>::round_trip(c);
        },
    }
}

proof fn lemma_filter_items_round_trip(v: Seq<FilterView>, n: nat)
    requires
        n <= v.len(),
        filter_items_valid(v, n),
    ensures
        filter_items_decoded(filter_list_encoded(v)->Array_0, n) == Ok::<
            Seq<FilterView>,
            ParseErrorView,
        >(v.take(n as int)),
    decreases v, n,
{
    if n == 0 {
        assert(v.take(0) =~= Seq::empty());
    } else {
        lemma_filter_items_round_trip(v, (n - 1) as nat);
        lemma_filter_round_trip(v[n - 1]);
        assert(v.take(n - 1).push(v[n - 1]) =~= v.take(n as int));
    }
}

/// Reading the written form of a valid list of filters gives it back.
pub proof fn lemma_filter_list_round_trip(v: Seq<FilterView>)
    requires
        filter_list_valid(v),
    ensures
        filter_list_decoded(filter_list_encoded(v)) == Ok::<Seq<FilterView>, ParseErrorView>(v),
    decreases v, v.len() + 1,
{
    lemma_filter_items_round_trip(v, v.len());
    assert(v.take(v.len() as int) =~= v);
}

proof fn lemma_filter_items_error_stays(a: Seq<JsonValue>, n: nat)
    requires
        n <= a.len(),
        filter_items_decoded(a, n) is Err,
    ensures
        filter_items_decoded(a, a.len()) == filter_items_decoded(a, n),
    decreases a.len() - n,
{
    if n < a.len() {
        lemma_filter_items_error_stays(a, n + 1);
    }
}

/// Reads a [`Filter`].
pub fn read_filter(json: &Json) -> (r: Result<Filter, ParseError>)
    ensures
        result_view(r) == filter_decoded(json@),
    decreases json, 1nat,
{
    match json {
        Json::Object(o) => {
            proof {
                lemma_object_value(*o);
                lemma_deepened_lookup(o@, "operator"@);
            }
            match o.get("operator") {
                Some(_) => match read_filter_operator(json) {
                    Ok(x) => Ok(Filter::Operator(x)),
                    Err(e) => Err(e),
                },
                None => match FilterCondition::from_json(json) {
                    Ok(x) => Ok(Filter::Condition(x)),
                    Err(e) => Err(e),
                },
            }
        },
        _ => Err(ParseError::InvalidJsonType("Filter".to_string())),
    }
}

/// Writes a [`Filter`].
pub fn write_filter(f: &Filter) -> (json: Json)
    ensures
        json@ == filter_encoded(f.deep_view()),
    decreases f, 1nat,
{
    match f {
        Filter::Operator(o) => write_filter_operator(o),
        Filter::Condition(c) => c.to_json(),
    }
}

/// Copies a [`Filter`].
pub fn copy_filter(f: &Filter) -> (r: Filter)
    ensures
        r.deep_view() == f.deep_view(),
    decreases f, 1nat,
{
    match f {
        Filter::Operator(o) => Filter::Operator(copy_filter_operator(o)),
        Filter::Condition(c) => Filter::Condition(c.duplicate()),
    }
}

/// Reads a list of filters.
pub fn read_filter_list(json: &Json) -> (r: Result<Vec<Filter>, ParseError>)
    ensures
        match r {
            Ok(v) => filter_list_decoded(json@) == Ok::<Seq<FilterView>, ParseErrorView>(
                filter_list_view(v),
            ),
            Err(e) => filter_list_decoded(json@) == Err::<Seq<FilterView>, ParseErrorView>(
                e.deep_view(),
            ),
        },
    decreases json, 0nat,
{
    match json {
        Json::Array(a) => {
            proof {
                lemma_array_value(*a);
            }
            let ghost items = a.deep_view();
            let mut out: Vec<Filter> = Vec::new();
            assert(filter_list_view(out) =~= Seq::empty());
            for i in 0..a.len()
                invariant
                    items == a.deep_view(),
                    json@ == JsonValue::Array(items),
                    decreases_to!(json => a),
                    filter_items_decoded(items, i as nat) == Ok::<Seq<FilterView>, ParseErrorView>(
                        filter_list_view(out),
                    ),
            {
                assert(items[i as int] == a[i as int]@);
                assert(decreases_to!(a => a[i as int]));
                match read_filter(&a[i]) {
                    Ok(v) => {
                        let ghost before = filter_list_view(out);
                        out.push(v);
                        assert(filter_list_view(out) =~= before.push(v.deep_view()));
                    },
                    Err(e) => {
                        proof {
                            lemma_filter_items_error_stays(items, (i + 1) as nat);
                        }
                        return Err(e);
                    },
                }
            }
            Ok(out)
        },
        _ => Err(ParseError::InvalidJsonType("Vec".to_string())),
    }
}

/// Writes a list of filters.
pub fn write_filter_list(v: &Vec<Filter>) -> (json: Json)
    ensures
        json@ == filter_list_encoded(filter_list_view(*v)),
    decreases v, 0nat,
{
    let mut out: Vec<Json> = Vec::new();
    for i in 0..v.len()
        invariant
            out.len() == i,
            forall|k: int| 0 <= k < i ==> out[k]@ == filter_encoded(filter_view(v@[k])),
    {
        assert(decreases_to!(v => v[i as int]));
        out.push(write_filter(&v[i]));
    }
    proof {
        lemma_array_value(out);
        assert(out.deep_view() =~= filter_list_encoded(filter_list_view(*v))->Array_0);
    }
    Json::Array(out)
}

/// Copies a list of filters.
pub fn copy_filter_list(v: &Vec<Filter>) -> (r: Vec<Filter>)
    ensures
        filter_list_view(r) == filter_list_view(*v),
    decreases v, 0nat,
{
    let mut out: Vec<Filter> = Vec::new();
    for i in 0..v.len()
        invariant
            out.len() == i,
            forall|k: int| 0 <= k < i ==> filter_view(out@[k]) == filter_view(v@[k]),
    {
        assert(decreases_to!(v => v[i as int]));
        out.push(copy_filter(&v[i]));
    }
    assert(filter_list_view(out) =~= filter_list_view(*v));
    out
}

/// Reads the conditions of an operator from the field `name`.
pub fn read_filter_list_field(o: &TextMap<Json>, name: &str) -> (r: Result<Vec<Filter>, ParseError>)
    ensures
        match r {
            Ok(v) => filter_list_field_decoded(o.deep_view(), name@) == Ok::<
                Seq<FilterView>,
                ParseErrorView,
            >(filter_list_view(v)),
            Err(e) => filter_list_field_decoded(o.deep_view(), name@) == Err::<
                Seq<FilterView>,
                ParseErrorView,
            >(e.deep_view()),
        },
    decreases o, 0nat,
{
    proof {
        lemma_deepened_lookup(o@, name@);
    }
    match o.get(name) {
        Some(found) => read_filter_list(found),
        None => Err(ParseError::MissingField(name.to_string())),
    }
}

/// Writes the conditions of an operator to the field `name`.
pub fn write_filter_list_field(v: &Vec<Filter>, d: &mut TextMap<Json>, name: &str)
    ensures
        final(d).deep_view() == put_slot(
            old(d).deep_view(),
            name@,
            Some(filter_list_encoded(filter_list_view(*v))),
        ),
    decreases v, 1nat,
{
    reveal(put_slot);
    let value = write_filter_list(v);
    proof {
        lemma_deepened_put(d@, name@, value);
    }
    d.insert(name.to_string(), value);
}

impl Clone for Filter {
    fn clone(&self) -> (r: Self)
        ensures
            r.deep_view() == self.deep_view(),
    {
        copy_filter(self)
    }
}

impl Duplicate for Filter {
    fn duplicate(&self) -> (r: Self) {
        copy_filter(self)
    }
}

impl ToJson for Filter {
    open spec fn encoded(v: FilterView) -> JsonValue {
        filter_encoded(v)
    }

    fn to_json(&self) -> (json: Json) {
        write_filter(self)
    }
}

impl FromJson for Filter {
    open spec fn decoded(json: JsonValue) -> Result<FilterView, ParseErrorView> {
        filter_decoded(json)
    }

    fn from_json(json: &Json) -> (r: Result<Self, ParseError>) {
        read_filter(json)
    }
}

impl JsonCodec for Filter {
    open spec fn valid(v: FilterView) -> bool {
        filter_valid(v)
    }

    proof fn round_trip(v: FilterView) {
        lemma_filter_round_trip(v);
    }
}

/// A message that left a list.
#[derive(Clone, Debug, PartialEq)]
pub struct RemovedItem {
    message_id: String,
    thread_id: String,
}

/// A value of [`RemovedItem`] in contracts.
pub ghost struct RemovedItemView {
    pub message_id: Seq<char>,
    pub thread_id: Seq<char>,
}

impl DeepView for RemovedItem {
    type V = RemovedItemView;

    closed spec fn deep_view(&self) -> RemovedItemView {
        RemovedItemView {
            message_id: self.message_id.deep_view(),
            thread_id: self.thread_id.deep_view(),
        }
    }
}

impl RemovedItem {
    /// The default value: every field at the default of its type.
    pub open spec fn blank() -> RemovedItemView {
        RemovedItemView {
            message_id: Seq::<char>::empty(),
            thread_id: Seq::<char>::empty(),
        }
    }
}

impl Default for RemovedItem {
    fn default() -> (r: Self)
        ensures
            r.deep_view() == Self::blank(),
    {
        let message_id: String = String::new();
        let thread_id: String = String::new();
        RemovedItem { message_id, thread_id }
    }
}

impl RemovedItem {
    /// What tells the wire names of this type apart: the length of each, and
    /// for
    /// names of one length a character in which they differ.
    pub proof fn lemma_wire_names()
        ensures
            "messageId"@.len() == 9,
            "threadId"@.len() == 8,
    {
        reveal_strlit("messageId");
        reveal_strlit("threadId");
    }
}

impl Duplicate for RemovedItem {
    fn duplicate(&self) -> (r: Self) {
        let message_id = self.message_id.duplicate();
        let thread_id = self.thread_id.duplicate();
        RemovedItem { message_id, thread_id }
    }
}

impl ToJson for RemovedItem {
    /// An object with one key for each field.
    open spec fn encoded(v: RemovedItemView) -> JsonValue {
        let o = Seq::empty();
        let o = put_field::<String>(o, "messageId"@, v.message_id);
        let o = put_field::<String>(o, "threadId"@, v.thread_id);
        JsonValue::Object(o)
    }

    fn to_json(&self) -> (json: Json) {
        let mut d: TextMap<Json> = TextMap::new();
        assert(d.deep_view() =~= Seq::empty());
        self.message_id.to_json_field(&mut d, "messageId");
        self.thread_id.to_json_field(&mut d, "threadId");
        proof {
            lemma_object_value(d);
        }
        Json::Object(d)
    }
}

impl FromJson for RemovedItem {
    /// The fields are read in the order in which they are declared; the
    /// first that fails gives the error.
    open spec fn decoded(json: JsonValue) -> Result<RemovedItemView, ParseErrorView> {
        match json {
            JsonValue::Object(o) => {
                let message_id = get_field::<String>(o, "messageId"@);
                let thread_id = get_field::<String>(o, "threadId"@);
                if message_id is Err {
                    Err(message_id->Err_0)
                } else if thread_id is Err {
                    Err(thread_id->Err_0)
                } else {
                    Ok(
                        RemovedItemView {
                            message_id: message_id->Ok_0,
                            thread_id: thread_id->Ok_0,
                        },
                    )
                }
            },
            _ => Err(ParseErrorView::InvalidJsonType("RemovedItem"@)),
        }
    }

    fn from_json(json: &Json) -> (r: Result<Self, ParseError>) {
        match json {
            Json::Object(o) => {
                proof {
                    lemma_object_value(*o);
                }
                let message_id = match <String as FromJsonField>::from_json_field(o, "messageId") {
                    Ok(v) => v,
                    Err(e) => return Err(e),
                };
                let thread_id = match <String as FromJsonField>::from_json_field(o, "threadId") {
                    Ok(v) => v,
                    Err(e) => return Err(e),
                };
                Ok(RemovedItem { message_id, thread_id })
            },
            _ => Err(ParseError::InvalidJsonType("RemovedItem".to_string())),
        }
    }
}

impl JsonCodec for RemovedItem {
    open spec fn valid(v: RemovedItemView) -> bool {
        &&& <String as FieldCodec>::field_valid(v.message_id)
        &&& <String as FieldCodec>::field_valid(v.thread_id)
    }

    proof fn round_trip(v: RemovedItemView) {
        let o = Self::encoded(v)->Object_0;
        Self::lemma_wire_names();
        assert(get_field::<String>(o, "messageId"@) == Ok::<
            Seq<char>,
            ParseErrorView,
        >(v.message_id)) by {
            Self::lemma_slots(v, "messageId"@);
            <String as FieldCodec>::field_round_trip(v.message_id, "messageId"@);
        }
        assert(get_field::<String>(o, "threadId"@) == Ok::<
            Seq<char>,
            ParseErrorView,
        >(v.thread_id)) by {
            Self::lemma_slots(v, "threadId"@);
            <String as FieldCodec>::field_round_trip(v.thread_id, "threadId"@);
        }
    }
}

impl RemovedItem {
    /// What the written form of `v` holds under `name`.
    pub open spec fn slot(v: RemovedItemView, name: Seq<char>) -> Option<JsonValue> {
        if name == "messageId"@ {
            <String as ToJsonField>::field_encoded(v.message_id)
        } else if name == "threadId"@ {
            <String as ToJsonField>::field_encoded(v.thread_id)
        } else {
            None
        }
    }

    /// The written form holds each field under its wire name and nothing
    /// under any other name.
    pub proof fn lemma_slots(v: RemovedItemView, name: Seq<char>)
        ensures
            field_of(Self::encoded(v), name) == Self::slot(v, name),
    {
        Self::lemma_wire_names();
        if name == "messageId"@ {
            assert(field_of(Self::encoded(v), name) == Self::slot(v, name)) by {
                broadcast use lemma_lookup_put_slot;

            }
        } else if name == "threadId"@ {
            assert(field_of(Self::encoded(v), name) == Self::slot(v, name)) by {
                broadcast use lemma_lookup_put_slot;

            }
        } else {
            assert(field_of(Self::encoded(v), name) is None) by {
                broadcast use lemma_lookup_put_slot;

            }
        }
    }
}

/// A message that entered a list, with its place in the list.
#[derive(Clone, Debug, PartialEq)]
pub struct AddedItem {
    message_id: String,
    thread_id: String,
    index: u64,
}

/// A value of [`AddedItem`] in contracts.
pub ghost struct AddedItemView {
    pub message_id: Seq<char>,
    pub thread_id: Seq<char>,
    pub index: u64,
}

impl DeepView for AddedItem {
    type V = AddedItemView;

    closed spec fn deep_view(&self) -> AddedItemView {
        AddedItemView {
            message_id: self.message_id.deep_view(),
            thread_id: self.thread_id.deep_view(),
            index: self.index.deep_view(),
        }
    }
}

impl AddedItem {
    /// The default value: every field at the default of its type.
    pub open spec fn blank() -> AddedItemView {
        AddedItemView {
            message_id: Seq::<char>::empty(),
            thread_id: Seq::<char>::empty(),
            index: 0,
        }
    }
}

impl Default for AddedItem {
    fn default() -> (r: Self)
        ensures
            r.deep_view() == Self::blank(),
    {
        let message_id: String = String::new();
        let thread_id: String = String::new();
        let index: u64 = 0;
        AddedItem { message_id, thread_id, index }
    }
}

impl AddedItem {
    /// What tells the wire names of this type apart: the length of each, and
    /// for
    /// names of one length a character in which they differ.
    pub proof fn lemma_wire_names()
        ensures
            "messageId"@.len() == 9,
            "threadId"@.len() == 8,
            "index"@.len() == 5,
    {
        reveal_strlit("messageId");
        reveal_strlit("threadId");
        reveal_strlit("index");
    }
}

impl Duplicate for AddedItem {
    fn duplicate(&self) -> (r: Self) {
        let message_id = self.message_id.duplicate();
        let thread_id = self.thread_id.duplicate();
        let index = self.index.duplicate();
        AddedItem { message_id, thread_id, index }
    }
}

impl ToJson for AddedItem {
    /// An object with one key for each field.
    open spec fn encoded(v: AddedItemView) -> JsonValue {
        let o = Seq::empty();
        let o = put_field::<String>(o, "messageId"@, v.message_id);
        let o = put_field::<String>(o, "threadId"@, v.thread_id);
        let o = put_field::<u64>(o, "index"@, v.index);
        JsonValue::Object(o)
    }

    fn to_json(&self) -> (json: Json) {
        let mut d: TextMap<Json> = TextMap::new();
        assert(d.deep_view() =~= Seq::empty());
        self.message_id.to_json_field(&mut d, "messageId");
        self.thread_id.to_json_field(&mut d, "threadId");
        self.index.to_json_field(&mut d, "index");
        proof {
            lemma_object_value(d);
        }
        Json::Object(d)
    }
}

impl FromJson for AddedItem {
    /// The fields are read in the order in which they are declared; the
    /// first that fails gives the error.
    open spec fn decoded(json: JsonValue) -> Result<AddedItemView, ParseErrorView> {
        match json {
            JsonValue::Object(o) => {
                let message_id = get_field::<String>(o, "messageId"@);
                let thread_id = get_field::<String>(o, "threadId"@);
                let index = get_field::<u64>(o, "index"@);
                if message_id is Err {
                    Err(message_id->Err_0)
                } else if thread_id is Err {
                    Err(thread_id->Err_0)
                } else if index is Err {
                    Err(index->Err_0)
                } else {
                    Ok(
                        AddedItemView {
                            message_id: message_id->Ok_0,
                            thread_id: thread_id->Ok_0,
                            index: index->Ok_0,
                        },
                    )
                }
            },
            _ => Err(ParseErrorView::InvalidJsonType("AddedItem"@)),
        }
    }

    fn from_json(json: &Json) -> (r: Result<Self, ParseError>) {
        match json {
            Json::Object(o) => {
                proof {
                    lemma_object_value(*o);
                }
                let message_id = match <String as FromJsonField>::from_json_field(o, "messageId") {
                    Ok(v) => v,
                    Err(e) => return Err(e),
                };
                let thread_id = match <String as FromJsonField>::from_json_field(o, "threadId") {
                    Ok(v) => v,
                    Err(e) => return Err(e),
                };
                let index = match <u64 as FromJsonField>::from_json_field(o, "index") {
                    Ok(v) => v,
                    Err(e) => return Err(e),
                };
                Ok(AddedItem { message_id, thread_id, index })
            },
            _ => Err(ParseError::InvalidJsonType("AddedItem".to_string())),
        }
    }
}

impl JsonCodec for AddedItem {
    open spec fn valid(v: AddedItemView) -> bool {
        &&& <String as FieldCodec>::field_valid(v.message_id)
        &&& <String as FieldCodec>::field_valid(v.thread_id)
        &&& <u64 as FieldCodec>::field_valid(v.index)
    }

    proof fn round_trip(v: AddedItemView) {
        let o = Self::encoded(v)->Object_0;
        Self::lemma_wire_names();
        assert(get_field::<String>(o, "messageId"@) == Ok::<
            Seq<char>,
            ParseErrorView,
        >(v.message_id)) by {
            Self::lemma_slots(v, "messageId"@);
            <String as FieldCodec>::field_round_trip(v.message_id, "messageId"@);
        }
        assert(get_field::<String>(o, "threadId"@) == Ok::<
            Seq<char>,
            ParseErrorView,
        >(v.thread_id)) by {
            Self::lemma_slots(v, "threadId"@);
            <String as FieldCodec>::field_round_trip(v.thread_id, "threadId"@);
        }
        assert(get_field::<u64>(o, "index"@) == Ok::<u64, ParseErrorView>(v.index)) by {
            Self::lemma_slots(v, "index"@);
            <u64 as FieldCodec>::field_round_trip(v.index, "index"@);
        }
    }
}

impl AddedItem {
    /// What the written form of `v` holds under `name`.
    pub open spec fn slot(v: AddedItemView, name: Seq<char>) -> Option<JsonValue> {
        if name == "messageId"@ {
            <String as ToJsonField>::field_encoded(v.message_id)
        } else if name == "threadId"@ {
            <String as ToJsonField>::field_encoded(v.thread_id)
        } else if name == "index"@ {
            <u64 as ToJsonField>::field_encoded(v.index)
        } else {
            None
        }
    }

    /// The written form holds each field under its wire name and nothing
    /// under any other name.
    pub proof fn lemma_slots(v: AddedItemView, name: Seq<char>)
        ensures
            field_of(Self::encoded(v), name) == Self::slot(v, name),
    {
        Self::lemma_wire_names();
        if name == "messageId"@ {
            assert(field_of(Self::encoded(v), name) == Self::slot(v, name)) by {
                broadcast use lemma_lookup_put_slot;

            }
        } else if name == "threadId"@ {
            assert(field_of(Self::encoded(v), name) == Self::slot(v, name)) by {
                broadcast use lemma_lookup_put_slot;

            }
        } else if name == "index"@ {
            assert(field_of(Self::encoded(v), name) == Self::slot(v, name)) by {
                broadcast use lemma_lookup_put_slot;

            }
        } else {
            assert(field_of(Self::encoded(v), name) is None) by {
                broadcast use lemma_lookup_put_slot;

            }
        }
    }
}

/// What a client asks for when it fetches a list of messages.
#[derive(Clone, Debug, PartialEq)]
pub struct GetMessageListRequestArgs {
    pub account_id: Presence<String>,
    pub sort: Presence<Vec<String>>,
    pub collapse_threads: Presence<bool>,
    pub position: Presence<u64>,
    pub anchor: Presence<String>,
    pub anchor_offset: Presence<i64>,
    pub limit: Presence<u64>,
    pub fetch_threads: Presence<bool>,
    pub fetch_messages: Presence<bool>,
    pub fetch_message_properties: Presence<bool>,
    pub fetch_search_snippets: Presence<bool>,
}

/// A value of [`GetMessageListRequestArgs`] in contracts.
pub ghost struct GetMessageListRequestArgsView {
    pub account_id: Presence<Seq<char>>,
    pub sort: Presence<Seq<Seq<char>>>,
    pub collapse_threads: Presence<bool>,
    pub position: Presence<u64>,
    pub anchor: Presence<Seq<char>>,
    pub anchor_offset: Presence<i64>,
    pub limit: Presence<u64>,
    pub fetch_threads: Presence<bool>,
    pub fetch_messages: Presence<bool>,
    pub fetch_message_properties: Presence<bool>,
    pub fetch_search_snippets: Presence<bool>,
}

impl DeepView for GetMessageListRequestArgs {
    type V = GetMessageListRequestArgsView;

    open spec fn deep_view(&self) -> GetMessageListRequestArgsView {
        GetMessageListRequestArgsView {
            account_id: self.account_id.deep_view(),
            sort: self.sort.deep_view(),
            collapse_threads: self.collapse_threads.deep_view(),
            position: self.position.deep_view(),
            anchor: self.anchor.deep_view(),
            anchor_offset: self.anchor_offset.deep_view(),
            limit: self.limit.deep_view(),
            fetch_threads: self.fetch_threads.deep_view(),
            fetch_messages: self.fetch_messages.deep_view(),
            fetch_message_properties: self.fetch_message_properties.deep_view(),
            fetch_search_snippets: self.fetch_search_snippets.deep_view(),
        }
    }
}

impl GetMessageListRequestArgs {
    /// The default value: every field at the default of its type.
    pub open spec fn blank() -> GetMessageListRequestArgsView {
        GetMessageListRequestArgsView {
            account_id: Presence::Absent,
            sort: Presence::Absent,
            collapse_threads: Presence::Absent,
            position: Presence::Absent,
            anchor: Presence::Absent,
            anchor_offset: Presence::Absent,
            limit: Presence::Absent,
            fetch_threads: Presence::Absent,
            fetch_messages: Presence::Absent,
            fetch_message_properties: Presence::Absent,
            fetch_search_snippets: Presence::Absent,
        }
    }
}

impl Default for GetMessageListRequestArgs {
    fn default() -> (r: Self)
        ensures
            r.deep_view() == Self::blank(),
    {
        let account_id: Presence<String> = Presence::Absent;
        let sort: Presence<Vec<String>> = Presence::Absent;
        let collapse_threads: Presence<bool> = Presence::Absent;
        let position: Presence<u64> = Presence::Absent;
        let anchor: Presence<String> = Presence::Absent;
        let anchor_offset: Presence<i64> = Presence::Absent;
        let limit: Presence<u64> = Presence::Absent;
        let fetch_threads: Presence<bool> = Presence::Absent;
        let fetch_messages: Presence<bool> = Presence::Absent;
        let fetch_message_properties: Presence<bool> = Presence::Absent;
        let fetch_search_snippets: Presence<bool> = Presence::Absent;
        GetMessageListRequestArgs {
            account_id,
            sort,
            collapse_threads,
            position,
            anchor,
            anchor_offset,
            limit,
            fetch_threads,
            fetch_messages,
            fetch_message_properties,
            fetch_search_snippets,
        }
    }
}

impl GetMessageListRequestArgs {
    /// What tells the wire names of this type apart: the length of each, and
    /// for
    /// names of one length a character in which they differ.
    pub proof fn lemma_wire_names()
        ensures
            "accountId"@.len() == 9,
            "sort"@.len() == 4,
            "collapseThreads"@.len() == 15,
            "position"@.len() == 8,
            "anchor"@.len() == 6,
            "anchorOffset"@.len() == 12,
            "limit"@.len() == 5,
            "fetchThreads"@.len() == 12,
            "fetchMessages"@.len() == 13,
            "fetchMessageProperties"@.len() == 22,
            "fetchSearchSnippets"@.len() == 19,
            "anchorOffset"@[0] == 'a',
            "fetchThreads"@[0] == 'f',
    {
        reveal_strlit("accountId");
        reveal_strlit("sort");
        reveal_strlit("collapseThreads");
        reveal_strlit("position");
        reveal_strlit("anchor");
        reveal_strlit("anchorOffset");
        reveal_strlit("limit");
        reveal_strlit("fetchThreads");
        reveal_strlit("fetchMessages");
        reveal_strlit("fetchMessageProperties");
        reveal_strlit("fetchSearchSnippets");
    }
}

impl Duplicate for GetMessageListRequestArgs {
    fn duplicate(&self) -> (r: Self) {
        let account_id = self.account_id.duplicate();
        let sort = self.sort.duplicate();
        let collapse_threads = self.collapse_threads.duplicate();
        let position = self.position.duplicate();
        let anchor = self.anchor.duplicate();
        let anchor_offset = self.anchor_offset.duplicate();
        let limit = self.limit.duplicate();
        let fetch_threads = self.fetch_threads.duplicate();
        let fetch_messages = self.fetch_messages.duplicate();
        let fetch_message_properties = self.fetch_message_properties.duplicate();
        let fetch_search_snippets = self.fetch_search_snippets.duplicate();
        GetMessageListRequestArgs {
            account_id,
            sort,
            collapse_threads,
            position,
            anchor,
            anchor_offset,
            limit,
            fetch_threads,
            fetch_messages,
            fetch_message_properties,
            fetch_search_snippets,
        }
    }
}

impl ToJson for GetMessageListRequestArgs {
    /// An object with one key for each field.
    open spec fn encoded(v: GetMessageListRequestArgsView) -> JsonValue {
        let o = Seq::empty();
        let o = put_field::<Presence<String>>(o, "accountId"@, v.account_id);
        let o = put_field::<Presence<Vec<String>>>(o, "sort"@, v.sort);
        let o = put_field::<Presence<bool>>(o, "collapseThreads"@, v.collapse_threads);
        let o = put_field::<Presence<u64>>(o, "position"@, v.position);
        let o = put_field::<Presence<String>>(o, "anchor"@, v.anchor);
        let o = put_field::<Presence<i64>>(o, "anchorOffset"@, v.anchor_offset);
        let o = put_field::<Presence<u64>>(o, "limit"@, v.limit);
        let o = put_field::<Presence<bool>>(o, "fetchThreads"@, v.fetch_threads);
        let o = put_field::<Presence<bool>>(o, "fetchMessages"@, v.fetch_messages);
        let o = put_field::<Presence<bool>>(
            o,
            "fetchMessageProperties"@,
            v.fetch_message_properties,
        );
        let o = put_field::<Presence<bool>>(o, "fetchSearchSnippets"@, v.fetch_search_snippets);
        JsonValue::Object(o)
    }

    fn to_json(&self) -> (json: Json) {
        let mut d: TextMap<Json> = TextMap::new();
        assert(d.deep_view() =~= Seq::empty());
        self.account_id.to_json_field(&mut d, "accountId");
        self.sort.to_json_field(&mut d, "sort");
        self.collapse_threads.to_json_field(&mut d, "collapseThreads");
        self.position.to_json_field(&mut d, "position");
        self.anchor.to_json_field(&mut d, "anchor");
        self.anchor_offset.to_json_field(&mut d, "anchorOffset");
        self.limit.to_json_field(&mut d, "limit");
        self.fetch_threads.to_json_field(&mut d, "fetchThreads");
        self.fetch_messages.to_json_field(&mut d, "fetchMessages");
        self.fetch_message_properties.to_json_field(&mut d, "fetchMessageProperties");
        self.fetch_search_snippets.to_json_field(&mut d, "fetchSearchSnippets");
        proof {
            lemma_object_value(d);
        }
        Json::Object(d)
    }
}

impl FromJson for GetMessageListRequestArgs {
    /// The fields are read in the order in which they are declared; the
    /// first that fails gives the error.
    open spec fn decoded(json: JsonValue) -> Result<GetMessageListRequestArgsView, ParseErrorView> {
        match json {
            JsonValue::Object(o) => {
                let account_id = get_field::<Presence<String>>(o, "accountId"@);
                let sort = get_field::<Presence<Vec<String>>>(o, "sort"@);
                let collapse_threads = get_field::<Presence<bool>>(o, "collapseThreads"@);
                let position = get_field::<Presence<u64>>(o, "position"@);
                let anchor = get_field::<Presence<String>>(o, "anchor"@);
                let anchor_offset = get_field::<Presence<i64>>(o, "anchorOffset"@);
                let limit = get_field::<Presence<u64>>(o, "limit"@);
                let fetch_threads = get_field::<Presence<bool>>(o, "fetchThreads"@);
                let fetch_messages = get_field::<Presence<bool>>(o, "fetchMessages"@);
                let fetch_message_properties = get_field::<Presence<bool>>(
                    o,
                    "fetchMessageProperties"@,
                );
                let fetch_search_snippets = get_field::<Presence<bool>>(o, "fetchSearchSnippets"@);
                if account_id is Err {
                    Err(account_id->Err_0)
                } else if sort is Err {
                    Err(sort->Err_0)
                } else if collapse_threads is Err {
                    Err(collapse_threads->Err_0)
                } else if position is Err {
                    Err(position->Err_0)
                } else if anchor is Err {
                    Err(anchor->Err_0)
                } else if anchor_offset is Err {
                    Err(anchor_offset->Err_0)
                } else if limit is Err {
                    Err(limit->Err_0)
                } else if fetch_threads is Err {
                    Err(fetch_threads->Err_0)
                } else if fetch_messages is Err {
                    Err(fetch_messages->Err_0)
                } else if fetch_message_properties is Err {
                    Err(fetch_message_properties->Err_0)
                } else if fetch_search_snippets is Err {
                    Err(fetch_search_snippets->Err_0)
                } else {
                    Ok(
                        GetMessageListRequestArgsView {
                            account_id: account_id->Ok_0,
                            sort: sort->Ok_0,
                            collapse_threads: collapse_threads->Ok_0,
                            position: position->Ok_0,
                            anchor: anchor->Ok_0,
                            anchor_offset: anchor_offset->Ok_0,
                            limit: limit->Ok_0,
                            fetch_threads: fetch_threads->Ok_0,
                            fetch_messages: fetch_messages->Ok_0,
                            fetch_message_properties: fetch_message_properties->Ok_0,
                            fetch_search_snippets: fetch_search_snippets->Ok_0,
                        },
                    )
                }
            },
            _ => Err(ParseErrorView::InvalidJsonType("GetMessageListRequestArgs"@)),
        }
    }

    fn from_json(json: &Json) -> (r: Result<Self, ParseError>) {
        match json {
            Json::Object(o) => {
                proof {
                    lemma_object_value(*o);
                }
                let account_id = match <Presence<String> as FromJsonField>::from_json_field(
                    o,
                    "accountId",
                ) {
                    Ok(v) => v,
                    Err(e) => return Err(e),
                };
                let sort = match <Presence<Vec<String>> as FromJsonField>::from_json_field(
                    o,
                    "sort",
                ) {
                    Ok(v) => v,
                    Err(e) => return Err(e),
                };
                let collapse_threads = match <Presence<bool> as FromJsonField>::from_json_field(
                    o,
                    "collapseThreads",
                ) {
                    Ok(v) => v,
                    Err(e) => return Err(e),
                };
                let position = match <Presence<u64> as FromJsonField>::from_json_field(
                    o,
                    "position",
                ) {
                    Ok(v) => v,
                    Err(e) => return Err(e),
                };
                let anchor = match <Presence<String> as FromJsonField>::from_json_field(
                    o,
                    "anchor",
                ) {
                    Ok(v) => v,
                    Err(e) => return Err(e),
                };
                let anchor_offset = match <Presence<i64> as FromJsonField>::from_json_field(
                    o,
                    "anchorOffset",
                ) {
                    Ok(v) => v,
                    Err(e) => return Err(e),
                };
                let limit = match <Presence<u64> as FromJsonField>::from_json_field(o, "limit") {
                    Ok(v) => v,
                    Err(e) => return Err(e),
                };
                let fetch_threads = match <Presence<bool> as FromJsonField>::from_json_field(
                    o,
                    "fetchThreads",
                ) {
                    Ok(v) => v,
                    Err(e) => return Err(e),
                };
                let fetch_messages = match <Presence<bool> as FromJsonField>::from_json_field(
                    o,
                    "fetchMessages",
                ) {
                    Ok(v) => v,
                    Err(e) => return Err(e),
                };
                let fetch_message_properties = match <Presence<bool> as FromJsonField>::from_json_field(
                    o,
                    "fetchMessageProperties",
                ) {
                    Ok(v) => v,
                    Err(e) => return Err(e),
                };
                let fetch_search_snippets = match <Presence<bool> as FromJsonField>::from_json_field(
                    o,
                    "fetchSearchSnippets",
                ) {
                    Ok(v) => v,
                    Err(e) => return Err(e),
                };
                Ok(GetMessageListRequestArgs {
                    account_id,
                    sort,
                    collapse_threads,
                    position,
                    anchor,
                    anchor_offset,
                    limit,
                    fetch_threads,
                    fetch_messages,
                    fetch_message_properties,
                    fetch_search_snippets,
                })
            },
            _ => Err(ParseError::InvalidJsonType("GetMessageListRequestArgs".to_string())),
        }
    }
}

impl JsonCodec for GetMessageListRequestArgs {
    open spec fn valid(v: GetMessageListRequestArgsView) -> bool {
        &&& <Presence<String> as FieldCodec>::field_valid(v.account_id)
        &&& <Presence<Vec<String>> as FieldCodec>::field_valid(v.sort)
        &&& <Presence<bool> as FieldCodec>::field_valid(v.collapse_threads)
        &&& <Presence<u64> as FieldCodec>::field_valid(v.position)
        &&& <Presence<String> as FieldCodec>::field_valid(v.anchor)
        &&& <Presence<i64> as FieldCodec>::field_valid(v.anchor_offset)
        &&& <Presence<u64> as FieldCodec>::field_valid(v.limit)
        &&& <Presence<bool> as FieldCodec>::field_valid(v.fetch_threads)
        &&& <Presence<bool> as FieldCodec>::field_valid(v.fetch_messages)
        &&& <Presence<bool> as FieldCodec>::field_valid(v.fetch_message_properties)
        &&& <Presence<bool> as FieldCodec>::field_valid(v.fetch_search_snippets)
    }

    proof fn round_trip(v: GetMessageListRequestArgsView) {
        let o = Self::encoded(v)->Object_0;
        Self::lemma_wire_names();
        assert(get_field::<Presence<String>>(o, "accountId"@) == Ok::<
            Presence<Seq<char>>,
            ParseErrorView,
        >(v.account_id)) by {
            Self::lemma_slots(v, "accountId"@);
            <Presence<String> as FieldCodec>::field_round_trip(v.account_id, "accountId"@);
        }
        assert(get_field::<Presence<Vec<String>>>(o, "sort"@) == Ok::<
            Presence<Seq<Seq<char>>>,
            ParseErrorView,
        >(v.sort)) by {
            Self::lemma_slots(v, "sort"@);
            <Presence<Vec<String>> as FieldCodec>::field_round_trip(v.sort, "sort"@);
        }
        assert(get_field::<Presence<bool>>(o, "collapseThreads"@) == Ok::<
            Presence<bool>,
            ParseErrorView,
        >(v.collapse_threads)) by {
            Self::lemma_slots(v, "collapseThreads"@);
            <Presence<bool> as FieldCodec>::field_round_trip(
                v.collapse_threads,
                "collapseThreads"@,
            );
        }
        assert(get_field::<Presence<u64>>(o, "position"@) == Ok::<
            Presence<u64>,
            ParseErrorView,
        >(v.position)) by {
            Self::lemma_slots(v, "position"@);
            <Presence<u64> as FieldCodec>::field_round_trip(v.position, "position"@);
        }
        assert(get_field::<Presence<String>>(o, "anchor"@) == Ok::<
            Presence<Seq<char>>,
            ParseErrorView,
        >(v.anchor)) by {
            Self::lemma_slots(v, "anchor"@);
            <Presence<String> as FieldCodec>::field_round_trip(v.anchor, "anchor"@);
        }
        assert(get_field::<Presence<i64>>(o, "anchorOffset"@) == Ok::<
            Presence<i64>,
            ParseErrorView,
        >(v.anchor_offset)) by {
            Self::lemma_slots(v, "anchorOffset"@);
            <Presence<i64> as FieldCodec>::field_round_trip(v.anchor_offset, "anchorOffset"@);
        }
        assert(get_field::<Presence<u64>>(o, "limit"@) == Ok::<
            Presence<u64>,
            ParseErrorView,
        >(v.limit)) by {
            Self::lemma_slots(v, "limit"@);
            <Presence<u64> as FieldCodec>::field_round_trip(v.limit, "limit"@);
        }
        assert(get_field::<Presence<bool>>(o, "fetchThreads"@) == Ok::<
            Presence<bool>,
            ParseErrorView,
        >(v.fetch_threads)) by {
            Self::lemma_slots(v, "fetchThreads"@);
            <Presence<bool> as FieldCodec>::field_round_trip(v.fetch_threads, "fetchThreads"@);
        }
        assert(get_field::<Presence<bool>>(o, "fetchMessages"@) == Ok::<
            Presence<bool>,
            ParseErrorView,
        >(v.fetch_messages)) by {
            Self::lemma_slots(v, "fetchMessages"@);
            <Presence<bool> as FieldCodec>::field_round_trip(v.fetch_messages, "fetchMessages"@);
        }
        assert(get_field::<Presence<bool>>(o, "fetchMessageProperties"@) == Ok::<
            Presence<bool>,
            ParseErrorView,
        >(v.fetch_message_properties)) by {
            Self::lemma_slots(v, "fetchMessageProperties"@);
            <Presence<bool> as FieldCodec>::field_round_trip(
                v.fetch_message_properties,
                "fetchMessageProperties"@,
            );
        }
        assert(get_field::<Presence<bool>>(o, "fetchSearchSnippets"@) == Ok::<
            Presence<bool>,
            ParseErrorView,
        >(v.fetch_search_snippets)) by {
            Self::lemma_slots(v, "fetchSearchSnippets"@);
            <Presence<bool> as FieldCodec>::field_round_trip(
                v.fetch_search_snippets,
                "fetchSearchSnippets"@,
            );
        }
    }
}

impl GetMessageListRequestArgs {
    /// What the written form of `v` holds under `name`.
    pub open spec fn slot(v: GetMessageListRequestArgsView, name: Seq<char>) -> Option<JsonValue> {
        if name == "accountId"@ {
            <Presence<String> as ToJsonField>::field_encoded(v.account_id)
        } else if name == "sort"@ {
            <Presence<Vec<String>> as ToJsonField>::field_encoded(v.sort)
        } else if name == "collapseThreads"@ {
            <Presence<bool> as ToJsonField>::field_encoded(v.collapse_threads)
        } else if name == "position"@ {
            <Presence<u64> as ToJsonField>::field_encoded(v.position)
        } else if name == "anchor"@ {
            <Presence<String> as ToJsonField>::field_encoded(v.anchor)
        } else if name == "anchorOffset"@ {
            <Presence<i64> as ToJsonField>::field_encoded(v.anchor_offset)
        } else if name == "limit"@ {
            <Presence<u64> as ToJsonField>::field_encoded(v.limit)
        } else if name == "fetchThreads"@ {
            <Presence<bool> as ToJsonField>::field_encoded(v.fetch_threads)
        } else if name == "fetchMessages"@ {
            <Presence<bool> as ToJsonField>::field_encoded(v.fetch_messages)
        } else if name == "fetchMessageProperties"@ {
            <Presence<bool> as ToJsonField>::field_encoded(v.fetch_message_properties)
        } else if name == "fetchSearchSnippets"@ {
            <Presence<bool> as ToJsonField>::field_encoded(v.fetch_search_snippets)
        } else {
            None
        }
    }

    /// The written form holds each field under its wire name and nothing
    /// under any other name.
    pub proof fn lemma_slots(v: GetMessageListRequestArgsView, name: Seq<char>)
        ensures
            field_of(Self::encoded(v), name) == Self::slot(v, name),
    {
        Self::lemma_wire_names();
        if name == "accountId"@ {
            assert(field_of(Self::encoded(v), name) == Self::slot(v, name)) by {
                broadcast use lemma_lookup_put_slot;

            }
        } else if name == "sort"@ {
            assert(field_of(Self::encoded(v), name) == Self::slot(v, name)) by {
                broadcast use lemma_lookup_put_slot;

            }
        } else if name == "collapseThreads"@ {
            assert(field_of(Self::encoded(v), name) == Self::slot(v, name)) by {
                broadcast use lemma_lookup_put_slot;

            }
        } else if name == "position"@ {
            assert(field_of(Self::encoded(v), name) == Self::slot(v, name)) by {
                broadcast use lemma_lookup_put_slot;

            }
        } else if name == "anchor"@ {
            assert(field_of(Self::encoded(v), name) == Self::slot(v, name)) by {
                broadcast use lemma_lookup_put_slot;

            }
        } else if name == "anchorOffset"@ {
            assert(field_of(Self::encoded(v), name) == Self::slot(v, name)) by {
                broadcast use lemma_lookup_put_slot;

            }
        } else if name == "limit"@ {
            assert(field_of(Self::encoded(v), name) == Self::slot(v, name)) by {
                broadcast use lemma_lookup_put_slot;

            }
        } else if name == "fetchThreads"@ {
            assert(field_of(Self::encoded(v), name) == Self::slot(v, name)) by {
                broadcast use lemma_lookup_put_slot;

            }
        } else if name == "fetchMessages"@ {
            assert(field_of(Self::encoded(v), name) == Self::slot(v, name)) by {
                broadcast use lemma_lookup_put_slot;

            }
        } else if name == "fetchMessageProperties"@ {
            assert(field_of(Self::encoded(v), name) == Self::slot(v, name)) by {
                broadcast use lemma_lookup_put_slot;

            }
        } else if name == "fetchSearchSnippets"@ {
            assert(field_of(Self::encoded(v), name) == Self::slot(v, name)) by {
                broadcast use lemma_lookup_put_slot;

            }
        } else {
            assert(field_of(Self::encoded(v), name) is None) by {
                broadcast use lemma_lookup_put_slot;

            }
        }
    }
}

/// A list of messages: the ids of its messages and of their threads.
#[derive(Clone, Debug, PartialEq)]
pub struct GetMessageListResponseArgs {
    pub account_id: String,
    pub sort: Vec<String>,
    pub collapse_threads: bool,
    pub state: String,
    pub can_calculate_updates: bool,
    pub position: u64,
    pub total: u64,
    pub thread_ids: Vec<String>,
    pub message_ids: Vec<String>,
}

/// A value of [`GetMessageListResponseArgs`] in contracts.
pub ghost struct GetMessageListResponseArgsView {
    pub account_id: Seq<char>,
    pub sort: Seq<Seq<char>>,
    pub collapse_threads: bool,
    pub state: Seq<char>,
    pub can_calculate_updates: bool,
    pub position: u64,
    pub total: u64,
    pub thread_ids: Seq<Seq<char>>,
    pub message_ids: Seq<Seq<char>>,
}

impl DeepView for GetMessageListResponseArgs {
    type V = GetMessageListResponseArgsView;

    open spec fn deep_view(&self) -> GetMessageListResponseArgsView {
        GetMessageListResponseArgsView {
            account_id: self.account_id.deep_view(),
            sort: self.sort.deep_view(),
            collapse_threads: self.collapse_threads.deep_view(),
            state: self.state.deep_view(),
            can_calculate_updates: self.can_calculate_updates.deep_view(),
            position: self.position.deep_view(),
            total: self.total.deep_view(),
            thread_ids: self.thread_ids.deep_view(),
            message_ids: self.message_ids.deep_view(),
        }
    }
}

impl GetMessageListResponseArgs {
    /// The default value: every field at the default of its type.
    pub open spec fn blank() -> GetMessageListResponseArgsView {
        GetMessageListResponseArgsView {
            account_id: Seq::<char>::empty(),
            sort: Seq::empty(),
            collapse_threads: false,
            state: Seq::<char>::empty(),
            can_calculate_updates: false,
            position: 0,
            total: 0,
            thread_ids: Seq::empty(),
            message_ids: Seq::empty(),
        }
    }
}

impl Default for GetMessageListResponseArgs {
    fn default() -> (r: Self)
        ensures
            r.deep_view() == Self::blank(),
    {
        let account_id: String = String::new();
        let sort: Vec<String> = Vec::new();
        assert(sort.deep_view() =~= Seq::empty());
        let collapse_threads: bool = false;
        let state: String = String::new();
        let can_calculate_updates: bool = false;
        let position: u64 = 0;
        let total: u64 = 0;
        let thread_ids: Vec<String> = Vec::new();
        assert(thread_ids.deep_view() =~= Seq::empty());
        let message_ids: Vec<String> = Vec::new();
        assert(message_ids.deep_view() =~= Seq::empty());
        GetMessageListResponseArgs {
            account_id,
            sort,
            collapse_threads,
            state,
            can_calculate_updates,
            position,
            total,
            thread_ids,
            message_ids,
        }
    }
}

impl GetMessageListResponseArgs {
    /// What tells the wire names of this type apart: the length of each, and
    /// for
    /// names of one length a character in which they differ.
    pub proof fn lemma_wire_names()
        ensures
            "accountId"@.len() == 9,
            "sort"@.len() == 4,
            "collapseThreads"@.len() == 15,
            "state"@.len() == 5,
            "can_calculate_updates"@.len() == 21,
            "position"@.len() == 8,
            "total"@.len() == 5,
            "thread_ids"@.len() == 10,
            "message_ids"@.len() == 11,
            "state"@[0] == 's',
            "total"@[0] == 't',
    {
        reveal_strlit("accountId");
        reveal_strlit("sort");
        reveal_strlit("collapseThreads");
        reveal_strlit("state");
        reveal_strlit("can_calculate_updates");
        reveal_strlit("position");
        reveal_strlit("total");
        reveal_strlit("thread_ids");
        reveal_strlit("message_ids");
    }
}

impl Duplicate for GetMessageListResponseArgs {
    fn duplicate(&self) -> (r: Self) {
        let account_id = self.account_id.duplicate();
        let sort = self.sort.duplicate();
        let collapse_threads = self.collapse_threads.duplicate();
        let state = self.state.duplicate();
        let can_calculate_updates = self.can_calculate_updates.duplicate();
        let position = self.position.duplicate();
        let total = self.total.duplicate();
        let thread_ids = self.thread_ids.duplicate();
        let message_ids = self.message_ids.duplicate();
        GetMessageListResponseArgs {
            account_id,
            sort,
            collapse_threads,
            state,
            can_calculate_updates,
            position,
            total,
            thread_ids,
            message_ids,
        }
    }
}

impl ToJson for GetMessageListResponseArgs {
    /// An object with one key for each field.
    open spec fn encoded(v: GetMessageListResponseArgsView) -> JsonValue {
        let o = Seq::empty();
        let o = put_field::<String>(o, "accountId"@, v.account_id);
        let o = put_field::<Vec<String>>(o, "sort"@, v.sort);
        let o = put_field::<bool>(o, "collapseThreads"@, v.collapse_threads);
        let o = put_field::<String>(o, "state"@, v.state);
        let o = put_field::<bool>(o, "can_calculate_updates"@, v.can_calculate_updates);
        let o = put_field::<u64>(o, "position"@, v.position);
        let o = put_field::<u64>(o, "total"@, v.total);
        let o = put_field::<Vec<String>>(o, "thread_ids"@, v.thread_ids);
        let o = put_field::<Vec<String>>(o, "message_ids"@, v.message_ids);
        JsonValue::Object(o)
    }

    fn to_json(&self) -> (json: Json) {
        let mut d: TextMap<Json> = TextMap::new();
        assert(d.deep_view() =~= Seq::empty());
        self.account_id.to_json_field(&mut d, "accountId");
        self.sort.to_json_field(&mut d, "sort");
        self.collapse_threads.to_json_field(&mut d, "collapseThreads");
        self.state.to_json_field(&mut d, "state");
        self.can_calculate_updates.to_json_field(&mut d, "can_calculate_updates");
        self.position.to_json_field(&mut d, "position");
        self.total.to_json_field(&mut d, "total");
        self.thread_ids.to_json_field(&mut d, "thread_ids");
        self.message_ids.to_json_field(&mut d, "message_ids");
        proof {
            lemma_object_value(d);
        }
        Json::Object(d)
    }
}

impl FromJson for GetMessageListResponseArgs {
    /// The fields are read in the order in which they are declared; the
    /// first that fails gives the error.
    open spec fn decoded(
        json: JsonValue,
    ) -> Result<GetMessageListResponseArgsView, ParseErrorView> {
        match json {
            JsonValue::Object(o) => {
                let account_id = get_field::<String>(o, "accountId"@);
                let sort = get_field::<Vec<String>>(o, "sort"@);
                let collapse_threads = get_field::<bool>(o, "collapseThreads"@);
                let state = get_field::<String>(o, "state"@);
                let can_calculate_updates = get_field::<bool>(o, "can_calculate_updates"@);
                let position = get_field::<u64>(o, "position"@);
                let total = get_field::<u64>(o, "total"@);
                let thread_ids = get_field::<Vec<String>>(o, "thread_ids"@);
                let message_ids = get_field::<Vec<String>>(o, "message_ids"@);
                if account_id is Err {
                    Err(account_id->Err_0)
                } else if sort is Err {
                    Err(sort->Err_0)
                } else if collapse_threads is Err {
                    Err(collapse_threads->Err_0)
                } else if state is Err {
                    Err(state->Err_0)
                } else if can_calculate_updates is Err {
                    Err(can_calculate_updates->Err_0)
                } else if position is Err {
                    Err(position->Err_0)
                } else if total is Err {
                    Err(total->Err_0)
                } else if thread_ids is Err {
                    Err(thread_ids->Err_0)
                } else if message_ids is Err {
                    Err(message_ids->Err_0)
                } else {
                    Ok(
                        GetMessageListResponseArgsView {
                            account_id: account_id->Ok_0,
                            sort: sort->Ok_0,
                            collapse_threads: collapse_threads->Ok_0,
                            state: state->Ok_0,
                            can_calculate_updates: can_calculate_updates->Ok_0,
                            position: position->Ok_0,
                            total: total->Ok_0,
                            thread_ids: thread_ids->Ok_0,
                            message_ids: message_ids->Ok_0,
                        },
                    )
                }
            },
            _ => Err(ParseErrorView::InvalidJsonType("GetMessageListResponseArgs"@)),
        }
    }

    fn from_json(json: &Json) -> (r: Result<Self, ParseError>) {
        match json {
            Json::Object(o) => {
                proof {
                    lemma_object_value(*o);
                }
                let account_id = match <String as FromJsonField>::from_json_field(o, "accountId") {
                    Ok(v) => v,
                    Err(e) => return Err(e),
                };
                let sort = match <Vec<String> as FromJsonField>::from_json_field(o, "sort") {
                    Ok(v) => v,
                    Err(e) => return Err(e),
                };
                let collapse_threads = match <bool as FromJsonField>::from_json_field(
                    o,
                    "collapseThreads",
                ) {
                    Ok(v) => v,
                    Err(e) => return Err(e),
                };
                let state = match <String as FromJsonField>::from_json_field(o, "state") {
                    Ok(v) => v,
                    Err(e) => return Err(e),
                };
                let can_calculate_updates = match <bool as FromJsonField>::from_json_field(
                    o,
                    "can_calculate_updates",
                ) {
                    Ok(v) => v,
                    Err(e) => return Err(e),
                };
                let position = match <u64 as FromJsonField>::from_json_field(o, "position") {
                    Ok(v) => v,
                    Err(e) => return Err(e),
                };
                let total = match <u64 as FromJsonField>::from_json_field(o, "total") {
                    Ok(v) => v,
                    Err(e) => return Err(e),
                };
                let thread_ids = match <Vec<String> as FromJsonField>::from_json_field(
                    o,
                    "thread_ids",
                ) {
                    Ok(v) => v,
                    Err(e) => return Err(e),
                };
                let message_ids = match <Vec<String> as FromJsonField>::from_json_field(
                    o,
                    "message_ids",
                ) {
                    Ok(v) => v,
                    Err(e) => return Err(e),
                };
                Ok(GetMessageListResponseArgs {
                    account_id,
                    sort,
                    collapse_threads,
                    state,
                    can_calculate_updates,
                    position,
                    total,
                    thread_ids,
                    message_ids,
                })
            },
            _ => Err(ParseError::InvalidJsonType("GetMessageListResponseArgs".to_string())),
        }
    }
}

impl JsonCodec for GetMessageListResponseArgs {
    open spec fn valid(v: GetMessageListResponseArgsView) -> bool {
        &&& <String as FieldCodec>::field_valid(v.account_id)
        &&& <Vec<String> as FieldCodec>::field_valid(v.sort)
        &&& <bool as FieldCodec>::field_valid(v.collapse_threads)
        &&& <String as FieldCodec>::field_valid(v.state)
        &&& <bool as FieldCodec>::field_valid(v.can_calculate_updates)
        &&& <u64 as FieldCodec>::field_valid(v.position)
        &&& <u64 as FieldCodec>::field_valid(v.total)
        &&& <Vec<String> as FieldCodec>::field_valid(v.thread_ids)
        &&& <Vec<String> as FieldCodec>::field_valid(v.message_ids)
    }

    proof fn round_trip(v: GetMessageListResponseArgsView) {
        let o = Self::encoded(v)->Object_0;
        Self::lemma_wire_names();
        assert(get_field::<String>(o, "accountId"@) == Ok::<
            Seq<char>,
            ParseErrorView,
        >(v.account_id)) by {
            Self::lemma_slots(v, "accountId"@);
            <String as FieldCodec>::field_round_trip(v.account_id, "accountId"@);
        }
        assert(get_field::<Vec<String>>(o, "sort"@) == Ok::<
            Seq<Seq<char>>,
            ParseErrorView,
        >(v.sort)) by {
            Self::lemma_slots(v, "sort"@);
            <Vec<String> as FieldCodec>::field_round_trip(v.sort, "sort"@);
        }
        assert(get_field::<bool>(o, "collapseThreads"@) == Ok::<
            bool,
            ParseErrorView,
        >(v.collapse_threads)) by {
            Self::lemma_slots(v, "collapseThreads"@);
            <bool as FieldCodec>::field_round_trip(v.collapse_threads, "collapseThreads"@);
        }
        assert(get_field::<String>(o, "state"@) == Ok::<Seq<char>, ParseErrorView>(v.state)) by {
            Self::lemma_slots(v, "state"@);
            <String as FieldCodec>::field_round_trip(v.state, "state"@);
        }
        assert(get_field::<bool>(o, "can_calculate_updates"@) == Ok::<
            bool,
            ParseErrorView,
        >(v.can_calculate_updates)) by {
            Self::lemma_slots(v, "can_calculate_updates"@);
            <bool as FieldCodec>::field_round_trip(
                v.can_calculate_updates,
                "can_calculate_updates"@,
            );
        }
        assert(get_field::<u64>(o, "position"@) == Ok::<u64, ParseErrorView>(v.position)) by {
            Self::lemma_slots(v, "position"@);
            <u64 as FieldCodec>::field_round_trip(v.position, "position"@);
        }
        assert(get_field::<u64>(o, "total"@) == Ok::<u64, ParseErrorView>(v.total)) by {
            Self::lemma_slots(v, "total"@);
            <u64 as FieldCodec>::field_round_trip(v.total, "total"@);
        }
        assert(get_field::<Vec<String>>(o, "thread_ids"@) == Ok::<
            Seq<Seq<char>>,
            ParseErrorView,
        >(v.thread_ids)) by {
            Self::lemma_slots(v, "thread_ids"@);
            <Vec<String> as FieldCodec>::field_round_trip(v.thread_ids, "thread_ids"@);
        }
        assert(get_field::<Vec<String>>(o, "message_ids"@) == Ok::<
            Seq<Seq<char>>,
            ParseErrorView,
        >(v.message_ids)) by {
            Self::lemma_slots(v, "message_ids"@);
            <Vec<String> as FieldCodec>::field_round_trip(v.message_ids, "message_ids"@);
        }
    }
}

impl GetMessageListResponseArgs {
    /// What the written form of `v` holds under `name`.
    pub open spec fn slot(v: GetMessageListResponseArgsView, name: Seq<char>) -> Option<JsonValue> {
        if name == "accountId"@ {
            <String as ToJsonField>::field_encoded(v.account_id)
        } else if name == "sort"@ {
            <Vec<String> as ToJsonField>::field_encoded(v.sort)
        } else if name == "collapseThreads"@ {
            <bool as ToJsonField>::field_encoded(v.collapse_threads)
        } else if name == "state"@ {
            <String as ToJsonField>::field_encoded(v.state)
        } else if name == "can_calculate_updates"@ {
            <bool as ToJsonField>::field_encoded(v.can_calculate_updates)
        } else if name == "position"@ {
            <u64 as ToJsonField>::field_encoded(v.position)
        } else if name == "total"@ {
            <u64 as ToJsonField>::field_encoded(v.total)
        } else if name == "thread_ids"@ {
            <Vec<String> as ToJsonField>::field_encoded(v.thread_ids)
        } else if name == "message_ids"@ {
            <Vec<String> as ToJsonField>::field_encoded(v.message_ids)
        } else {
            None
        }
    }

    /// The written form holds each field under its wire name and nothing
    /// under any other name.
    pub proof fn lemma_slots(v: GetMessageListResponseArgsView, name: Seq<char>)
        ensures
            field_of(Self::encoded(v), name) == Self::slot(v, name),
    {
        Self::lemma_wire_names();
        if name == "accountId"@ {
            assert(field_of(Self::encoded(v), name) == Self::slot(v, name)) by {
                broadcast use lemma_lookup_put_slot;

            }
        } else if name == "sort"@ {
            assert(field_of(Self::encoded(v), name) == Self::slot(v, name)) by {
                broadcast use lemma_lookup_put_slot;

            }
        } else if name == "collapseThreads"@ {
            assert(field_of(Self::encoded(v), name) == Self::slot(v, name)) by {
                broadcast use lemma_lookup_put_slot;

            }
        } else if name == "state"@ {
            assert(field_of(Self::encoded(v), name) == Self::slot(v, name)) by {
                broadcast use lemma_lookup_put_slot;

            }
        } else if name == "can_calculate_updates"@ {
            assert(field_of(Self::encoded(v), name) == Self::slot(v, name)) by {
                broadcast use lemma_lookup_put_slot;

            }
        } else if name == "position"@ {
            assert(field_of(Self::encoded(v), name) == Self::slot(v, name)) by {
                broadcast use lemma_lookup_put_slot;

            }
        } else if name == "total"@ {
            assert(field_of(Self::encoded(v), name) == Self::slot(v, name)) by {
                broadcast use lemma_lookup_put_slot;

            }
        } else if name == "thread_ids"@ {
            assert(field_of(Self::encoded(v), name) == Self::slot(v, name)) by {
                broadcast use lemma_lookup_put_slot;

            }
        } else if name == "message_ids"@ {
            assert(field_of(Self::encoded(v), name) == Self::slot(v, name)) by {
                broadcast use lemma_lookup_put_slot;

            }
        } else {
            assert(field_of(Self::encoded(v), name) is None) by {
                broadcast use lemma_lookup_put_slot;

            }
        }
    }
}

/// What a client asks for when it fetches the changes to a list of messages.
#[derive(Clone, Debug, PartialEq)]
pub struct GetMessageListUpdatesRequestArgs {
    pub account_id: Presence<String>,
    pub sort: Presence<Vec<String>>,
    pub collapse_threads: Presence<bool>,
    pub since_state: String,
    pub upto_message_id: Presence<String>,
    pub max_changes: Presence<u64>,
}

/// A value of [`GetMessageListUpdatesRequestArgs`] in contracts.
pub ghost struct GetMessageListUpdatesRequestArgsView {
    pub account_id: Presence<Seq<char>>,
    pub sort: Presence<Seq<Seq<char>>>,
    pub collapse_threads: Presence<bool>,
    pub since_state: Seq<char>,
    pub upto_message_id: Presence<Seq<char>>,
    pub max_changes: Presence<u64>,
}

impl DeepView for GetMessageListUpdatesRequestArgs {
    type V = GetMessageListUpdatesRequestArgsView;

    open spec fn deep_view(&self) -> GetMessageListUpdatesRequestArgsView {
        GetMessageListUpdatesRequestArgsView {
            account_id: self.account_id.deep_view(),
            sort: self.sort.deep_view(),
            collapse_threads: self.collapse_threads.deep_view(),
            since_state: self.since_state.deep_view(),
            upto_message_id: self.upto_message_id.deep_view(),
            max_changes: self.max_changes.deep_view(),
        }
    }
}

impl GetMessageListUpdatesRequestArgs {
    /// The default value: every field at the default of its type.
    pub open spec fn blank() -> GetMessageListUpdatesRequestArgsView {
        GetMessageListUpdatesRequestArgsView {
            account_id: Presence::Absent,
            sort: Presence::Absent,
            collapse_threads: Presence::Absent,
            since_state: Seq::<char>::empty(),
            upto_message_id: Presence::Absent,
            max_changes: Presence::Absent,
        }
    }
}

impl Default for GetMessageListUpdatesRequestArgs {
    fn default() -> (r: Self)
        ensures
            r.deep_view() == Self::blank(),
    {
        let account_id: Presence<String> = Presence::Absent;
        let sort: Presence<Vec<String>> = Presence::Absent;
        let collapse_threads: Presence<bool> = Presence::Absent;
        let since_state: String = String::new();
        let upto_message_id: Presence<String> = Presence::Absent;
        let max_changes: Presence<u64> = Presence::Absent;
        GetMessageListUpdatesRequestArgs {
            account_id,
            sort,
            collapse_threads,
            since_state,
            upto_message_id,
            max_changes,
        }
    }
}

impl GetMessageListUpdatesRequestArgs {
    /// What tells the wire names of this type apart: the length of each, and
    /// for
    /// names of one length a character in which they differ.
    pub proof fn lemma_wire_names()
        ensures
            "accountId"@.len() == 9,
            "sort"@.len() == 4,
            "collapseThreads"@.len() == 15,
            "sinceState"@.len() == 10,
            "uptoMessageId"@.len() == 13,
            "maxChanges"@.len() == 10,
            "sinceState"@[0] == 's',
            "maxChanges"@[0] == 'm',
    {
        reveal_strlit("accountId");
        reveal_strlit("sort");
        reveal_strlit("collapseThreads");
        reveal_strlit("sinceState");
        reveal_strlit("uptoMessageId");
        reveal_strlit("maxChanges");
    }
}

impl Duplicate for GetMessageListUpdatesRequestArgs {
    fn duplicate(&self) -> (r: Self) {
        let account_id = self.account_id.duplicate();
        let sort = self.sort.duplicate();
        let collapse_threads = self.collapse_threads.duplicate();
        let since_state = self.since_state.duplicate();
        let upto_message_id = self.upto_message_id.duplicate();
        let max_changes = self.max_changes.duplicate();
        GetMessageListUpdatesRequestArgs {
            account_id,
            sort,
            collapse_threads,
            since_state,
            upto_message_id,
            max_changes,
        }
    }
}

impl ToJson for GetMessageListUpdatesRequestArgs {
    /// An object with one key for each field.
    open spec fn encoded(v: GetMessageListUpdatesRequestArgsView) -> JsonValue {
        let o = Seq::empty();
        let o = put_field::<Presence<String>>(o, "accountId"@, v.account_id);
        let o = put_field::<Presence<Vec<String>>>(o, "sort"@, v.sort);
        let o = put_field::<Presence<bool>>(o, "collapseThreads"@, v.collapse_threads);
        let o = put_field::<String>(o, "sinceState"@, v.since_state);
        let o = put_field::<Presence<String>>(o, "uptoMessageId"@, v.upto_message_id);
        let o = put_field::<Presence<u64>>(o, "maxChanges"@, v.max_changes);
        JsonValue::Object(o)
    }

    fn to_json(&self) -> (json: Json) {
        let mut d: TextMap<Json> = TextMap::new();
        assert(d.deep_view() =~= Seq::empty());
        self.account_id.to_json_field(&mut d, "accountId");
        self.sort.to_json_field(&mut d, "sort");
        self.collapse_threads.to_json_field(&mut d, "collapseThreads");
        self.since_state.to_json_field(&mut d, "sinceState");
        self.upto_message_id.to_json_field(&mut d, "uptoMessageId");
        self.max_changes.to_json_field(&mut d, "maxChanges");
        proof {
            lemma_object_value(d);
        }
        Json::Object(d)
    }
}

impl FromJson for GetMessageListUpdatesRequestArgs {
    /// The fields are read in the order in which they are declared; the
    /// first that fails gives the error.
    open spec fn decoded(
        json: JsonValue,
    ) -> Result<GetMessageListUpdatesRequestArgsView, ParseErrorView> {
        match json {
            JsonValue::Object(o) => {
                let account_id = get_field::<Presence<String>>(o, "accountId"@);
                let sort = get_field::<Presence<Vec<String>>>(o, "sort"@);
                let collapse_threads = get_field::<Presence<bool>>(o, "collapseThreads"@);
                let since_state = get_field::<String>(o, "sinceState"@);
                let upto_message_id = get_field::<Presence<String>>(o, "uptoMessageId"@);
                let max_changes = get_field::<Presence<u64>>(o, "maxChanges"@);
                if account_id is Err {
                    Err(account_id->Err_0)
                } else if sort is Err {
                    Err(sort->Err_0)
                } else if collapse_threads is Err {
                    Err(collapse_threads->Err_0)
                } else if since_state is Err {
                    Err(since_state->Err_0)
                } else if upto_message_id is Err {
                    Err(upto_message_id->Err_0)
                } else if max_changes is Err {
                    Err(max_changes->Err_0)
                } else {
                    Ok(
                        GetMessageListUpdatesRequestArgsView {
                            account_id: account_id->Ok_0,
                            sort: sort->Ok_0,
                            collapse_threads: collapse_threads->Ok_0,
                            since_state: since_state->Ok_0,
                            upto_message_id: upto_message_id->Ok_0,
                            max_changes: max_changes->Ok_0,
                        },
                    )
                }
            },
            _ => Err(ParseErrorView::InvalidJsonType("GetMessageListRequestArgs"@)),
        }
    }

    fn from_json(json: &Json) -> (r: Result<Self, ParseError>) {
        match json {
            Json::Object(o) => {
                proof {
                    lemma_object_value(*o);
                }
                let account_id = match <Presence<String> as FromJsonField>::from_json_field(
                    o,
                    "accountId",
                ) {
                    Ok(v) => v,
                    Err(e) => return Err(e),
                };
                let sort = match <Presence<Vec<String>> as FromJsonField>::from_json_field(
                    o,
                    "sort",
                ) {
                    Ok(v) => v,
                    Err(e) => return Err(e),
                };
                let collapse_threads = match <Presence<bool> as FromJsonField>::from_json_field(
                    o,
                    "collapseThreads",
                ) {
                    Ok(v) => v,
                    Err(e) => return Err(e),
                };
                let since_state = match <String as FromJsonField>::from_json_field(
                    o,
                    "sinceState",
                ) {
                    Ok(v) => v,
                    Err(e) => return Err(e),
                };
                let upto_message_id = match <Presence<String> as FromJsonField>::from_json_field(
                    o,
                    "uptoMessageId",
                ) {
                    Ok(v) => v,
                    Err(e) => return Err(e),
                };
                let max_changes = match <Presence<u64> as FromJsonField>::from_json_field(
                    o,
                    "maxChanges",
                ) {
                    Ok(v) => v,
                    Err(e) => return Err(e),
                };
                Ok(GetMessageListUpdatesRequestArgs {
                    account_id,
                    sort,
                    collapse_threads,
                    since_state,
                    upto_message_id,
                    max_changes,
                })
            },
            _ => Err(ParseError::InvalidJsonType("GetMessageListRequestArgs".to_string())),
        }
    }
}

impl JsonCodec for GetMessageListUpdatesRequestArgs {
    open spec fn valid(v: GetMessageListUpdatesRequestArgsView) -> bool {
        &&& <Presence<String> as FieldCodec>::field_valid(v.account_id)
        &&& <Presence<Vec<String>> as FieldCodec>::field_valid(v.sort)
        &&& <Presence<bool> as FieldCodec>::field_valid(v.collapse_threads)
        &&& <String as FieldCodec>::field_valid(v.since_state)
        &&& <Presence<String> as FieldCodec>::field_valid(v.upto_message_id)
        &&& <Presence<u64> as FieldCodec>::field_valid(v.max_changes)
    }

    proof fn round_trip(v: GetMessageListUpdatesRequestArgsView) {
        let o = Self::encoded(v)->Object_0;
        Self::lemma_wire_names();
        assert(get_field::<Presence<String>>(o, "accountId"@) == Ok::<
            Presence<Seq<char>>,
            ParseErrorView,
        >(v.account_id)) by {
            Self::lemma_slots(v, "accountId"@);
            <Presence<String> as FieldCodec>::field_round_trip(v.account_id, "accountId"@);
        }
        assert(get_field::<Presence<Vec<String>>>(o, "sort"@) == Ok::<
            Presence<Seq<Seq<char>>>,
            ParseErrorView,
        >(v.sort)) by {
            Self::lemma_slots(v, "sort"@);
            <Presence<Vec<String>> as FieldCodec>::field_round_trip(v.sort, "sort"@);
        }
        assert(get_field::<Presence<bool>>(o, "collapseThreads"@) == Ok::<
            Presence<bool>,
            ParseErrorView,
        >(v.collapse_threads)) by {
            Self::lemma_slots(v, "collapseThreads"@);
            <Presence<bool> as FieldCodec>::field_round_trip(
                v.collapse_threads,
                "collapseThreads"@,
            );
        }
        assert(get_field::<String>(o, "sinceState"@) == Ok::<
            Seq<char>,
            ParseErrorView,
        >(v.since_state)) by {
            Self::lemma_slots(v, "sinceState"@);
            <String as FieldCodec>::field_round_trip(v.since_state, "sinceState"@);
        }
        assert(get_field::<Presence<String>>(o, "uptoMessageId"@) == Ok::<
            Presence<Seq<char>>,
            ParseErrorView,
        >(v.upto_message_id)) by {
            Self::lemma_slots(v, "uptoMessageId"@);
            <Presence<String> as FieldCodec>::field_round_trip(v.upto_message_id, "uptoMessageId"@);
        }
        assert(get_field::<Presence<u64>>(o, "maxChanges"@) == Ok::<
            Presence<u64>,
            ParseErrorView,
        >(v.max_changes)) by {
            Self::lemma_slots(v, "maxChanges"@);
            <Presence<u64> as FieldCodec>::field_round_trip(v.max_changes, "maxChanges"@);
        }
    }
}

impl GetMessageListUpdatesRequestArgs {
    /// What the written form of `v` holds under `name`.
    pub open spec fn slot(
        v: GetMessageListUpdatesRequestArgsView,
        name: Seq<char>,
    ) -> Option<JsonValue> {
        if name == "accountId"@ {
            <Presence<String> as ToJsonField>::field_encoded(v.account_id)
        } else if name == "sort"@ {
            <Presence<Vec<String>> as ToJsonField>::field_encoded(v.sort)
        } else if name == "collapseThreads"@ {
            <Presence<bool> as ToJsonField>::field_encoded(v.collapse_threads)
        } else if name == "sinceState"@ {
            <String as ToJsonField>::field_encoded(v.since_state)
        } else if name == "uptoMessageId"@ {
            <Presence<String> as ToJsonField>::field_encoded(v.upto_message_id)
        } else if name == "maxChanges"@ {
            <Presence<u64> as ToJsonField>::field_encoded(v.max_changes)
        } else {
            None
        }
    }

    /// The written form holds each field under its wire name and nothing
    /// under any other name.
    pub proof fn lemma_slots(v: GetMessageListUpdatesRequestArgsView, name: Seq<char>)
        ensures
            field_of(Self::encoded(v), name) == Self::slot(v, name),
    {
        Self::lemma_wire_names();
        if name == "accountId"@ {
            assert(field_of(Self::encoded(v), name) == Self::slot(v, name)) by {
                broadcast use lemma_lookup_put_slot;

            }
        } else if name == "sort"@ {
            assert(field_of(Self::encoded(v), name) == Self::slot(v, name)) by {
                broadcast use lemma_lookup_put_slot;

            }
        } else if name == "collapseThreads"@ {
            assert(field_of(Self::encoded(v), name) == Self::slot(v, name)) by {
                broadcast use lemma_lookup_put_slot;

            }
        } else if name == "sinceState"@ {
            assert(field_of(Self::encoded(v), name) == Self::slot(v, name)) by {
                broadcast use lemma_lookup_put_slot;

            }
        } else if name == "uptoMessageId"@ {
            assert(field_of(Self::encoded(v), name) == Self::slot(v, name)) by {
                broadcast use lemma_lookup_put_slot;

            }
        } else if name == "maxChanges"@ {
            assert(field_of(Self::encoded(v), name) == Self::slot(v, name)) by {
                broadcast use lemma_lookup_put_slot;

            }
        } else {
            assert(field_of(Self::encoded(v), name) is None) by {
                broadcast use lemma_lookup_put_slot;

            }
        }
    }
}

/// The changes to a list of messages between two states.
#[derive(Clone, Debug, PartialEq)]
pub struct GetMessageListUpdatesResponseArgs {
    pub account_id: String,
    pub sort: Vec<String>,
    pub collapse_threads: bool,
    pub old_state: String,
    pub new_state: String,
    pub upto_message_id: Presence<String>,
    pub total: u64,
    pub removed: Vec<RemovedItem>,
    pub added: Vec<AddedItem>,
}

/// A value of [`GetMessageListUpdatesResponseArgs`] in contracts.
pub ghost struct GetMessageListUpdatesResponseArgsView {
    pub account_id: Seq<char>,
    pub sort: Seq<Seq<char>>,
    pub collapse_threads: bool,
    pub old_state: Seq<char>,
    pub new_state: Seq<char>,
    pub upto_message_id: Presence<Seq<char>>,
    pub total: u64,
    pub removed: Seq<RemovedItemView>,
    pub added: Seq<AddedItemView>,
}

impl DeepView for GetMessageListUpdatesResponseArgs {
    type V = GetMessageListUpdatesResponseArgsView;

    open spec fn deep_view(&self) -> GetMessageListUpdatesResponseArgsView {
        GetMessageListUpdatesResponseArgsView {
            account_id: self.account_id.deep_view(),
            sort: self.sort.deep_view(),
            collapse_threads: self.collapse_threads.deep_view(),
            old_state: self.old_state.deep_view(),
            new_state: self.new_state.deep_view(),
            upto_message_id: self.upto_message_id.deep_view(),
            total: self.total.deep_view(),
            removed: self.removed.deep_view(),
            added: self.added.deep_view(),
        }
    }
}

impl GetMessageListUpdatesResponseArgs {
    /// The default value: every field at the default of its type.
    pub open spec fn blank() -> GetMessageListUpdatesResponseArgsView {
        GetMessageListUpdatesResponseArgsView {
            account_id: Seq::<char>::empty(),
            sort: Seq::empty(),
            collapse_threads: false,
            old_state: Seq::<char>::empty(),
            new_state: Seq::<char>::empty(),
            upto_message_id: Presence::Absent,
            total: 0,
            removed: Seq::empty(),
            added: Seq::empty(),
        }
    }
}

impl Default for GetMessageListUpdatesResponseArgs {
    fn default() -> (r: Self)
        ensures
            r.deep_view() == Self::blank(),
    {
        let account_id: String = String::new();
        let sort: Vec<String> = Vec::new();
        assert(sort.deep_view() =~= Seq::empty());
        let collapse_threads: bool = false;
        let old_state: String = String::new();
        let new_state: String = String::new();
        let upto_message_id: Presence<String> = Presence::Absent;
        let total: u64 = 0;
        let removed: Vec<RemovedItem> = Vec::new();
        assert(removed.deep_view() =~= Seq::empty());
        let added: Vec<AddedItem> = Vec::new();
        assert(added.deep_view() =~= Seq::empty());
        GetMessageListUpdatesResponseArgs {
            account_id,
            sort,
            collapse_threads,
            old_state,
            new_state,
            upto_message_id,
            total,
            removed,
            added,
        }
    }
}

impl GetMessageListUpdatesResponseArgs {
    /// What tells the wire names of this type apart: the length of each, and
    /// for
    /// names of one length a character in which they differ.
    pub proof fn lemma_wire_names()
        ensures
            "accountId"@.len() == 9,
            "sort"@.len() == 4,
            "collapseThreads"@.len() == 15,
            "oldState"@.len() == 8,
            "newState"@.len() == 8,
            "uptoMessageId"@.len() == 13,
            "total"@.len() == 5,
            "removed"@.len() == 7,
            "added"@.len() == 5,
            "total"@[0] == 't',
            "added"@[0] == 'a',
            "oldState"@[0] == 'o',
            "newState"@[0] == 'n',
    {
        reveal_strlit("accountId");
        reveal_strlit("sort");
        reveal_strlit("collapseThreads");
        reveal_strlit("oldState");
        reveal_strlit("newState");
        reveal_strlit("uptoMessageId");
        reveal_strlit("total");
        reveal_strlit("removed");
        reveal_strlit("added");
    }
}

impl Duplicate for GetMessageListUpdatesResponseArgs {
    fn duplicate(&self) -> (r: Self) {
        let account_id = self.account_id.duplicate();
        let sort = self.sort.duplicate();
        let collapse_threads = self.collapse_threads.duplicate();
        let old_state = self.old_state.duplicate();
        let new_state = self.new_state.duplicate();
        let upto_message_id = self.upto_message_id.duplicate();
        let total = self.total.duplicate();
        let removed = self.removed.duplicate();
        let added = self.added.duplicate();
        GetMessageListUpdatesResponseArgs {
            account_id,
            sort,
            collapse_threads,
            old_state,
            new_state,
            upto_message_id,
            total,
            removed,
            added,
        }
    }
}

impl ToJson for GetMessageListUpdatesResponseArgs {
    /// An object with one key for each field.
    open spec fn encoded(v: GetMessageListUpdatesResponseArgsView) -> JsonValue {
        let o = Seq::empty();
        let o = put_field::<String>(o, "accountId"@, v.account_id);
        let o = put_field::<Vec<String>>(o, "sort"@, v.sort);
        let o = put_field::<bool>(o, "collapseThreads"@, v.collapse_threads);
        let o = put_field::<String>(o, "oldState"@, v.old_state);
        let o = put_field::<String>(o, "newState"@, v.new_state);
        let o = put_field::<Presence<String>>(o, "uptoMessageId"@, v.upto_message_id);
        let o = put_field::<u64>(o, "total"@, v.total);
        let o = put_field::<Vec<RemovedItem>>(o, "removed"@, v.removed);
        let o = put_field::<Vec<AddedItem>>(o, "added"@, v.added);
        JsonValue::Object(o)
    }

    fn to_json(&self) -> (json: Json) {
        let mut d: TextMap<Json> = TextMap::new();
        assert(d.deep_view() =~= Seq::empty());
        self.account_id.to_json_field(&mut d, "accountId");
        self.sort.to_json_field(&mut d, "sort");
        self.collapse_threads.to_json_field(&mut d, "collapseThreads");
        self.old_state.to_json_field(&mut d, "oldState");
        self.new_state.to_json_field(&mut d, "newState");
        self.upto_message_id.to_json_field(&mut d, "uptoMessageId");
        self.total.to_json_field(&mut d, "total");
        self.removed.to_json_field(&mut d, "removed");
        self.added.to_json_field(&mut d, "added");
        proof {
            lemma_object_value(d);
        }
        Json::Object(d)
    }
}

impl FromJson for GetMessageListUpdatesResponseArgs {
    /// The fields are read in the order in which they are declared; the
    /// first that fails gives the error.
    open spec fn decoded(
        json: JsonValue,
    ) -> Result<GetMessageListUpdatesResponseArgsView, ParseErrorView> {
        match json {
            JsonValue::Object(o) => {
                let account_id = get_field::<String>(o, "accountId"@);
                let sort = get_field::<Vec<String>>(o, "sort"@);
                let collapse_threads = get_field::<bool>(o, "collapseThreads"@);
                let old_state = get_field::<String>(o, "oldState"@);
                let new_state = get_field::<String>(o, "newState"@);
                let upto_message_id = get_field::<Presence<String>>(o, "uptoMessageId"@);
                let total = get_field::<u64>(o, "total"@);
                let removed = get_field::<Vec<RemovedItem>>(o, "removed"@);
                let added = get_field::<Vec<AddedItem>>(o, "added"@);
                if account_id is Err {
                    Err(account_id->Err_0)
                } else if sort is Err {
                    Err(sort->Err_0)
                } else if collapse_threads is Err {
                    Err(collapse_threads->Err_0)
                } else if old_state is Err {
                    Err(old_state->Err_0)
                } else if new_state is Err {
                    Err(new_state->Err_0)
                } else if upto_message_id is Err {
                    Err(upto_message_id->Err_0)
                } else if total is Err {
                    Err(total->Err_0)
                } else if removed is Err {
                    Err(removed->Err_0)
                } else if added is Err {
                    Err(added->Err_0)
                } else {
                    Ok(
                        GetMessageListUpdatesResponseArgsView {
                            account_id: account_id->Ok_0,
                            sort: sort->Ok_0,
                            collapse_threads: collapse_threads->Ok_0,
                            old_state: old_state->Ok_0,
                            new_state: new_state->Ok_0,
                            upto_message_id: upto_message_id->Ok_0,
                            total: total->Ok_0,
                            removed: removed->Ok_0,
                            added: added->Ok_0,
                        },
                    )
                }
            },
            _ => Err(ParseErrorView::InvalidJsonType("GetMessageListResponseArgs"@)),
        }
    }

    fn from_json(json: &Json) -> (r: Result<Self, ParseError>) {
        match json {
            Json::Object(o) => {
                proof {
                    lemma_object_value(*o);
                }
                let account_id = match <String as FromJsonField>::from_json_field(o, "accountId") {
                    Ok(v) => v,
                    Err(e) => return Err(e),
                };
                let sort = match <Vec<String> as FromJsonField>::from_json_field(o, "sort") {
                    Ok(v) => v,
                    Err(e) => return Err(e),
                };
                let collapse_threads = match <bool as FromJsonField>::from_json_field(
                    o,
                    "collapseThreads",
                ) {
                    Ok(v) => v,
                    Err(e) => return Err(e),
                };
                let old_state = match <String as FromJsonField>::from_json_field(o, "oldState") {
                    Ok(v) => v,
                    Err(e) => return Err(e),
                };
                let new_state = match <String as FromJsonField>::from_json_field(o, "newState") {
                    Ok(v) => v,
                    Err(e) => return Err(e),
                };
                let upto_message_id = match <Presence<String> as FromJsonField>::from_json_field(
                    o,
                    "uptoMessageId",
                ) {
                    Ok(v) => v,
                    Err(e) => return Err(e),
                };
                let total = match <u64 as FromJsonField>::from_json_field(o, "total") {
                    Ok(v) => v,
                    Err(e) => return Err(e),
                };
                let removed = match <Vec<RemovedItem> as FromJsonField>::from_json_field(
                    o,
                    "removed",
                ) {
                    Ok(v) => v,
                    Err(e) => return Err(e),
                };
                let added = match <Vec<AddedItem> as FromJsonField>::from_json_field(o, "added") {
                    Ok(v) => v,
                    Err(e) => return Err(e),
                };
                Ok(GetMessageListUpdatesResponseArgs {
                    account_id,
                    sort,
                    collapse_threads,
                    old_state,
                    new_state,
                    upto_message_id,
                    total,
                    removed,
                    added,
                })
            },
            _ => Err(ParseError::InvalidJsonType("GetMessageListResponseArgs".to_string())),
        }
    }
}

impl JsonCodec for GetMessageListUpdatesResponseArgs {
    open spec fn valid(v: GetMessageListUpdatesResponseArgsView) -> bool {
        &&& <String as FieldCodec>::field_valid(v.account_id)
        &&& <Vec<String> as FieldCodec>::field_valid(v.sort)
        &&& <bool as FieldCodec>::field_valid(v.collapse_threads)
        &&& <String as FieldCodec>::field_valid(v.old_state)
        &&& <String as FieldCodec>::field_valid(v.new_state)
        &&& <Presence<String> as FieldCodec>::field_valid(v.upto_message_id)
        &&& <u64 as FieldCodec>::field_valid(v.total)
        &&& <Vec<RemovedItem> as FieldCodec>::field_valid(v.removed)
        &&& <Vec<AddedItem> as FieldCodec>::field_valid(v.added)
    }

    proof fn round_trip(v: GetMessageListUpdatesResponseArgsView) {
        let o = Self::encoded(v)->Object_0;
        Self::lemma_wire_names();
        assert(get_field::<String>(o, "accountId"@) == Ok::<
            Seq<char>,
            ParseErrorView,
        >(v.account_id)) by {
            Self::lemma_slots(v, "accountId"@);
            <String as FieldCodec>::field_round_trip(v.account_id, "accountId"@);
        }
        assert(get_field::<Vec<String>>(o, "sort"@) == Ok::<
            Seq<Seq<char>>,
            ParseErrorView,
        >(v.sort)) by {
            Self::lemma_slots(v, "sort"@);
            <Vec<String> as FieldCodec>::field_round_trip(v.sort, "sort"@);
        }
        assert(get_field::<bool>(o, "collapseThreads"@) == Ok::<
            bool,
            ParseErrorView,
        >(v.collapse_threads)) by {
            Self::lemma_slots(v, "collapseThreads"@);
            <bool as FieldCodec>::field_round_trip(v.collapse_threads, "collapseThreads"@);
        }
        assert(get_field::<String>(o, "oldState"@) == Ok::<
            Seq<char>,
            ParseErrorView,
        >(v.old_state)) by {
            Self::lemma_slots(v, "oldState"@);
            <String as FieldCodec>::field_round_trip(v.old_state, "oldState"@);
        }
        assert(get_field::<String>(o, "newState"@) == Ok::<
            Seq<char>,
            ParseErrorView,
        >(v.new_state)) by {
            Self::lemma_slots(v, "newState"@);
            <String as FieldCodec>::field_round_trip(v.new_state, "newState"@);
        }
        assert(get_field::<Presence<String>>(o, "uptoMessageId"@) == Ok::<
            Presence<Seq<char>>,
            ParseErrorView,
        >(v.upto_message_id)) by {
            Self::lemma_slots(v, "uptoMessageId"@);
            <Presence<String> as FieldCodec>::field_round_trip(v.upto_message_id, "uptoMessageId"@);
        }
        assert(get_field::<u64>(o, "total"@) == Ok::<u64, ParseErrorView>(v.total)) by {
            Self::lemma_slots(v, "total"@);
            <u64 as FieldCodec>::field_round_trip(v.total, "total"@);
        }
        assert(get_field::<Vec<RemovedItem>>(o, "removed"@) == Ok::<
            Seq<RemovedItemView>,
            ParseErrorView,
        >(v.removed)) by {
            Self::lemma_slots(v, "removed"@);
            <Vec<RemovedItem> as FieldCodec>::field_round_trip(v.removed, "removed"@);
        }
        assert(get_field::<Vec<AddedItem>>(o, "added"@) == Ok::<
            Seq<AddedItemView>,
            ParseErrorView,
        >(v.added)) by {
            Self::lemma_slots(v, "added"@);
            <Vec<AddedItem> as FieldCodec>::field_round_trip(v.added, "added"@);
        }
    }
}

impl GetMessageListUpdatesResponseArgs {
    /// What the written form of `v` holds under `name`.
    pub open spec fn slot(
        v: GetMessageListUpdatesResponseArgsView,
        name: Seq<char>,
    ) -> Option<JsonValue> {
        if name == "accountId"@ {
            <String as ToJsonField>::field_encoded(v.account_id)
        } else if name == "sort"@ {
            <Vec<String> as ToJsonField>::field_encoded(v.sort)
        } else if name == "collapseThreads"@ {
            <bool as ToJsonField>::field_encoded(v.collapse_threads)
        } else if name == "oldState"@ {
            <String as ToJsonField>::field_encoded(v.old_state)
        } else if name == "newState"@ {
            <String as ToJsonField>::field_encoded(v.new_state)
        } else if name == "uptoMessageId"@ {
            <Presence<String> as ToJsonField>::field_encoded(v.upto_message_id)
        } else if name == "total"@ {
            <u64 as ToJsonField>::field_encoded(v.total)
        } else if name == "removed"@ {
            <Vec<RemovedItem> as ToJsonField>::field_encoded(v.removed)
        } else if name == "added"@ {
            <Vec<AddedItem> as ToJsonField>::field_encoded(v.added)
        } else {
            None
        }
    }

    /// The written form holds each field under its wire name and nothing
    /// under any other name.
    pub proof fn lemma_slots(v: GetMessageListUpdatesResponseArgsView, name: Seq<char>)
        ensures
            field_of(Self::encoded(v), name) == Self::slot(v, name),
    {
        Self::lemma_wire_names();
        if name == "accountId"@ {
            assert(field_of(Self::encoded(v), name) == Self::slot(v, name)) by {
                broadcast use lemma_lookup_put_slot;

            }
        } else if name == "sort"@ {
            assert(field_of(Self::encoded(v), name) == Self::slot(v, name)) by {
                broadcast use lemma_lookup_put_slot;

            }
        } else if name == "collapseThreads"@ {
            assert(field_of(Self::encoded(v), name) == Self::slot(v, name)) by {
                broadcast use lemma_lookup_put_slot;

            }
        } else if name == "oldState"@ {
            assert(field_of(Self::encoded(v), name) == Self::slot(v, name)) by {
                broadcast use lemma_lookup_put_slot;

            }
        } else if name == "newState"@ {
            assert(field_of(Self::encoded(v), name) == Self::slot(v, name)) by {
                broadcast use lemma_lookup_put_slot;

            }
        } else if name == "uptoMessageId"@ {
            assert(field_of(Self::encoded(v), name) == Self::slot(v, name)) by {
                broadcast use lemma_lookup_put_slot;

            }
        } else if name == "total"@ {
            assert(field_of(Self::encoded(v), name) == Self::slot(v, name)) by {
                broadcast use lemma_lookup_put_slot;

            }
        } else if name == "removed"@ {
            assert(field_of(Self::encoded(v), name) == Self::slot(v, name)) by {
                broadcast use lemma_lookup_put_slot;

            }
        } else if name == "added"@ {
            assert(field_of(Self::encoded(v), name) == Self::slot(v, name)) by {
                broadcast use lemma_lookup_put_slot;

            }
        } else {
            assert(field_of(Self::encoded(v), name) is None) by {
                broadcast use lemma_lookup_put_slot;

            }
        }
    }
}

} // verus!
