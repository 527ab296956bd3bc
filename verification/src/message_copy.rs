//! Copying messages from one account to another.

use crate::json::{lemma_lookup_put_slot, lemma_object_value, Json, JsonValue, TextMap};
use crate::parse::{
    get_field, put_field, Duplicate, FieldCodec, FromJson, FromJsonField, JsonCodec, ParseError,
    ParseErrorView, Presence, ToJson, ToJsonField,
};
use crate::message::{PartialMessage, PartialMessageView};
use crate::method::{SetError, SetErrorView};
use crate::record::field_of;
use vstd::prelude::*;

verus! {

/// A message to copy, with the mailboxes and the flags of the copy.
#[derive(Clone, Debug, PartialEq)]
pub struct MessageCopy {
    message_id: String,
    mailbox_ids: Vec<String>,
    is_unread: bool,
    is_flagged: bool,
    is_answered: bool,
    is_draft: bool,
}

/// A value of [`MessageCopy`] in contracts.
pub ghost struct MessageCopyView {
    pub message_id: Seq<char>,
    pub mailbox_ids: Seq<Seq<char>>,
    pub is_unread: bool,
    pub is_flagged: bool,
    pub is_answered: bool,
    pub is_draft: bool,
}

impl DeepView for MessageCopy {
    type V = MessageCopyView;

    closed spec fn deep_view(&self) -> MessageCopyView {
        MessageCopyView {
            message_id: self.message_id.deep_view(),
            mailbox_ids: self.mailbox_ids.deep_view(),
            is_unread: self.is_unread.deep_view(),
            is_flagged: self.is_flagged.deep_view(),
            is_answered: self.is_answered.deep_view(),
            is_draft: self.is_draft.deep_view(),
        }
    }
}

impl MessageCopy {
    /// The default value: every field at the default of its type.
    pub open spec fn blank() -> MessageCopyView {
        MessageCopyView {
            message_id: Seq::<char>::empty(),
            mailbox_ids: Seq::empty(),
            is_unread: false,
            is_flagged: false,
            is_answered: false,
            is_draft: false,
        }
    }
}

impl Default for MessageCopy {
    fn default() -> (r: Self)
        ensures
            r.deep_view() == Self::blank(),
    {
        let message_id: String = String::new();
        let mailbox_ids: Vec<String> = Vec::new();
        assert(mailbox_ids.deep_view() =~= Seq::empty());
        let is_unread: bool = false;
        let is_flagged: bool = false;
        let is_answered: bool = false;
        let is_draft: bool = false;
        MessageCopy { message_id, mailbox_ids, is_unread, is_flagged, is_answered, is_draft }
    }
}

impl MessageCopy {
    /// What tells the wire names of this type apart: the length of each, and
    /// for
    /// names of one length a character in which they differ.
    pub proof fn lemma_wire_names()
        ensures
            "messageId"@.len() == 9,
            "mailboxIds"@.len() == 10,
            "isUnread"@.len() == 8,
            "isFlagged"@.len() == 9,
            "isAnswered"@.len() == 10,
            "isDraft"@.len() == 7,
            "messageId"@[0] == 'm',
            "isFlagged"@[0] == 'i',
            "mailboxIds"@[0] == 'm',
            "isAnswered"@[0] == 'i',
    {
        reveal_strlit("messageId");
        reveal_strlit("mailboxIds");
        reveal_strlit("isUnread");
        reveal_strlit("isFlagged");
        reveal_strlit("isAnswered");
        reveal_strlit("isDraft");
    }
}

impl Duplicate for MessageCopy {
    fn duplicate(&self) -> (r: Self) {
        let message_id = self.message_id.duplicate();
        let mailbox_ids = self.mailbox_ids.duplicate();
        let is_unread = self.is_unread.duplicate();
        let is_flagged = self.is_flagged.duplicate();
        let is_answered = self.is_answered.duplicate();
        let is_draft = self.is_draft.duplicate();
        MessageCopy { message_id, mailbox_ids, is_unread, is_flagged, is_answered, is_draft }
    }
}

impl ToJson for MessageCopy {
    /// An object with one key for each field.
    open spec fn encoded(v: MessageCopyView) -> JsonValue {
        let o = Seq::empty();
        let o = put_field::<String>(o, "messageId"@, v.message_id);
        let o = put_field::<Vec<String>>(o, "mailboxIds"@, v.mailbox_ids);
        let o = put_field::<bool>(o, "isUnread"@, v.is_unread);
        let o = put_field::<bool>(o, "isFlagged"@, v.is_flagged);
        let o = put_field::<bool>(o, "isAnswered"@, v.is_answered);
        let o = put_field::<bool>(o, "isDraft"@, v.is_draft);
        JsonValue::Object(o)
    }

    fn to_json(&self) -> (json: Json) {
        let mut d: TextMap<Json> = TextMap::new();
        assert(d.deep_view() =~= Seq::empty());
        self.message_id.to_json_field(&mut d, "messageId");
        self.mailbox_ids.to_json_field(&mut d, "mailboxIds");
        self.is_unread.to_json_field(&mut d, "isUnread");
        self.is_flagged.to_json_field(&mut d, "isFlagged");
        self.is_answered.to_json_field(&mut d, "isAnswered");
        self.is_draft.to_json_field(&mut d, "isDraft");
        proof {
            lemma_object_value(d);
        }
        Json::Object(d)
    }
}

impl FromJson for MessageCopy {
    /// The fields are read in the order in which they are declared; the
    /// first that fails gives the error.
    open spec fn decoded(json: JsonValue) -> Result<MessageCopyView, ParseErrorView> {
        match json {
            JsonValue::Object(o) => {
                let message_id = get_field::<String>(o, "messageId"@);
                let mailbox_ids = get_field::<Vec<String>>(o, "mailboxIds"@);
                let is_unread = get_field::<bool>(o, "isUnread"@);
                let is_flagged = get_field::<bool>(o, "isFlagged"@);
                let is_answered = get_field::<bool>(o, "isAnswered"@);
                let is_draft = get_field::<bool>(o, "isDraft"@);
                if message_id is Err {
                    Err(message_id->Err_0)
                } else if mailbox_ids is Err {
                    Err(mailbox_ids->Err_0)
                } else if is_unread is Err {
                    Err(is_unread->Err_0)
                } else if is_flagged is Err {
                    Err(is_flagged->Err_0)
                } else if is_answered is Err {
                    Err(is_answered->Err_0)
                } else if is_draft is Err {
                    Err(is_draft->Err_0)
                } else {
                    Ok(
                        MessageCopyView {
                            message_id: message_id->Ok_0,
                            mailbox_ids: mailbox_ids->Ok_0,
                            is_unread: is_unread->Ok_0,
                            is_flagged: is_flagged->Ok_0,
                            is_answered: is_answered->Ok_0,
                            is_draft: is_draft->Ok_0,
                        },
                    )
                }
            },
            _ => Err(ParseErrorView::InvalidJsonType("MessageCopy"@)),
        }
    }

    fn from_json(json: &Json) -> (r: Result<Self, ParseError>) {
        match json {
            Json::Object(o) => {
                proof {
                    lemma_object_value(*o);
                }
                let message_id = match <String as FromJsonField>::from_json_field(o, "messageId") {
                    Ok(v) => v,
                    Err(e) => return Err(e),
                };
                let mailbox_ids = match <Vec<String> as FromJsonField>::from_json_field(
                    o,
                    "mailboxIds",
                ) {
                    Ok(v) => v,
                    Err(e) => return Err(e),
                };
                let is_unread = match <bool as FromJsonField>::from_json_field(o, "isUnread") {
                    Ok(v) => v,
                    Err(e) => return Err(e),
                };
                let is_flagged = match <bool as FromJsonField>::from_json_field(o, "isFlagged") {
                    Ok(v) => v,
                    Err(e) => return Err(e),
                };
                let is_answered = match <bool as FromJsonField>::from_json_field(o, "isAnswered") {
                    Ok(v) => v,
                    Err(e) => return Err(e),
                };
                let is_draft = match <bool as FromJsonField>::from_json_field(o, "isDraft") {
                    Ok(v) => v,
                    Err(e) => return Err(e),
                };
                Ok(MessageCopy {
                    message_id,
                    mailbox_ids,
                    is_unread,
                    is_flagged,
                    is_answered,
                    is_draft,
                })
            },
            _ => Err(ParseError::InvalidJsonType("MessageCopy".to_string())),
        }
    }
}

impl JsonCodec for MessageCopy {
    open spec fn valid(v: MessageCopyView) -> bool {
        &&& <String as FieldCodec>::field_valid(v.message_id)
        &&& <Vec<String> as FieldCodec>::field_valid(v.mailbox_ids)
        &&& <bool as FieldCodec>::field_valid(v.is_unread)
        &&& <bool as FieldCodec>::field_valid(v.is_flagged)
        &&& <bool as FieldCodec>::field_valid(v.is_answered)
        &&& <bool as FieldCodec>::field_valid(v.is_draft)
    }

    proof fn round_trip(v: MessageCopyView) {
        let o = Self::encoded(v)->Object_0;
        Self::lemma_wire_names();
        assert(get_field::<String>(o, "messageId"@) == Ok::<
            Seq<char>,
            ParseErrorView,
        >(v.message_id)) by {
            Self::lemma_slots(v, "messageId"@);
            <String as FieldCodec>::field_round_trip(v.message_id, "messageId"@);
        }
        assert(get_field::<Vec<String>>(o, "mailboxIds"@) == Ok::<
            Seq<Seq<char>>,
            ParseErrorView,
        >(v.mailbox_ids)) by {
            Self::lemma_slots(v, "mailboxIds"@);
            <Vec<String> as FieldCodec>::field_round_trip(v.mailbox_ids, "mailboxIds"@);
        }
        assert(get_field::<bool>(o, "isUnread"@) == Ok::<bool, ParseErrorView>(v.is_unread)) by {
            Self::lemma_slots(v, "isUnread"@);
            <bool as FieldCodec>::field_round_trip(v.is_unread, "isUnread"@);
        }
        assert(get_field::<bool>(o, "isFlagged"@) == Ok::<bool, ParseErrorView>(v.is_flagged)) by {
            Self::lemma_slots(v, "isFlagged"@);
            <bool as FieldCodec>::field_round_trip(v.is_flagged, "isFlagged"@);
        }
        assert(get_field::<bool>(o, "isAnswered"@) == Ok::<
            bool,
            ParseErrorView,
        >(v.is_answered)) by {
            Self::lemma_slots(v, "isAnswered"@);
            <bool as FieldCodec>::field_round_trip(v.is_answered, "isAnswered"@);
        }
        assert(get_field::<bool>(o, "isDraft"@) == Ok::<bool, ParseErrorView>(v.is_draft)) by {
            Self::lemma_slots(v, "isDraft"@);
            <bool as FieldCodec>::field_round_trip(v.is_draft, "isDraft"@);
        }
    }
}

impl MessageCopy {
    /// What the written form of `v` holds under `name`.
    pub open spec fn slot(v: MessageCopyView, name: Seq<char>) -> Option<JsonValue> {
        if name == "messageId"@ {
            <String as ToJsonField>::field_encoded(v.message_id)
        } else if name == "mailboxIds"@ {
            <Vec<String> as ToJsonField>::field_encoded(v.mailbox_ids)
        } else if name == "isUnread"@ {
            <bool as ToJsonField>::field_encoded(v.is_unread)
        } else if name == "isFlagged"@ {
            <bool as ToJsonField>::field_encoded(v.is_flagged)
        } else if name == "isAnswered"@ {
            <bool as ToJsonField>::field_encoded(v.is_answered)
        } else if name == "isDraft"@ {
            <bool as ToJsonField>::field_encoded(v.is_draft)
        } else {
            None
        }
    }

    /// The written form holds each field under its wire name and nothing
    /// under any other name.
    pub proof fn lemma_slots(v: MessageCopyView, name: Seq<char>)
        ensures
            field_of(Self::encoded(v), name) == Self::slot(v, name),
    {
        Self::lemma_wire_names();
        if name == "messageId"@ {
            assert(field_of(Self::encoded(v), name) == Self::slot(v, name)) by {
                broadcast use lemma_lookup_put_slot;

            }
        } else if name == "mailboxIds"@ {
            assert(field_of(Self::encoded(v), name) == Self::slot(v, name)) by {
                broadcast use lemma_lookup_put_slot;

            }
        } else if name == "isUnread"@ {
            assert(field_of(Self::encoded(v), name) == Self::slot(v, name)) by {
                broadcast use lemma_lookup_put_slot;

            }
        } else if name == "isFlagged"@ {
            assert(field_of(Self::encoded(v), name) == Self::slot(v, name)) by {
                broadcast use lemma_lookup_put_slot;

            }
        } else if name == "isAnswered"@ {
            assert(field_of(Self::encoded(v), name) == Self::slot(v, name)) by {
                broadcast use lemma_lookup_put_slot;

            }
        } else if name == "isDraft"@ {
            assert(field_of(Self::encoded(v), name) == Self::slot(v, name)) by {
                broadcast use lemma_lookup_put_slot;

            }
        } else {
            assert(field_of(Self::encoded(v), name) is None) by {
                broadcast use lemma_lookup_put_slot;

            }
        }
    }
}

/// The messages to copy. Both accounts are held under the one wire name
/// `accountId`: the second is written over the first, and both are read from
/// the same value.
#[derive(Clone, Debug, PartialEq)]
pub struct CopyMessagesRequestArgs {
    pub from_account_id: Presence<String>,
    pub to_account_id: Presence<String>,
    pub messages: TextMap<MessageCopy>,
}

/// A value of [`CopyMessagesRequestArgs`] in contracts.
pub ghost struct CopyMessagesRequestArgsView {
    pub from_account_id: Presence<Seq<char>>,
    pub to_account_id: Presence<Seq<char>>,
    pub messages: Seq<(Seq<char>, MessageCopyView)>,
}

impl DeepView for CopyMessagesRequestArgs {
    type V = CopyMessagesRequestArgsView;

    open spec fn deep_view(&self) -> CopyMessagesRequestArgsView {
        CopyMessagesRequestArgsView {
            from_account_id: self.from_account_id.deep_view(),
            to_account_id: self.to_account_id.deep_view(),
            messages: self.messages.deep_view(),
        }
    }
}

impl CopyMessagesRequestArgs {
    /// The default value: every field at the default of its type.
    pub open spec fn blank() -> CopyMessagesRequestArgsView {
        CopyMessagesRequestArgsView {
            from_account_id: Presence::Absent,
            to_account_id: Presence::Absent,
            messages: Seq::empty(),
        }
    }
}

impl Default for CopyMessagesRequestArgs {
    fn default() -> (r: Self)
        ensures
            r.deep_view() == Self::blank(),
    {
        let from_account_id: Presence<String> = Presence::Absent;
        let to_account_id: Presence<String> = Presence::Absent;
        let messages: TextMap<MessageCopy> = TextMap::new();
        assert(messages.deep_view() =~= Seq::empty());
        CopyMessagesRequestArgs { from_account_id, to_account_id, messages }
    }
}

impl CopyMessagesRequestArgs {
    /// What tells the wire names of this type apart: the length of each, and
    /// for
    /// names of one length a character in which they differ.
    pub proof fn lemma_wire_names()
        ensures
            "accountId"@.len() == 9,
            "messages"@.len() == 8,
    {
        reveal_strlit("accountId");
        reveal_strlit("messages");
    }
}

impl Duplicate for CopyMessagesRequestArgs {
    fn duplicate(&self) -> (r: Self) {
        let from_account_id = self.from_account_id.duplicate();
        let to_account_id = self.to_account_id.duplicate();
        let messages = self.messages.duplicate();
        CopyMessagesRequestArgs { from_account_id, to_account_id, messages }
    }
}

impl ToJson for CopyMessagesRequestArgs {
    /// An object with one key for each field.
    open spec fn encoded(v: CopyMessagesRequestArgsView) -> JsonValue {
        let o = Seq::empty();
        let o = put_field::<Presence<String>>(o, "accountId"@, v.from_account_id);
        let o = put_field::<Presence<String>>(o, "accountId"@, v.to_account_id);
        let o = put_field::<TextMap<MessageCopy>>(o, "messages"@, v.messages);
        JsonValue::Object(o)
    }

    fn to_json(&self) -> (json: Json) {
        let mut d: TextMap<Json> = TextMap::new();
        assert(d.deep_view() =~= Seq::empty());
        self.from_account_id.to_json_field(&mut d, "accountId");
        self.to_account_id.to_json_field(&mut d, "accountId");
        self.messages.to_json_field(&mut d, "messages");
        proof {
            lemma_object_value(d);
        }
        Json::Object(d)
    }
}

impl FromJson for CopyMessagesRequestArgs {
    /// The fields are read in the order in which they are declared; the
    /// first that fails gives the error.
    open spec fn decoded(json: JsonValue) -> Result<CopyMessagesRequestArgsView, ParseErrorView> {
        match json {
            JsonValue::Object(o) => {
                let from_account_id = get_field::<Presence<String>>(o, "accountId"@);
                let to_account_id = get_field::<Presence<String>>(o, "accountId"@);
                let messages = get_field::<TextMap<MessageCopy>>(o, "messages"@);
                if from_account_id is Err {
                    Err(from_account_id->Err_0)
                } else if to_account_id is Err {
                    Err(to_account_id->Err_0)
                } else if messages is Err {
                    Err(messages->Err_0)
                } else {
                    Ok(
                        CopyMessagesRequestArgsView {
                            from_account_id: from_account_id->Ok_0,
                            to_account_id: to_account_id->Ok_0,
                            messages: messages->Ok_0,
                        },
                    )
                }
            },
            _ => Err(ParseErrorView::InvalidJsonType("CopyMessagesRequestArgs"@)),
        }
    }

    fn from_json(json: &Json) -> (r: Result<Self, ParseError>) {
        match json {
            Json::Object(o) => {
                proof {
                    lemma_object_value(*o);
                }
                let from_account_id = match <Presence<String> as FromJsonField>::from_json_field(
                    o,
                    "accountId",
                ) {
                    Ok(v) => v,
                    Err(e) => return Err(e),
                };
                let to_account_id = match <Presence<String> as FromJsonField>::from_json_field(
                    o,
                    "accountId",
                ) {
                    Ok(v) => v,
                    Err(e) => return Err(e),
                };
                let messages = match <TextMap<MessageCopy> as FromJsonField>::from_json_field(
                    o,
                    "messages",
                ) {
                    Ok(v) => v,
                    Err(e) => return Err(e),
                };
                Ok(CopyMessagesRequestArgs { from_account_id, to_account_id, messages })
            },
            _ => Err(ParseError::InvalidJsonType("CopyMessagesRequestArgs".to_string())),
        }
    }
}

impl JsonCodec for CopyMessagesRequestArgs {
    open spec fn valid(v: CopyMessagesRequestArgsView) -> bool {
        &&& <Presence<String> as FieldCodec>::field_valid(v.from_account_id)
        &&& <Presence<String> as FieldCodec>::field_valid(v.to_account_id)
        &&& <TextMap<MessageCopy> as FieldCodec>::field_valid(v.messages)
        &&& v.from_account_id == v.to_account_id
    }

    proof fn round_trip(v: CopyMessagesRequestArgsView) {
        let o = Self::encoded(v)->Object_0;
        Self::lemma_wire_names();
        assert(get_field::<Presence<String>>(o, "accountId"@) == Ok::<
            Presence<Seq<char>>,
            ParseErrorView,
        >(v.from_account_id)) by {
            Self::lemma_slots(v, "accountId"@);
            <Presence<String> as FieldCodec>::field_round_trip(v.from_account_id, "accountId"@);
        }
        assert(get_field::<Presence<String>>(o, "accountId"@) == Ok::<
            Presence<Seq<char>>,
            ParseErrorView,
        >(v.to_account_id)) by {
            Self::lemma_slots(v, "accountId"@);
            <Presence<String> as FieldCodec>::field_round_trip(v.to_account_id, "accountId"@);
        }
        assert(get_field::<TextMap<MessageCopy>>(o, "messages"@) == Ok::<
            Seq<(Seq<char>, MessageCopyView)>,
            ParseErrorView,
        >(v.messages)) by {
            Self::lemma_slots(v, "messages"@);
            <TextMap<MessageCopy> as FieldCodec>::field_round_trip(v.messages, "messages"@);
        }
    }
}

impl CopyMessagesRequestArgs {
    /// What the written form of `v` holds under `name`.
    pub open spec fn slot(v: CopyMessagesRequestArgsView, name: Seq<char>) -> Option<JsonValue> {
        if name == "accountId"@ {
            match <Presence<String> as ToJsonField>::field_encoded(v.to_account_id) {
                Some(j) => Some(j),
                None => <Presence<String> as ToJsonField>::field_encoded(v.from_account_id),
            }
        } else if name == "messages"@ {
            <TextMap<MessageCopy> as ToJsonField>::field_encoded(v.messages)
        } else {
            None
        }
    }

    /// The written form holds each field under its wire name and nothing
    /// under any other name.
    pub proof fn lemma_slots(v: CopyMessagesRequestArgsView, name: Seq<char>)
        ensures
            field_of(Self::encoded(v), name) == Self::slot(v, name),
    {
        Self::lemma_wire_names();
        if name == "accountId"@ {
            assert(field_of(Self::encoded(v), name) == Self::slot(v, name)) by {
                broadcast use lemma_lookup_put_slot;

            }
        } else if name == "messages"@ {
            assert(field_of(Self::encoded(v), name) == Self::slot(v, name)) by {
                broadcast use lemma_lookup_put_slot;

            }
        } else {
            assert(field_of(Self::encoded(v), name) is None) by {
                broadcast use lemma_lookup_put_slot;

            }
        }
    }
}

/// What became of a copy request. Both accounts are held under the one wire
/// name `accountId`.
#[derive(Clone, Debug, PartialEq)]
pub struct CopyMessagesResponseArgs {
    pub from_account_id: String,
    pub to_account_id: String,
    pub created: TextMap<PartialMessage>,
    pub not_created: TextMap<SetError>,
}

/// A value of [`CopyMessagesResponseArgs`] in contracts.
pub ghost struct CopyMessagesResponseArgsView {
    pub from_account_id: Seq<char>,
    pub to_account_id: Seq<char>,
    pub created: Seq<(Seq<char>, PartialMessageView)>,
    pub not_created: Seq<(Seq<char>, SetErrorView)>,
}

impl DeepView for CopyMessagesResponseArgs {
    type V = CopyMessagesResponseArgsView;

    open spec fn deep_view(&self) -> CopyMessagesResponseArgsView {
        CopyMessagesResponseArgsView {
            from_account_id: self.from_account_id.deep_view(),
            to_account_id: self.to_account_id.deep_view(),
            created: self.created.deep_view(),
            not_created: self.not_created.deep_view(),
        }
    }
}

impl CopyMessagesResponseArgs {
    /// The default value: every field at the default of its type.
    pub open spec fn blank() -> CopyMessagesResponseArgsView {
        CopyMessagesResponseArgsView {
            from_account_id: Seq::<char>::empty(),
            to_account_id: Seq::<char>::empty(),
            created: Seq::empty(),
            not_created: Seq::empty(),
        }
    }
}

impl Default for CopyMessagesResponseArgs {
    fn default() -> (r: Self)
        ensures
            r.deep_view() == Self::blank(),
    {
        let from_account_id: String = String::new();
        let to_account_id: String = String::new();
        let created: TextMap<PartialMessage> = TextMap::new();
        assert(created.deep_view() =~= Seq::empty());
        let not_created: TextMap<SetError> = TextMap::new();
        assert(not_created.deep_view() =~= Seq::empty());
        CopyMessagesResponseArgs { from_account_id, to_account_id, created, not_created }
    }
}

impl CopyMessagesResponseArgs {
    /// What tells the wire names of this type apart: the length of each, and
    /// for
    /// names of one length a character in which they differ.
    pub proof fn lemma_wire_names()
        ensures
            "accountId"@.len() == 9,
            "created"@.len() == 7,
            "notCreated"@.len() == 10,
    {
        reveal_strlit("accountId");
        reveal_strlit("created");
        reveal_strlit("notCreated");
    }
}

impl Duplicate for CopyMessagesResponseArgs {
    fn duplicate(&self) -> (r: Self) {
        let from_account_id = self.from_account_id.duplicate();
        let to_account_id = self.to_account_id.duplicate();
        let created = self.created.duplicate();
        let not_created = self.not_created.duplicate();
        CopyMessagesResponseArgs { from_account_id, to_account_id, created, not_created }
    }
}

impl ToJson for CopyMessagesResponseArgs {
    /// An object with one key for each field.
    open spec fn encoded(v: CopyMessagesResponseArgsView) -> JsonValue {
        let o = Seq::empty();
        let o = put_field::<String>(o, "accountId"@, v.from_account_id);
        let o = put_field::<String>(o, "accountId"@, v.to_account_id);
        let o = put_field::<TextMap<PartialMessage>>(o, "created"@, v.created);
        let o = put_field::<TextMap<SetError>>(o, "notCreated"@, v.not_created);
        JsonValue::Object(o)
    }

    fn to_json(&self) -> (json: Json) {
        let mut d: TextMap<Json> = TextMap::new();
        assert(d.deep_view() =~= Seq::empty());
        self.from_account_id.to_json_field(&mut d, "accountId");
        self.to_account_id.to_json_field(&mut d, "accountId");
        self.created.to_json_field(&mut d, "created");
        self.not_created.to_json_field(&mut d, "notCreated");
        proof {
            lemma_object_value(d);
        }
        Json::Object(d)
    }
}

impl FromJson for CopyMessagesResponseArgs {
    /// The fields are read in the order in which they are declared; the
    /// first that fails gives the error.
    open spec fn decoded(json: JsonValue) -> Result<CopyMessagesResponseArgsView, ParseErrorView> {
        match json {
            JsonValue::Object(o) => {
                let from_account_id = get_field::<String>(o, "accountId"@);
                let to_account_id = get_field::<String>(o, "accountId"@);
                let created = get_field::<TextMap<PartialMessage>>(o, "created"@);
                let not_created = get_field::<TextMap<SetError>>(o, "notCreated"@);
                if from_account_id is Err {
                    Err(from_account_id->Err_0)
                } else if to_account_id is Err {
                    Err(to_account_id->Err_0)
                } else if created is Err {
                    Err(created->Err_0)
                } else if not_created is Err {
                    Err(not_created->Err_0)
                } else {
                    Ok(
                        CopyMessagesResponseArgsView {
                            from_account_id: from_account_id->Ok_0,
                            to_account_id: to_account_id->Ok_0,
                            created: created->Ok_0,
                            not_created: not_created->Ok_0,
                        },
                    )
                }
            },
            _ => Err(ParseErrorView::InvalidJsonType("CopyMessagesResponseArgs"@)),
        }
    }

    fn from_json(json: &Json) -> (r: Result<Self, ParseError>) {
        match json {
            Json::Object(o) => {
                proof {
                    lemma_object_value(*o);
                }
                let from_account_id = match <String as FromJsonField>::from_json_field(
                    o,
                    "accountId",
                ) {
                    Ok(v) => v,
                    Err(e) => return Err(e),
                };
                let to_account_id = match <String as FromJsonField>::from_json_field(
                    o,
                    "accountId",
                ) {
                    Ok(v) => v,
                    Err(e) => return Err(e),
                };
                let created = match <TextMap<PartialMessage> as FromJsonField>::from_json_field(
                    o,
                    "created",
                ) {
                    Ok(v) => v,
                    Err(e) => return Err(e),
                };
                let not_created = match <TextMap<SetError> as FromJsonField>::from_json_field(
                    o,
                    "notCreated",
                ) {
                    Ok(v) => v,
                    Err(e) => return Err(e),
                };
                Ok(CopyMessagesResponseArgs {
                    from_account_id,
                    to_account_id,
                    created,
                    not_created,
                })
            },
            _ => Err(ParseError::InvalidJsonType("CopyMessagesResponseArgs".to_string())),
        }
    }
}

impl JsonCodec for CopyMessagesResponseArgs {
    open spec fn valid(v: CopyMessagesResponseArgsView) -> bool {
        &&& <String as FieldCodec>::field_valid(v.from_account_id)
        &&& <String as FieldCodec>::field_valid(v.to_account_id)
        &&& <TextMap<PartialMessage> as FieldCodec>::field_valid(v.created)
        &&& <TextMap<SetError> as FieldCodec>::field_valid(v.not_created)
        &&& v.from_account_id == v.to_account_id
    }

    proof fn round_trip(v: CopyMessagesResponseArgsView) {
        let o = Self::encoded(v)->Object_0;
        Self::lemma_wire_names();
        assert(get_field::<String>(o, "accountId"@) == Ok::<
            Seq<char>,
            ParseErrorView,
        >(v.from_account_id)) by {
            Self::lemma_slots(v, "accountId"@);
            <String as FieldCodec>::field_round_trip(v.from_account_id, "accountId"@);
        }
        assert(get_field::<String>(o, "accountId"@) == Ok::<
            Seq<char>,
            ParseErrorView,
        >(v.to_account_id)) by {
            Self::lemma_slots(v, "accountId"@);
            <String as FieldCodec>::field_round_trip(v.to_account_id, "accountId"@);
        }
        assert(get_field::<TextMap<PartialMessage>>(o, "created"@) == Ok::<
            Seq<(Seq<char>, PartialMessageView)>,
            ParseErrorView,
        >(v.created)) by {
            Self::lemma_slots(v, "created"@);
            <TextMap<PartialMessage> as FieldCodec>::field_round_trip(v.created, "created"@);
        }
        assert(get_field::<TextMap<SetError>>(o, "notCreated"@) == Ok::<
            Seq<(Seq<char>, SetErrorView)>,
            ParseErrorView,
        >(v.not_created)) by {
            Self::lemma_slots(v, "notCreated"@);
            <TextMap<SetError> as FieldCodec>::field_round_trip(v.not_created, "notCreated"@);
        }
    }
}

impl CopyMessagesResponseArgs {
    /// What the written form of `v` holds under `name`.
    pub open spec fn slot(v: CopyMessagesResponseArgsView, name: Seq<char>) -> Option<JsonValue> {
        if name == "accountId"@ {
            match <String as ToJsonField>::field_encoded(v.to_account_id) {
                Some(j) => Some(j),
                None => <String as ToJsonField>::field_encoded(v.from_account_id),
            }
        } else if name == "created"@ {
            <TextMap<PartialMessage> as ToJsonField>::field_encoded(v.created)
        } else if name == "notCreated"@ {
            <TextMap<SetError> as ToJsonField>::field_encoded(v.not_created)
        } else {
            None
        }
    }

    /// The written form holds each field under its wire name and nothing
    /// under any other name.
    pub proof fn lemma_slots(v: CopyMessagesResponseArgsView, name: Seq<char>)
        ensures
            field_of(Self::encoded(v), name) == Self::slot(v, name),
    {
        Self::lemma_wire_names();
        if name == "accountId"@ {
            assert(field_of(Self::encoded(v), name) == Self::slot(v, name)) by {
                broadcast use lemma_lookup_put_slot;

            }
        } else if name == "created"@ {
            assert(field_of(Self::encoded(v), name) == Self::slot(v, name)) by {
                broadcast use lemma_lookup_put_slot;

            }
        } else if name == "notCreated"@ {
            assert(field_of(Self::encoded(v), name) == Self::slot(v, name)) by {
                broadcast use lemma_lookup_put_slot;

            }
        } else {
            assert(field_of(Self::encoded(v), name) is None) by {
                broadcast use lemma_lookup_put_slot;

            }
        }
    }
}

} // verus!
