//! Importing messages from blobs.

use crate::json::{lemma_lookup_put_slot, lemma_object_value, Json, JsonValue, TextMap};
use crate::parse::{
    get_field, put_field, Duplicate, FieldCodec, FromJson, FromJsonField, JsonCodec, ParseError,
    ParseErrorView, Presence, ToJson, ToJsonField,
};
use crate::message::{PartialMessage, PartialMessageView};
use crate::method::{SetError, SetErrorView};
use crate::record::field_of;
use vstd::prelude::*;

verus! {

/// A blob to import as a message, with the mailboxes and the flags of the
/// message.
#[derive(Clone, Debug, PartialEq)]
pub struct MessageImport {
    blob_id: String,
    mailbox_ids: Vec<String>,
    is_unread: bool,
    is_flagged: bool,
    is_answered: bool,
    is_draft: bool,
}

/// A value of [`MessageImport`] in contracts.
pub ghost struct MessageImportView {
    pub blob_id: Seq<char>,
    pub mailbox_ids: Seq<Seq<char>>,
    pub is_unread: bool,
    pub is_flagged: bool,
    pub is_answered: bool,
    pub is_draft: bool,
}

impl DeepView for MessageImport {
    type V = MessageImportView;

    closed spec fn deep_view(&self) -> MessageImportView {
        MessageImportView {
            blob_id: self.blob_id.deep_view(),
            mailbox_ids: self.mailbox_ids.deep_view(),
            is_unread: self.is_unread.deep_view(),
            is_flagged: self.is_flagged.deep_view(),
            is_answered: self.is_answered.deep_view(),
            is_draft: self.is_draft.deep_view(),
        }
    }
}

impl MessageImport {
    /// The default value: every field at the default of its type.
    pub open spec fn blank() -> MessageImportView {
        MessageImportView {
            blob_id: Seq::<char>::empty(),
            mailbox_ids: Seq::empty(),
            is_unread: false,
            is_flagged: false,
            is_answered: false,
            is_draft: false,
        }
    }
}

impl Default for MessageImport {
    fn default() -> (r: Self)
        ensures
            r.deep_view() == Self::blank(),
    {
        let blob_id: String = String::new();
        let mailbox_ids: Vec<String> = Vec::new();
        assert(mailbox_ids.deep_view() =~= Seq::empty());
        let is_unread: bool = false;
        let is_flagged: bool = false;
        let is_answered: bool = false;
        let is_draft: bool = false;
        MessageImport { blob_id, mailbox_ids, is_unread, is_flagged, is_answered, is_draft }
    }
}

impl MessageImport {
    /// What tells the wire names of this type apart: the length of each, and
    /// for
    /// names of one length a character in which they differ.
    pub proof fn lemma_wire_names()
        ensures
            "blobId"@.len() == 6,
            "mailboxIds"@.len() == 10,
            "isUnread"@.len() == 8,
            "isFlagged"@.len() == 9,
            "isAnswered"@.len() == 10,
            "isDraft"@.len() == 7,
            "mailboxIds"@[0] == 'm',
            "isAnswered"@[0] == 'i',
    {
        reveal_strlit("blobId");
        reveal_strlit("mailboxIds");
        reveal_strlit("isUnread");
        reveal_strlit("isFlagged");
        reveal_strlit("isAnswered");
        reveal_strlit("isDraft");
    }
}

impl Duplicate for MessageImport {
    fn duplicate(&self) -> (r: Self) {
        let blob_id = self.blob_id.duplicate();
        let mailbox_ids = self.mailbox_ids.duplicate();
        let is_unread = self.is_unread.duplicate();
        let is_flagged = self.is_flagged.duplicate();
        let is_answered = self.is_answered.duplicate();
        let is_draft = self.is_draft.duplicate();
        MessageImport { blob_id, mailbox_ids, is_unread, is_flagged, is_answered, is_draft }
    }
}

impl ToJson for MessageImport {
    /// An object with one key for each field.
    open spec fn encoded(v: MessageImportView) -> JsonValue {
        let o = Seq::empty();
        let o = put_field::<String>(o, "blobId"@, v.blob_id);
        let o = put_field::<Vec<String>>(o, "mailboxIds"@, v.mailbox_ids);
        let o = put_field::<bool>(o, "isUnread"@, v.is_unread);
        let o = put_field::<bool>(o, "isFlagged"@, v.is_flagged);
        let o = put_field::<bool>(o, "isAnswered"@, v.is_answered);
        let o = put_field::<bool>(o, "isDraft"@, v.is_draft);
        JsonValue::Object(o)
    }

    fn to_json(&self) -> (json: Json) {
        let mut d: TextMap<Json> = TextMap::new();
        assert(d.deep_view() =~= Seq::empty());
        self.blob_id.to_json_field(&mut d, "blobId");
        self.mailbox_ids.to_json_field(&mut d, "mailboxIds");
        self.is_unread.to_json_field(&mut d, "isUnread");
        self.is_flagged.to_json_field(&mut d, "isFlagged");
        self.is_answered.to_json_field(&mut d, "isAnswered");
        self.is_draft.to_json_field(&mut d, "isDraft");
        proof {
            lemma_object_value(d);
        }
        Json::Object(d)
    }
}

impl FromJson for MessageImport {
    /// The fields are read in the order in which they are declared; the
    /// first that fails gives the error.
    open spec fn decoded(json: JsonValue) -> Result<MessageImportView, ParseErrorView> {
        match json {
            JsonValue::Object(o) => {
                let blob_id = get_field::<String>(o, "blobId"@);
                let mailbox_ids = get_field::<Vec<String>>(o, "mailboxIds"@);
                let is_unread = get_field::<bool>(o, "isUnread"@);
                let is_flagged = get_field::<bool>(o, "isFlagged"@);
                let is_answered = get_field::<bool>(o, "isAnswered"@);
                let is_draft = get_field::<bool>(o, "isDraft"@);
                if blob_id is Err {
                    Err(blob_id->Err_0)
                } else if mailbox_ids is Err {
                    Err(mailbox_ids->Err_0)
                } else if is_unread is Err {
                    Err(is_unread->Err_0)
                } else if is_flagged is Err {
                    Err(is_flagged->Err_0)
                } else if is_answered is Err {
                    Err(is_answered->Err_0)
                } else if is_draft is Err {
                    Err(is_draft->Err_0)
                } else {
                    Ok(
                        MessageImportView {
                            blob_id: blob_id->Ok_0,
                            mailbox_ids: mailbox_ids->Ok_0,
                            is_unread: is_unread->Ok_0,
                            is_flagged: is_flagged->Ok_0,
                            is_answered: is_answered->Ok_0,
                            is_draft: is_draft->Ok_0,
                        },
                    )
                }
            },
            _ => Err(ParseErrorView::InvalidJsonType("MessageImport"@)),
        }
    }

    fn from_json(json: &Json) -> (r: Result<Self, ParseError>) {
        match json {
            Json::Object(o) => {
                proof {
                    lemma_object_value(*o);
                }
                let blob_id = match <String as FromJsonField>::from_json_field(o, "blobId") {
                    Ok(v) => v,
                    Err(e) => return Err(e),
                };
                let mailbox_ids = match <Vec<String> as FromJsonField>::from_json_field(
                    o,
                    "mailboxIds",
                ) {
                    Ok(v) => v,
                    Err(e) => return Err(e),
                };
                let is_unread = match <bool as FromJsonField>::from_json_field(o, "isUnread") {
                    Ok(v) => v,
                    Err(e) => return Err(e),
                };
                let is_flagged = match <bool as FromJsonField>::from_json_field(o, "isFlagged") {
                    Ok(v) => v,
                    Err(e) => return Err(e),
                };
                let is_answered = match <bool as FromJsonField>::from_json_field(o, "isAnswered") {
                    Ok(v) => v,
                    Err(e) => return Err(e),
                };
                let is_draft = match <bool as FromJsonField>::from_json_field(o, "isDraft") {
                    Ok(v) => v,
                    Err(e) => return Err(e),
                };
                Ok(MessageImport {
                    blob_id,
                    mailbox_ids,
                    is_unread,
                    is_flagged,
                    is_answered,
                    is_draft,
                })
            },
            _ => Err(ParseError::InvalidJsonType("MessageImport".to_string())),
        }
    }
}

impl JsonCodec for MessageImport {
    open spec fn valid(v: MessageImportView) -> bool {
        &&& <String as FieldCodec>::field_valid(v.blob_id)
        &&& <Vec<String> as FieldCodec>::field_valid(v.mailbox_ids)
        &&& <bool as FieldCodec>::field_valid(v.is_unread)
        &&& <bool as FieldCodec>::field_valid(v.is_flagged)
        &&& <bool as FieldCodec>::field_valid(v.is_answered)
        &&& <bool as FieldCodec>::field_valid(v.is_draft)
    }

    proof fn round_trip(v: MessageImportView) {
        let o = Self::encoded(v)->Object_0;
        Self::lemma_wire_names();
        assert(get_field::<String>(o, "blobId"@) == Ok::<Seq<char>, ParseErrorView>(v.blob_id)) by {
            Self::lemma_slots(v, "blobId"@);
            <String as FieldCodec>::field_round_trip(v.blob_id, "blobId"@);
        }
        assert(get_field::<Vec<String>>(o, "mailboxIds"@) == Ok::<
            Seq<Seq<char>>,
            ParseErrorView,
        >(v.mailbox_ids)) by {
            Self::lemma_slots(v, "mailboxIds"@);
            <Vec<String> as FieldCodec>::field_round_trip(v.mailbox_ids, "mailboxIds"@);
        }
        assert(get_field::<bool>(o, "isUnread"@) == Ok::<bool, ParseErrorView>(v.is_unread)) by {
            Self::lemma_slots(v, "isUnread"@);
            <bool as FieldCodec>::field_round_trip(v.is_unread, "isUnread"@);
        }
        assert(get_field::<bool>(o, "isFlagged"@) == Ok::<bool, ParseErrorView>(v.is_flagged)) by {
            Self::lemma_slots(v, "isFlagged"@);
            <bool as FieldCodec>::field_round_trip(v.is_flagged, "isFlagged"@);
        }
        assert(get_field::<bool>(o, "isAnswered"@) == Ok::<
            bool,
            ParseErrorView,
        >(v.is_answered)) by {
            Self::lemma_slots(v, "isAnswered"@);
            <bool as FieldCodec>::field_round_trip(v.is_answered, "isAnswered"@);
        }
        assert(get_field::<bool>(o, "isDraft"@) == Ok::<bool, ParseErrorView>(v.is_draft)) by {
            Self::lemma_slots(v, "isDraft"@);
            <bool as FieldCodec>::field_round_trip(v.is_draft, "isDraft"@);
        }
    }
}

impl MessageImport {
    /// What the written form of `v` holds under `name`.
    pub open spec fn slot(v: MessageImportView, name: Seq<char>) -> Option<JsonValue> {
        if name == "blobId"@ {
            <String as ToJsonField>::field_encoded(v.blob_id)
        } else if name == "mailboxIds"@ {
            <Vec<String> as ToJsonField>::field_encoded(v.mailbox_ids)
        } else if name == "isUnread"@ {
            <bool as ToJsonField>::field_encoded(v.is_unread)
        } else if name == "isFlagged"@ {
            <bool as ToJsonField>::field_encoded(v.is_flagged)
        } else if name == "isAnswered"@ {
            <bool as ToJsonField>::field_encoded(v.is_answered)
        } else if name == "isDraft"@ {
            <bool as ToJsonField>::field_encoded(v.is_draft)
        } else {
            None
        }
    }

    /// The written form holds each field under its wire name and nothing
    /// under any other name.
    pub proof fn lemma_slots(v: MessageImportView, name: Seq<char>)
        ensures
            field_of(Self::encoded(v), name) == Self::slot(v, name),
    {
        Self::lemma_wire_names();
        if name == "blobId"@ {
            assert(field_of(Self::encoded(v), name) == Self::slot(v, name)) by {
                broadcast use lemma_lookup_put_slot;

            }
        } else if name == "mailboxIds"@ {
            assert(field_of(Self::encoded(v), name) == Self::slot(v, name)) by {
                broadcast use lemma_lookup_put_slot;

            }
        } else if name == "isUnread"@ {
            assert(field_of(Self::encoded(v), name) == Self::slot(v, name)) by {
                broadcast use lemma_lookup_put_slot;

            }
        } else if name == "isFlagged"@ {
            assert(field_of(Self::encoded(v), name) == Self::slot(v, name)) by {
                broadcast use lemma_lookup_put_slot;

            }
        } else if name == "isAnswered"@ {
            assert(field_of(Self::encoded(v), name) == Self::slot(v, name)) by {
                broadcast use lemma_lookup_put_slot;

            }
        } else if name == "isDraft"@ {
            assert(field_of(Self::encoded(v), name) == Self::slot(v, name)) by {
                broadcast use lemma_lookup_put_slot;

            }
        } else {
            assert(field_of(Self::encoded(v), name) is None) by {
                broadcast use lemma_lookup_put_slot;

            }
        }
    }
}

/// The blobs to import.
#[derive(Clone, Debug, PartialEq)]
pub struct ImportMessagesRequestArgs {
    pub account_id: Presence<String>,
    pub messages: TextMap<MessageImport>,
}

/// A value of [`ImportMessagesRequestArgs`] in contracts.
pub ghost struct ImportMessagesRequestArgsView {
    pub account_id: Presence<Seq<char>>,
    pub messages: Seq<(Seq<char>, MessageImportView)>,
}

impl DeepView for ImportMessagesRequestArgs {
    type V = ImportMessagesRequestArgsView;

    open spec fn deep_view(&self) -> ImportMessagesRequestArgsView {
        ImportMessagesRequestArgsView {
            account_id: self.account_id.deep_view(),
            messages: self.messages.deep_view(),
        }
    }
}

impl ImportMessagesRequestArgs {
    /// The default value: every field at the default of its type.
    pub open spec fn blank() -> ImportMessagesRequestArgsView {
        ImportMessagesRequestArgsView {
            account_id: Presence::Absent,
            messages: Seq::empty(),
        }
    }
}

impl Default for ImportMessagesRequestArgs {
    fn default() -> (r: Self)
        ensures
            r.deep_view() == Self::blank(),
    {
        let account_id: Presence<String> = Presence::Absent;
        let messages: TextMap<MessageImport> = TextMap::new();
        assert(messages.deep_view() =~= Seq::empty());
        ImportMessagesRequestArgs { account_id, messages }
    }
}

impl ImportMessagesRequestArgs {
    /// What tells the wire names of this type apart: the length of each, and
    /// for
    /// names of one length a character in which they differ.
    pub proof fn lemma_wire_names()
        ensures
            "accountId"@.len() == 9,
            "messages"@.len() == 8,
    {
        reveal_strlit("accountId");
        reveal_strlit("messages");
    }
}

impl Duplicate for ImportMessagesRequestArgs {
    fn duplicate(&self) -> (r: Self) {
        let account_id = self.account_id.duplicate();
        let messages = self.messages.duplicate();
        ImportMessagesRequestArgs { account_id, messages }
    }
}

impl ToJson for ImportMessagesRequestArgs {
    /// An object with one key for each field.
    open spec fn encoded(v: ImportMessagesRequestArgsView) -> JsonValue {
        let o = Seq::empty();
        let o = put_field::<Presence<String>>(o, "accountId"@, v.account_id);
        let o = put_field::<TextMap<MessageImport>>(o, "messages"@, v.messages);
        JsonValue::Object(o)
    }

    fn to_json(&self) -> (json: Json) {
        let mut d: TextMap<Json> = TextMap::new();
        assert(d.deep_view() =~= Seq::empty());
        self.account_id.to_json_field(&mut d, "accountId");
        self.messages.to_json_field(&mut d, "messages");
        proof {
            lemma_object_value(d);
        }
        Json::Object(d)
    }
}

impl FromJson for ImportMessagesRequestArgs {
    /// The fields are read in the order in which they are declared; the
    /// first that fails gives the error.
    open spec fn decoded(json: JsonValue) -> Result<ImportMessagesRequestArgsView, ParseErrorView> {
        match json {
            JsonValue::Object(o) => {
                let account_id = get_field::<Presence<String>>(o, "accountId"@);
                let messages = get_field::<TextMap<MessageImport>>(o, "messages"@);
                if account_id is Err {
                    Err(account_id->Err_0)
                } else if messages is Err {
                    Err(messages->Err_0)
                } else {
                    Ok(
                        ImportMessagesRequestArgsView {
                            account_id: account_id->Ok_0,
                            messages: messages->Ok_0,
                        },
                    )
                }
            },
            _ => Err(ParseErrorView::InvalidJsonType("ImportMessagesRequestArgs"@)),
        }
    }

    fn from_json(json: &Json) -> (r: Result<Self, ParseError>) {
        match json {
            Json::Object(o) => {
                proof {
                    lemma_object_value(*o);
                }
                let account_id = match <Presence<String> as FromJsonField>::from_json_field(
                    o,
                    "accountId",
                ) {
                    Ok(v) => v,
                    Err(e) => return Err(e),
                };
                let messages = match <TextMap<MessageImport> as FromJsonField>::from_json_field(
                    o,
                    "messages",
                ) {
                    Ok(v) => v,
                    Err(e) => return Err(e),
                };
                Ok(ImportMessagesRequestArgs { account_id, messages })
            },
            _ => Err(ParseError::InvalidJsonType("ImportMessagesRequestArgs".to_string())),
        }
    }
}

impl JsonCodec for ImportMessagesRequestArgs {
    open spec fn valid(v: ImportMessagesRequestArgsView) -> bool {
        &&& <Presence<String> as FieldCodec>::field_valid(v.account_id)
        &&& <TextMap<MessageImport> as FieldCodec>::field_valid(v.messages)
    }

    proof fn round_trip(v: ImportMessagesRequestArgsView) {
        let o = Self::encoded(v)->Object_0;
        Self::lemma_wire_names();
        assert(get_field::<Presence<String>>(o, "accountId"@) == Ok::<
            Presence<Seq<char>>,
            ParseErrorView,
        >(v.account_id)) by {
            Self::lemma_slots(v, "accountId"@);
            <Presence<String> as FieldCodec>::field_round_trip(v.account_id, "accountId"@);
        }
        assert(get_field::<TextMap<MessageImport>>(o, "messages"@) == Ok::<
            Seq<(Seq<char>, MessageImportView)>,
            ParseErrorView,
        >(v.messages)) by {
            Self::lemma_slots(v, "messages"@);
            <TextMap<MessageImport> as FieldCodec>::field_round_trip(v.messages, "messages"@);
        }
    }
}

impl ImportMessagesRequestArgs {
    /// What the written form of `v` holds under `name`.
    pub open spec fn slot(v: ImportMessagesRequestArgsView, name: Seq<char>) -> Option<JsonValue> {
        if name == "accountId"@ {
            <Presence<String> as ToJsonField>::field_encoded(v.account_id)
        } else if name == "messages"@ {
            <TextMap<MessageImport> as ToJsonField>::field_encoded(v.messages)
        } else {
            None
        }
    }

    /// The written form holds each field under its wire name and nothing
    /// under any other name.
    pub proof fn lemma_slots(v: ImportMessagesRequestArgsView, name: Seq<char>)
        ensures
            field_of(Self::encoded(v), name) == Self::slot(v, name),
    {
        Self::lemma_wire_names();
        if name == "accountId"@ {
            assert(field_of(Self::encoded(v), name) == Self::slot(v, name)) by {
                broadcast use lemma_lookup_put_slot;

            }
        } else if name == "messages"@ {
            assert(field_of(Self::encoded(v), name) == Self::slot(v, name)) by {
                broadcast use lemma_lookup_put_slot;

            }
        } else {
            assert(field_of(Self::encoded(v), name) is None) by {
                broadcast use lemma_lookup_put_slot;

            }
        }
    }
}

/// What became of an import request.
#[derive(Clone, Debug, PartialEq)]
pub struct ImportMessagesResponseArgs {
    pub account_id: String,
    pub created: TextMap<PartialMessage>,
    pub not_created: TextMap<SetError>,
}

/// A value of [`ImportMessagesResponseArgs`] in contracts.
pub ghost struct ImportMessagesResponseArgsView {
    pub account_id: Seq<char>,
    pub created: Seq<(Seq<char>, PartialMessageView)>,
    pub not_created: Seq<(Seq<char>, SetErrorView)>,
}

impl DeepView for ImportMessagesResponseArgs {
    type V = ImportMessagesResponseArgsView;

    open spec fn deep_view(&self) -> ImportMessagesResponseArgsView {
        ImportMessagesResponseArgsView {
            account_id: self.account_id.deep_view(),
            created: self.created.deep_view(),
            not_created: self.not_created.deep_view(),
        }
    }
}

impl ImportMessagesResponseArgs {
    /// The default value: every field at the default of its type.
    pub open spec fn blank() -> ImportMessagesResponseArgsView {
        ImportMessagesResponseArgsView {
            account_id: Seq::<char>::empty(),
            created: Seq::empty(),
            not_created: Seq::empty(),
        }
    }
}

impl Default for ImportMessagesResponseArgs {
    fn default() -> (r: Self)
        ensures
            r.deep_view() == Self::blank(),
    {
        let account_id: String = String::new();
        let created: TextMap<PartialMessage> = TextMap::new();
        assert(created.deep_view() =~= Seq::empty());
        let not_created: TextMap<SetError> = TextMap::new();
        assert(not_created.deep_view() =~= Seq::empty());
        ImportMessagesResponseArgs { account_id, created, not_created }
    }
}

impl ImportMessagesResponseArgs {
    /// What tells the wire names of this type apart: the length of each, and
    /// for
    /// names of one length a character in which they differ.
    pub proof fn lemma_wire_names()
        ensures
            "accountId"@.len() == 9,
            "created"@.len() == 7,
            "notCreated"@.len() == 10,
    {
        reveal_strlit("accountId");
        reveal_strlit("created");
        reveal_strlit("notCreated");
    }
}

impl Duplicate for ImportMessagesResponseArgs {
    fn duplicate(&self) -> (r: Self) {
        let account_id = self.account_id.duplicate();
        let created = self.created.duplicate();
        let not_created = self.not_created.duplicate();
        ImportMessagesResponseArgs { account_id, created, not_created }
    }
}

impl ToJson for ImportMessagesResponseArgs {
    /// An object with one key for each field.
    open spec fn encoded(v: ImportMessagesResponseArgsView) -> JsonValue {
        let o = Seq::empty();
        let o = put_field::<String>(o, "accountId"@, v.account_id);
        let o = put_field::<TextMap<PartialMessage>>(o, "created"@, v.created);
        let o = put_field::<TextMap<SetError>>(o, "notCreated"@, v.not_created);
        JsonValue::Object(o)
    }

    fn to_json(&self) -> (json: Json) {
        let mut d: TextMap<Json> = TextMap::new();
        assert(d.deep_view() =~= Seq::empty());
        self.account_id.to_json_field(&mut d, "accountId");
        self.created.to_json_field(&mut d, "created");
        self.not_created.to_json_field(&mut d, "notCreated");
        proof {
            lemma_object_value(d);
        }
        Json::Object(d)
    }
}

impl FromJson for ImportMessagesResponseArgs {
    /// The fields are read in the order in which they are declared; the
    /// first that fails gives the error.
    open spec fn decoded(
        json: JsonValue,
    ) -> Result<ImportMessagesResponseArgsView, ParseErrorView> {
        match json {
            JsonValue::Object(o) => {
                let account_id = get_field::<String>(o, "accountId"@);
                let created = get_field::<TextMap<PartialMessage>>(o, "created"@);
                let not_created = get_field::<TextMap<SetError>>(o, "notCreated"@);
                if account_id is Err {
                    Err(account_id->Err_0)
                } else if created is Err {
                    Err(created->Err_0)
                } else if not_created is Err {
                    Err(not_created->Err_0)
                } else {
                    Ok(
                        ImportMessagesResponseArgsView {
                            account_id: account_id->Ok_0,
                            created: created->Ok_0,
                            not_created: not_created->Ok_0,
                        },
                    )
                }
            },
            _ => Err(ParseErrorView::InvalidJsonType("ImportMessagesResponseArgs"@)),
        }
    }

    fn from_json(json: &Json) -> (r: Result<Self, ParseError>) {
        match json {
            Json::Object(o) => {
                proof {
                    lemma_object_value(*o);
                }
                let account_id = match <String as FromJsonField>::from_json_field(o, "accountId") {
                    Ok(v) => v,
                    Err(e) => return Err(e),
                };
                let created = match <TextMap<PartialMessage> as FromJsonField>::from_json_field(
                    o,
                    "created",
                ) {
                    Ok(v) => v,
                    Err(e) => return Err(e),
                };
                let not_created = match <TextMap<SetError> as FromJsonField>::from_json_field(
                    o,
                    "notCreated",
                ) {
                    Ok(v) => v,
                    Err(e) => return Err(e),
                };
                Ok(ImportMessagesResponseArgs { account_id, created, not_created })
            },
            _ => Err(ParseError::InvalidJsonType("ImportMessagesResponseArgs".to_string())),
        }
    }
}

impl JsonCodec for ImportMessagesResponseArgs {
    open spec fn valid(v: ImportMessagesResponseArgsView) -> bool {
        &&& <String as FieldCodec>::field_valid(v.account_id)
        &&& <TextMap<PartialMessage> as FieldCodec>::field_valid(v.created)
        &&& <TextMap<SetError> as FieldCodec>::field_valid(v.not_created)
    }

    proof fn round_trip(v: ImportMessagesResponseArgsView) {
        let o = Self::encoded(v)->Object_0;
        Self::lemma_wire_names();
        assert(get_field::<String>(o, "accountId"@) == Ok::<
            Seq<char>,
            ParseErrorView,
        >(v.account_id)) by {
            Self::lemma_slots(v, "accountId"@);
            <String as FieldCodec>::field_round_trip(v.account_id, "accountId"@);
        }
        assert(get_field::<TextMap<PartialMessage>>(o, "created"@) == Ok::<
            Seq<(Seq<char>, PartialMessageView)>,
            ParseErrorView,
        >(v.created)) by {
            Self::lemma_slots(v, "created"@);
            <TextMap<PartialMessage> as FieldCodec>::field_round_trip(v.created, "created"@);
        }
        assert(get_field::<TextMap<SetError>>(o, "notCreated"@) == Ok::<
            Seq<(Seq<char>, SetErrorView)>,
            ParseErrorView,
        >(v.not_created)) by {
            Self::lemma_slots(v, "notCreated"@);
            <TextMap<SetError> as FieldCodec>::field_round_trip(v.not_created, "notCreated"@);
        }
    }
}

impl ImportMessagesResponseArgs {
    /// What the written form of `v` holds under `name`.
    pub open spec fn slot(v: ImportMessagesResponseArgsView, name: Seq<char>) -> Option<JsonValue> {
        if name == "accountId"@ {
            <String as ToJsonField>::field_encoded(v.account_id)
        } else if name == "created"@ {
            <TextMap<PartialMessage> as ToJsonField>::field_encoded(v.created)
        } else if name == "notCreated"@ {
            <TextMap<SetError> as ToJsonField>::field_encoded(v.not_created)
        } else {
            None
        }
    }

    /// The written form holds each field under its wire name and nothing
    /// under any other name.
    pub proof fn lemma_slots(v: ImportMessagesResponseArgsView, name: Seq<char>)
        ensures
            field_of(Self::encoded(v), name) == Self::slot(v, name),
    {
        Self::lemma_wire_names();
        if name == "accountId"@ {
            assert(field_of(Self::encoded(v), name) == Self::slot(v, name)) by {
                broadcast use lemma_lookup_put_slot;

            }
        } else if name == "created"@ {
            assert(field_of(Self::encoded(v), name) == Self::slot(v, name)) by {
                broadcast use lemma_lookup_put_slot;

            }
        } else if name == "notCreated"@ {
            assert(field_of(Self::encoded(v), name) == Self::slot(v, name)) by {
                broadcast use lemma_lookup_put_slot;

            }
        } else {
            assert(field_of(Self::encoded(v), name) is None) by {
                broadcast use lemma_lookup_put_slot;

            }
        }
    }
}

} // verus!
