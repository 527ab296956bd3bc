//! Messages, with their senders, recipients and attachments.

use crate::json::{
    keys_ascend, lemma_deepened_lookup, lemma_deepened_put, lemma_found_is_part,
    lemma_lookup_put_slot, lemma_object_value, lemma_put_last, lemma_value_is_part, lookup, put,
    put_slot, Json, JsonValue, TextMap,
};
use crate::parse::{
    encoded_entries, get_field, put_field, result_view, Duplicate, FieldCodec, FromJson,
    FromJsonField, JsonCodec, ParseError, ParseErrorView, Presence, ToJson, ToJsonField,
};
use crate::record::{
    chosen, copy_asked, copy_patched, field_of, is_fresh_id, new_id, PartialRecord, Record,
};
use crate::text::text_before;
use crate::types::Date;
use vstd::prelude::*;

verus! {

/// A name with an e-mail address.
#[derive(Clone, Debug, PartialEq)]
pub struct Emailer {
    name: String,
    email: String,
}

/// A value of [`Emailer`] in contracts.
pub ghost struct EmailerView {
    pub name: Seq<char>,
    pub email: Seq<char>,
}

impl DeepView for Emailer {
    type V = EmailerView;

    closed spec fn deep_view(&self) -> EmailerView {
        EmailerView {
            name: self.name.deep_view(),
            email: self.email.deep_view(),
        }
    }
}

impl Emailer {
    /// The default value: every field at the default of its type.
    pub open spec fn blank() -> EmailerView {
        EmailerView {
            name: Seq::<char>::empty(),
            email: Seq::<char>::empty(),
        }
    }
}

impl Default for Emailer {
    fn default() -> (r: Self)
        ensures
            r.deep_view() == Self::blank(),
    {
        let name: String = String::new();
        let email: String = String::new();
        Emailer { name, email }
    }
}

impl Emailer {
    /// What tells the wire names of this type apart: the length of each, and
    /// for
    /// names of one length a character in which they differ.
    pub proof fn lemma_wire_names()
        ensures
            "name"@.len() == 4,
            "email"@.len() == 5,
    {
        reveal_strlit("name");
        reveal_strlit("email");
    }
}

impl Duplicate for Emailer {
    fn duplicate(&self) -> (r: Self) {
        let name = self.name.duplicate();
        let email = self.email.duplicate();
        Emailer { name, email }
    }
}

impl ToJson for Emailer {
    /// An object with one key for each field.
    open spec fn encoded(v: EmailerView) -> JsonValue {
        let o = Seq::empty();
        let o = put_field::<String>(o, "name"@, v.name);
        let o = put_field::<String>(o, "email"@, v.email);
        JsonValue::Object(o)
    }

    fn to_json(&self) -> (json: Json) {
        let mut d: TextMap<Json> = TextMap::new();
        assert(d.deep_view() =~= Seq::empty());
        self.name.to_json_field(&mut d, "name");
        self.email.to_json_field(&mut d, "email");
        proof {
            lemma_object_value(d);
        }
        Json::Object(d)
    }
}

impl FromJson for Emailer {
    /// The fields are read in the order in which they are declared; the
    /// first that fails gives the error.
    open spec fn decoded(json: JsonValue) -> Result<EmailerView, ParseErrorView> {
        match json {
            JsonValue::Object(o) => {
                let name = get_field::<String>(o, "name"@);
                let email = get_field::<String>(o, "email"@);
                if name is Err {
                    Err(name->Err_0)
                } else if email is Err {
                    Err(email->Err_0)
                } else {
                    Ok(
                        EmailerView {
                            name: name->Ok_0,
                            email: email->Ok_0,
                        },
                    )
                }
            },
            _ => Err(ParseErrorView::InvalidJsonType("Emailer"@)),
        }
    }

    fn from_json(json: &Json) -> (r: Result<Self, ParseError>) {
        match json {
            Json::Object(o) => {
                proof {
                    lemma_object_value(*o);
                }
                let name = match <String as FromJsonField>::from_json_field(o, "name") {
                    Ok(v) => v,
                    Err(e) => return Err(e),
                };
                let email = match <String as FromJsonField>::from_json_field(o, "email") {
                    Ok(v) => v,
                    Err(e) => return Err(e),
                };
                Ok(Emailer { name, email })
            },
            _ => Err(ParseError::InvalidJsonType("Emailer".to_string())),
        }
    }
}

impl JsonCodec for Emailer {
    open spec fn valid(v: EmailerView) -> bool {
        &&& <String as FieldCodec>::field_valid(v.name)
        &&& <String as FieldCodec>::field_valid(v.email)
    }

    proof fn round_trip(v: EmailerView) {
        let o = Self::encoded(v)->Object_0;
        Self::lemma_wire_names();
        assert(get_field::<String>(o, "name"@) == Ok::<Seq<char>, ParseErrorView>(v.name)) by {
            Self::lemma_slots(v, "name"@);
            <String as FieldCodec>::field_round_trip(v.name, "name"@);
        }
        assert(get_field::<String>(o, "email"@) == Ok::<Seq<char>, ParseErrorView>(v.email)) by {
            Self::lemma_slots(v, "email"@);
            <String as FieldCodec>::field_round_trip(v.email, "email"@);
        }
    }
}

impl Emailer {
    /// What the written form of `v` holds under `name`.
    pub open spec fn slot(v: EmailerView, name: Seq<char>) -> Option<JsonValue> {
        if name == "name"@ {
            <String as ToJsonField>::field_encoded(v.name)
        } else if name == "email"@ {
            <String as ToJsonField>::field_encoded(v.email)
        } else {
            None
        }
    }

    /// The written form holds each field under its wire name and nothing
    /// under any other name.
    pub proof fn lemma_slots(v: EmailerView, name: Seq<char>)
        ensures
            field_of(Self::encoded(v), name) == Self::slot(v, name),
    {
        Self::lemma_wire_names();
        if name == "name"@ {
            assert(field_of(Self::encoded(v), name) == Self::slot(v, name)) by {
                broadcast use lemma_lookup_put_slot;

            }
        } else if name == "email"@ {
            assert(field_of(Self::encoded(v), name) == Self::slot(v, name)) by {
                broadcast use lemma_lookup_put_slot;

            }
        } else {
            assert(field_of(Self::encoded(v), name) is None) by {
                broadcast use lemma_lookup_put_slot;

            }
        }
    }
}

/// A file attached to a message.
#[derive(Clone, Debug, PartialEq)]
pub struct Attachment {
    blob_id: String,
    typ: String,
    name: String,
    size: u64,
    cid: Option<String>,
    is_inline: bool,
    width: Option<u64>,
    height: Option<u64>,
}

/// A value of [`Attachment`] in contracts.
pub ghost struct AttachmentView {
    pub blob_id: Seq<char>,
    pub typ: Seq<char>,
    pub name: Seq<char>,
    pub size: u64,
    pub cid: Option<Seq<char>>,
    pub is_inline: bool,
    pub width: Option<u64>,
    pub height: Option<u64>,
}

impl DeepView for Attachment {
    type V = AttachmentView;

    closed spec fn deep_view(&self) -> AttachmentView {
        AttachmentView {
            blob_id: self.blob_id.deep_view(),
            typ: self.typ.deep_view(),
            name: self.name.deep_view(),
            size: self.size.deep_view(),
            cid: self.cid.deep_view(),
            is_inline: self.is_inline.deep_view(),
            width: self.width.deep_view(),
            height: self.height.deep_view(),
        }
    }
}

impl Attachment {
    /// The default value: every field at the default of its type.
    pub open spec fn blank() -> AttachmentView {
        AttachmentView {
            blob_id: Seq::<char>::empty(),
            typ: Seq::<char>::empty(),
            name: Seq::<char>::empty(),
            size: 0,
            cid: None,
            is_inline: false,
            width: None,
            height: None,
        }
    }
}

impl Default for Attachment {
    fn default() -> (r: Self)
        ensures
            r.deep_view() == Self::blank(),
    {
        let blob_id: String = String::new();
        let typ: String = String::new();
        let name: String = String::new();
        let size: u64 = 0;
        let cid: Option<String> = None;
        let is_inline: bool = false;
        let width: Option<u64> = None;
        let height: Option<u64> = None;
        Attachment { blob_id, typ, name, size, cid, is_inline, width, height }
    }
}

impl Attachment {
    /// What tells the wire names of this type apart: the length of each, and
    /// for
    /// names of one length a character in which they differ.
    pub proof fn lemma_wire_names()
        ensures
            "blobId"@.len() == 6,
            "type"@.len() == 4,
            "name"@.len() == 4,
            "size"@.len() == 4,
            "cid"@.len() == 3,
            "isInline"@.len() == 8,
            "width"@.len() == 5,
            "height"@.len() == 6,
            "type"@[0] == 't',
            "name"@[0] == 'n',
            "size"@[0] == 's',
            "blobId"@[0] == 'b',
            "height"@[0] == 'h',
    {
        reveal_strlit("blobId");
        reveal_strlit("type");
        reveal_strlit("name");
        reveal_strlit("size");
        reveal_strlit("cid");
        reveal_strlit("isInline");
        reveal_strlit("width");
        reveal_strlit("height");
    }
}

impl Duplicate for Attachment {
    fn duplicate(&self) -> (r: Self) {
        let blob_id = self.blob_id.duplicate();
        let typ = self.typ.duplicate();
        let name = self.name.duplicate();
        let size = self.size.duplicate();
        let cid = self.cid.duplicate();
        let is_inline = self.is_inline.duplicate();
        let width = self.width.duplicate();
        let height = self.height.duplicate();
        Attachment { blob_id, typ, name, size, cid, is_inline, width, height }
    }
}

impl ToJson for Attachment {
    /// An object with one key for each field.
    open spec fn encoded(v: AttachmentView) -> JsonValue {
        let o = Seq::empty();
        let o = put_field::<String>(o, "blobId"@, v.blob_id);
        let o = put_field::<String>(o, "type"@, v.typ);
        let o = put_field::<String>(o, "name"@, v.name);
        let o = put_field::<u64>(o, "size"@, v.size);
        let o = put_field::<Option<String>>(o, "cid"@, v.cid);
        let o = put_field::<bool>(o, "isInline"@, v.is_inline);
        let o = put_field::<Option<u64>>(o, "width"@, v.width);
        let o = put_field::<Option<u64>>(o, "height"@, v.height);
        JsonValue::Object(o)
    }

    fn to_json(&self) -> (json: Json) {
        let mut d: TextMap<Json> = TextMap::new();
        assert(d.deep_view() =~= Seq::empty());
        self.blob_id.to_json_field(&mut d, "blobId");
        self.typ.to_json_field(&mut d, "type");
        self.name.to_json_field(&mut d, "name");
        self.size.to_json_field(&mut d, "size");
        self.cid.to_json_field(&mut d, "cid");
        self.is_inline.to_json_field(&mut d, "isInline");
        self.width.to_json_field(&mut d, "width");
        self.height.to_json_field(&mut d, "height");
        proof {
            lemma_object_value(d);
        }
        Json::Object(d)
    }
}

impl FromJson for Attachment {
    /// The fields are read in the order in which they are declared; the
    /// first that fails gives the error.
    open spec fn decoded(json: JsonValue) -> Result<AttachmentView, ParseErrorView> {
        match json {
            JsonValue::Object(o) => {
                let blob_id = get_field::<String>(o, "blobId"@);
                let typ = get_field::<String>(o, "type"@);
                let name = get_field::<String>(o, "name"@);
                let size = get_field::<u64>(o, "size"@);
                let cid = get_field::<Option<String>>(o, "cid"@);
                let is_inline = get_field::<bool>(o, "isInline"@);
                let width = get_field::<Option<u64>>(o, "width"@);
                let height = get_field::<Option<u64>>(o, "height"@);
                if blob_id is Err {
                    Err(blob_id->Err_0)
                } else if typ is Err {
                    Err(typ->Err_0)
                } else if name is Err {
                    Err(name->Err_0)
                } else if size is Err {
                    Err(size->Err_0)
                } else if cid is Err {
                    Err(cid->Err_0)
                } else if is_inline is Err {
                    Err(is_inline->Err_0)
                } else if width is Err {
                    Err(width->Err_0)
                } else if height is Err {
                    Err(height->Err_0)
                } else {
                    Ok(
                        AttachmentView {
                            blob_id: blob_id->Ok_0,
                            typ: typ->Ok_0,
                            name: name->Ok_0,
                            size: size->Ok_0,
                            cid: cid->Ok_0,
                            is_inline: is_inline->Ok_0,
                            width: width->Ok_0,
                            height: height->Ok_0,
                        },
                    )
                }
            },
            _ => Err(ParseErrorView::InvalidJsonType("Attachment"@)),
        }
    }

    fn from_json(json: &Json) -> (r: Result<Self, ParseError>) {
        match json {
            Json::Object(o) => {
                proof {
                    lemma_object_value(*o);
                }
                let blob_id = match <String as FromJsonField>::from_json_field(o, "blobId") {
                    Ok(v) => v,
                    Err(e) => return Err(e),
                };
                let typ = match <String as FromJsonField>::from_json_field(o, "type") {
                    Ok(v) => v,
                    Err(e) => return Err(e),
                };
                let name = match <String as FromJsonField>::from_json_field(o, "name") {
                    Ok(v) => v,
                    Err(e) => return Err(e),
                };
                let size = match <u64 as FromJsonField>::from_json_field(o, "size") {
                    Ok(v) => v,
                    Err(e) => return Err(e),
                };
                let cid = match <Option<String> as FromJsonField>::from_json_field(o, "cid") {
                    Ok(v) => v,
                    Err(e) => return Err(e),
                };
                let is_inline = match <bool as FromJsonField>::from_json_field(o, "isInline") {
                    Ok(v) => v,
                    Err(e) => return Err(e),
                };
                let width = match <Option<u64> as FromJsonField>::from_json_field(o, "width") {
                    Ok(v) => v,
                    Err(e) => return Err(e),
                };
                let height = match <Option<u64> as FromJsonField>::from_json_field(o, "height") {
                    Ok(v) => v,
                    Err(e) => return Err(e),
                };
                Ok(Attachment { blob_id, typ, name, size, cid, is_inline, width, height })
            },
            _ => Err(ParseError::InvalidJsonType("Attachment".to_string())),
        }
    }
}

impl JsonCodec for Attachment {
    open spec fn valid(v: AttachmentView) -> bool {
        &&& <String as FieldCodec>::field_valid(v.blob_id)
        &&& <String as FieldCodec>::field_valid(v.typ)
        &&& <String as FieldCodec>::field_valid(v.name)
        &&& <u64 as FieldCodec>::field_valid(v.size)
        &&& <Option<String> as FieldCodec>::field_valid(v.cid)
        &&& <bool as FieldCodec>::field_valid(v.is_inline)
        &&& <Option<u64> as FieldCodec>::field_valid(v.width)
        &&& <Option<u64> as FieldCodec>::field_valid(v.height)
    }

    proof fn round_trip(v: AttachmentView) {
        let o = Self::encoded(v)->Object_0;
        Self::lemma_wire_names();
        assert(get_field::<String>(o, "blobId"@) == Ok::<Seq<char>, ParseErrorView>(v.blob_id)) by {
            Self::lemma_slots(v, "blobId"@);
            <String as FieldCodec>::field_round_trip(v.blob_id, "blobId"@);
        }
        assert(get_field::<String>(o, "type"@) == Ok::<Seq<char>, ParseErrorView>(v.typ)) by {
            Self::lemma_slots(v, "type"@);
            <String as FieldCodec>::field_round_trip(v.typ, "type"@);
        }
        assert(get_field::<String>(o, "name"@) == Ok::<Seq<char>, ParseErrorView>(v.name)) by {
            Self::lemma_slots(v, "name"@);
            <String as FieldCodec>::field_round_trip(v.name, "name"@);
        }
        assert(get_field::<u64>(o, "size"@) == Ok::<u64, ParseErrorView>(v.size)) by {
            Self::lemma_slots(v, "size"@);
            <u64 as FieldCodec>::field_round_trip(v.size, "size"@);
        }
        assert(get_field::<Option<String>>(o, "cid"@) == Ok::<
            Option<Seq<char>>,
            ParseErrorView,
        >(v.cid)) by {
            Self::lemma_slots(v, "cid"@);
            <Option<String> as FieldCodec>::field_round_trip(v.cid, "cid"@);
        }
        assert(get_field::<bool>(o, "isInline"@) == Ok::<bool, ParseErrorView>(v.is_inline)) by {
            Self::lemma_slots(v, "isInline"@);
            <bool as FieldCodec>::field_round_trip(v.is_inline, "isInline"@);
        }
        assert(get_field::<Option<u64>>(o, "width"@) == Ok::<
            Option<u64>,
            ParseErrorView,
        >(v.width)) by {
            Self::lemma_slots(v, "width"@);
            <Option<u64> as FieldCodec>::field_round_trip(v.width, "width"@);
        }
        assert(get_field::<Option<u64>>(o, "height"@) == Ok::<
            Option<u64>,
            ParseErrorView,
        >(v.height)) by {
            Self::lemma_slots(v, "height"@);
            <Option<u64> as FieldCodec>::field_round_trip(v.height, "height"@);
        }
    }
}

impl Attachment {
    /// What the written form of `v` holds under `name`.
    pub open spec fn slot(v: AttachmentView, name: Seq<char>) -> Option<JsonValue> {
        if name == "blobId"@ {
            <String as ToJsonField>::field_encoded(v.blob_id)
        } else if name == "type"@ {
            <String as ToJsonField>::field_encoded(v.typ)
        } else if name == "name"@ {
            <String as ToJsonField>::field_encoded(v.name)
        } else if name == "size"@ {
            <u64 as ToJsonField>::field_encoded(v.size)
        } else if name == "cid"@ {
            <Option<String> as ToJsonField>::field_encoded(v.cid)
        } else if name == "isInline"@ {
            <bool as ToJsonField>::field_encoded(v.is_inline)
        } else if name == "width"@ {
            <Option<u64> as ToJsonField>::field_encoded(v.width)
        } else if name == "height"@ {
            <Option<u64> as ToJsonField>::field_encoded(v.height)
        } else {
            None
        }
    }

    /// The written form holds each field under its wire name and nothing
    /// under any other name.
    pub proof fn lemma_slots(v: AttachmentView, name: Seq<char>)
        ensures
            field_of(Self::encoded(v), name) == Self::slot(v, name),
    {
        Self::lemma_wire_names();
        if name == "blobId"@ {
            assert(field_of(Self::encoded(v), name) == Self::slot(v, name)) by {
                broadcast use lemma_lookup_put_slot;

            }
        } else if name == "type"@ {
            assert(field_of(Self::encoded(v), name) == Self::slot(v, name)) by {
                broadcast use lemma_lookup_put_slot;

            }
        } else if name == "name"@ {
            assert(field_of(Self::encoded(v), name) == Self::slot(v, name)) by {
                broadcast use lemma_lookup_put_slot;

            }
        } else if name == "size"@ {
            assert(field_of(Self::encoded(v), name) == Self::slot(v, name)) by {
                broadcast use lemma_lookup_put_slot;

            }
        } else if name == "cid"@ {
            assert(field_of(Self::encoded(v), name) == Self::slot(v, name)) by {
                broadcast use lemma_lookup_put_slot;

            }
        } else if name == "isInline"@ {
            assert(field_of(Self::encoded(v), name) == Self::slot(v, name)) by {
                broadcast use lemma_lookup_put_slot;

            }
        } else if name == "width"@ {
            assert(field_of(Self::encoded(v), name) == Self::slot(v, name)) by {
                broadcast use lemma_lookup_put_slot;

            }
        } else if name == "height"@ {
            assert(field_of(Self::encoded(v), name) == Self::slot(v, name)) by {
                broadcast use lemma_lookup_put_slot;

            }
        } else {
            assert(field_of(Self::encoded(v), name) is None) by {
                broadcast use lemma_lookup_put_slot;

            }
        }
    }
}

/// A message. The messages attached to it are messages in full.
#[derive(Debug, PartialEq)]
pub struct Message {
    id: String,
    blob_id: String,
    thread_id: String,
    mailbox_ids: Vec<String>,
    in_reply_to_message_id: Option<String>,
    is_unread: bool,
    is_flagged: bool,
    is_answered: bool,
    is_draft: bool,
    has_attachment: bool,
    headers: TextMap<String>,
    sender: Option<Emailer>,
    from: Option<Vec<Emailer>>,
    to: Option<Vec<Emailer>>,
    cc: Option<Vec<Emailer>>,
    bcc: Option<Vec<Emailer>>,
    reply_to: Option<Vec<Emailer>>,
    subject: String,
    date: Date,
    size: u64,
    preview: String,
    text_body: Option<String>,
    html_body: Option<String>,
    attachments: Option<Vec<Attachment>>,
    attached_messages: Option<TextMap<Message>>,
}

/// A value of [`Message`] in contracts.
pub ghost struct MessageView {
    pub id: Seq<char>,
    pub blob_id: Seq<char>,
    pub thread_id: Seq<char>,
    pub mailbox_ids: Seq<Seq<char>>,
    pub in_reply_to_message_id: Option<Seq<char>>,
    pub is_unread: bool,
    pub is_flagged: bool,
    pub is_answered: bool,
    pub is_draft: bool,
    pub has_attachment: bool,
    pub headers: Seq<(Seq<char>, Seq<char>)>,
    pub sender: Option<EmailerView>,
    pub from: Option<Seq<EmailerView>>,
    pub to: Option<Seq<EmailerView>>,
    pub cc: Option<Seq<EmailerView>>,
    pub bcc: Option<Seq<EmailerView>>,
    pub reply_to: Option<Seq<EmailerView>>,
    pub subject: Seq<char>,
    pub date: Date,
    pub size: u64,
    pub preview: Seq<char>,
    pub text_body: Option<Seq<char>>,
    pub html_body: Option<Seq<char>>,
    pub attachments: Option<Seq<AttachmentView>>,
    pub attached_messages: Option<Seq<(Seq<char>, MessageView)>>,
}

/// What a value of [`Message`] stands for.
pub closed spec fn message_view(p: Message) -> MessageView
    decreases p, 0nat,
{
    MessageView {
        id: p.id.deep_view(),
        blob_id: p.blob_id.deep_view(),
        thread_id: p.thread_id.deep_view(),
        mailbox_ids: p.mailbox_ids.deep_view(),
        in_reply_to_message_id: p.in_reply_to_message_id.deep_view(),
        is_unread: p.is_unread.deep_view(),
        is_flagged: p.is_flagged.deep_view(),
        is_answered: p.is_answered.deep_view(),
        is_draft: p.is_draft.deep_view(),
        has_attachment: p.has_attachment.deep_view(),
        headers: p.headers.deep_view(),
        sender: p.sender.deep_view(),
        from: p.from.deep_view(),
        to: p.to.deep_view(),
        cc: p.cc.deep_view(),
        bcc: p.bcc.deep_view(),
        reply_to: p.reply_to.deep_view(),
        subject: p.subject.deep_view(),
        date: p.date.deep_view(),
        size: p.size.deep_view(),
        preview: p.preview.deep_view(),
        text_body: p.text_body.deep_view(),
        html_body: p.html_body.deep_view(),
        attachments: p.attachments.deep_view(),
        attached_messages: match p.attached_messages {
            Some(m) => Some(message_map_view(m)),
            None => None,
        },
    }
}

impl DeepView for Message {
    type V = MessageView;

    closed spec fn deep_view(&self) -> MessageView {
        message_view(*self)
    }
}

/// The written form of a value of [`Message`]: an object with one key for each
/// field.
pub open spec fn message_encoded(v: MessageView) -> JsonValue
    decreases v, 0nat,
{
    let o = Seq::empty();
    let o = put_field::<String>(o, "id"@, v.id);
    let o = put_field::<String>(o, "blobId"@, v.blob_id);
    let o = put_field::<String>(o, "threadId"@, v.thread_id);
    let o = put_field::<Vec<String>>(o, "mailboxIds"@, v.mailbox_ids);
    let o = put_field::<Option<String>>(o, "inReplyToMessageId"@, v.in_reply_to_message_id);
    let o = put_field::<bool>(o, "isUnread"@, v.is_unread);
    let o = put_field::<bool>(o, "isFlagged"@, v.is_flagged);
    let o = put_field::<bool>(o, "isAnswered"@, v.is_answered);
    let o = put_field::<bool>(o, "isDraft"@, v.is_draft);
    let o = put_field::<bool>(o, "hasAttachment"@, v.has_attachment);
    let o = put_field::<TextMap<String>>(o, "headers"@, v.headers);
    let o = put_field::<Option<Emailer>>(o, "sender"@, v.sender);
    let o = put_field::<Option<Vec<Emailer>>>(o, "from"@, v.from);
    let o = put_field::<Option<Vec<Emailer>>>(o, "to"@, v.to);
    let o = put_field::<Option<Vec<Emailer>>>(o, "cc"@, v.cc);
    let o = put_field::<Option<Vec<Emailer>>>(o, "bcc"@, v.bcc);
    let o = put_field::<Option<Vec<Emailer>>>(o, "replyTo"@, v.reply_to);
    let o = put_field::<String>(o, "subject"@, v.subject);
    let o = put_field::<Date>(o, "date"@, v.date);
    let o = put_field::<u64>(o, "size"@, v.size);
    let o = put_field::<String>(o, "preview"@, v.preview);
    let o = put_field::<Option<String>>(o, "textBody"@, v.text_body);
    let o = put_field::<Option<String>>(o, "htmlBody"@, v.html_body);
    let o = put_field::<Option<Vec<Attachment>>>(o, "attachments"@, v.attachments);
    let o = put_slot(o, "attachedMessages"@, messages_slot(v.attached_messages));
    JsonValue::Object(o)
}

/// What a JSON value is read as: the fields in the order in which they are
/// declared; the first that fails gives the error.
pub open spec fn message_decoded(json: JsonValue) -> Result<MessageView, ParseErrorView>
    decreases json, 0nat,
{
    match json {
        JsonValue::Object(o) => {
            let id = get_field::<String>(o, "id"@);
            let blob_id = get_field::<String>(o, "blobId"@);
            let thread_id = get_field::<String>(o, "threadId"@);
            let mailbox_ids = get_field::<Vec<String>>(o, "mailboxIds"@);
            let in_reply_to_message_id = get_field::<Option<String>>(o, "inReplyToMessageId"@);
            let is_unread = get_field::<bool>(o, "isUnread"@);
            let is_flagged = get_field::<bool>(o, "isFlagged"@);
            let is_answered = get_field::<bool>(o, "isAnswered"@);
            let is_draft = get_field::<bool>(o, "isDraft"@);
            let has_attachment = get_field::<bool>(o, "hasAttachment"@);
            let headers = get_field::<TextMap<String>>(o, "headers"@);
            let sender = get_field::<Option<Emailer>>(o, "sender"@);
            let from = get_field::<Option<Vec<Emailer>>>(o, "from"@);
            let to = get_field::<Option<Vec<Emailer>>>(o, "to"@);
            let cc = get_field::<Option<Vec<Emailer>>>(o, "cc"@);
            let bcc = get_field::<Option<Vec<Emailer>>>(o, "bcc"@);
            let reply_to = get_field::<Option<Vec<Emailer>>>(o, "replyTo"@);
            let subject = get_field::<String>(o, "subject"@);
            let date = get_field::<Date>(o, "date"@);
            let size = get_field::<u64>(o, "size"@);
            let preview = get_field::<String>(o, "preview"@);
            let text_body = get_field::<Option<String>>(o, "textBody"@);
            let html_body = get_field::<Option<String>>(o, "htmlBody"@);
            let attachments = get_field::<Option<Vec<Attachment>>>(o, "attachments"@);
            let attached_messages = messages_field_decoded(o, "attachedMessages"@);
            if id is Err {
                Err(id->Err_0)
            } else if blob_id is Err {
                Err(blob_id->Err_0)
            } else if thread_id is Err {
                Err(thread_id->Err_0)
            } else if mailbox_ids is Err {
                Err(mailbox_ids->Err_0)
            } else if in_reply_to_message_id is Err {
                Err(in_reply_to_message_id->Err_0)
            } else if is_unread is Err {
                Err(is_unread->Err_0)
            } else if is_flagged is Err {
                Err(is_flagged->Err_0)
            } else if is_answered is Err {
                Err(is_answered->Err_0)
            } else if is_draft is Err {
                Err(is_draft->Err_0)
            } else if has_attachment is Err {
                Err(has_attachment->Err_0)
            } else if headers is Err {
                Err(headers->Err_0)
            } else if sender is Err {
                Err(sender->Err_0)
            } else if from is Err {
                Err(from->Err_0)
            } else if to is Err {
                Err(to->Err_0)
            } else if cc is Err {
                Err(cc->Err_0)
            } else if bcc is Err {
                Err(bcc->Err_0)
            } else if reply_to is Err {
                Err(reply_to->Err_0)
            } else if subject is Err {
                Err(subject->Err_0)
            } else if date is Err {
                Err(date->Err_0)
            } else if size is Err {
                Err(size->Err_0)
            } else if preview is Err {
                Err(preview->Err_0)
            } else if text_body is Err {
                Err(text_body->Err_0)
            } else if html_body is Err {
                Err(html_body->Err_0)
            } else if attachments is Err {
                Err(attachments->Err_0)
            } else if attached_messages is Err {
                Err(attached_messages->Err_0)
            } else {
                Ok(
                    MessageView {
                        id: id->Ok_0,
                        blob_id: blob_id->Ok_0,
                        thread_id: thread_id->Ok_0,
                        mailbox_ids: mailbox_ids->Ok_0,
                        in_reply_to_message_id: in_reply_to_message_id->Ok_0,
                        is_unread: is_unread->Ok_0,
                        is_flagged: is_flagged->Ok_0,
                        is_answered: is_answered->Ok_0,
                        is_draft: is_draft->Ok_0,
                        has_attachment: has_attachment->Ok_0,
                        headers: headers->Ok_0,
                        sender: sender->Ok_0,
                        from: from->Ok_0,
                        to: to->Ok_0,
                        cc: cc->Ok_0,
                        bcc: bcc->Ok_0,
                        reply_to: reply_to->Ok_0,
                        subject: subject->Ok_0,
                        date: date->Ok_0,
                        size: size->Ok_0,
                        preview: preview->Ok_0,
                        text_body: text_body->Ok_0,
                        html_body: html_body->Ok_0,
                        attachments: attachments->Ok_0,
                        attached_messages: attached_messages->Ok_0,
                    },
                )
            }
        },
        _ => Err(ParseErrorView::InvalidJsonType("Message"@)),
    }
}

/// The values of [`Message`] that read back from their written form.
pub open spec fn message_valid(v: MessageView) -> bool
    decreases v, 0nat,
{
    &&& <String as FieldCodec>::field_valid(v.id)
    &&& <String as FieldCodec>::field_valid(v.blob_id)
    &&& <String as FieldCodec>::field_valid(v.thread_id)
    &&& <Vec<String> as FieldCodec>::field_valid(v.mailbox_ids)
    &&& <Option<String> as FieldCodec>::field_valid(v.in_reply_to_message_id)
    &&& <bool as FieldCodec>::field_valid(v.is_unread)
    &&& <bool as FieldCodec>::field_valid(v.is_flagged)
    &&& <bool as FieldCodec>::field_valid(v.is_answered)
    &&& <bool as FieldCodec>::field_valid(v.is_draft)
    &&& <bool as FieldCodec>::field_valid(v.has_attachment)
    &&& <TextMap<String> as FieldCodec>::field_valid(v.headers)
    &&& <Option<Emailer> as FieldCodec>::field_valid(v.sender)
    &&& <Option<Vec<Emailer>> as FieldCodec>::field_valid(v.from)
    &&& <Option<Vec<Emailer>> as FieldCodec>::field_valid(v.to)
    &&& <Option<Vec<Emailer>> as FieldCodec>::field_valid(v.cc)
    &&& <Option<Vec<Emailer>> as FieldCodec>::field_valid(v.bcc)
    &&& <Option<Vec<Emailer>> as FieldCodec>::field_valid(v.reply_to)
    &&& <String as FieldCodec>::field_valid(v.subject)
    &&& <Date as FieldCodec>::field_valid(v.date)
    &&& <u64 as FieldCodec>::field_valid(v.size)
    &&& <String as FieldCodec>::field_valid(v.preview)
    &&& <Option<String> as FieldCodec>::field_valid(v.text_body)
    &&& <Option<String> as FieldCodec>::field_valid(v.html_body)
    &&& <Option<Vec<Attachment>> as FieldCodec>::field_valid(v.attachments)
    &&& (v.attached_messages matches Some(m) ==> message_map_valid(m))
}

/// Reads a value of [`Message`].
pub fn read_message(json: &Json) -> (r: Result<Message, ParseError>)
    ensures
        result_view(r) == message_decoded(json@),
    decreases json, 0nat,
{
    match json {
        Json::Object(o) => {
            proof {
                lemma_object_value(*o);
            }
            let id = match <String as FromJsonField>::from_json_field(o, "id") {
                Ok(v) => v,
                Err(e) => return Err(e),
            };
            let blob_id = match <String as FromJsonField>::from_json_field(o, "blobId") {
                Ok(v) => v,
                Err(e) => return Err(e),
            };
            let thread_id = match <String as FromJsonField>::from_json_field(o, "threadId") {
                Ok(v) => v,
                Err(e) => return Err(e),
            };
            let mailbox_ids = match <Vec<String> as FromJsonField>::from_json_field(
                o,
                "mailboxIds",
            ) {
                Ok(v) => v,
                Err(e) => return Err(e),
            };
            let in_reply_to_message_id = match <Option<String> as FromJsonField>::from_json_field(
                o,
                "inReplyToMessageId",
            ) {
                Ok(v) => v,
                Err(e) => return Err(e),
            };
            let is_unread = match <bool as FromJsonField>::from_json_field(o, "isUnread") {
                Ok(v) => v,
                Err(e) => return Err(e),
            };
            let is_flagged = match <bool as FromJsonField>::from_json_field(o, "isFlagged") {
                Ok(v) => v,
                Err(e) => return Err(e),
            };
            let is_answered = match <bool as FromJsonField>::from_json_field(o, "isAnswered") {
                Ok(v) => v,
                Err(e) => return Err(e),
            };
            let is_draft = match <bool as FromJsonField>::from_json_field(o, "isDraft") {
                Ok(v) => v,
                Err(e) => return Err(e),
            };
            let has_attachment = match <bool as FromJsonField>::from_json_field(
                o,
                "hasAttachment",
            ) {
                Ok(v) => v,
                Err(e) => return Err(e),
            };
            let headers = match <TextMap<String> as FromJsonField>::from_json_field(o, "headers") {
                Ok(v) => v,
                Err(e) => return Err(e),
            };
            let sender = match <Option<Emailer> as FromJsonField>::from_json_field(o, "sender") {
                Ok(v) => v,
                Err(e) => return Err(e),
            };
            let from = match <Option<Vec<Emailer>> as FromJsonField>::from_json_field(o, "from") {
                Ok(v) => v,
                Err(e) => return Err(e),
            };
            let to = match <Option<Vec<Emailer>> as FromJsonField>::from_json_field(o, "to") {
                Ok(v) => v,
                Err(e) => return Err(e),
            };
            let cc = match <Option<Vec<Emailer>> as FromJsonField>::from_json_field(o, "cc") {
                Ok(v) => v,
                Err(e) => return Err(e),
            };
            let bcc = match <Option<Vec<Emailer>> as FromJsonField>::from_json_field(o, "bcc") {
                Ok(v) => v,
                Err(e) => return Err(e),
            };
            let reply_to = match <Option<Vec<Emailer>> as FromJsonField>::from_json_field(
                o,
                "replyTo",
            ) {
                Ok(v) => v,
                Err(e) => return Err(e),
            };
            let subject = match <String as FromJsonField>::from_json_field(o, "subject") {
                Ok(v) => v,
                Err(e) => return Err(e),
            };
            let date = match <Date as FromJsonField>::from_json_field(o, "date") {
                Ok(v) => v,
                Err(e) => return Err(e),
            };
            let size = match <u64 as FromJsonField>::from_json_field(o, "size") {
                Ok(v) => v,
                Err(e) => return Err(e),
            };
            let preview = match <String as FromJsonField>::from_json_field(o, "preview") {
                Ok(v) => v,
                Err(e) => return Err(e),
            };
            let text_body = match <Option<String> as FromJsonField>::from_json_field(
                o,
                "textBody",
            ) {
                Ok(v) => v,
                Err(e) => return Err(e),
            };
            let html_body = match <Option<String> as FromJsonField>::from_json_field(
                o,
                "htmlBody",
            ) {
                Ok(v) => v,
                Err(e) => return Err(e),
            };
            let attachments = match <Option<Vec<Attachment>> as FromJsonField>::from_json_field(
                o,
                "attachments",
            ) {
                Ok(v) => v,
                Err(e) => return Err(e),
            };
            let attached_messages = match read_messages_field(o, "attachedMessages") {
                Ok(v) => v,
                Err(e) => return Err(e),
            };
            Ok(Message {
                id,
                blob_id,
                thread_id,
                mailbox_ids,
                in_reply_to_message_id,
                is_unread,
                is_flagged,
                is_answered,
                is_draft,
                has_attachment,
                headers,
                sender,
                from,
                to,
                cc,
                bcc,
                reply_to,
                subject,
                date,
                size,
                preview,
                text_body,
                html_body,
                attachments,
                attached_messages,
            })
        },
        _ => Err(ParseError::InvalidJsonType("Message".to_string())),
    }
}

/// Writes a value of [`Message`].
pub fn write_message(p: &Message) -> (json: Json)
    ensures
        json@ == message_encoded(p.deep_view()),
    decreases p, 0nat,
{
    let mut d: TextMap<Json> = TextMap::new();
    assert(d.deep_view() =~= Seq::empty());
    p.id.to_json_field(&mut d, "id");
    p.blob_id.to_json_field(&mut d, "blobId");
    p.thread_id.to_json_field(&mut d, "threadId");
    p.mailbox_ids.to_json_field(&mut d, "mailboxIds");
    p.in_reply_to_message_id.to_json_field(&mut d, "inReplyToMessageId");
    p.is_unread.to_json_field(&mut d, "isUnread");
    p.is_flagged.to_json_field(&mut d, "isFlagged");
    p.is_answered.to_json_field(&mut d, "isAnswered");
    p.is_draft.to_json_field(&mut d, "isDraft");
    p.has_attachment.to_json_field(&mut d, "hasAttachment");
    p.headers.to_json_field(&mut d, "headers");
    p.sender.to_json_field(&mut d, "sender");
    p.from.to_json_field(&mut d, "from");
    p.to.to_json_field(&mut d, "to");
    p.cc.to_json_field(&mut d, "cc");
    p.bcc.to_json_field(&mut d, "bcc");
    p.reply_to.to_json_field(&mut d, "replyTo");
    p.subject.to_json_field(&mut d, "subject");
    p.date.to_json_field(&mut d, "date");
    p.size.to_json_field(&mut d, "size");
    p.preview.to_json_field(&mut d, "preview");
    p.text_body.to_json_field(&mut d, "textBody");
    p.html_body.to_json_field(&mut d, "htmlBody");
    p.attachments.to_json_field(&mut d, "attachments");
    write_messages_field(&p.attached_messages, &mut d, "attachedMessages");
    proof {
        lemma_object_value(d);
    }
    Json::Object(d)
}

/// Copies a value of [`Message`].
pub fn copy_message(p: &Message) -> (r: Message)
    ensures
        r.deep_view() == p.deep_view(),
    decreases p, 0nat,
{
    let attached_messages = copy_messages_field(&p.attached_messages);
    assert(match attached_messages {
        Some(m) => Some(message_map_view(m)),
        None => None,
    } == match p.attached_messages {
        Some(m) => Some(message_map_view(m)),
        None => None,
    });
    let id = p.id.duplicate();
    let blob_id = p.blob_id.duplicate();
    let thread_id = p.thread_id.duplicate();
    let mailbox_ids = p.mailbox_ids.duplicate();
    let in_reply_to_message_id = p.in_reply_to_message_id.duplicate();
    let is_unread = p.is_unread.duplicate();
    let is_flagged = p.is_flagged.duplicate();
    let is_answered = p.is_answered.duplicate();
    let is_draft = p.is_draft.duplicate();
    let has_attachment = p.has_attachment.duplicate();
    let headers = p.headers.duplicate();
    let sender = p.sender.duplicate();
    let from = p.from.duplicate();
    let to = p.to.duplicate();
    let cc = p.cc.duplicate();
    let bcc = p.bcc.duplicate();
    let reply_to = p.reply_to.duplicate();
    let subject = p.subject.duplicate();
    let date = p.date.duplicate();
    let size = p.size.duplicate();
    let preview = p.preview.duplicate();
    let text_body = p.text_body.duplicate();
    let html_body = p.html_body.duplicate();
    let attachments = p.attachments.duplicate();
    Message {
        id,
        blob_id,
        thread_id,
        mailbox_ids,
        in_reply_to_message_id,
        is_unread,
        is_flagged,
        is_answered,
        is_draft,
        has_attachment,
        headers,
        sender,
        from,
        to,
        cc,
        bcc,
        reply_to,
        subject,
        date,
        size,
        preview,
        text_body,
        html_body,
        attachments,
        attached_messages,
    }
}

impl Message {
    /// What tells the wire names of this type apart: the length of each, and
    /// for
    /// names of one length a character in which they differ.
    pub proof fn lemma_wire_names()
        ensures
            "id"@.len() == 2,
            "blobId"@.len() == 6,
            "threadId"@.len() == 8,
            "mailboxIds"@.len() == 10,
            "inReplyToMessageId"@.len() == 18,
            "isUnread"@.len() == 8,
            "isFlagged"@.len() == 9,
            "isAnswered"@.len() == 10,
            "isDraft"@.len() == 7,
            "hasAttachment"@.len() == 13,
            "headers"@.len() == 7,
            "sender"@.len() == 6,
            "from"@.len() == 4,
            "to"@.len() == 2,
            "cc"@.len() == 2,
            "bcc"@.len() == 3,
            "replyTo"@.len() == 7,
            "subject"@.len() == 7,
            "date"@.len() == 4,
            "size"@.len() == 4,
            "preview"@.len() == 7,
            "textBody"@.len() == 8,
            "htmlBody"@.len() == 8,
            "attachments"@.len() == 11,
            "attachedMessages"@.len() == 16,
            "id"@[0] == 'i',
            "to"@[0] == 't',
            "cc"@[0] == 'c',
            "from"@[0] == 'f',
            "date"@[0] == 'd',
            "size"@[0] == 's',
            "blobId"@[0] == 'b',
            "sender"@[0] == 's',
            "isDraft"@[0] == 'i',
            "headers"@[0] == 'h',
            "replyTo"@[0] == 'r',
            "subject"@[0] == 's',
            "preview"@[0] == 'p',
            "threadId"@[1] == 'h',
            "isUnread"@[1] == 's',
            "textBody"@[1] == 'e',
            "htmlBody"@[1] == 't',
            "mailboxIds"@[0] == 'm',
            "isAnswered"@[0] == 'i',
    {
        reveal_strlit("id");
        reveal_strlit("blobId");
        reveal_strlit("threadId");
        reveal_strlit("mailboxIds");
        reveal_strlit("inReplyToMessageId");
        reveal_strlit("isUnread");
        reveal_strlit("isFlagged");
        reveal_strlit("isAnswered");
        reveal_strlit("isDraft");
        reveal_strlit("hasAttachment");
        reveal_strlit("headers");
        reveal_strlit("sender");
        reveal_strlit("from");
        reveal_strlit("to");
        reveal_strlit("cc");
        reveal_strlit("bcc");
        reveal_strlit("replyTo");
        reveal_strlit("subject");
        reveal_strlit("date");
        reveal_strlit("size");
        reveal_strlit("preview");
        reveal_strlit("textBody");
        reveal_strlit("htmlBody");
        reveal_strlit("attachments");
        reveal_strlit("attachedMessages");
    }

    /// What the written form of `v` holds under `name`.
    pub open spec fn slot(v: MessageView, name: Seq<char>) -> Option<JsonValue> {
        if name == "id"@ {
            <String as ToJsonField>::field_encoded(v.id)
        } else if name == "blobId"@ {
            <String as ToJsonField>::field_encoded(v.blob_id)
        } else if name == "threadId"@ {
            <String as ToJsonField>::field_encoded(v.thread_id)
        } else if name == "mailboxIds"@ {
            <Vec<String> as ToJsonField>::field_encoded(v.mailbox_ids)
        } else if name == "inReplyToMessageId"@ {
            <Option<String> as ToJsonField>::field_encoded(v.in_reply_to_message_id)
        } else if name == "isUnread"@ {
            <bool as ToJsonField>::field_encoded(v.is_unread)
        } else if name == "isFlagged"@ {
            <bool as ToJsonField>::field_encoded(v.is_flagged)
        } else if name == "isAnswered"@ {
            <bool as ToJsonField>::field_encoded(v.is_answered)
        } else if name == "isDraft"@ {
            <bool as ToJsonField>::field_encoded(v.is_draft)
        } else if name == "hasAttachment"@ {
            <bool as ToJsonField>::field_encoded(v.has_attachment)
        } else if name == "headers"@ {
            <TextMap<String> as ToJsonField>::field_encoded(v.headers)
        } else if name == "sender"@ {
            <Option<Emailer> as ToJsonField>::field_encoded(v.sender)
        } else if name == "from"@ {
            <Option<Vec<Emailer>> as ToJsonField>::field_encoded(v.from)
        } else if name == "to"@ {
            <Option<Vec<Emailer>> as ToJsonField>::field_encoded(v.to)
        } else if name == "cc"@ {
            <Option<Vec<Emailer>> as ToJsonField>::field_encoded(v.cc)
        } else if name == "bcc"@ {
            <Option<Vec<Emailer>> as ToJsonField>::field_encoded(v.bcc)
        } else if name == "replyTo"@ {
            <Option<Vec<Emailer>> as ToJsonField>::field_encoded(v.reply_to)
        } else if name == "subject"@ {
            <String as ToJsonField>::field_encoded(v.subject)
        } else if name == "date"@ {
            <Date as ToJsonField>::field_encoded(v.date)
        } else if name == "size"@ {
            <u64 as ToJsonField>::field_encoded(v.size)
        } else if name == "preview"@ {
            <String as ToJsonField>::field_encoded(v.preview)
        } else if name == "textBody"@ {
            <Option<String> as ToJsonField>::field_encoded(v.text_body)
        } else if name == "htmlBody"@ {
            <Option<String> as ToJsonField>::field_encoded(v.html_body)
        } else if name == "attachments"@ {
            <Option<Vec<Attachment>> as ToJsonField>::field_encoded(v.attachments)
        } else if name == "attachedMessages"@ {
            messages_slot(v.attached_messages)
        } else {
            None
        }
    }

    /// The written form holds each field under its wire name and nothing
    /// under any other name.
    pub proof fn lemma_slots(v: MessageView, name: Seq<char>)
        ensures
            field_of(message_encoded(v), name) == Self::slot(v, name),
    {
        Message::lemma_wire_names();
        if name == "id"@ {
            assert(field_of(message_encoded(v), name) == Self::slot(v, name)) by {
                broadcast use lemma_lookup_put_slot;

            }
        } else if name == "blobId"@ {
            assert(field_of(message_encoded(v), name) == Self::slot(v, name)) by {
                broadcast use lemma_lookup_put_slot;

            }
        } else if name == "threadId"@ {
            assert(field_of(message_encoded(v), name) == Self::slot(v, name)) by {
                broadcast use lemma_lookup_put_slot;

            }
        } else if name == "mailboxIds"@ {
            assert(field_of(message_encoded(v), name) == Self::slot(v, name)) by {
                broadcast use lemma_lookup_put_slot;

            }
        } else if name == "inReplyToMessageId"@ {
            assert(field_of(message_encoded(v), name) == Self::slot(v, name)) by {
                broadcast use lemma_lookup_put_slot;

            }
        } else if name == "isUnread"@ {
            assert(field_of(message_encoded(v), name) == Self::slot(v, name)) by {
                broadcast use lemma_lookup_put_slot;

            }
        } else if name == "isFlagged"@ {
            assert(field_of(message_encoded(v), name) == Self::slot(v, name)) by {
                broadcast use lemma_lookup_put_slot;

            }
        } else if name == "isAnswered"@ {
            assert(field_of(message_encoded(v), name) == Self::slot(v, name)) by {
                broadcast use lemma_lookup_put_slot;

            }
        } else if name == "isDraft"@ {
            assert(field_of(message_encoded(v), name) == Self::slot(v, name)) by {
                broadcast use lemma_lookup_put_slot;

            }
        } else if name == "hasAttachment"@ {
            assert(field_of(message_encoded(v), name) == Self::slot(v, name)) by {
                broadcast use lemma_lookup_put_slot;

            }
        } else if name == "headers"@ {
            assert(field_of(message_encoded(v), name) == Self::slot(v, name)) by {
                broadcast use lemma_lookup_put_slot;

            }
        } else if name == "sender"@ {
            assert(field_of(message_encoded(v), name) == Self::slot(v, name)) by {
                broadcast use lemma_lookup_put_slot;

            }
        } else if name == "from"@ {
            assert(field_of(message_encoded(v), name) == Self::slot(v, name)) by {
                broadcast use lemma_lookup_put_slot;

            }
        } else if name == "to"@ {
            assert(field_of(message_encoded(v), name) == Self::slot(v, name)) by {
                broadcast use lemma_lookup_put_slot;

            }
        } else if name == "cc"@ {
            assert(field_of(message_encoded(v), name) == Self::slot(v, name)) by {
                broadcast use lemma_lookup_put_slot;

            }
        } else if name == "bcc"@ {
            assert(field_of(message_encoded(v), name) == Self::slot(v, name)) by {
                broadcast use lemma_lookup_put_slot;

            }
        } else if name == "replyTo"@ {
            assert(field_of(message_encoded(v), name) == Self::slot(v, name)) by {
                broadcast use lemma_lookup_put_slot;

            }
        } else if name == "subject"@ {
            assert(field_of(message_encoded(v), name) == Self::slot(v, name)) by {
                broadcast use lemma_lookup_put_slot;

            }
        } else if name == "date"@ {
            assert(field_of(message_encoded(v), name) == Self::slot(v, name)) by {
                broadcast use lemma_lookup_put_slot;

            }
        } else if name == "size"@ {
            assert(field_of(message_encoded(v), name) == Self::slot(v, name)) by {
                broadcast use lemma_lookup_put_slot;

            }
        } else if name == "preview"@ {
            assert(field_of(message_encoded(v), name) == Self::slot(v, name)) by {
                broadcast use lemma_lookup_put_slot;

            }
        } else if name == "textBody"@ {
            assert(field_of(message_encoded(v), name) == Self::slot(v, name)) by {
                broadcast use lemma_lookup_put_slot;

            }
        } else if name == "htmlBody"@ {
            assert(field_of(message_encoded(v), name) == Self::slot(v, name)) by {
                broadcast use lemma_lookup_put_slot;

            }
        } else if name == "attachments"@ {
            assert(field_of(message_encoded(v), name) == Self::slot(v, name)) by {
                broadcast use lemma_lookup_put_slot;

            }
        } else if name == "attachedMessages"@ {
            assert(field_of(message_encoded(v), name) == Self::slot(v, name)) by {
                broadcast use lemma_lookup_put_slot;

            }
        } else {
            assert(field_of(message_encoded(v), name) is None) by {
                broadcast use lemma_lookup_put_slot;

            }
        }
    }
}

/// Reading the written form of a valid value of [`Message`] gives it back.
pub proof fn lemma_message_round_trip(v: MessageView)
    requires
        message_valid(v),
    ensures
        message_decoded(message_encoded(v)) == Ok::<MessageView, ParseErrorView>(v),
    decreases v, 0nat,
{
    let o = message_encoded(v)->Object_0;
    Message::lemma_wire_names();
    assert(get_field::<String>(o, "id"@) == Ok::<Seq<char>, ParseErrorView>(v.id)) by {
        Message::lemma_slots(v, "id"@);
        <String as FieldCodec>::field_round_trip(v.id, "id"@);
    }
    assert(get_field::<String>(o, "blobId"@) == Ok::<Seq<char>, ParseErrorView>(v.blob_id)) by {
        Message::lemma_slots(v, "blobId"@);
        <String as FieldCodec>::field_round_trip(v.blob_id, "blobId"@);
    }
    assert(get_field::<String>(o, "threadId"@) == Ok::<Seq<char>, ParseErrorView>(v.thread_id)) by {
        Message::lemma_slots(v, "threadId"@);
        <String as FieldCodec>::field_round_trip(v.thread_id, "threadId"@);
    }
    assert(get_field::<Vec<String>>(o, "mailboxIds"@) == Ok::<
        Seq<Seq<char>>,
        ParseErrorView,
    >(v.mailbox_ids)) by {
        Message::lemma_slots(v, "mailboxIds"@);
        <Vec<String> as FieldCodec>::field_round_trip(v.mailbox_ids, "mailboxIds"@);
    }
    assert(get_field::<Option<String>>(o, "inReplyToMessageId"@) == Ok::<
        Option<Seq<char>>,
        ParseErrorView,
    >(v.in_reply_to_message_id)) by {
        Message::lemma_slots(v, "inReplyToMessageId"@);
        <Option<String> as FieldCodec>::field_round_trip(
            v.in_reply_to_message_id,
            "inReplyToMessageId"@,
        );
    }
    assert(get_field::<bool>(o, "isUnread"@) == Ok::<bool, ParseErrorView>(v.is_unread)) by {
        Message::lemma_slots(v, "isUnread"@);
        <bool as FieldCodec>::field_round_trip(v.is_unread, "isUnread"@);
    }
    assert(get_field::<bool>(o, "isFlagged"@) == Ok::<bool, ParseErrorView>(v.is_flagged)) by {
        Message::lemma_slots(v, "isFlagged"@);
        <bool as FieldCodec>::field_round_trip(v.is_flagged, "isFlagged"@);
    }
    assert(get_field::<bool>(o, "isAnswered"@) == Ok::<bool, ParseErrorView>(v.is_answered)) by {
        Message::lemma_slots(v, "isAnswered"@);
        <bool as FieldCodec>::field_round_trip(v.is_answered, "isAnswered"@);
    }
    assert(get_field::<bool>(o, "isDraft"@) == Ok::<bool, ParseErrorView>(v.is_draft)) by {
        Message::lemma_slots(v, "isDraft"@);
        <bool as FieldCodec>::field_round_trip(v.is_draft, "isDraft"@);
    }
    assert(get_field::<bool>(o, "hasAttachment"@) == Ok::<
        bool,
        ParseErrorView,
    >(v.has_attachment)) by {
        Message::lemma_slots(v, "hasAttachment"@);
        <bool as FieldCodec>::field_round_trip(v.has_attachment, "hasAttachment"@);
    }
    assert(get_field::<TextMap<String>>(o, "headers"@) == Ok::<
        Seq<(Seq<char>, Seq<char>)>,
        ParseErrorView,
    >(v.headers)) by {
        Message::lemma_slots(v, "headers"@);
        <TextMap<String> as FieldCodec>::field_round_trip(v.headers, "headers"@);
    }
    assert(get_field::<Option<Emailer>>(o, "sender"@) == Ok::<
        Option<EmailerView>,
        ParseErrorView,
    >(v.sender)) by {
        Message::lemma_slots(v, "sender"@);
        <Option<Emailer> as FieldCodec>::field_round_trip(v.sender, "sender"@);
    }
    assert(get_field::<Option<Vec<Emailer>>>(o, "from"@) == Ok::<
        Option<Seq<EmailerView>>,
        ParseErrorView,
    >(v.from)) by {
        Message::lemma_slots(v, "from"@);
        <Option<Vec<Emailer>> as FieldCodec>::field_round_trip(v.from, "from"@);
    }
    assert(get_field::<Option<Vec<Emailer>>>(o, "to"@) == Ok::<
        Option<Seq<EmailerView>>,
        ParseErrorView,
    >(v.to)) by {
        Message::lemma_slots(v, "to"@);
        <Option<Vec<Emailer>> as FieldCodec>::field_round_trip(v.to, "to"@);
    }
    assert(get_field::<Option<Vec<Emailer>>>(o, "cc"@) == Ok::<
        Option<Seq<EmailerView>>,
        ParseErrorView,
    >(v.cc)) by {
        Message::lemma_slots(v, "cc"@);
        <Option<Vec<Emailer>> as FieldCodec>::field_round_trip(v.cc, "cc"@);
    }
    assert(get_field::<Option<Vec<Emailer>>>(o, "bcc"@) == Ok::<
        Option<Seq<EmailerView>>,
        ParseErrorView,
    >(v.bcc)) by {
        Message::lemma_slots(v, "bcc"@);
        <Option<Vec<Emailer>> as FieldCodec>::field_round_trip(v.bcc, "bcc"@);
    }
    assert(get_field::<Option<Vec<Emailer>>>(o, "replyTo"@) == Ok::<
        Option<Seq<EmailerView>>,
        ParseErrorView,
    >(v.reply_to)) by {
        Message::lemma_slots(v, "replyTo"@);
        <Option<Vec<Emailer>> as FieldCodec>::field_round_trip(v.reply_to, "replyTo"@);
    }
    assert(get_field::<String>(o, "subject"@) == Ok::<Seq<char>, ParseErrorView>(v.subject)) by {
        Message::lemma_slots(v, "subject"@);
        <String as FieldCodec>::field_round_trip(v.subject, "subject"@);
    }
    assert(get_field::<Date>(o, "date"@) == Ok::<Date, ParseErrorView>(v.date)) by {
        Message::lemma_slots(v, "date"@);
        <Date as FieldCodec>::field_round_trip(v.date, "date"@);
    }
    assert(get_field::<u64>(o, "size"@) == Ok::<u64, ParseErrorView>(v.size)) by {
        Message::lemma_slots(v, "size"@);
        <u64 as FieldCodec>::field_round_trip(v.size, "size"@);
    }
    assert(get_field::<String>(o, "preview"@) == Ok::<Seq<char>, ParseErrorView>(v.preview)) by {
        Message::lemma_slots(v, "preview"@);
        <String as FieldCodec>::field_round_trip(v.preview, "preview"@);
    }
    assert(get_field::<Option<String>>(o, "textBody"@) == Ok::<
        Option<Seq<char>>,
        ParseErrorView,
    >(v.text_body)) by {
        Message::lemma_slots(v, "textBody"@);
        <Option<String> as FieldCodec>::field_round_trip(v.text_body, "textBody"@);
    }
    assert(get_field::<Option<String>>(o, "htmlBody"@) == Ok::<
        Option<Seq<char>>,
        ParseErrorView,
    >(v.html_body)) by {
        Message::lemma_slots(v, "htmlBody"@);
        <Option<String> as FieldCodec>::field_round_trip(v.html_body, "htmlBody"@);
    }
    assert(get_field::<Option<Vec<Attachment>>>(o, "attachments"@) == Ok::<
        Option<Seq<AttachmentView>>,
        ParseErrorView,
    >(v.attachments)) by {
        Message::lemma_slots(v, "attachments"@);
        <Option<Vec<Attachment>> as FieldCodec>::field_round_trip(v.attachments, "attachments"@);
    }
    assert(messages_field_decoded(o, "attachedMessages"@) == Ok::<
        Option<Seq<(Seq<char>, MessageView)>>,
        ParseErrorView,
    >(v.attached_messages)) by {
        Message::lemma_slots(v, "attachedMessages"@);
        if let Some(m) = v.attached_messages {
            lemma_message_map_round_trip(m);
        }
    }
}

impl Clone for Message {
    fn clone(&self) -> (r: Self)
        ensures
            r.deep_view() == self.deep_view(),
    {
        copy_message(self)
    }
}

impl Duplicate for Message {
    fn duplicate(&self) -> (r: Self) {
        copy_message(self)
    }
}

impl ToJson for Message {
    open spec fn encoded(v: MessageView) -> JsonValue {
        message_encoded(v)
    }

    fn to_json(&self) -> (json: Json) {
        write_message(self)
    }
}

impl FromJson for Message {
    open spec fn decoded(json: JsonValue) -> Result<MessageView, ParseErrorView> {
        message_decoded(json)
    }

    fn from_json(json: &Json) -> (r: Result<Self, ParseError>) {
        read_message(json)
    }
}

impl JsonCodec for Message {
    open spec fn valid(v: MessageView) -> bool {
        message_valid(v)
    }

    proof fn round_trip(v: MessageView) {
        lemma_message_round_trip(v);
    }
}

impl Message {
    /// The record with the id `id` and every other field at the default of
    /// its type.
    pub open spec fn blank(id: Seq<char>) -> MessageView {
        MessageView {
            id,
            blob_id: Seq::<char>::empty(),
            thread_id: Seq::<char>::empty(),
            mailbox_ids: Seq::empty(),
            in_reply_to_message_id: None,
            is_unread: false,
            is_flagged: false,
            is_answered: false,
            is_draft: false,
            has_attachment: false,
            headers: Seq::empty(),
            sender: None,
            from: None,
            to: None,
            cc: None,
            bcc: None,
            reply_to: None,
            subject: Seq::<char>::empty(),
            date: Date::blank(),
            size: 0,
            preview: Seq::<char>::empty(),
            text_body: None,
            html_body: None,
            attachments: None,
            attached_messages: None,
        }
    }
}

impl Default for Message {
    /// A record with a fresh id.
    fn default() -> (r: Self)
        ensures
            is_fresh_id(r.deep_view().id),
            r.deep_view() == Self::blank(r.deep_view().id),
    {
        let id = new_id();
        let blob_id: String = String::new();
        let thread_id: String = String::new();
        let mailbox_ids: Vec<String> = Vec::new();
        assert(mailbox_ids.deep_view() =~= Seq::empty());
        let in_reply_to_message_id: Option<String> = None;
        let is_unread: bool = false;
        let is_flagged: bool = false;
        let is_answered: bool = false;
        let is_draft: bool = false;
        let has_attachment: bool = false;
        let headers: TextMap<String> = TextMap::new();
        assert(headers.deep_view() =~= Seq::empty());
        let sender: Option<Emailer> = None;
        let from: Option<Vec<Emailer>> = None;
        let to: Option<Vec<Emailer>> = None;
        let cc: Option<Vec<Emailer>> = None;
        let bcc: Option<Vec<Emailer>> = None;
        let reply_to: Option<Vec<Emailer>> = None;
        let subject: String = String::new();
        let date: Date = Date::default();
        let size: u64 = 0;
        let preview: String = String::new();
        let text_body: Option<String> = None;
        let html_body: Option<String> = None;
        let attachments: Option<Vec<Attachment>> = None;
        let attached_messages: Option<TextMap<Message>> = None;
        Message {
            id,
            blob_id,
            thread_id,
            mailbox_ids,
            in_reply_to_message_id,
            is_unread,
            is_flagged,
            is_answered,
            is_draft,
            has_attachment,
            headers,
            sender,
            from,
            to,
            cc,
            bcc,
            reply_to,
            subject,
            date,
            size,
            preview,
            text_body,
            html_body,
            attachments,
            attached_messages,
        }
    }
}

/// A [`Message`] with every field given or left out.
#[derive(Clone, Debug, PartialEq)]
pub struct PartialMessage {
    id: Presence<String>,
    blob_id: Presence<String>,
    thread_id: Presence<String>,
    mailbox_ids: Presence<Vec<String>>,
    in_reply_to_message_id: Presence<Option<String>>,
    is_unread: Presence<bool>,
    is_flagged: Presence<bool>,
    is_answered: Presence<bool>,
    is_draft: Presence<bool>,
    has_attachment: Presence<bool>,
    headers: Presence<TextMap<String>>,
    sender: Presence<Option<Emailer>>,
    from: Presence<Option<Vec<Emailer>>>,
    to: Presence<Option<Vec<Emailer>>>,
    cc: Presence<Option<Vec<Emailer>>>,
    bcc: Presence<Option<Vec<Emailer>>>,
    reply_to: Presence<Option<Vec<Emailer>>>,
    subject: Presence<String>,
    date: Presence<Date>,
    size: Presence<u64>,
    preview: Presence<String>,
    text_body: Presence<Option<String>>,
    html_body: Presence<Option<String>>,
    attachments: Presence<Option<Vec<Attachment>>>,
    attached_messages: Presence<Option<TextMap<Message>>>,
}

/// A value of [`PartialMessage`] in contracts.
pub ghost struct PartialMessageView {
    pub id: Presence<Seq<char>>,
    pub blob_id: Presence<Seq<char>>,
    pub thread_id: Presence<Seq<char>>,
    pub mailbox_ids: Presence<Seq<Seq<char>>>,
    pub in_reply_to_message_id: Presence<Option<Seq<char>>>,
    pub is_unread: Presence<bool>,
    pub is_flagged: Presence<bool>,
    pub is_answered: Presence<bool>,
    pub is_draft: Presence<bool>,
    pub has_attachment: Presence<bool>,
    pub headers: Presence<Seq<(Seq<char>, Seq<char>)>>,
    pub sender: Presence<Option<EmailerView>>,
    pub from: Presence<Option<Seq<EmailerView>>>,
    pub to: Presence<Option<Seq<EmailerView>>>,
    pub cc: Presence<Option<Seq<EmailerView>>>,
    pub bcc: Presence<Option<Seq<EmailerView>>>,
    pub reply_to: Presence<Option<Seq<EmailerView>>>,
    pub subject: Presence<Seq<char>>,
    pub date: Presence<Date>,
    pub size: Presence<u64>,
    pub preview: Presence<Seq<char>>,
    pub text_body: Presence<Option<Seq<char>>>,
    pub html_body: Presence<Option<Seq<char>>>,
    pub attachments: Presence<Option<Seq<AttachmentView>>>,
    pub attached_messages: Presence<Option<Seq<(Seq<char>, MessageView)>>>,
}

impl DeepView for PartialMessage {
    type V = PartialMessageView;

    closed spec fn deep_view(&self) -> PartialMessageView {
        PartialMessageView {
            id: self.id.deep_view(),
            blob_id: self.blob_id.deep_view(),
            thread_id: self.thread_id.deep_view(),
            mailbox_ids: self.mailbox_ids.deep_view(),
            in_reply_to_message_id: self.in_reply_to_message_id.deep_view(),
            is_unread: self.is_unread.deep_view(),
            is_flagged: self.is_flagged.deep_view(),
            is_answered: self.is_answered.deep_view(),
            is_draft: self.is_draft.deep_view(),
            has_attachment: self.has_attachment.deep_view(),
            headers: self.headers.deep_view(),
            sender: self.sender.deep_view(),
            from: self.from.deep_view(),
            to: self.to.deep_view(),
            cc: self.cc.deep_view(),
            bcc: self.bcc.deep_view(),
            reply_to: self.reply_to.deep_view(),
            subject: self.subject.deep_view(),
            date: self.date.deep_view(),
            size: self.size.deep_view(),
            preview: self.preview.deep_view(),
            text_body: self.text_body.deep_view(),
            html_body: self.html_body.deep_view(),
            attachments: self.attachments.deep_view(),
            attached_messages: self.attached_messages.deep_view(),
        }
    }
}

impl PartialMessage {
    /// The default value: every field at the default of its type.
    pub open spec fn blank() -> PartialMessageView {
        PartialMessageView {
            id: Presence::Absent,
            blob_id: Presence::Absent,
            thread_id: Presence::Absent,
            mailbox_ids: Presence::Absent,
            in_reply_to_message_id: Presence::Absent,
            is_unread: Presence::Absent,
            is_flagged: Presence::Absent,
            is_answered: Presence::Absent,
            is_draft: Presence::Absent,
            has_attachment: Presence::Absent,
            headers: Presence::Absent,
            sender: Presence::Absent,
            from: Presence::Absent,
            to: Presence::Absent,
            cc: Presence::Absent,
            bcc: Presence::Absent,
            reply_to: Presence::Absent,
            subject: Presence::Absent,
            date: Presence::Absent,
            size: Presence::Absent,
            preview: Presence::Absent,
            text_body: Presence::Absent,
            html_body: Presence::Absent,
            attachments: Presence::Absent,
            attached_messages: Presence::Absent,
        }
    }
}

impl Default for PartialMessage {
    fn default() -> (r: Self)
        ensures
            r.deep_view() == Self::blank(),
    {
        let id: Presence<String> = Presence::Absent;
        let blob_id: Presence<String> = Presence::Absent;
        let thread_id: Presence<String> = Presence::Absent;
        let mailbox_ids: Presence<Vec<String>> = Presence::Absent;
        let in_reply_to_message_id: Presence<Option<String>> = Presence::Absent;
        let is_unread: Presence<bool> = Presence::Absent;
        let is_flagged: Presence<bool> = Presence::Absent;
        let is_answered: Presence<bool> = Presence::Absent;
        let is_draft: Presence<bool> = Presence::Absent;
        let has_attachment: Presence<bool> = Presence::Absent;
        let headers: Presence<TextMap<String>> = Presence::Absent;
        let sender: Presence<Option<Emailer>> = Presence::Absent;
        let from: Presence<Option<Vec<Emailer>>> = Presence::Absent;
        let to: Presence<Option<Vec<Emailer>>> = Presence::Absent;
        let cc: Presence<Option<Vec<Emailer>>> = Presence::Absent;
        let bcc: Presence<Option<Vec<Emailer>>> = Presence::Absent;
        let reply_to: Presence<Option<Vec<Emailer>>> = Presence::Absent;
        let subject: Presence<String> = Presence::Absent;
        let date: Presence<Date> = Presence::Absent;
        let size: Presence<u64> = Presence::Absent;
        let preview: Presence<String> = Presence::Absent;
        let text_body: Presence<Option<String>> = Presence::Absent;
        let html_body: Presence<Option<String>> = Presence::Absent;
        let attachments: Presence<Option<Vec<Attachment>>> = Presence::Absent;
        let attached_messages: Presence<Option<TextMap<Message>>> = Presence::Absent;
        PartialMessage {
            id,
            blob_id,
            thread_id,
            mailbox_ids,
            in_reply_to_message_id,
            is_unread,
            is_flagged,
            is_answered,
            is_draft,
            has_attachment,
            headers,
            sender,
            from,
            to,
            cc,
            bcc,
            reply_to,
            subject,
            date,
            size,
            preview,
            text_body,
            html_body,
            attachments,
            attached_messages,
        }
    }
}

impl Duplicate for PartialMessage {
    fn duplicate(&self) -> (r: Self) {
        let id = self.id.duplicate();
        let blob_id = self.blob_id.duplicate();
        let thread_id = self.thread_id.duplicate();
        let mailbox_ids = self.mailbox_ids.duplicate();
        let in_reply_to_message_id = self.in_reply_to_message_id.duplicate();
        let is_unread = self.is_unread.duplicate();
        let is_flagged = self.is_flagged.duplicate();
        let is_answered = self.is_answered.duplicate();
        let is_draft = self.is_draft.duplicate();
        let has_attachment = self.has_attachment.duplicate();
        let headers = self.headers.duplicate();
        let sender = self.sender.duplicate();
        let from = self.from.duplicate();
        let to = self.to.duplicate();
        let cc = self.cc.duplicate();
        let bcc = self.bcc.duplicate();
        let reply_to = self.reply_to.duplicate();
        let subject = self.subject.duplicate();
        let date = self.date.duplicate();
        let size = self.size.duplicate();
        let preview = self.preview.duplicate();
        let text_body = self.text_body.duplicate();
        let html_body = self.html_body.duplicate();
        let attachments = self.attachments.duplicate();
        let attached_messages = self.attached_messages.duplicate();
        PartialMessage {
            id,
            blob_id,
            thread_id,
            mailbox_ids,
            in_reply_to_message_id,
            is_unread,
            is_flagged,
            is_answered,
            is_draft,
            has_attachment,
            headers,
            sender,
            from,
            to,
            cc,
            bcc,
            reply_to,
            subject,
            date,
            size,
            preview,
            text_body,
            html_body,
            attachments,
            attached_messages,
        }
    }
}

impl ToJson for PartialMessage {
    /// An object with one key for each field.
    open spec fn encoded(v: PartialMessageView) -> JsonValue {
        let o = Seq::empty();
        let o = put_field::<Presence<String>>(o, "id"@, v.id);
        let o = put_field::<Presence<String>>(o, "blobId"@, v.blob_id);
        let o = put_field::<Presence<String>>(o, "threadId"@, v.thread_id);
        let o = put_field::<Presence<Vec<String>>>(o, "mailboxIds"@, v.mailbox_ids);
        let o = put_field::<Presence<Option<String>>>(
            o,
            "inReplyToMessageId"@,
            v.in_reply_to_message_id,
        );
        let o = put_field::<Presence<bool>>(o, "isUnread"@, v.is_unread);
        let o = put_field::<Presence<bool>>(o, "isFlagged"@, v.is_flagged);
        let o = put_field::<Presence<bool>>(o, "isAnswered"@, v.is_answered);
        let o = put_field::<Presence<bool>>(o, "isDraft"@, v.is_draft);
        let o = put_field::<Presence<bool>>(o, "hasAttachment"@, v.has_attachment);
        let o = put_field::<Presence<TextMap<String>>>(o, "headers"@, v.headers);
        let o = put_field::<Presence<Option<Emailer>>>(o, "sender"@, v.sender);
        let o = put_field::<Presence<Option<Vec<Emailer>>>>(o, "from"@, v.from);
        let o = put_field::<Presence<Option<Vec<Emailer>>>>(o, "to"@, v.to);
        let o = put_field::<Presence<Option<Vec<Emailer>>>>(o, "cc"@, v.cc);
        let o = put_field::<Presence<Option<Vec<Emailer>>>>(o, "bcc"@, v.bcc);
        let o = put_field::<Presence<Option<Vec<Emailer>>>>(o, "replyTo"@, v.reply_to);
        let o = put_field::<Presence<String>>(o, "subject"@, v.subject);
        let o = put_field::<Presence<Date>>(o, "date"@, v.date);
        let o = put_field::<Presence<u64>>(o, "size"@, v.size);
        let o = put_field::<Presence<String>>(o, "preview"@, v.preview);
        let o = put_field::<Presence<Option<String>>>(o, "textBody"@, v.text_body);
        let o = put_field::<Presence<Option<String>>>(o, "htmlBody"@, v.html_body);
        let o = put_field::<Presence<Option<Vec<Attachment>>>>(o, "attachments"@, v.attachments);
        let o = put_field::<Presence<Option<TextMap<Message>>>>(
            o,
            "attachedMessages"@,
            v.attached_messages,
        );
        JsonValue::Object(o)
    }

    fn to_json(&self) -> (json: Json) {
        let mut d: TextMap<Json> = TextMap::new();
        assert(d.deep_view() =~= Seq::empty());
        self.id.to_json_field(&mut d, "id");
        self.blob_id.to_json_field(&mut d, "blobId");
        self.thread_id.to_json_field(&mut d, "threadId");
        self.mailbox_ids.to_json_field(&mut d, "mailboxIds");
        self.in_reply_to_message_id.to_json_field(&mut d, "inReplyToMessageId");
        self.is_unread.to_json_field(&mut d, "isUnread");
        self.is_flagged.to_json_field(&mut d, "isFlagged");
        self.is_answered.to_json_field(&mut d, "isAnswered");
        self.is_draft.to_json_field(&mut d, "isDraft");
        self.has_attachment.to_json_field(&mut d, "hasAttachment");
        self.headers.to_json_field(&mut d, "headers");
        self.sender.to_json_field(&mut d, "sender");
        self.from.to_json_field(&mut d, "from");
        self.to.to_json_field(&mut d, "to");
        self.cc.to_json_field(&mut d, "cc");
        self.bcc.to_json_field(&mut d, "bcc");
        self.reply_to.to_json_field(&mut d, "replyTo");
        self.subject.to_json_field(&mut d, "subject");
        self.date.to_json_field(&mut d, "date");
        self.size.to_json_field(&mut d, "size");
        self.preview.to_json_field(&mut d, "preview");
        self.text_body.to_json_field(&mut d, "textBody");
        self.html_body.to_json_field(&mut d, "htmlBody");
        self.attachments.to_json_field(&mut d, "attachments");
        self.attached_messages.to_json_field(&mut d, "attachedMessages");
        proof {
            lemma_object_value(d);
        }
        Json::Object(d)
    }
}

impl FromJson for PartialMessage {
    /// The fields are read in the order in which they are declared; the
    /// first that fails gives the error.
    open spec fn decoded(json: JsonValue) -> Result<PartialMessageView, ParseErrorView> {
        match json {
            JsonValue::Object(o) => {
                let id = get_field::<Presence<String>>(o, "id"@);
                let blob_id = get_field::<Presence<String>>(o, "blobId"@);
                let thread_id = get_field::<Presence<String>>(o, "threadId"@);
                let mailbox_ids = get_field::<Presence<Vec<String>>>(o, "mailboxIds"@);
                let in_reply_to_message_id = get_field::<Presence<Option<String>>>(
                    o,
                    "inReplyToMessageId"@,
                );
                let is_unread = get_field::<Presence<bool>>(o, "isUnread"@);
                let is_flagged = get_field::<Presence<bool>>(o, "isFlagged"@);
                let is_answered = get_field::<Presence<bool>>(o, "isAnswered"@);
                let is_draft = get_field::<Presence<bool>>(o, "isDraft"@);
                let has_attachment = get_field::<Presence<bool>>(o, "hasAttachment"@);
                let headers = get_field::<Presence<TextMap<String>>>(o, "headers"@);
                let sender = get_field::<Presence<Option<Emailer>>>(o, "sender"@);
                let from = get_field::<Presence<Option<Vec<Emailer>>>>(o, "from"@);
                let to = get_field::<Presence<Option<Vec<Emailer>>>>(o, "to"@);
                let cc = get_field::<Presence<Option<Vec<Emailer>>>>(o, "cc"@);
                let bcc = get_field::<Presence<Option<Vec<Emailer>>>>(o, "bcc"@);
                let reply_to = get_field::<Presence<Option<Vec<Emailer>>>>(o, "replyTo"@);
                let subject = get_field::<Presence<String>>(o, "subject"@);
                let date = get_field::<Presence<Date>>(o, "date"@);
                let size = get_field::<Presence<u64>>(o, "size"@);
                let preview = get_field::<Presence<String>>(o, "preview"@);
                let text_body = get_field::<Presence<Option<String>>>(o, "textBody"@);
                let html_body = get_field::<Presence<Option<String>>>(o, "htmlBody"@);
                let attachments = get_field::<Presence<Option<Vec<Attachment>>>>(o, "attachments"@);
                let attached_messages = get_field::<Presence<Option<TextMap<Message>>>>(
                    o,
                    "attachedMessages"@,
                );
                if id is Err {
                    Err(id->Err_0)
                } else if blob_id is Err {
                    Err(blob_id->Err_0)
                } else if thread_id is Err {
                    Err(thread_id->Err_0)
                } else if mailbox_ids is Err {
                    Err(mailbox_ids->Err_0)
                } else if in_reply_to_message_id is Err {
                    Err(in_reply_to_message_id->Err_0)
                } else if is_unread is Err {
                    Err(is_unread->Err_0)
                } else if is_flagged is Err {
                    Err(is_flagged->Err_0)
                } else if is_answered is Err {
                    Err(is_answered->Err_0)
                } else if is_draft is Err {
                    Err(is_draft->Err_0)
                } else if has_attachment is Err {
                    Err(has_attachment->Err_0)
                } else if headers is Err {
                    Err(headers->Err_0)
                } else if sender is Err {
                    Err(sender->Err_0)
                } else if from is Err {
                    Err(from->Err_0)
                } else if to is Err {
                    Err(to->Err_0)
                } else if cc is Err {
                    Err(cc->Err_0)
                } else if bcc is Err {
                    Err(bcc->Err_0)
                } else if reply_to is Err {
                    Err(reply_to->Err_0)
                } else if subject is Err {
                    Err(subject->Err_0)
                } else if date is Err {
                    Err(date->Err_0)
                } else if size is Err {
                    Err(size->Err_0)
                } else if preview is Err {
                    Err(preview->Err_0)
                } else if text_body is Err {
                    Err(text_body->Err_0)
                } else if html_body is Err {
                    Err(html_body->Err_0)
                } else if attachments is Err {
                    Err(attachments->Err_0)
                } else if attached_messages is Err {
                    Err(attached_messages->Err_0)
                } else {
                    Ok(
                        PartialMessageView {
                            id: id->Ok_0,
                            blob_id: blob_id->Ok_0,
                            thread_id: thread_id->Ok_0,
                            mailbox_ids: mailbox_ids->Ok_0,
                            in_reply_to_message_id: in_reply_to_message_id->Ok_0,
                            is_unread: is_unread->Ok_0,
                            is_flagged: is_flagged->Ok_0,
                            is_answered: is_answered->Ok_0,
                            is_draft: is_draft->Ok_0,
                            has_attachment: has_attachment->Ok_0,
                            headers: headers->Ok_0,
                            sender: sender->Ok_0,
                            from: from->Ok_0,
                            to: to->Ok_0,
                            cc: cc->Ok_0,
                            bcc: bcc->Ok_0,
                            reply_to: reply_to->Ok_0,
                            subject: subject->Ok_0,
                            date: date->Ok_0,
                            size: size->Ok_0,
                            preview: preview->Ok_0,
                            text_body: text_body->Ok_0,
                            html_body: html_body->Ok_0,
                            attachments: attachments->Ok_0,
                            attached_messages: attached_messages->Ok_0,
                        },
                    )
                }
            },
            _ => Err(ParseErrorView::InvalidJsonType("Message"@)),
        }
    }

    fn from_json(json: &Json) -> (r: Result<Self, ParseError>) {
        match json {
            Json::Object(o) => {
                proof {
                    lemma_object_value(*o);
                }
                let id = match <Presence<String> as FromJsonField>::from_json_field(o, "id") {
                    Ok(v) => v,
                    Err(e) => return Err(e),
                };
                let blob_id = match <Presence<String> as FromJsonField>::from_json_field(
                    o,
                    "blobId",
                ) {
                    Ok(v) => v,
                    Err(e) => return Err(e),
                };
                let thread_id = match <Presence<String> as FromJsonField>::from_json_field(
                    o,
                    "threadId",
                ) {
                    Ok(v) => v,
                    Err(e) => return Err(e),
                };
                let mailbox_ids = match <Presence<Vec<String>> as FromJsonField>::from_json_field(
                    o,
                    "mailboxIds",
                ) {
                    Ok(v) => v,
                    Err(e) => return Err(e),
                };
                let in_reply_to_message_id = match <Presence<Option<String>> as FromJsonField>::from_json_field(
                    o,
                    "inReplyToMessageId",
                ) {
                    Ok(v) => v,
                    Err(e) => return Err(e),
                };
                let is_unread = match <Presence<bool> as FromJsonField>::from_json_field(
                    o,
                    "isUnread",
                ) {
                    Ok(v) => v,
                    Err(e) => return Err(e),
                };
                let is_flagged = match <Presence<bool> as FromJsonField>::from_json_field(
                    o,
                    "isFlagged",
                ) {
                    Ok(v) => v,
                    Err(e) => return Err(e),
                };
                let is_answered = match <Presence<bool> as FromJsonField>::from_json_field(
                    o,
                    "isAnswered",
                ) {
                    Ok(v) => v,
                    Err(e) => return Err(e),
                };
                let is_draft = match <Presence<bool> as FromJsonField>::from_json_field(
                    o,
                    "isDraft",
                ) {
                    Ok(v) => v,
                    Err(e) => return Err(e),
                };
                let has_attachment = match <Presence<bool> as FromJsonField>::from_json_field(
                    o,
                    "hasAttachment",
                ) {
                    Ok(v) => v,
                    Err(e) => return Err(e),
                };
                let headers = match <Presence<TextMap<String>> as FromJsonField>::from_json_field(
                    o,
                    "headers",
                ) {
                    Ok(v) => v,
                    Err(e) => return Err(e),
                };
                let sender = match <Presence<Option<Emailer>> as FromJsonField>::from_json_field(
                    o,
                    "sender",
                ) {
                    Ok(v) => v,
                    Err(e) => return Err(e),
                };
                let from = match <Presence<Option<Vec<Emailer>>> as FromJsonField>::from_json_field(
                    o,
                    "from",
                ) {
                    Ok(v) => v,
                    Err(e) => return Err(e),
                };
                let to = match <Presence<Option<Vec<Emailer>>> as FromJsonField>::from_json_field(
                    o,
                    "to",
                ) {
                    Ok(v) => v,
                    Err(e) => return Err(e),
                };
                let cc = match <Presence<Option<Vec<Emailer>>> as FromJsonField>::from_json_field(
                    o,
                    "cc",
                ) {
                    Ok(v) => v,
                    Err(e) => return Err(e),
                };
                let bcc = match <Presence<Option<Vec<Emailer>>> as FromJsonField>::from_json_field(
                    o,
                    "bcc",
                ) {
                    Ok(v) => v,
                    Err(e) => return Err(e),
                };
                let reply_to = match <Presence<Option<Vec<Emailer>>> as FromJsonField>::from_json_field(
                    o,
                    "replyTo",
                ) {
                    Ok(v) => v,
                    Err(e) => return Err(e),
                };
                let subject = match <Presence<String> as FromJsonField>::from_json_field(
                    o,
                    "subject",
                ) {
                    Ok(v) => v,
                    Err(e) => return Err(e),
                };
                let date = match <Presence<Date> as FromJsonField>::from_json_field(o, "date") {
                    Ok(v) => v,
                    Err(e) => return Err(e),
                };
                let size = match <Presence<u64> as FromJsonField>::from_json_field(o, "size") {
                    Ok(v) => v,
                    Err(e) => return Err(e),
                };
                let preview = match <Presence<String> as FromJsonField>::from_json_field(
                    o,
                    "preview",
                ) {
                    Ok(v) => v,
                    Err(e) => return Err(e),
                };
                let text_body = match <Presence<Option<String>> as FromJsonField>::from_json_field(
                    o,
                    "textBody",
                ) {
                    Ok(v) => v,
                    Err(e) => return Err(e),
                };
                let html_body = match <Presence<Option<String>> as FromJsonField>::from_json_field(
                    o,
                    "htmlBody",
                ) {
                    Ok(v) => v,
                    Err(e) => return Err(e),
                };
                let attachments = match <Presence<Option<Vec<Attachment>>> as FromJsonField>::from_json_field(
                    o,
                    "attachments",
                ) {
                    Ok(v) => v,
                    Err(e) => return Err(e),
                };
                let attached_messages = match <Presence<Option<TextMap<Message>>> as FromJsonField>::from_json_field(
                    o,
                    "attachedMessages",
                ) {
                    Ok(v) => v,
                    Err(e) => return Err(e),
                };
                Ok(PartialMessage {
                    id,
                    blob_id,
                    thread_id,
                    mailbox_ids,
                    in_reply_to_message_id,
                    is_unread,
                    is_flagged,
                    is_answered,
                    is_draft,
                    has_attachment,
                    headers,
                    sender,
                    from,
                    to,
                    cc,
                    bcc,
                    reply_to,
                    subject,
                    date,
                    size,
                    preview,
                    text_body,
                    html_body,
                    attachments,
                    attached_messages,
                })
            },
            _ => Err(ParseError::InvalidJsonType("Message".to_string())),
        }
    }
}

impl JsonCodec for PartialMessage {
    open spec fn valid(v: PartialMessageView) -> bool {
        &&& <Presence<String> as FieldCodec>::field_valid(v.id)
        &&& <Presence<String> as FieldCodec>::field_valid(v.blob_id)
        &&& <Presence<String> as FieldCodec>::field_valid(v.thread_id)
        &&& <Presence<Vec<String>> as FieldCodec>::field_valid(v.mailbox_ids)
        &&& <Presence<Option<String>> as FieldCodec>::field_valid(v.in_reply_to_message_id)
        &&& <Presence<bool> as FieldCodec>::field_valid(v.is_unread)
        &&& <Presence<bool> as FieldCodec>::field_valid(v.is_flagged)
        &&& <Presence<bool> as FieldCodec>::field_valid(v.is_answered)
        &&& <Presence<bool> as FieldCodec>::field_valid(v.is_draft)
        &&& <Presence<bool> as FieldCodec>::field_valid(v.has_attachment)
        &&& <Presence<TextMap<String>> as FieldCodec>::field_valid(v.headers)
        &&& <Presence<Option<Emailer>> as FieldCodec>::field_valid(v.sender)
        &&& <Presence<Option<Vec<Emailer>>> as FieldCodec>::field_valid(v.from)
        &&& <Presence<Option<Vec<Emailer>>> as FieldCodec>::field_valid(v.to)
        &&& <Presence<Option<Vec<Emailer>>> as FieldCodec>::field_valid(v.cc)
        &&& <Presence<Option<Vec<Emailer>>> as FieldCodec>::field_valid(v.bcc)
        &&& <Presence<Option<Vec<Emailer>>> as FieldCodec>::field_valid(v.reply_to)
        &&& <Presence<String> as FieldCodec>::field_valid(v.subject)
        &&& <Presence<Date> as FieldCodec>::field_valid(v.date)
        &&& <Presence<u64> as FieldCodec>::field_valid(v.size)
        &&& <Presence<String> as FieldCodec>::field_valid(v.preview)
        &&& <Presence<Option<String>> as FieldCodec>::field_valid(v.text_body)
        &&& <Presence<Option<String>> as FieldCodec>::field_valid(v.html_body)
        &&& <Presence<Option<Vec<Attachment>>> as FieldCodec>::field_valid(v.attachments)
        &&& <Presence<Option<TextMap<Message>>> as FieldCodec>::field_valid(v.attached_messages)
    }

    proof fn round_trip(v: PartialMessageView) {
        let o = Self::encoded(v)->Object_0;
        Message::lemma_wire_names();
        assert(get_field::<Presence<String>>(o, "id"@) == Ok::<
            Presence<Seq<char>>,
            ParseErrorView,
        >(v.id)) by {
            Self::lemma_slots(v, "id"@);
            <Presence<String> as FieldCodec>::field_round_trip(v.id, "id"@);
        }
        assert(get_field::<Presence<String>>(o, "blobId"@) == Ok::<
            Presence<Seq<char>>,
            ParseErrorView,
        >(v.blob_id)) by {
            Self::lemma_slots(v, "blobId"@);
            <Presence<String> as FieldCodec>::field_round_trip(v.blob_id, "blobId"@);
        }
        assert(get_field::<Presence<String>>(o, "threadId"@) == Ok::<
            Presence<Seq<char>>,
            ParseErrorView,
        >(v.thread_id)) by {
            Self::lemma_slots(v, "threadId"@);
            <Presence<String> as FieldCodec>::field_round_trip(v.thread_id, "threadId"@);
        }
        assert(get_field::<Presence<Vec<String>>>(o, "mailboxIds"@) == Ok::<
            Presence<Seq<Seq<char>>>,
            ParseErrorView,
        >(v.mailbox_ids)) by {
            Self::lemma_slots(v, "mailboxIds"@);
            <Presence<Vec<String>> as FieldCodec>::field_round_trip(v.mailbox_ids, "mailboxIds"@);
        }
        assert(get_field::<Presence<Option<String>>>(o, "inReplyToMessageId"@) == Ok::<
            Presence<Option<Seq<char>>>,
            ParseErrorView,
        >(v.in_reply_to_message_id)) by {
            Self::lemma_slots(v, "inReplyToMessageId"@);
            <Presence<Option<String>> as FieldCodec>::field_round_trip(
                v.in_reply_to_message_id,
                "inReplyToMessageId"@,
            );
        }
        assert(get_field::<Presence<bool>>(o, "isUnread"@) == Ok::<
            Presence<bool>,
            ParseErrorView,
        >(v.is_unread)) by {
            Self::lemma_slots(v, "isUnread"@);
            <Presence<bool> as FieldCodec>::field_round_trip(v.is_unread, "isUnread"@);
        }
        assert(get_field::<Presence<bool>>(o, "isFlagged"@) == Ok::<
            Presence<bool>,
            ParseErrorView,
        >(v.is_flagged)) by {
            Self::lemma_slots(v, "isFlagged"@);
            <Presence<bool> as FieldCodec>::field_round_trip(v.is_flagged, "isFlagged"@);
        }
        assert(get_field::<Presence<bool>>(o, "isAnswered"@) == Ok::<
            Presence<bool>,
            ParseErrorView,
        >(v.is_answered)) by {
            Self::lemma_slots(v, "isAnswered"@);
            <Presence<bool> as FieldCodec>::field_round_trip(v.is_answered, "isAnswered"@);
        }
        assert(get_field::<Presence<bool>>(o, "isDraft"@) == Ok::<
            Presence<bool>,
            ParseErrorView,
        >(v.is_draft)) by {
            Self::lemma_slots(v, "isDraft"@);
            <Presence<bool> as FieldCodec>::field_round_trip(v.is_draft, "isDraft"@);
        }
        assert(get_field::<Presence<bool>>(o, "hasAttachment"@) == Ok::<
            Presence<bool>,
            ParseErrorView,
        >(v.has_attachment)) by {
            Self::lemma_slots(v, "hasAttachment"@);
            <Presence<bool> as FieldCodec>::field_round_trip(v.has_attachment, "hasAttachment"@);
        }
        assert(get_field::<Presence<TextMap<String>>>(o, "headers"@) == Ok::<
            Presence<Seq<(Seq<char>, Seq<char>)>>,
            ParseErrorView,
        >(v.headers)) by {
            Self::lemma_slots(v, "headers"@);
            <Presence<TextMap<String>> as FieldCodec>::field_round_trip(v.headers, "headers"@);
        }
        assert(get_field::<Presence<Option<Emailer>>>(o, "sender"@) == Ok::<
            Presence<Option<EmailerView>>,
            ParseErrorView,
        >(v.sender)) by {
            Self::lemma_slots(v, "sender"@);
            <Presence<Option<Emailer>> as FieldCodec>::field_round_trip(v.sender, "sender"@);
        }
        assert(get_field::<Presence<Option<Vec<Emailer>>>>(o, "from"@) == Ok::<
            Presence<Option<Seq<EmailerView>>>,
            ParseErrorView,
        >(v.from)) by {
            Self::lemma_slots(v, "from"@);
            <Presence<Option<Vec<Emailer>>> as FieldCodec>::field_round_trip(v.from, "from"@);
        }
        assert(get_field::<Presence<Option<Vec<Emailer>>>>(o, "to"@) == Ok::<
            Presence<Option<Seq<EmailerView>>>,
            ParseErrorView,
        >(v.to)) by {
            Self::lemma_slots(v, "to"@);
            <Presence<Option<Vec<Emailer>>> as FieldCodec>::field_round_trip(v.to, "to"@);
        }
        assert(get_field::<Presence<Option<Vec<Emailer>>>>(o, "cc"@) == Ok::<
            Presence<Option<Seq<EmailerView>>>,
            ParseErrorView,
        >(v.cc)) by {
            Self::lemma_slots(v, "cc"@);
            <Presence<Option<Vec<Emailer>>> as FieldCodec>::field_round_trip(v.cc, "cc"@);
        }
        assert(get_field::<Presence<Option<Vec<Emailer>>>>(o, "bcc"@) == Ok::<
            Presence<Option<Seq<EmailerView>>>,
            ParseErrorView,
        >(v.bcc)) by {
            Self::lemma_slots(v, "bcc"@);
            <Presence<Option<Vec<Emailer>>> as FieldCodec>::field_round_trip(v.bcc, "bcc"@);
        }
        assert(get_field::<Presence<Option<Vec<Emailer>>>>(o, "replyTo"@) == Ok::<
            Presence<Option<Seq<EmailerView>>>,
            ParseErrorView,
        >(v.reply_to)) by {
            Self::lemma_slots(v, "replyTo"@);
            <Presence<Option<Vec<Emailer>>> as FieldCodec>::field_round_trip(
                v.reply_to,
                "replyTo"@,
            );
        }
        assert(get_field::<Presence<String>>(o, "subject"@) == Ok::<
            Presence<Seq<char>>,
            ParseErrorView,
        >(v.subject)) by {
            Self::lemma_slots(v, "subject"@);
            <Presence<String> as FieldCodec>::field_round_trip(v.subject, "subject"@);
        }
        assert(get_field::<Presence<Date>>(o, "date"@) == Ok::<
            Presence<Date>,
            ParseErrorView,
        >(v.date)) by {
            Self::lemma_slots(v, "date"@);
            <Presence<Date> as FieldCodec>::field_round_trip(v.date, "date"@);
        }
        assert(get_field::<Presence<u64>>(o, "size"@) == Ok::<
            Presence<u64>,
            ParseErrorView,
        >(v.size)) by {
            Self::lemma_slots(v, "size"@);
            <Presence<u64> as FieldCodec>::field_round_trip(v.size, "size"@);
        }
        assert(get_field::<Presence<String>>(o, "preview"@) == Ok::<
            Presence<Seq<char>>,
            ParseErrorView,
        >(v.preview)) by {
            Self::lemma_slots(v, "preview"@);
            <Presence<String> as FieldCodec>::field_round_trip(v.preview, "preview"@);
        }
        assert(get_field::<Presence<Option<String>>>(o, "textBody"@) == Ok::<
            Presence<Option<Seq<char>>>,
            ParseErrorView,
        >(v.text_body)) by {
            Self::lemma_slots(v, "textBody"@);
            <Presence<Option<String>> as FieldCodec>::field_round_trip(v.text_body, "textBody"@);
        }
        assert(get_field::<Presence<Option<String>>>(o, "htmlBody"@) == Ok::<
            Presence<Option<Seq<char>>>,
            ParseErrorView,
        >(v.html_body)) by {
            Self::lemma_slots(v, "htmlBody"@);
            <Presence<Option<String>> as FieldCodec>::field_round_trip(v.html_body, "htmlBody"@);
        }
        assert(get_field::<Presence<Option<Vec<Attachment>>>>(o, "attachments"@) == Ok::<
            Presence<Option<Seq<AttachmentView>>>,
            ParseErrorView,
        >(v.attachments)) by {
            Self::lemma_slots(v, "attachments"@);
            <Presence<Option<Vec<Attachment>>> as FieldCodec>::field_round_trip(
                v.attachments,
                "attachments"@,
            );
        }
        assert(get_field::<Presence<Option<TextMap<Message>>>>(o, "attachedMessages"@) == Ok::<
            Presence<Option<Seq<(Seq<char>, MessageView)>>>,
            ParseErrorView,
        >(v.attached_messages)) by {
            Self::lemma_slots(v, "attachedMessages"@);
            <Presence<Option<TextMap<Message>>> as FieldCodec>::field_round_trip(
                v.attached_messages,
                "attachedMessages"@,
            );
        }
    }
}

impl PartialMessage {
    /// What the written form of `v` holds under `name`.
    pub open spec fn slot(v: PartialMessageView, name: Seq<char>) -> Option<JsonValue> {
        if name == "id"@ {
            <Presence<String> as ToJsonField>::field_encoded(v.id)
        } else if name == "blobId"@ {
            <Presence<String> as ToJsonField>::field_encoded(v.blob_id)
        } else if name == "threadId"@ {
            <Presence<String> as ToJsonField>::field_encoded(v.thread_id)
        } else if name == "mailboxIds"@ {
            <Presence<Vec<String>> as ToJsonField>::field_encoded(v.mailbox_ids)
        } else if name == "inReplyToMessageId"@ {
            <Presence<Option<String>> as ToJsonField>::field_encoded(v.in_reply_to_message_id)
        } else if name == "isUnread"@ {
            <Presence<bool> as ToJsonField>::field_encoded(v.is_unread)
        } else if name == "isFlagged"@ {
            <Presence<bool> as ToJsonField>::field_encoded(v.is_flagged)
        } else if name == "isAnswered"@ {
            <Presence<bool> as ToJsonField>::field_encoded(v.is_answered)
        } else if name == "isDraft"@ {
            <Presence<bool> as ToJsonField>::field_encoded(v.is_draft)
        } else if name == "hasAttachment"@ {
            <Presence<bool> as ToJsonField>::field_encoded(v.has_attachment)
        } else if name == "headers"@ {
            <Presence<TextMap<String>> as ToJsonField>::field_encoded(v.headers)
        } else if name == "sender"@ {
            <Presence<Option<Emailer>> as ToJsonField>::field_encoded(v.sender)
        } else if name == "from"@ {
            <Presence<Option<Vec<Emailer>>> as ToJsonField>::field_encoded(v.from)
        } else if name == "to"@ {
            <Presence<Option<Vec<Emailer>>> as ToJsonField>::field_encoded(v.to)
        } else if name == "cc"@ {
            <Presence<Option<Vec<Emailer>>> as ToJsonField>::field_encoded(v.cc)
        } else if name == "bcc"@ {
            <Presence<Option<Vec<Emailer>>> as ToJsonField>::field_encoded(v.bcc)
        } else if name == "replyTo"@ {
            <Presence<Option<Vec<Emailer>>> as ToJsonField>::field_encoded(v.reply_to)
        } else if name == "subject"@ {
            <Presence<String> as ToJsonField>::field_encoded(v.subject)
        } else if name == "date"@ {
            <Presence<Date> as ToJsonField>::field_encoded(v.date)
        } else if name == "size"@ {
            <Presence<u64> as ToJsonField>::field_encoded(v.size)
        } else if name == "preview"@ {
            <Presence<String> as ToJsonField>::field_encoded(v.preview)
        } else if name == "textBody"@ {
            <Presence<Option<String>> as ToJsonField>::field_encoded(v.text_body)
        } else if name == "htmlBody"@ {
            <Presence<Option<String>> as ToJsonField>::field_encoded(v.html_body)
        } else if name == "attachments"@ {
            <Presence<Option<Vec<Attachment>>> as ToJsonField>::field_encoded(v.attachments)
        } else if name == "attachedMessages"@ {
            <Presence<Option<TextMap<Message>>> as ToJsonField>::field_encoded(v.attached_messages)
        } else {
            None
        }
    }

    /// The written form holds each field under its wire name and nothing
    /// under any other name.
    pub proof fn lemma_slots(v: PartialMessageView, name: Seq<char>)
        ensures
            field_of(Self::encoded(v), name) == Self::slot(v, name),
    {
        Message::lemma_wire_names();
        if name == "id"@ {
            assert(field_of(Self::encoded(v), name) == Self::slot(v, name)) by {
                broadcast use lemma_lookup_put_slot;

            }
        } else if name == "blobId"@ {
            assert(field_of(Self::encoded(v), name) == Self::slot(v, name)) by {
                broadcast use lemma_lookup_put_slot;

            }
        } else if name == "threadId"@ {
            assert(field_of(Self::encoded(v), name) == Self::slot(v, name)) by {
                broadcast use lemma_lookup_put_slot;

            }
        } else if name == "mailboxIds"@ {
            assert(field_of(Self::encoded(v), name) == Self::slot(v, name)) by {
                broadcast use lemma_lookup_put_slot;

            }
        } else if name == "inReplyToMessageId"@ {
            assert(field_of(Self::encoded(v), name) == Self::slot(v, name)) by {
                broadcast use lemma_lookup_put_slot;

            }
        } else if name == "isUnread"@ {
            assert(field_of(Self::encoded(v), name) == Self::slot(v, name)) by {
                broadcast use lemma_lookup_put_slot;

            }
        } else if name == "isFlagged"@ {
            assert(field_of(Self::encoded(v), name) == Self::slot(v, name)) by {
                broadcast use lemma_lookup_put_slot;

            }
        } else if name == "isAnswered"@ {
            assert(field_of(Self::encoded(v), name) == Self::slot(v, name)) by {
                broadcast use lemma_lookup_put_slot;

            }
        } else if name == "isDraft"@ {
            assert(field_of(Self::encoded(v), name) == Self::slot(v, name)) by {
                broadcast use lemma_lookup_put_slot;

            }
        } else if name == "hasAttachment"@ {
            assert(field_of(Self::encoded(v), name) == Self::slot(v, name)) by {
                broadcast use lemma_lookup_put_slot;

            }
        } else if name == "headers"@ {
            assert(field_of(Self::encoded(v), name) == Self::slot(v, name)) by {
                broadcast use lemma_lookup_put_slot;

            }
        } else if name == "sender"@ {
            assert(field_of(Self::encoded(v), name) == Self::slot(v, name)) by {
                broadcast use lemma_lookup_put_slot;

            }
        } else if name == "from"@ {
            assert(field_of(Self::encoded(v), name) == Self::slot(v, name)) by {
                broadcast use lemma_lookup_put_slot;

            }
        } else if name == "to"@ {
            assert(field_of(Self::encoded(v), name) == Self::slot(v, name)) by {
                broadcast use lemma_lookup_put_slot;

            }
        } else if name == "cc"@ {
            assert(field_of(Self::encoded(v), name) == Self::slot(v, name)) by {
                broadcast use lemma_lookup_put_slot;

            }
        } else if name == "bcc"@ {
            assert(field_of(Self::encoded(v), name) == Self::slot(v, name)) by {
                broadcast use lemma_lookup_put_slot;

            }
        } else if name == "replyTo"@ {
            assert(field_of(Self::encoded(v), name) == Self::slot(v, name)) by {
                broadcast use lemma_lookup_put_slot;

            }
        } else if name == "subject"@ {
            assert(field_of(Self::encoded(v), name) == Self::slot(v, name)) by {
                broadcast use lemma_lookup_put_slot;

            }
        } else if name == "date"@ {
            assert(field_of(Self::encoded(v), name) == Self::slot(v, name)) by {
                broadcast use lemma_lookup_put_slot;

            }
        } else if name == "size"@ {
            assert(field_of(Self::encoded(v), name) == Self::slot(v, name)) by {
                broadcast use lemma_lookup_put_slot;

            }
        } else if name == "preview"@ {
            assert(field_of(Self::encoded(v), name) == Self::slot(v, name)) by {
                broadcast use lemma_lookup_put_slot;

            }
        } else if name == "textBody"@ {
            assert(field_of(Self::encoded(v), name) == Self::slot(v, name)) by {
                broadcast use lemma_lookup_put_slot;

            }
        } else if name == "htmlBody"@ {
            assert(field_of(Self::encoded(v), name) == Self::slot(v, name)) by {
                broadcast use lemma_lookup_put_slot;

            }
        } else if name == "attachments"@ {
            assert(field_of(Self::encoded(v), name) == Self::slot(v, name)) by {
                broadcast use lemma_lookup_put_slot;

            }
        } else if name == "attachedMessages"@ {
            assert(field_of(Self::encoded(v), name) == Self::slot(v, name)) by {
                broadcast use lemma_lookup_put_slot;

            }
        } else {
            assert(field_of(Self::encoded(v), name) is None) by {
                broadcast use lemma_lookup_put_slot;

            }
        }
    }
}

impl PartialRecord for PartialMessage {
    open spec fn id_of(v: PartialMessageView) -> Presence<Seq<char>> {
        v.id
    }

    fn id(&self) -> (r: Presence<String>) {
        self.id.duplicate()
    }
}

impl Record for Message {
    type Partial = PartialMessage;

    open spec fn id_of(v: MessageView) -> Seq<char> {
        v.id
    }

    open spec fn patched(v: MessageView, p: PartialMessageView) -> MessageView {
        MessageView {
            id: p.id.or(v.id),
            blob_id: p.blob_id.or(v.blob_id),
            thread_id: p.thread_id.or(v.thread_id),
            mailbox_ids: p.mailbox_ids.or(v.mailbox_ids),
            in_reply_to_message_id: p.in_reply_to_message_id.or(v.in_reply_to_message_id),
            is_unread: p.is_unread.or(v.is_unread),
            is_flagged: p.is_flagged.or(v.is_flagged),
            is_answered: p.is_answered.or(v.is_answered),
            is_draft: p.is_draft.or(v.is_draft),
            has_attachment: p.has_attachment.or(v.has_attachment),
            headers: p.headers.or(v.headers),
            sender: p.sender.or(v.sender),
            from: p.from.or(v.from),
            to: p.to.or(v.to),
            cc: p.cc.or(v.cc),
            bcc: p.bcc.or(v.bcc),
            reply_to: p.reply_to.or(v.reply_to),
            subject: p.subject.or(v.subject),
            date: p.date.or(v.date),
            size: p.size.or(v.size),
            preview: p.preview.or(v.preview),
            text_body: p.text_body.or(v.text_body),
            html_body: p.html_body.or(v.html_body),
            attachments: p.attachments.or(v.attachments),
            attached_messages: p.attached_messages.or(v.attached_messages),
        }
    }

    open spec fn projected(v: MessageView) -> PartialMessageView {
        PartialMessageView {
            id: Presence::Present(v.id),
            blob_id: Presence::Present(v.blob_id),
            thread_id: Presence::Present(v.thread_id),
            mailbox_ids: Presence::Present(v.mailbox_ids),
            in_reply_to_message_id: Presence::Present(v.in_reply_to_message_id),
            is_unread: Presence::Present(v.is_unread),
            is_flagged: Presence::Present(v.is_flagged),
            is_answered: Presence::Present(v.is_answered),
            is_draft: Presence::Present(v.is_draft),
            has_attachment: Presence::Present(v.has_attachment),
            headers: Presence::Present(v.headers),
            sender: Presence::Present(v.sender),
            from: Presence::Present(v.from),
            to: Presence::Present(v.to),
            cc: Presence::Present(v.cc),
            bcc: Presence::Present(v.bcc),
            reply_to: Presence::Present(v.reply_to),
            subject: Presence::Present(v.subject),
            date: Presence::Present(v.date),
            size: Presence::Present(v.size),
            preview: Presence::Present(v.preview),
            text_body: Presence::Present(v.text_body),
            html_body: Presence::Present(v.html_body),
            attachments: Presence::Present(v.attachments),
            attached_messages: Presence::Present(v.attached_messages),
        }
    }

    open spec fn filtered(v: MessageView, properties: Seq<Seq<char>>) -> PartialMessageView {
        PartialMessageView {
            id: Presence::Present(v.id),
            blob_id: chosen(properties, "blobId"@, v.blob_id),
            thread_id: chosen(properties, "threadId"@, v.thread_id),
            mailbox_ids: chosen(properties, "mailboxIds"@, v.mailbox_ids),
            in_reply_to_message_id: chosen(properties, "inReplyToMessageId"@, v.in_reply_to_message_id),
            is_unread: chosen(properties, "isUnread"@, v.is_unread),
            is_flagged: chosen(properties, "isFlagged"@, v.is_flagged),
            is_answered: chosen(properties, "isAnswered"@, v.is_answered),
            is_draft: chosen(properties, "isDraft"@, v.is_draft),
            has_attachment: chosen(properties, "hasAttachment"@, v.has_attachment),
            headers: chosen(properties, "headers"@, v.headers),
            sender: chosen(properties, "sender"@, v.sender),
            from: chosen(properties, "from"@, v.from),
            to: chosen(properties, "to"@, v.to),
            cc: chosen(properties, "cc"@, v.cc),
            bcc: chosen(properties, "bcc"@, v.bcc),
            reply_to: chosen(properties, "replyTo"@, v.reply_to),
            subject: chosen(properties, "subject"@, v.subject),
            date: chosen(properties, "date"@, v.date),
            size: chosen(properties, "size"@, v.size),
            preview: chosen(properties, "preview"@, v.preview),
            text_body: chosen(properties, "textBody"@, v.text_body),
            html_body: chosen(properties, "htmlBody"@, v.html_body),
            attachments: chosen(properties, "attachments"@, v.attachments),
            attached_messages: chosen(properties, "attachedMessages"@, v.attached_messages),
        }
    }

    fn id(&self) -> (r: String) {
        self.id.clone()
    }

    fn updated_with(&self, p: &PartialMessage) -> (r: Self) {
        let id = copy_patched(&p.id, &self.id);
        let blob_id = copy_patched(&p.blob_id, &self.blob_id);
        let thread_id = copy_patched(&p.thread_id, &self.thread_id);
        let mailbox_ids = copy_patched(&p.mailbox_ids, &self.mailbox_ids);
        let in_reply_to_message_id = copy_patched(
            &p.in_reply_to_message_id,
            &self.in_reply_to_message_id,
        );
        let is_unread = copy_patched(&p.is_unread, &self.is_unread);
        let is_flagged = copy_patched(&p.is_flagged, &self.is_flagged);
        let is_answered = copy_patched(&p.is_answered, &self.is_answered);
        let is_draft = copy_patched(&p.is_draft, &self.is_draft);
        let has_attachment = copy_patched(&p.has_attachment, &self.has_attachment);
        let headers = copy_patched(&p.headers, &self.headers);
        let sender = copy_patched(&p.sender, &self.sender);
        let from = copy_patched(&p.from, &self.from);
        let to = copy_patched(&p.to, &self.to);
        let cc = copy_patched(&p.cc, &self.cc);
        let bcc = copy_patched(&p.bcc, &self.bcc);
        let reply_to = copy_patched(&p.reply_to, &self.reply_to);
        let subject = copy_patched(&p.subject, &self.subject);
        let date = copy_patched(&p.date, &self.date);
        let size = copy_patched(&p.size, &self.size);
        let preview = copy_patched(&p.preview, &self.preview);
        let text_body = copy_patched(&p.text_body, &self.text_body);
        let html_body = copy_patched(&p.html_body, &self.html_body);
        let attachments = copy_patched(&p.attachments, &self.attachments);
        let attached_messages = copy_patched(&p.attached_messages, &self.attached_messages);
        proof {
            lemma_attached_view(self.attached_messages);
            lemma_attached_view(attached_messages);
        }
        Message {
            id,
            blob_id,
            thread_id,
            mailbox_ids,
            in_reply_to_message_id,
            is_unread,
            is_flagged,
            is_answered,
            is_draft,
            has_attachment,
            headers,
            sender,
            from,
            to,
            cc,
            bcc,
            reply_to,
            subject,
            date,
            size,
            preview,
            text_body,
            html_body,
            attachments,
            attached_messages,
        }
    }

    fn to_partial(&self) -> (p: PartialMessage) {
        let id = Presence::Present(self.id.duplicate());
        let blob_id = Presence::Present(self.blob_id.duplicate());
        let thread_id = Presence::Present(self.thread_id.duplicate());
        let mailbox_ids = Presence::Present(self.mailbox_ids.duplicate());
        let in_reply_to_message_id = Presence::Present(self.in_reply_to_message_id.duplicate());
        let is_unread = Presence::Present(self.is_unread.duplicate());
        let is_flagged = Presence::Present(self.is_flagged.duplicate());
        let is_answered = Presence::Present(self.is_answered.duplicate());
        let is_draft = Presence::Present(self.is_draft.duplicate());
        let has_attachment = Presence::Present(self.has_attachment.duplicate());
        let headers = Presence::Present(self.headers.duplicate());
        let sender = Presence::Present(self.sender.duplicate());
        let from = Presence::Present(self.from.duplicate());
        let to = Presence::Present(self.to.duplicate());
        let cc = Presence::Present(self.cc.duplicate());
        let bcc = Presence::Present(self.bcc.duplicate());
        let reply_to = Presence::Present(self.reply_to.duplicate());
        let subject = Presence::Present(self.subject.duplicate());
        let date = Presence::Present(self.date.duplicate());
        let size = Presence::Present(self.size.duplicate());
        let preview = Presence::Present(self.preview.duplicate());
        let text_body = Presence::Present(self.text_body.duplicate());
        let html_body = Presence::Present(self.html_body.duplicate());
        let attachments = Presence::Present(self.attachments.duplicate());
        let attached_messages = Presence::Present(self.attached_messages.duplicate());
        proof {
            lemma_attached_view(self.attached_messages);
        }
        PartialMessage {
            id,
            blob_id,
            thread_id,
            mailbox_ids,
            in_reply_to_message_id,
            is_unread,
            is_flagged,
            is_answered,
            is_draft,
            has_attachment,
            headers,
            sender,
            from,
            to,
            cc,
            bcc,
            reply_to,
            subject,
            date,
            size,
            preview,
            text_body,
            html_body,
            attachments,
            attached_messages,
        }
    }

    fn to_filtered_partial(&self, properties: &Vec<String>) -> (p: PartialMessage) {
        let id = Presence::Present(self.id.duplicate());
        let blob_id = copy_asked(properties, "blobId", &self.blob_id);
        let thread_id = copy_asked(properties, "threadId", &self.thread_id);
        let mailbox_ids = copy_asked(properties, "mailboxIds", &self.mailbox_ids);
        let in_reply_to_message_id = copy_asked(
            properties,
            "inReplyToMessageId",
            &self.in_reply_to_message_id,
        );
        let is_unread = copy_asked(properties, "isUnread", &self.is_unread);
        let is_flagged = copy_asked(properties, "isFlagged", &self.is_flagged);
        let is_answered = copy_asked(properties, "isAnswered", &self.is_answered);
        let is_draft = copy_asked(properties, "isDraft", &self.is_draft);
        let has_attachment = copy_asked(properties, "hasAttachment", &self.has_attachment);
        let headers = copy_asked(properties, "headers", &self.headers);
        let sender = copy_asked(properties, "sender", &self.sender);
        let from = copy_asked(properties, "from", &self.from);
        let to = copy_asked(properties, "to", &self.to);
        let cc = copy_asked(properties, "cc", &self.cc);
        let bcc = copy_asked(properties, "bcc", &self.bcc);
        let reply_to = copy_asked(properties, "replyTo", &self.reply_to);
        let subject = copy_asked(properties, "subject", &self.subject);
        let date = copy_asked(properties, "date", &self.date);
        let size = copy_asked(properties, "size", &self.size);
        let preview = copy_asked(properties, "preview", &self.preview);
        let text_body = copy_asked(properties, "textBody", &self.text_body);
        let html_body = copy_asked(properties, "htmlBody", &self.html_body);
        let attachments = copy_asked(properties, "attachments", &self.attachments);
        let attached_messages = copy_asked(properties, "attachedMessages", &self.attached_messages);
        proof {
            lemma_attached_view(self.attached_messages);
        }
        PartialMessage {
            id,
            blob_id,
            thread_id,
            mailbox_ids,
            in_reply_to_message_id,
            is_unread,
            is_flagged,
            is_answered,
            is_draft,
            has_attachment,
            headers,
            sender,
            from,
            to,
            cc,
            bcc,
            reply_to,
            subject,
            date,
            size,
            preview,
            text_body,
            html_body,
            attachments,
            attached_messages,
        }
    }

    proof fn law_patch_with_projection(v: MessageView) {
    }

    proof fn law_patch_overlays(v: MessageView, p: PartialMessageView, name: Seq<char>) {
        lemma_messages_slot(v.attached_messages);
        lemma_messages_slot(p.attached_messages.or(v.attached_messages));
        if name == "id"@
            || name == "blobId"@
            || name == "threadId"@
            || name == "mailboxIds"@
            || name == "inReplyToMessageId"@
            || name == "isUnread"@
            || name == "isFlagged"@
            || name == "isAnswered"@
            || name == "isDraft"@
            || name == "hasAttachment"@
            || name == "headers"@
            || name == "sender"@ {
            assert(Self::slot(Self::patched(v, p), name) == match PartialMessage::slot(p, name) {
                Some(j) => Some(j),
                None => Self::slot(v, name),
            });
        }
        assert(Self::slot(Self::patched(v, p), name) == match PartialMessage::slot(p, name) {
            Some(j) => Some(j),
            None => Self::slot(v, name),
        });
        Self::lemma_slots(Self::patched(v, p), name);
        Self::lemma_slots(v, name);
        PartialMessage::lemma_slots(p, name);
    }

    proof fn law_projection_is_whole(v: MessageView) {
        lemma_messages_slot(v.attached_messages);
    }

    proof fn law_filter_selects(v: MessageView, properties: Seq<Seq<char>>, name: Seq<char>) {
        reveal(chosen);
        lemma_messages_slot(v.attached_messages);
        assert(PartialMessage::slot(Self::filtered(v, properties), name) == if name == "id"@
            || properties.contains(name) {
            Self::slot(v, name)
        } else {
            None
        });
        Self::lemma_slots(v, name);
        PartialMessage::lemma_slots(Self::filtered(v, properties), name);
    }
}

/// What a map of messages stands for: its entries in key order.
pub open spec fn message_map_view(m: TextMap<Message>) -> Seq<(Seq<char>, MessageView)>
    decreases m, 0nat,
{
    Seq::new(
        m@.len(),
        |i: int|
            if 0 <= i < m@.len() {
                proof {
                    lemma_value_is_part(m, i);
                }
                (m@[i].0, message_view(m@[i].1))
            } else {
                (Seq::empty(), Message::blank(Seq::empty()))
            },
    )
}

/// The messages attached to a message, as the generic view gives them.
pub proof fn lemma_attached_view(x: Option<TextMap<Message>>)
    ensures
        (match x {
            Some(m) => Some(message_map_view(m)),
            None => None,
        }) == x.deep_view(),
{
    if let Some(m) = x {
        assert(message_map_view(m) =~= m.deep_view());
    }
}

/// The written form of a map of messages: an object with one key for each
/// entry.
pub open spec fn message_map_encoded(v: Seq<(Seq<char>, MessageView)>) -> JsonValue
    decreases v, 0nat,
{
    JsonValue::Object(
        Seq::new(
            v.len(),
            |i: int|
                if 0 <= i < v.len() {
                    (v[i].0, message_encoded(v[i].1))
                } else {
                    (Seq::empty(), JsonValue::Null)
                },
        ),
    )
}

/// What is written for the messages attached to a message: `null` where
/// there are none.
pub open spec fn messages_slot(x: Option<Seq<(Seq<char>, MessageView)>>) -> Option<JsonValue>
    decreases x, 0nat,
{
    match x {
        Some(m) => Some(message_map_encoded(m)),
        None => Some(JsonValue::Null),
    }
}

/// The attached messages are written as any optional map of messages is.
pub proof fn lemma_messages_slot(x: Option<Seq<(Seq<char>, MessageView)>>)
    ensures
        messages_slot(x) == <Option<TextMap<Message>> as ToJsonField>::field_encoded(x),
{
    if let Some(m) = x {
        assert(message_map_encoded(m)->Object_0 =~= encoded_entries::<Message>(m));
    }
}

/// The first `n` entries read one after the other and put under their keys:
/// all of them, or the error of the first that fails.
pub open spec fn message_entries_decoded(o: Seq<(Seq<char>, JsonValue)>, n: nat) -> Result<
    Seq<(Seq<char>, MessageView)>,
    ParseErrorView,
>
    decreases o, n,
{
    if n == 0 || n > o.len() {
        Ok(Seq::empty())
    } else {
        match message_entries_decoded(o, (n - 1) as nat) {
            Err(e) => Err(e),
            Ok(m) => match message_decoded(o[n - 1].1) {
                Err(e) => Err(e),
                Ok(v) => Ok(put(m, o[n - 1].0, v)),
            },
        }
    }
}

/// What a JSON value is read as: the entries of an object in key order.
pub open spec fn message_map_decoded(json: JsonValue) -> Result<
    Seq<(Seq<char>, MessageView)>,
    ParseErrorView,
>
    decreases json, 0nat,
{
    match json {
        JsonValue::Object(o) => message_entries_decoded(o, o.len()),
        _ => Err(ParseErrorView::InvalidJsonType("BTreeMap"@)),
    }
}

/// What the messages attached to a message are read as from the field
/// `name` of the object `o`: none where the field is missing or `null`.
pub open spec fn messages_field_decoded(o: Seq<(Seq<char>, JsonValue)>, name: Seq<char>) -> Result<
    Option<Seq<(Seq<char>, MessageView)>>,
    ParseErrorView,
>
    decreases o, 0nat,
{
    match lookup(o, name) {
        Some(JsonValue::Null) => Ok(None),
        Some(j) => {
            proof {
                lemma_found_is_part(o, name);
            }
            match message_map_decoded(j) {
                Ok(m) => Ok(Some(m)),
                Err(e) => Err(e),
            }
        },
        None => Ok(None),
    }
}

/// The first `n` messages of the entries are valid.
pub open spec fn message_entries_valid(v: Seq<(Seq<char>, MessageView)>, n: nat) -> bool
    decreases v, n,
{
    n == 0 || n > v.len() || (message_entries_valid(v, (n - 1) as nat) && message_valid(
        v[n - 1].1,
    ))
}

/// The maps of messages that read back from their written form: their keys
/// ascend and their messages are valid.
pub open spec fn message_map_valid(v: Seq<(Seq<char>, MessageView)>) -> bool
    decreases v, v.len() + 1,
{
    keys_ascend(v) && message_entries_valid(v, v.len())
}

proof fn lemma_message_entries_round_trip(v: Seq<(Seq<char>, MessageView)>, n: nat)
    requires
        n <= v.len(),
        keys_ascend(v),
        message_entries_valid(v, n),
    ensures
        message_entries_decoded(message_map_encoded(v)->Object_0, n) == Ok::<
            Seq<(Seq<char>, MessageView)>,
            ParseErrorView,
        >(v.take(n as int)),
    decreases v, n,
{
    let o = message_map_encoded(v)->Object_0;
    if n == 0 {
        assert(v.take(0) =~= Seq::empty());
    } else {
        lemma_message_entries_round_trip(v, (n - 1) as nat);
        lemma_message_round_trip(v[n - 1].1);
        let front = v.take(n - 1);
        assert forall|i: int| 0 <= i < front.len() implies text_before(
            (#[trigger] front[i]).0,
            v[n - 1].0,
        ) by {
            assert(text_before(v[i].0, v[n - 1].0));
        }
        lemma_put_last(front, v[n - 1].0, v[n - 1].1);
        assert(front.push((v[n - 1].0, v[n - 1].1)) =~= v.take(n as int));
    }
}

/// Reading the written form of a valid map of messages gives it back.
pub proof fn lemma_message_map_round_trip(v: Seq<(Seq<char>, MessageView)>)
    requires
        message_map_valid(v),
    ensures
        message_map_decoded(message_map_encoded(v)) == Ok::<
            Seq<(Seq<char>, MessageView)>,
            ParseErrorView,
        >(v),
    decreases v, v.len() + 1,
{
    lemma_message_entries_round_trip(v, v.len());
    assert(v.take(v.len() as int) =~= v);
}

proof fn lemma_message_entries_error_stays(o: Seq<(Seq<char>, JsonValue)>, n: nat)
    requires
        n <= o.len(),
        message_entries_decoded(o, n) is Err,
    ensures
        message_entries_decoded(o, o.len()) == message_entries_decoded(o, n),
    decreases o.len() - n,
{
    if n < o.len() {
        lemma_message_entries_error_stays(o, n + 1);
    }
}

/// Reads a map of messages.
pub fn read_message_map(json: &Json) -> (r: Result<TextMap<Message>, ParseError>)
    ensures
        match r {
            Ok(m) => message_map_decoded(json@) == Ok::<
                Seq<(Seq<char>, MessageView)>,
                ParseErrorView,
            >(message_map_view(m)),
            Err(e) => message_map_decoded(json@) == Err::<
                Seq<(Seq<char>, MessageView)>,
                ParseErrorView,
            >(e.deep_view()),
        },
    decreases json, 0nat,
{
    match json {
        Json::Object(o) => {
            proof {
                lemma_object_value(*o);
            }
            let ghost entries = o.deep_view();
            let mut out: TextMap<Message> = TextMap::new();
            let n = o.len();
            assert(message_map_view(out) =~= Seq::empty());
            for i in 0..n
                invariant
                    n == o@.len(),
                    entries == o.deep_view(),
                    json@ == JsonValue::Object(entries),
                    decreases_to!(json => o),
                    message_entries_decoded(entries, i as nat) == Ok::<
                        Seq<(Seq<char>, MessageView)>,
                        ParseErrorView,
                    >(message_map_view(out)),
            {
                assert(entries[i as int] == (o@[i as int].0, o@[i as int].1@));
                match read_message(o.value_at(i)) {
                    Ok(v) => {
                        let ghost before = out;
                        out.insert(o.key_at(i).clone(), v);
                        proof {
                            lemma_message_map_put(before@, o@[i as int].0, v);
                            assert(message_map_view(before) =~= message_views(before@));
                            assert(message_map_view(out) =~= message_views(out@));
                        }
                    },
                    Err(e) => {
                        proof {
                            lemma_message_entries_error_stays(entries, (i + 1) as nat);
                        }
                        return Err(e);
                    },
                }
            }
            Ok(out)
        },
        _ => Err(ParseError::InvalidJsonType("BTreeMap".to_string())),
    }
}

/// The entries with each message replaced by what it stands for.
pub open spec fn message_views(es: Seq<(Seq<char>, Message)>) -> Seq<(Seq<char>, MessageView)> {
    Seq::new(es.len(), |i: int| (es[i].0, message_view(es[i].1)))
}

proof fn lemma_message_map_put(es: Seq<(Seq<char>, Message)>, key: Seq<char>, value: Message)
    ensures
        message_views(put(es, key, value)) == put(message_views(es), key, message_view(value)),
    decreases es.len(),
{
    let ds = message_views(es);
    if es.len() == 0 {
        assert(message_views(put(es, key, value)) =~= put(ds, key, message_view(value)));
    } else if es[0].0 == key {
        assert(message_views(put(es, key, value)) =~= put(ds, key, message_view(value)));
    } else if text_before(key, es[0].0) {
        assert(message_views(put(es, key, value)) =~= put(ds, key, message_view(value)));
    } else {
        lemma_message_map_put(es.drop_first(), key, value);
        assert(ds.drop_first() =~= message_views(es.drop_first()));
        assert(message_views(put(es, key, value)) =~= seq![ds[0]] + message_views(
            put(es.drop_first(), key, value),
        ));
    }
}

/// Writes a map of messages.
pub fn write_message_map(m: &TextMap<Message>) -> (json: Json)
    ensures
        json@ == message_map_encoded(message_map_view(*m)),
    decreases m, 0nat,
{
    let mut out: TextMap<Json> = TextMap::new();
    proof {
        use_type_invariant(m);
    }
    let n = m.len();
    for i in 0..n
        invariant
            n == m@.len(),
            keys_ascend(m@),
            out@.len() == i,
            forall|k: int|
                0 <= k < i ==> (#[trigger] out@[k]).0 == m@[k].0 && out@[k].1@ == message_encoded(
                    message_view(m@[k].1),
                ),
    {
        let ghost before = out@;
        let key = m.key_at(i).clone();
        let value = write_message(m.value_at(i));
        proof {
            assert forall|k: int| 0 <= k < before.len() implies text_before(
                (#[trigger] before[k]).0,
                key@,
            ) by {
                assert(text_before(m@[k].0, m@[i as int].0));
            }
            lemma_put_last(before, key@, value);
        }
        out.insert(key, value);
    }
    proof {
        assert(out.deep_view() =~= message_map_encoded(message_map_view(*m))->Object_0);
        lemma_object_value(out);
    }
    Json::Object(out)
}

/// Copies a map of messages.
pub fn copy_message_map(m: &TextMap<Message>) -> (r: TextMap<Message>)
    ensures
        message_map_view(r) == message_map_view(*m),
    decreases m, 0nat,
{
    let mut out: TextMap<Message> = TextMap::new();
    proof {
        use_type_invariant(m);
    }
    let n = m.len();
    for i in 0..n
        invariant
            n == m@.len(),
            keys_ascend(m@),
            out@.len() == i,
            forall|k: int|
                0 <= k < i ==> (#[trigger] out@[k]).0 == m@[k].0 && message_view(out@[k].1)
                    == message_view(m@[k].1),
    {
        let ghost before = out@;
        let key = m.key_at(i).clone();
        let value = copy_message(m.value_at(i));
        proof {
            assert forall|k: int| 0 <= k < before.len() implies text_before(
                (#[trigger] before[k]).0,
                key@,
            ) by {
                assert(text_before(m@[k].0, m@[i as int].0));
            }
            lemma_put_last(before, key@, value);
        }
        out.insert(key, value);
    }
    assert(message_map_view(out) =~= message_map_view(*m));
    out
}

/// Reads the messages attached to a message from the field `name`.
pub fn read_messages_field(o: &TextMap<Json>, name: &str) -> (r: Result<
    Option<TextMap<Message>>,
    ParseError,
>)
    ensures
        match r {
            Ok(Some(m)) => messages_field_decoded(o.deep_view(), name@) == Ok::<
                Option<Seq<(Seq<char>, MessageView)>>,
                ParseErrorView,
            >(Some(message_map_view(m))),
            Ok(None) => messages_field_decoded(o.deep_view(), name@) == Ok::<
                Option<Seq<(Seq<char>, MessageView)>>,
                ParseErrorView,
            >(None),
            Err(e) => messages_field_decoded(o.deep_view(), name@) == Err::<
                Option<Seq<(Seq<char>, MessageView)>>,
                ParseErrorView,
            >(e.deep_view()),
        },
    decreases o, 0nat,
{
    proof {
        lemma_deepened_lookup(o@, name@);
    }
    match o.get(name) {
        Some(found) => match found {
            Json::Null => Ok(None),
            _ => match read_message_map(found) {
                Ok(m) => Ok(Some(m)),
                Err(e) => Err(e),
            },
        },
        None => Ok(None),
    }
}

/// Writes the messages attached to a message to the field `name`.
pub fn write_messages_field(x: &Option<TextMap<Message>>, d: &mut TextMap<Json>, name: &str)
    ensures
        final(d).deep_view() == put_slot(
            old(d).deep_view(),
            name@,
            messages_slot(
                match x {
                    Some(m) => Some(message_map_view(*m)),
                    None => None,
                },
            ),
        ),
    decreases x, 0nat,
{
    reveal(put_slot);
    let value = match x {
        Some(m) => write_message_map(m),
        None => Json::Null,
    };
    proof {
        lemma_deepened_put(d@, name@, value);
    }
    d.insert(name.to_string(), value);
}

/// Copies the messages attached to a message.
pub fn copy_messages_field(x: &Option<TextMap<Message>>) -> (r: Option<TextMap<Message>>)
    ensures
        (match r {
            Some(m) => Some(message_map_view(m)),
            None => None,
        }) == (match x {
            Some(m) => Some(message_map_view(*m)),
            None => None,
        }),
    decreases x, 0nat,
{
    match x {
        Some(m) => Some(copy_message_map(m)),
        None => None,
    }
}

} // verus!
