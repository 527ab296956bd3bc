//! Mailboxes and their roles.

use crate::json::{lemma_lookup_put_slot, lemma_object_value, Json, JsonValue, TextMap};
use crate::parse::{
    get_field, put_field, Duplicate, FieldCodec, FromJson, FromJsonField, JsonCodec, ParseError,
    ParseErrorView, Presence, ToJson, ToJsonField,
};
use crate::record::{
    chosen, copy_asked, copy_patched, field_of, is_fresh_id, new_id, PartialRecord, Record,
};
use crate::text::{same_text, starts_with};
use vstd::prelude::*;

verus! {

/// The role that a mailbox plays: one of the roles that the protocol names,
/// or a role of the server's own, whose token begins with `x-`.
#[derive(Clone, Debug, PartialEq)]
pub enum MailboxRole {
    Inbox,
    Archive,
    Drafts,
    Outbox,
    Sent,
    Trash,
    Spam,
    Templates,
    /// A custom role; holds the whole token, the `x-` included.
    Custom(String),
}

/// A [`MailboxRole`] in contracts.
pub ghost enum MailboxRoleView {
    Inbox,
    Archive,
    Drafts,
    Outbox,
    Sent,
    Trash,
    Spam,
    Templates,
    Custom(Seq<char>),
}

impl DeepView for MailboxRole {
    type V = MailboxRoleView;

    open spec fn deep_view(&self) -> MailboxRoleView {
        match self {
            MailboxRole::Inbox => MailboxRoleView::Inbox,
            MailboxRole::Archive => MailboxRoleView::Archive,
            MailboxRole::Drafts => MailboxRoleView::Drafts,
            MailboxRole::Outbox => MailboxRoleView::Outbox,
            MailboxRole::Sent => MailboxRoleView::Sent,
            MailboxRole::Trash => MailboxRoleView::Trash,
            MailboxRole::Spam => MailboxRoleView::Spam,
            MailboxRole::Templates => MailboxRoleView::Templates,
            MailboxRole::Custom(r) => MailboxRoleView::Custom(r@),
        }
    }
}

impl MailboxRole {
    /// The token that stands for the role on the wire.
    pub open spec fn token(v: MailboxRoleView) -> Seq<char> {
        match v {
            MailboxRoleView::Inbox => "inbox"@,
            MailboxRoleView::Archive => "archive"@,
            MailboxRoleView::Drafts => "drafts"@,
            MailboxRoleView::Outbox => "outbox"@,
            MailboxRoleView::Sent => "sent"@,
            MailboxRoleView::Trash => "trash"@,
            MailboxRoleView::Spam => "spam"@,
            MailboxRoleView::Templates => "templates"@,
            MailboxRoleView::Custom(r) => r,
        }
    }

    /// The role that the token `s` stands for, if it is a token.
    pub open spec fn of_token(s: Seq<char>) -> Option<MailboxRoleView> {
        if s == "inbox"@ {
            Some(MailboxRoleView::Inbox)
        } else if s == "archive"@ {
            Some(MailboxRoleView::Archive)
        } else if s == "drafts"@ {
            Some(MailboxRoleView::Drafts)
        } else if s == "outbox"@ {
            Some(MailboxRoleView::Outbox)
        } else if s == "sent"@ {
            Some(MailboxRoleView::Sent)
        } else if s == "trash"@ {
            Some(MailboxRoleView::Trash)
        } else if s == "spam"@ {
            Some(MailboxRoleView::Spam)
        } else if s == "templates"@ {
            Some(MailboxRoleView::Templates)
        } else if "x-"@.is_prefix_of(s) {
            Some(MailboxRoleView::Custom(s))
        } else {
            None
        }
    }

    /// What tells the tokens apart, from each other and from the custom
    /// roles: the length of each, its first character, and for tokens of one
    /// length a character in which they differ.
    pub proof fn lemma_tokens()
        ensures
            "inbox"@.len() == 5,
            "archive"@.len() == 7,
            "drafts"@.len() == 6,
            "outbox"@.len() == 6,
            "sent"@.len() == 4,
            "trash"@.len() == 5,
            "spam"@.len() == 4,
            "templates"@.len() == 9,
            "sent"@[1] == 'e',
            "spam"@[1] == 'p',
            "inbox"@[0] == 'i',
            "trash"@[0] == 't',
            "drafts"@[0] == 'd',
            "outbox"@[0] == 'o',
            "archive"@[0] == 'a',
            "sent"@[0] == 's',
            "spam"@[0] == 's',
            "templates"@[0] == 't',
            "x-"@.len() == 2,
            "x-"@[0] == 'x',
    {
        reveal_strlit("inbox");
        reveal_strlit("archive");
        reveal_strlit("drafts");
        reveal_strlit("outbox");
        reveal_strlit("sent");
        reveal_strlit("trash");
        reveal_strlit("spam");
        reveal_strlit("templates");
        reveal_strlit("x-");
    }

    pub fn to_string(&self) -> (r: String)
        ensures
            r@ == Self::token(self.deep_view()),
    {
        match self {
            MailboxRole::Inbox => "inbox".to_string(),
            MailboxRole::Archive => "archive".to_string(),
            MailboxRole::Drafts => "drafts".to_string(),
            MailboxRole::Outbox => "outbox".to_string(),
            MailboxRole::Sent => "sent".to_string(),
            MailboxRole::Trash => "trash".to_string(),
            MailboxRole::Spam => "spam".to_string(),
            MailboxRole::Templates => "templates".to_string(),
            MailboxRole::Custom(r) => r.clone(),
        }
    }
}

impl Duplicate for MailboxRole {
    fn duplicate(&self) -> (r: Self) {
        match self {
            MailboxRole::Inbox => MailboxRole::Inbox,
            MailboxRole::Archive => MailboxRole::Archive,
            MailboxRole::Drafts => MailboxRole::Drafts,
            MailboxRole::Outbox => MailboxRole::Outbox,
            MailboxRole::Sent => MailboxRole::Sent,
            MailboxRole::Trash => MailboxRole::Trash,
            MailboxRole::Spam => MailboxRole::Spam,
            MailboxRole::Templates => MailboxRole::Templates,
            MailboxRole::Custom(r) => MailboxRole::Custom(r.clone()),
        }
    }
}

impl ToJson for MailboxRole {
    open spec fn encoded(v: MailboxRoleView) -> JsonValue {
        JsonValue::String(Self::token(v))
    }

    fn to_json(&self) -> (json: Json) {
        Json::String(self.to_string())
    }
}

impl FromJson for MailboxRole {
    open spec fn decoded(json: JsonValue) -> Result<MailboxRoleView, ParseErrorView> {
        match json {
            JsonValue::String(s) => match Self::of_token(s) {
                Some(v) => Ok(v),
                None => Err(ParseErrorView::InvalidStructure("MailboxRole"@)),
            },
            _ => Err(ParseErrorView::InvalidJsonType("MailboxRole"@)),
        }
    }

    fn from_json(json: &Json) -> (r: Result<MailboxRole, ParseError>) {
        match json {
            Json::String(v) => {
                if same_text(v.as_str(), "inbox") {
                    Ok(MailboxRole::Inbox)
                } else if same_text(v.as_str(), "archive") {
                    Ok(MailboxRole::Archive)
                } else if same_text(v.as_str(), "drafts") {
                    Ok(MailboxRole::Drafts)
                } else if same_text(v.as_str(), "outbox") {
                    Ok(MailboxRole::Outbox)
                } else if same_text(v.as_str(), "sent") {
                    Ok(MailboxRole::Sent)
                } else if same_text(v.as_str(), "trash") {
                    Ok(MailboxRole::Trash)
                } else if same_text(v.as_str(), "spam") {
                    Ok(MailboxRole::Spam)
                } else if same_text(v.as_str(), "templates") {
                    Ok(MailboxRole::Templates)
                } else if starts_with(v.as_str(), "x-") {
                    Ok(MailboxRole::Custom(v.clone()))
                } else {
                    Err(ParseError::InvalidStructure("MailboxRole".to_string()))
                }
            },
            _ => Err(ParseError::InvalidJsonType("MailboxRole".to_string())),
        }
    }
}

impl JsonCodec for MailboxRole {
    /// The token of a custom role begins with `x-`.
    open spec fn valid(v: MailboxRoleView) -> bool {
        v matches MailboxRoleView::Custom(r) ==> "x-"@.is_prefix_of(r)
    }

    proof fn round_trip(v: MailboxRoleView) {
        Self::lemma_tokens();
        if let MailboxRoleView::Custom(r) = v {
            assert(r[0] == "x-"@[0]);
        }
    }
}

/// A mailbox: its place in the tree, what the user may do with it, and its
/// counts.
#[derive(Clone, Debug, PartialEq)]
pub struct Mailbox {
    id: String,
    name: String,
    parent_id: Option<String>,
    role: Option<MailboxRole>,
    sort_order: u64,
    must_be_only_mailbox: bool,
    may_read_items: bool,
    may_add_items: bool,
    may_remove_items: bool,
    may_create_child: bool,
    may_rename: bool,
    may_delete: bool,
    total_messages: u64,
    unread_messages: u64,
    total_threads: u64,
    unread_threads: u64,
}

/// A value of [`Mailbox`] in contracts.
pub ghost struct MailboxView {
    pub id: Seq<char>,
    pub name: Seq<char>,
    pub parent_id: Option<Seq<char>>,
    pub role: Option<MailboxRoleView>,
    pub sort_order: u64,
    pub must_be_only_mailbox: bool,
    pub may_read_items: bool,
    pub may_add_items: bool,
    pub may_remove_items: bool,
    pub may_create_child: bool,
    pub may_rename: bool,
    pub may_delete: bool,
    pub total_messages: u64,
    pub unread_messages: u64,
    pub total_threads: u64,
    pub unread_threads: u64,
}

impl DeepView for Mailbox {
    type V = MailboxView;

    closed spec fn deep_view(&self) -> MailboxView {
        MailboxView {
            id: self.id.deep_view(),
            name: self.name.deep_view(),
            parent_id: self.parent_id.deep_view(),
            role: self.role.deep_view(),
            sort_order: self.sort_order.deep_view(),
            must_be_only_mailbox: self.must_be_only_mailbox.deep_view(),
            may_read_items: self.may_read_items.deep_view(),
            may_add_items: self.may_add_items.deep_view(),
            may_remove_items: self.may_remove_items.deep_view(),
            may_create_child: self.may_create_child.deep_view(),
            may_rename: self.may_rename.deep_view(),
            may_delete: self.may_delete.deep_view(),
            total_messages: self.total_messages.deep_view(),
            unread_messages: self.unread_messages.deep_view(),
            total_threads: self.total_threads.deep_view(),
            unread_threads: self.unread_threads.deep_view(),
        }
    }
}

impl Mailbox {
    /// The record with the id `id` and every other field at the default of
    /// its type.
    pub open spec fn blank(id: Seq<char>) -> MailboxView {
        MailboxView {
            id,
            name: Seq::<char>::empty(),
            parent_id: None,
            role: None,
            sort_order: 0,
            must_be_only_mailbox: false,
            may_read_items: false,
            may_add_items: false,
            may_remove_items: false,
            may_create_child: false,
            may_rename: false,
            may_delete: false,
            total_messages: 0,
            unread_messages: 0,
            total_threads: 0,
            unread_threads: 0,
        }
    }

    /// What tells the wire names of the record apart: the length of each, and
    /// for
    /// names of one length a character in which they differ.
    pub proof fn lemma_wire_names()
        ensures
            "id"@.len() == 2,
            "name"@.len() == 4,
            "parentId"@.len() == 8,
            "role"@.len() == 4,
            "sortOrder"@.len() == 9,
            "mustBeOnlyMailbox"@.len() == 17,
            "mayReadItems"@.len() == 12,
            "mayAddItems"@.len() == 11,
            "mayRemoveItems"@.len() == 14,
            "mayCreateChild"@.len() == 14,
            "mayRename"@.len() == 9,
            "mayDelete"@.len() == 9,
            "totalMessages"@.len() == 13,
            "unreadMessages"@.len() == 14,
            "totalThreads"@.len() == 12,
            "unreadThreads"@.len() == 13,
            "name"@[0] == 'n',
            "role"@[0] == 'r',
            "sortOrder"@[3] == 't',
            "mayRename"@[3] == 'R',
            "mayDelete"@[3] == 'D',
            "mayReadItems"@[0] == 'm',
            "totalThreads"@[0] == 't',
            "totalMessages"@[0] == 't',
            "unreadThreads"@[0] == 'u',
            "mayRemoveItems"@[3] == 'R',
            "mayCreateChild"@[3] == 'C',
            "unreadMessages"@[3] == 'e',
    {
        reveal_strlit("id");
        reveal_strlit("name");
        reveal_strlit("parentId");
        reveal_strlit("role");
        reveal_strlit("sortOrder");
        reveal_strlit("mustBeOnlyMailbox");
        reveal_strlit("mayReadItems");
        reveal_strlit("mayAddItems");
        reveal_strlit("mayRemoveItems");
        reveal_strlit("mayCreateChild");
        reveal_strlit("mayRename");
        reveal_strlit("mayDelete");
        reveal_strlit("totalMessages");
        reveal_strlit("unreadMessages");
        reveal_strlit("totalThreads");
        reveal_strlit("unreadThreads");
    }
}

impl Default for Mailbox {
    /// A record with a fresh id.
    fn default() -> (r: Self)
        ensures
            is_fresh_id(r.deep_view().id),
            r.deep_view() == Self::blank(r.deep_view().id),
    {
        let r = Mailbox {
            id: new_id(),
            name: String::new(),
            parent_id: None,
            role: None,
            sort_order: 0,
            must_be_only_mailbox: false,
            may_read_items: false,
            may_add_items: false,
            may_remove_items: false,
            may_create_child: false,
            may_rename: false,
            may_delete: false,
            total_messages: 0,
            unread_messages: 0,
            total_threads: 0,
            unread_threads: 0,
        };
        assert(r.deep_view() =~~= Self::blank(r.deep_view().id));
        r
    }
}

impl Duplicate for Mailbox {
    fn duplicate(&self) -> (r: Self) {
        let id = self.id.duplicate();
        let name = self.name.duplicate();
        let parent_id = self.parent_id.duplicate();
        let role = self.role.duplicate();
        let sort_order = self.sort_order.duplicate();
        let must_be_only_mailbox = self.must_be_only_mailbox.duplicate();
        let may_read_items = self.may_read_items.duplicate();
        let may_add_items = self.may_add_items.duplicate();
        let may_remove_items = self.may_remove_items.duplicate();
        let may_create_child = self.may_create_child.duplicate();
        let may_rename = self.may_rename.duplicate();
        let may_delete = self.may_delete.duplicate();
        let total_messages = self.total_messages.duplicate();
        let unread_messages = self.unread_messages.duplicate();
        let total_threads = self.total_threads.duplicate();
        let unread_threads = self.unread_threads.duplicate();
        Mailbox {
            id,
            name,
            parent_id,
            role,
            sort_order,
            must_be_only_mailbox,
            may_read_items,
            may_add_items,
            may_remove_items,
            may_create_child,
            may_rename,
            may_delete,
            total_messages,
            unread_messages,
            total_threads,
            unread_threads,
        }
    }
}

impl ToJson for Mailbox {
    /// An object with one key for each field.
    open spec fn encoded(v: MailboxView) -> JsonValue {
        let o = Seq::empty();
        let o = put_field::<String>(o, "id"@, v.id);
        let o = put_field::<String>(o, "name"@, v.name);
        let o = put_field::<Option<String>>(o, "parentId"@, v.parent_id);
        let o = put_field::<Option<MailboxRole>>(o, "role"@, v.role);
        let o = put_field::<u64>(o, "sortOrder"@, v.sort_order);
        let o = put_field::<bool>(o, "mustBeOnlyMailbox"@, v.must_be_only_mailbox);
        let o = put_field::<bool>(o, "mayReadItems"@, v.may_read_items);
        let o = put_field::<bool>(o, "mayAddItems"@, v.may_add_items);
        let o = put_field::<bool>(o, "mayRemoveItems"@, v.may_remove_items);
        let o = put_field::<bool>(o, "mayCreateChild"@, v.may_create_child);
        let o = put_field::<bool>(o, "mayRename"@, v.may_rename);
        let o = put_field::<bool>(o, "mayDelete"@, v.may_delete);
        let o = put_field::<u64>(o, "totalMessages"@, v.total_messages);
        let o = put_field::<u64>(o, "unreadMessages"@, v.unread_messages);
        let o = put_field::<u64>(o, "totalThreads"@, v.total_threads);
        let o = put_field::<u64>(o, "unreadThreads"@, v.unread_threads);
        JsonValue::Object(o)
    }

    fn to_json(&self) -> (json: Json) {
        let mut d: TextMap<Json> = TextMap::new();
        assert(d.deep_view() =~= Seq::empty());
        self.id.to_json_field(&mut d, "id");
        self.name.to_json_field(&mut d, "name");
        self.parent_id.to_json_field(&mut d, "parentId");
        self.role.to_json_field(&mut d, "role");
        self.sort_order.to_json_field(&mut d, "sortOrder");
        self.must_be_only_mailbox.to_json_field(&mut d, "mustBeOnlyMailbox");
        self.may_read_items.to_json_field(&mut d, "mayReadItems");
        self.may_add_items.to_json_field(&mut d, "mayAddItems");
        self.may_remove_items.to_json_field(&mut d, "mayRemoveItems");
        self.may_create_child.to_json_field(&mut d, "mayCreateChild");
        self.may_rename.to_json_field(&mut d, "mayRename");
        self.may_delete.to_json_field(&mut d, "mayDelete");
        self.total_messages.to_json_field(&mut d, "totalMessages");
        self.unread_messages.to_json_field(&mut d, "unreadMessages");
        self.total_threads.to_json_field(&mut d, "totalThreads");
        self.unread_threads.to_json_field(&mut d, "unreadThreads");
        proof {
            lemma_object_value(d);
        }
        Json::Object(d)
    }
}

impl FromJson for Mailbox {
    /// The fields are read in the order in which they are declared; the
    /// first that fails gives the error.
    open spec fn decoded(json: JsonValue) -> Result<MailboxView, ParseErrorView> {
        match json {
            JsonValue::Object(o) => {
                let id = get_field::<String>(o, "id"@);
                let name = get_field::<String>(o, "name"@);
                let parent_id = get_field::<Option<String>>(o, "parentId"@);
                let role = get_field::<Option<MailboxRole>>(o, "role"@);
                let sort_order = get_field::<u64>(o, "sortOrder"@);
                let must_be_only_mailbox = get_field::<bool>(o, "mustBeOnlyMailbox"@);
                let may_read_items = get_field::<bool>(o, "mayReadItems"@);
                let may_add_items = get_field::<bool>(o, "mayAddItems"@);
                let may_remove_items = get_field::<bool>(o, "mayRemoveItems"@);
                let may_create_child = get_field::<bool>(o, "mayCreateChild"@);
                let may_rename = get_field::<bool>(o, "mayRename"@);
                let may_delete = get_field::<bool>(o, "mayDelete"@);
                let total_messages = get_field::<u64>(o, "totalMessages"@);
                let unread_messages = get_field::<u64>(o, "unreadMessages"@);
                let total_threads = get_field::<u64>(o, "totalThreads"@);
                let unread_threads = get_field::<u64>(o, "unreadThreads"@);
                if id is Err {
                    Err(id->Err_0)
                } else if name is Err {
                    Err(name->Err_0)
                } else if parent_id is Err {
                    Err(parent_id->Err_0)
                } else if role is Err {
                    Err(role->Err_0)
                } else if sort_order is Err {
                    Err(sort_order->Err_0)
                } else if must_be_only_mailbox is Err {
                    Err(must_be_only_mailbox->Err_0)
                } else if may_read_items is Err {
                    Err(may_read_items->Err_0)
                } else if may_add_items is Err {
                    Err(may_add_items->Err_0)
                } else if may_remove_items is Err {
                    Err(may_remove_items->Err_0)
                } else if may_create_child is Err {
                    Err(may_create_child->Err_0)
                } else if may_rename is Err {
                    Err(may_rename->Err_0)
                } else if may_delete is Err {
                    Err(may_delete->Err_0)
                } else if total_messages is Err {
                    Err(total_messages->Err_0)
                } else if unread_messages is Err {
                    Err(unread_messages->Err_0)
                } else if total_threads is Err {
                    Err(total_threads->Err_0)
                } else if unread_threads is Err {
                    Err(unread_threads->Err_0)
                } else {
                    Ok(
                        MailboxView {
                            id: id->Ok_0,
                            name: name->Ok_0,
                            parent_id: parent_id->Ok_0,
                            role: role->Ok_0,
                            sort_order: sort_order->Ok_0,
                            must_be_only_mailbox: must_be_only_mailbox->Ok_0,
                            may_read_items: may_read_items->Ok_0,
                            may_add_items: may_add_items->Ok_0,
                            may_remove_items: may_remove_items->Ok_0,
                            may_create_child: may_create_child->Ok_0,
                            may_rename: may_rename->Ok_0,
                            may_delete: may_delete->Ok_0,
                            total_messages: total_messages->Ok_0,
                            unread_messages: unread_messages->Ok_0,
                            total_threads: total_threads->Ok_0,
                            unread_threads: unread_threads->Ok_0,
                        },
                    )
                }
            },
            _ => Err(ParseErrorView::InvalidJsonType("Mailbox"@)),
        }
    }

    fn from_json(json: &Json) -> (r: Result<Self, ParseError>) {
        match json {
            Json::Object(o) => {
                proof {
                    lemma_object_value(*o);
                }
                let id = match <String as FromJsonField>::from_json_field(o, "id") {
                    Ok(v) => v,
                    Err(e) => return Err(e),
                };
                let name = match <String as FromJsonField>::from_json_field(o, "name") {
                    Ok(v) => v,
                    Err(e) => return Err(e),
                };
                let parent_id = match <Option<String> as FromJsonField>::from_json_field(
                    o,
                    "parentId",
                ) {
                    Ok(v) => v,
                    Err(e) => return Err(e),
                };
                let role = match <Option<MailboxRole> as FromJsonField>::from_json_field(
                    o,
                    "role",
                ) {
                    Ok(v) => v,
                    Err(e) => return Err(e),
                };
                let sort_order = match <u64 as FromJsonField>::from_json_field(o, "sortOrder") {
                    Ok(v) => v,
                    Err(e) => return Err(e),
                };
                let must_be_only_mailbox = match <bool as FromJsonField>::from_json_field(
                    o,
                    "mustBeOnlyMailbox",
                ) {
                    Ok(v) => v,
                    Err(e) => return Err(e),
                };
                let may_read_items = match <bool as FromJsonField>::from_json_field(
                    o,
                    "mayReadItems",
                ) {
                    Ok(v) => v,
                    Err(e) => return Err(e),
                };
                let may_add_items = match <bool as FromJsonField>::from_json_field(
                    o,
                    "mayAddItems",
                ) {
                    Ok(v) => v,
                    Err(e) => return Err(e),
                };
                let may_remove_items = match <bool as FromJsonField>::from_json_field(
                    o,
                    "mayRemoveItems",
                ) {
                    Ok(v) => v,
                    Err(e) => return Err(e),
                };
                let may_create_child = match <bool as FromJsonField>::from_json_field(
                    o,
                    "mayCreateChild",
                ) {
                    Ok(v) => v,
                    Err(e) => return Err(e),
                };
                let may_rename = match <bool as FromJsonField>::from_json_field(o, "mayRename") {
                    Ok(v) => v,
                    Err(e) => return Err(e),
                };
                let may_delete = match <bool as FromJsonField>::from_json_field(o, "mayDelete") {
                    Ok(v) => v,
                    Err(e) => return Err(e),
                };
                let total_messages = match <u64 as FromJsonField>::from_json_field(
                    o,
                    "totalMessages",
                ) {
                    Ok(v) => v,
                    Err(e) => return Err(e),
                };
                let unread_messages = match <u64 as FromJsonField>::from_json_field(
                    o,
                    "unreadMessages",
                ) {
                    Ok(v) => v,
                    Err(e) => return Err(e),
                };
                let total_threads = match <u64 as FromJsonField>::from_json_field(
                    o,
                    "totalThreads",
                ) {
                    Ok(v) => v,
                    Err(e) => return Err(e),
                };
                let unread_threads = match <u64 as FromJsonField>::from_json_field(
                    o,
                    "unreadThreads",
                ) {
                    Ok(v) => v,
                    Err(e) => return Err(e),
                };
                Ok(Mailbox {
                    id,
                    name,
                    parent_id,
                    role,
                    sort_order,
                    must_be_only_mailbox,
                    may_read_items,
                    may_add_items,
                    may_remove_items,
                    may_create_child,
                    may_rename,
                    may_delete,
                    total_messages,
                    unread_messages,
                    total_threads,
                    unread_threads,
                })
            },
            _ => Err(ParseError::InvalidJsonType("Mailbox".to_string())),
        }
    }
}

impl JsonCodec for Mailbox {
    open spec fn valid(v: MailboxView) -> bool {
        &&& <String as FieldCodec>::field_valid(v.id)
        &&& <String as FieldCodec>::field_valid(v.name)
        &&& <Option<String> as FieldCodec>::field_valid(v.parent_id)
        &&& <Option<MailboxRole> as FieldCodec>::field_valid(v.role)
        &&& <u64 as FieldCodec>::field_valid(v.sort_order)
        &&& <bool as FieldCodec>::field_valid(v.must_be_only_mailbox)
        &&& <bool as FieldCodec>::field_valid(v.may_read_items)
        &&& <bool as FieldCodec>::field_valid(v.may_add_items)
        &&& <bool as FieldCodec>::field_valid(v.may_remove_items)
        &&& <bool as FieldCodec>::field_valid(v.may_create_child)
        &&& <bool as FieldCodec>::field_valid(v.may_rename)
        &&& <bool as FieldCodec>::field_valid(v.may_delete)
        &&& <u64 as FieldCodec>::field_valid(v.total_messages)
        &&& <u64 as FieldCodec>::field_valid(v.unread_messages)
        &&& <u64 as FieldCodec>::field_valid(v.total_threads)
        &&& <u64 as FieldCodec>::field_valid(v.unread_threads)
    }

    proof fn round_trip(v: MailboxView) {
        let o = Self::encoded(v)->Object_0;
        Self::lemma_wire_names();
        assert(get_field::<String>(o, "id"@) == Ok::<Seq<char>, ParseErrorView>(v.id)) by {
            Self::lemma_slots(v, "id"@);
            <String as FieldCodec>::field_round_trip(v.id, "id"@);
        }
        assert(get_field::<String>(o, "name"@) == Ok::<Seq<char>, ParseErrorView>(v.name)) by {
            Self::lemma_slots(v, "name"@);
            <String as FieldCodec>::field_round_trip(v.name, "name"@);
        }
        assert(get_field::<Option<String>>(o, "parentId"@) == Ok::<
            Option<Seq<char>>,
            ParseErrorView,
        >(v.parent_id)) by {
            Self::lemma_slots(v, "parentId"@);
            <Option<String> as FieldCodec>::field_round_trip(v.parent_id, "parentId"@);
        }
        assert(get_field::<Option<MailboxRole>>(o, "role"@) == Ok::<
            Option<MailboxRoleView>,
            ParseErrorView,
        >(v.role)) by {
            Self::lemma_slots(v, "role"@);
            <Option<MailboxRole> as FieldCodec>::field_round_trip(v.role, "role"@);
        }
        assert(get_field::<u64>(o, "sortOrder"@) == Ok::<u64, ParseErrorView>(v.sort_order)) by {
            Self::lemma_slots(v, "sortOrder"@);
            <u64 as FieldCodec>::field_round_trip(v.sort_order, "sortOrder"@);
        }
        assert(get_field::<bool>(o, "mustBeOnlyMailbox"@) == Ok::<
            bool,
            ParseErrorView,
        >(v.must_be_only_mailbox)) by {
            Self::lemma_slots(v, "mustBeOnlyMailbox"@);
            <bool as FieldCodec>::field_round_trip(v.must_be_only_mailbox, "mustBeOnlyMailbox"@);
        }
        assert(get_field::<bool>(o, "mayReadItems"@) == Ok::<
            bool,
            ParseErrorView,
        >(v.may_read_items)) by {
            Self::lemma_slots(v, "mayReadItems"@);
            <bool as FieldCodec>::field_round_trip(v.may_read_items, "mayReadItems"@);
        }
        assert(get_field::<bool>(o, "mayAddItems"@) == Ok::<
            bool,
            ParseErrorView,
        >(v.may_add_items)) by {
            Self::lemma_slots(v, "mayAddItems"@);
            <bool as FieldCodec>::field_round_trip(v.may_add_items, "mayAddItems"@);
        }
        assert(get_field::<bool>(o, "mayRemoveItems"@) == Ok::<
            bool,
            ParseErrorView,
        >(v.may_remove_items)) by {
            Self::lemma_slots(v, "mayRemoveItems"@);
            <bool as FieldCodec>::field_round_trip(v.may_remove_items, "mayRemoveItems"@);
        }
        assert(get_field::<bool>(o, "mayCreateChild"@) == Ok::<
            bool,
            ParseErrorView,
        >(v.may_create_child)) by {
            Self::lemma_slots(v, "mayCreateChild"@);
            <bool as FieldCodec>::field_round_trip(v.may_create_child, "mayCreateChild"@);
        }
        assert(get_field::<bool>(o, "mayRename"@) == Ok::<bool, ParseErrorView>(v.may_rename)) by {
            Self::lemma_slots(v, "mayRename"@);
            <bool as FieldCodec>::field_round_trip(v.may_rename, "mayRename"@);
        }
        assert(get_field::<bool>(o, "mayDelete"@) == Ok::<bool, ParseErrorView>(v.may_delete)) by {
            Self::lemma_slots(v, "mayDelete"@);
            <bool as FieldCodec>::field_round_trip(v.may_delete, "mayDelete"@);
        }
        assert(get_field::<u64>(o, "totalMessages"@) == Ok::<
            u64,
            ParseErrorView,
        >(v.total_messages)) by {
            Self::lemma_slots(v, "totalMessages"@);
            <u64 as FieldCodec>::field_round_trip(v.total_messages, "totalMessages"@);
        }
        assert(get_field::<u64>(o, "unreadMessages"@) == Ok::<
            u64,
            ParseErrorView,
        >(v.unread_messages)) by {
            Self::lemma_slots(v, "unreadMessages"@);
            <u64 as FieldCodec>::field_round_trip(v.unread_messages, "unreadMessages"@);
        }
        assert(get_field::<u64>(o, "totalThreads"@) == Ok::<
            u64,
            ParseErrorView,
        >(v.total_threads)) by {
            Self::lemma_slots(v, "totalThreads"@);
            <u64 as FieldCodec>::field_round_trip(v.total_threads, "totalThreads"@);
        }
        assert(get_field::<u64>(o, "unreadThreads"@) == Ok::<
            u64,
            ParseErrorView,
        >(v.unread_threads)) by {
            Self::lemma_slots(v, "unreadThreads"@);
            <u64 as FieldCodec>::field_round_trip(v.unread_threads, "unreadThreads"@);
        }
    }
}

impl Mailbox {
    /// What the written form of `v` holds under `name`.
    pub open spec fn slot(v: MailboxView, name: Seq<char>) -> Option<JsonValue> {
        if name == "id"@ {
            <String as ToJsonField>::field_encoded(v.id)
        } else if name == "name"@ {
            <String as ToJsonField>::field_encoded(v.name)
        } else if name == "parentId"@ {
            <Option<String> as ToJsonField>::field_encoded(v.parent_id)
        } else if name == "role"@ {
            <Option<MailboxRole> as ToJsonField>::field_encoded(v.role)
        } else if name == "sortOrder"@ {
            <u64 as ToJsonField>::field_encoded(v.sort_order)
        } else if name == "mustBeOnlyMailbox"@ {
            <bool as ToJsonField>::field_encoded(v.must_be_only_mailbox)
        } else if name == "mayReadItems"@ {
            <bool as ToJsonField>::field_encoded(v.may_read_items)
        } else if name == "mayAddItems"@ {
            <bool as ToJsonField>::field_encoded(v.may_add_items)
        } else if name == "mayRemoveItems"@ {
            <bool as ToJsonField>::field_encoded(v.may_remove_items)
        } else if name == "mayCreateChild"@ {
            <bool as ToJsonField>::field_encoded(v.may_create_child)
        } else if name == "mayRename"@ {
            <bool as ToJsonField>::field_encoded(v.may_rename)
        } else if name == "mayDelete"@ {
            <bool as ToJsonField>::field_encoded(v.may_delete)
        } else if name == "totalMessages"@ {
            <u64 as ToJsonField>::field_encoded(v.total_messages)
        } else if name == "unreadMessages"@ {
            <u64 as ToJsonField>::field_encoded(v.unread_messages)
        } else if name == "totalThreads"@ {
            <u64 as ToJsonField>::field_encoded(v.total_threads)
        } else if name == "unreadThreads"@ {
            <u64 as ToJsonField>::field_encoded(v.unread_threads)
        } else {
            None
        }
    }

    /// The written form holds each field under its wire name and nothing
    /// under any other name.
    pub proof fn lemma_slots(v: MailboxView, name: Seq<char>)
        ensures
            field_of(Self::encoded(v), name) == Self::slot(v, name),
    {
        Self::lemma_wire_names();
        if name == "id"@ {
            assert(field_of(Self::encoded(v), name) == Self::slot(v, name)) by {
                broadcast use lemma_lookup_put_slot;

            }
        } else if name == "name"@ {
            assert(field_of(Self::encoded(v), name) == Self::slot(v, name)) by {
                broadcast use lemma_lookup_put_slot;

            }
        } else if name == "parentId"@ {
            assert(field_of(Self::encoded(v), name) == Self::slot(v, name)) by {
                broadcast use lemma_lookup_put_slot;

            }
        } else if name == "role"@ {
            assert(field_of(Self::encoded(v), name) == Self::slot(v, name)) by {
                broadcast use lemma_lookup_put_slot;

            }
        } else if name == "sortOrder"@ {
            assert(field_of(Self::encoded(v), name) == Self::slot(v, name)) by {
                broadcast use lemma_lookup_put_slot;

            }
        } else if name == "mustBeOnlyMailbox"@ {
            assert(field_of(Self::encoded(v), name) == Self::slot(v, name)) by {
                broadcast use lemma_lookup_put_slot;

            }
        } else if name == "mayReadItems"@ {
            assert(field_of(Self::encoded(v), name) == Self::slot(v, name)) by {
                broadcast use lemma_lookup_put_slot;

            }
        } else if name == "mayAddItems"@ {
            assert(field_of(Self::encoded(v), name) == Self::slot(v, name)) by {
                broadcast use lemma_lookup_put_slot;

            }
        } else if name == "mayRemoveItems"@ {
            assert(field_of(Self::encoded(v), name) == Self::slot(v, name)) by {
                broadcast use lemma_lookup_put_slot;

            }
        } else if name == "mayCreateChild"@ {
            assert(field_of(Self::encoded(v), name) == Self::slot(v, name)) by {
                broadcast use lemma_lookup_put_slot;

            }
        } else if name == "mayRename"@ {
            assert(field_of(Self::encoded(v), name) == Self::slot(v, name)) by {
                broadcast use lemma_lookup_put_slot;

            }
        } else if name == "mayDelete"@ {
            assert(field_of(Self::encoded(v), name) == Self::slot(v, name)) by {
                broadcast use lemma_lookup_put_slot;

            }
        } else if name == "totalMessages"@ {
            assert(field_of(Self::encoded(v), name) == Self::slot(v, name)) by {
                broadcast use lemma_lookup_put_slot;

            }
        } else if name == "unreadMessages"@ {
            assert(field_of(Self::encoded(v), name) == Self::slot(v, name)) by {
                broadcast use lemma_lookup_put_slot;

            }
        } else if name == "totalThreads"@ {
            assert(field_of(Self::encoded(v), name) == Self::slot(v, name)) by {
                broadcast use lemma_lookup_put_slot;

            }
        } else if name == "unreadThreads"@ {
            assert(field_of(Self::encoded(v), name) == Self::slot(v, name)) by {
                broadcast use lemma_lookup_put_slot;

            }
        } else {
            assert(field_of(Self::encoded(v), name) is None) by {
                broadcast use lemma_lookup_put_slot;

            }
        }
    }
}

/// A [`Mailbox`] with every field given or left out.
#[derive(Clone, Debug, PartialEq)]
pub struct PartialMailbox {
    id: Presence<String>,
    name: Presence<String>,
    parent_id: Presence<Option<String>>,
    role: Presence<Option<MailboxRole>>,
    sort_order: Presence<u64>,
    must_be_only_mailbox: Presence<bool>,
    may_read_items: Presence<bool>,
    may_add_items: Presence<bool>,
    may_remove_items: Presence<bool>,
    may_create_child: Presence<bool>,
    may_rename: Presence<bool>,
    may_delete: Presence<bool>,
    total_messages: Presence<u64>,
    unread_messages: Presence<u64>,
    total_threads: Presence<u64>,
    unread_threads: Presence<u64>,
}

/// A value of [`PartialMailbox`] in contracts.
pub ghost struct PartialMailboxView {
    pub id: Presence<Seq<char>>,
    pub name: Presence<Seq<char>>,
    pub parent_id: Presence<Option<Seq<char>>>,
    pub role: Presence<Option<MailboxRoleView>>,
    pub sort_order: Presence<u64>,
    pub must_be_only_mailbox: Presence<bool>,
    pub may_read_items: Presence<bool>,
    pub may_add_items: Presence<bool>,
    pub may_remove_items: Presence<bool>,
    pub may_create_child: Presence<bool>,
    pub may_rename: Presence<bool>,
    pub may_delete: Presence<bool>,
    pub total_messages: Presence<u64>,
    pub unread_messages: Presence<u64>,
    pub total_threads: Presence<u64>,
    pub unread_threads: Presence<u64>,
}

impl DeepView for PartialMailbox {
    type V = PartialMailboxView;

    closed spec fn deep_view(&self) -> PartialMailboxView {
        PartialMailboxView {
            id: self.id.deep_view(),
            name: self.name.deep_view(),
            parent_id: self.parent_id.deep_view(),
            role: self.role.deep_view(),
            sort_order: self.sort_order.deep_view(),
            must_be_only_mailbox: self.must_be_only_mailbox.deep_view(),
            may_read_items: self.may_read_items.deep_view(),
            may_add_items: self.may_add_items.deep_view(),
            may_remove_items: self.may_remove_items.deep_view(),
            may_create_child: self.may_create_child.deep_view(),
            may_rename: self.may_rename.deep_view(),
            may_delete: self.may_delete.deep_view(),
            total_messages: self.total_messages.deep_view(),
            unread_messages: self.unread_messages.deep_view(),
            total_threads: self.total_threads.deep_view(),
            unread_threads: self.unread_threads.deep_view(),
        }
    }
}

impl PartialMailbox {
    /// The default value: every field at the default of its type.
    pub open spec fn blank() -> PartialMailboxView {
        PartialMailboxView {
            id: Presence::Absent,
            name: Presence::Absent,
            parent_id: Presence::Absent,
            role: Presence::Absent,
            sort_order: Presence::Absent,
            must_be_only_mailbox: Presence::Absent,
            may_read_items: Presence::Absent,
            may_add_items: Presence::Absent,
            may_remove_items: Presence::Absent,
            may_create_child: Presence::Absent,
            may_rename: Presence::Absent,
            may_delete: Presence::Absent,
            total_messages: Presence::Absent,
            unread_messages: Presence::Absent,
            total_threads: Presence::Absent,
            unread_threads: Presence::Absent,
        }
    }
}

impl Default for PartialMailbox {
    fn default() -> (r: Self)
        ensures
            r.deep_view() == Self::blank(),
    {
        let id: Presence<String> = Presence::Absent;
        let name: Presence<String> = Presence::Absent;
        let parent_id: Presence<Option<String>> = Presence::Absent;
        let role: Presence<Option<MailboxRole>> = Presence::Absent;
        let sort_order: Presence<u64> = Presence::Absent;
        let must_be_only_mailbox: Presence<bool> = Presence::Absent;
        let may_read_items: Presence<bool> = Presence::Absent;
        let may_add_items: Presence<bool> = Presence::Absent;
        let may_remove_items: Presence<bool> = Presence::Absent;
        let may_create_child: Presence<bool> = Presence::Absent;
        let may_rename: Presence<bool> = Presence::Absent;
        let may_delete: Presence<bool> = Presence::Absent;
        let total_messages: Presence<u64> = Presence::Absent;
        let unread_messages: Presence<u64> = Presence::Absent;
        let total_threads: Presence<u64> = Presence::Absent;
        let unread_threads: Presence<u64> = Presence::Absent;
        PartialMailbox {
            id,
            name,
            parent_id,
            role,
            sort_order,
            must_be_only_mailbox,
            may_read_items,
            may_add_items,
            may_remove_items,
            may_create_child,
            may_rename,
            may_delete,
            total_messages,
            unread_messages,
            total_threads,
            unread_threads,
        }
    }
}

impl Duplicate for PartialMailbox {
    fn duplicate(&self) -> (r: Self) {
        let id = self.id.duplicate();
        let name = self.name.duplicate();
        let parent_id = self.parent_id.duplicate();
        let role = self.role.duplicate();
        let sort_order = self.sort_order.duplicate();
        let must_be_only_mailbox = self.must_be_only_mailbox.duplicate();
        let may_read_items = self.may_read_items.duplicate();
        let may_add_items = self.may_add_items.duplicate();
        let may_remove_items = self.may_remove_items.duplicate();
        let may_create_child = self.may_create_child.duplicate();
        let may_rename = self.may_rename.duplicate();
        let may_delete = self.may_delete.duplicate();
        let total_messages = self.total_messages.duplicate();
        let unread_messages = self.unread_messages.duplicate();
        let total_threads = self.total_threads.duplicate();
        let unread_threads = self.unread_threads.duplicate();
        PartialMailbox {
            id,
            name,
            parent_id,
            role,
            sort_order,
            must_be_only_mailbox,
            may_read_items,
            may_add_items,
            may_remove_items,
            may_create_child,
            may_rename,
            may_delete,
            total_messages,
            unread_messages,
            total_threads,
            unread_threads,
        }
    }
}

impl ToJson for PartialMailbox {
    /// An object with one key for each field.
    open spec fn encoded(v: PartialMailboxView) -> JsonValue {
        let o = Seq::empty();
        let o = put_field::<Presence<String>>(o, "id"@, v.id);
        let o = put_field::<Presence<String>>(o, "name"@, v.name);
        let o = put_field::<Presence<Option<String>>>(o, "parentId"@, v.parent_id);
        let o = put_field::<Presence<Option<MailboxRole>>>(o, "role"@, v.role);
        let o = put_field::<Presence<u64>>(o, "sortOrder"@, v.sort_order);
        let o = put_field::<Presence<bool>>(o, "mustBeOnlyMailbox"@, v.must_be_only_mailbox);
        let o = put_field::<Presence<bool>>(o, "mayReadItems"@, v.may_read_items);
        let o = put_field::<Presence<bool>>(o, "mayAddItems"@, v.may_add_items);
        let o = put_field::<Presence<bool>>(o, "mayRemoveItems"@, v.may_remove_items);
        let o = put_field::<Presence<bool>>(o, "mayCreateChild"@, v.may_create_child);
        let o = put_field::<Presence<bool>>(o, "mayRename"@, v.may_rename);
        let o = put_field::<Presence<bool>>(o, "mayDelete"@, v.may_delete);
        let o = put_field::<Presence<u64>>(o, "totalMessages"@, v.total_messages);
        let o = put_field::<Presence<u64>>(o, "unreadMessages"@, v.unread_messages);
        let o = put_field::<Presence<u64>>(o, "totalThreads"@, v.total_threads);
        let o = put_field::<Presence<u64>>(o, "unreadThreads"@, v.unread_threads);
        JsonValue::Object(o)
    }

    fn to_json(&self) -> (json: Json) {
        let mut d: TextMap<Json> = TextMap::new();
        assert(d.deep_view() =~= Seq::empty());
        self.id.to_json_field(&mut d, "id");
        self.name.to_json_field(&mut d, "name");
        self.parent_id.to_json_field(&mut d, "parentId");
        self.role.to_json_field(&mut d, "role");
        self.sort_order.to_json_field(&mut d, "sortOrder");
        self.must_be_only_mailbox.to_json_field(&mut d, "mustBeOnlyMailbox");
        self.may_read_items.to_json_field(&mut d, "mayReadItems");
        self.may_add_items.to_json_field(&mut d, "mayAddItems");
        self.may_remove_items.to_json_field(&mut d, "mayRemoveItems");
        self.may_create_child.to_json_field(&mut d, "mayCreateChild");
        self.may_rename.to_json_field(&mut d, "mayRename");
        self.may_delete.to_json_field(&mut d, "mayDelete");
        self.total_messages.to_json_field(&mut d, "totalMessages");
        self.unread_messages.to_json_field(&mut d, "unreadMessages");
        self.total_threads.to_json_field(&mut d, "totalThreads");
        self.unread_threads.to_json_field(&mut d, "unreadThreads");
        proof {
            lemma_object_value(d);
        }
        Json::Object(d)
    }
}

impl FromJson for PartialMailbox {
    /// The fields are read in the order in which they are declared; the
    /// first that fails gives the error.
    open spec fn decoded(json: JsonValue) -> Result<PartialMailboxView, ParseErrorView> {
        match json {
            JsonValue::Object(o) => {
                let id = get_field::<Presence<String>>(o, "id"@);
                let name = get_field::<Presence<String>>(o, "name"@);
                let parent_id = get_field::<Presence<Option<String>>>(o, "parentId"@);
                let role = get_field::<Presence<Option<MailboxRole>>>(o, "role"@);
                let sort_order = get_field::<Presence<u64>>(o, "sortOrder"@);
                let must_be_only_mailbox = get_field::<Presence<bool>>(o, "mustBeOnlyMailbox"@);
                let may_read_items = get_field::<Presence<bool>>(o, "mayReadItems"@);
                let may_add_items = get_field::<Presence<bool>>(o, "mayAddItems"@);
                let may_remove_items = get_field::<Presence<bool>>(o, "mayRemoveItems"@);
                let may_create_child = get_field::<Presence<bool>>(o, "mayCreateChild"@);
                let may_rename = get_field::<Presence<bool>>(o, "mayRename"@);
                let may_delete = get_field::<Presence<bool>>(o, "mayDelete"@);
                let total_messages = get_field::<Presence<u64>>(o, "totalMessages"@);
                let unread_messages = get_field::<Presence<u64>>(o, "unreadMessages"@);
                let total_threads = get_field::<Presence<u64>>(o, "totalThreads"@);
                let unread_threads = get_field::<Presence<u64>>(o, "unreadThreads"@);
                if id is Err {
                    Err(id->Err_0)
                } else if name is Err {
                    Err(name->Err_0)
                } else if parent_id is Err {
                    Err(parent_id->Err_0)
                } else if role is Err {
                    Err(role->Err_0)
                } else if sort_order is Err {
                    Err(sort_order->Err_0)
                } else if must_be_only_mailbox is Err {
                    Err(must_be_only_mailbox->Err_0)
                } else if may_read_items is Err {
                    Err(may_read_items->Err_0)
                } else if may_add_items is Err {
                    Err(may_add_items->Err_0)
                } else if may_remove_items is Err {
                    Err(may_remove_items->Err_0)
                } else if may_create_child is Err {
                    Err(may_create_child->Err_0)
                } else if may_rename is Err {
                    Err(may_rename->Err_0)
                } else if may_delete is Err {
                    Err(may_delete->Err_0)
                } else if total_messages is Err {
                    Err(total_messages->Err_0)
                } else if unread_messages is Err {
                    Err(unread_messages->Err_0)
                } else if total_threads is Err {
                    Err(total_threads->Err_0)
                } else if unread_threads is Err {
                    Err(unread_threads->Err_0)
                } else {
                    Ok(
                        PartialMailboxView {
                            id: id->Ok_0,
                            name: name->Ok_0,
                            parent_id: parent_id->Ok_0,
                            role: role->Ok_0,
                            sort_order: sort_order->Ok_0,
                            must_be_only_mailbox: must_be_only_mailbox->Ok_0,
                            may_read_items: may_read_items->Ok_0,
                            may_add_items: may_add_items->Ok_0,
                            may_remove_items: may_remove_items->Ok_0,
                            may_create_child: may_create_child->Ok_0,
                            may_rename: may_rename->Ok_0,
                            may_delete: may_delete->Ok_0,
                            total_messages: total_messages->Ok_0,
                            unread_messages: unread_messages->Ok_0,
                            total_threads: total_threads->Ok_0,
                            unread_threads: unread_threads->Ok_0,
                        },
                    )
                }
            },
            _ => Err(ParseErrorView::InvalidJsonType("Mailbox"@)),
        }
    }

    fn from_json(json: &Json) -> (r: Result<Self, ParseError>) {
        match json {
            Json::Object(o) => {
                proof {
                    lemma_object_value(*o);
                }
                let id = match <Presence<String> as FromJsonField>::from_json_field(o, "id") {
                    Ok(v) => v,
                    Err(e) => return Err(e),
                };
                let name = match <Presence<String> as FromJsonField>::from_json_field(o, "name") {
                    Ok(v) => v,
                    Err(e) => return Err(e),
                };
                let parent_id = match <Presence<Option<String>> as FromJsonField>::from_json_field(
                    o,
                    "parentId",
                ) {
                    Ok(v) => v,
                    Err(e) => return Err(e),
                };
                let role = match <Presence<Option<MailboxRole>> as FromJsonField>::from_json_field(
                    o,
                    "role",
                ) {
                    Ok(v) => v,
                    Err(e) => return Err(e),
                };
                let sort_order = match <Presence<u64> as FromJsonField>::from_json_field(
                    o,
                    "sortOrder",
                ) {
                    Ok(v) => v,
                    Err(e) => return Err(e),
                };
                let must_be_only_mailbox = match <Presence<bool> as FromJsonField>::from_json_field(
                    o,
                    "mustBeOnlyMailbox",
                ) {
                    Ok(v) => v,
                    Err(e) => return Err(e),
                };
                let may_read_items = match <Presence<bool> as FromJsonField>::from_json_field(
                    o,
                    "mayReadItems",
                ) {
                    Ok(v) => v,
                    Err(e) => return Err(e),
                };
                let may_add_items = match <Presence<bool> as FromJsonField>::from_json_field(
                    o,
                    "mayAddItems",
                ) {
                    Ok(v) => v,
                    Err(e) => return Err(e),
                };
                let may_remove_items = match <Presence<bool> as FromJsonField>::from_json_field(
                    o,
                    "mayRemoveItems",
                ) {
                    Ok(v) => v,
                    Err(e) => return Err(e),
                };
                let may_create_child = match <Presence<bool> as FromJsonField>::from_json_field(
                    o,
                    "mayCreateChild",
                ) {
                    Ok(v) => v,
                    Err(e) => return Err(e),
                };
                let may_rename = match <Presence<bool> as FromJsonField>::from_json_field(
                    o,
                    "mayRename",
                ) {
                    Ok(v) => v,
                    Err(e) => return Err(e),
                };
                let may_delete = match <Presence<bool> as FromJsonField>::from_json_field(
                    o,
                    "mayDelete",
                ) {
                    Ok(v) => v,
                    Err(e) => return Err(e),
                };
                let total_messages = match <Presence<u64> as FromJsonField>::from_json_field(
                    o,
                    "totalMessages",
                ) {
                    Ok(v) => v,
                    Err(e) => return Err(e),
                };
                let unread_messages = match <Presence<u64> as FromJsonField>::from_json_field(
                    o,
                    "unreadMessages",
                ) {
                    Ok(v) => v,
                    Err(e) => return Err(e),
                };
                let total_threads = match <Presence<u64> as FromJsonField>::from_json_field(
                    o,
                    "totalThreads",
                ) {
                    Ok(v) => v,
                    Err(e) => return Err(e),
                };
                let unread_threads = match <Presence<u64> as FromJsonField>::from_json_field(
                    o,
                    "unreadThreads",
                ) {
                    Ok(v) => v,
                    Err(e) => return Err(e),
                };
                Ok(PartialMailbox {
                    id,
                    name,
                    parent_id,
                    role,
                    sort_order,
                    must_be_only_mailbox,
                    may_read_items,
                    may_add_items,
                    may_remove_items,
                    may_create_child,
                    may_rename,
                    may_delete,
                    total_messages,
                    unread_messages,
                    total_threads,
                    unread_threads,
                })
            },
            _ => Err(ParseError::InvalidJsonType("Mailbox".to_string())),
        }
    }
}

impl JsonCodec for PartialMailbox {
    open spec fn valid(v: PartialMailboxView) -> bool {
        &&& <Presence<String> as FieldCodec>::field_valid(v.id)
        &&& <Presence<String> as FieldCodec>::field_valid(v.name)
        &&& <Presence<Option<String>> as FieldCodec>::field_valid(v.parent_id)
        &&& <Presence<Option<MailboxRole>> as FieldCodec>::field_valid(v.role)
        &&& <Presence<u64> as FieldCodec>::field_valid(v.sort_order)
        &&& <Presence<bool> as FieldCodec>::field_valid(v.must_be_only_mailbox)
        &&& <Presence<bool> as FieldCodec>::field_valid(v.may_read_items)
        &&& <Presence<bool> as FieldCodec>::field_valid(v.may_add_items)
        &&& <Presence<bool> as FieldCodec>::field_valid(v.may_remove_items)
        &&& <Presence<bool> as FieldCodec>::field_valid(v.may_create_child)
        &&& <Presence<bool> as FieldCodec>::field_valid(v.may_rename)
        &&& <Presence<bool> as FieldCodec>::field_valid(v.may_delete)
        &&& <Presence<u64> as FieldCodec>::field_valid(v.total_messages)
        &&& <Presence<u64> as FieldCodec>::field_valid(v.unread_messages)
        &&& <Presence<u64> as FieldCodec>::field_valid(v.total_threads)
        &&& <Presence<u64> as FieldCodec>::field_valid(v.unread_threads)
    }

    proof fn round_trip(v: PartialMailboxView) {
        let o = Self::encoded(v)->Object_0;
        Mailbox::lemma_wire_names();
        assert(get_field::<Presence<String>>(o, "id"@) == Ok::<
            Presence<Seq<char>>,
            ParseErrorView,
        >(v.id)) by {
            Self::lemma_slots(v, "id"@);
            <Presence<String> as FieldCodec>::field_round_trip(v.id, "id"@);
        }
        assert(get_field::<Presence<String>>(o, "name"@) == Ok::<
            Presence<Seq<char>>,
            ParseErrorView,
        >(v.name)) by {
            Self::lemma_slots(v, "name"@);
            <Presence<String> as FieldCodec>::field_round_trip(v.name, "name"@);
        }
        assert(get_field::<Presence<Option<String>>>(o, "parentId"@) == Ok::<
            Presence<Option<Seq<char>>>,
            ParseErrorView,
        >(v.parent_id)) by {
            Self::lemma_slots(v, "parentId"@);
            <Presence<Option<String>> as FieldCodec>::field_round_trip(v.parent_id, "parentId"@);
        }
        assert(get_field::<Presence<Option<MailboxRole>>>(o, "role"@) == Ok::<
            Presence<Option<MailboxRoleView>>,
            ParseErrorView,
        >(v.role)) by {
            Self::lemma_slots(v, "role"@);
            <Presence<Option<MailboxRole>> as FieldCodec>::field_round_trip(v.role, "role"@);
        }
        assert(get_field::<Presence<u64>>(o, "sortOrder"@) == Ok::<
            Presence<u64>,
            ParseErrorView,
        >(v.sort_order)) by {
            Self::lemma_slots(v, "sortOrder"@);
            <Presence<u64> as FieldCodec>::field_round_trip(v.sort_order, "sortOrder"@);
        }
        assert(get_field::<Presence<bool>>(o, "mustBeOnlyMailbox"@) == Ok::<
            Presence<bool>,
            ParseErrorView,
        >(v.must_be_only_mailbox)) by {
            Self::lemma_slots(v, "mustBeOnlyMailbox"@);
            <Presence<bool> as FieldCodec>::field_round_trip(
                v.must_be_only_mailbox,
                "mustBeOnlyMailbox"@,
            );
        }
        assert(get_field::<Presence<bool>>(o, "mayReadItems"@) == Ok::<
            Presence<bool>,
            ParseErrorView,
        >(v.may_read_items)) by {
            Self::lemma_slots(v, "mayReadItems"@);
            <Presence<bool> as FieldCodec>::field_round_trip(v.may_read_items, "mayReadItems"@);
        }
        assert(get_field::<Presence<bool>>(o, "mayAddItems"@) == Ok::<
            Presence<bool>,
            ParseErrorView,
        >(v.may_add_items)) by {
            Self::lemma_slots(v, "mayAddItems"@);
            <Presence<bool> as FieldCodec>::field_round_trip(v.may_add_items, "mayAddItems"@);
        }
        assert(get_field::<Presence<bool>>(o, "mayRemoveItems"@) == Ok::<
            Presence<bool>,
            ParseErrorView,
        >(v.may_remove_items)) by {
            Self::lemma_slots(v, "mayRemoveItems"@);
            <Presence<bool> as FieldCodec>::field_round_trip(v.may_remove_items, "mayRemoveItems"@);
        }
        assert(get_field::<Presence<bool>>(o, "mayCreateChild"@) == Ok::<
            Presence<bool>,
            ParseErrorView,
        >(v.may_create_child)) by {
            Self::lemma_slots(v, "mayCreateChild"@);
            <Presence<bool> as FieldCodec>::field_round_trip(v.may_create_child, "mayCreateChild"@);
        }
        assert(get_field::<Presence<bool>>(o, "mayRename"@) == Ok::<
            Presence<bool>,
            ParseErrorView,
        >(v.may_rename)) by {
            Self::lemma_slots(v, "mayRename"@);
            <Presence<bool> as FieldCodec>::field_round_trip(v.may_rename, "mayRename"@);
        }
        assert(get_field::<Presence<bool>>(o, "mayDelete"@) == Ok::<
            Presence<bool>,
            ParseErrorView,
        >(v.may_delete)) by {
            Self::lemma_slots(v, "mayDelete"@);
            <Presence<bool> as FieldCodec>::field_round_trip(v.may_delete, "mayDelete"@);
        }
        assert(get_field::<Presence<u64>>(o, "totalMessages"@) == Ok::<
            Presence<u64>,
            ParseErrorView,
        >(v.total_messages)) by {
            Self::lemma_slots(v, "totalMessages"@);
            <Presence<u64> as FieldCodec>::field_round_trip(v.total_messages, "totalMessages"@);
        }
        assert(get_field::<Presence<u64>>(o, "unreadMessages"@) == Ok::<
            Presence<u64>,
            ParseErrorView,
        >(v.unread_messages)) by {
            Self::lemma_slots(v, "unreadMessages"@);
            <Presence<u64> as FieldCodec>::field_round_trip(v.unread_messages, "unreadMessages"@);
        }
        assert(get_field::<Presence<u64>>(o, "totalThreads"@) == Ok::<
            Presence<u64>,
            ParseErrorView,
        >(v.total_threads)) by {
            Self::lemma_slots(v, "totalThreads"@);
            <Presence<u64> as FieldCodec>::field_round_trip(v.total_threads, "totalThreads"@);
        }
        assert(get_field::<Presence<u64>>(o, "unreadThreads"@) == Ok::<
            Presence<u64>,
            ParseErrorView,
        >(v.unread_threads)) by {
            Self::lemma_slots(v, "unreadThreads"@);
            <Presence<u64> as FieldCodec>::field_round_trip(v.unread_threads, "unreadThreads"@);
        }
    }
}

impl PartialMailbox {
    /// What the written form of `v` holds under `name`.
    pub open spec fn slot(v: PartialMailboxView, name: Seq<char>) -> Option<JsonValue> {
        if name == "id"@ {
            <Presence<String> as ToJsonField>::field_encoded(v.id)
        } else if name == "name"@ {
            <Presence<String> as ToJsonField>::field_encoded(v.name)
        } else if name == "parentId"@ {
            <Presence<Option<String>> as ToJsonField>::field_encoded(v.parent_id)
        } else if name == "role"@ {
            <Presence<Option<MailboxRole>> as ToJsonField>::field_encoded(v.role)
        } else if name == "sortOrder"@ {
            <Presence<u64> as ToJsonField>::field_encoded(v.sort_order)
        } else if name == "mustBeOnlyMailbox"@ {
            <Presence<bool> as ToJsonField>::field_encoded(v.must_be_only_mailbox)
        } else if name == "mayReadItems"@ {
            <Presence<bool> as ToJsonField>::field_encoded(v.may_read_items)
        } else if name == "mayAddItems"@ {
            <Presence<bool> as ToJsonField>::field_encoded(v.may_add_items)
        } else if name == "mayRemoveItems"@ {
            <Presence<bool> as ToJsonField>::field_encoded(v.may_remove_items)
        } else if name == "mayCreateChild"@ {
            <Presence<bool> as ToJsonField>::field_encoded(v.may_create_child)
        } else if name == "mayRename"@ {
            <Presence<bool> as ToJsonField>::field_encoded(v.may_rename)
        } else if name == "mayDelete"@ {
            <Presence<bool> as ToJsonField>::field_encoded(v.may_delete)
        } else if name == "totalMessages"@ {
            <Presence<u64> as ToJsonField>::field_encoded(v.total_messages)
        } else if name == "unreadMessages"@ {
            <Presence<u64> as ToJsonField>::field_encoded(v.unread_messages)
        } else if name == "totalThreads"@ {
            <Presence<u64> as ToJsonField>::field_encoded(v.total_threads)
        } else if name == "unreadThreads"@ {
            <Presence<u64> as ToJsonField>::field_encoded(v.unread_threads)
        } else {
            None
        }
    }

    /// The written form holds each field under its wire name and nothing
    /// under any other name.
    pub proof fn lemma_slots(v: PartialMailboxView, name: Seq<char>)
        ensures
            field_of(Self::encoded(v), name) == Self::slot(v, name),
    {
        Mailbox::lemma_wire_names();
        if name == "id"@ {
            assert(field_of(Self::encoded(v), name) == Self::slot(v, name)) by {
                broadcast use lemma_lookup_put_slot;

            }
        } else if name == "name"@ {
            assert(field_of(Self::encoded(v), name) == Self::slot(v, name)) by {
                broadcast use lemma_lookup_put_slot;

            }
        } else if name == "parentId"@ {
            assert(field_of(Self::encoded(v), name) == Self::slot(v, name)) by {
                broadcast use lemma_lookup_put_slot;

            }
        } else if name == "role"@ {
            assert(field_of(Self::encoded(v), name) == Self::slot(v, name)) by {
                broadcast use lemma_lookup_put_slot;

            }
        } else if name == "sortOrder"@ {
            assert(field_of(Self::encoded(v), name) == Self::slot(v, name)) by {
                broadcast use lemma_lookup_put_slot;

            }
        } else if name == "mustBeOnlyMailbox"@ {
            assert(field_of(Self::encoded(v), name) == Self::slot(v, name)) by {
                broadcast use lemma_lookup_put_slot;

            }
        } else if name == "mayReadItems"@ {
            assert(field_of(Self::encoded(v), name) == Self::slot(v, name)) by {
                broadcast use lemma_lookup_put_slot;

            }
        } else if name == "mayAddItems"@ {
            assert(field_of(Self::encoded(v), name) == Self::slot(v, name)) by {
                broadcast use lemma_lookup_put_slot;

            }
        } else if name == "mayRemoveItems"@ {
            assert(field_of(Self::encoded(v), name) == Self::slot(v, name)) by {
                broadcast use lemma_lookup_put_slot;

            }
        } else if name == "mayCreateChild"@ {
            assert(field_of(Self::encoded(v), name) == Self::slot(v, name)) by {
                broadcast use lemma_lookup_put_slot;

            }
        } else if name == "mayRename"@ {
            assert(field_of(Self::encoded(v), name) == Self::slot(v, name)) by {
                broadcast use lemma_lookup_put_slot;

            }
        } else if name == "mayDelete"@ {
            assert(field_of(Self::encoded(v), name) == Self::slot(v, name)) by {
                broadcast use lemma_lookup_put_slot;

            }
        } else if name == "totalMessages"@ {
            assert(field_of(Self::encoded(v), name) == Self::slot(v, name)) by {
                broadcast use lemma_lookup_put_slot;

            }
        } else if name == "unreadMessages"@ {
            assert(field_of(Self::encoded(v), name) == Self::slot(v, name)) by {
                broadcast use lemma_lookup_put_slot;

            }
        } else if name == "totalThreads"@ {
            assert(field_of(Self::encoded(v), name) == Self::slot(v, name)) by {
                broadcast use lemma_lookup_put_slot;

            }
        } else if name == "unreadThreads"@ {
            assert(field_of(Self::encoded(v), name) == Self::slot(v, name)) by {
                broadcast use lemma_lookup_put_slot;

            }
        } else {
            assert(field_of(Self::encoded(v), name) is None) by {
                broadcast use lemma_lookup_put_slot;

            }
        }
    }
}

impl PartialRecord for PartialMailbox {
    open spec fn id_of(v: PartialMailboxView) -> Presence<Seq<char>> {
        v.id
    }

    fn id(&self) -> (r: Presence<String>) {
        self.id.duplicate()
    }
}

impl Record for Mailbox {
    type Partial = PartialMailbox;

    open spec fn id_of(v: MailboxView) -> Seq<char> {
        v.id
    }

    open spec fn patched(v: MailboxView, p: PartialMailboxView) -> MailboxView {
        MailboxView {
            id: p.id.or(v.id),
            name: p.name.or(v.name),
            parent_id: p.parent_id.or(v.parent_id),
            role: p.role.or(v.role),
            sort_order: p.sort_order.or(v.sort_order),
            must_be_only_mailbox: p.must_be_only_mailbox.or(v.must_be_only_mailbox),
            may_read_items: p.may_read_items.or(v.may_read_items),
            may_add_items: p.may_add_items.or(v.may_add_items),
            may_remove_items: p.may_remove_items.or(v.may_remove_items),
            may_create_child: p.may_create_child.or(v.may_create_child),
            may_rename: p.may_rename.or(v.may_rename),
            may_delete: p.may_delete.or(v.may_delete),
            total_messages: p.total_messages.or(v.total_messages),
            unread_messages: p.unread_messages.or(v.unread_messages),
            total_threads: p.total_threads.or(v.total_threads),
            unread_threads: p.unread_threads.or(v.unread_threads),
        }
    }

    open spec fn projected(v: MailboxView) -> PartialMailboxView {
        PartialMailboxView {
            id: Presence::Present(v.id),
            name: Presence::Present(v.name),
            parent_id: Presence::Present(v.parent_id),
            role: Presence::Present(v.role),
            sort_order: Presence::Present(v.sort_order),
            must_be_only_mailbox: Presence::Present(v.must_be_only_mailbox),
            may_read_items: Presence::Present(v.may_read_items),
            may_add_items: Presence::Present(v.may_add_items),
            may_remove_items: Presence::Present(v.may_remove_items),
            may_create_child: Presence::Present(v.may_create_child),
            may_rename: Presence::Present(v.may_rename),
            may_delete: Presence::Present(v.may_delete),
            total_messages: Presence::Present(v.total_messages),
            unread_messages: Presence::Present(v.unread_messages),
            total_threads: Presence::Present(v.total_threads),
            unread_threads: Presence::Present(v.unread_threads),
        }
    }

    open spec fn filtered(v: MailboxView, properties: Seq<Seq<char>>) -> PartialMailboxView {
        PartialMailboxView {
            id: Presence::Present(v.id),
            name: chosen(properties, "name"@, v.name),
            parent_id: chosen(properties, "parentId"@, v.parent_id),
            role: chosen(properties, "role"@, v.role),
            sort_order: chosen(properties, "sortOrder"@, v.sort_order),
            must_be_only_mailbox: chosen(properties, "mustBeOnlyMailbox"@, v.must_be_only_mailbox),
            may_read_items: chosen(properties, "mayReadItems"@, v.may_read_items),
            may_add_items: chosen(properties, "mayAddItems"@, v.may_add_items),
            may_remove_items: chosen(properties, "mayRemoveItems"@, v.may_remove_items),
            may_create_child: chosen(properties, "mayCreateChild"@, v.may_create_child),
            may_rename: chosen(properties, "mayRename"@, v.may_rename),
            may_delete: chosen(properties, "mayDelete"@, v.may_delete),
            total_messages: chosen(properties, "totalMessages"@, v.total_messages),
            unread_messages: chosen(properties, "unreadMessages"@, v.unread_messages),
            total_threads: chosen(properties, "totalThreads"@, v.total_threads),
            unread_threads: chosen(properties, "unreadThreads"@, v.unread_threads),
        }
    }

    fn id(&self) -> (r: String) {
        self.id.clone()
    }

    fn updated_with(&self, p: &PartialMailbox) -> (r: Self) {
        let id = copy_patched(&p.id, &self.id);
        let name = copy_patched(&p.name, &self.name);
        let parent_id = copy_patched(&p.parent_id, &self.parent_id);
        let role = copy_patched(&p.role, &self.role);
        let sort_order = copy_patched(&p.sort_order, &self.sort_order);
        let must_be_only_mailbox = copy_patched(
            &p.must_be_only_mailbox,
            &self.must_be_only_mailbox,
        );
        let may_read_items = copy_patched(&p.may_read_items, &self.may_read_items);
        let may_add_items = copy_patched(&p.may_add_items, &self.may_add_items);
        let may_remove_items = copy_patched(&p.may_remove_items, &self.may_remove_items);
        let may_create_child = copy_patched(&p.may_create_child, &self.may_create_child);
        let may_rename = copy_patched(&p.may_rename, &self.may_rename);
        let may_delete = copy_patched(&p.may_delete, &self.may_delete);
        let total_messages = copy_patched(&p.total_messages, &self.total_messages);
        let unread_messages = copy_patched(&p.unread_messages, &self.unread_messages);
        let total_threads = copy_patched(&p.total_threads, &self.total_threads);
        let unread_threads = copy_patched(&p.unread_threads, &self.unread_threads);
        Mailbox {
            id,
            name,
            parent_id,
            role,
            sort_order,
            must_be_only_mailbox,
            may_read_items,
            may_add_items,
            may_remove_items,
            may_create_child,
            may_rename,
            may_delete,
            total_messages,
            unread_messages,
            total_threads,
            unread_threads,
        }
    }

    fn to_partial(&self) -> (p: PartialMailbox) {
        let id = Presence::Present(self.id.duplicate());
        let name = Presence::Present(self.name.duplicate());
        let parent_id = Presence::Present(self.parent_id.duplicate());
        let role = Presence::Present(self.role.duplicate());
        let sort_order = Presence::Present(self.sort_order.duplicate());
        let must_be_only_mailbox = Presence::Present(self.must_be_only_mailbox.duplicate());
        let may_read_items = Presence::Present(self.may_read_items.duplicate());
        let may_add_items = Presence::Present(self.may_add_items.duplicate());
        let may_remove_items = Presence::Present(self.may_remove_items.duplicate());
        let may_create_child = Presence::Present(self.may_create_child.duplicate());
        let may_rename = Presence::Present(self.may_rename.duplicate());
        let may_delete = Presence::Present(self.may_delete.duplicate());
        let total_messages = Presence::Present(self.total_messages.duplicate());
        let unread_messages = Presence::Present(self.unread_messages.duplicate());
        let total_threads = Presence::Present(self.total_threads.duplicate());
        let unread_threads = Presence::Present(self.unread_threads.duplicate());
        PartialMailbox {
            id,
            name,
            parent_id,
            role,
            sort_order,
            must_be_only_mailbox,
            may_read_items,
            may_add_items,
            may_remove_items,
            may_create_child,
            may_rename,
            may_delete,
            total_messages,
            unread_messages,
            total_threads,
            unread_threads,
        }
    }

    fn to_filtered_partial(&self, properties: &Vec<String>) -> (p: PartialMailbox) {
        let id = Presence::Present(self.id.duplicate());
        let name = copy_asked(properties, "name", &self.name);
        let parent_id = copy_asked(properties, "parentId", &self.parent_id);
        let role = copy_asked(properties, "role", &self.role);
        let sort_order = copy_asked(properties, "sortOrder", &self.sort_order);
        let must_be_only_mailbox = copy_asked(
            properties,
            "mustBeOnlyMailbox",
            &self.must_be_only_mailbox,
        );
        let may_read_items = copy_asked(properties, "mayReadItems", &self.may_read_items);
        let may_add_items = copy_asked(properties, "mayAddItems", &self.may_add_items);
        let may_remove_items = copy_asked(properties, "mayRemoveItems", &self.may_remove_items);
        let may_create_child = copy_asked(properties, "mayCreateChild", &self.may_create_child);
        let may_rename = copy_asked(properties, "mayRename", &self.may_rename);
        let may_delete = copy_asked(properties, "mayDelete", &self.may_delete);
        let total_messages = copy_asked(properties, "totalMessages", &self.total_messages);
        let unread_messages = copy_asked(properties, "unreadMessages", &self.unread_messages);
        let total_threads = copy_asked(properties, "totalThreads", &self.total_threads);
        let unread_threads = copy_asked(properties, "unreadThreads", &self.unread_threads);
        PartialMailbox {
            id,
            name,
            parent_id,
            role,
            sort_order,
            must_be_only_mailbox,
            may_read_items,
            may_add_items,
            may_remove_items,
            may_create_child,
            may_rename,
            may_delete,
            total_messages,
            unread_messages,
            total_threads,
            unread_threads,
        }
    }

    proof fn law_patch_with_projection(v: MailboxView) {
    }

    proof fn law_patch_overlays(v: MailboxView, p: PartialMailboxView, name: Seq<char>) {
        assert(Self::slot(Self::patched(v, p), name) == match PartialMailbox::slot(p, name) {
            Some(j) => Some(j),
            None => Self::slot(v, name),
        });
        Self::lemma_slots(Self::patched(v, p), name);
        Self::lemma_slots(v, name);
        PartialMailbox::lemma_slots(p, name);
    }

    proof fn law_projection_is_whole(v: MailboxView) {
    }

    proof fn law_filter_selects(v: MailboxView, properties: Seq<Seq<char>>, name: Seq<char>) {
        reveal(chosen);
        assert(PartialMailbox::slot(Self::filtered(v, properties), name) == if name == "id"@
            || properties.contains(name) {
            Self::slot(v, name)
        } else {
            None
        });
        Self::lemma_slots(v, name);
        PartialMailbox::lemma_slots(Self::filtered(v, properties), name);
    }
}

} // verus!
