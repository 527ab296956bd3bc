use jmap::json::{Json, TextMap};
use jmap::message::{Attachment, Emailer, Message, PartialMessage};
use jmap::message_copy::{CopyMessagesRequestArgs, CopyMessagesResponseArgs, MessageCopy};
use jmap::message_import::{ImportMessagesRequestArgs, ImportMessagesResponseArgs, MessageImport};
use jmap::message_list::{
    AddedItem, Filter, FilterCondition, FilterOperator, GetMessageListRequestArgs,
    GetMessageListResponseArgs, GetMessageListUpdatesRequestArgs,
    GetMessageListUpdatesResponseArgs, RemovedItem,
};
use jmap::message_report::{ReportMessagesRequestArgs, ReportMessagesResponseArgs};
use jmap::parse::{Duplicate, FromJson, ParseError, Presence, ToJson};
use jmap::record::{PartialRecord, Record};
use rustc_serialize::json::Json as Outer;

fn lift(j: &Outer) -> Json {
    match j {
        Outer::Null => Json::Null,
        Outer::Boolean(b) => Json::Boolean(*b),
        Outer::I64(n) => Json::I64(*n),
        Outer::U64(n) => Json::U64(*n),
        Outer::F64(x) => Json::F64(x.to_bits()),
        Outer::String(s) => Json::String(s.clone()),
        Outer::Array(a) => Json::Array(a.iter().map(lift).collect()),
        Outer::Object(o) => {
            let mut m = TextMap::new();
            for (k, v) in o.iter() {
                m.insert(k.clone(), lift(v));
            }
            Json::Object(m)
        }
    }
}

fn lower(j: &Json) -> Outer {
    match j {
        Json::Null => Outer::Null,
        Json::Boolean(b) => Outer::Boolean(*b),
        Json::I64(n) => Outer::I64(*n),
        Json::U64(n) => Outer::U64(*n),
        Json::F64(bits) => Outer::F64(f64::from_bits(*bits)),
        Json::String(s) => Outer::String(s.clone()),
        Json::Array(a) => Outer::Array(a.iter().map(lower).collect()),
        Json::Object(o) => {
            let mut m = std::collections::BTreeMap::new();
            for i in 0..o.len() {
                m.insert(o.key_at(i).clone(), lower(o.value_at(i)));
            }
            Outer::Object(m)
        }
    }
}

/// The JSON value that `text` writes.
fn json(text: &str) -> Json {
    lift(&Outer::from_str(text).unwrap())
}

/// `j` as compact JSON text.
fn text(j: &Json) -> String {
    lower(j).to_string()
}

fn invalid_type(name: &str) -> ParseError {
    ParseError::InvalidJsonType(name.to_string())
}

fn invalid_structure(name: &str) -> ParseError {
    ParseError::InvalidStructure(name.to_string())
}

fn keys(j: &Json) -> Vec<String> {
    match j {
        Json::Object(o) => (0..o.len()).map(|i| o.key_at(i).clone()).collect(),
        _ => panic!("not an object"),
    }
}

fn field(j: &Json, name: &str) -> Option<Json> {
    match j {
        Json::Object(o) => o.get(name).cloned(),
        _ => panic!("not an object"),
    }
}

fn message_text(id: &str, attached: &str) -> String {
    format!(
        r#"{{"id": "{}", "blobId": "b", "threadId": "t", "mailboxIds": ["m1"],
            "inReplyToMessageId": null, "isUnread": true, "isFlagged": false,
            "isAnswered": false, "isDraft": false, "hasAttachment": true,
            "headers": {{"Subject": "Hi", "From": "ann@example.org"}},
            "sender": null, "from": [{{"name": "Ann", "email": "ann@example.org"}}],
            "to": [], "cc": null, "bcc": null, "replyTo": null,
            "subject": "Hi", "date": "2020-03-02T09:00:00Z", "size": 1024, "preview": "Hi there",
            "textBody": "Hi there", "htmlBody": null,
            "attachments": [{{"blobId": "a1", "type": "image/png", "name": "p.png", "size": 9,
                              "cid": null, "isInline": false, "width": 3, "height": null}}],
            "attachedMessages": {}}}"#,
        id, attached
    )
}

fn written(id: &str, attached: &str) -> String {
    format!(
        r#"{{"attachedMessages":{},"attachments":[{{"blobId":"a1","cid":null,"height":null,"isInline":false,"name":"p.png","size":9,"type":"image/png","width":3}}],"bcc":null,"blobId":"b","cc":null,"date":"2020-03-02T09:00:00Z","from":[{{"email":"ann@example.org","name":"Ann"}}],"hasAttachment":true,"headers":{{"From":"ann@example.org","Subject":"Hi"}},"htmlBody":null,"id":"{}","inReplyToMessageId":null,"isAnswered":false,"isDraft":false,"isFlagged":false,"isUnread":true,"mailboxIds":["m1"],"preview":"Hi there","replyTo":null,"sender":null,"size":1024,"subject":"Hi","textBody":"Hi there","threadId":"t","to":[]}}"#,
        attached, id
    )
}

#[test]
fn emailer_and_attachment() {
    let e = Emailer::from_json(&json(r#"{"name": "Ann", "email": "ann@example.org"}"#)).unwrap();
    assert_eq!(text(&e.to_json()), r#"{"email":"ann@example.org","name":"Ann"}"#);
    assert_eq!(Emailer::from_json(&e.to_json()), Ok(e));
    assert_eq!(
        Emailer::from_json(&json(r#"{"name": "Ann"}"#)),
        Err(ParseError::MissingField("email".to_string()))
    );
    assert_eq!(Emailer::from_json(&json("[]")), Err(invalid_type("Emailer")));
    let wire = r#"{"blobId":"a1","cid":"c","height":4,"isInline":true,"name":"p.png","size":9,"type":"image/png","width":null}"#;
    let a = Attachment::from_json(&json(wire)).unwrap();
    assert_eq!(text(&a.to_json()), wire);
    assert_eq!(Attachment::from_json(&a.to_json()), Ok(a));
    assert_eq!(Attachment::from_json(&json("1")), Err(invalid_type("Attachment")));
}

#[test]
fn message_round_trip() {
    let m = Message::from_json(&json(&message_text("m-1", "null"))).unwrap();
    assert_eq!(m.id(), "m-1");
    assert_eq!(text(&m.to_json()), written("m-1", "null"));
    assert_eq!(Message::from_json(&m.to_json()), Ok(m.clone()));
    assert_eq!(m.clone(), m);
    assert_eq!(m.duplicate(), m);
}

#[test]
fn message_with_attached_messages() {
    let leaf = message_text("leaf", "null");
    let middle = message_text("middle", &format!(r#"{{"z": {}, "a": {}}}"#, leaf, leaf));
    let top = message_text("top", &format!(r#"{{"only": {}}}"#, middle));
    let m = Message::from_json(&json(&top)).unwrap();
    let leaf_written = written("leaf", "null");
    let middle_written =
        written("middle", &format!(r#"{{"a":{},"z":{}}}"#, leaf_written, leaf_written));
    let top_written = written("top", &format!(r#"{{"only":{}}}"#, middle_written));
    assert_eq!(text(&m.to_json()), top_written);
    assert_eq!(Message::from_json(&m.to_json()), Ok(m.clone()));
    assert_eq!(m.clone(), m);
    assert_eq!(m.updated_with(&m.to_partial()), m);
    assert_eq!(text(&m.to_partial().to_json()), top_written);
    let p = m.to_filtered_partial(&vec!["attachedMessages".to_string()]);
    assert_eq!(
        text(&p.to_json()),
        format!(r#"{{"attachedMessages":{{"only":{}}},"id":"top"}}"#, middle_written)
    );
}

#[test]
fn message_decode_failures() {
    assert_eq!(Message::from_json(&json("[]")), Err(invalid_type("Message")));
    assert_eq!(Message::from_json(&json("{}")), Err(ParseError::MissingField("id".to_string())));
    assert_eq!(
        Message::from_json(&json(&message_text("m", "[]"))),
        Err(invalid_type("BTreeMap"))
    );
    assert_eq!(
        Message::from_json(&json(&message_text("m", r#"{"a": 1}"#))),
        Err(invalid_type("Message"))
    );
    let bad_leaf = message_text("leaf", "7");
    let good_leaf = message_text("leaf", "null");
    assert_eq!(
        Message::from_json(&json(&message_text(
            "m",
            &format!(r#"{{"a": {}, "b": {}, "c": 1}}"#, good_leaf, bad_leaf)
        ))),
        Err(invalid_type("BTreeMap"))
    );
    assert_eq!(
        Message::from_json(&json(&message_text("m", "null").replace("2020-03-02T09:00:00Z", "now"))),
        Err(invalid_structure("Date"))
    );
    assert_eq!(
        Message::from_json(&json(&message_text("m", "null").replace(r#""headers": {"Subject": "Hi", "From": "ann@example.org"},"#, ""))),
        Err(ParseError::MissingField("headers".to_string()))
    );
}

#[test]
fn message_patches() {
    let m = Message::from_json(&json(&message_text("m-1", "null"))).unwrap();
    let attached = message_text("inner", "null");
    let p = PartialMessage::from_json(&json(&format!(
        r#"{{"isUnread": false, "attachedMessages": {{"x": {}}}, "headers": {{}}}}"#,
        attached
    )))
    .unwrap();
    assert_eq!(p.id(), Presence::Absent);
    let before = m.to_json();
    let after = m.updated_with(&p).to_json();
    assert_eq!(keys(&before), keys(&after));
    for name in keys(&before) {
        match name.as_str() {
            "isUnread" => assert_eq!(field(&after, &name), Some(Json::Boolean(false))),
            "headers" => assert_eq!(field(&after, &name), Some(Json::Object(TextMap::new()))),
            "attachedMessages" => assert_eq!(
                field(&after, &name).map(|j| text(&j)),
                Some(format!(r#"{{"x":{}}}"#, written("inner", "null")))
            ),
            _ => assert_eq!(field(&after, &name), field(&before, &name), "{}", name),
        }
    }
    assert_eq!(m.updated_with(&PartialMessage::default()), m);
    assert_eq!(PartialMessage::from_json(&p.to_json()), Ok(p));
    assert_eq!(PartialMessage::from_json(&json("0")), Err(invalid_type("Message")));
}

#[test]
fn message_default() {
    let m = Message::default();
    assert_eq!(m.id().len(), 36);
    let w = m.to_json();
    assert_eq!(keys(&w).len(), 25);
    assert_eq!(field(&w, "attachedMessages"), Some(Json::Null));
    assert_eq!(field(&w, "headers"), Some(Json::Object(TextMap::new())));
    assert_eq!(field(&w, "date"), Some(Json::String("1970-01-01T00:00:00Z".to_string())));
    assert_eq!(Message::from_json(&w), Ok(m));
    assert_eq!(text(&PartialMessage::default().to_json()), "{}");
}

#[test]
fn filter_condition() {
    let c = FilterCondition::from_json(&json(
        r#"{"inMailboxes": ["m1"], "before": "2020-03-02T09:00:00Z", "minSize": 10,
            "isUnread": true, "text": "hello", "header": ["X-Spam", "yes"], "unknown": 1}"#,
    ))
    .unwrap();
    assert_eq!(
        text(&c.to_json()),
        r#"{"before":"2020-03-02T09:00:00Z","header":["X-Spam","yes"],"inMailboxes":["m1"],"isUnread":true,"minSize":10,"text":"hello"}"#
    );
    assert_eq!(FilterCondition::from_json(&c.to_json()), Ok(c));
    assert_eq!(text(&FilterCondition::default().to_json()), "{}");
    assert_eq!(
        FilterCondition::from_json(&json(r#"{"notInnMailboxes": ["a"], "notInMailboxes": 3}"#))
            .map(|c| text(&c.to_json())),
        Ok(r#"{"notInnMailboxes":["a"]}"#.to_string())
    );
    assert_eq!(
        FilterCondition::from_json(&json(r#"{"maxSize": "big"}"#)),
        Err(invalid_type("u64"))
    );
    assert_eq!(FilterCondition::from_json(&json("[]")), Err(invalid_type("FilterCondition")));
}

#[test]
fn filter_is_an_operator_or_a_condition() {
    let f = Filter::from_json(&json(r#"{"text": "hello"}"#)).unwrap();
    assert!(matches!(f, Filter::Condition(_)));
    assert_eq!(text(&f.to_json()), r#"{"text":"hello"}"#);
    let f = Filter::from_json(&json("{}")).unwrap();
    assert!(matches!(f, Filter::Condition(_)));
    let wire = r#"{"conditions":[{"isUnread":true},{"conditions":[{"text":"a"},{"conditions":[],"operator":"NOT"}],"operator":"OR"}],"operator":"AND"}"#;
    let f = Filter::from_json(&json(wire)).unwrap();
    assert!(matches!(f, Filter::Operator(_)));
    assert_eq!(text(&f.to_json()), wire);
    assert_eq!(Filter::from_json(&f.to_json()), Ok(f.clone()));
    assert_eq!(f.clone(), f);
    assert_eq!(f.duplicate(), f);
}

#[test]
fn filter_failures() {
    assert_eq!(Filter::from_json(&json("[]")), Err(invalid_type("Filter")));
    assert_eq!(Filter::from_json(&json(r#""x""#)), Err(invalid_type("Filter")));
    // an object with the key `operator` is an operator, whatever the key holds
    assert_eq!(
        Filter::from_json(&json(r#"{"operator": null, "text": "x"}"#)),
        Err(invalid_type("String"))
    );
    assert_eq!(
        Filter::from_json(&json(r#"{"operator": "AND"}"#)),
        Err(ParseError::MissingField("conditions".to_string()))
    );
    assert_eq!(
        Filter::from_json(&json(r#"{"operator": "AND", "conditions": {}}"#)),
        Err(invalid_type("Vec"))
    );
    assert_eq!(
        Filter::from_json(&json(r#"{"operator": "AND", "conditions": [{}, 1, "x"]}"#)),
        Err(invalid_type("Filter"))
    );
    assert_eq!(
        Filter::from_json(&json(
            r#"{"operator": "AND", "conditions": [{"operator": "OR", "conditions": [{"minSize": true}]}, 1]}"#
        )),
        Err(invalid_type("u64"))
    );
    assert_eq!(FilterOperator::from_json(&json("1")), Err(invalid_type("FilterOperator")));
    assert_eq!(
        text(&FilterOperator::default().to_json()),
        r#"{"conditions":[],"operator":""}"#
    );
}

#[test]
fn list_items() {
    let r = RemovedItem::from_json(&json(r#"{"messageId": "m", "threadId": "t"}"#)).unwrap();
    assert_eq!(text(&r.to_json()), r#"{"messageId":"m","threadId":"t"}"#);
    let a = AddedItem::from_json(&json(r#"{"messageId": "m", "threadId": "t", "index": 4}"#)).unwrap();
    assert_eq!(text(&a.to_json()), r#"{"index":4,"messageId":"m","threadId":"t"}"#);
    assert_eq!(
        AddedItem::from_json(&json(r#"{"messageId": "m", "threadId": "t"}"#)),
        Err(ParseError::MissingField("index".to_string()))
    );
    assert_eq!(RemovedItem::from_json(&json("1")), Err(invalid_type("RemovedItem")));
    assert_eq!(AddedItem::from_json(&json("1")), Err(invalid_type("AddedItem")));
}

#[test]
fn message_list_args() {
    let a = GetMessageListRequestArgs::from_json(&json(
        r#"{"accountId": "a", "sort": ["date desc"], "anchorOffset": -3, "limit": 10, "fetchThreads": false}"#,
    ))
    .unwrap();
    assert_eq!(a.anchor_offset, Presence::Present(-3));
    assert_eq!(a.limit, Presence::Present(10));
    assert_eq!(a.position, Presence::Absent);
    assert_eq!(
        text(&a.to_json()),
        r#"{"accountId":"a","anchorOffset":-3,"fetchThreads":false,"limit":10,"sort":["date desc"]}"#
    );
    assert_eq!(GetMessageListRequestArgs::from_json(&a.to_json()), Ok(a));
    assert_eq!(
        GetMessageListRequestArgs::from_json(&json("[]")),
        Err(invalid_type("GetMessageListRequestArgs"))
    );
    let wire = r#"{"accountId":"a","can_calculate_updates":true,"collapseThreads":false,"message_ids":["m"],"position":0,"sort":[],"state":"s","thread_ids":["t"],"total":1}"#;
    let r = GetMessageListResponseArgs::from_json(&json(wire)).unwrap();
    assert_eq!(r.message_ids, vec!["m".to_string()]);
    assert_eq!(text(&r.to_json()), wire);
    assert_eq!(
        GetMessageListResponseArgs::from_json(&json(r#"{"accountId": "a"}"#)),
        Err(ParseError::MissingField("sort".to_string()))
    );
}

#[test]
fn message_list_updates_args() {
    let a = GetMessageListUpdatesRequestArgs::from_json(&json(r#"{"sinceState": "s", "maxChanges": 5}"#))
        .unwrap();
    assert_eq!(a.since_state, "s");
    assert_eq!(text(&a.to_json()), r#"{"maxChanges":5,"sinceState":"s"}"#);
    assert_eq!(
        GetMessageListUpdatesRequestArgs::from_json(&json("{}")),
        Err(ParseError::MissingField("sinceState".to_string()))
    );
    assert_eq!(
        GetMessageListUpdatesRequestArgs::from_json(&json("1")),
        Err(invalid_type("GetMessageListRequestArgs"))
    );
    let wire = r#"{"accountId":"a","added":[{"index":0,"messageId":"m2","threadId":"t2"}],"collapseThreads":true,"newState":"s2","oldState":"s1","removed":[{"messageId":"m1","threadId":"t1"}],"sort":["x"],"total":3}"#;
    let r = GetMessageListUpdatesResponseArgs::from_json(&json(wire)).unwrap();
    assert_eq!(r.upto_message_id, Presence::Absent);
    assert_eq!(text(&r.to_json()), wire);
    assert_eq!(GetMessageListUpdatesResponseArgs::from_json(&r.to_json()), Ok(r));
    assert_eq!(
        GetMessageListUpdatesResponseArgs::from_json(&json("1")),
        Err(invalid_type("GetMessageListResponseArgs"))
    );
}

#[test]
fn copy_messages_args_share_one_account_name() {
    let a = CopyMessagesRequestArgs::from_json(&json(
        r#"{"accountId": "acc", "messages": {"k": {"messageId": "m", "mailboxIds": ["x"],
            "isUnread": true, "isFlagged": false, "isAnswered": false, "isDraft": false}}}"#,
    ))
    .unwrap();
    assert_eq!(a.from_account_id, Presence::Present("acc".to_string()));
    assert_eq!(a.to_account_id, Presence::Present("acc".to_string()));
    assert_eq!(a.messages.len(), 1);
    assert_eq!(
        text(&a.to_json()),
        r#"{"accountId":"acc","messages":{"k":{"isAnswered":false,"isDraft":false,"isFlagged":false,"isUnread":true,"mailboxIds":["x"],"messageId":"m"}}}"#
    );
    assert_eq!(CopyMessagesRequestArgs::from_json(&a.to_json()), Ok(a.clone()));
    // the second account is written over the first
    let mut b = a.clone();
    b.from_account_id = Presence::Present("from".to_string());
    b.to_account_id = Presence::Present("to".to_string());
    assert_eq!(field(&b.to_json(), "accountId"), Some(Json::String("to".to_string())));
    b.to_account_id = Presence::Absent;
    assert_eq!(field(&b.to_json(), "accountId"), Some(Json::String("from".to_string())));
    assert_eq!(
        CopyMessagesRequestArgs::from_json(&json("{}")),
        Err(ParseError::MissingField("messages".to_string()))
    );
    assert_eq!(MessageCopy::from_json(&json("1")), Err(invalid_type("MessageCopy")));
}

#[test]
fn copy_messages_response_args() {
    let r = CopyMessagesResponseArgs::from_json(&json(
        r#"{"accountId": "acc", "created": {"k": {"id": "new"}},
            "notCreated": {"j": {"type": "notFound", "description": null}}}"#,
    ))
    .unwrap();
    assert_eq!(r.from_account_id, "acc");
    assert_eq!(r.to_account_id, "acc");
    assert_eq!(r.created.get("k").unwrap().id(), Presence::Present("new".to_string()));
    assert_eq!(
        text(&r.to_json()),
        r#"{"accountId":"acc","created":{"k":{"id":"new"}},"notCreated":{"j":{"description":null,"type":"notFound"}}}"#
    );
    assert_eq!(CopyMessagesResponseArgs::from_json(&r.to_json()), Ok(r));
    assert_eq!(
        CopyMessagesResponseArgs::from_json(&json("[]")),
        Err(invalid_type("CopyMessagesResponseArgs"))
    );
}

#[test]
fn import_messages_args() {
    let a = ImportMessagesRequestArgs::from_json(&json(
        r#"{"messages": {"k": {"blobId": "b", "mailboxIds": [], "isUnread": false,
            "isFlagged": true, "isAnswered": false, "isDraft": true}}}"#,
    ))
    .unwrap();
    assert_eq!(a.account_id, Presence::Absent);
    assert_eq!(
        text(&a.to_json()),
        r#"{"messages":{"k":{"blobId":"b","isAnswered":false,"isDraft":true,"isFlagged":true,"isUnread":false,"mailboxIds":[]}}}"#
    );
    assert_eq!(ImportMessagesRequestArgs::from_json(&a.to_json()), Ok(a));
    assert_eq!(MessageImport::from_json(&json("{}")), Err(ParseError::MissingField("blobId".to_string())));
    let r = ImportMessagesResponseArgs::from_json(&json(
        r#"{"accountId": "acc", "created": {}, "notCreated": {}}"#,
    ))
    .unwrap();
    assert_eq!(text(&r.to_json()), r#"{"accountId":"acc","created":{},"notCreated":{}}"#);
    assert_eq!(
        ImportMessagesResponseArgs::from_json(&json(r#"{"accountId": "acc", "created": {"k": 1}, "notCreated": {}}"#)),
        Err(invalid_type("Message"))
    );
}

#[test]
fn report_messages_args() {
    let a = ReportMessagesRequestArgs::from_json(&json(r#"{"messageIds": ["m"], "asSpam": true}"#)).unwrap();
    assert_eq!(a.message_ids, vec!["m".to_string()]);
    assert!(a.as_spam);
    assert_eq!(text(&a.to_json()), r#"{"asSpam":true,"messageIds":["m"]}"#);
    assert_eq!(ReportMessagesRequestArgs::from_json(&a.to_json()), Ok(a));
    let r = ReportMessagesResponseArgs::from_json(&json(
        r#"{"accountId": "acc", "asSpam": false, "reported": ["m"]}"#,
    ))
    .unwrap();
    assert_eq!(r.not_found, None);
    assert_eq!(
        text(&r.to_json()),
        r#"{"accountId":"acc","asSpam":false,"notFound":null,"reported":["m"]}"#
    );
    assert_eq!(
        ReportMessagesResponseArgs::from_json(&json("{}")),
        Err(ParseError::MissingField("accountId".to_string()))
    );
    assert_eq!(
        ReportMessagesRequestArgs::from_json(&json("1")),
        Err(invalid_type("ReportMessagesRequestArgs"))
    );
}
