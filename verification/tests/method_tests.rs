use jmap::contact::{Contact, PartialContact};
use jmap::json::{Json, TextMap};
use jmap::mailbox::Mailbox;
use jmap::method::{
    ClientId, ErrorDescription, GetRequestArgs, GetResponseArgs, GetUpdatesRequestArgs,
    GetUpdatesResponseArgs, MethodError, RequestBatch, RequestMethod, ResponseBatch,
    ResponseMethod, SetError, SetRequestArgs, SetResponseArgs,
};
use jmap::parse::{FromJson, ParseError, Presence, ToJson};
use jmap::record::PartialRecord;
use rustc_serialize::json::Json as Outer;

fn lift(j: &Outer) -> Json {
    match j {
        Outer::Null => Json::Null,
        Outer::Boolean(b) => Json::Boolean(*b),
        Outer::I64(n) => Json::I64(*n),
        Outer::U64(n) => Json::U64(*n),
        Outer::F64(x) => Json::F64(x.to_bits()),
        Outer::String(s) => Json::String(s.clone()),
        Outer::Array(a) => Json::Array(a.iter().map(lift).collect()),
        Outer::Object(o) => {
            let mut m = TextMap::new();
            for (k, v) in o.iter() {
                m.insert(k.clone(), lift(v));
            }
            Json::Object(m)
        }
    }
}

fn lower(j: &Json) -> Outer {
    match j {
        Json::Null => Outer::Null,
        Json::Boolean(b) => Outer::Boolean(*b),
        Json::I64(n) => Outer::I64(*n),
        Json::U64(n) => Outer::U64(*n),
        Json::F64(bits) => Outer::F64(f64::from_bits(*bits)),
        Json::String(s) => Outer::String(s.clone()),
        Json::Array(a) => Outer::Array(a.iter().map(lower).collect()),
        Json::Object(o) => {
            let mut m = std::collections::BTreeMap::new();
            for i in 0..o.len() {
                m.insert(o.key_at(i).clone(), lower(o.value_at(i)));
            }
            Outer::Object(m)
        }
    }
}

/// The JSON value that `text` writes.
fn json(text: &str) -> Json {
    lift(&Outer::from_str(text).unwrap())
}

/// `j` as compact JSON text.
fn text(j: &Json) -> String {
    lower(j).to_string()
}

fn invalid_type(name: &str) -> ParseError {
    ParseError::InvalidJsonType(name.to_string())
}

fn invalid_structure(name: &str) -> ParseError {
    ParseError::InvalidStructure(name.to_string())
}

#[test]
fn get_request_args_round_trip() {
    let input = json(r#"{"ids": ["a","b"], "sinceState": "s1"}"#);
    let args = GetRequestArgs::<Contact>::from_json(&input).unwrap();
    assert_eq!(args.ids, Presence::Present(vec!["a".to_string(), "b".to_string()]));
    assert_eq!(args.properties, Presence::Absent);
    assert_eq!(args.since_state, Presence::Present("s1".to_string()));
    assert_eq!(text(&args.to_json()), r#"{"ids":["a","b"],"sinceState":"s1"}"#);
}

#[test]
fn get_request_args_default_is_all_absent() {
    let args = GetRequestArgs::<Contact>::default();
    assert_eq!(args.ids, Presence::Absent);
    assert_eq!(args.properties, Presence::Absent);
    assert_eq!(args.since_state, Presence::Absent);
    assert_eq!(text(&args.to_json()), "{}");
}

#[test]
fn get_request_args_rejects_non_object() {
    assert_eq!(
        GetRequestArgs::<Contact>::from_json(&json("[]")),
        Err(invalid_type("GetRequestArgs"))
    );
}

#[test]
fn get_request_args_reports_bad_field() {
    assert_eq!(
        GetRequestArgs::<Contact>::from_json(&json(r#"{"ids": "a"}"#)),
        Err(invalid_type("Vec"))
    );
    assert_eq!(
        GetRequestArgs::<Contact>::from_json(&json(r#"{"ids": ["a", 1]}"#)),
        Err(invalid_type("String"))
    );
}

#[test]
fn set_request_with_create() {
    let input = json(r#"{"create": {"tmp1": {"firstName":"Bob"}}}"#);
    let args = SetRequestArgs::<Contact>::from_json(&input).unwrap();
    assert_eq!(args.if_in_state, Presence::Absent);
    assert_eq!(args.update, Presence::Absent);
    assert_eq!(args.destroy, Presence::Absent);
    let create = match &args.create {
        Presence::Present(m) => m,
        Presence::Absent => panic!("create is absent"),
    };
    assert_eq!(create.len(), 1);
    assert_eq!(create.key_at(0), "tmp1");
    let bob = create.get("tmp1").unwrap();
    assert_eq!(bob.id(), Presence::Absent);
    assert_eq!(text(&bob.to_json()), r#"{"firstName":"Bob"}"#);
    assert_eq!(text(&args.to_json()), r#"{"create":{"tmp1":{"firstName":"Bob"}}}"#);
}

#[test]
fn set_request_create_ignores_names_that_are_no_field() {
    let input = json(r#"{"create": {"tmp1": {"name":"Bob"}}}"#);
    let args = SetRequestArgs::<Contact>::from_json(&input).unwrap();
    let create = args.create.as_option().unwrap();
    assert_eq!(create.get("tmp1"), Some(&PartialContact::default()));
}

#[test]
fn set_request_create_keeps_key_order() {
    let input = json(r#"{"create": {"b": {}, "a": {"id": "x"}, "c": {}}}"#);
    let args = SetRequestArgs::<Contact>::from_json(&input).unwrap();
    let create = args.create.as_option().unwrap();
    assert_eq!(create.len(), 3);
    assert_eq!(create.key_at(0), "a");
    assert_eq!(create.key_at(1), "b");
    assert_eq!(create.key_at(2), "c");
    assert_eq!(create.value_at(0).id(), Presence::Present("x".to_string()));
}

#[test]
fn set_request_first_bad_entry_wins() {
    let input = json(r#"{"create": {"a": {}, "b": 7, "c": {"id": 3}}}"#);
    assert_eq!(
        SetRequestArgs::<Contact>::from_json(&input),
        Err(invalid_type("Contact"))
    );
    let input = json(r#"{"create": {"a": {}, "b": {"id": 3}, "c": 7}}"#);
    assert_eq!(
        SetRequestArgs::<Contact>::from_json(&input),
        Err(invalid_type("String"))
    );
    assert_eq!(
        SetRequestArgs::<Contact>::from_json(&json(r#"{"create": []}"#)),
        Err(invalid_type("BTreeMap"))
    );
}

#[test]
fn get_response_args_need_state() {
    assert_eq!(
        GetResponseArgs::<Contact>::from_json(&json(r#"{"list": []}"#)),
        Err(ParseError::MissingField("state".to_string()))
    );
    let args =
        GetResponseArgs::<Contact>::from_json(&json(r#"{"state": "s", "list": null}"#)).unwrap();
    assert_eq!(args.state, "s");
    assert_eq!(args.list, None);
    assert_eq!(args.not_found, None);
    assert_eq!(text(&args.to_json()), r#"{"list":null,"notFound":null,"state":"s"}"#);
}

#[test]
fn get_response_args_round_trip() {
    let input = json(r#"{"state": "s2", "list": [{"id": "c1", "notes": "n"}], "notFound": ["c9"]}"#);
    let args = GetResponseArgs::<Contact>::from_json(&input).unwrap();
    let list = args.list.as_ref().unwrap();
    assert_eq!(list.len(), 1);
    assert_eq!(list[0].id(), Presence::Present("c1".to_string()));
    assert_eq!(args.not_found, Some(vec!["c9".to_string()]));
    let again = GetResponseArgs::<Contact>::from_json(&args.to_json()).unwrap();
    assert_eq!(again, args);
    assert_eq!(
        text(&args.to_json()),
        r#"{"list":[{"id":"c1","notes":"n"}],"notFound":["c9"],"state":"s2"}"#
    );
}

#[test]
fn get_updates_request_args() {
    let input = json(r#"{"sinceState": "s1", "maxChanges": 10, "fetchRecords": true}"#);
    let args = GetUpdatesRequestArgs::<Mailbox>::from_json(&input).unwrap();
    assert_eq!(args.since_state, "s1");
    assert_eq!(args.max_changes, Presence::Present(10));
    assert_eq!(args.fetch_records, Presence::Present(true));
    assert_eq!(args.fetch_record_properties, Presence::Absent);
    assert_eq!(
        text(&args.to_json()),
        r#"{"fetchRecords":true,"maxChanges":10,"sinceState":"s1"}"#
    );
    assert_eq!(
        GetUpdatesRequestArgs::<Mailbox>::from_json(&json(r#"{"maxChanges": 10}"#)),
        Err(ParseError::MissingField("sinceState".to_string()))
    );
    assert_eq!(
        GetUpdatesRequestArgs::<Mailbox>::from_json(&json(r#"{"sinceState": "s", "maxChanges": "x"}"#)),
        Err(invalid_type("u64"))
    );
    assert_eq!(
        GetUpdatesRequestArgs::<Mailbox>::from_json(&json(r#"{"sinceState": "s", "fetchRecords": 1}"#)),
        Err(invalid_type("bool"))
    );
}

#[test]
fn get_updates_response_args() {
    let input =
        json(r#"{"oldState": "s1", "newState": "s2", "changed": ["a"], "removed": []}"#);
    let args = GetUpdatesResponseArgs::<Mailbox>::from_json(&input).unwrap();
    assert_eq!(args.old_state, "s1");
    assert_eq!(args.new_state, "s2");
    assert_eq!(args.changed, vec!["a".to_string()]);
    assert!(args.removed.is_empty());
    assert_eq!(
        text(&args.to_json()),
        r#"{"changed":["a"],"newState":"s2","oldState":"s1","removed":[]}"#
    );
    assert_eq!(GetUpdatesResponseArgs::<Mailbox>::from_json(&args.to_json()), Ok(args));
}

#[test]
fn set_response_args_round_trip() {
    let input = json(
        r#"{"oldState": null, "newState": "s2",
            "created": {"tmp1": {"id": "c7"}},
            "updated": ["c1"], "destroyed": [],
            "notCreated": {"tmp2": {"type": "invalidProperties", "description": "bad"}},
            "notUpdated": {}, "notDestroyed": {"c3": {"type": "notFound"}}}"#,
    );
    let args = SetResponseArgs::<Contact>::from_json(&input).unwrap();
    assert_eq!(args.old_state, None);
    assert_eq!(args.new_state, "s2");
    assert_eq!(args.created.get("tmp1").unwrap().id(), Presence::Present("c7".to_string()));
    assert_eq!(args.updated, vec!["c1".to_string()]);
    assert_eq!(args.not_created.len(), 1);
    assert_eq!(args.not_updated.len(), 0);
    assert_eq!(
        text(&args.not_created.get("tmp2").unwrap().to_json()),
        r#"{"description":"bad","type":"invalidProperties"}"#
    );
    assert_eq!(
        text(&args.not_destroyed.get("c3").unwrap().to_json()),
        r#"{"description":null,"type":"notFound"}"#
    );
    assert_eq!(SetResponseArgs::<Contact>::from_json(&args.to_json()), Ok(args));
}

#[test]
fn set_error_requires_type() {
    assert_eq!(
        SetError::from_json(&json(r#"{"description": "x"}"#)),
        Err(ParseError::MissingField("type".to_string()))
    );
    assert_eq!(SetError::from_json(&json("3")), Err(invalid_type("SetError")));
    let e = SetError::from_json(&json(r#"{"type": "t"}"#)).unwrap();
    assert_eq!(SetError::from_json(&e.to_json()), Ok(e));
}

#[test]
fn error_description_is_text() {
    assert_eq!(
        ErrorDescription::from_json(&json(r#""gone""#)),
        Ok(ErrorDescription("gone".to_string()))
    );
    assert_eq!(ErrorDescription::from_json(&json("1")), Err(invalid_type("String")));
    assert_eq!(text(&ErrorDescription("gone".to_string()).to_json()), r#""gone""#);
}

#[test]
fn method_error_tokens() {
    let cases: Vec<(MethodError, &str, &str)> = vec![
        (MethodError::TooManyChanges, "tooManyChanges", "number of available changes is higher than requested max"),
        (MethodError::CannotCalculateChanges, "cannotCalculateChanges", "can't calculate changes from supplied state"),
        (MethodError::StateMismatch, "stateMismatch", "supplied state does not match current state"),
        (MethodError::AccountNotFound, "accountNotFound", "account not found"),
        (MethodError::AccountNoMail, "accountNoMail", "account does not contain any mail data"),
        (MethodError::AccountReadOnly, "accountReadOnly", "account is read-only"),
        (MethodError::AnchorNotFound, "anchorNotFound", "requested anchor not found in message list"),
        (MethodError::NotFound, "notFound", "requested file not found"),
        (MethodError::InvalidMailboxes, "invalidMailboxes", "mailbox not found or invalid mailbox combination"),
        (MethodError::MaxQuotaReached, "maxQuotaReached", "max quota reached"),
        (MethodError::FromAccountNotFound, "fromAccountNotFound", "from account not found"),
        (MethodError::ToAccountNotFound, "toAccountNotFound", "to account not found"),
        (MethodError::FromAccountNoMail, "fromAccountNoMail", "from account does not contain any mail data"),
        (MethodError::ToAccountNoMail, "toAccountNoMail", "to account does not contain any mail data"),
        (MethodError::AccountNoContacts, "accountNoContacts", "account does not contain any contact data"),
        (MethodError::AccountNoCalendars, "accountNoCalendars", "account does not contain any calendar data"),
        (MethodError::UnsupportedSort, "unsupportedSort", "unable to sort on requested properties"),
    ];
    for (error, token, description) in cases {
        assert_eq!(text(&error.to_json()), format!(r#"{{"type":"{}"}}"#, token));
        assert_eq!(MethodError::from_json(&error.to_json()), Ok(error.clone()));
        assert_eq!(error.description(), description);
        assert_eq!(error.to_string(), description);
    }
}

#[test]
fn method_error_with_description() {
    let described = |d: &str| Presence::Present(ErrorDescription(d.to_string()));
    let e = MethodError::UnknownMethod(described("frob"));
    assert_eq!(text(&e.to_json()), r#"{"description":"frob","type":"unknownMethod"}"#);
    assert_eq!(MethodError::from_json(&e.to_json()), Ok(e.clone()));
    assert_eq!(e.description(), "unknown method");
    assert_eq!(e.to_string(), "unknown method (frob)");

    let e = MethodError::InvalidArguments(described("ids"));
    assert_eq!(text(&e.to_json()), r#"{"description":"ids","type":"invalidArguments"}"#);
    assert_eq!(MethodError::from_json(&e.to_json()), Ok(e.clone()));
    assert_eq!(e.to_string(), "invalid arguments for method (ids)");

    let e = MethodError::InternalError(described("oops"));
    assert_eq!(text(&e.to_json()), r#"{"description":"oops","type":"internalError"}"#);
    assert_eq!(MethodError::from_json(&e.to_json()), Ok(e.clone()));
    assert_eq!(e.to_string(), "internal error (oops)");

    let e = MethodError::InternalError(Presence::Absent);
    assert_eq!(text(&e.to_json()), r#"{"type":"internalError"}"#);
    assert_eq!(MethodError::from_json(&e.to_json()), Ok(e.clone()));
    assert_eq!(e.to_string(), "internal error");
}

#[test]
fn method_error_decode_failures() {
    assert_eq!(MethodError::from_json(&json("[]")), Err(invalid_type("MethodError")));
    assert_eq!(
        MethodError::from_json(&json("{}")),
        Err(ParseError::MissingField("type".to_string()))
    );
    assert_eq!(MethodError::from_json(&json(r#"{"type": 1}"#)), Err(invalid_type("String")));
    assert_eq!(
        MethodError::from_json(&json(r#"{"type": "nope"}"#)),
        Err(invalid_structure("MethodError"))
    );
    assert_eq!(
        MethodError::from_json(&json(r#"{"type": "unknownMethod", "description": 4}"#)),
        Err(invalid_type("String"))
    );
    // a description is read only for the kinds that carry one
    assert_eq!(
        MethodError::from_json(&json(r#"{"type": "notFound", "description": 4}"#)),
        Ok(MethodError::NotFound)
    );
}

#[test]
fn method_dispatch_fallback() {
    let input = json(r#"["bogusMethodName", {}, "client-42"]"#);
    assert_eq!(
        RequestMethod::from_json(&input),
        Ok(RequestMethod::RequestError(
            MethodError::UnknownMethod(Presence::Present(ErrorDescription(
                "bogusMethodName".to_string()
            ))),
            "client-42".to_string()
        ))
    );
    assert_eq!(
        ResponseMethod::from_json(&input),
        Ok(ResponseMethod::ResponseError(
            MethodError::UnknownMethod(Presence::Present(ErrorDescription(
                "bogusMethodName".to_string()
            ))),
            "client-42".to_string()
        ))
    );
}

#[test]
fn method_dispatch_fallback_ignores_arguments() {
    let input = json(r#"["getMessages", 17, "c"]"#);
    let method = RequestMethod::from_json(&input).unwrap();
    assert_eq!(method.client_id(), "c");
    assert_eq!(
        text(&method.to_json()),
        r#"["error",{"description":"getMessages","type":"unknownMethod"},"c"]"#
    );
}

#[test]
fn method_structure_failures() {
    assert_eq!(RequestMethod::from_json(&json("{}")), Err(invalid_type("RequestMethod")));
    assert_eq!(
        RequestMethod::from_json(&json(r#"["getContacts", {}]"#)),
        Err(invalid_structure("RequestMethod"))
    );
    assert_eq!(
        RequestMethod::from_json(&json(r#"["getContacts", {}, "c", 1]"#)),
        Err(invalid_structure("RequestMethod"))
    );
    assert_eq!(
        RequestMethod::from_json(&json(r#"[1, {}, "c"]"#)),
        Err(invalid_type("String"))
    );
    assert_eq!(
        RequestMethod::from_json(&json(r#"["getContacts", {}, 2]"#)),
        Err(invalid_type("String"))
    );
    assert_eq!(
        RequestMethod::from_json(&json(r#"["getContacts", [], "c"]"#)),
        Err(invalid_type("GetRequestArgs"))
    );
    assert_eq!(ResponseMethod::from_json(&json("7")), Err(invalid_type("ResponseMethod")));
    assert_eq!(
        ResponseMethod::from_json(&json("[]")),
        Err(invalid_structure("ResponseMethod"))
    );
    // the name and the client id are read before the arguments
    assert_eq!(
        RequestMethod::from_json(&json(r#"["getContacts", [], 2]"#)),
        Err(invalid_type("String"))
    );
}

#[test]
fn request_method_names() {
    let names = [
        "getCalendars", "getCalendarUpdates", "setCalendars",
        "getCalendarEvents", "getCalendarEventUpdates", "setCalendarEvents",
        "getContacts", "getContactUpdates", "setContacts",
        "getContactGroups", "getContactGroupUpdates", "setContactGroups",
        "getMailboxes", "getMailboxUpdates", "setMailboxes",
    ];
    for name in names {
        let args = if name.ends_with("Updates") { r#"{"sinceState":"s"}"# } else { "{}" };
        let wire = format!(r#"["{}",{},"id-1"]"#, name, args);
        let method = RequestMethod::from_json(&json(&wire)).unwrap();
        assert!(!matches!(method, RequestMethod::RequestError(_, _)), "{}", name);
        assert_eq!(method.client_id(), "id-1");
        assert_eq!(text(&method.to_json()), wire);
        assert_eq!(RequestMethod::from_json(&method.to_json()), Ok(method));
    }
}

#[test]
fn response_method_names() {
    let get = r#"{"list":null,"notFound":null,"state":"s"}"#;
    let updates = r#"{"changed":[],"newState":"b","oldState":"a","removed":[]}"#;
    let set = r#"{"created":{},"destroyed":[],"newState":"b","notCreated":{},"notDestroyed":{},"notUpdated":{},"oldState":null,"updated":[]}"#;
    let cases = [
        ("calendars", get), ("calendarUpdates", updates), ("calendarsSet", set),
        ("calendarEvents", get), ("calendarEventUpdates", updates), ("calendarEventsSet", set),
        ("contacts", get), ("contactUpdates", updates), ("contactsSet", set),
        ("contactGroups", get), ("contactGroupUpdates", updates), ("contactGroupsSet", set),
        ("mailboxes", get), ("mailboxUpdates", updates), ("mailboxesSet", set),
    ];
    for (name, args) in cases {
        let wire = format!(r#"["{}",{},"id-2"]"#, name, args);
        let method = ResponseMethod::from_json(&json(&wire)).unwrap();
        assert!(!matches!(method, ResponseMethod::ResponseError(_, _)), "{}", name);
        assert_eq!(method.client_id(), "id-2");
        assert_eq!(text(&method.to_json()), wire);
        assert_eq!(ResponseMethod::from_json(&method.to_json()), Ok(method));
    }
}

#[test]
fn request_method_variants() {
    let m = RequestMethod::from_json(&json(r#"["getContacts", {"ids": ["a"]}, "c1"]"#)).unwrap();
    match &m {
        RequestMethod::GetContacts(args, id) => {
            assert_eq!(args.ids, Presence::Present(vec!["a".to_string()]));
            assert_eq!(id, "c1");
        }
        other => panic!("wrong variant: {:?}", other),
    }
    let m = RequestMethod::from_json(&json(r#"["setMailboxes", {"destroy": ["m1"]}, "c2"]"#))
        .unwrap();
    match &m {
        RequestMethod::SetMailboxes(args, id) => {
            assert_eq!(args.destroy, Presence::Present(vec!["m1".to_string()]));
            assert_eq!(id, "c2");
        }
        other => panic!("wrong variant: {:?}", other),
    }
}

#[test]
fn error_method_round_trip() {
    let wire = r#"["error",{"type":"stateMismatch"},"c9"]"#;
    let m = RequestMethod::from_json(&json(wire)).unwrap();
    assert_eq!(m, RequestMethod::RequestError(MethodError::StateMismatch, "c9".to_string()));
    assert_eq!(text(&m.to_json()), wire);
    let m = ResponseMethod::from_json(&json(wire)).unwrap();
    assert_eq!(m, ResponseMethod::ResponseError(MethodError::StateMismatch, "c9".to_string()));
    assert_eq!(text(&m.to_json()), wire);
    assert_eq!(
        RequestMethod::from_json(&json(r#"["error",{"type":"what"},"c9"]"#)),
        Err(invalid_structure("MethodError"))
    );
}

#[test]
fn batch_with_mixed_validity() {
    let input = json(r#"[["getContacts", {}, "c1"], ["frobnicate", {}, "c2"]]"#);
    let batch = RequestBatch::from_json(&input).unwrap();
    assert_eq!(batch.0.len(), 2);
    assert!(matches!(batch.0[0], RequestMethod::GetContacts(_, _)));
    assert_eq!(batch.0[0].client_id(), "c1");
    assert_eq!(
        batch.0[1],
        RequestMethod::RequestError(
            MethodError::UnknownMethod(Presence::Present(ErrorDescription(
                "frobnicate".to_string()
            ))),
            "c2".to_string()
        )
    );
}

#[test]
fn batch_keeps_order_and_round_trips() {
    let wire = r#"[["getMailboxes",{},"a"],["getContacts",{"ids":["x"]},"b"],["getCalendars",{},"c"]]"#;
    let batch = RequestBatch::from_json(&json(wire)).unwrap();
    let ids: Vec<String> = batch.0.iter().map(|m| m.client_id()).collect();
    assert_eq!(ids, vec!["a", "b", "c"]);
    assert_eq!(text(&batch.to_json()), wire);
    assert_eq!(RequestBatch::from_json(&batch.to_json()), Ok(batch));
}

#[test]
fn batch_failures() {
    assert_eq!(RequestBatch::from_json(&json("{}")), Err(invalid_type("Vec")));
    assert_eq!(
        RequestBatch::from_json(&json(r#"[["getContacts", {}, "c1"], ["x"], [1, 2, 3]]"#)),
        Err(invalid_structure("RequestMethod"))
    );
    assert_eq!(ResponseBatch::from_json(&json("null")), Err(invalid_type("Vec")));
    assert_eq!(RequestBatch::default().0.len(), 0);
    assert_eq!(text(&ResponseBatch::default().to_json()), "[]");
}

#[test]
fn response_batch_round_trip() {
    let wire = r#"[["contacts",{"list":[{"id":"c1"}],"notFound":null,"state":"s"},"a"],["error",{"type":"notFound"},"b"]]"#;
    let batch = ResponseBatch::from_json(&json(wire)).unwrap();
    assert_eq!(batch.0.len(), 2);
    assert_eq!(text(&batch.to_json()), wire);
}
