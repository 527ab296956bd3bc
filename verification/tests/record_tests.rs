use jmap::calendar::{Calendar, PartialCalendar};
use jmap::calendar_event::{
    Alert, AlertType, CalendarEvent, DateMap, ExceptionMap, Frequency, LocalDate,
    PartialCalendarEvent, Participant, Recurrence, Rsvp,
};
use jmap::contact_group::{ContactGroup, PartialContactGroup};
use jmap::json::{Json, TextMap};
use jmap::mailbox::{Mailbox, MailboxRole, PartialMailbox};
use jmap::parse::{Duplicate, FromJson, ParseError, Presence, ToJson};
use jmap::record::{copy_asked, copy_patched, names_include, new_id, PartialRecord, Record};
use jmap::types::{Date, File};
use rustc_serialize::json::Json as Outer;

fn lift(j: &Outer) -> Json {
    match j {
        Outer::Null => Json::Null,
        Outer::Boolean(b) => Json::Boolean(*b),
        Outer::I64(n) => Json::I64(*n),
        Outer::U64(n) => Json::U64(*n),
        Outer::F64(x) => Json::F64(x.to_bits()),
        Outer::String(s) => Json::String(s.clone()),
        Outer::Array(a) => Json::Array(a.iter().map(lift).collect()),
        Outer::Object(o) => {
            let mut m = TextMap::new();
            for (k, v) in o.iter() {
                m.insert(k.clone(), lift(v));
            }
            Json::Object(m)
        }
    }
}

fn lower(j: &Json) -> Outer {
    match j {
        Json::Null => Outer::Null,
        Json::Boolean(b) => Outer::Boolean(*b),
        Json::I64(n) => Outer::I64(*n),
        Json::U64(n) => Outer::U64(*n),
        Json::F64(bits) => Outer::F64(f64::from_bits(*bits)),
        Json::String(s) => Outer::String(s.clone()),
        Json::Array(a) => Outer::Array(a.iter().map(lower).collect()),
        Json::Object(o) => {
            let mut m = std::collections::BTreeMap::new();
            for i in 0..o.len() {
                m.insert(o.key_at(i).clone(), lower(o.value_at(i)));
            }
            Outer::Object(m)
        }
    }
}

/// The JSON value that `text` writes.
fn json(text: &str) -> Json {
    lift(&Outer::from_str(text).unwrap())
}

/// `j` as compact JSON text.
fn text(j: &Json) -> String {
    lower(j).to_string()
}

fn invalid_type(name: &str) -> ParseError {
    ParseError::InvalidJsonType(name.to_string())
}

fn invalid_structure(name: &str) -> ParseError {
    ParseError::InvalidStructure(name.to_string())
}

fn keys(j: &Json) -> Vec<String> {
    match j {
        Json::Object(o) => (0..o.len()).map(|i| o.key_at(i).clone()).collect(),
        _ => panic!("not an object"),
    }
}

fn field(j: &Json, name: &str) -> Option<Json> {
    match j {
        Json::Object(o) => o.get(name).cloned(),
        _ => panic!("not an object"),
    }
}

fn check_laws<R>(r: &R, patch: &R::Partial, given: &[&str])
where
    R: Record + PartialEq + std::fmt::Debug,
    R::Partial: PartialEq + std::fmt::Debug,
{
    // what was written reads back
    assert_eq!(R::from_json(&r.to_json()).ok().as_ref(), Some(r));
    // the projection gives every field, and patching with it changes nothing
    let whole = r.to_partial();
    assert_eq!(whole.to_json(), r.to_json());
    assert_eq!(&r.updated_with(&whole), r);
    assert_eq!(whole.id(), Presence::Present(r.id()));
    assert_eq!(R::Partial::from_json(&whole.to_json()).ok(), Some(whole));
    // a patch overlays the record field by field
    let before = r.to_json();
    let patch_json = patch.to_json();
    let after = r.updated_with(patch).to_json();
    assert_eq!(keys(&patch_json), given);
    assert_eq!(keys(&after), keys(&before));
    for name in keys(&before) {
        match field(&patch_json, &name) {
            Some(v) => assert_eq!(field(&after, &name), Some(v), "{}", name),
            None => assert_eq!(field(&after, &name), field(&before, &name), "{}", name),
        }
    }
    // a filtered projection gives the id and the fields asked for
    let names = keys(&before);
    for (i, name) in names.iter().enumerate() {
        let props = vec![name.clone(), "noSuchProperty".to_string(), names[names.len() - 1 - i].clone()];
        let filtered = r.to_filtered_partial(&props).to_json();
        for other in &names {
            if other == "id" || props.contains(other) {
                assert_eq!(field(&filtered, other), field(&before, other), "{}", other);
            } else {
                assert_eq!(field(&filtered, other), None, "{}", other);
            }
        }
        assert_eq!(field(&filtered, "noSuchProperty"), None);
    }
    assert_eq!(keys(&r.to_filtered_partial(&vec![]).to_json()), vec!["id"]);
    // a copy is equal
    assert_eq!(&r.duplicate(), r);
}

#[test]
fn new_id_is_a_hyphenated_uuid() {
    for _ in 0..50 {
        let id = new_id();
        let chars: Vec<char> = id.chars().collect();
        assert_eq!(chars.len(), 36);
        for (i, c) in chars.iter().enumerate() {
            if i == 8 || i == 13 || i == 18 || i == 23 {
                assert_eq!(*c, '-');
            } else {
                assert!(c.is_ascii_digit() || ('a'..='f').contains(c), "{}", id);
            }
        }
        assert_eq!(chars[14], '4');
        assert!(['8', '9', 'a', 'b'].contains(&chars[19]));
    }
    assert_ne!(new_id(), new_id());
}

#[test]
fn names_include_finds_names() {
    let names = vec!["a".to_string(), "bb".to_string(), "a".to_string()];
    assert!(names_include(&names, "a"));
    assert!(names_include(&names, "bb"));
    assert!(!names_include(&names, "b"));
    assert!(!names_include(&names, ""));
    assert!(!names_include(&vec![], "a"));
}

#[test]
fn copy_helpers() {
    let names = vec!["a".to_string()];
    assert_eq!(copy_asked(&names, "a", &7u64), Presence::Present(7));
    assert_eq!(copy_asked(&names, "b", &7u64), Presence::Absent);
    assert_eq!(copy_patched(&Presence::Present(1u64), &2), 1);
    assert_eq!(copy_patched(&Presence::Absent, &2u64), 2);
}

const WORK: &str = r##"{"id": "cal-1", "name": "Work", "color": "#ff0000", "sortOrder": 3,
    "isVisible": true, "mayReadFreeBusy": true, "mayReadItems": true, "mayAddItems": false,
    "mayModifyItems": false, "mayRemoveItems": false, "mayRename": true, "mayDelete": false}"##;

#[test]
fn calendar_round_trip() {
    let c = Calendar::from_json(&json(WORK)).unwrap();
    assert_eq!(c.id(), "cal-1");
    assert_eq!(
        text(&c.to_json()),
        r##"{"color":"#ff0000","id":"cal-1","isVisible":true,"mayAddItems":false,"mayDelete":false,"mayModifyItems":false,"mayReadFreeBusy":true,"mayReadItems":true,"mayRemoveItems":false,"mayRename":true,"name":"Work","sortOrder":3}"##
    );
    assert_eq!(Calendar::from_json(&json("null")), Err(invalid_type("Calendar")));
    assert_eq!(
        Calendar::from_json(&json(r#"{"id": "x", "name": "n"}"#)),
        Err(ParseError::MissingField("color".to_string()))
    );
    assert_eq!(
        Calendar::from_json(&json(&WORK.replace("3,", "\"3\","))),
        Err(invalid_type("u64"))
    );
}

#[test]
fn calendar_laws() {
    let c = Calendar::from_json(&json(WORK)).unwrap();
    let p = PartialCalendar::from_json(&json(r#"{"mayDelete": true, "name": "Home"}"#)).unwrap();
    check_laws(&c, &p, &["mayDelete", "name"]);
    check_laws(&c, &PartialCalendar::default(), &[]);
    check_laws(&Calendar::default(), &p, &["mayDelete", "name"]);
}

#[test]
fn calendar_default() {
    let c = Calendar::default();
    assert_eq!(c.id().len(), 36);
    let written = c.to_json();
    assert_eq!(keys(&written).len(), 12);
    assert_eq!(field(&written, "name"), Some(Json::String(String::new())));
    assert_eq!(field(&written, "sortOrder"), Some(Json::U64(0)));
    assert_eq!(field(&written, "isVisible"), Some(Json::Boolean(false)));
    assert_eq!(text(&PartialCalendar::default().to_json()), "{}");
}

#[test]
fn contact_group_laws() {
    let g = ContactGroup::from_json(&json(r#"{"id": "g", "name": "Friends", "contactIds": ["a", "b"]}"#))
        .unwrap();
    assert_eq!(text(&g.to_json()), r#"{"contactIds":["a","b"],"id":"g","name":"Friends"}"#);
    let p = PartialContactGroup::from_json(&json(r#"{"contactIds": []}"#)).unwrap();
    check_laws(&g, &p, &["contactIds"]);
    check_laws(&ContactGroup::default(), &PartialContactGroup::default(), &[]);
    assert_eq!(
        ContactGroup::from_json(&json(r#"{"id": "g", "name": "n", "contactIds": [1]}"#)),
        Err(invalid_type("String"))
    );
    assert_eq!(ContactGroup::from_json(&json("[]")), Err(invalid_type("ContactGroup")));
    assert_eq!(PartialContactGroup::from_json(&json("[]")), Err(invalid_type("ContactGroup")));
}

#[test]
fn mailbox_role_tokens() {
    let roles = [
        (MailboxRole::Inbox, "inbox"), (MailboxRole::Archive, "archive"),
        (MailboxRole::Drafts, "drafts"), (MailboxRole::Outbox, "outbox"),
        (MailboxRole::Sent, "sent"), (MailboxRole::Trash, "trash"), (MailboxRole::Spam, "spam"),
        (MailboxRole::Templates, "templates"),
    ];
    for (role, token) in roles {
        assert_eq!(role.to_string(), token);
        assert_eq!(role.to_json(), Json::String(token.to_string()));
        assert_eq!(MailboxRole::from_json(&role.to_json()), Ok(role.clone()));
        assert_eq!(role.duplicate(), role);
    }
}

#[test]
fn mailbox_role_custom() {
    let custom = MailboxRole::from_json(&json(r#""x-newsletters""#)).unwrap();
    assert_eq!(custom, MailboxRole::Custom("x-newsletters".to_string()));
    assert_eq!(custom.to_string(), "x-newsletters");
    assert_eq!(MailboxRole::from_json(&custom.to_json()), Ok(custom.clone()));
    assert_eq!(custom.duplicate(), custom);
    assert_eq!(
        MailboxRole::from_json(&json(r#""x-""#)),
        Ok(MailboxRole::Custom("x-".to_string()))
    );
    for bad in ["newsletters", "x", "X-files", "Inbox", "", " inbox", "xx-a"] {
        assert_eq!(
            MailboxRole::from_json(&Json::String(bad.to_string())),
            Err(invalid_structure("MailboxRole")),
            "{:?}", bad
        );
    }
    assert_eq!(MailboxRole::from_json(&json("3")), Err(invalid_type("MailboxRole")));
}

const INBOX: &str = r#"{"id": "m1", "name": "Inbox", "parentId": null, "role": "inbox",
    "sortOrder": 1, "mustBeOnlyMailbox": false, "mayReadItems": true, "mayAddItems": true,
    "mayRemoveItems": true, "mayCreateChild": true, "mayRename": false, "mayDelete": false,
    "totalMessages": 10, "unreadMessages": 2, "totalThreads": 7, "unreadThreads": 1}"#;

#[test]
fn mailbox_round_trip() {
    let m = Mailbox::from_json(&json(INBOX)).unwrap();
    assert_eq!(
        text(&m.to_json()),
        r#"{"id":"m1","mayAddItems":true,"mayCreateChild":true,"mayDelete":false,"mayReadItems":true,"mayRemoveItems":true,"mayRename":false,"mustBeOnlyMailbox":false,"name":"Inbox","parentId":null,"role":"inbox","sortOrder":1,"totalMessages":10,"totalThreads":7,"unreadMessages":2,"unreadThreads":1}"#
    );
    assert_eq!(
        Mailbox::from_json(&json(&INBOX.replace(r#""inbox""#, r#""lost""#))),
        Err(invalid_structure("MailboxRole"))
    );
    let child = Mailbox::from_json(&json(
        &INBOX.replace(r#""parentId": null, "role": "inbox","#, r#""parentId": "m0","#),
    ))
    .unwrap();
    assert_eq!(field(&child.to_json(), "parentId"), Some(Json::String("m0".to_string())));
    assert_eq!(field(&child.to_json(), "role"), Some(Json::Null));
}

#[test]
fn mailbox_laws() {
    let m = Mailbox::from_json(&json(INBOX)).unwrap();
    let p = PartialMailbox::from_json(&json(r#"{"role": "x-mine", "unreadMessages": 0, "parentId": "m0"}"#))
        .unwrap();
    check_laws(&m, &p, &["parentId", "role", "unreadMessages"]);
    let p = PartialMailbox::from_json(&json(r#"{"role": null}"#)).unwrap();
    check_laws(&m, &p, &["role"]);
    assert_eq!(field(&m.updated_with(&p).to_json(), "role"), Some(Json::Null));
    check_laws(&Mailbox::default(), &PartialMailbox::default(), &[]);
}

#[test]
fn date_reads_and_writes_utc() {
    let d = Date::from_json(&json(r#""2015-05-15T00:00:00Z""#)).unwrap();
    assert_eq!(d.timestamp(), 1431648000);
    assert_eq!(d.timestamp_subsec_nanos(), 0);
    assert_eq!(d.to_json(), Json::String("2015-05-15T00:00:00Z".to_string()));
    let d = Date::from_json(&json(r#""2012-12-12 14:12:12+02:00""#)).unwrap();
    assert_eq!(d.to_json(), Json::String("2012-12-12T12:12:12Z".to_string()));
    assert_eq!(Date::from_json(&d.to_json()), Ok(d));
    let d = Date::from_json(&json(r#""1970-01-01T00:00:01.5Z""#)).unwrap();
    assert_eq!((d.timestamp(), d.timestamp_subsec_nanos()), (1, 500_000_000));
    assert_eq!(d.to_json(), Json::String("1970-01-01T00:00:01Z".to_string()));
}

#[test]
fn date_failures_and_default() {
    assert_eq!(Date::from_json(&json(r#""2015-05-15""#)), Err(invalid_structure("Date")));
    assert_eq!(Date::from_json(&json(r#""yesterday""#)), Err(invalid_structure("Date")));
    assert_eq!(Date::from_json(&json(r#""2015-05-15T00:00:00""#)), Err(invalid_structure("Date")));
    assert_eq!(Date::from_json(&json("1431648000")), Err(invalid_type("Date")));
    let epoch = Date::default();
    assert_eq!((epoch.timestamp(), epoch.timestamp_subsec_nanos()), (0, 0));
    assert_eq!(epoch.to_json(), Json::String("1970-01-01T00:00:00Z".to_string()));
    assert_eq!(Date::from_timestamp(0, 0), Some(epoch));
    assert_eq!(epoch.duplicate(), epoch);
}

#[test]
fn date_from_timestamp_checks_the_range() {
    let d = Date::from_timestamp(1431648000, 7).unwrap();
    assert_eq!((d.timestamp(), d.timestamp_subsec_nanos()), (1431648000, 7));
    assert_eq!(d.to_json(), Json::String("2015-05-15T00:00:00Z".to_string()));
    assert_eq!(Date::from_timestamp(-1, 0).unwrap().to_json(), Json::String("1969-12-31T23:59:59Z".to_string()));
    assert_eq!(Date::from_timestamp(i64::MAX, 0), None);
    assert_eq!(Date::from_timestamp(i64::MIN, 0), None);
    assert_eq!(Date::from_timestamp(0, 2_000_000_000), None);
    assert_eq!(Date::from_timestamp(0, 1_500_000_000), None);
    assert!(Date::from_timestamp(59, 1_500_000_000).is_some());
}

#[test]
fn file_round_trip() {
    let wire = r#"{"blobId":"b","name":"n.png","size":12,"type":null}"#;
    let f = File::from_json(&json(wire)).unwrap();
    assert_eq!(text(&f.to_json()), wire);
    assert_eq!(File::from_json(&f.to_json()), Ok(f));
    assert_eq!(File::from_json(&json("{}")), Err(ParseError::MissingField("blobId".to_string())));
    assert_eq!(File::from_json(&json(r#"{"blobId": "b", "size": -1}"#)).map(|f| text(&f.to_json())),
        Ok(r#"{"blobId":"b","name":null,"size":18446744073709551615,"type":null}"#.to_string()));
    assert_eq!(File::from_json(&json("0")), Err(invalid_type("File")));
    assert_eq!(
        text(&File::default().to_json()),
        r#"{"blobId":"","name":null,"size":null,"type":null}"#
    );
}

#[test]
fn local_date_reads_date_and_time_and_writes_the_day() {
    let d = LocalDate::from_json(&json(r#""2015-09-18T23:56:04""#)).unwrap();
    assert_eq!(d.timestamp(), 1442620564);
    assert_eq!(d.timestamp_subsec_nanos(), 0);
    assert_eq!(d.to_string(), "2015-09-18");
    assert_eq!(d.to_json(), Json::String("2015-09-18".to_string()));
    // the day alone does not read back
    assert_eq!(LocalDate::from_json(&d.to_json()), Err(invalid_structure("LocalDate")));
    assert_eq!(LocalDate::from_json(&json(r#""2015-09-18T23:56:04Z""#)), Err(invalid_structure("LocalDate")));
    assert_eq!(LocalDate::from_json(&json("5")), Err(invalid_type("LocalDate")));
    let epoch = LocalDate::default();
    assert_eq!(epoch.to_string(), "1970-01-01");
    assert_eq!(LocalDate::from_timestamp(0, 0), Some(epoch));
    assert_eq!(LocalDate::from_timestamp(i64::MAX, 0), None);
}

#[test]
fn local_dates_are_ordered_by_time() {
    let a = LocalDate::from_timestamp(10, 5).unwrap();
    let b = LocalDate::from_timestamp(10, 6).unwrap();
    let c = LocalDate::from_timestamp(11, 0).unwrap();
    let z = LocalDate::from_timestamp(-11, 0).unwrap();
    assert!(a.is_before(&b) && b.is_before(&c) && a.is_before(&c) && z.is_before(&a));
    assert!(!b.is_before(&a) && !a.is_before(&a) && !c.is_before(&z));
    assert!(a.is_same(&a) && !a.is_same(&b));
    assert!(a < b && b < c && z < a);
}

#[test]
fn date_map_keeps_dates_in_order() {
    let day = |n: i64| LocalDate::from_timestamp(n * 86400, 0).unwrap();
    let mut m: DateMap<u64> = DateMap::new();
    m.insert(day(3), 3);
    m.insert(day(1), 1);
    m.insert(day(2), 2);
    m.insert(day(1), 10);
    assert_eq!(m.len(), 3);
    assert_eq!((m.date_at(0), *m.value_at(0)), (day(1), 10));
    assert_eq!((m.date_at(1), *m.value_at(1)), (day(2), 2));
    assert_eq!((m.date_at(2), *m.value_at(2)), (day(3), 3));
    assert_eq!(m.get(&day(2)), Some(&2));
    assert_eq!(m.get(&day(4)), None);
    assert_eq!(m.clone(), m);
}

#[test]
fn event_enums() {
    for (v, token) in [
        (Frequency::Yearly, "yearly"), (Frequency::Monthly, "monthly"), (Frequency::Weekly, "weekly"),
        (Frequency::Daily, "daily"), (Frequency::Hourly, "hourly"), (Frequency::Minutely, "minutely"),
        (Frequency::Secondly, "secondly"),
    ] {
        assert_eq!(v.to_string(), token);
        assert_eq!(Frequency::from_json(&v.to_json()), Ok(v));
    }
    for (v, token) in [(AlertType::Email, "email"), (AlertType::Alert, "alert")] {
        assert_eq!(v.to_string(), token);
        assert_eq!(AlertType::from_json(&v.to_json()), Ok(v));
    }
    for (v, token) in [(Rsvp::Unanswered, ""), (Rsvp::Yes, "yes"), (Rsvp::Maybe, "maybe"), (Rsvp::No, "no")] {
        assert_eq!(v.to_string(), token);
        assert_eq!(Rsvp::from_json(&v.to_json()), Ok(v));
    }
    assert_eq!(Frequency::default(), Frequency::Secondly);
    assert_eq!(AlertType::default(), AlertType::Alert);
    assert_eq!(Rsvp::default(), Rsvp::Unanswered);
    assert_eq!(Rsvp::from_json(&json(r#""perhaps""#)), Err(invalid_structure("Rsvp")));
    assert_eq!(Frequency::from_json(&json("1")), Err(invalid_type("Frequency")));
    assert_eq!(AlertType::from_json(&json(r#""""#)), Err(invalid_structure("AlertType")));
}

#[test]
fn event_parts() {
    let a = Alert::from_json(&json(r#"{"minutesBefore": -15, "type": "email"}"#)).unwrap();
    assert_eq!(text(&a.to_json()), r#"{"minutesBefore":-15,"type":"email"}"#);
    assert_eq!(Alert::from_json(&a.to_json()), Ok(a));
    assert_eq!(text(&Alert::default().to_json()), r#"{"minutesBefore":0,"type":"alert"}"#);
    let p = Participant::from_json(&json(
        r#"{"name": "Ann", "email": "ann@example.org", "isYou": true, "rsvp": ""}"#,
    ))
    .unwrap();
    assert_eq!(
        text(&p.to_json()),
        r#"{"email":"ann@example.org","isYou":true,"name":"Ann","rsvp":""}"#
    );
    assert_eq!(Participant::from_json(&p.to_json()), Ok(p));
    let r = Recurrence::from_json(&json(
        r#"{"frequency": "weekly", "interval": 2, "byDay": [1, 3], "count": 10,
            "until": "2020-06-01T00:00:00"}"#,
    ))
    .unwrap();
    assert_eq!(
        text(&r.to_json()),
        r#"{"byDate":null,"byDay":[1,3],"byHour":null,"byMinute":null,"byMonth":null,"bySecond":null,"bySetPosition":null,"byWeekNo":null,"byYearDay":null,"count":10,"firstDayOfWeek":null,"frequency":"weekly","interval":2,"until":"2020-06-01"}"#
    );
    assert_eq!(
        Recurrence::from_json(&json(r#"{"frequency": "weekly"}"#)),
        Err(ParseError::MissingField("until".to_string()))
    );
    assert_eq!(
        Recurrence::from_json(&json(r#"{"frequency": "weekly", "until": "2020-06-01"}"#)),
        Err(invalid_structure("LocalDate"))
    );
}

const MEETING: &str = r#"{"id": "e1", "calendarId": "cal-1", "summary": "Meeting", "description": "",
    "location": "Room 1", "showAsFree": false, "isAllDay": false,
    "start": "2020-03-02T09:00:00Z", "end": "2020-03-02T10:00:00Z",
    "startTimeZone": "Europe/Berlin", "endTimeZone": null,
    "recurrence": {"frequency": "daily", "until": "2020-04-01T00:00:00"},
    "inclusions": ["2020-05-01T09:00:00"],
    "exceptions": {"2020-03-03T09:00:00": null,
                   "2020-03-04T09:00:00": {"summary": "Moved", "exceptions": {"2020-03-05T00:00:00": null}}},
    "alerts": [{"minutesBefore": 10, "type": "alert"}],
    "organizer": {"name": "Ann", "email": "ann@example.org", "isYou": false, "rsvp": "yes"},
    "attendees": [], "attachments": null}"#;

const MEETING_WRITTEN: &str = r#"{"alerts":[{"minutesBefore":10,"type":"alert"}],"attachments":null,"attendees":[],"calendarId":"cal-1","description":"","end":"2020-03-02T10:00:00Z","endTimeZone":null,"exceptions":{"2020-03-03":null,"2020-03-04":{"exceptions":{"2020-03-05":null},"summary":"Moved"}},"id":"e1","inclusions":["2020-05-01"],"isAllDay":false,"location":"Room 1","organizer":{"email":"ann@example.org","isYou":false,"name":"Ann","rsvp":"yes"},"recurrence":{"byDate":null,"byDay":null,"byHour":null,"byMinute":null,"byMonth":null,"bySecond":null,"bySetPosition":null,"byWeekNo":null,"byYearDay":null,"count":null,"firstDayOfWeek":null,"frequency":"daily","interval":null,"until":"2020-04-01"},"showAsFree":false,"start":"2020-03-02T09:00:00Z","startTimeZone":"Europe/Berlin","summary":"Meeting"}"#;

#[test]
fn calendar_event_reads_and_writes() {
    let e = CalendarEvent::from_json(&json(MEETING)).unwrap();
    assert_eq!(e.id(), "e1");
    assert_eq!(text(&e.to_json()), MEETING_WRITTEN);
    assert_eq!(e.clone(), e);
    assert_eq!(e.duplicate(), e);
    assert_eq!(CalendarEvent::from_json(&json("3")), Err(invalid_type("CalendarEvent")));
    assert_eq!(
        CalendarEvent::from_json(&json(&MEETING.replace("2020-03-02T09:00:00Z", "2020-03-02"))),
        Err(invalid_structure("Date"))
    );
}

#[test]
fn calendar_event_patches() {
    let e = CalendarEvent::from_json(&json(MEETING)).unwrap();
    let whole = e.to_partial();
    assert_eq!(text(&whole.to_json()), MEETING_WRITTEN);
    assert_eq!(e.updated_with(&whole), e);
    let p = PartialCalendarEvent::from_json(&json(
        r#"{"exceptions": null, "summary": "Standup", "start": "2020-03-02T09:30:00Z"}"#,
    ))
    .unwrap();
    assert_eq!(
        text(&p.to_json()),
        r#"{"exceptions":null,"start":"2020-03-02T09:30:00Z","summary":"Standup"}"#
    );
    let before = e.to_json();
    let after = e.updated_with(&p).to_json();
    for name in keys(&before) {
        match name.as_str() {
            "exceptions" => assert_eq!(field(&after, &name), Some(Json::Null)),
            "summary" => assert_eq!(field(&after, &name), Some(Json::String("Standup".to_string()))),
            "start" => assert_eq!(field(&after, &name), Some(Json::String("2020-03-02T09:30:00Z".to_string()))),
            _ => assert_eq!(field(&after, &name), field(&before, &name), "{}", name),
        }
    }
    let filtered = e.to_filtered_partial(&vec!["exceptions".to_string(), "nope".to_string()]);
    assert_eq!(
        text(&filtered.to_json()),
        r#"{"exceptions":{"2020-03-03":null,"2020-03-04":{"exceptions":{"2020-03-05":null},"summary":"Moved"}},"id":"e1"}"#
    );
    assert_eq!(text(&e.to_filtered_partial(&vec![]).to_json()), r#"{"id":"e1"}"#);
}

#[test]
fn calendar_event_default() {
    let e = CalendarEvent::default();
    assert_eq!(e.id().len(), 36);
    let written = e.to_json();
    assert_eq!(keys(&written).len(), 18);
    assert_eq!(field(&written, "start"), Some(Json::String("1970-01-01T00:00:00Z".to_string())));
    assert_eq!(field(&written, "exceptions"), Some(Json::Null));
    assert_eq!(CalendarEvent::from_json(&written), Ok(e.clone()));
    assert_eq!(e.updated_with(&e.to_partial()), e);
    assert_eq!(text(&PartialCalendarEvent::default().to_json()), "{}");
    assert_eq!(PartialCalendarEvent::default().id(), Presence::Absent);
}

#[test]
fn exception_map_reads_entries_in_key_order() {
    let m = ExceptionMap::from_json(&json(
        r#"{"2020-03-04T09:00:00": {"summary": "b"}, "2020-03-03T09:00:00": null,
            "2020-03-03T08:00:00": {"summary": "a"}}"#,
    ))
    .unwrap();
    assert_eq!(m.0.len(), 3);
    assert_eq!(m.0.date_at(0).to_string(), "2020-03-03");
    assert_eq!(m.0.date_at(0).timestamp() % 86400, 8 * 3600);
    assert!(m.0.value_at(0).is_some());
    assert!(m.0.value_at(1).is_none());
    assert_eq!(m.0.date_at(2).to_string(), "2020-03-04");
    // of two entries on one day the later stays when the map is written
    assert_eq!(text(&m.to_json()), r#"{"2020-03-03":null,"2020-03-04":{"summary":"b"}}"#);
    assert_eq!(m.clone(), m);
}

#[test]
fn exception_map_failures() {
    assert_eq!(ExceptionMap::from_json(&json("[]")), Err(invalid_type("ExceptionMap")));
    assert_eq!(
        ExceptionMap::from_json(&json(r#"{"2020-03-03": null}"#)),
        Err(invalid_structure("LocalDate"))
    );
    assert_eq!(
        ExceptionMap::from_json(&json(r#"{"2020-03-03T09:00:00": 4}"#)),
        Err(invalid_type("CalendarEvent"))
    );
    // the first entry in key order that fails gives the error
    assert_eq!(
        ExceptionMap::from_json(&json(r#"{"2020-03-04T09:00:00": 4, "2020-03-03": null}"#)),
        Err(invalid_structure("LocalDate"))
    );
    assert_eq!(
        ExceptionMap::from_json(&json(r#"{"2020-03-04T09:00:00": 4, "2020-03-05": null}"#)),
        Err(invalid_type("CalendarEvent"))
    );
    assert_eq!(
        ExceptionMap::from_json(&json(r#"{"2020-03-04T09:00:00": {"exceptions": {"x": null}}}"#)),
        Err(invalid_structure("LocalDate"))
    );
    let empty = ExceptionMap::from_json(&json("{}")).unwrap();
    assert_eq!(empty.0.len(), 0);
    assert_eq!(text(&empty.to_json()), "{}");
    assert_eq!(ExceptionMap::from_json(&empty.to_json()), Ok(empty));
}
