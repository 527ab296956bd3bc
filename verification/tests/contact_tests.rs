use jmap::contact::{
    Address, AddressType, Contact, ContactInformation, ContactType, EmailType, OnlineType,
    OptionDate, PartialContact, PhoneType,
};
use jmap::json::{Json, TextMap};
use jmap::parse::{FromJson, ParseError, Presence, ToJson};
use jmap::record::{PartialRecord, Record};
use rustc_serialize::json::Json as Outer;

fn lift(j: &Outer) -> Json {
    match j {
        Outer::Null => Json::Null,
        Outer::Boolean(b) => Json::Boolean(*b),
        Outer::I64(n) => Json::I64(*n),
        Outer::U64(n) => Json::U64(*n),
        Outer::F64(x) => Json::F64(x.to_bits()),
        Outer::String(s) => Json::String(s.clone()),
        Outer::Array(a) => Json::Array(a.iter().map(lift).collect()),
        Outer::Object(o) => {
            let mut m = TextMap::new();
            for (k, v) in o.iter() {
                m.insert(k.clone(), lift(v));
            }
            Json::Object(m)
        }
    }
}

fn lower(j: &Json) -> Outer {
    match j {
        Json::Null => Outer::Null,
        Json::Boolean(b) => Outer::Boolean(*b),
        Json::I64(n) => Outer::I64(*n),
        Json::U64(n) => Outer::U64(*n),
        Json::F64(bits) => Outer::F64(f64::from_bits(*bits)),
        Json::String(s) => Outer::String(s.clone()),
        Json::Array(a) => Outer::Array(a.iter().map(lower).collect()),
        Json::Object(o) => {
            let mut m = std::collections::BTreeMap::new();
            for i in 0..o.len() {
                m.insert(o.key_at(i).clone(), lower(o.value_at(i)));
            }
            Outer::Object(m)
        }
    }
}

/// The JSON value that `text` writes.
fn json(text: &str) -> Json {
    lift(&Outer::from_str(text).unwrap())
}

/// `j` as compact JSON text.
fn text(j: &Json) -> String {
    lower(j).to_string()
}

fn invalid_type(name: &str) -> ParseError {
    ParseError::InvalidJsonType(name.to_string())
}

fn invalid_structure(name: &str) -> ParseError {
    ParseError::InvalidStructure(name.to_string())
}

const ALICE: &str = r#"{
    "id": "c-1",
    "isFlagged": true,
    "avatar": {"blobId": "b-9", "type": "image/png", "name": null, "size": 120},
    "prefix": "Dr",
    "firstName": "Alice",
    "lastName": "Liddell",
    "suffix": "",
    "nickname": "Al",
    "birthday": "1852-05-04",
    "anniversary": "0000-00-00",
    "company": "Wonderland",
    "department": "Tea",
    "jobTitle": "Guest",
    "emails": [{"type": "personal", "value": "alice@example.org", "label": null, "isDefault": true}],
    "phones": [{"type": "mobile", "value": "555", "label": "cell", "isDefault": false}],
    "online": [],
    "addresses": [{"type": "home", "label": null, "street": "1 Rabbit Hole", "locality": "Oxford",
                   "region": "", "postcode": "OX1", "country": "UK", "isDefault": "yes"}],
    "notes": "late"
}"#;

const ALICE_WRITTEN: &str = r#"{"addresses":[{"country":"UK","isDefault":"yes","label":null,"locality":"Oxford","postcode":"OX1","region":"","street":"1 Rabbit Hole","type":"home"}],"anniversary":"0000-00-00","avatar":{"blobId":"b-9","name":null,"size":120,"type":"image/png"},"birthday":"1852-05-04","company":"Wonderland","department":"Tea","emails":[{"isDefault":true,"label":null,"type":"personal","value":"alice@example.org"}],"firstName":"Alice","id":"c-1","isFlagged":true,"jobTitle":"Guest","lastName":"Liddell","nickname":"Al","notes":"late","online":[],"phones":[{"isDefault":false,"label":"cell","type":"mobile","value":"555"}],"prefix":"Dr","suffix":""}"#;

fn alice() -> Contact {
    Contact::from_json(&json(ALICE)).unwrap()
}

fn keys(j: &Json) -> Vec<String> {
    match j {
        Json::Object(o) => (0..o.len()).map(|i| o.key_at(i).clone()).collect(),
        _ => panic!("not an object"),
    }
}

fn field(j: &Json, name: &str) -> Option<Json> {
    match j {
        Json::Object(o) => o.get(name).cloned(),
        _ => panic!("not an object"),
    }
}

fn date(text: &str) -> Result<OptionDate, ParseError> {
    OptionDate::from_json(&Json::String(text.to_string()))
}

#[test]
fn option_date_reads_three_parts() {
    assert_eq!(date("2020-01-15"), Ok(OptionDate { y: Some(2020), m: Some(1), d: Some(15) }));
    assert_eq!(date("1852-05-04"), Ok(OptionDate { y: Some(1852), m: Some(5), d: Some(4) }));
    assert_eq!(date("2020-12-31"), Ok(OptionDate { y: Some(2020), m: Some(12), d: Some(31) }));
    assert_eq!(date("65535-1-1"), Ok(OptionDate { y: Some(65535), m: Some(1), d: Some(1) }));
    assert_eq!(date("5-7-9"), Ok(OptionDate { y: Some(5), m: Some(7), d: Some(9) }));
    assert_eq!(date("+5-+7-+9"), Ok(OptionDate { y: Some(5), m: Some(7), d: Some(9) }));
    assert_eq!(date("0002020-0001-000015"), Ok(OptionDate { y: Some(2020), m: Some(1), d: Some(15) }));
}

#[test]
fn option_date_zero_is_unknown() {
    assert_eq!(date("0000-00-00"), Ok(OptionDate { y: None, m: None, d: None }));
    assert_eq!(date("0-0-0"), Ok(OptionDate { y: None, m: None, d: None }));
    assert_eq!(date("2020-00-15"), Ok(OptionDate { y: Some(2020), m: None, d: Some(15) }));
    assert_eq!(date("0000-02-00"), Ok(OptionDate { y: None, m: Some(2), d: None }));
}

#[test]
fn option_date_rejects_bad_text() {
    let bad = [
        "", "2020", "2020-01", "2020-01-15-", "2020-01-15-1", "-2020-01-15", "2020--15",
        "2020-13-01", "2020-12-32", "65536-01-01", "2020-1x-01", "a-b-c", "2020/01/15",
        " 2020-01-15", "2020-01-15 ", "2020-01-+", "+-1-1", "２０２０-01-01", "2020-01-1.5",
        "99999999999999999999-1-1", "2020-256-1", "2020-1-300",
    ];
    for text in bad {
        assert_eq!(date(text), Err(invalid_structure("OptionDate")), "{:?}", text);
    }
    assert_eq!(OptionDate::from_json(&json("20200115")), Err(invalid_type("OptionDate")));
    assert_eq!(OptionDate::from_json(&json("null")), Err(invalid_type("OptionDate")));
}

#[test]
fn option_date_to_string() {
    assert_eq!(OptionDate { y: Some(2020), m: Some(1), d: Some(15) }.to_string(), "2020-01-15");
    assert_eq!(OptionDate { y: None, m: None, d: None }.to_string(), "0000-00-00");
    assert_eq!(OptionDate { y: Some(5), m: None, d: Some(7) }.to_string(), "0005-00-07");
    assert_eq!(OptionDate { y: Some(999), m: Some(12), d: Some(31) }.to_string(), "0999-12-31");
    assert_eq!(OptionDate { y: Some(9999), m: Some(9), d: Some(9) }.to_string(), "9999-09-09");
    assert_eq!(OptionDate { y: Some(10000), m: Some(10), d: Some(10) }.to_string(), "10000-10-10");
    assert_eq!(OptionDate { y: Some(65535), m: Some(99), d: Some(100) }.to_string(), "65535-99-100");
    assert_eq!(OptionDate { y: Some(0), m: Some(255), d: Some(0) }.to_string(), "0000-255-00");
    assert_eq!(OptionDate::default(), OptionDate { y: None, m: None, d: None });
}

#[test]
fn option_date_round_trip() {
    for y in [None, Some(1u16), Some(33), Some(1999), Some(9999), Some(10000), Some(65535)] {
        for m in [None, Some(1u8), Some(9), Some(10), Some(12)] {
            for d in [None, Some(1u8), Some(9), Some(28), Some(31)] {
                let date = OptionDate { y, m, d };
                assert_eq!(OptionDate::from_json(&date.to_json()), Ok(date));
                assert_eq!(date.to_json(), Json::String(date.to_string()));
            }
        }
    }
}

#[test]
fn contact_type_tokens() {
    let emails = [(EmailType::Personal, "personal"), (EmailType::Work, "work"), (EmailType::Other, "other")];
    for (v, token) in emails {
        assert_eq!(v.to_string(), token);
        assert_eq!(v.to_json(), Json::String(token.to_string()));
        assert_eq!(EmailType::from_json(&v.to_json()), Ok(v));
    }
    let phones = [
        (PhoneType::Home, "home"), (PhoneType::Work, "work"), (PhoneType::Mobile, "mobile"),
        (PhoneType::Fax, "fax"), (PhoneType::Pager, "pager"), (PhoneType::Other, "other"),
    ];
    for (v, token) in phones {
        assert_eq!(v.to_string(), token);
        assert_eq!(PhoneType::from_json(&v.to_json()), Ok(v));
    }
    let online = [(OnlineType::Uri, "uri"), (OnlineType::Username, "username"), (OnlineType::Other, "other")];
    for (v, token) in online {
        assert_eq!(v.to_string(), token);
        assert_eq!(OnlineType::from_json(&v.to_json()), Ok(v));
    }
    let addresses = [
        (AddressType::Home, "home"), (AddressType::Work, "work"), (AddressType::Billing, "billing"),
        (AddressType::Postal, "postal"), (AddressType::Other, "other"),
    ];
    for (v, token) in addresses {
        assert_eq!(v.to_string(), token);
        assert_eq!(AddressType::from_json(&v.to_json()), Ok(v));
    }
}

#[test]
fn contact_type_failures_and_defaults() {
    assert_eq!(EmailType::from_json(&json(r#""home""#)), Err(invalid_structure("EmailType")));
    assert_eq!(EmailType::from_json(&json(r#""Work""#)), Err(invalid_structure("EmailType")));
    assert_eq!(EmailType::from_json(&json("1")), Err(invalid_type("EmailType")));
    assert_eq!(PhoneType::from_json(&json(r#""""#)), Err(invalid_structure("PhoneType")));
    assert_eq!(OnlineType::from_json(&json("[]")), Err(invalid_type("OnlineType")));
    assert_eq!(AddressType::from_json(&json(r#""uri""#)), Err(invalid_structure("AddressType")));
    assert_eq!(EmailType::default(), EmailType::Other);
    assert_eq!(PhoneType::default(), PhoneType::Other);
    assert_eq!(OnlineType::default(), OnlineType::Other);
    assert_eq!(AddressType::default(), AddressType::Other);
    assert_eq!(<EmailType as ContactType>::default_type(), EmailType::Other);
    assert_eq!(<PhoneType as ContactType>::default_type(), PhoneType::Other);
}

#[test]
fn contact_information_round_trip() {
    let input = json(r#"{"type": "work", "value": "555-1234", "label": "desk", "isDefault": true}"#);
    let info = ContactInformation::<PhoneType>::from_json(&input).unwrap();
    assert_eq!(info.typ, PhoneType::Work);
    assert_eq!(info.value, "555-1234");
    assert_eq!(info.label, Some("desk".to_string()));
    assert!(info.is_default);
    assert_eq!(
        text(&info.to_json()),
        r#"{"isDefault":true,"label":"desk","type":"work","value":"555-1234"}"#
    );
    assert_eq!(ContactInformation::<PhoneType>::from_json(&info.to_json()), Ok(info));
}

#[test]
fn contact_information_failures_and_default() {
    let d = ContactInformation::<EmailType>::default();
    assert_eq!(d.typ, EmailType::Other);
    assert_eq!(d.value, "");
    assert_eq!(d.label, None);
    assert!(!d.is_default);
    assert_eq!(
        ContactInformation::<EmailType>::from_json(&json(r#"{"value": "v", "isDefault": true}"#)),
        Err(ParseError::MissingField("type".to_string()))
    );
    assert_eq!(
        ContactInformation::<EmailType>::from_json(&json(r#"{"type": "work", "isDefault": true}"#)),
        Err(ParseError::MissingField("value".to_string()))
    );
    assert_eq!(
        ContactInformation::<EmailType>::from_json(&json(r#"{"type": "work", "value": "v"}"#)),
        Err(ParseError::MissingField("isDefault".to_string()))
    );
    assert_eq!(
        ContactInformation::<EmailType>::from_json(&json(r#"{"type": "mobile", "value": "v", "isDefault": true}"#)),
        Err(invalid_structure("EmailType"))
    );
    assert_eq!(
        ContactInformation::<EmailType>::from_json(&json("7")),
        Err(invalid_type("ContactInformation"))
    );
    // the fields are read in the order type, value, label, isDefault
    assert_eq!(
        ContactInformation::<EmailType>::from_json(&json(r#"{"type": 1, "value": 2, "isDefault": 3}"#)),
        Err(invalid_type("EmailType"))
    );
    assert_eq!(
        ContactInformation::<EmailType>::from_json(&json(r#"{"type": "work", "value": 2, "label": 4, "isDefault": 3}"#)),
        Err(invalid_type("String"))
    );
}

#[test]
fn address_round_trip() {
    let wire = r#"{"country":"UK","isDefault":"no","label":"l","locality":"Oxford","postcode":"OX1","region":"r","street":"s","type":"billing"}"#;
    let a = Address::from_json(&json(wire)).unwrap();
    assert_eq!(text(&a.to_json()), wire);
    assert_eq!(Address::from_json(&a.to_json()), Ok(a));
    assert_eq!(Address::from_json(&json("[]")), Err(invalid_type("Address")));
    assert_eq!(
        text(&Address::default().to_json()),
        r#"{"country":"","isDefault":"","label":null,"locality":"","postcode":"","region":"","street":"","type":"other"}"#
    );
}

#[test]
fn contact_round_trip() {
    let c = alice();
    assert_eq!(c.id(), "c-1");
    assert_eq!(text(&c.to_json()), ALICE_WRITTEN);
    assert_eq!(Contact::from_json(&c.to_json()), Ok(c.clone()));
    assert_eq!(c.clone(), c);
}

#[test]
fn contact_decode_failures() {
    assert_eq!(Contact::from_json(&json("[]")), Err(invalid_type("Contact")));
    assert_eq!(Contact::from_json(&json("{}")), Err(ParseError::MissingField("id".to_string())));
    assert_eq!(
        Contact::from_json(&json(r#"{"id": "x"}"#)),
        Err(ParseError::MissingField("isFlagged".to_string()))
    );
    assert_eq!(
        Contact::from_json(&json(&ALICE.replace("1852-05-04", "1852-13-04"))),
        Err(invalid_structure("OptionDate"))
    );
    assert_eq!(
        Contact::from_json(&json(&ALICE.replace(r#""type": "mobile""#, r#""type": "cell""#))),
        Err(invalid_structure("PhoneType"))
    );
    assert_eq!(
        Contact::from_json(&json(&ALICE.replace(r#""notes": "late""#, r#""notes": 3"#))),
        Err(invalid_type("String"))
    );
    // the avatar may be missing or null
    let no_avatar = ALICE.replace(r#""avatar": {"blobId": "b-9", "type": "image/png", "name": null, "size": 120},"#, "");
    let c = Contact::from_json(&json(&no_avatar)).unwrap();
    assert_eq!(field(&c.to_json(), "avatar"), Some(Json::Null));
}

#[test]
fn contact_default_has_fresh_id() {
    let a = Contact::default();
    let b = Contact::default();
    assert_eq!(a.id().len(), 36);
    assert_ne!(a.id(), b.id());
    let written = a.to_json();
    assert_eq!(field(&written, "id"), Some(Json::String(a.id())));
    assert_eq!(field(&written, "firstName"), Some(Json::String(String::new())));
    assert_eq!(field(&written, "isFlagged"), Some(Json::Boolean(false)));
    assert_eq!(field(&written, "avatar"), Some(Json::Null));
    assert_eq!(field(&written, "birthday"), Some(Json::String("0000-00-00".to_string())));
    assert_eq!(field(&written, "emails"), Some(Json::Array(vec![])));
    assert_eq!(keys(&written).len(), 18);
    assert_eq!(Contact::from_json(&written), Ok(a));
}

#[test]
fn partial_contact_keeps_only_what_was_given() {
    let p = PartialContact::from_json(&json(r#"{"firstName": "Bob", "avatar": null, "bogus": 1}"#)).unwrap();
    assert_eq!(p.id(), Presence::Absent);
    assert_eq!(text(&p.to_json()), r#"{"avatar":null,"firstName":"Bob"}"#);
    assert_eq!(PartialContact::from_json(&p.to_json()), Ok(p));
    let d = PartialContact::default();
    assert_eq!(d.id(), Presence::Absent);
    assert_eq!(text(&d.to_json()), "{}");
    assert_eq!(PartialContact::from_json(&json("{}")), Ok(d));
    assert_eq!(PartialContact::from_json(&json("1")), Err(invalid_type("Contact")));
    assert_eq!(
        PartialContact::from_json(&json(r#"{"firstName": null}"#)),
        Err(invalid_type("String"))
    );
    assert_eq!(
        PartialContact::from_json(&json(r#"{"id": "i"}"#)).unwrap().id(),
        Presence::Present("i".to_string())
    );
}

#[test]
fn patch_with_own_projection_changes_nothing() {
    let c = alice();
    let p = c.to_partial();
    assert_eq!(p.id(), Presence::Present("c-1".to_string()));
    assert_eq!(text(&p.to_json()), ALICE_WRITTEN);
    assert_eq!(c.updated_with(&p), c);
    let d = Contact::default();
    assert_eq!(d.updated_with(&d.to_partial()), d);
}

#[test]
fn patch_with_nothing_changes_nothing() {
    let c = alice();
    assert_eq!(c.updated_with(&PartialContact::default()), c);
}

#[test]
fn patch_changes_only_what_it_gives() {
    let c = alice();
    let p = PartialContact::from_json(&json(r#"{"firstName": "Bob"}"#)).unwrap();
    let updated = c.updated_with(&p);
    assert_ne!(updated, c);
    let before = c.to_json();
    let after = updated.to_json();
    assert_eq!(keys(&before), keys(&after));
    for name in keys(&before) {
        if name == "firstName" {
            assert_eq!(field(&after, &name), Some(Json::String("Bob".to_string())));
        } else {
            assert_eq!(field(&after, &name), field(&before, &name), "{}", name);
        }
    }
    // the receiver is left as it was
    assert_eq!(text(&c.to_json()), ALICE_WRITTEN);
}

#[test]
fn patch_overlays_several_fields() {
    let c = alice();
    let p = PartialContact::from_json(&json(
        r#"{"id": "c-2", "avatar": null, "birthday": "1900-00-00", "emails": [], "isFlagged": false}"#,
    ))
    .unwrap();
    let updated = c.updated_with(&p);
    assert_eq!(updated.id(), "c-2");
    let after = updated.to_json();
    assert_eq!(field(&after, "avatar"), Some(Json::Null));
    assert_eq!(field(&after, "birthday"), Some(Json::String("1900-00-00".to_string())));
    assert_eq!(field(&after, "emails"), Some(Json::Array(vec![])));
    assert_eq!(field(&after, "isFlagged"), Some(Json::Boolean(false)));
    assert_eq!(field(&after, "lastName"), Some(Json::String("Liddell".to_string())));
    assert_eq!(field(&after, "phones"), field(&c.to_json(), "phones"));
}

#[test]
fn filtered_projection() {
    let c = alice();
    let props = vec!["firstName".to_string(), "frobnicate".to_string(), "emails".to_string()];
    let p = c.to_filtered_partial(&props);
    assert_eq!(p.id(), Presence::Present("c-1".to_string()));
    assert_eq!(
        text(&p.to_json()),
        r#"{"emails":[{"isDefault":true,"label":null,"type":"personal","value":"alice@example.org"}],"firstName":"Alice","id":"c-1"}"#
    );
}

#[test]
fn filtered_projection_always_gives_the_id() {
    let c = alice();
    assert_eq!(text(&c.to_filtered_partial(&vec![]).to_json()), r#"{"id":"c-1"}"#);
    assert_eq!(
        text(&c.to_filtered_partial(&vec!["id".to_string(), "first_name".to_string()]).to_json()),
        r#"{"id":"c-1"}"#
    );
    let all: Vec<String> = keys(&c.to_json());
    assert_eq!(c.to_filtered_partial(&all), c.to_partial());
    let twice = vec!["notes".to_string(), "notes".to_string()];
    assert_eq!(text(&c.to_filtered_partial(&twice).to_json()), r#"{"id":"c-1","notes":"late"}"#);
}
