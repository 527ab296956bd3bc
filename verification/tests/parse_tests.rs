use jmap::json::{Json, TextMap};
use jmap::parse::{
    from_json_field, from_json_field_opt, to_json_field, to_json_field_opt, Duplicate, FromJson,
    FromJsonField, ParseError, Presence, ToJson, ToJsonField,
};
use rustc_serialize::json::Json as Outer;

fn lift(j: &Outer) -> Json {
    match j {
        Outer::Null => Json::Null,
        Outer::Boolean(b) => Json::Boolean(*b),
        Outer::I64(n) => Json::I64(*n),
        Outer::U64(n) => Json::U64(*n),
        Outer::F64(x) => Json::F64(x.to_bits()),
        Outer::String(s) => Json::String(s.clone()),
        Outer::Array(a) => Json::Array(a.iter().map(lift).collect()),
        Outer::Object(o) => {
            let mut m = TextMap::new();
            for (k, v) in o.iter() {
                m.insert(k.clone(), lift(v));
            }
            Json::Object(m)
        }
    }
}

fn lower(j: &Json) -> Outer {
    match j {
        Json::Null => Outer::Null,
        Json::Boolean(b) => Outer::Boolean(*b),
        Json::I64(n) => Outer::I64(*n),
        Json::U64(n) => Outer::U64(*n),
        Json::F64(bits) => Outer::F64(f64::from_bits(*bits)),
        Json::String(s) => Outer::String(s.clone()),
        Json::Array(a) => Outer::Array(a.iter().map(lower).collect()),
        Json::Object(o) => {
            let mut m = std::collections::BTreeMap::new();
            for i in 0..o.len() {
                m.insert(o.key_at(i).clone(), lower(o.value_at(i)));
            }
            Outer::Object(m)
        }
    }
}

/// The JSON value that `text` writes.
fn json(text: &str) -> Json {
    lift(&Outer::from_str(text).unwrap())
}

/// `j` as compact JSON text.
fn text(j: &Json) -> String {
    lower(j).to_string()
}

fn invalid_type(name: &str) -> ParseError {
    ParseError::InvalidJsonType(name.to_string())
}

fn invalid_structure(name: &str) -> ParseError {
    ParseError::InvalidStructure(name.to_string())
}

fn object(text: &str) -> TextMap<Json> {
    match json(text) {
        Json::Object(o) => o,
        _ => panic!("not an object"),
    }
}

#[test]
fn string_from_json() {
    assert_eq!(String::from_json(&json(r#""hello""#)), Ok("hello".to_string()));
    assert_eq!(String::from_json(&json(r#""""#)), Ok(String::new()));
    assert_eq!(String::from_json(&json("1")), Err(invalid_type("String")));
    assert_eq!(String::from_json(&json("null")), Err(invalid_type("String")));
    assert_eq!(String::from_json(&json("[]")), Err(invalid_type("String")));
}

#[test]
fn u64_from_json_takes_both_integer_forms() {
    assert_eq!(u64::from_json(&Json::U64(7)), Ok(7));
    assert_eq!(u64::from_json(&Json::I64(7)), Ok(7));
    assert_eq!(u64::from_json(&Json::U64(u64::MAX)), Ok(u64::MAX));
    assert_eq!(u64::from_json(&Json::I64(-1)), Ok(u64::MAX));
    assert_eq!(u64::from_json(&Json::F64(1.0f64.to_bits())), Err(invalid_type("u64")));
    assert_eq!(u64::from_json(&json(r#""7""#)), Err(invalid_type("u64")));
    assert_eq!(u64::from_json(&json("12")), Ok(12));
}

#[test]
fn signed_integers_from_json() {
    assert_eq!(i64::from_json(&Json::I64(-7)), Ok(-7));
    assert_eq!(i64::from_json(&Json::U64(7)), Ok(7));
    assert_eq!(i64::from_json(&Json::Boolean(true)), Err(invalid_type("i64")));
    assert_eq!(i32::from_json(&Json::I64(-7)), Ok(-7));
    assert_eq!(i32::from_json(&Json::U64(7)), Ok(7));
    assert_eq!(i32::from_json(&Json::Null), Err(invalid_type("i32")));
    assert_eq!((-5i32).to_json(), Json::I64(-5));
    assert_eq!((-5i64).to_json(), Json::I64(-5));
    assert_eq!(i32::from_json(&i32::MIN.to_json()), Ok(i32::MIN));
    assert_eq!(i64::from_json(&i64::MAX.to_json()), Ok(i64::MAX));
}

#[test]
fn bool_from_json() {
    assert_eq!(bool::from_json(&json("true")), Ok(true));
    assert_eq!(bool::from_json(&json("false")), Ok(false));
    assert_eq!(bool::from_json(&json("0")), Err(invalid_type("bool")));
}

#[test]
fn primitives_to_json() {
    assert_eq!("x".to_string().to_json(), Json::String("x".to_string()));
    assert_eq!(9u64.to_json(), Json::U64(9));
    assert_eq!(true.to_json(), Json::Boolean(true));
    assert_eq!(Some(3u64).to_json(), Json::U64(3));
    assert_eq!(None::<u64>.to_json(), Json::Null);
}

#[test]
fn vec_from_json() {
    assert_eq!(Vec::<u64>::from_json(&json("[]")), Ok(vec![]));
    assert_eq!(Vec::<u64>::from_json(&json("[1, 2, 3]")), Ok(vec![1, 2, 3]));
    assert_eq!(
        Vec::<String>::from_json(&json(r#"["a", "b"]"#)),
        Ok(vec!["a".to_string(), "b".to_string()])
    );
    assert_eq!(Vec::<u64>::from_json(&json("{}")), Err(invalid_type("Vec")));
    assert_eq!(
        Vec::<Vec<bool>>::from_json(&json("[[true], [], [false, true]]")),
        Ok(vec![vec![true], vec![], vec![false, true]])
    );
}

#[test]
fn vec_first_error_wins() {
    // the second item fails as a string, the third would fail too
    assert_eq!(
        Vec::<String>::from_json(&json(r#"["a", 1, "c"]"#)),
        String::from_json(&json("1")).map(|s| vec![s])
    );
    assert_eq!(
        Vec::<Vec<u64>>::from_json(&json(r#"[[1], [2, "x"], 7, [true]]"#)),
        Err(invalid_type("u64"))
    );
    assert_eq!(
        Vec::<Vec<u64>>::from_json(&json(r#"[[1], 7, [2, "x"]]"#)),
        Err(invalid_type("Vec"))
    );
}

#[test]
fn vec_round_trip() {
    let v = vec!["x".to_string(), "".to_string(), "zz".to_string()];
    assert_eq!(text(&v.to_json()), r#"["x","","zz"]"#);
    assert_eq!(Vec::<String>::from_json(&v.to_json()), Ok(v));
}

#[test]
fn map_from_json() {
    let m = TextMap::<u64>::from_json(&json(r#"{"b": 2, "a": 1}"#)).unwrap();
    assert_eq!(m.len(), 2);
    assert_eq!(m.get("a"), Some(&1));
    assert_eq!(m.get("b"), Some(&2));
    assert_eq!(m.key_at(0), "a");
    assert_eq!(text(&m.to_json()), r#"{"a":1,"b":2}"#);
    assert_eq!(TextMap::<u64>::from_json(&m.to_json()), Ok(m));
    assert_eq!(TextMap::<u64>::from_json(&json("[]")), Err(invalid_type("BTreeMap")));
    assert_eq!(TextMap::<u64>::from_json(&json("{}")).unwrap().len(), 0);
}

#[test]
fn map_first_error_in_key_order_wins() {
    assert_eq!(
        TextMap::<Vec<u64>>::from_json(&json(r#"{"c": 1, "a": [1], "b": ["x"]}"#)),
        Err(invalid_type("u64"))
    );
    assert_eq!(
        TextMap::<Vec<u64>>::from_json(&json(r#"{"b": 1, "a": [1], "c": ["x"]}"#)),
        Err(invalid_type("Vec"))
    );
}

#[test]
fn required_field() {
    let o = object(r#"{"n": 4, "s": "x", "z": null}"#);
    assert_eq!(from_json_field::<u64>(&o, "n"), Ok(4));
    assert_eq!(from_json_field::<String>(&o, "s"), Ok("x".to_string()));
    assert_eq!(from_json_field::<u64>(&o, "s"), Err(invalid_type("u64")));
    assert_eq!(from_json_field::<u64>(&o, "z"), Err(invalid_type("u64")));
    assert_eq!(
        from_json_field::<u64>(&o, "missing"),
        Err(ParseError::MissingField("missing".to_string()))
    );
    assert_eq!(<u64 as FromJsonField>::from_json_field(&o, "n"), Ok(4));
    assert_eq!(
        <u64 as FromJsonField>::from_json_field(&o, "nn"),
        Err(ParseError::MissingField("nn".to_string()))
    );
}

#[test]
fn optional_field() {
    let o = object(r#"{"n": 4, "s": "x", "z": null}"#);
    assert_eq!(from_json_field_opt::<u64>(&o, "n"), Ok(Some(4)));
    assert_eq!(from_json_field_opt::<u64>(&o, "z"), Ok(None));
    assert_eq!(from_json_field_opt::<u64>(&o, "missing"), Ok(None));
    assert_eq!(from_json_field_opt::<u64>(&o, "s"), Err(invalid_type("u64")));
    assert_eq!(<Option<u64> as FromJsonField>::from_json_field(&o, "n"), Ok(Some(4)));
    assert_eq!(<Option<u64> as FromJsonField>::from_json_field(&o, "z"), Ok(None));
    assert_eq!(<Option<u64> as FromJsonField>::from_json_field(&o, "q"), Ok(None));
}

#[test]
fn presence_field() {
    let o = object(r#"{"n": 4, "s": "x", "z": null}"#);
    assert_eq!(<Presence<u64> as FromJsonField>::from_json_field(&o, "n"), Ok(Presence::Present(4)));
    assert_eq!(<Presence<u64> as FromJsonField>::from_json_field(&o, "q"), Ok(Presence::Absent));
    // null is no u64: a field that is given must read as its type
    assert_eq!(
        <Presence<u64> as FromJsonField>::from_json_field(&o, "z"),
        Err(invalid_type("u64"))
    );
    assert_eq!(
        <Presence<u64> as FromJsonField>::from_json_field(&o, "s"),
        Err(invalid_type("u64"))
    );
}

#[test]
fn presence_of_optional_field_has_three_states() {
    let o = object(r#"{"n": 4, "s": "x", "z": null}"#);
    assert_eq!(
        <Presence<Option<u64>> as FromJsonField>::from_json_field(&o, "q"),
        Ok(Presence::Absent)
    );
    assert_eq!(
        <Presence<Option<u64>> as FromJsonField>::from_json_field(&o, "z"),
        Ok(Presence::Present(None))
    );
    assert_eq!(
        <Presence<Option<u64>> as FromJsonField>::from_json_field(&o, "n"),
        Ok(Presence::Present(Some(4)))
    );
    assert_eq!(
        <Presence<Option<u64>> as FromJsonField>::from_json_field(&o, "s"),
        Err(invalid_type("u64"))
    );
}

#[test]
fn writing_fields() {
    let mut o: TextMap<Json> = TextMap::new();
    to_json_field(&mut o, "b", &2u64);
    to_json_field(&mut o, "a", &"x".to_string());
    to_json_field_opt(&mut o, "n", &None::<u64>);
    to_json_field_opt(&mut o, "m", &Some(true));
    assert_eq!(text(&Json::Object(o.clone())), r#"{"a":"x","b":2,"m":true,"n":null}"#);
    to_json_field(&mut o, "a", &false);
    assert_eq!(text(&Json::Object(o)), r#"{"a":false,"b":2,"m":true,"n":null}"#);
}

#[test]
fn presence_omission() {
    let mut o: TextMap<Json> = TextMap::new();
    Presence::<u64>::Absent.to_json_field(&mut o, "gone");
    assert_eq!(o.len(), 0);
    assert_eq!(o.get("gone"), None);
    Presence::Present(5u64).to_json_field(&mut o, "here");
    assert_eq!(o.len(), 1);
    assert_eq!(o.get("here"), Some(&Json::U64(5)));
    Presence::Present(None::<u64>).to_json_field(&mut o, "null");
    assert_eq!(o.get("null"), Some(&Json::Null));
    Presence::<Option<u64>>::Absent.to_json_field(&mut o, "gone");
    assert_eq!(o.len(), 2);
    7u64.to_json_field(&mut o, "plain");
    Some("x".to_string()).to_json_field(&mut o, "some");
    None::<String>.to_json_field(&mut o, "none");
    assert_eq!(
        text(&Json::Object(o)),
        r#"{"here":5,"none":null,"null":null,"plain":7,"some":"x"}"#
    );
}

#[test]
fn presence_as_option() {
    assert_eq!(Presence::Present(3).as_option(), Some(&3));
    assert_eq!(Presence::<u64>::Absent.as_option(), None);
    assert_eq!(Presence::Present(None::<u64>).as_option(), Some(&None));
}

#[test]
fn duplicates_are_equal() {
    assert_eq!("abc".to_string().duplicate(), "abc");
    assert_eq!(vec![1u64, 2].duplicate(), vec![1, 2]);
    assert_eq!(Some(vec![true]).duplicate(), Some(vec![true]));
    assert_eq!(Presence::Present(4i32).duplicate(), Presence::Present(4));
    assert_eq!(Presence::<bool>::Absent.duplicate(), Presence::Absent);
    let mut m: TextMap<String> = TextMap::new();
    m.insert("k".to_string(), "v".to_string());
    m.insert("a".to_string(), "b".to_string());
    assert_eq!(m.duplicate(), m);
}

#[test]
fn parse_error_description() {
    assert_eq!(invalid_type("u64").description(), "invalid JSON type for conversion");
    assert_eq!(invalid_structure("X").description(), "invalid value structure for conversion");
    assert_eq!(ParseError::MissingField("f".to_string()).description(), "missing field");
    assert_eq!(ParseError::UnknownMethod("m".to_string()).description(), "unknown method");
}

#[test]
fn parse_error_to_string() {
    assert_eq!(invalid_type("u64").to_string(), "invalid JSON type for conversion to u64");
    assert_eq!(
        invalid_structure("OptionDate").to_string(),
        "invalid value structure for conversion to OptionDate"
    );
    assert_eq!(ParseError::MissingField("state".to_string()).to_string(), "missing field \"state\"");
    assert_eq!(ParseError::UnknownMethod("frob".to_string()).to_string(), "unknown method \"frob\"");
}
