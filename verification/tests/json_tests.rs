use jmap::json::{Json, TextMap};
use jmap::text::{comes_before, same_text, starts_with, to_chars};

fn s(text: &str) -> Json {
    Json::String(text.to_string())
}

#[test]
fn text_map_starts_empty() {
    let m: TextMap<u64> = TextMap::new();
    assert_eq!(m.len(), 0);
    assert_eq!(m.get("a"), None);
}

#[test]
fn text_map_keeps_keys_in_order() {
    let mut m: TextMap<u64> = TextMap::new();
    assert_eq!(m.insert("pear".to_string(), 1), None);
    assert_eq!(m.insert("apple".to_string(), 2), None);
    assert_eq!(m.insert("zebra".to_string(), 3), None);
    assert_eq!(m.insert("mango".to_string(), 4), None);
    assert_eq!(m.insert("Zulu".to_string(), 5), None);
    assert_eq!(m.len(), 5);
    let keys: Vec<&str> = (0..m.len()).map(|i| m.key_at(i).as_str()).collect();
    assert_eq!(keys, vec!["Zulu", "apple", "mango", "pear", "zebra"]);
    let values: Vec<u64> = (0..m.len()).map(|i| *m.value_at(i)).collect();
    assert_eq!(values, vec![5, 2, 4, 1, 3]);
    assert_eq!(m.get("mango"), Some(&4));
    assert_eq!(m.get("grape"), None);
}

#[test]
fn text_map_insert_replaces() {
    let mut m: TextMap<u64> = TextMap::new();
    m.insert("a".to_string(), 1);
    m.insert("b".to_string(), 2);
    m.insert("c".to_string(), 3);
    assert_eq!(m.insert("b".to_string(), 20), Some(2));
    assert_eq!(m.insert("c".to_string(), 30), Some(3));
    assert_eq!(m.insert("a".to_string(), 10), Some(1));
    assert_eq!(m.len(), 3);
    assert_eq!(m.get("a"), Some(&10));
    assert_eq!(m.get("b"), Some(&20));
    assert_eq!(m.get("c"), Some(&30));
}

#[test]
fn text_map_orders_by_bytes() {
    let mut m: TextMap<u64> = TextMap::new();
    for (i, key) in ["é", "z", "", "ab", "a", "日本", "aa"].iter().enumerate() {
        m.insert(key.to_string(), i as u64);
    }
    let keys: Vec<String> = (0..m.len()).map(|i| m.key_at(i).clone()).collect();
    let mut expected: Vec<String> =
        ["é", "z", "", "ab", "a", "日本", "aa"].iter().map(|k| k.to_string()).collect();
    expected.sort();
    assert_eq!(keys, expected);
}

#[test]
fn text_map_equal_whatever_the_order_of_insertion() {
    let mut a: TextMap<u64> = TextMap::new();
    a.insert("x".to_string(), 1);
    a.insert("y".to_string(), 2);
    let mut b: TextMap<u64> = TextMap::new();
    b.insert("y".to_string(), 2);
    b.insert("x".to_string(), 1);
    assert_eq!(a, b);
    assert_eq!(a.clone(), b);
    b.insert("x".to_string(), 3);
    assert_ne!(a, b);
}

#[test]
fn json_clone_is_equal() {
    let mut inner = TextMap::new();
    inner.insert("k".to_string(), Json::Array(vec![Json::Null, Json::Boolean(true), Json::I64(-3)]));
    inner.insert("f".to_string(), Json::F64(1.5f64.to_bits()));
    let mut outer = TextMap::new();
    outer.insert("o".to_string(), Json::Object(inner));
    outer.insert("u".to_string(), Json::U64(7));
    outer.insert("s".to_string(), s("text"));
    let j = Json::Object(outer);
    let copy = j.clone();
    assert_eq!(copy, j);
    assert_ne!(copy, Json::Null);
}

#[test]
fn same_text_compares_characters() {
    assert!(same_text("", ""));
    assert!(same_text("abc", "abc"));
    assert!(!same_text("abc", "abd"));
    assert!(!same_text("abc", "ab"));
    assert!(!same_text("ab", "abc"));
    assert!(same_text("héllo", "héllo"));
    assert!(!same_text("héllo", "hello"));
}

#[test]
fn comes_before_is_the_order_of_strings() {
    let words = ["", "a", "A", "ab", "b", "é", "z", "日本", "aa", "a\u{0}"];
    for x in words {
        for y in words {
            assert_eq!(comes_before(x, y), x < y, "{:?} {:?}", x, y);
        }
    }
}

#[test]
fn starts_with_checks_the_prefix() {
    assert!(starts_with("x-custom", "x-"));
    assert!(starts_with("x-", "x-"));
    assert!(starts_with("abc", ""));
    assert!(!starts_with("x", "x-"));
    assert!(!starts_with("", "x-"));
    assert!(!starts_with("y-custom", "x-"));
    assert!(starts_with("日本語", "日本"));
}

#[test]
fn to_chars_gives_the_characters() {
    assert_eq!(to_chars(""), Vec::<char>::new());
    assert_eq!(to_chars("aé日"), vec!['a', 'é', '日']);
}

#[test]
fn text_map_finds_every_key() {
    for size in [0usize, 1, 2, 3, 7, 8, 64, 100] {
        let mut m: TextMap<usize> = TextMap::new();
        for i in 0..size {
            // spread the keys so that they do not come in order
            let n = (i * 37) % size.max(1);
            m.insert(format!("key-{:03}", n * 2), n);
        }
        assert_eq!(m.len(), size);
        for n in 0..size {
            assert_eq!(m.get(&format!("key-{:03}", n * 2)), Some(&n));
            assert_eq!(m.get(&format!("key-{:03}", n * 2 + 1)), None);
        }
        assert_eq!(m.get(""), None);
        assert_eq!(m.get("key-"), None);
        assert_eq!(m.get("zzz"), None);
        for i in 1..m.len() {
            assert!(m.key_at(i - 1) < m.key_at(i));
        }
    }
}
