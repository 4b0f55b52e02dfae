use tikv_doc_store::batch::{key_value_response, keys_only_response, listed_key, value_or_reason};
use tikv_doc_store::json::JsonDocument;

#[test]
fn listed_key_strips_prefix() {
    assert_eq!(listed_key(b"kp_doc", "kp_"), "doc");
    assert_eq!(listed_key(b"kp_doc", ""), "kp_doc");
}

#[test]
fn listed_key_replaces_invalid_utf8() {
    assert_eq!(listed_key(&[b'k', 0xff, b'a'], ""), "k\u{fffd}a");
}

#[test]
fn keys_only_answer() {
    let raw = vec![b"kp_a".to_vec(), b"kp_b".to_vec()];
    let r = keys_only_response(&raw, "kp_");
    assert_eq!(r.keys, vec!["a".to_string(), "b".to_string()]);
    assert!(r.values.is_none());
}

#[test]
fn key_value_answer_parses_documents() {
    let pairs = vec![
        (b"kp_a".to_vec(), br#"{ "n" : 1 }"#.to_vec()),
        (b"kp_b".to_vec(), b" true ".to_vec()),
    ];
    let r = key_value_response(&pairs, "kp_").unwrap();
    assert_eq!(r.keys, vec!["a".to_string(), "b".to_string()]);
    let texts: Vec<String> = r.values.unwrap().iter().map(|d| d.stored_text().clone()).collect();
    assert_eq!(texts, vec![r#"{"n":1}"#.to_string(), "true".to_string()]);
}

#[test]
fn key_value_answer_of_nothing() {
    let r = key_value_response(&vec![], "").unwrap();
    assert!(r.keys.is_empty());
    assert_eq!(r.values.unwrap().len(), 0);
}

#[test]
fn key_value_answer_fails_on_one_bad_document() {
    let pairs = vec![
        (b"a".to_vec(), b"1".to_vec()),
        (b"b".to_vec(), b"{oops".to_vec()),
    ];
    let e = key_value_response(&pairs, "").unwrap_err();
    assert_eq!(e.error, "Error while parsing values in kev value pair");
}

#[test]
fn each_value_or_the_reason() {
    let d = JsonDocument::from_value(serde_json::from_str("[1]").unwrap());
    assert_eq!(value_or_reason(Ok(d)).unwrap().stored_text(), "[1]");
    assert_eq!(
        value_or_reason(Err("e".to_string())).unwrap_err().error,
        "Error while parsing values in kev value pair"
    );
}
