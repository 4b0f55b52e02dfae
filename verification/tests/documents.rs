use tikv_doc_store::json::JsonDocument;
use tikv_doc_store::documents::{
    add_document_step, cas_free_document, delete_outcome, finish_get_document,
    finish_parsed_document, first_add_attempt, first_replace_attempt, replace_with_cas_step,
    replace_with_put_step, uses_compare_and_swap, WriteAttempt, WriteStep, MAX_RETRY,
};

fn finished(step: WriteStep) -> Result<String, String> {
    match step {
        WriteStep::Finished(r) => r.map_err(|e| e.error),
        WriteStep::RetryAfterPause(_) => panic!("expected a finished step"),
    }
}

fn retried(step: WriteStep) -> WriteAttempt {
    match step {
        WriteStep::RetryAfterPause(a) => a,
        WriteStep::Finished(_) => panic!("expected a retry"),
    }
}

#[test]
fn missing_document() {
    let e = finish_get_document(Ok(None), true).unwrap_err();
    assert_eq!(e.error, "Key Does Not Exits");
}

#[test]
fn store_error_is_passed_on() {
    let e = finish_get_document(Err("region error".to_string()), false).unwrap_err();
    assert_eq!(e.error, "region error");
}

#[test]
fn bytes_that_are_not_utf8() {
    let e = finish_get_document(Ok(Some(vec![0x7b, 0xff])), true).unwrap_err();
    assert_eq!(
        e.error,
        "UTF-8 conversion error: invalid utf-8 sequence of 1 bytes from index 1"
    );
}

#[test]
fn bytes_that_are_not_json() {
    let e = finish_get_document(Ok(Some(b"nope".to_vec())), true).unwrap_err();
    assert!(e.error.starts_with("JSON parsing error: "));
    assert!(e.error.len() > "JSON parsing error: ".len());
}

#[test]
fn read_with_cas_keeps_document() {
    let doc = finish_get_document(Ok(Some(br#"{ "cas" : "7", "x" : [1, 2] }"#.to_vec())), true)
        .unwrap();
    assert_eq!(doc.stored_text(), r#"{"cas":"7","x":[1,2]}"#);
}

#[test]
fn read_without_cas_drops_member() {
    let doc = finish_get_document(Ok(Some(br#"{ "cas" : "7", "x" : 1 }"#.to_vec())), false)
        .unwrap();
    assert_eq!(doc.stored_text(), r#"{"x":1}"#);
}

#[test]
fn read_without_cas_of_object_lacking_cas() {
    let doc = finish_get_document(Ok(Some(br#"{"x": true}"#.to_vec())), false).unwrap();
    assert_eq!(doc.stored_text(), r#"{"x":true}"#);
}

#[test]
fn read_without_cas_needs_object() {
    let e = finish_get_document(Ok(Some(b"[1, 2]".to_vec())), false).unwrap_err();
    assert_eq!(e.error, "Error while converting Value to object");
    let doc = finish_get_document(Ok(Some(b"[1, 2]".to_vec())), true).unwrap();
    assert_eq!(doc.stored_text(), "[1,2]");
}

fn doc(text: &str) -> JsonDocument {
    JsonDocument::from_value(serde_json::from_str(text).unwrap())
}

#[test]
fn parsed_document_steps() {
    let e = finish_parsed_document(Err("bad".to_string()), true).unwrap_err();
    assert_eq!(e.error, "JSON parsing error: bad");
    assert_eq!(finish_parsed_document(Ok(doc("3")), true).unwrap().stored_text(), "3");
    assert_eq!(
        finish_parsed_document(Ok(doc(r#"{"cas":1,"a":2}"#)), false).unwrap().stored_text(),
        r#"{"a":2}"#
    );
    assert_eq!(cas_free_document(Ok(doc("{}"))).unwrap().stored_text(), "{}");
    assert_eq!(
        cas_free_document(Err(doc("1"))).unwrap_err().error,
        "Error while converting Value to object"
    );
}

#[test]
fn document_keeps_parsed_value() {
    let value: serde_json::Value = serde_json::from_str(r#"{"pi":3.141592653589793,"n":[1,2]}"#).unwrap();
    let d = JsonDocument::from_value(value.clone());
    assert_eq!(d.stored_text(), &value.to_string());
    assert_eq!(d.into_value(), value);
    let read = finish_get_document(Ok(Some(b"{\"f\": 0.1e1}".to_vec())), true).unwrap();
    let direct: serde_json::Value = serde_json::from_str("{\"f\": 0.1e1}").unwrap();
    assert_eq!(read.into_value(), direct);
}

#[test]
fn first_attempts() {
    assert_eq!(first_add_attempt(None).retry, 0);
    assert_eq!(first_add_attempt(Some(4)).retry, 4);
    assert_eq!(first_replace_attempt(None).retry, 1);
    assert_eq!(first_replace_attempt(Some(0)).retry, 0);
    assert_eq!(first_replace_attempt(None).wraps, 0);
}

#[test]
fn add_succeeds() {
    let a = first_add_attempt(None);
    let r = finished(add_document_step(" k ", &a, Ok(())));
    assert_eq!(r.unwrap(), "New Record Added With Key:  k ");
}

#[test]
fn add_retries_while_count_is_at_most_ten() {
    let a = WriteAttempt { retry: MAX_RETRY, wraps: 3 };
    let n = retried(add_document_step("k", &a, Err("down".to_string())));
    assert_eq!(n.retry, 11);
    assert_eq!(n.wraps, 4);
}

#[test]
fn add_gives_up_after_ten() {
    let a = WriteAttempt { retry: 11, wraps: 2 };
    let r = finished(add_document_step("k", &a, Err("down".to_string())));
    assert_eq!(r.unwrap_err(), "GenericFailure, GenericFailure, down");
}

#[test]
fn add_run_of_failures_tries_twelve_times() {
    let mut a = first_add_attempt(None);
    let mut tries = 0;
    let answer = loop {
        tries += 1;
        match add_document_step("k", &a, Err("down".to_string())) {
            WriteStep::RetryAfterPause(n) => a = n,
            WriteStep::Finished(r) => break r,
        }
    };
    assert_eq!(tries, 12);
    let expected = format!("{}down", "GenericFailure, ".repeat(11));
    assert_eq!(answer.unwrap_err().error, expected);
}

#[test]
fn add_run_succeeding_late() {
    let mut a = first_add_attempt(Some(9));
    let r1 = add_document_step("k", &a, Err("x".to_string()));
    a = retried(r1);
    let r = finished(add_document_step("k", &a, Ok(())));
    assert_eq!(r.unwrap(), "New Record Added With Key: k");
}

#[test]
fn cas_is_used_only_when_given_and_nonempty() {
    assert!(!uses_compare_and_swap(&None));
    assert!(!uses_compare_and_swap(&Some(String::new())));
    assert!(uses_compare_and_swap(&Some("1".to_string())));
}

#[test]
fn cas_swap_succeeds() {
    let a = first_replace_attempt(None);
    let r = finished(replace_with_cas_step("k", &a, Ok(true)));
    assert_eq!(r.unwrap(), "Record Updated With CAS For Keyk");
}

#[test]
fn cas_not_swapped_retries_without_wrapping() {
    let a = first_replace_attempt(None);
    let n = retried(replace_with_cas_step("k", &a, Ok(false)));
    assert_eq!(n.retry, 2);
    assert_eq!(n.wraps, 0);
}

#[test]
fn cas_not_swapped_gives_up() {
    let a = WriteAttempt { retry: 11, wraps: 0 };
    let r = finished(replace_with_cas_step("k", &a, Ok(false)));
    assert_eq!(r.unwrap_err(), "Could not Update");
}

#[test]
fn cas_error_is_passed_on() {
    let a = first_replace_attempt(None);
    let r = finished(replace_with_cas_step("k", &a, Err("conflict".to_string())));
    assert_eq!(r.unwrap_err(), "conflict");
}

#[test]
fn cas_run_of_refusals_tries_eleven_times() {
    let mut a = first_replace_attempt(None);
    let mut tries = 0;
    let answer = loop {
        tries += 1;
        match replace_with_cas_step("k", &a, Ok(false)) {
            WriteStep::RetryAfterPause(n) => a = n,
            WriteStep::Finished(r) => break r,
        }
    };
    assert_eq!(tries, 11);
    assert_eq!(answer.unwrap_err().error, "Could not Update");
}

#[test]
fn replace_put_steps() {
    let a = first_replace_attempt(None);
    let r = finished(replace_with_put_step("k", &a, Ok(())));
    assert_eq!(r.unwrap(), "New Record Added With Keyk");
    let n = retried(replace_with_put_step("k", &a, Err("e".to_string())));
    assert_eq!((n.retry, n.wraps), (2, 1));
    let last = WriteAttempt { retry: 11, wraps: 1 };
    let r = finished(replace_with_put_step("k", &last, Err("e".to_string())));
    assert_eq!(r.unwrap_err(), "GenericFailure, e");
}

#[test]
fn delete_answers() {
    assert_eq!(delete_outcome("k1", Ok(())).unwrap(), "Record Deleted With Key: k1");
    assert_eq!(delete_outcome("k1", Err("gone".to_string())).unwrap_err().error, "gone");
}

#[test]
fn read_returns_written_text() {
    let written = r#"{"cas":"1","name":"Ada"}"#;
    let stored = written.to_string().into_bytes();
    assert_eq!(finish_get_document(Ok(Some(stored.clone())), true).unwrap().stored_text(), written);
    assert_eq!(
        finish_get_document(Ok(Some(stored)), false).unwrap().stored_text(),
        r#"{"name":"Ada"}"#
    );
}

#[test]
fn write_stores_compact_text_of_value() {
    let value: serde_json::Value = serde_json::from_str(r#"{ "b" : [ 1 , 2.5 ], "a" : null }"#).unwrap();
    let first = JsonDocument::from_value(value.clone());
    let second = JsonDocument::from_value(value.clone());
    assert_eq!(first.stored_text(), &value.to_string());
    assert_eq!(first.stored_text(), second.stored_text());
    let stored = first.stored_text().clone().into_bytes();
    let read = finish_get_document(Ok(Some(stored)), true).unwrap();
    assert_eq!(read.into_value(), value);
}
