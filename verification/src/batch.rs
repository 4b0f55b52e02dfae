//! Answers of reads that return several entries: scans and batch reads.

use vstd::prelude::*;
use vstd::utf8::{decode_utf8, valid_utf8};

use crate::error::ReturnError;
use crate::json::{json_parse_result, parse_json, JsonDocument};
use crate::text::{lossy_utf8, remove_all, remove_all_occurrences, utf8_to_string_lossy};

verus! {

/// The keys a read returned, and, unless only keys were asked for, their
/// documents, in the same order.
#[derive(Debug)]
pub struct BatchResponse {
    pub keys: Vec<String>,
    pub values: Option<Vec<JsonDocument>>,
}

/// A key as a listing shows it: the stored bytes decoded (invalid UTF-8
/// replaced) with every occurrence of the prefix taken out.
pub open spec fn listed_key_text(raw: Seq<u8>, prefix: Seq<char>) -> Seq<char> {
    remove_all(lossy_utf8(raw), prefix)
}

/// The reason given when a returned document is not JSON.
pub open spec fn bad_value_reason() -> Seq<char> {
    "Error while parsing values in kev value pair"@
}

/// A key as a listing shows it. Valid UTF-8 is decoded as it is.
pub fn listed_key(raw: &[u8], prefix: &str) -> (r: String)
    ensures
        r@ == listed_key_text(raw@, prefix@),
        valid_utf8(raw@) ==> r@ == remove_all(decode_utf8(raw@), prefix@),
{
    let decoded = utf8_to_string_lossy(raw);
    remove_all_occurrences(decoded.as_str(), prefix)
}

/// The keys of a listing, in the order returned.
fn listed_keys(raw_keys: &Vec<Vec<u8>>, prefix: &str) -> (r: Vec<String>)
    ensures
        r@.len() == raw_keys@.len(),
        forall|i: int|
            0 <= i < raw_keys@.len() ==> #[trigger] r@[i]@ == listed_key_text(raw_keys@[i]@, prefix@),
        forall|i: int|
            0 <= i < raw_keys@.len() && valid_utf8(raw_keys@[i]@) ==> #[trigger] r@[i]@ == remove_all(
                decode_utf8(raw_keys@[i]@),
                prefix@,
            ),
{
    let mut out: Vec<String> = Vec::new();
    let mut i: usize = 0;
    while i < raw_keys.len()
        invariant
            i <= raw_keys@.len(),
            out@.len() == i,
            forall|j: int|
                0 <= j < i ==> #[trigger] out@[j]@ == listed_key_text(raw_keys@[j]@, prefix@),
            forall|j: int|
                0 <= j < i && valid_utf8(raw_keys@[j]@) ==> #[trigger] out@[j]@ == remove_all(
                    decode_utf8(raw_keys@[j]@),
                    prefix@,
                ),
        decreases raw_keys.len() - i,
    {
        out.push(listed_key(raw_keys[i].as_slice(), prefix));
        i = i + 1;
    }
    out
}

/// The answer of a scan that asked for keys only.
pub fn keys_only_response(raw_keys: &Vec<Vec<u8>>, prefix: &str) -> (r: BatchResponse)
    ensures
        r.values is None,
        r.keys@.len() == raw_keys@.len(),
        forall|i: int|
            0 <= i < raw_keys@.len() ==> #[trigger] r.keys@[i]@ == listed_key_text(raw_keys@[i]@, prefix@),
        forall|i: int|
            0 <= i < raw_keys@.len() && valid_utf8(raw_keys@[i]@) ==> #[trigger] r.keys@[i]@
                == remove_all(decode_utf8(raw_keys@[i]@), prefix@),
{
    BatchResponse { keys: listed_keys(raw_keys, prefix), values: None }
}

/// One returned document once parsed: the document, or the reason for the
/// whole listing when it is not JSON.
pub fn value_or_reason(parsed: Result<JsonDocument, String>) -> (r: Result<JsonDocument, ReturnError>)
    ensures
        match r {
            Ok(d) => parsed == Ok::<JsonDocument, String>(d),
            Err(e) => parsed is Err && e.error@ == bad_value_reason(),
        },
        r is Ok <==> parsed is Ok,
{
    match parsed {
        Ok(d) => Ok(d),
        Err(_) => Err(
            ReturnError { error: String::from_str("Error while parsing values in kev value pair") },
        ),
    }
}

/// The answer of a scan or batch read that returned key-value pairs: the keys
/// as listings show them, and each value decoded (invalid UTF-8 replaced) and
/// parsed as JSON; one value that is not JSON fails the whole read.
pub fn key_value_response(pairs: &Vec<(Vec<u8>, Vec<u8>)>, prefix: &str) -> (r: Result<
    BatchResponse,
    ReturnError,
>)
    ensures
        r is Ok <==> forall|i: int|
            0 <= i < pairs@.len() ==> #[trigger] json_parse_result(lossy_utf8(pairs@[i].1@)) is Ok,
        r matches Ok(resp) ==> {
            &&& resp.keys@.len() == pairs@.len()
            &&& resp.values matches Some(vals) && vals@.len() == pairs@.len()
            &&& forall|i: int|
                0 <= i < pairs@.len() ==> #[trigger] resp.keys@[i]@ == listed_key_text(
                    pairs@[i].0@,
                    prefix@,
                )
            &&& forall|i: int|
                0 <= i < pairs@.len() && valid_utf8(pairs@[i].0@) ==> #[trigger] resp.keys@[i]@
                    == remove_all(decode_utf8(pairs@[i].0@), prefix@)
            &&& forall|i: int|
                0 <= i < pairs@.len() ==> json_parse_result(lossy_utf8(pairs@[i].1@)) == Ok::<
                    Seq<char>,
                    Seq<char>,
                >(#[trigger] resp.values->0@[i]@)
            &&& forall|i: int|
                0 <= i < pairs@.len() && valid_utf8(pairs@[i].1@) ==> json_parse_result(
                    decode_utf8(pairs@[i].1@),
                ) == Ok::<Seq<char>, Seq<char>>(#[trigger] resp.values->0@[i]@)
        },
        r matches Err(e) ==> e.error@ == bad_value_reason(),
        (forall|i: int|
            0 <= i < pairs@.len() ==> valid_utf8(#[trigger] pairs@[i].1@) && json_parse_result(
                decode_utf8(pairs@[i].1@),
            ) is Ok) ==> r is Ok,
{
    let mut keys: Vec<String> = Vec::new();
    let mut vals: Vec<JsonDocument> = Vec::new();
    let mut i: usize = 0;
    while i < pairs.len()
        invariant
            i <= pairs@.len(),
            keys@.len() == i,
            vals@.len() == i,
            forall|j: int|
                0 <= j < i ==> #[trigger] keys@[j]@ == listed_key_text(pairs@[j].0@, prefix@),
            forall|j: int|
                0 <= j < i && valid_utf8(pairs@[j].0@) ==> #[trigger] keys@[j]@ == remove_all(
                    decode_utf8(pairs@[j].0@),
                    prefix@,
                ),
            forall|j: int|
                0 <= j < i ==> json_parse_result(lossy_utf8(pairs@[j].1@)) == Ok::<
                    Seq<char>,
                    Seq<char>,
                >(#[trigger] vals@[j]@),
            forall|j: int|
                0 <= j < i && valid_utf8(pairs@[j].1@) ==> json_parse_result(
                    decode_utf8(pairs@[j].1@),
                ) == Ok::<Seq<char>, Seq<char>>(#[trigger] vals@[j]@),
        decreases pairs.len() - i,
    {
        keys.push(listed_key(pairs[i].0.as_slice(), prefix));
        let text = utf8_to_string_lossy(pairs[i].1.as_slice());
        let parsed = parse_json(text.as_str());
        match value_or_reason(parsed) {
            Ok(doc) => {
                vals.push(doc);
            },
            Err(e) => {
                assert(!(json_parse_result(lossy_utf8(pairs@[i as int].1@)) is Ok));
                assert(!(valid_utf8(pairs@[i as int].1@) && json_parse_result(
                    decode_utf8(pairs@[i as int].1@),
                ) is Ok));
                return Err(e);
            },
        }
        i = i + 1;
    }
    assert forall|j: int| 0 <= j < pairs@.len() implies #[trigger] json_parse_result(
        lossy_utf8(pairs@[j].1@),
    ) is Ok by {
        assert(json_parse_result(lossy_utf8(pairs@[j].1@)) == Ok::<Seq<char>, Seq<char>>(vals@[j]@));
    }
    Ok(BatchResponse { keys, values: Some(vals) })
}

} // verus!
