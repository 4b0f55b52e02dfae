//! Single documents: what a read makes of the stored bytes, what a write or a
//! delete answers, and when a failed write is tried again.
//!
//! A write that fails is tried again after a pause while its retry count is at
//! most `MAX_RETRY`; each try counts one more. The answer is decided by the
//! step functions below, one call per try, from the outcome of that try.

use vstd::prelude::*;
use vstd::utf8::{
    decode_utf8, encode_utf8, encode_utf8_decode_utf8, encode_utf8_valid_utf8, valid_utf8,
};

use crate::error::{napi_error_text_times, result_view, ReturnError};
use crate::json::{
    compact_json_text,
    json_object_without, json_parse_result, parse_json, parsed_view, remove_object_member,
    JsonDocument,
};
use crate::text::{utf8_error_text, utf8_to_string};

verus! {

/// The highest retry count at which a failed write is tried again.
pub const MAX_RETRY: u32 = 10;

/// A read's answer once the object's `cas` member is to be taken out: the
/// object without it, or the reason when the document is not an object.
pub open spec fn cas_free_result(without_cas: Option<Seq<char>>) -> Result<Seq<char>, Seq<char>> {
    match without_cas {
        Some(doc) => Ok(doc),
        None => Err("Error while converting Value to object"@),
    }
}

/// A read's answer from the parsed document: with `with_cas` the document as
/// it is, else the object without its `cas` member.
pub open spec fn parsed_document_result(parsed: Result<Seq<char>, Seq<char>>, with_cas: bool) -> Result<
    Seq<char>,
    Seq<char>,
> {
    match parsed {
        Err(e) => Err("JSON parsing error: "@ + e),
        Ok(doc) => if with_cas {
            Ok(doc)
        } else {
            cas_free_result(json_object_without(doc, "cas"@))
        },
    }
}

/// The view of what a read fetched: the stored bytes if any, or the store's
/// error text.
pub open spec fn fetched_view(fetched: Result<Option<Vec<u8>>, String>) -> Result<
    Option<Seq<u8>>,
    Seq<char>,
> {
    match fetched {
        Ok(Some(b)) => Ok(Some(b@)),
        Ok(None) => Ok(None),
        Err(t) => Err(t@),
    }
}

/// A read's answer: the stored bytes must be present, be UTF-8 and hold JSON.
pub open spec fn get_document_result(fetched: Result<Option<Seq<u8>>, Seq<char>>, with_cas: bool) -> Result<
    Seq<char>,
    Seq<char>,
> {
    match fetched {
        Err(t) => Err(t),
        Ok(None) => Err("Key Does Not Exits"@),
        Ok(Some(bytes)) => if valid_utf8(bytes) {
            parsed_document_result(json_parse_result(decode_utf8(bytes)), with_cas)
        } else {
            Err("UTF-8 conversion error: "@ + utf8_error_text(bytes))
        },
    }
}

/// The view of a read's answer: the document's text, or the error's.
pub open spec fn document_view(r: Result<JsonDocument, ReturnError>) -> Result<Seq<char>, Seq<char>> {
    match r {
        Ok(d) => Ok(d@),
        Err(e) => Err(e.error@),
    }
}

/// The view of a removal of the `cas` member: the object without it, or
/// nothing when the document is not an object.
pub open spec fn removal_view(r: Result<JsonDocument, JsonDocument>) -> Option<Seq<char>> {
    match r {
        Ok(d) => Some(d@),
        Err(_) => None,
    }
}

/// A read's answer once the `cas` member was to be removed.
pub fn cas_free_document(without_cas: Result<JsonDocument, JsonDocument>) -> (r: Result<
    JsonDocument,
    ReturnError,
>)
    ensures
        document_view(r) == cas_free_result(removal_view(without_cas)),
{
    match without_cas {
        Ok(doc) => Ok(doc),
        Err(_) => Err(ReturnError { error: String::from_str("Error while converting Value to object") }),
    }
}

/// A read's answer from the parsed document (see `parsed_document_result`).
pub fn finish_parsed_document(parsed: Result<JsonDocument, String>, with_cas: bool) -> (r: Result<
    JsonDocument,
    ReturnError,
>)
    ensures
        document_view(r) == parsed_document_result(parsed_view(parsed), with_cas),
{
    match parsed {
        Err(e) => {
            let mut msg = String::from_str("JSON parsing error: ");
            msg.append(e.as_str());
            Err(ReturnError { error: msg })
        },
        Ok(doc) => {
            if with_cas {
                Ok(doc)
            } else {
                let cas = "cas";
                cas_free_document(remove_object_member(doc, cas))
            }
        },
    }
}

/// A read's answer from what the store gave back for the key.
pub fn finish_get_document(fetched: Result<Option<Vec<u8>>, String>, with_cas: bool) -> (r: Result<
    JsonDocument,
    ReturnError,
>)
    ensures
        document_view(r) == get_document_result(fetched_view(fetched), with_cas),
{
    match fetched {
        Err(t) => Err(ReturnError { error: t }),
        Ok(None) => Err(ReturnError { error: String::from_str("Key Does Not Exits") }),
        Ok(Some(bytes)) => {
            match utf8_to_string(bytes) {
                Err(e) => {
                    let mut msg = String::from_str("UTF-8 conversion error: ");
                    msg.append(e.as_str());
                    Err(ReturnError { error: msg })
                },
                Ok(text) => finish_parsed_document(parse_json(text.as_str()), with_cas),
            }
        },
    }
}

/// A read answers with a document only when the store held a value for the
/// key and that value is UTF-8; a key the store does not hold is answered with
/// `Key Does Not Exits`, with or without `withCas`, and a store error is passed
/// on as it is.
pub proof fn lemma_read_needs_a_stored_value(
    fetched: Result<Option<Seq<u8>>, Seq<char>>,
    with_cas: bool,
)
    ensures
        get_document_result(Ok(None), with_cas) == Err::<Seq<char>, Seq<char>>(
            "Key Does Not Exits"@,
        ),
        get_document_result(fetched, with_cas) is Ok ==> (fetched matches Ok(Some(bytes))
            && valid_utf8(bytes)),
        fetched matches Err(t) ==> get_document_result(fetched, with_cas) == Err::<
            Seq<char>,
            Seq<char>,
        >(t),
{
}

/// A read gives back what a write stored: a write of a value stores the UTF-8
/// encoding of its compact text (`JsonDocument::from_value`, then
/// `stored_text`); reading those bytes decodes that same text and answers as
/// its parse directs.
pub proof fn lemma_read_returns_written_text(value: serde_json::Value, with_cas: bool)
    ensures
        get_document_result(Ok(Some(encode_utf8(compact_json_text(value)))), with_cas)
            == parsed_document_result(json_parse_result(compact_json_text(value)), with_cas),
{
    let text = compact_json_text(value);
    encode_utf8_valid_utf8(text);
    encode_utf8_decode_utf8(text);
}

/// Where a write stands: its retry count, and how many enclosing tries will
/// each turn a final error into its N-API text once more.
#[derive(Debug)]
pub struct WriteAttempt {
    pub retry: u32,
    pub wraps: u32,
}

impl WriteAttempt {
    /// Every enclosing try counted one retry.
    pub open spec fn wf(self) -> bool {
        self.wraps <= self.retry
    }
}

/// How many more times a write in this state can be tried again.
pub open spec fn retries_left(attempt: WriteAttempt) -> nat {
    if attempt.retry <= MAX_RETRY {
        (MAX_RETRY + 1 - attempt.retry) as nat
    } else {
        0
    }
}

/// What follows one try of a write: the write's answer, or another try after a
/// pause of one second.
#[derive(Debug)]
pub enum WriteStep {
    Finished(Result<String, ReturnError>),
    RetryAfterPause(WriteAttempt),
}

/// A step that tries again does so with one retry more, only while retries are
/// left, and keeps the attempt well formed.
pub open spec fn retries_within_bound(attempt: WriteAttempt, step: WriteStep, wraps_grow: bool) -> bool {
    step matches WriteStep::RetryAfterPause(next) ==> {
        &&& attempt.retry <= MAX_RETRY
        &&& next.retry == attempt.retry + 1
        &&& next.wraps == (if wraps_grow {
            attempt.wraps + 1
        } else {
            attempt.wraps as int
        })
        &&& next.wf()
        &&& retries_left(next) + 1 == retries_left(attempt)
    }
}

/// The view of a finished step's answer.
pub open spec fn finished_with(step: WriteStep, answer: Result<Seq<char>, Seq<char>>) -> bool {
    step matches WriteStep::Finished(r) && result_view(r) == answer
}

/// The first try of an added document: retry count as given, else 0.
pub fn first_add_attempt(retry: Option<u32>) -> (r: WriteAttempt)
    ensures
        r.retry == (match retry {
            Some(n) => n,
            None => 0,
        }),
        r.wraps == 0,
        r.wf(),
{
    WriteAttempt {
        retry: match retry {
            Some(n) => n,
            None => 0,
        },
        wraps: 0,
    }
}

/// The first try of a replaced document: retry count as given, else 1.
pub fn first_replace_attempt(retry: Option<u32>) -> (r: WriteAttempt)
    ensures
        r.retry == (match retry {
            Some(n) => n,
            None => 1,
        }),
        r.wraps == 0,
        r.wf(),
{
    WriteAttempt {
        retry: match retry {
            Some(n) => n,
            None => 1,
        },
        wraps: 0,
    }
}

/// `prefix` followed by the caller's key.
fn message_with_key(prefix: &str, key: &str) -> (r: String)
    ensures
        r@ == prefix@ + key@,
{
    let mut msg = String::from_str(prefix);
    msg.append(key);
    msg
}

/// After one `put` of an added document: done when it succeeded; tried again
/// while retries are left; else the store's error, turned into N-API text
/// once for each enclosing try.
pub fn add_document_step(key: &str, attempt: &WriteAttempt, put: Result<(), String>) -> (r: WriteStep)
    requires
        attempt.wf(),
    ensures
        retries_within_bound(*attempt, r, true),
        put is Ok ==> finished_with(r, Ok("New Record Added With Key: "@ + key@)),
        put is Err && attempt.retry <= MAX_RETRY ==> r is RetryAfterPause,
        put is Err && attempt.retry > MAX_RETRY ==> finished_with(
            r,
            Err(napi_error_text_times(put->Err_0@, attempt.wraps as nat)),
        ),
{
    match put {
        Ok(()) => WriteStep::Finished(Ok(message_with_key("New Record Added With Key: ", key))),
        Err(t) => {
            if attempt.retry <= MAX_RETRY {
                WriteStep::RetryAfterPause(
                    WriteAttempt { retry: attempt.retry + 1, wraps: attempt.wraps + 1 },
                )
            } else {
                WriteStep::Finished(Err(ReturnError { error: t }.rewrapped_times(attempt.wraps)))
            }
        },
    }
}

/// Whether a replacement goes through compare-and-swap: a `cas` is given and
/// is not empty.
pub fn uses_compare_and_swap(cas: &Option<String>) -> (r: bool)
    ensures
        r == (cas is Some && cas->0@.len() > 0),
{
    match cas {
        Some(c) => !c.as_str().is_empty(),
        None => false,
    }
}

/// After one compare-and-swap of a replaced document: done when the swap took
/// place; tried again while retries are left when it did not; `Could not
/// Update` when none are left; the store's error as it is when the call failed.
pub fn replace_with_cas_step(key: &str, attempt: &WriteAttempt, swapped: Result<bool, String>) -> (r:
    WriteStep)
    requires
        attempt.wf(),
    ensures
        retries_within_bound(*attempt, r, false),
        swapped == Ok::<bool, String>(true) ==> finished_with(
            r,
            Ok("Record Updated With CAS For Key"@ + key@),
        ),
        swapped == Ok::<bool, String>(false) && attempt.retry <= MAX_RETRY ==> r is RetryAfterPause,
        swapped == Ok::<bool, String>(false) && attempt.retry > MAX_RETRY ==> finished_with(
            r,
            Err("Could not Update"@),
        ),
        swapped is Err ==> finished_with(r, Err(swapped->Err_0@)),
{
    match swapped {
        Ok(true) => WriteStep::Finished(
            Ok(message_with_key("Record Updated With CAS For Key", key)),
        ),
        Ok(false) => {
            if attempt.retry <= MAX_RETRY {
                WriteStep::RetryAfterPause(
                    WriteAttempt { retry: attempt.retry + 1, wraps: attempt.wraps },
                )
            } else {
                WriteStep::Finished(Err(ReturnError { error: String::from_str("Could not Update") }))
            }
        },
        Err(t) => WriteStep::Finished(Err(ReturnError { error: t })),
    }
}

/// After one `put` of a replaced document (no `cas` given): as for an added
/// document, with another message.
pub fn replace_with_put_step(key: &str, attempt: &WriteAttempt, put: Result<(), String>) -> (r:
    WriteStep)
    requires
        attempt.wf(),
    ensures
        retries_within_bound(*attempt, r, true),
        put is Ok ==> finished_with(r, Ok("New Record Added With Key"@ + key@)),
        put is Err && attempt.retry <= MAX_RETRY ==> r is RetryAfterPause,
        put is Err && attempt.retry > MAX_RETRY ==> finished_with(
            r,
            Err(napi_error_text_times(put->Err_0@, attempt.wraps as nat)),
        ),
{
    match put {
        Ok(()) => WriteStep::Finished(Ok(message_with_key("New Record Added With Key", key))),
        Err(t) => {
            if attempt.retry <= MAX_RETRY {
                WriteStep::RetryAfterPause(
                    WriteAttempt { retry: attempt.retry + 1, wraps: attempt.wraps + 1 },
                )
            } else {
                WriteStep::Finished(Err(ReturnError { error: t }.rewrapped_times(attempt.wraps)))
            }
        },
    }
}

/// A delete's answer: the caller's key when the store deleted it, else the
/// store's error.
pub fn delete_outcome(key: &str, deleted: Result<(), String>) -> (r: Result<String, ReturnError>)
    ensures
        result_view(r) == (match deleted {
            Ok(_) => Ok("Record Deleted With Key: "@ + key@),
            Err(t) => Err(t@),
        }),
{
    match deleted {
        Ok(()) => Ok(message_with_key("Record Deleted With Key: ", key)),
        Err(t) => Err(ReturnError { error: t }),
    }
}

} // verus!
