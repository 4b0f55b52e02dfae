//! Keys: every document of a project is stored under `k<project>_<key>`, with
//! the project name trimmed and lower-cased and the key trimmed; a key may not
//! hold `~`, which closes a project's key range in scans.

use vstd::prelude::*;

use crate::error::{napi_error_text, result_view, ReturnError};
use crate::text::{
    contains_char, lemma_key_characters_are_not_white_space,
    lemma_remove_all_absent, lemma_trim_keeps_solid_text, lemma_remove_all_leading, lowercase_of, occurs_in,
    push_char, remove_all, to_lowercase, trim_white_space, trimmed,
};

verus! {

/// The stored key of `trimmed_key` in the project whose lower-cased name is
/// `lowered_project`.
pub open spec fn namespaced_key(lowered_project: Seq<char>, trimmed_key: Seq<char>) -> Seq<char> {
    seq!['k'] + lowered_project + seq!['_'] + trimmed_key
}

/// The stored key of `key` in `project`, or the reason it has none.
pub open spec fn project_key_result(project: Seq<char>, key: Seq<char>) -> Result<
    Seq<char>,
    Seq<char>,
> {
    if trimmed(project).len() == 0 {
        Err("tikv:project cannot be empty"@)
    } else if trimmed(key).contains('~') {
        Err("tikv:invalid character in key: ~"@)
    } else {
        Ok(namespaced_key(lowercase_of(trimmed(project)), trimmed(key)))
    }
}

/// The text view of an optional project name.
pub open spec fn opt_text(o: Option<String>) -> Option<Seq<char>> {
    match o {
        Some(s) => Some(s@),
        None => None,
    }
}

/// Whether a request names a project: it gives one, and not the empty text.
pub open spec fn names_project(project: Option<Seq<char>>) -> bool {
    project is Some && project->0.len() > 0
}

/// The key under which a single document is read, written or deleted: the
/// project's key when a project is named, else the key as given. A refused
/// key is reported by its error's text.
pub open spec fn document_key_result(key: Seq<char>, project: Option<Seq<char>>) -> Result<
    Seq<char>,
    Seq<char>,
> {
    if names_project(project) {
        match project_key_result(project->0, key) {
            Ok(k) => Ok(k),
            Err(e) => Err(napi_error_text(e)),
        }
    } else {
        Ok(key)
    }
}

/// The text that listings take out of the keys they return: `k`, the project
/// name lower-cased (not trimmed), and `_`.
pub open spec fn key_prefix(project: Seq<char>) -> Seq<char> {
    seq!['k'] + lowercase_of(project) + seq!['_']
}

/// The prefix taken out of listed keys: that of the named project, else none.
pub open spec fn listing_prefix_of(project: Option<Seq<char>>) -> Seq<char> {
    if names_project(project) {
        key_prefix(project->0)
    } else {
        Seq::empty()
    }
}

/// Builds `k<lowered_project>_<trimmed_key>`.
pub fn compose_project_key(lowered_project: &str, trimmed_key: &str) -> (r: String)
    ensures
        r@ == namespaced_key(lowered_project@, trimmed_key@),
{
    let mut out = String::new();
    push_char(&mut out, 'k');
    out.append(lowered_project);
    push_char(&mut out, '_');
    out.append(trimmed_key);
    assert(out@ =~= namespaced_key(lowered_project@, trimmed_key@));
    out
}

/// The stored key of `key` in `project`: the project name must not be blank
/// and the trimmed key must not hold `~`.
pub fn get_project_level_key_with_global_prefix(project: &str, key: &str) -> (r: Result<
    String,
    ReturnError,
>)
    ensures
        result_view(r) == project_key_result(project@, key@),
{
    let trimmed_project = trim_white_space(project);
    if trimmed_project.as_str().is_empty() {
        return Err(ReturnError { error: String::from_str("tikv:project cannot be empty") });
    }
    let trimmed_key = trim_white_space(key);
    if contains_char(trimmed_key.as_str(), '~') {
        return Err(ReturnError { error: String::from_str("tikv:invalid character in key: ~") });
    }
    let lowered = to_lowercase(trimmed_project.as_str());
    Ok(compose_project_key(lowered.as_str(), trimmed_key.as_str()))
}

/// Whether `project_name` names a project.
pub fn names_a_project(project_name: &Option<String>) -> (r: bool)
    ensures
        r == names_project(opt_text(*project_name)),
{
    match project_name {
        Some(p) => !p.as_str().is_empty(),
        None => false,
    }
}

/// The key under which a single document is read, written or deleted.
pub fn resolve_document_key(key: &str, project_name: &Option<String>) -> (r: Result<
    String,
    ReturnError,
>)
    ensures
        result_view(r) == document_key_result(key@, opt_text(*project_name)),
{
    match project_name {
        Some(p) if !p.as_str().is_empty() => {
            match get_project_level_key_with_global_prefix(p.as_str(), key) {
                Ok(k) => Ok(k),
                Err(e) => Err(e.rewrapped()),
            }
        },
        _ => Ok(String::from_str(key)),
    }
}

/// The prefix that listings take out of the keys they return.
pub fn listing_prefix(project_name: &Option<String>) -> (r: String)
    ensures
        r@ == listing_prefix_of(opt_text(*project_name)),
{
    let mut out = String::new();
    match project_name {
        Some(p) if !p.as_str().is_empty() => {
            let lowered = to_lowercase(p.as_str());
            push_char(&mut out, 'k');
            out.append(lowered.as_str());
            push_char(&mut out, '_');
            assert(out@ =~= key_prefix(p@));
        },
        _ => {},
    }
    out
}

/// Within one project, two keys are stored apart unless they are the same key
/// once trimmed.
pub proof fn lemma_project_keys_distinct(project: Seq<char>, key1: Seq<char>, key2: Seq<char>)
    requires
        project_key_result(project, key1) is Ok,
        project_key_result(project, key2) is Ok,
        project_key_result(project, key1) == project_key_result(project, key2),
    ensures
        trimmed(key1) == trimmed(key2),
{
    let lowered = lowercase_of(trimmed(project));
    let n = lowered.len() + 2;
    let a = namespaced_key(lowered, trimmed(key1));
    let b = namespaced_key(lowered, trimmed(key2));
    assert(a.skip(n as int) =~= trimmed(key1));
    assert(b.skip(n as int) =~= trimmed(key2));
}

/// A listing gives back the key that was written: taking the project's prefix
/// out of a stored key leaves the trimmed key, when the project name has no
/// surrounding white space and the prefix does not occur again inside the key.
/// With no project named, keys are stored and listed as they are.
pub proof fn lemma_listing_returns_written_key(project: Option<Seq<char>>, key: Seq<char>)
    requires
        document_key_result(key, project) is Ok,
        names_project(project) ==> trimmed(project->0) == project->0,
        names_project(project) ==> !occurs_in(trimmed(key), key_prefix(project->0)),
    ensures
        remove_all(document_key_result(key, project)->Ok_0, listing_prefix_of(project)) == (if names_project(project) {
            trimmed(key)
        } else {
            key
        }),
{
    if names_project(project) {
        let p = project->0;
        let pre = key_prefix(p);
        assert(document_key_result(key, project)->Ok_0 =~= pre + trimmed(key));
        lemma_remove_all_leading(pre, trimmed(key));
        lemma_remove_all_absent(trimmed(key), pre);
    }
}

/// Without a project (none, or the empty name) a document key is always
/// accepted, exactly as given. With a project it is accepted exactly when the
/// trimmed project name is not empty and the trimmed key holds no `~`, and it
/// is then `k`, the lower-cased trimmed project, `_` and the trimmed key.
pub proof fn lemma_document_key_acceptance(key: Seq<char>, project: Option<Seq<char>>)
    ensures
        (project is None || project->0.len() == 0) ==> document_key_result(key, project) == Ok::<
            Seq<char>,
            Seq<char>,
        >(key),
        (project is Some && project->0.len() > 0) ==> (document_key_result(key, project) is Ok
            <==> (trimmed(project->0).len() > 0 && !trimmed(key).contains('~'))),
        (project is Some && project->0.len() > 0 && document_key_result(key, project) is Ok)
            ==> document_key_result(key, project)->Ok_0 == seq!['k'] + lowercase_of(
            trimmed(project->0),
        ) + seq!['_'] + trimmed(key),
{
}

/// A key whose first and last characters are letters, digits, `_` or `-` is
/// stored whole in its project: the stored key ends with the full key.
pub proof fn lemma_project_key_keeps_whole_key(project: Seq<char>, key: Seq<char>)
    requires
        trimmed(project).len() > 0,
        !key.contains('~'),
        key.len() > 0,
        ({
            let c = key[0];
            ('0' <= c && c <= '9') || ('a' <= c && c <= 'z') || ('A' <= c && c <= 'Z') || c == '_'
                || c == '-'
        }),
        ({
            let c = key.last();
            ('0' <= c && c <= '9') || ('a' <= c && c <= 'z') || ('A' <= c && c <= 'Z') || c == '_'
                || c == '-'
        }),
    ensures
        project_key_result(project, key) == Ok::<Seq<char>, Seq<char>>(
            seq!['k'] + lowercase_of(trimmed(project)) + seq!['_'] + key,
        ),
{
    lemma_key_characters_are_not_white_space(key[0]);
    lemma_key_characters_are_not_white_space(key.last());
    lemma_trim_keeps_solid_text(key);
}

/// The key range of a scan and the prefix taken out of the keys it returns.
#[derive(Debug)]
pub struct ScanRange {
    pub start: String,
    pub end: String,
    pub prefix: String,
}

/// The range a scan from `start` to `end` covers, and the prefix taken out of
/// the keys it returns. In a project, both ends are the project's keys; the end
/// gets `~` when no end was given (so that it passes every key of the
/// project), and then the two characters `\0`.
pub open spec fn scan_range_result(
    start: Seq<char>,
    end: Seq<char>,
    project: Option<Seq<char>>,
) -> Result<(Seq<char>, Seq<char>, Seq<char>), Seq<char>> {
    if names_project(project) {
        match project_key_result(project->0, start) {
            Err(e) => Err(napi_error_text(e)),
            Ok(s) => match project_key_result(project->0, end) {
                Err(e) => Err(napi_error_text(e)),
                Ok(e2) => Ok(
                    (
                        s,
                        e2 + (if end.len() == 0 {
                            seq!['~']
                        } else {
                            Seq::<char>::empty()
                        }) + seq!['\\', '0'],
                        key_prefix(project->0),
                    ),
                ),
            },
        }
    } else {
        Ok((start, end, Seq::<char>::empty()))
    }
}

/// In a named project a scan starts exactly at the stored key of its start
/// (`k`, the lower-cased trimmed project, `_`, the trimmed start), whatever the
/// end; only the end gets more: its stored key, then `~` when no end was
/// given, then `\0`. Listed keys lose `k`, the lower-cased project and `_`.
/// The scan is refused only when one of the two keys is.
pub proof fn lemma_scan_range_in_project(start: Seq<char>, end: Seq<char>, project: Seq<char>)
    requires
        project.len() > 0,
    ensures
        scan_range_result(start, end, Some(project)) is Ok <==> (trimmed(project).len() > 0
            && !trimmed(start).contains('~') && !trimmed(end).contains('~')),
        scan_range_result(start, end, Some(project)) is Ok ==> {
            let lowered = lowercase_of(trimmed(project));
            let range = scan_range_result(start, end, Some(project))->Ok_0;
            &&& range.0 == seq!['k'] + lowered + seq!['_'] + trimmed(start)
            &&& range.1 == seq!['k'] + lowered + seq!['_'] + trimmed(end) + (if end.len() == 0 {
                seq!['~', '\\', '0']
            } else {
                seq!['\\', '0']
            })
            &&& range.2 == seq!['k'] + lowercase_of(project) + seq!['_']
        },
{
    if scan_range_result(start, end, Some(project)) is Ok {
        let lowered = lowercase_of(trimmed(project));
        let e = seq!['k'] + lowered + seq!['_'] + trimmed(end);
        if end.len() == 0 {
            assert(e + seq!['~'] + seq!['\\', '0'] =~= e + seq!['~', '\\', '0']);
        } else {
            assert(e + Seq::<char>::empty() + seq!['\\', '0'] =~= e + seq!['\\', '0']);
        }
    }
}

/// Without a project a scan covers exactly the range given, and listed keys
/// are shown as stored.
pub proof fn lemma_scan_range_without_project(start: Seq<char>, end: Seq<char>, project: Option<Seq<char>>)
    requires
        project is None || project->0.len() == 0,
    ensures
        scan_range_result(start, end, project) == Ok::<(Seq<char>, Seq<char>, Seq<char>), Seq<char>>(
            (start, end, Seq::<char>::empty()),
        ),
{
}

/// The view of a scan range, or of the reason there is none.
pub open spec fn scan_range_view(r: Result<ScanRange, ReturnError>) -> Result<
    (Seq<char>, Seq<char>, Seq<char>),
    Seq<char>,
> {
    match r {
        Ok(s) => Ok((s.start@, s.end@, s.prefix@)),
        Err(e) => Err(e.error@),
    }
}

/// The range of a scan from `start` to `end` in the named project, if any.
pub fn scan_range(start: &str, end: &str, project_name: &Option<String>) -> (r: Result<
    ScanRange,
    ReturnError,
>)
    ensures
        scan_range_view(r) == scan_range_result(start@, end@, opt_text(*project_name)),
{
    match project_name {
        Some(p) if !p.as_str().is_empty() => {
            let start_key = match get_project_level_key_with_global_prefix(p.as_str(), start) {
                Ok(k) => k,
                Err(e) => return Err(e.rewrapped()),
            };
            let mut end_key = match get_project_level_key_with_global_prefix(p.as_str(), end) {
                Ok(k) => k,
                Err(e) => return Err(e.rewrapped()),
            };
            let ghost end0 = end_key@;
            if end.is_empty() {
                push_char(&mut end_key, '~');
            }
            let ghost end1 = end_key@;
            push_char(&mut end_key, '\\');
            push_char(&mut end_key, '0');
            assert(end_key@ =~= end1 + seq!['\\', '0']);
            assert(end1 =~= end0 + (if end@.len() == 0 {
                seq!['~']
            } else {
                Seq::<char>::empty()
            }));
            let prefix = listing_prefix(project_name);
            Ok(ScanRange { start: start_key, end: end_key, prefix })
        },
        _ => Ok(
            ScanRange {
                start: String::from_str(start),
                end: String::from_str(end),
                prefix: String::new(),
            },
        ),
    }
}

/// The number of entries a scan asks for: the requested batch size as a `u32`
/// (a negative size wraps around, as `as` converts it).
pub fn scan_limit(batch_size: i32) -> (r: u32)
    ensures
        r == batch_size as u32,
{
    batch_size as u32
}

/// The keys of a batch read and the prefix taken out of the keys it returns.
#[derive(Debug)]
pub struct BatchKeys {
    pub keys: Vec<String>,
    pub prefix: String,
}

/// The reason given when a key of a batch read is refused.
pub open spec fn batch_key_error(reason: Seq<char>, key: Seq<char>) -> Seq<char> {
    "Error: "@ + napi_error_text(reason) + " while processing key "@ + key
}

/// The keys a batch read asks for. No keys at all is refused. In a project,
/// each key is the project's key, and the first refused key is reported.
pub fn batch_request_keys(keys: &Vec<String>, project_name: &Option<String>) -> (r: Result<
    BatchKeys,
    ReturnError,
>)
    ensures
        keys@.len() == 0 ==> (r is Err && r->Err_0.error@ == "Empty Array Without keys found"@),
        keys@.len() > 0 && !names_project(opt_text(*project_name)) ==> (r is Ok && r->Ok_0.prefix@
            == Seq::<char>::empty() && r->Ok_0.keys@.len() == keys@.len() && forall|i: int|
            0 <= i < keys@.len() ==> #[trigger] r->Ok_0.keys@[i]@ == keys@[i]@),
        keys@.len() > 0 && names_project(opt_text(*project_name)) ==> {
            let p = project_name->0@;
            &&& r is Ok <==> (forall|i: int|
                0 <= i < keys@.len() ==> #[trigger] project_key_result(p, keys@[i]@) is Ok)
            &&& r is Ok ==> {
                &&& r->Ok_0.prefix@ == key_prefix(p)
                &&& r->Ok_0.keys@.len() == keys@.len()
                &&& forall|i: int|
                    0 <= i < keys@.len() ==> project_key_result(p, keys@[i]@) == Ok::<
                        Seq<char>,
                        Seq<char>,
                    >(#[trigger] r->Ok_0.keys@[i]@)
            }
            &&& r is Err ==> exists|i: int|
                0 <= i < keys@.len() && (forall|j: int|
                    0 <= j < i ==> #[trigger] project_key_result(p, keys@[j]@) is Ok)
                    && #[trigger] project_key_result(p, keys@[i]@) is Err && r->Err_0.error@
                    == batch_key_error(project_key_result(p, keys@[i]@)->Err_0, keys@[i]@)
        },
{
    if keys.len() == 0 {
        return Err(ReturnError { error: String::from_str("Empty Array Without keys found") });
    }
    let named = names_a_project(project_name);
    let mut out: Vec<String> = Vec::new();
    let mut i: usize = 0;
    if !named {
        while i < keys.len()
            invariant
                i <= keys.len(),
                out@.len() == i,
                forall|j: int| 0 <= j < i ==> #[trigger] out@[j]@ == keys@[j]@,
            decreases keys.len() - i,
        {
            out.push(keys[i].clone());
            i = i + 1;
        }
        return Ok(BatchKeys { keys: out, prefix: String::new() });
    }
    let p = project_name.as_ref().unwrap();
    let prefix = listing_prefix(project_name);
    while i < keys.len()
        invariant
            names_project(opt_text(*project_name)),
            *project_name == Some(*p),
            prefix@ == key_prefix(p@),
            i <= keys.len(),
            out@.len() == i,
            forall|j: int|
                0 <= j < i ==> #[trigger] project_key_result(p@, keys@[j]@) == Ok::<
                    Seq<char>,
                    Seq<char>,
                >(out@[j]@),
        decreases keys.len() - i,
    {
        match get_project_level_key_with_global_prefix(p.as_str(), keys[i].as_str()) {
            Ok(k) => {
                out.push(k);
            },
            Err(e) => {
                let mut msg = String::from_str("Error: ");
                let shown = e.rewrapped();
                msg.append(shown.error.as_str());
                msg.append(" while processing key ");
                msg.append(keys[i].as_str());
                assert(project_key_result(p@, keys@[i as int]@) is Err);
                return Err(ReturnError { error: msg });
            },
        }
        i = i + 1;
    }
    Ok(BatchKeys { keys: out, prefix })
}

} // verus!
