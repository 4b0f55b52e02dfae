//! The library's error: the reason text that a N-API error carries to the
//! JavaScript caller, and how such an error reads once it is turned back into
//! text.

use vstd::prelude::*;

verus! {

/// An error reported to the caller, by its reason text.
#[derive(Debug)]
pub struct ReturnError {
    pub error: String,
}

/// The text of an N-API error made from `reason` (status `GenericFailure`), as
/// its `Display` writes it.
pub open spec fn napi_error_text(reason: Seq<char>) -> Seq<char> {
    if reason.len() == 0 {
        "GenericFailure"@
    } else {
        "GenericFailure, "@ + reason
    }
}

/// `reason` turned into an N-API error and back into text `n` times.
pub open spec fn napi_error_text_times(reason: Seq<char>, n: nat) -> Seq<char>
    decreases n,
{
    if n == 0 {
        reason
    } else {
        napi_error_text(napi_error_text_times(reason, (n - 1) as nat))
    }
}

/// The view of a result whose error is a `ReturnError`.
pub open spec fn result_view(r: Result<String, ReturnError>) -> Result<Seq<char>, Seq<char>> {
    match r {
        Ok(s) => Ok(s@),
        Err(e) => Err(e.error@),
    }
}

/// `napi::Error::from_reason(reason).to_string()`. The crate's source gives
/// such an error the status `GenericFailure`, and its `Display` writes the
/// status's name, then `", "` and the reason when the reason is not empty.
#[verifier::external_body]
fn napi_error_display(reason: &str) -> (r: String)
    ensures
        r@ == napi_error_text(reason@),
{
    napi::Error::from_reason(reason).to_string()
}

impl ReturnError {
    /// The error whose reason is this error's text as N-API shows it: what
    /// `napi::Error::from_reason(error.to_string())` makes of it.
    pub fn rewrapped(&self) -> (r: ReturnError)
        ensures
            r.error@ == napi_error_text(self.error@),
    {
        ReturnError { error: napi_error_display(self.error.as_str()) }
    }

    /// The error rewrapped `n` times (see `rewrapped`).
    pub fn rewrapped_times(&self, n: u32) -> (r: ReturnError)
        ensures
            r.error@ == napi_error_text_times(self.error@, n as nat),
    {
        let mut cur = ReturnError { error: self.error.clone() };
        let mut i: u32 = 0;
        while i < n
            invariant
                i <= n,
                cur.error@ == napi_error_text_times(self.error@, i as nat),
            decreases n - i,
        {
            cur = cur.rewrapped();
            i = i + 1;
        }
        cur
    }
}

} // verus!
