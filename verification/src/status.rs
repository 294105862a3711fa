//! How the outcome of a lookup is put into words.

use vstd::prelude::*;
use vstd::string::StringExecFns;

verus! {

/// The words for what is known of a submitted transaction: nothing, that
/// it went through, or that it failed and why.
pub open spec fn status_text(status: Option<Result<(), Seq<char>>>) -> Seq<char> {
    match status {
        None => "not_found"@,
        Some(Ok(())) => "confirmed"@,
        Some(Err(reason)) => "failed: "@ + reason,
    }
}

/// Puts what is known of a submitted transaction into words.
pub fn transaction_status_text(status: Option<Result<(), String>>) -> (text: String)
    ensures
        text@ == status_text(
            match status {
                None => None,
                Some(Ok(())) => Some(Ok(())),
                Some(Err(reason)) => Some(Err(reason@)),
            },
        ),
{
    match status {
        None => String::from_str("not_found"),
        Some(Ok(())) => String::from_str("confirmed"),
        Some(Err(reason)) => String::from_str("failed: ").concat(reason.as_str()),
    }
}

} // verus!
