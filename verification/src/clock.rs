//! The time of a detection.

use vstd::prelude::*;

verus! {

/// `chrono::Utc::now`, written out by `DateTime::to_rfc3339`: the time at
/// which it is called. Nothing is stated of the result.
#[verifier::external_body]
pub(crate) fn now_rfc3339() -> String {
    chrono::Utc::now().to_rfc3339()
}

} // verus!
