//! Clock access for the timestamps stamped on outgoing records.

use vstd::prelude::*;

verus! {

/// Relies on chrono::Utc::now and DateTime::to_rfc3339: an RFC 3339
/// timestamp of the present instant. Nothing is promised of the clock's
/// value.
#[verifier::external_body]
pub(crate) fn now_rfc3339() -> String {
    chrono::Utc::now().to_rfc3339()
}

} // verus!
