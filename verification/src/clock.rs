//! The wall clock, as text.

use time::format_description::well_known::Rfc3339;
use time::OffsetDateTime;
use vstd::prelude::*;

verus! {

/// The current instant in UTC, written after RFC 3339, or `None` where it
/// cannot be written so.
///
/// Trusted: stands for `OffsetDateTime::now_utc` and
/// `OffsetDateTime::format` of the `time` crate with its `Rfc3339`
/// description. The answer depends on the clock; nothing is claimed of it.
#[verifier::external_body]
pub(crate) fn utc_now_rfc3339() -> Option<String> {
    OffsetDateTime::now_utc().format(&Rfc3339).ok()
}

} // verus!
