//! Fresh identifiers for ledger entries, anomalies and reports.

use vstd::prelude::*;

verus! {

/// Relies on uuid::Uuid::new_v4 and its Display impl: a fresh random
/// version-4 UUID, printed in the 36-character hyphenated form. The value is
/// random, so no two calls need agree and nothing more holds of it.
#[verifier::external_body]
pub(crate) fn fresh_id() -> (r: String)
    ensures
        r@.len() == 36,
{
    uuid::Uuid::new_v4().to_string()
}

} // verus!
