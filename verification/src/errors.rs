//! The error taxonomy of the audit core.

use vstd::prelude::*;

verus! {

/// Why an audit-core operation failed.
///
/// `Storage` is an I/O or connection failure in the persistence layer:
/// fatal, surfaced verbatim, never retried here. `Validation` is malformed
/// caller input (for example an unparsable period bound), rejected before
/// any mutation. `Serialization` is an encoding failure while persisting
/// structured fields. `Decode` is an unrecognized persisted tag: storage
/// corruption is surfaced rather than masked by a default variant.
///
/// A detected chain break or clock drift is *not* an error: it is recorded
/// as an `Anomaly` and the detection call returns normally.
#[derive(Debug, Clone)]
pub enum AuditError {
    Storage(String),
    Validation(String),
    Serialization(String),
    Decode(String),
}

} // verus!
