//! A tamper-evident audit ledger for point-of-sale events.
//!
//! The crate centres on four components: an append-only hash-chained log of
//! `SecureLogEntry` records, a per-session usage clock (`AppClock`) that is
//! meant to be harder to manipulate than the wall clock, an anomaly detector
//! that surfaces chain breaks, clock drift and suspicious amounts, and a
//! compliance reporter that summarises a period into a checksummed report.
//!
//! The "signatures" computed here (`report_signature`, `secure_timestamp`,
//! `clock_signature`) are unkeyed SHA-256 content checksums: they make naive
//! tampering evident but carry no authenticity or non-repudiation guarantee.

pub mod anomaly;
pub mod clock;
pub mod config;
pub mod decimal;
pub mod domain;
pub mod entry;
pub mod errors;
pub mod hashing;
mod ids;
pub mod ledger;
pub mod report;
pub mod system;
pub mod tags;
pub mod wallclock;
