//! Anomaly records and the detectors that produce them.
//!
//! Detection never aborts on a finding: each detector scans a snapshot and
//! returns zero or more `Anomaly` records for the caller to persist. Only
//! the resolution fields of an anomaly are ever mutated; identity, type and
//! evidence are fixed at creation.

use vstd::prelude::*;
use vstd::string::StringExecFns;
use crate::clock::AppClock;
use crate::clock::AppClockView;
use crate::clock::MAX_CLOCK_SECS;
use crate::clock::drift_at;
use crate::clock::usage_time_at;
use crate::decimal::dec_int;
use crate::decimal::i64_dec;
use crate::entry::EntryView;
use crate::entry::SecureLogEntry;
use crate::entry::clone_opt_string;
use crate::tags::AnomalySeverity;
use crate::tags::AnomalyType;

verus! {

/// What a detector saw, kept as structured fields rather than free text so
/// that a finding's evidence is exact and machine-checkable.
#[derive(Debug)]
pub enum AnomalyEvidence {
    ChainBreak {
        /// The chain index of the entry whose link is broken.
        current_index: i64,
        /// That entry's own hash.
        current_hash: String,
        /// The predecessor's hash the entry should have embedded.
        expected_previous_hash: String,
        /// The previous-hash value the entry actually carries.
        actual_previous_hash: Option<String>,
    },
    TimeDrift {
        session_id: String,
        /// The usage time the session's clock reported.
        app_clock_time: i64,
        /// The wall-clock reading it was compared against.
        system_time: i64,
        /// The drift bound that was exceeded.
        max_drift: i64,
    },
    SuspiciousAmount {
        /// The flagged amount, in minor currency units.
        amount: i64,
        /// The configured threshold it exceeded in magnitude.
        threshold: i64,
        /// The id of the flagged ledger entry.
        transaction_id: String,
        /// That entry's creation time (Unix seconds).
        timestamp: i64,
    },
}

/// The spec-level image of `AnomalyEvidence`.
#[verifier::ext_equal]
pub ghost enum EvidenceView {
    ChainBreak {
        current_index: int,
        current_hash: Seq<char>,
        expected_previous_hash: Seq<char>,
        actual_previous_hash: Option<Seq<char>>,
    },
    TimeDrift { session_id: Seq<char>, app_clock_time: int, system_time: int, max_drift: int },
    SuspiciousAmount { amount: int, threshold: int, transaction_id: Seq<char>, timestamp: int },
}

impl View for AnomalyEvidence {
    type V = EvidenceView;

    open spec fn view(&self) -> EvidenceView {
        match self {
            AnomalyEvidence::ChainBreak {
                current_index,
                current_hash,
                expected_previous_hash,
                actual_previous_hash,
            } => EvidenceView::ChainBreak {
                current_index: *current_index as int,
                current_hash: current_hash@,
                expected_previous_hash: expected_previous_hash@,
                actual_previous_hash: actual_previous_hash.deep_view(),
            },
            AnomalyEvidence::TimeDrift { session_id, app_clock_time, system_time, max_drift } => {
                EvidenceView::TimeDrift {
                    session_id: session_id@,
                    app_clock_time: *app_clock_time as int,
                    system_time: *system_time as int,
                    max_drift: *max_drift as int,
                }
            },
            AnomalyEvidence::SuspiciousAmount { amount, threshold, transaction_id, timestamp } => {
                EvidenceView::SuspiciousAmount {
                    amount: *amount as int,
                    threshold: *threshold as int,
                    transaction_id: transaction_id@,
                    timestamp: *timestamp as int,
                }
            },
        }
    }
}

impl Clone for AnomalyEvidence {
    /// A field-for-field copy; the copy has the same view as the original.
    fn clone(&self) -> (r: Self)
        ensures
            r@ == self@,
    {
        match self {
            AnomalyEvidence::ChainBreak {
                current_index,
                current_hash,
                expected_previous_hash,
                actual_previous_hash,
            } => AnomalyEvidence::ChainBreak {
                current_index: *current_index,
                current_hash: current_hash.clone(),
                expected_previous_hash: expected_previous_hash.clone(),
                actual_previous_hash: clone_opt_string(actual_previous_hash),
            },
            AnomalyEvidence::TimeDrift { session_id, app_clock_time, system_time, max_drift } => {
                AnomalyEvidence::TimeDrift {
                    session_id: session_id.clone(),
                    app_clock_time: *app_clock_time,
                    system_time: *system_time,
                    max_drift: *max_drift,
                }
            },
            AnomalyEvidence::SuspiciousAmount { amount, threshold, transaction_id, timestamp } => {
                AnomalyEvidence::SuspiciousAmount {
                    amount: *amount,
                    threshold: *threshold,
                    transaction_id: transaction_id.clone(),
                    timestamp: *timestamp,
                }
            },
        }
    }
}

/// A detected deviation, persisted as a first-class record. Created by a
/// detector; only the three resolution fields are ever mutated afterwards.
pub struct Anomaly {
    pub id: String,
    pub anomaly_type: AnomalyType,
    pub severity: AnomalySeverity,
    pub description: String,
    /// When the anomaly was detected (Unix seconds).
    pub timestamp: i64,
    pub evidence: AnomalyEvidence,
    /// Ordered remediation guidance.
    pub recommendations: Vec<String>,
    pub resolved: bool,
    pub resolved_at: Option<i64>,
    pub resolved_by: Option<String>,
}

/// The spec-level image of an `Anomaly`.
#[verifier::ext_equal]
pub ghost struct AnomalyView {
    pub id: Seq<char>,
    pub anomaly_type: AnomalyType,
    pub severity: AnomalySeverity,
    pub description: Seq<char>,
    pub timestamp: int,
    pub evidence: EvidenceView,
    pub recommendations: Seq<Seq<char>>,
    pub resolved: bool,
    pub resolved_at: Option<int>,
    pub resolved_by: Option<Seq<char>>,
}

impl View for Anomaly {
    type V = AnomalyView;

    open spec fn view(&self) -> AnomalyView {
        AnomalyView {
            id: self.id@,
            anomaly_type: self.anomaly_type,
            severity: self.severity,
            description: self.description@,
            timestamp: self.timestamp as int,
            evidence: self.evidence@,
            recommendations: self.recommendations.deep_view(),
            resolved: self.resolved,
            resolved_at: crate::entry::opt_int(self.resolved_at),
            resolved_by: self.resolved_by.deep_view(),
        }
    }
}

impl DeepView for Anomaly {
    type V = AnomalyView;

    open spec fn deep_view(&self) -> AnomalyView {
        self.view()
    }
}

impl Anomaly {
    /// Creates an unresolved anomaly detected at wall-clock second `now`.
    pub fn new(
        id: String,
        anomaly_type: AnomalyType,
        severity: AnomalySeverity,
        description: String,
        evidence: AnomalyEvidence,
        recommendations: Vec<String>,
        now: i64,
    ) -> (a: Anomaly)
        ensures
            a@ == (AnomalyView {
                id: id@,
                anomaly_type: anomaly_type,
                severity: severity,
                description: description@,
                timestamp: now as int,
                evidence: evidence@,
                recommendations: recommendations.deep_view(),
                resolved: false,
                resolved_at: None,
                resolved_by: None,
            }),
    {
        let a = Anomaly {
            id,
            anomaly_type,
            severity,
            description,
            timestamp: now,
            evidence,
            recommendations,
            resolved: false,
            resolved_at: None,
            resolved_by: None,
        };
        proof {
            assert(a@ =~= (AnomalyView {
                id: a.id@,
                anomaly_type: a.anomaly_type,
                severity: a.severity,
                description: a.description@,
                timestamp: now as int,
                evidence: a.evidence@,
                recommendations: a.recommendations.deep_view(),
                resolved: false,
                resolved_at: None,
                resolved_by: None,
            }));
        }
        a
    }
}

impl Clone for Anomaly {
    /// A field-for-field copy; the copy has the same view as the original.
    fn clone(&self) -> (r: Self)
        ensures
            r@ == self@,
    {
        let r = Anomaly {
            id: self.id.clone(),
            anomaly_type: self.anomaly_type,
            severity: self.severity,
            description: self.description.clone(),
            timestamp: self.timestamp,
            evidence: self.evidence.clone(),
            recommendations: clone_string_vec(&self.recommendations),
            resolved: self.resolved,
            resolved_at: self.resolved_at,
            resolved_by: clone_opt_string(&self.resolved_by),
        };
        proof {
            assert(r@ =~= self@);
        }
        r
    }
}

/// Copies a vector of strings, preserving its view.
fn clone_string_vec(v: &Vec<String>) -> (r: Vec<String>)
    ensures
        r.deep_view() == v.deep_view(),
{
    let mut r: Vec<String> = Vec::new();
    let mut i: usize = 0;
    while i < v.len()
        invariant
            0 <= i <= v@.len(),
            r@.len() == i as int,
            forall|j: int| 0 <= j < i ==> (#[trigger] r@[j])@ == v@[j]@,
        decreases v@.len() - i,
    {
        r.push(v[i].clone());
        i = i + 1;
    }
    proof {
        assert(r.deep_view() =~= v.deep_view());
    }
    r
}

/// Whether entry `i` of `s` fails to embed its predecessor's hash.
pub open spec fn chain_mismatch_at(s: Seq<EntryView>, i: int) -> bool {
    s[i].previous_hash != Some(s[i - 1].current_hash)
}

/// The positions (in ascending order) of every entry after the first whose
/// stored previous hash differs from its predecessor's `current_hash`.
pub open spec fn chain_break_positions(s: Seq<EntryView>) -> Seq<int>
    decreases s.len(),
{
    if s.len() <= 1 {
        Seq::empty()
    } else {
        chain_break_positions(s.drop_last()) + if chain_mismatch_at(s, s.len() - 1) {
            seq![s.len() - 1]
        } else {
            Seq::empty()
        }
    }
}

/// Every chain-break position indexes an entry after the first.
pub proof fn lemma_chain_break_positions_in_range(s: Seq<EntryView>)
    ensures
        forall|j: int|
            0 <= j < chain_break_positions(s).len() ==> 1 <= #[trigger] chain_break_positions(s)[j]
                < s.len(),
    decreases s.len(),
{
    if s.len() > 1 {
        lemma_chain_break_positions_in_range(s.drop_last());
        assert forall|j: int| 0 <= j < chain_break_positions(s).len() implies 1
            <= #[trigger] chain_break_positions(s)[j] < s.len() by {
            if j < chain_break_positions(s.drop_last()).len() {
                assert(chain_break_positions(s)[j] == chain_break_positions(s.drop_last())[j]);
                assert(1 <= chain_break_positions(s.drop_last())[j] < s.drop_last().len());
            } else {
                assert(chain_break_positions(s)[j] == s.len() - 1);
            }
        }
    }
}

/// Tamper detection is sound and complete: the chain-break positions are
/// exactly the entries after the first whose stored previous hash differs
/// from their predecessor's `current_hash` — every break is reported, and
/// nothing else is.
#[verifier::rlimit(100)]
pub proof fn lemma_chain_break_positions_exact(s: Seq<EntryView>)
    ensures
        forall|j: int|
            0 <= j < chain_break_positions(s).len() ==> chain_mismatch_at(
                s,
                #[trigger] chain_break_positions(s)[j],
            ),
        forall|i: int|
            1 <= i < s.len() && chain_mismatch_at(s, i) ==> #[trigger] chain_break_positions(
                s,
            ).contains(i),
    decreases s.len(),
{
    lemma_chain_break_positions_in_range(s);
    if s.len() > 1 {
        lemma_chain_break_positions_exact(s.drop_last());
        let sub = chain_break_positions(s.drop_last());
        assert forall|j: int| 0 <= j < chain_break_positions(s).len() implies chain_mismatch_at(
            s,
            #[trigger] chain_break_positions(s)[j],
        ) by {
            if j < sub.len() {
                assert(chain_break_positions(s)[j] == sub[j]);
                lemma_chain_break_positions_in_range(s.drop_last());
                let i = sub[j];
                assert(chain_mismatch_at(s.drop_last(), i));
                assert(s.drop_last()[i] == s[i]);
                assert(s.drop_last()[i - 1] == s[i - 1]);
            } else {
                assert(chain_break_positions(s)[j] == s.len() - 1);
            }
        }
        assert forall|i: int|
            1 <= i < s.len() && chain_mismatch_at(s, i) implies #[trigger] chain_break_positions(
            s,
        ).contains(i) by {
            if i < s.len() - 1 {
                assert(s.drop_last()[i] == s[i]);
                assert(s.drop_last()[i - 1] == s[i - 1]);
                assert(chain_mismatch_at(s.drop_last(), i));
                assert(sub.contains(i));
                let j = choose|j: int| 0 <= j < sub.len() && sub[j] == i;
                assert(chain_break_positions(s)[j] == i);
            } else {
                assert(chain_break_positions(s)[chain_break_positions(s).len() - 1] == i);
            }
        }
    }
}

/// The description text of a chain-break finding.
pub open spec fn chain_break_description(chain_index: int) -> Seq<char> {
    "Transaction chain break at index "@ + dec_int(chain_index)
}

/// The fixed remediation guidance for a chain break.
pub open spec fn chain_break_recommendations() -> Seq<Seq<char>> {
    seq!["verify database integrity"@, "contact system administrator"@, "inspect system logs"@]
}

/// What a chain-break anomaly for position `i` of `s` must hold: type
/// `ChainBreak`, severity `Critical`, both hashes and the offending chain
/// index in evidence, the fixed recommendations, and no resolution. The
/// record's `id` is a fresh identifier and is not constrained.
pub open spec fn is_chain_break_anomaly(
    a: AnomalyView,
    s: Seq<EntryView>,
    i: int,
    now: int,
) -> bool {
    &&& a.anomaly_type == AnomalyType::ChainBreak
    &&& a.severity == AnomalySeverity::Critical
    &&& a.description == chain_break_description(s[i].chain_index)
    &&& a.timestamp == now
    &&& a.evidence == EvidenceView::ChainBreak {
        current_index: s[i].chain_index,
        current_hash: s[i].current_hash,
        expected_previous_hash: s[i - 1].current_hash,
        actual_previous_hash: s[i].previous_hash,
    }
    &&& a.recommendations == chain_break_recommendations()
    &&& a.resolved == false
    &&& a.resolved_at is None
    &&& a.resolved_by is None
}

/// Builds the fixed chain-break remediation list.
fn chain_break_recommendation_strings() -> (r: Vec<String>)
    ensures
        r.deep_view() == chain_break_recommendations(),
{
    let mut r: Vec<String> = Vec::new();
    r.push(String::from_str("verify database integrity"));
    r.push(String::from_str("contact system administrator"));
    r.push(String::from_str("inspect system logs"));
    proof {
        assert(r.deep_view() =~= chain_break_recommendations());
    }
    r
}

/// Scans entries in the order given and emits one `ChainBreak`/`Critical`
/// anomaly, stamped `now`, for each entry after the first whose stored
/// previous hash differs from its predecessor's `current_hash`. An
/// untouched append-only ledger yields none (`lemma_no_false_positives`).
#[verifier::rlimit(100)]
pub fn detect_chain_anomalies(entries: &Vec<SecureLogEntry>, now: i64) -> (r: Vec<Anomaly>)
    ensures
        r@.len() == chain_break_positions(entries.deep_view()).len(),
        forall|j: int|
            0 <= j < r@.len() ==> is_chain_break_anomaly(
                (#[trigger] r@[j])@,
                entries.deep_view(),
                chain_break_positions(entries.deep_view())[j],
                now as int,
            ),
{
    let ghost s = entries.deep_view();
    let mut r: Vec<Anomaly> = Vec::new();
    if entries.len() == 0 {
        return r;
    }
    let mut i: usize = 1;
    while i < entries.len()
        invariant
            1 <= i <= s.len(),
            s.len() == entries.deep_view().len(),
            entries.deep_view() == s,
            r@.len() == chain_break_positions(s.take(i as int)).len(),
            forall|j: int|
                0 <= j < r@.len() ==> is_chain_break_anomaly(
                    (#[trigger] r@[j])@,
                    s,
                    chain_break_positions(s.take(i as int))[j],
                    now as int,
                ),
        decreases entries@.len() - i,
    {
        let ghost prefix = s.take(i as int);
        let ghost extended = s.take(i as int + 1);
        let linked = match &entries[i].previous_hash {
            Some(p) => *p == entries[i - 1].current_hash,
            None => false,
        };
        if !linked {
            let description = chain_break_description_string(entries[i].chain_index);
            let evidence = AnomalyEvidence::ChainBreak {
                current_index: entries[i].chain_index,
                current_hash: entries[i].current_hash.clone(),
                expected_previous_hash: entries[i - 1].current_hash.clone(),
                actual_previous_hash: clone_opt_string(&entries[i].previous_hash),
            };
            let a = Anomaly::new(
                crate::ids::fresh_id(),
                AnomalyType::ChainBreak,
                AnomalySeverity::Critical,
                description,
                evidence,
                chain_break_recommendation_strings(),
                now,
            );
            r.push(a);
        }
        proof {
            assert(extended.drop_last() =~= prefix);
            assert(extended.last() == s[i as int]);
            assert(chain_mismatch_at(extended, i as int) == !linked);
            if !linked {
                assert(chain_break_positions(extended) == chain_break_positions(prefix) + seq![
                    i as int,
                ]);
                lemma_chain_break_positions_in_range(prefix);
            } else {
                assert(chain_break_positions(extended) =~= chain_break_positions(prefix));
            }
        }
        i = i + 1;
    }
    proof {
        assert(s.take(s.len() as int) =~= s);
    }
    r
}

/// Builds the chain-break description text for one chain index.
fn chain_break_description_string(chain_index: i64) -> (r: String)
    ensures
        r@ == chain_break_description(chain_index as int),
{
    let mut s = String::from_str("Transaction chain break at index ");
    s.append(i64_dec(chain_index).as_str());
    s
}

/// Whether an amount's magnitude exceeds the configured threshold.
pub open spec fn amount_suspicious(amount: Option<int>, threshold: int) -> bool {
    match amount {
        Some(x) => vstd::math::abs(x) > threshold,
        None => false,
    }
}

/// The positions (in ascending order) of every entry whose amount's
/// magnitude exceeds `threshold`.
pub open spec fn suspicious_positions(s: Seq<EntryView>, threshold: int) -> Seq<int>
    decreases s.len(),
{
    if s.len() == 0 {
        Seq::empty()
    } else {
        suspicious_positions(s.drop_last(), threshold) + if amount_suspicious(
            s.last().amount,
            threshold,
        ) {
            seq![s.len() - 1]
        } else {
            Seq::empty()
        }
    }
}

/// Every suspicious position indexes into `s`.
pub proof fn lemma_suspicious_positions_in_range(s: Seq<EntryView>, threshold: int)
    ensures
        forall|j: int|
            0 <= j < suspicious_positions(s, threshold).len() ==> 0
                <= #[trigger] suspicious_positions(s, threshold)[j] < s.len(),
    decreases s.len(),
{
    if s.len() > 0 {
        lemma_suspicious_positions_in_range(s.drop_last(), threshold);
        assert forall|j: int| 0 <= j < suspicious_positions(s, threshold).len() implies 0
            <= #[trigger] suspicious_positions(s, threshold)[j] < s.len() by {
            if j < suspicious_positions(s.drop_last(), threshold).len() {
                assert(suspicious_positions(s, threshold)[j] == suspicious_positions(
                    s.drop_last(),
                    threshold,
                )[j]);
                assert(0 <= suspicious_positions(s.drop_last(), threshold)[j]
                    < s.drop_last().len());
            } else {
                assert(suspicious_positions(s, threshold)[j] == s.len() - 1);
            }
        }
    }
}

/// Amount thresholding is sound and complete: the suspicious positions are
/// exactly the entries whose amount's magnitude exceeds the threshold —
/// every such entry is flagged, and no other is.
#[verifier::rlimit(100)]
pub proof fn lemma_suspicious_positions_exact(s: Seq<EntryView>, threshold: int)
    ensures
        forall|j: int|
            0 <= j < suspicious_positions(s, threshold).len() ==> amount_suspicious(
                s[#[trigger] suspicious_positions(s, threshold)[j]].amount,
                threshold,
            ),
        forall|i: int|
            0 <= i < s.len() && amount_suspicious(s[i].amount, threshold)
                ==> #[trigger] suspicious_positions(s, threshold).contains(i),
    decreases s.len(),
{
    lemma_suspicious_positions_in_range(s, threshold);
    if s.len() > 0 {
        lemma_suspicious_positions_exact(s.drop_last(), threshold);
        let sub = suspicious_positions(s.drop_last(), threshold);
        assert forall|j: int|
            0 <= j < suspicious_positions(s, threshold).len() implies amount_suspicious(
            s[#[trigger] suspicious_positions(s, threshold)[j]].amount,
            threshold,
        ) by {
            if j < sub.len() {
                assert(suspicious_positions(s, threshold)[j] == sub[j]);
                lemma_suspicious_positions_in_range(s.drop_last(), threshold);
                let i = sub[j];
                assert(amount_suspicious(s.drop_last()[i].amount, threshold));
                assert(s.drop_last()[i] == s[i]);
            } else {
                assert(suspicious_positions(s, threshold)[j] == s.len() - 1);
            }
        }
        assert forall|i: int|
            0 <= i < s.len() && amount_suspicious(s[i].amount, threshold)
                implies #[trigger] suspicious_positions(s, threshold).contains(i) by {
            if i < s.len() - 1 {
                assert(s.drop_last()[i] == s[i]);
                assert(sub.contains(i));
                let j = choose|j: int| 0 <= j < sub.len() && sub[j] == i;
                assert(suspicious_positions(s, threshold)[j] == i);
            } else {
                assert(suspicious_positions(s, threshold)[suspicious_positions(s, threshold).len()
                    - 1] == i);
            }
        }
    }
}

/// The description text of a suspicious-amount finding.
pub open spec fn suspicious_amount_description(amount: int) -> Seq<char> {
    "Suspicious amount detected: "@ + dec_int(amount)
}

/// The fixed remediation guidance for a suspicious amount.
pub open spec fn amount_recommendations() -> Seq<Seq<char>> {
    seq![
        "verify the transaction manually"@,
        "contact the customer if necessary"@,
        "document the justification"@,
    ]
}

/// What a suspicious-amount anomaly for position `i` of `s` must hold:
/// type `SuspiciousAmount`, severity `Medium`, and the flagged entry's id,
/// amount and creation time in evidence. The record's `id` is a fresh
/// identifier and is not constrained.
pub open spec fn is_amount_anomaly(
    a: AnomalyView,
    s: Seq<EntryView>,
    i: int,
    threshold: int,
    now: int,
) -> bool {
    &&& a.anomaly_type == AnomalyType::SuspiciousAmount
    &&& a.severity == AnomalySeverity::Medium
    &&& a.description == suspicious_amount_description(crate::entry::amount_or_zero(s[i].amount))
    &&& a.timestamp == now
    &&& a.evidence == EvidenceView::SuspiciousAmount {
        amount: crate::entry::amount_or_zero(s[i].amount),
        threshold: threshold,
        transaction_id: s[i].id,
        timestamp: s[i].created_at,
    }
    &&& a.recommendations == amount_recommendations()
    &&& a.resolved == false
    &&& a.resolved_at is None
    &&& a.resolved_by is None
}

/// Builds the fixed suspicious-amount remediation list.
fn amount_recommendation_strings() -> (r: Vec<String>)
    ensures
        r.deep_view() == amount_recommendations(),
{
    let mut r: Vec<String> = Vec::new();
    r.push(String::from_str("verify the transaction manually"));
    r.push(String::from_str("contact the customer if necessary"));
    r.push(String::from_str("document the justification"));
    proof {
        assert(r.deep_view() =~= amount_recommendations());
    }
    r
}

/// Builds the suspicious-amount description text for one amount.
fn suspicious_amount_description_string(amount: i64) -> (r: String)
    ensures
        r@ == suspicious_amount_description(amount as int),
{
    let mut s = String::from_str("Suspicious amount detected: ");
    s.append(i64_dec(amount).as_str());
    s
}

/// Scans entries in the order given and emits one
/// `SuspiciousAmount`/`Medium` anomaly, stamped `now`, for every entry
/// whose amount's magnitude exceeds `threshold`.
#[verifier::rlimit(100)]
pub fn detect_amount_anomalies(entries: &Vec<SecureLogEntry>, threshold: i64, now: i64) -> (r: Vec<
    Anomaly,
>)
    ensures
        r@.len() == suspicious_positions(entries.deep_view(), threshold as int).len(),
        forall|j: int|
            0 <= j < r@.len() ==> is_amount_anomaly(
                (#[trigger] r@[j])@,
                entries.deep_view(),
                suspicious_positions(entries.deep_view(), threshold as int)[j],
                threshold as int,
                now as int,
            ),
{
    let ghost s = entries.deep_view();
    let mut r: Vec<Anomaly> = Vec::new();
    let mut i: usize = 0;
    while i < entries.len()
        invariant
            0 <= i <= s.len(),
            entries.deep_view() == s,
            r@.len() == suspicious_positions(s.take(i as int), threshold as int).len(),
            forall|j: int|
                0 <= j < r@.len() ==> is_amount_anomaly(
                    (#[trigger] r@[j])@,
                    s,
                    suspicious_positions(s.take(i as int), threshold as int)[j],
                    threshold as int,
                    now as int,
                ),
        decreases entries@.len() - i,
    {
        let ghost prefix = s.take(i as int);
        let ghost extended = s.take(i as int + 1);
        let suspicious = match &entries[i].amount {
            Some(x) => {
                let magnitude: i128 = if (*x as i128) < 0 {
                    -(*x as i128)
                } else {
                    *x as i128
                };
                magnitude > threshold as i128
            },
            None => false,
        };
        if suspicious {
            let amount: i64 = match &entries[i].amount {
                Some(x) => *x,
                None => 0,
            };
            let evidence = AnomalyEvidence::SuspiciousAmount {
                amount,
                threshold,
                transaction_id: entries[i].id.clone(),
                timestamp: entries[i].created_at,
            };
            let a = Anomaly::new(
                crate::ids::fresh_id(),
                AnomalyType::SuspiciousAmount,
                AnomalySeverity::Medium,
                suspicious_amount_description_string(amount),
                evidence,
                amount_recommendation_strings(),
                now,
            );
            r.push(a);
        }
        proof {
            assert(extended.drop_last() =~= prefix);
            assert(extended.last() == s[i as int]);
            assert(amount_suspicious(extended.last().amount, threshold as int) == suspicious);
            if suspicious {
                assert(suspicious_positions(extended, threshold as int) == suspicious_positions(
                    prefix,
                    threshold as int,
                ) + seq![i as int]);
                lemma_suspicious_positions_in_range(prefix, threshold as int);
            } else {
                assert(suspicious_positions(extended, threshold as int) =~= suspicious_positions(
                    prefix,
                    threshold as int,
                ));
            }
        }
        i = i + 1;
    }
    proof {
        assert(s.take(s.len() as int) =~= s);
    }
    r
}

/// The description text of a time-drift finding.
pub open spec fn time_drift_description() -> Seq<char> {
    "Time drift detected in the internal application clock"@
}

/// The fixed remediation guidance for clock drift.
pub open spec fn time_recommendations() -> Seq<Seq<char>> {
    seq![
        "check clock synchronization"@,
        "restart the application if necessary"@,
        "contact technical support"@,
    ]
}

/// What a time-drift anomaly for clock `c` must hold: type `TimeDrift`,
/// severity `High`, and the session, both clock readings and the exceeded
/// bound in evidence. The record's `id` is a fresh identifier and is not
/// constrained.
pub open spec fn is_time_drift_anomaly(
    a: AnomalyView,
    c: AppClockView,
    max_drift: int,
    now: int,
) -> bool {
    &&& a.anomaly_type == AnomalyType::TimeDrift
    &&& a.severity == AnomalySeverity::High
    &&& a.description == time_drift_description()
    &&& a.timestamp == now
    &&& a.evidence == EvidenceView::TimeDrift {
        session_id: c.session_id,
        app_clock_time: usage_time_at(c, now),
        system_time: now,
        max_drift: max_drift,
    }
    &&& a.recommendations == time_recommendations()
    &&& a.resolved == false
    &&& a.resolved_at is None
    &&& a.resolved_by is None
}

/// Builds the fixed time-drift remediation list.
fn time_recommendation_strings() -> (r: Vec<String>)
    ensures
        r.deep_view() == time_recommendations(),
{
    let mut r: Vec<String> = Vec::new();
    r.push(String::from_str("check clock synchronization"));
    r.push(String::from_str("restart the application if necessary"));
    r.push(String::from_str("contact technical support"));
    proof {
        assert(r.deep_view() =~= time_recommendations());
    }
    r
}

/// Checks the session's clock, if there is one, against the drift bound at
/// wall-clock second `now`, and emits one `TimeDrift`/`High` anomaly,
/// stamped `now`, exactly when the drift exceeds the bound.
pub fn detect_time_anomalies(clock: Option<&AppClock>, max_drift: i64, now: i64) -> (r: Vec<
    Anomaly,
>)
    requires
        match clock {
            Some(c) => c.wf(),
            None => true,
        },
        0 <= now <= MAX_CLOCK_SECS,
    ensures
        match clock {
            None => r@.len() == 0,
            Some(c) =>
                if drift_at(c@, now as int) <= max_drift as int {
                    r@.len() == 0
                } else {
                    r@.len() == 1 && is_time_drift_anomaly(
                        r@[0]@,
                        c@,
                        max_drift as int,
                        now as int,
                    )
                },
        },
{
    let mut r: Vec<Anomaly> = Vec::new();
    if let Some(c) = clock {
        if !c.validate_time_consistency(now, max_drift) {
            let evidence = AnomalyEvidence::TimeDrift {
                session_id: c.session_id.clone(),
                app_clock_time: c.get_total_usage_time(now),
                system_time: now,
                max_drift,
            };
            let a = Anomaly::new(
                crate::ids::fresh_id(),
                AnomalyType::TimeDrift,
                AnomalySeverity::High,
                String::from_str("Time drift detected in the internal application clock"),
                evidence,
                time_recommendation_strings(),
                now,
            );
            r.push(a);
        }
    }
    r
}

/// The anomaly as it stands after being resolved by `by` at second `now`:
/// only the three resolution fields change.
pub open spec fn resolved_view(a: AnomalyView, by: Seq<char>, now: int) -> AnomalyView {
    AnomalyView { resolved: true, resolved_at: Some(now), resolved_by: Some(by), ..a }
}

/// Resolution idempotence: resolving an anomaly — already resolved or not —
/// updates `resolved`, `resolved_at` and `resolved_by` and never changes
/// its identity, type, severity, description, detection time, evidence or
/// recommendations.
pub proof fn lemma_resolution_preserves_identity(a: AnomalyView, by: Seq<char>, now: int)
    ensures
        resolved_view(a, by, now).id == a.id,
        resolved_view(a, by, now).anomaly_type == a.anomaly_type,
        resolved_view(a, by, now).severity == a.severity,
        resolved_view(a, by, now).description == a.description,
        resolved_view(a, by, now).timestamp == a.timestamp,
        resolved_view(a, by, now).evidence == a.evidence,
        resolved_view(a, by, now).recommendations == a.recommendations,
        resolved_view(a, by, now).resolved == true,
        resolved_view(a, by, now).resolved_at == Some(now),
        resolved_view(a, by, now).resolved_by == Some(by),
        resolved_view(resolved_view(a, by, now), by, now) == resolved_view(a, by, now),
{
}

/// Marks every anomaly whose id is `anomaly_id` as resolved by
/// `resolved_by` at second `now`; everything else about every record is
/// unchanged. Returns whether any record matched. Resolving an
/// already-resolved anomaly updates the resolution fields again and touches
/// nothing else.
#[verifier::rlimit(50)]
pub fn resolve_anomaly(
    anomalies: &mut Vec<Anomaly>,
    anomaly_id: &str,
    resolved_by: &str,
    now: i64,
) -> (found: bool)
    ensures
        final(anomalies)@.len() == old(anomalies)@.len(),
        forall|j: int|
            0 <= j < old(anomalies)@.len() ==> (#[trigger] final(anomalies)@[j])@ == (if old(
                anomalies,
            )@[j]@.id == anomaly_id@ {
                resolved_view(old(anomalies)@[j]@, resolved_by@, now as int)
            } else {
                old(anomalies)@[j]@
            }),
        found == (exists|j: int|
            0 <= j < old(anomalies)@.len() && (#[trigger] old(anomalies)@[j])@.id == anomaly_id@),
{
    let target = anomaly_id.to_owned();
    let mut found = false;
    let mut i: usize = 0;
    while i < anomalies.len()
        invariant
            0 <= i <= anomalies@.len(),
            anomalies@.len() == old(anomalies)@.len(),
            forall|j: int| i <= j < anomalies@.len() ==> #[trigger] anomalies@[j] == old(
                anomalies,
            )@[j],
            forall|j: int|
                0 <= j < i ==> (#[trigger] anomalies@[j])@ == (if old(anomalies)@[j]@.id
                    == anomaly_id@ {
                    resolved_view(old(anomalies)@[j]@, resolved_by@, now as int)
                } else {
                    old(anomalies)@[j]@
                }),
            target@ == anomaly_id@,
            found == (exists|j: int|
                0 <= j < i && (#[trigger] old(anomalies)@[j])@.id == anomaly_id@),
        decreases anomalies@.len() - i,
    {
        if anomalies[i].id == target {
            let mut updated = anomalies[i].clone();
            updated.resolved = true;
            updated.resolved_at = Some(now);
            updated.resolved_by = Some(resolved_by.to_owned());
            proof {
                assert(updated@ =~= resolved_view(old(anomalies)@[i as int]@, resolved_by@,
                    now as int,
                ));
            }
            anomalies[i] = updated;
            found = true;
        }
        i = i + 1;
    }
    found
}

/// The unresolved records of `s`, in the order given.
pub open spec fn unresolved_of(s: Seq<AnomalyView>) -> Seq<AnomalyView>
    decreases s.len(),
{
    if s.len() == 0 {
        Seq::empty()
    } else {
        unresolved_of(s.drop_last()) + if !s.last().resolved {
            seq![s.last()]
        } else {
            Seq::empty()
        }
    }
}

/// Every record the unresolved filter keeps is unresolved.
pub proof fn lemma_unresolved_of_unresolved(s: Seq<AnomalyView>)
    ensures
        forall|i: int| 0 <= i < unresolved_of(s).len() ==> !(#[trigger] unresolved_of(s)[i]).resolved,
    decreases s.len(),
{
    if s.len() > 0 {
        lemma_unresolved_of_unresolved(s.drop_last());
        let sub = unresolved_of(s.drop_last());
        assert forall|i: int| 0 <= i < unresolved_of(s).len() implies !(
        #[trigger] unresolved_of(s)[i]).resolved by {
            if i < sub.len() {
                assert(unresolved_of(s)[i] == sub[i]);
            } else {
                assert(unresolved_of(s)[i] == s.last());
            }
        }
    }
}

/// Whether a listing comes back newest-first: detection times never
/// increase along it.
pub open spec fn sorted_by_timestamp_desc(s: Seq<AnomalyView>) -> bool {
    forall|i: int| 1 <= i < s.len() ==> (#[trigger] s[i]).timestamp <= s[i - 1].timestamp
}

/// Copies a vector of anomalies, preserving its view.
pub(crate) fn clone_anomalies(v: &Vec<Anomaly>) -> (r: Vec<Anomaly>)
    ensures
        r.deep_view() == v.deep_view(),
{
    let mut r: Vec<Anomaly> = Vec::new();
    let mut i: usize = 0;
    while i < v.len()
        invariant
            0 <= i <= v@.len(),
            r@.len() == i as int,
            forall|j: int| 0 <= j < i ==> (#[trigger] r@[j])@ == v@[j]@,
        decreases v@.len() - i,
    {
        r.push(v[i].clone());
        i = i + 1;
    }
    proof {
        assert(r.deep_view() =~= v.deep_view());
    }
    r
}

/// Orders findings newest-first by detection time: a permutation of the
/// input, sorted by `timestamp` descending. Records with equal detection
/// times may come back in either order.
#[verifier::rlimit(100)]
pub(crate) fn sort_by_timestamp_desc(input: Vec<Anomaly>) -> (r: Vec<Anomaly>)
    ensures
        r.deep_view().to_multiset() == input.deep_view().to_multiset(),
        sorted_by_timestamp_desc(r.deep_view()),
{
    let ghost orig = input.deep_view();
    let mut remaining = input;
    let mut out: Vec<Anomaly> = Vec::new();
    proof {
        broadcast use vstd::seq_lib::group_to_multiset_ensures;
        broadcast use vstd::multiset::group_multiset_axioms;

        assert(out.deep_view() =~= Seq::<AnomalyView>::empty());
        assert(out.deep_view().to_multiset().add(remaining.deep_view().to_multiset())
            =~= orig.to_multiset());
    }
    while remaining.len() > 0
        invariant
            out.deep_view().to_multiset().add(remaining.deep_view().to_multiset())
                == orig.to_multiset(),
            sorted_by_timestamp_desc(out.deep_view()),
            forall|i: int, j: int|
                0 <= i < out.deep_view().len() && 0 <= j < remaining.deep_view().len() ==> (
                #[trigger] out.deep_view()[i]).timestamp >= (
                #[trigger] remaining.deep_view()[j]).timestamp,
        decreases remaining@.len(),
    {
        // Pick the newest of what is left.
        let mut m: usize = 0;
        let mut k: usize = 1;
        while k < remaining.len()
            invariant
                0 < remaining@.len(),
                0 <= m < k <= remaining@.len(),
                forall|j: int|
                    0 <= j < k ==> (#[trigger] remaining.deep_view()[j]).timestamp
                        <= remaining.deep_view()[m as int].timestamp,
            decreases remaining@.len() - k,
        {
            if remaining[k].timestamp > remaining[m].timestamp {
                m = k;
            }
            k = k + 1;
        }
        let ghost pre_rem = remaining.deep_view();
        let ghost pre_out = out.deep_view();
        let picked = remaining.remove(m);
        out.push(picked);
        proof {
            broadcast use vstd::seq_lib::group_to_multiset_ensures;
            broadcast use vstd::multiset::group_multiset_axioms;

            assert(remaining.deep_view() =~= pre_rem.remove(m as int));
            assert(out.deep_view() =~= pre_out.push(pre_rem[m as int]));
            assert(pre_rem.contains(pre_rem[m as int]));
            assert(remaining.deep_view().to_multiset() =~= pre_rem.to_multiset().remove(
                pre_rem[m as int],
            ));
            assert(out.deep_view().to_multiset() =~= pre_out.to_multiset().insert(
                pre_rem[m as int],
            ));
            assert(out.deep_view().to_multiset().add(remaining.deep_view().to_multiset())
                =~= orig.to_multiset());
            assert forall|i: int, j: int|
                0 <= i < out.deep_view().len() && 0 <= j
                    < remaining.deep_view().len() implies (
            #[trigger] out.deep_view()[i]).timestamp >= (
            #[trigger] remaining.deep_view()[j]).timestamp by {
                let shifted = if j < m as int {
                    j
                } else {
                    j + 1
                };
                assert(remaining.deep_view()[j] == pre_rem[shifted]);
                if i < pre_out.len() {
                    assert(out.deep_view()[i] == pre_out[i]);
                } else {
                    assert(out.deep_view()[i] == pre_rem[m as int]);
                    assert(pre_rem[shifted].timestamp <= pre_rem[m as int].timestamp);
                }
            }
        }
    }
    out
}

/// The anomalies not yet resolved, newest-first by detection time: a
/// permutation of the unresolved records, sorted by `timestamp`
/// descending; no resolved record ever appears.
pub fn get_unresolved_anomalies(anomalies: &Vec<Anomaly>) -> (r: Vec<Anomaly>)
    ensures
        r.deep_view().to_multiset() == unresolved_of(anomalies.deep_view()).to_multiset(),
        sorted_by_timestamp_desc(r.deep_view()),
        forall|i: int| 0 <= i < r.deep_view().len() ==> !(#[trigger] r.deep_view()[i]).resolved,
{
    let ghost s = anomalies.deep_view();
    let mut unresolved: Vec<Anomaly> = Vec::new();
    let mut i: usize = 0;
    while i < anomalies.len()
        invariant
            0 <= i <= s.len(),
            anomalies.deep_view() == s,
            unresolved.deep_view() == unresolved_of(s.take(i as int)),
        decreases anomalies@.len() - i,
    {
        let ghost prefix = s.take(i as int);
        let ghost extended = s.take(i as int + 1);
        if !anomalies[i].resolved {
            unresolved.push(anomalies[i].clone());
        }
        proof {
            assert(extended.drop_last() =~= prefix);
            assert(extended.last() == s[i as int]);
            if !s[i as int].resolved {
                assert(unresolved.deep_view() =~= unresolved_of(prefix) + seq![s[i as int]]);
            } else {
                assert(unresolved_of(extended) =~= unresolved_of(prefix));
            }
        }
        i = i + 1;
    }
    proof {
        assert(s.take(s.len() as int) =~= s);
    }
    let r = sort_by_timestamp_desc(unresolved);
    proof {
        broadcast use vstd::seq_lib::group_to_multiset_ensures;

        lemma_unresolved_of_unresolved(s);
        assert forall|j: int| 0 <= j < r.deep_view().len() implies !(
        #[trigger] r.deep_view()[j]).resolved by {
            let x = r.deep_view()[j];
            assert(r.deep_view().contains(x));
            assert(r.deep_view().to_multiset().count(x) > 0);
            assert(unresolved_of(s).to_multiset().count(x) > 0);
            assert(unresolved_of(s).contains(x));
            let w = choose|w: int| 0 <= w < unresolved_of(s).len() && unresolved_of(s)[w] == x;
            assert(!unresolved_of(s)[w].resolved);
        }
    }
    r
}

/// No false positives: on a slice whose pairwise hash links all hold — in
/// particular on any untouched ledger built purely through `append` — there
/// are no chain-break positions, so `detect_chain_anomalies` returns an
/// empty set.
#[verifier::rlimit(100)]
pub proof fn lemma_no_false_positives(s: Seq<EntryView>)
    requires
        crate::ledger::hash_links_ok(s),
    ensures
        chain_break_positions(s).len() == 0,
    decreases s.len(),
{
    if s.len() > 1 {
        assert(s[s.len() - 1].previous_hash == Some(s[s.len() - 2].current_hash));
        assert(!chain_mismatch_at(s, s.len() - 1));
        assert forall|i: int|
            1 <= i < s.drop_last().len() implies (#[trigger] s.drop_last()[i]).previous_hash
            == Some(s.drop_last()[i - 1].current_hash) by {
            assert(s[i].previous_hash == Some(s[i - 1].current_hash));
        }
        lemma_no_false_positives(s.drop_last());
    }
}

} // verus!
