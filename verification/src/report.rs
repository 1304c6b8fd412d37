//! Period compliance reports.
//!
//! A report summarises the ledger entries whose creation time falls inside
//! an inclusive period: their count, the sum of their present amounts, the
//! pairwise hash check and the timestamp-order check over that slice, and
//! the count of anomalies detected in the period. The slice-scoped chain
//! check is a known limitation preserved by design: filtering by date can
//! report a break at a period boundary that the full ledger does not have.
//! The report is sealed with a SHA-256 checksum over its summary fields —
//! a content checksum, not a cryptographic signature.

use vstd::prelude::*;
use vstd::string::StringExecFns;
use crate::anomaly::Anomaly;
use crate::anomaly::AnomalyView;
use crate::decimal::dec_int;
use crate::decimal::i64_dec;
use crate::entry::EntryView;
use crate::entry::SecureLogEntry;
use crate::entry::amount_or_zero;
use crate::hashing::sha256_hex;
use crate::hashing::sha256_hex_of;
use crate::ledger::hash_links_ok;
use crate::ledger::times_ok;
use crate::ledger::verify_chain_integrity;
use crate::ledger::verify_time_consistency;

verus! {

/// A request for a report over an inclusive RFC 3339 period.
pub struct ComplianceReportRequest {
    pub period_start: String,
    pub period_end: String,
    pub country_code: String,
}

/// A periodic summary of transactions and integrity status, immutable once
/// generated.
pub struct ComplianceReport {
    pub id: String,
    /// Inclusive period bounds, in Unix seconds.
    pub period_start: i64,
    pub period_end: i64,
    pub country_code: String,
    /// How many ledger entries fall in the period.
    pub total_transactions: i64,
    /// The sum of the period's present amounts, in minor currency units.
    pub total_amount: i64,
    /// How many anomaly records were detected in the period.
    pub anomalies_count: i64,
    /// The pairwise hash check over the period's slice alone.
    pub chain_integrity: bool,
    /// Whether the period's entries never go backwards in creation time.
    pub time_consistency: bool,
    /// When the report was generated (Unix seconds).
    pub generated_at: i64,
    /// SHA-256 checksum over the summary fields, in a fixed order.
    pub report_signature: String,
}

/// The spec-level image of a `ComplianceReport`.
#[verifier::ext_equal]
pub ghost struct ReportView {
    pub id: Seq<char>,
    pub period_start: int,
    pub period_end: int,
    pub country_code: Seq<char>,
    pub total_transactions: int,
    pub total_amount: int,
    pub anomalies_count: int,
    pub chain_integrity: bool,
    pub time_consistency: bool,
    pub generated_at: int,
    pub report_signature: Seq<char>,
}

impl View for ComplianceReport {
    type V = ReportView;

    open spec fn view(&self) -> ReportView {
        ReportView {
            id: self.id@,
            period_start: self.period_start as int,
            period_end: self.period_end as int,
            country_code: self.country_code@,
            total_transactions: self.total_transactions as int,
            total_amount: self.total_amount as int,
            anomalies_count: self.anomalies_count as int,
            chain_integrity: self.chain_integrity,
            time_consistency: self.time_consistency,
            generated_at: self.generated_at as int,
            report_signature: self.report_signature@,
        }
    }
}

/// Whether an entry's creation time falls in the inclusive period.
pub open spec fn entry_in_period(e: EntryView, start: int, end: int) -> bool {
    start <= e.created_at <= end
}

/// The entries created in the inclusive period, in the order given.
pub open spec fn entries_in_period(s: Seq<EntryView>, start: int, end: int) -> Seq<EntryView>
    decreases s.len(),
{
    if s.len() == 0 {
        Seq::empty()
    } else {
        entries_in_period(s.drop_last(), start, end) + if entry_in_period(s.last(), start, end) {
            seq![s.last()]
        } else {
            Seq::empty()
        }
    }
}

/// A period holds no more entries than the whole ledger.
pub proof fn lemma_entries_in_period_len(s: Seq<EntryView>, start: int, end: int)
    ensures
        entries_in_period(s, start, end).len() <= s.len(),
    decreases s.len(),
{
    if s.len() > 0 {
        lemma_entries_in_period_len(s.drop_last(), start, end);
    }
}

/// The sum of present amounts over a slice, absent amounts counting as
/// zero.
pub open spec fn sum_amounts(s: Seq<EntryView>) -> int
    decreases s.len(),
{
    if s.len() == 0 {
        0
    } else {
        sum_amounts(s.drop_last()) + amount_or_zero(s.last().amount)
    }
}

/// Appending one entry to a slice adds that entry's amount (or zero) to
/// the slice's total.
pub proof fn lemma_sum_amounts_push(a: Seq<EntryView>, x: EntryView)
    ensures
        sum_amounts(a.push(x)) == sum_amounts(a) + amount_or_zero(x.amount),
{
    assert(a.push(x).drop_last() =~= a);
    assert(a.push(x).last() == x);
}

/// The anomaly records detected in the inclusive period, in the order
/// given.
pub open spec fn anomalies_in_period(s: Seq<AnomalyView>, start: int, end: int) -> Seq<AnomalyView>
    decreases s.len(),
{
    if s.len() == 0 {
        Seq::empty()
    } else {
        anomalies_in_period(s.drop_last(), start, end) + if start <= s.last().timestamp <= end {
            seq![s.last()]
        } else {
            Seq::empty()
        }
    }
}

/// A period holds no more anomalies than the whole store.
pub proof fn lemma_anomalies_in_period_len(s: Seq<AnomalyView>, start: int, end: int)
    ensures
        anomalies_in_period(s, start, end).len() <= s.len(),
    decreases s.len(),
{
    if s.len() > 0 {
        lemma_anomalies_in_period_len(s.drop_last(), start, end);
    }
}

/// The text a boolean contributes to the signed summary.
pub open spec fn bool_text(b: bool) -> Seq<char> {
    if b {
        "true"@
    } else {
        "false"@
    }
}

/// The canonical summary string that the report signature checksums: the
/// period bounds, country code, totals and both integrity verdicts, in
/// this fixed order.
pub open spec fn report_payload(
    period_start: int,
    period_end: int,
    country_code: Seq<char>,
    total_transactions: int,
    total_amount: int,
    anomalies_count: int,
    chain_integrity: bool,
    time_consistency: bool,
) -> Seq<char> {
    dec_int(period_start) + dec_int(period_end) + country_code + dec_int(total_transactions)
        + dec_int(total_amount) + dec_int(anomalies_count) + bool_text(chain_integrity)
        + bool_text(time_consistency)
}

/// The report generated over `entries` and `anomalies` for the inclusive
/// period, as a function of its inputs.
pub open spec fn spec_report(
    id: Seq<char>,
    entries: Seq<EntryView>,
    anomalies: Seq<AnomalyView>,
    period_start: int,
    period_end: int,
    country_code: Seq<char>,
    now: int,
) -> ReportView {
    let period = entries_in_period(entries, period_start, period_end);
    let total_transactions = period.len() as int;
    let total_amount = sum_amounts(period);
    let anomalies_count = anomalies_in_period(anomalies, period_start, period_end).len() as int;
    let chain_integrity = hash_links_ok(period);
    let time_consistency = times_ok(period);
    ReportView {
        id: id,
        period_start: period_start,
        period_end: period_end,
        country_code: country_code,
        total_transactions: total_transactions,
        total_amount: total_amount,
        anomalies_count: anomalies_count,
        chain_integrity: chain_integrity,
        time_consistency: time_consistency,
        generated_at: now,
        report_signature: sha256_hex_of(
            report_payload(
                period_start,
                period_end,
                country_code,
                total_transactions,
                total_amount,
                anomalies_count,
                chain_integrity,
                time_consistency,
            ),
        ),
    }
}

/// The text a boolean contributes to the signed summary.
fn bool_str(b: bool) -> (r: &'static str)
    ensures
        r@ == bool_text(b),
{
    if b {
        "true"
    } else {
        "false"
    }
}

/// Generates the compliance report for the inclusive period: filters the
/// entries and anomaly records by creation time, totals the period's
/// transactions and amounts, runs the pairwise hash check and the
/// timestamp-order check over the period's slice alone, and seals the
/// summary with a checksum. The caller persists the result.
#[verifier::rlimit(100)]
pub fn generate(
    entries: &Vec<SecureLogEntry>,
    anomalies: &Vec<Anomaly>,
    period_start: i64,
    period_end: i64,
    country_code: String,
    id: String,
    now: i64,
) -> (r: ComplianceReport)
    requires
        entries@.len() <= i64::MAX,
        anomalies@.len() <= i64::MAX,
        i64::MIN <= sum_amounts(
            entries_in_period(entries.deep_view(), period_start as int, period_end as int),
        ) <= i64::MAX,
    ensures
        r@ == spec_report(
            id@,
            entries.deep_view(),
            anomalies.deep_view(),
            period_start as int,
            period_end as int,
            country_code@,
            now as int,
        ),
{
    let ghost s = entries.deep_view();
    let ghost av = anomalies.deep_view();
    let ghost period = entries_in_period(s, period_start as int, period_end as int);

    // Filter the period's entries, preserving stored order.
    let mut period_logs: Vec<SecureLogEntry> = Vec::new();
    let mut i: usize = 0;
    while i < entries.len()
        invariant
            0 <= i <= s.len(),
            entries.deep_view() == s,
            period_logs.deep_view() == entries_in_period(
                s.take(i as int),
                period_start as int,
                period_end as int,
            ),
        decreases entries@.len() - i,
    {
        let ghost prefix = s.take(i as int);
        let ghost extended = s.take(i as int + 1);
        if period_start <= entries[i].created_at && entries[i].created_at <= period_end {
            period_logs.push(entries[i].clone());
        }
        proof {
            assert(extended.drop_last() =~= prefix);
            assert(extended.last() == s[i as int]);
            if entry_in_period(s[i as int], period_start as int, period_end as int) {
                assert(period_logs.deep_view() =~= entries_in_period(
                    prefix,
                    period_start as int,
                    period_end as int,
                ) + seq![s[i as int]]);
            } else {
                assert(entries_in_period(extended, period_start as int, period_end as int)
                    =~= entries_in_period(prefix, period_start as int, period_end as int));
            }
        }
        i = i + 1;
    }
    proof {
        assert(s.take(s.len() as int) =~= s);
        lemma_entries_in_period_len(s, period_start as int, period_end as int);
    }

    let total_transactions: i64 = period_logs.len() as i64;

    // Sum the period's amounts; the running total cannot leave i128.
    let ghost pv = period_logs.deep_view();
    let mut total: i128 = 0;
    let mut j: usize = 0;
    while j < period_logs.len()
        invariant
            0 <= j <= pv.len(),
            pv.len() <= i64::MAX,
            period_logs.deep_view() == pv,
            total as int == sum_amounts(pv.take(j as int)),
            -(j as int) * (0x8000_0000_0000_0000) <= total as int <= (j as int) * (
            0x8000_0000_0000_0000),
        decreases period_logs@.len() - j,
    {
        let ghost prefix = pv.take(j as int);
        let ghost extended = pv.take(j as int + 1);
        let amount: i64 = match &period_logs[j].amount {
            Some(a) => *a,
            None => 0,
        };
        total = total + amount as i128;
        proof {
            assert(extended.drop_last() =~= prefix);
            assert(extended.last() == pv[j as int]);
        }
        j = j + 1;
    }
    proof {
        assert(pv.take(pv.len() as int) =~= pv);
        assert(pv == period);
    }
    let total_amount: i64 = total as i64;

    // Count the period's anomaly records.
    let mut anomalies_count: i64 = 0;
    let mut k: usize = 0;
    while k < anomalies.len()
        invariant
            0 <= k <= av.len(),
            av.len() <= i64::MAX,
            anomalies.deep_view() == av,
            anomalies_count as int == anomalies_in_period(
                av.take(k as int),
                period_start as int,
                period_end as int,
            ).len(),
            0 <= anomalies_count as int <= k as int,
        decreases anomalies@.len() - k,
    {
        let ghost prefix = av.take(k as int);
        let ghost extended = av.take(k as int + 1);
        proof {
            assert(extended.drop_last() =~= prefix);
            assert(extended.last() == av[k as int]);
            lemma_anomalies_in_period_len(prefix, period_start as int, period_end as int);
        }
        if period_start <= anomalies[k].timestamp && anomalies[k].timestamp <= period_end {
            anomalies_count = anomalies_count + 1;
        }
        k = k + 1;
    }
    proof {
        assert(av.take(av.len() as int) =~= av);
    }

    let chain_integrity = verify_chain_integrity(&period_logs);
    let time_consistency = verify_time_consistency(&period_logs);

    // Seal the summary fields, in their fixed order, with a checksum.
    let mut payload = i64_dec(period_start);
    payload.append(i64_dec(period_end).as_str());
    payload.append(country_code.as_str());
    payload.append(i64_dec(total_transactions).as_str());
    payload.append(i64_dec(total_amount).as_str());
    payload.append(i64_dec(anomalies_count).as_str());
    payload.append(bool_str(chain_integrity));
    payload.append(bool_str(time_consistency));
    let report_signature = sha256_hex(payload.as_str());

    let r = ComplianceReport {
        id,
        period_start,
        period_end,
        country_code,
        total_transactions,
        total_amount,
        anomalies_count,
        chain_integrity,
        time_consistency,
        generated_at: now,
        report_signature,
    };
    proof {
        assert(r@ =~= spec_report(
            r.id@,
            s,
            av,
            period_start as int,
            period_end as int,
            r.country_code@,
            now as int,
        ));
    }
    r
}

} // verus!
