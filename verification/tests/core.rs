use audit_ledger::anomaly::{
    detect_amount_anomalies, detect_chain_anomalies, detect_time_anomalies, Anomaly,
    AnomalyEvidence,
};
use audit_ledger::clock::AppClock;
use audit_ledger::config::SecurityConfig;
use audit_ledger::decimal::{i64_dec, u64_dec};
use audit_ledger::entry::{CreateSecureLogRequest, SecureLogEntry};
use audit_ledger::errors::AuditError;
use audit_ledger::ledger::{verify_chain_integrity, verify_time_consistency, HashChainLedger};
use audit_ledger::report::ComplianceReportRequest;
use audit_ledger::system::{AnomalyDetectionRequest, AuditSystem};
use audit_ledger::tags::{
    parse_anomaly_type, parse_log_category, parse_log_type, parse_severity, AnomalySeverity,
    AnomalyType, LogCategory, LogType,
};
use sha2::{Digest, Sha256};

fn sha256_hex(data: &str) -> String {
    let mut hasher = Sha256::new();
    hasher.update(data.as_bytes());
    format!("{:x}", hasher.finalize())
}

fn sale_request(title: &str, amount: Option<i64>, session: &str) -> CreateSecureLogRequest {
    CreateSecureLogRequest {
        log_type: LogType::Financial,
        category: LogCategory::Sale,
        title: title.to_string(),
        description: format!("{} description", title),
        amount,
        session_id: session.to_string(),
        user_signature: "operator".to_string(),
        table_id: None,
        table_name: None,
        product_id: None,
        product_name: None,
        user_id: None,
        user_name: None,
        metadata: None,
    }
}

fn system_with_entries(amounts: &[Option<i64>], now: i64) -> AuditSystem {
    let mut system = AuditSystem::new(SecurityConfig::default());
    for (k, amount) in amounts.iter().enumerate() {
        let id = format!("entry-{}", k);
        system.record_event_at(sale_request(&format!("sale {}", k), *amount, "s1"), id, now);
    }
    system
}

#[test]
fn decimal_rendering_matches_expected_text() {
    assert_eq!(u64_dec(0).as_str(), "0");
    assert_eq!(u64_dec(7).as_str(), "7");
    assert_eq!(u64_dec(10).as_str(), "10");
    assert_eq!(u64_dec(987654321).as_str(), "987654321");
    assert_eq!(i64_dec(0).as_str(), "0");
    assert_eq!(i64_dec(-1).as_str(), "-1");
    assert_eq!(i64_dec(12345).as_str(), "12345");
    assert_eq!(i64_dec(i64::MIN).as_str(), "-9223372036854775808");
    assert_eq!(i64_dec(i64::MAX).as_str(), "9223372036854775807");
}

#[test]
fn tag_decoding_round_trips() {
    for t in [
        LogType::Financial,
        LogType::System,
        LogType::User,
        LogType::Error,
        LogType::Warning,
        LogType::Info,
    ] {
        assert_eq!(parse_log_type(t.tag()).unwrap(), t);
    }
    for c in [
        LogCategory::Sale,
        LogCategory::Refund,
        LogCategory::TableStatus,
        LogCategory::Product,
        LogCategory::Category,
        LogCategory::User,
        LogCategory::System,
        LogCategory::Error,
        LogCategory::Other,
    ] {
        assert_eq!(parse_log_category(c.tag()).unwrap(), c);
    }
    for a in [
        AnomalyType::TimeDrift,
        AnomalyType::MissingTransaction,
        AnomalyType::ChainBreak,
        AnomalyType::SuspiciousAmount,
        AnomalyType::RapidTransactions,
        AnomalyType::UserAnomaly,
        AnomalyType::SystemTampering,
        AnomalyType::ClockManipulation,
    ] {
        assert_eq!(parse_anomaly_type(a.tag()).unwrap(), a);
    }
    for s in [
        AnomalySeverity::Low,
        AnomalySeverity::Medium,
        AnomalySeverity::High,
        AnomalySeverity::Critical,
    ] {
        assert_eq!(parse_severity(s.tag()).unwrap(), s);
    }
}

#[test]
fn unrecognized_tags_are_decode_errors() {
    assert!(matches!(parse_log_type("Financial"), Err(AuditError::Decode(_))));
    assert!(matches!(parse_log_type(""), Err(AuditError::Decode(_))));
    assert!(matches!(parse_log_category("sales"), Err(AuditError::Decode(_))));
    assert!(matches!(parse_anomaly_type("chainbreak"), Err(AuditError::Decode(_))));
    assert!(matches!(parse_severity("CRITICAL"), Err(AuditError::Decode(_))));
}

#[test]
fn entry_hash_covers_canonical_serialization() {
    let req = CreateSecureLogRequest {
        log_type: LogType::Financial,
        category: LogCategory::Sale,
        title: "Sale completed".to_string(),
        description: "two covers".to_string(),
        amount: Some(4550),
        session_id: "session-9".to_string(),
        user_signature: "cashier-1".to_string(),
        table_id: Some("t-12".to_string()),
        table_name: None,
        product_id: None,
        product_name: None,
        user_id: Some("u-3".to_string()),
        user_name: None,
        metadata: Some("{\"covers\":2}".to_string()),
    };
    let e = SecureLogEntry::new("id-1".to_string(), req, Some("prevhash".to_string()), 17, 5, 1000);
    // type, category, title, description, amount, app clock, system clock,
    // session, signature, chain index, then the optional references.
    let payload = "financialsaleSale completedtwo covers4550171000session-9cashier-15t-12u-3{\"covers\":2}";
    assert_eq!(e.current_hash, sha256_hex(&format!("{}prevhash", payload)));
    assert_eq!(e.secure_timestamp, sha256_hex("1000"));
    assert_eq!(e.system_clock, 1000);
    assert_eq!(e.created_at, 1000);
    assert_eq!(e.chain_index, 5);
    assert_eq!(e.app_clock, 17);
}

#[test]
fn hash_is_deterministic_and_id_independent() {
    let e1 = SecureLogEntry::new(
        "id-a".to_string(),
        sale_request("same", Some(100), "s"),
        None,
        0,
        1,
        50,
    );
    let e2 = SecureLogEntry::new(
        "id-b".to_string(),
        sale_request("same", Some(100), "s"),
        None,
        0,
        1,
        50,
    );
    assert_eq!(e1.current_hash, e2.current_hash);
    // A changed field changes the hash.
    let e3 = SecureLogEntry::new(
        "id-c".to_string(),
        sale_request("same", Some(101), "s"),
        None,
        0,
        1,
        50,
    );
    assert_ne!(e1.current_hash, e3.current_hash);
}

#[test]
fn ledger_appends_keep_chain_continuity() {
    let mut ledger = HashChainLedger::new();
    let a = ledger.append("a".to_string(), sale_request("a", Some(10), "s"), 0, 100);
    let b = ledger.append("b".to_string(), sale_request("b", None, "s"), 0, 101);
    let c = ledger.append("c".to_string(), sale_request("c", Some(30), "s"), 0, 102);
    assert_eq!(a.chain_index, 1);
    assert_eq!(b.chain_index, 2);
    assert_eq!(c.chain_index, 3);
    assert_eq!(a.previous_hash, None);
    assert_eq!(b.previous_hash.as_deref(), Some(a.current_hash.as_str()));
    assert_eq!(c.previous_hash.as_deref(), Some(b.current_hash.as_str()));
    assert_eq!(ledger.len(), 3);
    assert_eq!(ledger.get_last().unwrap().id, "c");
    assert!(verify_chain_integrity(ledger.entries()));
    assert!(verify_time_consistency(ledger.entries()));

    let first_two = ledger.get_all(Some(2));
    assert_eq!(first_two.len(), 2);
    assert_eq!(first_two[0].id, "a");
    assert_eq!(first_two[1].id, "b");
    let all = ledger.get_all(None);
    assert_eq!(all.len(), 3);
}

#[test]
fn untouched_ledger_raises_no_chain_anomalies() {
    let system = system_with_entries(&[Some(100), None, Some(250)], 500);
    let findings = detect_chain_anomalies(system.ledger().entries(), 600);
    assert!(findings.is_empty());
    assert!(verify_chain_integrity(system.ledger().entries()));
}

#[test]
fn tampered_previous_hash_is_detected_once_as_critical() {
    let system = system_with_entries(&[Some(100), Some(200), Some(300)], 500);
    let mut entries = system.list_entries(None);
    assert_eq!(entries.len(), 3);
    // Overwrite B's stored previous hash with an incorrect value.
    entries[1].previous_hash = Some("0000000000000000".to_string());
    let expected_previous = entries[0].current_hash.clone();
    let actual_hash_of_b = entries[1].current_hash.clone();

    let findings = detect_chain_anomalies(&entries, 600);
    assert_eq!(findings.len(), 1);
    let f = &findings[0];
    assert_eq!(f.anomaly_type, AnomalyType::ChainBreak);
    assert_eq!(f.severity, AnomalySeverity::Critical);
    assert_eq!(f.timestamp, 600);
    assert!(!f.resolved);
    match &f.evidence {
        AnomalyEvidence::ChainBreak {
            current_index,
            current_hash,
            expected_previous_hash,
            actual_previous_hash,
        } => {
            assert_eq!(*current_index, 2);
            assert_eq!(current_hash, &actual_hash_of_b);
            assert_eq!(expected_previous_hash, &expected_previous);
            assert_eq!(actual_previous_hash.as_deref(), Some("0000000000000000"));
        }
        other => panic!("unexpected evidence: {:?}", other),
    }
    assert_eq!(
        f.recommendations,
        vec![
            "verify database integrity".to_string(),
            "contact system administrator".to_string(),
            "inspect system logs".to_string()
        ]
    );
    assert!(!verify_chain_integrity(&entries));
}

#[test]
fn drift_boundary_is_inclusive() {
    // A clock started at second 300 with an empty accumulator shows a
    // constant drift of 300 at every reading.
    let at_boundary = AppClock::new("s".to_string(), 300);
    assert!(at_boundary.validate_time_consistency(1000, 300));
    assert!(at_boundary.validate_time_consistency(0, 300));

    let past_boundary = AppClock::new("s".to_string(), 301);
    assert!(!past_boundary.validate_time_consistency(1000, 300));

    // The accumulator can also outrun the wall clock: drift of -301.
    let mut ahead = AppClock::new("s".to_string(), 0);
    ahead.increment_usage_time(301, 100);
    assert!(!ahead.validate_time_consistency(1000, 300));
    let mut ahead_ok = AppClock::new("s".to_string(), 0);
    ahead_ok.increment_usage_time(300, 100);
    assert!(ahead_ok.validate_time_consistency(1000, 300));
}

#[test]
fn clock_signature_covers_start_time_and_session() {
    let c = AppClock::new("abc".to_string(), 42);
    assert_eq!(c.clock_signature, sha256_hex("42abc"));
    assert_eq!(c.start_time, 42);
    assert_eq!(c.system_start_time, 42);
    assert_eq!(c.total_usage_time, 0);
}

#[test]
fn usage_time_accumulates_and_never_decreases() {
    let mut c = AppClock::new("s".to_string(), 100);
    assert_eq!(c.get_total_usage_time(150), 50);
    c.increment_usage_time(30, 160);
    assert_eq!(c.total_usage_time, 30);
    assert_eq!(c.last_activity, 160);
    // The accessor folds in the live wall-clock delta.
    assert_eq!(c.get_total_usage_time(160), 30 + 60);
    c.increment_usage_time(0, 170);
    assert_eq!(c.total_usage_time, 30);
}

#[test]
fn time_drift_detector_flags_only_excessive_drift() {
    let fine = AppClock::new("s".to_string(), 100);
    let findings = detect_time_anomalies(Some(&fine), 300, 1000);
    assert!(findings.is_empty());

    let drifted = AppClock::new("s".to_string(), 5000);
    let findings = detect_time_anomalies(Some(&drifted), 300, 1000);
    assert_eq!(findings.len(), 1);
    let f = &findings[0];
    assert_eq!(f.anomaly_type, AnomalyType::TimeDrift);
    assert_eq!(f.severity, AnomalySeverity::High);
    match &f.evidence {
        AnomalyEvidence::TimeDrift { session_id, app_clock_time, system_time, max_drift } => {
            assert_eq!(session_id, "s");
            // total 0 plus (1000 - 5000): the reported usage time.
            assert_eq!(*app_clock_time, -4000);
            assert_eq!(*system_time, 1000);
            assert_eq!(*max_drift, 300);
        }
        other => panic!("unexpected evidence: {:?}", other),
    }

    assert!(detect_time_anomalies(None, 300, 1000).is_empty());
}

#[test]
fn amount_threshold_flags_exactly_the_large_amount() {
    // Amounts 10.00, 5000.00 and 20.00 against a 1000.00 threshold, in
    // minor units.
    let system = system_with_entries(&[Some(1000), Some(500000), Some(2000)], 500);
    let entries = system.list_entries(None);
    let findings = detect_amount_anomalies(&entries, 100000, 600);
    assert_eq!(findings.len(), 1);
    let f = &findings[0];
    assert_eq!(f.anomaly_type, AnomalyType::SuspiciousAmount);
    assert_eq!(f.severity, AnomalySeverity::Medium);
    match &f.evidence {
        AnomalyEvidence::SuspiciousAmount { amount, threshold, transaction_id, timestamp } => {
            assert_eq!(*amount, 500000);
            assert_eq!(*threshold, 100000);
            assert_eq!(transaction_id, &entries[1].id);
            assert_eq!(*timestamp, 500);
        }
        other => panic!("unexpected evidence: {:?}", other),
    }
    assert_eq!(f.description, "Suspicious amount detected: 500000");

    // Magnitude counts: a large refund is flagged too.
    let refunds = system_with_entries(&[Some(-500000)], 500);
    let findings = detect_amount_anomalies(&refunds.list_entries(None), 100000, 600);
    assert_eq!(findings.len(), 1);

    // An absent amount is never flagged, whatever the threshold.
    let none = system_with_entries(&[None], 500);
    let findings = detect_amount_anomalies(&none.list_entries(None), -1, 600);
    assert!(findings.is_empty());
}

#[test]
fn empty_period_report_is_clean() {
    let system = AuditSystem::new(SecurityConfig::default());
    let request = ComplianceReportRequest {
        period_start: "2024-01-01T00:00:00Z".to_string(),
        period_end: "2024-01-01T00:00:00Z".to_string(),
        country_code: "FR".to_string(),
    };
    let report = system.get_report(request, "report-1".to_string(), 1700000000).unwrap();
    assert_eq!(report.total_transactions, 0);
    assert_eq!(report.total_amount, 0);
    assert_eq!(report.anomalies_count, 0);
    assert!(report.chain_integrity);
    assert!(report.time_consistency);
    assert_eq!(report.country_code, "FR");
    assert_eq!(report.generated_at, 1700000000);
}

#[test]
fn report_totals_and_signature_cover_the_period() {
    // Entries created at second 500; 2024-01-01T00:00:00Z is 1704067200.
    let system = system_with_entries(&[Some(1500), None, Some(2500)], 500);
    let request = ComplianceReportRequest {
        period_start: "1970-01-01T00:00:00Z".to_string(),
        period_end: "2024-01-01T00:00:00Z".to_string(),
        country_code: "FR".to_string(),
    };
    let report = system.get_report(request, "report-2".to_string(), 1000).unwrap();
    assert_eq!(report.period_start, 0);
    assert_eq!(report.period_end, 1704067200);
    assert_eq!(report.total_transactions, 3);
    assert_eq!(report.total_amount, 4000);
    assert_eq!(report.anomalies_count, 0);
    assert!(report.chain_integrity);
    assert!(report.time_consistency);
    // Fixed field order: start, end, country, transactions, amount,
    // anomalies, chain verdict, time verdict.
    let payload = "01704067200FR340000truetrue";
    assert_eq!(report.report_signature, sha256_hex(payload));
}

#[test]
fn unparsable_period_bounds_are_validation_errors() {
    let system = AuditSystem::new(SecurityConfig::default());
    let request = ComplianceReportRequest {
        period_start: "yesterday".to_string(),
        period_end: "2024-01-01T00:00:00Z".to_string(),
        country_code: "FR".to_string(),
    };
    let result = system.get_report(request, "report-3".to_string(), 1000);
    assert!(matches!(result, Err(AuditError::Validation(_))));

    let request = ComplianceReportRequest {
        period_start: "2024-01-01T00:00:00Z".to_string(),
        period_end: "2024-13-01T00:00:00Z".to_string(),
        country_code: "FR".to_string(),
    };
    let result = system.get_report(request, "report-4".to_string(), 1000);
    assert!(matches!(result, Err(AuditError::Validation(_))));
}

#[test]
fn two_tampered_links_raise_two_findings_in_order() {
    let system = system_with_entries(&[Some(1), Some(2), Some(3), Some(4)], 500);
    let mut entries = system.list_entries(None);
    entries[1].previous_hash = Some("bad-b".to_string());
    entries[3].previous_hash = None;
    let findings = detect_chain_anomalies(&entries, 600);
    assert_eq!(findings.len(), 2);
    match (&findings[0].evidence, &findings[1].evidence) {
        (
            AnomalyEvidence::ChainBreak { current_index: i1, .. },
            AnomalyEvidence::ChainBreak { current_index: i2, .. },
        ) => {
            assert_eq!(*i1, 2);
            assert_eq!(*i2, 4);
        }
        other => panic!("unexpected evidence pair: {:?}", other),
    }
}

#[test]
fn report_rejects_an_unrepresentable_amount_total() {
    let mut system = AuditSystem::new(SecurityConfig::default());
    for k in 0..2 {
        system.record_event_at(
            sale_request("huge", Some(i64::MAX), "s1"),
            format!("huge-{}", k),
            500,
        );
    }
    let request = ComplianceReportRequest {
        period_start: "1970-01-01T00:00:00Z".to_string(),
        period_end: "2100-01-01T00:00:00Z".to_string(),
        country_code: "FR".to_string(),
    };
    let result = system.get_report(request, "report-overflow".to_string(), 1000);
    assert!(matches!(result, Err(AuditError::Validation(_))));

    // A period that excludes the entries still reports cleanly.
    let request = ComplianceReportRequest {
        period_start: "2100-01-01T00:00:00Z".to_string(),
        period_end: "2100-01-01T00:00:00Z".to_string(),
        country_code: "FR".to_string(),
    };
    let report = system.get_report(request, "report-late".to_string(), 1000).unwrap();
    assert_eq!(report.total_transactions, 0);
    assert_eq!(report.total_amount, 0);
}

#[test]
fn resolution_updates_only_resolution_fields() {
    let mut system = system_with_entries(&[Some(100), Some(200), Some(300)], 500);
    let detection = AnomalyDetectionRequest {
        session_id: "s1".to_string(),
        enable_chain_validation: true,
        enable_time_validation: false,
        max_time_drift: 300,
        suspicious_amount_threshold: 150,
    };
    let stored = system.detect_anomalies(&detection, 600);
    assert_eq!(stored.len(), 2); // amounts 200 and 300 exceed threshold 150
    let stored_id = stored[0].id.clone();

    assert!(system.resolve_anomaly(&stored_id, "auditor-a", 700));
    let after_first: Vec<Anomaly> = system.list_anomalies(None);
    let resolved = after_first.iter().find(|a| a.id == stored_id).unwrap();
    assert!(resolved.resolved);
    assert_eq!(resolved.resolved_at, Some(700));
    assert_eq!(resolved.resolved_by.as_deref(), Some("auditor-a"));

    // Resolving again updates who and when, and nothing else.
    assert!(system.resolve_anomaly(&stored_id, "auditor-b", 800));
    let after_second: Vec<Anomaly> = system.list_anomalies(None);
    let re_resolved = after_second.iter().find(|a| a.id == stored_id).unwrap();
    assert!(re_resolved.resolved);
    assert_eq!(re_resolved.resolved_at, Some(800));
    assert_eq!(re_resolved.resolved_by.as_deref(), Some("auditor-b"));
    assert_eq!(re_resolved.anomaly_type, resolved.anomaly_type);
    assert_eq!(re_resolved.description, resolved.description);
    assert_eq!(re_resolved.timestamp, resolved.timestamp);
    match (&re_resolved.evidence, &resolved.evidence) {
        (
            AnomalyEvidence::SuspiciousAmount { amount: a1, transaction_id: t1, .. },
            AnomalyEvidence::SuspiciousAmount { amount: a2, transaction_id: t2, .. },
        ) => {
            assert_eq!(a1, a2);
            assert_eq!(t1, t2);
        }
        other => panic!("unexpected evidence pair: {:?}", other),
    }

    // The resolution log kept both events, in order.
    let log = system.resolutions();
    assert_eq!(log.len(), 2);
    assert_eq!(log[0].resolved_by, "auditor-a");
    assert_eq!(log[0].resolved_at, 700);
    assert_eq!(log[1].resolved_by, "auditor-b");
    assert_eq!(log[1].resolved_at, 800);

    // Resolving an unknown id matches nothing and logs nothing.
    assert!(!system.resolve_anomaly("no-such-id", "auditor-c", 900));
    assert_eq!(system.resolutions().len(), 2);
}

#[test]
fn unresolved_listing_filters_resolved_records() {
    let mut system = system_with_entries(&[Some(500000)], 500);
    let detection = AnomalyDetectionRequest {
        session_id: "s1".to_string(),
        enable_chain_validation: true,
        enable_time_validation: false,
        max_time_drift: 300,
        suspicious_amount_threshold: 100000,
    };
    let stored = system.detect_anomalies(&detection, 600);
    assert_eq!(stored.len(), 1);
    assert_eq!(system.list_unresolved_anomalies().len(), 1);
    assert!(system.resolve_anomaly(&stored[0].id.clone(), "auditor", 700));
    assert_eq!(system.list_unresolved_anomalies().len(), 0);
    assert_eq!(system.list_anomalies(None).len(), 1);
}

#[test]
fn detection_pass_respects_toggles_and_persists_findings() {
    let mut system = system_with_entries(&[Some(500000)], 500);
    system.create_app_clock("drifty".to_string(), 5000);

    // Everything off but the always-on amount check.
    let detection = AnomalyDetectionRequest {
        session_id: "drifty".to_string(),
        enable_chain_validation: false,
        enable_time_validation: false,
        max_time_drift: 300,
        suspicious_amount_threshold: 100000,
    };
    let findings = system.detect_anomalies(&detection, 1000);
    assert_eq!(findings.len(), 1);
    assert_eq!(findings[0].anomaly_type, AnomalyType::SuspiciousAmount);

    // With time validation on, the drifted session adds one finding,
    // ordered before the amount finding.
    let detection = AnomalyDetectionRequest {
        session_id: "drifty".to_string(),
        enable_chain_validation: true,
        enable_time_validation: true,
        max_time_drift: 300,
        suspicious_amount_threshold: 100000,
    };
    let findings = system.detect_anomalies(&detection, 1000);
    assert_eq!(findings.len(), 2);
    assert_eq!(findings[0].anomaly_type, AnomalyType::TimeDrift);
    assert_eq!(findings[1].anomaly_type, AnomalyType::SuspiciousAmount);

    // Both passes persisted everything they returned.
    assert_eq!(system.list_anomalies(None).len(), 3);
}

#[test]
fn anomaly_listings_come_back_newest_first() {
    let mut system = system_with_entries(&[Some(500000)], 500);
    let detection = AnomalyDetectionRequest {
        session_id: "s1".to_string(),
        enable_chain_validation: false,
        enable_time_validation: false,
        max_time_drift: 300,
        suspicious_amount_threshold: 100000,
    };
    // Three passes at increasing detection times store three findings.
    system.detect_anomalies(&detection, 600);
    system.detect_anomalies(&detection, 700);
    system.detect_anomalies(&detection, 800);

    let listed = system.list_anomalies(None);
    assert_eq!(listed.len(), 3);
    assert_eq!(listed[0].timestamp, 800);
    assert_eq!(listed[1].timestamp, 700);
    assert_eq!(listed[2].timestamp, 600);

    // A limit keeps the newest findings.
    let top_two = system.list_anomalies(Some(2));
    assert_eq!(top_two.len(), 2);
    assert_eq!(top_two[0].timestamp, 800);
    assert_eq!(top_two[1].timestamp, 700);
    assert_eq!(system.list_anomalies(Some(10)).len(), 3);
    assert!(system.list_anomalies(Some(0)).is_empty());

    // The unresolved listing is newest-first too, and drops what is
    // resolved.
    let newest_id = system.list_anomalies(Some(1))[0].id.clone();
    assert!(system.resolve_anomaly(&newest_id, "auditor", 900));
    let unresolved = system.list_unresolved_anomalies();
    assert_eq!(unresolved.len(), 2);
    assert_eq!(unresolved[0].timestamp, 700);
    assert_eq!(unresolved[1].timestamp, 600);
    assert!(unresolved.iter().all(|a| !a.resolved));
}

#[test]
fn session_clocks_are_created_updated_and_replaced() {
    let mut system = AuditSystem::new(SecurityConfig::default());
    assert!(system.get_app_clock("s1").is_none());

    let c = system.create_app_clock("s1".to_string(), 100);
    assert_eq!(c.start_time, 100);
    assert_eq!(system.get_app_clock("s1").unwrap().start_time, 100);

    system.update_app_clock("s1", 40, 150).unwrap();
    let c = system.get_app_clock("s1").unwrap();
    assert_eq!(c.total_usage_time, 40);
    assert_eq!(c.last_activity, 150);

    // Updating an unknown session creates its clock first.
    system.update_app_clock("s2", 5, 200).unwrap();
    let c2 = system.get_app_clock("s2").unwrap();
    assert_eq!(c2.start_time, 200);
    assert_eq!(c2.total_usage_time, 5);

    // Re-creating replaces the stored clock.
    system.create_app_clock("s1".to_string(), 300);
    let c = system.get_app_clock("s1").unwrap();
    assert_eq!(c.start_time, 300);
    assert_eq!(c.total_usage_time, 0);

    // An absurd duration is rejected and changes nothing.
    let err = system.update_app_clock("s1", i64::MAX, 400);
    assert!(matches!(err, Err(AuditError::Validation(_))));
    assert_eq!(system.get_app_clock("s1").unwrap().total_usage_time, 0);
}

#[test]
fn record_event_uses_session_usage_time() {
    let mut system = AuditSystem::new(SecurityConfig::default());
    system.create_app_clock("s1".to_string(), 100);
    system.update_app_clock("s1", 25, 150).unwrap();
    let e = system.record_event_at(
        sale_request("sale", Some(100), "s1"),
        "e1".to_string(),
        160,
    );
    // Accumulated 25 plus the live delta 160 - 100.
    assert_eq!(e.app_clock, 85);
    // A session without a clock reads zero.
    let e2 = system.record_event_at(
        sale_request("sale", Some(100), "other"),
        "e2".to_string(),
        160,
    );
    assert_eq!(e2.app_clock, 0);
}

#[test]
fn record_event_samples_the_wall_clock() {
    let mut system = AuditSystem::new(SecurityConfig::default());
    let e = system.record_event(sale_request("live", Some(100), "s1")).unwrap();
    assert_eq!(e.chain_index, 1);
    assert!(e.system_clock > 1_600_000_000);
    assert_eq!(e.id.len(), 36);
    assert_eq!(system.list_entries(None).len(), 1);
}

#[test]
fn default_config_matches_stock_thresholds() {
    let c = SecurityConfig::default();
    assert!(c.enable_chain_validation);
    assert!(c.enable_time_validation);
    assert!(c.enable_anomaly_detection);
    assert_eq!(c.max_time_drift, 300);
    assert_eq!(c.min_transaction_interval, 1000);
    assert_eq!(c.suspicious_amount_threshold, 100000);
    assert_eq!(c.compliance_country, "FR");
    assert_eq!(c.retention_period, 2190);
    assert!(c.enable_real_time_monitoring);
}

#[test]
fn saved_config_is_returned_unchanged() {
    let mut system = AuditSystem::new(SecurityConfig::default());
    let mut config = SecurityConfig::default();
    config.max_time_drift = 60;
    config.compliance_country = "DE".to_string();
    system.save_security_config(config);
    let got = system.get_security_config();
    assert_eq!(got.max_time_drift, 60);
    assert_eq!(got.compliance_country, "DE");
}
