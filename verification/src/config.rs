//! Tunable security thresholds.

use vstd::prelude::*;
use vstd::string::StringExecFns;

verus! {

/// The singleton security configuration consumed by the anomaly detector
/// and the compliance reporter. Read everywhere, mutated only by an
/// explicit save.
pub struct SecurityConfig {
    pub enable_chain_validation: bool,
    pub enable_time_validation: bool,
    pub enable_anomaly_detection: bool,
    /// Largest tolerated clock drift, in seconds.
    pub max_time_drift: i64,
    /// Advisory minimum spacing between transactions, in milliseconds;
    /// recognized but not consumed by any detector here.
    pub min_transaction_interval: i64,
    /// Amount magnitude above which a transaction is flagged, in minor
    /// currency units (cents).
    pub suspicious_amount_threshold: i64,
    pub compliance_country: String,
    /// How long entries are kept, in days. Pruning is a collaborator-owned
    /// job, never performed here: dropping a prefix would break the hash
    /// chain's continuity guarantee for what remains.
    pub retention_period: i64,
    pub enable_real_time_monitoring: bool,
}

/// The spec-level image of a `SecurityConfig`.
#[verifier::ext_equal]
pub ghost struct ConfigView {
    pub enable_chain_validation: bool,
    pub enable_time_validation: bool,
    pub enable_anomaly_detection: bool,
    pub max_time_drift: int,
    pub min_transaction_interval: int,
    pub suspicious_amount_threshold: int,
    pub compliance_country: Seq<char>,
    pub retention_period: int,
    pub enable_real_time_monitoring: bool,
}

impl View for SecurityConfig {
    type V = ConfigView;

    open spec fn view(&self) -> ConfigView {
        ConfigView {
            enable_chain_validation: self.enable_chain_validation,
            enable_time_validation: self.enable_time_validation,
            enable_anomaly_detection: self.enable_anomaly_detection,
            max_time_drift: self.max_time_drift as int,
            min_transaction_interval: self.min_transaction_interval as int,
            suspicious_amount_threshold: self.suspicious_amount_threshold as int,
            compliance_country: self.compliance_country@,
            retention_period: self.retention_period as int,
            enable_real_time_monitoring: self.enable_real_time_monitoring,
        }
    }
}

impl Clone for SecurityConfig {
    /// A field-for-field copy; the copy has the same view as the original.
    fn clone(&self) -> (r: Self)
        ensures
            r@ == self@,
    {
        let r = SecurityConfig {
            enable_chain_validation: self.enable_chain_validation,
            enable_time_validation: self.enable_time_validation,
            enable_anomaly_detection: self.enable_anomaly_detection,
            max_time_drift: self.max_time_drift,
            min_transaction_interval: self.min_transaction_interval,
            suspicious_amount_threshold: self.suspicious_amount_threshold,
            compliance_country: self.compliance_country.clone(),
            retention_period: self.retention_period,
            enable_real_time_monitoring: self.enable_real_time_monitoring,
        };
        proof {
            assert(r@ =~= self@);
        }
        r
    }
}

impl Default for SecurityConfig {
    /// The stock configuration: every check enabled, 300 s drift bound,
    /// 1000 ms advisory interval, a 1000.00 amount threshold (in cents),
    /// country FR, six-year (2190-day) retention.
    fn default() -> (r: SecurityConfig)
        ensures
            r.enable_chain_validation == true,
            r.enable_time_validation == true,
            r.enable_anomaly_detection == true,
            r@.max_time_drift == 300,
            r@.min_transaction_interval == 1000,
            r@.suspicious_amount_threshold == 100000,
            r@.compliance_country == "FR"@,
            r@.retention_period == 2190,
            r.enable_real_time_monitoring == true,
    {
        SecurityConfig {
            enable_chain_validation: true,
            enable_time_validation: true,
            enable_anomaly_detection: true,
            max_time_drift: 300,
            min_transaction_interval: 1000,
            suspicious_amount_threshold: 100000,
            compliance_country: String::from_str("FR"),
            retention_period: 2190,
            enable_real_time_monitoring: true,
        }
    }
}

} // verus!
