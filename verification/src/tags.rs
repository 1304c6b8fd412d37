//! Event and anomaly classifications, with their stored text tags.
//!
//! Each enum has a canonical lowercase tag used both in the canonical
//! serialization that is hashed into the chain and in persisted rows.
//! Decoding is an exact inverse: an unrecognized tag is a `Decode` error,
//! never silently coerced to a default variant.

use vstd::prelude::*;
use vstd::string::StringExecFns;
use crate::errors::AuditError;

verus! {

broadcast use vstd::string::group_string_axioms;

/// The broad class of a ledger event.
#[derive(Debug, Clone, Copy, PartialEq, Eq, Structural)]
pub enum LogType {
    Financial,
    System,
    User,
    Error,
    Warning,
    Info,
}

/// The business category of a ledger event.
#[derive(Debug, Clone, Copy, PartialEq, Eq, Structural)]
pub enum LogCategory {
    Sale,
    Refund,
    TableStatus,
    Product,
    Category,
    User,
    System,
    Error,
    Other,
}

/// The kind of a detected anomaly.
#[derive(Debug, Clone, Copy, PartialEq, Eq, Structural)]
pub enum AnomalyType {
    TimeDrift,
    MissingTransaction,
    ChainBreak,
    SuspiciousAmount,
    RapidTransactions,
    UserAnomaly,
    SystemTampering,
    ClockManipulation,
}

/// How serious a detected anomaly is.
#[derive(Debug, Clone, Copy, PartialEq, Eq, Structural)]
pub enum AnomalySeverity {
    Low,
    Medium,
    High,
    Critical,
}

impl LogType {
    /// The canonical stored tag of this log type.
    pub open spec fn spec_tag(self) -> Seq<char> {
        match self {
            LogType::Financial => "financial"@,
            LogType::System => "system"@,
            LogType::User => "user"@,
            LogType::Error => "error"@,
            LogType::Warning => "warning"@,
            LogType::Info => "info"@,
        }
    }

    pub fn tag(&self) -> (r: &'static str)
        ensures
            r@ == self.spec_tag(),
    {
        match self {
            LogType::Financial => "financial",
            LogType::System => "system",
            LogType::User => "user",
            LogType::Error => "error",
            LogType::Warning => "warning",
            LogType::Info => "info",
        }
    }
}

/// The log type whose tag is `s`, if any.
pub open spec fn spec_parse_log_type(s: Seq<char>) -> Option<LogType> {
    if s == LogType::Financial.spec_tag() {
        Some(LogType::Financial)
    } else if s == LogType::System.spec_tag() {
        Some(LogType::System)
    } else if s == LogType::User.spec_tag() {
        Some(LogType::User)
    } else if s == LogType::Error.spec_tag() {
        Some(LogType::Error)
    } else if s == LogType::Warning.spec_tag() {
        Some(LogType::Warning)
    } else if s == LogType::Info.spec_tag() {
        Some(LogType::Info)
    } else {
        None
    }
}

/// Decodes a stored log-type tag, failing on an unrecognized one.
pub fn parse_log_type(tag: &str) -> (r: Result<LogType, AuditError>)
    ensures
        match r {
            Ok(t) => spec_parse_log_type(tag@) == Some(t),
            Err(e) => spec_parse_log_type(tag@) is None && e is Decode,
        },
{
    let t = tag.to_owned();
    if t == String::from_str("financial") {
        Ok(LogType::Financial)
    } else if t == String::from_str("system") {
        Ok(LogType::System)
    } else if t == String::from_str("user") {
        Ok(LogType::User)
    } else if t == String::from_str("error") {
        Ok(LogType::Error)
    } else if t == String::from_str("warning") {
        Ok(LogType::Warning)
    } else if t == String::from_str("info") {
        Ok(LogType::Info)
    } else {
        Err(AuditError::Decode(t))
    }
}

impl LogCategory {
    /// The canonical stored tag of this category.
    pub open spec fn spec_tag(self) -> Seq<char> {
        match self {
            LogCategory::Sale => "sale"@,
            LogCategory::Refund => "refund"@,
            LogCategory::TableStatus => "table_status"@,
            LogCategory::Product => "product"@,
            LogCategory::Category => "category"@,
            LogCategory::User => "user"@,
            LogCategory::System => "system"@,
            LogCategory::Error => "error"@,
            LogCategory::Other => "other"@,
        }
    }

    pub fn tag(&self) -> (r: &'static str)
        ensures
            r@ == self.spec_tag(),
    {
        match self {
            LogCategory::Sale => "sale",
            LogCategory::Refund => "refund",
            LogCategory::TableStatus => "table_status",
            LogCategory::Product => "product",
            LogCategory::Category => "category",
            LogCategory::User => "user",
            LogCategory::System => "system",
            LogCategory::Error => "error",
            LogCategory::Other => "other",
        }
    }
}

/// Decoding a log type's own tag gives that log type back: the stored tag
/// identifies the variant exactly.
pub proof fn lemma_log_type_tag_round_trip(t: LogType)
    ensures
        spec_parse_log_type(t.spec_tag()) == Some(t),
{
    reveal_strlit("financial");
    reveal_strlit("system");
    reveal_strlit("user");
    reveal_strlit("error");
    reveal_strlit("warning");
    reveal_strlit("info");
    assert(("system"@).len() != ("financial"@).len());
    assert("system"@ != "financial"@);
    assert(("user"@).len() != ("financial"@).len());
    assert("user"@ != "financial"@);
    assert(("user"@).len() != ("system"@).len());
    assert("user"@ != "system"@);
    assert(("error"@).len() != ("financial"@).len());
    assert("error"@ != "financial"@);
    assert(("error"@).len() != ("system"@).len());
    assert("error"@ != "system"@);
    assert(("error"@).len() != ("user"@).len());
    assert("error"@ != "user"@);
    assert(("warning"@).len() != ("financial"@).len());
    assert("warning"@ != "financial"@);
    assert(("warning"@).len() != ("system"@).len());
    assert("warning"@ != "system"@);
    assert(("warning"@).len() != ("user"@).len());
    assert("warning"@ != "user"@);
    assert(("warning"@).len() != ("error"@).len());
    assert("warning"@ != "error"@);
    assert(("info"@).len() != ("financial"@).len());
    assert("info"@ != "financial"@);
    assert(("info"@).len() != ("system"@).len());
    assert("info"@ != "system"@);
    assert(("info"@)[0] != ("user"@)[0]);
    assert("info"@ != "user"@);
    assert(("info"@).len() != ("error"@).len());
    assert("info"@ != "error"@);
    assert(("info"@).len() != ("warning"@).len());
    assert("info"@ != "warning"@);
}

/// The category whose tag is `s`, if any.
pub open spec fn spec_parse_log_category(s: Seq<char>) -> Option<LogCategory> {
    if s == LogCategory::Sale.spec_tag() {
        Some(LogCategory::Sale)
    } else if s == LogCategory::Refund.spec_tag() {
        Some(LogCategory::Refund)
    } else if s == LogCategory::TableStatus.spec_tag() {
        Some(LogCategory::TableStatus)
    } else if s == LogCategory::Product.spec_tag() {
        Some(LogCategory::Product)
    } else if s == LogCategory::Category.spec_tag() {
        Some(LogCategory::Category)
    } else if s == LogCategory::User.spec_tag() {
        Some(LogCategory::User)
    } else if s == LogCategory::System.spec_tag() {
        Some(LogCategory::System)
    } else if s == LogCategory::Error.spec_tag() {
        Some(LogCategory::Error)
    } else if s == LogCategory::Other.spec_tag() {
        Some(LogCategory::Other)
    } else {
        None
    }
}

/// Decodes a stored category tag, failing on an unrecognized one.
pub fn parse_log_category(tag: &str) -> (r: Result<LogCategory, AuditError>)
    ensures
        match r {
            Ok(t) => spec_parse_log_category(tag@) == Some(t),
            Err(e) => spec_parse_log_category(tag@) is None && e is Decode,
        },
{
    let t = tag.to_owned();
    if t == String::from_str("sale") {
        Ok(LogCategory::Sale)
    } else if t == String::from_str("refund") {
        Ok(LogCategory::Refund)
    } else if t == String::from_str("table_status") {
        Ok(LogCategory::TableStatus)
    } else if t == String::from_str("product") {
        Ok(LogCategory::Product)
    } else if t == String::from_str("category") {
        Ok(LogCategory::Category)
    } else if t == String::from_str("user") {
        Ok(LogCategory::User)
    } else if t == String::from_str("system") {
        Ok(LogCategory::System)
    } else if t == String::from_str("error") {
        Ok(LogCategory::Error)
    } else if t == String::from_str("other") {
        Ok(LogCategory::Other)
    } else {
        Err(AuditError::Decode(t))
    }
}

impl AnomalyType {
    /// The canonical stored tag of this anomaly type.
    pub open spec fn spec_tag(self) -> Seq<char> {
        match self {
            AnomalyType::TimeDrift => "time_drift"@,
            AnomalyType::MissingTransaction => "missing_transaction"@,
            AnomalyType::ChainBreak => "chain_break"@,
            AnomalyType::SuspiciousAmount => "suspicious_amount"@,
            AnomalyType::RapidTransactions => "rapid_transactions"@,
            AnomalyType::UserAnomaly => "user_anomaly"@,
            AnomalyType::SystemTampering => "system_tampering"@,
            AnomalyType::ClockManipulation => "clock_manipulation"@,
        }
    }

    pub fn tag(&self) -> (r: &'static str)
        ensures
            r@ == self.spec_tag(),
    {
        match self {
            AnomalyType::TimeDrift => "time_drift",
            AnomalyType::MissingTransaction => "missing_transaction",
            AnomalyType::ChainBreak => "chain_break",
            AnomalyType::SuspiciousAmount => "suspicious_amount",
            AnomalyType::RapidTransactions => "rapid_transactions",
            AnomalyType::UserAnomaly => "user_anomaly",
            AnomalyType::SystemTampering => "system_tampering",
            AnomalyType::ClockManipulation => "clock_manipulation",
        }
    }
}

/// Decoding a category's own tag gives that category back.
pub proof fn lemma_log_category_tag_round_trip(t: LogCategory)
    ensures
        spec_parse_log_category(t.spec_tag()) == Some(t),
{
    reveal_strlit("sale");
    reveal_strlit("refund");
    reveal_strlit("table_status");
    reveal_strlit("product");
    reveal_strlit("category");
    reveal_strlit("user");
    reveal_strlit("system");
    reveal_strlit("error");
    reveal_strlit("other");
    assert(("refund"@).len() != ("sale"@).len());
    assert("refund"@ != "sale"@);
    assert(("table_status"@).len() != ("sale"@).len());
    assert("table_status"@ != "sale"@);
    assert(("table_status"@).len() != ("refund"@).len());
    assert("table_status"@ != "refund"@);
    assert(("product"@).len() != ("sale"@).len());
    assert("product"@ != "sale"@);
    assert(("product"@).len() != ("refund"@).len());
    assert("product"@ != "refund"@);
    assert(("product"@).len() != ("table_status"@).len());
    assert("product"@ != "table_status"@);
    assert(("category"@).len() != ("sale"@).len());
    assert("category"@ != "sale"@);
    assert(("category"@).len() != ("refund"@).len());
    assert("category"@ != "refund"@);
    assert(("category"@).len() != ("table_status"@).len());
    assert("category"@ != "table_status"@);
    assert(("category"@).len() != ("product"@).len());
    assert("category"@ != "product"@);
    assert(("user"@)[0] != ("sale"@)[0]);
    assert("user"@ != "sale"@);
    assert(("user"@).len() != ("refund"@).len());
    assert("user"@ != "refund"@);
    assert(("user"@).len() != ("table_status"@).len());
    assert("user"@ != "table_status"@);
    assert(("user"@).len() != ("product"@).len());
    assert("user"@ != "product"@);
    assert(("user"@).len() != ("category"@).len());
    assert("user"@ != "category"@);
    assert(("system"@).len() != ("sale"@).len());
    assert("system"@ != "sale"@);
    assert(("system"@)[0] != ("refund"@)[0]);
    assert("system"@ != "refund"@);
    assert(("system"@).len() != ("table_status"@).len());
    assert("system"@ != "table_status"@);
    assert(("system"@).len() != ("product"@).len());
    assert("system"@ != "product"@);
    assert(("system"@).len() != ("category"@).len());
    assert("system"@ != "category"@);
    assert(("system"@).len() != ("user"@).len());
    assert("system"@ != "user"@);
    assert(("error"@).len() != ("sale"@).len());
    assert("error"@ != "sale"@);
    assert(("error"@).len() != ("refund"@).len());
    assert("error"@ != "refund"@);
    assert(("error"@).len() != ("table_status"@).len());
    assert("error"@ != "table_status"@);
    assert(("error"@).len() != ("product"@).len());
    assert("error"@ != "product"@);
    assert(("error"@).len() != ("category"@).len());
    assert("error"@ != "category"@);
    assert(("error"@).len() != ("user"@).len());
    assert("error"@ != "user"@);
    assert(("error"@).len() != ("system"@).len());
    assert("error"@ != "system"@);
    assert(("other"@).len() != ("sale"@).len());
    assert("other"@ != "sale"@);
    assert(("other"@).len() != ("refund"@).len());
    assert("other"@ != "refund"@);
    assert(("other"@).len() != ("table_status"@).len());
    assert("other"@ != "table_status"@);
    assert(("other"@).len() != ("product"@).len());
    assert("other"@ != "product"@);
    assert(("other"@).len() != ("category"@).len());
    assert("other"@ != "category"@);
    assert(("other"@).len() != ("user"@).len());
    assert("other"@ != "user"@);
    assert(("other"@).len() != ("system"@).len());
    assert("other"@ != "system"@);
    assert(("other"@)[0] != ("error"@)[0]);
    assert("other"@ != "error"@);
}

/// The anomaly type whose tag is `s`, if any.
pub open spec fn spec_parse_anomaly_type(s: Seq<char>) -> Option<AnomalyType> {
    if s == AnomalyType::TimeDrift.spec_tag() {
        Some(AnomalyType::TimeDrift)
    } else if s == AnomalyType::MissingTransaction.spec_tag() {
        Some(AnomalyType::MissingTransaction)
    } else if s == AnomalyType::ChainBreak.spec_tag() {
        Some(AnomalyType::ChainBreak)
    } else if s == AnomalyType::SuspiciousAmount.spec_tag() {
        Some(AnomalyType::SuspiciousAmount)
    } else if s == AnomalyType::RapidTransactions.spec_tag() {
        Some(AnomalyType::RapidTransactions)
    } else if s == AnomalyType::UserAnomaly.spec_tag() {
        Some(AnomalyType::UserAnomaly)
    } else if s == AnomalyType::SystemTampering.spec_tag() {
        Some(AnomalyType::SystemTampering)
    } else if s == AnomalyType::ClockManipulation.spec_tag() {
        Some(AnomalyType::ClockManipulation)
    } else {
        None
    }
}

/// Decodes a stored anomaly-type tag, failing on an unrecognized one.
pub fn parse_anomaly_type(tag: &str) -> (r: Result<AnomalyType, AuditError>)
    ensures
        match r {
            Ok(t) => spec_parse_anomaly_type(tag@) == Some(t),
            Err(e) => spec_parse_anomaly_type(tag@) is None && e is Decode,
        },
{
    let t = tag.to_owned();
    if t == String::from_str("time_drift") {
        Ok(AnomalyType::TimeDrift)
    } else if t == String::from_str("missing_transaction") {
        Ok(AnomalyType::MissingTransaction)
    } else if t == String::from_str("chain_break") {
        Ok(AnomalyType::ChainBreak)
    } else if t == String::from_str("suspicious_amount") {
        Ok(AnomalyType::SuspiciousAmount)
    } else if t == String::from_str("rapid_transactions") {
        Ok(AnomalyType::RapidTransactions)
    } else if t == String::from_str("user_anomaly") {
        Ok(AnomalyType::UserAnomaly)
    } else if t == String::from_str("system_tampering") {
        Ok(AnomalyType::SystemTampering)
    } else if t == String::from_str("clock_manipulation") {
        Ok(AnomalyType::ClockManipulation)
    } else {
        Err(AuditError::Decode(t))
    }
}

impl AnomalySeverity {
    /// The canonical stored tag of this severity.
    pub open spec fn spec_tag(self) -> Seq<char> {
        match self {
            AnomalySeverity::Low => "low"@,
            AnomalySeverity::Medium => "medium"@,
            AnomalySeverity::High => "high"@,
            AnomalySeverity::Critical => "critical"@,
        }
    }

    pub fn tag(&self) -> (r: &'static str)
        ensures
            r@ == self.spec_tag(),
    {
        match self {
            AnomalySeverity::Low => "low",
            AnomalySeverity::Medium => "medium",
            AnomalySeverity::High => "high",
            AnomalySeverity::Critical => "critical",
        }
    }
}

/// Decoding an anomaly type's own tag gives that anomaly type back.
pub proof fn lemma_anomaly_type_tag_round_trip(t: AnomalyType)
    ensures
        spec_parse_anomaly_type(t.spec_tag()) == Some(t),
{
    reveal_strlit("time_drift");
    reveal_strlit("missing_transaction");
    reveal_strlit("chain_break");
    reveal_strlit("suspicious_amount");
    reveal_strlit("rapid_transactions");
    reveal_strlit("user_anomaly");
    reveal_strlit("system_tampering");
    reveal_strlit("clock_manipulation");
    assert(("missing_transaction"@).len() != ("time_drift"@).len());
    assert("missing_transaction"@ != "time_drift"@);
    assert(("chain_break"@).len() != ("time_drift"@).len());
    assert("chain_break"@ != "time_drift"@);
    assert(("chain_break"@).len() != ("missing_transaction"@).len());
    assert("chain_break"@ != "missing_transaction"@);
    assert(("suspicious_amount"@).len() != ("time_drift"@).len());
    assert("suspicious_amount"@ != "time_drift"@);
    assert(("suspicious_amount"@).len() != ("missing_transaction"@).len());
    assert("suspicious_amount"@ != "missing_transaction"@);
    assert(("suspicious_amount"@).len() != ("chain_break"@).len());
    assert("suspicious_amount"@ != "chain_break"@);
    assert(("rapid_transactions"@).len() != ("time_drift"@).len());
    assert("rapid_transactions"@ != "time_drift"@);
    assert(("rapid_transactions"@).len() != ("missing_transaction"@).len());
    assert("rapid_transactions"@ != "missing_transaction"@);
    assert(("rapid_transactions"@).len() != ("chain_break"@).len());
    assert("rapid_transactions"@ != "chain_break"@);
    assert(("rapid_transactions"@).len() != ("suspicious_amount"@).len());
    assert("rapid_transactions"@ != "suspicious_amount"@);
    assert(("user_anomaly"@).len() != ("time_drift"@).len());
    assert("user_anomaly"@ != "time_drift"@);
    assert(("user_anomaly"@).len() != ("missing_transaction"@).len());
    assert("user_anomaly"@ != "missing_transaction"@);
    assert(("user_anomaly"@).len() != ("chain_break"@).len());
    assert("user_anomaly"@ != "chain_break"@);
    assert(("user_anomaly"@).len() != ("suspicious_amount"@).len());
    assert("user_anomaly"@ != "suspicious_amount"@);
    assert(("user_anomaly"@).len() != ("rapid_transactions"@).len());
    assert("user_anomaly"@ != "rapid_transactions"@);
    assert(("system_tampering"@).len() != ("time_drift"@).len());
    assert("system_tampering"@ != "time_drift"@);
    assert(("system_tampering"@).len() != ("missing_transaction"@).len());
    assert("system_tampering"@ != "missing_transaction"@);
    assert(("system_tampering"@).len() != ("chain_break"@).len());
    assert("system_tampering"@ != "chain_break"@);
    assert(("system_tampering"@).len() != ("suspicious_amount"@).len());
    assert("system_tampering"@ != "suspicious_amount"@);
    assert(("system_tampering"@).len() != ("rapid_transactions"@).len());
    assert("system_tampering"@ != "rapid_transactions"@);
    assert(("system_tampering"@).len() != ("user_anomaly"@).len());
    assert("system_tampering"@ != "user_anomaly"@);
    assert(("clock_manipulation"@).len() != ("time_drift"@).len());
    assert("clock_manipulation"@ != "time_drift"@);
    assert(("clock_manipulation"@).len() != ("missing_transaction"@).len());
    assert("clock_manipulation"@ != "missing_transaction"@);
    assert(("clock_manipulation"@).len() != ("chain_break"@).len());
    assert("clock_manipulation"@ != "chain_break"@);
    assert(("clock_manipulation"@).len() != ("suspicious_amount"@).len());
    assert("clock_manipulation"@ != "suspicious_amount"@);
    assert(("clock_manipulation"@)[0] != ("rapid_transactions"@)[0]);
    assert("clock_manipulation"@ != "rapid_transactions"@);
    assert(("clock_manipulation"@).len() != ("user_anomaly"@).len());
    assert("clock_manipulation"@ != "user_anomaly"@);
    assert(("clock_manipulation"@).len() != ("system_tampering"@).len());
    assert("clock_manipulation"@ != "system_tampering"@);
}

/// The severity whose tag is `s`, if any.
pub open spec fn spec_parse_severity(s: Seq<char>) -> Option<AnomalySeverity> {
    if s == AnomalySeverity::Low.spec_tag() {
        Some(AnomalySeverity::Low)
    } else if s == AnomalySeverity::Medium.spec_tag() {
        Some(AnomalySeverity::Medium)
    } else if s == AnomalySeverity::High.spec_tag() {
        Some(AnomalySeverity::High)
    } else if s == AnomalySeverity::Critical.spec_tag() {
        Some(AnomalySeverity::Critical)
    } else {
        None
    }
}

/// Decoding a severity's own tag gives that severity back.
pub proof fn lemma_severity_tag_round_trip(t: AnomalySeverity)
    ensures
        spec_parse_severity(t.spec_tag()) == Some(t),
{
    reveal_strlit("low");
    reveal_strlit("medium");
    reveal_strlit("high");
    reveal_strlit("critical");
    assert(("medium"@).len() != ("low"@).len());
    assert("medium"@ != "low"@);
    assert(("high"@).len() != ("low"@).len());
    assert("high"@ != "low"@);
    assert(("high"@).len() != ("medium"@).len());
    assert("high"@ != "medium"@);
    assert(("critical"@).len() != ("low"@).len());
    assert("critical"@ != "low"@);
    assert(("critical"@).len() != ("medium"@).len());
    assert("critical"@ != "medium"@);
    assert(("critical"@).len() != ("high"@).len());
    assert("critical"@ != "high"@);
}

/// Decodes a stored severity tag, failing on an unrecognized one.
pub fn parse_severity(tag: &str) -> (r: Result<AnomalySeverity, AuditError>)
    ensures
        match r {
            Ok(t) => spec_parse_severity(tag@) == Some(t),
            Err(e) => spec_parse_severity(tag@) is None && e is Decode,
        },
{
    let t = tag.to_owned();
    if t == String::from_str("low") {
        Ok(AnomalySeverity::Low)
    } else if t == String::from_str("medium") {
        Ok(AnomalySeverity::Medium)
    } else if t == String::from_str("high") {
        Ok(AnomalySeverity::High)
    } else if t == String::from_str("critical") {
        Ok(AnomalySeverity::Critical)
    } else {
        Err(AuditError::Decode(t))
    }
}

} // verus!
