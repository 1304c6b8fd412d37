//! The audit core's facade: one object owning the ledger snapshot, the
//! session clocks, the anomaly store with its resolution-event log, and the
//! security configuration.
//!
//! Construction is explicit: a system is built from a configuration and
//! starts empty; no component discovers state implicitly. The facade is the
//! ingestion interface collaborators call (`record_event`), the detection
//! entry point (`detect_anomalies`), and the query surface (`list_entries`,
//! `list_anomalies`, `get_report`). Persistence of what these return is the
//! embedding application's job.

use vstd::prelude::*;
use vstd::string::StringExecFns;
use crate::anomaly::Anomaly;
use crate::anomaly::AnomalyView;
use crate::clock::AppClock;
use crate::clock::AppClockView;
use crate::clock::MAX_CLOCK_SECS;
use crate::clock::clock_wf;
use crate::clock::incremented;
use crate::clock::spec_new_clock;
use crate::clock::usage_time_at;
use crate::config::ConfigView;
use crate::config::SecurityConfig;
use crate::entry::CreateSecureLogRequest;
use crate::entry::EntryView;
use crate::entry::SecureLogEntry;
use crate::errors::AuditError;
use crate::ledger::HashChainLedger;
use crate::ledger::chain_ok;
use crate::report::ComplianceReport;
use crate::report::ComplianceReportRequest;

verus! {

/// One record of the append-only resolution-event log: who resolved which
/// anomaly, and when. The log keeps a full audit trail of resolutions,
/// consistent with the ledger's own append-only philosophy.
pub struct ResolutionEvent {
    pub anomaly_id: String,
    pub resolved_by: String,
    /// When the resolution was recorded (Unix seconds).
    pub resolved_at: i64,
}

/// The spec-level image of a `ResolutionEvent`.
#[verifier::ext_equal]
pub ghost struct ResolutionView {
    pub anomaly_id: Seq<char>,
    pub resolved_by: Seq<char>,
    pub resolved_at: int,
}

impl View for ResolutionEvent {
    type V = ResolutionView;

    open spec fn view(&self) -> ResolutionView {
        ResolutionView {
            anomaly_id: self.anomaly_id@,
            resolved_by: self.resolved_by@,
            resolved_at: self.resolved_at as int,
        }
    }
}

impl DeepView for ResolutionEvent {
    type V = ResolutionView;

    open spec fn deep_view(&self) -> ResolutionView {
        self.view()
    }
}

/// Which detectors one detection pass runs, and with which thresholds.
pub struct AnomalyDetectionRequest {
    pub session_id: String,
    pub enable_chain_validation: bool,
    pub enable_time_validation: bool,
    /// Largest tolerated clock drift, in seconds.
    pub max_time_drift: i64,
    /// Amount magnitude above which a transaction is flagged, in minor
    /// currency units (cents).
    pub suspicious_amount_threshold: i64,
}

/// The spec-level image of an `AuditSystem`.
#[verifier::ext_equal]
pub ghost struct SystemView {
    pub entries: Seq<EntryView>,
    pub clocks: Seq<AppClockView>,
    pub anomalies: Seq<AnomalyView>,
    pub resolutions: Seq<ResolutionView>,
    pub config: ConfigView,
}

/// The clock of the session `sid`, if one exists. Session ids are unique
/// in a well-formed system, so this is the session's one clock.
pub open spec fn find_clock(clocks: Seq<AppClockView>, sid: Seq<char>) -> Option<AppClockView>
    decreases clocks.len(),
{
    if clocks.len() == 0 {
        None
    } else if clocks[0].session_id == sid {
        Some(clocks[0])
    } else {
        find_clock(clocks.drop_first(), sid)
    }
}

/// If the first match for `sid` stands at position `i`, the lookup finds
/// exactly that clock.
proof fn lemma_find_clock_present(clocks: Seq<AppClockView>, sid: Seq<char>, i: int)
    requires
        0 <= i < clocks.len(),
        clocks[i].session_id == sid,
        forall|k: int| 0 <= k < i ==> (#[trigger] clocks[k]).session_id != sid,
    ensures
        find_clock(clocks, sid) == Some(clocks[i]),
    decreases i,
{
    if i > 0 {
        assert(clocks[0].session_id != sid);
        lemma_find_clock_present(clocks.drop_first(), sid, i - 1);
        assert(clocks.drop_first()[i - 1] == clocks[i]);
    }
}

/// If no clock carries `sid`, the lookup finds none.
proof fn lemma_find_clock_absent(clocks: Seq<AppClockView>, sid: Seq<char>)
    requires
        forall|k: int| 0 <= k < clocks.len() ==> (#[trigger] clocks[k]).session_id != sid,
    ensures
        find_clock(clocks, sid) is None,
    decreases clocks.len(),
{
    if clocks.len() > 0 {
        assert(clocks[0].session_id != sid);
        lemma_find_clock_absent(clocks.drop_first(), sid);
    }
}

/// A found clock is one of the stored clocks.
proof fn lemma_find_clock_is_element(clocks: Seq<AppClockView>, sid: Seq<char>)
    ensures
        match find_clock(clocks, sid) {
            Some(c) => exists|k: int| 0 <= k < clocks.len() && #[trigger] clocks[k] == c,
            None => true,
        },
    decreases clocks.len(),
{
    if clocks.len() > 0 && clocks[0].session_id != sid {
        lemma_find_clock_is_element(clocks.drop_first(), sid);
        if find_clock(clocks, sid) is Some {
            let c = find_clock(clocks.drop_first(), sid)->Some_0;
            let k = choose|k: int|
                0 <= k < clocks.drop_first().len() && #[trigger] clocks.drop_first()[k] == c;
            assert(clocks[k + 1] == c);
        }
    }
}

/// The usage time the session's clock reports at second `now`; a session
/// without a clock reports zero, exactly what a clock started at `now`
/// would report.
pub open spec fn session_usage(clocks: Seq<AppClockView>, sid: Seq<char>, now: int) -> int {
    match find_clock(clocks, sid) {
        Some(c) => usage_time_at(c, now),
        None => 0,
    }
}

/// The audit core: ledger, session clocks, anomaly store, resolution log
/// and configuration, owned together behind one interface.
pub struct AuditSystem {
    ledger: HashChainLedger,
    clocks: Vec<AppClock>,
    anomalies: Vec<Anomaly>,
    resolutions: Vec<ResolutionEvent>,
    config: SecurityConfig,
}

impl View for AuditSystem {
    type V = SystemView;

    closed spec fn view(&self) -> SystemView {
        SystemView {
            entries: self.ledger@,
            clocks: self.clocks.deep_view(),
            anomalies: self.anomalies.deep_view(),
            resolutions: self.resolutions.deep_view(),
            config: self.config@,
        }
    }
}

impl AuditSystem {
    /// The system invariant: the ledger keeps the chain invariant, every
    /// clock is within bounds, and no two clocks share a session.
    pub open spec fn wf(&self) -> bool {
        &&& chain_ok(self@.entries)
        &&& forall|k: int| 0 <= k < self@.clocks.len() ==> clock_wf(#[trigger] self@.clocks[k])
        &&& forall|k1: int, k2: int|
            0 <= k1 < k2 < self@.clocks.len() ==> (#[trigger] self@.clocks[k1]).session_id != (
            #[trigger] self@.clocks[k2]).session_id
    }

    /// A fresh, empty audit core under the given configuration.
    pub fn new(config: SecurityConfig) -> (s: AuditSystem)
        ensures
            s@.entries == Seq::<EntryView>::empty(),
            s@.clocks == Seq::<AppClockView>::empty(),
            s@.anomalies == Seq::<AnomalyView>::empty(),
            s@.resolutions == Seq::<ResolutionView>::empty(),
            s@.config == config@,
            s.wf(),
    {
        let s = AuditSystem {
            ledger: HashChainLedger::new(),
            clocks: Vec::new(),
            anomalies: Vec::new(),
            resolutions: Vec::new(),
            config,
        };
        proof {
            assert(s@.clocks =~= Seq::<AppClockView>::empty());
            assert(s@.anomalies =~= Seq::<AnomalyView>::empty());
            assert(s@.resolutions =~= Seq::<ResolutionView>::empty());
        }
        s
    }

    /// The session's clock, if one exists.
    pub fn get_app_clock(&self, session_id: &str) -> (r: Option<&AppClock>)
        ensures
            match r {
                Some(c) => find_clock(self@.clocks, session_id@) == Some(c@),
                None => find_clock(self@.clocks, session_id@) is None,
            },
    {
        let target = session_id.to_owned();
        let mut i: usize = 0;
        while i < self.clocks.len()
            invariant
                0 <= i <= self.clocks@.len(),
                target@ == session_id@,
                forall|k: int|
                    0 <= k < i ==> (#[trigger] self@.clocks[k]).session_id != session_id@,
            decreases self.clocks@.len() - i,
        {
            if self.clocks[i].session_id == target {
                proof {
                    lemma_find_clock_present(self@.clocks, session_id@, i as int);
                }
                return Some(&self.clocks[i]);
            }
            i = i + 1;
        }
        proof {
            lemma_find_clock_absent(self@.clocks, session_id@);
        }
        None
    }

    /// Starts (or restarts) the session's clock at wall-clock second `now`
    /// and stores it, replacing any previous clock of that session. Returns
    /// a copy of what was stored.
    #[verifier::rlimit(50)]
    pub fn create_app_clock(&mut self, session_id: String, now: i64) -> (c: AppClock)
        requires
            old(self).wf(),
            0 <= now <= MAX_CLOCK_SECS,
        ensures
            final(self).wf(),
            c@ == spec_new_clock(session_id@, now as int),
            match find_clock(old(self)@.clocks, session_id@) {
                Some(_) => {
                    &&& final(self)@.clocks.len() == old(self)@.clocks.len()
                    &&& forall|k: int|
                        0 <= k < old(self)@.clocks.len() ==> #[trigger] final(self)@.clocks[k] == (
                        if old(self)@.clocks[k].session_id == session_id@ {
                            c@
                        } else {
                            old(self)@.clocks[k]
                        })
                },
                None => final(self)@.clocks == old(self)@.clocks.push(c@),
            },
            final(self)@.entries == old(self)@.entries,
            final(self)@.anomalies == old(self)@.anomalies,
            final(self)@.resolutions == old(self)@.resolutions,
            final(self)@.config == old(self)@.config,
    {
        let c = AppClock::new(session_id, now);
        let stored = c.clone();
        let ghost sid = c.session_id@;
        let mut i: usize = 0;
        while i < self.clocks.len()
            invariant
                0 <= i <= self.clocks@.len(),
                *self == *old(self),
                old(self).wf(),
                0 <= now <= MAX_CLOCK_SECS,
                stored@ == c@,
                sid == c@.session_id,
                c@.session_id == session_id@,
                c@ == spec_new_clock(session_id@, now as int),
                clock_wf(c@),
                forall|k: int| 0 <= k < i ==> (#[trigger] self@.clocks[k]).session_id != sid,
            decreases self.clocks@.len() - i,
        {
            if self.clocks[i].session_id == stored.session_id {
                proof {
                    lemma_find_clock_present(self@.clocks, sid, i as int);
                }
                let ghost pos = i as int;
                self.clocks[i] = stored;
                proof {
                    assert(self.clocks@ == old(self).clocks@.update(pos, stored));
                    assert forall|k: int| 0 <= k < old(self)@.clocks.len() implies
                        #[trigger] self@.clocks[k] == (if old(self)@.clocks[k].session_id == sid {
                        c@
                    } else {
                        old(self)@.clocks[k]
                    }) by {
                        if k != pos {
                            assert(self.clocks@[k] == old(self).clocks@[k]);
                            if old(self)@.clocks[k].session_id == sid {
                                assert((old(self)@.clocks[pos]).session_id == sid);
                                assert(false);
                            }
                        }
                    }
                    assert forall|k1: int, k2: int|
                        0 <= k1 < k2 < self@.clocks.len() implies (
                        #[trigger] self@.clocks[k1]).session_id != (
                        #[trigger] self@.clocks[k2]).session_id by {
                        assert(self@.clocks[k1].session_id == old(self)@.clocks[k1].session_id);
                        assert(self@.clocks[k2].session_id == old(self)@.clocks[k2].session_id);
                    }
                }
                return c;
            }
            i = i + 1;
        }
        proof {
            lemma_find_clock_absent(self@.clocks, sid);
        }
        self.clocks.push(stored);
        proof {
            assert forall|k: int| 0 <= k < self@.clocks.len() implies self@.clocks[k] == old(
                self,
            )@.clocks.push(c@)[k] by {
                if k < old(self)@.clocks.len() {
                    assert(self.clocks@[k] == old(self).clocks@[k]);
                } else {
                    assert(self.clocks@[k] == stored);
                }
            }
            assert(self@.clocks =~= old(self)@.clocks.push(c@));
        }
        c
    }

    /// Adds trusted elapsed seconds to the session's clock, creating the
    /// clock first if the session has none, and stamps the activity time.
    /// Fails with a `Validation` error, changing nothing, when the addition
    /// would push the accumulator past `MAX_CLOCK_SECS`.
    #[verifier::rlimit(100)]
    pub fn update_app_clock(&mut self, session_id: &str, duration: i64, now: i64) -> (r: Result<
        (),
        AuditError,
    >)
        requires
            old(self).wf(),
            0 <= duration,
            0 <= now <= MAX_CLOCK_SECS,
        ensures
            final(self).wf(),
            final(self)@.entries == old(self)@.entries,
            final(self)@.anomalies == old(self)@.anomalies,
            final(self)@.resolutions == old(self)@.resolutions,
            final(self)@.config == old(self)@.config,
            match find_clock(old(self)@.clocks, session_id@) {
                Some(c) =>
                    if c.total_usage_time + duration <= MAX_CLOCK_SECS {
                        &&& r is Ok
                        &&& final(self)@.clocks.len() == old(self)@.clocks.len()
                        &&& forall|k: int|
                            0 <= k < old(self)@.clocks.len()
                                ==> #[trigger] final(self)@.clocks[k] == (
                            if old(self)@.clocks[k].session_id == session_id@ {
                                incremented(c, duration as int, now as int)
                            } else {
                                old(self)@.clocks[k]
                            })
                    } else {
                        &&& r is Err
                        &&& final(self)@.clocks == old(self)@.clocks
                    },
                None =>
                    if duration <= MAX_CLOCK_SECS {
                        &&& r is Ok
                        &&& final(self)@.clocks == old(self)@.clocks.push(
                            incremented(
                                spec_new_clock(session_id@, now as int),
                                duration as int,
                                now as int,
                            ),
                        )
                    } else {
                        &&& r is Err
                        &&& final(self)@.clocks == old(self)@.clocks
                    },
            },
            r is Err ==> (match r {
                Err(e) => e is Validation,
                Ok(_) => false,
            }),
    {
        let target = session_id.to_owned();
        let mut i: usize = 0;
        while i < self.clocks.len()
            invariant
                0 <= i <= self.clocks@.len(),
                *self == *old(self),
                old(self).wf(),
                0 <= duration,
                0 <= now <= MAX_CLOCK_SECS,
                target@ == session_id@,
                forall|k: int|
                    0 <= k < i ==> (#[trigger] self@.clocks[k]).session_id != session_id@,
            decreases self.clocks@.len() - i,
        {
            if self.clocks[i].session_id == target {
                proof {
                    lemma_find_clock_present(self@.clocks, session_id@, i as int);
                }
                if duration > MAX_CLOCK_SECS || self.clocks[i].total_usage_time > MAX_CLOCK_SECS
                    - duration {
                    return Err(
                        AuditError::Validation(
                            String::from_str("usage time would exceed the supported range"),
                        ),
                    );
                }
                let mut updated = self.clocks[i].clone();
                updated.increment_usage_time(duration, now);
                let ghost pos = i as int;
                self.clocks[i] = updated;
                proof {
                    assert(self.clocks@ == old(self).clocks@.update(pos, updated));
                    assert forall|k: int| 0 <= k < old(self)@.clocks.len() implies
                        #[trigger] self@.clocks[k] == (if old(self)@.clocks[k].session_id
                        == session_id@ {
                        incremented(
                            find_clock(old(self)@.clocks, session_id@)->Some_0,
                            duration as int,
                            now as int,
                        )
                    } else {
                        old(self)@.clocks[k]
                    }) by {
                        if k != pos {
                            assert(self.clocks@[k] == old(self).clocks@[k]);
                            if old(self)@.clocks[k].session_id == session_id@ {
                                assert((old(self)@.clocks[pos]).session_id == session_id@);
                                assert(false);
                            }
                        }
                    }
                    assert forall|k1: int, k2: int|
                        0 <= k1 < k2 < self@.clocks.len() implies (
                        #[trigger] self@.clocks[k1]).session_id != (
                        #[trigger] self@.clocks[k2]).session_id by {
                        assert(self@.clocks[k1].session_id == old(self)@.clocks[k1].session_id);
                        assert(self@.clocks[k2].session_id == old(self)@.clocks[k2].session_id);
                    }
                }
                return Ok(());
            }
            i = i + 1;
        }
        proof {
            lemma_find_clock_absent(self@.clocks, session_id@);
        }
        if duration > MAX_CLOCK_SECS {
            return Err(
                AuditError::Validation(
                    String::from_str("usage time would exceed the supported range"),
                ),
            );
        }
        let mut created = AppClock::new(target, now);
        created.increment_usage_time(duration, now);
        self.clocks.push(created);
        proof {
            assert forall|k: int| 0 <= k < self@.clocks.len() implies self@.clocks[k] == old(
                self,
            )@.clocks.push(
                incremented(spec_new_clock(session_id@, now as int), duration as int, now as int),
            )[k] by {
                if k < old(self)@.clocks.len() {
                    assert(self.clocks@[k] == old(self).clocks@[k]);
                } else {
                    assert(self.clocks@[k] == created);
                }
            }
            assert(self@.clocks =~= old(self)@.clocks.push(
                incremented(spec_new_clock(session_id@, now as int), duration as int, now as int),
            ));
        }
        Ok(())
    }

    /// The ingestion interface, with the wall-clock reading and the fresh
    /// entry id supplied by the caller: consults the session's clock for
    /// the embedded usage-time value (a session without a clock reads
    /// zero), then appends one entry to the ledger. Reading the tip and
    /// appending happen under one exclusive borrow of the system, so no
    /// two callers can claim the same chain index.
    #[verifier::rlimit(100)]
    pub fn record_event_at(&mut self, request: CreateSecureLogRequest, id: String, now: i64) -> (
        e: SecureLogEntry)
        requires
            old(self).wf(),
            0 <= now <= MAX_CLOCK_SECS,
            old(self)@.entries.len() < i64::MAX,
        ensures
            final(self).wf(),
            e@ == crate::entry::spec_new_entry(
                id@,
                request@,
                crate::ledger::tip_hash(old(self)@.entries),
                session_usage(old(self)@.clocks, request.session_id@, now as int),
                old(self)@.entries.len() as int + 1,
                now as int,
            ),
            final(self)@.entries == old(self)@.entries.push(e@),
            final(self)@.clocks == old(self)@.clocks,
            final(self)@.anomalies == old(self)@.anomalies,
            final(self)@.resolutions == old(self)@.resolutions,
            final(self)@.config == old(self)@.config,
    {
        let app_clock_time: i64 = match self.get_app_clock(request.session_id.as_str()) {
            Some(c) => {
                proof {
                    lemma_find_clock_is_element(self@.clocks, request.session_id@);
                    let k = choose|k: int|
                        0 <= k < self@.clocks.len() && #[trigger] self@.clocks[k] == c@;
                    assert(clock_wf(self@.clocks[k]));
                }
                c.get_total_usage_time(now)
            },
            None => 0,
        };
        self.ledger.append(id, request, app_clock_time, now)
    }

    /// The ingestion interface: samples the wall clock, draws a fresh
    /// entry id, and appends one entry as `record_event_at` does. Fails
    /// with a `Validation` error, changing nothing, when the sampled clock
    /// lies outside the supported range.
    pub fn record_event(&mut self, request: CreateSecureLogRequest) -> (r: Result<
        SecureLogEntry,
        AuditError,
    >)
        requires
            old(self).wf(),
            old(self)@.entries.len() < i64::MAX,
        ensures
            final(self).wf(),
            final(self)@.clocks == old(self)@.clocks,
            final(self)@.anomalies == old(self)@.anomalies,
            final(self)@.resolutions == old(self)@.resolutions,
            final(self)@.config == old(self)@.config,
            match r {
                Ok(e) => exists|now: int, id: Seq<char>|
                    {
                        &&& 0 <= now <= MAX_CLOCK_SECS
                        &&& e@ == #[trigger] crate::entry::spec_new_entry(
                            id,
                            request@,
                            crate::ledger::tip_hash(old(self)@.entries),
                            session_usage(old(self)@.clocks, request.session_id@, now),
                            old(self)@.entries.len() as int + 1,
                            now,
                        )
                        &&& final(self)@.entries == old(self)@.entries.push(e@)
                    },
                Err(e) => final(self)@.entries == old(self)@.entries && e is Validation,
            },
    {
        let now = crate::wallclock::wall_clock_secs();
        if now > MAX_CLOCK_SECS {
            return Err(
                AuditError::Validation(
                    String::from_str("wall clock out of the supported range"),
                ),
            );
        }
        let id = crate::ids::fresh_id();
        let ghost id_view = id@;
        let ghost now_val = now as int;
        let e = self.record_event_at(request, id, now);
        proof {
            assert({
                &&& 0 <= now_val <= MAX_CLOCK_SECS
                &&& e@ == crate::entry::spec_new_entry(
                    id_view,
                    request@,
                    crate::ledger::tip_hash(old(self)@.entries),
                    session_usage(old(self)@.clocks, request.session_id@, now_val),
                    old(self)@.entries.len() as int + 1,
                    now_val,
                )
                &&& self@.entries == old(self)@.entries.push(e@)
            });
        }
        Ok(e)
    }

    /// Runs the detectors over the current snapshot — the chain and drift
    /// checks as the request's flags say, the amount check always — stores
    /// every finding, and returns them: first the chain breaks in ledger
    /// order, then the drift finding if any, then the suspicious amounts
    /// in ledger order. Findings never abort the pass; they are data.
    #[verifier::rlimit(100)]
    pub fn detect_anomalies(&mut self, request: &AnomalyDetectionRequest, now: i64) -> (r: Vec<
        Anomaly,
    >)
        requires
            old(self).wf(),
            0 <= now <= MAX_CLOCK_SECS,
        ensures
            final(self).wf(),
            final(self)@.entries == old(self)@.entries,
            final(self)@.clocks == old(self)@.clocks,
            final(self)@.resolutions == old(self)@.resolutions,
            final(self)@.config == old(self)@.config,
            ({
                let s = old(self)@.entries;
                let threshold = request.suspicious_amount_threshold as int;
                let n_chain: int = if request.enable_chain_validation {
                    crate::anomaly::chain_break_positions(s).len() as int
                } else {
                    0
                };
                let drift_found = request.enable_time_validation && (match find_clock(
                    old(self)@.clocks,
                    request.session_id@,
                ) {
                    Some(c) => crate::clock::drift_at(c, now as int)
                        > request.max_time_drift as int,
                    None => false,
                });
                let n_time: int = if drift_found {
                    1
                } else {
                    0
                };
                let n_amount: int = crate::anomaly::suspicious_positions(s, threshold).len() as int;
                &&& r@.len() == n_chain + n_time + n_amount
                &&& forall|j: int|
                    0 <= j < n_chain ==> crate::anomaly::is_chain_break_anomaly(
                        (#[trigger] r@[j])@,
                        s,
                        crate::anomaly::chain_break_positions(s)[j],
                        now as int,
                    )
                &&& drift_found ==> crate::anomaly::is_time_drift_anomaly(
                    r@[n_chain]@,
                    find_clock(old(self)@.clocks, request.session_id@)->Some_0,
                    request.max_time_drift as int,
                    now as int,
                )
                &&& forall|j: int|
                    0 <= j < n_amount ==> crate::anomaly::is_amount_anomaly(
                        (#[trigger] r@[n_chain + n_time + j])@,
                        s,
                        crate::anomaly::suspicious_positions(s, threshold)[j],
                        threshold,
                        now as int,
                    )
                &&& final(self)@.anomalies.len() == old(self)@.anomalies.len() + r@.len()
                &&& forall|j: int|
                    0 <= j < old(self)@.anomalies.len() ==> #[trigger] final(self)@.anomalies[j]
                        == old(self)@.anomalies[j]
                &&& forall|j: int|
                    0 <= j < r@.len() ==> final(self)@.anomalies[old(self)@.anomalies.len() + j]
                        == (#[trigger] r@[j])@
            }),
    {
        let mut result: Vec<Anomaly> = Vec::new();
        if request.enable_chain_validation {
            let mut chain_findings = crate::anomaly::detect_chain_anomalies(
                self.ledger.entries(),
                now,
            );
            result.append(&mut chain_findings);
        }
        let ghost n_chain = result@.len() as int;
        if request.enable_time_validation {
            let clock = self.get_app_clock(request.session_id.as_str());
            proof {
                if clock is Some {
                    lemma_find_clock_is_element(self@.clocks, request.session_id@);
                    let k = choose|k: int|
                        0 <= k < self@.clocks.len() && #[trigger] self@.clocks[k] == clock->Some_0@;
                    assert(clock_wf(self@.clocks[k]));
                }
            }
            let mut drift_findings = crate::anomaly::detect_time_anomalies(
                clock,
                request.max_time_drift,
                now,
            );
            result.append(&mut drift_findings);
        }
        let ghost n_time = result@.len() - n_chain;
        let mut amount_findings = crate::anomaly::detect_amount_anomalies(
            self.ledger.entries(),
            request.suspicious_amount_threshold,
            now,
        );
        result.append(&mut amount_findings);

        // Persist every finding before returning the full set.
        let mut i: usize = 0;
        while i < result.len()
            invariant
                0 <= i <= result@.len(),
                self.ledger == old(self).ledger,
                self.clocks == old(self).clocks,
                self.resolutions == old(self).resolutions,
                self.config == old(self).config,
                self.anomalies@.len() == old(self).anomalies@.len() + i as int,
                forall|j: int|
                    0 <= j < old(self).anomalies@.len() ==> #[trigger] self.anomalies@[j] == old(
                        self,
                    ).anomalies@[j],
                forall|j: int|
                    0 <= j < i ==> (#[trigger] self.anomalies@[old(self).anomalies@.len() + j])@
                        == result@[j]@,
            decreases result@.len() - i,
        {
            self.anomalies.push(result[i].clone());
            i = i + 1;
        }
        proof {
            assert forall|j: int| 0 <= j < old(self)@.anomalies.len() implies #[trigger] self
                @.anomalies[j] == old(self)@.anomalies[j] by {
                assert(self.anomalies@[j] == old(self).anomalies@[j]);
            }
        }
        result
    }

    /// Marks every stored anomaly whose id matches as resolved by
    /// `resolved_by` at second `now` — updating only the three resolution
    /// fields, also when the anomaly was already resolved — and, when any
    /// matched, appends one event to the resolution log. Returns whether
    /// any record matched.
    pub fn resolve_anomaly(&mut self, anomaly_id: &str, resolved_by: &str, now: i64) -> (found:
        bool)
        requires
            old(self).wf(),
        ensures
            final(self).wf(),
            final(self)@.entries == old(self)@.entries,
            final(self)@.clocks == old(self)@.clocks,
            final(self)@.config == old(self)@.config,
            final(self)@.anomalies.len() == old(self)@.anomalies.len(),
            forall|j: int|
                0 <= j < old(self)@.anomalies.len() ==> #[trigger] final(self)@.anomalies[j] == (
                if old(self)@.anomalies[j].id == anomaly_id@ {
                    crate::anomaly::resolved_view(
                        old(self)@.anomalies[j],
                        resolved_by@,
                        now as int,
                    )
                } else {
                    old(self)@.anomalies[j]
                }),
            found == (exists|j: int|
                0 <= j < old(self)@.anomalies.len() && (#[trigger] old(self)@.anomalies[j]).id
                    == anomaly_id@),
            final(self)@.resolutions == if found {
                old(self)@.resolutions.push(
                    ResolutionView {
                        anomaly_id: anomaly_id@,
                        resolved_by: resolved_by@,
                        resolved_at: now as int,
                    },
                )
            } else {
                old(self)@.resolutions
            },
    {
        let found = crate::anomaly::resolve_anomaly(&mut self.anomalies, anomaly_id, resolved_by,
            now,
        );
        proof {
            assert forall|j: int| 0 <= j < old(self)@.anomalies.len() implies #[trigger] self
                @.anomalies[j] == (if old(self)@.anomalies[j].id == anomaly_id@ {
                crate::anomaly::resolved_view(old(self)@.anomalies[j], resolved_by@, now as int)
            } else {
                old(self)@.anomalies[j]
            }) by {
                assert((old(self).anomalies@[j])@ == old(self)@.anomalies[j]);
                assert((self.anomalies@[j])@ == self@.anomalies[j]);
            }
            if found {
                let j = choose|j: int|
                    0 <= j < old(self).anomalies@.len() && (#[trigger] old(self).anomalies@[j])@.id
                        == anomaly_id@;
                assert((old(self)@.anomalies[j]).id == anomaly_id@);
            } else {
                assert forall|j: int| 0 <= j < old(self)@.anomalies.len() implies (
                #[trigger] old(self)@.anomalies[j]).id != anomaly_id@ by {
                    assert((old(self).anomalies@[j])@.id != anomaly_id@);
                }
            }
        }
        if found {
            let event = ResolutionEvent {
                anomaly_id: anomaly_id.to_owned(),
                resolved_by: resolved_by.to_owned(),
                resolved_at: now,
            };
            self.resolutions.push(event);
            proof {
                assert(self@.resolutions =~= old(self)@.resolutions.push(
                    ResolutionView {
                        anomaly_id: anomaly_id@,
                        resolved_by: resolved_by@,
                        resolved_at: now as int,
                    },
                ));
            }
        }
        proof {
            assert(self@.entries == old(self)@.entries);
            assert(self@.clocks == old(self)@.clocks);
            assert(self.wf());
        }
        found
    }

    /// The stored entries in ascending chain-index order; with a limit,
    /// the first `limit` of them.
    pub fn list_entries(&self, limit: Option<usize>) -> (r: Vec<SecureLogEntry>)
        ensures
            match limit {
                Some(k) => r.deep_view() == self@.entries.take(
                    vstd::math::min(k as int, self@.entries.len() as int),
                ),
                None => r.deep_view() == self@.entries,
            },
    {
        self.ledger.get_all(limit)
    }

    /// A read-only view of the ledger.
    pub fn ledger(&self) -> (r: &HashChainLedger)
        ensures
            r@ == self@.entries,
    {
        &self.ledger
    }

    /// The stored anomalies, newest-first by detection time; with a
    /// limit, the first `limit` of that order. Records with equal
    /// detection times may come back in either order, as with the
    /// underlying store's unpinned tie order.
    pub fn list_anomalies(&self, limit: Option<usize>) -> (r: Vec<Anomaly>)
        ensures
            match limit {
                None => {
                    &&& r.deep_view().to_multiset() == self@.anomalies.to_multiset()
                    &&& crate::anomaly::sorted_by_timestamp_desc(r.deep_view())
                },
                Some(n) => exists|full: Seq<AnomalyView>|
                    {
                        &&& (#[trigger] full.to_multiset()) == self@.anomalies.to_multiset()
                        &&& crate::anomaly::sorted_by_timestamp_desc(full)
                        &&& r.deep_view() == full.take(
                            vstd::math::min(n as int, self@.anomalies.len() as int),
                        )
                    },
            },
    {
        let copy = crate::anomaly::clone_anomalies(&self.anomalies);
        let mut sorted = crate::anomaly::sort_by_timestamp_desc(copy);
        let ghost full = sorted.deep_view();
        match limit {
            Some(n) => {
                proof {
                    broadcast use vstd::seq_lib::group_to_multiset_ensures;

                    assert(full.len() == full.to_multiset().len());
                    assert(self@.anomalies.len() == self@.anomalies.to_multiset().len());
                }
                sorted.truncate(n);
                proof {
                    let cut = vstd::math::min(n as int, self@.anomalies.len() as int);
                    assert(sorted.deep_view() =~= full.take(cut));
                }
                sorted
            },
            None => sorted,
        }
    }

    /// The stored anomalies not yet resolved, newest-first by detection
    /// time; no resolved record ever appears.
    #[verifier::rlimit(100)]
    pub fn list_unresolved_anomalies(&self) -> (r: Vec<Anomaly>)
        ensures
            r.deep_view().to_multiset() == crate::anomaly::unresolved_of(
                self@.anomalies,
            ).to_multiset(),
            crate::anomaly::sorted_by_timestamp_desc(r.deep_view()),
            forall|i: int|
                0 <= i < r.deep_view().len() ==> !(#[trigger] r.deep_view()[i]).resolved,
    {
        crate::anomaly::get_unresolved_anomalies(&self.anomalies)
    }

    /// A read-only view of the resolution-event log, in order of
    /// resolution.
    pub fn resolutions(&self) -> (r: &Vec<ResolutionEvent>)
        ensures
            r.deep_view() == self@.resolutions,
    {
        &self.resolutions
    }

    /// The current security configuration.
    pub fn get_security_config(&self) -> (r: &SecurityConfig)
        ensures
            r@ == self@.config,
    {
        &self.config
    }

    /// Generates the compliance report for the period the request names.
    /// The bounds are RFC 3339 text; an unparsable bound is rejected with
    /// a `Validation` error before anything else. The report covers the
    /// entries and anomaly records created inside the inclusive period,
    /// and is rejected with a `Validation` error in the one case the
    /// summary cannot represent: a period amount total outside `i64`, or
    /// an anomaly store too large to count in `i64`. The caller persists
    /// the result.
    #[verifier::rlimit(100)]
    pub fn get_report(&self, request: ComplianceReportRequest, id: String, now: i64) -> (r: Result<
        ComplianceReport,
        AuditError,
    >)
        requires
            self.wf(),
        ensures
            ({
                let ps = crate::wallclock::rfc3339_secs(request.period_start@);
                let pe = crate::wallclock::rfc3339_secs(request.period_end@);
                match r {
                    Ok(rep) => {
                        &&& ps is Some
                        &&& pe is Some
                        &&& i64::MIN <= crate::report::sum_amounts(
                            crate::report::entries_in_period(
                                self@.entries,
                                ps->Some_0,
                                pe->Some_0,
                            ),
                        ) <= i64::MAX
                        &&& self@.anomalies.len() <= i64::MAX
                        &&& rep@ == crate::report::spec_report(
                            id@,
                            self@.entries,
                            self@.anomalies,
                            ps->Some_0,
                            pe->Some_0,
                            request.country_code@,
                            now as int,
                        )
                    },
                    Err(e) => {
                        &&& e is Validation
                        &&& (ps is None || pe is None || self@.anomalies.len() > i64::MAX || !(
                        i64::MIN <= crate::report::sum_amounts(
                            crate::report::entries_in_period(
                                self@.entries,
                                ps->Some_0,
                                pe->Some_0,
                            ),
                        ) <= i64::MAX))
                    },
                }
            }),
    {
        let period_start = match crate::wallclock::parse_rfc3339_secs(
            request.period_start.as_str(),
        ) {
            Some(t) => t,
            None => {
                return Err(
                    AuditError::Validation(String::from_str("unparsable period start")),
                );
            },
        };
        let period_end = match crate::wallclock::parse_rfc3339_secs(request.period_end.as_str()) {
            Some(t) => t,
            None => {
                return Err(AuditError::Validation(String::from_str("unparsable period end")));
            },
        };
        if self.anomalies.len() as u64 > i64::MAX as u64 {
            return Err(AuditError::Validation(String::from_str("anomaly store too large")));
        }
        proof {
            self.ledger.lemma_len_bounded();
        }

        // The summary's amount field is an i64; check the period's total
        // fits before generating.
        let entries = self.ledger.entries();
        let ghost s = self@.entries;
        let mut total: i128 = 0;
        let mut i: usize = 0;
        while i < entries.len()
            invariant
                0 <= i <= s.len(),
                s.len() <= i64::MAX,
                entries.deep_view() == s,
                total as int == crate::report::sum_amounts(
                    crate::report::entries_in_period(
                        s.take(i as int),
                        period_start as int,
                        period_end as int,
                    ),
                ),
                -(i as int) * (0x8000_0000_0000_0000) <= total as int <= (i as int) * (
                0x8000_0000_0000_0000),
            decreases entries@.len() - i,
        {
            let ghost prefix = s.take(i as int);
            let ghost extended = s.take(i as int + 1);
            let ghost period_prefix = crate::report::entries_in_period(
                prefix,
                period_start as int,
                period_end as int,
            );
            if period_start <= entries[i].created_at && entries[i].created_at <= period_end {
                let amount: i64 = match &entries[i].amount {
                    Some(a) => *a,
                    None => 0,
                };
                total = total + amount as i128;
                proof {
                    crate::report::lemma_sum_amounts_push(period_prefix, s[i as int]);
                }
            }
            proof {
                assert(extended.drop_last() =~= prefix);
                assert(extended.last() == s[i as int]);
                if crate::report::entry_in_period(
                    s[i as int],
                    period_start as int,
                    period_end as int,
                ) {
                    assert(crate::report::entries_in_period(
                        extended,
                        period_start as int,
                        period_end as int,
                    ) =~= period_prefix.push(s[i as int]));
                } else {
                    assert(crate::report::entries_in_period(
                        extended,
                        period_start as int,
                        period_end as int,
                    ) =~= period_prefix);
                }
            }
            i = i + 1;
        }
        proof {
            assert(s.take(s.len() as int) =~= s);
        }
        if total < i64::MIN as i128 || total > i64::MAX as i128 {
            return Err(
                AuditError::Validation(
                    String::from_str("period amount total out of range"),
                ),
            );
        }

        let report = crate::report::generate(
            self.ledger.entries(),
            &self.anomalies,
            period_start,
            period_end,
            request.country_code,
            id,
            now,
        );
        Ok(report)
    }

    /// Replaces the security configuration; the explicit save is the only
    /// way it changes.
    pub fn save_security_config(&mut self, config: SecurityConfig)
        requires
            old(self).wf(),
        ensures
            final(self).wf(),
            final(self)@.config == config@,
            final(self)@.entries == old(self)@.entries,
            final(self)@.clocks == old(self)@.clocks,
            final(self)@.anomalies == old(self)@.anomalies,
            final(self)@.resolutions == old(self)@.resolutions,
    {
        self.config = config;
        proof {
            assert(self@.entries == old(self)@.entries);
            assert(self@.clocks == old(self)@.clocks);
        }
    }
}

} // verus!
