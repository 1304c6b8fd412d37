//! The per-session usage clock.
//!
//! An `AppClock` accumulates application usage time independently of the
//! wall clock, so that rolling the OS clock back is detectable as drift.
//! Note one deliberate tension, preserved for compatibility: the usage-time
//! accessor folds a live wall-clock delta (`now - start_time`) into the
//! explicit accumulator on every read, so it still samples the clock it is
//! meant to be independent of.

use vstd::prelude::*;
use vstd::string::StringExecFns;
use crate::decimal::dec_int;
use crate::decimal::i64_dec;
use crate::hashing::sha256_hex;
use crate::hashing::sha256_hex_of;

verus! {

/// Upper bound, in seconds, on every clock reading and accumulated usage
/// time the core works with. Any realistic Unix-second timestamp is far
/// below it; the bound keeps every usage-time computation within `i64`.
pub const MAX_CLOCK_SECS: i64 = 0x4000_0000_0000;

/// One session's usage clock.
pub struct AppClock {
    /// The session this clock belongs to.
    pub session_id: String,
    /// Wall-clock reading (Unix seconds) at session start.
    pub start_time: i64,
    /// Accumulated usage seconds; grows only through `increment_usage_time`.
    pub total_usage_time: i64,
    /// Wall-clock reading at the last recorded activity.
    pub last_activity: i64,
    /// Wall-clock reading at session start; equals `start_time`.
    pub system_start_time: i64,
    /// SHA-256 checksum of the start time's decimal text and the session id.
    pub clock_signature: String,
}

/// The spec-level image of an `AppClock`.
#[verifier::ext_equal]
pub ghost struct AppClockView {
    pub session_id: Seq<char>,
    pub start_time: int,
    pub total_usage_time: int,
    pub last_activity: int,
    pub system_start_time: int,
    pub clock_signature: Seq<char>,
}

impl View for AppClock {
    type V = AppClockView;

    open spec fn view(&self) -> AppClockView {
        AppClockView {
            session_id: self.session_id@,
            start_time: self.start_time as int,
            total_usage_time: self.total_usage_time as int,
            last_activity: self.last_activity as int,
            system_start_time: self.system_start_time as int,
            clock_signature: self.clock_signature@,
        }
    }
}

impl DeepView for AppClock {
    type V = AppClockView;

    open spec fn deep_view(&self) -> AppClockView {
        self.view()
    }
}

/// The clock signature: the checksum of the start time and the session id.
pub open spec fn clock_signature_of(start_time: int, session_id: Seq<char>) -> Seq<char> {
    sha256_hex_of(dec_int(start_time) + session_id)
}

/// The clock created for `session_id` at wall-clock second `now`.
pub open spec fn spec_new_clock(session_id: Seq<char>, now: int) -> AppClockView {
    AppClockView {
        session_id: session_id,
        start_time: now,
        total_usage_time: 0,
        last_activity: now,
        system_start_time: now,
        clock_signature: clock_signature_of(now, session_id),
    }
}

/// The usage time a clock reports at wall-clock second `now`: the explicit
/// accumulator plus the live wall-clock delta since session start.
pub open spec fn usage_time_at(c: AppClockView, now: int) -> int {
    c.total_usage_time + (now - c.start_time)
}

/// The drift a clock shows at wall-clock second `now`: how far the reported
/// usage time lies from the wall clock itself.
pub open spec fn drift_at(c: AppClockView, now: int) -> int {
    vstd::math::abs(now - usage_time_at(c, now)) as int
}

/// Bounds under which every usage-time computation stays within `i64`.
pub open spec fn clock_wf(c: AppClockView) -> bool {
    &&& 0 <= c.start_time <= MAX_CLOCK_SECS
    &&& 0 <= c.total_usage_time <= MAX_CLOCK_SECS
}

/// The clock as it stands after `increment_usage_time(duration)` at
/// wall-clock second `now`: only the accumulator and the activity stamp
/// change.
pub open spec fn incremented(c: AppClockView, duration: int, now: int) -> AppClockView {
    AppClockView { total_usage_time: c.total_usage_time + duration, last_activity: now, ..c }
}

impl AppClock {
    /// Bounds under which every usage-time computation stays within `i64`.
    pub open spec fn wf(&self) -> bool {
        clock_wf(self@)
    }

    /// Starts the clock for a session: zero accumulated usage, signed with a
    /// checksum of the start time and session id.
    pub fn new(session_id: String, now: i64) -> (c: AppClock)
        requires
            0 <= now <= MAX_CLOCK_SECS,
        ensures
            c@ == spec_new_clock(session_id@, now as int),
            c.wf(),
    {
        let mut signed = i64_dec(now);
        signed.append(session_id.as_str());
        let clock_signature = sha256_hex(signed.as_str());
        let c = AppClock {
            session_id,
            start_time: now,
            total_usage_time: 0,
            last_activity: now,
            system_start_time: now,
            clock_signature,
        };
        proof {
            assert(c@ =~= spec_new_clock(c.session_id@, now as int));
        }
        c
    }

    /// Adds trusted elapsed seconds to the accumulator and stamps the
    /// activity time. This is the only way `total_usage_time` grows, and it
    /// never decreases it.
    pub fn increment_usage_time(&mut self, duration: i64, now: i64)
        requires
            old(self).wf(),
            0 <= duration,
            old(self)@.total_usage_time + duration <= MAX_CLOCK_SECS,
            0 <= now <= MAX_CLOCK_SECS,
        ensures
            final(self).wf(),
            final(self)@ == incremented(old(self)@, duration as int, now as int),
            final(self)@.total_usage_time >= old(self)@.total_usage_time,
    {
        self.total_usage_time = self.total_usage_time + duration;
        self.last_activity = now;
        proof {
            assert(self@ =~= incremented(old(self)@, duration as int, now as int));
        }
    }

    /// The usage time reported at wall-clock second `now`: the accumulator
    /// plus the live delta since session start.
    pub fn get_total_usage_time(&self, now: i64) -> (r: i64)
        requires
            self.wf(),
            0 <= now <= MAX_CLOCK_SECS,
        ensures
            r as int == usage_time_at(self@, now as int),
    {
        self.total_usage_time + (now - self.start_time)
    }

    /// Whether the clock's drift at wall-clock second `now` is within
    /// `max_drift`, boundary inclusive.
    pub fn validate_time_consistency(&self, now: i64, max_drift: i64) -> (r: bool)
        ensures
            r == (drift_at(self@, now as int) <= max_drift as int),
    {
        let app_time: i128 = self.total_usage_time as i128 + (now as i128 - self.start_time as i128);
        let diff: i128 = now as i128 - app_time;
        let drift: i128 = if diff < 0 {
            -diff
        } else {
            diff
        };
        drift <= max_drift as i128
    }
}

impl Clone for AppClock {
    /// A field-for-field copy; the copy has the same view as the original.
    fn clone(&self) -> (r: Self)
        ensures
            r@ == self@,
    {
        let r = AppClock {
            session_id: self.session_id.clone(),
            start_time: self.start_time,
            total_usage_time: self.total_usage_time,
            last_activity: self.last_activity,
            system_start_time: self.system_start_time,
            clock_signature: self.clock_signature.clone(),
        };
        proof {
            assert(r@ =~= self@);
        }
        r
    }
}

} // verus!
