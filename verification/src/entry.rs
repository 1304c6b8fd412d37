//! Ledger entries and their canonical serialization.
//!
//! An entry's `current_hash` is the SHA-256 checksum of a canonical string:
//! the entry's semantic fields concatenated in a fixed order, followed by the
//! previous entry's hash (nothing when the entry is the first). The canonical
//! string, and therefore the hash, is a pure function of those fields, which
//! is what makes retroactive edits evident.

use vstd::prelude::*;
use vstd::string::StringExecFns;
use crate::decimal::dec_int;
use crate::decimal::i64_dec;
use crate::hashing::sha256_hex;
use crate::hashing::sha256_hex_of;
use crate::tags::LogCategory;
use crate::tags::LogType;

verus! {

/// The fields an event source supplies when recording one event.
pub struct CreateSecureLogRequest {
    pub log_type: LogType,
    pub category: LogCategory,
    pub title: String,
    pub description: String,
    /// Monetary amount in minor currency units (cents), if the event has one.
    pub amount: Option<i64>,
    pub session_id: String,
    pub user_signature: String,
    pub table_id: Option<String>,
    pub table_name: Option<String>,
    pub product_id: Option<String>,
    pub product_name: Option<String>,
    pub user_id: Option<String>,
    pub user_name: Option<String>,
    /// Opaque serialized metadata, carried through unchanged.
    pub metadata: Option<String>,
}

/// The spec-level image of a `CreateSecureLogRequest`.
#[verifier::ext_equal]
pub ghost struct RequestView {
    pub log_type: LogType,
    pub category: LogCategory,
    pub title: Seq<char>,
    pub description: Seq<char>,
    pub amount: Option<int>,
    pub session_id: Seq<char>,
    pub user_signature: Seq<char>,
    pub table_id: Option<Seq<char>>,
    pub table_name: Option<Seq<char>>,
    pub product_id: Option<Seq<char>>,
    pub product_name: Option<Seq<char>>,
    pub user_id: Option<Seq<char>>,
    pub user_name: Option<Seq<char>>,
    pub metadata: Option<Seq<char>>,
}

impl View for CreateSecureLogRequest {
    type V = RequestView;

    open spec fn view(&self) -> RequestView {
        RequestView {
            log_type: self.log_type,
            category: self.category,
            title: self.title@,
            description: self.description@,
            amount: opt_int(self.amount),
            session_id: self.session_id@,
            user_signature: self.user_signature@,
            table_id: self.table_id.deep_view(),
            table_name: self.table_name.deep_view(),
            product_id: self.product_id.deep_view(),
            product_name: self.product_name.deep_view(),
            user_id: self.user_id.deep_view(),
            user_name: self.user_name.deep_view(),
            metadata: self.metadata.deep_view(),
        }
    }
}

/// One record of the hash-chained audit ledger, immutable once appended.
pub struct SecureLogEntry {
    pub id: String,
    pub log_type: LogType,
    pub category: LogCategory,
    pub title: String,
    pub description: String,
    /// Monetary amount in minor currency units (cents), if any.
    pub amount: Option<i64>,
    /// The previous entry's `current_hash`; absent only for the first entry.
    pub previous_hash: Option<String>,
    /// SHA-256 checksum of this entry's canonical serialization.
    pub current_hash: String,
    /// Usage-time reading of the session's `AppClock` at creation.
    pub app_clock: i64,
    /// Wall-clock reading (Unix seconds) at creation.
    pub system_clock: i64,
    pub session_id: String,
    /// Caller-supplied attestation string.
    pub user_signature: String,
    /// 1-based position in the chain, strictly increasing by one per entry.
    pub chain_index: i64,
    pub table_id: Option<String>,
    pub table_name: Option<String>,
    pub product_id: Option<String>,
    pub product_name: Option<String>,
    pub user_id: Option<String>,
    pub user_name: Option<String>,
    pub metadata: Option<String>,
    /// Creation time in Unix seconds; equals `system_clock`.
    pub created_at: i64,
    /// SHA-256 checksum of the creation timestamp's decimal text.
    pub secure_timestamp: String,
}

/// The spec-level image of a `SecureLogEntry`.
#[verifier::ext_equal]
pub ghost struct EntryView {
    pub id: Seq<char>,
    pub log_type: LogType,
    pub category: LogCategory,
    pub title: Seq<char>,
    pub description: Seq<char>,
    pub amount: Option<int>,
    pub previous_hash: Option<Seq<char>>,
    pub current_hash: Seq<char>,
    pub app_clock: int,
    pub system_clock: int,
    pub session_id: Seq<char>,
    pub user_signature: Seq<char>,
    pub chain_index: int,
    pub table_id: Option<Seq<char>>,
    pub table_name: Option<Seq<char>>,
    pub product_id: Option<Seq<char>>,
    pub product_name: Option<Seq<char>>,
    pub user_id: Option<Seq<char>>,
    pub user_name: Option<Seq<char>>,
    pub metadata: Option<Seq<char>>,
    pub created_at: int,
    pub secure_timestamp: Seq<char>,
}

impl View for SecureLogEntry {
    type V = EntryView;

    open spec fn view(&self) -> EntryView {
        EntryView {
            id: self.id@,
            log_type: self.log_type,
            category: self.category,
            title: self.title@,
            description: self.description@,
            amount: opt_int(self.amount),
            previous_hash: self.previous_hash.deep_view(),
            current_hash: self.current_hash@,
            app_clock: self.app_clock as int,
            system_clock: self.system_clock as int,
            session_id: self.session_id@,
            user_signature: self.user_signature@,
            chain_index: self.chain_index as int,
            table_id: self.table_id.deep_view(),
            table_name: self.table_name.deep_view(),
            product_id: self.product_id.deep_view(),
            product_name: self.product_name.deep_view(),
            user_id: self.user_id.deep_view(),
            user_name: self.user_name.deep_view(),
            metadata: self.metadata.deep_view(),
            created_at: self.created_at as int,
            secure_timestamp: self.secure_timestamp@,
        }
    }
}

impl DeepView for SecureLogEntry {
    type V = EntryView;

    open spec fn deep_view(&self) -> EntryView {
        self.view()
    }
}

/// The spec-level image of an optional amount.
pub open spec fn opt_int(o: Option<i64>) -> Option<int> {
    match o {
        Some(a) => Some(a as int),
        None => None,
    }
}

/// An absent optional text serializes as the empty string.
pub open spec fn opt_text(o: Option<Seq<char>>) -> Seq<char> {
    match o {
        Some(s) => s,
        None => Seq::empty(),
    }
}

/// An absent amount serializes as zero.
pub open spec fn amount_or_zero(a: Option<int>) -> int {
    match a {
        Some(x) => x,
        None => 0,
    }
}

/// The canonical serialization of an entry's semantic fields, in the fixed
/// order: type, category, title, description, amount-or-zero, app clock,
/// system clock, session id, user signature, chain index, then each optional
/// reference as empty-string-if-absent.
pub open spec fn entry_payload(
    req: RequestView,
    app_clock: int,
    system_clock: int,
    chain_index: int,
) -> Seq<char> {
    req.log_type.spec_tag() + req.category.spec_tag() + req.title + req.description + dec_int(
        amount_or_zero(req.amount),
    ) + dec_int(app_clock) + dec_int(system_clock) + req.session_id + req.user_signature + dec_int(
        chain_index,
    ) + opt_text(req.table_id) + opt_text(req.table_name) + opt_text(req.product_id) + opt_text(
        req.product_name,
    ) + opt_text(req.user_id) + opt_text(req.user_name) + opt_text(req.metadata)
}

/// The hash of an entry: the checksum of its canonical serialization
/// followed by the previous entry's hash (nothing for the first entry).
pub open spec fn entry_hash(payload: Seq<char>, previous_hash: Option<Seq<char>>) -> Seq<char> {
    sha256_hex_of(payload + opt_text(previous_hash))
}

/// The secure timestamp: the checksum of the creation time's decimal text.
pub open spec fn secure_timestamp_of(created_at: int) -> Seq<char> {
    sha256_hex_of(dec_int(created_at))
}

/// The entry produced by appending `req` with the given chain position.
pub open spec fn spec_new_entry(
    id: Seq<char>,
    req: RequestView,
    previous_hash: Option<Seq<char>>,
    app_clock: int,
    chain_index: int,
    now: int,
) -> EntryView {
    EntryView {
        id: id,
        log_type: req.log_type,
        category: req.category,
        title: req.title,
        description: req.description,
        amount: req.amount,
        previous_hash: previous_hash,
        current_hash: entry_hash(entry_payload(req, app_clock, now, chain_index), previous_hash),
        app_clock: app_clock,
        system_clock: now,
        session_id: req.session_id,
        user_signature: req.user_signature,
        chain_index: chain_index,
        table_id: req.table_id,
        table_name: req.table_name,
        product_id: req.product_id,
        product_name: req.product_name,
        user_id: req.user_id,
        user_name: req.user_name,
        metadata: req.metadata,
        created_at: now,
        secure_timestamp: secure_timestamp_of(now),
    }
}

/// Appends `o`'s text to `s` when present; absent references contribute
/// nothing to the canonical serialization.
fn append_opt(s: &mut String, o: &Option<String>)
    ensures
        final(s)@ == old(s)@ + opt_text(o.deep_view()),
{
    match o {
        Some(t) => s.append(t.as_str()),
        None => {
            proof {
                assert(s@ =~= s@ + Seq::<char>::empty());
            }
        },
    }
}

/// Builds the canonical serialization of one entry's semantic fields.
fn payload_string(
    req: &CreateSecureLogRequest,
    app_clock: i64,
    system_clock: i64,
    chain_index: i64,
) -> (r: String)
    ensures
        r@ == entry_payload(req@, app_clock as int, system_clock as int, chain_index as int),
{
    let mut s = String::new();
    s.append(req.log_type.tag());
    s.append(req.category.tag());
    s.append(req.title.as_str());
    s.append(req.description.as_str());
    let amount: i64 = match &req.amount {
        Some(a) => *a,
        None => 0,
    };
    s.append(i64_dec(amount).as_str());
    s.append(i64_dec(app_clock).as_str());
    s.append(i64_dec(system_clock).as_str());
    s.append(req.session_id.as_str());
    s.append(req.user_signature.as_str());
    s.append(i64_dec(chain_index).as_str());
    append_opt(&mut s, &req.table_id);
    append_opt(&mut s, &req.table_name);
    append_opt(&mut s, &req.product_id);
    append_opt(&mut s, &req.product_name);
    append_opt(&mut s, &req.user_id);
    append_opt(&mut s, &req.user_name);
    append_opt(&mut s, &req.metadata);
    s
}

impl SecureLogEntry {
    /// Creates the entry for `req` at the given chain position, computing its
    /// hash from the canonical serialization and the previous entry's hash.
    ///
    /// `now` is the wall-clock reading (Unix seconds) at creation and `id` a
    /// fresh identifier; both are supplied by the caller so that the entry is
    /// a pure function of its arguments.
    pub fn new(
        id: String,
        req: CreateSecureLogRequest,
        previous_hash: Option<String>,
        app_clock: i64,
        chain_index: i64,
        now: i64,
    ) -> (e: SecureLogEntry)
        ensures
            e@ == spec_new_entry(
                id@,
                req@,
                previous_hash.deep_view(),
                app_clock as int,
                chain_index as int,
                now as int,
            ),
    {
        let mut hash_input = payload_string(&req, app_clock, now, chain_index);
        append_opt(&mut hash_input, &previous_hash);
        let current_hash = sha256_hex(hash_input.as_str());
        let secure_timestamp = sha256_hex(i64_dec(now).as_str());
        let e = SecureLogEntry {
            id,
            log_type: req.log_type,
            category: req.category,
            title: req.title,
            description: req.description,
            amount: req.amount,
            previous_hash,
            current_hash,
            app_clock,
            system_clock: now,
            session_id: req.session_id,
            user_signature: req.user_signature,
            chain_index,
            table_id: req.table_id,
            table_name: req.table_name,
            product_id: req.product_id,
            product_name: req.product_name,
            user_id: req.user_id,
            user_name: req.user_name,
            metadata: req.metadata,
            created_at: now,
            secure_timestamp,
        };
        proof {
            assert(e@ =~= spec_new_entry(
                id@,
                req@,
                previous_hash.deep_view(),
                app_clock as int,
                chain_index as int,
                now as int,
            ));
        }
        e
    }
}

impl Clone for SecureLogEntry {
    /// A field-for-field copy; the copy has the same view as the original.
    fn clone(&self) -> (r: Self)
        ensures
            r@ == self@,
    {
        let r = SecureLogEntry {
            id: self.id.clone(),
            log_type: self.log_type,
            category: self.category,
            title: self.title.clone(),
            description: self.description.clone(),
            amount: self.amount,
            previous_hash: clone_opt_string(&self.previous_hash),
            current_hash: self.current_hash.clone(),
            app_clock: self.app_clock,
            system_clock: self.system_clock,
            session_id: self.session_id.clone(),
            user_signature: self.user_signature.clone(),
            chain_index: self.chain_index,
            table_id: clone_opt_string(&self.table_id),
            table_name: clone_opt_string(&self.table_name),
            product_id: clone_opt_string(&self.product_id),
            product_name: clone_opt_string(&self.product_name),
            user_id: clone_opt_string(&self.user_id),
            user_name: clone_opt_string(&self.user_name),
            metadata: clone_opt_string(&self.metadata),
            created_at: self.created_at,
            secure_timestamp: self.secure_timestamp.clone(),
        };
        proof {
            assert(r@ =~= self@);
        }
        r
    }
}

/// Copies an optional string, preserving its view.
pub(crate) fn clone_opt_string(o: &Option<String>) -> (r: Option<String>)
    ensures
        r.deep_view() == o.deep_view(),
{
    match o {
        Some(s) => Some(s.clone()),
        None => None,
    }
}

} // verus!
