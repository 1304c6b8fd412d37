//! The append-only hash-chained ledger.
//!
//! A ledger built purely through `append` keeps the chain invariant: entry
//! `i` (0-based) carries `chain_index == i + 1`, the first entry has no
//! previous hash, and every later entry embeds the previous entry's
//! `current_hash`. The pairwise hash check and the timestamp-order check
//! also run over arbitrary entry slices (for example rows read back from
//! storage), where nothing guarantees the invariant and breaks are findings.

use vstd::prelude::*;
use crate::entry::CreateSecureLogRequest;
use crate::entry::EntryView;
use crate::entry::SecureLogEntry;
use crate::entry::spec_new_entry;

verus! {

/// The hash each appended entry must embed: the last entry's `current_hash`,
/// or nothing when the ledger is empty.
pub open spec fn tip_hash(s: Seq<EntryView>) -> Option<Seq<char>> {
    if s.len() == 0 {
        None
    } else {
        Some(s.last().current_hash)
    }
}

/// The full chain invariant of an append-only ledger: 1-based chain indices
/// increasing by exactly one, no previous hash on the first entry, and each
/// later entry embedding its predecessor's hash.
pub open spec fn chain_ok(s: Seq<EntryView>) -> bool {
    &&& forall|i: int| 0 <= i < s.len() ==> (#[trigger] s[i]).chain_index == i + 1
    &&& s.len() > 0 ==> s[0].previous_hash is None
    &&& forall|i: int|
        1 <= i < s.len() ==> (#[trigger] s[i]).previous_hash == Some(s[i - 1].current_hash)
}

/// The pairwise hash check alone: each entry after the first embeds its
/// predecessor's `current_hash`. This is what a compliance report checks
/// over a period's slice.
pub open spec fn hash_links_ok(s: Seq<EntryView>) -> bool {
    forall|i: int|
        1 <= i < s.len() ==> (#[trigger] s[i]).previous_hash == Some(s[i - 1].current_hash)
}

/// Whether stored order never goes backwards in creation time.
pub open spec fn times_ok(s: Seq<EntryView>) -> bool {
    forall|i: int| 1 <= i < s.len() ==> (#[trigger] s[i]).created_at >= s[i - 1].created_at
}

/// The append-only hash-chained store of ledger entries. Write-once,
/// read-many: there is no update or delete operation.
pub struct HashChainLedger {
    entries: Vec<SecureLogEntry>,
}

impl View for HashChainLedger {
    type V = Seq<EntryView>;

    closed spec fn view(&self) -> Seq<EntryView> {
        self.entries.deep_view()
    }
}

impl HashChainLedger {
    /// The chain invariant, which `new` establishes and `append` preserves.
    pub open spec fn wf(&self) -> bool {
        chain_ok(self@)
    }

    /// An empty ledger.
    pub fn new() -> (l: HashChainLedger)
        ensures
            l@ == Seq::<EntryView>::empty(),
            l.wf(),
    {
        let l = HashChainLedger { entries: Vec::new() };
        proof {
            assert(l@ =~= Seq::<EntryView>::empty());
        }
        l
    }

    /// How many entries the ledger holds.
    pub fn len(&self) -> (r: usize)
        ensures
            r == self@.len(),
    {
        self.entries.len()
    }

    /// Appends one entry: allocates the next chain index, embeds the current
    /// tip hash, computes the entry's own hash from its canonical
    /// serialization, and stores the entry. Returns a copy of what was
    /// stored. The chain invariant is preserved.
    #[verifier::rlimit(100)]
    pub fn append(&mut self, id: String, req: CreateSecureLogRequest, app_clock: i64, now: i64) -> (
        e: SecureLogEntry)
        requires
            old(self).wf(),
            old(self)@.len() < i64::MAX,
        ensures
            final(self).wf(),
            e@ == spec_new_entry(
                id@,
                req@,
                tip_hash(old(self)@),
                app_clock as int,
                old(self)@.len() as int + 1,
                now as int,
            ),
            final(self)@ == old(self)@.push(e@),
    {
        let chain_index: i64 = self.entries.len() as i64 + 1;
        let previous_hash: Option<String> = match self.entries.last() {
            Some(last) => Some(last.current_hash.clone()),
            None => None,
        };
        proof {
            assert(previous_hash.deep_view() == tip_hash(self@));
        }
        let e = SecureLogEntry::new(id, req, previous_hash, app_clock, chain_index, now);
        let stored = e.clone();
        self.entries.push(stored);
        proof {
            assert forall|j: int| 0 <= j < self@.len() implies self@[j] == old(self)@.push(e@)[j]
            by {
                if j < old(self)@.len() {
                    assert(self.entries@[j] == old(self).entries@[j]);
                } else {
                    assert(self.entries@[j] == stored);
                }
            }
            assert(self@ =~= old(self)@.push(e@));
            assert forall|i: int| 0 <= i < self@.len() implies (#[trigger] self@[i]).chain_index
                == i + 1 by {
                if i < old(self)@.len() {
                    assert(self@[i] == old(self)@[i]);
                }
            }
            assert forall|i: int| 1 <= i < self@.len() implies (#[trigger] self@[i]).previous_hash
                == Some(self@[i - 1].current_hash) by {
                if i < old(self)@.len() {
                    assert(self@[i] == old(self)@[i]);
                }
            }
        }
        e
    }

    /// The stored entries in ascending chain-index order; with a limit, the
    /// first `limit` of them. A fresh call re-reads the store.
    pub fn get_all(&self, limit: Option<usize>) -> (r: Vec<SecureLogEntry>)
        ensures
            match limit {
                Some(k) => r.deep_view() == self@.take(vstd::math::min(k as int, self@.len() as int)),
                None => r.deep_view() == self@,
            },
    {
        let count = match limit {
            Some(k) =>
                if k < self.entries.len() {
                    k
                } else {
                    self.entries.len()
                },
            None => self.entries.len(),
        };
        let mut r: Vec<SecureLogEntry> = Vec::new();
        let mut i: usize = 0;
        while i < count
            invariant
                0 <= i <= count <= self.entries@.len(),
                r@.len() == i as int,
                forall|j: int| 0 <= j < i ==> (#[trigger] r@[j])@ == self@[j],
            decreases count - i,
        {
            r.push(self.entries[i].clone());
            i = i + 1;
        }
        proof {
            assert forall|j: int| 0 <= j < count implies r.deep_view()[j] == self@.take(
                count as int,
            )[j] by {
                assert(r@[j]@ == self@[j]);
            }
            assert(r.deep_view() =~= self@.take(count as int));
            assert(self@.take(self@.len() as int) =~= self@);
        }
        r
    }

    /// The most recently appended entry, if any.
    pub fn get_last(&self) -> (r: Option<&SecureLogEntry>)
        ensures
            match r {
                Some(e) => self@.len() > 0 && e@ == self@.last(),
                None => self@.len() == 0,
            },
    {
        self.entries.last()
    }

    /// A chain that satisfies the invariant cannot hold more entries than
    /// the largest chain index an entry can carry.
    pub proof fn lemma_len_bounded(&self)
        requires
            self.wf(),
        ensures
            self@.len() <= i64::MAX,
    {
        if self@.len() > i64::MAX {
            let i = self@.len() - 1;
            assert(self@[i].chain_index == i + 1);
            assert(self@[i] == self.entries@[i]@);
            assert(self.entries@[i].chain_index <= i64::MAX);
        }
    }

    /// A read-only view of the stored entries.
    pub fn entries(&self) -> (r: &Vec<SecureLogEntry>)
        ensures
            r.deep_view() == self@,
    {
        &self.entries
    }
}

/// The pairwise previous/current hash check over a slice of entries, in the
/// order given. True exactly when every entry after the first embeds its
/// predecessor's `current_hash`; an empty or one-entry slice passes.
#[verifier::rlimit(50)]
pub fn verify_chain_integrity(entries: &Vec<SecureLogEntry>) -> (r: bool)
    ensures
        r == hash_links_ok(entries.deep_view()),
{
    let ghost s = entries.deep_view();
    let mut i: usize = 1;
    while i < entries.len()
        invariant
            1 <= i,
            entries.deep_view() == s,
            i <= s.len() || s.len() <= 1,
            forall|j: int| 1 <= j < i && j < s.len() ==> (#[trigger] s[j]).previous_hash == Some(
                s[j - 1].current_hash,
            ),
        decreases entries@.len() - i,
    {
        let linked = match &entries[i].previous_hash {
            Some(p) => {
                let expected = &entries[i - 1].current_hash;
                *p == *expected
            },
            None => false,
        };
        if !linked {
            proof {
                assert(!(s[i as int].previous_hash == Some(s[i as int - 1].current_hash)));
            }
            return false;
        }
        i = i + 1;
    }
    true
}

/// The timestamp-order check over a slice of entries, in the order given.
/// True exactly when creation times never decrease; an empty slice passes.
#[verifier::rlimit(50)]
pub fn verify_time_consistency(entries: &Vec<SecureLogEntry>) -> (r: bool)
    ensures
        r == times_ok(entries.deep_view()),
{
    let ghost s = entries.deep_view();
    let mut i: usize = 1;
    while i < entries.len()
        invariant
            1 <= i,
            entries.deep_view() == s,
            i <= s.len() || s.len() <= 1,
            forall|j: int| 1 <= j < i && j < s.len() ==> (#[trigger] s[j]).created_at >= s[j
                - 1].created_at,
        decreases entries@.len() - i,
    {
        if entries[i].created_at < entries[i - 1].created_at {
            proof {
                assert(!((s[i as int]).created_at >= s[i as int - 1].created_at));
            }
            return false;
        }
        i = i + 1;
    }
    true
}

/// Chain continuity: in any ledger that satisfies the chain invariant — and
/// every ledger built purely through `append` does — the first entry has
/// chain index 1 and no previous hash, and each later entry raises the chain
/// index by exactly one and embeds its predecessor's `current_hash`.
#[verifier::rlimit(50)]
pub proof fn lemma_chain_continuity(s: Seq<EntryView>)
    requires
        chain_ok(s),
    ensures
        s.len() > 0 ==> s[0].chain_index == 1 && s[0].previous_hash is None,
        forall|i: int|
            1 <= i < s.len() ==> (#[trigger] s[i]).previous_hash == Some(s[i - 1].current_hash)
                && s[i].chain_index == s[i - 1].chain_index + 1,
{
    assert forall|i: int| 1 <= i < s.len() implies (#[trigger] s[i]).previous_hash == Some(
        s[i - 1].current_hash,
    ) && s[i].chain_index == s[i - 1].chain_index + 1 by {
        assert(s[i].chain_index == i + 1);
        assert(s[i - 1].chain_index == i);
    }
}

/// The full chain invariant implies the pairwise hash check: an untouched
/// append-only ledger always passes `verify_chain_integrity`.
pub proof fn lemma_chain_ok_implies_hash_links(s: Seq<EntryView>)
    requires
        chain_ok(s),
    ensures
        hash_links_ok(s),
{
}

/// Hash determinism: appending logically identical fields at the same chain
/// position with the same previous hash always yields the same
/// `current_hash` — the hash is a pure function of the entry's own fields
/// and the previous hash, and of nothing else (not the entry id).
pub proof fn lemma_hash_deterministic(
    id1: Seq<char>,
    id2: Seq<char>,
    req: crate::entry::RequestView,
    previous_hash: Option<Seq<char>>,
    app_clock: int,
    chain_index: int,
    now: int,
)
    ensures
        spec_new_entry(id1, req, previous_hash, app_clock, chain_index, now).current_hash
            == spec_new_entry(id2, req, previous_hash, app_clock, chain_index, now).current_hash,
{
}

} // verus!
