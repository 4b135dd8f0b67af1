//! The ephemeral credential store holding pending one-time codes.
//!
//! An in-process key-value store with a per-key lifetime and an atomic
//! get-and-delete. Keys are the short numeric codes; values are the
//! serialized {client identifier, role} records. Expiry is lazy: a dead
//! entry is evicted when it is next touched, and until then it behaves
//! exactly like an absent one. Because get-and-delete takes the store
//! exclusively, concurrent redemptions of one code serialize, and the
//! laws below hold of every interleaving.

use std::collections::HashMap;

use vstd::prelude::*;

verus! {

broadcast use vstd::std_specs::hash::group_hash_axioms;

/// One stored value together with the moment it stops being valid.
pub struct StoreEntry {
    pub value: String,
    pub expires_at: i64,
}

/// The mathematical image of a stored entry.
pub ghost struct StoreEntrySpec {
    pub value: Seq<char>,
    pub expires_at: int,
}

impl View for StoreEntry {
    type V = StoreEntrySpec;

    open spec fn view(&self) -> StoreEntrySpec {
        StoreEntrySpec { value: self.value@, expires_at: self.expires_at as int }
    }
}

/// Whether `key` holds a value in `m` that is still valid at time `now`.
pub open spec fn live(m: Map<u64, StoreEntrySpec>, key: u64, now: int) -> bool {
    m.contains_key(key) && now < m[key].expires_at
}

/// The credential store. Its abstract value is the map from each pending
/// code to the stored record and its expiry moment.
pub struct CredentialStore {
    entries: HashMap<u64, StoreEntry>,
}

impl View for CredentialStore {
    type V = Map<u64, StoreEntrySpec>;

    closed spec fn view(&self) -> Map<u64, StoreEntrySpec> {
        self.entries@.map_values(|e: StoreEntry| e@)
    }
}

impl CredentialStore {
    /// An empty store.
    pub fn new() -> (r: CredentialStore)
        ensures
            r@ == Map::<u64, StoreEntrySpec>::empty(),
    {
        let r = CredentialStore { entries: HashMap::new() };
        proof {
            assert(r@ =~= Map::<u64, StoreEntrySpec>::empty());
        }
        r
    }

    /// Stores `value` under `key` for `ttl_seconds` from `now`. A key that
    /// already holds a value is blindly overwritten: the older pending
    /// code simply becomes unusable early.
    pub fn set(&mut self, key: u64, value: String, ttl_seconds: i64, now: i64)
        requires
            0 <= ttl_seconds,
            now + ttl_seconds <= i64::MAX,
        ensures
            final(self)@ == old(self)@.insert(
                key,
                StoreEntrySpec { value: value@, expires_at: now + ttl_seconds },
            ),
    {
        let ghost entry_spec = StoreEntrySpec { value: value@, expires_at: now + ttl_seconds };
        let entry = StoreEntry { value, expires_at: now + ttl_seconds };
        self.entries.insert(key, entry);
        proof {
            assert(self@ =~= old(self)@.insert(key, entry_spec));
        }
    }

    /// Reads the value under `key` without consuming it. An expired entry
    /// is indistinguishable from an absent one.
    pub fn get(&self, key: u64, now: i64) -> (r: Option<&String>)
        ensures
            r is Some <==> live(self@, key, now as int),
            r matches Some(v) ==> v@ == self@[key].value,
    {
        match self.entries.get(&key) {
            None => None,
            Some(entry) => if now < entry.expires_at {
                Some(&entry.value)
            } else {
                None
            },
        }
    }

    /// Atomically takes the value under `key` out of the store. Returns
    /// the stored value only when the key was live at `now`; in every case
    /// the key holds nothing afterwards, so a second take of the same key
    /// cannot succeed.
    pub fn get_and_delete(&mut self, key: u64, now: i64) -> (r: Option<String>)
        ensures
            final(self)@ == old(self)@.remove(key),
            r is Some <==> live(old(self)@, key, now as int),
            r matches Some(v) ==> v@ == old(self)@[key].value,
    {
        let removed = self.entries.remove(&key);
        proof {
            assert(self@ =~= old(self)@.remove(key));
        }
        match removed {
            None => None,
            Some(entry) => if now < entry.expires_at {
                Some(entry.value)
            } else {
                None
            },
        }
    }
}

/// Single use: after a code has been taken out of the store, that code is
/// dead at every later moment, so any further get-and-delete of it fails.
pub proof fn lemma_single_use(m: Map<u64, StoreEntrySpec>, key: u64, now: int)
    ensures
        !live(m.remove(key), key, now),
{
}

/// Race safety: two redemptions of one code that is still valid at both
/// their times serialize through the store's exclusive get-and-delete.
/// Whichever of the two runs first finds the key live and succeeds, and
/// the other then finds the key gone and fails: no interleaving lets both
/// succeed.
pub proof fn lemma_redeem_race(m: Map<u64, StoreEntrySpec>, key: u64, now1: int, now2: int)
    requires
        live(m, key, now1),
        live(m, key, now2),
    ensures
        !live(m.remove(key), key, now2),
        !live(m.remove(key), key, now1),
{
}

/// Expiry: a key whose entry has run out is as dead as one that was never
/// written, and the two cases cannot be told apart through `live`.
pub proof fn lemma_expired_is_dead(m: Map<u64, StoreEntrySpec>, key: u64, now: int)
    requires
        m.contains_key(key) ==> m[key].expires_at <= now,
    ensures
        !live(m, key, now),
{
}

} // verus!
