//! The mathematical model of the store: what each operation does to the
//! map of live entries, and what a read returns, stated over `Seq<char>`
//! keys and values and millisecond instants of a monotonic clock.

use vstd::prelude::*;

verus! {

/// The abstract state of one stored entry: the value it holds and, where
/// a time-to-live was set, the instant (in milliseconds of the store's
/// monotonic clock) at which the entry expires.
pub struct EntryModel {
    pub value: Seq<char>,
    pub expiry: Option<u64>,
}

/// The abstract state of the whole store: each live key maps to its entry.
pub type StoreModel = Map<Seq<char>, EntryModel>;

/// The instant at which an entry written at `now` with a time-to-live of
/// `ttl_seconds` expires: `now + ttl_seconds` in milliseconds, saturating
/// at the largest representable instant.
pub open spec fn expiry_instant(now: u64, ttl_seconds: u64) -> u64 {
    if now + ttl_seconds * 1000 > u64::MAX {
        u64::MAX
    } else {
        (now + ttl_seconds * 1000) as u64
    }
}

/// Whether an entry counts as expired at instant `now`: only an entry with
/// an expiry record expires, and it does exactly when `now` reaches it.
pub open spec fn is_expired(e: EntryModel, now: u64) -> bool {
    match e.expiry {
        Some(deadline) => now >= deadline,
        None => false,
    }
}

/// The store after a plain write: the key maps to the value, with no
/// expiry. A plain write clears any time-to-live the key had before, so a
/// freshly written value can never vanish at a stale instant.
pub open spec fn written(m: StoreModel, k: Seq<char>, v: Seq<char>) -> StoreModel {
    m.insert(k, EntryModel { value: v, expiry: None })
}

/// The store after a write with a time-to-live, performed at instant `now`.
pub open spec fn written_with_ttl(
    m: StoreModel,
    k: Seq<char>,
    v: Seq<char>,
    ttl_seconds: u64,
    now: u64,
) -> StoreModel {
    m.insert(k, EntryModel { value: v, expiry: Some(expiry_instant(now, ttl_seconds)) })
}

/// What a read of key `k` at instant `now` returns: the stored value, or
/// nothing when the key is absent or its entry has expired.
pub open spec fn read_result(m: StoreModel, k: Seq<char>, now: u64) -> Option<Seq<char>> {
    if m.contains_key(k) && !is_expired(m[k], now) {
        Some(m[k].value)
    } else {
        None
    }
}

/// The store after a read of key `k` at instant `now`: a read removes the
/// entry it found expired and changes nothing otherwise.
pub open spec fn after_read(m: StoreModel, k: Seq<char>, now: u64) -> StoreModel {
    if m.contains_key(k) && is_expired(m[k], now) {
        m.remove(k)
    } else {
        m
    }
}

/// The store after an eviction: the key's whole record is forgotten, value
/// and expiry alike. Evicting an absent key changes nothing.
pub open spec fn evicted(m: StoreModel, k: Seq<char>) -> StoreModel {
    m.remove(k)
}

} // verus!
