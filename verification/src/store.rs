//! The expiring store and its operations. One table maps each key to a
//! single record holding the value together with its optional expiry
//! instant, so the pair always changes as one unit, and every operation is
//! specified against the model in `model`.

use vstd::prelude::*;
use vstd::hash_map::StringHashMap;
use crate::clock::{elapsed_millis, now_instant};
use crate::model::{
    after_read, evicted, expiry_instant, read_result, written, written_with_ttl, EntryModel,
    StoreModel,
};

verus! {

/// One stored record: the value for a key and, where a time-to-live was
/// set, the instant at which it expires.
struct Entry {
    value: String,
    expiry: Option<u64>,
}

impl View for Entry {
    type V = EntryModel;

    closed spec fn view(&self) -> EntryModel {
        EntryModel { value: self.value@, expiry: self.expiry }
    }
}

/// The expiring store: a table from key to record, and the origin instant
/// of the monotonic clock against which expiry instants are measured.
pub struct Store {
    table: StringHashMap<Entry>,
    origin: std::time::Instant,
    cap: usize,
}

impl View for Store {
    type V = StoreModel;

    closed spec fn view(&self) -> StoreModel {
        self.table@.map_values(|e: Entry| e@)
    }
}

impl Store {
    /// The capacity hint this store was created with: a performance hint
    /// only, with no bearing on observable behaviour.
    pub closed spec fn spec_capacity(&self) -> usize {
        self.cap
    }

    /// Creates an empty store with no capacity hint.
    pub fn new() -> (s: Store)
        ensures
            s@ == Map::<Seq<char>, EntryModel>::empty(),
            s.spec_capacity() == 0,
    {
        let s = Store { table: StringHashMap::new(), origin: now_instant(), cap: 0 };
        proof {
            assert(s@ =~= Map::<Seq<char>, EntryModel>::empty());
        }
        s
    }

    /// Creates an empty store pre-sized for about `capacity` entries.
    /// Pre-sizing is a performance hint: the store starts empty and
    /// behaves exactly as one created without it.
    pub fn with_capacity(capacity: usize) -> (s: Store)
        ensures
            s@ == Map::<Seq<char>, EntryModel>::empty(),
            s.spec_capacity() == capacity,
    {
        let s = Store {
            table: StringHashMap::with_capacity(capacity),
            origin: now_instant(),
            cap: capacity,
        };
        proof {
            assert(s@ =~= Map::<Seq<char>, EntryModel>::empty());
        }
        s
    }

    /// The capacity hint given at creation, zero where none was given.
    pub fn capacity(&self) -> (n: usize)
        ensures
            n == self.spec_capacity(),
    {
        self.cap
    }
}

/// Inserts or replaces the value for `key` and reports whether a value
/// already existed for it. A plain write leaves the key without a
/// time-to-live: any expiry the key had before is cleared, so the fresh
/// value cannot vanish at a stale instant.
pub fn insert_key(store: &mut Store, key: String, value: String) -> (existed: bool)
    ensures
        existed == old(store)@.contains_key(key@),
        final(store)@ == written(old(store)@, key@, value@),
        final(store).spec_capacity() == old(store).spec_capacity(),
{
    let existed = store.table.contains_key(key.as_str());
    store.table.insert(key, Entry { value, expiry: None });
    proof {
        assert(store@ =~= written(old(store)@, key@, value@));
    }
    existed
}

/// Writes `key`/`value` with a time-to-live measured from the given
/// instant of the store's monotonic clock: the entry expires once the
/// clock reaches `now_millis` plus `ttl_seconds` (saturating). Reports
/// whether a value already existed for the key.
pub fn write_with_ttl_at(
    store: &mut Store,
    ttl_seconds: u64,
    key: String,
    value: String,
    now_millis: u64,
) -> (existed: bool)
    ensures
        existed == old(store)@.contains_key(key@),
        final(store)@ == written_with_ttl(old(store)@, key@, value@, ttl_seconds, now_millis),
        final(store).spec_capacity() == old(store).spec_capacity(),
{
    let deadline = match ttl_seconds.checked_mul(1000) {
        Some(ttl_millis) => now_millis.saturating_add(ttl_millis),
        None => u64::MAX,
    };
    proof {
        assert(deadline == expiry_instant(now_millis, ttl_seconds));
    }
    let existed = store.table.contains_key(key.as_str());
    store.table.insert(key, Entry { value, expiry: Some(deadline) });
    proof {
        assert(store@ =~= written_with_ttl(old(store)@, key@, value@, ttl_seconds, now_millis));
    }
    existed
}

/// Inserts or replaces the value for `key` with a time-to-live of
/// `timeout_seconds`, measured from the moment of the call on the store's
/// monotonic clock, and reports whether a value already existed. Which
/// instant the clock reads is not predictable, so the new state is related
/// to the old one for some reading `now`.
pub fn insert_with_expiry(
    store: &mut Store,
    timeout_seconds: u64,
    key: String,
    value: String,
) -> (existed: bool)
    ensures
        existed == old(store)@.contains_key(key@),
        exists|now: u64|
            final(store)@ == written_with_ttl(old(store)@, key@, value@, timeout_seconds, now),
        final(store).spec_capacity() == old(store).spec_capacity(),
{
    let now = elapsed_millis(&store.origin);
    let ghost k = key@;
    let ghost v = value@;
    let existed = write_with_ttl_at(store, timeout_seconds, key, value, now);
    proof {
        assert(store@ == written_with_ttl(old(store)@, k, v, timeout_seconds, now));
    }
    existed
}

/// Reads `key` at the given instant of the store's monotonic clock. An
/// entry whose expiry the clock has reached is removed from the store and
/// reported absent; otherwise the stored value, if any, is returned and
/// the store is unchanged.
pub fn read_at(store: &mut Store, key: &str, now_millis: u64) -> (r: Option<String>)
    ensures
        r.deep_view() == read_result(old(store)@, key@, now_millis),
        final(store)@ == after_read(old(store)@, key@, now_millis),
        final(store).spec_capacity() == old(store).spec_capacity(),
{
    let expired = match store.table.get(key) {
        Some(entry) => match entry.expiry {
            Some(deadline) => now_millis >= deadline,
            None => false,
        },
        None => false,
    };
    if expired {
        store.table.remove(key);
        proof {
            assert(store@ =~= after_read(old(store)@, key@, now_millis));
        }
        None
    } else {
        let r = match store.table.get(key) {
            Some(entry) => Some(entry.value.clone()),
            None => None,
        };
        r
    }
}

/// Reads `key` at the moment of the call: an entry whose time-to-live has
/// lapsed is removed and reported absent; otherwise the stored value, if
/// any, is returned. Which instant the clock reads is not predictable, so
/// the result and the new state are related to the old one for some
/// reading `now`.
pub fn get_key(store: &mut Store, key: String) -> (r: Option<String>)
    ensures
        exists|now: u64|
            #[trigger] read_result(old(store)@, key@, now) == r.deep_view()
                && final(store)@ == after_read(old(store)@, key@, now),
        final(store).spec_capacity() == old(store).spec_capacity(),
{
    let now = elapsed_millis(&store.origin);
    let ghost k = key@;
    let r = read_at(store, key.as_str(), now);
    proof {
        assert(read_result(old(store)@, k, now) == r.deep_view());
    }
    r
}

/// Removes `key`'s whole record, value and expiry alike, so a later plain
/// write starts afresh. Evicting an absent key changes nothing and never
/// fails.
pub fn evict_key(store: &mut Store, key: String)
    ensures
        final(store)@ == evicted(old(store)@, key@),
        final(store).spec_capacity() == old(store).spec_capacity(),
{
    store.table.remove(key.as_str());
    proof {
        assert(store@ =~= evicted(old(store)@, key@));
    }
}

} // verus!
