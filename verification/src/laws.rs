//! The laws of the store, proved against the model: what a read returns
//! after each kind of write, that eviction forgets a key, and that
//! operations on one key leave every other key alone.

use vstd::prelude::*;
use crate::model::{
    after_read, evicted, expiry_instant, read_result, written, written_with_ttl, StoreModel,
};

verus! {

/// A plain write is read back whole: after `written(m, k, v)`, reading `k`
/// at any instant returns `v`, and the read leaves the store unchanged. A
/// plain write carries no expiry, so the entry never lapses.
pub proof fn lemma_write_read_round_trip(m: StoreModel, k: Seq<char>, v: Seq<char>, now: u64)
    ensures
        read_result(written(m, k, v), k, now) == Some(v),
        after_read(written(m, k, v), k, now) == written(m, k, v),
{
}

/// The overwrite indicator: writes report whether the key already held a
/// value, so on a key the store does not hold a write reports a new key,
/// and any later write to the same key reports an overwrite. The exec
/// writes tie their result to `contains_key` of the state before the call.
pub proof fn lemma_overwrite_indicator(
    m: StoreModel,
    k: Seq<char>,
    v1: Seq<char>,
    ttl_seconds: u64,
    now0: u64,
)
    requires
        !m.contains_key(k),
    ensures
        written(m, k, v1).contains_key(k),
        written_with_ttl(m, k, v1, ttl_seconds, now0).contains_key(k),
        evicted(m, k).contains_key(k) == false,
{
}

/// Absence: a key the store does not hold reads back absent at every
/// instant, and the read changes nothing.
pub proof fn lemma_read_absent(m: StoreModel, k: Seq<char>, now: u64)
    requires
        !m.contains_key(k),
    ensures
        read_result(m, k, now) == None::<Seq<char>>,
        after_read(m, k, now) == m,
{
}

/// Eviction: after a write of `k` and an eviction of `k`, reading `k` at
/// any instant returns absent.
pub proof fn lemma_evict_then_read(m: StoreModel, k: Seq<char>, v: Seq<char>, now: u64)
    ensures
        read_result(evicted(written(m, k, v), k), k, now) == None::<Seq<char>>,
{
}

/// The expiry boundary: an entry written at `now0` with a time-to-live of
/// `ttl_seconds` reads back whole at every instant before its expiry
/// instant, and reads back absent — with its record removed — from the
/// expiry instant on.
pub proof fn lemma_ttl_boundary(
    m: StoreModel,
    k: Seq<char>,
    v: Seq<char>,
    ttl_seconds: u64,
    now0: u64,
    now: u64,
)
    ensures
        now < expiry_instant(now0, ttl_seconds) ==> read_result(
            written_with_ttl(m, k, v, ttl_seconds, now0),
            k,
            now,
        ) == Some(v),
        now < expiry_instant(now0, ttl_seconds) ==> after_read(
            written_with_ttl(m, k, v, ttl_seconds, now0),
            k,
            now,
        ) == written_with_ttl(m, k, v, ttl_seconds, now0),
        now >= expiry_instant(now0, ttl_seconds) ==> read_result(
            written_with_ttl(m, k, v, ttl_seconds, now0),
            k,
            now,
        ) == None::<Seq<char>>,
        now >= expiry_instant(now0, ttl_seconds) ==> after_read(
            written_with_ttl(m, k, v, ttl_seconds, now0),
            k,
            now,
        ) =~= evicted(m, k),
{
}

/// The expiry instant never precedes the instant of the write, and where
/// the sum does not saturate it is exactly the write instant plus the
/// time-to-live in milliseconds.
pub proof fn lemma_expiry_instant_bounds(now: u64, ttl_seconds: u64)
    ensures
        expiry_instant(now, ttl_seconds) >= now,
        now + ttl_seconds * 1000 <= u64::MAX ==> expiry_instant(now, ttl_seconds) == now
            + ttl_seconds * 1000,
{
}

/// Writers to distinct keys do not interfere: a write of `k2` leaves what
/// a read of `k1` returns — and the entry it holds — exactly as before.
/// Under the store's single lock every interleaving of such writes leaves
/// each key reading back its own value.
pub proof fn lemma_write_preserves_other_keys(
    m: StoreModel,
    k1: Seq<char>,
    k2: Seq<char>,
    v2: Seq<char>,
    ttl_seconds: u64,
    now0: u64,
    now: u64,
)
    requires
        k1 != k2,
    ensures
        read_result(written(m, k2, v2), k1, now) == read_result(m, k1, now),
        read_result(written_with_ttl(m, k2, v2, ttl_seconds, now0), k1, now) == read_result(
            m,
            k1,
            now,
        ),
        read_result(evicted(m, k2), k1, now) == read_result(m, k1, now),
{
}

/// Idempotent eviction: evicting a key the store does not hold changes
/// nothing, and evicting the same key twice is the same as evicting it
/// once. The exec eviction has no precondition, so it never fails.
pub proof fn lemma_evict_idempotent(m: StoreModel, k: Seq<char>)
    ensures
        !m.contains_key(k) ==> evicted(m, k) =~= m,
        evicted(evicted(m, k), k) =~= evicted(m, k),
{
}

/// Expiry of one key never touches another: the lazy removal a read of
/// `k2` performs leaves what a read of `k1` returns unchanged.
pub proof fn lemma_expiry_preserves_other_keys(
    m: StoreModel,
    k1: Seq<char>,
    k2: Seq<char>,
    now2: u64,
    now: u64,
)
    requires
        k1 != k2,
    ensures
        read_result(after_read(m, k2, now2), k1, now) == read_result(m, k1, now),
{
}

} // verus!
