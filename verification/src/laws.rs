use vstd::prelude::*;
use crate::cache::{fresh_at, CacheEntry, CacheStore};
use crate::limiter::{admits, live_at, pruned, window_after};
use crate::location::LocationResult;

verus! {

/// Every timestamp the pruning keeps is live at `now`.
proof fn lemma_pruned_live(w: Seq<u64>, window: u64, now: u64)
    ensures
        forall|i: int|
            0 <= i < pruned(w, window, now).len() ==> live_at(
                #[trigger] pruned(w, window, now)[i],
                window,
                now,
            ),
    decreases w.len(),
{
    if w.len() > 0 {
        lemma_pruned_live(w.drop_last(), window, now);
        let rest = pruned(w.drop_last(), window, now);
        if live_at(w.last(), window, now) {
            assert(pruned(w, window, now) == rest.push(w.last()));
            assert forall|i: int| 0 <= i < pruned(w, window, now).len() implies live_at(
                pruned(w, window, now)[i],
                window,
                now,
            ) by {
                if i < rest.len() {
                    assert(pruned(w, window, now)[i] == rest[i]);
                } else {
                    assert(pruned(w, window, now)[i] == w.last());
                }
            }
        } else {
            assert(pruned(w, window, now) == rest);
        }
    }
}

/// Pruning a window whose timestamps are all live keeps it unchanged.
proof fn lemma_pruned_all_live(w: Seq<u64>, window: u64, now: u64)
    requires
        forall|i: int| 0 <= i < w.len() ==> live_at(#[trigger] w[i], window, now),
    ensures
        pruned(w, window, now) == w,
    decreases w.len(),
{
    if w.len() == 0 {
        assert(pruned(w, window, now) =~= w);
    } else {
        assert(forall|i: int|
            0 <= i < w.drop_last().len() ==> live_at(#[trigger] w.drop_last()[i], window, now));
        lemma_pruned_all_live(w.drop_last(), window, now);
        assert(live_at(w.last(), window, now));
        assert(pruned(w, window, now) =~= w);
    }
}

/// Pruning is idempotent: what one pruning keeps, a second keeps whole.
proof fn lemma_pruned_idempotent(w: Seq<u64>, window: u64, now: u64)
    ensures
        pruned(pruned(w, window, now), window, now) == pruned(w, window, now),
{
    lemma_pruned_live(w, window, now);
    lemma_pruned_all_live(pruned(w, window, now), window, now);
}

/// Law (cache freshness): once an entry for `key` recorded at `t0` stands
/// in the cache, it is present under `key` with its location intact, the
/// freshness rule accepts it at exactly the instants `t1` with
/// `t1 < t0 + ttl`, and rejects it at every `t1 >= t0 + ttl`.
pub proof fn lemma_cache_freshness(
    s: CacheStore,
    key: Seq<char>,
    loc: LocationResult,
    t0: u64,
    ttl: u64,
    t1: u64,
)
    ensures
        ({
            let after = s.entries().insert(key, (CacheEntry { location: loc, recorded_at: t0 }));
            &&& after.contains_key(key)
            &&& after[key].location == loc
            &&& after[key].recorded_at == t0
            &&& (t1 < t0 + ttl <==> fresh_at(after[key].recorded_at, ttl, t1))
        }),
{
}

/// Law (rate limit correctness, filling side): with quota `max` and
/// `max - 1` live attempts on record, the `max`-th attempt at `now` is
/// admitted; any further attempt at an instant `now2` at which all `max`
/// recorded attempts are still inside the rolling window is denied.
pub proof fn lemma_quota_boundary(w: Seq<u64>, window: u64, now: u64, now2: u64, max: u64)
    requires
        max >= 1,
        pruned(w, window, now).len() == max - 1,
        live_at(now, window, now2),
        forall|i: int|
            0 <= i < pruned(w, window, now).len() ==> live_at(
                #[trigger] pruned(w, window, now)[i],
                window,
                now2,
            ),
    ensures
        admits(w, window, now, max),
        !admits(window_after(w, window, now, max), window, now2, max),
{
    let kept = pruned(w, window, now);
    let after = window_after(w, window, now, max);
    assert(after == kept.push(now));
    assert(forall|i: int| 0 <= i < after.len() ==> live_at(#[trigger] after[i], window, now2));
    lemma_pruned_all_live(after, window, now2);
    assert(pruned(after, window, now2).len() == max);
}

/// Law (rate limit correctness, aging side): when exactly the earliest
/// recorded attempt has aged out of the window and every later one is
/// still live, pruning drops that one attempt and no other — the quota
/// frees up by exactly one.
pub proof fn lemma_quota_frees(w: Seq<u64>, window: u64, now: u64)
    requires
        w.len() > 0,
        !live_at(w[0], window, now),
        forall|i: int| 1 <= i < w.len() ==> live_at(#[trigger] w[i], window, now),
    ensures
        pruned(w, window, now) == w.skip(1),
        pruned(w, window, now).len() == w.len() - 1,
    decreases w.len(),
{
    if w.len() == 1 {
        assert(!live_at(w.last(), window, now));
        assert(pruned(w.drop_last(), window, now) =~= Seq::<u64>::empty());
        assert(pruned(w, window, now) =~= w.skip(1));
    } else {
        assert(w.drop_last()[0] == w[0]);
        assert(forall|i: int|
            1 <= i < w.drop_last().len() ==> live_at(#[trigger] w.drop_last()[i], window, now));
        lemma_quota_frees(w.drop_last(), window, now);
        assert(live_at(w.last(), window, now));
        let p = pruned(w, window, now);
        assert(p == w.drop_last().skip(1).push(w.last()));
        assert forall|i: int| 0 <= i < p.len() implies p[i] == w.skip(1)[i] by {
            if i < p.len() - 1 {
                assert(p[i] == w.drop_last().skip(1)[i]);
                assert(w.drop_last().skip(1)[i] == w.drop_last()[i + 1]);
                assert(w.drop_last()[i + 1] == w[i + 1]);
            } else {
                assert(p[i] == w.last());
            }
            assert(w.skip(1)[i] == w[i + 1]);
        }
        assert(p =~= w.skip(1));
    }
}

/// The number of admissions among `m` consecutive attempts for one key,
/// all made at time `now` against window length `window` and quota `max`,
/// starting from stored window `w`. Each attempt leaves the window the
/// store would leave: pruned, plus the attempt's timestamp if admitted.
pub open spec fn admitted_count(w: Seq<u64>, window: u64, now: u64, max: u64, m: nat) -> nat
    decreases m,
{
    if m == 0 {
        0
    } else {
        let rest = admitted_count(
            window_after(w, window, now, max),
            window,
            now,
            max,
            (m - 1) as nat,
        );
        if admits(w, window, now, max) {
            rest + 1
        } else {
            rest
        }
    }
}

/// Law (admission atomicity): the store serializes attempts per key, so
/// `m` concurrent attempts run as `m` consecutive ones in some order; with
/// `max - pruned(w).len()` admission slots remaining, exactly that many of
/// the `m` attempts are admitted (all of them, when fewer arrive than
/// slots remain) and all the others are denied.
pub proof fn lemma_admission_atomicity(w: Seq<u64>, window: u64, now: u64, max: u64, m: nat)
    requires
        window >= 1,
        pruned(w, window, now).len() <= max,
    ensures
        ({
            let slots = max - pruned(w, window, now).len();
            admitted_count(w, window, now, max, m) == if m <= slots {
                m as int
            } else {
                slots
            }
        }),
    decreases m,
{
    if m > 0 {
        let kept = pruned(w, window, now);
        let after = window_after(w, window, now, max);
        lemma_pruned_live(w, window, now);
        if admits(w, window, now, max) {
            assert(after == kept.push(now));
            assert(forall|i: int|
                0 <= i < after.len() ==> live_at(#[trigger] after[i], window, now));
            lemma_pruned_all_live(after, window, now);
            assert(pruned(after, window, now).len() == kept.len() + 1);
            lemma_admission_atomicity(after, window, now, max, (m - 1) as nat);
        } else {
            assert(after == kept);
            lemma_pruned_idempotent(w, window, now);
            assert(pruned(after, window, now).len() == max);
            lemma_admission_atomicity(after, window, now, max, (m - 1) as nat);
        }
    }
}

/// Law (quota consumed regardless of outcome): an admitted attempt at
/// `now` leaves its own timestamp on record, and the count of live
/// attempts the next check sees has grown by exactly one — nothing later
/// in the request, success or failure, touches the window again.
pub proof fn lemma_quota_consumed(w: Seq<u64>, window: u64, now: u64, max: u64)
    requires
        window >= 1,
        admits(w, window, now, max),
    ensures
        window_after(w, window, now, max).last() == now,
        pruned(window_after(w, window, now, max), window, now).len() == pruned(
            w,
            window,
            now,
        ).len() + 1,
{
    let kept = pruned(w, window, now);
    let after = window_after(w, window, now, max);
    lemma_pruned_live(w, window, now);
    assert(after == kept.push(now));
    assert(forall|i: int| 0 <= i < after.len() ==> live_at(#[trigger] after[i], window, now));
    lemma_pruned_all_live(after, window, now);
}

} // verus!
