use vstd::prelude::*;

verus! {

/// Length of the sliding rate-limit window, in milliseconds (24 hours).
pub const DAY_MS: u64 = 86_400_000;

/// True when an event recorded at `t` is still inside the window of length
/// `window` at time `now` (all in milliseconds).
pub open spec fn live_at(t: u64, window: u64, now: u64) -> bool {
    t + window > now
}

/// The stored timestamps still inside the window at `now`, in stored order.
pub open spec fn pruned(w: Seq<u64>, window: u64, now: u64) -> Seq<u64>
    decreases w.len(),
{
    if w.len() == 0 {
        Seq::empty()
    } else {
        let rest = pruned(w.drop_last(), window, now);
        if live_at(w.last(), window, now) {
            rest.push(w.last())
        } else {
            rest
        }
    }
}

/// Whether an attempt at `now` is admitted against the stored window `w`
/// under quota `max`: admission is owed exactly when fewer than `max`
/// recorded attempts are still live.
pub open spec fn admits(w: Seq<u64>, window: u64, now: u64, max: u64) -> bool {
    pruned(w, window, now).len() < max
}

/// The window stored after an attempt at `now`: the live timestamps, with
/// `now` appended exactly when the attempt was admitted.
pub open spec fn window_after(w: Seq<u64>, window: u64, now: u64, max: u64) -> Seq<u64> {
    if admits(w, window, now, max) {
        pruned(w, window, now).push(now)
    } else {
        pruned(w, window, now)
    }
}

/// The outcome of a rate-limit admission attempt. `Denied` is a normal
/// outcome, not a fault.
#[derive(Clone, Copy, PartialEq, Eq, Structural, Debug)]
pub enum Admission {
    Admitted,
    Denied,
}

/// The empty window mapping.
pub open spec fn empty_window_map() -> Map<Seq<char>, Seq<u64>> {
    Map::empty()
}

/// Abstract contents of the concurrent rate-limit map: client key to the
/// stored sequence of attempt timestamps.
pub uninterp spec fn window_map_entries(m: dashmap::DashMap<String, Vec<u64>>) -> Map<Seq<char>, Seq<u64>>;

/// Relies on dashmap::DashMap::new: a freshly created map is empty.
#[verifier::external_body]
fn window_map_new() -> (m: dashmap::DashMap<String, Vec<u64>>)
    ensures
        window_map_entries(m) == empty_window_map(),
{
    dashmap::DashMap::new()
}

/// Relies on dashmap::DashMap::get: returns the sequence stored under `key`,
/// if any.
#[verifier::external_body]
fn window_map_get(m: &dashmap::DashMap<String, Vec<u64>>, key: &String) -> (r: Option<Vec<u64>>)
    ensures
        match r {
            Some(v) => window_map_entries(*m).contains_key(key@)
                && v@ == window_map_entries(*m)[key@],
            None => !window_map_entries(*m).contains_key(key@),
        },
{
    m.get(key).map(|e| e.value().clone())
}

/// Relies on dashmap::DashMap::insert: stores `w` under `key`, replacing
/// whatever was there.
#[verifier::external_body]
fn window_map_insert(m: &mut dashmap::DashMap<String, Vec<u64>>, key: &String, w: Vec<u64>)
    ensures
        window_map_entries(*final(m)) == window_map_entries(*old(m)).insert(key@, w@),
{
    m.insert(key.clone(), w);
}

/// The rate limiter: for each client key, the timestamps of its recent
/// admitted attempts; a sliding-window quota decides admission.
pub struct RateLimiterStore {
    map: dashmap::DashMap<String, Vec<u64>>,
}

impl RateLimiterStore {
    /// Abstract view: the mapping from client key to its stored timestamps.
    pub closed spec fn windows(&self) -> Map<Seq<char>, Seq<u64>> {
        window_map_entries(self.map)
    }

    /// The window this store holds for `key`: the stored sequence, or empty
    /// when the key was never seen.
    pub open spec fn window_of(&self, key: Seq<char>) -> Seq<u64> {
        if self.windows().contains_key(key) {
            self.windows()[key]
        } else {
            Seq::empty()
        }
    }

    pub fn new() -> (s: Self)
        ensures
            s.windows() == empty_window_map(),
    {
        RateLimiterStore { map: window_map_new() }
    }

    /// One atomic admission attempt for `key` at time `now`, against a
    /// sliding window of length `window` and quota `max`: the stored
    /// timestamps are pruned to those still live, the attempt is admitted
    /// exactly when fewer than `max` remain, and `now` is recorded only on
    /// admission. The pruned window is stored back either way.
    pub fn try_admit(&mut self, key: &String, now: u64, window: u64, max: u64) -> (r: Admission)
        ensures
            (r == Admission::Admitted) <==> admits(old(self).window_of(key@), window, now, max),
            final(self).windows() == old(self).windows().insert(
                key@,
                window_after(old(self).window_of(key@), window, now, max),
            ),
            final(self).window_of(key@) == window_after(old(self).window_of(key@), window, now, max),
    {
        let w: Vec<u64> = match window_map_get(&self.map, key) {
            Some(v) => v,
            None => Vec::new(),
        };

        let mut kept: Vec<u64> = Vec::new();
        let mut i: usize = 0;
        while i < w.len()
            invariant
                i <= w.len(),
                kept@ == pruned(w@.take(i as int), window, now),
            decreases w.len() - i,
        {
            let t: u64 = w[i];
            proof {
                assert(w@.take(i as int + 1).drop_last() =~= w@.take(i as int));
                assert(w@.take(i as int + 1).last() == w@[i as int]);
            }
            if t > now || now - t < window {
                kept.push(t);
            }
            i = i + 1;
        }
        proof {
            assert(w@.take(w@.len() as int) =~= w@);
        }

        if kept.len() as u64 >= max {
            window_map_insert(&mut self.map, key, kept);
            Admission::Denied
        } else {
            kept.push(now);
            window_map_insert(&mut self.map, key, kept);
            Admission::Admitted
        }
    }
}

} // verus!
