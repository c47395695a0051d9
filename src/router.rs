use vstd::prelude::*;

use crate::text::str_equal;

verus! {

/// The last value fetched for one cache key, with when it was stored and
/// how long it stays fresh (`None`: for ever).
pub struct CacheEntry<V> {
    pub key: String,
    pub value: V,
    pub created_at: u64,
    pub ttl: Option<u64>,
}

/// What the caller of a request must do next.
#[derive(Debug, Clone, Copy, PartialEq, Eq, Structural)]
pub enum RequestAction {
    /// A fresh value is cached: read it with `get`.
    Hit,
    /// Another caller is fetching this key: wait for its outcome.
    Attach,
    /// This caller fetches the key and reports back with `complete_fetch`.
    Fetch,
}

/// What became of a finished fetch.
#[derive(Debug, Clone, Copy, PartialEq, Eq, Structural)]
pub enum FetchOutcome {
    /// The fetched value was cached.
    Stored,
    /// The fetch failed and the earlier, stale value is served instead.
    ServedStale,
    /// The fetch failed and nothing was cached: the failure propagates.
    Failed,
}

/// The cache counters as reported next to the health verdict.
#[derive(Debug, Clone, Copy, PartialEq, Eq, Structural)]
pub struct CacheStats {
    pub enabled: bool,
    pub entries: usize,
    pub hits: u64,
    pub misses: u64,
}

/// The hit rate in hundredths of a percent, rounded down; 0 before any
/// request.
pub open spec fn hit_rate_of(hits: int, misses: int) -> int {
    if hits + misses == 0 {
        0
    } else {
        (10000 * hits) / (hits + misses)
    }
}

impl CacheStats {
    /// The hit rate in hundredths of a percent, rounded down (2500 stands
    /// for 25.00%); 0 before any request.
    pub fn hit_rate_basis_points(&self) -> (r: u64)
        ensures
            r as int == hit_rate_of(self.hits as int, self.misses as int),
    {
        let total: u128 = self.hits as u128 + self.misses as u128;
        if total == 0 {
            0
        } else {
            proof {
                let h = self.hits as int;
                let t = total as int;
                assert((10000 * h) / t <= 10000) by (nonlinear_arith)
                    requires
                        0 <= h <= t,
                        t > 0,
                ;
            }
            ((self.hits as u128 * 10000) / total) as u64
        }
    }
}

/// The abstract state of the router's cache: its entries, the keys being
/// fetched, and the request counters.
pub ghost struct CacheState<V> {
    pub entries: Seq<CacheEntry<V>>,
    pub in_flight: Seq<Seq<char>>,
    pub hits: int,
    pub misses: int,
}

/// The position of the first entry for `key` at or after `i`.
pub open spec fn find_from<V>(entries: Seq<CacheEntry<V>>, key: Seq<char>, i: int) -> Option<int>
    decreases entries.len() - i,
{
    if i < 0 || i >= entries.len() {
        None
    } else if entries[i].key@ == key {
        Some(i)
    } else {
        find_from(entries, key, i + 1)
    }
}

/// The position of the entry for `key`.
pub open spec fn find_entry<V>(entries: Seq<CacheEntry<V>>, key: Seq<char>) -> Option<int> {
    find_from(entries, key, 0)
}

/// The entry is within its time to live at time `now`.
pub open spec fn is_fresh<V>(e: CacheEntry<V>, now: u64) -> bool {
    match e.ttl {
        None => true,
        Some(t) => (now as int) < e.created_at + t,
    }
}

/// A fresh entry for `key` is cached at time `now`.
pub open spec fn fresh_hit<V>(s: CacheState<V>, key: Seq<char>, now: u64) -> bool {
    match find_entry(s.entries, key) {
        Some(i) => is_fresh(s.entries[i], now),
        None => false,
    }
}

/// One request for `key` at time `now`: a fresh entry is a hit; a key being
/// fetched is joined, and counts as a hit; otherwise the caller becomes the
/// fetcher, and the request counts as a miss.
pub open spec fn begin_step<V>(s: CacheState<V>, key: Seq<char>, now: u64) -> (CacheState<V>, RequestAction) {
    if fresh_hit(s, key, now) {
        (CacheState { hits: s.hits + 1, ..s }, RequestAction::Hit)
    } else if s.in_flight.contains(key) {
        (CacheState { hits: s.hits + 1, ..s }, RequestAction::Attach)
    } else {
        (
            CacheState { in_flight: s.in_flight.push(key), misses: s.misses + 1, ..s },
            RequestAction::Fetch,
        )
    }
}

/// Keeps every key but `key`.
pub open spec fn other_than(key: Seq<char>) -> spec_fn(Seq<char>) -> bool {
    |k: Seq<char>| k != key
}

/// The end of the fetch of `key` at time `now`: the key is no longer being
/// fetched; a value is cached under `key`, replacing any earlier one; a
/// failure leaves the entries as they were, and serves the stale value where
/// one is cached.
pub open spec fn complete_step<V>(
    s: CacheState<V>,
    key: String,
    outcome: Option<V>,
    now: u64,
    ttl: Option<u64>,
) -> (CacheState<V>, FetchOutcome) {
    let in_flight = s.in_flight.filter(other_than(key@));
    match outcome {
        Some(v) => {
            let e = CacheEntry { key, value: v, created_at: now, ttl };
            let entries = match find_entry(s.entries, key@) {
                Some(i) => s.entries.update(i, e),
                None => s.entries.push(e),
            };
            (CacheState { entries, in_flight, ..s }, FetchOutcome::Stored)
        },
        None => (
            CacheState { in_flight, ..s },
            if find_entry(s.entries, key@) is Some {
                FetchOutcome::ServedStale
            } else {
                FetchOutcome::Failed
            },
        ),
    }
}

proof fn lemma_find_from<V>(entries: Seq<CacheEntry<V>>, key: Seq<char>, i: int)
    requires
        0 <= i,
    ensures
        find_from(entries, key, i) matches Some(j) ==> i <= j < entries.len() && entries[j].key@
            == key && forall|k: int| i <= k < j ==> (#[trigger] entries[k]).key@ != key,
        find_from(entries, key, i) is None ==> forall|k: int|
            i <= k < entries.len() ==> (#[trigger] entries[k]).key@ != key,
    decreases entries.len() - i,
{
    if i < entries.len() {
        lemma_find_from(entries, key, i + 1);
    }
}

proof fn lemma_find_first<V>(entries: Seq<CacheEntry<V>>, key: Seq<char>, j: int)
    requires
        0 <= j < entries.len(),
        entries[j].key@ == key,
        forall|k: int| 0 <= k < j ==> (#[trigger] entries[k]).key@ != key,
    ensures
        find_entry(entries, key) == Some(j),
{
    lemma_find_from(entries, key, 0);
    match find_entry(entries, key) {
        Some(m) => {
            if m < j {
                assert(entries[m].key@ != key);
            } else if m > j {
                assert(entries[j].key@ != key);
            }
        },
        None => {
            assert(entries[j].key@ != key);
        },
    }
}

/// `n` requests for `key` at time `now`, one after another, with no fetch
/// finishing in between: the state after them and how many became fetches.
pub open spec fn run_requests<V>(s: CacheState<V>, key: Seq<char>, now: u64, n: nat) -> (CacheState<V>, nat)
    decreases n,
{
    if n == 0 {
        (s, 0)
    } else {
        let (mid, fetches) = run_requests(s, key, now, (n - 1) as nat);
        let (next, action) = begin_step(mid, key, now);
        (next, fetches + if action == RequestAction::Fetch {
            1nat
        } else {
            0nat
        })
    }
}

/// Requests for a key that has no fresh entry and no fetch under way,
/// arriving before any fetch finishes, make exactly one fetch; each of them
/// is counted once, and only one of them as a miss.
pub proof fn lemma_coalesced_requests<V>(s: CacheState<V>, key: Seq<char>, now: u64, n: nat)
    requires
        n >= 1,
        !fresh_hit(s, key, now),
        !s.in_flight.contains(key),
    ensures
        run_requests(s, key, now, n).1 == 1,
        run_requests(s, key, now, n).0.hits + run_requests(s, key, now, n).0.misses == s.hits
            + s.misses + n,
        run_requests(s, key, now, n).0.misses == s.misses + 1,
        run_requests(s, key, now, n).0.entries == s.entries,
    decreases n,
{
    if n == 1 {
        assert(run_requests(s, key, now, 0) == (s, 0nat));
    } else {
        lemma_coalesced_requests(s, key, now, (n - 1) as nat);
        let mid = run_requests(s, key, now, (n - 1) as nat).0;
        lemma_coalesced_keeps_fetch(s, key, now, (n - 1) as nat);
        assert(mid.in_flight.contains(key));
        assert(!fresh_hit(mid, key, now));
    }
}

proof fn lemma_coalesced_keeps_fetch<V>(s: CacheState<V>, key: Seq<char>, now: u64, n: nat)
    requires
        n >= 1,
        !fresh_hit(s, key, now),
        !s.in_flight.contains(key),
    ensures
        run_requests(s, key, now, n).0.in_flight.contains(key),
        run_requests(s, key, now, n).0.entries == s.entries,
    decreases n,
{
    if n == 1 {
        assert(run_requests(s, key, now, 0) == (s, 0nat));
        assert(s.in_flight.push(key)[s.in_flight.len() as int] == key);
    } else {
        lemma_coalesced_keeps_fetch(s, key, now, (n - 1) as nat);
    }
}

/// Within its time to live a cached value is served as it is: the request
/// is a hit and the entries stay unchanged.
pub proof fn lemma_fresh_value_served<V>(s: CacheState<V>, key: Seq<char>, now: u64)
    requires
        fresh_hit(s, key, now),
    ensures
        begin_step(s, key, now).1 == RequestAction::Hit,
        begin_step(s, key, now).0.entries == s.entries,
{
}

/// Past its time to live a cached value is fetched again, once however many
/// requests arrive before the fetch ends; the fetched value then replaces it
/// and is what the key serves.
pub proof fn lemma_expired_value_refetched<V>(
    s: CacheState<V>,
    key: String,
    now: u64,
    n: nat,
    v: V,
    ttl: Option<u64>,
)
    requires
        n >= 1,
        find_entry(s.entries, key@) is Some,
        !is_fresh(s.entries[find_entry(s.entries, key@).unwrap()], now),
        !s.in_flight.contains(key@),
    ensures
        run_requests(s, key@, now, n).1 == 1,
        ({
            let after = complete_step(run_requests(s, key@, now, n).0, key, Some(v), now, ttl).0;
            &&& find_entry(after.entries, key@) == find_entry(s.entries, key@)
            &&& after.entries[find_entry(s.entries, key@).unwrap()].value == v
            &&& after.entries[find_entry(s.entries, key@).unwrap()].created_at == now
            &&& !after.in_flight.contains(key@)
        }),
{
    lemma_coalesced_requests(s, key@, now, n);
    let mid = run_requests(s, key@, now, n).0;
    let i = find_entry(s.entries, key@).unwrap();
    let after = complete_step(mid, key, Some(v), now, ttl).0;
    lemma_find_from(s.entries, key@, 0);
    assert forall|k: int| 0 <= k < i implies (#[trigger] after.entries[k]).key@ != key@ by {
        assert(s.entries[k].key@ != key@);
    }
    lemma_find_first(after.entries, key@, i);
    if after.in_flight.contains(key@) {
        let j = choose|j: int| 0 <= j < after.in_flight.len() && after.in_flight[j] == key@;
        mid.in_flight.lemma_filter_pred(other_than(key@), j);
    }
}

/// At most one entry is cached per key.
pub open spec fn keys_unique<V>(entries: Seq<CacheEntry<V>>) -> bool {
    forall|i: int, j: int|
        0 <= i < j < entries.len() ==> (#[trigger] entries[i]).key@ != (#[trigger] entries[j]).key@
}

/// Requests and finished fetches keep at most one entry per key.
pub proof fn lemma_steps_keep_keys_unique<V>(
    s: CacheState<V>,
    key: String,
    now: u64,
    outcome: Option<V>,
    ttl: Option<u64>,
)
    requires
        keys_unique(s.entries),
    ensures
        keys_unique(begin_step(s, key@, now).0.entries),
        keys_unique(complete_step(s, key, outcome, now, ttl).0.entries),
{
    lemma_find_from(s.entries, key@, 0);
}

/// The router's cache: entries unique by key, the keys being fetched, and
/// the hit and miss counters.
pub struct RouterCache<V> {
    entries: Vec<CacheEntry<V>>,
    in_flight: Vec<String>,
    hits: u64,
    misses: u64,
}

impl<V> View for RouterCache<V> {
    type V = CacheState<V>;

    closed spec fn view(&self) -> CacheState<V> {
        CacheState {
            entries: self.entries@,
            in_flight: self.in_flight@.map_values(|s: String| s@),
            hits: self.hits as int,
            misses: self.misses as int,
        }
    }
}

impl<V> RouterCache<V> {
    /// An empty cache with zero counters.
    pub fn new() -> (r: Self)
        ensures
            r@.entries.len() == 0,
            r@.in_flight.len() == 0,
            r@.hits == 0,
            r@.misses == 0,
    {
        RouterCache { entries: Vec::new(), in_flight: Vec::new(), hits: 0, misses: 0 }
    }

    fn locate(&self, key: &str) -> (r: Option<usize>)
        ensures
            r matches Some(i) ==> i < self@.entries.len() && find_entry(self@.entries, key@) == Some(
                i as int,
            ),
            r is None ==> find_entry(self@.entries, key@) is None,
    {
        let mut i: usize = 0;
        while i < self.entries.len()
            invariant
                i <= self.entries@.len(),
                find_entry(self.entries@, key@) == find_from(self.entries@, key@, i as int),
            decreases self.entries@.len() - i,
        {
            if str_equal(self.entries[i].key.as_str(), key) {
                return Some(i);
            }
            i = i + 1;
        }
        None
    }

    /// Whether a fetch of `key` is under way.
    pub fn is_fetching(&self, key: &str) -> (r: bool)
        ensures
            r == self@.in_flight.contains(key@),
    {
        let mut i: usize = 0;
        while i < self.in_flight.len()
            invariant
                i <= self.in_flight@.len(),
                forall|j: int| 0 <= j < i ==> (#[trigger] self.in_flight@[j])@ != key@,
            decreases self.in_flight@.len() - i,
        {
            if str_equal(self.in_flight[i].as_str(), key) {
                assert(self@.in_flight[i as int] == key@);
                return true;
            }
            i = i + 1;
        }
        proof {
            if self@.in_flight.contains(key@) {
                let j = choose|j: int| 0 <= j < self@.in_flight.len() && self@.in_flight[j] == key@;
                assert(self.in_flight@[j]@ == key@);
            }
        }
        false
    }

    /// Starts a request for `key` at time `now` and says what the caller
    /// must do: read the cached value, wait for the fetch under way, or fetch.
    pub fn begin_request(&mut self, key: &str, now: u64) -> (r: RequestAction)
        requires
            old(self)@.hits < u64::MAX,
            old(self)@.misses < u64::MAX,
        ensures
            (final(self)@, r) == begin_step(old(self)@, key@, now),
    {
        let found = self.locate(key);
        let fresh = match found {
            Some(i) => {
                let e = &self.entries[i];
                match e.ttl {
                    None => true,
                    Some(t) => (now as u128) < e.created_at as u128 + t as u128,
                }
            },
            None => false,
        };
        if fresh {
            self.hits = self.hits + 1;
            RequestAction::Hit
        } else if self.is_fetching(key) {
            self.hits = self.hits + 1;
            RequestAction::Attach
        } else {
            let owned = key.to_owned();
            self.in_flight.push(owned);
            self.misses = self.misses + 1;
            proof {
                assert(self@.in_flight =~= old(self)@.in_flight.push(key@));
            }
            RequestAction::Fetch
        }
    }

    /// Ends the fetch of `key` at time `now` with the fetched value, or with
    /// `None` where the fetch failed; a stored value stays fresh for `ttl`.
    pub fn complete_fetch(&mut self, key: String, outcome: Option<V>, now: u64, ttl: Option<u64>) -> (r:
        FetchOutcome)
        ensures
            (final(self)@, r) == complete_step(old(self)@, key, outcome, now, ttl),
    {
        let keys = Ghost(self@.in_flight);
        let mut kept: Vec<String> = Vec::new();
        let mut i: usize = 0;
        while i < self.in_flight.len()
            invariant
                i <= self.in_flight@.len(),
                keys@ == self@.in_flight,
                kept@.map_values(|s: String| s@) == keys@.take(i as int).filter(other_than(key@)),
            decreases self.in_flight@.len() - i,
        {
            let k = &self.in_flight[i];
            proof {
                assert(keys@.take(i + 1) =~= keys@.take(i as int).push(k@));
                keys@.take(i as int).lemma_filter_push(k@, other_than(key@));
            }
            if !(*k == key) {
                let c = k.clone();
                kept.push(c);
                proof {
                    assert(kept@.map_values(|s: String| s@) =~= keys@.take(i as int).filter(
                        other_than(key@),
                    ).push(k@));
                }
            }
            i = i + 1;
        }
        assert(keys@.take(i as int) =~= keys@);
        self.in_flight = kept;
        let found = self.locate(key.as_str());
        match outcome {
            Some(v) => {
                let e = CacheEntry { key, value: v, created_at: now, ttl };
                match found {
                    Some(i) => {
                        self.entries[i] = e;
                    },
                    None => {
                        self.entries.push(e);
                    },
                }
                FetchOutcome::Stored
            },
            None => {
                if found.is_some() {
                    FetchOutcome::ServedStale
                } else {
                    FetchOutcome::Failed
                }
            },
        }
    }

    /// The value cached under `key`, fresh or stale.
    pub fn get(&self, key: &str) -> (r: Option<&V>)
        ensures
            match find_entry(self@.entries, key@) {
                Some(i) => r is Some && *r.unwrap() == self@.entries[i].value,
                None => r is None,
            },
    {
        match self.locate(key) {
            Some(i) => Some(&self.entries[i].value),
            None => None,
        }
    }

    /// The counters and the number of cached keys.
    pub fn cache_stats(&self) -> (r: CacheStats)
        ensures
            r.enabled,
            r.entries == self@.entries.len(),
            r.hits == self@.hits,
            r.misses == self@.misses,
    {
        CacheStats {
            enabled: true,
            entries: self.entries.len(),
            hits: self.hits,
            misses: self.misses,
        }
    }
}

} // verus!
