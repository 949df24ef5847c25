//! The evaluation context that builtins see: a clock frozen for one
//! evaluation, a random source and a per-evaluation cache.

use vstd::prelude::*;
use crate::json::{Json, JVal, jval};

verus! {

/// A key of the evaluation cache: the builtin that stored the value and its
/// arguments.
#[derive(Debug)]
pub enum CacheKey {
    /// `rand.intn(str, n)`
    RandIntn(String, i64),
    /// `uuid.rfc4122(k)`
    Uuid(String),
}

/// The mathematical value of a cache key.
pub enum KeyV {
    RandIntn(Seq<char>, i64),
    Uuid(Seq<char>),
}

impl View for CacheKey {
    type V = KeyV;

    open spec fn view(&self) -> KeyV {
        match self {
            CacheKey::RandIntn(s, n) => KeyV::RandIntn(s@, *n),
            CacheKey::Uuid(s) => KeyV::Uuid(s@),
        }
    }
}

/// Whether two keys are the same.
pub fn same_key(a: &CacheKey, b: &CacheKey) -> (r: bool)
    ensures
        r == (a@ == b@),
{
    match (a, b) {
        (CacheKey::RandIntn(s1, n1), CacheKey::RandIntn(s2, n2)) => *n1 == *n2 && *s1 == *s2,
        (CacheKey::Uuid(s1), CacheKey::Uuid(s2)) => *s1 == *s2,
        _ => false,
    }
}

/// What the entries `s` hold under `k`: the last one stored wins.
pub open spec fn lookup_last(s: Seq<(CacheKey, Json)>, k: KeyV) -> Option<JVal>
    decreases s.len(),
{
    if s.len() == 0 {
        None
    } else if s.last().0@ == k {
        Some(jval(s.last().1))
    } else {
        lookup_last(s.drop_last(), k)
    }
}

/// A cache of values computed during one evaluation.
#[derive(Debug)]
pub struct EvalCache {
    entries: Vec<(CacheKey, Json)>,
}

impl EvalCache {
    /// What the cache holds under `k`.
    pub closed spec fn get_spec(&self, k: KeyV) -> Option<JVal> {
        lookup_last(self.entries@, k)
    }

    /// An empty cache.
    pub fn new() -> (r: EvalCache)
        ensures
            forall|k: KeyV| #[trigger] r.get_spec(k) is None,
    {
        EvalCache { entries: Vec::new() }
    }

    /// Look up the value stored under `key`.
    pub fn get(&self, key: &CacheKey) -> (r: Option<&Json>)
        ensures
            r is Some <==> self.get_spec(key@) is Some,
            r is Some ==> self.get_spec(key@) == Some(r.unwrap()@),
    {
        let mut i: usize = self.entries.len();
        proof {
            assert(self.entries@.take(i as int) =~= self.entries@);
        }
        while i > 0
            invariant
                i <= self.entries.len(),
                lookup_last(self.entries@, key@) == lookup_last(self.entries@.take(i as int), key@),
            decreases i,
        {
            proof {
                assert(self.entries@.take(i as int).drop_last() =~= self.entries@.take(i as int - 1));
                assert(self.entries@.take(i as int).last() == self.entries@[i as int - 1]);
            }
            if same_key(&self.entries[i - 1].0, key) {
                return Some(&self.entries[i - 1].1);
            }
            i = i - 1;
        }
        None
    }

    /// Store `value` under `key`.
    pub fn set(&mut self, key: CacheKey, value: Json)
        ensures
            forall|k: KeyV|
                #[trigger] final(self).get_spec(k) == if k == key@ {
                    Some(value@)
                } else {
                    old(self).get_spec(k)
                },
    {
        let ghost before = self.entries@;
        let ghost kv = key@;
        let ghost vv = value@;
        self.entries.push((key, value));
        proof {
            assert(self.entries@.drop_last() =~= before);
        }
    }
}

/// Relies on `std::time::SystemTime::now`: the time of day, in nanoseconds
/// since the UNIX epoch. Nothing is promised of its value.
#[verifier::external_body]
fn current_time_ns() -> (r: i64) {
    match std::time::SystemTime::now().duration_since(std::time::UNIX_EPOCH) {
        Ok(d) => i64::try_from(d.as_nanos()).unwrap_or(i64::MAX),
        Err(_) => 0,
    }
}

/// Relies on `rand::Rng::gen_range` over `rand::thread_rng`: a value drawn
/// from `[0, n)`.
#[verifier::external_body]
fn thread_draw_below(n: i64) -> (r: i64)
    requires
        n > 0,
    ensures
        0 <= r < n,
{
    rand::Rng::gen_range(&mut rand::thread_rng(), 0..n)
}

/// What the first draw from `[0, n)` of a generator seeded with `seed` gives.
pub uninterp spec fn seeded_draw(seed: u64, n: i64) -> i64;

/// Relies on `rand::Rng::gen_range` over a `rand::rngs::StdRng` made by
/// `SeedableRng::seed_from_u64`: a value in `[0, n)` that depends on the seed
/// and the bound alone.
#[verifier::external_body]
fn seeded_draw_below(seed: u64, n: i64) -> (r: i64)
    requires
        n > 0,
    ensures
        0 <= r < n,
        r == seeded_draw(seed, n),
{
    let mut rng = <rand::rngs::StdRng as rand::SeedableRng>::seed_from_u64(seed);
    rand::Rng::gen_range(&mut rng, 0..n)
}

/// The capabilities that builtins need from the host during an evaluation.
pub trait EvaluationContext {
    /// What the per-evaluation cache holds under `k`.
    spec fn cached(&self, k: KeyV) -> Option<JVal>;

    /// The time at which the current evaluation started.
    spec fn clock(&self) -> i64;

    /// Notify the context that an evaluation starts: the cache is emptied.
    fn evaluation_start(&mut self)
        ensures
            forall|k: KeyV| #[trigger] final(self).cached(k) is None;

    /// The time at which the current evaluation started, in nanoseconds since
    /// the UNIX epoch.
    fn now_ns(&self) -> (r: i64)
        ensures
            r == self.clock();

    /// Draw a value from `[0, n)`.
    fn draw_below(&mut self, n: i64) -> (r: i64)
        requires
            n > 0,
        ensures
            0 <= r < n,
            final(self).clock() == old(self).clock(),
            forall|k: KeyV| #[trigger] final(self).cached(k) == old(self).cached(k);

    /// Get a value from the evaluation cache.
    fn cache_get(&self, key: &CacheKey) -> (r: Option<&Json>)
        ensures
            r is Some <==> self.cached(key@) is Some,
            r is Some ==> self.cached(key@) == Some(r.unwrap()@);

    /// Push a value to the evaluation cache.
    fn cache_set(&mut self, key: CacheKey, value: Json)
        ensures
            final(self).clock() == old(self).clock(),
            forall|k: KeyV|
                #[trigger] final(self).cached(k) == if k == key@ {
                    Some(value@)
                } else {
                    old(self).cached(k)
                };
}

/// The default evaluation context: the real clock, read when an evaluation
/// starts, and the thread's random generator.
#[derive(Debug)]
pub struct DefaultContext {
    cache: EvalCache,
    evaluation_time: i64,
}

impl DefaultContext {
    /// A context whose clock reads the UNIX epoch until an evaluation starts.
    pub fn new() -> (r: DefaultContext)
        ensures
            r.clock() == 0,
            forall|k: KeyV| #[trigger] r.cached(k) is None,
    {
        DefaultContext { cache: EvalCache::new(), evaluation_time: 0 }
    }
}

impl EvaluationContext for DefaultContext {
    closed spec fn cached(&self, k: KeyV) -> Option<JVal> {
        self.cache.get_spec(k)
    }

    closed spec fn clock(&self) -> i64 {
        self.evaluation_time
    }

    fn evaluation_start(&mut self) {
        self.cache = EvalCache::new();
        self.evaluation_time = current_time_ns();
    }

    fn now_ns(&self) -> (r: i64) {
        self.evaluation_time
    }

    fn draw_below(&mut self, n: i64) -> (r: i64) {
        thread_draw_below(n)
    }

    fn cache_get(&self, key: &CacheKey) -> (r: Option<&Json>) {
        self.cache.get(key)
    }

    fn cache_set(&mut self, key: CacheKey, value: Json) {
        self.cache.set(key, value);
    }
}

/// 2020-07-14T12:53:22Z, in nanoseconds since the UNIX epoch.
pub const TEST_CLOCK_NS: i64 = 1_594_731_202_000_000_000;

/// A context for tests: a frozen clock and a seeded random generator.
#[derive(Debug)]
pub struct TestContext {
    inner: DefaultContext,
    clock: i64,
    seed: u64,
}

impl TestContext {
    /// A context whose clock reads 2020-07-14T12:53:22Z and whose generator is
    /// seeded with 0.
    pub fn new() -> (r: TestContext)
        ensures
            r.clock() == TEST_CLOCK_NS,
            r.seed() == 0,
            forall|k: KeyV| #[trigger] r.cached(k) is None,
    {
        let inner = DefaultContext::new();
        assert forall|k: KeyV| #[trigger] inner.cache.get_spec(k) is None by {
            assert(inner.cached(k) is None);
        }
        TestContext { inner, clock: TEST_CLOCK_NS, seed: 0 }
    }

    /// The seed of the random generator.
    pub closed spec fn seed(&self) -> u64 {
        self.seed
    }
}

impl EvaluationContext for TestContext {
    closed spec fn cached(&self, k: KeyV) -> Option<JVal> {
        self.inner.cache.get_spec(k)
    }

    closed spec fn clock(&self) -> i64 {
        self.clock
    }

    fn evaluation_start(&mut self) {
        self.inner.cache = EvalCache::new();
    }

    fn now_ns(&self) -> (r: i64) {
        self.clock
    }

    fn draw_below(&mut self, n: i64) -> (r: i64) {
        seeded_draw_below(self.seed, n)
    }

    fn cache_get(&self, key: &CacheKey) -> (r: Option<&Json>) {
        self.inner.cache.get(key)
    }

    fn cache_set(&mut self, key: CacheKey, value: Json) {
        self.inner.cache.set(key, value);
    }
}

} // verus!
