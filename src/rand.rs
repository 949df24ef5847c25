//! Builtins used to generate pseudo-random values.

use vstd::prelude::*;
use crate::context::{CacheKey, EvaluationContext, KeyV};
use crate::error::BuiltinError;
use crate::json::{Json, JVal};

verus! {

/// What `rand.intn(s, n)` does to a context going from `c0` to `c1` and
/// returning `r`.
pub open spec fn intn_ensures<C: EvaluationContext>(
    c0: C,
    c1: C,
    s: Seq<char>,
    n: i64,
    r: Result<i64, BuiltinError>,
) -> bool {
    let key = KeyV::RandIntn(s, n);
    &&& c1.clock() == c0.clock()
    &&& n == 0 ==> r == Ok::<i64, BuiltinError>(0)
    &&& n < 0 ==> r == Err::<i64, BuiltinError>(BuiltinError::NegativeBound)
    &&& n > 0 ==> match c0.cached(key) {
        Some(JVal::Int(v)) => if i64::MIN <= v <= i64::MAX {
            r == Ok::<i64, BuiltinError>(v as i64)
        } else {
            r == Err::<i64, BuiltinError>(BuiltinError::CacheMismatch)
        },
        Some(_) => r == Err::<i64, BuiltinError>(BuiltinError::CacheMismatch),
        None => r is Ok && 0 <= r.unwrap() < n,
    }
    &&& n > 0 && r is Ok ==> c1.cached(key) == Some(JVal::Int(r.unwrap() as int))
    &&& forall|k: KeyV| k != key ==> #[trigger] c1.cached(k) == c0.cached(k)
    &&& n > 0 && c0.cached(key) is Some ==> c1.cached(key) == c0.cached(key)
    &&& n <= 0 ==> c1.cached(key) == c0.cached(key)
}

/// Returns a random integer between `0` and `n` (`n` exclusive). If `n` is
/// `0`, the result is `0`. For any given argument pair (`str`, `n`), the
/// output is the same throughout an evaluation.
pub fn intn<C: EvaluationContext>(ctx: &mut C, str: String, n: i64) -> (r: Result<i64, BuiltinError>)
    ensures
        intn_ensures(*old(ctx), *final(ctx), str@, n, r),
{
    if n == 0 {
        return Ok(0);
    }
    if n < 0 {
        return Err(BuiltinError::NegativeBound);
    }
    let key = CacheKey::RandIntn(str, n);
    match ctx.cache_get(&key) {
        Some(Json::Int(v)) => {
            let v = *v;
            if i64::MIN as i128 <= v && v <= i64::MAX as i128 {
                return Ok(v as i64);
            } else {
                return Err(BuiltinError::CacheMismatch);
            }
        },
        Some(_) => {
            return Err(BuiltinError::CacheMismatch);
        },
        None => {},
    }
    let val = ctx.draw_below(n);
    ctx.cache_set(key, Json::Int(val as i128));
    Ok(val)
}

/// Within one evaluation, two calls of `rand.intn` with the same arguments
/// return the same result: once a value is drawn, it is kept in the cache
/// and handed out again.
pub proof fn lemma_intn_memoised<C: EvaluationContext>(
    c0: C,
    c1: C,
    c2: C,
    s: Seq<char>,
    n: i64,
    r1: Result<i64, BuiltinError>,
    r2: Result<i64, BuiltinError>,
)
    requires
        intn_ensures(c0, c1, s, n, r1),
        intn_ensures(c1, c2, s, n, r2),
    ensures
        r1 == r2,
{
}

} // verus!
