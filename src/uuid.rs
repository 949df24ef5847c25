//! Builtins to generate UUIDs.

use vstd::prelude::*;
use crate::context::{CacheKey, EvaluationContext, KeyV};
use crate::crypto::{hex_encode, hex_text};
use crate::error::BuiltinError;
use crate::json::{Json, JVal};
use crate::text::push_char;

verus! {

/// `b` with the version nibble set to 4 and the variant bits set to `10`, as
/// a random (version 4) UUID has them.
pub open spec fn v4_bytes(b: Seq<u8>) -> Seq<u8> {
    b.update(6, (b[6] & 0x0f) | 0x40).update(8, (b[8] & 0x3f) | 0x80)
}

/// The hyphenated lowercase text of the 16 bytes `b`: groups of 4, 2, 2, 2
/// and 6 bytes.
pub open spec fn uuid_text(b: Seq<u8>) -> Seq<char> {
    hex_text(b.subrange(0, 4)) + seq!['-'] + hex_text(b.subrange(4, 6)) + seq!['-']
        + hex_text(b.subrange(6, 8)) + seq!['-'] + hex_text(b.subrange(8, 10)) + seq!['-']
        + hex_text(b.subrange(10, 16))
}

/// `t` is the text of a random (version 4) UUID.
pub open spec fn is_v4_text(t: Seq<char>) -> bool {
    exists|b: Seq<u8>| b.len() == 16 && t == uuid_text(v4_bytes(b))
}

/// Append the hexadecimal text of `b[from..to]` to `out`.
fn push_hex(out: &mut String, b: &Vec<u8>, from: usize, to: usize)
    requires
        from <= to <= b.len(),
    ensures
        final(out)@ == old(out)@ + hex_text(b@.subrange(from as int, to as int)),
{
    let mut part: Vec<u8> = Vec::new();
    let mut i = from;
    while i < to
        invariant
            from <= i <= to <= b.len(),
            part@ == b@.subrange(from as int, i as int),
        decreases to - i,
    {
        part.push(b[i]);
        i = i + 1;
        assert(part@ =~= b@.subrange(from as int, i as int));
    }
    let h = hex_encode(part.as_slice());
    let hc = crate::text::chars_of(h.as_str());
    let mut j: usize = 0;
    let ghost start = out@;
    while j < hc.len()
        invariant
            j <= hc.len(),
            hc@ == h@,
            out@ == start + hc@.take(j as int),
        decreases hc.len() - j,
    {
        push_char(out, hc[j]);
        j = j + 1;
        assert(out@ =~= start + hc@.take(j as int));
    }
    assert(hc@.take(j as int) =~= hc@);
}

/// What `uuid.rfc4122(k)` does to a context going from `c0` to `c1` and
/// returning `r`.
pub open spec fn uuid_ensures<C: EvaluationContext>(
    c0: C,
    c1: C,
    k: Seq<char>,
    r: Result<String, BuiltinError>,
) -> bool {
    &&& c1.clock() == c0.clock()
    &&& forall|o: KeyV| o != KeyV::Uuid(k) ==> #[trigger] c1.cached(o) == c0.cached(o)
    &&& match c0.cached(KeyV::Uuid(k)) {
        Some(JVal::Str(s)) => r is Ok && r.unwrap()@ == s && c1.cached(KeyV::Uuid(k))
            == c0.cached(KeyV::Uuid(k)),
        Some(_) => r == Err::<String, BuiltinError>(BuiltinError::CacheMismatch) && c1.cached(
            KeyV::Uuid(k),
        ) == c0.cached(KeyV::Uuid(k)),
        None => r is Ok && is_v4_text(r.unwrap()@) && c1.cached(KeyV::Uuid(k)) == Some(
            JVal::Str(r.unwrap()@),
        ),
    }
}

/// Returns a new version 4 UUID. For any given `k`, the output is the same
/// throughout an evaluation.
pub fn rfc4122<C: EvaluationContext>(ctx: &mut C, k: String) -> (r: Result<String, BuiltinError>)
    ensures
        uuid_ensures(*old(ctx), *final(ctx), k@, r),
{
    let key = CacheKey::Uuid(k);
    match ctx.cache_get(&key) {
        Some(Json::Str(s)) => {
            return Ok(s.clone());
        },
        Some(_) => {
            return Err(BuiltinError::CacheMismatch);
        },
        None => {},
    }
    let mut b: Vec<u8> = Vec::new();
    let mut i: usize = 0;
    while i < 16
        invariant
            i <= 16,
            b@.len() == i,
            ctx.clock() == old(ctx).clock(),
            forall|o: KeyV| #[trigger] ctx.cached(o) == old(ctx).cached(o),
        decreases 16 - i,
    {
        let v = ctx.draw_below(256);
        b.push(v as u8);
        i = i + 1;
    }
    let ghost drawn = b@;
    let b6 = (b[6] & 0x0f) | 0x40;
    let b8 = (b[8] & 0x3f) | 0x80;
    b.set(6, b6);
    b.set(8, b8);
    assert(b@ =~= v4_bytes(drawn));
    let mut out = String::new();
    push_hex(&mut out, &b, 0, 4);
    push_char(&mut out, '-');
    push_hex(&mut out, &b, 4, 6);
    push_char(&mut out, '-');
    push_hex(&mut out, &b, 6, 8);
    push_char(&mut out, '-');
    push_hex(&mut out, &b, 8, 10);
    push_char(&mut out, '-');
    push_hex(&mut out, &b, 10, 16);
    assert(out@ =~= uuid_text(v4_bytes(drawn)));
    let stored = out.clone();
    ctx.cache_set(key, Json::Str(stored));
    Ok(out)
}

/// Within one evaluation, two calls of `uuid.rfc4122` with the same key
/// return the same result.
pub proof fn lemma_uuid_memoised<C: EvaluationContext>(
    c0: C,
    c1: C,
    c2: C,
    k: Seq<char>,
    r1: Result<String, BuiltinError>,
    r2: Result<String, BuiltinError>,
)
    requires
        uuid_ensures(c0, c1, k, r1),
        uuid_ensures(c1, c2, k, r2),
    ensures
        r1 is Ok ==> r2 is Ok && r2.unwrap()@ == r1.unwrap()@,
        r1 is Err ==> r2 is Err,
{
}

} // verus!
