//! Builtins that work on JSON objects.

use vstd::prelude::*;
use crate::json::{
    Json, JVal, jval, jvals, jmembers, key_pos, member, unique_keys, find_member,
    lemma_jmembers, lemma_jvals, lemma_no_key, lemma_same_names, lemma_push_key, lemma_member_of,
};

verus! {

broadcast use vstd::std_specs::vec::group_vec_axioms, vstd::seq::group_seq_axioms;

/// The value `b` merged into `a`: objects merge member by member, `null` on
/// the right keeps the left, anything else on the right replaces the left.
pub open spec fn merge_val(a: JVal, b: JVal) -> JVal
    decreases b,
{
    match b {
        JVal::Null => a,
        JVal::Object(bm) => match a {
            JVal::Object(am) => JVal::Object(merge_members(am, bm)),
            _ => b,
        },
        _ => b,
    }
}

/// The members `bm` merged, in order, into the members `am`.
pub open spec fn merge_members(
    am: Seq<(Seq<char>, JVal)>,
    bm: Seq<(Seq<char>, JVal)>,
) -> Seq<(Seq<char>, JVal)>
    decreases bm,
{
    if bm.len() == 0 {
        am
    } else {
        let acc = merge_members(am, bm.drop_last());
        let k = bm.last().0;
        let v = bm.last().1;
        match key_pos(acc, k) {
            Some(i) => acc.update(i, (k, merge_val(acc[i].1, v))),
            None => acc.push((k, v)),
        }
    }
}

/// The documents `s` merged from left to right into an empty object.
pub open spec fn union_all(s: Seq<JVal>) -> JVal
    decreases s.len(),
{
    if s.len() == 0 {
        JVal::Object(Seq::empty())
    } else {
        merge_val(union_all(s.drop_last()), s.last())
    }
}

/// Merge the members `bm` into the members `am`.
fn merge_objects(am: Vec<(String, Json)>, bm: Vec<(String, Json)>) -> (r: Vec<(String, Json)>)
    ensures
        jmembers(r@) == merge_members(jmembers(am@), jmembers(bm@)),
    decreases bm,
{
    let ghost orig = bm@;
    proof {
        lemma_jmembers(orig);
        assert(jmembers(orig).take(0) =~= Seq::<(Seq<char>, JVal)>::empty());
    }
    let mut acc = am;
    let mut rest = bm;
    let total: usize = rest.len();
    let mut i: usize = 0;
    while rest.len() > 0
        invariant
            i <= orig.len(),
            orig.len() == total,
            rest@ == orig.subrange(i as int, orig.len() as int),
            jmembers(acc@) == merge_members(jmembers(am@), jmembers(orig).take(i as int)),
            jmembers(orig).len() == orig.len(),
            forall|j: int|
                0 <= j < orig.len() ==> #[trigger] jmembers(orig)[j] == (
                    orig[j].0@,
                    jval(orig[j].1),
                ),
            decreases_to!(bm => orig),
        decreases rest.len(),
    {
        assert(i < orig.len());
        let (k, v) = rest.remove(0);
        proof {
            assert(orig[i as int] == (k, v));
            assert(decreases_to!(bm => v)) by {
                assert(decreases_to!(orig => orig[i as int]));
            }
            let t = jmembers(orig).take(i as int + 1);
            assert(t.drop_last() =~= jmembers(orig).take(i as int));
            assert(t.last() == (k@, jval(v)));
            lemma_jmembers(acc@);
        }
        match find_member(&acc, &k) {
            Some(p) => {
                let (kk, prev) = acc.remove(p);
                let merged = merge_value(prev, v);
                acc.insert(p, (kk, merged));
                proof {
                    lemma_jmembers(acc@);
                    assert(jmembers(acc@) =~= merge_members(
                        jmembers(am@),
                        jmembers(orig).take(i as int),
                    ).update(p as int, (k@, merge_val(
                        merge_members(jmembers(am@), jmembers(orig).take(i as int))[p as int].1,
                        jval(v),
                    ))));
                }
            },
            None => {
                acc.push((k, v));
                proof {
                    lemma_jmembers(acc@);
                    assert(jmembers(acc@) =~= merge_members(
                        jmembers(am@),
                        jmembers(orig).take(i as int),
                    ).push((k@, jval(v))));
                }
            },
        }
        i = i + 1;
        proof {
            assert(rest@ =~= orig.subrange(i as int, orig.len() as int));
        }
    }
    proof {
        assert(jmembers(orig).take(i as int) =~= jmembers(orig));
    }
    acc
}

/// Merge `b` into `a`.
fn merge_value(a: Json, b: Json) -> (r: Json)
    ensures
        r@ == merge_val(a@, b@),
    decreases b,
{
    match b {
        Json::Null => a,
        Json::Object(bm) => match a {
            Json::Object(am) => Json::Object(merge_objects(am, bm)),
            _ => Json::Object(bm),
        },
        other => other,
    }
}

/// Creates a new object that is the asymmetric union of all objects merged
/// from left to right. For example: `object.union_n([{"a": 1}, {"b": 2},
/// {"a": 3}])` results in `{"a": 3, "b": 2}`.
pub fn union_n(objects: Vec<Json>) -> (r: Json)
    ensures
        r@ == union_all(jvals(objects@)),
{
    let ghost orig = objects@;
    proof {
        lemma_jvals(orig);
        assert(jvals(orig).take(0) =~= Seq::<JVal>::empty());
    }
    let mut result = Json::Object(Vec::new());
    let mut rest = objects;
    let total: usize = rest.len();
    let mut i: usize = 0;
    proof {
        assert(jmembers(Seq::<(String, Json)>::empty()) =~= Seq::<(Seq<char>, JVal)>::empty());
    }
    while rest.len() > 0
        invariant
            i <= orig.len(),
            orig.len() == total,
            rest@ == orig.subrange(i as int, orig.len() as int),
            result@ == union_all(jvals(orig).take(i as int)),
            jvals(orig).len() == orig.len(),
            forall|j: int| 0 <= j < orig.len() ==> #[trigger] jvals(orig)[j] == jval(orig[j]),
        decreases rest.len(),
    {
        assert(i < orig.len());
        let next = rest.remove(0);
        proof {
            let t = jvals(orig).take(i as int + 1);
            assert(t.drop_last() =~= jvals(orig).take(i as int));
        }
        result = merge_value(result, next);
        i = i + 1;
        proof {
            assert(rest@ =~= orig.subrange(i as int, orig.len() as int));
        }
    }
    proof {
        assert(jvals(orig).take(i as int) =~= jvals(orig));
    }
    result
}

} // verus!

verus! {

/// What a member of a merge holds, from what the two sides hold.
pub open spec fn combined(x: Option<JVal>, y: Option<JVal>) -> Option<JVal> {
    match (x, y) {
        (Some(x), Some(y)) => Some(merge_val(x, y)),
        (Some(x), None) => Some(x),
        (None, y) => y,
    }
}

/// Merging the members `bm`, whose names are unique, into `am` gives each
/// name the combination of what the two sides hold under it.
pub proof fn lemma_merge_members(am: Seq<(Seq<char>, JVal)>, bm: Seq<(Seq<char>, JVal)>, k: Seq<char>)
    requires
        unique_keys(bm),
    ensures
        member(merge_members(am, bm), k) == combined(member(am, k), member(bm, k)),
    decreases bm.len(),
{
    if bm.len() == 0 {
        lemma_no_key(bm, k);
    } else {
        let bp = bm.drop_last();
        let kk = bm.last().0;
        let v = bm.last().1;
        assert(unique_keys(bp));
        lemma_merge_members(am, bp, k);
        let acc = merge_members(am, bp);
        assert(bm =~= bp.push((kk, v)));
        lemma_push_key(bp, (kk, v), k);
        if kk == k {
            assert forall|j: int| 0 <= j < bp.len() implies bp[j].0 != k by {
                assert(bm[j].0 != bm[bm.len() - 1].0);
            }
            lemma_no_key(bp, k);
        }
        match key_pos(acc, kk) {
            Some(i) => {
                lemma_member_of(acc, kk, i);
                let n = acc.update(i, (kk, merge_val(acc[i].1, v)));
                lemma_same_names(acc, n, k);
                if kk != k {
                    if let Some(p) = key_pos(acc, k) {
                        lemma_member_of(acc, k, p);
                    }
                }
            },
            None => {
                lemma_push_key(acc, (kk, v), k);
                if let Some(p) = key_pos(acc, k) {
                    lemma_member_of(acc, k, p);
                }
            },
        }
    }
}

/// For `object.union_n([a, b])` over two objects whose member names are
/// unique: a member that only `a` has is kept, one that only `b` has is added,
/// and one that both have holds the value of `b` merged into that of `a`.
/// That merge recurses where both are objects, keeps the left where the right
/// is `null`, and otherwise takes the right, arrays included (they replace, with
/// no concatenation).
pub proof fn lemma_union_of_two(a: JVal, b: JVal, k: Seq<char>)
    requires
        a is Object,
        b is Object,
        unique_keys(a->Object_0),
        unique_keys(b->Object_0),
    ensures
        union_all(seq![a, b]) is Object,
        member(union_all(seq![a, b])->Object_0, k) == combined(
            member(a->Object_0, k),
            member(b->Object_0, k),
        ),
        forall|x: JVal| #[trigger] merge_val(x, JVal::Null) == x,
        forall|x: JVal, y: JVal|
            !(x is Object && y is Object) && !(y is Null) ==> #[trigger] merge_val(x, y) == y,
{
    let s = seq![a, b];
    assert(s.drop_last() =~= seq![a]);
    assert(seq![a].drop_last() =~= Seq::<JVal>::empty());
    let empty = Seq::<(Seq<char>, JVal)>::empty();
    let am = a->Object_0;
    let bm = b->Object_0;
    lemma_merge_members(empty, am, k);
    lemma_no_key(empty, k);
    lemma_merge_members(merge_members(empty, am), bm, k);
    assert(union_all(seq![a]) == merge_val(union_all(Seq::<JVal>::empty()), a));
    assert(union_all(seq![a]) == JVal::Object(merge_members(empty, am)));
    assert(union_all(s) == merge_val(union_all(seq![a]), b));
    assert(union_all(s) == JVal::Object(merge_members(merge_members(empty, am), bm)));
}

} // verus!
