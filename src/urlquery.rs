//! Builtins to encode and decode URL-encoded strings.

use vstd::prelude::*;
use crate::error::BuiltinError;
use crate::json::{
    Json, JVal, jval, jvals, jmembers, key_pos, member, lemma_jmembers, find_member,
    lemma_same_names, lemma_push_key, lemma_member_of, };
use crate::text::{chars_of, string_of};

verus! {

broadcast use vstd::std_specs::vec::group_vec_axioms, vstd::seq::group_seq_axioms;

/// Either one value or an array of values.
#[derive(Debug)]
pub enum OneOrMany<T> {
    /// Represents only one value.
    One(T),
    /// Represents an array of values.
    Many(Vec<T>),
}

/// The `application/x-www-form-urlencoded` text of `s`: ASCII letters,
/// digits and `*-._` stay, a space becomes `+`, and every other byte of the
/// UTF-8 text becomes `%XX`.
pub uninterp spec fn form_encoded(s: Seq<char>) -> Seq<char>;

/// Relies on `form_urlencoded::byte_serialize` over the string's bytes; the
/// empty string encodes to the empty text.
#[verifier::external_body]
fn byte_serialize(x: &str) -> (r: String)
    ensures
        r@ == form_encoded(x@),
        x@.len() == 0 ==> r@.len() == 0,
{
    form_urlencoded::byte_serialize(x.as_bytes()).collect()
}

/// Encodes the input string into a URL-encoded string.
pub fn encode(x: String) -> (r: String)
    ensures
        r@ == form_encoded(x@),
{
    byte_serialize(x.as_str())
}

/// `s` with each `+` turned into a space.
pub open spec fn plus_as_space(s: Seq<char>) -> Seq<char> {
    s.map_values(|c: char| if c == '+' { ' ' } else { c })
}

/// `s` with each `%XX` turned into the byte it stands for, where the bytes
/// make UTF-8 text.
pub uninterp spec fn percent_decoded(s: Seq<char>) -> Option<Seq<char>>;

/// Relies on `urlencoding::decode`: `%XX` sequences become bytes and the
/// result must be UTF-8; a text without `%` comes back as it is.
#[verifier::external_body]
fn percent_decode(x: &str) -> (r: Option<String>)
    ensures
        r matches Some(s) ==> percent_decoded(x@) == Some(s@),
        r is None ==> percent_decoded(x@) is None,
        !x@.contains('%') ==> r is Some && r.unwrap()@ == x@,
{
    urlencoding::decode(x).ok().map(|s| s.into_owned())
}

/// Decodes a URL-encoded input string: `+` stands for a space and `%XX` for
/// a byte.
pub fn decode(x: String) -> (r: Result<String, BuiltinError>)
    ensures
        percent_decoded(plus_as_space(x@)) matches Some(s) ==> r is Ok && r.unwrap()@ == s,
        percent_decoded(plus_as_space(x@)) is None ==> r == Err::<String, BuiltinError>(BuiltinError::Parse),
{
    let mut cs = chars_of(x.as_str());
    let mut i: usize = 0;
    while i < cs.len()
        invariant
            i <= cs.len(),
            cs@.len() == x@.len(),
            forall|j: int| 0 <= j < i ==> cs@[j] == if x@[j] == '+' { ' ' } else { x@[j] },
            forall|j: int| i <= j < cs@.len() ==> cs@[j] == x@[j],
        decreases cs.len() - i,
    {
        if cs[i] == '+' {
            cs.set(i, ' ');
        }
        i = i + 1;
    }
    assert(cs@ =~= plus_as_space(x@));
    let spaced = string_of(&cs);
    match percent_decode(spaced.as_str()) {
        Some(s) => Ok(s),
        None => Err(BuiltinError::Parse),
    }
}

/// The texts of name-value pairs.
pub open spec fn pair_texts(ps: Seq<(String, String)>) -> Seq<(Seq<char>, Seq<char>)> {
    ps.map_values(|p: (String, String)| (p.0@, p.1@))
}

/// The name `k` paired with each of the values `vs`.
pub open spec fn keyed(k: Seq<char>, vs: Seq<String>) -> Seq<(Seq<char>, Seq<char>)> {
    vs.map_values(|v: String| (k, v@))
}

/// The name-value pairs of a URL query string, decoded, in order.
pub uninterp spec fn form_pairs(s: Seq<char>) -> Seq<(Seq<char>, Seq<char>)>;

/// Relies on `form_urlencoded::parse` over the string's bytes, with
/// `into_owned`: the decoded pairs, in order.
#[verifier::external_body]
fn parse_pairs(x: &str) -> (r: Vec<(String, String)>)
    ensures
        pair_texts(r@) == form_pairs(x@),
{
    form_urlencoded::parse(x.as_bytes()).into_owned().collect()
}

/// The values that the pairs `ps` give to the name `k`, in order.
pub open spec fn values_of(ps: Seq<(Seq<char>, Seq<char>)>, k: Seq<char>) -> Seq<JVal>
    decreases ps.len(),
{
    if ps.len() == 0 {
        Seq::empty()
    } else if ps.last().0 == k {
        values_of(ps.drop_last(), k).push(JVal::Str(ps.last().1))
    } else {
        values_of(ps.drop_last(), k)
    }
}

/// Some pair of `ps` has the name `k`.
pub open spec fn has_name(ps: Seq<(Seq<char>, Seq<char>)>, k: Seq<char>) -> bool {
    exists|i: int| 0 <= i < ps.len() && ps[i].0 == k
}

proof fn lemma_values_absent(ps: Seq<(Seq<char>, Seq<char>)>, k: Seq<char>)
    requires
        !has_name(ps, k),
    ensures
        values_of(ps, k) == Seq::<JVal>::empty(),
    decreases ps.len(),
{
    if ps.len() > 0 {
        assert(ps.last().0 != k) by {
            if ps.last().0 == k {
                assert(ps[ps.len() - 1].0 == k);
            }
        }
        assert(!has_name(ps.drop_last(), k)) by {
            if has_name(ps.drop_last(), k) {
                let w = choose|w: int| 0 <= w < ps.drop_last().len() && ps.drop_last()[w].0 == k;
                assert(ps[w].0 == k);
            }
        }
        lemma_values_absent(ps.drop_last(), k);
    }
}

/// Decodes the given URL query string into an object that maps each name to
/// the array of its values, in order.
pub fn decode_object(x: String) -> (r: Json)
    ensures
        r@ is Object,
        forall|k: Seq<char>| #[trigger] member(r@->Object_0, k) == if has_name(form_pairs(x@), k) {
            Some(JVal::Array(values_of(form_pairs(x@), k)))
        } else {
            None::<JVal>
        },
{
    let pairs = parse_pairs(x.as_str());
    let ghost ps = form_pairs(x@);
    let mut out: Vec<(String, Json)> = Vec::new();
    let mut rest = pairs;
    let total: usize = rest.len();
    let mut i: usize = 0;
    proof {
        assert(jmembers(out@) =~= Seq::<(Seq<char>, JVal)>::empty());
    }
    while rest.len() > 0
        invariant
            i <= total,
            total == ps.len(),
            pair_texts(rest@) == ps.subrange(i as int, total as int),
            forall|m: int| 0 <= m < out@.len() ==> #[trigger] out@[m].1 is Array,
            forall|k: Seq<char>| #[trigger] member(jmembers(out@), k) == if has_name(ps.take(i as int), k) {
                Some(JVal::Array(values_of(ps.take(i as int), k)))
            } else {
                None::<JVal>
            },
        decreases rest.len(),
    {
        assert(pair_texts(rest@).len() == rest@.len());
        assert(i < total);
        assert(pair_texts(rest@)[0] == ps[i as int]);
        let ghost rest_before = rest@;
        let (k, v) = rest.remove(0);
        proof {
            assert(rest@ =~= rest_before.subrange(1, rest_before.len() as int));
            assert(pair_texts(rest_before) == ps.subrange(i as int, total as int));
            assert forall|m: int| 0 <= m < rest@.len() implies #[trigger] pair_texts(rest@)[m]
                == ps.subrange(i as int + 1, total as int)[m] by {
                assert(rest@[m] == rest_before[m + 1]);
                assert(pair_texts(rest_before)[m + 1] == ps[i as int + 1 + m]);
            }
            assert(pair_texts(rest@) =~= ps.subrange(i as int + 1, total as int));
        }
        proof {
            lemma_jmembers(out@);
            assert(ps.take(i as int + 1).drop_last() =~= ps.take(i as int));
        }
        let ghost t = ps.take(i as int);
        let ghost t1 = ps.take(i as int + 1);
        proof {
            assert(t1.last() == (k@, v@));
            assert forall|k2: Seq<char>| k2 != k@ implies has_name(t1, k2) == has_name(t, k2)
                && values_of(t1, k2) == values_of(t, k2) by {
                if has_name(t1, k2) {
                    let w = choose|w: int| 0 <= w < t1.len() && t1[w].0 == k2;
                    assert(t[w].0 == k2);
                }
                if has_name(t, k2) {
                    let w = choose|w: int| 0 <= w < t.len() && t[w].0 == k2;
                    assert(t1[w].0 == k2);
                }
            }
            assert(has_name(t1, k@)) by {
                assert(t1[i as int].0 == k@);
            }
            assert(values_of(t1, k@) == values_of(t, k@).push(JVal::Str(v@)));
        }
        let ghost before = jmembers(out@);
        match find_member(&out, &k) {
            Some(p) => {
                let (kk, prev) = out.remove(p);
                let ghost pv = prev;
                let mut items = match prev {
                    Json::Array(items) => items,
                    _ => Vec::new(),
                };
                proof {
                    lemma_member_of(before, k@, p as int);
                    assert(before[p as int] == (kk@, jval(pv)));
                    assert(has_name(t, k@));
                    assert(jval(pv) == JVal::Array(values_of(t, k@)));
                    match pv {
                        Json::Array(_) => {},
                        _ => {
                            assert(!(jval(pv) is Array));
                        },
                    }
                    assert(jvals(items@) == values_of(t, k@));
                }
                let ghost old_items = items@;
                items.push(Json::Str(v));
                proof {
                    assert(items@.drop_last() =~= old_items);
                    assert(items@.len() > 0);
                    assert(items@.last() == Json::Str(v));
                    assert(jval(items@.last()) == JVal::Str(v@));
                    assert(jvals(items@) == jvals(items@.drop_last()).push(jval(items@.last())));
                    assert(jvals(items@) == jvals(old_items).push(JVal::Str(v@)));
                }
                out.insert(p, (kk, Json::Array(items)));
                proof {
                    lemma_jmembers(out@);
                    let after = jmembers(out@);
                    assert(after =~= before.update(p as int, (k@, JVal::Array(jvals(items@)))));
                    assert forall|k2: Seq<char>| #[trigger] member(after, k2) == if has_name(t1, k2) {
                        Some(JVal::Array(values_of(t1, k2)))
                    } else {
                        None::<JVal>
                    } by {
                        lemma_same_names(before, after, k2);
                        let mb = member(before, k2);
                        if k2 != k@ {
                            assert(has_name(t1, k2) == has_name(t, k2));
                            assert(values_of(t1, k2) == values_of(t, k2));
                            if let Some(q) = key_pos(before, k2) {
                                lemma_member_of(before, k2, q);
                                assert(q != p);
                                assert(after[q] == before[q]);
                            }
                        } else {
                            assert(key_pos(after, k2) == Some(p as int));
                            assert(after[p as int].1 == JVal::Array(values_of(t1, k2)));
                        }
                    }
                }
            },
            None => {
                let mut items: Vec<Json> = Vec::new();
                items.push(Json::Str(v));
                proof {
                    assert(items@.drop_last() =~= Seq::<Json>::empty());
                    assert(jvals(Seq::<Json>::empty()) =~= Seq::<JVal>::empty());
                    assert(items@.last() == Json::Str(v));
                    assert(jval(Json::Str(v)) == JVal::Str(v@));
                    assert(jvals(items@) == jvals(items@.drop_last()).push(jval(items@.last())));
                    assert(jvals(items@) =~= seq![JVal::Str(v@)]);
                    assert(!has_name(t, k@)) by {
                        if has_name(t, k@) {
                            assert(member(before, k@) is Some);
                        }
                    }
                    lemma_values_absent(t, k@);
                }
                out.push((k, Json::Array(items)));
                proof {
                    lemma_jmembers(out@);
                    let after = jmembers(out@);
                    assert(after =~= before.push((k@, JVal::Array(jvals(items@)))));
                    assert forall|k2: Seq<char>| #[trigger] member(after, k2) == if has_name(t1, k2) {
                        Some(JVal::Array(values_of(t1, k2)))
                    } else {
                        None::<JVal>
                    } by {
                        lemma_push_key(before, (k@, JVal::Array(jvals(items@))), k2);
                        let mb = member(before, k2);
                        if k2 != k@ {
                            assert(has_name(t1, k2) == has_name(t, k2));
                            assert(values_of(t1, k2) == values_of(t, k2));
                            if let Some(q) = key_pos(before, k2) {
                                lemma_member_of(before, k2, q);
                                assert(after[q] == before[q]);
                            }
                        } else {
                            assert(key_pos(after, k2) == Some(before.len() as int));
                            assert(after[before.len() as int].1 == JVal::Array(seq![JVal::Str(v@)]));
                            assert(values_of(t1, k2) =~= seq![JVal::Str(v@)]);
                        }
                    }
                }
            },
        }
        i = i + 1;
    }
    proof {
        assert(pair_texts(rest@).len() == rest@.len());
        assert(i == total);
        assert(ps.take(i as int) =~= ps);
    }
    let ghost om = out@;
    let r = Json::Object(out);
    assert(r@ == JVal::Object(jmembers(om)));
    r
}

/// The name-value pairs that an object of one value or arrays of values
/// stands for, in order.
pub open spec fn flat_pairs(x: Seq<(String, OneOrMany<String>)>) -> Seq<(Seq<char>, Seq<char>)>
    decreases x.len(),
{
    if x.len() == 0 {
        Seq::empty()
    } else {
        flat_pairs(x.drop_last()) + match x.last().1 {
            OneOrMany::One(v) => seq![(x.last().0@, v@)],
            OneOrMany::Many(vs) => keyed(x.last().0@, vs@),
        }
    }
}

/// The URL query string of the pairs `ps`, in order.
pub uninterp spec fn form_serialized(ps: Seq<(Seq<char>, Seq<char>)>) -> Seq<char>;

/// Relies on `form_urlencoded::Serializer`: `extend_pairs` with the pairs in
/// order, then `finish`.
#[verifier::external_body]
fn serialize_pairs(ps: &Vec<(String, String)>) -> (r: String)
    ensures
        r@ == form_serialized(pair_texts(ps@)),
{
    form_urlencoded::Serializer::new(String::new())
        .extend_pairs(ps.iter().map(|p| (p.0.as_str(), p.1.as_str())))
        .finish()
}

/// Encodes the given object into a URL encoded query string: each name is
/// paired with its value, or with each of its values in order.
pub fn encode_object(x: Vec<(String, OneOrMany<String>)>) -> (r: String)
    ensures
        r@ == form_serialized(flat_pairs(x@)),
{
    let ghost orig = x@;
    let mut pairs: Vec<(String, String)> = Vec::new();
    let mut rest = x;
    let total: usize = rest.len();
    let mut i: usize = 0;
    while rest.len() > 0
        invariant
            i <= total,
            total == orig.len(),
            rest@ == orig.subrange(i as int, total as int),
            pair_texts(pairs@) == flat_pairs(orig.take(i as int)),
        decreases rest.len(),
    {
        let (key, value) = rest.remove(0);
        proof {
            assert(orig.take(i as int + 1).drop_last() =~= orig.take(i as int));
        }
        let ghost before = pair_texts(pairs@);
        match value {
            OneOrMany::One(v) => {
                let ghost pb = pairs@;
                pairs.push((key, v));
                assert(pairs@ =~= pb.push((key, v)));
                assert(pair_texts(pairs@) =~= before + seq![(key@, v@)]);
            },
            OneOrMany::Many(vs) => {
                let ghost vv = vs@;
                let mut j: usize = 0;
                while j < vs.len()
                    invariant
                        j <= vs.len(),
                        vs@ == vv,
                        pair_texts(pairs@) == before + keyed(key@, vv.take(j as int)),
                    decreases vs.len() - j,
                {
                    let k2 = key.clone();
                    let v2 = vs[j].clone();
                    let ghost pb = pairs@;
                    pairs.push((k2, v2));
                    proof {
                        assert(pairs@ =~= pb.push((k2, v2)));
                        assert(pair_texts(pairs@) =~= pair_texts(pb).push((key@, vv[j as int]@)));
                        assert(vv.take(j as int + 1) =~= vv.take(j as int).push(vv[j as int]));
                        assert(keyed(key@, vv.take(j as int + 1)) =~= keyed(key@, vv.take(j as int)).push((key@, vv[j as int]@)));
                    }
                    j = j + 1;
                    assert(pair_texts(pairs@) =~= before + keyed(key@, vv.take(j as int)));
                }
                assert(vv.take(j as int) =~= vv);
                assert(keyed(key@, vv.take(0)) =~= Seq::<(Seq<char>, Seq<char>)>::empty());
            },
        }
        i = i + 1;
    }
    assert(orig.take(i as int) =~= orig);
    serialize_pairs(&pairs)
}

} // verus!
