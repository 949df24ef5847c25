//! A JSON document as the library sees it, with a mathematical view.
//!
//! Integral numbers are held exactly; any other number is held as the text
//! that stands for it, so that it passes through unchanged.

use vstd::prelude::*;

verus! {

broadcast use vstd::std_specs::vec::group_vec_axioms, vstd::seq::group_seq_axioms;

/// A JSON document.
#[derive(Debug, PartialEq)]
pub enum Json {
    /// `null`
    Null,
    /// `true` or `false`
    Bool(bool),
    /// An integral number.
    Int(i128),
    /// A number with a fraction or an exponent, as its text.
    Float(String),
    /// A string.
    Str(String),
    /// An array.
    Array(Vec<Json>),
    /// An object, as its members in order.
    Object(Vec<(String, Json)>),
}

/// The mathematical value of a JSON document.
pub enum JVal {
    Null,
    Bool(bool),
    Int(int),
    Float(Seq<char>),
    Str(Seq<char>),
    Array(Seq<JVal>),
    Object(Seq<(Seq<char>, JVal)>),
}

/// The value of a document.
pub open spec fn jval(j: Json) -> JVal
    decreases j,
{
    match j {
        Json::Null => JVal::Null,
        Json::Bool(b) => JVal::Bool(b),
        Json::Int(n) => JVal::Int(n as int),
        Json::Float(t) => JVal::Float(t@),
        Json::Str(s) => JVal::Str(s@),
        Json::Array(v) => JVal::Array(jvals(v@)),
        Json::Object(m) => JVal::Object(jmembers(m@)),
    }
}

/// The values of a sequence of documents.
pub open spec fn jvals(s: Seq<Json>) -> Seq<JVal>
    decreases s,
{
    if s.len() == 0 {
        Seq::empty()
    } else {
        jvals(s.drop_last()).push(jval(s.last()))
    }
}

/// The values of a sequence of object members.
pub open spec fn jmembers(s: Seq<(String, Json)>) -> Seq<(Seq<char>, JVal)>
    decreases s,
{
    if s.len() == 0 {
        Seq::empty()
    } else {
        jmembers(s.drop_last()).push((s.last().0@, jval(s.last().1)))
    }
}

impl View for Json {
    type V = JVal;

    open spec fn view(&self) -> JVal {
        jval(*self)
    }
}

} // verus!

verus! {

/// The values of a sequence of documents are taken one by one.
pub proof fn lemma_jvals(s: Seq<Json>)
    ensures
        jvals(s).len() == s.len(),
        forall|i: int| 0 <= i < s.len() ==> #[trigger] jvals(s)[i] == jval(s[i]),
    decreases s.len(),
{
    if s.len() > 0 {
        lemma_jvals(s.drop_last());
    }
}

/// The values of a sequence of members are taken one by one.
pub proof fn lemma_jmembers(s: Seq<(String, Json)>)
    ensures
        jmembers(s).len() == s.len(),
        forall|i: int|
            0 <= i < s.len() ==> #[trigger] jmembers(s)[i] == (s[i].0@, jval(s[i].1)),
    decreases s.len(),
{
    if s.len() > 0 {
        lemma_jmembers(s.drop_last());
    }
}

/// `i` is the first position of a member named `k`.
pub open spec fn is_first_key(m: Seq<(Seq<char>, JVal)>, k: Seq<char>, i: int) -> bool {
    &&& 0 <= i < m.len()
    &&& m[i].0 == k
    &&& forall|j: int| 0 <= j < i ==> m[j].0 != k
}

/// The position of the first member named `k`, if there is one.
pub open spec fn key_pos(m: Seq<(Seq<char>, JVal)>, k: Seq<char>) -> Option<int> {
    if exists|i: int| is_first_key(m, k, i) {
        Some(choose|i: int| is_first_key(m, k, i))
    } else {
        None
    }
}

/// The value of the first member named `k`, if there is one.
pub open spec fn member(m: Seq<(Seq<char>, JVal)>, k: Seq<char>) -> Option<JVal> {
    match key_pos(m, k) {
        Some(i) => Some(m[i].1),
        None => None,
    }
}

/// No two members share a name.
pub open spec fn unique_keys(m: Seq<(Seq<char>, JVal)>) -> bool {
    forall|i: int, j: int| 0 <= i < m.len() && 0 <= j < m.len() && i != j ==> m[i].0 != m[j].0
}

/// There is one first position at most.
pub proof fn lemma_first_key_unique(m: Seq<(Seq<char>, JVal)>, k: Seq<char>, i: int)
    requires
        is_first_key(m, k, i),
    ensures
        key_pos(m, k) == Some(i),
{
    let c = choose|c: int| is_first_key(m, k, c);
    assert(is_first_key(m, k, c));
    if c < i {
        assert(m[c].0 != k);
    } else if i < c {
        assert(m[i].0 != k);
    }
}

/// A name that no member has has no first position.
pub proof fn lemma_no_key(m: Seq<(Seq<char>, JVal)>, k: Seq<char>)
    requires
        forall|j: int| 0 <= j < m.len() ==> m[j].0 != k,
    ensures
        key_pos(m, k) is None,
{
}

/// A name that some member has has a first position.
pub proof fn lemma_some_key(m: Seq<(Seq<char>, JVal)>, k: Seq<char>, j: int)
    requires
        0 <= j < m.len(),
        m[j].0 == k,
    ensures
        key_pos(m, k) is Some,
    decreases j,
{
    if forall|l: int| 0 <= l < j ==> m[l].0 != k {
        assert(is_first_key(m, k, j));
    } else {
        let l = choose|l: int| 0 <= l < j && m[l].0 == k;
        lemma_some_key(m, k, l);
    }
}

/// Find the position of the first member named `k`.
pub fn find_member(m: &Vec<(String, Json)>, k: &String) -> (r: Option<usize>)
    ensures
        r is Some ==> key_pos(jmembers(m@), k@) == Some(r.unwrap() as int),
        r is None ==> key_pos(jmembers(m@), k@) is None,
{
    proof {
        lemma_jmembers(m@);
    }
    let mut i: usize = 0;
    while i < m.len()
        invariant
            i <= m.len(),
            jmembers(m@).len() == m@.len(),
            forall|j: int|
                0 <= j < m@.len() ==> #[trigger] jmembers(m@)[j] == (m@[j].0@, jval(m@[j].1)),
            forall|j: int| 0 <= j < i ==> #[trigger] jmembers(m@)[j].0 != k@,
        decreases m.len() - i,
    {
        if m[i].0 == *k {
            proof {
                lemma_first_key_unique(jmembers(m@), k@, i as int);
            }
            return Some(i);
        }
        i = i + 1;
    }
    proof {
        lemma_no_key(jmembers(m@), k@);
    }
    None
}

/// Look up the member named `k` of an object.
pub fn get_member<'a>(m: &'a Vec<(String, Json)>, k: &String) -> (r: Option<&'a Json>)
    ensures
        r is Some <==> member(jmembers(m@), k@) is Some,
        r is Some ==> member(jmembers(m@), k@) == Some(r.unwrap()@),
{
    proof {
        lemma_jmembers(m@);
    }
    match find_member(m, k) {
        Some(i) => Some(&m[i].1),
        None => None,
    }
}

/// Members with the same names in the same places have the same first
/// positions.
pub proof fn lemma_same_names(s1: Seq<(Seq<char>, JVal)>, s2: Seq<(Seq<char>, JVal)>, k: Seq<char>)
    requires
        s1.len() == s2.len(),
        forall|i: int| 0 <= i < s1.len() ==> s1[i].0 == s2[i].0,
    ensures
        key_pos(s1, k) == key_pos(s2, k),
{
    if let Some(i) = key_pos(s1, k) {
        let c = choose|c: int| is_first_key(s1, k, c);
        assert(is_first_key(s1, k, c));
        assert(is_first_key(s2, k, i));
        lemma_first_key_unique(s2, k, i);
    } else if let Some(i) = key_pos(s2, k) {
        let c = choose|c: int| is_first_key(s2, k, c);
        assert(is_first_key(s2, k, c));
        assert(is_first_key(s1, k, i));
    }
}

/// Where the first member named `k` is once a member is appended.
pub proof fn lemma_push_key(s: Seq<(Seq<char>, JVal)>, x: (Seq<char>, JVal), k: Seq<char>)
    ensures
        key_pos(s, k) is Some ==> key_pos(s.push(x), k) == key_pos(s, k),
        key_pos(s, k) is None && x.0 == k ==> key_pos(s.push(x), k) == Some(s.len() as int),
        key_pos(s, k) is None && x.0 != k ==> key_pos(s.push(x), k) is None,
{
    let t = s.push(x);
    if let Some(i) = key_pos(s, k) {
        let c = choose|c: int| is_first_key(s, k, c);
        assert(is_first_key(s, k, c));
        assert(is_first_key(t, k, i));
        lemma_first_key_unique(t, k, i);
    } else {
        assert forall|j: int| 0 <= j < s.len() implies s[j].0 != k by {
            if s[j].0 == k {
                lemma_some_key(s, k, j);
            }
        }
        if x.0 == k {
            assert(is_first_key(t, k, s.len() as int));
            lemma_first_key_unique(t, k, s.len() as int);
        } else {
            lemma_no_key(t, k);
        }
    }
}

/// The first position found is a first position.
pub proof fn lemma_member_of(s: Seq<(Seq<char>, JVal)>, k: Seq<char>, i: int)
    requires
        key_pos(s, k) == Some(i),
    ensures
        is_first_key(s, k, i),
{
    let c = choose|c: int| is_first_key(s, k, c);
    assert(is_first_key(s, k, c));
}

/// Appending a document appends its value.
pub proof fn lemma_jvals_push(s: Seq<Json>, x: Json)
    ensures
        jvals(s.push(x)) == jvals(s).push(jval(x)),
{
    assert(s.push(x).drop_last() =~= s);
}

/// Appending a member appends its value.
pub proof fn lemma_jmembers_push(s: Seq<(String, Json)>, x: (String, Json))
    ensures
        jmembers(s.push(x)) == jmembers(s).push((x.0@, jval(x.1))),
{
    assert(s.push(x).drop_last() =~= s);
}

/// Set the member named `k` to `v`: the first member of that name where
/// there is one, a new last member otherwise.
pub fn put_member(m: &mut Vec<(String, Json)>, k: String, v: Json)
    ensures
        forall|k2: Seq<char>| #[trigger] member(jmembers(final(m)@), k2) == if k2 == k@ {
            Some(v@)
        } else {
            member(jmembers(old(m)@), k2)
        },
{
    let ghost before = jmembers(m@);
    let ghost kv = k@;
    let ghost vv = v@;
    proof {
        lemma_jmembers(m@);
    }
    match find_member(m, &k) {
        Some(p) => {
            let _ = m.remove(p);
            m.insert(p, (k, v));
            proof {
                lemma_jmembers(m@);
                let after = jmembers(m@);
                assert(after =~= before.update(p as int, (kv, vv)));
                assert forall|k2: Seq<char>| #[trigger] member(after, k2) == if k2 == kv {
                    Some(vv)
                } else {
                    member(before, k2)
                } by {
                    lemma_same_names(before, after, k2);
                    if let Some(q) = key_pos(before, k2) {
                        lemma_member_of(before, k2, q);
                    }
                }
            }
        },
        None => {
            let ghost mb = m@;
            m.push((k, v));
            proof {
                lemma_jmembers_push(mb, (k, v));
                let after = jmembers(m@);
                assert forall|k2: Seq<char>| #[trigger] member(after, k2) == if k2 == kv {
                    Some(vv)
                } else {
                    member(before, k2)
                } by {
                    lemma_push_key(before, (kv, vv), k2);
                    if let Some(q) = key_pos(before, k2) {
                        lemma_member_of(before, k2, q);
                    }
                }
            }
        },
    }
}

} // verus!
