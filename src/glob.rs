//! Builtins used when working with globs.

use vstd::prelude::*;
use crate::text::{chars_of, push_char};

verus! {

/// A character with a meaning of its own in a glob pattern.
pub open spec fn is_glob_meta(c: char) -> bool {
    c == '*' || c == '?' || c == '\\' || c == '[' || c == ']' || c == '{' || c == '}'
}

/// `s` with a backslash put before each character that has a meaning of its
/// own in a glob pattern.
pub open spec fn quoted(s: Seq<char>) -> Seq<char>
    decreases s.len(),
{
    if s.len() == 0 {
        Seq::empty()
    } else if is_glob_meta(s.last()) {
        quoted(s.drop_last()).push('\\').push(s.last())
    } else {
        quoted(s.drop_last()).push(s.last())
    }
}

/// `s` with three backslashes put before each special character.
pub open spec fn quoted_twice(s: Seq<char>) -> Seq<char>
    decreases s.len(),
{
    if s.len() == 0 {
        Seq::empty()
    } else if is_glob_meta(s.last()) {
        quoted_twice(s.drop_last()) + seq!['\\', '\\', '\\', s.last()]
    } else {
        quoted_twice(s.drop_last()).push(s.last())
    }
}

/// Returns a string which represents a version of the pattern where all
/// special characters have been escaped.
pub fn quote_meta(pattern: String) -> (r: String)
    ensures
        r@ == quoted(pattern@),
{
    let cs = chars_of(pattern.as_str());
    let mut out = String::new();
    let mut i: usize = 0;
    while i < cs.len()
        invariant
            cs@ == pattern@,
            i <= cs.len(),
            out@ == quoted(pattern@.take(i as int)),
        decreases cs.len() - i,
    {
        let c = cs[i];
        proof {
            assert(pattern@.take(i as int + 1).drop_last() =~= pattern@.take(i as int));
        }
        if c == '*' || c == '?' || c == '\\' || c == '[' || c == ']' || c == '{' || c == '}' {
            push_char(&mut out, '\\');
            push_char(&mut out, c);
        } else {
            push_char(&mut out, c);
        }
        i = i + 1;
    }
    proof {
        assert(pattern@.take(i as int) =~= pattern@);
    }
    out
}

proof fn lemma_quoted_concat(a: Seq<char>, b: Seq<char>)
    ensures
        quoted(a + b) == quoted(a) + quoted(b),
    decreases b.len(),
{
    if b.len() == 0 {
        assert(a + b =~= a);
        assert(quoted(a) + quoted(b) =~= quoted(a));
    } else {
        lemma_quoted_concat(a, b.drop_last());
        assert((a + b).drop_last() =~= a + b.drop_last());
        assert((a + b).last() == b.last());
        if is_glob_meta(b.last()) {
            assert(quoted(a + b) =~= quoted(a) + quoted(b));
        } else {
            assert(quoted(a + b) =~= quoted(a) + quoted(b));
        }
    }
}

/// Quoting a pattern twice escapes each special character twice and no more:
/// the character comes out after three backslashes, and every other character
/// comes out as it was.
pub proof fn lemma_quote_meta_twice(s: Seq<char>)
    ensures
        quoted(quoted(s)) == quoted_twice(s),
    decreases s.len(),
{
    if s.len() > 0 {
        let p = s.drop_last();
        let c = s.last();
        lemma_quote_meta_twice(p);
        if is_glob_meta(c) {
            let tail = seq!['\\', c];
            assert(quoted(s) =~= quoted(p) + tail);
            lemma_quoted_concat(quoted(p), tail);
            assert(tail.drop_last() =~= seq!['\\']);
            assert(seq!['\\'].drop_last() =~= Seq::<char>::empty());
            assert(quoted(Seq::<char>::empty()) =~= Seq::<char>::empty());
            assert(seq!['\\'].last() == '\\');
            assert(quoted(seq!['\\']) == quoted(Seq::<char>::empty()).push('\\').push('\\'));
            assert(quoted(seq!['\\']) =~= seq!['\\', '\\']);
            assert(quoted(tail) =~= seq!['\\', '\\', '\\', c]);
        } else {
            let tail = seq![c];
            assert(quoted(s) =~= quoted(p) + tail);
            lemma_quoted_concat(quoted(p), tail);
            assert(tail.drop_last() =~= Seq::<char>::empty());
            assert(quoted(Seq::<char>::empty()) =~= Seq::<char>::empty());
            assert(quoted(tail) == quoted(Seq::<char>::empty()).push(c));
            assert(quoted(tail) =~= seq![c]);
            assert(quoted_twice(s) =~= quoted_twice(p) + seq![c]);
        }
    }
}

} // verus!
