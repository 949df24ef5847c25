//! Builtins related to regular expressions.

use vstd::prelude::*;
use crate::error::BuiltinError;

verus! {

#[verifier::external_type_specification]
#[verifier::external_body]
pub struct ExRegex(::regex::Regex);

/// The texts of a sequence of strings.
pub open spec fn texts(v: Seq<String>) -> Seq<Seq<char>> {
    v.map_values(|s: String| s@)
}

/// The texts of a sequence of sequences of strings.
pub open spec fn text_rows(v: Seq<Vec<String>>) -> Seq<Seq<Seq<char>>> {
    v.map_values(|row: Vec<String>| texts(row@))
}

/// The text is a valid regular expression.
pub uninterp spec fn regex_valid(p: Seq<char>) -> bool;

/// The successive non-overlapping matches of the expression `p` in `v`.
pub uninterp spec fn regex_finds(p: Seq<char>, v: Seq<char>) -> Seq<Seq<char>>;

/// The pieces of `v` between the matches of the expression `p`.
pub uninterp spec fn regex_pieces(p: Seq<char>, v: Seq<char>) -> Seq<Seq<char>>;

/// `s` with every match of the expression `p` replaced by `with`, where `$`
/// references in `with` name groups of the match.
pub uninterp spec fn regex_replaced(p: Seq<char>, s: Seq<char>, with: Seq<char>) -> Seq<char>;

/// Whether the expression `p` matches somewhere in `v`.
pub uninterp spec fn regex_is_match(p: Seq<char>, v: Seq<char>) -> bool;

/// For each successive match of `p` in `v`, the text of the whole match and
/// of each group, `None` for a group that took no part in the match.
pub uninterp spec fn regex_submatches(p: Seq<char>, v: Seq<char>) -> Seq<Seq<Option<Seq<char>>>>;

/// The texts of a row of groups, in order.
pub open spec fn group_texts(row: Seq<Option<String>>) -> Seq<Option<Seq<char>>> {
    row.map_values(|g: Option<String>| match g {
        Some(t) => Some(t@),
        None => None,
    })
}

/// The texts of rows of groups.
pub open spec fn group_rows(v: Seq<Vec<Option<String>>>) -> Seq<Seq<Option<Seq<char>>>> {
    v.map_values(|row: Vec<Option<String>>| group_texts(row@))
}

/// The texts of the groups that took part, in order.
pub open spec fn present(row: Seq<Option<Seq<char>>>) -> Seq<Seq<char>>
    decreases row.len(),
{
    if row.len() == 0 {
        Seq::empty()
    } else {
        match row.last() {
            Some(t) => present(row.drop_last()).push(t),
            None => present(row.drop_last()),
        }
    }
}

/// Each row with only the groups that took part.
pub open spec fn present_rows(rows: Seq<Seq<Option<Seq<char>>>>) -> Seq<Seq<Seq<char>>> {
    rows.map_values(|row: Seq<Option<Seq<char>>>| present(row))
}

/// Relies on `regex::Regex::new`: the compiled expression, or `None` where the
/// text is not a valid expression.
#[verifier::external_body]
fn compile(p: &str) -> (r: Option<::regex::Regex>)
    ensures
        r is Some == regex_valid(p@),
{
    ::regex::Regex::new(p).ok()
}

/// A compiled regular expression together with its text.
pub struct Pattern {
    re: ::regex::Regex,
    text: String,
}

impl Pattern {
    /// The text the expression was compiled from.
    pub closed spec fn source(&self) -> Seq<char> {
        self.text@
    }

    /// Compile an expression.
    pub fn new(p: String) -> (r: Result<Pattern, BuiltinError>)
        ensures
            regex_valid(p@) ==> r is Ok && r.unwrap().source() == p@,
            !regex_valid(p@) ==> r == Err::<Pattern, BuiltinError>(BuiltinError::Parse),
    {
        match compile(p.as_str()) {
            Some(re) => Ok(Pattern { re, text: p }),
            None => Err(BuiltinError::Parse),
        }
    }
}

/// Relies on `regex::Regex::find_iter` over the expression that `Pattern::new`
/// compiled from `source()`: the successive non-overlapping matches.
#[verifier::external_body]
fn find_all(p: &Pattern, v: &str) -> (r: Vec<String>)
    ensures
        texts(r@) == regex_finds(p.source(), v@),
{
    p.re.find_iter(v).map(|m| m.as_str().to_string()).collect()
}

/// Relies on `regex::Regex::split`: the pieces between the matches.
#[verifier::external_body]
fn split_all(p: &Pattern, v: &str) -> (r: Vec<String>)
    ensures
        texts(r@) == regex_pieces(p.source(), v@),
{
    p.re.split(v).map(|s| s.to_string()).collect()
}

/// Relies on `regex::Regex::replace_all`: every match replaced.
#[verifier::external_body]
fn replace_every(p: &Pattern, s: &str, with: &str) -> (r: String)
    ensures
        r@ == regex_replaced(p.source(), s@, with@),
{
    p.re.replace_all(s, with).to_string()
}

/// Relies on `regex::Regex::is_match`: whether some part of the text matches.
#[verifier::external_body]
fn matches_somewhere(p: &Pattern, v: &str) -> (r: bool)
    ensures
        r == regex_is_match(p.source(), v@),
{
    p.re.is_match(v)
}

/// Relies on `regex::Regex::captures_iter` and `Captures::iter`: for each
/// match, the whole match and then each group, `None` where the group took no
/// part.
#[verifier::external_body]
fn captures_all(p: &Pattern, v: &str) -> (r: Vec<Vec<Option<String>>>)
    ensures
        group_rows(r@) == regex_submatches(p.source(), v@),
{
    p.re.captures_iter(v).map(|c| c.iter().map(|m| m.map(|m| m.as_str().to_string())).collect()).collect()
}

/// The texts of the groups of a row that took part in the match.
fn present_groups(row: Vec<Option<String>>) -> (r: Vec<String>)
    ensures
        texts(r@) == present(group_texts(row@)),
{
    let ghost orig = row@;
    let mut out: Vec<String> = Vec::new();
    let mut i: usize = 0;
    proof {
        assert(group_texts(orig).take(0) =~= Seq::<Option<Seq<char>>>::empty());
        assert(texts(out@) =~= Seq::<Seq<char>>::empty());
    }
    while i < row.len()
        invariant
            i <= row.len(),
            row@ == orig,
            texts(out@) == present(group_texts(orig).take(i as int)),
        decreases row.len() - i,
    {
        let ghost ob = out@;
        proof {
            let t = group_texts(orig).take(i as int + 1);
            assert(t.drop_last() =~= group_texts(orig).take(i as int));
            assert(t.last() == group_texts(orig)[i as int]);
        }
        match &row[i] {
            Some(t) => {
                out.push(t.clone());
                assert(texts(out@) =~= texts(ob).push(t@));
            },
            None => {},
        }
        i = i + 1;
    }
    assert(group_texts(orig).take(i as int) =~= group_texts(orig));
    out
}

/// The first `n` elements of `s`, or all of them where there are fewer.
pub open spec fn first_n<T>(s: Seq<T>, n: int) -> Seq<T> {
    if n < s.len() {
        s.take(n)
    } else {
        s
    }
}

/// Keep the first `n` elements of `v`.
fn keep_first<T>(v: &mut Vec<T>, n: usize)
    ensures
        final(v)@ == first_n(old(v)@, n as int),
{
    if n < v.len() {
        v.truncate(n);
    }
}

/// Returns the specified number of matches when matching the input against
/// the pattern; a negative number asks for all of them.
pub fn find_n(pattern: String, value: String, number: i32) -> (r: Result<Vec<String>, BuiltinError>)
    ensures
        regex_valid(pattern@) ==> r is Ok && texts(r.unwrap()@) == if number < 0 {
            regex_finds(pattern@, value@)
        } else {
            first_n(regex_finds(pattern@, value@), number as int)
        },
        !regex_valid(pattern@) ==> r == Err::<Vec<String>, BuiltinError>(BuiltinError::Parse),
{
    let re = Pattern::new(pattern)?;
    let mut found = find_all(&re, value.as_str());
    if number >= 0 {
        let ghost before = found@;
        keep_first(&mut found, number as usize);
        assert(texts(found@) =~= first_n(texts(before), number as int));
    }
    Ok(found)
}

/// Splits the input string by the occurrences of the given pattern.
pub fn split(pattern: String, value: String) -> (r: Result<Vec<String>, BuiltinError>)
    ensures
        regex_valid(pattern@) ==> r is Ok && texts(r.unwrap()@) == regex_pieces(pattern@, value@),
        !regex_valid(pattern@) ==> r == Err::<Vec<String>, BuiltinError>(BuiltinError::Parse),
{
    let re = Pattern::new(pattern)?;
    Ok(split_all(&re, value.as_str()))
}

/// Find and replaces the text using the regular expression pattern: every
/// match is replaced.
pub fn replace(s: String, pattern: String, value: String) -> (r: Result<String, BuiltinError>)
    ensures
        regex_valid(pattern@) ==> r is Ok && r.unwrap()@ == regex_replaced(pattern@, s@, value@),
        !regex_valid(pattern@) ==> r == Err::<String, BuiltinError>(BuiltinError::Parse),
{
    let re = Pattern::new(pattern)?;
    Ok(replace_every(&re, s.as_str(), value.as_str()))
}

/// Matches a string against a regular expression.
pub fn regex_match(pattern: String, value: String) -> (r: Result<bool, BuiltinError>)
    ensures
        regex_valid(pattern@) ==> r == Ok::<bool, BuiltinError>(regex_is_match(pattern@, value@)),
        !regex_valid(pattern@) ==> r == Err::<bool, BuiltinError>(BuiltinError::Parse),
{
    let re = Pattern::new(pattern)?;
    Ok(matches_somewhere(&re, value.as_str()))
}

/// Checks if a string is a valid regular expression.
pub fn is_valid(pattern: String) -> (r: bool)
    ensures
        r == regex_valid(pattern@),
{
    compile(pattern.as_str()).is_some()
}

/// Returns the first `number` successive matches of the expression, each as
/// the whole match followed by the groups that took part in it.
pub fn find_all_string_submatch_n(pattern: String, value: String, number: usize) -> (r: Result<Vec<Vec<String>>, BuiltinError>)
    ensures
        regex_valid(pattern@) ==> r is Ok && text_rows(r.unwrap()@) == present_rows(first_n(
            regex_submatches(pattern@, value@),
            number as int,
        )),
        !regex_valid(pattern@) ==> r == Err::<Vec<Vec<String>>, BuiltinError>(BuiltinError::Parse),
{
    let re = Pattern::new(pattern)?;
    let mut rows = captures_all(&re, value.as_str());
    let ghost all = rows@;
    keep_first(&mut rows, number);
    let ghost kept = rows@;
    assert(group_rows(kept) =~= first_n(group_rows(all), number as int));
    let mut out: Vec<Vec<String>> = Vec::new();
    let total: usize = rows.len();
    let mut i: usize = 0;
    while rows.len() > 0
        invariant
            i <= total,
            total == kept.len(),
            rows@ == kept.subrange(i as int, total as int),
            text_rows(out@) == present_rows(group_rows(kept.take(i as int))),
        decreases rows.len(),
    {
        assert(rows@[0] == kept[i as int]);
        let row = rows.remove(0);
        let groups = present_groups(row);
        let ghost ob = out@;
        out.push(groups);
        proof {
            assert(kept.take(i as int + 1) =~= kept.take(i as int).push(kept[i as int]));
            assert(text_rows(out@) =~= text_rows(ob).push(texts(groups@)));
            assert(present_rows(group_rows(kept.take(i as int + 1))) =~= present_rows(group_rows(kept.take(i as int))).push(present(group_texts(kept[i as int]@))));
        }
        i = i + 1;
        assert(rows@ =~= kept.subrange(i as int, total as int));
    }
    assert(kept.take(i as int) =~= kept);
    Ok(out)
}

/// Whether the intersection of two glob-like expressions matches a non-empty
/// set of non-empty strings, where both parse.
pub uninterp spec fn globs_intersect(a: Seq<char>, b: Seq<char>) -> Option<bool>;

/// Relies on `regex_intersect::non_empty`: `None` where an expression does not
/// parse.
#[verifier::external_body]
fn intersect_non_empty(a: &str, b: &str) -> (r: Option<bool>)
    ensures
        r == globs_intersect(a@, b@),
{
    regex_intersect::non_empty(a, b).ok()
}

/// Checks if the intersection of two glob-style regular expressions matches a
/// non-empty set of non-empty strings. Only `.`, `*`, `+`, `[`, `-`, `]` and
/// `\` are special.
pub fn globs_match(glob1: String, glob2: String) -> (r: Result<bool, BuiltinError>)
    ensures
        globs_intersect(glob1@, glob2@) matches Some(b) ==> r == Ok::<bool, BuiltinError>(b),
        globs_intersect(glob1@, glob2@) is None ==> r == Err::<bool, BuiltinError>(BuiltinError::Parse),
{
    match intersect_non_empty(glob1.as_str(), glob2.as_str()) {
        Some(b) => Ok(b),
        None => Err(BuiltinError::Parse),
    }
}

/// Whether `text` matches the route pattern `pattern`, whose variable parts
/// stand between `start` and `end`, where the pattern parses.
pub uninterp spec fn route_matches(pattern: Seq<char>, start: char, end: char, text: Seq<char>) -> Option<bool>;

/// Relies on `route_pattern::is_match`: `None` where the pattern does not
/// parse.
#[verifier::external_body]
fn route_is_match(pattern: &str, start: char, end: char, text: &str) -> (r: Option<bool>)
    ensures
        r == route_matches(pattern@, start, end, text@),
{
    route_pattern::is_match(pattern, start, end, text).ok()
}

/// Matches a string against a pattern, where the pattern may be glob-like and
/// its expressions stand between the first characters of `delimiter_start`
/// and `delimiter_end`.
pub fn template_match(pattern: String, value: String, delimiter_start: String, delimiter_end: String) -> (r: Result<bool, BuiltinError>)
    ensures
        (delimiter_start@.len() == 0 || delimiter_end@.len() == 0) ==> r == Err::<bool, BuiltinError>(BuiltinError::Delimiters),
        delimiter_start@.len() > 0 && delimiter_end@.len() > 0 ==> match route_matches(
            pattern@,
            delimiter_start@[0],
            delimiter_end@[0],
            value@,
        ) {
            Some(b) => r == Ok::<bool, BuiltinError>(b),
            None => r == Err::<bool, BuiltinError>(BuiltinError::Parse),
        },
{
    let ds = crate::text::chars_of(delimiter_start.as_str());
    let de = crate::text::chars_of(delimiter_end.as_str());
    if ds.len() == 0 || de.len() == 0 {
        return Err(BuiltinError::Delimiters);
    }
    match route_is_match(pattern.as_str(), ds[0], de[0], value.as_str()) {
        Some(b) => Ok(b),
        None => Err(BuiltinError::Parse),
    }
}

} // verus!
