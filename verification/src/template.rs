//! Placeholder substitution in report templates: finding a token, replacing
//! every occurrence, and replacing successive occurrences with successive
//! values, each against an exact sequence-level specification.

use vstd::prelude::*;

verus! {

/// The pattern `pat` occurs in `s` starting at position `i`.
pub open spec fn matches_at(s: Seq<char>, pat: Seq<char>, i: int) -> bool {
    0 <= i && i + pat.len() <= s.len() && s.subrange(i, i + pat.len() as int) == pat
}

/// The position of the first occurrence of `pat` in `s` at or after `i`, or
/// `-1` when there is none.
pub open spec fn find_from(s: Seq<char>, pat: Seq<char>, i: int) -> int
    decreases s.len() - i
        when 0 <= i <= s.len() && pat.len() > 0
{
    if i + pat.len() > s.len() {
        -1
    } else if matches_at(s, pat, i) {
        i
    } else {
        find_from(s, pat, i + 1)
    }
}

/// What `find_from` returns: `-1` only when no position at or after `i`
/// matches, and otherwise the least matching position.
pub proof fn lemma_find_from(s: Seq<char>, pat: Seq<char>, i: int)
    requires
        0 <= i <= s.len(),
        pat.len() > 0,
    ensures
        find_from(s, pat, i) == -1 || find_from(s, pat, i) >= i,
        find_from(s, pat, i) == -1 ==> forall|j: int|
            i <= j ==> !matches_at(s, pat, j),
        find_from(s, pat, i) >= 0 ==> {
            let f = find_from(s, pat, i);
            &&& i <= f
            &&& f + pat.len() <= s.len()
            &&& matches_at(s, pat, f)
            &&& forall|j: int| i <= j < f ==> !matches_at(s, pat, j)
        },
    decreases s.len() - i,
{
    if i + pat.len() > s.len() {
        assert forall|j: int| i <= j implies !matches_at(s, pat, j) by {
            assert(j + pat.len() > s.len());
        }
    } else if matches_at(s, pat, i) {
    } else {
        lemma_find_from(s, pat, i + 1);
    }
}

/// `s` with every occurrence of `pat`, scanned left to right without
/// overlap, replaced by `rep`.
pub open spec fn replace_all_spec(s: Seq<char>, pat: Seq<char>, rep: Seq<char>) -> Seq<char>
    decreases s.len()
        when pat.len() > 0
        via replace_all_spec_dec
{
    let f = find_from(s, pat, 0);
    if f < 0 {
        s
    } else {
        s.subrange(0, f) + rep + replace_all_spec(
            s.subrange(f + pat.len(), s.len() as int),
            pat,
            rep,
        )
    }
}

#[via_fn]
proof fn replace_all_spec_dec(s: Seq<char>, pat: Seq<char>, rep: Seq<char>) {
    lemma_find_from(s, pat, 0);
}

/// How many occurrences of `pat` a left-to-right, non-overlapping scan of `s`
/// finds.
pub open spec fn count_occurrences(s: Seq<char>, pat: Seq<char>) -> nat
    decreases s.len()
        when pat.len() > 0
        via count_occurrences_dec
{
    let f = find_from(s, pat, 0);
    if f < 0 {
        0
    } else {
        1 + count_occurrences(s.subrange(f + pat.len(), s.len() as int), pat)
    }
}

#[via_fn]
proof fn count_occurrences_dec(s: Seq<char>, pat: Seq<char>) {
    lemma_find_from(s, pat, 0);
}

/// A left-to-right scan finds at most one occurrence per character.
pub proof fn lemma_count_le_len(s: Seq<char>, pat: Seq<char>)
    requires
        pat.len() > 0,
    ensures
        count_occurrences(s, pat) <= s.len(),
    decreases s.len(),
{
    lemma_find_from(s, pat, 0);
    let f = find_from(s, pat, 0);
    if f >= 0 {
        lemma_count_le_len(s.subrange(f + pat.len(), s.len() as int), pat);
    }
}

/// `s` with its first occurrence of `pat` replaced by `vals[0]`, the first
/// occurrence of `pat` after that replacement by `vals[1]`, and so on, until
/// the values or the occurrences run out.
pub open spec fn substitute_spec(s: Seq<char>, pat: Seq<char>, vals: Seq<Seq<char>>) -> Seq<char>
    decreases vals.len(),
{
    if vals.len() == 0 {
        s
    } else {
        let f = find_from(s, pat, 0);
        if f < 0 {
            s
        } else {
            s.subrange(0, f) + vals[0] + substitute_spec(
                s.subrange(f + pat.len(), s.len() as int),
                pat,
                vals.subrange(1, vals.len() as int),
            )
        }
    }
}

/// A string has an occurrence of `pat` exactly when the left-to-right scan
/// counts one.
pub proof fn lemma_count_zero_iff_no_match(s: Seq<char>, pat: Seq<char>)
    requires
        pat.len() > 0,
    ensures
        count_occurrences(s, pat) == 0 <==> forall|q: int| !matches_at(s, pat, q),
{
    lemma_find_from(s, pat, 0);
    let f = find_from(s, pat, 0);
    if f >= 0 {
        assert(matches_at(s, pat, f));
        assert(count_occurrences(s, pat) == 1 + count_occurrences(
            s.subrange(f + pat.len(), s.len() as int),
            pat,
        ));
    } else {
        assert(count_occurrences(s, pat) == 0);
        assert forall|q: int| !matches_at(s, pat, q) by {
            if q >= 0 {
                assert(!matches_at(s, pat, q));
            }
        }
    }
}

/// Substituting one value for each counted occurrence of a token leaves no
/// occurrence of the token behind.
///
/// The conditions on the values exclude the substitutions that could write a
/// fresh occurrence across a boundary: every value is nonempty, free of the
/// token's first character, and does not begin with any later character of
/// the token. A template `"xaab"` with token `"ab"` and the single value
/// `"b!"`, which begins with the token's second character, shows why: the
/// substitution yields `"xab!"`, where the token occurs again.
pub proof fn lemma_substitution_removes_token(s: Seq<char>, pat: Seq<char>, vals: Seq<Seq<char>>)
    requires
        pat.len() > 0,
        count_occurrences(s, pat) == vals.len(),
        forall|k: int| 0 <= k < vals.len() ==> vals[k].len() > 0,
        forall|k: int, j: int|
            0 <= k < vals.len() && 0 <= j < vals[k].len() ==> vals[k][j] != pat[0],
        forall|k: int, j: int| 0 <= k < vals.len() && 1 <= j < pat.len() ==> vals[k][0] != pat[j],
    ensures
        forall|q: int| !matches_at(substitute_spec(s, pat, vals), pat, q),
        count_occurrences(substitute_spec(s, pat, vals), pat) == 0,
    decreases vals.len(),
{
    let result = substitute_spec(s, pat, vals);
    let plen = pat.len() as int;
    if vals.len() == 0 {
        lemma_find_from(s, pat, 0);
        let f = find_from(s, pat, 0);
        if f >= 0 {
            assert(count_occurrences(s, pat) == 1 + count_occurrences(
                s.subrange(f + plen, s.len() as int),
                pat,
            ));
            assert(false);
        }
        assert(f == -1);
        assert(result == s);
        assert forall|q: int| !matches_at(result, pat, q) by {
            if q < 0 {
            } else {
                assert(!matches_at(s, pat, q));
            }
        }
    } else {
        let f = find_from(s, pat, 0);
        assert(f >= 0);
        lemma_find_from(s, pat, 0);
        let pre = s.subrange(0, f);
        let suf = s.subrange(f + plen, s.len() as int);
        let v = vals[0];
        let rest = vals.subrange(1, vals.len() as int);
        let vl = v.len() as int;
        assert(count_occurrences(suf, pat) == rest.len());
        assert forall|k: int| 0 <= k < rest.len() implies rest[k].len() > 0 by {
            assert(rest[k] == vals[k + 1]);
        }
        assert forall|k: int, j: int|
            0 <= k < rest.len() && 0 <= j < rest[k].len() implies rest[k][j] != pat[0] by {
            assert(rest[k] == vals[k + 1]);
        }
        assert forall|k: int, j: int|
            0 <= k < rest.len() && 1 <= j < pat.len() implies rest[k][0] != pat[j] by {
            assert(rest[k] == vals[k + 1]);
        }
        lemma_substitution_removes_token(suf, pat, rest);
        let rr = substitute_spec(suf, pat, rest);
        assert(result == pre + v + rr);
        assert forall|q: int| !matches_at(result, pat, q) by {
            if matches_at(result, pat, q) {
                assert(result.subrange(q, q + plen) == pat);
                if q + plen <= f {
                    assert forall|j: int| 0 <= j < plen implies s[q + j] == pat[j] by {
                        assert(pat[j] == result.subrange(q, q + plen)[j]);
                        assert(result[q + j] == pre[q + j]);
                        assert(pre[q + j] == s[q + j]);
                    }
                    assert(s.subrange(q, q + plen) =~= pat);
                    assert(matches_at(s, pat, q));
                    assert(false);
                } else if q < f {
                    assert(pat[f - q] == result.subrange(q, q + plen)[f - q]);
                    assert(result[f] == v[0]);
                    assert(v[0] == pat[f - q] && 1 <= f - q < plen);
                    assert(false);
                } else if q < f + vl {
                    assert(pat[0] == result.subrange(q, q + plen)[0]);
                    assert(result[q] == v[q - f]);
                    assert(v[q - f] == pat[0] && 0 <= q - f < vl);
                    assert(false);
                } else {
                    let q2 = q - (f + vl);
                    assert forall|j: int| 0 <= j < plen implies rr[q2 + j] == pat[j] by {
                        assert(pat[j] == result.subrange(q, q + plen)[j]);
                        assert(result[q + j] == rr[q + j - (f + vl)]);
                    }
                    assert(rr.subrange(q2, q2 + plen) =~= pat);
                    assert(matches_at(rr, pat, q2));
                    assert(false);
                }
            }
        }
    }
    lemma_count_zero_iff_no_match(result, pat);
}

/// Whether `pat` occurs at position `i` of `text`.
fn is_match_at(text: &str, pat: &str, i: usize) -> (b: bool)
    requires
        i + pat@.len() <= text@.len(),
    ensures
        b == matches_at(text@, pat@, i as int),
{
    let pl = pat.unicode_len();
    let tl = text.unicode_len();
    let mut j: usize = 0;
    while j < pl
        invariant
            pl == pat@.len(),
            tl == text@.len(),
            i + pl <= tl,
            0 <= j <= pl,
            forall|k: int| 0 <= k < j ==> text@[i + k] == pat@[k],
        decreases pl - j,
    {
        if text.get_char(i + j) != pat.get_char(j) {
            proof {
                assert(text@.subrange(i as int, i + pl) == pat@ ==> text@.subrange(
                    i as int,
                    i + pl,
                )[j as int] == pat@[j as int]);
                assert(text@.subrange(i as int, i + pl)[j as int] == text@[i + j]);
            }
            return false;
        }
        j += 1;
    }
    proof {
        assert(text@.subrange(i as int, i + pl) =~= pat@);
    }
    true
}

/// The position of the first occurrence of `pat` in `text`, if any.
pub fn find_token(text: &str, pat: &str) -> (r: Option<usize>)
    requires
        pat@.len() >= 1,
    ensures
        r is Some <==> find_from(text@, pat@, 0) >= 0,
        r is Some ==> r->0 == find_from(text@, pat@, 0),
{
    let n = text.unicode_len();
    let pl = pat.unicode_len();
    if pl > n {
        return None;
    }
    let mut i: usize = 0;
    while i <= n - pl
        invariant
            n == text@.len(),
            pl == pat@.len(),
            1 <= pl <= n,
            0 <= i <= n - pl + 1,
            find_from(text@, pat@, 0) == find_from(text@, pat@, i as int),
        decreases n - i,
    {
        if is_match_at(text, pat, i) {
            return Some(i);
        }
        i += 1;
    }
    None
}

/// `text` with every occurrence of `pat`, scanned left to right, replaced by
/// `rep`. Occurrences of `pat` that `rep` itself introduces are not replaced
/// again.
pub fn replace_all(text: &str, pat: &str, rep: &str) -> (r: String)
    requires
        pat@.len() >= 1,
    ensures
        r@ == replace_all_spec(text@, pat@, rep@),
    decreases text@.len(),
{
    match find_token(text, pat) {
        None => String::from_str(text),
        Some(i) => {
            proof {
                lemma_find_from(text@, pat@, 0);
            }
            let pl = pat.unicode_len();
            let tl = text.unicode_len();
            let mut out = String::from_str(text.substring_char(0, i));
            out.append(rep);
            let tail = replace_all(text.substring_char(i + pl, tl), pat, rep);
            out.append(tail.as_str());
            proof {
                assert(out@ =~= replace_all_spec(text@, pat@, rep@));
            }
            out
        },
    }
}

/// How many occurrences of `pat` a left-to-right scan of `text` finds.
pub fn count_token(text: &str, pat: &str) -> (r: usize)
    requires
        pat@.len() >= 1,
    ensures
        r == count_occurrences(text@, pat@),
    decreases text@.len(),
{
    match find_token(text, pat) {
        None => 0,
        Some(i) => {
            proof {
                lemma_find_from(text@, pat@, 0);
            }
            let pl = pat.unicode_len();
            let tl = text.unicode_len();
            let tail = text.substring_char(i + pl, tl);
            proof {
                lemma_count_le_len(tail@, pat@);
            }
            let tail_count = count_token(tail, pat);
            tail_count + 1
        },
    }
}

/// `text` with its successive occurrences of `pat` replaced by the successive
/// `vals`, in order, each later search resuming after the value substituted
/// before it.
pub fn substitute_sequence(text: &str, pat: &str, vals: &Vec<String>) -> (r: String)
    requires
        pat@.len() >= 1,
    ensures
        r@ == substitute_spec(text@, pat@, vals@.map_values(|v: String| v@)),
{
    let r = substitute_from(text, pat, vals, 0);
    proof {
        assert(vals@.map_values(|v: String| v@).subrange(0, vals@.len() as int) =~= vals@.map_values(
            |v: String| v@,
        ));
    }
    r
}

/// Substitution of the values from index `k` on, as `substitute_sequence`
/// does for all of them.
fn substitute_from(text: &str, pat: &str, vals: &Vec<String>, k: usize) -> (r: String)
    requires
        pat@.len() >= 1,
        k <= vals@.len(),
    ensures
        r@ == substitute_spec(
            text@,
            pat@,
            vals@.map_values(|v: String| v@).subrange(k as int, vals@.len() as int),
        ),
    decreases vals@.len() - k,
{
    let ghost tail_vals = vals@.map_values(|v: String| v@).subrange(k as int, vals@.len() as int);
    if k == vals.len() {
        return String::from_str(text);
    }
    match find_token(text, pat) {
        None => String::from_str(text),
        Some(i) => {
            proof {
                lemma_find_from(text@, pat@, 0);
            }
            let pl = pat.unicode_len();
            let tl = text.unicode_len();
            let mut out = String::from_str(text.substring_char(0, i));
            out.append(vals[k].as_str());
            let tail = substitute_from(text.substring_char(i + pl, tl), pat, vals, k + 1);
            out.append(tail.as_str());
            proof {
                assert(tail_vals.subrange(1, tail_vals.len() as int) =~= vals@.map_values(
                    |v: String| v@,
                ).subrange(k + 1, vals@.len() as int));
                assert(tail_vals[0] == vals@[k as int]@);
                assert(out@ =~= substitute_spec(text@, pat@, tail_vals));
            }
            out
        },
    }
}

} // verus!
