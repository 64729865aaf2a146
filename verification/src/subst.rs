//! Verbatim textual substitution of a placeholder token.
//!
//! `replace_chars` substitutes every occurrence of a pattern in a character
//! sequence, scanning left to right without rescanning replacement text,
//! exactly as a plain string replace does.  The module proves the
//! substitution laws: the scan performs one substitution per occurrence of
//! the pattern (`lemma_replace_length`), a text without occurrences is left
//! unchanged (`lemma_replace_unchanged`), and under stated conditions on the
//! replacement no occurrence of the pattern survives the substitution
//! (`lemma_replace_removes_pattern`), so substituting a second time changes
//! nothing (`lemma_replace_idempotent`).

use vstd::prelude::*;

verus! {

/// The pattern `pat` occurs in `t` starting at position `i`.
pub open spec fn match_at(t: Seq<char>, pat: Seq<char>, i: int) -> bool {
    &&& 0 <= i
    &&& i + pat.len() <= t.len()
    &&& t.subrange(i, i + pat.len() as int) == pat
}

/// The pattern `pat` occurs somewhere in `t`.
pub open spec fn occurs(t: Seq<char>, pat: Seq<char>) -> bool {
    exists|i: int| match_at(t, pat, i)
}

/// Left-to-right, non-overlapping substitution of `pat` by `rep` in `t`.
/// Replacement text is emitted, never rescanned.
pub open spec fn spec_replace(t: Seq<char>, pat: Seq<char>, rep: Seq<char>) -> Seq<char>
    decreases t.len(),
{
    if pat.len() == 0 || t.len() < pat.len() {
        t
    } else if t.subrange(0, pat.len() as int) == pat {
        rep + spec_replace(t.skip(pat.len() as int), pat, rep)
    } else {
        seq![t[0]] + spec_replace(t.skip(1), pat, rep)
    }
}

/// How many non-overlapping occurrences of `pat` a left-to-right scan of `t`
/// finds; each is substituted exactly once by `spec_replace`.
pub open spec fn count_occurrences(t: Seq<char>, pat: Seq<char>) -> nat
    decreases t.len(),
{
    if pat.len() == 0 || t.len() < pat.len() {
        0
    } else if t.subrange(0, pat.len() as int) == pat {
        1 + count_occurrences(t.skip(pat.len() as int), pat)
    } else {
        count_occurrences(t.skip(1), pat)
    }
}

/// The characters of `pat` strictly between its first and its last one.
pub open spec fn pattern_interior(pat: Seq<char>) -> Seq<char> {
    pat.subrange(1, pat.len() - 1)
}

/// The substitution makes one replacement per occurrence found: the length
/// of the result is the length of the text, adjusted once per occurrence by
/// the difference between replacement and pattern length.
pub proof fn lemma_replace_length(t: Seq<char>, pat: Seq<char>, rep: Seq<char>)
    ensures
        spec_replace(t, pat, rep).len() == t.len() + count_occurrences(t, pat) * (
        rep.len() as int - pat.len() as int),
    decreases t.len(),
{
    let d = rep.len() as int - pat.len() as int;
    if pat.len() == 0 || t.len() < pat.len() {
        assert(count_occurrences(t, pat) * d == 0) by (nonlinear_arith)
            requires
                count_occurrences(t, pat) == 0,
        ;
    } else if t.subrange(0, pat.len() as int) == pat {
        lemma_replace_length(t.skip(pat.len() as int), pat, rep);
        let c = count_occurrences(t.skip(pat.len() as int), pat);
        assert(count_occurrences(t, pat) == 1 + c);
        assert(spec_replace(t, pat, rep).len() == rep.len() + t.skip(pat.len() as int).len()
            + c * d);
        assert((1 + c) * d == d + c * d) by (nonlinear_arith);
    } else {
        lemma_replace_length(t.skip(1), pat, rep);
        assert(count_occurrences(t, pat) == count_occurrences(t.skip(1), pat));
        assert(spec_replace(t, pat, rep).len() == 1 + t.skip(1).len() + count_occurrences(
            t.skip(1),
            pat,
        ) * d);
    }
}

/// A text in which the pattern does not occur is returned unchanged.
pub proof fn lemma_replace_unchanged(t: Seq<char>, pat: Seq<char>, rep: Seq<char>)
    requires
        !occurs(t, pat),
    ensures
        spec_replace(t, pat, rep) == t,
    decreases t.len(),
{
    if pat.len() == 0 || t.len() < pat.len() {
    } else if t.subrange(0, pat.len() as int) == pat {
        assert(match_at(t, pat, 0));
    } else {
        assert forall|i: int| !match_at(t.skip(1), pat, i) by {
            if match_at(t.skip(1), pat, i) {
                assert(t.subrange(i + 1, i + 1 + pat.len() as int) =~= t.skip(1).subrange(
                    i,
                    i + pat.len() as int,
                ));
                assert(match_at(t, pat, i + 1));
            }
        }
        lemma_replace_unchanged(t.skip(1), pat, rep);
        assert(seq![t[0]] + t.skip(1) =~= t);
    }
}

/// The scan finds no occurrence exactly when none exists: a count of zero
/// and the absence of any occurrence say the same thing.
pub proof fn lemma_count_zero_iff_no_occurrence(t: Seq<char>, pat: Seq<char>)
    requires
        pat.len() >= 1,
    ensures
        count_occurrences(t, pat) == 0 <==> !occurs(t, pat),
    decreases t.len(),
{
    if t.len() < pat.len() {
        assert forall|i: int| !match_at(t, pat, i) by {}
    } else if t.subrange(0, pat.len() as int) == pat {
        assert(match_at(t, pat, 0));
    } else {
        lemma_count_zero_iff_no_occurrence(t.skip(1), pat);
        assert(occurs(t, pat) <==> occurs(t.skip(1), pat)) by {
            if occurs(t, pat) {
                let i = choose|i: int| match_at(t, pat, i);
                assert(i != 0);
                assert(t.skip(1).subrange(i - 1, i - 1 + pat.len() as int) =~= t.subrange(
                    i,
                    i + pat.len() as int,
                ));
                assert(match_at(t.skip(1), pat, i - 1));
            }
            if occurs(t.skip(1), pat) {
                let i = choose|i: int| match_at(t.skip(1), pat, i);
                assert(t.subrange(i + 1, i + 1 + pat.len() as int) =~= t.skip(1).subrange(
                    i,
                    i + pat.len() as int,
                ));
                assert(match_at(t, pat, i + 1));
            }
        }
    }
}

/// Helper: if a suffix of the pattern (starting at `k >= 1`) is a prefix of
/// the substituted text, that suffix was already a prefix of the input text.
proof fn lemma_suffix_prefix(t: Seq<char>, pat: Seq<char>, rep: Seq<char>, k: int)
    requires
        pat.len() >= 2,
        !rep.contains(pat[0]),
        !rep.contains(pat.last()),
        !occurs(pattern_interior(pat), rep),
        1 <= k < pat.len(),
        pat.skip(k).is_prefix_of(spec_replace(t, pat, rep)),
    ensures
        pat.skip(k).is_prefix_of(t),
    decreases t.len(),
{
    let out = spec_replace(t, pat, rep);
    let sfx = pat.skip(k);
    let m = pat.len() - k;
    assert(sfx.len() == m);
    assert(sfx.last() == pat.last());
    if rep.len() == 0 {
        assert(pattern_interior(pat).subrange(0, 0) =~= rep);
        assert(match_at(pattern_interior(pat), rep, 0));
        assert(false);
    }
    if t.len() < pat.len() {
        // out == t
    } else if t.subrange(0, pat.len() as int) == pat {
        // out == rep + spec_replace(t.skip(pat.len()), pat, rep)
        if rep.len() >= m {
            assert(rep[m - 1] == out[m - 1]);
            assert(out[m - 1] == sfx[m - 1]);
            assert(rep.contains(pat.last()));
            assert(false);
        } else {
            // rep is a proper prefix of sfx, so rep appears inside pat at k.
            assert forall|j: int| 0 <= j < rep.len() implies rep[j] == pat[k + j] by {
                assert(rep[j] == out[j]);
                assert(out[j] == sfx[j]);
            }
            if k + rep.len() <= pat.len() - 1 {
                assert(pattern_interior(pat).subrange(k - 1, k - 1 + rep.len() as int) =~= rep);
                assert(match_at(pattern_interior(pat), rep, k - 1));
                assert(false);
            } else {
                assert(k + rep.len() == pat.len());
                assert(rep[rep.len() - 1] == pat.last());
                assert(rep.contains(pat.last()));
                assert(false);
            }
        }
    } else {
        let tail = spec_replace(t.skip(1), pat, rep);
        assert(out == seq![t[0]] + tail);
        assert(t[0] == out[0] && out[0] == sfx[0] && sfx[0] == pat[k]);
        if k + 1 < pat.len() {
            assert forall|j: int| 0 <= j < pat.skip(k + 1).len() implies pat.skip(k + 1)[j]
                == tail[j] by {
                assert(pat.skip(k + 1)[j] == sfx[j + 1]);
                assert(sfx[j + 1] == out[j + 1]);
                assert(out[j + 1] == tail[j]);
            }
            assert(pat.skip(k + 1).is_prefix_of(tail));
            lemma_suffix_prefix(t.skip(1), pat, rep, k + 1);
            assert forall|j: int| 0 <= j < sfx.len() implies sfx[j] == t[j] by {
                if j > 0 {
                    assert(pat.skip(k + 1)[j - 1] == t.skip(1)[j - 1]);
                }
            }
            assert(sfx.is_prefix_of(t));
        } else {
            assert(sfx =~= seq![pat[k]]);
            assert(sfx.is_prefix_of(t));
        }
    }
}

/// THE SUBSTITUTION LAW: after substituting, the pattern does not occur in
/// the result, provided the replacement contains neither the first nor the
/// last character of the pattern and does not itself occur inside the
/// pattern's interior.  (Without these conditions a replacement can splice a
/// new occurrence together out of fragments, so the law would not hold.)
pub proof fn lemma_replace_removes_pattern(t: Seq<char>, pat: Seq<char>, rep: Seq<char>)
    requires
        pat.len() >= 2,
        !rep.contains(pat[0]),
        !rep.contains(pat.last()),
        !occurs(pattern_interior(pat), rep),
    ensures
        !occurs(spec_replace(t, pat, rep), pat),
    decreases t.len(),
{
    let out = spec_replace(t, pat, rep);
    if t.len() < pat.len() {
        assert forall|i: int| !match_at(out, pat, i) by {}
    } else if t.subrange(0, pat.len() as int) == pat {
        let tail = spec_replace(t.skip(pat.len() as int), pat, rep);
        lemma_replace_removes_pattern(t.skip(pat.len() as int), pat, rep);
        assert forall|i: int| !match_at(out, pat, i) by {
            if match_at(out, pat, i) {
                if i < rep.len() {
                    assert(out[i] == rep[i]);
                    assert(out[i] == out.subrange(i, i + pat.len() as int)[0]);
                    assert(rep.contains(pat[0]));
                } else {
                    assert(tail.subrange(i - rep.len(), i - rep.len() + pat.len() as int)
                        =~= out.subrange(i, i + pat.len() as int));
                    assert(match_at(tail, pat, i - rep.len()));
                }
            }
        }
    } else {
        let tail = spec_replace(t.skip(1), pat, rep);
        lemma_replace_removes_pattern(t.skip(1), pat, rep);
        assert forall|i: int| !match_at(out, pat, i) by {
            if match_at(out, pat, i) {
                if i >= 1 {
                    assert(tail.subrange(i - 1, i - 1 + pat.len() as int) =~= out.subrange(
                        i,
                        i + pat.len() as int,
                    ));
                    assert(match_at(tail, pat, i - 1));
                } else {
                    let w = out.subrange(0, pat.len() as int);
                    assert(w == pat);
                    assert(t[0] == w[0]);
                    assert forall|j: int| 0 <= j < pat.skip(1).len() implies pat.skip(1)[j]
                        == tail[j] by {
                        assert(pat.skip(1)[j] == w[j + 1]);
                        assert(w[j + 1] == out[j + 1]);
                        assert(out[j + 1] == tail[j]);
                    }
                    assert(pat.skip(1).is_prefix_of(tail));
                    lemma_suffix_prefix(t.skip(1), pat, rep, 1);
                    assert forall|j: int| 0 <= j < pat.len() implies t.subrange(
                        0,
                        pat.len() as int,
                    )[j] == pat[j] by {
                        if j > 0 {
                            assert(pat.skip(1)[j - 1] == t.skip(1)[j - 1]);
                        }
                    }
                    assert(t.subrange(0, pat.len() as int) =~= pat);
                }
            }
        }
    }
}

/// Substituting a second time changes nothing: the substitution is
/// idempotent under the conditions of `lemma_replace_removes_pattern`.
pub proof fn lemma_replace_idempotent(t: Seq<char>, pat: Seq<char>, rep: Seq<char>)
    requires
        pat.len() >= 2,
        !rep.contains(pat[0]),
        !rep.contains(pat.last()),
        !occurs(pattern_interior(pat), rep),
    ensures
        spec_replace(spec_replace(t, pat, rep), pat, rep) == spec_replace(t, pat, rep),
{
    lemma_replace_removes_pattern(t, pat, rep);
    lemma_replace_unchanged(spec_replace(t, pat, rep), pat, rep);
}

/// Does `pat` occur in `t` at position `i`?  Executable form of `match_at`.
fn is_match_at(t: &Vec<char>, pat: &Vec<char>, i: usize) -> (r: bool)
    requires
        i + pat@.len() <= t@.len(),
    ensures
        r == match_at(t@, pat@, i as int),
{
    let tl = t.len();
    let mut j: usize = 0;
    while j < pat.len()
        invariant
            0 <= j <= pat@.len(),
            i + pat@.len() <= t@.len(),
            t@.len() == tl,
            forall|q: int| 0 <= q < j ==> t@[i + q] == pat@[q],
        decreases pat@.len() - j,
    {
        if t[i + j] != pat[j] {
            proof {
                assert(t@.subrange(i as int, i + pat@.len() as int)[j as int] != pat@[j as int]);
            }
            return false;
        }
        j = j + 1;
    }
    proof {
        assert(t@.subrange(i as int, i + pat@.len() as int) =~= pat@);
    }
    true
}

/// Appends `src` to `out`.
pub(crate) fn push_all(out: &mut Vec<char>, src: &Vec<char>)
    ensures
        final(out)@ == old(out)@ + src@,
{
    let mut j: usize = 0;
    while j < src.len()
        invariant
            0 <= j <= src@.len(),
            out@ == old(out)@ + src@.subrange(0, j as int),
        decreases src@.len() - j,
    {
        let c = src[j];
        out.push(c);
        proof {
            assert(old(out)@ + src@.subrange(0, j as int) + seq![src@[j as int]] =~= old(out)@
                + src@.subrange(0, j + 1 as int));
        }
        j = j + 1;
    }
    proof {
        assert(src@.subrange(0, src@.len() as int) =~= src@);
    }
}

/// Replaces every occurrence of `pat` in `t` by `rep`, scanning left to
/// right; replacement text is never rescanned.
pub fn replace_chars(t: &Vec<char>, pat: &Vec<char>, rep: &Vec<char>) -> (r: Vec<char>)
    requires
        pat@.len() >= 1,
    ensures
        r@ == spec_replace(t@, pat@, rep@),
{
    let mut out: Vec<char> = Vec::new();
    let mut i: usize = 0;
    proof {
        assert(t@.skip(0) =~= t@);
        assert(out@ + t@ =~= t@);
    }
    while t.len() - i >= pat.len()
        invariant
            pat@.len() >= 1,
            0 <= i <= t@.len(),
            spec_replace(t@, pat@, rep@) == out@ + spec_replace(
                t@.skip(i as int),
                pat@,
                rep@,
            ),
        decreases t@.len() - i,
    {
        let ghost rest = t@.skip(i as int);
        if is_match_at(t, pat, i) {
            proof {
                assert(rest.subrange(0, pat@.len() as int) =~= t@.subrange(
                    i as int,
                    i + pat@.len() as int,
                ));
                assert(rest.skip(pat@.len() as int) =~= t@.skip(i + pat@.len() as int));
                assert(spec_replace(rest, pat@, rep@) == rep@ + spec_replace(
                    t@.skip(i + pat@.len() as int),
                    pat@,
                    rep@,
                ));
                assert(out@ + (rep@ + spec_replace(t@.skip(i + pat@.len() as int), pat@, rep@))
                    =~= (out@ + rep@) + spec_replace(t@.skip(i + pat@.len() as int), pat@, rep@));
            }
            push_all(&mut out, rep);
            i = i + pat.len();
        } else {
            proof {
                assert(rest.subrange(0, pat@.len() as int) =~= t@.subrange(
                    i as int,
                    i + pat@.len() as int,
                ));
                assert(rest.skip(1) =~= t@.skip(i + 1));
                assert(seq![rest[0]] =~= seq![t@[i as int]]);
                assert(spec_replace(rest, pat@, rep@) == seq![t@[i as int]] + spec_replace(
                    t@.skip(i + 1),
                    pat@,
                    rep@,
                ));
                assert(out@ + (seq![t@[i as int]] + spec_replace(t@.skip(i + 1), pat@, rep@))
                    =~= (out@ + seq![t@[i as int]]) + spec_replace(t@.skip(i + 1), pat@, rep@));
                assert(out@.push(t@[i as int]) =~= out@ + seq![t@[i as int]]);
            }
            let c = t[i];
            out.push(c);
            i = i + 1;
        }
    }
    let ghost rest = t@.skip(i as int);
    proof {
        assert(rest.len() < pat@.len());
        assert(spec_replace(t@, pat@, rep@) == out@ + rest);
    }
    let mut k: usize = i;
    while k < t.len()
        invariant
            0 <= k <= t@.len(),
            spec_replace(t@, pat@, rep@) == out@ + t@.skip(k as int),
        decreases t@.len() - k,
    {
        let c = t[k];
        out.push(c);
        proof {
            assert(t@.skip(k as int) =~= seq![t@[k as int]] + t@.skip(k + 1));
            assert(out@ + t@.skip(k + 1) =~= spec_replace(t@, pat@, rep@));
        }
        k = k + 1;
    }
    proof {
        assert(t@.skip(t@.len() as int) =~= Seq::<char>::empty());
        assert(out@ =~= spec_replace(t@, pat@, rep@));
    }
    out
}

} // verus!
