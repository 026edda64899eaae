//! Literal substring replacement over sequences of characters.

use vstd::prelude::*;
use vstd::std_specs::iter::IteratorSpec;

verus! {

/// `pat` stands in `s` at position `i`.
pub open spec fn occurs_at(s: Seq<char>, pat: Seq<char>, i: int) -> bool {
    &&& 0 <= i
    &&& i + pat.len() <= s.len()
    &&& s.subrange(i, i + pat.len()) == pat
}

/// `pat` stands somewhere in `s`.
pub open spec fn occurs(s: Seq<char>, pat: Seq<char>) -> bool {
    exists|i: int| occurs_at(s, pat, i)
}

/// `s` with every occurrence of `pat` replaced by `rep`: occurrences are
/// taken from the left and never overlap, and what was put in is not read
/// again. An empty `pat` replaces nothing.
pub open spec fn replace_all(s: Seq<char>, pat: Seq<char>, rep: Seq<char>) -> Seq<char>
    decreases s.len(),
{
    if pat.len() == 0 || s.len() < pat.len() {
        s
    } else if occurs_at(s, pat, 0) {
        rep + replace_all(s.subrange(pat.len() as int, s.len() as int), pat, rep)
    } else {
        seq![s[0]] + replace_all(s.subrange(1, s.len() as int), pat, rep)
    }
}

/// The characters of `text`, one element each.
pub fn to_chars(text: &str) -> (out: Vec<char>)
    ensures
        out@ == text@,
{
    let mut out: Vec<char> = Vec::new();
    let chars = text.chars();
    for c in it: chars
        invariant
            out@ == it.seq().take(it.index@),
    {
        out.push(c);
    }
    out
}

/// Whether `pat` stands in `s` at position `i`. Past the end of `s`
/// nothing stands, not even the empty pattern.
pub fn matches_at(s: &Vec<char>, pat: &Vec<char>, i: usize) -> (found: bool)
    ensures
        found == occurs_at(s@, pat@, i as int),
{
    if i > s.len() || pat.len() > s.len() - i {
        return false;
    }
    let mut k: usize = 0;
    while k < pat.len()
        invariant
            i + pat@.len() <= s@.len() <= usize::MAX,
            k <= pat@.len(),
            forall|j: int| 0 <= j < k ==> s@[i + j] == pat@[j],
        decreases pat@.len() - k,
    {
        if s[i + k] != pat[k] {
            proof {
                assert(s@.subrange(i as int, i + pat@.len())[k as int] == s@[i + k]);
            }
            return false;
        }
        k += 1;
    }
    proof {
        assert(s@.subrange(i as int, i + pat@.len()) =~= pat@);
    }
    true
}

/// `text` with every occurrence of `marker` replaced by `fragment`, the
/// occurrences taken from the left without overlap. An empty `marker`
/// replaces nothing.
pub fn substitute(text: &str, marker: &str, fragment: &str) -> (out: String)
    ensures
        out@ == replace_all(text@, marker@, fragment@),
{
    let s = to_chars(text);
    let pat = to_chars(marker);
    let n = s.len();
    let m = pat.len();
    if m == 0 || n < m {
        return String::from_str(text);
    }
    let mut out = String::new();
    // Characters from `kept` up to `i` are passed over and not yet written.
    let mut kept: usize = 0;
    let mut i: usize = 0;
    proof {
        assert(s@.subrange(0, n as int) =~= s@);
        assert(out@ + s@.subrange(0, 0) + replace_all(s@, pat@, fragment@) =~= replace_all(
            s@,
            pat@,
            fragment@,
        ));
    }
    while i < n
        invariant
            s@ == text@,
            pat@ == marker@,
            n == s@.len(),
            m == pat@.len(),
            0 < m <= n,
            kept <= i <= n,
            out@ + s@.subrange(kept as int, i as int) + replace_all(
                s@.subrange(i as int, n as int),
                pat@,
                fragment@,
            ) == replace_all(s@, pat@, fragment@),
        decreases n - i,
    {
        let ghost rest = s@.subrange(i as int, n as int);
        let ghost before = out@ + s@.subrange(kept as int, i as int);
        if matches_at(&s, &pat, i) {
            let ghost tail = replace_all(s@.subrange(i + m, n as int), pat@, fragment@);
            proof {
                assert(rest.subrange(0, m as int) =~= s@.subrange(i as int, i + m));
                assert(rest.subrange(m as int, rest.len() as int) =~= s@.subrange(
                    i + m,
                    n as int,
                ));
                assert(replace_all(rest, pat@, fragment@) == fragment@ + tail);
            }
            out.append(text.substring_char(kept, i));
            out.append(fragment);
            i += m;
            kept = i;
            proof {
                assert(out@ + s@.subrange(kept as int, i as int) + tail =~= before + (fragment@
                    + tail));
            }
        } else {
            let ghost tail = replace_all(s@.subrange(i + 1, n as int), pat@, fragment@);
            proof {
                if i + m <= n {
                    assert(rest.subrange(0, m as int) =~= s@.subrange(i as int, i + m));
                    assert(rest.subrange(1, rest.len() as int) =~= s@.subrange(i + 1, n as int));
                } else {
                    // Too short to hold the marker: the rest stays as it is.
                    lemma_short_unchanged(s@.subrange(i + 1, n as int), pat@, fragment@);
                    assert(rest =~= seq![rest[0]] + s@.subrange(i + 1, n as int));
                }
                assert(replace_all(rest, pat@, fragment@) == seq![rest[0]] + tail);
                assert(out@ + s@.subrange(kept as int, i + 1) + tail =~= before + (seq![rest[0]]
                    + tail));
            }
            i += 1;
        }
    }
    proof {
        assert(s@.subrange(n as int, n as int) =~= Seq::<char>::empty());
        assert(out@ + s@.subrange(kept as int, n as int) + Seq::<char>::empty() =~= out@
            + s@.subrange(kept as int, n as int));
    }
    out.append(text.substring_char(kept, n));
    out
}

/// A sequence shorter than `pat` is left as it is.
pub proof fn lemma_short_unchanged(s: Seq<char>, pat: Seq<char>, rep: Seq<char>)
    requires
        s.len() < pat.len(),
    ensures
        replace_all(s, pat, rep) == s,
{
}

/// Replacing a pattern that does not occur changes nothing.
pub proof fn lemma_absent_unchanged(s: Seq<char>, pat: Seq<char>, rep: Seq<char>)
    requires
        !occurs(s, pat),
    ensures
        replace_all(s, pat, rep) == s,
    decreases s.len(),
{
    if pat.len() == 0 || s.len() < pat.len() {
    } else {
        assert(!occurs_at(s, pat, 0));
        let tail = s.subrange(1, s.len() as int);
        assert forall|i: int| !occurs_at(tail, pat, i) by {
            if occurs_at(tail, pat, i) {
                assert(tail.subrange(i, i + pat.len()) =~= s.subrange(i + 1, i + 1 + pat.len()));
                assert(occurs_at(s, pat, i + 1));
            }
        }
        lemma_absent_unchanged(tail, pat, rep);
        assert(seq![s[0]] + tail =~= s);
    }
}

} // verus!
