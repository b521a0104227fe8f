use vstd::prelude::*;
use vstd::string::*;

verus! {

/// Whether `pat` occurs in `s` starting at position `i`.
pub open spec fn occurs_at(s: Seq<char>, pat: Seq<char>, i: int) -> bool {
    &&& 0 <= i
    &&& i + pat.len() <= s.len()
    &&& s.subrange(i, i + pat.len()) == pat
}

/// The text from position `i` on, with every occurrence of `pat` found by a
/// left-to-right scan replaced by `rep`; the scan resumes after each replaced
/// occurrence, so occurrences never overlap.
pub open spec fn replace_from(s: Seq<char>, pat: Seq<char>, rep: Seq<char>, i: int) -> Seq<char>
    decreases s.len() - i,
{
    if i < 0 || i >= s.len() {
        Seq::empty()
    } else if pat.len() > 0 && occurs_at(s, pat, i) {
        rep + replace_from(s, pat, rep, i + pat.len())
    } else {
        seq![s[i]] + replace_from(s, pat, rep, i + 1)
    }
}

/// `s` with every non-overlapping occurrence of `pat`, leftmost first,
/// replaced by `rep` (what `str::replace` computes for a non-empty pattern).
pub open spec fn replaced(s: Seq<char>, pat: Seq<char>, rep: Seq<char>) -> Seq<char> {
    replace_from(s, pat, rep, 0)
}

/// Whether `pat` occurs anywhere in `s`.
pub open spec fn mentions(s: Seq<char>, pat: Seq<char>) -> bool {
    exists|i: int| occurs_at(s, pat, i)
}

/// Replacing inside a suffix does not depend on what precedes it.
pub proof fn lemma_replace_from_shift(p: Seq<char>, b: Seq<char>, pat: Seq<char>, rep: Seq<char>, j: int)
    requires
        0 <= j,
    ensures
        replace_from(p + b, pat, rep, p.len() + j) == replace_from(b, pat, rep, j),
    decreases b.len() - j,
{
    let x = p + b;
    let k = p.len() + j;
    if j < b.len() {
        if k + pat.len() <= x.len() {
            assert(x.subrange(k, k + pat.len()) =~= b.subrange(j, j + pat.len()));
        }
        assert(x[k] == b[j]);
        lemma_replace_from_shift(p, b, pat, rep, j + 1);
        if pat.len() > 0 && j + pat.len() <= b.len() {
            lemma_replace_from_shift(p, b, pat, rep, j + pat.len());
        }
    }
}

/// No occurrence of `pat` starts inside `a` and ends inside `b`.
pub open spec fn no_straddle(a: Seq<char>, b: Seq<char>, pat: Seq<char>) -> bool {
    forall|i: int| 0 <= i < a.len() && a.len() < i + pat.len() ==> !occurs_at(a + b, pat, i)
}

proof fn lemma_replace_from_join(a: Seq<char>, b: Seq<char>, pat: Seq<char>, rep: Seq<char>, i: int)
    requires
        pat.len() > 0,
        no_straddle(a, b, pat),
        0 <= i <= a.len(),
    ensures
        replace_from(a + b, pat, rep, i) == replace_from(a, pat, rep, i) + replace_from(b, pat, rep, 0),
    decreases a.len() - i,
{
    let x = a + b;
    let m = pat.len();
    if i == a.len() {
        lemma_replace_from_shift(a, b, pat, rep, 0);
        assert(replace_from(a, pat, rep, i) =~= Seq::<char>::empty());
        assert(replace_from(a, pat, rep, i) + replace_from(b, pat, rep, 0) =~= replace_from(b, pat, rep, 0));
    } else {
        assert(x[i] == a[i]);
        if i + m <= a.len() {
            assert(x.subrange(i, i + m) =~= a.subrange(i, i + m));
            lemma_replace_from_join(a, b, pat, rep, i + m);
        } else {
            assert(!occurs_at(x, pat, i));
        }
        lemma_replace_from_join(a, b, pat, rep, i + 1);
        if occurs_at(x, pat, i) {
            assert(rep + replace_from(a, pat, rep, i + m) + replace_from(b, pat, rep, 0)
                =~= rep + (replace_from(a, pat, rep, i + m) + replace_from(b, pat, rep, 0)));
        } else {
            assert(seq![a[i]] + replace_from(a, pat, rep, i + 1) + replace_from(b, pat, rep, 0)
                =~= seq![a[i]] + (replace_from(a, pat, rep, i + 1) + replace_from(b, pat, rep, 0)));
        }
    }
}

/// Replacing in a concatenation is replacing in each part, as long as no
/// occurrence of `pat` can cross the seam: the last character of `a`, or the
/// first of `b`, is not a character of `pat`.
pub proof fn lemma_replaced_join(a: Seq<char>, b: Seq<char>, pat: Seq<char>, rep: Seq<char>)
    requires
        pat.len() > 0,
        (a.len() > 0 && !pat.contains(a.last())) || (b.len() > 0 && !pat.contains(b[0])),
    ensures
        replaced(a + b, pat, rep) == replaced(a, pat, rep) + replaced(b, pat, rep),
{
    let x = a + b;
    assert forall|i: int| 0 <= i < a.len() && a.len() < i + pat.len() implies !occurs_at(x, pat, i) by {
        if occurs_at(x, pat, i) {
            let w = x.subrange(i, i + pat.len());
            if a.len() > 0 && !pat.contains(a.last()) {
                assert(w[a.len() - 1 - i] == a.last());
                assert(pat[a.len() - 1 - i] == a.last());
            } else {
                assert(w[a.len() - i] == b[0]);
                assert(pat[a.len() - i] == b[0]);
            }
        }
    }
    lemma_replace_from_join(a, b, pat, rep, 0);
}

proof fn lemma_replace_from_absent(s: Seq<char>, pat: Seq<char>, rep: Seq<char>, i: int)
    requires
        !mentions(s, pat),
        0 <= i <= s.len(),
    ensures
        replace_from(s, pat, rep, i) == s.subrange(i, s.len() as int),
    decreases s.len() - i,
{
    if i < s.len() {
        assert(!occurs_at(s, pat, i));
        lemma_replace_from_absent(s, pat, rep, i + 1);
        assert(s.subrange(i, s.len() as int) =~= seq![s[i]] + s.subrange(i + 1, s.len() as int));
    } else {
        assert(s.subrange(i, s.len() as int) =~= Seq::<char>::empty());
    }
}

/// Text in which `pat` does not occur comes back unchanged.
pub proof fn lemma_replaced_absent(s: Seq<char>, pat: Seq<char>, rep: Seq<char>)
    requires
        !mentions(s, pat),
    ensures
        replaced(s, pat, rep) == s,
{
    lemma_replace_from_absent(s, pat, rep, 0);
    assert(s.subrange(0, s.len() as int) =~= s);
}

/// A pattern whose first character does not appear in `s` does not occur in `s`.
pub proof fn lemma_absent_first_char(s: Seq<char>, pat: Seq<char>)
    requires
        pat.len() > 0,
        !s.contains(pat[0]),
    ensures
        !mentions(s, pat),
{
    if mentions(s, pat) {
        let i = choose|i: int| occurs_at(s, pat, i);
        assert(s.subrange(i, i + pat.len())[0] == s[i]);
    }
}

/// The pattern alone is replaced by the replacement.
pub proof fn lemma_replaced_whole(pat: Seq<char>, rep: Seq<char>)
    requires
        pat.len() > 0,
    ensures
        replaced(pat, pat, rep) == rep,
{
    assert(pat.subrange(0, pat.len() as int) =~= pat);
    assert(replace_from(pat, pat, rep, pat.len() as int) =~= Seq::<char>::empty());
    assert(rep + Seq::<char>::empty() =~= rep);
}

/// The characters of `s`, in order.
pub(crate) fn chars_of(s: &str) -> (v: Vec<char>)
    ensures
        v@ == s@,
{
    broadcast use vstd::string::group_string_axioms;
    let mut v: Vec<char> = Vec::new();
    for c in it: s.chars()
        invariant
            it.seq() == s@,
            v@ == it.seq().take(it.index()),
    {
        v.push(c);
    }
    v
}

/// Whether `pat` occurs in `text` at position `i`.
fn occurs_at_index(text: &Vec<char>, pat: &Vec<char>, i: usize) -> (b: bool)
    ensures
        b == occurs_at(text@, pat@, i as int),
{
    if pat.len() > text.len() || i > text.len() - pat.len() {
        return false;
    }
    let mut j: usize = 0;
    while j < pat.len()
        invariant
            j <= pat.len(),
            i + pat.len() <= text.len(),
            forall|k: int| 0 <= k < j ==> text@[i + k] == pat@[k],
        decreases pat.len() - j,
    {
        if text[i + j] != pat[j] {
            assert(text@.subrange(i as int, i + pat@.len())[j as int] != pat@[j as int]);
            return false;
        }
        j = j + 1;
    }
    assert(text@.subrange(i as int, i + pat@.len()) =~= pat@);
    true
}

/// `s` with every occurrence of `pat` replaced by `rep`, scanning left to
/// right without overlaps, as `str::replace` does.
pub fn replace_all(s: &str, pat: &str, rep: &str) -> (r: String)
    requires
        pat@.len() > 0,
    ensures
        r@ == replaced(s@, pat@, rep@),
{
    let text = chars_of(s);
    let needle = chars_of(pat);
    let n = text.len();
    let mut out = String::new();
    let mut start: usize = 0;
    let mut i: usize = 0;
    assert(s@.subrange(0, 0) =~= Seq::<char>::empty());
    assert(out@ + s@.subrange(0, 0) + replace_from(s@, pat@, rep@, 0) =~= replaced(s@, pat@, rep@));
    while i < n
        invariant
            text@ == s@,
            needle@ == pat@,
            n == s@.len(),
            pat@.len() > 0,
            start <= i <= n,
            out@ + s@.subrange(start as int, i as int) + replace_from(s@, pat@, rep@, i as int)
                == replaced(s@, pat@, rep@),
        decreases n - i,
    {
        let ghost before = out@;
        if occurs_at_index(&text, &needle, i) {
            let piece = s.substring_char(start, i);
            out.append(piece);
            out.append(rep);
            proof {
                let m = pat@.len();
                assert(replace_from(s@, pat@, rep@, i as int) == rep@ + replace_from(
                    s@,
                    pat@,
                    rep@,
                    i + m,
                ));
                assert(s@.subrange(i + m, i + m) =~= Seq::<char>::empty());
                assert(out@ + s@.subrange(i + m, i + m) + replace_from(s@, pat@, rep@, i + m)
                    =~= before + s@.subrange(start as int, i as int) + replace_from(
                    s@,
                    pat@,
                    rep@,
                    i as int,
                ));
            }
            i = i + needle.len();
            start = i;
        } else {
            proof {
                assert(replace_from(s@, pat@, rep@, i as int) == seq![s@[i as int]]
                    + replace_from(s@, pat@, rep@, i + 1));
                assert(s@.subrange(start as int, i + 1) =~= s@.subrange(start as int, i as int)
                    + seq![s@[i as int]]);
                assert(out@ + s@.subrange(start as int, i + 1) + replace_from(s@, pat@, rep@, i + 1)
                    =~= out@ + s@.subrange(start as int, i as int) + replace_from(
                    s@,
                    pat@,
                    rep@,
                    i as int,
                ));
            }
            i = i + 1;
        }
    }
    let tail = s.substring_char(start, n);
    out.append(tail);
    assert(out@ =~= replaced(s@, pat@, rep@));
    out
}

} // verus!
