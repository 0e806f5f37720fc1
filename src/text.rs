//! Searching for fixed patterns in character sequences.
use vstd::prelude::*;

verus! {

/// `pat` occurs in `s` starting at position `i`.
pub open spec fn occurs_at(s: Seq<char>, pat: Seq<char>, i: int) -> bool {
    0 <= i && i + pat.len() <= s.len() && s.subrange(i, i + pat.len()) == pat
}

/// The first position at or after `from` where `pat` occurs in `s`.
pub open spec fn find_from(s: Seq<char>, pat: Seq<char>, from: int) -> Option<int>
    decreases s.len() + 1 - from,
{
    if from < 0 || from + pat.len() > s.len() {
        None
    } else if occurs_at(s, pat, from) {
        Some(from)
    } else {
        find_from(s, pat, from + 1)
    }
}

/// The last position below `n` where `pat` occurs in `s`.
pub open spec fn find_last_below(s: Seq<char>, pat: Seq<char>, n: int) -> Option<int>
    decreases n,
{
    if n <= 0 {
        None
    } else if occurs_at(s, pat, n - 1) {
        Some(n - 1)
    } else {
        find_last_below(s, pat, n - 1)
    }
}

/// The last position where `pat` occurs in `s`.
pub open spec fn find_last(s: Seq<char>, pat: Seq<char>) -> Option<int> {
    find_last_below(s, pat, s.len() + 1 as int)
}

/// `find_from` with its positions as machine integers.
pub open spec fn as_int(r: Option<usize>) -> Option<int> {
    match r {
        Some(i) => Some(i as int),
        None => None,
    }
}

/// A hit of `find_from` is an occurrence at or after `from`, with none before it.
pub proof fn lemma_find_from_hit(s: Seq<char>, pat: Seq<char>, from: int)
    requires
        0 <= from,
    ensures
        match find_from(s, pat, from) {
            Some(i) => from <= i && occurs_at(s, pat, i) && forall|j: int|
                from <= j < i ==> !occurs_at(s, pat, j),
            None => forall|j: int| from <= j ==> !occurs_at(s, pat, j),
        },
    decreases s.len() + 1 - from,
{
    if from < 0 || from + pat.len() > s.len() {
    } else if occurs_at(s, pat, from) {
    } else {
        lemma_find_from_hit(s, pat, from + 1);
    }
}

/// Whether `pat` occurs in `s` at position `i`.
fn matches_at(s: &Vec<char>, pat: &Vec<char>, i: usize) -> (r: bool)
    requires
        i + pat@.len() <= s@.len(),
    ensures
        r == occurs_at(s@, pat@, i as int),
{
    let slen: usize = s.len();
    let mut j: usize = 0;
    while j < pat.len()
        invariant
            slen == s@.len(),
            j <= pat@.len(),
            i + pat@.len() <= s@.len(),
            s@.subrange(i as int, i + j) == pat@.subrange(0, j as int),
        decreases pat@.len() - j,
    {
        let k: usize = i + j;
        if s[k] != pat[j] {
            assert(s@.subrange(i as int, i + pat@.len())[j as int] != pat@[j as int]);
            return false;
        }
        assert(s@.subrange(i as int, i + j + 1) =~= s@.subrange(i as int, i + j).push(s@[i + j]));
        assert(pat@.subrange(0, j + 1) =~= pat@.subrange(0, j as int).push(pat@[j as int]));
        j = j + 1;
    }
    assert(pat@.subrange(0, pat@.len() as int) =~= pat@);
    true
}

/// The first position at or after `from` where `pat` occurs in `s`.
pub fn find_chars(s: &Vec<char>, pat: &Vec<char>, from: usize) -> (r: Option<usize>)
    ensures
        as_int(r) == find_from(s@, pat@, from as int),
{
    if pat.len() > s.len() || from > s.len() - pat.len() {
        return None;
    }
    let last: usize = s.len() - pat.len();
    let mut i: usize = from;
    loop
        invariant
            from <= i <= last,
            last + pat@.len() == s@.len(),
            find_from(s@, pat@, from as int) == find_from(s@, pat@, i as int),
        decreases last - i,
    {
        if matches_at(s, pat, i) {
            return Some(i);
        }
        if i == last {
            return None;
        }
        i = i + 1;
    }
}

/// The last position where `pat` occurs in `s`.
pub fn find_last_chars(s: &Vec<char>, pat: &Vec<char>) -> (r: Option<usize>)
    ensures
        as_int(r) == find_last(s@, pat@),
{
    if pat.len() > s.len() {
        proof {
            lemma_find_last_none(s@, pat@, s@.len() + 1 as int);
        }
        return None;
    }
    let mut m: usize = s.len() - pat.len();
    proof {
        lemma_find_last_skip(s@, pat@, s@.len() + 1 as int, m + 1);
    }
    loop
        invariant
            m + pat@.len() <= s@.len(),
            find_last(s@, pat@) == find_last_below(s@, pat@, m + 1),
        decreases m,
    {
        if matches_at(s, pat, m) {
            return Some(m);
        }
        if m == 0 {
            assert(find_last_below(s@, pat@, 0) is None);
            return None;
        }
        m = m - 1;
    }
}

proof fn lemma_find_last_none(s: Seq<char>, pat: Seq<char>, n: int)
    requires
        pat.len() > s.len(),
    ensures
        find_last_below(s, pat, n) is None,
    decreases n,
{
    if n > 0 {
        lemma_find_last_none(s, pat, n - 1);
    }
}

/// Positions from `m` up to `n` cannot start an occurrence that fits.
proof fn lemma_find_last_skip(s: Seq<char>, pat: Seq<char>, n: int, m: int)
    requires
        0 <= m <= n,
        m + pat.len() == s.len() + 1,
    ensures
        find_last_below(s, pat, n) == find_last_below(s, pat, m),
    decreases n - m,
{
    if n > m {
        lemma_find_last_skip(s, pat, n - 1, m);
    }
}

/// The characters of `s`, in order.
pub fn chars_of(s: &str) -> (r: Vec<char>)
    ensures
        r@ == s@,
{
    let mut v: Vec<char> = Vec::new();
    for c in it: s.chars()
        invariant
            v@ == it.seq().take(it.index() as int),
    {
        v.push(c);
    }
    v
}


/// Appends `src[lo..hi]` to `out`.
pub fn push_range(out: &mut Vec<char>, src: &Vec<char>, lo: usize, hi: usize)
    requires
        lo <= hi <= src@.len(),
    ensures
        final(out)@ == old(out)@ + src@.subrange(lo as int, hi as int),
{
    let mut i: usize = lo;
    while i < hi
        invariant
            lo <= i <= hi <= src@.len(),
            out@ == old(out)@ + src@.subrange(lo as int, i as int),
        decreases hi - i,
    {
        out.push(src[i]);
        assert(src@.subrange(lo as int, i + 1) =~= src@.subrange(lo as int, i as int).push(src@[i as int]));
        i = i + 1;
    }
}

/// A hit of `find_last_below` is an occurrence.
pub proof fn lemma_find_last_hit(s: Seq<char>, pat: Seq<char>, n: int)
    ensures
        find_last_below(s, pat, n) matches Some(i) ==> occurs_at(s, pat, i),
    decreases n,
{
    if n > 0 && !occurs_at(s, pat, n - 1) {
        lemma_find_last_hit(s, pat, n - 1);
    }
}

/// An occurrence at or after `from` means `find_from` finds one.
pub proof fn lemma_occurs_found(s: Seq<char>, pat: Seq<char>, from: int, i: int)
    requires
        0 <= from <= i,
        occurs_at(s, pat, i),
    ensures
        find_from(s, pat, from) is Some,
    decreases i - from,
{
    if !occurs_at(s, pat, from) {
        lemma_occurs_found(s, pat, from + 1, i);
    }
}

} // verus!
