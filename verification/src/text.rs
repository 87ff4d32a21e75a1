use vstd::prelude::*;

verus! {

broadcast use vstd::string::group_string_axioms;

/// The pieces of `s` between occurrences of `sep`, as `str::split` yields
/// them: an empty text is one empty piece, and a separator at either end or
/// two in a row produce empty pieces.
pub open spec fn split(s: Seq<char>, sep: char) -> Seq<Seq<char>>
    decreases s.len(),
{
    if s.len() == 0 {
        seq![Seq::<char>::empty()]
    } else {
        let prev = split(s.drop_last(), sep);
        if s.last() == sep {
            prev.push(Seq::<char>::empty())
        } else {
            prev.update(prev.len() - 1, prev.last().push(s.last()))
        }
    }
}

/// Splitting always yields at least one piece.
pub proof fn lemma_split_len(s: Seq<char>, sep: char)
    ensures
        split(s, sep).len() >= 1,
    decreases s.len(),
{
    if s.len() > 0 {
        lemma_split_len(s.drop_last(), sep);
    }
}

/// A text without the separator is one piece: itself.
pub proof fn lemma_split_whole(s: Seq<char>, sep: char)
    requires
        forall|i: int| 0 <= i < s.len() ==> s[i] != sep,
    ensures
        split(s, sep) == seq![s],
    decreases s.len(),
{
    if s.len() > 0 {
        lemma_split_whole(s.drop_last(), sep);
        assert(s.drop_last().push(s.last()) =~= s);
        assert(s.last() != sep);
        assert(seq![s.drop_last()].update(0, s) =~= seq![s]);
    } else {
        assert(s =~= Seq::<char>::empty());
    }
}

/// Splitting a text joined at a separator splits each side on its own:
/// the pieces of `a`, then the pieces of `b`.
pub proof fn lemma_split_join(a: Seq<char>, b: Seq<char>, sep: char)
    ensures
        split(a + seq![sep] + b, sep) == split(a, sep) + split(b, sep),
    decreases b.len(),
{
    let s = a + seq![sep] + b;
    if b.len() == 0 {
        assert(s.drop_last() =~= a);
        assert(split(a, sep).push(Seq::<char>::empty()) =~= split(a, sep) + split(b, sep));
    } else {
        assert(s.drop_last() =~= a + seq![sep] + b.drop_last());
        assert(s.last() == b.last());
        lemma_split_join(a, b.drop_last(), sep);
        lemma_split_len(b.drop_last(), sep);
        let pa = split(a, sep);
        let pb = split(b.drop_last(), sep);
        if b.last() == sep {
            assert((pa + pb).push(Seq::<char>::empty()) =~= pa + pb.push(Seq::<char>::empty()));
        } else {
            let prev = pa + pb;
            assert(prev.update(prev.len() - 1, prev.last().push(b.last())) =~= pa + pb.update(
                pb.len() - 1,
                pb.last().push(b.last()),
            ));
        }
    }
}

/// The characters of `s`, in order.
pub fn chars_of(s: &str) -> (r: Vec<char>)
    ensures
        r@ == s@,
{
    let mut r: Vec<char> = Vec::new();
    for c in it: s.chars()
        invariant
            it.seq() == s@,
            r@ == it.seq().take(it.index()),
    {
        r.push(c);
    }
    r
}

/// Whether the characters `s[lo..hi]` spell out `lit`.
pub fn range_eq(s: &Vec<char>, lo: usize, hi: usize, lit: &str) -> (r: bool)
    requires
        lo <= hi <= s@.len(),
    ensures
        r == (s@.subrange(lo as int, hi as int) == lit@),
{
    let n = lit.unicode_len();
    if hi - lo != n {
        return false;
    }
    let mut i: usize = 0;
    while i < n
        invariant
            lo <= hi <= s@.len(),
            hi - lo == n,
            n == lit@.len(),
            i <= n,
            forall|j: int| 0 <= j < i ==> s@[lo + j] == lit@[j],
        decreases n - i,
    {
        if s[lo + i] != lit.get_char(i) {
            assert(s@.subrange(lo as int, hi as int)[i as int] != lit@[i as int]);
            return false;
        }
        i = i + 1;
    }
    assert(s@.subrange(lo as int, hi as int) =~= lit@);
    true
}

/// The character ranges `(start, end)` of the pieces of `s[lo..hi]` between
/// occurrences of `sep`, in order.
pub fn split_ranges(s: &Vec<char>, lo: usize, hi: usize, sep: char) -> (r: Vec<(usize, usize)>)
    requires
        lo <= hi <= s@.len(),
    ensures
        r@.len() == split(s@.subrange(lo as int, hi as int), sep).len(),
        forall|k: int|
            0 <= k < r@.len() ==> {
                &&& lo <= (#[trigger] r@[k]).0 <= r@[k].1 <= hi
                &&& s@.subrange(r@[k].0 as int, r@[k].1 as int) == split(
                    s@.subrange(lo as int, hi as int),
                    sep,
                )[k]
            },
{
    let mut r: Vec<(usize, usize)> = Vec::new();
    let mut start: usize = lo;
    let mut j: usize = lo;
    assert(s@.subrange(lo as int, lo as int) =~= Seq::<char>::empty());
    while j < hi
        invariant
            lo <= start <= j <= hi <= s@.len(),
            split(s@.subrange(lo as int, j as int), sep).len() == r@.len() + 1,
            forall|k: int|
                0 <= k < r@.len() ==> {
                    &&& lo <= (#[trigger] r@[k]).0 <= r@[k].1 <= j
                    &&& s@.subrange(r@[k].0 as int, r@[k].1 as int) == split(
                        s@.subrange(lo as int, j as int),
                        sep,
                    )[k]
                },
            s@.subrange(start as int, j as int) == split(s@.subrange(lo as int, j as int), sep).last(),
        decreases hi - j,
    {
        let ghost prev = split(s@.subrange(lo as int, j as int), sep);
        assert(s@.subrange(lo as int, j + 1).drop_last() =~= s@.subrange(lo as int, j as int));
        assert(s@.subrange(lo as int, j + 1).last() == s@[j as int]);
        if s[j] == sep {
            r.push((start, j));
            start = j + 1;
            assert(s@.subrange(start as int, j + 1) =~= Seq::<char>::empty());
        } else {
            assert(s@.subrange(start as int, j + 1) =~= s@.subrange(start as int, j as int).push(
                s@[j as int],
            ));
        }
        j = j + 1;
    }
    r.push((start, hi));
    r
}

} // verus!
