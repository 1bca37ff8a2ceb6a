use vstd::prelude::*;

verus! {

/// The entries of `s` whose mark is not set, in their original order.
pub open spec fn kept<T>(s: Seq<T>, marks: Seq<bool>) -> Seq<T>
    decreases s.len(),
{
    if s.len() == 0 {
        Seq::empty()
    } else {
        let rest = kept(s.drop_first(), marks.drop_first());
        if marks[0] {
            rest
        } else {
            seq![s[0]] + rest
        }
    }
}

/// How many marks are set.
pub open spec fn marked(marks: Seq<bool>) -> nat
    decreases marks.len(),
{
    if marks.len() == 0 {
        0
    } else {
        (if marks[0] { 1nat } else { 0nat }) + marked(marks.drop_first())
    }
}

/// Sweeping removes exactly one entry for each set mark.
pub proof fn lemma_kept_len<T>(s: Seq<T>, marks: Seq<bool>)
    requires
        s.len() == marks.len(),
    ensures
        kept(s, marks).len() + marked(marks) == s.len(),
    decreases s.len(),
{
    if s.len() > 0 {
        lemma_kept_len(s.drop_first(), marks.drop_first());
    }
}

/// Two distinct set marks count for at least two.
pub proof fn lemma_marked_two(marks: Seq<bool>, i: int, j: int)
    requires
        0 <= i < marks.len(),
        0 <= j < marks.len(),
        i != j,
        marks[i],
        marks[j],
    ensures
        marked(marks) >= 2,
    decreases marks.len(),
{
    if i > 0 && j > 0 {
        lemma_marked_two(marks.drop_first(), i - 1, j - 1);
    } else {
        let k = if i == 0 { j - 1 } else { i - 1 };
        lemma_marked_one(marks.drop_first(), k);
    }
}

/// One set mark counts for at least one.
pub proof fn lemma_marked_one(marks: Seq<bool>, i: int)
    requires
        0 <= i < marks.len(),
        marks[i],
    ensures
        marked(marks) >= 1,
    decreases marks.len(),
{
    if i > 0 {
        lemma_marked_one(marks.drop_first(), i - 1);
    }
}

/// The positions below `n` whose flag is set, ascending.
pub open spec fn indices_where(flags: Seq<bool>, n: int) -> Seq<usize>
    decreases n,
{
    if n <= 0 {
        Seq::empty()
    } else {
        let p = indices_where(flags, n - 1);
        if flags[n - 1] {
            p.push((n - 1) as usize)
        } else {
            p
        }
    }
}

/// The positions that `indices_where` lists are in range, flagged and
/// strictly ascending, and every flagged position below `n` is listed.
pub proof fn lemma_indices_where(flags: Seq<bool>, n: int)
    requires
        0 <= n <= flags.len(),
        flags.len() <= usize::MAX,
    ensures
        forall|t: int|
            0 <= t < indices_where(flags, n).len() ==> (#[trigger] indices_where(flags, n)[t])
                < n && flags[indices_where(flags, n)[t] as int],
        forall|t: int, u: int|
            0 <= t < u < indices_where(flags, n).len() ==> (#[trigger] indices_where(flags, n)[t])
                < #[trigger] indices_where(flags, n)[u],
        forall|i: int| 0 <= i < n && flags[i] ==> indices_where(flags, n).contains(i as usize),
    decreases n,
{
    if n > 0 {
        lemma_indices_where(flags, n - 1);
        let p = indices_where(flags, n - 1);
        if flags[n - 1] {
            let q = p.push((n - 1) as usize);
            assert(q[p.len() as int] == (n - 1) as usize);
            assert forall|i: int| 0 <= i < n && flags[i] implies q.contains(i as usize) by {
                if i < n - 1 {
                    let t = choose|t: int| 0 <= t < p.len() && p[t] == i as usize;
                    assert(q[t] == p[t]);
                }
            }
        }
    }
}

/// Position by position, the mark is not set.
pub open spec fn unmarked(marks: Seq<bool>) -> Seq<bool> {
    Seq::new(marks.len(), |i: int| !marks[i])
}

/// The positions that a sweep by `marks` keeps, ascending.
pub open spec fn survivors(marks: Seq<bool>) -> Seq<usize> {
    indices_where(unmarked(marks), marks.len() as int)
}

/// A position survives a sweep exactly when it is in range and unmarked,
/// and each surviving position is listed once.
pub proof fn lemma_survivors(marks: Seq<bool>)
    requires
        marks.len() <= usize::MAX,
    ensures
        forall|i: usize| #[trigger] survivors(marks).contains(i) <==> (i < marks.len() && !marks[i as int]),
        forall|t: int, u: int|
            0 <= t < u < survivors(marks).len() ==> (#[trigger] survivors(marks)[t]) < #[trigger] survivors(marks)[u],
{
    let f = unmarked(marks);
    let n = marks.len() as int;
    lemma_indices_where(f, n);
    assert forall|i: usize| #[trigger] survivors(marks).contains(i) implies (i < marks.len() && !marks[i as int]) by {
        let t = choose|t: int| 0 <= t < survivors(marks).len() && survivors(marks)[t] == i;
        assert(f[survivors(marks)[t] as int]);
    }
    assert forall|i: usize| i < marks.len() && !marks[i as int] implies #[trigger] survivors(marks).contains(i) by {
        assert(f[i as int]);
    }
}

/// Sweeping one more entry appends it unless its mark is set.
pub proof fn lemma_kept_push<T>(s: Seq<T>, marks: Seq<bool>, x: T, b: bool)
    requires
        s.len() == marks.len(),
    ensures
        kept(s.push(x), marks.push(b)) == kept(s, marks) + (if b { Seq::empty() } else { seq![x] }),
    decreases s.len(),
{
    if s.len() == 0 {
        assert(kept(s, marks) =~= Seq::<T>::empty());
        assert(s.push(x).drop_first() =~= Seq::<T>::empty());
        assert(kept(s.push(x).drop_first(), marks.push(b).drop_first()) =~= Seq::<T>::empty());
        assert(s.push(x)[0] == x);
        assert(marks.push(b)[0] == b);
        assert(kept(s.push(x), marks.push(b)) =~= (if b { Seq::empty() } else { seq![x] }));
    } else {
        assert(s.push(x).drop_first() =~= s.drop_first().push(x));
        assert(marks.push(b).drop_first() =~= marks.drop_first().push(b));
        lemma_kept_push(s.drop_first(), marks.drop_first(), x, b);
        let t = if b { Seq::<T>::empty() } else { seq![x] };
        let r = kept(s.drop_first(), marks.drop_first());
        if !marks[0] {
            assert(seq![s[0]] + (r + t) =~= (seq![s[0]] + r) + t);
        }
    }
}

/// The sweep of the first `k` entries keeps those at the unmarked
/// positions below `k`, in order.
pub proof fn lemma_kept_prefix<T>(s: Seq<T>, marks: Seq<bool>, k: int)
    requires
        s.len() == marks.len(),
        s.len() <= usize::MAX,
        0 <= k <= s.len(),
    ensures
        kept(s.subrange(0, k), marks.subrange(0, k)) == indices_where(unmarked(marks), k).map_values(
            |i: usize| s[i as int],
        ),
    decreases k,
{
    let f = unmarked(marks);
    if k == 0 {
        assert(s.subrange(0, 0) =~= Seq::<T>::empty());
        assert(kept(s.subrange(0, 0), marks.subrange(0, 0)) =~= indices_where(f, 0).map_values(
            |i: usize| s[i as int],
        ));
    } else {
        let j = k - 1;
        lemma_kept_prefix(s, marks, j);
        assert(s.subrange(0, k) =~= s.subrange(0, j).push(s[j]));
        assert(marks.subrange(0, k) =~= marks.subrange(0, j).push(marks[j]));
        lemma_kept_push(s.subrange(0, j), marks.subrange(0, j), s[j], marks[j]);
        let p = indices_where(f, j);
        if f[j] {
            assert(p.push(j as usize).map_values(|i: usize| s[i as int]) =~= p.map_values(
                |i: usize| s[i as int],
            ) + seq![s[j]]);
        } else {
            assert(p.map_values(|i: usize| s[i as int]) + Seq::empty() =~= p.map_values(
                |i: usize| s[i as int],
            ));
        }
    }
}

/// What a sweep keeps is exactly the entries at the unmarked positions, in
/// order of position.
pub proof fn lemma_kept_positions<T>(s: Seq<T>, marks: Seq<bool>)
    requires
        s.len() == marks.len(),
        s.len() <= usize::MAX,
    ensures
        kept(s, marks) == survivors(marks).map_values(|i: usize| s[i as int]),
{
    lemma_kept_prefix(s, marks, s.len() as int);
    assert(s.subrange(0, s.len() as int) =~= s);
    assert(marks.subrange(0, s.len() as int) =~= marks);
}

/// Removes from `items` every entry whose mark in `doomed` is set, each
/// exactly once, keeping the order of the others. Entries are removed from
/// the back, so no index is used after the vector has shrunk below it.
pub fn sweep<T>(items: &mut Vec<T>, doomed: &Vec<bool>)
    requires
        old(items)@.len() == doomed@.len(),
    ensures
        final(items)@ == kept(old(items)@, doomed@),
{
    let ghost s = items@;
    let ghost m = doomed@;
    let n = items.len();
    let mut i: usize = n;
    assert(s.subrange(n as int, n as int).len() == 0);
    assert(s =~= s.subrange(0, n as int) + kept(s.subrange(n as int, n as int), m.subrange(n as int, n as int)));
    while i > 0
        invariant
            i <= n,
            n == s.len(),
            m == doomed@,
            m.len() == n,
            i <= items@.len(),
            items@ == s.subrange(0, i as int) + kept(s.subrange(i as int, n as int), m.subrange(i as int, n as int)),
        decreases i,
    {
        i = i - 1;
        let ghost a = s.subrange(i as int, n as int);
        let ghost ma = m.subrange(i as int, n as int);
        assert(a.drop_first() =~= s.subrange(i + 1, n as int));
        assert(ma.drop_first() =~= m.subrange(i + 1, n as int));
        let ghost rest = kept(s.subrange(i + 1, n as int), m.subrange(i + 1, n as int));
        if doomed[i] {
            let ghost before = items@;
            items.remove(i);
            assert(before.remove(i as int) =~= s.subrange(0, i as int) + rest);
        } else {
            assert(s.subrange(0, i + 1) + rest =~= s.subrange(0, i as int) + (seq![s[i as int]] + rest));
        }
    }
    assert(s.subrange(0, 0) + kept(s.subrange(0, n as int), m.subrange(0, n as int)) =~= kept(s, m)) by {
        assert(s.subrange(0, n as int) =~= s);
        assert(m.subrange(0, n as int) =~= m);
    }
}

/// Retires the doomed entries of `items`, then appends the newborn ones.
pub fn settle<T>(items: &mut Vec<T>, doomed: &Vec<bool>, newborn: Vec<T>)
    requires
        old(items)@.len() == doomed@.len(),
    ensures
        final(items)@ == kept(old(items)@, doomed@) + newborn@,
{
    sweep(items, doomed);
    let mut newborn = newborn;
    items.append(&mut newborn);
}

} // verus!
