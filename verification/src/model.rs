//! Lifting views through the standard containers.
use vstd::prelude::*;

verus! {

/// The view of an optional value.
pub open spec fn opt<T: View>(o: Option<T>) -> Option<T::V> {
    match o {
        Some(x) => Some(x@),
        None => None,
    }
}

/// The views of the elements of a sequence.
pub open spec fn views<T: View>(s: Seq<T>) -> Seq<T::V> {
    s.map_values(|x: T| x@)
}

/// Filtering one element more of a sequence.
pub proof fn lemma_filter_step<T>(s: Seq<T>, i: int, keep: spec_fn(T) -> bool)
    requires
        0 <= i < s.len(),
    ensures
        s.take(i + 1).filter(keep) == if keep(s[i]) {
            s.take(i).filter(keep).push(s[i])
        } else {
            s.take(i).filter(keep)
        },
{
    reveal(Seq::filter);
    assert(s.take(i + 1).drop_last() =~= s.take(i));
    assert(s.take(i + 1).last() == s[i]);
}

/// Filtering nothing yields nothing.
pub proof fn lemma_filter_none<T>(s: Seq<T>, keep: spec_fn(T) -> bool)
    ensures
        s.take(0).filter(keep) == Seq::<T>::empty(),
{
    reveal(Seq::filter);
}

/// Everything that a filter leaves satisfies its condition and was there
/// before.
pub proof fn lemma_filter_kept<T>(s: Seq<T>, keep: spec_fn(T) -> bool, i: int)
    requires
        0 <= i < s.filter(keep).len(),
    ensures
        keep(s.filter(keep)[i]),
        s.contains(s.filter(keep)[i]),
    decreases s.len(),
{
    reveal(Seq::filter);
    if s.len() > 0 {
        let before = s.drop_last().filter(keep);
        if i < before.len() {
            lemma_filter_kept(s.drop_last(), keep, i);
            let x = before[i];
            let j = choose|j: int| 0 <= j < s.drop_last().len() && s.drop_last()[j] == x;
            assert(s[j] == x);
        } else {
            assert(s[s.len() - 1] == s.last());
        }
    }
}

/// Filtering a single element.
pub proof fn lemma_filter_single<T>(x: T, keep: spec_fn(T) -> bool)
    ensures
        seq![x].filter(keep) == if keep(x) {
            seq![x]
        } else {
            seq![]
        },
{
    reveal(Seq::filter);
    assert(seq![x].drop_last() =~= seq![]);
    assert(seq![x].drop_last().filter(keep) =~= seq![]);
    assert(seq![x].last() == x);
    assert(Seq::<T>::empty().push(x) =~= seq![x]);
}

/// A filter that nothing satisfies leaves nothing.
pub proof fn lemma_filter_drops_all<T>(s: Seq<T>, keep: spec_fn(T) -> bool)
    requires
        forall|j: int| 0 <= j < s.len() ==> !keep(#[trigger] s[j]),
    ensures
        s.filter(keep) == Seq::<T>::empty(),
    decreases s.len(),
{
    reveal(Seq::filter);
    if s.len() > 0 {
        let before = s.drop_last();
        assert forall|j: int| 0 <= j < before.len() implies !keep(#[trigger] before[j]) by {
            assert(before[j] == s[j]);
        }
        lemma_filter_drops_all(before, keep);
        assert(!keep(s[s.len() - 1]));
    }
}

/// A filter that everything satisfies leaves everything.
pub proof fn lemma_filter_keeps_all<T>(s: Seq<T>, keep: spec_fn(T) -> bool)
    requires
        forall|j: int| 0 <= j < s.len() ==> keep(#[trigger] s[j]),
    ensures
        s.filter(keep) == s,
    decreases s.len(),
{
    reveal(Seq::filter);
    if s.len() > 0 {
        let before = s.drop_last();
        assert forall|j: int| 0 <= j < before.len() implies keep(#[trigger] before[j]) by {
            assert(before[j] == s[j]);
        }
        lemma_filter_keeps_all(before, keep);
        assert(keep(s[s.len() - 1]));
        assert(before.push(s.last()) =~= s);
    }
}

/// Filtering by a weaker condition first makes no difference.
pub proof fn lemma_filter_twice<T>(s: Seq<T>, wide: spec_fn(T) -> bool, narrow: spec_fn(T) -> bool)
    requires
        forall|x: T| #[trigger] narrow(x) ==> wide(x),
    ensures
        s.filter(wide).filter(narrow) == s.filter(narrow),
    decreases s.len(),
{
    reveal(Seq::filter);
    if s.len() > 0 {
        lemma_filter_twice(s.drop_last(), wide, narrow);
        let before = s.drop_last().filter(wide);
        if wide(s.last()) {
            assert(before.push(s.last()).drop_last() =~= before);
        }
    }
}

/// A filter that exactly the first `n` elements satisfy leaves those.
pub proof fn lemma_filter_prefix<T>(s: Seq<T>, n: int, keep: spec_fn(T) -> bool)
    requires
        0 <= n <= s.len(),
        forall|j: int| 0 <= j < n ==> keep(#[trigger] s[j]),
        forall|j: int| n <= j < s.len() ==> !keep(#[trigger] s[j]),
    ensures
        s.filter(keep) == s.take(n),
{
    let head = s.take(n);
    let tail = s.skip(n);
    assert(s =~= head + tail);
    Seq::filter_distributes_over_add(head, tail, keep);
    lemma_filter_keeps_all(head, keep);
    lemma_filter_drops_all(tail, keep);
    assert(head + Seq::<T>::empty() =~= head);
}

/// A filter that exactly the elements from `n` on satisfy leaves those.
pub proof fn lemma_filter_suffix<T>(s: Seq<T>, n: int, keep: spec_fn(T) -> bool)
    requires
        0 <= n <= s.len(),
        forall|j: int| 0 <= j < n ==> !keep(#[trigger] s[j]),
        forall|j: int| n <= j < s.len() ==> keep(#[trigger] s[j]),
    ensures
        s.filter(keep) == s.skip(n),
{
    let head = s.take(n);
    let tail = s.skip(n);
    assert(s =~= head + tail);
    Seq::filter_distributes_over_add(head, tail, keep);
    lemma_filter_drops_all(head, keep);
    lemma_filter_keeps_all(tail, keep);
    assert(Seq::<T>::empty() + tail =~= tail);
}

} // verus!
