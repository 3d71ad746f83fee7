//! Stable sorting, as `slice::sort_by` does it: the result is ordered, and
//! items that compare equal keep their order of the input.
use vstd::prelude::*;

verus! {

/// A total preorder on items, with an executable comparison.
pub trait SortOrder {
    type Item;

    /// `a` may come before `b`.
    spec fn le(&self, a: Self::Item, b: Self::Item) -> bool;

    proof fn lemma_total(&self, a: Self::Item, b: Self::Item)
        ensures
            self.le(a, b) || self.le(b, a),
    ;

    proof fn lemma_transitive(&self, a: Self::Item, b: Self::Item, c: Self::Item)
        requires
            self.le(a, b),
            self.le(b, c),
        ensures
            self.le(a, c),
    ;

    fn le_exec(&self, a: &Self::Item, b: &Self::Item) -> (r: bool)
        ensures
            r == self.le(*a, *b),
    ;
}

/// `a` and `b` compare equal.
pub open spec fn equivalent<O: SortOrder>(o: O, a: O::Item, b: O::Item) -> bool {
    o.le(a, b) && o.le(b, a)
}

/// The items that compare equal to `x`, in their order in `s`.
pub open spec fn class_of<O: SortOrder>(o: O, s: Seq<O::Item>, x: O::Item) -> Seq<O::Item> {
    s.filter(|y: O::Item| equivalent(o, x, y))
}

/// `s` is in order.
pub open spec fn is_sorted<O: SortOrder>(o: O, s: Seq<O::Item>) -> bool {
    forall|i: int, j: int| 0 <= i < j < s.len() ==> o.le(#[trigger] s[i], #[trigger] s[j])
}

/// `out` is the stable sort of `inp`: it is in order, and the items of each
/// class of equal items appear in `out` exactly as in `inp`.
pub open spec fn stably_sorted<O: SortOrder>(o: O, inp: Seq<O::Item>, out: Seq<O::Item>) -> bool {
    &&& out.len() == inp.len()
    &&& is_sorted(o, out)
    &&& forall|x: O::Item| #[trigger] class_of(o, out, x) == class_of(o, inp, x)
}

/// The items of `s` from `p` on all come strictly after `x`: none of them
/// has the class of `x`.
proof fn lemma_class_empty_after<O: SortOrder>(o: O, s: Seq<O::Item>, x: O::Item, z: O::Item)
    requires
        forall|j: int| 0 <= j < s.len() ==> !o.le(#[trigger] s[j], x),
        equivalent(o, z, x),
    ensures
        s.filter(|y: O::Item| equivalent(o, z, y)) == Seq::<O::Item>::empty(),
    decreases s.len(),
{
    reveal(Seq::filter);
    if s.len() > 0 {
        let pred = |y: O::Item| equivalent(o, z, y);
        assert forall|j: int| 0 <= j < s.drop_last().len() implies !o.le(#[trigger] s.drop_last()[j], x) by {
            assert(s.drop_last()[j] == s[j]);
        }
        lemma_class_empty_after(o, s.drop_last(), x, z);
        let l = s.last();
        assert(!o.le(l, x));
        if equivalent(o, z, l) {
            o.lemma_transitive(l, z, x);
        }
    }
}

/// Sorts `v` stably.
pub fn stable_sort<O: SortOrder>(o: &O, v: Vec<O::Item>) -> (r: Vec<O::Item>)
    ensures
        stably_sorted(*o, v@, r@),
{
    let ghost inp = v@;
    let n = v.len();
    let mut rest = v;
    let mut out: Vec<O::Item> = Vec::new();
    let mut i: usize = 0;
    assert(inp.subrange(0, 0) =~= Seq::<O::Item>::empty());
    while i < n
        invariant
            n == inp.len(),
            i <= n,
            rest@ == inp.subrange(i as int, n as int),
            out@.len() == i,
            is_sorted(*o, out@),
            forall|x: O::Item| #[trigger] class_of(*o, out@, x) == class_of(*o, inp.subrange(0, i as int), x),
        decreases n - i,
    {
        let x = rest.remove(0);
        assert(x == inp[i as int]);
        let ghost a = out@;
        let mut p: usize = out.len();
        while p > 0 && !o.le_exec(&out[p - 1], &x)
            invariant
                out@ == a,
                p <= a.len(),
                forall|j: int| p <= j < a.len() ==> !o.le(#[trigger] a[j], x),
            decreases p,
        {
            p = p - 1;
        }
        proof {
            // every item before the insertion point comes no later than x
            assert forall|j: int| 0 <= j < p implies o.le(#[trigger] a[j], x) by {
                if j < p - 1 {
                    o.lemma_transitive(a[j], a[p - 1], x);
                }
            }
        }
        out.insert(p, x);
        proof {
            let b = out@;
            assert(b == a.insert(p as int, x));
            // sortedness
            assert forall|k: int, l: int| 0 <= k < l < b.len() implies o.le(#[trigger] b[k], #[trigger] b[l]) by {
                if l < p {
                    assert(b[k] == a[k] && b[l] == a[l]);
                } else if l == p {
                    assert(b[k] == a[k]);
                } else if k == p {
                    assert(b[l] == a[l - 1]);
                    o.lemma_total(a[l - 1], x);
                } else if k < p {
                    assert(b[k] == a[k] && b[l] == a[l - 1]);
                    o.lemma_total(a[l - 1], x);
                    o.lemma_transitive(a[k], x, a[l - 1]);
                } else {
                    assert(b[k] == a[k - 1] && b[l] == a[l - 1]);
                }
            }
            // stability
            let head = a.subrange(0, p as int);
            let tail = a.subrange(p as int, a.len() as int);
            assert(a =~= head + tail);
            assert(b =~= head + seq![x] + tail);
            assert(inp.subrange(0, i + 1) =~= inp.subrange(0, i as int).push(x));
            assert forall|z: O::Item| #[trigger] class_of(*o, b, z) == class_of(*o, inp.subrange(0, i + 1), z) by {
                let pred = |y: O::Item| equivalent(*o, z, y);
                Seq::filter_distributes_over_add(head + seq![x], tail, pred);
                Seq::filter_distributes_over_add(head, seq![x], pred);
                Seq::filter_distributes_over_add(head, tail, pred);
                inp.subrange(0, i as int).lemma_filter_push(x, pred);
                assert(seq![x] =~= Seq::<O::Item>::empty().push(x));
                Seq::<O::Item>::empty().lemma_filter_push(x, pred);
                reveal(Seq::filter);
                assert(Seq::<O::Item>::empty().filter(pred) =~= Seq::<O::Item>::empty());
                assert(class_of(*o, a, z) == class_of(*o, inp.subrange(0, i as int), z));
                if pred(x) {
                    assert forall|j: int| 0 <= j < tail.len() implies !o.le(#[trigger] tail[j], x) by {
                        assert(tail[j] == a[p + j]);
                    }
                    lemma_class_empty_after(*o, tail, x, z);
                    assert(head.filter(pred) + Seq::<O::Item>::empty() =~= head.filter(pred));
                } else {
                }
            }
        }
        i = i + 1;
    }
    assert(inp.subrange(0, n as int) =~= inp);
    out
}

/// Filtering by a predicate that `x` satisfies keeps every copy of `x`.
proof fn lemma_filter_keeps_count<A>(s: Seq<A>, p: spec_fn(A) -> bool, x: A)
    requires
        p(x),
    ensures
        s.filter(p).to_multiset().count(x) == s.to_multiset().count(x),
    decreases s.len(),
{
    if s.len() == 0 {
        assert(s.filter(p) =~= s);
    } else {
        let rest = s.drop_last();
        let l = s.last();
        assert(rest.push(l) =~= s);
        lemma_filter_keeps_count(rest, p, x);
        rest.lemma_filter_push(l, p);
        vstd::seq_lib::to_multiset_build(rest, l);
        let m = rest.to_multiset();
        let f = rest.filter(p).to_multiset();
        vstd::multiset::lemma_insert_increases_count_by_1(m, l);
        vstd::multiset::lemma_insert_other_elements_unchanged(m, l, x);
        if p(l) {
            vstd::seq_lib::to_multiset_build(rest.filter(p), l);
            vstd::multiset::lemma_insert_increases_count_by_1(f, l);
            vstd::multiset::lemma_insert_other_elements_unchanged(f, l, x);
        }
    }
}

/// A stable sort neither loses nor adds an item: the result holds every
/// item of the input as many times as the input does.
pub proof fn lemma_stably_sorted_keeps_items<O: SortOrder>(o: O, inp: Seq<O::Item>, out: Seq<O::Item>)
    requires
        stably_sorted(o, inp, out),
    ensures
        out.to_multiset() == inp.to_multiset(),
{
    assert forall|x: O::Item| #[trigger] out.to_multiset().count(x) == inp.to_multiset().count(x) by {
        o.lemma_total(x, x);
        let p = |y: O::Item| equivalent(o, x, y);
        assert(class_of(o, out, x) == class_of(o, inp, x));
        lemma_filter_keeps_count(out, p, x);
        lemma_filter_keeps_count(inp, p, x);
    }
    assert(out.to_multiset() =~= inp.to_multiset());
}

} // verus!
