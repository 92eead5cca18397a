use crate::pair::InterpNum;
use crate::pair::Pair;
use vstd::prelude::*;

verus! {

/// The observations lie in non-decreasing order of their coordinates.
pub open spec fn ascending<T: InterpNum, U: Copy>(s: Seq<Pair<T, U>>) -> bool {
    forall|i: int, j: int| 0 <= i <= j < s.len() ==> s[i].position() <= s[j].position()
}

/// Every observation lies on the number line.
pub open spec fn all_finite<T: InterpNum, U: Copy>(s: Seq<Pair<T, U>>) -> bool {
    forall|i: int| 0 <= i < s.len() ==> (#[trigger] s[i]).x.finite()
}

/// Whether an observation lies at the place `p` of the number line.
pub open spec fn lies_at<T: InterpNum, U: Copy>(p: int) -> spec_fn(Pair<T, U>) -> bool {
    |e: Pair<T, U>| e.position() == p
}

/// The observations of `s` that lie at the place `p`, in the order in which
/// `s` has them.
pub open spec fn at_place<T: InterpNum, U: Copy>(s: Seq<Pair<T, U>>, p: int) -> Seq<Pair<T, U>> {
    s.filter(lies_at(p))
}

/// `t` holds at every place what `s` holds there, in the same order.
pub open spec fn same_at_every_place<T: InterpNum, U: Copy>(
    t: Seq<Pair<T, U>>,
    s: Seq<Pair<T, U>>,
) -> bool {
    forall|p: int| #[trigger] at_place(t, p) == at_place(s, p)
}

/// Where no observation lies at the place `p`, there is nothing at `p`.
proof fn lemma_nothing_at_place<T: InterpNum, U: Copy>(s: Seq<Pair<T, U>>, p: int)
    requires
        forall|i: int| 0 <= i < s.len() ==> (#[trigger] s[i]).position() != p,
    ensures
        at_place(s, p) == Seq::<Pair<T, U>>::empty(),
    decreases s.len(),
{
    let f = lies_at::<T, U>(p);
    if s.len() == 0 {
        s.lemma_filter_len(f);
        assert(s.filter(f) =~= Seq::<Pair<T, U>>::empty());
    } else {
        let front = s.drop_last();
        assert forall|i: int| 0 <= i < front.len() implies (#[trigger] front[i]).position()
            != p by {
            assert(front[i] == s[i]);
        }
        lemma_nothing_at_place(front, p);
        front.lemma_filter_push(s.last(), f);
        assert(s =~= front.push(s.last()));
        assert(!f(s.last()));
    }
}

/// What stands at a place of two runs laid end to end is what stands there
/// in the first, followed by what stands there in the second.
proof fn lemma_places_of_joined<T: InterpNum, U: Copy>(
    a: Seq<Pair<T, U>>,
    b: Seq<Pair<T, U>>,
    p: int,
)
    ensures
        at_place(a + b, p) == at_place(a, p) + at_place(b, p),
{
    Seq::filter_distributes_over_add(a, b, lies_at::<T, U>(p));
}

/// An ascending run is known by what it holds at every place: two
/// ascending runs that hold the same there, in the same order, are one run.
pub proof fn lemma_ascending_run_is_determined<T: InterpNum, U: Copy>(
    a: Seq<Pair<T, U>>,
    b: Seq<Pair<T, U>>,
)
    requires
        ascending(a),
        ascending(b),
        a.len() == b.len(),
        same_at_every_place(a, b),
    ensures
        a == b,
    decreases a.len(),
{
    if a.len() == 0 {
        assert(a =~= b);
    } else {
        let p = a.last().position();
        let q = b.last().position();
        let front_a = a.drop_last();
        let front_b = b.drop_last();
        assert(a =~= front_a.push(a.last()));
        assert(b =~= front_b.push(b.last()));
        front_a.lemma_filter_push(a.last(), lies_at::<T, U>(p));
        front_b.lemma_filter_push(b.last(), lies_at::<T, U>(q));
        assert(at_place(a, p) == at_place(b, p));
        assert(at_place(a, q) == at_place(b, q));
        assert(at_place(a, p).len() > 0);
        assert(at_place(b, q).len() > 0);
        if p < q {
            assert forall|i: int| 0 <= i < a.len() implies (#[trigger] a[i]).position() != q by {
                assert(a[i].position() <= a[a.len() - 1].position());
            }
            lemma_nothing_at_place(a, q);
        }
        if q < p {
            assert forall|i: int| 0 <= i < b.len() implies (#[trigger] b[i]).position() != p by {
                assert(b[i].position() <= b[b.len() - 1].position());
            }
            lemma_nothing_at_place(b, p);
        }
        assert(p == q);
        let at_a = at_place(front_a, p);
        let at_b = at_place(front_b, p);
        assert(at_a.push(a.last()) == at_b.push(b.last()));
        assert(at_a.push(a.last()).last() == a.last());
        assert(at_b.push(b.last()).last() == b.last());
        assert(at_a.push(a.last()).drop_last() =~= at_a);
        assert(at_b.push(b.last()).drop_last() =~= at_b);
        assert forall|i: int, j: int| 0 <= i <= j < front_a.len() implies front_a[i].position()
            <= front_a[j].position() by {
            assert(front_a[i] == a[i] && front_a[j] == a[j]);
        }
        assert forall|i: int, j: int| 0 <= i <= j < front_b.len() implies front_b[i].position()
            <= front_b[j].position() by {
            assert(front_b[i] == b[i] && front_b[j] == b[j]);
        }
        assert forall|r: int| #[trigger] at_place(front_a, r) == at_place(front_b, r) by {
            front_a.lemma_filter_push(a.last(), lies_at::<T, U>(r));
            front_b.lemma_filter_push(b.last(), lies_at::<T, U>(r));
            assert(at_place(a, r) == at_place(b, r));
        }
        lemma_ascending_run_is_determined(front_a, front_b);
    }
}

/// What stands at a place holds each observation of that place as often as
/// the whole sequence does, and no other.
pub proof fn lemma_place_counts<T: InterpNum, U: Copy>(s: Seq<Pair<T, U>>, p: int, e: Pair<T, U>)
    ensures
        at_place(s, p).to_multiset().count(e) == if e.position() == p {
            s.to_multiset().count(e)
        } else {
            0
        },
    decreases s.len(),
{
    broadcast use {
        vstd::seq_lib::to_multiset_build,
        vstd::seq_lib::to_multiset_len,
        vstd::multiset::lemma_multiset_empty_len,
        vstd::multiset::group_multiset_axioms,
    };

    let f = lies_at::<T, U>(p);
    if s.len() == 0 {
        s.lemma_filter_len(f);
        assert(s.to_multiset().len() == 0);
        assert(at_place(s, p).to_multiset().len() == 0);
    } else {
        let front = s.drop_last();
        lemma_place_counts(front, p, e);
        front.lemma_filter_push(s.last(), f);
        assert(s =~= front.push(s.last()));
        assert(s.to_multiset() =~= front.to_multiset().insert(s.last()));
        if f(s.last()) {
            assert(at_place(s, p).to_multiset() =~= at_place(front, p).to_multiset().insert(
                s.last(),
            ));
        }
    }
}

/// Two sequences that hold the same observations, no two of them at one
/// place, hold the same at every place.
pub proof fn lemma_same_contents_same_places<T: InterpNum, U: Copy>(
    a: Seq<Pair<T, U>>,
    b: Seq<Pair<T, U>>,
)
    requires
        a.to_multiset() == b.to_multiset(),
        forall|p: int| (#[trigger] at_place(a, p)).len() <= 1,
    ensures
        same_at_every_place(a, b),
{
    broadcast use {
        vstd::seq_lib::to_multiset_len,
        vstd::seq_lib::to_multiset_contains,
        vstd::multiset::group_multiset_axioms,
    };

    assert forall|p: int| #[trigger] at_place(a, p) == at_place(b, p) by {
        let here = at_place(a, p);
        let there = at_place(b, p);
        assert forall|e: Pair<T, U>| here.to_multiset().count(e) == there.to_multiset().count(
            e,
        ) by {
            lemma_place_counts(a, p, e);
            lemma_place_counts(b, p, e);
        }
        assert(here.to_multiset() =~= there.to_multiset());
        assert(here.to_multiset().len() == here.len());
        assert(there.to_multiset().len() == there.len());
        if here.len() == 1 {
            let e = there[0];
            assert(there.contains(e));
            assert(there.to_multiset().count(e) > 0);
            assert(here.to_multiset().count(e) > 0);
            assert(here.contains(e));
            assert(here[0] == e);
        }
        assert(here =~= there);
    }
}

/// A part of an ascending run is ascending.
proof fn lemma_part_ascending<T: InterpNum, U: Copy>(s: Seq<Pair<T, U>>, lo: int, hi: int)
    requires
        ascending(s),
        0 <= lo <= hi <= s.len(),
    ensures
        ascending(s.subrange(lo, hi)),
{
    let part = s.subrange(lo, hi);
    assert forall|i: int, j: int| 0 <= i <= j < part.len() implies part[i].position()
        <= part[j].position() by {
        assert(part[i] == s[lo + i] && part[j] == s[lo + j]);
    }
}

/// Merges two ascending runs into one. Of two observations at one
/// coordinate, that of the first run comes first.
fn merge_runs<T: InterpNum, U: Copy>(a: &Vec<Pair<T, U>>, b: &Vec<Pair<T, U>>) -> (r: Vec<
    Pair<T, U>,
>)
    requires
        ascending(a@),
        ascending(b@),
        all_finite(a@),
        all_finite(b@),
    ensures
        ascending(r@),
        all_finite(r@),
        r@.len() == a@.len() + b@.len(),
        r@.to_multiset() == (a@ + b@).to_multiset(),
        same_at_every_place(r@, a@ + b@),
        ascending(a@ + b@) ==> r@ == a@ + b@,
{
    let mut r: Vec<Pair<T, U>> = Vec::new();
    let mut i: usize = 0;
    let mut j: usize = 0;
    proof {
        broadcast use {
            vstd::seq_lib::to_multiset_len,
            vstd::multiset::lemma_multiset_empty_len,
            vstd::multiset::group_multiset_axioms,
        };

        assert(a@.take(0) =~= Seq::<Pair<T, U>>::empty());
        assert(b@.take(0) =~= Seq::<Pair<T, U>>::empty());
        assert(r@ =~= (a@ + b@).take(0));
        assert(r@.to_multiset().len() == 0);
        assert(a@.take(0).to_multiset().len() == 0);
        assert(r@.to_multiset() =~= a@.take(0).to_multiset().add(b@.take(0).to_multiset()));
        assert forall|p: int| #[trigger]
            at_place(r@, p) == at_place(a@.take(0), p) + at_place(b@.take(0), p) by {
            lemma_nothing_at_place(r@, p);
            assert(at_place(r@, p) =~= at_place(r@, p) + at_place(r@, p));
        }
    }
    while i < a.len() || j < b.len()
        invariant
            i <= a@.len(),
            j <= b@.len(),
            r@.len() == i + j,
            ascending(a@),
            ascending(b@),
            all_finite(a@),
            all_finite(b@),
            ascending(r@),
            all_finite(r@),
            forall|k: int| 0 <= k < r@.len() && i < a@.len() ==> (#[trigger] r@[k]).position()
                <= a@[i as int].position(),
            forall|k: int| 0 <= k < r@.len() && j < b@.len() ==> (#[trigger] r@[k]).position()
                <= b@[j as int].position(),
            forall|m: int, k: int|
                0 <= m < j && i <= k < a@.len() ==> (#[trigger] b@[m]).position() < (
                #[trigger] a@[k]).position(),
            forall|k: int, m: int|
                0 <= k < i && j <= m < b@.len() ==> (#[trigger] a@[k]).position() <= (
                #[trigger] b@[m]).position(),
            r@.to_multiset() == a@.take(i as int).to_multiset().add(b@.take(j as int).to_multiset()),
            forall|p: int| #[trigger]
                at_place(r@, p) == at_place(a@.take(i as int), p) + at_place(b@.take(j as int), p),
            ascending(a@ + b@) ==> r@ == (a@ + b@).take(i + j) && (j > 0 ==> i == a@.len()),
        decreases a@.len() - i + b@.len() - j,
    {
        let ghost before = r@;
        let from_first = j >= b.len() || (i < a.len() && !b[j].x.precedes(&a[i].x));
        if from_first {
            let next = a[i];
            r.push(next);
            proof {
                broadcast use {
                    vstd::seq_lib::to_multiset_build,
                    vstd::multiset::group_multiset_axioms,
                };

                assert(a@.take(i + 1) =~= a@.take(i as int).push(next));
                assert(r@.to_multiset() =~= a@.take(i + 1).to_multiset().add(
                    b@.take(j as int).to_multiset(),
                ));
                assert forall|p: int| #[trigger]
                    at_place(r@, p) == at_place(a@.take(i + 1), p) + at_place(
                        b@.take(j as int),
                        p,
                    ) by {
                    let f = lies_at::<T, U>(p);
                    before.lemma_filter_push(next, f);
                    a@.take(i as int).lemma_filter_push(next, f);
                    assert(at_place(before, p) == at_place(a@.take(i as int), p) + at_place(
                        b@.take(j as int),
                        p,
                    ));
                    if next.position() == p {
                        assert forall|m: int| 0 <= m < b@.take(j as int).len() implies (
                        #[trigger] b@.take(j as int)[m]).position() != p by {
                            assert(b@[m].position() < a@[i as int].position());
                        }
                        lemma_nothing_at_place(b@.take(j as int), p);
                        assert(at_place(r@, p) =~= at_place(a@.take(i + 1), p) + at_place(
                            b@.take(j as int),
                            p,
                        ));
                    }
                }
                if ascending(a@ + b@) {
                    assert((a@ + b@)[i + j] == next);
                    assert(r@ =~= (a@ + b@).take(i + j + 1));
                }
            }
            i = i + 1;
        } else {
            let next = b[j];
            r.push(next);
            proof {
                broadcast use {
                    vstd::seq_lib::to_multiset_build,
                    vstd::multiset::group_multiset_axioms,
                };

                assert(b@.take(j + 1) =~= b@.take(j as int).push(next));
                assert(r@.to_multiset() =~= a@.take(i as int).to_multiset().add(
                    b@.take(j + 1).to_multiset(),
                ));
                assert forall|p: int| #[trigger]
                    at_place(r@, p) == at_place(a@.take(i as int), p) + at_place(
                        b@.take(j + 1),
                        p,
                    ) by {
                    let f = lies_at::<T, U>(p);
                    before.lemma_filter_push(next, f);
                    b@.take(j as int).lemma_filter_push(next, f);
                    assert(at_place(before, p) == at_place(a@.take(i as int), p) + at_place(
                        b@.take(j as int),
                        p,
                    ));
                    assert(at_place(r@, p) =~= at_place(a@.take(i as int), p) + at_place(
                        b@.take(j + 1),
                        p,
                    ));
                }
                if ascending(a@ + b@) {
                    if i < a@.len() {
                        assert((a@ + b@)[i as int] == a@[i as int]);
                        assert((a@ + b@)[a@.len() + j] == b@[j as int]);
                    }
                    assert((a@ + b@)[i + j] == next);
                    assert(r@ =~= (a@ + b@).take(i + j + 1));
                }
            }
            j = j + 1;
        }
    }
    proof {
        assert(a@.take(i as int) =~= a@);
        assert(b@.take(j as int) =~= b@);
        vstd::seq_lib::lemma_multiset_commutative(a@, b@);
        assert forall|p: int| #[trigger] at_place(r@, p) == at_place(a@ + b@, p) by {
            lemma_places_of_joined(a@, b@, p);
        }
        if ascending(a@ + b@) {
            assert(r@ =~= a@ + b@);
        }
    }
    r
}

/// Sorts the observations of `v` from `lo` up to `hi` into a run of their
/// own, by halving and merging.
fn sort_run<T: InterpNum, U: Copy>(v: &Vec<Pair<T, U>>, lo: usize, hi: usize) -> (r: Vec<
    Pair<T, U>,
>)
    requires
        lo <= hi <= v@.len(),
        all_finite(v@),
    ensures
        ascending(r@),
        all_finite(r@),
        r@.len() == hi - lo,
        r@.to_multiset() == v@.subrange(lo as int, hi as int).to_multiset(),
        same_at_every_place(r@, v@.subrange(lo as int, hi as int)),
        ascending(v@.subrange(lo as int, hi as int)) ==> r@ == v@.subrange(lo as int, hi as int),
    decreases hi - lo,
{
    let ghost whole = v@.subrange(lo as int, hi as int);
    if hi - lo <= 1 {
        let mut r: Vec<Pair<T, U>> = Vec::new();
        if lo < hi {
            r.push(v[lo]);
        }
        proof {
            assert(r@ =~= whole);
        }
        return r;
    }
    let mid: usize = lo + (hi - lo) / 2;
    let left = sort_run(v, lo, mid);
    let right = sort_run(v, mid, hi);
    let r = merge_runs(&left, &right);
    proof {
        let first = v@.subrange(lo as int, mid as int);
        let second = v@.subrange(mid as int, hi as int);
        assert(whole =~= first + second);
        vstd::seq_lib::lemma_multiset_commutative(left@, right@);
        vstd::seq_lib::lemma_multiset_commutative(first, second);
        assert forall|p: int| #[trigger] at_place(r@, p) == at_place(whole, p) by {
            lemma_places_of_joined(left@, right@, p);
            lemma_places_of_joined(first, second, p);
            assert(at_place(left@, p) == at_place(first, p));
            assert(at_place(right@, p) == at_place(second, p));
        }
        if ascending(whole) {
            lemma_part_ascending(whole, 0, mid - lo);
            lemma_part_ascending(whole, mid - lo, hi - lo);
            assert(whole.subrange(0, mid - lo) =~= first);
            assert(whole.subrange(mid - lo, hi - lo) =~= second);
        }
    }
    r
}

/// Sorts the observations by coordinate.
///
/// The sort is stable: observations at one coordinate keep the order in
/// which they came, so a sequence that is ascending already is left as it is.
pub fn sort_pairs<T: InterpNum, U: Copy>(v: &mut Vec<Pair<T, U>>)
    requires
        all_finite(old(v)@),
    ensures
        ascending(final(v)@),
        all_finite(final(v)@),
        final(v)@.to_multiset() == old(v)@.to_multiset(),
        final(v)@.len() == old(v)@.len(),
        same_at_every_place(final(v)@, old(v)@),
        ascending(old(v)@) ==> final(v)@ == old(v)@,
{
    let sorted = sort_run(v, 0, v.len());
    proof {
        assert(v@.subrange(0, v@.len() as int) =~= v@);
    }
    *v = sorted;
}

} // verus!
