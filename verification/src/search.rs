use crate::order::all_finite;
use crate::order::ascending;
use crate::pair::has_place;
use crate::pair::InterpNum;
use crate::pair::Pair;
use vstd::prelude::*;

verus! {

/// How many of the observations lie strictly before the coordinate `q`.
///
/// In an ascending sequence this is the place of the first observation that
/// does not lie before `q`, and the length where there is none.
pub open spec fn rank<T: InterpNum, U: Copy>(s: Seq<Pair<T, U>>, q: T) -> nat
    decreases s.len(),
{
    if s.len() == 0 {
        0
    } else if s.last().position() < q.position() {
        rank(s.drop_last(), q) + 1
    } else {
        rank(s.drop_last(), q)
    }
}

/// A place that parts the observations before `q` from the others is the
/// rank of `q`.
pub proof fn lemma_rank_is_boundary<T: InterpNum, U: Copy>(s: Seq<Pair<T, U>>, q: T, i: int)
    requires
        0 <= i <= s.len(),
        forall|j: int| 0 <= j < i ==> (#[trigger] s[j]).position() < q.position(),
        forall|j: int| i <= j < s.len() ==> (#[trigger] s[j]).position() >= q.position(),
    ensures
        rank(s, q) == i,
    decreases s.len(),
{
    if s.len() > 0 {
        let front = s.drop_last();
        let k = if i == s.len() {
            i - 1
        } else {
            i
        };
        assert forall|j: int| 0 <= j < k implies (#[trigger] front[j]).position()
            < q.position() by {
            assert(front[j] == s[j]);
        }
        assert forall|j: int| k <= j < front.len() implies (#[trigger] front[j]).position()
            >= q.position() by {
            assert(front[j] == s[j]);
        }
        lemma_rank_is_boundary(front, q, k);
        if i == s.len() {
            assert(s.last() == s[i - 1]);
        } else {
            assert(s.last() == s[s.len() - 1]);
        }
    }
}

/// In an ascending sequence the rank of `q` parts the observations before
/// `q` from the others.
pub proof fn lemma_rank_parts<T: InterpNum, U: Copy>(s: Seq<Pair<T, U>>, q: T)
    requires
        ascending(s),
    ensures
        rank(s, q) <= s.len(),
        forall|j: int| 0 <= j < rank(s, q) ==> (#[trigger] s[j]).position() < q.position(),
        forall|j: int| rank(s, q) <= j < s.len() ==> (#[trigger] s[j]).position() >= q.position(),
    decreases s.len(),
{
    if s.len() > 0 {
        let front = s.drop_last();
        assert forall|a: int, b: int| 0 <= a <= b < front.len() implies front[a].position()
            <= front[b].position() by {
            assert(front[a] == s[a] && front[b] == s[b]);
        }
        lemma_rank_parts(front, q);
        assert forall|j: int| 0 <= j < rank(s, q) implies (#[trigger] s[j]).position()
            < q.position() by {
            if j < front.len() {
                assert(front[j] == s[j]);
                if j >= rank(front, q) {
                    assert(s[j].position() <= s.last().position());
                }
            }
        }
        assert forall|j: int| rank(s, q) <= j < s.len() implies (#[trigger] s[j]).position()
            >= q.position() by {
            if j < front.len() {
                assert(front[j] == s[j]);
            }
        }
    }
}

/// Finds the rank of `q` among ascending observations, by bisection. `q`
/// may be any value that has a place in the order of the coordinates.
pub fn search<T: InterpNum, U: Copy>(v: &Vec<Pair<T, U>>, q: T) -> (i: usize)
    requires
        ascending(v@),
        all_finite(v@),
        has_place(q),
    ensures
        i == rank(v@, q),
        i <= v@.len(),
{
    let mut lo: usize = 0;
    let mut hi: usize = v.len();
    while lo < hi
        invariant
            lo <= hi <= v@.len(),
            ascending(v@),
            all_finite(v@),
            has_place(q),
            forall|j: int| 0 <= j < lo ==> (#[trigger] v@[j]).position() < q.position(),
            forall|j: int| hi <= j < v@.len() ==> (#[trigger] v@[j]).position() >= q.position(),
        decreases hi - lo,
    {
        let mid: usize = lo + (hi - lo) / 2;
        if v[mid].x.precedes(&q) {
            lo = mid + 1;
        } else {
            hi = mid;
        }
    }
    proof {
        lemma_rank_is_boundary(v@, q, lo as int);
    }
    lo
}

} // verus!
