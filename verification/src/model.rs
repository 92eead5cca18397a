use crate::order::all_finite;
use crate::order::ascending;
use crate::order::at_place;
use crate::order::lemma_ascending_run_is_determined;
use crate::order::lemma_same_contents_same_places;
use crate::order::same_at_every_place;
use crate::pair::InterpFloat;
use crate::pair::InterpNum;
use crate::pair::Pair;
use crate::search::lemma_rank_is_boundary;
use crate::search::lemma_rank_parts;
use crate::search::rank;
use vstd::prelude::*;

verus! {

/// The observations that two columns give, taken place by place; what one
/// column has beyond the other's length is left out.
pub open spec fn paired<T: InterpNum, U: Copy>(x: Seq<T>, y: Seq<U>) -> Seq<Pair<T, U>> {
    Seq::new(
        if x.len() <= y.len() {
            x.len()
        } else {
            y.len()
        },
        |i: int| Pair { x: x[i], y: y[i] },
    )
}

/// Every coordinate of the column lies on the number line.
pub open spec fn column_finite<T: InterpNum>(x: Seq<T>) -> bool {
    forall|i: int| 0 <= i < x.len() ==> (#[trigger] x[i]).finite()
}

/// What a table holds: at least one observation, each on the number line,
/// in ascending order.
pub open spec fn is_table<T: InterpNum, U: Copy>(s: Seq<Pair<T, U>>) -> bool {
    &&& s.len() > 0
    &&& all_finite(s)
    &&& ascending(s)
}

/// `t` is `s` sorted by coordinate: ascending, with the observations of `s`
/// and no others, those at one coordinate in the order in which `s` has
/// them. Where `s` is ascending already, `t` is `s`.
pub open spec fn sorting_of<T: InterpNum, U: Copy>(t: Seq<Pair<T, U>>, s: Seq<Pair<T, U>>) -> bool {
    &&& ascending(t)
    &&& t.len() == s.len()
    &&& t.to_multiset() == s.to_multiset()
    &&& same_at_every_place(t, s)
    &&& ascending(s) ==> t == s
}

/// Where a coordinate that no observation lies at falls.
#[derive(Debug, Clone, Copy, PartialEq, Eq, Structural)]
pub enum Region {
    /// Before every observation.
    Left,
    /// Between two neighbouring observations.
    Inside,
    /// After every observation.
    Right,
}

/// The region of a coordinate of rank `index` among `count` observations.
pub open spec fn region_of(index: int, count: int) -> Region {
    if index == 0 {
        Region::Left
    } else if index == count {
        Region::Right
    } else {
        Region::Inside
    }
}

/// Whether an observation lies at the coordinate `q` itself. The first such
/// observation is then the one at the rank of `q`.
pub open spec fn hit<T: InterpNum, U: Copy>(s: Seq<Pair<T, U>>, q: T) -> bool {
    rank(s, q) < s.len() && s[rank(s, q) as int].position() == q.position()
}

/// The value on the straight line through `left` and `right` at `q`:
/// `left.y + (right.y - left.y) / (right.x - left.x) * (q - left.x)`,
/// the two stretches of the coordinate line brought into the value type
/// first. `None` where a step has no result.
pub open spec fn blend<T: InterpNum, U: InterpFloat<T>>(
    left: Pair<T, U>,
    right: Pair<T, U>,
    q: T,
) -> Option<U> {
    match (right.y.difference(left.y), U::of_span(left.x, right.x), U::of_span(left.x, q)) {
        (Some(rise), Some(run), Some(step)) => match rise.quotient(run) {
            Some(slope) => match slope.product(step) {
                Some(gain) => left.y.sum(gain),
                None => None,
            },
            None => None,
        },
        _ => None,
    }
}

/// What a table says of one coordinate.
#[derive(Debug, Clone, Copy)]
pub enum Answer<U> {
    /// The value there: that of an observation, or a blend of two.
    Value(U),
    /// The coordinate lies before every observation.
    Left,
    /// The coordinate lies after every observation.
    Right,
    /// The coordinate lies between two observations whose blend has no
    /// result in the value type.
    NoResult,
}

/// What the table `s` says of the coordinate `q`.
///
/// An observation at `q` gives its value as it is, the first one where
/// several lie there. Otherwise `q` lies before all observations, after
/// them all, or between the two neighbours at its rank, which are blended.
pub open spec fn answer<T: InterpNum, U: InterpFloat<T>>(s: Seq<Pair<T, U>>, q: T) -> Answer<U> {
    let i = rank(s, q) as int;
    if hit(s, q) {
        Answer::Value(s[i].y)
    } else {
        match region_of(i, s.len() as int) {
            Region::Left => Answer::Left,
            Region::Inside => match blend(s[i - 1], s[i], q) {
                Some(v) => Answer::Value(v),
                None => Answer::NoResult,
            },
            Region::Right => Answer::Right,
        }
    }
}

/// What the table `s`, continued to both sides by its first and its last
/// value, gives at `q`; `None` where a blend has no result.
pub open spec fn clamped<T: InterpNum, U: InterpFloat<T>>(s: Seq<Pair<T, U>>, q: T) -> Option<U> {
    match answer(s, q) {
        Answer::Value(v) => Some(v),
        Answer::Left => Some(s.first().y),
        Answer::Right => Some(s.last().y),
        Answer::NoResult => None,
    }
}

/// Sorting keeps the observations: however an input is arranged, what is
/// built from it is ascending and holds each observation of the input as
/// often as the input does.
pub proof fn law_sorting_keeps_observations<T: InterpNum, U: Copy>(
    first: Seq<Pair<T, U>>,
    second: Seq<Pair<T, U>>,
    from_first: Seq<Pair<T, U>>,
    from_second: Seq<Pair<T, U>>,
)
    requires
        first.to_multiset() == second.to_multiset(),
        sorting_of(from_first, first),
        sorting_of(from_second, second),
    ensures
        ascending(from_first),
        ascending(from_second),
        from_first.to_multiset() == first.to_multiset(),
        from_second.to_multiset() == first.to_multiset(),
{
}

/// Sorting has one outcome: two sortings of one input are the same
/// sequence, observations at one coordinate included.
pub proof fn law_sorting_is_determined<T: InterpNum, U: Copy>(
    input: Seq<Pair<T, U>>,
    one: Seq<Pair<T, U>>,
    other: Seq<Pair<T, U>>,
)
    requires
        sorting_of(one, input),
        sorting_of(other, input),
    ensures
        one == other,
{
    lemma_ascending_run_is_determined(one, other);
}

/// The arrangement of an input does not matter where no two observations
/// share a coordinate: two inputs that hold the same observations are
/// sorted into the same sequence.
pub proof fn law_arrangement_does_not_matter<T: InterpNum, U: Copy>(
    first: Seq<Pair<T, U>>,
    second: Seq<Pair<T, U>>,
    from_first: Seq<Pair<T, U>>,
    from_second: Seq<Pair<T, U>>,
)
    requires
        first.to_multiset() == second.to_multiset(),
        forall|p: int| (#[trigger] at_place(first, p)).len() <= 1,
        sorting_of(from_first, first),
        sorting_of(from_second, second),
    ensures
        from_first == from_second,
{
    broadcast use vstd::seq_lib::to_multiset_len;

    lemma_same_contents_same_places(first, second);
    assert(first.len() == second.len()) by {
        assert(first.to_multiset().len() == first.len());
        assert(second.to_multiset().len() == second.len());
    }
    assert forall|p: int| #[trigger] at_place(from_first, p) == at_place(from_second, p) by {
        assert(at_place(from_first, p) == at_place(first, p));
        assert(at_place(from_second, p) == at_place(second, p));
        assert(at_place(first, p) == at_place(second, p));
    }
    lemma_ascending_run_is_determined(from_first, from_second);
}

/// An input that is ascending already gives the same table whether it is
/// taken as it is or sorted first.
pub proof fn law_sorted_input_is_kept<T: InterpNum, U: Copy>(
    input: Seq<Pair<T, U>>,
    taken: Seq<Pair<T, U>>,
    sorted: Seq<Pair<T, U>>,
)
    requires
        ascending(input),
        taken == input,
        sorting_of(sorted, input),
    ensures
        sorted == taken,
{
}

/// The first observation at a coordinate is what both queries answer there,
/// with its value as it is. So every observation that has none before it at
/// its own coordinate is given back exactly.
pub proof fn law_exact_match<T: InterpNum, U: InterpFloat<T>>(s: Seq<Pair<T, U>>, k: int)
    requires
        is_table(s),
        0 <= k < s.len(),
        forall|j: int| 0 <= j < k ==> (#[trigger] s[j]).position() < s[k].position(),
    ensures
        rank(s, s[k].x) == k,
        hit(s, s[k].x),
        answer(s, s[k].x) == Answer::Value(s[k].y),
        clamped(s, s[k].x) == Some(s[k].y),
{
    lemma_rank_is_boundary(s, s[k].x, k);
}

/// A coordinate before the first observation is left of the table: the
/// checked query has no answer there, and the clamped one gives the first
/// value.
pub proof fn law_left_of_table<T: InterpNum, U: InterpFloat<T>>(s: Seq<Pair<T, U>>, q: T)
    requires
        is_table(s),
        q.position() < s.first().position(),
    ensures
        answer(s, q) == Answer::<U>::Left,
        clamped(s, q) == Some(s.first().y),
{
    lemma_rank_is_boundary(s, q, 0);
}

/// A coordinate after the last observation is right of the table: the
/// checked query has no answer there, and the clamped one gives the last
/// value.
pub proof fn law_right_of_table<T: InterpNum, U: InterpFloat<T>>(s: Seq<Pair<T, U>>, q: T)
    requires
        is_table(s),
        s.last().position() < q.position(),
    ensures
        answer(s, q) == Answer::<U>::Right,
        clamped(s, q) == Some(s.last().y),
{
    lemma_rank_is_boundary(s, q, s.len() as int);
}

/// The table ends where its observations end: a coordinate is left of it
/// exactly where it lies before the first observation, and right of it
/// exactly where it lies after the last. At every coordinate from the first
/// observation to the last, both included, the table has a value, or a
/// blend without result.
pub proof fn law_outside_exactly<T: InterpNum, U: InterpFloat<T>>(s: Seq<Pair<T, U>>, q: T)
    requires
        is_table(s),
    ensures
        answer(s, q) is Left <==> q.position() < s.first().position(),
        answer(s, q) is Right <==> s.last().position() < q.position(),
        clamped(s, q) is Some <==> !(answer(s, q) is NoResult),
{
    lemma_rank_parts(s, q);
    if q.position() < s.first().position() {
        law_left_of_table(s, q);
    } else if s.last().position() < q.position() {
        law_right_of_table(s, q);
    } else {
        let i = rank(s, q) as int;
        if i == s.len() {
            assert(s[s.len() - 1].position() < q.position());
        }
        if i == 0 {
            assert(s[0].position() >= q.position());
        }
    }
}

/// A coordinate strictly between two neighbouring observations is answered
/// by their blend.
pub proof fn law_between_neighbours<T: InterpNum, U: InterpFloat<T>>(
    s: Seq<Pair<T, U>>,
    q: T,
    k: int,
)
    requires
        is_table(s),
        0 <= k < s.len() - 1,
        s[k].position() < q.position() < s[k + 1].position(),
    ensures
        !hit(s, q),
        clamped(s, q) == blend(s[k], s[k + 1], q),
        answer(s, q) == match blend(s[k], s[k + 1], q) {
            Some(v) => Answer::Value(v),
            None => Answer::NoResult,
        },
{
    lemma_rank_is_boundary(s, q, k + 1);
}

/// Wherever the checked query has a value, the clamped query has the same.
pub proof fn law_queries_agree<T: InterpNum, U: InterpFloat<T>>(s: Seq<Pair<T, U>>, q: T, v: U)
    requires
        answer(s, q) == Answer::Value(v),
    ensures
        clamped(s, q) == Some(v),
{
}

} // verus!
