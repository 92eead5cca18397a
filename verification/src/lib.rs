use crate::error::InterpError;
use crate::model::answer;
use crate::model::blend;
use crate::model::clamped;
use crate::model::column_finite;
use crate::model::is_table;
use crate::model::paired;
use crate::model::region_of;
use crate::model::sorting_of;
use crate::model::Answer;
use crate::model::Region;
use crate::order::all_finite;
use crate::order::sort_pairs;
use crate::pair::has_place;
use crate::pair::InterpFloat;
use crate::pair::InterpNum;
use crate::pair::Pair;
use crate::search::lemma_rank_parts;
use crate::search::search;
use vstd::prelude::*;

pub mod error;
pub mod ints;
pub mod model;
pub mod order;
pub mod pair;
pub mod search;

verus! {

/// Computes the blend between two observations at `q`.
pub fn blend_pairs<T: InterpNum, U: InterpFloat<T>>(
    left: Pair<T, U>,
    right: Pair<T, U>,
    q: T,
) -> (r: Option<U>)
    ensures
        r == blend(left, right, q),
{
    let rise = right.y.minus(left.y);
    let run = U::from_span(left.x, right.x);
    let step = U::from_span(left.x, q);
    match (rise, run, step) {
        (Some(rise), Some(run), Some(step)) => match rise.over(run) {
            Some(slope) => match slope.times(step) {
                Some(gain) => left.y.plus(gain),
                None => None,
            },
            None => None,
        },
        _ => None,
    }
}

/// Whether every coordinate of the column lies on the number line.
pub fn check_column<T: InterpNum>(x: &Vec<T>) -> (b: bool)
    ensures
        b == column_finite(x@),
{
    let mut i: usize = 0;
    while i < x.len()
        invariant
            i <= x@.len(),
            forall|k: int| 0 <= k < i ==> (#[trigger] x@[k]).finite(),
        decreases x@.len() - i,
    {
        if !x[i].is_finite() {
            return false;
        }
        i = i + 1;
    }
    true
}

/// Pairs two columns up, place by place, for a coordinate type whose values
/// all lie on the number line.
pub fn pair_up<T: InterpNum, U: Copy>(x: &Vec<T>, y: &Vec<U>) -> (v: Vec<Pair<T, U>>)
    ensures
        v@ == paired(x@, y@),
{
    let n: usize = if x.len() <= y.len() {
        x.len()
    } else {
        y.len()
    };
    let mut v: Vec<Pair<T, U>> = Vec::with_capacity(n);
    let mut i: usize = 0;
    while i < n
        invariant
            i <= n,
            n <= x@.len(),
            n <= y@.len(),
            v@.len() == i,
            forall|k: int| 0 <= k < i ==> v@[k] == (Pair { x: x@[k], y: y@[k] }),
        decreases n - i,
    {
        v.push(Pair::from_int((x[i], y[i])));
        i = i + 1;
    }
    proof {
        assert(v@ =~= paired(x@, y@));
    }
    v
}

/// Pairs two columns up, place by place, testing each coordinate that goes
/// into an observation.
pub fn pair_up_tested<T: InterpNum, U: Copy>(x: &Vec<T>, y: &Vec<U>) -> (r: Result<
    Vec<Pair<T, U>>,
    InterpError,
>)
    ensures
        r is Ok <==> all_finite(paired(x@, y@)),
        r matches Ok(v) ==> v@ == paired(x@, y@),
        r matches Err(e) ==> e == InterpError::InvalidData,
{
    let n: usize = if x.len() <= y.len() {
        x.len()
    } else {
        y.len()
    };
    let mut v: Vec<Pair<T, U>> = Vec::with_capacity(n);
    let mut i: usize = 0;
    while i < n
        invariant
            i <= n,
            n <= x@.len(),
            n <= y@.len(),
            n == paired(x@, y@).len(),
            v@.len() == i,
            forall|k: int| 0 <= k < i ==> v@[k] == (Pair { x: x@[k], y: y@[k] }),
            forall|k: int| 0 <= k < i ==> (#[trigger] x@[k]).finite(),
        decreases n - i,
    {
        match Pair::from_float((x[i], y[i])) {
            Ok(pair) => {
                v.push(pair);
            },
            Err(e) => {
                proof {
                    assert(!paired(x@, y@)[i as int].x.finite());
                }
                return Err(e);
            },
        }
        i = i + 1;
    }
    proof {
        assert(v@ =~= paired(x@, y@));
        assert forall|k: int| 0 <= k < paired(x@, y@).len() implies (#[trigger] paired(
            x@,
            y@,
        )[k]).x.finite() by {
            assert(x@[k].finite());
        }
    }
    Ok(v)
}

/// A table of observations for piecewise-linear interpolation.
///
/// It holds at least one observation, all on the number line and in
/// ascending order of their coordinates, and is never changed once built.
/// Its view is the sequence of its observations.
pub struct Interp1d<T: InterpNum, U: InterpFloat<T>> {
    inner: Vec<Pair<T, U>>,
    size: usize,
    min: T,
    max: T,
}

impl<T: InterpNum, U: InterpFloat<T>> View for Interp1d<T, U> {
    type V = Seq<Pair<T, U>>;

    closed spec fn view(&self) -> Seq<Pair<T, U>> {
        self.inner@
    }
}

impl<T: InterpNum, U: InterpFloat<T>> Interp1d<T, U> {
    #[verifier::type_invariant]
    spec fn well_formed(self) -> bool {
        &&& is_table(self.inner@)
        &&& self.size == self.inner@.len()
        &&& self.min == self.inner@.first().x
        &&& self.max == self.inner@.last().x
    }

    /// Builds the table from observations that are known to make one.
    fn assemble(inner: Vec<Pair<T, U>>) -> (t: Interp1d<T, U>)
        requires
            is_table(inner@),
        ensures
            t@ == inner@,
    {
        let size = inner.len();
        let min = inner[0].x;
        let max = inner[size - 1].x;
        Interp1d { inner, size, min, max }
    }

    /// Builds a table from two columns in any order, testing the
    /// coordinates.
    ///
    /// The columns are paired place by place, and what one has beyond the
    /// other's length is left out. The table is refused where a coordinate
    /// of `x` lies off the number line, and where the columns give no
    /// observation.
    pub fn new_unsorted(x: Vec<T>, y: Vec<U>) -> (r: Result<Interp1d<T, U>, InterpError>)
        ensures
            r is Ok <==> column_finite(x@) && paired(x@, y@).len() > 0,
            r matches Ok(t) ==> is_table(t@) && sorting_of(t@, paired(x@, y@)),
            r matches Err(e) ==> e == InterpError::InvalidData,
    {
        if !check_column(&x) {
            return Err(InterpError::InvalidData);
        }
        let mut inner = match pair_up_tested(&x, &y) {
            Ok(inner) => inner,
            Err(e) => {
                proof {
                    let k = choose|k: int|
                        0 <= k < paired(x@, y@).len() && !(#[trigger] paired(x@, y@)[k]).x.finite();
                    assert(x@[k].finite());
                }
                return Err(e);
            },
        };
        if inner.len() == 0 {
            return Err(InterpError::InvalidData);
        }
        sort_pairs(&mut inner);
        Ok(Self::assemble(inner))
    }

    /// Builds a table from two columns that are in ascending order of the
    /// coordinates already, testing the coordinates.
    ///
    /// The columns are paired place by place, and what one has beyond the
    /// other's length is left out. The table is refused where a coordinate
    /// of `x` lies off the number line, and where the columns give no
    /// observation. That the observations are ascending is the caller's to
    /// see to: it is not tested.
    pub fn new_sorted(x: Vec<T>, y: Vec<U>) -> (r: Result<Interp1d<T, U>, InterpError>)
        requires
            column_finite(x@) ==> crate::order::ascending(paired(x@, y@)),
        ensures
            r is Ok <==> column_finite(x@) && paired(x@, y@).len() > 0,
            r matches Ok(t) ==> is_table(t@) && t@ == paired(x@, y@),
            r matches Err(e) ==> e == InterpError::InvalidData,
    {
        if !check_column(&x) {
            return Err(InterpError::InvalidData);
        }
        let inner = match pair_up_tested(&x, &y) {
            Ok(inner) => inner,
            Err(e) => {
                proof {
                    let k = choose|k: int|
                        0 <= k < paired(x@, y@).len() && !(#[trigger] paired(x@, y@)[k]).x.finite();
                    assert(x@[k].finite());
                }
                return Err(e);
            },
        };
        if inner.len() == 0 {
            return Err(InterpError::InvalidData);
        }
        Ok(Self::assemble(inner))
    }

    /// Builds a table from two columns in any order, for a coordinate type
    /// whose values all lie on the number line.
    ///
    /// The columns are paired place by place, and what one has beyond the
    /// other's length is left out. They have to give an observation.
    pub fn new_unsorted_int(x: Vec<T>, y: Vec<U>) -> (t: Interp1d<T, U>)
        requires
            column_finite(x@),
            paired(x@, y@).len() > 0,
        ensures
            is_table(t@),
            sorting_of(t@, paired(x@, y@)),
    {
        let mut inner = pair_up(&x, &y);
        sort_pairs(&mut inner);
        Self::assemble(inner)
    }

    /// Builds a table from two columns that are in ascending order of the
    /// coordinates already, for a coordinate type whose values all lie on
    /// the number line.
    ///
    /// The columns are paired place by place, and what one has beyond the
    /// other's length is left out. They have to give an observation.
    pub fn new_sorted_int(x: Vec<T>, y: Vec<U>) -> (t: Interp1d<T, U>)
        requires
            column_finite(x@),
            paired(x@, y@).len() > 0,
            crate::order::ascending(paired(x@, y@)),
        ensures
            is_table(t@),
            t@ == paired(x@, y@),
    {
        let inner = pair_up(&x, &y);
        Self::assemble(inner)
    }

    /// The observations, in ascending order.
    pub fn samples(&self) -> (v: &Vec<Pair<T, U>>)
        ensures
            v@ == self@,
            is_table(self@),
    {
        proof {
            use_type_invariant(self);
        }
        &self.inner
    }

    /// How many observations the table holds.
    pub fn len(&self) -> (n: usize)
        ensures
            n == self@.len(),
            n > 0,
    {
        proof {
            use_type_invariant(self);
        }
        self.size
    }

    /// The first coordinate.
    pub fn min(&self) -> (x: T)
        ensures
            self@.len() > 0,
            x == self@.first().x,
    {
        proof {
            use_type_invariant(self);
        }
        self.min
    }

    /// The last coordinate.
    pub fn max(&self) -> (x: T)
        ensures
            self@.len() > 0,
            x == self@.last().x,
    {
        proof {
            use_type_invariant(self);
        }
        self.max
    }

    /// The region of a coordinate that no observation lies at, from its
    /// rank among the observations.
    pub fn determine_region(&self, index: usize) -> (r: Region)
        requires
            index <= self@.len(),
        ensures
            r == region_of(index as int, self@.len() as int),
    {
        proof {
            use_type_invariant(self);
        }
        if index == 0 {
            Region::Left
        } else if index == self.size {
            Region::Right
        } else {
            Region::Inside
        }
    }

    /// What the table says of the coordinate `x`, which may be any value
    /// that has a place in the order of the coordinates.
    pub fn answer_at(&self, x: T) -> (a: Answer<U>)
        requires
            has_place(x),
        ensures
            is_table(self@),
            a == answer(self@, x),
    {
        proof {
            use_type_invariant(self);
        }
        let index = search(&self.inner, x);
        proof {
            lemma_rank_parts(self.inner@, x);
        }
        if index < self.size && !x.precedes(&self.inner[index].x) {
            return Answer::Value(self.inner[index].y);
        }
        match self.determine_region(index) {
            Region::Left => Answer::Left,
            Region::Inside => {
                let left_pair = self.inner[index - 1];
                let right_pair = self.inner[index];
                match blend_pairs(left_pair, right_pair, x) {
                    Some(v) => Answer::Value(v),
                    None => Answer::NoResult,
                }
            },
            Region::Right => Answer::Right,
        }
    }

    /// The value at the coordinate `x`, where `x` lies within the table.
    ///
    /// An observation at `x` gives its value as it is; where several lie
    /// there, the first of them. Between two observations the answer is
    /// their blend. Before the first and after the last observation there is
    /// no value, however far off `x` lies: the error names `x` and the
    /// coordinate that bounds the table on that side.
    pub fn interpolate_checked(&self, x: T) -> (r: Result<U, InterpError>)
        requires
            has_place(x),
        ensures
            is_table(self@),
            match answer(self@, x) {
                Answer::Value(v) => r == Ok::<U, InterpError>(v),
                Answer::Left => r matches Err(InterpError::OutOfRangeLeft { point, min })
                    && x.shown_as(point) && self@.first().x.shown_as(min),
                Answer::Right => r matches Err(InterpError::OutOfRangeRight { point, max })
                    && x.shown_as(point) && self@.last().x.shown_as(max),
                Answer::NoResult => r == Err::<U, InterpError>(InterpError::ValueFromTFailed),
            },
    {
        proof {
            use_type_invariant(self);
        }
        match self.answer_at(x) {
            Answer::Value(v) => Ok(v),
            Answer::Left => {
                let point = x.show();
                let min = self.min.show();
                Err(InterpError::OutOfRangeLeft { point, min })
            },
            Answer::Right => {
                let point = x.show();
                let max = self.max.show();
                Err(InterpError::OutOfRangeRight { point, max })
            },
            Answer::NoResult => Err(InterpError::ValueFromTFailed),
        }
    }

    /// The value at the coordinate `x`, the table continued to both sides by
    /// its first and its last value; `None` where `x` lies between two
    /// observations whose blend has no result in the value type.
    pub fn try_interpolate(&self, x: T) -> (r: Option<U>)
        requires
            has_place(x),
        ensures
            is_table(self@),
            r == clamped(self@, x),
    {
        proof {
            use_type_invariant(self);
        }
        match self.answer_at(x) {
            Answer::Value(v) => Some(v),
            Answer::Left => Some(self.inner[0].y),
            Answer::Right => Some(self.inner[self.size - 1].y),
            Answer::NoResult => None,
        }
    }

    /// The value at the coordinate `x`, the table continued to both sides by
    /// its first and its last value.
    ///
    /// Where `x` lies between two observations, their blend has to have a
    /// result in the value type.
    pub fn interpolate(&self, x: T) -> (r: U)
        requires
            has_place(x),
            clamped(self@, x) is Some,
        ensures
            is_table(self@),
            Some(r) == clamped(self@, x),
    {
        match self.try_interpolate(x) {
            Some(v) => v,
            None => vstd::pervasive::unreached(),
        }
    }
}

} // verus!
