use crate::error::InterpError;
use std::cmp::Ordering;
use vstd::prelude::*;
use vstd::std_specs::cmp::PartialEqSpecImpl;
use vstd::std_specs::cmp::PartialOrdSpecImpl;

verus! {

/// A coordinate: a value of an ordered number line, or one that lies off it
/// (as a floating-point NaN or infinity does).
///
/// Only a finite value may stand in a table. A query may be made at every
/// value that has a place in the order: that is every finite value, and
/// whichever of the others the type orders with them (an infinity, which
/// lies before or after them all; not a NaN). Values that have a place are
/// ordered, and equal, as their positions are.
///
/// The functions that model a coordinate have a body that says nothing, so
/// that an impl may leave them out: of such a type's tables all holds that
/// holds of every coordinate type. The integer impls of this library give
/// each of them its meaning.
pub trait InterpNum: Copy + Sized {
    /// Whether the value lies on the number line.
    closed spec fn finite(self) -> bool {
        arbitrary()
    }

    /// Whether a value that lies off the number line has a place in the
    /// order all the same.
    closed spec fn ordered(self) -> bool {
        arbitrary()
    }

    /// The place of a value in the order of the coordinates.
    closed spec fn position(self) -> int {
        arbitrary()
    }

    /// Whether `text` is the value written out for a reader.
    closed spec fn shown_as(self, text: String) -> bool {
        arbitrary()
    }

    /// Tells whether the value lies on the number line.
    fn is_finite(&self) -> (b: bool)
        ensures
            b == self.finite(),
    ;

    /// Tells whether the value lies before `other`. Of a value without a
    /// place in the order nothing is said.
    fn precedes(&self, other: &Self) -> (b: bool)
        ensures
            (self.finite() || self.ordered()) && (other.finite() || other.ordered()) ==> b == (
            self.position() < other.position()),
    ;

    /// Writes the value out for a reader.
    fn show(&self) -> (text: String)
        ensures
            self.shown_as(text),
    ;
}

/// Whether the value has a place in the order of the coordinates: it lies on
/// the number line, or its type orders it with the values that do.
pub open spec fn has_place<T: InterpNum>(x: T) -> bool {
    x.finite() || x.ordered()
}

/// A value that can be blended linearly: a checked algebra with the four
/// operations, into which a stretch of the coordinate line from `from` to
/// `to` can be brought as the number `to - from`.
///
/// Each operation gives `None` where the type has no result for it. The
/// functions that model the operations have a body that says nothing, so
/// that an impl may leave them out; the integer impls of this library give
/// each of them its meaning.
pub trait InterpFloat<T: InterpNum>: Copy + Sized {
    /// What `plus` gives.
    closed spec fn sum(self, rhs: Self) -> Option<Self> {
        arbitrary()
    }

    /// What `minus` gives.
    closed spec fn difference(self, rhs: Self) -> Option<Self> {
        arbitrary()
    }

    /// What `times` gives.
    closed spec fn product(self, rhs: Self) -> Option<Self> {
        arbitrary()
    }

    /// What `over` gives.
    closed spec fn quotient(self, rhs: Self) -> Option<Self> {
        arbitrary()
    }

    /// What `from_span` gives: the length of the stretch from `from` to
    /// `to`, as a value.
    closed spec fn of_span(from: T, to: T) -> Option<Self> {
        arbitrary()
    }

    fn plus(self, rhs: Self) -> (r: Option<Self>)
        ensures
            r == self.sum(rhs),
    ;

    fn minus(self, rhs: Self) -> (r: Option<Self>)
        ensures
            r == self.difference(rhs),
    ;

    fn times(self, rhs: Self) -> (r: Option<Self>)
        ensures
            r == self.product(rhs),
    ;

    fn over(self, rhs: Self) -> (r: Option<Self>)
        ensures
            r == self.quotient(rhs),
    ;

    fn from_span(from: T, to: T) -> (r: Option<Self>)
        ensures
            r == Self::of_span(from, to),
    ;
}

/// One observation: the value `y` seen at the coordinate `x`.
#[derive(Debug, Clone, Copy)]
pub struct Pair<T, U> {
    pub x: T,
    pub y: U,
}

impl<T: InterpNum, U: Copy> Pair<T, U> {
    /// Where the observation lies on the coordinate line.
    pub open spec fn position(self) -> int {
        self.x.position()
    }

    /// An observation at a coordinate that has to be tested: it is refused
    /// where the coordinate lies off the number line.
    pub fn from_float(pair: (T, U)) -> (r: Result<Pair<T, U>, InterpError>)
        ensures
            r == (if pair.0.finite() {
                Ok::<Pair<T, U>, InterpError>(Pair { x: pair.0, y: pair.1 })
            } else {
                Err(InterpError::InvalidData)
            }),
    {
        if !pair.0.is_finite() {
            return Err(InterpError::InvalidData);
        }
        Ok(Pair { x: pair.0, y: pair.1 })
    }

    /// An observation at a coordinate of a type whose values all lie on the
    /// number line.
    pub fn from_int(pair: (T, U)) -> (r: Pair<T, U>)
        ensures
            r == (Pair { x: pair.0, y: pair.1 }),
    {
        Pair { x: pair.0, y: pair.1 }
    }
}

/// Observations are equal where they lie at one place of the number line,
/// whatever their values are. One that lies off the line equals none.
impl<T: InterpNum, U: Copy> PartialEq for Pair<T, U> {
    fn eq(&self, other: &Self) -> (r: bool) {
        self.x.is_finite() && other.x.is_finite() && !self.x.precedes(&other.x)
            && !other.x.precedes(&self.x)
    }
}

impl<T: InterpNum, U: Copy> PartialEqSpecImpl for Pair<T, U> {
    open spec fn obeys_eq_spec() -> bool {
        true
    }

    open spec fn eq_spec(&self, other: &Self) -> bool {
        self.x.finite() && other.x.finite() && self.x.position() == other.x.position()
    }
}

impl<T: InterpNum, U: Copy> Eq for Pair<T, U> {

}

/// Observations are ordered as their places on the number line are. One
/// that lies off the line is ordered with none.
impl<T: InterpNum, U: Copy> PartialOrd for Pair<T, U> {
    fn partial_cmp(&self, other: &Self) -> (r: Option<Ordering>) {
        if !self.x.is_finite() || !other.x.is_finite() {
            None
        } else if self.x.precedes(&other.x) {
            Some(Ordering::Less)
        } else if other.x.precedes(&self.x) {
            Some(Ordering::Greater)
        } else {
            Some(Ordering::Equal)
        }
    }
}

impl<T: InterpNum, U: Copy> PartialOrdSpecImpl for Pair<T, U> {
    open spec fn obeys_partial_cmp_spec() -> bool {
        true
    }

    open spec fn partial_cmp_spec(&self, other: &Self) -> Option<Ordering> {
        if !self.x.finite() || !other.x.finite() {
            None
        } else if self.x.position() < other.x.position() {
            Some(Ordering::Less)
        } else if other.x.position() < self.x.position() {
            Some(Ordering::Greater)
        } else {
            Some(Ordering::Equal)
        }
    }
}

} // verus!
