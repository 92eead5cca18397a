use crate::pair::InterpFloat;
use crate::pair::InterpNum;
use vstd::prelude::*;

verus! {

/// The number `n` as an `i64`, where an `i64` can hold it.
pub open spec fn fitting(n: int) -> Option<i64> {
    if i64::MIN <= n <= i64::MAX {
        Some(n as i64)
    } else {
        None
    }
}

/// The quotient of `a` by `b` rounded toward zero; `b` is not zero.
pub open spec fn toward_zero(a: int, b: int) -> int {
    let size = (if a < 0 {
        -a
    } else {
        a
    }) / (if b < 0 {
        -b
    } else {
        b
    });
    if (a < 0) == (b < 0) {
        size
    } else {
        -size
    }
}

/// The whole-number quotient of two `i64`: none by zero, and none where an
/// `i64` cannot hold it.
pub open spec fn whole_quotient(a: i64, b: i64) -> Option<i64> {
    if b == 0 {
        None
    } else {
        fitting(toward_zero(a as int, b as int))
    }
}

/// `<i64 as num_traits::NumCast>::from` on an `i128`: the same number where
/// it lies in the range of `i64`, and `None` where it does not.
#[verifier::external_body]
fn narrow(n: i128) -> (r: Option<i64>)
    ensures
        r == fitting(n as int),
{
    <i64 as num_traits::NumCast>::from(n)
}

/// The length of the stretch from `from` to `to` as an `i64`, where an
/// `i64` can hold it.
pub fn span(from: i128, to: i128) -> (r: Option<i64>)
    ensures
        r == fitting(to - from),
{
    match to.checked_sub(from) {
        Some(length) => narrow(length),
        None => None,
    }
}

/// The length of the stretch from `from` to `to` as an `i64`, where an
/// `i64` can hold it, for numbers beyond the range of `i128`.
pub fn span_unsigned(from: u128, to: u128) -> (r: Option<i64>)
    ensures
        r == fitting(to - from),
{
    if from <= to {
        let length: u128 = to - from;
        if length > 0x7fff_ffff_ffff_ffff {
            None
        } else {
            narrow(length as i128)
        }
    } else {
        let length: u128 = from - to;
        if length > 0x8000_0000_0000_0000 {
            None
        } else {
            narrow(-(length as i128))
        }
    }
}

/// Divides two `i64`, rounding toward zero.
pub fn divide(a: i64, b: i64) -> (r: Option<i64>)
    ensures
        r == whole_quotient(a, b),
{
    if b == 0 {
        return None;
    }
    let wide_a: i128 = a as i128;
    let wide_b: i128 = b as i128;
    let size_a: i128 = if wide_a < 0 {
        -wide_a
    } else {
        wide_a
    };
    let size_b: i128 = if wide_b < 0 {
        -wide_b
    } else {
        wide_b
    };
    let size: i128 = size_a / size_b;
    assert(0 <= size <= size_a) by (nonlinear_arith)
        requires
            size == size_a / size_b,
            0 <= size_a,
            0 < size_b,
    ;
    let signed: i128 = if (a < 0) == (b < 0) {
        size
    } else {
        -size
    };
    if signed > 0x7fff_ffff_ffff_ffff {
        None
    } else {
        Some(signed as i64)
    }
}

/// A coordinate type of whole numbers. Every value lies on the number line,
/// at the place of its own number.
pub trait WholeNumber: InterpNum {
    /// The length of the stretch from `from` to `to` as an `i64`, where an
    /// `i64` can hold it.
    fn stretch(from: Self, to: Self) -> (r: Option<i64>)
        ensures
            r == fitting(to.position() - from.position()),
    ;
}

/// Whole-number values over whole-number coordinates: the operations are
/// those of `i64`, without a result where `i64` has none, and the quotient
/// is rounded toward zero.
impl<T: WholeNumber> InterpFloat<T> for i64 {
    open spec fn sum(self, rhs: Self) -> Option<Self> {
        fitting(self + rhs)
    }

    open spec fn difference(self, rhs: Self) -> Option<Self> {
        fitting(self - rhs)
    }

    open spec fn product(self, rhs: Self) -> Option<Self> {
        fitting(self * rhs)
    }

    open spec fn quotient(self, rhs: Self) -> Option<Self> {
        whole_quotient(self, rhs)
    }

    open spec fn of_span(from: T, to: T) -> Option<Self> {
        fitting(to.position() - from.position())
    }

    fn plus(self, rhs: Self) -> (r: Option<Self>) {
        self.checked_add(rhs)
    }

    fn minus(self, rhs: Self) -> (r: Option<Self>) {
        self.checked_sub(rhs)
    }

    fn times(self, rhs: Self) -> (r: Option<Self>) {
        self.checked_mul(rhs)
    }

    fn over(self, rhs: Self) -> (r: Option<Self>) {
        divide(self, rhs)
    }

    fn from_span(from: T, to: T) -> (r: Option<Self>) {
        T::stretch(from, to)
    }
}

impl InterpNum for i8 {
    open spec fn finite(self) -> bool {
        true
    }

    open spec fn ordered(self) -> bool {
        true
    }

    open spec fn position(self) -> int {
        self as int
    }

    open spec fn shown_as(self, text: String) -> bool {
        vstd::string::to_string_from_display_ensures::<i8>(&self, text)
    }

    fn is_finite(&self) -> (b: bool) {
        true
    }

    fn precedes(&self, other: &Self) -> (b: bool) {
        *self < *other
    }

    fn show(&self) -> (text: String) {
        self.to_string()
    }
}

impl WholeNumber for i8 {
    fn stretch(from: i8, to: i8) -> (r: Option<i64>) {
        span(from as i128, to as i128)
    }
}

impl InterpNum for i16 {
    open spec fn finite(self) -> bool {
        true
    }

    open spec fn ordered(self) -> bool {
        true
    }

    open spec fn position(self) -> int {
        self as int
    }

    open spec fn shown_as(self, text: String) -> bool {
        vstd::string::to_string_from_display_ensures::<i16>(&self, text)
    }

    fn is_finite(&self) -> (b: bool) {
        true
    }

    fn precedes(&self, other: &Self) -> (b: bool) {
        *self < *other
    }

    fn show(&self) -> (text: String) {
        self.to_string()
    }
}

impl WholeNumber for i16 {
    fn stretch(from: i16, to: i16) -> (r: Option<i64>) {
        span(from as i128, to as i128)
    }
}

impl InterpNum for i32 {
    open spec fn finite(self) -> bool {
        true
    }

    open spec fn ordered(self) -> bool {
        true
    }

    open spec fn position(self) -> int {
        self as int
    }

    open spec fn shown_as(self, text: String) -> bool {
        vstd::string::to_string_from_display_ensures::<i32>(&self, text)
    }

    fn is_finite(&self) -> (b: bool) {
        true
    }

    fn precedes(&self, other: &Self) -> (b: bool) {
        *self < *other
    }

    fn show(&self) -> (text: String) {
        self.to_string()
    }
}

impl WholeNumber for i32 {
    fn stretch(from: i32, to: i32) -> (r: Option<i64>) {
        span(from as i128, to as i128)
    }
}

impl InterpNum for i64 {
    open spec fn finite(self) -> bool {
        true
    }

    open spec fn ordered(self) -> bool {
        true
    }

    open spec fn position(self) -> int {
        self as int
    }

    open spec fn shown_as(self, text: String) -> bool {
        vstd::string::to_string_from_display_ensures::<i64>(&self, text)
    }

    fn is_finite(&self) -> (b: bool) {
        true
    }

    fn precedes(&self, other: &Self) -> (b: bool) {
        *self < *other
    }

    fn show(&self) -> (text: String) {
        self.to_string()
    }
}

impl WholeNumber for i64 {
    fn stretch(from: i64, to: i64) -> (r: Option<i64>) {
        span(from as i128, to as i128)
    }
}

impl InterpNum for i128 {
    open spec fn finite(self) -> bool {
        true
    }

    open spec fn ordered(self) -> bool {
        true
    }

    open spec fn position(self) -> int {
        self as int
    }

    open spec fn shown_as(self, text: String) -> bool {
        vstd::string::to_string_from_display_ensures::<i128>(&self, text)
    }

    fn is_finite(&self) -> (b: bool) {
        true
    }

    fn precedes(&self, other: &Self) -> (b: bool) {
        *self < *other
    }

    fn show(&self) -> (text: String) {
        self.to_string()
    }
}

impl WholeNumber for i128 {
    fn stretch(from: i128, to: i128) -> (r: Option<i64>) {
        span(from, to)
    }
}

impl InterpNum for isize {
    open spec fn finite(self) -> bool {
        true
    }

    open spec fn ordered(self) -> bool {
        true
    }

    open spec fn position(self) -> int {
        self as int
    }

    open spec fn shown_as(self, text: String) -> bool {
        vstd::string::to_string_from_display_ensures::<isize>(&self, text)
    }

    fn is_finite(&self) -> (b: bool) {
        true
    }

    fn precedes(&self, other: &Self) -> (b: bool) {
        *self < *other
    }

    fn show(&self) -> (text: String) {
        self.to_string()
    }
}

impl WholeNumber for isize {
    fn stretch(from: isize, to: isize) -> (r: Option<i64>) {
        span(from as i128, to as i128)
    }
}

impl InterpNum for u8 {
    open spec fn finite(self) -> bool {
        true
    }

    open spec fn ordered(self) -> bool {
        true
    }

    open spec fn position(self) -> int {
        self as int
    }

    open spec fn shown_as(self, text: String) -> bool {
        vstd::string::to_string_from_display_ensures::<u8>(&self, text)
    }

    fn is_finite(&self) -> (b: bool) {
        true
    }

    fn precedes(&self, other: &Self) -> (b: bool) {
        *self < *other
    }

    fn show(&self) -> (text: String) {
        self.to_string()
    }
}

impl WholeNumber for u8 {
    fn stretch(from: u8, to: u8) -> (r: Option<i64>) {
        span(from as i128, to as i128)
    }
}

impl InterpNum for u16 {
    open spec fn finite(self) -> bool {
        true
    }

    open spec fn ordered(self) -> bool {
        true
    }

    open spec fn position(self) -> int {
        self as int
    }

    open spec fn shown_as(self, text: String) -> bool {
        vstd::string::to_string_from_display_ensures::<u16>(&self, text)
    }

    fn is_finite(&self) -> (b: bool) {
        true
    }

    fn precedes(&self, other: &Self) -> (b: bool) {
        *self < *other
    }

    fn show(&self) -> (text: String) {
        self.to_string()
    }
}

impl WholeNumber for u16 {
    fn stretch(from: u16, to: u16) -> (r: Option<i64>) {
        span(from as i128, to as i128)
    }
}

impl InterpNum for u32 {
    open spec fn finite(self) -> bool {
        true
    }

    open spec fn ordered(self) -> bool {
        true
    }

    open spec fn position(self) -> int {
        self as int
    }

    open spec fn shown_as(self, text: String) -> bool {
        vstd::string::to_string_from_display_ensures::<u32>(&self, text)
    }

    fn is_finite(&self) -> (b: bool) {
        true
    }

    fn precedes(&self, other: &Self) -> (b: bool) {
        *self < *other
    }

    fn show(&self) -> (text: String) {
        self.to_string()
    }
}

impl WholeNumber for u32 {
    fn stretch(from: u32, to: u32) -> (r: Option<i64>) {
        span(from as i128, to as i128)
    }
}

impl InterpNum for u64 {
    open spec fn finite(self) -> bool {
        true
    }

    open spec fn ordered(self) -> bool {
        true
    }

    open spec fn position(self) -> int {
        self as int
    }

    open spec fn shown_as(self, text: String) -> bool {
        vstd::string::to_string_from_display_ensures::<u64>(&self, text)
    }

    fn is_finite(&self) -> (b: bool) {
        true
    }

    fn precedes(&self, other: &Self) -> (b: bool) {
        *self < *other
    }

    fn show(&self) -> (text: String) {
        self.to_string()
    }
}

impl WholeNumber for u64 {
    fn stretch(from: u64, to: u64) -> (r: Option<i64>) {
        span(from as i128, to as i128)
    }
}

impl InterpNum for u128 {
    open spec fn finite(self) -> bool {
        true
    }

    open spec fn ordered(self) -> bool {
        true
    }

    open spec fn position(self) -> int {
        self as int
    }

    open spec fn shown_as(self, text: String) -> bool {
        vstd::string::to_string_from_display_ensures::<u128>(&self, text)
    }

    fn is_finite(&self) -> (b: bool) {
        true
    }

    fn precedes(&self, other: &Self) -> (b: bool) {
        *self < *other
    }

    fn show(&self) -> (text: String) {
        self.to_string()
    }
}

impl WholeNumber for u128 {
    fn stretch(from: u128, to: u128) -> (r: Option<i64>) {
        span_unsigned(from, to)
    }
}

impl InterpNum for usize {
    open spec fn finite(self) -> bool {
        true
    }

    open spec fn ordered(self) -> bool {
        true
    }

    open spec fn position(self) -> int {
        self as int
    }

    open spec fn shown_as(self, text: String) -> bool {
        vstd::string::to_string_from_display_ensures::<usize>(&self, text)
    }

    fn is_finite(&self) -> (b: bool) {
        true
    }

    fn precedes(&self, other: &Self) -> (b: bool) {
        *self < *other
    }

    fn show(&self) -> (text: String) {
        self.to_string()
    }
}

impl WholeNumber for usize {
    fn stretch(from: usize, to: usize) -> (r: Option<i64>) {
        span(from as i128, to as i128)
    }
}

} // verus!
