use interp1d::error::InterpError;
use interp1d::ints::divide;
use interp1d::ints::span;
use interp1d::ints::span_unsigned;
use interp1d::ints::WholeNumber;
use interp1d::model::Answer;
use interp1d::model::Region;
use interp1d::pair::InterpFloat;
use interp1d::pair::InterpNum;
use interp1d::pair::Pair;
use interp1d::Interp1d;
use std::cmp::Ordering;

/// A floating-point value over whole-number coordinates.
#[derive(Debug, Clone, Copy, PartialEq)]
struct Real(f64);

impl InterpFloat<u32> for Real {
    fn plus(self, rhs: Self) -> Option<Self> {
        Some(Real(self.0 + rhs.0))
    }

    fn minus(self, rhs: Self) -> Option<Self> {
        Some(Real(self.0 - rhs.0))
    }

    fn times(self, rhs: Self) -> Option<Self> {
        Some(Real(self.0 * rhs.0))
    }

    fn over(self, rhs: Self) -> Option<Self> {
        Some(Real(self.0 / rhs.0))
    }

    fn from_span(from: u32, to: u32) -> Option<Self> {
        <f64 as num_traits::NumCast>::from(to - from).map(Real)
    }
}

impl InterpFloat<usize> for Real {
    fn plus(self, rhs: Self) -> Option<Self> {
        Some(Real(self.0 + rhs.0))
    }

    fn minus(self, rhs: Self) -> Option<Self> {
        Some(Real(self.0 - rhs.0))
    }

    fn times(self, rhs: Self) -> Option<Self> {
        Some(Real(self.0 * rhs.0))
    }

    fn over(self, rhs: Self) -> Option<Self> {
        Some(Real(self.0 / rhs.0))
    }

    fn from_span(from: usize, to: usize) -> Option<Self> {
        <f64 as num_traits::NumCast>::from(to - from).map(Real)
    }
}

fn reals(values: &[f64]) -> Vec<Real> {
    values.iter().map(|v| Real(*v)).collect()
}

fn values_of<T: InterpNum, U: InterpFloat<T>>(table: &Interp1d<T, U>) -> Vec<U> {
    table.samples().iter().map(|p| p.y).collect()
}

fn coordinates_of<T: InterpNum, U: InterpFloat<T>>(table: &Interp1d<T, U>) -> Vec<T> {
    table.samples().iter().map(|p| p.x).collect()
}

fn sample_table() -> Interp1d<usize, Real> {
    Interp1d::new_sorted_int(vec![1, 3, 5], reals(&[5.0, 3.0, 4.0]))
}

#[test]
fn test_create_unsorted_int() {
    let x: Vec<u32> = vec![2, 1, 3];
    let y = reals(&[1.0, 0.0, 2.0]);

    let expected: Vec<Pair<u32, Real>> = vec![
        Pair::from_int((1, Real(0.0))),
        Pair::from_int((2, Real(1.0))),
        Pair::from_int((3, Real(2.0))),
    ];

    let interp = Interp1d::new_unsorted_int(x, y);

    assert_eq!(interp.samples(), &expected);
    assert_eq!(values_of(&interp), reals(&[0.0, 1.0, 2.0]));
}

#[test]
fn test_create_sorted_int() {
    let x: Vec<u32> = vec![1, 2, 3];
    let y = reals(&[1.0, 0.0, 2.0]);

    let expected: Vec<Pair<u32, Real>> = vec![
        Pair::from_int((1, Real(1.0))),
        Pair::from_int((2, Real(0.0))),
        Pair::from_int((3, Real(2.0))),
    ];

    let interp = Interp1d::new_sorted_int(x, y);

    assert_eq!(interp.samples(), &expected);
    assert_eq!(values_of(&interp), reals(&[1.0, 0.0, 2.0]));
}

#[test]
fn test_integer() {
    let x: Vec<usize> = vec![1, 3, 5];
    let y = reals(&[5.0, 3.0, 4.0]);

    let interpolator = Interp1d::new_sorted_int(x, y);

    let x_interp: Vec<usize> = vec![2, 4];

    let y_interp: Vec<Real> = x_interp
        .iter()
        .map(|&x| interpolator.interpolate_checked(x))
        .collect::<Result<Vec<Real>, _>>()
        .unwrap();

    assert_eq!(y_interp, reals(&[4.0, 3.5]));
}

#[test]
fn interior_points_are_blended() {
    let table = sample_table();
    assert_eq!(table.interpolate_checked(2).unwrap(), Real(4.0));
    assert_eq!(table.interpolate_checked(4).unwrap(), Real(3.5));
    assert_eq!(table.interpolate(2), Real(4.0));
    assert_eq!(table.interpolate(4), Real(3.5));
}

#[test]
fn left_of_the_table() {
    let table = sample_table();
    match table.interpolate_checked(0) {
        Err(InterpError::OutOfRangeLeft { point, min }) => {
            assert_eq!(point, "0");
            assert_eq!(min, "1");
        },
        other => panic!("unexpected answer: {:?}", other),
    }
    assert_eq!(table.interpolate(0), Real(5.0));
}

#[test]
fn right_of_the_table() {
    let table = sample_table();
    match table.interpolate_checked(6) {
        Err(InterpError::OutOfRangeRight { point, max }) => {
            assert_eq!(point, "6");
            assert_eq!(max, "5");
        },
        other => panic!("unexpected answer: {:?}", other),
    }
    assert_eq!(table.interpolate(6), Real(4.0));
}

#[test]
fn every_observation_is_given_back() {
    let table = sample_table();
    let xs: Vec<usize> = vec![1, 3, 5];
    let ys = reals(&[5.0, 3.0, 4.0]);
    for (x, y) in xs.iter().zip(ys.iter()) {
        assert_eq!(table.interpolate_checked(*x).unwrap(), *y);
        assert_eq!(table.interpolate(*x), *y);
    }
}

#[test]
fn the_first_of_equal_coordinates_answers() {
    let table: Interp1d<i64, i64> = Interp1d::new_sorted_int(vec![1, 1, 1, 2], vec![5, 7, 9, 11]);
    assert_eq!(table.interpolate_checked(1), Ok(5));
    assert_eq!(table.interpolate(1), 5);
}

#[test]
fn cached_bounds_and_count() {
    let table: Interp1d<i64, i64> = Interp1d::new_unsorted_int(vec![7, -2, 4], vec![70, -20, 40]);
    assert_eq!(table.len(), 3);
    assert_eq!(table.min(), -2);
    assert_eq!(table.max(), 7);
    let single: Interp1d<i64, i64> = Interp1d::new_sorted_int(vec![3], vec![30]);
    assert_eq!(single.len(), 1);
    assert_eq!(single.min(), 3);
    assert_eq!(single.max(), 3);
    assert_eq!(single.interpolate(-100), 30);
    assert_eq!(single.interpolate(3), 30);
    assert_eq!(single.interpolate(100), 30);
}

#[test]
fn sorting_orders_and_keeps_every_observation() {
    let arrangements: Vec<Vec<i64>> = vec![
        vec![1, 2, 3, 4],
        vec![4, 3, 2, 1],
        vec![2, 4, 1, 3],
        vec![3, 1, 4, 2],
    ];
    for x in arrangements {
        let y: Vec<i64> = x.iter().map(|c| c * 10).collect();
        let table: Interp1d<i64, i64> = Interp1d::new_unsorted_int(x, y);
        assert_eq!(coordinates_of(&table), vec![1, 2, 3, 4]);
        assert_eq!(values_of(&table), vec![10, 20, 30, 40]);
    }
}

#[test]
fn sorting_is_stable() {
    let table: Interp1d<i64, i64> =
        Interp1d::new_unsorted_int(vec![2, 1, 2, 1, 2], vec![20, 10, 21, 11, 22]);
    assert_eq!(coordinates_of(&table), vec![1, 1, 2, 2, 2]);
    assert_eq!(values_of(&table), vec![10, 11, 20, 21, 22]);
}

#[test]
fn ascending_input_gives_one_table_either_way() {
    let x: Vec<i64> = vec![-3, 0, 0, 4, 9];
    let y: Vec<i64> = vec![1, 2, 3, 4, 5];
    let taken: Interp1d<i64, i64> = Interp1d::new_sorted_int(x.clone(), y.clone());
    let sorted: Interp1d<i64, i64> = Interp1d::new_unsorted_int(x.clone(), y.clone());
    assert_eq!(coordinates_of(&taken), coordinates_of(&sorted));
    assert_eq!(values_of(&taken), values_of(&sorted));
    let tested: Interp1d<i64, i64> = Interp1d::new_sorted(x.clone(), y.clone()).unwrap();
    let both: Interp1d<i64, i64> = Interp1d::new_unsorted(x, y).unwrap();
    assert_eq!(coordinates_of(&tested), coordinates_of(&both));
    assert_eq!(values_of(&tested), values_of(&both));
    assert_eq!(values_of(&tested), values_of(&taken));
}

#[test]
fn the_longer_column_is_cut() {
    let table: Interp1d<i64, i64> = Interp1d::new_unsorted_int(vec![3, 1, 2, 0], vec![30, 10]);
    assert_eq!(coordinates_of(&table), vec![1, 3]);
    assert_eq!(values_of(&table), vec![10, 30]);
    let other: Interp1d<i64, i64> = Interp1d::new_sorted_int(vec![1, 2], vec![10, 20, 30]);
    assert_eq!(coordinates_of(&other), vec![1, 2]);
    assert_eq!(values_of(&other), vec![10, 20]);
}

#[test]
fn no_observation_is_invalid_data() {
    let none: Vec<i64> = vec![];
    assert!(matches!(
        Interp1d::<i64, i64>::new_unsorted(none.clone(), none.clone()),
        Err(InterpError::InvalidData)
    ));
    assert!(matches!(
        Interp1d::<i64, i64>::new_sorted(none.clone(), vec![1]),
        Err(InterpError::InvalidData)
    ));
    assert!(matches!(
        Interp1d::<i64, i64>::new_unsorted(vec![1], none),
        Err(InterpError::InvalidData)
    ));
}

#[test]
fn whole_number_blend_rounds_toward_zero() {
    let rising: Interp1d<i64, i64> = Interp1d::new_sorted_int(vec![0, 10], vec![0, 100]);
    assert_eq!(rising.interpolate_checked(5), Ok(50));
    let uneven: Interp1d<i64, i64> = Interp1d::new_sorted_int(vec![0, 3], vec![0, 10]);
    assert_eq!(uneven.interpolate_checked(2), Ok(6));
    let falling: Interp1d<i64, i64> = Interp1d::new_sorted_int(vec![0, 3], vec![10, 0]);
    assert_eq!(falling.interpolate_checked(2), Ok(4));
    assert_eq!(falling.interpolate(1), 7);
    let unsigned: Interp1d<u32, i64> = Interp1d::new_sorted_int(vec![1, 3, 5], vec![5, 3, 4]);
    assert_eq!(unsigned.interpolate_checked(2), Ok(4));
    assert_eq!(unsigned.interpolate_checked(4), Ok(3));
    let sized: Interp1d<usize, i64> = Interp1d::new_sorted_int(vec![1, 3, 5], vec![5, 3, 4]);
    assert_eq!(sized.interpolate_checked(2), Ok(4));
}

#[test]
fn a_blend_without_result_is_reported() {
    let steep: Interp1d<i64, i64> = Interp1d::new_sorted_int(vec![0, 2], vec![i64::MIN, i64::MAX]);
    assert_eq!(steep.interpolate_checked(1), Err(InterpError::ValueFromTFailed));
    assert!(matches!(steep.answer_at(1), Answer::NoResult));
    let wide: Interp1d<i64, i64> = Interp1d::new_sorted_int(vec![i64::MIN, i64::MAX], vec![0, 1]);
    assert_eq!(wide.interpolate_checked(0), Err(InterpError::ValueFromTFailed));
    assert_eq!(wide.interpolate_checked(i64::MIN), Ok(0));
    assert_eq!(wide.interpolate_checked(i64::MAX), Ok(1));
}

#[test]
fn spans_are_narrowed() {
    assert_eq!(span(1, 3), Some(2));
    assert_eq!(span(3, 1), Some(-2));
    assert_eq!(span(0, 9_223_372_036_854_775_807), Some(i64::MAX));
    assert_eq!(span(0, 9_223_372_036_854_775_808), None);
    assert_eq!(span(0, -9_223_372_036_854_775_808), Some(i64::MIN));
    assert_eq!(span(1, -9_223_372_036_854_775_808), None);
    assert_eq!(<i64 as InterpFloat<u32>>::from_span(7, 4), Some(-3));
    assert_eq!(<i64 as InterpFloat<usize>>::from_span(4, 7), Some(3));
    assert_eq!(<i64 as InterpFloat<i64>>::from_span(i64::MIN, i64::MAX), None);
}

#[test]
fn division_rounds_toward_zero() {
    assert_eq!(divide(7, 2), Some(3));
    assert_eq!(divide(-7, 2), Some(-3));
    assert_eq!(divide(7, -2), Some(-3));
    assert_eq!(divide(-7, -2), Some(3));
    assert_eq!(divide(0, 5), Some(0));
    assert_eq!(divide(5, 0), None);
    assert_eq!(divide(i64::MIN, -1), None);
    assert_eq!(divide(i64::MIN, 1), Some(i64::MIN));
    assert_eq!(divide(i64::MAX, -1), Some(-i64::MAX));
}

#[test]
fn checked_value_arithmetic() {
    assert_eq!(InterpFloat::<i64>::plus(2i64, 3), Some(5));
    assert_eq!(InterpFloat::<i64>::plus(i64::MAX, 1), None);
    assert_eq!(InterpFloat::<i64>::minus(2i64, 3), Some(-1));
    assert_eq!(InterpFloat::<i64>::minus(i64::MIN, 1), None);
    assert_eq!(InterpFloat::<i64>::times(-4i64, 3), Some(-12));
    assert_eq!(InterpFloat::<i64>::times(i64::MAX, 2), None);
    assert_eq!(InterpFloat::<i64>::over(-9i64, 2), Some(-4));
    assert_eq!(InterpFloat::<i64>::over(1i64, 0), None);
}

#[test]
fn whole_numbers_as_coordinates() {
    assert!(InterpNum::is_finite(&i64::MAX));
    assert!(InterpNum::is_finite(&0u32));
    assert!(InterpNum::is_finite(&usize::MAX));
    assert!(InterpNum::precedes(&-1i64, &0));
    assert!(!InterpNum::precedes(&0i64, &0));
    assert!(InterpNum::precedes(&1u32, &2));
    assert!(!InterpNum::precedes(&3usize, &2));
    assert_eq!(InterpNum::show(&-12i64), "-12");
    assert_eq!(InterpNum::show(&12u32), "12");
    assert_eq!(InterpNum::show(&0usize), "0");
}

#[test]
fn regions_by_rank() {
    let table = sample_table();
    assert_eq!(table.determine_region(0), Region::Left);
    assert_eq!(table.determine_region(1), Region::Inside);
    assert_eq!(table.determine_region(2), Region::Inside);
    assert_eq!(table.determine_region(3), Region::Right);
}

#[test]
fn answers_by_region() {
    let table: Interp1d<i64, i64> = Interp1d::new_sorted_int(vec![1, 3, 5], vec![5, 3, 4]);
    assert!(matches!(table.answer_at(0), Answer::Left));
    assert!(matches!(table.answer_at(1), Answer::Value(5)));
    assert!(matches!(table.answer_at(2), Answer::Value(4)));
    assert!(matches!(table.answer_at(5), Answer::Value(4)));
    assert!(matches!(table.answer_at(6), Answer::Right));
}

#[test]
fn pairs_compare_by_coordinate() {
    let low: Pair<i64, i64> = Pair::from_int((1, 50));
    let same: Pair<i64, i64> = Pair::from_int((1, 70));
    let high: Pair<i64, i64> = Pair::from_int((2, 0));
    assert!(low == same);
    assert!(low != high);
    assert_eq!(low.partial_cmp(&same), Some(Ordering::Equal));
    assert_eq!(low.partial_cmp(&high), Some(Ordering::Less));
    assert_eq!(high.partial_cmp(&low), Some(Ordering::Greater));
    assert!(low < high);
}

#[test]
fn errors_in_words() {
    assert_eq!(InterpError::InvalidData.message(), "Data contains a nan or inf");
    assert_eq!(InterpError::ValueFromTFailed.message(), "U -> T try_from conversion failed");
    let table: Interp1d<i64, i64> = Interp1d::new_sorted_int(vec![1, 3, 5], vec![5, 3, 4]);
    assert_eq!(
        table.interpolate_checked(-4).unwrap_err().message(),
        "Interpolation requested out of range. Point is to the left of all data. point: -4; min: 1"
    );
    assert_eq!(
        table.interpolate_checked(9).unwrap_err().message(),
        "Interpolation requested out of range. Point is to the right of all data. point: 9; max: 5"
    );
}

#[test]
fn unsigned_spans_are_narrowed() {
    assert_eq!(span_unsigned(1, 3), Some(2));
    assert_eq!(span_unsigned(3, 1), Some(-2));
    assert_eq!(span_unsigned(0, 9_223_372_036_854_775_807), Some(i64::MAX));
    assert_eq!(span_unsigned(0, 9_223_372_036_854_775_808), None);
    assert_eq!(span_unsigned(9_223_372_036_854_775_808, 0), Some(i64::MIN));
    assert_eq!(span_unsigned(9_223_372_036_854_775_809, 0), None);
    assert_eq!(span_unsigned(u128::MAX, u128::MAX), Some(0));
    assert_eq!(span_unsigned(0, u128::MAX), None);
    assert_eq!(span_unsigned(u128::MAX, 0), None);
    assert_eq!(span_unsigned(u128::MAX - 5, u128::MAX), Some(5));
    assert_eq!(span(i128::MIN, i128::MAX), None);
    assert_eq!(span(i128::MAX, i128::MIN), None);
    assert_eq!(span(i128::MIN, i128::MIN + 9), Some(9));
}

#[test]
fn every_whole_number_type_measures_its_stretches() {
    assert_eq!(<i8 as WholeNumber>::stretch(i8::MIN, i8::MAX), Some(255));
    assert_eq!(<i16 as WholeNumber>::stretch(5, -5), Some(-10));
    assert_eq!(<i32 as WholeNumber>::stretch(i32::MIN, i32::MAX), Some(4_294_967_295));
    assert_eq!(<i64 as WholeNumber>::stretch(i64::MAX, i64::MIN), None);
    assert_eq!(<i128 as WholeNumber>::stretch(i128::MIN, i128::MIN + 1), Some(1));
    assert_eq!(<isize as WholeNumber>::stretch(-2, 2), Some(4));
    assert_eq!(<u8 as WholeNumber>::stretch(255, 0), Some(-255));
    assert_eq!(<u16 as WholeNumber>::stretch(0, 65_535), Some(65_535));
    assert_eq!(<u32 as WholeNumber>::stretch(7, 4), Some(-3));
    assert_eq!(<u64 as WholeNumber>::stretch(0, u64::MAX), None);
    assert_eq!(<u64 as WholeNumber>::stretch(u64::MAX, u64::MAX - 1), Some(-1));
    assert_eq!(<u128 as WholeNumber>::stretch(u128::MAX - 1, u128::MAX), Some(1));
    assert_eq!(<usize as WholeNumber>::stretch(4, 7), Some(3));
}

#[test]
fn tables_over_every_whole_number_type() {
    let a: Interp1d<i8, i64> = Interp1d::new_unsorted_int(vec![5, -1, 3], vec![4, 9, 1]);
    assert_eq!(a.interpolate_checked(1), Ok(5));
    assert_eq!(a.interpolate_checked(4), Ok(2));
    assert_eq!(a.min(), -1);
    let b: Interp1d<i16, i64> = Interp1d::new_sorted_int(vec![1, 3, 5], vec![5, 3, 4]);
    assert_eq!(b.interpolate_checked(2), Ok(4));
    let c: Interp1d<i32, i64> = Interp1d::new_sorted_int(vec![1, 3, 5], vec![5, 3, 4]);
    assert_eq!(c.interpolate_checked(2), Ok(4));
    let d: Interp1d<i128, i64> = Interp1d::new_sorted_int(vec![1, 3, 5], vec![5, 3, 4]);
    assert_eq!(d.interpolate_checked(2), Ok(4));
    assert_eq!(d.interpolate(i128::MAX), 4);
    let e: Interp1d<isize, i64> = Interp1d::new_sorted_int(vec![1, 3, 5], vec![5, 3, 4]);
    assert_eq!(e.interpolate_checked(2), Ok(4));
    let f: Interp1d<u8, i64> = Interp1d::new_sorted_int(vec![1, 3, 5], vec![5, 3, 4]);
    assert_eq!(f.interpolate_checked(2), Ok(4));
    let g: Interp1d<u16, i64> = Interp1d::new_sorted_int(vec![1, 3, 5], vec![5, 3, 4]);
    assert_eq!(g.interpolate_checked(2), Ok(4));
    let h: Interp1d<u64, i64> = Interp1d::new_sorted_int(vec![1, 3, 5], vec![5, 3, 4]);
    assert_eq!(h.interpolate_checked(2), Ok(4));
    assert_eq!(h.interpolate(u64::MAX), 4);
    let i: Interp1d<u128, i64> = Interp1d::new_sorted_int(vec![1, 3, 5], vec![5, 3, 4]);
    assert_eq!(i.interpolate_checked(2), Ok(4));
    assert_eq!(i.interpolate(0), 5);
    assert_eq!(InterpNum::show(&-128i8), "-128");
    assert_eq!(InterpNum::show(&u128::MAX), "340282366920938463463374607431768211455");
    assert!(InterpNum::precedes(&i128::MIN, &i128::MAX));
    assert!(!InterpNum::precedes(&u64::MAX, &0));
}

#[test]
fn the_clamped_query_without_a_value() {
    let wide: Interp1d<i64, i64> = Interp1d::new_sorted_int(vec![i64::MIN, i64::MAX], vec![0, 1]);
    assert_eq!(wide.try_interpolate(0), None);
    assert_eq!(wide.try_interpolate(i64::MIN), Some(0));
    assert_eq!(wide.try_interpolate(i64::MAX), Some(1));
    let table: Interp1d<i64, i64> = Interp1d::new_sorted_int(vec![1, 3, 5], vec![5, 3, 4]);
    assert_eq!(table.try_interpolate(0), Some(5));
    assert_eq!(table.try_interpolate(2), Some(4));
    assert_eq!(table.try_interpolate(9), Some(4));
}

fn equal_to_itself<E: Eq>(value: E) -> bool {
    value == value
}

#[test]
fn pairs_have_an_equality() {
    let pair: Pair<i64, i64> = Pair::from_int((1, 50));
    assert!(equal_to_itself(pair));
}
