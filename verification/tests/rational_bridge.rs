use avsafe::{
    AvRational, FFmpegError, Rational, avrational_from_bigrational, bigrational_from_avrational,
    reduce_bigrational_to_i32,
};

#[test]
fn representable_rational_round_trips_exactly() {
    let original = Rational { num: 1, den: 90000 };
    let fixed = avrational_from_bigrational(&original).unwrap();
    assert_eq!(fixed, AvRational { num: 1, den: 90000 });
    let back = bigrational_from_avrational(&fixed).unwrap();
    assert_eq!(back, original);
}

#[test]
fn negative_representable_rational_round_trips_exactly() {
    let original = Rational { num: -1001, den: 30000 };
    let fixed = avrational_from_bigrational(&original).unwrap();
    assert_eq!(fixed, AvRational { num: -1001, den: 30000 });
    let back = bigrational_from_avrational(&fixed).unwrap();
    assert_eq!(back, original);
}

#[test]
fn boundary_values_round_trip_exactly() {
    let original = Rational { num: i32::MAX as i64, den: i32::MAX as i64 };
    let fixed = avrational_from_bigrational(&original).unwrap();
    assert_eq!(fixed, AvRational { num: i32::MAX, den: i32::MAX });
    assert_eq!(bigrational_from_avrational(&fixed).unwrap(), original);

    let original = Rational { num: i32::MIN as i64, den: 1 };
    let fixed = avrational_from_bigrational(&original).unwrap();
    assert_eq!(fixed, AvRational { num: i32::MIN, den: 1 });
}

#[test]
fn oversized_pair_is_reduced_by_repeated_division_by_ten() {
    // Two divisions by ten bring both components into 32-bit range.
    let wide = Rational { num: 90_000_000_000, den: 30_000_000_001 };
    let reduced = reduce_bigrational_to_i32(&wide);
    assert_eq!(reduced, Rational { num: 900_000_000, den: 300_000_000 });
    let fixed = avrational_from_bigrational(&wide).unwrap();
    assert_eq!(fixed, AvRational { num: 900_000_000, den: 300_000_000 });
    // The reduced ratio deviates from the original by well under a percent.
    let original_ratio = 90_000_000_000f64 / 30_000_000_001f64;
    let reduced_ratio = 900_000_000f64 / 300_000_000f64;
    assert!((original_ratio - reduced_ratio).abs() / original_ratio < 0.01);
}

#[test]
fn negative_components_reduce_towards_zero() {
    let wide = Rational { num: -90_000_000_005, den: 30_000_000_001 };
    let reduced = reduce_bigrational_to_i32(&wide);
    assert_eq!(reduced, Rational { num: -900_000_000, den: 300_000_000 });
}

#[test]
fn representable_pair_is_left_untouched_by_reduction() {
    let narrow = Rational { num: 1001, den: 30000 };
    assert_eq!(reduce_bigrational_to_i32(&narrow), narrow);
}

#[test]
fn reduction_that_degenerates_the_denominator_is_invalid_data() {
    // A huge numerator over a tiny denominator: the denominator hits zero
    // before the numerator fits, and the conversion refuses the result.
    let degenerate = Rational { num: 5_000_000_000, den: 1 };
    assert_eq!(
        avrational_from_bigrational(&degenerate),
        Err(FFmpegError::InvalidData)
    );
}

#[test]
fn zero_denominator_input_is_invalid_data() {
    let degenerate = Rational { num: 5, den: 0 };
    assert_eq!(
        avrational_from_bigrational(&degenerate),
        Err(FFmpegError::InvalidData)
    );
}

#[test]
fn widening_conversion_always_succeeds() {
    let fixed = AvRational { num: -7, den: 25 };
    assert_eq!(
        bigrational_from_avrational(&fixed),
        Ok(Rational { num: -7, den: 25 })
    );
}
