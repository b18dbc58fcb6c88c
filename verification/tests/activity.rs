//! Seconds since the last input, as the system reports them.

use zanei_macos::activity::{validate_seconds, ActivityError};
use zanei_macos::schema::DoubleBits;

fn double(value: f64) -> DoubleBits {
    DoubleBits { bits: value.to_bits() }
}

fn value(double: DoubleBits) -> f64 {
    f64::from_bits(double.bits)
}

#[test]
fn finite_non_negative_values_satisfy_the_contract() {
    assert_eq!(validate_seconds(double(0.0)), Ok(double(0.0)));
    assert_eq!(validate_seconds(double(42.5)), Ok(double(42.5)));
}

#[test]
fn non_finite_and_negative_values_are_contract_errors() {
    assert!(matches!(
        validate_seconds(double(f64::NAN)),
        Err(ActivityError::NonFinite { seconds }) if value(seconds).is_nan()
    ));
    assert!(matches!(
        validate_seconds(double(f64::INFINITY)),
        Err(ActivityError::NonFinite { seconds }) if value(seconds).is_infinite()
    ));
    assert_eq!(
        validate_seconds(double(-0.5)),
        Err(ActivityError::Negative { seconds: double(-0.5) })
    );
}

#[test]
fn negative_zero_is_no_negative_value() {
    assert_eq!(validate_seconds(double(-0.0)), Ok(double(-0.0)));
    assert!(ActivityError::Negative { seconds: double(-1.0) }.message().contains("negative"));
}
