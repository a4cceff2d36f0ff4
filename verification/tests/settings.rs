use hcsr04_async::{Config, DistanceUnit, MeasureError, TemperatureUnit};

#[test]
fn config_keeps_the_units_it_was_given() {
    let config = Config {
        distance_unit: DistanceUnit::Inches,
        temperature_unit: TemperatureUnit::Fahrenheit,
    };
    assert_eq!(config.distance_unit, DistanceUnit::Inches);
    assert_eq!(config.temperature_unit, TemperatureUnit::Fahrenheit);
    let copy = config;
    assert_eq!(copy, config);
}

#[test]
fn configs_with_different_units_differ() {
    let metric = Config {
        distance_unit: DistanceUnit::Centimeters,
        temperature_unit: TemperatureUnit::Celsius,
    };
    let imperial = Config {
        distance_unit: DistanceUnit::Inches,
        temperature_unit: TemperatureUnit::Fahrenheit,
    };
    assert_ne!(metric, imperial);
    assert_ne!(DistanceUnit::Centimeters, DistanceUnit::Inches);
    assert_ne!(TemperatureUnit::Celsius, TemperatureUnit::Fahrenheit);
}

#[test]
fn precondition_violation_message() {
    assert_eq!(
        MeasureError::PreconditionViolation.message(),
        "Echo pin is already high"
    );
}

#[test]
fn rise_timeout_message() {
    assert_eq!(
        MeasureError::RiseTimeout.message(),
        "Timeout waiting for echo pin to go high"
    );
}

#[test]
fn fall_timeout_message() {
    assert_eq!(
        MeasureError::FallTimeout.message(),
        "Timeout waiting for echo pin to go low"
    );
}

#[test]
fn messages_of_different_errors_differ() {
    let all = [
        MeasureError::PreconditionViolation,
        MeasureError::RiseTimeout,
        MeasureError::FallTimeout,
    ];
    for a in all.iter() {
        for b in all.iter() {
            assert_eq!(a == b, a.message() == b.message());
        }
    }
}
