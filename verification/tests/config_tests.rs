use interval_timer::config::Configuration;
use interval_timer::config::ValidationError;

fn defaults() -> Configuration {
    Configuration::default()
}

#[test]
fn default_configuration_values() {
    let c = defaults();
    assert_eq!(c.workout_duration, 60);
    assert_eq!(c.rest_duration, 45);
    assert_eq!(c.rounds, 10);
    assert_eq!(c.lead_up_duration, 5);
    assert!(c.validate().is_ok());
}

#[test]
fn validate_accepts_bound_values() {
    let low = Configuration { workout_duration: 2, rest_duration: 2, rounds: 1, lead_up_duration: 0 };
    assert!(low.validate().is_ok());
    let high = Configuration {
        workout_duration: 180,
        rest_duration: 90,
        rounds: 50,
        lead_up_duration: 10,
    };
    assert!(high.validate().is_ok());
}

#[test]
fn validate_rejects_workout_out_of_range() {
    let c = Configuration { workout_duration: 1, ..defaults() };
    assert_eq!(c.validate(), Err(ValidationError::WorkoutOutOfRange));
    let c = Configuration { workout_duration: 181, ..defaults() };
    assert_eq!(c.validate(), Err(ValidationError::WorkoutOutOfRange));
}

#[test]
fn validate_rejects_rest_out_of_range() {
    let c = Configuration { rest_duration: 1, ..defaults() };
    assert_eq!(c.validate(), Err(ValidationError::RestOutOfRange));
    let c = Configuration { rest_duration: 91, ..defaults() };
    assert_eq!(c.validate(), Err(ValidationError::RestOutOfRange));
}

#[test]
fn validate_rejects_rounds_out_of_range() {
    let c = Configuration { rounds: 0, ..defaults() };
    assert_eq!(c.validate(), Err(ValidationError::RoundsOutOfRange));
    let c = Configuration { rounds: 51, ..defaults() };
    assert_eq!(c.validate(), Err(ValidationError::RoundsOutOfRange));
}

#[test]
fn validate_rejects_lead_up_out_of_range() {
    let c = Configuration { lead_up_duration: 11, ..defaults() };
    assert_eq!(c.validate(), Err(ValidationError::LeadUpOutOfRange));
}

#[test]
fn validate_reports_first_offending_field() {
    let c = Configuration { workout_duration: 0, rest_duration: 0, rounds: 0, lead_up_duration: 99 };
    assert_eq!(c.validate(), Err(ValidationError::WorkoutOutOfRange));
}

#[test]
fn from_partial_all_missing_gives_defaults() {
    let c = Configuration::from_partial(None, None, None, None);
    assert_eq!(c, defaults());
}

#[test]
fn from_partial_keeps_stored_values_in_range() {
    let c = Configuration::from_partial(Some(30), Some(15), Some(5), Some(0));
    assert_eq!(c.workout_duration, 30);
    assert_eq!(c.rest_duration, 15);
    assert_eq!(c.rounds, 5);
    assert_eq!(c.lead_up_duration, 0);
}

#[test]
fn from_partial_replaces_out_of_range_fields() {
    let c = Configuration::from_partial(Some(0), Some(1000), Some(51), Some(11));
    assert_eq!(c, defaults());
    assert!(c.validate().is_ok());
}
