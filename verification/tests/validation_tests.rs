use cosmic_vitals::configuration::app_configuration::{
    SENSOR_INTERVAL_MINIMUM_IN_MS, SENSOR_MAX_LABEL_LENGTH, SENSOR_MAX_SAMPLES_MINIMUM,
};
use cosmic_vitals::configuration::validation::ConfigurationValidation;
use std::time::Duration;

#[test]
fn is_valid_interval_accepts_min_and_above() {
    let min = SENSOR_INTERVAL_MINIMUM_IN_MS;
    assert!(ConfigurationValidation::is_valid_interval(&min.to_string()).is_ok());
    assert!(ConfigurationValidation::is_valid_interval(&(min + 1).to_string()).is_ok());
}

#[test]
fn is_valid_interval_rejects_below_min_or_non_numeric() {
    let min = SENSOR_INTERVAL_MINIMUM_IN_MS;
    assert!(ConfigurationValidation::is_valid_interval("-10").is_err());
    assert!(ConfigurationValidation::is_valid_interval(&(min - 1).to_string()).is_err());
    assert!(ConfigurationValidation::is_valid_interval("abc").is_err());
    assert!(ConfigurationValidation::is_valid_interval("").is_err());
    assert!(ConfigurationValidation::is_valid_interval("  ").is_err());
}

#[test]
fn sanitise_interval_input_returns_previous_when_not_numeric() {
    let previous = Duration::from_millis(1_000);
    let result = ConfigurationValidation::sanitise_interval_input("abc".to_string(), previous);
    assert_eq!(result, previous);
}

#[test]
fn sanitise_interval_input_returns_previous_when_below_minimum() {
    let previous = Duration::from_millis(1_000);
    let min = SENSOR_INTERVAL_MINIMUM_IN_MS;
    let below = (min - 1).to_string();
    let result = ConfigurationValidation::sanitise_interval_input(below, previous);
    assert_eq!(result, previous);
}

#[test]
fn sanitise_interval_input_returns_min_when_min() {
    let previous = Duration::from_millis(1_000);
    let min = SENSOR_INTERVAL_MINIMUM_IN_MS;
    let res_min = ConfigurationValidation::sanitise_interval_input(min.to_string(), previous);
    assert_eq!(res_min, Duration::from_millis(min));
}

#[test]
fn sanitise_interval_input_returns_value_when_above_min() {
    let previous = Duration::from_millis(1_000);
    let min = SENSOR_INTERVAL_MINIMUM_IN_MS;
    let val = min + 1;
    let res_above = ConfigurationValidation::sanitise_interval_input(val.to_string(), previous);
    assert_eq!(res_above, Duration::from_millis(val));
}

#[test]
fn is_valid_max_samples_accepts_min_and_above() {
    let min = SENSOR_MAX_SAMPLES_MINIMUM;
    assert!(ConfigurationValidation::is_valid_max_samples(&min.to_string()).is_ok());
    assert!(ConfigurationValidation::is_valid_max_samples(&(min + 3).to_string()).is_ok());
}

#[test]
fn is_valid_max_samples_rejects_below_min_or_non_numeric() {
    let min = SENSOR_MAX_SAMPLES_MINIMUM;
    assert!(ConfigurationValidation::is_valid_max_samples(&(min - 1).to_string()).is_err());
    assert!(ConfigurationValidation::is_valid_max_samples("abc").is_err());
    assert!(ConfigurationValidation::is_valid_max_samples("").is_err());
    assert!(ConfigurationValidation::is_valid_max_samples("  ").is_err());
}

#[test]
fn sanitise_max_samples_returns_old_when_non_numeric() {
    let old_value = 10;
    let result = ConfigurationValidation::sanitise_max_samples("notnum".to_string(), old_value);
    assert_eq!(result, old_value);
}

#[test]
fn sanitise_max_samples_returns_old_when_below_minimum() {
    let old_value = 10;
    let below = (SENSOR_MAX_SAMPLES_MINIMUM - 1).to_string();
    let result = ConfigurationValidation::sanitise_max_samples(below, old_value);
    assert_eq!(result, old_value);
}

#[test]
fn sanitise_max_samples_returns_min_when_exact_minimum() {
    let old_value = 3;
    let min = SENSOR_MAX_SAMPLES_MINIMUM;
    let result = ConfigurationValidation::sanitise_max_samples(min.to_string(), old_value);
    assert_eq!(result, min);
}

#[test]
fn sanitise_max_samples_returns_value_when_above_minimum() {
    let old_value = 3;
    let min = SENSOR_MAX_SAMPLES_MINIMUM;
    let test_value = min + 5;
    let result = ConfigurationValidation::sanitise_max_samples(test_value.to_string(), old_value);
    assert_eq!(result, test_value);
}

#[test]
fn is_valid_boolean_accepts_true_and_false() {
    assert!(ConfigurationValidation::is_valid_boolean("true").is_ok());
    assert!(ConfigurationValidation::is_valid_boolean("false").is_ok());
    assert!(ConfigurationValidation::is_valid_boolean("  true  ").is_ok());
    assert!(ConfigurationValidation::is_valid_boolean("\nfalse\t").is_ok());
}

#[test]
fn is_valid_boolean_rejects_invalid_inputs() {
    assert!(ConfigurationValidation::is_valid_boolean("").is_err());
    assert!(ConfigurationValidation::is_valid_boolean(" ").is_err());
    assert!(ConfigurationValidation::is_valid_boolean("yes").is_err());
    assert!(ConfigurationValidation::is_valid_boolean("no").is_err());
    assert!(ConfigurationValidation::is_valid_boolean("1").is_err());
    assert!(ConfigurationValidation::is_valid_boolean("0").is_err());
    assert!(ConfigurationValidation::is_valid_boolean("TRUE").is_err());
    assert!(ConfigurationValidation::is_valid_boolean("FALSE").is_err());
}

#[test]
fn sanitise_boolean_input_returns_previous_when_invalid() {
    let previous = true;
    let result = ConfigurationValidation::sanitise_boolean_input("maybe".to_string(), previous);
    assert_eq!(result, previous);
}

#[test]
fn sanitise_boolean_input_parses_and_returns_value_when_valid() {
    let previous = false;
    let res_true = ConfigurationValidation::sanitise_boolean_input("true".to_string(), previous);
    assert_eq!(res_true, true);

    let previous2 = true;
    let res_false = ConfigurationValidation::sanitise_boolean_input("false".to_string(), previous2);
    assert_eq!(res_false, false);
}

#[test]
fn sanitise_boolean_input_handles_whitespace() {
    let previous = false;
    let res = ConfigurationValidation::sanitise_boolean_input("  true  ".to_string(), previous);
    assert_eq!(res, true);
}

#[test]
fn is_valid_label_text_accepts_max_length() {
    let max = SENSOR_MAX_LABEL_LENGTH;
    let max_length_string = "X".repeat(max);
    assert!(ConfigurationValidation::is_valid_label_text(&max_length_string).is_ok());
}

#[test]
fn is_valid_label_text_rejects_over_max_length() {
    let max = SENSOR_MAX_LABEL_LENGTH;
    let too_long_string = "Y".repeat(max + 1);
    assert!(ConfigurationValidation::is_valid_label_text(&too_long_string).is_err());
}

#[test]
fn is_valid_label_text_rejects_empty() {
    assert!(ConfigurationValidation::is_valid_label_text("").is_err());
    assert!(ConfigurationValidation::is_valid_label_text("    ").is_err());
}

#[test]
fn sanitise_label_text_truncates_over_length() {
    let max = SENSOR_MAX_LABEL_LENGTH;
    let too_long = "Z".repeat(max + 5);
    let truncated = ConfigurationValidation::sanitise_label_text(too_long.clone(), too_long.clone());
    assert_eq!(truncated.len(), max);
    assert_eq!(truncated, "Z".repeat(max));
}

#[test]
fn sanitise_label_text_trims_whitespace() {
    let spaced = "   Hello  ".to_string();
    let trimmed = ConfigurationValidation::sanitise_label_text(spaced.clone(), spaced.clone());
    assert_eq!(trimmed, "Hello");
}

#[test]
fn sanitise_label_text_returns_previous_when_empty() {
    let previous = "Hello".to_string();
    let empty = "".to_string();
    let result = ConfigurationValidation::sanitise_label_text(empty.clone(), previous.clone());
    assert_eq!(result, previous);
}

#[test]
fn sanitise_label_text_trims_text_when_too_long() {
    let trimmed = "X".repeat(SENSOR_MAX_LABEL_LENGTH);
    let too_long = "X".repeat(SENSOR_MAX_LABEL_LENGTH + 1);
    let result = ConfigurationValidation::sanitise_label_text(
        too_long.clone(),
        "X".repeat(SENSOR_MAX_LABEL_LENGTH),
    );
    assert_eq!(result, trimmed);
}

#[test]
fn validation_errors_name_the_message_to_show() {
    assert_eq!(
        ConfigurationValidation::is_valid_interval("249"),
        Err("settings-interval-error".to_string())
    );
    assert_eq!(
        ConfigurationValidation::is_valid_max_samples("0"),
        Err("settings-max-samples-error".to_string())
    );
    assert_eq!(
        ConfigurationValidation::is_valid_label_text(" "),
        Err("settings-label-text-error".to_string())
    );
    assert_eq!(
        ConfigurationValidation::is_valid_boolean("yes"),
        Err("Not valid boolean".to_string())
    );
}

#[test]
fn sanitise_label_text_cuts_at_whole_characters() {
    // Nine bytes of ASCII and a character of two bytes: the cut falls before it.
    let input = format!("{}{}", "a".repeat(9), "\u{e9}\u{e9}");
    let result = ConfigurationValidation::sanitise_label_text(input, "old".to_string());
    assert_eq!(result, "a".repeat(9));
    // White space that the cut leaves at the end is trimmed too.
    let input = "abcdefgh  ijkl".to_string();
    let result = ConfigurationValidation::sanitise_label_text(input, "old".to_string());
    assert_eq!(result, "abcdefgh");
    // A label of white space falls back to the previous one, trimmed.
    let result = ConfigurationValidation::sanitise_label_text(" \t".to_string(), " old ".to_string());
    assert_eq!(result, "old");
}

#[test]
fn sanitise_interval_input_accepts_surrounding_whitespace_and_plus() {
    let previous = Duration::from_millis(1_000);
    assert_eq!(
        ConfigurationValidation::sanitise_interval_input(" +5000\n".to_string(), previous),
        Duration::from_millis(5000)
    );
    assert_eq!(
        ConfigurationValidation::sanitise_interval_input("99999999999999999999".to_string(), previous),
        previous
    );
}
