use on_this_day::config::RunOutcome;
use on_this_day::config::UsageError;
use on_this_day::config::exit_code;
use on_this_day::config::parse_run_config;
use on_this_day::feed::Category;

#[test]
fn conflicting_flags_are_rejected() {
    let result = parse_run_config(true, true, "all");
    assert_eq!(result, Err(UsageError::ConflictingFlags));
    assert_ne!(exit_code(&RunOutcome::UsageFailure), 0);
}

#[test]
fn unknown_category_is_rejected_naming_the_allowed_set() {
    let result = parse_run_config(false, false, "weather");
    assert_eq!(result, Err(UsageError::UnknownCategory));
    assert_eq!(
        UsageError::UnknownCategory.message(),
        "unknown event type: allowed values are all, selected, births, deaths, holidays, events"
    );
}

#[test]
fn valid_flags_build_the_configuration() {
    let config = parse_run_config(true, false, "births").unwrap();
    assert!(config.select_oldest);
    assert!(!config.select_newest);
    assert_eq!(config.category, Category::Births);
}

#[test]
fn category_names_are_case_insensitive() {
    assert_eq!(Category::from_name("HOLIDAYS"), Some(Category::Holidays));
    assert_eq!(Category::from_name("Births"), Some(Category::Births));
    assert_eq!(Category::from_name("sElEcTeD"), Some(Category::Selected));
}

#[test]
fn each_allowed_category_name_parses() {
    assert_eq!(Category::from_name("all"), Some(Category::All));
    assert_eq!(Category::from_name("selected"), Some(Category::Selected));
    assert_eq!(Category::from_name("births"), Some(Category::Births));
    assert_eq!(Category::from_name("deaths"), Some(Category::Deaths));
    assert_eq!(Category::from_name("holidays"), Some(Category::Holidays));
    assert_eq!(Category::from_name("events"), Some(Category::Events));
}

#[test]
fn names_outside_the_set_do_not_parse() {
    assert_eq!(Category::from_name(""), None);
    assert_eq!(Category::from_name("al"), None);
    assert_eq!(Category::from_name("allx"), None);
}

#[test]
fn only_completion_and_http_failure_exit_with_zero() {
    assert_eq!(exit_code(&RunOutcome::Completed), 0);
    assert_eq!(exit_code(&RunOutcome::HttpFailure), 0);
    assert_ne!(exit_code(&RunOutcome::UsageFailure), 0);
    assert_ne!(exit_code(&RunOutcome::TransportFailure), 0);
    assert_ne!(exit_code(&RunOutcome::DecodeFailure), 0);
}
