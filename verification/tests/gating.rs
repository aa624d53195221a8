use invariants::debug_check;
use invariants::error_check;
use invariants::error_check_with;
use invariants::info_check;
use invariants::info_check_with;
use invariants::AssertConfig;
use invariants::AssertLevel;
use invariants::CheckOutcome;
use invariants::RuntimeCeiling;

#[test]
fn it_works() {
    let result: i32 = 2 + 2;
    let ceiling = RuntimeCeiling::new();
    let outcome = debug_check(ceiling.max_level(), || result == 4);
    assert_eq!(outcome, CheckOutcome::Passed);
}

#[test]
#[should_panic]
fn it_crashes() {
    let result: i32 = 2 + 2;
    let ceiling = RuntimeCeiling::new();
    let outcome = debug_check(ceiling.max_level(), || result == 5);
    if outcome.failed() {
        panic!("assertion failed: result == 5");
    }
}

#[test]
fn config_sanity() {
    let result: i32 = 2 + 2;
    let config = AssertConfig::new(AssertLevel::Error);
    let ceiling = RuntimeCeiling::new();
    let outcome = error_check_with(ceiling.max_level(), &config, || result == 4);
    assert_eq!(outcome, CheckOutcome::Passed);
}

#[test]
#[should_panic]
fn config_crashes() {
    let result: i32 = 2 + 2;
    let config = AssertConfig::new(AssertLevel::Warn);
    let ceiling = RuntimeCeiling::new();
    let outcome = error_check_with(ceiling.max_level(), &config, || result == 3);
    if outcome.failed() {
        panic!("assertion failed: result == 3");
    }
}

#[test]
fn config_filters() {
    let result: i32 = 2 + 3;
    let config = AssertConfig::new(AssertLevel::Warn);
    let ceiling = RuntimeCeiling::new();
    let outcome = info_check_with(ceiling.max_level(), &config, || result == 4);
    assert_eq!(outcome, CheckOutcome::Skipped);
}

#[test]
fn max_level_filters() {
    let result: i32 = 2 + 3;
    let mut ceiling = RuntimeCeiling::new();
    ceiling.set_max_level(AssertLevel::Warn);
    let outcome = info_check(ceiling.max_level(), || result == 4);
    assert_eq!(outcome, CheckOutcome::Skipped);
}

#[test]
#[should_panic]
fn max_level_sanity() {
    let result: i32 = 2 + 3;
    let mut ceiling = RuntimeCeiling::new();
    ceiling.set_max_level(AssertLevel::Error);
    let outcome = error_check(ceiling.max_level(), || result == 4);
    if outcome.failed() {
        panic!("assertion failed: result == 4");
    }
}
