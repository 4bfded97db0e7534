use beaconctl::classify::{classify, classify_opt, Generation};
use beaconctl::hex::{parse_hex_digit, parse_hex_pair};
use beaconctl::state::{parse_state, LogicalState, RunError};

#[test]
fn classifier_goes_by_prefix_alone() {
    assert_eq!(classify("HTC BS12345678"), Generation::Generation1);
    assert_eq!(classify("HTC BS"), Generation::Generation1);
    assert_eq!(classify("HTC BS-not-hex-at-all"), Generation::Generation1);
    assert_eq!(classify("LHB-ABCDEF"), Generation::Generation2);
    assert_eq!(classify("LHB-"), Generation::Generation2);
    assert_eq!(classify("LHB-anything at all"), Generation::Generation2);
}

#[test]
fn classifier_rejects_everything_else() {
    assert_eq!(classify(""), Generation::NotApplicable);
    assert_eq!(classify("htc bs12345678"), Generation::NotApplicable);
    assert_eq!(classify("lhb-abcdef"), Generation::NotApplicable);
    assert_eq!(classify("HTC B"), Generation::NotApplicable);
    assert_eq!(classify("LHB"), Generation::NotApplicable);
    assert_eq!(classify("My Headphones"), Generation::NotApplicable);
}

#[test]
fn absent_name_is_not_applicable() {
    assert_eq!(classify_opt(&None), Generation::NotApplicable);
    assert_eq!(
        classify_opt(&Some(String::from("HTC BS12345678"))),
        Generation::Generation1
    );
}

#[test]
fn state_string_is_parsed_case_insensitively() {
    assert_eq!(parse_state("OFF"), Ok(LogicalState::Off));
    assert_eq!(parse_state("off"), Ok(LogicalState::Off));
    assert_eq!(parse_state("oFf"), Ok(LogicalState::Off));
    assert_eq!(parse_state("ON"), Ok(LogicalState::On));
    assert_eq!(parse_state("on"), Ok(LogicalState::On));
    assert_eq!(parse_state("STANDBY"), Ok(LogicalState::Standby));
    assert_eq!(parse_state("standby"), Ok(LogicalState::Standby));
    assert_eq!(parse_state("Standby"), Ok(LogicalState::Standby));
}

#[test]
fn unknown_state_string_is_a_config_error() {
    assert_eq!(parse_state(""), Err(RunError::ConfigError));
    assert_eq!(parse_state("of"), Err(RunError::ConfigError));
    assert_eq!(parse_state("ONN"), Err(RunError::ConfigError));
    assert_eq!(parse_state("sleep"), Err(RunError::ConfigError));
    assert_eq!(parse_state("OFF "), Err(RunError::ConfigError));
}

#[test]
fn hex_digits_parse_exactly() {
    assert_eq!(parse_hex_digit('0'), Some(0));
    assert_eq!(parse_hex_digit('9'), Some(9));
    assert_eq!(parse_hex_digit('a'), Some(10));
    assert_eq!(parse_hex_digit('f'), Some(15));
    assert_eq!(parse_hex_digit('A'), Some(10));
    assert_eq!(parse_hex_digit('F'), Some(15));
    assert_eq!(parse_hex_digit('g'), None);
    assert_eq!(parse_hex_digit('G'), None);
    assert_eq!(parse_hex_digit(' '), None);
    assert_eq!(parse_hex_digit('-'), None);
}

#[test]
fn hex_pairs_parse_exactly() {
    assert_eq!(parse_hex_pair('7', '8'), Some(0x78));
    assert_eq!(parse_hex_pair('0', '0'), Some(0x00));
    assert_eq!(parse_hex_pair('f', 'F'), Some(0xff));
    assert_eq!(parse_hex_pair('Z', '0'), None);
    assert_eq!(parse_hex_pair('0', 'Z'), None);
}
