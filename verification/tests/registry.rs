use tarifuzzer::errors::RunError;
use tarifuzzer::fuzz_targets::{check_target, list_targets, target_exists};

#[test]
fn every_listed_target_passes_the_check() {
    for name in list_targets() {
        assert!(target_exists(name));
        assert!(check_target(name).is_ok());
    }
}

#[test]
fn targets_are_listed_in_a_fixed_order() {
    assert_eq!(
        list_targets(),
        vec![
            "util_to_hex",
            "util_bytes_to_bits",
            "util_from_hex",
            "util_to_hex_multiple",
            "core_trx_create_coinbase",
            "core_trx_with_maturity",
            "mmr_push_bytes",
        ]
    );
}

#[test]
fn an_unknown_name_is_refused_with_the_name() {
    match check_target("no_such_target") {
        Err(RunError::UnknownTarget { target }) => assert_eq!(target, "no_such_target"),
        other => panic!("unexpected: {:?}", other),
    }
}

#[test]
fn the_check_is_case_sensitive_and_exact() {
    assert!(!target_exists("Util_to_hex"));
    assert!(!target_exists("util_to_hex "));
    assert!(!target_exists(""));
    assert!(check_target("UTIL_TO_HEX").is_err());
}
