use tarifuzzer::errors::{code_text, RunError, TariError};
use tarifuzzer::runner::Stage;
use tarifuzzer::text::decimal_i32;
use tarifuzzer::Fuzzer;

#[test]
fn a_file_error_has_a_fixed_text() {
    let e = TariError::FailedCreatingFile("/ws/fuzzer-afl/corpus-x".to_string());
    assert_eq!(e.message(), "Could not create a directory or file");
}

#[test]
fn an_unexpected_error_has_a_fixed_text() {
    let e = TariError::UnexpectedError("whatever".to_string());
    assert_eq!(e.message(), "Unexpected Error");
}

#[test]
fn an_engine_error_quotes_what_was_expected_and_found() {
    let e = TariError::InvalidFuzzer {
        expected: "Afl, Honggfuzz, Libfuzzer".to_string(),
        found: "cargo-fuzz".to_string(),
    };
    assert_eq!(
        e.message(),
        "invalid fuzzer engine (expected \"Afl, Honggfuzz, Libfuzzer\", got \"cargo-fuzz\")"
    );
}

#[test]
fn quoting_escapes_quotes_and_line_breaks() {
    let e = TariError::InvalidFuzzer { expected: "a\"b".to_string(), found: "c\nd".to_string() };
    assert_eq!(e.message(), "invalid fuzzer engine (expected \"a\\\"b\", got \"c\\nd\")");
}

#[test]
fn signed_numbers_are_written_in_decimal() {
    for v in [0, 1, 9, 10, 99, 100, 101, 255, 256, 65535, -1, -9, -10, -128, i32::MAX, i32::MIN] {
        assert_eq!(decimal_i32(v), v.to_string());
    }
}

#[test]
fn an_exit_code_is_shown_as_an_option() {
    assert_eq!(code_text(None), "None");
    assert_eq!(code_text(Some(0)), "Some(0)");
    assert_eq!(code_text(Some(101)), "Some(101)");
    assert_eq!(code_text(Some(-11)), "Some(-11)");
    for code in [None, Some(1), Some(-1), Some(i32::MIN), Some(i32::MAX)] {
        assert_eq!(code_text(code), format!("{:?}", code));
    }
}

#[test]
fn every_run_error_says_what_it_is_about() {
    let cases = [
        (
            RunError::UnknownTarget { target: "nope".to_string() },
            "Uknkown fuzz target nope selected".to_string(),
        ),
        (
            RunError::NoSeedPolicy { target: "nope".to_string() },
            "Unable to generate fuzzing seeds for \"nope\"".to_string(),
        ),
        (
            RunError::UnsupportedPlatform { fuzzer: Fuzzer::Libfuzzer },
            "libfuzzer-sys only supports Linux and macOS".to_string(),
        ),
        (
            RunError::TemplateUnreadable { path: "/ws/fuzzer-afl/template.rs".to_string() },
            "Error reading template file /ws/fuzzer-afl/template.rs".to_string(),
        ),
        (
            RunError::HarnessUnwritable { path: "/ws/fuzzer-afl/src/bin/x.rs".to_string() },
            "Error writing fuzz target source file /ws/fuzzer-afl/src/bin/x.rs".to_string(),
        ),
        (
            RunError::DirectoryFailed { path: "/ws/fuzzer-afl/corpus-x".to_string() },
            "unable to create directory /ws/fuzzer-afl/corpus-x".to_string(),
        ),
        (
            RunError::SeedUnwritable { path: "/ws/fuzzer-afl/corpus-x/00".to_string() },
            "Failed to write to file: \"/ws/fuzzer-afl/corpus-x/00\"".to_string(),
        ),
        (
            RunError::PreCheckFailed { hint: "cargo install afl".to_string() },
            "Pre-checking for fuzzing failed. Consider run `cargo install afl` before fuzzing."
                .to_string(),
        ),
        (
            RunError::BuildFailed { code: Some(101) },
            "error building afl instrumented binary, exit code Some(101)".to_string(),
        ),
        (
            RunError::BuildFailed { code: None },
            "error building afl instrumented binary, exit code None".to_string(),
        ),
        (
            RunError::EngineFailed { fuzzer: Fuzzer::Honggfuzz, code: Some(-6) },
            "Honggfuzz exited with code Some(-6)".to_string(),
        ),
        (
            RunError::LaunchFailed { fuzzer: Fuzzer::Afl, stage: Stage::Building },
            "Failed to build Afl".to_string(),
        ),
        (
            RunError::LaunchFailed { fuzzer: Fuzzer::Libfuzzer, stage: Stage::Fuzzing },
            "Failed to run Libfuzzer".to_string(),
        ),
        (
            RunError::LaunchFailed { fuzzer: Fuzzer::Afl, stage: Stage::PreChecking },
            "Failed to run Afl".to_string(),
        ),
        (
            RunError::OutOfTurn,
            "the run was told of something it had not asked for".to_string(),
        ),
    ];
    for (error, text) in cases {
        assert_eq!(error.message(), text);
    }
}
