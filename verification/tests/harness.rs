use tarifuzzer::fuzz_targets::list_targets;
use tarifuzzer::harness::{harness_path, harness_source, matches_at, replace, template_path};

const AFL_TEMPLATE: &str = "//! __FUZZ_GENERATE_COMMENT__\n\n#[macro_use]\nextern crate afl;\nextern crate fuzz_targets;\n\nuse fuzz_targets::__FUZZ_CLI_TARGET__ as fuzz_target;\n\nfn main() {\n    fuzz!(|data: &[u8]| {\n        let _ = fuzz_target(data);\n    });\n}\n";

const NOTICE: &str = "NOTE: AUTO GENERATED FROM `template.rs`";

fn contains(text: &[u8], pat: &[u8]) -> bool {
    (0..=text.len()).any(|at| matches_at(text, pat, at))
}

#[test]
fn a_pattern_is_found_where_it_stands() {
    assert!(matches_at(b"abcabc", b"abc", 0));
    assert!(matches_at(b"abcabc", b"abc", 3));
    assert!(!matches_at(b"abcabc", b"abc", 1));
    assert!(!matches_at(b"abcabc", b"abc", 4));
    assert!(!matches_at(b"abcabc", b"abc", 6));
    assert!(!matches_at(b"abcabc", b"abc", 7));
    assert!(matches_at(b"abc", b"", 3));
    assert!(!matches_at(b"abc", b"", 4));
}

#[test]
fn every_occurrence_is_replaced() {
    assert_eq!(replace(b"a-b-c", b"-", b"+"), b"a+b+c".to_vec());
    assert_eq!(replace(b"xxTOKxxTOK", b"TOK", b"name"), b"xxnamexxname".to_vec());
    assert_eq!(replace(b"TOK", b"TOK", b""), b"".to_vec());
    assert_eq!(replace(b"", b"TOK", b"x"), b"".to_vec());
}

#[test]
fn a_text_without_the_pattern_is_kept() {
    assert_eq!(replace(b"nothing here", b"TOK", b"x"), b"nothing here".to_vec());
    assert_eq!(replace(b"TO", b"TOK", b"x"), b"TO".to_vec());
}

#[test]
fn replaced_occurrences_do_not_overlap() {
    assert_eq!(replace(b"aaa", b"aa", b"b"), b"ba".to_vec());
    assert_eq!(replace(b"aaaa", b"aa", b"b"), b"bb".to_vec());
    assert_eq!(replace(b"ababa", b"aba", b"x"), b"xba".to_vec());
}

#[test]
fn the_replacement_is_not_read_again() {
    assert_eq!(replace(b"ab", b"a", b"aa"), b"aab".to_vec());
    assert_eq!(replace(b"xay", b"a", b"bab"), b"xbaby".to_vec());
}

#[test]
fn an_empty_pattern_replaces_nothing() {
    assert_eq!(replace(b"abc", b"", b"x"), b"abc".to_vec());
}

#[test]
fn replacing_agrees_with_the_standard_library() {
    let texts = ["", "a", "aaa", "__FUZZ__", "x__A__y__A__z", "__A____A__", "abcabcabc", "\u{e9}__A__\u{1F489}"];
    let pats = ["a", "__A__", "abc", "__", "bc", "\u{e9}"];
    let tos = ["", "b", "__A__", "name", "aa"];
    for text in texts {
        for pat in pats {
            for to in tos {
                let expected = text.replace(pat, to).into_bytes();
                assert_eq!(replace(text.as_bytes(), pat.as_bytes(), to.as_bytes()), expected);
            }
        }
    }
}

#[test]
fn the_harness_has_the_name_and_the_notice_filled_in() {
    let source = harness_source(AFL_TEMPLATE.as_bytes(), "util_to_hex");
    let expected = "//! NOTE: AUTO GENERATED FROM `template.rs`\n\n#[macro_use]\nextern crate afl;\nextern crate fuzz_targets;\n\nuse fuzz_targets::util_to_hex as fuzz_target;\n\nfn main() {\n    fuzz!(|data: &[u8]| {\n        let _ = fuzz_target(data);\n    });\n}\n";
    assert_eq!(String::from_utf8(source).unwrap(), expected);
}

#[test]
fn the_harness_of_a_registered_target_holds_no_token() {
    for name in list_targets() {
        let source = harness_source(AFL_TEMPLATE.as_bytes(), name);
        assert!(!contains(&source, b"__FUZZ_CLI_TARGET__"));
        assert!(!contains(&source, b"__FUZZ_GENERATE_COMMENT__"));
        assert!(contains(&source, name.as_bytes()));
        assert!(contains(&source, NOTICE.as_bytes()));
    }
}

#[test]
fn no_template_leaves_a_token_in_the_harness_of_a_plain_name() {
    let templates = [
        "__FUZZ_CLI_TARGET____FUZZ_GENERATE_COMMENT__",
        "__FUZZ_CLI__FUZZ_CLI_TARGET__TARGET__",
        "__FUZZ_GENERATE__FUZZ_GENERATE_COMMENT__COMMENT__",
        "__FUZZ_CLI_TARGET__FUZZ_GENERATE_COMMENT__",
        "__FUZZ_GENERATE_COMMENT__FUZZ_CLI_TARGET__",
        "__FUZZ_CLI___FUZZ_GENERATE_COMMENT__TARGET__",
        "____FUZZ_CLI_TARGET____",
    ];
    for template in templates {
        for name in ["a", "util_to_hex", "x_1", "mmr_push_bytes"] {
            let source = harness_source(template.as_bytes(), name);
            assert!(!contains(&source, b"__FUZZ_CLI_TARGET__"), "{} {}", template, name);
            assert!(!contains(&source, b"__FUZZ_GENERATE_COMMENT__"), "{} {}", template, name);
        }
    }
}

#[test]
fn a_name_that_is_not_plain_can_bring_a_token_back() {
    let source = harness_source(b"use __FUZZ_CLI_TARGET__;", "__FUZZ_CLI_TARGET__");
    assert!(contains(&source, b"__FUZZ_CLI_TARGET__"));
    let source = harness_source(b"__FUZZ_CLI_TARGET___TARGET__", "__FUZZ_CLI");
    assert!(contains(&source, b"__FUZZ_CLI_TARGET__"));
}

#[test]
fn different_targets_give_different_harnesses() {
    let one = harness_source(AFL_TEMPLATE.as_bytes(), "util_to_hex");
    let two = harness_source(AFL_TEMPLATE.as_bytes(), "util_from_hex");
    assert_ne!(one, two);
    assert!(contains(&one, b"use fuzz_targets::util_to_hex as fuzz_target;"));
    assert!(contains(&two, b"use fuzz_targets::util_from_hex as fuzz_target;"));
}

#[test]
fn rendering_twice_gives_the_same_harness() {
    let one = harness_source(AFL_TEMPLATE.as_bytes(), "mmr_push_bytes");
    let two = harness_source(AFL_TEMPLATE.as_bytes(), "mmr_push_bytes");
    assert_eq!(one, two);
}

#[test]
fn a_template_without_tokens_is_written_as_it_is() {
    let template = b"fn main() {}\n";
    assert_eq!(harness_source(template, "util_to_hex"), template.to_vec());
}

#[test]
fn the_target_token_is_replaced_before_the_comment_token() {
    // A target named like the comment token ends up as the notice.
    let source = harness_source(b"<__FUZZ_CLI_TARGET__>", "__FUZZ_GENERATE_COMMENT__");
    assert_eq!(String::from_utf8(source).unwrap(), format!("<{}>", NOTICE));
}

#[test]
fn the_template_and_the_harness_have_their_places() {
    assert_eq!(template_path("/ws/fuzzer-afl"), "/ws/fuzzer-afl/template.rs");
    assert_eq!(
        harness_path("/ws/fuzzer-afl", "util_to_hex"),
        "/ws/fuzzer-afl/src/bin/util_to_hex.rs"
    );
    assert_eq!(harness_path("", "x"), "src/bin/x.rs");
}
