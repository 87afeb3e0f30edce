use tarifuzzer::errors::RunError;
use tarifuzzer::runner::{
    artifact_dir, install_hint, instrumented_binary, run_afl, run_honggfuzz, run_libfuzzer,
    target_platform, write_corpus, Action, Event, Exit, Host, HostOs, Invocation, Session, Stage,
};
use tarifuzzer::Fuzzer;

const TEMPLATE: &[u8] = b"//! __FUZZ_GENERATE_COMMENT__\nuse fuzz_targets::__FUZZ_CLI_TARGET__ as fuzz_target;\n";

const COVERAGE_FLAGS: &str = "--cfg fuzzing -C codegen-units=1 -C incremental=fuzz-incremental -C passes=sancov -C llvm-args=-sanitizer-coverage-level=4 -C llvm-args=-sanitizer-coverage-trace-compares -C llvm-args=-sanitizer-coverage-inline-8bit-counters -C llvm-args=-sanitizer-coverage-trace-geps -C llvm-args=-sanitizer-coverage-prune-blocks=0 -C debug-assertions=on -C debuginfo=0 -C opt-level=3 -Z sanitizer=address";

fn host_on(os: HostOs) -> Host {
    Host {
        workspace_root: "/ws".to_string(),
        os,
        rust_flags: String::new(),
        asan_options: String::new(),
        hfuzz_run_args: String::new(),
    }
}

fn host() -> Host {
    host_on(HostOs::Linux)
}

fn ok() -> Event {
    Event::Exited(Exit { success: true, code: Some(0) })
}

fn failed_with(code: i32) -> Event {
    Event::Exited(Exit { success: false, code: Some(code) })
}

fn cargo(args: &[&str], env: &[(&str, &str)], dir: Option<&str>, quiet: bool) -> Action {
    Action::Execute {
        command: Invocation {
            program: "cargo".to_string(),
            args: args.iter().map(|a| a.to_string()).collect(),
            env: env.iter().map(|(k, v)| (k.to_string(), v.to_string())).collect(),
            dir: dir.map(|d| d.to_string()),
            quiet,
        },
    }
}

/// Takes a fuzzing run up to the point where its corpus is written and
/// hands back what it asks for next.
fn through_corpus(session: &mut Session, seeds: usize) -> Action {
    assert!(matches!(session.step(Event::Begin), Action::ReadFile { .. }));
    assert!(matches!(session.step(Event::Loaded(TEMPLATE.to_vec())), Action::WriteFile { .. }));
    assert!(matches!(session.step(Event::Done), Action::CreateDir { .. }));
    assert!(matches!(session.step(Event::Done), Action::CreateDir { .. }));
    for _ in 0..seeds {
        assert!(matches!(session.step(Event::Done), Action::WriteFile { .. }));
    }
    session.step(Event::Done)
}

#[test]
fn a_run_with_the_instrumenting_engine_goes_through_every_stage_in_order() {
    let mut session = run_afl("util_to_hex", Fuzzer::Afl, 2, host());
    assert_eq!(session.stage(), Stage::Idle);

    let action = session.step(Event::Begin);
    assert_eq!(action, Action::ReadFile { path: "/ws/fuzzer-afl/template.rs".to_string() });
    assert_eq!(session.stage(), Stage::ReadingTemplate);

    let action = session.step(Event::Loaded(TEMPLATE.to_vec()));
    assert_eq!(
        action,
        Action::WriteFile {
            path: "/ws/fuzzer-afl/src/bin/util_to_hex.rs".to_string(),
            content: b"//! NOTE: AUTO GENERATED FROM `template.rs`\nuse fuzz_targets::util_to_hex as fuzz_target;\n".to_vec(),
        }
    );
    assert_eq!(session.stage(), Stage::WritingHarness);

    let action = session.step(Event::Done);
    assert_eq!(
        action,
        Action::CreateDir { path: "/ws/fuzzer-afl/artifact-util_to_hex".to_string() }
    );
    assert_eq!(session.stage(), Stage::CreatingArtifactDir);

    let action = session.step(Event::Done);
    assert_eq!(action, Action::CreateDir { path: "/ws/fuzzer-afl/corpus-util_to_hex".to_string() });
    assert_eq!(session.stage(), Stage::CreatingCorpusDir);

    for written in 0..2 {
        match session.step(Event::Done) {
            Action::WriteFile { path, content } => {
                assert_eq!(
                    path,
                    format!("/ws/fuzzer-afl/corpus-util_to_hex/{}", hex::encode(&content))
                );
            },
            other => panic!("unexpected: {:?}", other),
        }
        assert_eq!(session.stage(), Stage::WritingSeeds);
        assert_eq!(session.written(), written);
    }

    let action = session.step(Event::Done);
    assert_eq!(action, cargo(&["afl", "--version"], &[], None, true));
    assert_eq!(session.stage(), Stage::PreChecking);
    assert_eq!(session.written(), 2);

    let action = session.step(ok());
    assert_eq!(
        action,
        cargo(&["afl", "build", "--bin", "util_to_hex"], &[], Some("/ws/fuzzer-afl"), false)
    );
    assert_eq!(session.stage(), Stage::Building);

    let action = session.step(ok());
    assert_eq!(
        action,
        cargo(
            &[
                "afl",
                "fuzz",
                "-i",
                "/ws/fuzzer-afl/corpus-util_to_hex",
                "-o",
                "/ws/fuzzer-afl/artifact-util_to_hex",
                "/ws/target/debug/util_to_hex",
            ],
            &[],
            Some("/ws/fuzzer-afl"),
            false,
        )
    );
    assert_eq!(session.stage(), Stage::Fuzzing);

    let action = session.step(ok());
    assert_eq!(action, Action::Finish { outcome: Ok(()) });
    assert_eq!(session.stage(), Stage::Completed);

    assert_eq!(session.step(ok()), Action::Halt);
    assert_eq!(session.step(Event::Begin), Action::Halt);
    assert_eq!(session.stage(), Stage::Completed);
}

#[test]
fn the_looping_engine_is_started_with_its_flags_and_arguments() {
    let mut session = run_honggfuzz("mmr_push_bytes", Fuzzer::Honggfuzz, 1, host());
    let action = through_corpus(&mut session, 1);
    assert_eq!(action, cargo(&["hfuzz", "version"], &[], None, true));
    assert_eq!(session.stage(), Stage::PreChecking);

    let action = session.step(ok());
    assert_eq!(
        action,
        cargo(
            &["hfuzz", "run", "mmr_push_bytes"],
            &[
                ("RUSTFLAGS", " -Z sanitizer=address"),
                (
                    "HFUZZ_RUN_ARGS",
                    "-f /ws/fuzzer-honggfuzz/corpus-mmr_push_bytes --exit_upon_crash ",
                ),
            ],
            Some("/ws/fuzzer-honggfuzz"),
            false,
        )
    );
    assert_eq!(session.stage(), Stage::Fuzzing);
    assert_eq!(session.step(ok()), Action::Finish { outcome: Ok(()) });
}

#[test]
fn the_looping_engine_keeps_what_the_environment_holds() {
    let host = Host {
        workspace_root: "/ws".to_string(),
        os: HostOs::Linux,
        rust_flags: "-C target-cpu=native".to_string(),
        asan_options: "detect_leaks=0".to_string(),
        hfuzz_run_args: "-t 10".to_string(),
    };
    let mut session = run_honggfuzz("util_to_hex_multiple", Fuzzer::Honggfuzz, 25, host);
    through_corpus(&mut session, 0);
    let action = session.step(ok());
    assert_eq!(
        action,
        cargo(
            &["hfuzz", "run", "util_to_hex_multiple"],
            &[
                ("RUSTFLAGS", "-C target-cpu=native -Z sanitizer=address"),
                (
                    "HFUZZ_RUN_ARGS",
                    "-f /ws/fuzzer-honggfuzz/corpus-util_to_hex_multiple --exit_upon_crash -t 10",
                ),
            ],
            Some("/ws/fuzzer-honggfuzz"),
            false,
        )
    );
}

#[test]
fn the_compiler_integrated_engine_needs_no_check() {
    let mut session = run_libfuzzer("util_from_hex", Fuzzer::Libfuzzer, 0, host());
    let action = through_corpus(&mut session, 0);
    let flags = COVERAGE_FLAGS;
    assert_eq!(
        action,
        cargo(
            &[
                "run",
                "--target",
                "x86_64-unknown-linux-gnu",
                "--bin",
                "util_from_hex",
                "--",
                "/ws/fuzzer-libfuzzer/corpus-util_from_hex",
                "/ws/fuzzer-libfuzzer/artifact-util_from_hex",
            ],
            &[("RUSTFLAGS", flags), ("ASAN_OPTIONS", " detect_odr_violation=0")],
            Some("/ws/fuzzer-libfuzzer"),
            false,
        )
    );
    assert_eq!(session.stage(), Stage::Fuzzing);
    assert_eq!(session.step(ok()), Action::Finish { outcome: Ok(()) });
    assert_eq!(session.stage(), Stage::Completed);
}

#[test]
fn the_compiler_integrated_engine_is_built_for_the_host() {
    let mut session = run_libfuzzer("util_to_hex", Fuzzer::Libfuzzer, 0, host_on(HostOs::MacOs));
    match through_corpus(&mut session, 0) {
        Action::Execute { command } => {
            assert_eq!(command.args[2], "x86_64-apple-darwin");
        },
        other => panic!("unexpected: {:?}", other),
    }
}

#[test]
fn the_compiler_integrated_engine_adds_its_flags_to_those_in_force() {
    let host = Host {
        workspace_root: "/ws".to_string(),
        os: HostOs::Linux,
        rust_flags: "-g ".to_string(),
        asan_options: "detect_leaks=0".to_string(),
        hfuzz_run_args: String::new(),
    };
    let mut session = run_libfuzzer("util_to_hex", Fuzzer::Libfuzzer, 0, host);
    match through_corpus(&mut session, 0) {
        Action::Execute { command } => {
            assert_eq!(
                command.env,
                vec![
                    ("RUSTFLAGS".to_string(), format!("-g {}", COVERAGE_FLAGS)),
                    (
                        "ASAN_OPTIONS".to_string(),
                        "detect_leaks=0 detect_odr_violation=0".to_string()
                    ),
                ]
            );
        },
        other => panic!("unexpected: {:?}", other),
    }
}

#[test]
fn an_unsupported_host_stops_the_run_before_the_engine() {
    let mut session = run_libfuzzer("util_to_hex", Fuzzer::Libfuzzer, 1, host_on(HostOs::Other));
    let action = through_corpus(&mut session, 1);
    assert_eq!(
        action,
        Action::Finish { outcome: Err(RunError::UnsupportedPlatform { fuzzer: Fuzzer::Libfuzzer }) }
    );
    assert_eq!(session.stage(), Stage::Failed);
    assert_eq!(session.step(ok()), Action::Halt);
}

#[test]
fn a_failed_check_stops_the_run_and_nothing_is_started_afterwards() {
    let mut session = run_afl("util_to_hex", Fuzzer::Afl, 1, host());
    let action = through_corpus(&mut session, 1);
    assert_eq!(action, cargo(&["afl", "--version"], &[], None, true));
    let action = session.step(failed_with(101));
    assert_eq!(
        action,
        Action::Finish {
            outcome: Err(RunError::PreCheckFailed { hint: "cargo install afl".to_string() })
        }
    );
    assert_eq!(session.stage(), Stage::Failed);
    for _ in 0..5 {
        assert_eq!(session.step(ok()), Action::Halt);
        assert_eq!(session.step(Event::Done), Action::Halt);
        assert_eq!(session.step(Event::Begin), Action::Halt);
    }
    assert_eq!(session.stage(), Stage::Failed);
}

#[test]
fn a_failed_check_of_the_looping_engine_names_its_version() {
    let mut session = run_honggfuzz("util_to_hex", Fuzzer::Honggfuzz, 0, host());
    through_corpus(&mut session, 0);
    let action = session.step(Event::Exited(Exit { success: false, code: None }));
    assert_eq!(
        action,
        Action::Finish {
            outcome: Err(RunError::PreCheckFailed {
                hint: "cargo install honggfuzz --version 0.5.45".to_string()
            })
        }
    );
}

#[test]
fn a_failed_build_surfaces_its_exit_code() {
    let mut session = run_afl("util_to_hex", Fuzzer::Afl, 0, host());
    through_corpus(&mut session, 0);
    assert!(matches!(session.step(ok()), Action::Execute { .. }));
    let action = session.step(failed_with(2));
    assert_eq!(action, Action::Finish { outcome: Err(RunError::BuildFailed { code: Some(2) }) });
    assert_eq!(session.stage(), Stage::Failed);
    assert_eq!(session.step(ok()), Action::Halt);
}

#[test]
fn a_failed_engine_surfaces_its_name_and_exit_code() {
    let mut session = run_afl("util_to_hex", Fuzzer::Afl, 0, host());
    through_corpus(&mut session, 0);
    session.step(ok());
    session.step(ok());
    let action = session.step(failed_with(139));
    assert_eq!(
        action,
        Action::Finish {
            outcome: Err(RunError::EngineFailed { fuzzer: Fuzzer::Afl, code: Some(139) })
        }
    );

    let mut session = run_libfuzzer("util_to_hex", Fuzzer::Libfuzzer, 0, host());
    through_corpus(&mut session, 0);
    let action = session.step(Event::Exited(Exit { success: false, code: None }));
    assert_eq!(
        action,
        Action::Finish {
            outcome: Err(RunError::EngineFailed { fuzzer: Fuzzer::Libfuzzer, code: None })
        }
    );

    let mut session = run_honggfuzz("util_to_hex", Fuzzer::Honggfuzz, 0, host());
    through_corpus(&mut session, 0);
    session.step(ok());
    let action = session.step(failed_with(1));
    assert_eq!(
        action,
        Action::Finish {
            outcome: Err(RunError::EngineFailed { fuzzer: Fuzzer::Honggfuzz, code: Some(1) })
        }
    );
}

#[test]
fn a_process_that_cannot_be_started_stops_the_run() {
    let mut session = run_afl("util_to_hex", Fuzzer::Afl, 0, host());
    through_corpus(&mut session, 0);
    let action = session.step(Event::Failed);
    assert_eq!(action, Action::Finish {
            outcome: Err(RunError::LaunchFailed { fuzzer: Fuzzer::Afl, stage: Stage::PreChecking })
        });

    let mut session = run_afl("util_to_hex", Fuzzer::Afl, 0, host());
    through_corpus(&mut session, 0);
    session.step(ok());
    let action = session.step(Event::Failed);
    assert_eq!(action, Action::Finish {
            outcome: Err(RunError::LaunchFailed { fuzzer: Fuzzer::Afl, stage: Stage::Building })
        });

    let mut session = run_afl("util_to_hex", Fuzzer::Afl, 0, host());
    through_corpus(&mut session, 0);
    session.step(ok());
    session.step(ok());
    let action = session.step(Event::Failed);
    assert_eq!(action, Action::Finish {
            outcome: Err(RunError::LaunchFailed { fuzzer: Fuzzer::Afl, stage: Stage::Fuzzing })
        });
}

#[test]
fn an_unreadable_template_stops_the_run_at_once() {
    let mut session = run_afl("util_to_hex", Fuzzer::Afl, 3, host());
    session.step(Event::Begin);
    let action = session.step(Event::Failed);
    assert_eq!(
        action,
        Action::Finish {
            outcome: Err(RunError::TemplateUnreadable {
                path: "/ws/fuzzer-afl/template.rs".to_string()
            })
        }
    );
    assert_eq!(session.stage(), Stage::Failed);
    assert_eq!(session.step(Event::Done), Action::Halt);
}

#[test]
fn an_unwritable_harness_stops_the_run() {
    let mut session = run_afl("util_to_hex", Fuzzer::Afl, 3, host());
    session.step(Event::Begin);
    session.step(Event::Loaded(TEMPLATE.to_vec()));
    let action = session.step(Event::Failed);
    assert_eq!(
        action,
        Action::Finish {
            outcome: Err(RunError::HarnessUnwritable {
                path: "/ws/fuzzer-afl/src/bin/util_to_hex.rs".to_string()
            })
        }
    );
}

#[test]
fn a_directory_that_cannot_be_made_stops_the_run() {
    let mut session = run_afl("util_to_hex", Fuzzer::Afl, 3, host());
    session.step(Event::Begin);
    session.step(Event::Loaded(TEMPLATE.to_vec()));
    session.step(Event::Done);
    let action = session.step(Event::Failed);
    assert_eq!(
        action,
        Action::Finish {
            outcome: Err(RunError::DirectoryFailed {
                path: "/ws/fuzzer-afl/artifact-util_to_hex".to_string()
            })
        }
    );

    let mut session = run_afl("util_to_hex", Fuzzer::Afl, 3, host());
    session.step(Event::Begin);
    session.step(Event::Loaded(TEMPLATE.to_vec()));
    session.step(Event::Done);
    session.step(Event::Done);
    let action = session.step(Event::Failed);
    assert_eq!(
        action,
        Action::Finish {
            outcome: Err(RunError::DirectoryFailed {
                path: "/ws/fuzzer-afl/corpus-util_to_hex".to_string()
            })
        }
    );
    assert_eq!(session.step(Event::Done), Action::Halt);
}

#[test]
fn a_failed_write_leaves_the_other_seeds_unwritten() {
    let mut session = write_corpus("mmr_push_bytes", Fuzzer::Afl, 5, host());
    assert!(matches!(session.step(Event::Begin), Action::CreateDir { .. }));
    assert!(matches!(session.step(Event::Done), Action::WriteFile { .. }));
    let second = match session.step(Event::Done) {
        Action::WriteFile { path, .. } => path,
        other => panic!("unexpected: {:?}", other),
    };
    let action = session.step(Event::Failed);
    assert_eq!(action, Action::Finish { outcome: Err(RunError::SeedUnwritable { path: second }) });
    assert_eq!(session.stage(), Stage::Failed);
    assert_eq!(session.written(), 1);
    assert_eq!(session.step(Event::Done), Action::Halt);
    assert_eq!(session.written(), 1);
}

#[test]
fn a_target_without_a_policy_stops_the_run_once_the_directory_is_there() {
    let mut session = run_afl("no_such_target", Fuzzer::Afl, 3, host());
    assert!(matches!(session.step(Event::Begin), Action::ReadFile { .. }));
    assert!(matches!(session.step(Event::Loaded(TEMPLATE.to_vec())), Action::WriteFile { .. }));
    assert!(matches!(session.step(Event::Done), Action::CreateDir { .. }));
    assert_eq!(
        session.step(Event::Done),
        Action::CreateDir { path: "/ws/fuzzer-afl/corpus-no_such_target".to_string() }
    );
    let action = session.step(Event::Done);
    assert_eq!(
        action,
        Action::Finish {
            outcome: Err(RunError::NoSeedPolicy { target: "no_such_target".to_string() })
        }
    );
    assert_eq!(session.stage(), Stage::Failed);
}

#[test]
fn a_report_that_was_not_asked_for_stops_the_run() {
    let mut session = run_afl("util_to_hex", Fuzzer::Afl, 0, host());
    assert_eq!(session.step(Event::Done), Action::Finish { outcome: Err(RunError::OutOfTurn) });
    assert_eq!(session.stage(), Stage::Failed);

    let mut session = run_afl("util_to_hex", Fuzzer::Afl, 0, host());
    session.step(Event::Begin);
    assert_eq!(session.step(ok()), Action::Finish { outcome: Err(RunError::OutOfTurn) });

    let mut session = run_afl("util_to_hex", Fuzzer::Afl, 0, host());
    through_corpus(&mut session, 0);
    assert_eq!(session.step(Event::Done), Action::Finish { outcome: Err(RunError::OutOfTurn) });
    assert_eq!(session.step(ok()), Action::Halt);
}

#[test]
fn a_corpus_run_writes_the_corpus_and_stops() {
    let mut session = write_corpus("util_bytes_to_bits", Fuzzer::Libfuzzer, 3, host());
    assert_eq!(
        session.step(Event::Begin),
        Action::CreateDir { path: "/ws/fuzzer-libfuzzer/corpus-util_bytes_to_bits".to_string() }
    );
    let mut files = Vec::new();
    for _ in 0..3 {
        match session.step(Event::Done) {
            Action::WriteFile { path, content } => files.push((path, content)),
            other => panic!("unexpected: {:?}", other),
        }
    }
    assert_eq!(session.step(Event::Done), Action::Finish { outcome: Ok(()) });
    assert_eq!(session.stage(), Stage::Completed);
    assert_eq!(session.written(), 3);
    assert_eq!(session.step(Event::Done), Action::Halt);
    for (path, content) in files {
        let text = String::from_utf8(content).unwrap();
        let value: u32 = text.parse().unwrap();
        assert!(value <= 255);
        assert_eq!(
            path,
            format!("/ws/fuzzer-libfuzzer/corpus-util_bytes_to_bits/{}", hex::encode(&text))
        );
    }
}

#[test]
fn a_corpus_run_for_no_seeds_only_makes_the_directory() {
    let mut session = write_corpus("util_to_hex", Fuzzer::Afl, 0, host());
    assert!(matches!(session.step(Event::Begin), Action::CreateDir { .. }));
    assert_eq!(session.step(Event::Done), Action::Finish { outcome: Ok(()) });
    assert_eq!(session.written(), 0);
}

#[test]
fn a_corpus_run_for_an_unseeded_target_writes_no_seed() {
    for name in ["util_to_hex_multiple", "core_trx_create_coinbase", "core_trx_with_maturity"] {
        let mut session = write_corpus(name, Fuzzer::Afl, 25, host());
        assert!(matches!(session.step(Event::Begin), Action::CreateDir { .. }));
        assert_eq!(session.step(Event::Done), Action::Finish { outcome: Ok(()) });
        assert_eq!(session.written(), 0);
    }
}

#[test]
fn a_session_knows_its_directories() {
    let session = run_afl("util_to_hex", Fuzzer::Afl, 0, host());
    assert_eq!(session.dir(), "/ws/fuzzer-afl");
    assert_eq!(session.corpus_dir(), "/ws/fuzzer-afl/corpus-util_to_hex");
    assert_eq!(session.artifact_dir(), "/ws/fuzzer-afl/artifact-util_to_hex");
}

#[test]
fn the_directory_follows_the_engine_that_is_named() {
    // The commands are those of the run; the directory is that of the
    // engine given.
    let mut session = run_afl("util_to_hex", Fuzzer::Libfuzzer, 0, host());
    assert_eq!(session.dir(), "/ws/fuzzer-libfuzzer");
    let action = through_corpus(&mut session, 0);
    assert_eq!(action, cargo(&["afl", "--version"], &[], None, true));
}

#[test]
fn artifacts_and_binaries_have_their_places() {
    assert_eq!(artifact_dir("/ws/fuzzer-afl", "x"), "/ws/fuzzer-afl/artifact-x");
    assert_eq!(instrumented_binary("/ws", "x"), "/ws/target/debug/x");
    assert_eq!(instrumented_binary("/", "x"), "/target/debug/x");
}

#[test]
fn two_kinds_of_host_are_supported() {
    assert_eq!(target_platform(HostOs::Linux), Some("x86_64-unknown-linux-gnu"));
    assert_eq!(target_platform(HostOs::MacOs), Some("x86_64-apple-darwin"));
    assert_eq!(target_platform(HostOs::Other), None);
}

#[test]
fn every_engine_with_a_tool_has_a_hint() {
    assert_eq!(install_hint(Fuzzer::Afl), "cargo install afl");
    assert_eq!(install_hint(Fuzzer::Honggfuzz), "cargo install honggfuzz --version 0.5.45");
    assert_eq!(install_hint(Fuzzer::Libfuzzer), "");
}

#[test]
fn a_second_corpus_run_makes_no_new_directory() {
    let mut dirs: Vec<String> = Vec::new();
    let mut files: Vec<(String, Vec<u8>)> = Vec::new();
    for _ in 0..2 {
        let mut session = write_corpus("util_to_hex", Fuzzer::Afl, 4, host());
        let mut event = Event::Begin;
        loop {
            match session.step(event) {
                Action::CreateDir { path } => {
                    if !dirs.contains(&path) {
                        dirs.push(path);
                    }
                },
                Action::WriteFile { path, content } => {
                    files.retain(|(p, _)| *p != path);
                    files.push((path, content));
                },
                Action::Finish { outcome } => {
                    assert_eq!(outcome, Ok(()));
                    break;
                },
                other => panic!("unexpected: {:?}", other),
            }
            event = Event::Done;
        }
    }
    assert_eq!(dirs, vec!["/ws/fuzzer-afl/corpus-util_to_hex".to_string()]);
    assert!(files.len() <= 8);
    for (path, content) in files {
        assert_eq!(path, format!("/ws/fuzzer-afl/corpus-util_to_hex/{}", hex::encode(&content)));
    }
}
