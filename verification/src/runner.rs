//! The protocol of one run: which action comes next, given what happened to
//! the one before.
//!
//! A run neither touches the file system nor starts a process. It tells its
//! driver what to do, one `Action` at a time, and the driver answers each
//! action with the `Event` that reports how it went. The order is fixed:
//! the harness is written first, then the artifact and corpus directories
//! are made and the seeds written, then the engine's tool is checked for,
//! and only then is the engine built and started.

use crate::corpus::{
    corpus_dir, gen_corpus, spec_corpus_dir, spec_seed_count, spec_seed_policy, stored_as,
    SeedFile, SeedFileView,
};
use crate::engines::Fuzzer;
use crate::errors::{RunError, RunErrorView};
use crate::harness::{
    harness_path, harness_source, spec_harness_path, spec_harness_source, spec_template_path,
    template_path,
};
use crate::text::{join_path, spec_join};
use vstd::pervasive::unreached;
use vstd::prelude::*;
use vstd::slice::slice_to_vec;
use vstd::string::*;
use vstd::utf8::encode_utf8;

verus! {

/// The kind of system the run takes place on.
#[derive(Debug, PartialEq, Eq, Clone, Copy, Structural)]
pub enum HostOs {
    Linux,
    MacOs,
    Other,
}

/// What a run needs to know of its surroundings. The driver reads it once,
/// before the run starts.
#[derive(Debug, PartialEq, Eq)]
pub struct Host {
    /// Root directory of the workspace.
    pub workspace_root: String,
    pub os: HostOs,
    /// The compiler flags in force, empty where none are set.
    pub rust_flags: String,
    /// The sanitizer options in force, empty where none are set.
    pub asan_options: String,
    /// The run arguments of the looping engine in force, empty where none
    /// are set.
    pub hfuzz_run_args: String,
}

pub struct HostView {
    pub workspace_root: Seq<char>,
    pub os: HostOs,
    pub rust_flags: Seq<char>,
    pub asan_options: Seq<char>,
    pub hfuzz_run_args: Seq<char>,
}

impl View for Host {
    type V = HostView;

    open spec fn view(&self) -> HostView {
        HostView {
            workspace_root: self.workspace_root@,
            os: self.os,
            rust_flags: self.rust_flags@,
            asan_options: self.asan_options@,
            hfuzz_run_args: self.hfuzz_run_args@,
        }
    }
}

/// How a process ended.
#[derive(Debug, PartialEq, Eq, Clone, Copy, Structural)]
pub struct Exit {
    pub success: bool,
    /// The exit code, where the process had one.
    pub code: Option<i32>,
}

/// A process to start and wait for.
#[derive(Debug, PartialEq, Eq)]
pub struct Invocation {
    pub program: String,
    pub args: Vec<String>,
    /// Variables to set on top of the environment that the process inherits.
    pub env: Vec<(String, String)>,
    /// The directory to start the process in; `None` for the current one.
    pub dir: Option<String>,
    /// Whether the output of the process is thrown away.
    pub quiet: bool,
}

pub struct InvocationView {
    pub program: Seq<char>,
    pub args: Seq<Seq<char>>,
    pub env: Seq<(Seq<char>, Seq<char>)>,
    pub dir: Option<Seq<char>>,
    pub quiet: bool,
}

/// The strings of a list, each as its characters.
pub open spec fn texts(list: Seq<String>) -> Seq<Seq<char>> {
    list.map_values(|s: String| s@)
}

/// The pairs of a list, each side as its characters.
pub open spec fn pairs(list: Seq<(String, String)>) -> Seq<(Seq<char>, Seq<char>)> {
    list.map_values(|p: (String, String)| (p.0@, p.1@))
}

/// The characters of an optional string.
pub open spec fn opt_text(s: Option<String>) -> Option<Seq<char>> {
    match s {
        Some(s) => Some(s@),
        None => None,
    }
}

impl View for Invocation {
    type V = InvocationView;

    open spec fn view(&self) -> InvocationView {
        InvocationView {
            program: self.program@,
            args: texts(self.args@),
            env: pairs(self.env@),
            dir: opt_text(self.dir),
            quiet: self.quiet,
        }
    }
}

/// What the driver reports back.
#[derive(Debug, PartialEq, Eq)]
pub enum Event {
    /// The run is to begin.
    Begin,
    /// The file asked for was read; these are its bytes.
    Loaded(Vec<u8>),
    /// The file was written or the directory is there.
    Done,
    /// The action could not be carried out.
    Failed,
    /// The process ran and ended.
    Exited(Exit),
}

pub enum EventView {
    Begin,
    Loaded(Seq<u8>),
    Done,
    Failed,
    Exited(Exit),
}

impl View for Event {
    type V = EventView;

    open spec fn view(&self) -> EventView {
        match self {
            Event::Begin => EventView::Begin,
            Event::Loaded(bytes) => EventView::Loaded(bytes@),
            Event::Done => EventView::Done,
            Event::Failed => EventView::Failed,
            Event::Exited(exit) => EventView::Exited(*exit),
        }
    }
}

/// What the driver is to do next.
#[derive(Debug, PartialEq, Eq)]
pub enum Action {
    /// Read the file at `path` and report its bytes.
    ReadFile { path: String },
    /// Create the file at `path`, or empty it if it is there, and write
    /// `content` to it.
    WriteFile { path: String, content: Vec<u8> },
    /// Make sure the directory at `path` is there, with all its parents.
    CreateDir { path: String },
    /// Start the process, wait for it and report how it ended.
    Execute { command: Invocation },
    /// The run is over; this is how it went.
    Finish { outcome: core::result::Result<(), RunError> },
    /// The run was over before; there is nothing to do.
    Halt,
}

pub enum ActionView {
    ReadFile { path: Seq<char> },
    WriteFile { path: Seq<char>, content: Seq<u8> },
    CreateDir { path: Seq<char> },
    Execute { command: InvocationView },
    Finish { outcome: core::result::Result<(), RunErrorView> },
    Halt,
}

impl View for Action {
    type V = ActionView;

    open spec fn view(&self) -> ActionView {
        match self {
            Action::ReadFile { path } => ActionView::ReadFile { path: path@ },
            Action::WriteFile { path, content } => ActionView::WriteFile {
                path: path@,
                content: content@,
            },
            Action::CreateDir { path } => ActionView::CreateDir { path: path@ },
            Action::Execute { command } => ActionView::Execute { command: command@ },
            Action::Finish { outcome } => ActionView::Finish {
                outcome: match outcome {
                    Ok(_) => Ok(()),
                    Err(e) => Err(e@),
                },
            },
            Action::Halt => ActionView::Halt,
        }
    }
}

/// Where a run stands. Each stage but the first and the last two names the
/// action that is under way.
#[derive(Debug, PartialEq, Eq, Clone, Copy, Structural)]
pub enum Stage {
    /// Nothing has been done.
    Idle,
    ReadingTemplate,
    WritingHarness,
    /// The harness is written.
    CreatingArtifactDir,
    CreatingCorpusDir,
    WritingSeeds,
    /// The corpus is ready; the engine's tool is being checked for.
    PreChecking,
    /// The check has passed; the instrumented binary is being built.
    Building,
    /// The engine is running.
    Fuzzing,
    Completed,
    Failed,
}

/// What a run is for.
#[derive(Debug, PartialEq, Eq, Clone, Copy, Structural)]
pub enum Goal {
    /// Write the harness and the corpus, then run the engine.
    Fuzz,
    /// Write the corpus and stop.
    Corpus,
}

/// The state of a run.
pub struct SessionView {
    pub goal: Goal,
    /// The engine whose commands are run.
    pub protocol: Fuzzer,
    /// The engine whose directory is used and whose name errors carry.
    pub fuzzer: Fuzzer,
    pub target: Seq<char>,
    pub host: HostView,
    /// The seed files of the corpus, or `None` where the target has no seed
    /// policy.
    pub seeds: Option<Seq<SeedFileView>>,
    pub stage: Stage,
    /// How many seed files have been written.
    pub written: nat,
}

/// The artifact directory of `target` under the engine directory `base`.
pub open spec fn spec_artifact_dir(base: Seq<char>, target: Seq<char>) -> Seq<char> {
    spec_join(base, "artifact-"@ + target)
}

/// The instrumented binary of `target` in the workspace at `root`.
pub open spec fn spec_instrumented(root: Seq<char>, target: Seq<char>) -> Seq<char> {
    spec_join(spec_join(root, "target/debug"@), target)
}

/// The platform that the compiler-integrated engine is built for on a host
/// of kind `os`, if it supports the host.
pub open spec fn spec_platform(os: HostOs) -> Option<Seq<char>> {
    match os {
        HostOs::Linux => Some("x86_64-unknown-linux-gnu"@),
        HostOs::MacOs => Some("x86_64-apple-darwin"@),
        HostOs::Other => None,
    }
}

/// The command that installs the tool of `protocol`.
pub open spec fn spec_hint(protocol: Fuzzer) -> Seq<char> {
    match protocol {
        Fuzzer::Afl => "cargo install afl"@,
        Fuzzer::Honggfuzz => "cargo install honggfuzz --version 0.5.45"@,
        Fuzzer::Libfuzzer => Seq::empty(),
    }
}

/// The flags that tell the compiler to instrument for coverage.
pub open spec fn spec_coverage_flags() -> Seq<char> {
    "--cfg fuzzing -C codegen-units=1 -C incremental=fuzz-incremental -C passes=sancov -C llvm-args=-sanitizer-coverage-level=4 -C llvm-args=-sanitizer-coverage-trace-compares -C llvm-args=-sanitizer-coverage-inline-8bit-counters -C llvm-args=-sanitizer-coverage-trace-geps -C llvm-args=-sanitizer-coverage-prune-blocks=0 -C debug-assertions=on -C debuginfo=0 -C opt-level=3 -Z sanitizer=address"@
}

impl SessionView {
    /// The engine's directory.
    pub open spec fn dir(self) -> Seq<char> {
        self.fuzzer.spec_directory(self.host.workspace_root)
    }

    pub open spec fn corpus_dir(self) -> Seq<char> {
        spec_corpus_dir(self.dir(), self.target)
    }

    pub open spec fn artifact_dir(self) -> Seq<char> {
        spec_artifact_dir(self.dir(), self.target)
    }

    pub open spec fn template_path(self) -> Seq<char> {
        spec_template_path(self.dir())
    }

    pub open spec fn harness_path(self) -> Seq<char> {
        spec_harness_path(self.dir(), self.target)
    }

    /// Path of the seed file that is written next.
    pub open spec fn seed_path(self) -> Seq<char> {
        spec_join(self.corpus_dir(), self.seeds->0[self.written as int].name)
    }

    /// The state is sound: no more seeds are written than there are, and
    /// while seeds are being written one is still to come.
    pub open spec fn wf(self) -> bool {
        &&& self.seeds matches Some(seeds) ==> self.written <= seeds.len()
        &&& self.stage == Stage::WritingSeeds ==> self.seeds is Some && self.written
            < self.seeds->0.len()
    }

    /// The same run at another stage.
    pub open spec fn at(self, stage: Stage) -> SessionView {
        SessionView { stage, ..self }
    }

    /// The check for the engine's tool, for the engines that need one.
    pub open spec fn pre_check(self) -> Option<InvocationView> {
        match self.protocol {
            Fuzzer::Afl => Some(
                InvocationView {
                    program: "cargo"@,
                    args: seq!["afl"@, "--version"@],
                    env: seq![],
                    dir: None,
                    quiet: true,
                },
            ),
            Fuzzer::Honggfuzz => Some(
                InvocationView {
                    program: "cargo"@,
                    args: seq!["hfuzz"@, "version"@],
                    env: seq![],
                    dir: None,
                    quiet: true,
                },
            ),
            Fuzzer::Libfuzzer => None,
        }
    }

    /// The build of the instrumented binary.
    pub open spec fn build(self) -> InvocationView {
        InvocationView {
            program: "cargo"@,
            args: seq!["afl"@, "build"@, "--bin"@, self.target],
            env: seq![],
            dir: Some(self.dir()),
            quiet: false,
        }
    }

    /// The start of the instrumentation-based engine on the built binary.
    pub open spec fn afl_fuzz(self) -> InvocationView {
        InvocationView {
            program: "cargo"@,
            args: seq![
                "afl"@,
                "fuzz"@,
                "-i"@,
                self.corpus_dir(),
                "-o"@,
                self.artifact_dir(),
                spec_instrumented(self.host.workspace_root, self.target),
            ],
            env: seq![],
            dir: Some(self.dir()),
            quiet: false,
        }
    }

    /// The start of the looping engine.
    pub open spec fn hfuzz_run(self) -> InvocationView {
        InvocationView {
            program: "cargo"@,
            args: seq!["hfuzz"@, "run"@, self.target],
            env: seq![
                ("RUSTFLAGS"@, self.host.rust_flags + " -Z sanitizer=address"@),
                (
                    "HFUZZ_RUN_ARGS"@,
                    "-f "@ + self.corpus_dir() + " --exit_upon_crash "@ + self.host.hfuzz_run_args,
                ),
            ],
            dir: Some(self.dir()),
            quiet: false,
        }
    }

    /// The start of the compiler-integrated engine, built for `platform`.
    pub open spec fn libfuzzer_run(self, platform: Seq<char>) -> InvocationView {
        InvocationView {
            program: "cargo"@,
            args: seq![
                "run"@,
                "--target"@,
                platform,
                "--bin"@,
                self.target,
                "--"@,
                self.corpus_dir(),
                self.artifact_dir(),
            ],
            env: seq![
                ("RUSTFLAGS"@, self.host.rust_flags + spec_coverage_flags()),
                ("ASAN_OPTIONS"@, self.host.asan_options + " detect_odr_violation=0"@),
            ],
            dir: Some(self.dir()),
            quiet: false,
        }
    }

    /// The run stops with `error`.
    pub open spec fn fail(self, error: RunErrorView) -> (SessionView, ActionView) {
        (self.at(Stage::Failed), ActionView::Finish { outcome: Err(error) })
    }

    /// The run goes on to its engine process, once nothing stands in the
    /// way: the second process of the instrumentation-based engine is not
    /// started here but after its build.
    pub open spec fn launch(self) -> (SessionView, ActionView) {
        match self.protocol {
            Fuzzer::Afl => (self.at(Stage::Building), ActionView::Execute { command: self.build() }),
            Fuzzer::Honggfuzz => (
                self.at(Stage::Fuzzing),
                ActionView::Execute { command: self.hfuzz_run() },
            ),
            Fuzzer::Libfuzzer => match spec_platform(self.host.os) {
                Some(platform) => (
                    self.at(Stage::Fuzzing),
                    ActionView::Execute { command: self.libfuzzer_run(platform) },
                ),
                None => self.fail(RunErrorView::UnsupportedPlatform { fuzzer: self.fuzzer }),
            },
        }
    }

    /// The run goes on behind the corpus: a corpus run is over, a fuzzing
    /// run checks for the engine's tool or, where the engine needs no check,
    /// goes on to the engine.
    pub open spec fn after_corpus(self) -> (SessionView, ActionView) {
        match self.goal {
            Goal::Corpus => (self.at(Stage::Completed), ActionView::Finish { outcome: Ok(()) }),
            Goal::Fuzz => match self.pre_check() {
                Some(check) => (self.at(Stage::PreChecking), ActionView::Execute { command: check }),
                None => self.launch(),
            },
        }
    }

    /// The run writes its next seed file, or goes on where none is left.
    pub open spec fn next_seed(self) -> (SessionView, ActionView) {
        if self.written < self.seeds->0.len() {
            (
                self.at(Stage::WritingSeeds),
                ActionView::WriteFile {
                    path: self.seed_path(),
                    content: self.seeds->0[self.written as int].content,
                },
            )
        } else {
            self.after_corpus()
        }
    }

    /// The state after `event` and the action that it calls for.
    pub open spec fn step(self, event: EventView) -> (SessionView, ActionView) {
        match (self.stage, event) {
            (Stage::Idle, EventView::Begin) => match self.goal {
                Goal::Fuzz => (
                    self.at(Stage::ReadingTemplate),
                    ActionView::ReadFile { path: self.template_path() },
                ),
                Goal::Corpus => (
                    self.at(Stage::CreatingCorpusDir),
                    ActionView::CreateDir { path: self.corpus_dir() },
                ),
            },
            (Stage::ReadingTemplate, EventView::Loaded(template)) => (
                self.at(Stage::WritingHarness),
                ActionView::WriteFile {
                    path: self.harness_path(),
                    content: spec_harness_source(template, encode_utf8(self.target)),
                },
            ),
            (Stage::ReadingTemplate, EventView::Failed) => self.fail(
                RunErrorView::TemplateUnreadable { path: self.template_path() },
            ),
            (Stage::WritingHarness, EventView::Done) => (
                self.at(Stage::CreatingArtifactDir),
                ActionView::CreateDir { path: self.artifact_dir() },
            ),
            (Stage::WritingHarness, EventView::Failed) => self.fail(
                RunErrorView::HarnessUnwritable { path: self.harness_path() },
            ),
            (Stage::CreatingArtifactDir, EventView::Done) => (
                self.at(Stage::CreatingCorpusDir),
                ActionView::CreateDir { path: self.corpus_dir() },
            ),
            (Stage::CreatingArtifactDir, EventView::Failed) => self.fail(
                RunErrorView::DirectoryFailed { path: self.artifact_dir() },
            ),
            (Stage::CreatingCorpusDir, EventView::Done) => match self.seeds {
                Some(_) => self.next_seed(),
                None => self.fail(RunErrorView::NoSeedPolicy { target: self.target }),
            },
            (Stage::CreatingCorpusDir, EventView::Failed) => self.fail(
                RunErrorView::DirectoryFailed { path: self.corpus_dir() },
            ),
            (Stage::WritingSeeds, EventView::Done) => (SessionView {
                written: self.written + 1,
                ..self
            }).next_seed(),
            (Stage::WritingSeeds, EventView::Failed) => self.fail(
                RunErrorView::SeedUnwritable { path: self.seed_path() },
            ),
            (Stage::PreChecking, EventView::Exited(exit)) => if exit.success {
                self.launch()
            } else {
                self.fail(RunErrorView::PreCheckFailed { hint: spec_hint(self.protocol) })
            },
            (Stage::Building, EventView::Exited(exit)) => if exit.success {
                (self.at(Stage::Fuzzing), ActionView::Execute { command: self.afl_fuzz() })
            } else {
                self.fail(RunErrorView::BuildFailed { code: exit.code })
            },
            (Stage::Fuzzing, EventView::Exited(exit)) => if exit.success {
                (self.at(Stage::Completed), ActionView::Finish { outcome: Ok(()) })
            } else {
                self.fail(RunErrorView::EngineFailed { fuzzer: self.fuzzer, code: exit.code })
            },
            (Stage::PreChecking, EventView::Failed) => self.fail(
                RunErrorView::LaunchFailed { fuzzer: self.fuzzer, stage: Stage::PreChecking },
            ),
            (Stage::Building, EventView::Failed) => self.fail(
                RunErrorView::LaunchFailed { fuzzer: self.fuzzer, stage: Stage::Building },
            ),
            (Stage::Fuzzing, EventView::Failed) => self.fail(
                RunErrorView::LaunchFailed { fuzzer: self.fuzzer, stage: Stage::Fuzzing },
            ),
            (Stage::Completed, _) => (self, ActionView::Halt),
            (Stage::Failed, _) => (self, ActionView::Halt),
            _ => self.fail(RunErrorView::OutOfTurn),
        }
    }
}

/// Appends `item` to a list of strings.
fn push_text(list: &mut Vec<String>, item: &str)
    ensures
        texts(final(list)@) == texts(old(list)@).push(item@),
{
    list.push(String::from_str(item));
    assert(texts(list@) =~= texts(old(list)@).push(item@));
}

/// Appends the variable `key` with `value` to a list of variables.
fn push_pair(list: &mut Vec<(String, String)>, key: &str, value: String)
    ensures
        pairs(final(list)@) == pairs(old(list)@).push((key@, value@)),
{
    list.push((String::from_str(key), value));
    assert(pairs(list@) =~= pairs(old(list)@).push((key@, value@)));
}

/// Path of the artifact directory of `target` under the engine directory
/// `base`.
pub fn artifact_dir(base: &str, target: &str) -> (dir: String)
    ensures
        dir@ == spec_artifact_dir(base@, target@),
{
    let mut leaf = String::from_str("artifact-");
    leaf.append(target);
    join_path(base, leaf.as_str())
}

/// Path of the instrumented binary of `target` in the workspace at `root`.
pub fn instrumented_binary(root: &str, target: &str) -> (path: String)
    ensures
        path@ == spec_instrumented(root@, target@),
{
    let build = join_path(root, "target/debug");
    join_path(build.as_str(), target)
}

/// The platform that the compiler-integrated engine is built for on a host
/// of kind `os`; none where the engine does not support the host.
pub fn target_platform(os: HostOs) -> (platform: Option<&'static str>)
    ensures
        opt_view(platform) == spec_platform(os),
{
    match os {
        HostOs::Linux => Some("x86_64-unknown-linux-gnu"),
        HostOs::MacOs => Some("x86_64-apple-darwin"),
        HostOs::Other => None,
    }
}

/// The characters of an optional string slice.
pub open spec fn opt_view(s: Option<&'static str>) -> Option<Seq<char>> {
    match s {
        Some(s) => Some(s@),
        None => None,
    }
}

/// The seed files of a list, each as its view.
pub open spec fn files(list: Seq<SeedFile>) -> Seq<SeedFileView> {
    list.map_values(|f: SeedFile| f@)
}

/// One run, from its first action to its outcome.
pub struct Session {
    goal: Goal,
    protocol: Fuzzer,
    fuzzer: Fuzzer,
    target: String,
    host: Host,
    seeds: Option<Vec<SeedFile>>,
    stage: Stage,
    written: usize,
}

impl View for Session {
    type V = SessionView;

    closed spec fn view(&self) -> SessionView {
        SessionView {
            goal: self.goal,
            protocol: self.protocol,
            fuzzer: self.fuzzer,
            target: self.target@,
            host: self.host@,
            seeds: match self.seeds {
                Some(list) => Some(files(list@)),
                None => None,
            },
            stage: self.stage,
            written: self.written as nat,
        }
    }
}

impl SessionView {
    /// Whether this is the state in which a run for `target` starts: idle,
    /// with nothing written, and with a corpus of `count` requested seeds
    /// where the target has a seed policy.
    pub open spec fn starts(
        self,
        goal: Goal,
        protocol: Fuzzer,
        fuzzer: Fuzzer,
        target: Seq<char>,
        host: HostView,
        count: nat,
    ) -> bool {
        &&& self.goal == goal
        &&& self.protocol == protocol
        &&& self.fuzzer == fuzzer
        &&& self.target == target
        &&& self.host == host
        &&& self.stage == Stage::Idle
        &&& self.written == 0
        &&& match spec_seed_policy(target) {
            Some(policy) => {
                &&& self.seeds matches Some(seeds)
                &&& seeds.len() == spec_seed_count(policy, count)
                &&& forall|i: int| 0 <= i < seeds.len() ==> stored_as(policy, #[trigger] seeds[i])
            },
            None => self.seeds is None,
        }
    }
}

impl Session {
    #[verifier::type_invariant]
    spec fn sound(&self) -> bool {
        self@.wf()
    }

    /// Sets a run up: plans the corpus and waits for the driver to begin.
    fn open(
        goal: Goal,
        protocol: Fuzzer,
        target: &str,
        fuzzer: Fuzzer,
        seeds: usize,
        host: Host,
    ) -> (session: Session)
        ensures
            session@.starts(goal, protocol, fuzzer, target@, host@, seeds as nat),
            session@.wf(),
    {
        let planned = match gen_corpus(target, fuzzer, host.workspace_root.as_str(), seeds) {
            Ok(corpus) => Some(corpus.seeds),
            Err(_) => None,
        };
        proof {
            if planned is Some {
                let list = planned->0;
                let policy = spec_seed_policy(target@)->0;
                assert forall|i: int| 0 <= i < files(list@).len() implies stored_as(
                    policy,
                    #[trigger] files(list@)[i],
                ) by {
                    assert(stored_as(policy, list@[i]@));
                }
            }
        }
        Session {
            goal,
            protocol,
            fuzzer,
            target: String::from_str(target),
            host,
            seeds: planned,
            stage: Stage::Idle,
            written: 0,
        }
    }

    /// Where the run stands.
    pub fn stage(&self) -> (stage: Stage)
        ensures
            stage == self@.stage,
    {
        self.stage
    }

    /// How many seed files have been written.
    pub fn written(&self) -> (count: usize)
        ensures
            count == self@.written,
    {
        self.written
    }

    /// The engine's directory.
    pub fn dir(&self) -> (dir: String)
        ensures
            dir@ == self@.dir(),
    {
        self.fuzzer.directory(self.host.workspace_root.as_str())
    }

    /// The corpus directory of the run.
    pub fn corpus_dir(&self) -> (dir: String)
        ensures
            dir@ == self@.corpus_dir(),
    {
        let base = self.dir();
        corpus_dir(base.as_str(), self.target.as_str())
    }

    /// The artifact directory of the run.
    pub fn artifact_dir(&self) -> (dir: String)
        ensures
            dir@ == self@.artifact_dir(),
    {
        let base = self.dir();
        artifact_dir(base.as_str(), self.target.as_str())
    }

    fn pre_check(&self) -> (check: Option<Invocation>)
        ensures
            match check {
                Some(command) => self@.pre_check() == Some(command@),
                None => self@.pre_check() is None,
            },
    {
        let mut args: Vec<String> = Vec::new();
        match self.protocol {
            Fuzzer::Afl => {
                push_text(&mut args, "afl");
                push_text(&mut args, "--version");
                assert(texts(args@) =~= seq!["afl"@, "--version"@]);
            },
            Fuzzer::Honggfuzz => {
                push_text(&mut args, "hfuzz");
                push_text(&mut args, "version");
                assert(texts(args@) =~= seq!["hfuzz"@, "version"@]);
            },
            Fuzzer::Libfuzzer => {
                return None;
            },
        }
        let env: Vec<(String, String)> = Vec::new();
        assert(pairs(env@) =~= seq![]);
        Some(Invocation { program: String::from_str("cargo"), args, env, dir: None, quiet: true })
    }

    fn build(&self) -> (command: Invocation)
        ensures
            command@ == self@.build(),
    {
        let mut args: Vec<String> = Vec::new();
        push_text(&mut args, "afl");
        push_text(&mut args, "build");
        push_text(&mut args, "--bin");
        push_text(&mut args, self.target.as_str());
        assert(texts(args@) =~= seq!["afl"@, "build"@, "--bin"@, self.target@]);
        let env: Vec<(String, String)> = Vec::new();
        assert(pairs(env@) =~= seq![]);
        Invocation {
            program: String::from_str("cargo"),
            args,
            env,
            dir: Some(self.dir()),
            quiet: false,
        }
    }

    fn afl_fuzz(&self) -> (command: Invocation)
        ensures
            command@ == self@.afl_fuzz(),
    {
        let corpus = self.corpus_dir();
        let artifact = self.artifact_dir();
        let binary = instrumented_binary(self.host.workspace_root.as_str(), self.target.as_str());
        let mut args: Vec<String> = Vec::new();
        push_text(&mut args, "afl");
        push_text(&mut args, "fuzz");
        push_text(&mut args, "-i");
        push_text(&mut args, corpus.as_str());
        push_text(&mut args, "-o");
        push_text(&mut args, artifact.as_str());
        push_text(&mut args, binary.as_str());
        assert(texts(args@) =~= seq![
            "afl"@,
            "fuzz"@,
            "-i"@,
            corpus@,
            "-o"@,
            artifact@,
            binary@,
        ]);
        let env: Vec<(String, String)> = Vec::new();
        assert(pairs(env@) =~= seq![]);
        Invocation {
            program: String::from_str("cargo"),
            args,
            env,
            dir: Some(self.dir()),
            quiet: false,
        }
    }

    fn hfuzz_run(&self) -> (command: Invocation)
        ensures
            command@ == self@.hfuzz_run(),
    {
        let corpus = self.corpus_dir();
        let mut args: Vec<String> = Vec::new();
        push_text(&mut args, "hfuzz");
        push_text(&mut args, "run");
        push_text(&mut args, self.target.as_str());
        assert(texts(args@) =~= seq!["hfuzz"@, "run"@, self.target@]);
        let mut rust_flags = String::from_str(self.host.rust_flags.as_str());
        rust_flags.append(" -Z sanitizer=address");
        let mut run_args = String::from_str("-f ");
        run_args.append(corpus.as_str());
        run_args.append(" --exit_upon_crash ");
        run_args.append(self.host.hfuzz_run_args.as_str());
        let mut env: Vec<(String, String)> = Vec::new();
        push_pair(&mut env, "RUSTFLAGS", rust_flags);
        push_pair(&mut env, "HFUZZ_RUN_ARGS", run_args);
        assert(pairs(env@) =~= seq![
            ("RUSTFLAGS"@, self@.host.rust_flags + " -Z sanitizer=address"@),
            (
                "HFUZZ_RUN_ARGS"@,
                "-f "@ + self@.corpus_dir() + " --exit_upon_crash "@ + self@.host.hfuzz_run_args,
            ),
        ]);
        Invocation {
            program: String::from_str("cargo"),
            args,
            env,
            dir: Some(self.dir()),
            quiet: false,
        }
    }

    fn libfuzzer_run(&self, platform: &str) -> (command: Invocation)
        ensures
            command@ == self@.libfuzzer_run(platform@),
    {
        let corpus = self.corpus_dir();
        let artifact = self.artifact_dir();
        let mut args: Vec<String> = Vec::new();
        push_text(&mut args, "run");
        push_text(&mut args, "--target");
        push_text(&mut args, platform);
        push_text(&mut args, "--bin");
        push_text(&mut args, self.target.as_str());
        push_text(&mut args, "--");
        push_text(&mut args, corpus.as_str());
        push_text(&mut args, artifact.as_str());
        assert(texts(args@) =~= seq![
            "run"@,
            "--target"@,
            platform@,
            "--bin"@,
            self.target@,
            "--"@,
            corpus@,
            artifact@,
        ]);
        let mut rust_flags = String::from_str(self.host.rust_flags.as_str());
        rust_flags.append(
            "--cfg fuzzing -C codegen-units=1 -C incremental=fuzz-incremental -C passes=sancov -C llvm-args=-sanitizer-coverage-level=4 -C llvm-args=-sanitizer-coverage-trace-compares -C llvm-args=-sanitizer-coverage-inline-8bit-counters -C llvm-args=-sanitizer-coverage-trace-geps -C llvm-args=-sanitizer-coverage-prune-blocks=0 -C debug-assertions=on -C debuginfo=0 -C opt-level=3 -Z sanitizer=address",
        );
        let mut asan_options = String::from_str(self.host.asan_options.as_str());
        asan_options.append(" detect_odr_violation=0");
        let mut env: Vec<(String, String)> = Vec::new();
        push_pair(&mut env, "RUSTFLAGS", rust_flags);
        push_pair(&mut env, "ASAN_OPTIONS", asan_options);
        assert(pairs(env@) =~= seq![
            ("RUSTFLAGS"@, self@.host.rust_flags + spec_coverage_flags()),
            ("ASAN_OPTIONS"@, self@.host.asan_options + " detect_odr_violation=0"@),
        ]);
        Invocation {
            program: String::from_str("cargo"),
            args,
            env,
            dir: Some(self.dir()),
            quiet: false,
        }
    }

    /// Stops the run with `error`.
    fn fail(&mut self, error: RunError) -> (action: Action)
        ensures
            (final(self)@, action@) == old(self)@.fail(error@),
    {
        proof {
            use_type_invariant(&*self);
        }
        self.stage = Stage::Failed;
        Action::Finish { outcome: Err(error) }
    }

    /// Goes on to the engine's own process.
    fn launch(&mut self) -> (action: Action)
        ensures
            (final(self)@, action@) == old(self)@.launch(),
    {
        proof {
            use_type_invariant(&*self);
        }
        match self.protocol {
            Fuzzer::Afl => {
                let command = self.build();
                self.stage = Stage::Building;
                Action::Execute { command }
            },
            Fuzzer::Honggfuzz => {
                let command = self.hfuzz_run();
                self.stage = Stage::Fuzzing;
                Action::Execute { command }
            },
            Fuzzer::Libfuzzer => match target_platform(self.host.os) {
                Some(platform) => {
                    let command = self.libfuzzer_run(platform);
                    self.stage = Stage::Fuzzing;
                    Action::Execute { command }
                },
                None => {
                    let fuzzer = self.fuzzer;
                    self.fail(RunError::UnsupportedPlatform { fuzzer })
                },
            },
        }
    }

    /// Goes on behind the corpus.
    fn after_corpus(&mut self) -> (action: Action)
        ensures
            (final(self)@, action@) == old(self)@.after_corpus(),
    {
        proof {
            use_type_invariant(&*self);
        }
        match self.goal {
            Goal::Corpus => {
                self.stage = Stage::Completed;
                Action::Finish { outcome: Ok(()) }
            },
            Goal::Fuzz => match self.pre_check() {
                Some(command) => {
                    self.stage = Stage::PreChecking;
                    Action::Execute { command }
                },
                None => self.launch(),
            },
        }
    }

    /// The seed file that is written next, as a path and its content.
    fn pending_seed(&self) -> (next: Option<(String, Vec<u8>)>)
        requires
            self@.seeds is Some,
        ensures
            match next {
                Some((path, content)) => self@.written < self@.seeds->0.len() && path@
                    == self@.seed_path() && content@
                    == self@.seeds->0[self@.written as int].content,
                None => self@.written >= self@.seeds->0.len(),
            },
    {
        match &self.seeds {
            Some(list) => {
                if self.written < list.len() {
                    let file = &list[self.written];
                    let dir = self.corpus_dir();
                    let path = join_path(dir.as_str(), file.name.as_str());
                    let content = slice_to_vec(file.content.as_slice());
                    assert(files(list@)[self.written as int] == file@);
                    Some((path, content))
                } else {
                    None
                }
            },
            None => None,
        }
    }

    /// Writes the next seed file, or goes on where none is left.
    fn next_seed(&mut self) -> (action: Action)
        requires
            old(self)@.seeds is Some,
        ensures
            (final(self)@, action@) == old(self)@.next_seed(),
    {
        proof {
            use_type_invariant(&*self);
        }
        match self.pending_seed() {
            Some((path, content)) => {
                self.stage = Stage::WritingSeeds;
                Action::WriteFile { path, content }
            },
            None => self.after_corpus(),
        }
    }

    fn on_idle(&mut self, event: Event) -> (action: Action)
        requires
            old(self)@.stage == Stage::Idle,
        ensures
            (final(self)@, action@) == old(self)@.step(event@),
    {
        proof {
            use_type_invariant(&*self);
        }
        match event {
            Event::Begin => match self.goal {
                Goal::Fuzz => {
                    let dir = self.dir();
                    let path = template_path(dir.as_str());
                    self.stage = Stage::ReadingTemplate;
                    Action::ReadFile { path }
                },
                Goal::Corpus => {
                    let path = self.corpus_dir();
                    self.stage = Stage::CreatingCorpusDir;
                    Action::CreateDir { path }
                },
            },
            _ => self.fail(RunError::OutOfTurn),
        }
    }

    fn on_reading_template(&mut self, event: Event) -> (action: Action)
        requires
            old(self)@.stage == Stage::ReadingTemplate,
        ensures
            (final(self)@, action@) == old(self)@.step(event@),
    {
        proof {
            use_type_invariant(&*self);
        }
        let dir = self.dir();
        match event {
            Event::Loaded(template) => {
                let path = harness_path(dir.as_str(), self.target.as_str());
                let content = harness_source(template.as_slice(), self.target.as_str());
                self.stage = Stage::WritingHarness;
                Action::WriteFile { path, content }
            },
            Event::Failed => {
                let path = template_path(dir.as_str());
                self.fail(RunError::TemplateUnreadable { path })
            },
            _ => self.fail(RunError::OutOfTurn),
        }
    }

    fn on_writing_harness(&mut self, event: Event) -> (action: Action)
        requires
            old(self)@.stage == Stage::WritingHarness,
        ensures
            (final(self)@, action@) == old(self)@.step(event@),
    {
        proof {
            use_type_invariant(&*self);
        }
        match event {
            Event::Done => {
                let path = self.artifact_dir();
                self.stage = Stage::CreatingArtifactDir;
                Action::CreateDir { path }
            },
            Event::Failed => {
                let dir = self.dir();
                let path = harness_path(dir.as_str(), self.target.as_str());
                self.fail(RunError::HarnessUnwritable { path })
            },
            _ => self.fail(RunError::OutOfTurn),
        }
    }

    fn on_creating_artifact_dir(&mut self, event: Event) -> (action: Action)
        requires
            old(self)@.stage == Stage::CreatingArtifactDir,
        ensures
            (final(self)@, action@) == old(self)@.step(event@),
    {
        proof {
            use_type_invariant(&*self);
        }
        match event {
            Event::Done => {
                let path = self.corpus_dir();
                self.stage = Stage::CreatingCorpusDir;
                Action::CreateDir { path }
            },
            Event::Failed => {
                let path = self.artifact_dir();
                self.fail(RunError::DirectoryFailed { path })
            },
            _ => self.fail(RunError::OutOfTurn),
        }
    }

    fn on_creating_corpus_dir(&mut self, event: Event) -> (action: Action)
        requires
            old(self)@.stage == Stage::CreatingCorpusDir,
        ensures
            (final(self)@, action@) == old(self)@.step(event@),
    {
        proof {
            use_type_invariant(&*self);
        }
        match event {
            Event::Done => {
                if self.seeds.is_some() {
                    self.next_seed()
                } else {
                    let target = self.target.clone();
                    self.fail(RunError::NoSeedPolicy { target })
                }
            },
            Event::Failed => {
                let path = self.corpus_dir();
                self.fail(RunError::DirectoryFailed { path })
            },
            _ => self.fail(RunError::OutOfTurn),
        }
    }

    fn on_writing_seeds(&mut self, event: Event) -> (action: Action)
        requires
            old(self)@.stage == Stage::WritingSeeds,
        ensures
            (final(self)@, action@) == old(self)@.step(event@),
    {
        proof {
            use_type_invariant(&*self);
        }
        assert(self@.seeds is Some && self@.written < self@.seeds->0.len());
        match event {
            Event::Done => {
                assert(self.written < self.seeds->0.len());
                let written = self.written + 1;
                self.stage = Stage::CreatingCorpusDir;
                self.written = written;
                self.next_seed()
            },
            Event::Failed => {
                match self.pending_seed() {
                    Some((path, _)) => self.fail(RunError::SeedUnwritable { path }),
                    None => unreached(),
                }
            },
            _ => self.fail(RunError::OutOfTurn),
        }
    }

    fn on_pre_checking(&mut self, event: Event) -> (action: Action)
        requires
            old(self)@.stage == Stage::PreChecking,
        ensures
            (final(self)@, action@) == old(self)@.step(event@),
    {
        proof {
            use_type_invariant(&*self);
        }
        match event {
            Event::Exited(exit) => {
                if exit.success {
                    self.launch()
                } else {
                    let hint = String::from_str(install_hint(self.protocol));
                    self.fail(RunError::PreCheckFailed { hint })
                }
            },
            Event::Failed => {
                let fuzzer = self.fuzzer;
                self.fail(RunError::LaunchFailed { fuzzer, stage: Stage::PreChecking })
            },
            _ => self.fail(RunError::OutOfTurn),
        }
    }

    fn on_building(&mut self, event: Event) -> (action: Action)
        requires
            old(self)@.stage == Stage::Building,
        ensures
            (final(self)@, action@) == old(self)@.step(event@),
    {
        proof {
            use_type_invariant(&*self);
        }
        match event {
            Event::Exited(exit) => {
                if exit.success {
                    let command = self.afl_fuzz();
                    self.stage = Stage::Fuzzing;
                    Action::Execute { command }
                } else {
                    self.fail(RunError::BuildFailed { code: exit.code })
                }
            },
            Event::Failed => {
                let fuzzer = self.fuzzer;
                self.fail(RunError::LaunchFailed { fuzzer, stage: Stage::Building })
            },
            _ => self.fail(RunError::OutOfTurn),
        }
    }

    fn on_fuzzing(&mut self, event: Event) -> (action: Action)
        requires
            old(self)@.stage == Stage::Fuzzing,
        ensures
            (final(self)@, action@) == old(self)@.step(event@),
    {
        proof {
            use_type_invariant(&*self);
        }
        match event {
            Event::Exited(exit) => {
                if exit.success {
                    self.stage = Stage::Completed;
                    Action::Finish { outcome: Ok(()) }
                } else {
                    let fuzzer = self.fuzzer;
                    self.fail(RunError::EngineFailed { fuzzer, code: exit.code })
                }
            },
            Event::Failed => {
                let fuzzer = self.fuzzer;
                self.fail(RunError::LaunchFailed { fuzzer, stage: Stage::Fuzzing })
            },
            _ => self.fail(RunError::OutOfTurn),
        }
    }

    /// Takes the report of the last action and says what to do next.
    ///
    /// The first report is `Event::Begin`. Once the run is over, which the
    /// action `Finish` says, every further report is answered with `Halt`.
    pub fn step(&mut self, event: Event) -> (action: Action)
        ensures
            (final(self)@, action@) == old(self)@.step(event@),
            final(self)@.wf(),
    {
        proof {
            use_type_invariant(&*self);
        }
        let action = match self.stage {
            Stage::Idle => self.on_idle(event),
            Stage::ReadingTemplate => self.on_reading_template(event),
            Stage::WritingHarness => self.on_writing_harness(event),
            Stage::CreatingArtifactDir => self.on_creating_artifact_dir(event),
            Stage::CreatingCorpusDir => self.on_creating_corpus_dir(event),
            Stage::WritingSeeds => self.on_writing_seeds(event),
            Stage::PreChecking => self.on_pre_checking(event),
            Stage::Building => self.on_building(event),
            Stage::Fuzzing => self.on_fuzzing(event),
            Stage::Completed => Action::Halt,
            Stage::Failed => Action::Halt,
        };
        proof {
            use_type_invariant(&*self);
        }
        action
    }
}

/// The command that installs the tool of `protocol`; empty for the engine
/// that needs none.
pub fn install_hint(protocol: Fuzzer) -> (hint: &'static str)
    ensures
        hint@ == spec_hint(protocol),
{
    match protocol {
        Fuzzer::Afl => "cargo install afl",
        Fuzzer::Honggfuzz => "cargo install honggfuzz --version 0.5.45",
        Fuzzer::Libfuzzer => {
            proof {
                reveal_strlit("");
            }
            ""
        },
    }
}

/// Sets up a run of `target` with the instrumentation-based engine: the
/// harness and the corpus are written, the engine's tool is checked for, and
/// then the instrumented binary is built and the engine started on it.
pub fn run_afl(target: &str, fuzzer: Fuzzer, seeds: usize, host: Host) -> (session: Session)
    ensures
        session@.starts(Goal::Fuzz, Fuzzer::Afl, fuzzer, target@, host@, seeds as nat),
        session@.wf(),
{
    Session::open(Goal::Fuzz, Fuzzer::Afl, target, fuzzer, seeds, host)
}

/// Sets up a run of `target` with the looping engine, which does not end
/// until it is interrupted.
pub fn run_honggfuzz(target: &str, fuzzer: Fuzzer, seeds: usize, host: Host) -> (session: Session)
    ensures
        session@.starts(Goal::Fuzz, Fuzzer::Honggfuzz, fuzzer, target@, host@, seeds as nat),
        session@.wf(),
{
    Session::open(Goal::Fuzz, Fuzzer::Honggfuzz, target, fuzzer, seeds, host)
}

/// Sets up a run of `target` with the compiler-integrated engine, which
/// needs no tool of its own but supports two kinds of host only.
pub fn run_libfuzzer(target: &str, fuzzer: Fuzzer, seeds: usize, host: Host) -> (session: Session)
    ensures
        session@.starts(Goal::Fuzz, Fuzzer::Libfuzzer, fuzzer, target@, host@, seeds as nat),
        session@.wf(),
{
    Session::open(Goal::Fuzz, Fuzzer::Libfuzzer, target, fuzzer, seeds, host)
}

/// Sets up a run that writes the corpus of `target` for `fuzzer` and stops.
pub fn write_corpus(target: &str, fuzzer: Fuzzer, seeds: usize, host: Host) -> (session: Session)
    ensures
        session@.starts(Goal::Corpus, fuzzer, fuzzer, target@, host@, seeds as nat),
        session@.wf(),
{
    Session::open(Goal::Corpus, fuzzer, target, fuzzer, seeds, host)
}

} // verus!
