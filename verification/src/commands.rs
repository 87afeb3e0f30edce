//! The commands of the front end and what each one sets in motion.

use crate::engines::Fuzzer;
use crate::errors::{RunError, RunErrorView};
use crate::fuzz_targets::{check_target, is_target, list_targets, target_names};
use crate::runner::{
    run_afl, run_honggfuzz, run_libfuzzer, write_corpus, Goal, Host, HostView, Session,
};
use vstd::prelude::*;
use vstd::string::*;

verus! {

/// The number of seeds that a corpus gets where none is asked for.
pub const CORPUS_ITEMS: usize = 25;

/// What the front end can be asked to do.
#[derive(Debug, PartialEq, Eq)]
pub enum Command {
    /// Fuzz the target with the engine, on a corpus of so many seeds.
    Fuzz { target: String, engine: Fuzzer, seeds: usize },
    /// List the registered targets.
    ListTargets,
    /// List the engines.
    ListEngines,
    /// Write a corpus of so many seeds for the target and the engine.
    GenCorpus { target: String, seeds: usize, engine: Fuzzer },
}

/// What a command sets in motion.
pub enum Job {
    /// A run for the driver to carry out.
    Run(Session),
    /// The names of the targets, to be shown.
    Targets(Vec<&'static str>),
    /// The engines, to be shown.
    Engines(Vec<Fuzzer>),
}

/// The engines in the order in which they are shown.
pub open spec fn shown_engines() -> Seq<Fuzzer> {
    seq![Fuzzer::Afl, Fuzzer::Libfuzzer, Fuzzer::Honggfuzz]
}

/// Whether `job` is what `command` sets in motion on `host`.
pub open spec fn answers(job: Job, command: Command, host: HostView) -> bool {
    match command {
        Command::Fuzz { target, engine, seeds } => job matches Job::Run(session)
            && session@.starts(Goal::Fuzz, engine, engine, target@, host, seeds as nat)
            && session@.wf(),
        Command::GenCorpus { target, seeds, engine } => job matches Job::Run(session)
            && session@.starts(Goal::Corpus, engine, engine, target@, host, seeds as nat)
            && session@.wf(),
        Command::ListTargets => job matches Job::Targets(names) && names@.len()
            == target_names().len() && forall|i: int|
            0 <= i < names@.len() ==> (#[trigger] names@[i])@ == target_names()[i],
        Command::ListEngines => job matches Job::Engines(engines) && engines@ == shown_engines(),
    }
}

/// The target that a command names, if it names one.
pub open spec fn named_target(command: Command) -> Option<Seq<char>> {
    match command {
        Command::Fuzz { target, .. } => Some(target@),
        Command::GenCorpus { target, .. } => Some(target@),
        _ => None,
    }
}

/// Binds a command to what it sets in motion. The target is checked first
/// and once: a command that names an unregistered target is refused before
/// anything is planned, and every other command is answered.
pub fn run(command: Command, host: Host) -> (job: core::result::Result<Job, RunError>)
    ensures
        match job {
            Ok(job) => answers(job, command, host@) && (named_target(command) matches Some(target)
                ==> is_target(target)),
            Err(e) => named_target(command) matches Some(target) && !is_target(target) && e@
                == (RunErrorView::UnknownTarget { target }),
        },
{
    match command {
        Command::Fuzz { target, engine, seeds } => {
            match check_target(target.as_str()) {
                Ok(_) => {},
                Err(e) => {
                    return Err(e);
                },
            }
            let session = match engine {
                Fuzzer::Afl => run_afl(target.as_str(), engine, seeds, host),
                Fuzzer::Honggfuzz => run_honggfuzz(target.as_str(), engine, seeds, host),
                Fuzzer::Libfuzzer => run_libfuzzer(target.as_str(), engine, seeds, host),
            };
            Ok(Job::Run(session))
        },
        Command::GenCorpus { target, seeds, engine } => {
            match check_target(target.as_str()) {
                Ok(_) => {},
                Err(e) => {
                    return Err(e);
                },
            }
            Ok(Job::Run(write_corpus(target.as_str(), engine, seeds, host)))
        },
        Command::ListTargets => Ok(Job::Targets(list_targets())),
        Command::ListEngines => {
            let mut engines: Vec<Fuzzer> = Vec::new();
            engines.push(Fuzzer::Afl);
            engines.push(Fuzzer::Libfuzzer);
            engines.push(Fuzzer::Honggfuzz);
            assert(engines@ =~= shown_engines());
            Ok(Job::Engines(engines))
        },
    }
}

} // verus!
