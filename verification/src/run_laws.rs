//! What holds of every run: the order of its stages, what each stage asks
//! of the driver, and what a failure rules out.

use crate::corpus::spec_corpus_dir;
use crate::engines::Fuzzer;
use crate::errors::RunErrorView;
use crate::harness::spec_harness_source;
use crate::runner::{
    spec_artifact_dir, spec_hint, spec_platform, ActionView, EventView, Exit, Goal, SessionView,
    Stage,
};
use crate::text::spec_join;
use vstd::prelude::*;
use vstd::utf8::encode_utf8;

verus! {

/// The place of a stage in the order of a run.
pub open spec fn rank(stage: Stage) -> nat {
    match stage {
        Stage::Idle => 0,
        Stage::ReadingTemplate => 1,
        Stage::WritingHarness => 2,
        Stage::CreatingArtifactDir => 3,
        Stage::CreatingCorpusDir => 4,
        Stage::WritingSeeds => 5,
        Stage::PreChecking => 6,
        Stage::Building => 7,
        Stage::Fuzzing => 8,
        Stage::Completed => 9,
        Stage::Failed => 10,
    }
}

/// Whether a run at `stage` is over.
pub open spec fn is_over(stage: Stage) -> bool {
    stage == Stage::Completed || stage == Stage::Failed
}

/// Whether `action` is what a run that has just come to `state` asks for:
/// every stage has one action of its own.
pub open spec fn asks_for(state: SessionView, action: ActionView) -> bool {
    match state.stage {
        Stage::Idle => false,
        Stage::ReadingTemplate => action == (ActionView::ReadFile { path: state.template_path() }),
        Stage::WritingHarness => action matches ActionView::WriteFile { path, .. } && path
            == state.harness_path(),
        Stage::CreatingArtifactDir => action == (ActionView::CreateDir {
            path: state.artifact_dir(),
        }),
        Stage::CreatingCorpusDir => action == (ActionView::CreateDir { path: state.corpus_dir() }),
        Stage::WritingSeeds => action == (ActionView::WriteFile {
            path: state.seed_path(),
            content: state.seeds->0[state.written as int].content,
        }),
        Stage::PreChecking => state.pre_check() matches Some(check) && action
            == (ActionView::Execute { command: check }),
        Stage::Building => action == (ActionView::Execute { command: state.build() }),
        Stage::Fuzzing => action matches ActionView::Execute { command } && !command.quiet,
        Stage::Completed => action == (ActionView::Finish { outcome: Ok(()) }),
        Stage::Failed => action matches ActionView::Finish { outcome: Err(_) },
    }
}

/// The states and actions that a run goes through when its driver reports
/// `events`, one after the other.
pub open spec fn drive(state: SessionView, events: Seq<EventView>) -> (SessionView, Seq<ActionView>)
    decreases events.len(),
{
    if events.len() == 0 {
        (state, Seq::empty())
    } else {
        let (next, action) = state.step(events[0]);
        let (last, actions) = drive(next, events.drop_first());
        (last, seq![action] + actions)
    }
}

/// A step changes nothing of a run but its stage and the number of seeds
/// written, and it keeps the state sound.
pub proof fn lemma_step_keeps_the_run(state: SessionView, event: EventView)
    requires
        state.wf(),
    ensures
        ({
            let next = state.step(event).0;
            &&& next.wf()
            &&& next == SessionView { stage: next.stage, written: next.written, ..state }
            &&& state.written <= next.written <= state.written + 1
        }),
{
}

/// A run only moves forward. Every step takes it to a later stage, but for
/// two cases: while seeds are written the stage stays and the count of
/// written seeds goes up by one, and a run that is over stays as it is.
/// So the harness comes before the directories, the directories before the
/// seeds, the seeds before the check for the tool, the check before the
/// build, and the build before the engine.
pub proof fn lemma_step_moves_forward(state: SessionView, event: EventView)
    requires
        state.wf(),
    ensures
        ({
            let next = state.step(event).0;
            ||| rank(state.stage) < rank(next.stage)
            ||| state.stage == Stage::WritingSeeds && next.stage == Stage::WritingSeeds
                && next.written == state.written + 1
            ||| is_over(state.stage) && next == state
        }),
{
}

/// Every step of a run that is not over asks for the one action of the
/// stage it leads to.
pub proof fn lemma_step_asks_for_its_stage(state: SessionView, event: EventView)
    requires
        state.wf(),
        !is_over(state.stage),
    ensures
        asks_for(state.step(event).0, state.step(event).1),
{
}

/// A run that is over stays over: whatever is reported to it, it does not
/// change and asks for nothing.
pub proof fn lemma_over_is_over(state: SessionView, event: EventView)
    requires
        is_over(state.stage),
    ensures
        state.step(event) == (state, ActionView::Halt),
{
}

/// Whatever is reported to a run that is over, and however often, it asks
/// for nothing: no file is written and no process started.
pub proof fn lemma_nothing_follows_the_end(state: SessionView, events: Seq<EventView>)
    requires
        is_over(state.stage),
    ensures
        drive(state, events).0 == state,
        drive(state, events).1.len() == events.len(),
        forall|i: int| 0 <= i < events.len() ==> drive(state, events).1[i] == ActionView::Halt,
    decreases events.len(),
{
    if events.len() > 0 {
        lemma_over_is_over(state, events[0]);
        lemma_nothing_follows_the_end(state, events.drop_first());
        let rest = drive(state, events.drop_first()).1;
        assert forall|i: int| 0 <= i < events.len() implies drive(state, events).1[i]
            == ActionView::Halt by {
            if i > 0 {
                assert(drive(state, events).1[i] == rest[i - 1]);
            }
        }
    }
}

/// Where the check for the engine's tool fails, the run ends there: it
/// reports the failure with the command that installs the tool, and
/// whatever is reported afterwards, nothing is built and no engine started.
pub proof fn lemma_failed_check_ends_the_run(
    state: SessionView,
    exit: Exit,
    later: Seq<EventView>,
)
    requires
        state.stage == Stage::PreChecking,
        !exit.success,
    ensures
        ({
            let (failed, report) = state.step(EventView::Exited(exit));
            &&& failed.stage == Stage::Failed
            &&& report == (ActionView::Finish {
                outcome: Err(RunErrorView::PreCheckFailed { hint: spec_hint(state.protocol) }),
            })
            &&& forall|i: int| 0 <= i < later.len() ==> drive(failed, later).1[i] == ActionView::Halt
        }),
{
    let failed = state.step(EventView::Exited(exit)).0;
    lemma_nothing_follows_the_end(failed, later);
}

/// A process that is not the check itself is started only on the report
/// that a process before it succeeded, where the engine has a check: the
/// build and the engine wait for the check, and the engine of the
/// instrumentation-based kind for the build.
pub proof fn lemma_engine_waits_for_the_check(state: SessionView, event: EventView)
    requires
        state.wf(),
        state.pre_check() is Some,
        state.step(event).1 matches ActionView::Execute { command } && !command.quiet,
    ensures
        state.stage == Stage::PreChecking || state.stage == Stage::Building,
        event matches EventView::Exited(exit) && exit.success,
{
}

/// Nothing is tried twice: while a run is not over, the report that its
/// action failed ends it with an error.
pub proof fn lemma_failure_ends_the_run(state: SessionView)
    requires
        state.wf(),
        !is_over(state.stage),
    ensures
        state.step(EventView::Failed).0.stage == Stage::Failed,
        state.step(EventView::Failed).1 matches ActionView::Finish { outcome: Err(_) },
{
}

/// The events that report `n` successes in a row.
pub open spec fn successes(n: nat) -> Seq<EventView> {
    Seq::new(n, |i: int| EventView::Done)
}

/// While the writes succeed, every seed of the corpus is written, each once
/// and in order: from the state in which the corpus directory is being
/// made, as many successes as there are seeds lead to a state in which all
/// are written but the last, which is under way, and the actions asked for
/// are the writes of the seeds.
pub proof fn lemma_every_seed_is_written(state: SessionView, k: nat)
    requires
        state.wf(),
        state.stage == Stage::WritingSeeds,
        state.seeds is Some,
        state.written + k < state.seeds->0.len(),
    ensures
        ({
            let (last, actions) = drive(state, successes(k));
            &&& last == SessionView { written: state.written + k, ..state }
            &&& actions.len() == k
            &&& forall|i: int|
                0 <= i < k ==> #[trigger] actions[i] == (ActionView::WriteFile {
                    path: (SessionView { written: (state.written + i + 1) as nat, ..state }).seed_path(),
                    content: state.seeds->0[state.written + i + 1].content,
                })
        }),
    decreases k,
{
    if k > 0 {
        let next = state.step(EventView::Done).0;
        assert(successes(k).drop_first() =~= successes((k - 1) as nat));
        lemma_every_seed_is_written(next, (k - 1) as nat);
        let (last, actions) = drive(state, successes(k));
        let rest = drive(next, successes((k - 1) as nat)).1;
        assert forall|i: int| 0 <= i < k implies #[trigger] actions[i] == (ActionView::WriteFile {
            path: (SessionView { written: (state.written + i + 1) as nat, ..state }).seed_path(),
            content: state.seeds->0[state.written + i + 1].content,
        }) by {
            if i > 0 {
                assert(actions[i] == rest[i - 1]);
                assert(next.written + (i - 1) + 1 == state.written + i + 1);
            }
        }
    } else {
        assert(state == SessionView { written: state.written + 0, ..state });
    }
}

/// Reporting one list of events after another is reporting them all in a
/// row.
pub proof fn lemma_drive_in_two(state: SessionView, first: Seq<EventView>, second: Seq<EventView>)
    ensures
        ({
            let (middle, before) = drive(state, first);
            let (last, after) = drive(middle, second);
            drive(state, first + second) == (last, before + after)
        }),
    decreases first.len(),
{
    if first.len() == 0 {
        assert(first + second =~= second);
        assert(Seq::<ActionView>::empty() + drive(state, second).1 =~= drive(state, second).1);
    } else {
        let next = state.step(first[0]).0;
        let action = state.step(first[0]).1;
        assert((first + second).drop_first() =~= first.drop_first() + second);
        assert((first + second)[0] == first[0]);
        lemma_drive_in_two(next, first.drop_first(), second);
        let (middle, before) = drive(next, first.drop_first());
        let (last, after) = drive(middle, second);
        assert(seq![action] + (before + after) =~= (seq![action] + before) + after);
    }
}

/// One report gives one step.
pub proof fn lemma_drive_once(state: SessionView, event: EventView)
    ensures
        drive(state, seq![event]) == (state.step(event).0, seq![state.step(event).1]),
{
    let one = seq![event];
    assert(one.drop_first() =~= Seq::<EventView>::empty());
    assert(one[0] == event);
    let next = state.step(event).0;
    assert(drive(next, one.drop_first()) == (next, Seq::<ActionView>::empty()));
    assert(seq![state.step(event).1] + Seq::<ActionView>::empty() =~= seq![state.step(event).1]);
}

/// While the writes succeed, a corpus is written in full: once the corpus
/// directory is there, exactly one write is asked for each seed file of the
/// plan, in the order of the plan, and what is asked for after the last
/// write is no write any more.
pub proof fn lemma_corpus_is_written_in_full(state: SessionView)
    requires
        state.wf(),
        state.stage == Stage::CreatingCorpusDir,
        state.seeds is Some,
        state.written == 0,
    ensures
        ({
            let count = state.seeds->0.len();
            let (last, actions) = drive(state, successes(count + 1));
            let done = SessionView { written: count, ..state };
            &&& actions.len() == count + 1
            &&& forall|i: int|
                0 <= i < count ==> #[trigger] actions[i] == (ActionView::WriteFile {
                    path: (SessionView { written: i as nat, ..state }).seed_path(),
                    content: state.seeds->0[i].content,
                })
            &&& (last, actions[count as int]) == done.after_corpus()
            &&& !(actions[count as int] is WriteFile)
        }),
{
    let count = state.seeds->0.len();
    let one = seq![EventView::Done];
    lemma_drive_once(state, EventView::Done);
    if count == 0 {
        assert(successes(1) =~= one);
        assert(state == SessionView { written: 0, ..state });
    } else {
        let first = state.step(EventView::Done).0;
        let k = (count - 1) as nat;
        assert(successes(count + 1) =~= one + (successes(k) + one));
        lemma_drive_in_two(state, one, successes(k) + one);
        lemma_drive_in_two(first, successes(k), one);
        lemma_every_seed_is_written(first, k);
        let (middle, writes) = drive(first, successes(k));
        let (last, actions) = drive(state, successes(count + 1));
        let end = drive(middle, one).1;
        lemma_drive_once(middle, EventView::Done);
        assert(actions =~= seq![state.step(EventView::Done).1] + (writes + end));
        assert forall|i: int| 0 <= i < count implies #[trigger] actions[i]
            == (ActionView::WriteFile {
            path: (SessionView { written: i as nat, ..state }).seed_path(),
            content: state.seeds->0[i].content,
        }) by {
            if i > 0 {
                assert(actions[i] == writes[i - 1]);
                assert(first.written + (i - 1) + 1 == i);
            }
        }
        assert(actions[count as int] == end[0]);
    }
}

/// A run that only writes a corpus neither reads a template nor starts a
/// process: all it asks for is the corpus directory and the seed files.
pub proof fn lemma_corpus_run_starts_nothing(state: SessionView, event: EventView)
    requires
        state.wf(),
        state.goal == Goal::Corpus,
        state.stage == Stage::Idle || state.stage == Stage::CreatingCorpusDir || state.stage
            == Stage::WritingSeeds,
    ensures
        ({
            let (next, action) = state.step(event);
            &&& next.stage == Stage::CreatingCorpusDir || next.stage == Stage::WritingSeeds
                || is_over(next.stage)
            &&& !(action is Execute) && !(action is ReadFile)
        }),
{
}

/// Seeds and findings never share a directory: under one engine directory
/// the corpus directory of a target differs from the artifact directory of
/// every target.
pub proof fn lemma_corpus_and_artifact_dirs_differ(
    base: Seq<char>,
    one: Seq<char>,
    other: Seq<char>,
)
    ensures
        spec_corpus_dir(base, one) != spec_artifact_dir(base, other),
{
    reveal_strlit("corpus-");
    reveal_strlit("artifact-");
    let front = if base.len() > 0 && base.last() != '/' {
        base + seq!['/']
    } else {
        base
    };
    let corpus = "corpus-"@ + one;
    let artifact = "artifact-"@ + other;
    assert(corpus[0] == 'c');
    assert(artifact[0] == 'a');
    assert(spec_corpus_dir(base, one) =~= front + corpus);
    assert(spec_artifact_dir(base, other) =~= front + artifact);
    assert((front + corpus)[front.len() as int] == 'c');
    assert((front + artifact)[front.len() as int] == 'a');
}

/// The report that a process ended well.
pub open spec fn went_well() -> EventView {
    EventView::Exited(Exit { success: true, code: Some(0) })
}

/// The reports of a fuzzing run in which everything goes well: the start,
/// the template, the harness, the two directories, every seed, and then as
/// many processes as the engine takes, each ending well.
pub open spec fn smooth_fuzz_run(state: SessionView, template: Seq<u8>) -> Seq<EventView> {
    seq![EventView::Begin, EventView::Loaded(template), EventView::Done, EventView::Done]
        + successes(state.seeds->0.len() + 1) + match state.protocol {
        Fuzzer::Afl => seq![went_well(), went_well(), went_well()],
        Fuzzer::Honggfuzz => seq![went_well(), went_well()],
        Fuzzer::Libfuzzer => seq![went_well()],
    }
}

/// What a fuzzing run asks for once its corpus is written, when every
/// process ends well: the check where the engine has one, the build where
/// the engine has one, the engine, and the end.
pub open spec fn smooth_ending(state: SessionView) -> Seq<ActionView> {
    match state.protocol {
        Fuzzer::Afl => seq![
            ActionView::Execute { command: state.pre_check()->0 },
            ActionView::Execute { command: state.build() },
            ActionView::Execute { command: state.afl_fuzz() },
            ActionView::Finish { outcome: Ok(()) },
        ],
        Fuzzer::Honggfuzz => seq![
            ActionView::Execute { command: state.pre_check()->0 },
            ActionView::Execute { command: state.hfuzz_run() },
            ActionView::Finish { outcome: Ok(()) },
        ],
        Fuzzer::Libfuzzer => seq![
            ActionView::Execute {
                command: state.libfuzzer_run(spec_platform(state.host.os)->0),
            },
            ActionView::Finish { outcome: Ok(()) },
        ],
    }
}

/// The seed writes of a run, in the order of its plan.
pub open spec fn seed_writes(state: SessionView) -> Seq<ActionView> {
    Seq::new(
        state.seeds->0.len(),
        |i: int|
            ActionView::WriteFile {
                path: (SessionView { written: i as nat, ..state }).seed_path(),
                content: state.seeds->0[i].content,
            },
    )
}

/// The order of a fuzzing run is fixed. When everything goes well on a host
/// that the engine supports, the run asks for exactly this, in this order:
/// the template, the harness, the artifact directory, the corpus directory,
/// every seed file, the check for the engine's tool, the build, the engine;
/// and then it ends well.
pub proof fn lemma_smooth_fuzz_run(state: SessionView, template: Seq<u8>)
    requires
        state.wf(),
        state.goal == Goal::Fuzz,
        state.stage == Stage::Idle,
        state.seeds is Some,
        state.written == 0,
        state.protocol == Fuzzer::Libfuzzer ==> spec_platform(state.host.os) is Some,
    ensures
        ({
            let (last, actions) = drive(state, smooth_fuzz_run(state, template));
            &&& last.stage == Stage::Completed
            &&& actions == seq![
                ActionView::ReadFile { path: state.template_path() },
                ActionView::WriteFile {
                    path: state.harness_path(),
                    content: spec_harness_source(template, encode_utf8(state.target)),
                },
                ActionView::CreateDir { path: state.artifact_dir() },
                ActionView::CreateDir { path: state.corpus_dir() },
            ] + seed_writes(state) + smooth_ending(state)
        }),
{
    let count = state.seeds->0.len();
    let head = seq![
        EventView::Begin,
        EventView::Loaded(template),
        EventView::Done,
        EventView::Done,
    ];
    let tail = match state.protocol {
        Fuzzer::Afl => seq![went_well(), went_well(), went_well()],
        Fuzzer::Honggfuzz => seq![went_well(), went_well()],
        Fuzzer::Libfuzzer => seq![went_well()],
    };
    // The first four steps.
    let s1 = state.step(EventView::Begin).0;
    let s2 = s1.step(EventView::Loaded(template)).0;
    let s3 = s2.step(EventView::Done).0;
    let s4 = s3.step(EventView::Done).0;
    let opening = seq![
        state.step(EventView::Begin).1,
        s1.step(EventView::Loaded(template)).1,
        s2.step(EventView::Done).1,
        s3.step(EventView::Done).1,
    ];
    assert(drive(state, head) == (s4, opening)) by {
        let e0 = seq![EventView::Begin];
        let e1 = seq![EventView::Loaded(template)];
        let e2 = seq![EventView::Done];
        assert(head =~= e0 + (e1 + (e2 + e2)));
        lemma_drive_once(state, EventView::Begin);
        lemma_drive_once(s1, EventView::Loaded(template));
        lemma_drive_once(s2, EventView::Done);
        lemma_drive_once(s3, EventView::Done);
        lemma_drive_in_two(s2, e2, e2);
        lemma_drive_in_two(s1, e1, e2 + e2);
        lemma_drive_in_two(state, e0, e1 + (e2 + e2));
        assert(seq![state.step(EventView::Begin).1] + (seq![
            s1.step(EventView::Loaded(template)).1,
        ] + (seq![s2.step(EventView::Done).1] + seq![s3.step(EventView::Done).1])) =~= opening);
    }
    // The corpus.
    lemma_corpus_is_written_in_full(s4);
    let (s5, middle) = drive(s4, successes(count + 1));
    let writes = middle.subrange(0, count as int);
    assert(writes =~= seed_writes(state)) by {
        assert forall|i: int| 0 <= i < count implies writes[i] == seed_writes(state)[i] by {
            assert(writes[i] == middle[i]);
        }
    }
    let done = SessionView { written: count, ..s4 };
    assert((s5, middle[count as int]) == done.after_corpus());
    assert(middle =~= writes + seq![middle[count as int]]);
    // The processes.
    let closing = drive(s5, tail).1;
    let ending = smooth_ending(state);
    assert(seq![middle[count as int]] + closing =~= ending && drive(s5, tail).0.stage
        == Stage::Completed) by {
        let ok = seq![went_well()];
        match state.protocol {
            Fuzzer::Afl => {
                let t1 = s5.step(went_well()).0;
                let t2 = t1.step(went_well()).0;
                assert(tail =~= ok + (ok + ok));
                lemma_drive_once(s5, went_well());
                lemma_drive_once(t1, went_well());
                lemma_drive_once(t2, went_well());
                lemma_drive_in_two(t1, ok, ok);
                lemma_drive_in_two(s5, ok, ok + ok);
            },
            Fuzzer::Honggfuzz => {
                let t1 = s5.step(went_well()).0;
                assert(tail =~= ok + ok);
                lemma_drive_once(s5, went_well());
                lemma_drive_once(t1, went_well());
                lemma_drive_in_two(s5, ok, ok);
            },
            Fuzzer::Libfuzzer => {
                lemma_drive_once(s5, went_well());
            },
        }
    }
    // All of it.
    let events = smooth_fuzz_run(state, template);
    assert(events =~= head + (successes(count + 1) + tail));
    lemma_drive_in_two(s4, successes(count + 1), tail);
    lemma_drive_in_two(state, head, successes(count + 1) + tail);
    let actions = drive(state, events).1;
    assert(actions =~= opening + (middle + closing));
    assert(actions =~= opening + seed_writes(state) + ending);
}

/// What is on disk, as far as a run can tell: the directories that are
/// there and the files with what they hold.
pub struct Disk {
    pub dirs: Set<Seq<char>>,
    pub files: Map<Seq<char>, Seq<u8>>,
}

/// The disk once `action` has been carried out: a directory that is made is
/// there, a file that is written holds what was written, and whatever else
/// a run asks for leaves the disk as it is.
pub open spec fn carried_out(disk: Disk, action: ActionView) -> Disk {
    match action {
        ActionView::CreateDir { path } => Disk { dirs: disk.dirs.insert(path), ..disk },
        ActionView::WriteFile { path, content } => Disk {
            files: disk.files.insert(path, content),
            ..disk
        },
        _ => disk,
    }
}

/// The disk once `actions` have been carried out, one after the other.
pub open spec fn all_carried_out(disk: Disk, actions: Seq<ActionView>) -> Disk
    decreases actions.len(),
{
    if actions.len() == 0 {
        disk
    } else {
        carried_out(all_carried_out(disk, actions.drop_last()), actions.last())
    }
}

/// Doing the same thing again changes nothing: a directory that is there
/// is made without harm, and a file written twice with the same content is
/// the file written once.
pub proof fn lemma_again_is_harmless(disk: Disk, action: ActionView)
    ensures
        carried_out(carried_out(disk, action), action) == carried_out(disk, action),
{
    match action {
        ActionView::CreateDir { path } => {
            assert(disk.dirs.insert(path).insert(path) =~= disk.dirs.insert(path));
        },
        ActionView::WriteFile { path, content } => {
            assert(disk.files.insert(path, content).insert(path, content) =~= disk.files.insert(
                path,
                content,
            ));
        },
        _ => {},
    }
}

/// Whether every action of `actions` is the write of a file right inside
/// the directory `dir`.
pub open spec fn writes_into(actions: Seq<ActionView>, dir: Seq<char>) -> bool {
    forall|i: int|
        0 <= i < actions.len() ==> (#[trigger] actions[i] matches ActionView::WriteFile {
            path,
            ..
        } && exists|name: Seq<char>| path == spec_join(dir, name))
}

/// Writing files makes no directory.
pub proof fn lemma_writes_make_no_directory(disk: Disk, actions: Seq<ActionView>, dir: Seq<char>)
    requires
        writes_into(actions, dir),
    ensures
        all_carried_out(disk, actions).dirs == disk.dirs,
    decreases actions.len(),
{
    if actions.len() > 0 {
        let before = actions.drop_last();
        assert forall|i: int| 0 <= i < before.len() implies (#[trigger] before[i]
            matches ActionView::WriteFile { path, .. } && exists|name: Seq<char>|
            path == spec_join(dir, name)) by {
            assert(before[i] == actions[i]);
        }
        lemma_writes_make_no_directory(disk, before, dir);
        assert(actions.last() == actions[actions.len() - 1]);
    }
}

/// The reports of a corpus run of `count` seeds in which everything goes
/// well: the start, the directory, and every seed.
pub open spec fn smooth_corpus_run(count: nat) -> Seq<EventView> {
    seq![EventView::Begin] + successes(count + 1)
}

/// Whether `state` is a corpus run about to start.
pub open spec fn is_fresh_corpus_run(state: SessionView) -> bool {
    &&& state.wf()
    &&& state.goal == Goal::Corpus
    &&& state.stage == Stage::Idle
    &&& state.seeds is Some
    &&& state.written == 0
}

/// What a corpus run leaves on disk when every action succeeds: the run
/// ends well, the corpus directory is there and no other directory is made,
/// whether the corpus directory was there before or not. A run without
/// seeds leaves every file as it was.
pub proof fn lemma_corpus_run_makes_one_directory(state: SessionView, disk: Disk)
    requires
        is_fresh_corpus_run(state),
    ensures
        ({
            let count = state.seeds->0.len();
            let (last, actions) = drive(state, smooth_corpus_run(count));
            let after = all_carried_out(disk, actions);
            &&& last.stage == Stage::Completed
            &&& actions.len() == count + 2
            &&& actions.last() == (ActionView::Finish { outcome: Ok(()) })
            &&& after.dirs == disk.dirs.insert(state.corpus_dir())
            &&& count == 0 ==> after.files == disk.files
        }),
{
    let count = state.seeds->0.len();
    let begin = seq![EventView::Begin];
    let first = state.step(EventView::Begin).0;
    let make = state.step(EventView::Begin).1;
    lemma_drive_once(state, EventView::Begin);
    lemma_drive_in_two(state, begin, successes(count + 1));
    lemma_corpus_is_written_in_full(first);
    let rest = drive(first, successes(count + 1)).1;
    let actions = drive(state, smooth_corpus_run(count)).1;
    assert(actions =~= seq![make] + rest);
    let writes = rest.subrange(0, count as int);
    let end = rest[count as int];
    assert(rest =~= writes + seq![end]);
    assert(actions =~= seq![make] + writes + seq![end]);
    assert(end == (ActionView::Finish { outcome: Ok(()) }));
    assert(writes_into(writes, state.corpus_dir())) by {
        assert forall|i: int| 0 <= i < writes.len() implies (#[trigger] writes[i]
            matches ActionView::WriteFile { path, .. } && exists|name: Seq<char>|
            path == spec_join(state.corpus_dir(), name)) by {
            assert(writes[i] == rest[i]);
            let name = first.seeds->0[i].name;
            assert((SessionView { written: i as nat, ..first }).seed_path() == spec_join(
                state.corpus_dir(),
                name,
            ));
        }
    }
    lemma_run_of_writes(disk, make, writes, end, state.corpus_dir());
    if count == 0 {
        assert(writes =~= Seq::<ActionView>::empty());
    }
}

/// Building a corpus is idempotent in the directories it makes: a second
/// run for the same target and engine, whatever its seeds, ends well too
/// and leaves the directories as the first one left them.
pub proof fn lemma_second_corpus_run_makes_no_directory(
    first: SessionView,
    second: SessionView,
    disk: Disk,
)
    requires
        is_fresh_corpus_run(first),
        is_fresh_corpus_run(second),
        first.fuzzer == second.fuzzer,
        first.target == second.target,
        first.host.workspace_root == second.host.workspace_root,
    ensures
        ({
            let once = all_carried_out(
                disk,
                drive(first, smooth_corpus_run(first.seeds->0.len())).1,
            );
            let (last, actions) = drive(second, smooth_corpus_run(second.seeds->0.len()));
            let twice = all_carried_out(once, actions);
            &&& last.stage == Stage::Completed
            &&& twice.dirs == once.dirs
        }),
{
    lemma_corpus_run_makes_one_directory(first, disk);
    let once = all_carried_out(disk, drive(first, smooth_corpus_run(first.seeds->0.len())).1);
    lemma_corpus_run_makes_one_directory(second, once);
    let dir = first.corpus_dir();
    assert(once.dirs.insert(dir) =~= once.dirs);
}

/// The disk after a directory is made, files are written into it, and the
/// run is ended.
proof fn lemma_run_of_writes(
    disk: Disk,
    make: ActionView,
    writes: Seq<ActionView>,
    end: ActionView,
    dir: Seq<char>,
)
    requires
        make == (ActionView::CreateDir { path: dir }),
        writes_into(writes, dir),
        end is Finish,
    ensures
        all_carried_out(disk, seq![make] + writes + seq![end]).dirs == disk.dirs.insert(dir),
        writes.len() == 0 ==> all_carried_out(disk, seq![make] + writes + seq![end]).files
            == disk.files,
{
    let all = seq![make] + writes + seq![end];
    let made = carried_out(disk, make);
    assert(all.drop_last() =~= seq![make] + writes);
    assert(all.last() == end);
    lemma_carried_out_after(disk, make, writes);
    lemma_writes_make_no_directory(made, writes, dir);
    if writes.len() == 0 {
        assert(writes =~= Seq::<ActionView>::empty());
    }
}

/// Carrying out one action and then others is carrying out all of them.
proof fn lemma_carried_out_after(disk: Disk, first: ActionView, then: Seq<ActionView>)
    ensures
        all_carried_out(disk, seq![first] + then) == all_carried_out(
            carried_out(disk, first),
            then,
        ),
    decreases then.len(),
{
    let all = seq![first] + then;
    if then.len() == 0 {
        assert(all.drop_last() =~= Seq::<ActionView>::empty());
        assert(all.last() == first);
        assert(all_carried_out(disk, all.drop_last()) == disk);
        assert(all_carried_out(disk, all) == carried_out(disk, first));
    } else {
        assert(all.drop_last() =~= seq![first] + then.drop_last());
        assert(all.last() == then.last());
        lemma_carried_out_after(disk, first, then.drop_last());
        assert(all_carried_out(disk, all) == carried_out(
            all_carried_out(disk, all.drop_last()),
            all.last(),
        ));
    }
}

} // verus!
