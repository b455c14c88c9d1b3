//! The per-source watch worker as a state machine: the baseline build, the
//! polling of the source's modification time, and the rebuild on change. The
//! driver that owns the worker performs the actions it is told — run the
//! build command, record an outcome, sleep, stop — and feeds back what it
//! observed; every decision lives here.

use crate::state::{spec_get, TexState};
use vstd::prelude::*;

verus! {

/// Where one source's watch worker stands.
#[derive(Clone, Copy, Debug, PartialEq, Eq, Structural)]
pub enum WorkerPhase {
    /// The baseline build is running; no outcome is recorded yet.
    Initializing,
    /// The baseline outcome is recorded; the first modification time has not
    /// been read yet.
    Baseline,
    /// Polling the source, with the last observed modification time.
    Watching { last_mtime: u64 },
    /// A change was observed at the given modification time and its rebuild
    /// is running.
    Rebuilding { observed_mtime: u64 },
    /// The worker ended on an unrecoverable error.
    Stopped,
}

/// What the worker's driver observed since the last step.
#[derive(Clone, Copy, Debug, PartialEq, Eq, Structural)]
pub enum WorkerEvent {
    /// The build command ran to completion, successfully or not.
    BuildFinished { success: bool },
    /// The build command could not be run at all.
    BuildFatal,
    /// The source's modification time was read.
    Polled { mtime: u64 },
    /// The source's metadata could not be read.
    PollFailed,
}

/// What the worker's driver must do next.
#[derive(Clone, Copy, Debug, PartialEq, Eq, Structural)]
pub enum WorkerAction {
    /// Run the build command and report how it ended.
    RunBuild,
    /// Write this outcome into the build state store, then poll.
    Record { outcome: TexState },
    /// Sleep for one polling interval, then poll.
    Sleep,
    /// End this worker; other sources are unaffected.
    Stop,
}

/// The worker's transition relation. The baseline build's outcome is
/// recorded with `update` false; a rebuild's outcome is recorded with
/// `update` true whether or not the rebuild succeeded; `error` always
/// mirrors the latest attempt alone. An unchanged modification time only
/// sleeps. A fatal build error, a metadata failure, or an event the phase
/// does not expect stops the worker.
pub open spec fn spec_worker_step(phase: WorkerPhase, event: WorkerEvent) -> (
    WorkerPhase,
    WorkerAction,
) {
    match (phase, event) {
        (WorkerPhase::Initializing, WorkerEvent::BuildFinished { success }) => (
            WorkerPhase::Baseline,
            WorkerAction::Record { outcome: TexState { update: false, error: !success } },
        ),
        (WorkerPhase::Baseline, WorkerEvent::Polled { mtime }) => (
            WorkerPhase::Watching { last_mtime: mtime },
            WorkerAction::Sleep,
        ),
        (WorkerPhase::Watching { last_mtime }, WorkerEvent::Polled { mtime }) => {
            if mtime == last_mtime {
                (WorkerPhase::Watching { last_mtime }, WorkerAction::Sleep)
            } else {
                (WorkerPhase::Rebuilding { observed_mtime: mtime }, WorkerAction::RunBuild)
            }
        },
        (WorkerPhase::Rebuilding { observed_mtime }, WorkerEvent::BuildFinished { success }) => (
            WorkerPhase::Watching { last_mtime: observed_mtime },
            WorkerAction::Record { outcome: TexState { update: true, error: !success } },
        ),
        _ => (WorkerPhase::Stopped, WorkerAction::Stop),
    }
}

/// A worker starts in the initializing phase by running the baseline build.
pub fn worker_start() -> (r: (WorkerPhase, WorkerAction))
    ensures
        r.0 == WorkerPhase::Initializing,
        r.1 == WorkerAction::RunBuild,
{
    (WorkerPhase::Initializing, WorkerAction::RunBuild)
}

/// Advances one source's worker: from its phase and the event just observed
/// to the next phase and the action to take.
pub fn worker_step(phase: WorkerPhase, event: WorkerEvent) -> (r: (WorkerPhase, WorkerAction))
    ensures
        r == spec_worker_step(phase, event),
{
    match (phase, event) {
        (WorkerPhase::Initializing, WorkerEvent::BuildFinished { success }) => (
            WorkerPhase::Baseline,
            WorkerAction::Record { outcome: TexState { update: false, error: !success } },
        ),
        (WorkerPhase::Baseline, WorkerEvent::Polled { mtime }) => (
            WorkerPhase::Watching { last_mtime: mtime },
            WorkerAction::Sleep,
        ),
        (WorkerPhase::Watching { last_mtime }, WorkerEvent::Polled { mtime }) => {
            if mtime == last_mtime {
                (WorkerPhase::Watching { last_mtime }, WorkerAction::Sleep)
            } else {
                (WorkerPhase::Rebuilding { observed_mtime: mtime }, WorkerAction::RunBuild)
            }
        },
        (WorkerPhase::Rebuilding { observed_mtime }, WorkerEvent::BuildFinished { success }) => (
            WorkerPhase::Watching { last_mtime: observed_mtime },
            WorkerAction::Record { outcome: TexState { update: true, error: !success } },
        ),
        _ => (WorkerPhase::Stopped, WorkerAction::Stop),
    }
}

/// The argument vector for one compiler invocation: the configured command —
/// which must at least name a program — followed by the output-directory
/// flag, the intermediate directory, and the source path.
pub fn build_args(command: &Vec<String>, intermediates_dir: &str, source: &str) -> (r: Vec<String>)
    requires
        command@.len() >= 1,
    ensures
        r.deep_view() == command.deep_view() + seq![
            "--output-directory"@,
            intermediates_dir@,
            source@,
        ],
{
    let n = command.len();
    let mut r: Vec<String> = Vec::new();
    let mut i: usize = 0;
    while i < n
        invariant
            n == command@.len(),
            i <= n,
            r@.len() == i,
            forall|j: int| 0 <= j < i ==> r@[j]@ == command@[j]@,
        decreases n - i,
    {
        r.push(command[i].clone());
        i += 1;
    }
    r.push(String::from_str("--output-directory"));
    r.push(String::from_str(intermediates_dir));
    r.push(String::from_str(source));
    proof {
        assert(r.deep_view() =~= command.deep_view() + seq![
            "--output-directory"@,
            intermediates_dir@,
            source@,
        ]);
    }
    r
}

/// Whether the invoker publishes the artifact after a build: only when the
/// build succeeded, a public output directory was supplied, and the artifact
/// exists. A missing artifact after a successful build is tolerated — the
/// copy is skipped and the outcome is not an error.
pub fn should_publish_artifact(success: bool, have_output_dir: bool, artifact_exists: bool) -> (r:
    bool)
    ensures
        r == (success && have_output_dir && artifact_exists),
{
    success && have_output_dir && artifact_exists
}

/// After the baseline build of a source completes — success or failure — the
/// recorded outcome, once stored, reads back with `update` false and `error`
/// mirroring the build's exit.
pub proof fn lemma_initial_build_recorded(
    m: Map<Seq<char>, TexState>,
    id: Seq<char>,
    success: bool,
)
    ensures
        ({
            let (phase, action) = spec_worker_step(
                WorkerPhase::Initializing,
                WorkerEvent::BuildFinished { success },
            );
            &&& phase == WorkerPhase::Baseline
            &&& action == WorkerAction::Record {
                outcome: TexState { update: false, error: !success },
            }
            &&& spec_get(m.insert(id, TexState { update: false, error: !success }), id) == Some(
                TexState { update: false, error: !success },
            )
        }),
{
}

/// A detected change always triggers a rebuild, and the rebuild's outcome,
/// once stored, reads back with `update` true whatever the rebuild's exit
/// was, and with `error` reflecting only that latest attempt.
pub proof fn lemma_rebuild_recorded(
    m: Map<Seq<char>, TexState>,
    id: Seq<char>,
    last_mtime: u64,
    mtime: u64,
    success: bool,
)
    requires
        mtime != last_mtime,
    ensures
        ({
            let (phase1, action1) = spec_worker_step(
                WorkerPhase::Watching { last_mtime },
                WorkerEvent::Polled { mtime },
            );
            &&& phase1 == WorkerPhase::Rebuilding { observed_mtime: mtime }
            &&& action1 == WorkerAction::RunBuild
            &&& ({
                let (phase2, action2) = spec_worker_step(
                    phase1,
                    WorkerEvent::BuildFinished { success },
                );
                &&& phase2 == WorkerPhase::Watching { last_mtime: mtime }
                &&& action2 == WorkerAction::Record {
                    outcome: TexState { update: true, error: !success },
                }
                &&& spec_get(m.insert(id, TexState { update: true, error: !success }), id) == Some(
                    TexState { update: true, error: !success },
                )
            })
        }),
{
}

/// An unchanged modification time never rebuilds: the worker only sleeps and
/// keeps its observed time.
pub proof fn lemma_unchanged_source_sleeps(last_mtime: u64)
    ensures
        spec_worker_step(WorkerPhase::Watching { last_mtime }, WorkerEvent::Polled { mtime: last_mtime })
            == (WorkerPhase::Watching { last_mtime }, WorkerAction::Sleep),
{
}

} // verus!
