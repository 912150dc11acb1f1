use vstd::prelude::*;

verus! {

/// Why a run failed.
#[derive(Clone, Copy, Debug, PartialEq, Eq, Structural)]
pub enum FailureKind {
    FetchError,
    UnsupportedEnvironment,
    SpawnError,
    BuildError,
    ExecutionError,
}

/// How a run ended.
#[derive(Clone, Copy, Debug, PartialEq, Eq, Structural)]
pub enum Outcome {
    Succeeded,
    Failed(FailureKind),
}

/// Where a run stands. `Analyzing` and `Done` carry the outcome of the build and
/// execution, which analysis never changes.
#[derive(Clone, Copy, Debug, PartialEq, Eq, Structural)]
pub enum Stage {
    Fetching,
    Preparing,
    Building,
    Executing,
    Analyzing(Outcome),
    Done(Outcome),
}

/// A stage as its marker in the log names it.
#[derive(Clone, Copy, Debug, PartialEq, Eq, Structural)]
pub enum Phase {
    Fetching,
    Preparing,
    Building,
    Executing,
    Analyzing,
}

/// What became of one external command.
#[derive(Clone, Copy, Debug, PartialEq, Eq, Structural)]
pub enum ProcessResult {
    /// The command could not be started at all.
    NotSpawned,
    /// The command ran; `success` is whether its exit status was zero.
    Exited { success: bool },
}

/// What the worker of a run reports back after doing an action.
#[derive(Clone, Copy, Debug, PartialEq, Eq, Structural)]
pub enum Event {
    Fetched(ProcessResult),
    /// Whether a build manifest could be produced.
    Prepared(bool),
    Built(ProcessResult),
    Executed(ProcessResult),
    /// Whether the diagnostic collaborator produced an analysis.
    Analyzed(bool),
}

/// What the worker of a run is to do next.
#[derive(Clone, Copy, Debug, PartialEq, Eq, Structural)]
pub enum Action {
    Fetch,
    Prepare,
    Build,
    Execute,
    Analyze,
    /// The run is over.
    Stop,
    /// The event did not belong to the stage: nothing to do.
    Ignore,
}

/// A line of the run's narrative in its log.
#[derive(Clone, Copy, Debug, PartialEq, Eq, Structural)]
pub enum Note {
    /// The stage marker, written before the stage's work begins.
    Entered(Phase),
    FetchFailed,
    ManifestFailed,
    SpawnFailed,
    BuildFailed,
    BuildFinished,
    ExecutionFailed,
    AnalysisFailed,
    Finished(Outcome),
}

pub open spec fn succeeded(p: ProcessResult) -> bool {
    p == ProcessResult::Exited { success: true }
}

pub open spec fn is_terminal(s: Stage) -> bool {
    s is Done
}

/// The outcome of a build or execution step that did not succeed.
pub open spec fn failure_of(p: ProcessResult, exit_kind: FailureKind) -> Outcome {
    match p {
        ProcessResult::NotSpawned => Outcome::Failed(FailureKind::SpawnError),
        ProcessResult::Exited { .. } => Outcome::Failed(exit_kind),
    }
}

/// The narrative that a run starts with.
pub open spec fn start_notes() -> Seq<Note> {
    seq![Note::Entered(Phase::Fetching)]
}

/// One transition: the next stage, the action that it asks for, and the notes
/// that go to the log before that action's work begins.
pub open spec fn step_spec(s: Stage, e: Event) -> (Stage, Action, Seq<Note>) {
    match (s, e) {
        (Stage::Fetching, Event::Fetched(p)) => if succeeded(p) {
            (Stage::Preparing, Action::Prepare, seq![Note::Entered(Phase::Preparing)])
        } else {
            (
                Stage::Done(Outcome::Failed(FailureKind::FetchError)),
                Action::Stop,
                seq![
                    if p is NotSpawned { Note::SpawnFailed } else { Note::FetchFailed },
                    Note::Finished(Outcome::Failed(FailureKind::FetchError)),
                ],
            )
        },
        (Stage::Preparing, Event::Prepared(ok)) => if ok {
            (Stage::Building, Action::Build, seq![Note::Entered(Phase::Building)])
        } else {
            (
                Stage::Done(Outcome::Failed(FailureKind::UnsupportedEnvironment)),
                Action::Stop,
                seq![
                    Note::ManifestFailed,
                    Note::Finished(Outcome::Failed(FailureKind::UnsupportedEnvironment)),
                ],
            )
        },
        (Stage::Building, Event::Built(p)) => if succeeded(p) {
            (
                Stage::Executing,
                Action::Execute,
                seq![Note::BuildFinished, Note::Entered(Phase::Executing)],
            )
        } else {
            (
                Stage::Analyzing(failure_of(p, FailureKind::BuildError)),
                Action::Analyze,
                seq![
                    if p is NotSpawned { Note::SpawnFailed } else { Note::BuildFailed },
                    Note::Entered(Phase::Analyzing),
                ],
            )
        },
        (Stage::Executing, Event::Executed(p)) => if succeeded(p) {
            (
                Stage::Analyzing(Outcome::Succeeded),
                Action::Analyze,
                seq![Note::Entered(Phase::Analyzing)],
            )
        } else {
            (
                Stage::Analyzing(failure_of(p, FailureKind::ExecutionError)),
                Action::Analyze,
                seq![
                    if p is NotSpawned { Note::SpawnFailed } else { Note::ExecutionFailed },
                    Note::Entered(Phase::Analyzing),
                ],
            )
        },
        (Stage::Analyzing(o), Event::Analyzed(ok)) => if ok {
            (Stage::Done(o), Action::Stop, seq![Note::Finished(o)])
        } else {
            (Stage::Done(o), Action::Stop, seq![Note::AnalysisFailed, Note::Finished(o)])
        },
        _ => (s, Action::Ignore, Seq::empty()),
    }
}

/// The stage and the whole narrative of a run that has seen `events`.
pub open spec fn replay(events: Seq<Event>) -> (Stage, Seq<Note>)
    decreases events.len(),
{
    if events.len() == 0 {
        (Stage::Fetching, start_notes())
    } else {
        let (s, ns) = replay(events.drop_last());
        let (s2, _a, ns2) = step_spec(s, events.last());
        (s2, ns + ns2)
    }
}

/// The result of one transition.
pub struct Transition {
    pub stage: Stage,
    pub action: Action,
    pub notes: Vec<Note>,
}

/// The first stage of every run, with the note that opens its narrative.
pub fn start() -> (r: Transition)
    ensures
        r.stage == Stage::Fetching,
        r.action == Action::Fetch,
        r.notes@ == start_notes(),
{
    let notes = vec![Note::Entered(Phase::Fetching)];
    Transition { stage: Stage::Fetching, action: Action::Fetch, notes }
}

/// Applies one event to a run at stage `s`. Terminal stages are final: every
/// event leaves them as they are.
pub fn step(s: Stage, e: Event) -> (r: Transition)
    ensures
        (r.stage, r.action, r.notes@) == step_spec(s, e),
        is_terminal(s) ==> r.stage == s && r.action == Action::Ignore && r.notes@.len() == 0,
{
    match (s, e) {
        (Stage::Fetching, Event::Fetched(p)) => {
            if p == (ProcessResult::Exited { success: true }) {
                Transition {
                    stage: Stage::Preparing,
                    action: Action::Prepare,
                    notes: vec![Note::Entered(Phase::Preparing)],
                }
            } else {
                let o = Outcome::Failed(FailureKind::FetchError);
                let cause = match p {
                    ProcessResult::NotSpawned => Note::SpawnFailed,
                    ProcessResult::Exited { .. } => Note::FetchFailed,
                };
                Transition {
                    stage: Stage::Done(o),
                    action: Action::Stop,
                    notes: vec![cause, Note::Finished(o)],
                }
            }
        },
        (Stage::Preparing, Event::Prepared(ok)) => {
            if ok {
                Transition {
                    stage: Stage::Building,
                    action: Action::Build,
                    notes: vec![Note::Entered(Phase::Building)],
                }
            } else {
                let o = Outcome::Failed(FailureKind::UnsupportedEnvironment);
                Transition {
                    stage: Stage::Done(o),
                    action: Action::Stop,
                    notes: vec![Note::ManifestFailed, Note::Finished(o)],
                }
            }
        },
        (Stage::Building, Event::Built(p)) => match p {
            ProcessResult::Exited { success: true } => Transition {
                stage: Stage::Executing,
                action: Action::Execute,
                notes: vec![Note::BuildFinished, Note::Entered(Phase::Executing)],
            },
            ProcessResult::Exited { success: false } => Transition {
                stage: Stage::Analyzing(Outcome::Failed(FailureKind::BuildError)),
                action: Action::Analyze,
                notes: vec![Note::BuildFailed, Note::Entered(Phase::Analyzing)],
            },
            ProcessResult::NotSpawned => Transition {
                stage: Stage::Analyzing(Outcome::Failed(FailureKind::SpawnError)),
                action: Action::Analyze,
                notes: vec![Note::SpawnFailed, Note::Entered(Phase::Analyzing)],
            },
        },
        (Stage::Executing, Event::Executed(p)) => match p {
            ProcessResult::Exited { success: true } => Transition {
                stage: Stage::Analyzing(Outcome::Succeeded),
                action: Action::Analyze,
                notes: vec![Note::Entered(Phase::Analyzing)],
            },
            ProcessResult::Exited { success: false } => Transition {
                stage: Stage::Analyzing(Outcome::Failed(FailureKind::ExecutionError)),
                action: Action::Analyze,
                notes: vec![Note::ExecutionFailed, Note::Entered(Phase::Analyzing)],
            },
            ProcessResult::NotSpawned => Transition {
                stage: Stage::Analyzing(Outcome::Failed(FailureKind::SpawnError)),
                action: Action::Analyze,
                notes: vec![Note::SpawnFailed, Note::Entered(Phase::Analyzing)],
            },
        },
        (Stage::Analyzing(o), Event::Analyzed(ok)) => {
            if ok {
                Transition { stage: Stage::Done(o), action: Action::Stop, notes: vec![Note::Finished(o)] }
            } else {
                Transition {
                    stage: Stage::Done(o),
                    action: Action::Stop,
                    notes: vec![Note::AnalysisFailed, Note::Finished(o)],
                }
            }
        },
        _ => Transition { stage: s, action: Action::Ignore, notes: Vec::new() },
    }
}

pub open spec fn is_build_or_run_marker(n: Note) -> bool {
    n == Note::Entered(Phase::Building) || n == Note::Entered(Phase::Executing)
}

/// A run whose fetch fails ends there with a fetch error, whatever events follow,
/// and its log never holds the marker of the build or execution stage.
pub proof fn law_fetch_failure_never_builds(events: Seq<Event>)
    requires
        events.len() > 0,
        events[0] is Fetched,
        !succeeded(events[0]->Fetched_0),
    ensures
        replay(events).0 == Stage::Done(Outcome::Failed(FailureKind::FetchError)),
        forall|i: int|
            0 <= i < replay(events).1.len() ==> !is_build_or_run_marker(
                #[trigger] replay(events).1[i],
            ),
    decreases events.len(),
{
    if events.len() == 1 {
        assert(events.drop_last() =~= Seq::<Event>::empty());
    } else {
        law_fetch_failure_never_builds(events.drop_last());
        let (s, ns) = replay(events.drop_last());
        assert(step_spec(s, events.last()).2 =~= Seq::<Note>::empty());
        assert(replay(events).1 =~= ns);
    }
}

/// The text of a note as it stands in the log.
pub open spec fn note_str(n: Note) -> Seq<char> {
    match n {
        Note::Entered(Phase::Fetching) => "Cloning repository..."@,
        Note::Entered(Phase::Preparing) => "Generating Dockerfile..."@,
        Note::Entered(Phase::Building) => "Building Docker image..."@,
        Note::Entered(Phase::Executing) => "Running Docker container..."@,
        Note::Entered(Phase::Analyzing) => "Analyzing logs..."@,
        Note::FetchFailed => "Git clone exited with non-zero status"@,
        Note::ManifestFailed => "Dockerfile generation failed: unsupported environment"@,
        Note::SpawnFailed => "Command could not be started"@,
        Note::BuildFailed => "Docker build failed"@,
        Note::BuildFinished => "Docker build finished"@,
        Note::ExecutionFailed => "Docker run failed"@,
        Note::AnalysisFailed => "AI analysis failed"@,
        Note::Finished(Outcome::Succeeded) => "Run finished: succeeded"@,
        Note::Finished(Outcome::Failed(FailureKind::FetchError)) => "Run finished: fetch_error"@,
        Note::Finished(Outcome::Failed(FailureKind::UnsupportedEnvironment)) => "Run finished: unsupported_environment"@,
        Note::Finished(Outcome::Failed(FailureKind::SpawnError)) => "Run finished: spawn_error"@,
        Note::Finished(Outcome::Failed(FailureKind::BuildError)) => "Run finished: build_error"@,
        Note::Finished(Outcome::Failed(FailureKind::ExecutionError)) => "Run finished: execution_error"@,
    }
}

pub fn note_text(n: Note) -> (r: &'static str)
    ensures
        r@ == note_str(n),
{
    match n {
        Note::Entered(Phase::Fetching) => "Cloning repository...",
        Note::Entered(Phase::Preparing) => "Generating Dockerfile...",
        Note::Entered(Phase::Building) => "Building Docker image...",
        Note::Entered(Phase::Executing) => "Running Docker container...",
        Note::Entered(Phase::Analyzing) => "Analyzing logs...",
        Note::FetchFailed => "Git clone exited with non-zero status",
        Note::ManifestFailed => "Dockerfile generation failed: unsupported environment",
        Note::SpawnFailed => "Command could not be started",
        Note::BuildFailed => "Docker build failed",
        Note::BuildFinished => "Docker build finished",
        Note::ExecutionFailed => "Docker run failed",
        Note::AnalysisFailed => "AI analysis failed",
        Note::Finished(Outcome::Succeeded) => "Run finished: succeeded",
        Note::Finished(Outcome::Failed(FailureKind::FetchError)) => "Run finished: fetch_error",
        Note::Finished(Outcome::Failed(FailureKind::UnsupportedEnvironment)) => "Run finished: unsupported_environment",
        Note::Finished(Outcome::Failed(FailureKind::SpawnError)) => "Run finished: spawn_error",
        Note::Finished(Outcome::Failed(FailureKind::BuildError)) => "Run finished: build_error",
        Note::Finished(Outcome::Failed(FailureKind::ExecutionError)) => "Run finished: execution_error",
    }
}

/// The position of a stage in the order in which stages are entered.
pub open spec fn stage_rank(s: Stage) -> int {
    match s {
        Stage::Fetching => 0,
        Stage::Preparing => 1,
        Stage::Building => 2,
        Stage::Executing => 3,
        Stage::Analyzing(_) => 4,
        Stage::Done(_) => 5,
    }
}

pub open spec fn phase_rank(p: Phase) -> int {
    match p {
        Phase::Fetching => 0,
        Phase::Preparing => 1,
        Phase::Building => 2,
        Phase::Executing => 3,
        Phase::Analyzing => 4,
    }
}

/// How many markers of phase `p` the notes `ns` hold.
pub open spec fn marker_count(ns: Seq<Note>, p: Phase) -> nat
    decreases ns.len(),
{
    if ns.len() == 0 {
        0
    } else {
        marker_count(ns.drop_last(), p) + if ns.last() == Note::Entered(p) {
            1nat
        } else {
            0nat
        }
    }
}

proof fn lemma_marker_count_concat(a: Seq<Note>, b: Seq<Note>, p: Phase)
    ensures
        marker_count(a + b, p) == marker_count(a, p) + marker_count(b, p),
    decreases b.len(),
{
    if b.len() == 0 {
        assert(a + b =~= a);
    } else {
        assert((a + b).drop_last() =~= a + b.drop_last());
        lemma_marker_count_concat(a, b.drop_last(), p);
    }
}

proof fn lemma_marker_count_short(ns: Seq<Note>, p: Phase)
    requires
        ns.len() <= 2,
    ensures
        marker_count(ns, p) == (if ns.len() >= 1 && ns[0] == Note::Entered(p) {
            1nat
        } else {
            0nat
        }) + (if ns.len() >= 2 && ns[1] == Note::Entered(p) {
            1nat
        } else {
            0nat
        }),
{
    if ns.len() >= 1 {
        let d = ns.drop_last();
        assert(ns.last() == ns[ns.len() - 1]);
        if ns.len() == 2 {
            assert(d.drop_last().len() == 0);
            assert(d.last() == ns[0]);
            assert(marker_count(d.drop_last(), p) == 0);
            assert(marker_count(d, p) == (if ns[0] == Note::Entered(p) {
                1nat
            } else {
                0nat
            }));
        } else {
            assert(d.len() == 0);
            assert(marker_count(d, p) == 0);
        }
    }
}

proof fn lemma_step_markers(s: Stage, e: Event, p: Phase)
    ensures
        ({
            let (s2, _a, ns) = step_spec(s, e);
            &&& stage_rank(s) <= stage_rank(s2)
            &&& marker_count(ns, p) <= 1
            &&& marker_count(ns, p) == 1 ==> phase_rank(p) == stage_rank(s2) && stage_rank(s)
                < stage_rank(s2)
        }),
{
    lemma_marker_count_short(step_spec(s, e).2, p);
}

/// Stages are entered in order and the log holds the marker of each stage at
/// most once, and only of stages that the run has reached.
pub proof fn law_markers_once_in_order(events: Seq<Event>, p: Phase)
    ensures
        marker_count(replay(events).1, p) <= 1,
        marker_count(replay(events).1, p) == 1 ==> phase_rank(p) <= stage_rank(replay(events).0),
    decreases events.len(),
{
    if events.len() == 0 {
        lemma_marker_count_short(start_notes(), p);
    } else {
        law_markers_once_in_order(events.drop_last(), p);
        let (s, ns) = replay(events.drop_last());
        lemma_step_markers(s, events.last(), p);
        lemma_marker_count_concat(ns, step_spec(s, events.last()).2, p);
    }
}

/// Analysis runs whatever the build gave: a run whose build exits with a
/// non-zero status goes on to `Analyzing` and asks for the analysis, and however
/// the analysis then ends, the run finishes with a build error.
pub proof fn law_failed_build_is_analysed(events: Seq<Event>, analysed: bool)
    requires
        replay(events).0 == Stage::Building,
    ensures
        ({
            let failed = Outcome::Failed(FailureKind::BuildError);
            let built = events.push(Event::Built(ProcessResult::Exited { success: false }));
            &&& replay(built).0 == Stage::Analyzing(failed)
            &&& step_spec(replay(events).0, built.last()).1 == Action::Analyze
            &&& replay(built.push(Event::Analyzed(analysed))).0 == Stage::Done(failed)
        }),
{
    let built = events.push(Event::Built(ProcessResult::Exited { success: false }));
    assert(built.drop_last() =~= events);
    assert(built.push(Event::Analyzed(analysed)).drop_last() =~= built);
}

} // verus!
