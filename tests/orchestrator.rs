use depplay_backend::analysis::{analysis_prompt, AnalyzeResult, PROMPT_HEAD};
use depplay_backend::clock::{current_timestamp_millis, millis_of_parts, millis_since_epoch};
use depplay_backend::job::{
    note_text, start, step, Action, Event, FailureKind, Note, Outcome, Phase, ProcessResult,
    Stage,
};
use depplay_backend::log::{LogSink, Tailer};
use depplay_backend::manifest::{manifest_for_tag, EnvKind, CPP_DOCKERFILE, JAVA_DOCKERFILE};
use depplay_backend::registry::{
    next_id, validate_source, AnalysisLookup, RunRegistry, SubmitError,
};
use depplay_backend::text::{has_prefix, same_text};

const REPO: &str = "https://github.com/octo/hello";

fn text_lines(bytes: &[u8]) -> Vec<String> {
    String::from_utf8(bytes.to_vec())
        .unwrap()
        .lines()
        .map(|l| l.to_string())
        .collect()
}

fn events_as_strings(events: Vec<Vec<u8>>) -> Vec<String> {
    events.into_iter().map(|e| String::from_utf8(e).unwrap()).collect()
}

#[test]
fn append_then_read_from_zero_gives_the_lines_in_order() {
    let mut sink = LogSink::new();
    sink.append_line("first");
    sink.append_line("second");
    sink.append_line("third");
    let (bytes, next) = sink.read_from(0);
    assert_eq!(bytes, b"first\nsecond\nthird\n".to_vec());
    assert_eq!(next, sink.len());
    let mut tailer = Tailer::new();
    let got = events_as_strings(tailer.poll(&sink));
    assert_eq!(got, vec!["first", "second", "third"]);
    assert!(tailer.poll(&sink).is_empty());
}

#[test]
fn read_from_an_offset_and_past_the_end() {
    let mut sink = LogSink::new();
    sink.append_line("ab");
    sink.append_line("cd");
    assert_eq!(sink.read_from(3), (b"cd\n".to_vec(), 6));
    assert_eq!(sink.read_from(6), (Vec::new(), 6));
    assert_eq!(sink.read_from(40), (Vec::new(), 6));
}

#[test]
fn empty_log_reads_nothing() {
    let sink = LogSink::new();
    assert_eq!(sink.read_from(0), (Vec::new(), 0));
    let mut tailer = Tailer::new();
    assert!(tailer.poll(&sink).is_empty());
    assert_eq!(tailer.position(), 0);
}

#[test]
fn partial_line_is_held_back_until_terminated() {
    let mut sink = LogSink::new();
    sink.append_line("one\ntwo");
    let mut tailer = Tailer::new();
    assert_eq!(events_as_strings(tailer.poll(&sink)), vec!["one", "two"]);
    // a line whose text ends without a terminator of its own is still one line
    sink.append_line("three");
    assert_eq!(events_as_strings(tailer.poll(&sink)), vec!["three"]);
    assert_eq!(tailer.position(), sink.len());
}

#[test]
fn tailer_trims_carriage_returns_and_keeps_blank_lines() {
    let mut sink = LogSink::new();
    sink.append_line("dos line\r");
    sink.append_line("");
    sink.append_line("\r");
    sink.append_line("last");
    let mut tailer = Tailer::new();
    assert_eq!(events_as_strings(tailer.poll(&sink)), vec!["dos line", "", "", "last"]);
}

#[test]
fn one_empty_line_is_one_event() {
    let mut sink = LogSink::new();
    sink.append_line("");
    let mut tailer = Tailer::new();
    assert_eq!(tailer.poll(&sink), vec![Vec::<u8>::new()]);
    assert_eq!(tailer.position(), 1);
    assert!(tailer.poll(&sink).is_empty());
}

#[test]
fn round_trip_with_empty_lines_in_between() {
    let lines = ["a", "", "b", "", ""];
    let mut sink = LogSink::new();
    for l in lines.iter() {
        sink.append_line(l);
    }
    let (bytes, _) = sink.read_from(0);
    assert_eq!(bytes, b"a\n\nb\n\n\n".to_vec());
    let mut tailer = Tailer::new();
    assert_eq!(events_as_strings(tailer.poll(&sink)), lines.to_vec());
}

#[test]
fn two_tailers_see_the_same_lines_in_the_same_order() {
    let mut sink = LogSink::new();
    let mut early = Tailer::new();
    let mut seen_early: Vec<String> = Vec::new();
    sink.append_line("a");
    seen_early.extend(events_as_strings(early.poll(&sink)));
    sink.append_line("b");
    sink.append_line("c");
    seen_early.extend(events_as_strings(early.poll(&sink)));
    let mut late = Tailer::new();
    let seen_late = events_as_strings(late.poll(&sink));
    assert_eq!(seen_early, vec!["a", "b", "c"]);
    assert_eq!(seen_early, seen_late);
    sink.append_line("d");
    seen_early.extend(events_as_strings(early.poll(&sink)));
    let mut more_late = seen_late.clone();
    more_late.extend(events_as_strings(late.poll(&sink)));
    assert_eq!(seen_early, more_late);
}

#[test]
fn fetch_failure_ends_the_run_without_build_markers() {
    let s = start();
    assert_eq!(s.stage, Stage::Fetching);
    assert_eq!(s.action, Action::Fetch);
    assert_eq!(s.notes, vec![Note::Entered(Phase::Fetching)]);
    let t = step(Stage::Fetching, Event::Fetched(ProcessResult::Exited { success: false }));
    let failed = Outcome::Failed(FailureKind::FetchError);
    assert_eq!(t.stage, Stage::Done(failed));
    assert_eq!(t.action, Action::Stop);
    assert_eq!(t.notes, vec![Note::FetchFailed, Note::Finished(failed)]);
    let t2 = step(t.stage, Event::Built(ProcessResult::Exited { success: true }));
    assert_eq!(t2.stage, Stage::Done(failed));
    assert_eq!(t2.action, Action::Ignore);
    assert!(t2.notes.is_empty());
    let t3 = step(Stage::Fetching, Event::Fetched(ProcessResult::NotSpawned));
    assert_eq!(t3.stage, Stage::Done(failed));
    assert_eq!(t3.notes, vec![Note::SpawnFailed, Note::Finished(failed)]);
    assert_eq!(note_text(Note::SpawnFailed), "Command could not be started");
}

#[test]
fn a_successful_run_goes_through_every_stage() {
    let t = step(Stage::Fetching, Event::Fetched(ProcessResult::Exited { success: true }));
    assert_eq!((t.stage, t.action), (Stage::Preparing, Action::Prepare));
    let t = step(t.stage, Event::Prepared(true));
    assert_eq!((t.stage, t.action), (Stage::Building, Action::Build));
    let t = step(t.stage, Event::Built(ProcessResult::Exited { success: true }));
    assert_eq!((t.stage, t.action), (Stage::Executing, Action::Execute));
    assert_eq!(t.notes, vec![Note::BuildFinished, Note::Entered(Phase::Executing)]);
    let t = step(t.stage, Event::Executed(ProcessResult::Exited { success: true }));
    assert_eq!(t.stage, Stage::Analyzing(Outcome::Succeeded));
    assert_eq!(t.action, Action::Analyze);
    let t = step(t.stage, Event::Analyzed(false));
    assert_eq!(t.stage, Stage::Done(Outcome::Succeeded));
    assert_eq!(t.notes, vec![Note::AnalysisFailed, Note::Finished(Outcome::Succeeded)]);
}

#[test]
fn failures_of_each_stage_pick_their_kind() {
    let t = step(Stage::Preparing, Event::Prepared(false));
    assert_eq!(t.stage, Stage::Done(Outcome::Failed(FailureKind::UnsupportedEnvironment)));
    let t = step(Stage::Building, Event::Built(ProcessResult::NotSpawned));
    assert_eq!(t.stage, Stage::Analyzing(Outcome::Failed(FailureKind::SpawnError)));
    assert_eq!(t.notes, vec![Note::SpawnFailed, Note::Entered(Phase::Analyzing)]);
    let t = step(Stage::Building, Event::Built(ProcessResult::Exited { success: false }));
    assert_eq!(t.notes, vec![Note::BuildFailed, Note::Entered(Phase::Analyzing)]);
    let t = step(Stage::Executing, Event::Executed(ProcessResult::Exited { success: false }));
    assert_eq!(t.stage, Stage::Analyzing(Outcome::Failed(FailureKind::ExecutionError)));
    let t = step(Stage::Executing, Event::Executed(ProcessResult::NotSpawned));
    assert_eq!(t.stage, Stage::Analyzing(Outcome::Failed(FailureKind::SpawnError)));
    let t = step(Stage::Building, Event::Prepared(true));
    assert_eq!((t.stage, t.action), (Stage::Building, Action::Ignore));
}

#[test]
fn note_texts() {
    assert_eq!(note_text(Note::Entered(Phase::Fetching)), "Cloning repository...");
    assert_eq!(note_text(Note::Entered(Phase::Building)), "Building Docker image...");
    assert_eq!(note_text(Note::BuildFailed), "Docker build failed");
    assert_eq!(
        note_text(Note::Finished(Outcome::Failed(FailureKind::BuildError))),
        "Run finished: build_error"
    );
}

#[test]
fn unparseable_reference_is_rejected_before_any_id() {
    let mut reg = RunRegistry::new();
    assert_eq!(reg.submit("not-a-url", "cpp", 1000), Err(SubmitError::UnsupportedSource));
    assert_eq!(reg.stage(1000), None);
    assert_eq!(reg.submit(REPO, "cpp", 1000), Ok(1000));
    assert_eq!(validate_source("not-a-url"), Err(SubmitError::UnsupportedSource));
    assert_eq!(validate_source("http://github.com/a/b"), Err(SubmitError::UnsupportedSource));
    assert_eq!(validate_source(REPO), Ok(()));
}

#[test]
fn ids_are_unique_and_increasing() {
    let mut reg = RunRegistry::new();
    assert_eq!(reg.submit(REPO, "java", 500), Ok(500));
    assert_eq!(reg.submit(REPO, "java", 500), Ok(501));
    assert_eq!(reg.submit(REPO, "java", 400), Ok(502));
    assert_eq!(reg.submit(REPO, "java", 900), Ok(900));
    assert_eq!(next_id(7, None), Some(7));
    assert_eq!(next_id(3, Some(9)), Some(10));
    assert_eq!(next_id(0, Some(u128::MAX)), None);
    let mut full = RunRegistry::new();
    assert_eq!(full.submit(REPO, "cpp", u128::MAX), Ok(u128::MAX));
    assert_eq!(full.submit(REPO, "cpp", 5), Err(SubmitError::IdsExhausted));
}

#[test]
fn submitted_run_opens_its_log_with_the_fetch_marker() {
    let mut reg = RunRegistry::new();
    let id = reg.submit(REPO, "cpp", 42).unwrap();
    assert_eq!(reg.stage(id), Some(Stage::Fetching));
    let (bytes, _) = reg.read_log(id, 0).unwrap();
    assert_eq!(text_lines(&bytes), vec!["Cloning repository..."]);
    assert!(reg.read_log(43, 0).is_none());
    assert_eq!(reg.advance(43, Event::Prepared(true)), None);
    assert!(!reg.append_output(43, "x"));
}

#[test]
fn failed_build_is_still_analysed() {
    let mut reg = RunRegistry::new();
    let id = reg.submit(REPO, "cpp", 10).unwrap();
    let ok = ProcessResult::Exited { success: true };
    assert_eq!(reg.advance(id, Event::Fetched(ok)), Some(Action::Prepare));
    assert_eq!(reg.advance(id, Event::Prepared(true)), Some(Action::Build));
    assert!(reg.append_output(id, "make: *** No targets specified"));
    let failed = ProcessResult::Exited { success: false };
    assert_eq!(reg.advance(id, Event::Built(failed)), Some(Action::Analyze));
    let outcome = Outcome::Failed(FailureKind::BuildError);
    assert_eq!(reg.stage(id), Some(Stage::Analyzing(outcome)));
    assert!(matches!(reg.analysis(id), AnalysisLookup::NotReady));
    let logs = reg.begin_analysis(id).unwrap();
    assert_eq!(
        text_lines(&logs),
        vec![
            "Cloning repository...",
            "Generating Dockerfile...",
            "Building Docker image...",
            "make: *** No targets specified",
            "Docker build failed",
            "Analyzing logs...",
        ]
    );
    let artifact = b"{\"summary\":\"s\",\"issues\":[],\"suggestions\":[]}".to_vec();
    assert!(reg.finish_analysis(id, Some(artifact.clone())));
    assert_eq!(reg.stage(id), Some(Stage::Done(outcome)));
    match reg.analysis(id) {
        AnalysisLookup::Ready(v) => assert_eq!(v, artifact),
        other => panic!("expected an artifact, got {:?}", other),
    }
    let (bytes, _) = reg.read_log(id, 0).unwrap();
    assert_eq!(text_lines(&bytes).last().unwrap(), "Run finished: build_error");
}

#[test]
fn clone_that_cannot_start_logs_a_spawn_failure() {
    let mut reg = RunRegistry::new();
    let id = reg.submit(REPO, "cpp", 5).unwrap();
    assert_eq!(reg.advance(id, Event::Fetched(ProcessResult::NotSpawned)), Some(Action::Stop));
    assert_eq!(reg.stage(id), Some(Stage::Done(Outcome::Failed(FailureKind::FetchError))));
    let (bytes, _) = reg.read_log(id, 0).unwrap();
    assert_eq!(
        text_lines(&bytes),
        vec!["Cloning repository...", "Command could not be started", "Run finished: fetch_error"]
    );
    assert!(reg.begin_analysis(id).is_none());
}

#[test]
fn analysis_trigger_fires_once() {
    let mut reg = RunRegistry::new();
    let id = reg.submit(REPO, "cpp", 10).unwrap();
    assert!(reg.begin_analysis(id).is_none());
    reg.advance(id, Event::Fetched(ProcessResult::Exited { success: true }));
    reg.advance(id, Event::Prepared(true));
    reg.advance(id, Event::Built(ProcessResult::NotSpawned));
    assert!(reg.begin_analysis(id).is_some());
    assert!(reg.begin_analysis(id).is_none());
    assert!(reg.begin_analysis(id + 1).is_none());
}

#[test]
fn analysis_failure_leaves_no_artifact() {
    let mut reg = RunRegistry::new();
    let id = reg.submit(REPO, "cpp", 10).unwrap();
    reg.advance(id, Event::Fetched(ProcessResult::Exited { success: true }));
    reg.advance(id, Event::Prepared(true));
    reg.advance(id, Event::Built(ProcessResult::Exited { success: true }));
    reg.advance(id, Event::Executed(ProcessResult::Exited { success: true }));
    assert!(reg.begin_analysis(id).is_some());
    assert!(reg.finish_analysis(id, None));
    assert_eq!(reg.stage(id), Some(Stage::Done(Outcome::Succeeded)));
    assert!(matches!(reg.analysis(id), AnalysisLookup::NotReady));
    assert!(!reg.finish_analysis(id, Some(vec![1])));
    assert!(matches!(reg.analysis(id), AnalysisLookup::NotReady));
    assert!(matches!(reg.analysis(id + 7), AnalysisLookup::NotFound));
    let (bytes, _) = reg.read_log(id, 0).unwrap();
    let lines = text_lines(&bytes);
    assert_eq!(lines[lines.len() - 2], "AI analysis failed");
}

#[test]
fn fetching_the_artifact_twice_gives_the_same_bytes() {
    let mut reg = RunRegistry::new();
    let id = reg.submit(REPO, "java", 77).unwrap();
    reg.advance(id, Event::Fetched(ProcessResult::Exited { success: true }));
    reg.advance(id, Event::Prepared(true));
    reg.advance(id, Event::Built(ProcessResult::Exited { success: false }));
    reg.begin_analysis(id);
    reg.finish_analysis(id, Some(b"{\"summary\":\"x\"}".to_vec()));
    let first = match reg.analysis(id) {
        AnalysisLookup::Ready(v) => v,
        other => panic!("expected an artifact, got {:?}", other),
    };
    assert!(!reg.finish_analysis(id, Some(b"other".to_vec())));
    let second = match reg.analysis(id) {
        AnalysisLookup::Ready(v) => v,
        other => panic!("expected an artifact, got {:?}", other),
    };
    assert_eq!(first, second);
}

#[test]
fn tailing_a_run_through_the_registry() {
    let mut reg = RunRegistry::new();
    let id = reg.submit(REPO, "cpp", 3).unwrap();
    let mut tailer = Tailer::new();
    let got = events_as_strings(reg.poll_log(id, &mut tailer).unwrap());
    assert_eq!(got, vec!["Cloning repository..."]);
    reg.append_output(id, "Cloning into 'repo'...");
    let got = events_as_strings(reg.poll_log(id, &mut tailer).unwrap());
    assert_eq!(got, vec!["Cloning into 'repo'..."]);
    assert!(reg.poll_log(id + 1, &mut tailer).is_none());
}

#[test]
fn manifests_by_tag() {
    assert_eq!(EnvKind::from_tag("cpp"), Some(EnvKind::Cpp));
    assert_eq!(EnvKind::from_tag("java"), Some(EnvKind::Java));
    assert_eq!(EnvKind::from_tag("Java"), None);
    assert_eq!(EnvKind::from_tag(""), None);
    assert_eq!(EnvKind::Cpp.manifest(), CPP_DOCKERFILE);
    assert!(JAVA_DOCKERFILE.contains("mvn clean package"));
    assert_eq!(manifest_for_tag("java"), Some(JAVA_DOCKERFILE));
    assert_eq!(manifest_for_tag("cobol"), None);
}

#[test]
fn prompt_wraps_the_logs() {
    let p = analysis_prompt("Error: boom");
    assert!(p.starts_with(PROMPT_HEAD));
    assert!(p.ends_with("Logs:\nError: boom\n"));
    assert!(p.contains("\"suggestions\": [\"string\"]"));
    let r = AnalyzeResult { summary: "s".to_string(), issues: vec![], suggestions: vec![] };
    assert_eq!(r.summary, "s");
}

#[test]
fn text_helpers() {
    assert!(has_prefix("https://github.com/a", "https://github.com/"));
    assert!(!has_prefix("https://gitlab.com/a", "https://github.com/"));
    assert!(!has_prefix("ab", "abc"));
    assert!(has_prefix("héllo", "hé"));
    assert!(same_text("cpp", "cpp"));
    assert!(!same_text("cpp", "cp"));
}

#[test]
fn clock_reads_after_the_epoch() {
    let a = current_timestamp_millis();
    let b = current_timestamp_millis();
    assert!(a > 1_600_000_000_000);
    assert!(b >= a);
}

#[test]
fn millis_from_seconds_and_nanoseconds() {
    assert_eq!(millis_of_parts(0, 0), 0);
    assert_eq!(millis_of_parts(2, 999_999_999), 2999);
    assert_eq!(millis_of_parts(1_700_000_000, 1_500_000), 1_700_000_000_001);
    assert_eq!(millis_of_parts(u64::MAX, 999_999_999), u64::MAX as u128 * 1000 + 999);
    assert_eq!(millis_since_epoch(None), 0);
    assert_eq!(millis_since_epoch(Some((3, 250_000_000))), 3250);
}

#[test]
fn end_of_analysis_goes_only_through_finish_analysis() {
    let mut reg = RunRegistry::new();
    let id = reg.submit(REPO, "cpp", 10).unwrap();
    reg.advance(id, Event::Fetched(ProcessResult::Exited { success: true }));
    reg.advance(id, Event::Prepared(true));
    reg.advance(id, Event::Built(ProcessResult::Exited { success: false }));
    let before = reg.read_log(id, 0).unwrap();
    assert_eq!(reg.advance(id, Event::Analyzed(true)), Some(Action::Ignore));
    assert_eq!(reg.stage(id), Some(Stage::Analyzing(Outcome::Failed(FailureKind::BuildError))));
    assert_eq!(reg.read_log(id, 0).unwrap(), before);
    assert_eq!(reg.advance(id + 1, Event::Analyzed(true)), None);
}
