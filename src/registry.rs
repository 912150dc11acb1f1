use vstd::prelude::*;
use vstd::utf8::encode_utf8;
use crate::job::{note_str, note_text, start, step, step_spec, start_notes, Action, Event, Note, Stage};
use crate::log::{join_lines, LogSink, Tailer, NEWLINE};
use crate::text::has_prefix;

verus! {

/// The only sources accepted: public repositories on GitHub, fetched over https.
pub const SOURCE_PREFIX: &'static str = "https://github.com/";

/// Why a submission was refused; no run exists for it.
#[derive(Clone, Copy, Debug, PartialEq, Eq, Structural)]
pub enum SubmitError {
    /// The reference does not name a source that can be fetched.
    UnsupportedSource,
    /// No identifier above the last one is left.
    IdsExhausted,
}

/// What a lookup of a run's analysis finds.
#[derive(Debug)]
pub enum AnalysisLookup {
    NotFound,
    NotReady,
    Ready(Vec<u8>),
}

pub open spec fn accepted_source(source: Seq<char>) -> bool {
    SOURCE_PREFIX@.is_prefix_of(source)
}

/// Whether a source reference may be submitted.
pub fn validate_source(source: &str) -> (r: Result<(), SubmitError>)
    ensures
        r is Ok <==> accepted_source(source@),
        r is Err ==> r == Err::<(), SubmitError>(SubmitError::UnsupportedSource),
{
    if has_prefix(source, SOURCE_PREFIX) {
        Ok(())
    } else {
        Err(SubmitError::UnsupportedSource)
    }
}

/// The identifier of the next run: the clock reading where it is above the last
/// identifier given out, else the one after it.
pub open spec fn next_id_spec(now: u128, last: Option<u128>) -> Option<u128> {
    match last {
        None => Some(now),
        Some(l) => if now > l {
            Some(now)
        } else if l < u128::MAX {
            Some((l + 1) as u128)
        } else {
            None
        },
    }
}

pub fn next_id(now: u128, last: Option<u128>) -> (r: Option<u128>)
    ensures
        r == next_id_spec(now, last),
{
    match last {
        None => Some(now),
        Some(l) => {
            if now > l {
                Some(now)
            } else if l < u128::MAX {
                Some(l + 1)
            } else {
                None
            }
        },
    }
}

/// The bytes that a sequence of notes adds to a log: one line each.
pub open spec fn narrative(ns: Seq<Note>) -> Seq<u8> {
    join_lines(ns.map_values(|n: Note| encode_utf8(note_str(n))))
}

fn write_notes(log: &mut LogSink, notes: &Vec<Note>)
    ensures
        final(log)@ == old(log)@ + narrative(notes@),
{
    let ghost start_bytes = log@;
    let mut i: usize = 0;
    while i < notes.len()
        invariant
            i <= notes@.len(),
            log@ == start_bytes + narrative(notes@.subrange(0, i as int)),
        decreases notes@.len() - i,
    {
        let ghost before = notes@.subrange(0, i as int);
        let n = notes[i];
        log.append_line(note_text(n));
        proof {
            let after = notes@.subrange(0, i + 1);
            let f = |n: Note| encode_utf8(note_str(n));
            assert(after.map_values(f).drop_last() =~= before.map_values(f));
            assert(after.map_values(f).last() == f(n));
            assert(log@ =~= start_bytes + narrative(after));
        }
        i = i + 1;
    }
    assert(notes@.subrange(0, i as int) =~= notes@);
}

/// One run as the registry holds it.
struct RunRecord {
    id: u128,
    source: String,
    env: String,
    stage: Stage,
    log: LogSink,
    analysis_started: bool,
    analysis: Option<Vec<u8>>,
}

/// What the registry says of one run: its source reference, environment tag,
/// stage, log, whether its analysis was started, and its analysis artifact.
pub type RunView = (Seq<char>, Seq<char>, Stage, Seq<u8>, bool, Option<Seq<u8>>);

spec fn record_view(r: RunRecord) -> RunView {
    (
        r.source@,
        r.env@,
        r.stage,
        r.log@,
        r.analysis_started,
        match r.analysis {
            Some(v) => Some(v@),
            None => None,
        },
    )
}

spec fn lookup_from(runs: Seq<RunRecord>, id: u128, i: nat) -> Option<int>
    decreases runs.len() - i,
{
    if i >= runs.len() {
        None
    } else if runs[i as int].id == id {
        Some(i as int)
    } else {
        lookup_from(runs, id, i + 1)
    }
}

proof fn lemma_lookup_found(runs: Seq<RunRecord>, id: u128, i: nat)
    ensures
        lookup_from(runs, id, i) matches Some(k) ==> i <= k < runs.len() && runs[k].id == id,
        lookup_from(runs, id, i) is None ==> forall|k: int|
            i <= k < runs.len() ==> runs[k].id != id,
    decreases runs.len() - i,
{
    if i < runs.len() {
        lemma_lookup_found(runs, id, i + 1);
    }
}

proof fn lemma_lookup_same_ids(a: Seq<RunRecord>, b: Seq<RunRecord>, id: u128, i: nat)
    requires
        a.len() == b.len(),
        forall|k: int| 0 <= k < a.len() ==> a[k].id == b[k].id,
    ensures
        lookup_from(a, id, i) == lookup_from(b, id, i),
    decreases a.len() - i,
{
    if i < a.len() {
        lemma_lookup_same_ids(a, b, id, i + 1);
    }
}

proof fn lemma_lookup_push(a: Seq<RunRecord>, x: RunRecord, id: u128, i: nat)
    requires
        i <= a.len(),
    ensures
        lookup_from(a.push(x), id, i) == (if lookup_from(a, id, i) is Some {
            lookup_from(a, id, i)
        } else if x.id == id {
            Some(a.len() as int)
        } else {
            None
        }),
    decreases a.len() - i,
{
    if i < a.len() {
        assert(a.push(x)[i as int] == a[i as int]);
        lemma_lookup_push(a, x, id, i + 1);
    } else {
        assert(a.push(x)[i as int] == x);
        assert(lookup_from(a.push(x), id, i + 1) is None);
    }
}

/// The runs of one orchestrator process, keyed by identifier.
pub struct RunRegistry {
    runs: Vec<RunRecord>,
    last_id: Option<u128>,
}

impl RunRegistry {
    /// Every identifier given out is at most the last one, and a run that holds
    /// an analysis artifact has ended.
    pub closed spec fn wf(&self) -> bool {
        &&& match self.last_id {
            None => self.runs@.len() == 0,
            Some(l) => forall|k: int| 0 <= k < self.runs@.len() ==> self.runs@[k].id <= l,
        }
        &&& forall|k: int|
            0 <= k < self.runs@.len() && (#[trigger] self.runs@[k]).analysis is Some
                ==> self.runs@[k].stage is Done
    }

    /// The last identifier given out.
    pub closed spec fn last(&self) -> Option<u128> {
        self.last_id
    }

    closed spec fn slot(&self, id: u128) -> Option<int> {
        lookup_from(self.runs@, id, 0)
    }

    pub closed spec fn has(&self, id: u128) -> bool {
        self.slot(id) is Some
    }

    pub closed spec fn run(&self, id: u128) -> RunView {
        record_view(self.runs@[self.slot(id).unwrap()])
    }

    pub open spec fn stage_of(&self, id: u128) -> Stage {
        self.run(id).2
    }

    pub open spec fn log_of(&self, id: u128) -> Seq<u8> {
        self.run(id).3
    }

    pub open spec fn analysis_started(&self, id: u128) -> bool {
        self.run(id).4
    }

    pub open spec fn analysis_of(&self, id: u128) -> Option<Seq<u8>> {
        self.run(id).5
    }

    /// The runs other than `id` are the same in `self` and in `other`.
    pub open spec fn same_except(&self, other: &RunRegistry, id: u128) -> bool {
        forall|o: u128|
            o != id ==> (#[trigger] self.has(o) == other.has(o) && (self.has(o) ==> self.run(o)
                == other.run(o)))
    }

    /// The analysis trigger fires for a run that is analysing and whose
    /// analysis was not started yet.
    pub open spec fn trigger_fires(&self, id: u128) -> bool {
        self.has(id) && self.stage_of(id) is Analyzing && !self.analysis_started(id)
    }

    pub fn new() -> (r: RunRegistry)
        ensures
            r.wf(),
            r.last() is None,
            forall|id: u128| !r.has(id),
    {
        RunRegistry { runs: Vec::new(), last_id: None }
    }

    fn find(&self, id: u128) -> (r: Option<usize>)
        ensures
            r is Some == self.has(id),
            r matches Some(i) ==> self.slot(id) == Some(i as int) && i < self.runs@.len()
                && self.runs@[i as int].id == id,
    {
        let mut i: usize = 0;
        while i < self.runs.len()
            invariant
                i <= self.runs@.len(),
                lookup_from(self.runs@, id, 0) == lookup_from(self.runs@, id, i as nat),
            decreases self.runs@.len() - i,
        {
            if self.runs[i].id == id {
                return Some(i);
            }
            i = i + 1;
        }
        None
    }

    /// Registers a run for `source` with environment tag `env`, its narrative
    /// opened in its log, and gives back its new identifier. A source that is not
    /// accepted is refused before any identifier is made for it.
    pub fn submit(&mut self, source: &str, env: &str, now: u128) -> (r: Result<u128, SubmitError>)
        requires
            old(self).wf(),
        ensures
            final(self).wf(),
            !accepted_source(source@) ==> r == Err::<u128, SubmitError>(
                SubmitError::UnsupportedSource,
            ) && *final(self) == *old(self),
            accepted_source(source@) && next_id_spec(now, old(self).last()) is None ==> r
                == Err::<u128, SubmitError>(SubmitError::IdsExhausted) && *final(self) == *old(
                self,
            ),
            accepted_source(source@) && next_id_spec(now, old(self).last()) is Some ==> {
                let id = next_id_spec(now, old(self).last()).unwrap();
                &&& r == Ok::<u128, SubmitError>(id)
                &&& !old(self).has(id)
                &&& final(self).has(id)
                &&& final(self).last() == Some(id)
                &&& final(self).run(id) == (
                    source@,
                    env@,
                    Stage::Fetching,
                    narrative(start_notes()),
                    false,
                    None::<Seq<u8>>,
                )
                &&& final(self).same_except(old(self), id)
            },
    {
        if validate_source(source).is_err() {
            return Err(SubmitError::UnsupportedSource);
        }
        let id = match next_id(now, self.last_id) {
            Some(id) => id,
            None => {
                return Err(SubmitError::IdsExhausted);
            },
        };
        let t = start();
        let mut log = LogSink::new();
        write_notes(&mut log, &t.notes);
        let rec = RunRecord {
            id,
            source: String::from_str(source),
            env: String::from_str(env),
            stage: t.stage,
            log,
            analysis_started: false,
            analysis: None,
        };
        let ghost old_runs = self.runs@;
        proof {
            lemma_lookup_found(old_runs, id, 0);
        }
        self.runs.push(rec);
        self.last_id = Some(id);
        proof {
            assert forall|o: u128| #[trigger]
                lookup_from(self.runs@, o, 0) == (if lookup_from(old_runs, o, 0) is Some {
                    lookup_from(old_runs, o, 0)
                } else if o == id {
                    Some(old_runs.len() as int)
                } else {
                    None
                }) by {
                lemma_lookup_push(old_runs, rec, o, 0);
            }
            assert(self.runs@[old_runs.len() as int] == rec);
            assert(!old(self).has(id));
            assert(self.has(id));
            assert(self.run(id) == record_view(rec));
            assert forall|o: u128| o != id implies #[trigger] self.has(o) == old(self).has(o) && (
            self.has(o) ==> self.run(o) == old(self).run(o)) by {
                lemma_lookup_push(old_runs, rec, o, 0);
                lemma_lookup_found(old_runs, o, 0);
                if lookup_from(old_runs, o, 0) is Some {
                    let k = lookup_from(old_runs, o, 0).unwrap();
                    assert(self.runs@[k] == old_runs[k]);
                }
            }
        }
        Ok(id)
    }

    /// Applies `e` to the run `id`: its stage moves as the state machine says and
    /// the transition's notes are appended to its log. `None` for an unknown run.
    /// The end of an analysis is ignored here: it goes through `finish_analysis`,
    /// which stores the artifact.
    pub fn advance(&mut self, id: u128, e: Event) -> (r: Option<Action>)
        requires
            old(self).wf(),
        ensures
            final(self).wf(),
            final(self).last() == old(self).last(),
            !old(self).has(id) ==> r is None && *final(self) == *old(self),
            old(self).has(id) && e is Analyzed ==> r == Some(Action::Ignore) && *final(self)
                == *old(self),
            old(self).has(id) && !(e is Analyzed) ==> {
                let (s2, a, ns) = step_spec(old(self).stage_of(id), e);
                let o = old(self).run(id);
                &&& r == Some(a)
                &&& final(self).has(id)
                &&& final(self).run(id) == (o.0, o.1, s2, o.3 + narrative(ns), o.4, o.5)
                &&& final(self).same_except(old(self), id)
            },
    {
        match self.find(id) {
            None => None,
            Some(i) => {
                if matches!(e, Event::Analyzed(_)) {
                    return Some(Action::Ignore);
                }
                let ghost old_runs = self.runs@;
                let t = step(self.runs[i].stage, e);
                write_notes(&mut self.runs[i].log, &t.notes);
                self.runs[i].stage = t.stage;
                proof {
                    self.lemma_updated_slot(old_runs, i as int, id);
                }
                Some(t.action)
            },
        }
    }

    /// Appends one line of a command's output to the log of the run `id`.
    pub fn append_output(&mut self, id: u128, text: &str) -> (r: bool)
        requires
            old(self).wf(),
        ensures
            final(self).wf(),
            final(self).last() == old(self).last(),
            r == old(self).has(id),
            !old(self).has(id) ==> *final(self) == *old(self),
            old(self).has(id) ==> {
                let o = old(self).run(id);
                &&& final(self).has(id)
                &&& final(self).run(id) == (
                    o.0,
                    o.1,
                    o.2,
                    o.3 + encode_utf8(text@).push(NEWLINE),
                    o.4,
                    o.5,
                )
                &&& final(self).same_except(old(self), id)
            },
    {
        match self.find(id) {
            None => false,
            Some(i) => {
                let ghost old_runs = self.runs@;
                self.runs[i].log.append_line(text);
                proof {
                    self.lemma_updated_slot(old_runs, i as int, id);
                }
                true
            },
        }
    }

    /// The analysis trigger: where it fires, marks the run's analysis as started
    /// and hands out the whole log to be analysed. It fires at most once per run.
    pub fn begin_analysis(&mut self, id: u128) -> (r: Option<Vec<u8>>)
        requires
            old(self).wf(),
        ensures
            final(self).wf(),
            final(self).last() == old(self).last(),
            r is Some == old(self).trigger_fires(id),
            !old(self).trigger_fires(id) ==> *final(self) == *old(self),
            old(self).trigger_fires(id) ==> {
                let o = old(self).run(id);
                &&& r.unwrap()@ == o.3
                &&& final(self).has(id)
                &&& final(self).run(id) == (o.0, o.1, o.2, o.3, true, o.5)
                &&& final(self).same_except(old(self), id)
            },
    {
        match self.find(id) {
            None => None,
            Some(i) => {
                if !matches!(self.runs[i].stage, Stage::Analyzing(_)) || self.runs[i].analysis_started {
                    return None;
                }
                let ghost old_runs = self.runs@;
                let (bytes, _) = self.runs[i].log.read_from(0);
                self.runs[i].analysis_started = true;
                proof {
                    self.lemma_updated_slot(old_runs, i as int, id);
                    assert(old_runs[i as int].log@.subrange(0, old_runs[i as int].log@.len() as int)
                        =~= old_runs[i as int].log@);
                }
                Some(bytes)
            },
        }
    }

    /// Ends the analysis of a run that is analysing: stores `artifact` where the
    /// diagnostic collaborator gave one, and moves the run to its terminal stage
    /// with the outcome that its build and execution had.
    pub fn finish_analysis(&mut self, id: u128, artifact: Option<Vec<u8>>) -> (r: bool)
        requires
            old(self).wf(),
        ensures
            final(self).wf(),
            final(self).last() == old(self).last(),
            r == (old(self).has(id) && old(self).stage_of(id) is Analyzing),
            !r ==> *final(self) == *old(self),
            r ==> {
                let o = old(self).run(id);
                let (s2, _a, ns) = step_spec(o.2, Event::Analyzed(artifact is Some));
                &&& final(self).has(id)
                &&& final(self).run(id) == (
                    o.0,
                    o.1,
                    s2,
                    o.3 + narrative(ns),
                    o.4,
                    match artifact {
                        Some(v) => Some(v@),
                        None => None,
                    },
                )
                &&& final(self).same_except(old(self), id)
            },
    {
        match self.find(id) {
            None => false,
            Some(i) => {
                if !matches!(self.runs[i].stage, Stage::Analyzing(_)) {
                    return false;
                }
                let ghost old_runs = self.runs@;
                let ok = artifact.is_some();
                let t = step(self.runs[i].stage, Event::Analyzed(ok));
                write_notes(&mut self.runs[i].log, &t.notes);
                self.runs[i].stage = t.stage;
                self.runs[i].analysis = artifact;
                proof {
                    self.lemma_updated_slot(old_runs, i as int, id);
                }
                true
            },
        }
    }

    /// The stage of the run `id`, or `None` for an unknown run.
    pub fn stage(&self, id: u128) -> (r: Option<Stage>)
        ensures
            r is Some == self.has(id),
            self.has(id) ==> r == Some(self.stage_of(id)),
    {
        match self.find(id) {
            None => None,
            Some(i) => Some(self.runs[i].stage),
        }
    }

    /// The log of the run `id` from `offset` on, and the offset to read from next.
    pub fn read_log(&self, id: u128, offset: usize) -> (r: Option<(Vec<u8>, usize)>)
        ensures
            r is Some == self.has(id),
            r matches Some(p) ==> {
                let l = self.log_of(id);
                &&& p.1 == l.len()
                &&& offset <= l.len() ==> p.0@ == l.subrange(offset as int, l.len() as int)
                &&& offset > l.len() ==> p.0@.len() == 0
            },
    {
        match self.find(id) {
            None => None,
            Some(i) => Some(self.runs[i].log.read_from(offset)),
        }
    }

    /// Polls the log of the run `id` with `tailer`: the events of the lines
    /// completed since its last poll. `None`, and the tailer untouched, for an
    /// unknown run.
    pub fn poll_log(&self, id: u128, tailer: &mut Tailer) -> (r: Option<Vec<Vec<u8>>>)
        ensures
            r is Some == self.has(id),
            !self.has(id) ==> *final(tailer) == *old(tailer),
            self.has(id) ==> {
                let l = self.log_of(id);
                &&& old(tailer).offset() <= l.len() ==> {
                    let rest = l.subrange(old(tailer).offset() as int, l.len() as int);
                    &&& final(tailer).offset() == old(tailer).offset() + crate::log::boundary(rest)
                    &&& r.unwrap().deep_view() == crate::log::events(crate::log::lines(rest))
                }
                &&& old(tailer).offset() > l.len() ==> final(tailer).offset() == old(
                    tailer,
                ).offset() && r.unwrap()@.len() == 0
            },
    {
        match self.find(id) {
            None => None,
            Some(i) => Some(tailer.poll(&self.runs[i].log)),
        }
    }

    /// The analysis artifact of the run `id`: not found for an unknown run, not
    /// ready until the artifact was stored, and then always the same bytes.
    pub fn analysis(&self, id: u128) -> (r: AnalysisLookup)
        ensures
            !self.has(id) ==> r is NotFound,
            self.has(id) && self.analysis_of(id) is None ==> r is NotReady,
            self.has(id) && self.analysis_of(id) is Some ==> (r matches AnalysisLookup::Ready(v)
                && v@ == self.analysis_of(id).unwrap()),
    {
        match self.find(id) {
            None => AnalysisLookup::NotFound,
            Some(i) => match &self.runs[i].analysis {
                None => AnalysisLookup::NotReady,
                Some(v) => AnalysisLookup::Ready(v.clone()),
            },
        }
    }

    /// After the record at slot `i`, which holds `id`, was changed in place, the
    /// slots of all runs are as before.
    proof fn lemma_updated_slot(&self, old_runs: Seq<RunRecord>, i: int, id: u128)
        requires
            0 <= i < old_runs.len(),
            old_runs[i].id == id,
            lookup_from(old_runs, id, 0) == Some(i),
            self.runs@.len() == old_runs.len(),
            self.runs@[i].id == id,
            forall|k: int| 0 <= k < old_runs.len() && k != i ==> self.runs@[k] == old_runs[k],
        ensures
            forall|o: u128| #[trigger]
                lookup_from(self.runs@, o, 0) == lookup_from(old_runs, o, 0),
            forall|o: u128|
                o != id && #[trigger] lookup_from(old_runs, o, 0) is Some ==> self.runs@[lookup_from(
                    old_runs,
                    o,
                    0,
                ).unwrap()] == old_runs[lookup_from(old_runs, o, 0).unwrap()],
    {
        assert forall|o: u128| #[trigger]
            lookup_from(self.runs@, o, 0) == lookup_from(old_runs, o, 0) by {
            lemma_lookup_same_ids(self.runs@, old_runs, o, 0);
        }
        assert forall|o: u128|
            o != id && #[trigger] lookup_from(old_runs, o, 0) is Some implies self.runs@[lookup_from(
                old_runs,
                o,
                0,
            ).unwrap()] == old_runs[lookup_from(old_runs, o, 0).unwrap()] by {
            lemma_lookup_found(old_runs, o, 0);
        }
    }
}

/// The analysis trigger fires at most once per run: once `begin_analysis` has
/// fired for a run, it does not fire for it again, since it leaves the run marked
/// as started and no method of the registry clears that mark.
pub proof fn law_trigger_fires_once(before: RunRegistry, after: RunRegistry, id: u128)
    requires
        before.trigger_fires(id),
        after.has(id),
        after.run(id) == (
            before.run(id).0,
            before.run(id).1,
            before.run(id).2,
            before.run(id).3,
            true,
            before.run(id).5,
        ),
    ensures
        !after.trigger_fires(id),
{
}

/// A stored analysis artifact is final: the run that holds it has ended, so
/// `finish_analysis` refuses it from then on and no other method replaces the
/// artifact; every later lookup hands out the same bytes.
pub proof fn law_artifact_is_final(reg: RunRegistry, id: u128)
    requires
        reg.wf(),
        reg.has(id),
        reg.analysis_of(id) is Some,
    ensures
        reg.stage_of(id) is Done,
{
    lemma_lookup_found(reg.runs@, id, 0);
}

} // verus!
