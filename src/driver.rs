//! The build-lifecycle driver: from a build handle to a test result.
//!
//! A build is queued, then running, then done. The driver says what to fetch
//! next and, from each fetched document, how the build moved on; the caller
//! performs each fetch, waits where told to, and feeds the outcome back.

use vstd::prelude::*;

use crate::jenkins::{
    api_json_url, is_transient, transient, queue_entry_spec, result_spec, status_spec, FetchOutcome,
    JenkinsBackend, JenkinsBuildStatus, ProtocolError, TestState,
};
use crate::json::{json_field, json_valid};

verus! {

/// Where a build stands, as far as the driver has seen.
#[derive(PartialEq, Eq, Structural, Clone, Copy, Debug)]
pub enum Phase {
    /// Waiting for the queue entry to name an executing build.
    Queued,
    /// Waiting for the build to stop running.
    Running,
    /// The build is done; waiting for its result.
    Finishing,
    /// The build's result is known.
    Finished(TestState),
    /// The server broke the protocol; nothing more is asked.
    Halted(ProtocolError),
}

/// The lifecycle of one build.
pub struct BuildDriver {
    phase: Phase,
    handle: String,
    build: String,
}

/// A driver as a value: its phase, its build handle, and the URL of the
/// executing build once the queue entry has named one.
pub struct DriverView {
    pub phase: Phase,
    pub handle: Seq<char>,
    pub build: Seq<char>,
}

/// What the caller is to do next.
#[derive(PartialEq, Eq, Debug)]
pub enum Action {
    /// Fetch this JSON document now.
    Fetch(String),
    /// Wait one polling interval, then fetch this JSON document.
    FetchAfterInterval(String),
    /// The build is over with this result.
    Report(TestState),
    /// The server broke the protocol.
    Halt(ProtocolError),
}

pub enum ActionView {
    Fetch(Seq<char>),
    FetchAfterInterval(Seq<char>),
    Report(TestState),
    Halt(ProtocolError),
}

/// What a fetched document says, read for the phase the driver is in.
#[derive(PartialEq, Eq, Debug)]
pub enum Observation {
    /// No usable answer: the server was unreachable or failed.
    Transient,
    /// The queue entry names no executing build yet.
    StillQueued,
    /// The queue entry names the executing build at this URL.
    Started(String),
    /// The build's status.
    Status(JenkinsBuildStatus),
    /// The build's result, if it gives one.
    Outcome(Option<TestState>),
    /// The document breaks the protocol.
    Broken(ProtocolError),
}

pub enum ObservationView {
    Transient,
    StillQueued,
    Started(Seq<char>),
    Status(JenkinsBuildStatus),
    Outcome(Option<TestState>),
    Broken(ProtocolError),
}

impl View for BuildDriver {
    type V = DriverView;

    closed spec fn view(&self) -> DriverView {
        DriverView { phase: self.phase, handle: self.handle@, build: self.build@ }
    }
}

impl View for Action {
    type V = ActionView;

    open spec fn view(&self) -> ActionView {
        match self {
            Action::Fetch(u) => ActionView::Fetch(u@),
            Action::FetchAfterInterval(u) => ActionView::FetchAfterInterval(u@),
            Action::Report(s) => ActionView::Report(*s),
            Action::Halt(e) => ActionView::Halt(*e),
        }
    }
}

impl View for Observation {
    type V = ObservationView;

    open spec fn view(&self) -> ObservationView {
        match self {
            Observation::Transient => ObservationView::Transient,
            Observation::StillQueued => ObservationView::StillQueued,
            Observation::Started(u) => ObservationView::Started(u@),
            Observation::Status(s) => ObservationView::Status(*s),
            Observation::Outcome(r) => ObservationView::Outcome(*r),
            Observation::Broken(e) => ObservationView::Broken(*e),
        }
    }
}

/// Whether the driver has nothing more to ask.
pub open spec fn terminal(phase: Phase) -> bool {
    phase is Finished || phase is Halted
}

/// The document that the driver polls in its phase: the queue entry's while
/// queued, else the build's.
pub open spec fn polled_url(d: DriverView) -> Seq<char> {
    if d.phase is Queued {
        d.handle + "api/json"@
    } else {
        d.build + "api/json"@
    }
}

/// The driver in a halted phase, with the halting action.
pub open spec fn halted(d: DriverView, e: ProtocolError) -> (DriverView, ActionView) {
    (DriverView { phase: Phase::Halted(e), ..d }, ActionView::Halt(e))
}

/// One transition: the driver and the action that follow an observation.
///
/// A finished or halted driver stays as it is and repeats its last word. A
/// transient observation changes nothing and polls the same document again
/// after the interval. A queue entry that names a build moves the driver to
/// running; a build that is no longer building moves it to finishing; the
/// result that follows ends it, with `Unknown` where the build gives none. An
/// observation that does not belong to the phase halts it.
pub open spec fn next(d: DriverView, o: ObservationView) -> (DriverView, ActionView) {
    match d.phase {
        Phase::Finished(s) => (d, ActionView::Report(s)),
        Phase::Halted(e) => (d, ActionView::Halt(e)),
        _ => match o {
            ObservationView::Transient => (d, ActionView::FetchAfterInterval(polled_url(d))),
            ObservationView::Broken(e) => halted(d, e),
            ObservationView::StillQueued => if d.phase is Queued {
                (d, ActionView::FetchAfterInterval(polled_url(d)))
            } else {
                halted(d, ProtocolError::UnexpectedStructure)
            },
            ObservationView::Started(u) => if d.phase is Queued {
                (
                    DriverView { phase: Phase::Running, build: u, ..d },
                    ActionView::Fetch(u + "api/json"@),
                )
            } else {
                halted(d, ProtocolError::UnexpectedStructure)
            },
            ObservationView::Status(s) => if d.phase is Running {
                match s {
                    JenkinsBuildStatus::Running => (
                        d,
                        ActionView::FetchAfterInterval(polled_url(d)),
                    ),
                    JenkinsBuildStatus::Done => (
                        DriverView { phase: Phase::Finishing, ..d },
                        ActionView::Fetch(polled_url(d)),
                    ),
                }
            } else {
                halted(d, ProtocolError::UnexpectedStructure)
            },
            ObservationView::Outcome(r) => if d.phase is Finishing {
                let s = match r {
                    Some(s) => s,
                    None => TestState::Unknown,
                };
                (DriverView { phase: Phase::Finished(s), ..d }, ActionView::Report(s))
            } else {
                halted(d, ProtocolError::UnexpectedStructure)
            },
        },
    }
}

/// What a document says, read for `phase`: a body that is not JSON breaks the
/// protocol; a queue entry gives its build or says it is still queued; a
/// running build gives its status; a finishing build gives its result.
pub open spec fn read_spec(phase: Phase, document: Seq<char>) -> ObservationView {
    if !json_valid(document) {
        ObservationView::Broken(ProtocolError::InvalidJson)
    } else {
        match phase {
            Phase::Queued => match queue_entry_spec(
                json_field(document, seq!["executable"@]),
                json_field(document, seq!["executable"@, "url"@]),
            ) {
                Ok(Some(u)) => ObservationView::Started(u),
                Ok(None) => ObservationView::StillQueued,
                Err(e) => ObservationView::Broken(e),
            },
            Phase::Running => match status_spec(json_field(document, seq!["building"@])) {
                Ok(s) => ObservationView::Status(s),
                Err(e) => ObservationView::Broken(e),
            },
            Phase::Finishing => ObservationView::Outcome(
                result_spec(json_field(document, seq!["result"@])),
            ),
            _ => ObservationView::Transient,
        }
    }
}

/// What a fetch outcome says in `phase`: no response, a server error (5xx), or
/// any outcome once the driver is finished or halted, is transient; any other
/// response is its body read for the phase.
pub open spec fn observation_of(phase: Phase, outcome: FetchOutcome) -> ObservationView {
    match outcome {
        FetchOutcome::Unreachable => ObservationView::Transient,
        FetchOutcome::Response { status, body } => if 500 <= status <= 599 || terminal(phase) {
            ObservationView::Transient
        } else {
            read_spec(phase, body@)
        },
    }
}

/// The driver after a sequence of observations.
pub open spec fn run(d: DriverView, os: Seq<ObservationView>) -> DriverView
    decreases os.len(),
{
    if os.len() == 0 {
        d
    } else {
        run(next(d, os[0]).0, os.drop_first())
    }
}

impl BuildDriver {
    /// A driver for a freshly started build, and its first action: fetch the
    /// queue entry's document.
    pub fn new(handle: String) -> (r: (BuildDriver, Action))
        ensures
            r.0@.phase == Phase::Queued,
            r.0@.handle == handle@,
            r.1@ == ActionView::Fetch(handle@ + "api/json"@),
    {
        let first = api_json_url(handle.as_str());
        (BuildDriver { phase: Phase::Queued, handle, build: String::new() }, Action::Fetch(first))
    }

    pub fn phase(&self) -> (r: Phase)
        ensures
            r == self@.phase,
    {
        self.phase
    }

    /// The URL of the executing build; empty while queued.
    pub fn build_url(&self) -> (r: &String)
        ensures
            r@ == self@.build,
    {
        &self.build
    }

    fn polled(&self) -> (r: String)
        ensures
            r@ == polled_url(self@),
    {
        match self.phase {
            Phase::Queued => api_json_url(self.handle.as_str()),
            _ => api_json_url(self.build.as_str()),
        }
    }

    fn halt(&mut self, e: ProtocolError) -> (a: Action)
        ensures
            (final(self)@, a@) == halted(old(self)@, e),
    {
        self.phase = Phase::Halted(e);
        Action::Halt(e)
    }

    /// Moves the driver on by one observation.
    pub fn advance(&mut self, o: Observation) -> (a: Action)
        ensures
            (final(self)@, a@) == next(old(self)@, o@),
    {
        match self.phase {
            Phase::Finished(s) => Action::Report(s),
            Phase::Halted(e) => Action::Halt(e),
            Phase::Queued => match o {
                Observation::Transient | Observation::StillQueued => Action::FetchAfterInterval(
                    self.polled(),
                ),
                Observation::Started(u) => {
                    let url = api_json_url(u.as_str());
                    self.phase = Phase::Running;
                    self.build = u;
                    Action::Fetch(url)
                },
                Observation::Broken(e) => self.halt(e),
                _ => self.halt(ProtocolError::UnexpectedStructure),
            },
            Phase::Running => match o {
                Observation::Transient => Action::FetchAfterInterval(self.polled()),
                Observation::Status(JenkinsBuildStatus::Running) => Action::FetchAfterInterval(
                    self.polled(),
                ),
                Observation::Status(JenkinsBuildStatus::Done) => {
                    self.phase = Phase::Finishing;
                    Action::Fetch(self.polled())
                },
                Observation::Broken(e) => self.halt(e),
                _ => self.halt(ProtocolError::UnexpectedStructure),
            },
            Phase::Finishing => match o {
                Observation::Transient => Action::FetchAfterInterval(self.polled()),
                Observation::Outcome(r) => {
                    let s = match r {
                        Some(s) => s,
                        None => TestState::Unknown,
                    };
                    self.phase = Phase::Finished(s);
                    Action::Report(s)
                },
                Observation::Broken(e) => self.halt(e),
                _ => self.halt(ProtocolError::UnexpectedStructure),
            },
        }
    }

    /// Reads a fetched document for the phase the driver is in. A transient
    /// outcome, or any outcome once the driver is finished or halted, reads
    /// as transient.
    pub fn observe(&self, backend: &JenkinsBackend, outcome: &FetchOutcome) -> (o: Observation)
        ensures
            o@ == observation_of(self@.phase, *outcome),
    {
        match outcome {
            FetchOutcome::Unreachable => Observation::Transient,
            FetchOutcome::Response { body, .. } => {
                if is_transient(outcome) {
                    return Observation::Transient;
                }
                match self.phase {
                    Phase::Queued => match backend.get_build_url(body.as_str()) {
                        Ok(Some(u)) => Observation::Started(u),
                        Ok(None) => Observation::StillQueued,
                        Err(e) => Observation::Broken(e),
                    },
                    Phase::Running => match backend.get_build_status(body.as_str()) {
                        Ok(s) => Observation::Status(s),
                        Err(e) => Observation::Broken(e),
                    },
                    Phase::Finishing => match backend.get_build_result(body.as_str()) {
                        Ok(r) => Observation::Outcome(r),
                        Err(e) => Observation::Broken(e),
                    },
                    _ => Observation::Transient,
                }
            },
        }
    }

    /// Moves the driver on by one fetch outcome, read for its phase. A
    /// transient outcome leaves the driver as it was and polls the same
    /// document again after the interval.
    pub fn step(&mut self, backend: &JenkinsBackend, outcome: FetchOutcome) -> (a: Action)
        ensures
            (final(self)@, a@) == next(old(self)@, observation_of(old(self)@.phase, outcome)),
            transient(outcome) && !terminal(old(self)@.phase) ==> final(self)@ == old(self)@
                && a@ == ActionView::FetchAfterInterval(polled_url(old(self)@)),
    {
        let o = self.observe(backend, &outcome);
        self.advance(o)
    }
}

/// Transient failures are retried without effect: any number of transient
/// observations followed by one observation leave an unfinished driver where
/// that one observation alone would have left it.
pub proof fn lemma_transient_retried(d: DriverView, n: nat, o: ObservationView)
    requires
        !terminal(d.phase),
    ensures
        run(d, Seq::new(n, |i: int| ObservationView::Transient).push(o)) == next(d, o).0,
    decreases n,
{
    let os = Seq::new(n, |i: int| ObservationView::Transient).push(o);
    if n == 0 {
        assert(os[0] == o);
        assert(os.drop_first() =~= Seq::<ObservationView>::empty());
        assert(run(next(d, o).0, os.drop_first()) == next(d, o).0);
    } else {
        assert(os[0] == ObservationView::Transient);
        assert(os.drop_first() =~= Seq::new((n - 1) as nat, |i: int| ObservationView::Transient).push(o));
        assert(next(d, os[0]).0 == d);
        lemma_transient_retried(d, (n - 1) as nat, o);
    }
}

/// A result is reported only once the build is done: the driver reports only
/// from the finishing phase, where the build has stopped running, or repeats
/// the result it already reported.
pub proof fn lemma_report_only_when_done(d: DriverView, o: ObservationView)
    ensures
        next(d, o).1 is Report ==> d.phase is Finishing || d.phase is Finished,
        next(d, o).1 is Report && d.phase is Finishing ==> o is Outcome,
{
}

/// Resolution is monotonic: once the queue entry has named a build, the driver
/// never goes back to the queue, and the build it follows never changes.
pub proof fn lemma_resolution_monotonic(d: DriverView, o: ObservationView)
    requires
        !(d.phase is Queued),
    ensures
        !(next(d, o).0.phase is Queued),
        next(d, o).0.build == d.build,
        next(d, o).0.handle == d.handle,
{
}

/// A driver that has finished or halted stays as it is, whatever follows.
pub proof fn lemma_terminal_stable(d: DriverView, os: Seq<ObservationView>)
    requires
        terminal(d.phase),
    ensures
        run(d, os) == d,
    decreases os.len(),
{
    if os.len() > 0 {
        lemma_terminal_stable(next(d, os[0]).0, os.drop_first());
    }
}

} // verus!
