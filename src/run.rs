//! A run as observed through status polling, its outcome, and the decisions
//! of a submit / wait / download session.

use vstd::prelude::*;
use crate::text::same_text;

verus! {

/// The status of a run as reported by the service.
#[derive(Debug, Clone, PartialEq, Eq)]
pub struct TestRun {
    pub id: String,
    /// Server-defined state; `passed` and `failure` are the recognized ones.
    pub state: String,
    pub passed: Option<u32>,
    pub failed: Option<u32>,
    pub ignored: Option<u32>,
    /// Completion time as seconds since the Unix epoch; absent while the
    /// run is still going.
    pub completed: Option<i64>,
}

/// What a finished run came to.
#[derive(Debug, Clone, Copy, PartialEq, Eq)]
pub enum Outcome {
    Passed,
    Failure,
    /// Any state other than `passed` and `failure`.
    Crashed,
}

/// The outcome of a finished run in state `state`.
pub open spec fn outcome_of(state: Seq<char>) -> Outcome {
    if state == "passed"@ {
        Outcome::Passed
    } else if state == "failure"@ {
        Outcome::Failure
    } else {
        Outcome::Crashed
    }
}

/// Whether the invocation succeeds: only a failure outcome fails it, and
/// only when failures are not to be ignored.
pub open spec fn exit_ok(outcome: Outcome, ignore_test_failures: Option<bool>) -> bool {
    !(outcome == Outcome::Failure && ignore_test_failures != Some(true))
}

/// Classifies the state of a finished run.
pub fn classify_state(state: &str) -> (r: Outcome)
    ensures
        r == outcome_of(state@),
{
    if same_text(state, "passed") {
        Outcome::Passed
    } else if same_text(state, "failure") {
        Outcome::Failure
    } else {
        Outcome::Crashed
    }
}

impl Outcome {
    /// The line that announces this outcome.
    pub fn narrative(&self) -> (r: &'static str)
        ensures
            r@ == (match self {
                Outcome::Passed => "Marathon Cloud execution finished"@,
                Outcome::Failure => "Marathon Cloud execution finished with failures"@,
                Outcome::Crashed => "Marathon cloud execution crashed"@,
            }),
    {
        match self {
            Outcome::Passed => "Marathon Cloud execution finished",
            Outcome::Failure => "Marathon Cloud execution finished with failures",
            Outcome::Crashed => "Marathon cloud execution crashed",
        }
    }
}

/// The exit disposition of a run with outcome `outcome`.
pub fn exit_disposition(outcome: Outcome, ignore_test_failures: Option<bool>) -> (r: bool)
    ensures
        r == exit_ok(outcome, ignore_test_failures),
{
    match (outcome, ignore_test_failures) {
        (Outcome::Failure, Some(true)) => true,
        (Outcome::Failure, _) => false,
        _ => true,
    }
}

/// Seconds between two status checks.
pub const POLL_INTERVAL_SECONDS: u64 = 5;

/// Where a session stands.
#[derive(Debug, Clone, PartialEq, Eq)]
pub enum SessionPhase {
    /// The run is being created.
    Submitting,
    /// Waiting for the run to finish.
    Polling { run_id: String },
    /// Retrieving the run's artifacts; `success` is the exit disposition
    /// already decided.
    Downloading { run_id: String, success: bool },
    Finished { success: bool },
}

/// What the caller observed since the last step.
#[derive(Debug, Clone, PartialEq, Eq)]
pub enum SessionEvent {
    RunCreated { run_id: String },
    StatusReceived { run: TestRun },
    ArtifactsDownloaded,
}

/// What the caller must do next.
#[derive(Debug, Clone, PartialEq, Eq)]
pub enum SessionAction {
    FetchStatus { run_id: String },
    WaitThenFetchStatus { run_id: String, seconds: u64 },
    /// Report `outcome` where there is one, then list, filter and download
    /// the artifacts.
    DownloadArtifacts { run_id: String, outcome: Option<Outcome> },
    /// Report `outcome` where there is one, then end with `success`.
    Exit { success: bool, outcome: Option<Outcome> },
}

/// The decisions of one submit / wait / download invocation.
#[derive(Debug, Clone, PartialEq, Eq)]
pub struct RunSession {
    /// Wait for the run to finish before going on.
    pub wait: bool,
    /// Retrieve the artifacts once the run is over.
    pub download: bool,
    pub ignore_test_failures: Option<bool>,
    pub phase: SessionPhase,
}

/// Whether a session in `phase` can take `event`.
pub open spec fn accepts(phase: SessionPhase, event: SessionEvent) -> bool {
    match (phase, event) {
        (SessionPhase::Submitting, SessionEvent::RunCreated { .. }) => true,
        (SessionPhase::Polling { .. }, SessionEvent::StatusReceived { .. }) => true,
        (SessionPhase::Downloading { .. }, SessionEvent::ArtifactsDownloaded) => true,
        _ => false,
    }
}

/// The phase and action that follow `event` in session `s`.
pub open spec fn transition(s: RunSession, event: SessionEvent) -> (SessionPhase, SessionAction) {
    match (s.phase, event) {
        (SessionPhase::Submitting, SessionEvent::RunCreated { run_id }) => if s.wait {
            (SessionPhase::Polling { run_id }, SessionAction::FetchStatus { run_id })
        } else {
            (
                SessionPhase::Finished { success: true },
                SessionAction::Exit { success: true, outcome: None },
            )
        },
        (SessionPhase::Polling { run_id }, SessionEvent::StatusReceived { run }) => {
            if run.completed is Some {
                let outcome = outcome_of(run.state@);
                let ok = exit_ok(outcome, s.ignore_test_failures);
                if s.download {
                    (
                        SessionPhase::Downloading { run_id, success: ok },
                        SessionAction::DownloadArtifacts { run_id, outcome: Some(outcome) },
                    )
                } else {
                    (
                        SessionPhase::Finished { success: ok },
                        SessionAction::Exit { success: ok, outcome: Some(outcome) },
                    )
                }
            } else if s.wait {
                (
                    SessionPhase::Polling { run_id },
                    SessionAction::WaitThenFetchStatus { run_id, seconds: POLL_INTERVAL_SECONDS },
                )
            } else if s.download {
                (
                    SessionPhase::Downloading { run_id, success: true },
                    SessionAction::DownloadArtifacts { run_id, outcome: None },
                )
            } else {
                (
                    SessionPhase::Finished { success: true },
                    SessionAction::Exit { success: true, outcome: None },
                )
            }
        },
        (SessionPhase::Downloading { success, .. }, SessionEvent::ArtifactsDownloaded) => (
            SessionPhase::Finished { success },
            SessionAction::Exit { success, outcome: None },
        ),
        _ => (s.phase, SessionAction::Exit { success: false, outcome: None }),
    }
}

impl RunSession {
    /// A session that starts by submitting a run.
    pub fn submission(wait: bool, download: bool, ignore_test_failures: Option<bool>) -> (r:
        RunSession)
        ensures
            r == (RunSession { wait, download, ignore_test_failures, phase: SessionPhase::Submitting }),
    {
        RunSession { wait, download, ignore_test_failures, phase: SessionPhase::Submitting }
    }

    /// A session that starts by checking the existing run `run_id` and ends
    /// by downloading its artifacts. Test failures do not fail it.
    pub fn retrieval(run_id: String, wait: bool) -> (r: RunSession)
        ensures
            r == (RunSession {
                wait,
                download: true,
                ignore_test_failures: Some(true),
                phase: SessionPhase::Polling { run_id },
            }),
    {
        RunSession {
            wait,
            download: true,
            ignore_test_failures: Some(true),
            phase: SessionPhase::Polling { run_id },
        }
    }

    /// Whether the session can take `event` now.
    pub fn accepts(&self, event: &SessionEvent) -> (r: bool)
        ensures
            r == accepts(self.phase, *event),
    {
        match (&self.phase, event) {
            (SessionPhase::Submitting, SessionEvent::RunCreated { .. }) => true,
            (SessionPhase::Polling { .. }, SessionEvent::StatusReceived { .. }) => true,
            (SessionPhase::Downloading { .. }, SessionEvent::ArtifactsDownloaded) => true,
            _ => false,
        }
    }

    /// Takes `event` and says what to do next.
    pub fn step(&mut self, event: SessionEvent) -> (action: SessionAction)
        requires
            accepts(old(self).phase, event),
        ensures
            final(self).wait == old(self).wait,
            final(self).download == old(self).download,
            final(self).ignore_test_failures == old(self).ignore_test_failures,
            (final(self).phase, action) == transition(*old(self), event),
    {
        match event {
            SessionEvent::RunCreated { run_id } => {
                if self.wait {
                    self.phase = SessionPhase::Polling { run_id: run_id.clone() };
                    SessionAction::FetchStatus { run_id }
                } else {
                    self.phase = SessionPhase::Finished { success: true };
                    SessionAction::Exit { success: true, outcome: None }
                }
            },
            SessionEvent::StatusReceived { run } => {
                let run_id = match &self.phase {
                    SessionPhase::Polling { run_id } => run_id.clone(),
                    _ => String::new(),
                };
                if run.completed.is_some() {
                    let outcome = classify_state(run.state.as_str());
                    let ok = exit_disposition(outcome, self.ignore_test_failures);
                    if self.download {
                        self.phase = SessionPhase::Downloading { run_id: run_id.clone(), success: ok };
                        SessionAction::DownloadArtifacts { run_id, outcome: Some(outcome) }
                    } else {
                        self.phase = SessionPhase::Finished { success: ok };
                        SessionAction::Exit { success: ok, outcome: Some(outcome) }
                    }
                } else if self.wait {
                    SessionAction::WaitThenFetchStatus { run_id, seconds: POLL_INTERVAL_SECONDS }
                } else if self.download {
                    self.phase = SessionPhase::Downloading { run_id: run_id.clone(), success: true };
                    SessionAction::DownloadArtifacts { run_id, outcome: None }
                } else {
                    self.phase = SessionPhase::Finished { success: true };
                    SessionAction::Exit { success: true, outcome: None }
                }
            },
            SessionEvent::ArtifactsDownloaded => {
                let success = match &self.phase {
                    SessionPhase::Downloading { success, .. } => *success,
                    _ => false,
                };
                self.phase = SessionPhase::Finished { success };
                SessionAction::Exit { success, outcome: None }
            },
        }
    }
}

/// While waiting, a status response ends the polling exactly when it
/// carries a completion time; the outcome then reported is the one its
/// state names, and the session fails only for a `failure` outcome with
/// failures not ignored.
pub proof fn lemma_polling_law(s: RunSession, run_id: String, run: TestRun)
    requires
        s.wait,
        s.phase == (SessionPhase::Polling { run_id }),
    ensures
        (transition(s, SessionEvent::StatusReceived { run }).0 is Polling) <==> run.completed is None,
        run.completed is None ==> transition(s, SessionEvent::StatusReceived { run }).1
            is WaitThenFetchStatus,
        run.completed is Some ==> ({
            let outcome = outcome_of(run.state@);
            let ok = !(outcome == Outcome::Failure && s.ignore_test_failures != Some(true));
            &&& outcome == Outcome::Passed <==> run.state@ == "passed"@
            &&& outcome == Outcome::Failure <==> run.state@ == "failure"@
            &&& transition(s, SessionEvent::StatusReceived { run }).1 == if s.download {
                SessionAction::DownloadArtifacts { run_id: run_id, outcome: Some(outcome) }
            } else {
                SessionAction::Exit { success: ok, outcome: Some(outcome) }
            }
            &&& s.download ==> transition(s, SessionEvent::StatusReceived { run }).0
                == SessionPhase::Downloading { run_id: run_id, success: ok }
        }),
{
    if run.completed is Some {
        reveal_strlit("passed");
        reveal_strlit("failure");
        assert("passed"@ != "failure"@) by {
            assert("passed"@[0] != "failure"@[0]);
        }
    }
}

} // verus!
