use marathon_cloud::interactor::{
    DownloadArtifactsInteractor, GetDeviceCatalogInteractor, TriggerTestRunInteractor,
};
use marathon_cloud::platform::Platform;
use marathon_cloud::run::{
    classify_state, exit_disposition, Outcome, RunSession, SessionAction, SessionEvent,
    SessionPhase, TestRun,
};

fn status(state: &str, completed: Option<i64>) -> TestRun {
    TestRun {
        id: "run42".to_string(),
        state: state.to_string(),
        passed: Some(1),
        failed: Some(0),
        ignored: None,
        completed,
    }
}

#[test]
fn states_are_classified() {
    assert_eq!(classify_state("passed"), Outcome::Passed);
    assert_eq!(classify_state("failure"), Outcome::Failure);
    assert_eq!(classify_state("crashed"), Outcome::Crashed);
    assert_eq!(classify_state(""), Outcome::Crashed);
    assert_eq!(classify_state("Passed"), Outcome::Crashed);
}

#[test]
fn narratives() {
    assert_eq!(Outcome::Passed.narrative(), "Marathon Cloud execution finished");
    assert_eq!(Outcome::Failure.narrative(), "Marathon Cloud execution finished with failures");
    assert_eq!(Outcome::Crashed.narrative(), "Marathon cloud execution crashed");
}

#[test]
fn only_unignored_failure_is_unsuccessful() {
    assert!(!exit_disposition(Outcome::Failure, None));
    assert!(!exit_disposition(Outcome::Failure, Some(false)));
    assert!(exit_disposition(Outcome::Failure, Some(true)));
    assert!(exit_disposition(Outcome::Passed, None));
    assert!(exit_disposition(Outcome::Crashed, Some(false)));
}

#[test]
fn polling_continues_until_completion() {
    let mut s = TriggerTestRunInteractor {}.session(true, false, None);
    let a = s.step(SessionEvent::RunCreated { run_id: "run42".to_string() });
    assert_eq!(a, SessionAction::FetchStatus { run_id: "run42".to_string() });
    for _ in 0..3 {
        let a = s.step(SessionEvent::StatusReceived { run: status("running", None) });
        assert_eq!(
            a,
            SessionAction::WaitThenFetchStatus { run_id: "run42".to_string(), seconds: 5 }
        );
        assert_eq!(s.phase, SessionPhase::Polling { run_id: "run42".to_string() });
    }
    let a = s.step(SessionEvent::StatusReceived { run: status("failure", Some(1_700_000_000)) });
    assert_eq!(a, SessionAction::Exit { success: false, outcome: Some(Outcome::Failure) });
    assert_eq!(s.phase, SessionPhase::Finished { success: false });
}

#[test]
fn ignored_failure_downloads_then_succeeds() {
    let mut s = TriggerTestRunInteractor {}.session(true, true, Some(true));
    s.step(SessionEvent::RunCreated { run_id: "r".to_string() });
    let a = s.step(SessionEvent::StatusReceived { run: status("failure", Some(0)) });
    assert_eq!(
        a,
        SessionAction::DownloadArtifacts { run_id: "r".to_string(), outcome: Some(Outcome::Failure) }
    );
    let a = s.step(SessionEvent::ArtifactsDownloaded);
    assert_eq!(a, SessionAction::Exit { success: true, outcome: None });
}

#[test]
fn no_wait_exits_after_submission() {
    let mut s = TriggerTestRunInteractor {}.session(false, true, None);
    let a = s.step(SessionEvent::RunCreated { run_id: "r".to_string() });
    assert_eq!(a, SessionAction::Exit { success: true, outcome: None });
}

#[test]
fn download_without_wait_goes_on_while_running() {
    let mut s = DownloadArtifactsInteractor {}.session("r".to_string(), false);
    let a = s.step(SessionEvent::StatusReceived { run: status("running", None) });
    assert_eq!(a, SessionAction::DownloadArtifacts { run_id: "r".to_string(), outcome: None });
}

#[test]
fn download_with_wait_polls_and_ignores_failures() {
    let mut s = DownloadArtifactsInteractor {}.session("r".to_string(), true);
    let ev = SessionEvent::StatusReceived { run: status("running", None) };
    assert!(s.accepts(&ev));
    assert!(!s.accepts(&SessionEvent::ArtifactsDownloaded));
    assert!(matches!(s.step(ev), SessionAction::WaitThenFetchStatus { .. }));
    let a = s.step(SessionEvent::StatusReceived { run: status("failure", Some(5)) });
    assert_eq!(
        a,
        SessionAction::DownloadArtifacts { run_id: "r".to_string(), outcome: Some(Outcome::Failure) }
    );
    assert_eq!(
        s.step(SessionEvent::ArtifactsDownloaded),
        SessionAction::Exit { success: true, outcome: None }
    );
}

#[test]
fn session_constructors() {
    let s = RunSession::submission(true, false, Some(false));
    assert_eq!(s.phase, SessionPhase::Submitting);
    assert!(s.wait && !s.download);
}

#[test]
fn step_counts() {
    let t = TriggerTestRunInteractor {};
    assert_eq!(t.step_count(true, true), 5);
    assert_eq!(t.step_count(true, false), 2);
    assert_eq!(t.step_count(false, true), 1);
}

#[test]
fn device_catalog_platforms() {
    let g = GetDeviceCatalogInteractor {};
    assert!(g.supports(Platform::Android));
    assert!(!g.supports(Platform::iOS));
    assert_eq!(Platform::iOS.as_str(), "iOS");
}
