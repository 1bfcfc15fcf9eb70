//! The three commands of the client, as far as their decisions go. Each
//! one's I/O is carried out by the caller, step by step, as its session
//! directs.

use vstd::prelude::*;
use crate::platform::Platform;
use crate::run::{RunSession, SessionPhase};

verus! {

/// Downloads the artifacts of an existing run.
#[derive(Debug, Clone, Copy, PartialEq, Eq)]
pub struct DownloadArtifactsInteractor {}

/// Submits a run, optionally waits for it and downloads its artifacts.
#[derive(Debug, Clone, Copy, PartialEq, Eq)]
pub struct TriggerTestRunInteractor {}

/// Lists the devices the service offers for a platform.
#[derive(Debug, Clone, Copy, PartialEq, Eq)]
pub struct GetDeviceCatalogInteractor {}

impl DownloadArtifactsInteractor {
    /// The session of a download: check run `run_id`, waiting for it to
    /// finish where `wait` is set, then download. Test failures do not fail
    /// a download.
    pub fn session(&self, run_id: String, wait: bool) -> (r: RunSession)
        ensures
            r == (RunSession {
                wait,
                download: true,
                ignore_test_failures: Some(true),
                phase: SessionPhase::Polling { run_id },
            }),
    {
        RunSession::retrieval(run_id, wait)
    }
}

impl TriggerTestRunInteractor {
    /// How many numbered steps the command announces.
    pub fn step_count(&self, wait: bool, has_output: bool) -> (r: u32)
        ensures
            r == (if wait && has_output {
                5u32
            } else if wait {
                2u32
            } else {
                1u32
            }),
    {
        if wait && has_output {
            5
        } else if wait {
            2
        } else {
            1
        }
    }

    /// The session of a submission: submit, then wait where `wait` is set,
    /// then download where an output directory was given.
    pub fn session(&self, wait: bool, has_output: bool, ignore_test_failures: Option<bool>) -> (r:
        RunSession)
        ensures
            r == (RunSession {
                wait,
                download: has_output,
                ignore_test_failures,
                phase: SessionPhase::Submitting,
            }),
    {
        RunSession::submission(wait, has_output, ignore_test_failures)
    }
}

impl GetDeviceCatalogInteractor {
    /// Whether the service publishes a device catalog for `platform`.
    pub fn supports(&self, platform: Platform) -> (r: bool)
        ensures
            r == (platform == Platform::Android),
    {
        match platform {
            Platform::Android => true,
            Platform::iOS => false,
        }
    }
}

} // verus!
