//! Retry quotas of a run.

use vstd::prelude::*;

verus! {

/// How many times a test may be run again, per kind of retry.
#[derive(Debug, Clone, Copy, PartialEq, Eq)]
pub struct RetryArgs {
    pub retry_quota_test_uncompleted: Option<u32>,
    pub retry_quota_test_preventive: Option<u32>,
    pub retry_quota_test_reactive: Option<u32>,
    /// Turn off every kind of retry.
    pub no_retries: bool,
}

impl RetryArgs {
    /// Quotas as given, with retries left on.
    pub fn new(
        retry_quota_test_uncompleted: Option<u32>,
        retry_quota_test_preventive: Option<u32>,
        retry_quota_test_reactive: Option<u32>,
    ) -> (r: RetryArgs)
        ensures
            r == (RetryArgs {
                retry_quota_test_uncompleted,
                retry_quota_test_preventive,
                retry_quota_test_reactive,
                no_retries: false,
            }),
    {
        RetryArgs {
            retry_quota_test_uncompleted,
            retry_quota_test_preventive,
            retry_quota_test_reactive,
            no_retries: false,
        }
    }
}

} // verus!
