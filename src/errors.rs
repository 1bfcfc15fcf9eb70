//! The library's error types and the one-line text each one renders as.

use vstd::prelude::*;
use crate::text::{decimal, decimal_text, joined};
use crate::urls::{url_without_query, without_query};

verus! {

/// A failed call to the service.
#[derive(Debug, Clone, PartialEq, Eq)]
pub enum ApiError {
    /// An endpoint address could not be built from the base URL.
    InvalidParameters { url: String },
    /// A response body did not have the expected shape.
    DeserializationFailure { error: String },
    /// The request failed without an HTTP status (connection, DNS, ...).
    RequestFailed { error: String },
    /// The service answered with a non-success status.
    RequestFailedWithCode { status_code: u16, error: String },
    /// The service refused the credentials (401 or 403).
    InvalidAuthenticationToken { error: String },
}

/// A malformed `KEY=VALUE` environment argument.
#[derive(Debug, Clone, PartialEq, Eq)]
pub enum EnvArgError {
    InvalidKeyValue { env_arg: String },
    MissingValue { env_arg: String },
}

/// A failure while listing, selecting or downloading artifacts.
#[derive(Debug, Clone, PartialEq, Eq)]
pub enum ArtifactError {
    ListFailed { error: String },
    DownloadFailed { error: String },
    InvalidGlob { glob: String, error: String },
}

/// A local input that cannot be used.
#[derive(Debug, Clone, PartialEq, Eq)]
pub enum InputError {
    InvalidFileName { path: String },
    OpenFileFailure { path: String, error: String },
    XctestplanMissingTargets,
    NonPositiveValue { arg: String },
}

/// A combination of run options that the service does not support.
#[derive(Debug, Clone, PartialEq, Eq)]
pub enum ConfigurationError {
    UnsupportedRunConfiguration { message: String },
}

/// A test filter that cannot be sent to the service.
#[derive(Debug, Clone, PartialEq, Eq)]
pub enum FilteringConfigurationError {
    UnsupportedFilterType { mtype: String },
    InvalidFilterType { mtype: String },
    InvalidFilterConfiguration { mtype: String, message: String },
}

/// The text of a transport failure: its description, then the address it
/// concerned with the query string removed. An address that does not parse
/// is left out rather than shown.
pub open spec fn failure_text(detail: Seq<char>, address: Option<Seq<char>>) -> Seq<char> {
    match address {
        Some(a) => match url_without_query(a) {
            Some(clean) => detail + " for url ("@ + clean + ")"@,
            None => detail,
        },
        None => detail,
    }
}

/// Whether an HTTP status means that the credentials were refused.
pub open spec fn is_auth_status(code: u16) -> bool {
    code == 401 || code == 403
}

impl ApiError {
    /// Classifies a failed request from its HTTP status (if any), its
    /// description and the address it was sent to. The address is shown
    /// only with its query string removed, so that no API key carried there
    /// reaches the message.
    pub fn from_failure(status: Option<u16>, detail: &str, address: Option<&str>) -> (r: ApiError)
        ensures
            ({
                let text = failure_text(
                    detail@,
                    match address {
                        Some(a) => Some(a@),
                        None => None,
                    },
                );
                match status {
                    Some(code) => if is_auth_status(code) {
                        r matches ApiError::InvalidAuthenticationToken { error } && error@ == text
                    } else {
                        r matches ApiError::RequestFailedWithCode { status_code, error }
                            && status_code == code && error@ == text
                    },
                    None => r matches ApiError::RequestFailed { error } && error@ == text,
                }
            }),
    {
        let error = match address {
            Some(a) => match without_query(a) {
                Some(clean) => joined(&joined(&joined(detail, " for url ("), clean.as_str()), ")"),
                None => detail.to_owned(),
            },
            None => detail.to_owned(),
        };
        match status {
            Some(code) => if code == 401 || code == 403 {
                ApiError::InvalidAuthenticationToken { error }
            } else {
                ApiError::RequestFailedWithCode { status_code: code, error }
            },
            None => ApiError::RequestFailed { error },
        }
    }

    /// The one-line rendering of this error.
    pub fn message(&self) -> (r: String)
        ensures
            r@ == (match self {
                ApiError::InvalidParameters { .. } => "Invalid parameters for url"@,
                ApiError::DeserializationFailure { error } =>
                    "Failed to parse API response\nerror = "@ + error@,
                ApiError::RequestFailed { error } => "API request failed\nerror = "@ + error@,
                ApiError::RequestFailedWithCode { status_code, error } =>
                    "API request failed\nstatus_code = "@ + decimal_text(*status_code as nat)
                        + ", error = "@ + error@,
                ApiError::InvalidAuthenticationToken { error } =>
                    "Invalid authentication token. Did you supply correct API token?\nerror = "@
                        + error@,
            }),
    {
        match self {
            ApiError::InvalidParameters { .. } => "Invalid parameters for url".to_owned(),
            ApiError::DeserializationFailure { error } => joined(
                "Failed to parse API response\nerror = ",
                error.as_str(),
            ),
            ApiError::RequestFailed { error } => joined(
                "API request failed\nerror = ",
                error.as_str(),
            ),
            ApiError::RequestFailedWithCode { status_code, error } => {
                let code = decimal(*status_code as u64);
                let head = joined("API request failed\nstatus_code = ", code.as_str());
                joined(&joined(head.as_str(), ", error = "), error.as_str())
            },
            ApiError::InvalidAuthenticationToken { error } => joined(
                "Invalid authentication token. Did you supply correct API token?\nerror = ",
                error.as_str(),
            ),
        }
    }
}

impl EnvArgError {
    /// The one-line rendering of this error.
    pub fn message(&self) -> (r: String)
        ensures
            r@ == (match self {
                EnvArgError::InvalidKeyValue { env_arg } =>
                    "Invalid environment variable. Double check you've supplied correct value\nvalue = "@
                        + env_arg@,
                EnvArgError::MissingValue { env_arg } =>
                    "Invalid environment variable. Value can not be empty \nvalue = "@ + env_arg@,
            }),
    {
        match self {
            EnvArgError::InvalidKeyValue { env_arg } => joined(
                "Invalid environment variable. Double check you've supplied correct value\nvalue = ",
                env_arg.as_str(),
            ),
            EnvArgError::MissingValue { env_arg } => joined(
                "Invalid environment variable. Value can not be empty \nvalue = ",
                env_arg.as_str(),
            ),
        }
    }
}

impl ArtifactError {
    /// The one-line rendering of this error.
    pub fn message(&self) -> (r: String)
        ensures
            r@ == (match self {
                ArtifactError::ListFailed { error } =>
                    "Failed to retrieve artifact list.\nerror = "@ + error@,
                ArtifactError::DownloadFailed { error } =>
                    "Failed to download artifacts.\nerror = "@ + error@,
                ArtifactError::InvalidGlob { glob, error } => "Invalid glob "@ + glob@
                    + "\nerror = "@ + error@,
            }),
    {
        match self {
            ArtifactError::ListFailed { error } => joined(
                "Failed to retrieve artifact list.\nerror = ",
                error.as_str(),
            ),
            ArtifactError::DownloadFailed { error } => joined(
                "Failed to download artifacts.\nerror = ",
                error.as_str(),
            ),
            ArtifactError::InvalidGlob { glob, error } => {
                let head = joined("Invalid glob ", glob.as_str());
                joined(&joined(head.as_str(), "\nerror = "), error.as_str())
            },
        }
    }
}

impl InputError {
    /// The one-line rendering of this error.
    pub fn message(&self) -> (r: String)
        ensures
            r@ == (match self {
                InputError::InvalidFileName { path } =>
                    "Invalid input file. Double check you've supplied correct path\npath = "@
                        + path@,
                InputError::OpenFileFailure { path, .. } =>
                    "Can't open file. Double check you've supplied correct path\npath = "@ + path@,
                InputError::XctestplanMissingTargets =>
                    "Invalid xctestplan file: no test targets specified. Double check you've supplied correct path"@,
                InputError::NonPositiveValue { arg } => "Value of "@ + arg@
                    + " must be positive"@,
            }),
    {
        match self {
            InputError::InvalidFileName { path } => joined(
                "Invalid input file. Double check you've supplied correct path\npath = ",
                path.as_str(),
            ),
            InputError::OpenFileFailure { path, .. } => joined(
                "Can't open file. Double check you've supplied correct path\npath = ",
                path.as_str(),
            ),
            InputError::XctestplanMissingTargets =>
                "Invalid xctestplan file: no test targets specified. Double check you've supplied correct path".to_owned(),
            InputError::NonPositiveValue { arg } => joined(
                &joined("Value of ", arg.as_str()),
                " must be positive",
            ),
        }
    }
}

impl ConfigurationError {
    /// The one-line rendering of this error.
    pub fn message(&self) -> (r: String)
        ensures
            r@ == (match self {
                ConfigurationError::UnsupportedRunConfiguration { message } =>
                    "Unsupported run configuration: "@ + message@,
            }),
    {
        match self {
            ConfigurationError::UnsupportedRunConfiguration { message } => joined(
                "Unsupported run configuration: ",
                message.as_str(),
            ),
        }
    }
}

impl FilteringConfigurationError {
    /// The one-line rendering of this error.
    pub fn message(&self) -> (r: String)
        ensures
            r@ == (match self {
                FilteringConfigurationError::UnsupportedFilterType { mtype } => "Filter type "@
                    + mtype@ + " is not supported by Marathon Cloud"@,
                FilteringConfigurationError::InvalidFilterType { mtype } => "Filter type "@
                    + mtype@ + " is invalid"@,
                FilteringConfigurationError::InvalidFilterConfiguration { mtype, message } =>
                    "Invalid configuration for filter "@ + mtype@ + ": "@ + message@,
            }),
    {
        match self {
            FilteringConfigurationError::UnsupportedFilterType { mtype } => joined(
                &joined("Filter type ", mtype.as_str()),
                " is not supported by Marathon Cloud",
            ),
            FilteringConfigurationError::InvalidFilterType { mtype } => joined(
                &joined("Filter type ", mtype.as_str()),
                " is invalid",
            ),
            FilteringConfigurationError::InvalidFilterConfiguration { mtype, message } => {
                let head = joined("Invalid configuration for filter ", mtype.as_str());
                joined(&joined(head.as_str(), ": "), message.as_str())
            },
        }
    }
}

} // verus!
