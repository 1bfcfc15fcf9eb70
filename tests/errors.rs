use marathon_cloud::errors::{
    ApiError, ArtifactError, ConfigurationError, FilteringConfigurationError, InputError,
};

#[test]
fn unauthorized_token_exchange_hides_api_key() {
    let e = ApiError::from_failure(
        Some(401),
        "HTTP status client error (401 Unauthorized)",
        Some("https://host/api/v1/user/jwt?api_key=SECRET"),
    );
    assert_eq!(
        e,
        ApiError::InvalidAuthenticationToken {
            error: "HTTP status client error (401 Unauthorized) for url (https://host/api/v1/user/jwt)"
                .to_string(),
        }
    );
    let m = e.message();
    assert!(m.starts_with("Invalid authentication token. Did you supply correct API token?"));
    assert!(!m.contains("api_key="));
    assert!(!m.contains("SECRET"));
}

#[test]
fn forbidden_is_authentication_failure() {
    let e = ApiError::from_failure(Some(403), "denied", None);
    assert_eq!(e, ApiError::InvalidAuthenticationToken { error: "denied".to_string() });
}

#[test]
fn other_status_keeps_code() {
    let e = ApiError::from_failure(Some(500), "boom", Some("https://h/run?api_key=K"));
    assert_eq!(
        e,
        ApiError::RequestFailedWithCode {
            status_code: 500,
            error: "boom for url (https://h/run)".to_string(),
        }
    );
    assert_eq!(
        e.message(),
        "API request failed\nstatus_code = 500, error = boom for url (https://h/run)"
    );
}

#[test]
fn no_status_is_transport_failure() {
    let e = ApiError::from_failure(None, "dns error", Some("::bad::"));
    assert_eq!(e, ApiError::RequestFailed { error: "dns error".to_string() });
    assert_eq!(e.message(), "API request failed\nerror = dns error");
}

#[test]
fn other_messages() {
    assert_eq!(
        ApiError::DeserializationFailure { error: "eof".to_string() }.message(),
        "Failed to parse API response\nerror = eof"
    );
    assert_eq!(
        ApiError::InvalidParameters { url: "x".to_string() }.message(),
        "Invalid parameters for url"
    );
    assert_eq!(
        ArtifactError::ListFailed { error: "e".to_string() }.message(),
        "Failed to retrieve artifact list.\nerror = e"
    );
    assert_eq!(
        ArtifactError::DownloadFailed { error: "e".to_string() }.message(),
        "Failed to download artifacts.\nerror = e"
    );
    assert_eq!(
        InputError::InvalidFileName { path: "/p".to_string() }.message(),
        "Invalid input file. Double check you've supplied correct path\npath = /p"
    );
    assert_eq!(
        InputError::NonPositiveValue { arg: "--concurrency-limit".to_string() }.message(),
        "Value of --concurrency-limit must be positive"
    );
    assert_eq!(
        ConfigurationError::UnsupportedRunConfiguration { message: "m".to_string() }.message(),
        "Unsupported run configuration: m"
    );
    assert_eq!(
        FilteringConfigurationError::InvalidFilterConfiguration {
            mtype: "t".to_string(),
            message: "m".to_string()
        }
        .message(),
        "Invalid configuration for filter t: m"
    );
    assert_eq!(
        FilteringConfigurationError::UnsupportedFilterType { mtype: "t".to_string() }.message(),
        "Filter type t is not supported by Marathon Cloud"
    );
}
