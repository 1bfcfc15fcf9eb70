use marathon_cloud::android::{
    check_concurrency_limit, check_device_configuration, check_packages, effective_wait, Flavor,
    OsVersion, SystemImage,
};
use marathon_cloud::errors::{ConfigurationError, InputError};
use marathon_cloud::retry::RetryArgs;

fn message(r: Result<(), ConfigurationError>) -> String {
    match r {
        Err(ConfigurationError::UnsupportedRunConfiguration { message }) => message,
        Ok(()) => panic!("accepted"),
    }
}

#[test]
fn watch_needs_google_apis() {
    let m = message(check_device_configuration(Some("watch"), None, None, None));
    assert_eq!(m, "Android Watch only supports google-apis system image and os versions 11 and 13");
    assert!(check_device_configuration(
        Some("watch"),
        None,
        Some(SystemImage::GoogleApis),
        Some(OsVersion::Android12)
    )
    .is_err());
    assert!(check_device_configuration(
        Some("watch"),
        None,
        Some(SystemImage::GoogleApis),
        Some(OsVersion::Android13)
    )
    .is_ok());
}

#[test]
fn tv_refuses_default_image() {
    let m = message(check_device_configuration(
        Some("tv"),
        None,
        Some(SystemImage::Default),
        None,
    ));
    assert_eq!(m, "Android TV only supports google-apis system image");
    assert!(check_device_configuration(Some("tv"), None, None, None).is_ok());
}

#[test]
fn appium_flavors_only_on_phones() {
    let m = message(check_device_configuration(
        Some("tv"),
        Some(Flavor::JsJestAppium),
        None,
        None,
    ));
    assert_eq!(m, "js-jest-appium and python-robotframework-appium only support 'phone' devices");
    assert!(check_device_configuration(
        Some("phone"),
        Some(Flavor::PythonRobotFrameworkAppium),
        Some(SystemImage::Default),
        Some(OsVersion::Android10)
    )
    .is_ok());
    assert!(check_device_configuration(None, None, None, None).is_ok());
}

#[test]
fn packages_must_be_complete() {
    assert!(message(check_packages(false, false, false, false)).starts_with("Please set up APKs"));
    assert!(message(check_packages(true, false, false, false)).starts_with("Please set up Testing APK"));
    assert!(message(check_packages(false, true, false, false))
        .starts_with("Please set up Application APK"));
    assert!(check_packages(true, true, false, false).is_ok());
    assert!(check_packages(false, false, false, true).is_ok());
}

#[test]
fn concurrency_limit_must_be_positive() {
    assert_eq!(
        check_concurrency_limit(Some(0)),
        Err(InputError::NonPositiveValue { arg: "--concurrency-limit".to_string() })
    );
    assert!(check_concurrency_limit(Some(3)).is_ok());
    assert!(check_concurrency_limit(None).is_ok());
}

#[test]
fn wait_defaults_to_true() {
    assert!(effective_wait(None));
    assert!(effective_wait(Some(true)));
    assert!(!effective_wait(Some(false)));
}

#[test]
fn android_names() {
    assert_eq!(SystemImage::GoogleApis.as_str(), "google_apis");
    assert_eq!(OsVersion::Android11.as_str(), "11");
    assert_eq!(Flavor::PythonRobotFrameworkAppium.as_str(), "python-robotframework-appium");
}

#[test]
fn retry_args_keep_quotas() {
    let r = RetryArgs::new(Some(1), None, Some(3));
    assert_eq!(r.retry_quota_test_uncompleted, Some(1));
    assert_eq!(r.retry_quota_test_preventive, None);
    assert_eq!(r.retry_quota_test_reactive, Some(3));
    assert!(!r.no_retries);
}
