//! Android run options and the combinations of them that the service
//! supports.

use vstd::prelude::*;
use crate::errors::{ConfigurationError, InputError};
use crate::text::same_text;

verus! {

/// Runtime system image.
#[derive(Debug, Clone, Copy, PartialEq, Eq)]
pub enum SystemImage {
    Default,
    GoogleApis,
}

/// Android OS version.
#[derive(Debug, Clone, Copy, PartialEq, Eq)]
pub enum OsVersion {
    Android10,
    Android11,
    Android12,
    Android13,
    Android14,
}

/// Test flavor.
#[derive(Debug, Clone, Copy, PartialEq, Eq)]
pub enum Flavor {
    Native,
    JsJestAppium,
    PythonRobotFrameworkAppium,
}

impl SystemImage {
    /// The name the service knows this image by.
    pub fn as_str(&self) -> (r: &'static str)
        ensures
            r@ == (match self {
                SystemImage::Default => "default"@,
                SystemImage::GoogleApis => "google_apis"@,
            }),
    {
        match self {
            SystemImage::Default => "default",
            SystemImage::GoogleApis => "google_apis",
        }
    }
}

impl OsVersion {
    /// The name the service knows this version by.
    pub fn as_str(&self) -> (r: &'static str)
        ensures
            r@ == (match self {
                OsVersion::Android10 => "10"@,
                OsVersion::Android11 => "11"@,
                OsVersion::Android12 => "12"@,
                OsVersion::Android13 => "13"@,
                OsVersion::Android14 => "14"@,
            }),
    {
        match self {
            OsVersion::Android10 => "10",
            OsVersion::Android11 => "11",
            OsVersion::Android12 => "12",
            OsVersion::Android13 => "13",
            OsVersion::Android14 => "14",
        }
    }
}

impl Flavor {
    /// The name the service knows this flavor by.
    pub fn as_str(&self) -> (r: &'static str)
        ensures
            r@ == (match self {
                Flavor::Native => "native"@,
                Flavor::JsJestAppium => "js-jest-appium"@,
                Flavor::PythonRobotFrameworkAppium => "python-robotframework-appium"@,
            }),
    {
        match self {
            Flavor::Native => "native",
            Flavor::JsJestAppium => "js-jest-appium",
            Flavor::PythonRobotFrameworkAppium => "python-robotframework-appium",
        }
    }
}

pub open spec fn watch_message() -> Seq<char> {
    "Android Watch only supports google-apis system image and os versions 11 and 13"@
}

pub open spec fn tv_message() -> Seq<char> {
    "Android TV only supports google-apis system image"@
}

pub open spec fn flavor_message() -> Seq<char> {
    "js-jest-appium and python-robotframework-appium only support 'phone' devices"@
}

pub open spec fn no_packages_message() -> Seq<char> {
    "Please set up APKs for testing. The following argument combinations are possible:
--application <APPLICATION> --test-application <TEST_APPLICATION> - for application testing
--application-bundle <APPLICATION>,<TEST_APPLICATION> - advanced mode that allows setting up one or more application bundles for testing
--library-bundle <TEST_APPLICATION> - advanced mode that allows setting up one or more library bundles for testing"@
}

pub open spec fn missing_test_application_message() -> Seq<char> {
    "Please set up Testing APK:
--test-application <TEST_APPLICATION>"@
}

pub open spec fn missing_application_message() -> Seq<char> {
    "Please set up Application APK:
--application <TEST_APPLICATION>
If you are interesting in library testing then please use advance mode with --library-bundle argument"@
}

/// Why a device / flavor / image / version combination is refused, or
/// `None` where it is supported. The first rule that applies decides.
pub open spec fn device_rule_violation(
    device: Option<Seq<char>>,
    flavor: Option<Flavor>,
    system_image: Option<SystemImage>,
    os_version: Option<OsVersion>,
) -> Option<Seq<char>> {
    let watch = device == Some("watch"@);
    let tv = device == Some("tv"@);
    if watch && (system_image == Some(SystemImage::Default) || system_image is None) {
        Some(watch_message())
    } else if watch && system_image is Some && (os_version == Some(OsVersion::Android10)
        || os_version == Some(OsVersion::Android12) || os_version == Some(OsVersion::Android14)) {
        Some(watch_message())
    } else if tv && system_image == Some(SystemImage::Default) {
        Some(tv_message())
    } else if (tv || watch) && (flavor == Some(Flavor::JsJestAppium) || flavor == Some(
        Flavor::PythonRobotFrameworkAppium,
    )) {
        Some(flavor_message())
    } else {
        None
    }
}

/// Why a choice of packages is refused, or `None` where it is complete.
pub open spec fn package_rule_violation(
    application: bool,
    test_application: bool,
    application_bundle: bool,
    library_bundle: bool,
) -> Option<Seq<char>> {
    if application_bundle || library_bundle {
        None
    } else if !application && !test_application {
        Some(no_packages_message())
    } else if application && !test_application {
        Some(missing_test_application_message())
    } else if !application && test_application {
        Some(missing_application_message())
    } else {
        None
    }
}

/// The result of a check that refuses with `violation`.
pub open spec fn refused_with(r: Result<(), ConfigurationError>, violation: Option<Seq<char>>) -> bool {
    match violation {
        None => r is Ok,
        Some(m) => r matches Err(ConfigurationError::UnsupportedRunConfiguration { message })
            && message@ == m,
    }
}

fn refuse(message: &str) -> (r: Result<(), ConfigurationError>)
    ensures
        r matches Err(ConfigurationError::UnsupportedRunConfiguration { message: m }) && m@
            == message@,
{
    Err(ConfigurationError::UnsupportedRunConfiguration { message: message.to_owned() })
}

/// Checks that the packages given make a complete Android run: an
/// application with its test application, or at least one bundle.
pub fn check_packages(
    application: bool,
    test_application: bool,
    application_bundle: bool,
    library_bundle: bool,
) -> (r: Result<(), ConfigurationError>)
    ensures
        refused_with(
            r,
            package_rule_violation(application, test_application, application_bundle, library_bundle),
        ),
{
    if application_bundle || library_bundle {
        Ok(())
    } else if !application && !test_application {
        refuse(
            "Please set up APKs for testing. The following argument combinations are possible:
--application <APPLICATION> --test-application <TEST_APPLICATION> - for application testing
--application-bundle <APPLICATION>,<TEST_APPLICATION> - advanced mode that allows setting up one or more application bundles for testing
--library-bundle <TEST_APPLICATION> - advanced mode that allows setting up one or more library bundles for testing",
        )
    } else if application && !test_application {
        refuse("Please set up Testing APK:
--test-application <TEST_APPLICATION>")
    } else if !application && test_application {
        refuse(
            "Please set up Application APK:
--application <TEST_APPLICATION>
If you are interesting in library testing then please use advance mode with --library-bundle argument",
        )
    } else {
        Ok(())
    }
}

/// Checks a device / flavor / system image / OS version combination against
/// what watch and TV devices support.
pub fn check_device_configuration(
    device: Option<&str>,
    flavor: Option<Flavor>,
    system_image: Option<SystemImage>,
    os_version: Option<OsVersion>,
) -> (r: Result<(), ConfigurationError>)
    ensures
        refused_with(
            r,
            device_rule_violation(
                match device {
                    Some(d) => Some(d@),
                    None => None,
                },
                flavor,
                system_image,
                os_version,
            ),
        ),
{
    let (watch, tv) = match device {
        Some(d) => (same_text(d, "watch"), same_text(d, "tv")),
        None => (false, false),
    };
    let default_image = match system_image {
        Some(SystemImage::Default) => true,
        _ => false,
    };
    let watch_unsupported_os = match os_version {
        Some(OsVersion::Android10) | Some(OsVersion::Android12) | Some(OsVersion::Android14) => true,
        _ => false,
    };
    let appium = match flavor {
        Some(Flavor::JsJestAppium) | Some(Flavor::PythonRobotFrameworkAppium) => true,
        _ => false,
    };
    if watch && (default_image || system_image.is_none()) {
        refuse("Android Watch only supports google-apis system image and os versions 11 and 13")
    } else if watch && system_image.is_some() && watch_unsupported_os {
        refuse("Android Watch only supports google-apis system image and os versions 11 and 13")
    } else if tv && default_image {
        refuse("Android TV only supports google-apis system image")
    } else if (tv || watch) && appium {
        refuse("js-jest-appium and python-robotframework-appium only support 'phone' devices")
    } else {
        Ok(())
    }
}

/// Checks that a concurrency limit, where given, is positive.
pub fn check_concurrency_limit(limit: Option<u32>) -> (r: Result<(), InputError>)
    ensures
        r is Err <==> limit == Some(0u32),
        r matches Err(InputError::NonPositiveValue { arg }) ==> arg@ == "--concurrency-limit"@,
        r is Err ==> r matches Err(InputError::NonPositiveValue { .. }),
{
    match limit {
        Some(0) => Err(InputError::NonPositiveValue { arg: "--concurrency-limit".to_owned() }),
        _ => Ok(()),
    }
}

/// Whether to wait for the run: yes unless explicitly turned off.
pub fn effective_wait(wait: Option<bool>) -> (r: bool)
    ensures
        r == (wait != Some(false)),
{
    match wait {
        Some(false) => false,
        _ => true,
    }
}

} // verus!
