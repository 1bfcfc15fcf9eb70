use marathon_cloud::errors::EnvArgError;
use marathon_cloud::form::{build_run_form, FormPart, PackageFile, RunRequest};

fn package(path: &str, name: &str, size: u64) -> PackageFile {
    PackageFile { path: path.to_string(), file_name: name.to_string(), size }
}

fn bare_request() -> RunRequest {
    RunRequest {
        application: None,
        test_application: package("/tmp/test.apk", "test.apk", 10 * 1024 * 1024),
        name: None,
        link: None,
        platform: "Android".to_string(),
        os_version: None,
        system_image: None,
        device: None,
        isolated: None,
        flavor: None,
        env_args: None,
        filtering_configuration: None,
    }
}

fn text(field: &str, value: &str) -> FormPart {
    FormPart::Text { field: field.to_string(), value: value.to_string() }
}

#[test]
fn bare_submission_has_one_file_part_and_no_optional_fields() {
    let parts = build_run_form(&bare_request()).unwrap();
    let files = parts.iter().filter(|p| matches!(p, FormPart::File { .. })).count();
    assert_eq!(files, 1);
    assert_eq!(
        parts,
        vec![
            text("platform", "Android"),
            FormPart::File {
                field: "testapp".to_string(),
                file_name: "test.apk".to_string(),
                path: "/tmp/test.apk".to_string(),
                length: 10 * 1024 * 1024,
            },
        ]
    );
}

#[test]
fn full_submission_lists_every_part_in_order() {
    let mut req = bare_request();
    req.application = Some(package("/tmp/app.apk", "app.apk", 7));
    req.name = Some("nightly".to_string());
    req.link = Some("https://ci/1".to_string());
    req.os_version = Some("13".to_string());
    req.system_image = Some("google_apis".to_string());
    req.device = Some("watch".to_string());
    req.isolated = Some(false);
    req.flavor = Some("native".to_string());
    req.env_args = Some(vec!["A=1".to_string(), "B=x=y".to_string()]);
    req.filtering_configuration = Some("{}".to_string());
    let parts = build_run_form(&req).unwrap();
    let fields: Vec<&str> = parts
        .iter()
        .map(|p| match p {
            FormPart::Text { field, .. } => field.as_str(),
            FormPart::File { field, .. } => field.as_str(),
        })
        .collect();
    assert_eq!(
        fields,
        vec![
            "platform",
            "testapp",
            "app",
            "name",
            "env_args[A]",
            "env_args[B]",
            "link",
            "osversion",
            "system_image",
            "device",
            "isolated",
            "flavor",
            "filtering_configuration",
        ]
    );
    assert_eq!(parts[5], text("env_args[B]", "x=y"));
    assert_eq!(parts[10], text("isolated", "false"));
}

#[test]
fn first_malformed_env_arg_is_reported() {
    let mut req = bare_request();
    req.env_args = Some(vec!["A=1".to_string(), "B".to_string(), "C=".to_string()]);
    assert_eq!(
        build_run_form(&req),
        Err(EnvArgError::InvalidKeyValue { env_arg: "B".to_string() })
    );
}

#[test]
fn isolated_true_is_sent_as_text() {
    let mut req = bare_request();
    req.isolated = Some(true);
    let parts = build_run_form(&req).unwrap();
    assert_eq!(parts.last(), Some(&text("isolated", "true")));
}
