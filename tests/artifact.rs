use marathon_cloud::artifact::{
    download_target, filter_artifact_list, join_path, parent_dir, relative_path, run_prefix_of,
    strip_run_prefix, Artifact, DownloadTarget,
};
use marathon_cloud::errors::ArtifactError;

fn artifact(id: &str) -> Artifact {
    Artifact { id: id.to_string(), name: id.rsplit('/').next().unwrap().to_string(), is_file: true }
}

fn ids(list: &[Artifact]) -> Vec<&str> {
    list.iter().map(|a| a.id.as_str()).collect()
}

#[test]
fn relative_path_strips_run_prefix() {
    assert_eq!(relative_path("run42/reports/result.xml", "run42"), "reports/result.xml");
    assert_eq!(relative_path("run42/", "run42"), "");
}

#[test]
fn relative_path_strips_one_leading_separator() {
    assert_eq!(relative_path("/reports/result.xml", "run42"), "reports/result.xml");
    assert_eq!(relative_path("//x", "run42"), "/x");
}

#[test]
fn relative_path_keeps_other_ids() {
    assert_eq!(relative_path("other/result.xml", "run42"), "other/result.xml");
    assert_eq!(relative_path("run4/result.xml", "run42"), "run4/result.xml");
    assert_eq!(relative_path("run42", "run42"), "run42");
}

#[test]
fn download_target_scenario() {
    let t = download_target("/out", "run42/reports/result.xml", "run42");
    assert_eq!(
        t,
        DownloadTarget {
            file: "/out/reports/result.xml".to_string(),
            directory: Some("/out/reports".to_string()),
        }
    );
}

#[test]
fn download_target_with_trailing_separator_root() {
    let t = download_target("/out/", "run42/a.txt", "run42");
    assert_eq!(t.file, "/out/a.txt");
    assert_eq!(t.directory, Some("/out".to_string()));
}

#[test]
fn join_and_parent() {
    assert_eq!(join_path("", "a/b"), "a/b");
    assert_eq!(join_path("out", "a"), "out/a");
    assert_eq!(parent_dir("/a"), Some("/".to_string()));
    assert_eq!(parent_dir("a"), None);
    assert_eq!(parent_dir("x/y/z"), Some("x/y".to_string()));
}

#[test]
fn prefix_helpers() {
    assert_eq!(run_prefix_of("run42"), "run42/");
    assert_eq!(strip_run_prefix("run42/a", "run42/"), "a");
    assert_eq!(strip_run_prefix("/a", "run42/"), "/a");
}

#[test]
fn filter_without_glob_keeps_everything() {
    let list = vec![artifact("r/b"), artifact("r/a")];
    let kept = filter_artifact_list(list.clone(), None, "r/").unwrap();
    assert_eq!(kept, list);
}

#[test]
fn filter_keeps_matches_in_order() {
    let list = vec![
        artifact("run42/tests/z.xml"),
        artifact("run42/video/a.mp4"),
        artifact("run42/tests/a.xml"),
        artifact("run42/logs/tests/b.xml"),
    ];
    let kept = filter_artifact_list(list, Some("tests/**".to_string()), "run42/").unwrap();
    assert_eq!(ids(&kept), vec!["run42/tests/z.xml", "run42/tests/a.xml"]);
}

#[test]
fn filter_matches_identifier_without_prefix_only_when_present() {
    let list = vec![artifact("run42/a.xml"), artifact("a.xml"), artifact("other/a.xml")];
    let kept = filter_artifact_list(list, Some("a.xml".to_string()), "run42/").unwrap();
    assert_eq!(ids(&kept), vec!["run42/a.xml", "a.xml"]);
}

#[test]
fn filter_with_no_match_is_empty_not_error() {
    let list = vec![artifact("run42/a.xml")];
    let kept = filter_artifact_list(list, Some("*.png".to_string()), "run42/").unwrap();
    assert!(kept.is_empty());
}

#[test]
fn filter_rejects_malformed_glob() {
    let list = vec![artifact("run42/a.xml")];
    match filter_artifact_list(list, Some("a[".to_string()), "run42/") {
        Err(ArtifactError::InvalidGlob { glob, .. }) => assert_eq!(glob, "a["),
        other => panic!("unexpected {:?}", other),
    }
}
