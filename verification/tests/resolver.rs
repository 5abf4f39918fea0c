use runtime_supervisor::error::RuntimeError;
use runtime_supervisor::platform::Platform;
use runtime_supervisor::resolver::candidate_runtime_roots;
use runtime_supervisor::resolver::changelog_candidates;
use runtime_supervisor::resolver::dedup_paths;
use runtime_supervisor::resolver::ensure_exists;
use runtime_supervisor::resolver::is_runtime_root;
use runtime_supervisor::resolver::pick_changelog;
use runtime_supervisor::resolver::push_layout_candidates;
use runtime_supervisor::resolver::resolve_changelog_path;
use runtime_supervisor::resolver::resolve_runtime_root;
use runtime_supervisor::resolver::runtime_root_probes;
use runtime_supervisor::resolver::HostDirs;
use runtime_supervisor::snapshot::FileSnapshot;

fn strings(items: &[&str]) -> Vec<String> {
    items.iter().map(|s| s.to_string()).collect()
}

fn snapshot(items: &[&str]) -> FileSnapshot {
    FileSnapshot::new(strings(items))
}

fn no_dirs() -> HostDirs {
    HostDirs {
        current_exe: None,
        executable_dir: None,
        resource_runtime: None,
        resource_nested_runtime: None,
        resource_changelog: None,
        data_dir: None,
    }
}

fn installed() -> HostDirs {
    HostDirs {
        current_exe: Some("/opt/app/bin/app".to_string()),
        executable_dir: Some("/opt/app/bin".to_string()),
        resource_runtime: Some("/opt/app/res/runtime".to_string()),
        resource_nested_runtime: Some("/opt/app/res/_up_/runtime".to_string()),
        resource_changelog: Some("/opt/app/res/CHANGELOG.json".to_string()),
        data_dir: Some("/home/u/.data".to_string()),
    }
}

#[test]
fn dedup_paths_keeps_the_first_of_each_and_the_order() {
    assert_eq!(dedup_paths(strings(&["b", "a", "b", "c", "a", "b"])), strings(&["b", "a", "c"]));
    assert_eq!(dedup_paths(Vec::new()), Vec::<String>::new());
    assert_eq!(dedup_paths(strings(&["x", "x", "x"])), strings(&["x"]));
    assert_eq!(dedup_paths(strings(&["/a", "/a/", "/A"])), strings(&["/a", "/a/", "/A"]));
}

#[test]
fn push_layout_candidates_appends_flat_before_nested() {
    let mut list = strings(&["first"]);
    push_layout_candidates(&mut list, "/opt/app", Platform::Unix);
    assert_eq!(
        list,
        strings(&["first", "/opt/app", "/opt/app/_up_", "/opt/app/runtime", "/opt/app/_up_/runtime"])
    );
    let mut windows = Vec::new();
    push_layout_candidates(&mut windows, "C:\\app", Platform::Windows);
    assert_eq!(
        windows,
        strings(&["C:\\app", "C:\\app\\_up_", "C:\\app\\runtime", "C:\\app\\_up_\\runtime"])
    );
}

#[test]
fn candidate_runtime_roots_lists_each_place_once_in_order() {
    let expected = strings(&[
        "/opt/app/bin",
        "/opt/app/bin/_up_",
        "/opt/app/bin/runtime",
        "/opt/app/bin/_up_/runtime",
        "/opt/app",
        "/opt/app/_up_",
        "/opt/app/runtime",
        "/opt/app/_up_/runtime",
        "/opt/app/res",
        "/opt/app/res/_up_",
        "/opt/app/res/runtime",
        "/opt/app/res/_up_/runtime",
        "/opt/app/res/_up_/_up_",
        "/opt/app/res/_up_/_up_/runtime",
    ]);
    assert_eq!(candidate_runtime_roots(&installed(), Platform::Unix), expected);
    assert_eq!(candidate_runtime_roots(&installed(), Platform::Unix), expected);
}

#[test]
fn candidate_runtime_roots_tries_flat_layouts_before_nested_ones() {
    let list = candidate_runtime_roots(&installed(), Platform::Unix);
    let at = |path: &str| list.iter().position(|p| p == path).unwrap();
    for base in ["/opt/app/bin", "/opt/app", "/opt/app/res"] {
        for flat in [base.to_string(), format!("{}/_up_", base)] {
            for nested in [format!("{}/runtime", base), format!("{}/_up_/runtime", base)] {
                assert!(at(&flat) < at(&nested), "{} before {}", flat, nested);
            }
        }
    }
}

#[test]
fn candidate_runtime_roots_holds_no_path_twice() {
    let list = candidate_runtime_roots(&installed(), Platform::Unix);
    for i in 0..list.len() {
        for j in (i + 1)..list.len() {
            assert_ne!(list[i], list[j]);
        }
    }
}

#[test]
fn candidate_runtime_roots_is_empty_without_directories() {
    assert_eq!(candidate_runtime_roots(&no_dirs(), Platform::Unix), Vec::<String>::new());
}

#[test]
fn candidate_runtime_roots_puts_the_flat_layouts_of_the_resource_base_first() {
    let mut host = no_dirs();
    host.resource_runtime = Some("/res/runtime".to_string());
    assert_eq!(
        candidate_runtime_roots(&host, Platform::Unix),
        strings(&["/res", "/res/_up_", "/res/runtime", "/res/_up_/runtime"])
    );
    let mut nested = no_dirs();
    nested.resource_nested_runtime = Some("/res/_up_/runtime".to_string());
    assert_eq!(
        candidate_runtime_roots(&nested, Platform::Unix),
        strings(&[
            "/res/_up_",
            "/res/_up_/_up_",
            "/res/_up_/runtime",
            "/res/_up_/_up_/runtime",
        ])
    );
}

#[test]
fn candidate_runtime_roots_keeps_a_resource_directory_that_is_no_layout_of_its_parent() {
    let mut host = no_dirs();
    host.resource_runtime = Some("/res/bundle".to_string());
    assert_eq!(
        candidate_runtime_roots(&host, Platform::Unix),
        strings(&["/res", "/res/_up_", "/res/runtime", "/res/_up_/runtime", "/res/bundle"])
    );
    let mut root = no_dirs();
    root.resource_runtime = Some("/".to_string());
    assert_eq!(candidate_runtime_roots(&root, Platform::Unix), strings(&["/"]));
}

#[test]
fn candidate_runtime_roots_skips_the_parent_of_a_root_directory() {
    let mut host = no_dirs();
    host.executable_dir = Some("/".to_string());
    assert_eq!(
        candidate_runtime_roots(&host, Platform::Unix),
        strings(&["/", "/_up_", "/runtime", "/_up_/runtime"])
    );
}

#[test]
fn is_runtime_root_needs_all_three_assets() {
    let all = ["/r/updater/updater", "/r/batch/batch", "/r/server/dist/index.html"];
    assert!(is_runtime_root("/r", &snapshot(&all), Platform::Unix));
    for missing in 0..3 {
        let rest: Vec<&str> =
            all.iter().enumerate().filter(|(i, _)| *i != missing).map(|(_, p)| *p).collect();
        assert!(!is_runtime_root("/r", &snapshot(&rest), Platform::Unix));
    }
    assert!(!is_runtime_root("/r", &snapshot(&[]), Platform::Unix));
    assert!(!is_runtime_root("/other", &snapshot(&all), Platform::Unix));
}

#[test]
fn is_runtime_root_looks_for_exe_files_on_windows() {
    let unix_names = ["C:\\r\\updater\\updater", "C:\\r\\batch\\batch", "C:\\r\\server\\dist\\index.html"];
    assert!(!is_runtime_root("C:\\r", &snapshot(&unix_names), Platform::Windows));
    let windows_names =
        ["C:\\r\\updater\\updater.exe", "C:\\r\\batch\\batch.exe", "C:\\r\\server\\dist\\index.html"];
    assert!(is_runtime_root("C:\\r", &snapshot(&windows_names), Platform::Windows));
}

#[test]
fn runtime_root_probes_names_three_assets_for_each_candidate() {
    assert_eq!(
        runtime_root_probes(&strings(&["/a", "/b"]), Platform::Unix),
        strings(&[
            "/a/updater/updater",
            "/a/batch/batch",
            "/a/server/dist/index.html",
            "/b/updater/updater",
            "/b/batch/batch",
            "/b/server/dist/index.html",
        ])
    );
}

#[test]
fn resolve_runtime_root_takes_the_first_candidate_that_qualifies() {
    let present = snapshot(&[
        "/b/updater/updater",
        "/b/batch/batch",
        "/b/server/dist/index.html",
        "/c/updater/updater",
        "/c/batch/batch",
        "/c/server/dist/index.html",
        "/a/updater/updater",
    ]);
    assert_eq!(
        resolve_runtime_root(&strings(&["/a", "/b", "/c"]), &present, Platform::Unix),
        Ok("/b".to_string())
    );
}

#[test]
fn resolve_runtime_root_lists_every_checked_path_when_none_qualifies() {
    let candidates = strings(&["/a", "/b", "/c"]);
    assert_eq!(
        resolve_runtime_root(&candidates, &snapshot(&["/a/updater/updater"]), Platform::Unix),
        Err(RuntimeError::RuntimeRootNotFound { checked: candidates.clone() })
    );
    assert_eq!(
        resolve_runtime_root(&Vec::new(), &snapshot(&[]), Platform::Unix),
        Err(RuntimeError::RuntimeRootNotFound { checked: Vec::new() })
    );
}

#[test]
fn ensure_exists_names_the_missing_file() {
    let present = snapshot(&["/r/batch/batch"]);
    assert_eq!(ensure_exists("/r/batch/batch", &present), Ok(()));
    assert_eq!(
        ensure_exists("/r/updater/updater", &present),
        Err(RuntimeError::MissingRuntimeAsset {
            launcher: None,
            paths: strings(&["/r/updater/updater"]),
        })
    );
}

#[test]
fn changelog_candidates_start_with_the_root_and_its_parent() {
    assert_eq!(
        changelog_candidates(&installed(), "/opt/app/runtime", Platform::Unix),
        strings(&[
            "/opt/app/runtime/CHANGELOG.json",
            "/opt/app/CHANGELOG.json",
            "/opt/app/bin/CHANGELOG.json",
            "/opt/app/bin/_up_/CHANGELOG.json",
            "/opt/app/_up_/CHANGELOG.json",
            "/opt/app/res/CHANGELOG.json",
        ])
    );
    assert_eq!(
        changelog_candidates(&no_dirs(), "/", Platform::Unix),
        strings(&["/CHANGELOG.json"])
    );
}

#[test]
fn pick_changelog_takes_the_first_that_exists_and_guesses_otherwise() {
    let candidates = strings(&["/a/CHANGELOG.json", "/b/CHANGELOG.json", "/c/CHANGELOG.json"]);
    assert_eq!(
        pick_changelog(&candidates, &snapshot(&["/c/CHANGELOG.json", "/b/CHANGELOG.json"])),
        "/b/CHANGELOG.json"
    );
    assert_eq!(pick_changelog(&candidates, &snapshot(&[])), "/a/CHANGELOG.json");
    assert_eq!(pick_changelog(&Vec::new(), &snapshot(&[])), "CHANGELOG.json");
}

#[test]
fn resolve_changelog_path_tolerates_absence() {
    assert_eq!(
        resolve_changelog_path(&installed(), "/opt/app", &snapshot(&[]), Platform::Unix),
        "/opt/app/CHANGELOG.json"
    );
    assert_eq!(
        resolve_changelog_path(
            &installed(),
            "/opt/app",
            &snapshot(&["/opt/app/res/CHANGELOG.json"]),
            Platform::Unix
        ),
        "/opt/app/res/CHANGELOG.json"
    );
}
