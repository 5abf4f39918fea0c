use runtime_supervisor::paths::join;
use runtime_supervisor::paths::parent_dir;
use runtime_supervisor::platform::exe_name;
use runtime_supervisor::platform::Platform;

#[test]
fn join_puts_one_separator_between_base_and_component() {
    assert_eq!(join("/opt/app", "runtime", Platform::Unix), "/opt/app/runtime");
    assert_eq!(join("/opt/app/", "runtime", Platform::Unix), "/opt/app/runtime");
    assert_eq!(join("", "runtime", Platform::Unix), "runtime");
    assert_eq!(join("/", "runtime", Platform::Unix), "/runtime");
    assert_eq!(join("C:\\app", "runtime", Platform::Windows), "C:\\app\\runtime");
    assert_eq!(join("C:\\app\\", "runtime", Platform::Windows), "C:\\app\\runtime");
    assert_eq!(join("C:/app/", "runtime", Platform::Windows), "C:/app/runtime");
    assert_eq!(join("C:\\app\\", "runtime", Platform::Unix), "C:\\app\\/runtime");
}

#[test]
fn parent_dir_cuts_the_last_component() {
    assert_eq!(parent_dir("/opt/app/bin", Platform::Unix), Some("/opt/app".to_string()));
    assert_eq!(parent_dir("/opt/app/bin/", Platform::Unix), Some("/opt/app".to_string()));
    assert_eq!(parent_dir("/opt//bin", Platform::Unix), Some("/opt".to_string()));
    assert_eq!(parent_dir("/opt", Platform::Unix), Some("/".to_string()));
    assert_eq!(parent_dir("opt", Platform::Unix), Some("".to_string()));
    assert_eq!(parent_dir("/", Platform::Unix), None);
    assert_eq!(parent_dir("", Platform::Unix), None);
    assert_eq!(parent_dir("C:\\app\\bin", Platform::Windows), Some("C:\\app".to_string()));
    assert_eq!(parent_dir("C:\\app\\bin", Platform::Unix), Some("".to_string()));
}

#[test]
fn exe_name_adds_the_suffix_on_windows_only() {
    assert_eq!(exe_name("updater", Platform::Windows), "updater.exe");
    assert_eq!(exe_name("updater", Platform::Unix), "updater");
    assert_eq!(exe_name("", Platform::Windows), ".exe");
}
