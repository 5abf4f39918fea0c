use runtime_supervisor::env::apply_host_env_overrides;
use runtime_supervisor::env::build_runtime_env;
use runtime_supervisor::env::host_override_keys;
use runtime_supervisor::env::merge_env_file;
use runtime_supervisor::env::service_url;
use runtime_supervisor::env::EnvironmentSet;
use runtime_supervisor::error::EnvLineFault;
use runtime_supervisor::error::RuntimeError;
use runtime_supervisor::platform::Platform;

fn env_of(pairs: &[(&str, &str)]) -> EnvironmentSet {
    let mut env = EnvironmentSet::new();
    for (key, value) in pairs {
        env.insert(key.to_string(), value.to_string());
    }
    env
}

fn sorted(env: &EnvironmentSet) -> Vec<(String, String)> {
    let mut pairs = env.pairs();
    pairs.sort();
    pairs
}

fn value(env: &EnvironmentSet, key: &str) -> Option<String> {
    env.get(key)
}

fn some(text: &str) -> Option<String> {
    Some(text.to_string())
}

#[test]
fn environment_set_holds_each_name_once() {
    let mut env = EnvironmentSet::new();
    assert_eq!(env.pairs(), Vec::new());
    assert_eq!(value(&env, "A"), None);
    env.insert("A".to_string(), "1".to_string());
    env.insert("B".to_string(), "2".to_string());
    env.insert("A".to_string(), "3".to_string());
    assert_eq!(value(&env, "A"), some("3"));
    assert_eq!(value(&env, "B"), some("2"));
    assert_eq!(value(&env, "a"), None);
    assert_eq!(
        sorted(&env),
        vec![("A".to_string(), "3".to_string()), ("B".to_string(), "2".to_string())]
    );
    assert_eq!(sorted(&env.duplicate()), sorted(&env));
}

#[test]
fn service_url_has_scheme_host_and_port() {
    assert_eq!(service_url("127.0.0.1", "5276"), "http://127.0.0.1:5276");
}

#[test]
fn build_runtime_env_gives_every_default() {
    let env = build_runtime_env("/home/u/data", "/opt/app/server", "/opt/app/CHANGELOG.json", Platform::Unix);
    let expected = env_of(&[
        ("DEV_ENV", "false"),
        ("FLASK_DEBUG", "false"),
        ("PTNEXUS_EMBED_BG_IN_APP", "false"),
        ("PYTHONUTF8", "1"),
        ("PYTHONPATH", "/opt/app/server"),
        ("SERVER_HOST", "127.0.0.1"),
        ("SERVER_PORT", "5275"),
        ("UPDATER_PORT", "5274"),
        ("BATCH_PORT", "5276"),
        ("BATCH_ENHANCER_PORT", "5276"),
        ("GO_SERVICE_URL", "http://127.0.0.1:5276"),
        ("CORE_API_URL", "http://127.0.0.1:5275"),
        ("PTNEXUS_BASE_DIR", "/opt/app/server"),
        ("PTNEXUS_DATA_DIR", "/home/u/data"),
        ("PTNEXUS_STATIC_DIR", "/opt/app/server/dist"),
        ("PTNEXUS_GLOBAL_MAPPINGS", "/opt/app/server/configs/global_mappings.yaml"),
        ("PTNEXUS_SITES_DATA_FILE", "/opt/app/server/sites_data.json"),
        ("PTNEXUS_BDINFO_DIR", "/opt/app/server/bdinfo"),
        ("PTNEXUS_BDINFO_PATH", "/opt/app/server/bdinfo/BDInfo"),
        ("TEMP_DIR", "/home/u/data/tmp"),
        ("CONFIG_FILE", "/home/u/data/config.json"),
        ("UPDATE_DIR", "/home/u/data/updates"),
        ("REPO_DIR", "/home/u/data/updates/repo"),
        ("LOCAL_CONFIG_FILE", "/opt/app/CHANGELOG.json"),
    ]);
    assert_eq!(sorted(&env), sorted(&expected));
}

#[test]
fn build_runtime_env_derives_every_path_from_its_two_directories() {
    let env = build_runtime_env("/home/u/data", "/opt/app/server", "/opt/app/CHANGELOG.json", Platform::Unix);
    for key in [
        "PYTHONPATH",
        "PTNEXUS_BASE_DIR",
        "PTNEXUS_STATIC_DIR",
        "PTNEXUS_GLOBAL_MAPPINGS",
        "PTNEXUS_SITES_DATA_FILE",
        "PTNEXUS_BDINFO_DIR",
        "PTNEXUS_BDINFO_PATH",
    ] {
        assert!(value(&env, key).unwrap().starts_with("/opt/app/server"), "{}", key);
    }
    for key in ["PTNEXUS_DATA_DIR", "TEMP_DIR", "CONFIG_FILE", "UPDATE_DIR", "REPO_DIR"] {
        assert!(value(&env, key).unwrap().starts_with("/home/u/data"), "{}", key);
    }
}

#[test]
fn build_runtime_env_uses_windows_names_on_windows() {
    let env = build_runtime_env("D:\\data", "C:\\app\\server", "C:\\app\\CHANGELOG.json", Platform::Windows);
    assert_eq!(value(&env, "PTNEXUS_BDINFO_PATH"), some("C:\\app\\server\\bdinfo\\BDInfo.exe"));
    assert_eq!(value(&env, "REPO_DIR"), some("D:\\data\\updates\\repo"));
}

#[test]
fn host_override_keys_is_the_fixed_allow_list() {
    assert_eq!(
        host_override_keys(),
        vec![
            "DB_TYPE",
            "MYSQL_HOST",
            "MYSQL_PORT",
            "MYSQL_USER",
            "MYSQL_PASSWORD",
            "MYSQL_DATABASE",
            "POSTGRES_HOST",
            "POSTGRES_PORT",
            "POSTGRES_USER",
            "POSTGRES_PASSWORD",
            "POSTGRES_DATABASE",
            "SERVER_HOST",
            "SERVER_PORT",
            "BATCH_PORT",
            "UPDATER_PORT",
            "GO_SERVICE_URL",
            "CORE_API_URL",
            "PTNEXUS_EMBED_BG_IN_APP",
        ]
    );
}

#[test]
fn apply_host_env_overrides_takes_allowed_non_empty_values_only() {
    let mut env = env_of(&[("SERVER_PORT", "5275"), ("DEV_ENV", "false"), ("BATCH_PORT", "5276")]);
    let host = env_of(&[
        ("SERVER_PORT", "8000"),
        ("DEV_ENV", "true"),
        ("BATCH_PORT", "   "),
        ("DB_TYPE", " mysql "),
        ("MYSQL_HOST", ""),
        ("PATH", "/usr/bin"),
    ]);
    apply_host_env_overrides(&mut env, &host_override_keys(), &host);
    assert_eq!(
        sorted(&env),
        sorted(&env_of(&[
            ("SERVER_PORT", "8000"),
            ("DEV_ENV", "false"),
            ("BATCH_PORT", "   "),
            ("DB_TYPE", " mysql "),
        ]))
    );
}

#[test]
fn a_host_value_of_white_space_overrides_and_an_empty_one_does_not() {
    let mut env = env_of(&[("DB_TYPE", "sqlite"), ("MYSQL_HOST", "db")]);
    let host = env_of(&[("DB_TYPE", "  "), ("MYSQL_HOST", "")]);
    apply_host_env_overrides(&mut env, &host_override_keys(), &host);
    assert_eq!(value(&env, "DB_TYPE"), some("  "));
    assert_eq!(value(&env, "MYSQL_HOST"), some("db"));
}

#[test]
fn merge_env_file_strips_quotes_and_lets_the_last_line_win() {
    let mut env = EnvironmentSet::new();
    assert_eq!(merge_env_file(&mut env, "FOO=bar\nFOO=\"baz\"\n"), Ok(()));
    assert_eq!(sorted(&env), sorted(&env_of(&[("FOO", "baz")])));
}

#[test]
fn merge_env_file_names_the_line_without_a_separator() {
    let mut env = EnvironmentSet::new();
    assert_eq!(
        merge_env_file(&mut env, "# settings\n\nA=1\nnokeyvalue\nB=2\n"),
        Err(RuntimeError::MalformedEnvFile { line: 4, reason: EnvLineFault::MissingSeparator })
    );
    assert_eq!(sorted(&env), sorted(&env_of(&[("A", "1")])));
    let mut first = EnvironmentSet::new();
    assert_eq!(
        merge_env_file(&mut first, "nokeyvalue"),
        Err(RuntimeError::MalformedEnvFile { line: 1, reason: EnvLineFault::MissingSeparator })
    );
}

#[test]
fn merge_env_file_refuses_an_empty_key() {
    let mut env = EnvironmentSet::new();
    assert_eq!(
        merge_env_file(&mut env, "A=1\r\n  =value\r\n"),
        Err(RuntimeError::MalformedEnvFile { line: 2, reason: EnvLineFault::EmptyKey })
    );
}

#[test]
fn merge_env_file_skips_blank_lines_and_comments() {
    let mut env = env_of(&[("KEEP", "me")]);
    assert_eq!(merge_env_file(&mut env, "\n   \n# A=1\n   # B=2\n\t\n"), Ok(()));
    assert_eq!(sorted(&env), sorted(&env_of(&[("KEEP", "me")])));
    assert_eq!(merge_env_file(&mut env, ""), Ok(()));
    assert_eq!(sorted(&env), sorted(&env_of(&[("KEEP", "me")])));
}

#[test]
fn merge_env_file_trims_names_and_values_and_strips_one_pair_of_quotes() {
    let mut env = EnvironmentSet::new();
    let text = "  A = 1  \nB='two words'\nC=\"\"quoted\"\"\nD=\"\nE='mixed\"\nF=\nG=a=b\nH=\" padded \"\nI=''\n";
    assert_eq!(merge_env_file(&mut env, text), Ok(()));
    assert_eq!(
        sorted(&env),
        sorted(&env_of(&[
            ("A", "1"),
            ("B", "two words"),
            ("C", "\"quoted\""),
            ("D", "\""),
            ("E", "'mixed\""),
            ("F", ""),
            ("G", "a=b"),
            ("H", " padded "),
            ("I", ""),
        ]))
    );
}

#[test]
fn layers_apply_in_order_defaults_then_host_then_file() {
    let mut env = build_runtime_env("/d", "/s", "/c", Platform::Unix);
    let host = env_of(&[("SERVER_PORT", "7000"), ("BATCH_PORT", "7001"), ("TEMP_DIR", "/elsewhere")]);
    apply_host_env_overrides(&mut env, &host_override_keys(), &host);
    assert_eq!(merge_env_file(&mut env, "SERVER_PORT=9000\nEXTRA=yes\n"), Ok(()));
    assert_eq!(value(&env, "SERVER_PORT"), some("9000"));
    assert_eq!(value(&env, "BATCH_PORT"), some("7001"));
    assert_eq!(value(&env, "UPDATER_PORT"), some("5274"));
    assert_eq!(value(&env, "TEMP_DIR"), some("/d/tmp"));
    assert_eq!(value(&env, "EXTRA"), some("yes"));
}
