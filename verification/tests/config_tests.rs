use superfuse::config::{
    data_root, database_url, env_value, fs_config, join, require_env_number, require_env_text,
    resolve_data_root, DataPaths, FsConfig, MountOption, ProviderSettings, SessionAcl, SuperpositionConfig,
};

fn env(pairs: &[(&str, &str)]) -> Vec<(String, String)> {
    pairs.iter().map(|(k, v)| (k.to_string(), v.to_string())).collect()
}

#[test]
fn env_value_finds_the_first_match() {
    let vars = env(&[("A", "1"), ("B", "2"), ("A", "3")]);
    assert_eq!(env_value(&vars, "A"), Some("1".to_string()));
    assert_eq!(env_value(&vars, "B"), Some("2".to_string()));
    assert_eq!(env_value(&vars, "C"), None);
}

#[test]
fn unset_settings_take_their_defaults() {
    let vars = env(&[("OTHER", "x")]);
    assert_eq!(require_env_text(&vars, "SUPERPOSITION_TOKEN", "123456"), "123456");
    assert_eq!(require_env_number(&vars, "SUPERPOSITION_CACHE_SIZE", 500), 500);
}

#[test]
fn numeric_settings_fall_back_on_unreadable_values() {
    let vars = env(&[("SUPERPOSITION_CACHE_TTL", "ten"), ("SUPERPOSITION_POLL_TIMEOUT", "45")]);
    assert_eq!(require_env_number(&vars, "SUPERPOSITION_CACHE_TTL", 3600), 3600);
    assert_eq!(require_env_number(&vars, "SUPERPOSITION_POLL_TIMEOUT", 30), 45);
}

fn connection() -> Vec<(String, String)> {
    env(&[
        ("SUPERPOSITION_ENDPOINT", "https://superposition.juspay.io"),
        ("SUPERPOSITION_TOKEN", "secret"),
        ("SUPERPOSITION_ORG_ID", "my-org"),
        ("SUPERPOSITION_WORKSPACE_ID", "my-workspace"),
    ])
}

#[test]
fn superposition_config_requires_the_connection_variables() {
    match SuperpositionConfig::init(&[]) {
        Err(superfuse::error::SuperfuseError::MissingSetting(name)) => {
            assert_eq!(name, "SUPERPOSITION_ENDPOINT")
        }
        other => panic!("unexpected {other:?}"),
    }
    let mut vars = connection();
    vars.retain(|(k, _)| k != "SUPERPOSITION_ORG_ID");
    match SuperpositionConfig::init(&vars) {
        Err(superfuse::error::SuperfuseError::MissingSetting(name)) => {
            assert_eq!(name, "SUPERPOSITION_ORG_ID")
        }
        other => panic!("unexpected {other:?}"),
    }
}

#[test]
fn superposition_config_reads_the_environment() {
    let cfg = SuperpositionConfig::init(&connection()).unwrap();
    assert_eq!(cfg.endpoint, "https://superposition.juspay.io");
    assert_eq!(cfg.token, "secret");
    assert_eq!(cfg.org_id, "my-org");
    assert_eq!(cfg.workspace_id, "my-workspace");
    assert!(cfg.additional_headers.is_empty());
}

#[test]
fn provider_settings_combine_config_and_environment() {
    let mut vars = connection();
    vars.extend(env(&[("SUPERPOSITION_CACHE_SIZE", "1000"), ("SUPERPOSITION_POLL_FREQUENCY", "+5")]));
    let cfg = SuperpositionConfig::init(&vars).unwrap();
    let settings = ProviderSettings::from_config(&cfg, &vars);
    assert_eq!(settings.endpoint, "https://superposition.juspay.io");
    assert_eq!(settings.org_id, "my-org");
    assert_eq!(settings.cache_size, 1000);
    assert_eq!(settings.cache_ttl, 3600);
    assert_eq!(settings.poll_interval, 5);
    assert_eq!(settings.poll_timeout, 30);
    assert!(!settings.with_fallback_config);
    assert!(!settings.with_experimentation);
}

#[test]
fn join_puts_one_separator() {
    assert_eq!(join("/data", "logs"), "/data/logs");
    assert_eq!(join("/data/", "logs"), "/data/logs");
    assert_eq!(join("", "logs"), "logs");
}

#[test]
fn data_paths_lie_under_the_root() {
    let paths = DataPaths::under("/home/alice/.local/share/superfuse");
    assert_eq!(paths.db, "/home/alice/.local/share/superfuse/superfuse.db");
    assert_eq!(paths.logs, "/home/alice/.local/share/superfuse/logs");
}

#[test]
fn data_root_is_the_project_data_directory() {
    if let Ok(root) = data_root() {
        assert!(root.ends_with("superfuse"), "{root}");
        assert_ne!(root, "superfuse");
    }
}

#[test]
fn database_url_creates_missing_files() {
    assert_eq!(database_url("/tmp/superfuse.db"), "sqlite:/tmp/superfuse.db?mode=rwc");
}

fn names(c: &FsConfig) -> Vec<String> {
    c.mount_options
        .iter()
        .map(|o| match o {
            MountOption::FSName(n) => format!("fsname={n}"),
            other => format!("{other:?}"),
        })
        .collect()
}

#[test]
fn fs_config_new_is_the_fuser_default() {
    let c = FsConfig::new();
    assert!(c.mount_options.is_empty());
    assert_eq!(c.acl, SessionAcl::Owner);
    assert_eq!(c.n_threads, None);
    assert!(!c.clone_fd);
}

#[test]
fn fs_config_with_auto_unmount_allows_everyone() {
    let c = fs_config("/mnt/superfuse", true, false, 8, true);
    assert_eq!(names(&c), vec!["AutoUnmount", "RO", "fsname=/mnt/superfuse"]);
    assert_eq!(c.acl, SessionAcl::All);
    assert_eq!(c.n_threads, Some(8));
    assert!(c.clone_fd);
}

#[test]
fn fs_config_allowing_root_wins() {
    let c = fs_config("/mnt/x", true, true, 4, false);
    assert_eq!(c.acl, SessionAcl::RootAndOwner);
    let c = fs_config("/mnt/x", false, true, 4, false);
    assert_eq!(c.acl, SessionAcl::RootAndOwner);
    assert_eq!(names(&c), vec!["RO", "fsname=/mnt/x"]);
}

#[test]
fn fs_config_plain_is_owner_only() {
    let c = fs_config("/mnt/x", false, false, 1, false);
    assert_eq!(c.acl, SessionAcl::Owner);
    assert_eq!(names(&c), vec!["RO", "fsname=/mnt/x"]);
}

#[test]
fn resolve_data_root_reports_a_missing_directory() {
    assert_eq!(resolve_data_root(Some("/home/a/.local/share/superfuse".to_string())).unwrap(), "/home/a/.local/share/superfuse");
    assert!(matches!(resolve_data_root(None), Err(superfuse::error::SuperfuseError::NoDataDir)));
}

#[test]
fn the_project_is_juspay_superfuse() {
    assert_eq!(superfuse::config::project_identity(), ("com", "juspay", "superfuse"));
}
