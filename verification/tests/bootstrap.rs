use ah_config::bootstrap::FileWrite;
use ah_config::error::ResolveError;
use ah_config::resolver::AhConfig;

const EIGHT_LINES: &str = "database_url = \"sqlite://acars.db\"\nenable_acars = false\nenable_vdlm2 = false\nenable_hfdl = false\nenable_iridium = false\nenable_inmarsat = false\nenable_adsb = false\nlog_level = \"info\"\n";

#[test]
fn file_path_prefers_the_test_override() {
    let p = AhConfig::get_file_path(Some("/tmp/t.toml".to_string()), Some("/etc/d.toml".to_string()));
    assert_eq!(p, "/tmp/t.toml");
    let p = AhConfig::get_file_path(Some("/tmp/t.toml".to_string()), None);
    assert_eq!(p, "/tmp/t.toml");
}

#[test]
fn file_path_falls_back_to_the_deployment_override() {
    let p = AhConfig::get_file_path(None, Some("/etc/d.toml".to_string()));
    assert_eq!(p, "/etc/d.toml");
}

#[test]
fn file_path_defaults_to_the_fixed_relative_path() {
    assert_eq!(AhConfig::get_file_path(None, None), "./ah_config.toml");
}

#[test]
fn bootstrap_writes_defaults_only_where_no_file_exists() {
    let w = AhConfig::write_default_config("/tmp/new.toml", false);
    assert_eq!(
        w,
        Some(FileWrite { path: "/tmp/new.toml".to_string(), contents: EIGHT_LINES.to_string() })
    );
    assert_eq!(AhConfig::write_default_config("/tmp/new.toml", true), None);
}

#[test]
fn bootstrap_twice_writes_once_and_leaves_the_same_bytes() {
    let mut disk: Option<String> = None;
    let mut writes = 0;
    if let Some(w) = AhConfig::write_default_config("./ah_config.toml", disk.is_some()) {
        disk = Some(w.contents);
        writes += 1;
    }
    let after_first = disk.clone();
    if let Some(w) = AhConfig::write_default_config("./ah_config.toml", disk.is_some()) {
        disk = Some(w.contents);
        writes += 1;
    }
    assert_eq!(writes, 1);
    assert_eq!(disk, after_first);
    assert_eq!(disk.unwrap(), EIGHT_LINES);
}

#[test]
fn bootstrap_leaves_a_malformed_file_alone() {
    let disk = Some("enable_acars = \"yes\"\n".to_string());
    assert_eq!(AhConfig::write_default_config("./ah_config.toml", disk.is_some()), None);
}

#[test]
fn write_config_carries_the_whole_text_to_the_resolved_path() {
    let mut cfg = AhConfig::with_defaults("./ah_config.toml".to_string());
    cfg.enable_adsb = true;
    cfg.log_level = "trace".to_string();
    let w = cfg.write_config(None, Some("/config/ah.toml".to_string()));
    assert_eq!(w.path, "/config/ah.toml");
    assert_eq!(w.contents, cfg.get_config_as_toml_string());
    assert_eq!(
        w.contents,
        "database_url = \"sqlite://acars.db\"\nenable_acars = false\nenable_vdlm2 = false\nenable_hfdl = false\nenable_iridium = false\nenable_inmarsat = false\nenable_adsb = true\nlog_level = \"trace\"\n"
    );
    let w = cfg.write_config(None, None);
    assert_eq!(w.path, "./ah_config.toml");
}

#[test]
fn with_defaults_keeps_the_given_path() {
    let cfg = AhConfig::with_defaults("/x/y.toml".to_string());
    assert_eq!(cfg.config_file, "/x/y.toml");
    assert_eq!(cfg.database_url, "sqlite://acars.db");
    assert_eq!(cfg.log_level, "info");
}

#[test]
fn an_empty_override_counts_as_not_set() {
    let empty = Some(String::new());
    assert_eq!(AhConfig::get_file_path(empty.clone(), None), "./ah_config.toml");
    assert_eq!(AhConfig::get_file_path(None, empty.clone()), "./ah_config.toml");
    assert_eq!(AhConfig::get_file_path(empty.clone(), empty.clone()), "./ah_config.toml");
    assert_eq!(AhConfig::get_file_path(empty.clone(), Some("/d.toml".to_string())), "/d.toml");
    assert_eq!(AhConfig::get_file_path(Some("/t.toml".to_string()), empty), "/t.toml");
}

#[test]
fn default_config_carries_the_resolved_path() {
    let cfg = AhConfig::default_config(Some("/tmp/x".to_string()), Some("/etc/y".to_string()));
    assert_eq!(cfg.config_file, "/tmp/x");
    assert_eq!(cfg, AhConfig::with_defaults("/tmp/x".to_string()));
    let cfg = AhConfig::default_config(None, Some("/etc/y".to_string()));
    assert_eq!(cfg.config_file, "/etc/y");
    let cfg = AhConfig::default_config(None, None);
    assert_eq!(cfg.config_file, "./ah_config.toml");
    assert_eq!(cfg.database_url, "sqlite://acars.db");
    assert_eq!(cfg.log_level, "info");
    assert!(!cfg.enable_acars && !cfg.enable_adsb);
}

#[test]
fn a_failed_commit_is_a_file_access_error_with_the_path() {
    let cfg = AhConfig::with_defaults("./ah_config.toml".to_string());
    let write = cfg.write_config(None, Some("/ro/ah.toml".to_string()));
    assert_eq!(write.outcome(true), Ok(()));
    assert_eq!(
        write.outcome(false),
        Err(ResolveError::FileAccess { path: "/ro/ah.toml".to_string() })
    );
    assert_eq!(cfg, AhConfig::with_defaults("./ah_config.toml".to_string()));
}
