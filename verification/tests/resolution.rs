use ah_config::adapter::FileRead;
use ah_config::error::ResolveError;
use ah_config::options::ConfigOption;
use ah_config::resolver::AhConfig;

const DEFAULT_FILE: &str = "database_url = \"sqlite://acars.db\"\nenable_acars = false\nenable_vdlm2 = false\nenable_hfdl = false\nenable_iridium = false\nenable_inmarsat = false\nenable_adsb = false\nlog_level = \"info\"\n";

fn pairs(items: &[(&str, &str)]) -> Vec<(String, String)> {
    items.iter().map(|(k, v)| (k.to_string(), v.to_string())).collect()
}

fn path() -> String {
    "./ah_config.toml".to_string()
}

fn defaults() -> AhConfig {
    AhConfig::with_defaults(path())
}

fn resolve_text(
    config_file: String,
    text: &str,
    env: &Vec<(String, String)>,
) -> Result<AhConfig, ResolveError> {
    AhConfig::new(config_file, &FileRead::Text(text.to_string()), env)
}

#[test]
fn empty_sources_resolve_to_defaults() {
    let cfg = resolve_text(path(), "", &Vec::new()).unwrap();
    assert_eq!(cfg, defaults());
    assert_eq!(cfg.database_url, "sqlite://acars.db");
    assert_eq!(cfg.log_level, "info");
    assert!(!cfg.enable_acars && !cfg.enable_vdlm2 && !cfg.enable_hfdl);
    assert!(!cfg.enable_iridium && !cfg.enable_inmarsat && !cfg.enable_adsb);
    assert_eq!(cfg.config_file, "./ah_config.toml");
}

#[test]
fn option_missing_from_both_sources_keeps_default() {
    let env = pairs(&[("AH_ENABLE_HFDL", "true")]);
    let cfg = resolve_text(path(), "enable_acars = true\n", &env).unwrap();
    assert!(cfg.enable_acars);
    assert!(cfg.enable_hfdl);
    assert_eq!(cfg.database_url, "sqlite://acars.db");
    assert_eq!(cfg.log_level, "info");
    assert!(!cfg.enable_adsb);
}

#[test]
fn environment_overrides_file_value() {
    let env = pairs(&[("AH_ENABLE_ADSB", "true")]);
    let cfg = resolve_text(path(), "enable_adsb = false\n", &env).unwrap();
    assert!(cfg.enable_adsb);
    let env = pairs(&[("AH_ENABLE_ADSB", "false")]);
    let cfg = resolve_text(path(), "enable_adsb = true\n", &env).unwrap();
    assert!(!cfg.enable_adsb);
}

#[test]
fn file_overrides_defaults() {
    let text = "database_url = \"postgres://db\"\nenable_iridium = true\nlog_level = \"warn\"\n";
    let cfg = resolve_text("/etc/ah.toml".to_string(), text, &Vec::new()).unwrap();
    assert_eq!(cfg.database_url, "postgres://db");
    assert!(cfg.enable_iridium);
    assert_eq!(cfg.log_level, "warn");
    assert_eq!(cfg.config_file, "/etc/ah.toml");
}

#[test]
fn missing_file_bootstrap_resolves_to_defaults() {
    let write = AhConfig::write_default_config("./ah_config.toml", false).unwrap();
    assert_eq!(write.path, "./ah_config.toml");
    assert_eq!(write.contents, DEFAULT_FILE);
    let cfg = resolve_text(write.path.clone(), &write.contents, &Vec::new()).unwrap();
    assert_eq!(cfg, defaults());
}

#[test]
fn malformed_boolean_fails_with_coercion_error() {
    let text = "enable_acars = \"yes\"\n";
    let got = resolve_text(path(), text, &Vec::new());
    assert_eq!(
        got,
        Err(ResolveError::Coercion { option: ConfigOption::EnableAcars, value: "yes".to_string() })
    );
    assert_eq!(AhConfig::write_default_config("./ah_config.toml", true), None);
}

#[test]
fn malformed_environment_boolean_fails_even_if_file_is_valid() {
    let env = pairs(&[("AH_ENABLE_VDLM2", "TRUE")]);
    let got = resolve_text(path(), "enable_vdlm2 = true\n", &env);
    assert_eq!(
        got,
        Err(ResolveError::Coercion { option: ConfigOption::EnableVdlm2, value: "TRUE".to_string() })
    );
}

#[test]
fn first_malformed_option_in_declaration_order_is_reported() {
    let text = "enable_adsb = \"no\"\nenable_hfdl = \"on\"\n";
    let got = resolve_text(path(), text, &Vec::new());
    assert_eq!(
        got,
        Err(ResolveError::Coercion { option: ConfigOption::EnableHfdl, value: "on".to_string() })
    );
}

#[test]
fn precedence_chain_file_then_environment() {
    let text = "log_level = \"debug\"\n";
    let cfg = resolve_text(path(), text, &Vec::new()).unwrap();
    assert_eq!(cfg.log_level, "debug");
    let env = pairs(&[("AH_LOG_LEVEL", "trace")]);
    let cfg = resolve_text(path(), text, &env).unwrap();
    assert_eq!(cfg.log_level, "trace");
    assert_eq!(text, "log_level = \"debug\"\n");
    let again = resolve_text(path(), text, &Vec::new()).unwrap();
    assert_eq!(again.log_level, "debug");
}

#[test]
fn text_that_is_not_in_the_format_is_a_parse_error() {
    let got = resolve_text("/tmp/broken.toml".to_string(), "enable_acars = = true", &Vec::new());
    assert_eq!(got, Err(ResolveError::Parse { path: "/tmp/broken.toml".to_string() }));
    let got = resolve_text(path(), "log_level = \"unterminated\n", &Vec::new());
    assert_eq!(got, Err(ResolveError::Parse { path: path() }));
}

#[test]
fn parse_error_wins_over_environment() {
    let env = pairs(&[("AH_LOG_LEVEL", "trace")]);
    let got = resolve_text(path(), "not toml at all", &env);
    assert_eq!(got, Err(ResolveError::Parse { path: path() }));
}

#[test]
fn unrecognized_and_lowercase_variables_are_ignored() {
    let env = pairs(&[
        ("AH_UNKNOWN", "1"),
        ("ah_enable_acars", "true"),
        ("AH_TEST_ENV_PATH", "/tmp/x.toml"),
        ("ENABLE_ACARS", "true"),
        ("PATH", "/usr/bin"),
    ]);
    let cfg = resolve_text(path(), "", &env).unwrap();
    assert_eq!(cfg, defaults());
}

#[test]
fn unknown_file_keys_are_ignored() {
    let cfg = resolve_text(path(), "something_else = \"x\"\nenable_hfdl = true\n", &Vec::new())
        .unwrap();
    assert!(cfg.enable_hfdl);
    assert_eq!(cfg.database_url, "sqlite://acars.db");
}

#[test]
fn empty_environment_value_is_an_override() {
    let env = pairs(&[("AH_DATABASE_URL", "")]);
    let cfg = resolve_text(path(), "database_url = \"x\"\n", &env).unwrap();
    assert_eq!(cfg.database_url, "");
}

#[test]
fn every_environment_variable_overrides_its_option() {
    let env = pairs(&[
        ("AH_DATABASE_URL", "mysql://h/db"),
        ("AH_ENABLE_ACARS", "true"),
        ("AH_ENABLE_VDLM2", "true"),
        ("AH_ENABLE_HFDL", "true"),
        ("AH_ENABLE_IRIDIUM", "true"),
        ("AH_ENABLE_INMARSAT", "true"),
        ("AH_ENABLE_ADSB", "true"),
        ("AH_LOG_LEVEL", "error"),
    ]);
    let cfg = resolve_text(path(), DEFAULT_FILE, &env).unwrap();
    assert_eq!(cfg.database_url, "mysql://h/db");
    assert!(cfg.enable_acars && cfg.enable_vdlm2 && cfg.enable_hfdl);
    assert!(cfg.enable_iridium && cfg.enable_inmarsat && cfg.enable_adsb);
    assert_eq!(cfg.log_level, "error");
}

#[test]
fn get_and_validate_config_agrees_with_new() {
    let env = pairs(&[("AH_ENABLE_INMARSAT", "true")]);
    let a = resolve_text(path(), DEFAULT_FILE, &env);
    let b = AhConfig::get_and_validate_config(path(), &FileRead::Text(DEFAULT_FILE.to_string()), &env);
    assert_eq!(a, b);
    assert!(a.unwrap().enable_inmarsat);
}

#[test]
fn file_values_of_other_types_come_as_their_text() {
    let cfg = resolve_text(path(), "database_url = 42\nlog_level = true\n", &Vec::new()).unwrap();
    assert_eq!(cfg.database_url, "42");
    assert_eq!(cfg.log_level, "true");
    let got = resolve_text(path(), "enable_acars = 1\n", &Vec::new());
    assert_eq!(
        got,
        Err(ResolveError::Coercion { option: ConfigOption::EnableAcars, value: "1".to_string() })
    );
}

#[test]
fn missing_file_fails_with_file_not_found_and_the_path() {
    let env = pairs(&[("AH_LOG_LEVEL", "trace")]);
    let got = AhConfig::new("/nowhere/ah.toml".to_string(), &FileRead::NotFound, &env);
    assert_eq!(got, Err(ResolveError::FileNotFound { path: "/nowhere/ah.toml".to_string() }));
    let got = AhConfig::get_config("/nowhere/ah.toml", &FileRead::NotFound, &env);
    assert_eq!(
        got.err(),
        Some(ResolveError::FileNotFound { path: "/nowhere/ah.toml".to_string() })
    );
}

#[test]
fn unreadable_file_fails_with_file_access_and_the_path() {
    let got = AhConfig::new("/locked/ah.toml".to_string(), &FileRead::Unreadable, &Vec::new());
    assert_eq!(got, Err(ResolveError::FileAccess { path: "/locked/ah.toml".to_string() }));
}

#[test]
fn keys_of_the_file_are_never_read_as_paths() {
    let text = "\"a[9223372036854775807]\" = \"x\"\n\"b[-5]\" = \"y\"\nlog_level = \"warn\"\n";
    let cfg = resolve_text(path(), text, &Vec::new()).unwrap();
    assert_eq!(cfg.log_level, "warn");
    let text = "a = \"x\"\n\"a.b\" = \"y\"\n\"log_level.x\" = \"z\"\nlog_level = \"error\"\n";
    let mut n = 0;
    while n < 20 {
        let cfg = resolve_text(path(), text, &Vec::new()).unwrap();
        assert_eq!(cfg.log_level, "error");
        n += 1;
    }
}

#[test]
fn a_table_in_the_file_is_a_parse_error() {
    let got = resolve_text(path(), "[section]\nkey = 1\n", &Vec::new());
    assert_eq!(got, Err(ResolveError::Parse { path: path() }));
    let got = resolve_text(path(), "log_level.sub = \"x\"\n", &Vec::new());
    assert_eq!(got, Err(ResolveError::Parse { path: path() }));
}
