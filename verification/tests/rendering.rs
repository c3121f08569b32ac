use ah_config::adapter::FileRead;
use ah_config::resolver::AhConfig;

fn sample() -> AhConfig {
    AhConfig {
        database_url: "postgres://user@host/db".to_string(),
        enable_acars: true,
        enable_vdlm2: false,
        enable_hfdl: true,
        enable_iridium: false,
        enable_inmarsat: true,
        enable_adsb: false,
        log_level: "debug".to_string(),
        config_file: "/data/ah.toml".to_string(),
    }
}

#[test]
fn defaults_render_as_the_eight_default_lines() {
    let text = AhConfig::with_defaults("./ah_config.toml".to_string()).get_config_as_toml_string();
    assert_eq!(
        text,
        "database_url = \"sqlite://acars.db\"\nenable_acars = false\nenable_vdlm2 = false\nenable_hfdl = false\nenable_iridium = false\nenable_inmarsat = false\nenable_adsb = false\nlog_level = \"info\"\n"
    );
}

#[test]
fn rendering_quotes_strings_and_writes_bare_booleans_in_order() {
    let text = sample().get_config_as_toml_string();
    assert_eq!(
        text,
        "database_url = \"postgres://user@host/db\"\nenable_acars = true\nenable_vdlm2 = false\nenable_hfdl = true\nenable_iridium = false\nenable_inmarsat = true\nenable_adsb = false\nlog_level = \"debug\"\n"
    );
}

#[test]
fn rendered_text_resolves_back_to_the_same_configuration() {
    let cfg = sample();
    let text = cfg.get_config_as_toml_string();
    let back = AhConfig::new(cfg.config_file.clone(), &FileRead::Text(text), &Vec::new()).unwrap();
    assert_eq!(back, cfg);
}

#[test]
fn round_trip_holds_for_every_combination_of_flags() {
    let mut n: u32 = 0;
    while n < 64 {
        let cfg = AhConfig {
            database_url: format!("sqlite://db{}.sqlite", n),
            enable_acars: n & 1 != 0,
            enable_vdlm2: n & 2 != 0,
            enable_hfdl: n & 4 != 0,
            enable_iridium: n & 8 != 0,
            enable_inmarsat: n & 16 != 0,
            enable_adsb: n & 32 != 0,
            log_level: "trace".to_string(),
            config_file: "./ah_config.toml".to_string(),
        };
        let text = cfg.get_config_as_toml_string();
        let back = AhConfig::new(cfg.config_file.clone(), &FileRead::Text(text), &Vec::new()).unwrap();
        assert_eq!(back, cfg);
        n += 1;
    }
}

#[test]
fn round_trip_keeps_empty_and_spaced_strings() {
    let mut cfg = sample();
    cfg.database_url = String::new();
    cfg.log_level = "  very verbose = yes # really ".to_string();
    let text = cfg.get_config_as_toml_string();
    let back = AhConfig::new(cfg.config_file.clone(), &FileRead::Text(text), &Vec::new()).unwrap();
    assert_eq!(back, cfg);
}

#[test]
fn show_config_lists_every_option_in_order() {
    let lines = sample().show_config();
    assert_eq!(
        lines,
        vec![
            "database_url: postgres://user@host/db".to_string(),
            "enable_acars: true".to_string(),
            "enable_vdlm2: false".to_string(),
            "enable_hfdl: true".to_string(),
            "enable_iridium: false".to_string(),
            "enable_inmarsat: true".to_string(),
            "enable_adsb: false".to_string(),
            "log_level: debug".to_string(),
        ]
    );
}

#[test]
fn show_config_of_defaults() {
    let lines = AhConfig::with_defaults("./ah_config.toml".to_string()).show_config();
    assert_eq!(lines.len(), 8);
    assert_eq!(lines[0], "database_url: sqlite://acars.db");
    assert_eq!(lines[6], "enable_adsb: false");
    assert_eq!(lines[7], "log_level: info");
}

#[test]
fn enable_logging_can_be_called_more_than_once() {
    let cfg = sample();
    cfg.enable_logging();
    AhConfig::with_defaults("./ah_config.toml".to_string()).enable_logging();
    assert_eq!(cfg.log_level, "debug");
}
