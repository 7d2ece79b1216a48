use std::str::FromStr;
use tivra::{
    check_config_size, AppDirs, AppFont, BundledFont, BuiltinTheme, ByteStandard, ConfigError,
    GuiLanguage, LogLevel, StoredTheme, TelemetryConfig, TelemetryError, MAX_CONFIG_SIZE,
};
use tivra::paths::join;
use tivra::telemetry::{log_file_name, plan};

#[test]
fn test_config_builder() {
    let config = TelemetryConfig::new("test_app_name")
        .with_level(LogLevel::Debug)
        .hide_console()
        .silence_crates(&["crate_a", "crate_b"]);

    assert_eq!(config.app_name, "test_app_name");
    assert_eq!(config.level, LogLevel::Debug);
    assert_eq!(config.use_console, false);
    assert_eq!(config.silent_crates.len(), 2);
}

#[test]
fn test_telemetry_lifecycle() {
    let log_dir = "/tmp/app_tests";
    let config = TelemetryConfig::new("test_app")
        .with_level(LogLevel::Debug)
        .with_file_logging(log_dir);
    let planned = plan(&config);
    assert!(planned.is_ok());
    let planned = planned.unwrap();
    assert_eq!(planned.log_file, Some("/tmp/app_tests/test_app.log".to_string()));
    assert_eq!(planned.log_dir, Some(log_dir.to_string()));
}

#[test]
fn telemetry_plan_directives() {
    let config = TelemetryConfig::new("gui")
        .with_level(LogLevel::Debug)
        .silence_crates(&["zbus", "wgpu_core"]);
    let p = plan(&config).unwrap();
    assert_eq!(p.app_directive, "gui=DEBUG");
    assert_eq!(p.default_level, LogLevel::Debug);
    assert_eq!(p.silence_directives, vec!["zbus=error".to_string(), "wgpu_core=error".to_string()]);
    assert_eq!(p.log_file_name, "gui.log");
    assert_eq!(p.log_dir, None);
    assert_eq!(p.log_file, None);
    assert!(p.console);
}

#[test]
fn telemetry_plan_refuses_bad_crate_name() {
    let config = TelemetryConfig::new("gui").silence_crates(&["good", "!bad", "[also bad"]);
    match plan(&config) {
        Err(TelemetryError::InvalidDirective(d)) => assert_eq!(d, "!bad=error"),
        Ok(_) => panic!("a directive starting with '!' must be refused"),
    }
}

#[test]
fn telemetry_plan_refuses_leading_white_space() {
    let config = TelemetryConfig::new("gui").silence_crates(&["ok", " \u{e9}"]);
    match plan(&config) {
        Err(TelemetryError::InvalidDirective(d)) => assert_eq!(d, " \u{e9}=error"),
        Ok(_) => panic!("a directive beginning with white space must be refused"),
    }
    let config = TelemetryConfig::new("gui").silence_crates(&["\u{3000}x"]);
    assert!(plan(&config).is_err());
}

#[test]
fn telemetry_defaults() {
    let c = TelemetryConfig::default();
    assert_eq!(c.app_name, "app");
    assert_eq!(c.log_dir, None);
    assert_eq!(c.level, LogLevel::Info);
    assert!(c.use_console);
    assert!(c.silent_crates.is_empty());
    assert_eq!(LogLevel::Warn.as_str(), "WARN");
    assert_eq!(log_file_name("x"), "x.log");
}

#[test]
fn test_byte_standard_multiplier() {
    assert_eq!(ByteStandard::Decimal.multiplier(), 1_000);
    assert_eq!(ByteStandard::Binary.multiplier(), 1_024);
}

#[test]
fn byte_standard_labels() {
    assert_eq!(ByteStandard::Decimal.to_string(), "KB, MB, GB (1000)");
    assert_eq!(ByteStandard::Binary.to_string(), "KiB, MiB, GiB (1024)");
}

#[test]
fn test_gui_language_from_str() {
    assert_eq!(GuiLanguage::from_str("English"), Ok(GuiLanguage::En));
    assert_eq!(GuiLanguage::from_str("hi"), Ok(GuiLanguage::Hi));
    assert_eq!(GuiLanguage::from_str("हिन्दी"), Ok(GuiLanguage::Hi));
    assert!(GuiLanguage::from_str("invalid").is_err());
}

#[test]
fn gui_language_names() {
    assert_eq!(GuiLanguage::En.as_str(), "en");
    assert_eq!(GuiLanguage::Hi.as_str(), "hi");
    assert_eq!(GuiLanguage::En.to_string(), "English");
    assert_eq!(GuiLanguage::Hi.to_string(), "हिन्दी");
    assert_eq!(GuiLanguage::parse("HINDI"), Ok(GuiLanguage::Hi));
    assert_eq!(GuiLanguage::parse("EN"), Ok(GuiLanguage::En));
    for lang in [GuiLanguage::En, GuiLanguage::Hi] {
        assert_eq!(GuiLanguage::from_str(lang.as_str()), Ok(lang));
        assert_eq!(GuiLanguage::from_str(&lang.to_string()), Ok(lang));
    }
    assert_eq!(GuiLanguage::from_lowercase_name("English"), None);
    assert_eq!(GuiLanguage::from_lowercase_name("english"), Some(GuiLanguage::En));
    for lang in [GuiLanguage::En, GuiLanguage::Hi] {
        assert_eq!(GuiLanguage::from_lowercase_name(lang.as_str()), Some(lang));
    }
}

#[test]
fn test_file_too_large() {
    assert!(matches!(check_config_size(MAX_CONFIG_SIZE + 10), Err(ConfigError::FileTooLarge)));
}

#[test]
fn config_size_limit_is_inclusive() {
    assert!(check_config_size(MAX_CONFIG_SIZE).is_ok());
    assert!(check_config_size(0).is_ok());
    assert!(matches!(check_config_size(MAX_CONFIG_SIZE + 1), Err(ConfigError::FileTooLarge)));
    assert_eq!(MAX_CONFIG_SIZE, 1024 * 1024);
}

#[test]
fn font_names_round_trip() {
    assert_eq!(AppFont::from("Laila".to_string()), AppFont::Laila);
    assert_eq!(AppFont::from("Poppins".to_string()), AppFont::Poppins);
    assert_eq!(AppFont::from("Comic Sans".to_string()), AppFont::Custom("Comic Sans".to_string()));
    assert_eq!(AppFont::Custom("Victor Mono".to_string()).into_name(), "Victor Mono");
    assert_eq!(AppFont::Laila.into_name(), "Laila");
    assert_eq!(AppFont::Poppins.into_name(), "Poppins");
    let font = AppFont::Custom("Victor Mono".to_string());
    assert_eq!(AppFont::from_name(font.clone().into_name()), font);
    // a custom family named like a bundled one reads back as the bundled font
    assert_eq!(AppFont::from_name(AppFont::Custom("Laila".to_string()).into_name()), AppFont::Laila);
    assert_eq!(AppFont::default(), AppFont::Laila);
    assert_ne!(AppFont::Laila, AppFont::Poppins);
    assert_ne!(AppFont::Custom("a".to_string()), AppFont::Custom("b".to_string()));
}

#[test]
fn bundled_fonts() {
    assert_eq!(AppFont::Laila.bundled(), Some(BundledFont::Laila));
    assert_eq!(AppFont::Poppins.bundled(), Some(BundledFont::Poppins));
    assert_eq!(AppFont::Custom("X".to_string()).bundled(), None);
}

#[test]
fn theme_defaults() {
    assert_eq!(BuiltinTheme::default(), BuiltinTheme::Moonfly);
    assert!(matches!(StoredTheme::default(), StoredTheme::Builtin(BuiltinTheme::Moonfly)));
}

#[test]
fn path_join() {
    assert_eq!(join("/home/u", "a.toml"), "/home/u/a.toml");
    assert_eq!(join("/home/u/", "a.toml"), "/home/u/a.toml");
    assert_eq!(join("", "a.toml"), "a.toml");
    assert_eq!(join("/home/u", "/etc/x"), "/etc/x");
    assert_eq!(join("rel", ""), "rel/");
}

#[test]
fn app_dirs_layouts() {
    let d = AppDirs::local("/work");
    assert_eq!(d.config, "/work/.tivra/config");
    assert_eq!(d.data, "/work/.tivra/data");
    assert_eq!(d.state, "/work/.tivra/state");
    assert_eq!(d.runtime, "/work/.tivra/runtime");
    assert_eq!(d.logs, "/work/.tivra/state/logs");
    assert_eq!(d.gui_config_file(), "/work/.tivra/config/gui_config.toml");
    assert_eq!(d.gui_state_file(), "/work/.tivra/state/gui_state.toml");
    assert_eq!(d.directories_to_create(false).len(), 3);
    assert_eq!(
        d.directories_to_create(true),
        vec![d.config.clone(), d.data.clone(), d.state.clone(), d.runtime.clone()]
    );

    let p = AppDirs::from_platform("/c", "/d", None, None, "/k");
    assert_eq!(p.state, "/d");
    assert_eq!(p.runtime, "/k");
    assert_eq!(p.logs, "/d/logs");
    let q = AppDirs::from_platform("/c", "/d", Some("/s"), Some("/r"), "/k");
    assert_eq!(q.config, "/c");
    assert_eq!(q.state, "/s");
    assert_eq!(q.runtime, "/r");
    assert_eq!(q.logs, "/s/logs");
}
