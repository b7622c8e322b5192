use grw::config::{Args, Config, CustomTheme, Theme, DEFAULT_COMMIT_HISTORY_LIMIT};

fn default_config() -> Config {
    Config::default()
}

#[test]
fn test_default_config() {
    let config = Config::default();
    assert_eq!(config.debug, None);
    assert_eq!(config.no_diff, None);
    assert!(config.monitor_command.is_none());
    assert!(config.monitor_interval.is_none());
    assert_eq!(config.theme, None);
}

#[test]
fn test_config_new() {
    let config = Config::default();
    assert_eq!(config.debug, None);
    assert_eq!(config.no_diff, None);
    assert!(config.monitor_command.is_none());
    assert!(config.monitor_interval.is_none());
    assert_eq!(config.theme, None);
}

#[test]
fn test_merge_with_args() {
    let config = Config {
        debug: Some(true),
        monitor_command: Some("echo test".to_string()),
        theme: Some(Theme::Light),
        ..default_config()
    };

    // grw --debug --no-diff --monitor-interval 10 --theme dark
    let args = Args {
        debug: true,
        no_diff: true,
        monitor_interval: Some(10),
        theme: Some(Theme::Dark),
        ..Args::empty()
    };

    let merged = config.merge_with_args(&args);

    assert_eq!(merged.debug, Some(true));
    assert_eq!(merged.no_diff, Some(true));
    assert_eq!(merged.monitor_command, Some("echo test".to_string()));
    assert_eq!(merged.monitor_interval, Some(10));
    assert_eq!(merged.theme, Some(Theme::Dark));
}

#[test]
fn test_merge_with_args_theme_from_config() {
    let config = Config { theme: Some(Theme::Light), ..default_config() };
    let args = Args::empty();
    let merged = config.merge_with_args(&args);
    assert_eq!(merged.theme, Some(Theme::Light));
}

#[test]
fn test_merge_with_args_hide_changed_files_pane() {
    let mut config = Config::default();
    let args = Args { hide_changed_files_pane: true, ..Args::empty() };
    let merged = config.merge_with_args(&args);
    assert_eq!(merged.hide_changed_files_pane, Some(true));

    config.hide_changed_files_pane = Some(false);
    let merged = config.merge_with_args(&args);
    assert_eq!(merged.hide_changed_files_pane, Some(true));

    config.hide_changed_files_pane = Some(true);
    let args = Args::empty();
    let merged = config.merge_with_args(&args);
    assert_eq!(merged.hide_changed_files_pane, Some(true));
}

#[test]
fn test_theme_from_str() {
    assert_eq!(Theme::from_str("dark").unwrap(), Theme::Dark);
    assert_eq!(Theme::from_str("light").unwrap(), Theme::Light);
    assert_eq!(Theme::from_str("DARK").unwrap(), Theme::Dark);
    assert_eq!(Theme::from_str("LIGHT").unwrap(), Theme::Light);
    assert!(Theme::from_str("invalid").is_err());
}

#[test]
fn test_theme_display() {
    assert_eq!(Theme::Dark.to_string(), "dark");
    assert_eq!(Theme::Light.to_string(), "light");
}

#[test]
fn test_theme_from_str_messages() {
    assert_eq!(
        Theme::from_str("invalid").unwrap_err(),
        "invalid theme: invalid, expected 'dark' or 'light'. Use config file for custom theme."
    );
    assert_eq!(
        Theme::from_str("custom").unwrap_err(),
        "invalid theme: custom, expected 'dark' or 'light'. Use config file for custom theme."
    );
}

#[test]
fn test_config_theme_names_ignore_case() {
    assert_eq!(Theme::from_config_str("DARK").unwrap(), Theme::Dark);
    assert_eq!(Theme::from_config_str("DaRk").unwrap(), Theme::Dark);
    assert_eq!(Theme::from_config_str("LiGhT").unwrap(), Theme::Light);
    assert_eq!(Theme::from_config_str("Custom").unwrap(), Theme::Custom);
    assert_eq!(
        Theme::from_config_str("blue").unwrap_err(),
        "invalid theme: blue, expected 'dark', 'light', or 'custom'"
    );
    assert_eq!(Theme::Custom.to_string(), "custom");
}

#[test]
fn test_commit_history_limit_config() {
    let config = Config { commit_history_limit: Some(150), ..default_config() };
    assert_eq!(config.get_commit_history_limit(), 150);

    let config_default = Config::default();
    assert_eq!(config_default.get_commit_history_limit(), 100);
    assert_eq!(DEFAULT_COMMIT_HISTORY_LIMIT, 100);
}

#[test]
fn test_merge_with_args_commit_settings() {
    let config = Config { commit_history_limit: Some(50), ..default_config() };
    let args = Args { commit_history_limit: Some(200), ..Args::empty() };
    let merged = config.merge_with_args(&args);
    assert_eq!(merged.commit_history_limit, Some(200));
}

#[test]
fn test_merge_with_args_commit_settings_from_config() {
    let config = Config { commit_history_limit: Some(75), ..default_config() };
    let args = Args::empty();
    let merged = config.merge_with_args(&args);
    assert_eq!(merged.commit_history_limit, Some(75));
}

#[test]
fn test_merge_keeps_custom_theme_and_unset_values() {
    let mut custom = CustomTheme::new();
    custom.primary = Some("#112233".to_string());
    let config = Config {
        monitor_interval: Some(7),
        custom_theme: Some(custom),
        ..default_config()
    };
    let merged = config.merge_with_args(&Args::empty());
    assert_eq!(merged.monitor_interval, Some(7));
    assert_eq!(merged.debug, None);
    assert_eq!(merged.custom_theme.unwrap().primary, Some("#112233".to_string()));

    let args = Args { monitor_command: Some("ls".to_string()), ..Args::empty() };
    let merged = config.merge_with_args(&args);
    assert_eq!(merged.monitor_command, Some("ls".to_string()));
}

#[test]
fn test_merge_twice_is_merge_once() {
    let config = Config { debug: Some(false), theme: Some(Theme::Light), ..default_config() };
    let args = Args { debug: true, monitor_interval: Some(3), ..Args::empty() };
    let once = config.merge_with_args(&args);
    let twice = once.merge_with_args(&args);
    assert_eq!(once.debug, twice.debug);
    assert_eq!(once.theme, twice.theme);
    assert_eq!(once.monitor_interval, twice.monitor_interval);
}

#[test]
fn test_theme_names_read_back() {
    for t in [Theme::Dark, Theme::Light, Theme::Custom] {
        assert_eq!(Theme::from_config_str(&t.to_string()).unwrap(), t);
    }
    assert_eq!(Theme::from_str(&Theme::Dark.to_string()).unwrap(), Theme::Dark);
    assert_eq!(Theme::from_str(&Theme::Light.to_string()).unwrap(), Theme::Light);
    assert!(Theme::from_str(&Theme::Custom.to_string()).is_err());
}
