use promptkey::config::{
    config_file_path, default_database_path, ApplicationConfig, ApplicationSettings, Config,
    StrategyConfig,
};
use promptkey::orchestrator::Injector;
use promptkey::strategy::InjectionStrategy;

fn names(v: &[&str]) -> Vec<String> {
    v.iter().map(|s| s.to_string()).collect()
}

#[test]
fn predefined_table() {
    let apps = Config::get_predefined_applications();
    assert_eq!(apps.len(), 4);
    assert_eq!(apps[0].0, "code.exe");
    assert_eq!(apps[0].1.strategies.primary, "textpattern_enhanced");
    assert_eq!(apps[0].1.settings.pre_inject_delay, 150);
    assert_eq!(apps[1].0, "idea64.exe");
    assert!(apps[1].1.settings.use_accessibility_api);
    assert_eq!(apps[2].1.display_name, "Visual Studio");
    assert_eq!(apps[3].1.strategies.fallback, names(&["clipboard", "sendinput"]));
    assert!(!apps[3].1.settings.verify_injection);
}

#[test]
fn app_lookup_ignores_case() {
    let config = Config::default_with_predefined_apps("db".to_string());
    let c = config.get_app_config("IDEA64.EXE");
    assert_eq!(c.display_name, "IntelliJ IDEA");
    assert_eq!(c.settings.pre_inject_delay, 200);
}

#[test]
fn unknown_app_gets_defaults() {
    let config = Config::default_with_predefined_apps("db".to_string());
    let c = config.get_app_config("notepad.exe");
    assert_eq!(c.display_name, "Unknown Application");
    assert_eq!(c.strategies.primary, "uia");
    assert_eq!(c.settings, ApplicationSettings::default_settings());
    assert_eq!(c.settings.pre_inject_delay, 80);
    assert_eq!(c.settings.focus_retry_count, 3);
}

#[test]
fn defaults_of_a_fresh_config() {
    let config = Config::with_database_path("x.db".to_string());
    assert_eq!(config.hotkey, "Ctrl+Alt+Space");
    assert_eq!(config.injection.order, names(&["clipboard", "sendinput"]));
    assert_eq!(config.injection.uia_value_pattern_mode, "insert");
    assert_eq!(config.injection.max_retries, 3);
    assert!(config.injection.allow_clipboard);
    assert!(config.applications.is_empty());
}

#[test]
fn paths_under_appdata() {
    assert_eq!(config_file_path("C:\\Users\\a\\AppData"), "C:\\Users\\a\\AppData\\PromptKey\\config.yaml");
    assert_eq!(default_database_path(Some("D:")), "D:\\PromptKey\\promptmgr.db");
    assert_eq!(default_database_path(None), "promptmgr.db");
}

#[test]
fn normalize_fills_gaps() {
    let mut config = Config::with_database_path("   ".to_string());
    config.injection.order = names(&["UIA", "sendinput", "TextPattern_Enhanced"]);
    config.injection.uia_value_pattern_mode = String::new();
    config.normalize("fallback.db");
    assert_eq!(config.applications.len(), 4);
    assert_eq!(config.injection.order, names(&["sendinput"]));
    assert_eq!(config.injection.uia_value_pattern_mode, "insert");
    assert_eq!(config.database_path, "fallback.db");
}

#[test]
fn normalize_all_deprecated_gives_default_order() {
    let mut config = Config::with_database_path("kept.db".to_string());
    config.injection.order = names(&["uia"]);
    config.injection.uia_value_pattern_mode = "append".to_string();
    config.normalize("other.db");
    assert_eq!(config.injection.order, names(&["clipboard", "sendinput"]));
    assert_eq!(config.injection.uia_value_pattern_mode, "append");
    assert_eq!(config.database_path, "kept.db");
}

#[test]
fn plan_from_app_override() {
    let config = Config::default_with_predefined_apps("db".to_string());
    let injector = Injector::new(Vec::new(), config);
    assert_eq!(
        injector.effective_strategies_for("Code.exe"),
        vec![InjectionStrategy::UIA, InjectionStrategy::SendInput, InjectionStrategy::Clipboard]
    );
    assert_eq!(injector.get_pre_inject_delay("devenv.exe"), 50);
    assert_eq!(injector.get_pre_inject_delay("unknown.exe"), 80);
}

#[test]
fn plan_from_global_order_without_override() {
    let mut config = Config::with_database_path("db".to_string());
    config.injection.order = names(&["SendInput", "clipboard"]);
    config.applications.push((
        "empty.exe".to_string(),
        ApplicationConfig {
            display_name: "Empty".to_string(),
            strategies: StrategyConfig { primary: String::new(), fallback: names(&["uia"]) },
            settings: ApplicationSettings::default_settings(),
        },
    ));
    let injector = Injector::new(Vec::new(), config);
    let expected = vec![InjectionStrategy::SendInput, InjectionStrategy::Clipboard];
    assert_eq!(injector.effective_strategies_for("other.exe"), expected);
    assert_eq!(injector.effective_strategies_for("empty.exe"), expected);
}
