use netcanv::config::{
    config, default_language, language_candidates, plan_load, ColorScheme, ConfigError,
    ConfigStore, LoadEvent, ToolbarPosition, UserConfig,
};

#[test]
fn fresh_config_defaults() {
    let c = UserConfig::with_language("pl".to_string());
    assert_eq!(c.language, "pl");
    assert_eq!(c.lobby.nickname, "Anon");
    assert_eq!(c.lobby.relay, "ws://localhost");
    assert!(matches!(c.ui.color_scheme, ColorScheme::Light));
    assert!(matches!(c.ui.toolbar_position, ToolbarPosition::Left));
    assert!(c.window.is_none());
}

#[test]
fn default_config_falls_back_to_english() {
    let c = UserConfig::default();
    assert_eq!(c.language, "en-US");
    assert_eq!(c.lobby.nickname, "Anon");
}

#[test]
fn default_toolbar_position_is_left() {
    assert!(matches!(ToolbarPosition::default(), ToolbarPosition::Left));
}

#[test]
fn path_is_under_config_dir() {
    assert_eq!(
        UserConfig::path_in("/home/someone/.config/netcanv"),
        "/home/someone/.config/netcanv/config.toml"
    );
}

#[test]
fn language_candidate_chain() {
    let v = language_candidates("en", Some("Latn"), Some("US"));
    assert_eq!(v, vec!["en-Latn-US".to_string(), "en-Latn".to_string(), "en".to_string()]);
    let w = language_candidates("pl", None, Some("PL"));
    assert_eq!(w, vec!["pl-PL".to_string(), "pl".to_string(), "pl".to_string()]);
}

#[test]
fn language_fallback_rules() {
    assert_eq!(default_language(Some("pl-PL".to_string())), "pl-PL");
    assert_eq!(default_language(None), "en-US");
}

#[test]
fn store_loads_once() {
    let mut store = ConfigStore::new();
    assert!(!store.loaded());
    assert!(store.install(UserConfig::default()).is_ok());
    assert!(store.loaded());
    assert_eq!(
        store.install(UserConfig::default()),
        Err(ConfigError::ConfigIsAlreadyLoaded)
    );
    // the failed install changed nothing
    assert_eq!(config(&store).language, "en-US");
}

#[test]
fn config_reads_what_write_wrote() {
    let mut store = ConfigStore::new();
    store.install(UserConfig::default()).unwrap();
    netcanv::config::write(&mut store, UserConfig::with_language("de".to_string()));
    assert_eq!(config(&store).language, "de");
}

#[test]
fn load_decision_rules() {
    let (adopted, save) = plan_load(LoadEvent::Missing, UserConfig::default());
    assert!(save);
    assert_eq!(adopted.language, "en-US");

    let (adopted, save) = plan_load(LoadEvent::Unparsable, UserConfig::default());
    assert!(!save);
    assert_eq!(adopted.language, "en-US");

    let parsed = UserConfig::with_language("fr".to_string());
    let (adopted, save) = plan_load(LoadEvent::Parsed(parsed), UserConfig::default());
    assert!(save);
    assert_eq!(adopted.language, "fr");
}
