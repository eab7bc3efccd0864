use tg_translator::config::{
    default_command_prefix, default_enabled, default_provider, default_reply_format,
    default_session_path, default_show_original, default_target_language, parse_admin_user_ids,
    BotConfig, Config, ConfigError, ConfigSource, EnvVars, GroupTranslationConfig,
    TranslationProvider, TranslationTargets,
};

#[test]
fn test_translation_targets() {
    let mut targets = TranslationTargets::default();

    // Add a user
    targets.add_user(123, 456);
    assert!(targets.should_translate(123, 456));
    assert!(!targets.should_translate(123, 789));
    assert!(!targets.should_translate(999, 456));

    // Remove user
    assert!(targets.remove_user(123, 456));
    assert!(!targets.should_translate(123, 456));

    // Set languages
    targets.set_target_languages(123, vec!["de".to_string(), "uk".to_string()]);
    assert_eq!(targets.get_target_languages(123, "en"), vec!["de", "uk"]);
    assert_eq!(targets.get_target_languages(999, "en"), vec!["en"]);
}

#[test]
fn removing_unknown_user_reports_false() {
    let mut targets = TranslationTargets::default();
    assert!(!targets.remove_user(1, 2));
    targets.add_user(1, 3);
    assert!(!targets.remove_user(1, 2));
    assert!(targets.remove_user(1, 3));
    assert!(!targets.remove_user(1, 3));
}

#[test]
fn disabling_a_group_stops_translation() {
    let mut targets = TranslationTargets::default();
    targets.add_user(-100, 7);
    targets.set_enabled(-100, false);
    assert!(!targets.should_translate(-100, 7));
    targets.set_enabled(-100, true);
    assert!(targets.should_translate(-100, 7));
}

#[test]
fn enabling_an_unknown_group_does_nothing() {
    let mut targets = TranslationTargets::default();
    targets.set_enabled(5, false);
    assert!(targets.groups.is_empty());
    targets.add_user(5, 1);
    assert!(targets.should_translate(5, 1));
}

#[test]
fn setting_languages_creates_an_enabled_group() {
    let mut targets = TranslationTargets::default();
    targets.set_target_languages(42, vec!["fr".to_string()]);
    let g = targets.groups.get(&42).unwrap();
    assert!(g.enabled);
    assert!(g.users.is_empty());
    assert_eq!(targets.get_target_languages(42, "en"), vec!["fr"]);
    targets.set_target_languages(42, Vec::new());
    assert_eq!(targets.get_target_languages(42, "en"), vec!["en"]);
}

#[test]
fn languages_survive_user_changes() {
    let mut targets = TranslationTargets::default();
    targets.set_target_languages(1, vec!["es".to_string(), "de".to_string()]);
    targets.add_user(1, 10);
    assert!(targets.remove_user(1, 10));
    assert_eq!(targets.get_target_languages(1, "en"), vec!["es", "de"]);
}

#[test]
fn listing_users() {
    let mut targets = TranslationTargets::default();
    assert!(targets.list_users(1).is_empty());
    targets.add_user(1, 10);
    targets.add_user(1, 20);
    targets.add_user(1, 10);
    targets.add_user(2, 30);
    let mut users = targets.list_users(1);
    users.sort();
    assert_eq!(users, vec![10, 20]);
    assert_eq!(targets.list_users(2), vec![30]);
}

#[test]
fn group_defaults() {
    let g = GroupTranslationConfig::default();
    assert!(!g.enabled);
    assert!(g.users.is_empty());
    assert!(g.target_languages.is_empty());
}

#[test]
fn default_values() {
    assert_eq!(default_session_path(), "bot.session");
    assert_eq!(default_provider(), TranslationProvider::LibreTranslate);
    assert_eq!(default_target_language(), "en");
    assert_eq!(default_command_prefix(), "/");
    assert!(!default_show_original());
    assert!(default_enabled());
    assert_eq!(
        default_reply_format(),
        "🌐 **Translation** ({source_lang} → {target_lang}):\n{translation}"
    );
    let b = BotConfig::default();
    assert_eq!(b.command_prefix, "/");
    assert!(!b.show_original);
    assert!(b.admin_user_ids.is_empty());
    assert_eq!(b.reply_format, default_reply_format());
}

fn env(id: Option<&str>, hash: Option<&str>) -> EnvVars {
    EnvVars {
        tg_api_id: id.map(|s| s.to_string()),
        tg_api_hash: hash.map(|s| s.to_string()),
        ..EnvVars::default()
    }
}

#[test]
fn from_env_minimal() {
    let c = Config::from_env(env(Some("12345"), Some("abc"))).unwrap();
    assert_eq!(c.telegram.api_id, 12345);
    assert_eq!(c.telegram.api_hash, "abc");
    assert_eq!(c.telegram.bot_token, None);
    assert_eq!(c.telegram.phone_number, None);
    assert_eq!(c.telegram.session_file, "bot.session");
    assert_eq!(c.translation.provider, TranslationProvider::LibreTranslate);
    assert_eq!(c.translation.api_key, None);
    assert_eq!(c.translation.api_url, None);
    assert_eq!(c.translation.default_target_language, "en");
    assert_eq!(c.bot.command_prefix, "/");
    assert!(c.bot.admin_user_ids.is_empty());
}

#[test]
fn from_env_full() {
    let e = EnvVars {
        tg_api_id: Some("-7".to_string()),
        tg_api_hash: Some("h".to_string()),
        tg_bot_token: Some("tok".to_string()),
        tg_phone_number: Some("+100".to_string()),
        tg_session_file: Some("s.session".to_string()),
        translation_provider: Some("DeepL".to_string()),
        translation_api_key: Some("k:fx".to_string()),
        translation_api_url: Some("http://x".to_string()),
        default_target_language: Some("uk".to_string()),
        admin_user_ids: Some(" 1, 2 ,x,,-3".to_string()),
    };
    let c = Config::from_env(e).unwrap();
    assert_eq!(c.telegram.api_id, -7);
    assert_eq!(c.telegram.bot_token.as_deref(), Some("tok"));
    assert_eq!(c.telegram.phone_number.as_deref(), Some("+100"));
    assert_eq!(c.telegram.session_file, "s.session");
    assert_eq!(c.translation.provider, TranslationProvider::DeepL);
    assert_eq!(c.translation.api_key.as_deref(), Some("k:fx"));
    assert_eq!(c.translation.api_url.as_deref(), Some("http://x"));
    assert_eq!(c.translation.default_target_language, "uk");
    assert_eq!(c.bot.admin_user_ids, vec![1, 2, -3]);
}

#[test]
fn from_env_errors() {
    assert!(matches!(Config::from_env(env(None, Some("h"))), Err(ConfigError::ApiIdMissing)));
    assert!(matches!(Config::from_env(env(Some("12a"), Some("h"))), Err(ConfigError::ApiIdInvalid)));
    assert!(matches!(Config::from_env(env(Some(" 12"), Some("h"))), Err(ConfigError::ApiIdInvalid)));
    assert!(matches!(
        Config::from_env(env(Some("3000000000"), Some("h"))),
        Err(ConfigError::ApiIdInvalid)
    ));
    assert!(matches!(Config::from_env(env(Some("12"), None)), Err(ConfigError::ApiHashMissing)));
    assert!(matches!(Config::from_env(env(None, None)), Err(ConfigError::ApiIdMissing)));
}

#[test]
fn config_error_messages() {
    assert_eq!(ConfigError::ApiIdMissing.message(), "TG_API_ID environment variable not set");
    assert_eq!(ConfigError::ApiIdInvalid.message(), "TG_API_ID must be a valid integer");
    assert_eq!(ConfigError::ApiHashMissing.message(), "TG_API_HASH not set");
    assert_eq!(ConfigError::File("bad".to_string()).message(), "bad");
}

#[test]
fn provider_names() {
    assert_eq!(TranslationProvider::from_name("deepl"), TranslationProvider::DeepL);
    assert_eq!(TranslationProvider::from_name("GOOGLE"), TranslationProvider::Google);
    assert_eq!(TranslationProvider::from_name("LibreTranslate"), TranslationProvider::LibreTranslate);
    assert_eq!(TranslationProvider::from_name("mymemory"), TranslationProvider::MyMemory);
    assert_eq!(TranslationProvider::from_name("other"), TranslationProvider::MyMemory);
}

#[test]
fn admin_id_lists() {
    assert_eq!(parse_admin_user_ids(""), Vec::<i64>::new());
    assert_eq!(parse_admin_user_ids("5"), vec![5]);
    assert_eq!(parse_admin_user_ids("5,+6,\t7\n"), vec![5, 6, 7]);
    assert_eq!(parse_admin_user_ids("a,9223372036854775807,9223372036854775808"), vec![i64::MAX]);
    assert_eq!(parse_admin_user_ids("-9223372036854775808"), vec![i64::MIN]);
}

#[test]
fn load_prefers_file() {
    let from_file = Config::from_env(env(Some("1"), Some("file"))).unwrap();
    let c = Config::load(ConfigSource::File(Ok(from_file))).unwrap();
    assert_eq!(c.telegram.api_hash, "file");
    let e = Config::load(ConfigSource::File(Err(ConfigError::File("x".to_string()))));
    assert!(matches!(e, Err(ConfigError::File(m)) if m == "x"));
    let c = Config::load(ConfigSource::Environment(env(Some("2"), Some("env")))).unwrap();
    assert_eq!(c.telegram.api_id, 2);
    assert_eq!(c.telegram.api_hash, "env");
}
