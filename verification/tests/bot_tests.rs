use tg_translator::bot::{
    finish_user_command, format_reply, handle_command, is_admin, parse_command, route_message,
    translation_reply, user_reference, CommandAction, MessageRoute, UserCommand, UserReference,
    HELP_TEXT,
};
use tg_translator::config::{BotConfig, TranslationTargets};
use tg_translator::translator::{TranslationError, TranslationResult};

fn config() -> BotConfig {
    BotConfig { admin_user_ids: vec![1, 2], ..BotConfig::default() }
}

fn reply(a: &CommandAction) -> (&str, bool) {
    match a {
        CommandAction::Reply { text, save } => (text.as_str(), *save),
        other => panic!("expected a reply, got {:?}", other),
    }
}

#[test]
fn parsing_commands() {
    let c = config();
    let cmd = parse_command(&c, "/translate@MyBot 123 extra");
    assert_eq!(cmd.name, "translate");
    assert_eq!(cmd.args, vec!["123", "extra"]);
    let cmd = parse_command(&c, "/LANG   uk,es  de");
    assert_eq!(cmd.name, "lang");
    assert_eq!(cmd.args, vec!["uk,es", "de"]);
    let cmd = parse_command(&c, "/");
    assert_eq!(cmd.name, "");
    assert!(cmd.args.is_empty());
    let cmd = parse_command(&c, "help me");
    assert_eq!(cmd.name, "help");
    assert_eq!(cmd.args, vec!["me"]);
    let cmd = parse_command(&c, "/ list");
    assert_eq!(cmd.name, "list");
}

#[test]
fn admins() {
    let c = config();
    assert!(is_admin(&c, 1));
    assert!(is_admin(&c, 2));
    assert!(!is_admin(&c, 3));
    assert!(!is_admin(&BotConfig::default(), 1));
}

#[test]
fn formatting_a_reply() {
    let c = config();
    assert_eq!(
        format_reply(&c, "Hello", "es", "en"),
        "🌐 **Translation** (es → en):\nHello"
    );
    let c2 = BotConfig {
        reply_format: "{translation}|{translation}|{target_lang}".to_string(),
        ..BotConfig::default()
    };
    assert_eq!(format_reply(&c2, "a{source_lang}", "S", "T"), "aS|aS|T");
}

#[test]
fn routing_messages() {
    let c = config();
    let mut t = TranslationTargets::default();
    t.add_user(-5, 10);
    assert!(matches!(route_message(&c, &t, "en", -5, true, Some(10), "/help"), MessageRoute::Command));
    assert!(matches!(route_message(&c, &t, "en", -5, false, Some(10), "hi"), MessageRoute::Ignore));
    assert!(matches!(route_message(&c, &t, "en", -5, true, None, "hi"), MessageRoute::Ignore));
    assert!(matches!(route_message(&c, &t, "en", -5, true, Some(11), "hi"), MessageRoute::Ignore));
    assert!(matches!(route_message(&c, &t, "en", -5, true, Some(10), ""), MessageRoute::Ignore));
    match route_message(&c, &t, "en", -5, true, Some(10), "hi") {
        MessageRoute::Translate(l) => assert_eq!(l, vec!["en"]),
        other => panic!("unexpected {:?}", other),
    }
    t.set_target_languages(-5, vec!["uk".to_string(), "es".to_string()]);
    match route_message(&c, &t, "en", -5, true, Some(10), "hi") {
        MessageRoute::Translate(l) => assert_eq!(l, vec!["uk", "es"]),
        other => panic!("unexpected {:?}", other),
    }
    t.set_enabled(-5, false);
    assert!(matches!(route_message(&c, &t, "en", -5, true, Some(10), "hi"), MessageRoute::Ignore));
}

fn ok(text: &str, detected: Option<&str>) -> Result<TranslationResult, TranslationError> {
    Ok(TranslationResult {
        text: text.to_string(),
        detected_language: detected.map(|s| s.to_string()),
    })
}

fn langs(v: &[&str]) -> Vec<String> {
    v.iter().map(|s| s.to_string()).collect()
}

#[test]
fn single_translation_reply() {
    let c = config();
    let r = translation_reply(&c, &langs(&["en"]), &vec![ok("Hello", Some("es"))]);
    assert_eq!(r.as_deref(), Some("🌐 **Translation** (es → en):\nHello"));
    let r = translation_reply(&c, &langs(&["en"]), &vec![ok("Hello", None)]);
    assert_eq!(r.as_deref(), Some("🌐 **Translation** (auto → en):\nHello"));
}

#[test]
fn same_language_is_skipped() {
    let c = config();
    assert_eq!(translation_reply(&c, &langs(&["en"]), &vec![ok("Hello", Some("en"))]), None);
    let r = translation_reply(
        &c,
        &langs(&["en", "de"]),
        &vec![ok("Hello", Some("en")), ok("Hallo", Some("en"))],
    );
    assert_eq!(r.as_deref(), Some("🌐 **Translation** (en → de):\nHallo"));
}

#[test]
fn failures_are_skipped() {
    let c = config();
    let r = translation_reply(
        &c,
        &langs(&["en", "de"]),
        &vec![Err(TranslationError::EmptyResponse), ok("Hallo", Some("es"))],
    );
    assert_eq!(r.as_deref(), Some("🌐 **Translation** (es → de):\nHallo"));
    assert_eq!(
        translation_reply(&c, &langs(&["en"]), &vec![Err(TranslationError::EmptyResponse)]),
        None
    );
    assert_eq!(translation_reply(&c, &langs(&[]), &vec![]), None);
}

#[test]
fn several_translations_reply() {
    let c = config();
    let r = translation_reply(
        &c,
        &langs(&["uk", "de", "fr"]),
        &vec![ok("Привіт", Some("en")), ok("Hallo", Some("en")), ok("Bonjour", Some("en"))],
    );
    assert_eq!(
        r.as_deref(),
        Some("🌐 **Translations** (from en):\n**UK:** Привіт\n**DE:** Hallo\n**FR:** Bonjour")
    );
}

#[test]
fn user_references() {
    assert!(matches!(user_reference("123"), UserReference::Id(123)));
    assert!(matches!(user_reference("@-5"), UserReference::Id(-5)));
    match user_reference("@alice") {
        UserReference::Username(u) => assert_eq!(u, "alice"),
        other => panic!("unexpected {:?}", other),
    }
    match user_reference("@@bob") {
        UserReference::Username(u) => assert_eq!(u, "@bob"),
        other => panic!("unexpected {:?}", other),
    }
    match user_reference("99999999999999999999") {
        UserReference::Username(u) => assert_eq!(u, "99999999999999999999"),
        other => panic!("unexpected {:?}", other),
    }
}

#[test]
fn help_and_unknown_commands() {
    let c = config();
    let mut t = TranslationTargets::default();
    let a = handle_command(&c, "en", &mut t, -1, true, Some(9), None, "/help");
    assert_eq!(reply(&a), (HELP_TEXT, false));
    assert!(HELP_TEXT.starts_with("**Telegram Translation Bot**\n\n**Commands:**\n"));
    assert!(HELP_TEXT.ends_with("Note: Only group admins can configure translation settings."));
    let a = handle_command(&c, "en", &mut t, -1, true, Some(9), None, "/start");
    assert_eq!(reply(&a), (HELP_TEXT, false));
    assert!(matches!(handle_command(&c, "en", &mut t, -1, true, Some(1), None, "/nope"), CommandAction::Ignore));
    assert!(matches!(handle_command(&c, "en", &mut t, -1, true, None, None, "/help"), CommandAction::Ignore));
}

#[test]
fn translate_command() {
    let c = config();
    let mut t = TranslationTargets::default();
    let a = handle_command(&c, "en", &mut t, -1, false, Some(1), None, "/translate 5");
    assert_eq!(reply(&a), ("This command only works in groups.", false));
    let a = handle_command(&c, "en", &mut t, -1, true, Some(3), None, "/translate 5");
    assert_eq!(reply(&a), ("Only bot admins can use this command.", false));
    assert!(t.groups.is_empty());
    let a = handle_command(&c, "en", &mut t, -1, true, Some(1), None, "/translate");
    assert_eq!(
        reply(&a),
        ("Please specify a user: `/translate @username` or `/translate <user_id>`", false)
    );
    let a = handle_command(&c, "en", &mut t, -1, true, Some(1), None, "/tr 5");
    assert_eq!(reply(&a), ("Now translating messages from user `5`.", true));
    assert!(t.should_translate(-1, 5));
    let a = handle_command(&c, "en", &mut t, -1, true, Some(1), None, "/translate @bob");
    match a {
        CommandAction::ResolveUser { username, command } => {
            assert_eq!(username, "bob");
            assert_eq!(command, UserCommand::Translate);
        }
        other => panic!("unexpected {:?}", other),
    }
    let a = finish_user_command(UserCommand::Translate, &mut t, -1, None);
    assert_eq!(reply(&a), ("Could not find the specified user. Please use a valid user ID.", false));
    let a = finish_user_command(UserCommand::Translate, &mut t, -1, Some(-77));
    assert_eq!(reply(&a), ("Now translating messages from user `-77`.", true));
    assert!(t.should_translate(-1, -77));
}

#[test]
fn untranslate_command() {
    let c = config();
    let mut t = TranslationTargets::default();
    t.add_user(-1, 5);
    let a = handle_command(&c, "en", &mut t, -1, true, Some(2), None, "/untranslate");
    assert_eq!(
        reply(&a),
        ("Please specify a user: `/untranslate @username` or `/untranslate <user_id>`", false)
    );
    let a = handle_command(&c, "en", &mut t, -1, true, Some(2), None, "/untr 6");
    assert_eq!(reply(&a), ("That user was not being translated.", false));
    let a = handle_command(&c, "en", &mut t, -1, true, Some(2), None, "/untranslate @5");
    assert_eq!(reply(&a), ("Stopped translating messages from user `5`.", true));
    assert!(!t.should_translate(-1, 5));
    let a = finish_user_command(UserCommand::Untranslate, &mut t, -1, None);
    assert_eq!(reply(&a), ("Could not find the specified user.", false));
    let a = handle_command(&c, "en", &mut t, -1, true, Some(7), None, "/untranslate 5");
    assert_eq!(reply(&a), ("Only bot admins can use this command.", false));
}

#[test]
fn list_command() {
    let c = config();
    let mut t = TranslationTargets::default();
    let a = handle_command(&c, "en", &mut t, -1, true, Some(9), None, "/list");
    assert_eq!(reply(&a), ("No users are being translated in this chat.", false));
    t.add_user(-1, 42);
    let a = handle_command(&c, "en", &mut t, -1, false, Some(9), None, "/list");
    assert_eq!(
        reply(&a),
        ("**Users being translated:**\n`42`\n\n**Target language(s):** `en`", false)
    );
    t.add_user(-1, 43);
    t.set_target_languages(-1, vec!["uk".to_string(), "es".to_string()]);
    let a = handle_command(&c, "en", &mut t, -1, true, Some(9), None, "/list");
    let (text, save) = reply(&a);
    assert!(!save);
    assert!(
        text == "**Users being translated:**\n`42`\n`43`\n\n**Target language(s):** `uk, es`"
            || text == "**Users being translated:**\n`43`\n`42`\n\n**Target language(s):** `uk, es`"
    );
}

#[test]
fn status_command() {
    let c = config();
    let mut t = TranslationTargets::default();
    let a = handle_command(&c, "de", &mut t, -100, true, Some(9), None, "/status");
    assert_eq!(
        reply(&a),
        (
            "**Translation Bot Status**\n\n**Chat ID:** `-100`\n**Enabled:** Yes\n**Users being translated:** 0\n**Target language(s):** `de`",
            false
        )
    );
    t.add_user(-100, 1);
    t.add_user(-100, 2);
    t.set_enabled(-100, false);
    t.set_target_languages(-100, vec!["uk".to_string(), "es".to_string()]);
    let a = handle_command(&c, "de", &mut t, -100, true, Some(9), None, "/status");
    assert_eq!(
        reply(&a),
        (
            "**Translation Bot Status**\n\n**Chat ID:** `-100`\n**Enabled:** No\n**Users being translated:** 2\n**Target language(s):** `uk, es`",
            false
        )
    );
}

#[test]
fn enable_and_disable_commands() {
    let c = config();
    let mut t = TranslationTargets::default();
    t.add_user(-1, 5);
    let a = handle_command(&c, "en", &mut t, -1, true, Some(1), None, "/disable");
    assert_eq!(reply(&a), ("Translation has been disabled.", true));
    assert!(!t.should_translate(-1, 5));
    let a = handle_command(&c, "en", &mut t, -1, true, Some(4), None, "/enable");
    assert_eq!(reply(&a), ("Only bot admins can use this command.", false));
    assert!(!t.should_translate(-1, 5));
    let a = handle_command(&c, "en", &mut t, -1, true, Some(1), None, "/ENABLE");
    assert_eq!(reply(&a), ("Translation has been enabled.", true));
    assert!(t.should_translate(-1, 5));
    let a = handle_command(&c, "en", &mut t, -1, false, Some(1), None, "/enable");
    assert_eq!(reply(&a), ("This command only works in groups.", false));
}

#[test]
fn lang_command() {
    let c = config();
    let mut t = TranslationTargets::default();
    let a = handle_command(&c, "en", &mut t, -1, true, Some(1), None, "/lang");
    assert_eq!(
        reply(&a),
        ("Please specify language code(s): `/lang <code>` or `/lang <code1>,<code2>`\n\nExamples: en, es, fr, de, uk (Ukrainian)\nMultiple: `/lang uk,es` or `/lang uk es`", false)
    );
    let a = handle_command(&c, "en", &mut t, -1, true, Some(1), None, "/lang xx,UA,eng");
    assert_eq!(
        reply(&a),
        ("Invalid language code(s): `xx, eng`. Please use 2-letter ISO 639-1 codes (e.g., en, es, fr, de, uk).", false)
    );
    assert!(t.groups.is_empty());
    let a = handle_command(&c, "en", &mut t, -1, true, Some(1), None, "/lang ,,");
    assert_eq!(reply(&a), ("No valid language codes provided.", false));
    let a = handle_command(&c, "en", &mut t, -1, true, Some(1), None, "/language UA,es de");
    assert_eq!(reply(&a), ("Target language(s) set to `uk, es, de`.", true));
    assert_eq!(t.get_target_languages(-1, "en"), vec!["uk", "es", "de"]);
    let a = handle_command(&c, "en", &mut t, -1, true, Some(5), None, "/lang fr");
    assert_eq!(reply(&a), ("Only bot admins can use this command.", false));
    assert_eq!(t.get_target_languages(-1, "en"), vec!["uk", "es", "de"]);
}

#[test]
fn custom_prefix() {
    let c = BotConfig { command_prefix: "!".to_string(), admin_user_ids: vec![1], ..BotConfig::default() };
    let mut t = TranslationTargets::default();
    let a = handle_command(&c, "en", &mut t, -1, true, Some(1), None, "!tr 8");
    assert_eq!(reply(&a), ("Now translating messages from user `8`.", true));
    assert!(matches!(route_message(&c, &t, "en", -1, true, Some(8), "!x"), MessageRoute::Command));
    assert!(matches!(route_message(&c, &t, "en", -1, true, Some(8), "/x"), MessageRoute::Translate(_)));
}

#[test]
fn listed_ids_name_the_same_users() {
    let c = config();
    let mut t = TranslationTargets::default();
    t.add_user(-1, i64::MIN);
    let a = handle_command(&c, "en", &mut t, -1, true, Some(9), None, "/list");
    assert_eq!(
        reply(&a),
        ("**Users being translated:**\n`-9223372036854775808`\n\n**Target language(s):** `en`", false)
    );
    let a = handle_command(&c, "en", &mut t, -1, true, Some(1), None, "/untr -9223372036854775808");
    assert_eq!(
        reply(&a),
        ("Stopped translating messages from user `-9223372036854775808`.", true)
    );
    assert!(t.list_users(-1).is_empty());
    for id in [0i64, 7, -7, i64::MAX] {
        assert!(matches!(user_reference(&id.to_string()), UserReference::Id(v) if v == id));
    }
}

#[test]
fn lang_never_stores_the_ua_alias() {
    let c = config();
    let mut t = TranslationTargets::default();
    let a = handle_command(&c, "en", &mut t, -3, true, Some(2), None, "/lang ua ua");
    assert_eq!(reply(&a), ("Target language(s) set to `uk, uk`.", true));
    assert_eq!(t.get_target_languages(-3, "en"), vec!["uk", "uk"]);
}

#[test]
fn documented_example_workflow() {
    let c = config();
    let mut t = TranslationTargets::default();
    let a = handle_command(&c, "de", &mut t, -500, true, Some(1), None, "/lang en");
    assert_eq!(reply(&a), ("Target language(s) set to `en`.", true));
    let a = handle_command(&c, "de", &mut t, -500, true, Some(1), None, "/translate 123456789");
    assert_eq!(reply(&a), ("Now translating messages from user `123456789`.", true));
    match route_message(&c, &t, "de", -500, true, Some(123456789), "Hallo zusammen") {
        MessageRoute::Translate(langs) => assert_eq!(langs, vec!["en"]),
        other => panic!("unexpected route {:?}", other),
    }
    let a = handle_command(&c, "de", &mut t, -500, true, Some(2), None, "/untr 123456789");
    assert_eq!(reply(&a), ("Stopped translating messages from user `123456789`.", true));
    assert!(matches!(
        route_message(&c, &t, "de", -500, true, Some(123456789), "Hallo zusammen"),
        MessageRoute::Ignore
    ));
}

#[test]
fn switching_an_unknown_chat_stores_it() {
    let c = config();
    let mut t = TranslationTargets::default();
    let a = handle_command(&c, "en", &mut t, -77, true, Some(1), None, "/disable");
    assert_eq!(reply(&a), ("Translation has been disabled.", true));
    assert!(!t.groups[&-77].enabled);
    assert!(t.groups[&-77].users.is_empty());
    assert!(t.groups[&-77].target_languages.is_empty());
    let a = handle_command(&c, "en", &mut t, -77, true, Some(9), None, "/status");
    assert_eq!(
        reply(&a),
        (
            "**Translation Bot Status**\n\n**Chat ID:** `-77`\n**Enabled:** No\n**Users being translated:** 0\n**Target language(s):** `en`",
            false
        )
    );
    t.add_user(-77, 5);
    assert!(!t.should_translate(-77, 5));
    let a = handle_command(&c, "en", &mut t, -78, true, Some(1), None, "/enable");
    assert_eq!(reply(&a), ("Translation has been enabled.", true));
    assert!(t.groups[&-78].enabled);
}

#[test]
fn no_reply_when_every_attempt_fails_or_matches_the_source() {
    let c = config();
    let r = translation_reply(
        &c,
        &langs(&["en", "de", "fr"]),
        &vec![
            Err(TranslationError::NetworkError("timeout".to_string())),
            ok("Hallo", Some("de")),
            Err(TranslationError::ApiError("quota".to_string())),
        ],
    );
    assert_eq!(r, None);
}

#[test]
fn reply_commands_name_the_replied_user() {
    let c = config();
    let mut t = TranslationTargets::default();
    let a = handle_command(&c, "en", &mut t, -9, true, Some(1), Some(314), "/translate");
    assert_eq!(reply(&a), ("Now translating messages from user `314`.", true));
    assert!(t.should_translate(-9, 314));
    let a = handle_command(&c, "en", &mut t, -9, true, Some(1), Some(314), "/tr 15");
    assert_eq!(reply(&a), ("Now translating messages from user `15`.", true));
    let a = handle_command(&c, "en", &mut t, -9, true, Some(4), Some(15), "/untranslate");
    assert_eq!(reply(&a), ("Only bot admins can use this command.", false));
    let a = handle_command(&c, "en", &mut t, -9, true, Some(2), Some(314), "/untr");
    assert_eq!(reply(&a), ("Stopped translating messages from user `314`.", true));
    assert!(!t.should_translate(-9, 314));
    assert!(t.should_translate(-9, 15));
    let a = handle_command(&c, "en", &mut t, -9, true, Some(2), Some(314), "/untr");
    assert_eq!(reply(&a), ("That user was not being translated.", false));
}
