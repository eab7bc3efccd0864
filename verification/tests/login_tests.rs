use tg_translator::config::TelegramConfig;
use tg_translator::login::{login_step, LoginAction, LoginEvent};

fn telegram(bot_token: Option<&str>, phone_number: Option<&str>) -> TelegramConfig {
    TelegramConfig {
        api_id: 12345,
        api_hash: "abcdef".to_string(),
        bot_token: bot_token.map(|s| s.to_string()),
        phone_number: phone_number.map(|s| s.to_string()),
        session_file: "session.sqlite".to_string(),
    }
}

#[test]
fn bot_token_is_preferred_to_user_sign_in() {
    let config = telegram(Some("123:token"), Some("+15550001"));
    match login_step(&config, &LoginEvent::Start) {
        LoginAction::SignInBot { token } => assert_eq!(token, "123:token"),
        other => panic!("unexpected step {:?}", other),
    }
    assert!(matches!(login_step(&config, &LoginEvent::BotSignedIn), LoginAction::Done));
}

#[test]
fn configured_phone_number_spares_the_prompt() {
    let config = telegram(None, Some("+15550001"));
    match login_step(&config, &LoginEvent::Start) {
        LoginAction::RequestCode { phone } => assert_eq!(phone, "+15550001"),
        other => panic!("unexpected step {:?}", other),
    }
}

#[test]
fn without_credentials_the_phone_is_asked_for() {
    let config = telegram(None, None);
    assert!(matches!(login_step(&config, &LoginEvent::Start), LoginAction::PromptPhone));
}

#[test]
fn typed_lines_are_trimmed() {
    let config = telegram(None, None);
    match login_step(&config, &LoginEvent::PhoneEntered("  +15550002\n".to_string())) {
        LoginAction::RequestCode { phone } => assert_eq!(phone, "+15550002"),
        other => panic!("unexpected step {:?}", other),
    }
    match login_step(&config, &LoginEvent::CodeEntered("12345\r\n".to_string())) {
        LoginAction::SignIn { code } => assert_eq!(code, "12345"),
        other => panic!("unexpected step {:?}", other),
    }
    match login_step(&config, &LoginEvent::PasswordEntered("\tsecret pass \n".to_string())) {
        LoginAction::CheckPassword { password } => assert_eq!(password, "secret pass"),
        other => panic!("unexpected step {:?}", other),
    }
}

#[test]
fn user_dialogue_runs_through_code_and_password() {
    let config = telegram(None, Some("+15550001"));
    assert!(matches!(login_step(&config, &LoginEvent::CodeRequested), LoginAction::PromptCode));
    assert!(matches!(login_step(&config, &LoginEvent::SignedIn), LoginAction::Done));
    assert!(matches!(
        login_step(&config, &LoginEvent::PasswordRequired),
        LoginAction::PromptPassword
    ));
    assert!(matches!(login_step(&config, &LoginEvent::PasswordAccepted), LoginAction::Done));
}

#[test]
fn unicode_spaces_are_trimmed_too() {
    let config = telegram(None, None);
    match login_step(&config, &LoginEvent::PhoneEntered("\u{3000}+15550003\u{85}\u{a0}".to_string())) {
        LoginAction::RequestCode { phone } => assert_eq!(phone, "+15550003"),
        other => panic!("unexpected step {:?}", other),
    }
    match login_step(&config, &LoginEvent::CodeEntered("\u{200b}777".to_string())) {
        LoginAction::SignIn { code } => assert_eq!(code, "\u{200b}777"),
        other => panic!("unexpected step {:?}", other),
    }
}
