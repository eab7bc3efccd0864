//! The sign-in dialogue with Telegram: with the bot token when one is
//! configured, else as a user with a phone number, a login code and, when
//! the account asks for it, a two-factor password.
//!
//! The caller talks to Telegram and to the terminal; `login_step` decides,
//! from what just happened, what to do next.
use vstd::prelude::*;

use crate::config::TelegramConfig;
use crate::text::{chars_of, string_of, trim_chars, trimmed};

verus! {

/// What just happened in the sign-in dialogue.
#[derive(Debug, Clone)]
pub enum LoginEvent {
    /// The client is not authorized yet; the dialogue begins.
    Start,
    /// The user typed a phone number (the line as read).
    PhoneEntered(String),
    /// Telegram sent a login code.
    CodeRequested,
    /// The user typed the login code (the line as read).
    CodeEntered(String),
    /// Signing in with the code succeeded.
    SignedIn,
    /// Signing in with the code needs the two-factor password.
    PasswordRequired,
    /// The user typed the password (the line as read).
    PasswordEntered(String),
    /// The password was accepted.
    PasswordAccepted,
    /// Signing in with the bot token succeeded.
    BotSignedIn,
}

/// What to do next in the sign-in dialogue.
#[derive(Debug, Clone)]
pub enum LoginAction {
    /// Sign in as a bot with this token.
    SignInBot { token: String },
    /// Ask the user for a phone number.
    PromptPhone,
    /// Ask Telegram for a login code for this phone number.
    RequestCode { phone: String },
    /// Ask the user for the login code.
    PromptCode,
    /// Sign in with this code.
    SignIn { code: String },
    /// Ask the user for the two-factor password.
    PromptPassword,
    /// Check this two-factor password.
    CheckPassword { password: String },
    /// Signed in.
    Done,
}

/// The abstract content of a `LoginAction`.
pub enum LoginActionView {
    SignInBot(Seq<char>),
    PromptPhone,
    RequestCode(Seq<char>),
    PromptCode,
    SignIn(Seq<char>),
    PromptPassword,
    CheckPassword(Seq<char>),
    Done,
}

impl View for LoginAction {
    type V = LoginActionView;

    open spec fn view(&self) -> LoginActionView {
        match self {
            LoginAction::SignInBot { token } => LoginActionView::SignInBot(token@),
            LoginAction::PromptPhone => LoginActionView::PromptPhone,
            LoginAction::RequestCode { phone } => LoginActionView::RequestCode(phone@),
            LoginAction::PromptCode => LoginActionView::PromptCode,
            LoginAction::SignIn { code } => LoginActionView::SignIn(code@),
            LoginAction::PromptPassword => LoginActionView::PromptPassword,
            LoginAction::CheckPassword { password } => LoginActionView::CheckPassword(password@),
            LoginAction::Done => LoginActionView::Done,
        }
    }
}

/// The next step of the dialogue after `event`: the bot token is preferred
/// to a user sign-in; a configured phone number spares the prompt; typed
/// lines are used without surrounding whitespace.
pub open spec fn next_login_step(
    bot_token: Option<Seq<char>>,
    phone_number: Option<Seq<char>>,
    event: LoginEvent,
) -> LoginActionView {
    match event {
        LoginEvent::Start => match bot_token {
            Some(t) => LoginActionView::SignInBot(t),
            None => match phone_number {
                Some(p) => LoginActionView::RequestCode(p),
                None => LoginActionView::PromptPhone,
            },
        },
        LoginEvent::PhoneEntered(line) => LoginActionView::RequestCode(trimmed(line@)),
        LoginEvent::CodeRequested => LoginActionView::PromptCode,
        LoginEvent::CodeEntered(line) => LoginActionView::SignIn(trimmed(line@)),
        LoginEvent::SignedIn => LoginActionView::Done,
        LoginEvent::PasswordRequired => LoginActionView::PromptPassword,
        LoginEvent::PasswordEntered(line) => LoginActionView::CheckPassword(trimmed(line@)),
        LoginEvent::PasswordAccepted => LoginActionView::Done,
        LoginEvent::BotSignedIn => LoginActionView::Done,
    }
}

fn trimmed_string(s: &String) -> (r: String)
    ensures
        r@ == trimmed(s@),
{
    string_of(&trim_chars(&chars_of(s.as_str())))
}

/// Decides the next step of the sign-in dialogue.
pub fn login_step(config: &TelegramConfig, event: &LoginEvent) -> (r: LoginAction)
    ensures
        r@ == next_login_step(
            crate::config::opt_chars(config.bot_token),
            crate::config::opt_chars(config.phone_number),
            *event,
        ),
{
    match event {
        LoginEvent::Start => match &config.bot_token {
            Some(t) => LoginAction::SignInBot { token: t.clone() },
            None => match &config.phone_number {
                Some(p) => LoginAction::RequestCode { phone: p.clone() },
                None => LoginAction::PromptPhone,
            },
        },
        LoginEvent::PhoneEntered(line) => LoginAction::RequestCode { phone: trimmed_string(line) },
        LoginEvent::CodeRequested => LoginAction::PromptCode,
        LoginEvent::CodeEntered(line) => LoginAction::SignIn { code: trimmed_string(line) },
        LoginEvent::SignedIn => LoginAction::Done,
        LoginEvent::PasswordRequired => LoginAction::PromptPassword,
        LoginEvent::PasswordEntered(line) => LoginAction::CheckPassword {
            password: trimmed_string(line),
        },
        LoginEvent::PasswordAccepted => LoginAction::Done,
        LoginEvent::BotSignedIn => LoginAction::Done,
    }
}

} // verus!
