//! Decision logic of a Telegram bot that translates the messages of chosen
//! users in group chats.
pub mod config;
pub mod text;
pub mod translator;
pub mod bot;
pub mod laws;
pub mod login;
