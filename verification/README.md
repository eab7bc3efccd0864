# tg_translator

A Telegram bot that is added to group chats and translates the messages of
chosen users. The decisions it makes are a library verified with Verus; the
program around it talks to Telegram, to the translation services, to the
terminal and to the file system.

## Layout

- `src/` — the verified library
  - `config.rs`: the configuration, the per-group translation settings and
    their operations, and loading the configuration from what was read
  - `translator.rs`, `translator/languages.rs`: the request for each
    translation service, what a service's reply means, and the language codes
  - `bot.rs`: which messages are translated, the wording of the replies, and
    what each command does to the settings
  - `login.rs`: the steps of the sign-in dialogue
  - `text.rs`: the string operations the rest is written with
  - `laws.rs`: properties that span several operations
- `app/` — the program: update loop, HTTP, session, files and environment
- `tests/` — tests of the library on concrete values
