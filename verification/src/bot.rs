//! The bot's decisions: which messages to translate, how to word the
//! replies, and what each command does to the translation settings.
//!
//! Talking to Telegram and to the translation services is left to the
//! caller: it hands in what it received and carries out what these
//! functions decide.
use vstd::prelude::*;

use crate::config::{
    languages_for, users_of, translates, with_switched, with_languages, with_user_added,
    with_user_removed, BotConfig, GroupView, TranslationTargets,
};
use crate::text::{
    char_seqs, chars_eq, chars_of, extend_chars, extend_str, has_prefix, i64_text, int_text,
    joined, join_chars, join_strings, lowercase, lowercase_chars, owned, parse_i64, parsed_i64,
    pieces, replace_chars, replaced, split_chars, split_words, starts_with_chars, string_of,
    string_seqs, suffix_from, trim_chars, trimmed, uppercase, uppercase_chars, usize_text, words,
    Separator,
};
use crate::translator::languages::{is_valid, normalize, normalized, valid_codes};
use crate::translator::{outcome_view, ResultView, TranslationError, TranslationResult};

verus! {

// ---------------------------------------------------------------------------
// Reply texts
// ---------------------------------------------------------------------------

/// The reply to `/help`.
pub const HELP_TEXT: &'static str = "**Telegram Translation Bot**\n\n**Commands:**\n- `/translate @user` or `/tr @user` - Translate messages from a user\n- `/untranslate @user` or `/untr @user` - Stop translating a user\n- `/list` - List users being translated\n- `/lang <code>` - Set target language (e.g., `/lang de` for German)\n- `/status` - Show current settings\n- `/enable` - Enable translation in this chat\n- `/disable` - Disable translation in this chat\n- `/help` - Show this help message\n\n**Reply Commands:**\n- Reply to a message with `/translate` to add that user\n- Reply to a message with `/untranslate` to remove that user\n\n**Language Codes:**\nen (English), es (Spanish), fr (French), de (German), it (Italian), pt (Portuguese), ru (Russian), zh (Chinese), ja (Japanese), ko (Korean), uk (Ukrainian), pl (Polish), nl (Dutch), tr (Turkish), ar (Arabic), hi (Hindi)\n\nNote: Only group admins can configure translation settings.";

/// Refusal of a settings command outside a group.
pub const GROUPS_ONLY: &'static str = "This command only works in groups.";

/// Refusal of a settings command from a user who is not an admin.
pub const ADMINS_ONLY: &'static str = "Only bot admins can use this command.";

pub const TRANSLATE_USAGE: &'static str =
    "Please specify a user: `/translate @username` or `/translate <user_id>`";

pub const UNTRANSLATE_USAGE: &'static str =
    "Please specify a user: `/untranslate @username` or `/untranslate <user_id>`";

pub const TRANSLATE_NOT_FOUND: &'static str =
    "Could not find the specified user. Please use a valid user ID.";

pub const UNTRANSLATE_NOT_FOUND: &'static str = "Could not find the specified user.";

pub const NOT_TRANSLATED: &'static str = "That user was not being translated.";

pub const NO_USERS: &'static str = "No users are being translated in this chat.";

pub const LANG_USAGE: &'static str =
    "Please specify language code(s): `/lang <code>` or `/lang <code1>,<code2>`\n\nExamples: en, es, fr, de, uk (Ukrainian)\nMultiple: `/lang uk,es` or `/lang uk es`";

pub const NO_VALID_CODES: &'static str = "No valid language codes provided.";

// ---------------------------------------------------------------------------
// Commands as text
// ---------------------------------------------------------------------------

/// A parsed bot command.
#[derive(Debug, Clone)]
pub struct Command {
    /// Lower-cased command name, without prefix and without `@botname`.
    pub name: String,
    /// The whitespace-separated words after the name.
    pub args: Vec<String>,
}

/// `text` without the command prefix, if it starts with it.
pub open spec fn without_prefix(text: Seq<char>, prefix: Seq<char>) -> Seq<char> {
    if has_prefix(text, prefix) {
        text.skip(prefix.len() as int)
    } else {
        text
    }
}

/// The name and the arguments of the command in `text`: the first word
/// (up to an `@`), lower-cased, and the words after it.
pub open spec fn command_of(prefix: Seq<char>, text: Seq<char>) -> (Seq<char>, Seq<Seq<char>>) {
    let w = words(without_prefix(text, prefix));
    let first = if w.len() > 0 {
        w[0]
    } else {
        Seq::empty()
    };
    (lowercase(pieces(first, Separator::At)[0]), if w.len() > 0 {
        w.skip(1)
    } else {
        Seq::empty()
    })
}

/// The strings made of a list of character vectors.
fn strings_of(v: &Vec<Vec<char>>, from: usize) -> (r: Vec<String>)
    requires
        from <= v.len(),
    ensures
        string_seqs(r@) == char_seqs(v@).skip(from as int),
{
    let mut r: Vec<String> = Vec::new();
    let mut i = from;
    while i < v.len()
        invariant
            from <= i <= v.len(),
            string_seqs(r@) == char_seqs(v@).subrange(from as int, i as int),
        decreases v.len() - i,
    {
        let t = string_of(&v[i]);
        let ghost prev = r@;
        r.push(t);
        assert(string_seqs(r@) =~= string_seqs(prev).push(v@[i as int]@));
        assert(char_seqs(v@).subrange(from as int, i + 1) =~= char_seqs(v@).subrange(
            from as int,
            i as int,
        ).push(v@[i as int]@));
        i = i + 1;
    }
    assert(char_seqs(v@).subrange(from as int, v.len() as int) =~= char_seqs(v@).skip(
        from as int,
    ));
    r
}

/// Parses a command from message text.
pub fn parse_command(config: &BotConfig, text: &str) -> (r: Command)
    ensures
        (r.name@, string_seqs(r.args@)) == command_of(config.command_prefix@, text@),
{
    let t = chars_of(text);
    let prefix = chars_of(config.command_prefix.as_str());
    let rest = if starts_with_chars(&t, &prefix) {
        suffix_from(&t, prefix.len())
    } else {
        t
    };
    let w = split_words(&rest);
    let first: Vec<char> = if w.len() > 0 {
        w[0].clone()
    } else {
        Vec::new()
    };
    let parts = split_chars(&first, Separator::At);
    proof {
        crate::text::lemma_pieces_nonempty(first@, Separator::At);
    }
    let name = lowercase_chars(&parts[0]);
    let args = if w.len() > 0 {
        strings_of(&w, 1)
    } else {
        Vec::new()
    };
    assert(w.len() == 0 ==> string_seqs(args@) =~= Seq::<Seq<char>>::empty());
    Command { name: string_of(&name), args }
}

/// Whether `user_id` is one of the configured admins.
pub fn is_admin(config: &BotConfig, user_id: i64) -> (r: bool)
    ensures
        r == config.admin_user_ids@.contains(user_id),
{
    let ids = &config.admin_user_ids;
    for i in 0..ids.len()
        invariant
            ids == &config.admin_user_ids,
            forall|j: int| 0 <= j < i ==> ids@[j] != user_id,
    {
        if ids[i] == user_id {
            assert(ids@[i as int] == user_id);
            return true;
        }
    }
    false
}

/// The reply template with its placeholders filled in, one after the other:
/// `{translation}`, then `{source_lang}`, then `{target_lang}`.
pub open spec fn formatted(
    template: Seq<char>,
    translation: Seq<char>,
    source_lang: Seq<char>,
    target_lang: Seq<char>,
) -> Seq<char> {
    replaced(
        replaced(replaced(template, "{translation}"@, translation), "{source_lang}"@, source_lang),
        "{target_lang}"@,
        target_lang,
    )
}

/// Formats the reply that carries one translation.
pub fn format_reply(config: &BotConfig, translation: &str, source_lang: &str, target_lang: &str) -> (r:
    String)
    ensures
        r@ == formatted(config.reply_format@, translation@, source_lang@, target_lang@),
{
    let p1 = chars_of("{translation}");
    let p2 = chars_of("{source_lang}");
    let p3 = chars_of("{target_lang}");
    proof {
        reveal_strlit("{translation}");
        reveal_strlit("{source_lang}");
        reveal_strlit("{target_lang}");
    }
    let t = chars_of(config.reply_format.as_str());
    let a = replace_chars(&t, &p1, &chars_of(translation));
    let b = replace_chars(&a, &p2, &chars_of(source_lang));
    let c = replace_chars(&b, &p3, &chars_of(target_lang));
    string_of(&c)
}

// ---------------------------------------------------------------------------
// Incoming messages
// ---------------------------------------------------------------------------

/// What to do with an incoming (not outgoing) message.
#[derive(Debug, Clone)]
pub enum MessageRoute {
    /// The message is a command.
    Command,
    /// Nothing to do.
    Ignore,
    /// Translate the message into these languages.
    Translate(Vec<String>),
}

/// The abstract content of a `MessageRoute`.
pub enum RouteView {
    Command,
    Ignore,
    Translate(Seq<Seq<char>>),
}

impl View for MessageRoute {
    type V = RouteView;

    open spec fn view(&self) -> RouteView {
        match self {
            MessageRoute::Command => RouteView::Command,
            MessageRoute::Ignore => RouteView::Ignore,
            MessageRoute::Translate(v) => RouteView::Translate(string_seqs(v@)),
        }
    }
}

/// How a message is routed: commands by their prefix; otherwise translated
/// when it is a non-empty text from a user whose messages are translated in
/// this group.
pub open spec fn route(
    prefix: Seq<char>,
    m: Map<i64, GroupView>,
    default_language: Seq<char>,
    chat_id: i64,
    is_group: bool,
    sender: Option<i64>,
    text: Seq<char>,
) -> RouteView {
    if has_prefix(text, prefix) {
        RouteView::Command
    } else if !is_group {
        RouteView::Ignore
    } else {
        match sender {
            None => RouteView::Ignore,
            Some(user) => if !translates(m, chat_id, user) || text.len() == 0 {
                RouteView::Ignore
            } else {
                RouteView::Translate(languages_for(m, chat_id, default_language))
            },
        }
    }
}

/// Decides what to do with an incoming message in chat `chat_id`; `sender`
/// is the id of the sending user (`None` when the sender is not a user).
pub fn route_message(
    config: &BotConfig,
    targets: &TranslationTargets,
    default_language: &str,
    chat_id: i64,
    is_group: bool,
    sender: Option<i64>,
    text: &str,
) -> (r: MessageRoute)
    ensures
        r@ == route(
            config.command_prefix@,
            targets@,
            default_language@,
            chat_id,
            is_group,
            sender,
            text@,
        ),
{
    let t = chars_of(text);
    if starts_with_chars(&t, &chars_of(config.command_prefix.as_str())) {
        return MessageRoute::Command;
    }
    if !is_group {
        return MessageRoute::Ignore;
    }
    let user = match sender {
        Some(u) => u,
        None => {
            return MessageRoute::Ignore;
        },
    };
    if !targets.should_translate(chat_id, user) {
        return MessageRoute::Ignore;
    }
    let languages = targets.get_target_languages(chat_id, default_language);
    if t.len() == 0 {
        return MessageRoute::Ignore;
    }
    MessageRoute::Translate(languages)
}

/// The successful outcomes of a list of translation attempts.
pub open spec fn successes(v: Seq<Result<TranslationResult, TranslationError>>) -> Seq<
    Option<ResultView>,
> {
    v.map_values(
        |r: Result<TranslationResult, TranslationError>|
            match r {
                Ok(t) => Some(t@),
                Err(_) => None,
            },
    )
}

/// The translations worth replying with, as (target language, text), and
/// the source language last reported: attempts that failed are skipped, and
/// so are those whose target is the reported source language ("auto" when
/// none is reported).
pub open spec fn gathered(langs: Seq<Seq<char>>, outs: Seq<Option<ResultView>>) -> (Seq<
    (Seq<char>, Seq<char>),
>, Option<Seq<char>>)
    decreases langs.len(),
{
    if langs.len() == 0 || outs.len() == 0 {
        (Seq::empty(), None)
    } else {
        let (ts, d) = gathered(langs.drop_last(), outs.drop_last());
        match outs.last() {
            None => (ts, d),
            Some(r) => {
                let src = match r.detected_language {
                    Some(l) => l,
                    None => "auto"@,
                };
                if src == langs.last() {
                    (ts, Some(src))
                } else {
                    (ts.push((langs.last(), r.text)), Some(src))
                }
            },
        }
    }
}

/// One line of a reply with several translations.
pub open spec fn translation_line(t: (Seq<char>, Seq<char>)) -> Seq<char> {
    "**"@ + uppercase(t.0) + ":** "@ + t.1
}

/// The reply to a translated message, if there is anything to reply.
pub open spec fn reply_for(template: Seq<char>, langs: Seq<Seq<char>>, outs: Seq<
    Option<ResultView>,
>) -> Option<Seq<char>> {
    let (ts, d) = gathered(langs, outs);
    let src = match d {
        Some(l) => l,
        None => "auto"@,
    };
    if ts.len() == 0 {
        None
    } else if ts.len() == 1 {
        Some(formatted(template, ts[0].1, src, ts[0].0))
    } else {
        Some(
            "🌐 **Translations** (from "@ + src + "):\n"@ + joined(
                ts.map_values(|t: (Seq<char>, Seq<char>)| translation_line(t)),
                "\n"@,
            ),
        )
    }
}

/// The reply to a message translated into `languages`, given the outcome
/// of the attempt for each language, in the same order.
pub fn translation_reply(
    config: &BotConfig,
    languages: &Vec<String>,
    results: &Vec<Result<TranslationResult, TranslationError>>,
) -> (r: Option<String>)
    requires
        languages.len() == results.len(),
    ensures
        match r {
            Some(s) => reply_for(
                config.reply_format@,
                string_seqs(languages@),
                successes(results@),
            ) == Some(s@),
            None => reply_for(
                config.reply_format@,
                string_seqs(languages@),
                successes(results@),
            ) is None,
        },
{
    let ghost langs = string_seqs(languages@);
    let ghost outs = successes(results@);
    let mut targets: Vec<Vec<char>> = Vec::new();
    let mut texts: Vec<Vec<char>> = Vec::new();
    let mut detected: Option<Vec<char>> = None;
    for i in 0..languages.len()
        invariant
            languages.len() == results.len(),
            langs == string_seqs(languages@),
            outs == successes(results@),
            targets.len() == texts.len(),
            ({
                let (ts, d) = gathered(langs.take(i as int), outs.take(i as int));
                &&& ts.len() == targets.len()
                &&& forall|k: int|
                    0 <= k < ts.len() ==> ts[k] == (#[trigger] targets@[k]@, texts@[k]@)
                &&& d == match detected {
                    Some(v) => Some(v@),
                    None => None::<Seq<char>>,
                }
            }),
    {
        assert(langs.take(i + 1).drop_last() =~= langs.take(i as int));
        assert(outs.take(i + 1).drop_last() =~= outs.take(i as int));
        assert(langs.take(i + 1).last() == languages@[i as int]@);
        assert(outs.take(i + 1).last() == outs[i as int]);
        match &results[i] {
            Ok(res) => {
                let src = match &res.detected_language {
                    Some(l) => chars_of(l.as_str()),
                    None => chars_of("auto"),
                };
                let target = chars_of(languages[i].as_str());
                if !chars_eq(&src, &target) {
                    targets.push(target);
                    texts.push(chars_of(res.text.as_str()));
                }
                detected = Some(src);
            },
            Err(_) => {},
        }
    }
    assert(langs.take(languages.len() as int) =~= langs);
    assert(outs.take(languages.len() as int) =~= outs);
    if targets.len() == 0 {
        return None;
    }
    let src = match detected {
        Some(v) => v,
        None => chars_of("auto"),
    };
    let ghost ts = gathered(langs, outs).0;
    if targets.len() == 1 {
        let reply = format_reply(
            config,
            string_of(&texts[0]).as_str(),
            string_of(&src).as_str(),
            string_of(&targets[0]).as_str(),
        );
        assert(ts[0] == (targets@[0]@, texts@[0]@));
        return Some(reply);
    }
    let mut lines: Vec<Vec<char>> = Vec::new();
    for k in 0..targets.len()
        invariant
            targets.len() == texts.len() == ts.len(),
            forall|j: int| 0 <= j < ts.len() ==> ts[j] == (#[trigger] targets@[j]@, texts@[j]@),
            char_seqs(lines@) == ts.take(k as int).map_values(
                |t: (Seq<char>, Seq<char>)| translation_line(t),
            ),
    {
        let mut line = chars_of("**");
        let upper = uppercase_chars(string_of(&targets[k]).as_str());
        extend_chars(&mut line, &upper);
        extend_str(&mut line, ":** ");
        extend_chars(&mut line, &texts[k]);
        assert(ts[k as int] == (targets@[k as int]@, texts@[k as int]@));
        let ghost prev = lines@;
        lines.push(line);
        assert(char_seqs(lines@) =~= char_seqs(prev).push(line@));
        assert(ts.take(k + 1).map_values(|t: (Seq<char>, Seq<char>)| translation_line(t))
            =~= ts.take(k as int).map_values(|t: (Seq<char>, Seq<char>)| translation_line(t)).push(
            translation_line(ts[k as int]),
        ));
    }
    assert(ts.take(targets.len() as int) =~= ts);
    let mut reply = chars_of("🌐 **Translations** (from ");
    extend_chars(&mut reply, &src);
    extend_str(&mut reply, "):\n");
    let body = join_chars(&lines, &chars_of("\n"));
    extend_chars(&mut reply, &body);
    Some(string_of(&reply))
}

// ---------------------------------------------------------------------------
// Commands
// ---------------------------------------------------------------------------

/// The commands that take a user as argument.
#[derive(Debug, Clone, Copy, PartialEq, Eq, Structural)]
pub enum UserCommand {
    /// Start translating a user (`/translate`, `/tr`).
    Translate,
    /// Stop translating a user (`/untranslate`, `/untr`).
    Untranslate,
}

/// What the caller is to do after a command.
#[derive(Debug, Clone)]
pub enum CommandAction {
    /// Nothing.
    Ignore,
    /// Save the translation settings if `save` (a failure to save ends the
    /// command), then reply with `text`.
    Reply { text: String, save: bool },
    /// Look up the user called `username` and hand the outcome to
    /// `finish_user_command` with `command`.
    ResolveUser { username: String, command: UserCommand },
}

/// The abstract content of a `CommandAction`.
pub enum ActionView {
    Ignore,
    Reply(Seq<char>, bool),
    ResolveUser(Seq<char>, UserCommand),
}

impl View for CommandAction {
    type V = ActionView;

    open spec fn view(&self) -> ActionView {
        match self {
            CommandAction::Ignore => ActionView::Ignore,
            CommandAction::Reply { text, save } => ActionView::Reply(text@, *save),
            CommandAction::ResolveUser { username, command } => ActionView::ResolveUser(
                username@,
                *command,
            ),
        }
    }
}

/// The commands that the bot knows.
#[derive(Debug, Clone, Copy, PartialEq, Eq, Structural)]
pub enum CommandKind {
    Help,
    TranslateUser,
    UntranslateUser,
    List,
    Language,
    Status,
    Enable,
    Disable,
    Unknown,
}

/// The command that a (lower-cased) name stands for.
pub open spec fn command_kind(name: Seq<char>) -> CommandKind {
    if name == "start"@ || name == "help"@ {
        CommandKind::Help
    } else if name == "translate"@ || name == "tr"@ {
        CommandKind::TranslateUser
    } else if name == "untranslate"@ || name == "untr"@ {
        CommandKind::UntranslateUser
    } else if name == "list"@ {
        CommandKind::List
    } else if name == "lang"@ || name == "language"@ {
        CommandKind::Language
    } else if name == "status"@ {
        CommandKind::Status
    } else if name == "enable"@ {
        CommandKind::Enable
    } else if name == "disable"@ {
        CommandKind::Disable
    } else {
        CommandKind::Unknown
    }
}

/// The command that a name stands for.
pub fn kind_of(name: &str) -> (r: CommandKind)
    ensures
        r == command_kind(name@),
{
    let n = chars_of(name);
    if chars_eq(&n, &chars_of("start")) || chars_eq(&n, &chars_of("help")) {
        CommandKind::Help
    } else if chars_eq(&n, &chars_of("translate")) || chars_eq(&n, &chars_of("tr")) {
        CommandKind::TranslateUser
    } else if chars_eq(&n, &chars_of("untranslate")) || chars_eq(&n, &chars_of("untr")) {
        CommandKind::UntranslateUser
    } else if chars_eq(&n, &chars_of("list")) {
        CommandKind::List
    } else if chars_eq(&n, &chars_of("lang")) || chars_eq(&n, &chars_of("language")) {
        CommandKind::Language
    } else if chars_eq(&n, &chars_of("status")) {
        CommandKind::Status
    } else if chars_eq(&n, &chars_of("enable")) {
        CommandKind::Enable
    } else if chars_eq(&n, &chars_of("disable")) {
        CommandKind::Disable
    } else {
        CommandKind::Unknown
    }
}

/// The refusal of a settings command, if any: outside groups, and from users
/// who are not admins.
pub open spec fn refusal(is_group: bool, admins: Seq<i64>, sender_id: i64) -> Option<Seq<char>> {
    if !is_group {
        Some(GROUPS_ONLY@)
    } else if !admins.contains(sender_id) {
        Some(ADMINS_ONLY@)
    } else {
        None
    }
}

fn refusal_of(config: &BotConfig, is_group: bool, sender_id: i64) -> (r: Option<String>)
    ensures
        opt_text(r) == refusal(is_group, config.admin_user_ids@, sender_id),
{
    if !is_group {
        Some(owned(GROUPS_ONLY))
    } else if !is_admin(config, sender_id) {
        Some(owned(ADMINS_ONLY))
    } else {
        None
    }
}

/// The characters of an optional string.
pub open spec fn opt_text(o: Option<String>) -> Option<Seq<char>> {
    match o {
        Some(s) => Some(s@),
        None => None,
    }
}

/// How a command names a user.
#[derive(Debug, Clone)]
pub enum UserReference {
    /// By numeric id.
    Id(i64),
    /// By username (without `@`).
    Username(String),
}

/// The abstract content of a `UserReference`.
pub enum ReferenceView {
    Id(i64),
    Username(Seq<char>),
}

/// `arg` without one leading `@`.
pub open spec fn without_at(arg: Seq<char>) -> Seq<char> {
    if arg.len() > 0 && arg[0] == '@' {
        arg.skip(1)
    } else {
        arg
    }
}

/// How an argument names a user: by id when it (without a leading `@`)
/// parses as an `i64`, else by username.
pub open spec fn reference_of(arg: Seq<char>) -> ReferenceView {
    let s = without_at(arg);
    match parsed_i64(s) {
        Some(v) => ReferenceView::Id(v as i64),
        None => ReferenceView::Username(s),
    }
}

/// How `arg` names a user.
pub fn user_reference(arg: &str) -> (r: UserReference)
    ensures
        reference_of(arg@) == match r {
            UserReference::Id(v) => ReferenceView::Id(v),
            UserReference::Username(u) => ReferenceView::Username(u@),
        },
{
    let a = chars_of(arg);
    let s = if a.len() > 0 && a[0] == '@' {
        suffix_from(&a, 1)
    } else {
        a
    };
    match parse_i64(&s) {
        Some(v) => UserReference::Id(v),
        None => UserReference::Username(string_of(&s)),
    }
}

/// `"prefix`id`suffix"`.
pub open spec fn about_user(prefix: Seq<char>, user_id: i64) -> Seq<char> {
    prefix + int_text(user_id as int) + "`."@
}

/// The settings and the reply once the user named in a user command is
/// known (`None`: no such user).
pub open spec fn user_command_done(
    command: UserCommand,
    m: Map<i64, GroupView>,
    chat_id: i64,
    user: Option<i64>,
) -> (Map<i64, GroupView>, ActionView) {
    match command {
        UserCommand::Translate => match user {
            None => (m, ActionView::Reply(TRANSLATE_NOT_FOUND@, false)),
            Some(id) => (
                with_user_added(m, chat_id, id),
                ActionView::Reply(about_user("Now translating messages from user `"@, id), true),
            ),
        },
        UserCommand::Untranslate => match user {
            None => (m, ActionView::Reply(UNTRANSLATE_NOT_FOUND@, false)),
            Some(id) => if users_of(m, chat_id).contains(id) {
                (
                    with_user_removed(m, chat_id, id),
                    ActionView::Reply(
                        about_user("Stopped translating messages from user `"@, id),
                        true,
                    ),
                )
            } else {
                (with_user_removed(m, chat_id, id), ActionView::Reply(NOT_TRANSLATED@, false))
            },
        },
    }
}

/// The settings and what to do next after a user command, before any
/// username is looked up. The user is the one the first argument names or,
/// without arguments, the sender of the message the command replies to
/// (`replied`, when that sender is a user).
pub open spec fn user_command_step(
    command: UserCommand,
    admins: Seq<i64>,
    m: Map<i64, GroupView>,
    chat_id: i64,
    is_group: bool,
    args: Seq<Seq<char>>,
    replied: Option<i64>,
    sender_id: i64,
) -> (Map<i64, GroupView>, ActionView) {
    match refusal(is_group, admins, sender_id) {
        Some(t) => (m, ActionView::Reply(t, false)),
        None => if args.len() == 0 && replied is Some {
            user_command_done(command, m, chat_id, replied)
        } else if args.len() == 0 {
            (
                m,
                ActionView::Reply(
                    match command {
                        UserCommand::Translate => TRANSLATE_USAGE@,
                        UserCommand::Untranslate => UNTRANSLATE_USAGE@,
                    },
                    false,
                ),
            )
        } else {
            match reference_of(args[0]) {
                ReferenceView::Id(id) => user_command_done(command, m, chat_id, Some(id)),
                ReferenceView::Username(u) => (m, ActionView::ResolveUser(u, command)),
            }
        },
    }
}

fn reply(text: Vec<char>, save: bool) -> (r: CommandAction)
    ensures
        r@ == ActionView::Reply(text@, save),
{
    CommandAction::Reply { text: string_of(&text), save }
}

fn about_user_text(prefix: &str, user_id: i64) -> (r: Vec<char>)
    ensures
        r@ == about_user(prefix@, user_id),
{
    let mut v = chars_of(prefix);
    extend_chars(&mut v, &i64_text(user_id));
    extend_str(&mut v, "`.");
    v
}

/// Completes a user command once the named user is known (`None`: there is
/// no such user).
pub fn finish_user_command(
    command: UserCommand,
    targets: &mut TranslationTargets,
    chat_id: i64,
    user: Option<i64>,
) -> (r: CommandAction)
    ensures
        (final(targets)@, r@) == user_command_done(command, old(targets)@, chat_id, user),
{
    match command {
        UserCommand::Translate => match user {
            None => reply(chars_of(TRANSLATE_NOT_FOUND), false),
            Some(id) => {
                targets.add_user(chat_id, id);
                reply(about_user_text("Now translating messages from user `", id), true)
            },
        },
        UserCommand::Untranslate => match user {
            None => reply(chars_of(UNTRANSLATE_NOT_FOUND), false),
            Some(id) => {
                if targets.remove_user(chat_id, id) {
                    reply(about_user_text("Stopped translating messages from user `", id), true)
                } else {
                    reply(chars_of(NOT_TRANSLATED), false)
                }
            },
        },
    }
}

fn start_user_command(
    command: UserCommand,
    config: &BotConfig,
    targets: &mut TranslationTargets,
    chat_id: i64,
    is_group: bool,
    args: &Vec<String>,
    replied: Option<i64>,
    sender_id: i64,
) -> (r: CommandAction)
    ensures
        (final(targets)@, r@) == user_command_step(
            command,
            config.admin_user_ids@,
            old(targets)@,
            chat_id,
            is_group,
            string_seqs(args@),
            replied,
            sender_id,
        ),
{
    match refusal_of(config, is_group, sender_id) {
        Some(t) => {
            return CommandAction::Reply { text: t, save: false };
        },
        None => {},
    }
    if args.len() == 0 {
        match replied {
            Some(id) => {
                return finish_user_command(command, targets, chat_id, Some(id));
            },
            None => {},
        }
        let usage = match command {
            UserCommand::Translate => TRANSLATE_USAGE,
            UserCommand::Untranslate => UNTRANSLATE_USAGE,
        };
        return reply(chars_of(usage), false);
    }
    match user_reference(args[0].as_str()) {
        UserReference::Id(id) => finish_user_command(command, targets, chat_id, Some(id)),
        UserReference::Username(u) => CommandAction::ResolveUser { username: u, command },
    }
}

/// `/translate`: starts translating the user named by the first argument, or
/// else the sender of the message replied to.
pub fn cmd_translate_user(
    config: &BotConfig,
    targets: &mut TranslationTargets,
    chat_id: i64,
    is_group: bool,
    args: &Vec<String>,
    replied: Option<i64>,
    sender_id: i64,
) -> (r: CommandAction)
    ensures
        (final(targets)@, r@) == user_command_step(
            UserCommand::Translate,
            config.admin_user_ids@,
            old(targets)@,
            chat_id,
            is_group,
            string_seqs(args@),
            replied,
            sender_id,
        ),
{
    start_user_command(
        UserCommand::Translate,
        config,
        targets,
        chat_id,
        is_group,
        args,
        replied,
        sender_id,
    )
}

/// `/untranslate`: stops translating the user named by the first argument, or
/// else the sender of the message replied to.
pub fn cmd_untranslate_user(
    config: &BotConfig,
    targets: &mut TranslationTargets,
    chat_id: i64,
    is_group: bool,
    args: &Vec<String>,
    replied: Option<i64>,
    sender_id: i64,
) -> (r: CommandAction)
    ensures
        (final(targets)@, r@) == user_command_step(
            UserCommand::Untranslate,
            config.admin_user_ids@,
            old(targets)@,
            chat_id,
            is_group,
            string_seqs(args@),
            replied,
            sender_id,
        ),
{
    start_user_command(
        UserCommand::Untranslate,
        config,
        targets,
        chat_id,
        is_group,
        args,
        replied,
        sender_id,
    )
}

/// `/help`.
pub fn cmd_help() -> (r: CommandAction)
    ensures
        r@ == ActionView::Reply(HELP_TEXT@, false),
{
    reply(chars_of(HELP_TEXT), false)
}

/// The reply to `/list` when users are translated, listed in `listing`.
pub open spec fn list_text(listing: Seq<i64>, langs: Seq<Seq<char>>) -> Seq<char> {
    "**Users being translated:**\n"@ + joined(
        listing.map_values(|id: i64| "`"@ + int_text(id as int) + "`"@),
        "\n"@,
    ) + "\n\n**Target language(s):** `"@ + joined(langs, ", "@) + "`"@
}

/// Whether `action` is the reply to `/list` in `chat_id`: the users, in
/// some order of their set, and the target languages.
pub open spec fn lists_users(
    m: Map<i64, GroupView>,
    chat_id: i64,
    default_language: Seq<char>,
    action: ActionView,
) -> bool {
    if users_of(m, chat_id).len() == 0 {
        action == ActionView::Reply(NO_USERS@, false)
    } else {
        exists|listing: Seq<i64>|
            #![trigger list_text(listing, languages_for(m, chat_id, default_language))]
            listing.no_duplicates() && listing.to_set() == users_of(m, chat_id) && action
                == ActionView::Reply(
                list_text(listing, languages_for(m, chat_id, default_language)),
                false,
            )
    }
}

/// `/list`: the users translated in this chat and its target languages.
pub fn cmd_list_users(targets: &TranslationTargets, chat_id: i64, default_language: &str) -> (r:
    CommandAction)
    ensures
        lists_users(targets@, chat_id, default_language@, r@),
{
    let users = targets.list_users(chat_id);
    let langs = targets.get_target_languages(chat_id, default_language);
    if users.len() == 0 {
        assert(users_of(targets@, chat_id).len() == 0);
        return reply(chars_of(NO_USERS), false);
    }
    let mut items: Vec<Vec<char>> = Vec::new();
    for i in 0..users.len()
        invariant
            char_seqs(items@) == users@.take(i as int).map_values(
                |id: i64| "`"@ + int_text(id as int) + "`"@,
            ),
    {
        let mut item = chars_of("`");
        extend_chars(&mut item, &i64_text(users[i]));
        extend_str(&mut item, "`");
        let ghost prev = items@;
        items.push(item);
        assert(char_seqs(items@) =~= char_seqs(prev).push(item@));
        assert(users@.take(i + 1).map_values(|id: i64| "`"@ + int_text(id as int) + "`"@)
            =~= users@.take(i as int).map_values(
            |id: i64| "`"@ + int_text(id as int) + "`"@,
        ).push("`"@ + int_text(users@[i as int] as int) + "`"@));
    }
    assert(users@.take(users.len() as int) =~= users@);
    let mut text = chars_of("**Users being translated:**\n");
    extend_chars(&mut text, &join_chars(&items, &chars_of("\n")));
    extend_str(&mut text, "\n\n**Target language(s):** `");
    extend_chars(&mut text, &join_strings(&langs, ", "));
    extend_str(&mut text, "`");
    let r = reply(text, false);
    assert(r@ == ActionView::Reply(
        list_text(users@, languages_for(targets@, chat_id, default_language@)),
        false,
    ));
    r
}

/// The reply to `/status`.
pub open spec fn status_text(
    m: Map<i64, GroupView>,
    chat_id: i64,
    default_language: Seq<char>,
) -> Seq<char> {
    let enabled = if m.contains_key(chat_id) {
        m[chat_id].enabled
    } else {
        true
    };
    "**Translation Bot Status**\n\n**Chat ID:** `"@ + int_text(chat_id as int)
        + "`\n**Enabled:** "@ + (if enabled {
        "Yes"@
    } else {
        "No"@
    }) + "\n**Users being translated:** "@ + int_text(users_of(m, chat_id).len() as int)
        + "\n**Target language(s):** `"@ + joined(languages_for(m, chat_id, default_language), ", "@)
        + "`"@
}

/// `/status`: the chat's translation settings.
pub fn cmd_status(targets: &TranslationTargets, chat_id: i64, default_language: &str) -> (r:
    CommandAction)
    ensures
        r@ == ActionView::Reply(status_text(targets@, chat_id, default_language@), false),
{
    let (enabled, count) = match targets.groups.get(&chat_id) {
        Some(g) => (g.enabled, g.users.len()),
        None => (true, 0),
    };
    let langs = targets.get_target_languages(chat_id, default_language);
    let mut text = chars_of("**Translation Bot Status**\n\n**Chat ID:** `");
    extend_chars(&mut text, &i64_text(chat_id));
    extend_str(&mut text, "`\n**Enabled:** ");
    extend_str(&mut text, if enabled { "Yes" } else { "No" });
    extend_str(&mut text, "\n**Users being translated:** ");
    extend_chars(&mut text, &usize_text(count));
    extend_str(&mut text, "\n**Target language(s):** `");
    extend_chars(&mut text, &join_strings(&langs, ", "));
    extend_str(&mut text, "`");
    proof {
        if !targets@.contains_key(chat_id) {
            assert(users_of(targets@, chat_id).len() == 0);
        }
    }
    reply(text, false)
}

/// The settings and the reply after `/enable` (`enable`) or `/disable`.
pub open spec fn enable_step(
    admins: Seq<i64>,
    m: Map<i64, GroupView>,
    chat_id: i64,
    is_group: bool,
    sender_id: i64,
    enable: bool,
) -> (Map<i64, GroupView>, ActionView) {
    match refusal(is_group, admins, sender_id) {
        Some(t) => (m, ActionView::Reply(t, false)),
        None => (
            with_switched(m, chat_id, enable),
            ActionView::Reply(
                "Translation has been "@ + (if enable {
                    "enabled"@
                } else {
                    "disabled"@
                }) + "."@,
                true,
            ),
        ),
    }
}

/// `/enable` and `/disable`.
pub fn cmd_enable(
    config: &BotConfig,
    targets: &mut TranslationTargets,
    chat_id: i64,
    is_group: bool,
    sender_id: i64,
    enable: bool,
) -> (r: CommandAction)
    ensures
        (final(targets)@, r@) == enable_step(
            config.admin_user_ids@,
            old(targets)@,
            chat_id,
            is_group,
            sender_id,
            enable,
        ),
{
    match refusal_of(config, is_group, sender_id) {
        Some(t) => {
            return CommandAction::Reply { text: t, save: false };
        },
        None => {},
    }
    targets.switch_translation(chat_id, enable);
    let mut text = chars_of("Translation has been ");
    extend_str(&mut text, if enable { "enabled" } else { "disabled" });
    extend_str(&mut text, ".");
    reply(text, true)
}

/// The language codes in a `/lang` argument: the pieces between commas and
/// spaces, trimmed and lower-cased, empty ones dropped, aliases normalized.
pub open spec fn codes_in(ps: Seq<Seq<char>>) -> Seq<Seq<char>>
    decreases ps.len(),
{
    if ps.len() == 0 {
        Seq::empty()
    } else {
        let c = lowercase(trimmed(ps.last()));
        codes_in(ps.drop_last()) + if c.len() > 0 {
            seq![normalized(c)]
        } else {
            Seq::empty()
        }
    }
}

/// The language codes that `input` lists.
pub open spec fn language_codes(input: Seq<char>) -> Seq<Seq<char>> {
    codes_in(pieces(input, Separator::CommaOrSpace))
}

/// The codes of `codes` that are not accepted, in order.
pub open spec fn invalid_codes(codes: Seq<Seq<char>>) -> Seq<Seq<char>>
    decreases codes.len(),
{
    if codes.len() == 0 {
        Seq::empty()
    } else {
        invalid_codes(codes.drop_last()) + if valid_codes().contains(codes.last()) {
            Seq::empty()
        } else {
            seq![codes.last()]
        }
    }
}

/// The settings and the reply after `/lang` with arguments `args`.
pub open spec fn language_step(
    admins: Seq<i64>,
    m: Map<i64, GroupView>,
    chat_id: i64,
    is_group: bool,
    args: Seq<Seq<char>>,
    sender_id: i64,
) -> (Map<i64, GroupView>, ActionView) {
    let input = joined(args, " "@);
    let codes = language_codes(input);
    let bad = invalid_codes(codes);
    match refusal(is_group, admins, sender_id) {
        Some(t) => (m, ActionView::Reply(t, false)),
        None => if input.len() == 0 {
            (m, ActionView::Reply(LANG_USAGE@, false))
        } else if bad.len() > 0 {
            (
                m,
                ActionView::Reply(
                    "Invalid language code(s): `"@ + joined(bad, ", "@)
                        + "`. Please use 2-letter ISO 639-1 codes (e.g., en, es, fr, de, uk)."@,
                    false,
                ),
            )
        } else if codes.len() == 0 {
            (m, ActionView::Reply(NO_VALID_CODES@, false))
        } else {
            (
                with_languages(m, chat_id, codes),
                ActionView::Reply(
                    "Target language(s) set to `"@ + joined(codes, ", "@) + "`."@,
                    true,
                ),
            )
        },
    }
}

/// The language codes that `input` lists.
pub fn parse_language_codes(input: &Vec<char>) -> (r: Vec<String>)
    ensures
        string_seqs(r@) == language_codes(input@),
{
    let ps = split_chars(input, Separator::CommaOrSpace);
    let ghost pv = char_seqs(ps@);
    let mut r: Vec<String> = Vec::new();
    for i in 0..ps.len()
        invariant
            pv == char_seqs(ps@),
            pv == pieces(input@, Separator::CommaOrSpace),
            string_seqs(r@) == codes_in(pv.take(i as int)),
    {
        assert(pv.take(i + 1).drop_last() =~= pv.take(i as int));
        assert(pv.take(i + 1).last() == ps@[i as int]@);
        let c = lowercase_chars(&trim_chars(&ps[i]));
        let ghost prev = r@;
        if c.len() > 0 {
            let cs = string_of(&c);
            let n = owned(normalize(cs.as_str()));
            r.push(n);
            assert(string_seqs(r@) =~= string_seqs(prev).push(normalized(c@)));
        }
        assert(string_seqs(r@) =~= codes_in(pv.take(i + 1)));
    }
    assert(pv.take(ps.len() as int) =~= pv);
    r
}

/// The codes of `codes` that are not accepted, in order.
pub fn find_invalid_codes(codes: &Vec<String>) -> (r: Vec<String>)
    ensures
        string_seqs(r@) == invalid_codes(string_seqs(codes@)),
{
    let ghost cv = string_seqs(codes@);
    let mut r: Vec<String> = Vec::new();
    for i in 0..codes.len()
        invariant
            cv == string_seqs(codes@),
            string_seqs(r@) == invalid_codes(cv.take(i as int)),
    {
        assert(cv.take(i + 1).drop_last() =~= cv.take(i as int));
        assert(cv.take(i + 1).last() == codes@[i as int]@);
        let ghost prev = r@;
        if !is_valid(codes[i].as_str()) {
            r.push(codes[i].clone());
            assert(string_seqs(r@) =~= string_seqs(prev).push(codes@[i as int]@));
        }
        assert(string_seqs(r@) =~= invalid_codes(cv.take(i + 1)));
    }
    assert(cv.take(codes.len() as int) =~= cv);
    r
}

/// `/lang`: sets the chat's target languages.
pub fn cmd_set_language(
    config: &BotConfig,
    targets: &mut TranslationTargets,
    chat_id: i64,
    is_group: bool,
    args: &Vec<String>,
    sender_id: i64,
) -> (r: CommandAction)
    ensures
        (final(targets)@, r@) == language_step(
            config.admin_user_ids@,
            old(targets)@,
            chat_id,
            is_group,
            string_seqs(args@),
            sender_id,
        ),
{
    match refusal_of(config, is_group, sender_id) {
        Some(t) => {
            return CommandAction::Reply { text: t, save: false };
        },
        None => {},
    }
    let input = join_strings(args, " ");
    if input.len() == 0 {
        return reply(chars_of(LANG_USAGE), false);
    }
    let codes = parse_language_codes(&input);
    let bad = find_invalid_codes(&codes);
    if bad.len() > 0 {
        let mut text = chars_of("Invalid language code(s): `");
        extend_chars(&mut text, &join_strings(&bad, ", "));
        extend_str(&mut text, "`. Please use 2-letter ISO 639-1 codes (e.g., en, es, fr, de, uk).");
        return reply(text, false);
    }
    if codes.len() == 0 {
        return reply(chars_of(NO_VALID_CODES), false);
    }
    let mut text = chars_of("Target language(s) set to `");
    extend_chars(&mut text, &join_strings(&codes, ", "));
    extend_str(&mut text, "`.");
    targets.set_target_languages(chat_id, codes);
    reply(text, true)
}

/// What a command does: the settings after it and what the caller is to do
/// next. `sender` is the id of the sending user, `None` when the sender is
/// not a user (such commands are ignored); `replied` is the id of the user
/// who sent the message that the command replies to, if any.
pub open spec fn command_outcome(
    prefix: Seq<char>,
    admins: Seq<i64>,
    default_language: Seq<char>,
    pre: Map<i64, GroupView>,
    chat_id: i64,
    is_group: bool,
    sender: Option<i64>,
    replied: Option<i64>,
    text: Seq<char>,
    post: Map<i64, GroupView>,
    action: ActionView,
) -> bool {
    let (name, args) = command_of(prefix, text);
    match sender {
        None => post == pre && action == ActionView::Ignore,
        Some(user) => match command_kind(name) {
            CommandKind::Help => post == pre && action == ActionView::Reply(HELP_TEXT@, false),
            CommandKind::TranslateUser => (post, action) == user_command_step(
                UserCommand::Translate,
                admins,
                pre,
                chat_id,
                is_group,
                args,
                replied,
                user,
            ),
            CommandKind::UntranslateUser => (post, action) == user_command_step(
                UserCommand::Untranslate,
                admins,
                pre,
                chat_id,
                is_group,
                args,
                replied,
                user,
            ),
            CommandKind::List => post == pre && lists_users(pre, chat_id, default_language, action),
            CommandKind::Language => (post, action) == language_step(
                admins,
                pre,
                chat_id,
                is_group,
                args,
                user,
            ),
            CommandKind::Status => post == pre && action == ActionView::Reply(
                status_text(pre, chat_id, default_language),
                false,
            ),
            CommandKind::Enable => (post, action) == enable_step(
                admins,
                pre,
                chat_id,
                is_group,
                user,
                true,
            ),
            CommandKind::Disable => (post, action) == enable_step(
                admins,
                pre,
                chat_id,
                is_group,
                user,
                false,
            ),
            CommandKind::Unknown => post == pre && action == ActionView::Ignore,
        },
    }
}

/// Handles a command message in chat `chat_id`; `replied` is the user who
/// sent the message that the command replies to, if any.
pub fn handle_command(
    config: &BotConfig,
    default_language: &str,
    targets: &mut TranslationTargets,
    chat_id: i64,
    is_group: bool,
    sender: Option<i64>,
    replied: Option<i64>,
    text: &str,
) -> (r: CommandAction)
    ensures
        command_outcome(
            config.command_prefix@,
            config.admin_user_ids@,
            default_language@,
            old(targets)@,
            chat_id,
            is_group,
            sender,
            replied,
            text@,
            final(targets)@,
            r@,
        ),
{
    let command = parse_command(config, text);
    let sender_id = match sender {
        Some(id) => id,
        None => {
            return CommandAction::Ignore;
        },
    };
    match kind_of(command.name.as_str()) {
        CommandKind::Help => cmd_help(),
        CommandKind::TranslateUser => cmd_translate_user(
            config,
            targets,
            chat_id,
            is_group,
            &command.args,
            replied,
            sender_id,
        ),
        CommandKind::UntranslateUser => cmd_untranslate_user(
            config,
            targets,
            chat_id,
            is_group,
            &command.args,
            replied,
            sender_id,
        ),
        CommandKind::List => cmd_list_users(targets, chat_id, default_language),
        CommandKind::Language => cmd_set_language(
            config,
            targets,
            chat_id,
            is_group,
            &command.args,
            sender_id,
        ),
        CommandKind::Status => cmd_status(targets, chat_id, default_language),
        CommandKind::Enable => cmd_enable(config, targets, chat_id, is_group, sender_id, true),
        CommandKind::Disable => cmd_enable(config, targets, chat_id, is_group, sender_id, false),
        CommandKind::Unknown => CommandAction::Ignore,
    }
}

} // verus!
