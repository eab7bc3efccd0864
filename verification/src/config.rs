//! Configuration of the bot and the per-group translation settings.
//!
//! Reading files and the process environment happens outside this library:
//! the functions here take what was read and decide what it means.
use std::collections::HashMap;
use std::collections::HashSet;
use vstd::prelude::*;

use crate::text::{
    chars_eq, chars_of, lowercase, lowercase_chars, parse_i32, parse_i64, parsed_i32, parsed_i64,
    pieces, split_chars, string_of, trim_chars, trimmed, owned, string_seqs, Separator,
};

verus! {

broadcast use vstd::std_specs::hash::group_hash_axioms;

// ---------------------------------------------------------------------------
// Static configuration
// ---------------------------------------------------------------------------

/// Main configuration of the bot.
#[derive(Debug, Clone)]
pub struct Config {
    /// Telegram API configuration.
    pub telegram: TelegramConfig,
    /// Translation service configuration.
    pub translation: TranslationConfig,
    /// Bot behaviour settings.
    pub bot: BotConfig,
}

/// Telegram API credentials.
#[derive(Debug, Clone)]
pub struct TelegramConfig {
    /// API id from my.telegram.org.
    pub api_id: i32,
    /// API hash from my.telegram.org.
    pub api_hash: String,
    /// Bot token from @BotFather (bot mode).
    pub bot_token: Option<String>,
    /// Phone number (user mode).
    pub phone_number: Option<String>,
    /// Session file path.
    pub session_file: String,
}

/// Translation service configuration.
#[derive(Debug, Clone)]
pub struct TranslationConfig {
    /// Which translation service to use.
    pub provider: TranslationProvider,
    /// API key for the translation service.
    pub api_key: Option<String>,
    /// API endpoint URL (for self-hosted services).
    pub api_url: Option<String>,
    /// Target language when a group has chosen none.
    pub default_target_language: String,
}

/// The characters of an optional string.
pub open spec fn opt_chars(o: Option<String>) -> Option<Seq<char>> {
    match o {
        Some(s) => Some(s@),
        None => None,
    }
}

/// The abstract content of a translation service configuration.
pub struct TranslationConfigView {
    pub provider: TranslationProvider,
    pub api_key: Option<Seq<char>>,
    pub api_url: Option<Seq<char>>,
    pub default_target_language: Seq<char>,
}

impl View for TranslationConfig {
    type V = TranslationConfigView;

    open spec fn view(&self) -> TranslationConfigView {
        TranslationConfigView {
            provider: self.provider,
            api_key: opt_chars(self.api_key),
            api_url: opt_chars(self.api_url),
            default_target_language: self.default_target_language@,
        }
    }
}

/// The supported translation services.
#[derive(Debug, Clone, Copy, PartialEq, Eq, Structural)]
pub enum TranslationProvider {
    DeepL,
    Google,
    LibreTranslate,
    MyMemory,
}

/// Bot behaviour configuration.
#[derive(Debug, Clone)]
pub struct BotConfig {
    /// Prefix that marks a message as a command.
    pub command_prefix: String,
    /// Whether to show the original message alongside the translation.
    pub show_original: bool,
    /// Users who may change the translation settings.
    pub admin_user_ids: Vec<i64>,
    /// Template of a reply that carries one translation.
    pub reply_format: String,
}

/// The reply template used when none is configured.
pub open spec fn default_reply_format_text() -> Seq<char> {
    "🌐 **Translation** ({source_lang} → {target_lang}):\n{translation}"@
}

/// Default session file path.
pub fn default_session_path() -> (r: String)
    ensures
        r@ == "bot.session"@,
{
    owned("bot.session")
}

/// Default translation provider: LibreTranslate, the documented default.
pub fn default_provider() -> (r: TranslationProvider)
    ensures
        r == TranslationProvider::LibreTranslate,
{
    TranslationProvider::LibreTranslate
}

/// Default target language.
pub fn default_target_language() -> (r: String)
    ensures
        r@ == "en"@,
{
    owned("en")
}

/// Default command prefix.
pub fn default_command_prefix() -> (r: String)
    ensures
        r@ == "/"@,
{
    owned("/")
}

/// By default the original message is not repeated.
pub fn default_show_original() -> (r: bool)
    ensures
        r == false,
{
    false
}

/// Default reply template.
pub fn default_reply_format() -> (r: String)
    ensures
        r@ == default_reply_format_text(),
{
    owned("🌐 **Translation** ({source_lang} → {target_lang}):\n{translation}")
}

/// Translation is on in a group unless it was switched off.
pub fn default_enabled() -> (r: bool)
    ensures
        r == true,
{
    true
}

impl Default for BotConfig {
    fn default() -> (r: Self)
        ensures
            r.command_prefix@ == "/"@,
            r.show_original == false,
            r.admin_user_ids@ == Seq::<i64>::empty(),
            r.reply_format@ == default_reply_format_text(),
    {
        BotConfig {
            command_prefix: default_command_prefix(),
            show_original: default_show_original(),
            admin_user_ids: Vec::new(),
            reply_format: default_reply_format(),
        }
    }
}

// ---------------------------------------------------------------------------
// Per-group translation settings
// ---------------------------------------------------------------------------

/// Per-group translation configuration.
#[derive(Debug)]
pub struct GroupTranslationConfig {
    /// Users whose messages should be translated.
    pub users: HashSet<i64>,
    /// Target languages for this group (overrides the default).
    pub target_languages: Vec<String>,
    /// Whether translation is enabled for this group.
    pub enabled: bool,
}

/// The abstract state of one group's settings.
pub struct GroupView {
    pub users: Set<i64>,
    pub target_languages: Seq<Seq<char>>,
    pub enabled: bool,
}

impl View for GroupTranslationConfig {
    type V = GroupView;

    open spec fn view(&self) -> GroupView {
        GroupView {
            users: self.users@,
            target_languages: string_seqs(self.target_languages@),
            enabled: self.enabled,
        }
    }
}

impl Clone for GroupTranslationConfig {
    fn clone(&self) -> (r: Self)
        ensures
            r@ == self@,
    {
        let mut users: HashSet<i64> = HashSet::new();
        for u in it: self.users.iter()
            invariant
                it.seq().unref().to_set() == self.users@,
                users@ == it.seq().take(it.index() as int).unref().to_set(),
                it.index() == it.seq().len() ==> users@ == self.users@,
        {
            let ghost before = users@;
            users.insert(*u);
            proof {
                assert(it.seq().take(it.index() + 1).unref() =~= it.seq().take(
                    it.index() as int,
                ).unref().push(*u));
                it.seq().take(it.index() as int).unref().lemma_push_to_set_commute(*u);
                assert(it.seq().take(it.seq().len() as int) =~= it.seq());
            }
        }
        GroupTranslationConfig {
            users,
            target_languages: copy_strings(&self.target_languages),
            enabled: self.enabled,
        }
    }
}

impl Default for GroupTranslationConfig {
    fn default() -> (r: Self)
        ensures
            r@.users == Set::<i64>::empty(),
            r@.target_languages == Seq::<Seq<char>>::empty(),
            r@.enabled == false,
    {
        let r = GroupTranslationConfig {
            users: HashSet::new(),
            target_languages: Vec::new(),
            enabled: false,
        };
        assert(r@.target_languages =~= Seq::<Seq<char>>::empty());
        r
    }
}

/// Runtime state: which users are translated in which group.
#[derive(Debug, Clone)]
pub struct TranslationTargets {
    /// Group id -> that group's settings.
    pub groups: HashMap<i64, GroupTranslationConfig>,
}

impl View for TranslationTargets {
    type V = Map<i64, GroupView>;

    open spec fn view(&self) -> Map<i64, GroupView> {
        self.groups@.map_values(|g: GroupTranslationConfig| g@)
    }
}

impl Default for TranslationTargets {
    fn default() -> (r: Self)
        ensures
            r@ == Map::<i64, GroupView>::empty(),
    {
        let r = TranslationTargets { groups: HashMap::new() };
        assert(r@ =~= Map::<i64, GroupView>::empty());
        r
    }
}

/// The settings a group gets when it is first configured: no users, no
/// languages of its own, translation enabled.
pub open spec fn fresh_group() -> GroupView {
    GroupView { users: Set::empty(), target_languages: Seq::empty(), enabled: true }
}

/// The settings of `group_id`, or those of a freshly configured group.
pub open spec fn group_or_fresh(m: Map<i64, GroupView>, group_id: i64) -> GroupView {
    if m.contains_key(group_id) {
        m[group_id]
    } else {
        fresh_group()
    }
}

/// Whether messages of `user_id` in `group_id` are to be translated.
pub open spec fn translates(m: Map<i64, GroupView>, group_id: i64, user_id: i64) -> bool {
    m.contains_key(group_id) && m[group_id].enabled && m[group_id].users.contains(user_id)
}

/// The target languages of a group: its own, or the default when it has none.
pub open spec fn languages_for(
    m: Map<i64, GroupView>,
    group_id: i64,
    default: Seq<char>,
) -> Seq<Seq<char>> {
    if m.contains_key(group_id) && m[group_id].target_languages.len() > 0 {
        m[group_id].target_languages
    } else {
        seq![default]
    }
}

/// The users translated in a group (none if the group is unknown).
pub open spec fn users_of(m: Map<i64, GroupView>, group_id: i64) -> Set<i64> {
    if m.contains_key(group_id) {
        m[group_id].users
    } else {
        Set::empty()
    }
}

/// The state after `user_id` is added to `group_id`.
pub open spec fn with_user_added(m: Map<i64, GroupView>, group_id: i64, user_id: i64) -> Map<
    i64,
    GroupView,
> {
    let g = group_or_fresh(m, group_id);
    m.insert(group_id, GroupView { users: g.users.insert(user_id), ..g })
}

/// The state after `user_id` is removed from `group_id` (unchanged if the
/// group is unknown).
pub open spec fn with_user_removed(m: Map<i64, GroupView>, group_id: i64, user_id: i64) -> Map<
    i64,
    GroupView,
> {
    if m.contains_key(group_id) {
        m.insert(group_id, GroupView { users: m[group_id].users.remove(user_id), ..m[group_id] })
    } else {
        m
    }
}

/// The state after the target languages of `group_id` are set.
pub open spec fn with_languages(
    m: Map<i64, GroupView>,
    group_id: i64,
    languages: Seq<Seq<char>>,
) -> Map<i64, GroupView> {
    let g = group_or_fresh(m, group_id);
    m.insert(group_id, GroupView { target_languages: languages, ..g })
}

/// The state after translation is switched on or off in `group_id`
/// (unchanged if the group is unknown).
pub open spec fn with_enabled(m: Map<i64, GroupView>, group_id: i64, enabled: bool) -> Map<
    i64,
    GroupView,
> {
    if m.contains_key(group_id) {
        m.insert(group_id, GroupView { enabled: enabled, ..m[group_id] })
    } else {
        m
    }
}

/// The state after translation is switched on or off in `group_id`, the
/// group being stored (as a freshly configured one, if unknown) with its
/// users and languages kept.
pub open spec fn with_switched(m: Map<i64, GroupView>, group_id: i64, enabled: bool) -> Map<
    i64,
    GroupView,
> {
    let g = group_or_fresh(m, group_id);
    m.insert(group_id, GroupView { enabled: enabled, ..g })
}

/// A copy of a vector of strings.
pub fn copy_strings(v: &Vec<String>) -> (r: Vec<String>)
    ensures
        string_seqs(r@) == string_seqs(v@),
{
    let mut r: Vec<String> = Vec::new();
    for i in 0..v.len()
        invariant
            string_seqs(r@) == string_seqs(v@).take(i as int),
    {
        let s = v[i].clone();
        let ghost prev = r@;
        r.push(s);
        assert(string_seqs(r@) =~= string_seqs(prev).push(v@[i as int]@));
        assert(string_seqs(v@).take(i + 1) =~= string_seqs(v@).take(i as int).push(v@[i as int]@));
    }
    assert(string_seqs(v@).take(v.len() as int) =~= string_seqs(v@));
    r
}

impl TranslationTargets {
    /// Takes the settings of `group_id` out of the map, or makes fresh ones.
    fn take_group(&mut self, group_id: i64) -> (g: GroupTranslationConfig)
        ensures
            g@ == group_or_fresh(old(self)@, group_id),
            final(self)@ == old(self)@.remove(group_id),
    {
        let g = match self.groups.remove(&group_id) {
            Some(g) => g,
            None => {
                let mut g = GroupTranslationConfig::default();
                g.enabled = true;
                assert(g@ == fresh_group());
                g
            },
        };
        assert(self@ =~= old(self)@.remove(group_id));
        g
    }

    /// Puts settings back under `group_id`.
    fn put_group(&mut self, group_id: i64, g: GroupTranslationConfig)
        ensures
            final(self)@ == old(self)@.insert(group_id, g@),
    {
        let ghost gv = g@;
        self.groups.insert(group_id, g);
        assert(self@ =~= old(self)@.insert(group_id, gv));
    }

    /// Whether messages of `user_id` in `group_id` should be translated.
    pub fn should_translate(&self, group_id: i64, user_id: i64) -> (r: bool)
        ensures
            r == translates(self@, group_id, user_id),
    {
        match self.groups.get(&group_id) {
            Some(g) => g.enabled && g.users.contains(&user_id),
            None => false,
        }
    }

    /// The target languages of a group: its own, or `[default]`.
    pub fn get_target_languages(&self, group_id: i64, default: &str) -> (r: Vec<String>)
        ensures
            string_seqs(r@) == languages_for(self@, group_id, default@),
    {
        match self.groups.get(&group_id) {
            Some(g) => {
                if g.target_languages.len() == 0 {
                    let mut r: Vec<String> = Vec::new();
                    r.push(owned(default));
                    assert(string_seqs(r@) =~= seq![default@]);
                    r
                } else {
                    copy_strings(&g.target_languages)
                }
            },
            None => {
                let mut r: Vec<String> = Vec::new();
                r.push(owned(default));
                assert(string_seqs(r@) =~= seq![default@]);
                r
            },
        }
    }

    /// Adds a user to translate in a group; an unknown group is created
    /// with translation enabled.
    pub fn add_user(&mut self, group_id: i64, user_id: i64)
        ensures
            final(self)@ == with_user_added(old(self)@, group_id, user_id),
    {
        let mut g = self.take_group(group_id);
        g.users.insert(user_id);
        self.put_group(group_id, g);
        assert(self@ =~= with_user_added(old(self)@, group_id, user_id));
    }

    /// Removes a user from translation in a group; tells whether the user
    /// was being translated there.
    pub fn remove_user(&mut self, group_id: i64, user_id: i64) -> (r: bool)
        ensures
            r == users_of(old(self)@, group_id).contains(user_id),
            final(self)@ == with_user_removed(old(self)@, group_id, user_id),
    {
        if !self.groups.contains_key(&group_id) {
            return false;
        }
        let mut g = self.take_group(group_id);
        let r = g.users.remove(&user_id);
        self.put_group(group_id, g);
        assert(self@ =~= with_user_removed(old(self)@, group_id, user_id));
        r
    }

    /// Sets the target languages of a group; an unknown group is created
    /// with translation enabled.
    pub fn set_target_languages(&mut self, group_id: i64, languages: Vec<String>)
        ensures
            final(self)@ == with_languages(old(self)@, group_id, string_seqs(languages@)),
    {
        let mut g = self.take_group(group_id);
        g.target_languages = languages;
        self.put_group(group_id, g);
        assert(self@ =~= with_languages(old(self)@, group_id, string_seqs(languages@)));
    }

    /// Switches translation on or off in a known group; an unknown group is
    /// left alone.
    pub fn set_enabled(&mut self, group_id: i64, enabled: bool)
        ensures
            final(self)@ == with_enabled(old(self)@, group_id, enabled),
    {
        if !self.groups.contains_key(&group_id) {
            return ;
        }
        let mut g = self.take_group(group_id);
        g.enabled = enabled;
        self.put_group(group_id, g);
        assert(self@ =~= with_enabled(old(self)@, group_id, enabled));
    }

    /// Switches translation on or off in a group; an unknown group is stored
    /// as a freshly configured one with the flag set.
    pub fn switch_translation(&mut self, group_id: i64, enabled: bool)
        ensures
            final(self)@ == with_switched(old(self)@, group_id, enabled),
    {
        let mut g = self.take_group(group_id);
        g.enabled = enabled;
        self.put_group(group_id, g);
        assert(self@ =~= with_switched(old(self)@, group_id, enabled));
    }

    /// The users translated in a group, each once, in the order in which the
    /// group's set yields them.
    pub fn list_users(&self, group_id: i64) -> (r: Vec<i64>)
        ensures
            r@.no_duplicates(),
            r@.to_set() == users_of(self@, group_id),
            r@.len() == users_of(self@, group_id).len(),
    {
        match self.groups.get(&group_id) {
            Some(g) => {
                let mut r: Vec<i64> = Vec::new();
                for u in it: g.users.iter()
                    invariant
                        it.seq().no_duplicates(),
                        it.seq().unref().to_set() == g.users@,
                        it.seq().len() == g.users@.len(),
                        r@ == it.seq().take(it.index() as int).unref(),
                        it.index() == it.seq().len() ==> r@ == it.seq().unref(),
                        it.index() == it.seq().len() ==> r@.no_duplicates(),
                {
                    r.push(*u);
                    proof {
                        assert(it.seq().take(it.seq().len() as int) =~= it.seq());
                        let m = it.seq().unref();
                        assert forall|i: int, j: int|
                            0 <= i < m.len() && 0 <= j < m.len() && i != j implies m[i] != m[j] by {
                            assert(it.seq()[i] != it.seq()[j]);
                        }
                    }
                }
                r
            },
            None => {
                let r: Vec<i64> = Vec::new();
                assert(r@.to_set() =~= Set::<i64>::empty());
                r
            },
        }
    }
}

// ---------------------------------------------------------------------------
// Loading the configuration
// ---------------------------------------------------------------------------

/// The environment variables that configure the bot; `None` where a
/// variable is unset (or not valid Unicode).
#[derive(Debug, Clone, Default)]
pub struct EnvVars {
    pub tg_api_id: Option<String>,
    pub tg_api_hash: Option<String>,
    pub tg_bot_token: Option<String>,
    pub tg_phone_number: Option<String>,
    pub tg_session_file: Option<String>,
    pub translation_provider: Option<String>,
    pub translation_api_key: Option<String>,
    pub translation_api_url: Option<String>,
    pub default_target_language: Option<String>,
    pub admin_user_ids: Option<String>,
}

/// Why no configuration could be loaded.
#[derive(Debug, Clone)]
pub enum ConfigError {
    /// `TG_API_ID` is not set.
    ApiIdMissing,
    /// `TG_API_ID` is not an `i32`.
    ApiIdInvalid,
    /// `TG_API_HASH` is not set.
    ApiHashMissing,
    /// The configuration file could not be read or parsed.
    File(String),
}

impl ConfigError {
    /// The text that describes the error.
    pub fn message(&self) -> (r: String)
        ensures
            r@ == match self {
                ConfigError::ApiIdMissing => "TG_API_ID environment variable not set"@,
                ConfigError::ApiIdInvalid => "TG_API_ID must be a valid integer"@,
                ConfigError::ApiHashMissing => "TG_API_HASH not set"@,
                ConfigError::File(m) => m@,
            },
    {
        match self {
            ConfigError::ApiIdMissing => owned("TG_API_ID environment variable not set"),
            ConfigError::ApiIdInvalid => owned("TG_API_ID must be a valid integer"),
            ConfigError::ApiHashMissing => owned("TG_API_HASH not set"),
            ConfigError::File(m) => m.clone(),
        }
    }
}

/// Where the configuration comes from: the outcome of reading and parsing
/// the configuration file when one exists, else the environment.
#[derive(Debug)]
pub enum ConfigSource {
    File(Result<Config, ConfigError>),
    Environment(EnvVars),
}

/// The provider that a (case-insensitive) name selects; unknown names
/// select MyMemory.
pub open spec fn provider_named(name: Seq<char>) -> TranslationProvider {
    let l = lowercase(name);
    if l == "deepl"@ {
        TranslationProvider::DeepL
    } else if l == "google"@ {
        TranslationProvider::Google
    } else if l == "libretranslate"@ {
        TranslationProvider::LibreTranslate
    } else {
        TranslationProvider::MyMemory
    }
}

/// The user ids in a list of pieces: each piece, trimmed, that parses as an
/// `i64`, in order; the others are skipped.
pub open spec fn parsed_ids(ps: Seq<Seq<char>>) -> Seq<i64>
    decreases ps.len(),
{
    if ps.len() == 0 {
        Seq::empty()
    } else {
        parsed_ids(ps.drop_last()) + match parsed_i64(trimmed(ps.last())) {
            Some(v) => seq![v as i64],
            None => Seq::empty(),
        }
    }
}

/// The admin ids listed in a comma-separated text.
pub open spec fn admin_ids(list: Seq<char>) -> Seq<i64> {
    parsed_ids(pieces(list, Separator::Comma))
}

/// The API id that the environment gives, if it is set and an `i32`.
pub open spec fn env_api_id(env: EnvVars) -> Option<int> {
    match env.tg_api_id {
        Some(s) => parsed_i32(s@),
        None => None,
    }
}

/// `o`'s characters, or `d` when absent.
pub open spec fn chars_or_default(o: Option<String>, d: Seq<char>) -> Seq<char> {
    match o {
        Some(s) => s@,
        None => d,
    }
}

/// What configuring from the environment `env` gives.
pub open spec fn from_env_outcome(env: EnvVars, r: Result<Config, ConfigError>) -> bool {
    &&& (r is Ok) == (env_api_id(env) is Some && env.tg_api_hash is Some)
    &&& r matches Err(e) ==> {
        &&& env.tg_api_id is None ==> e is ApiIdMissing
        &&& env.tg_api_id is Some && env_api_id(env) is None ==> e is ApiIdInvalid
        &&& env_api_id(env) is Some ==> e is ApiHashMissing
    }
    &&& r matches Ok(c) ==> {
        &&& c.telegram.api_id as int == env_api_id(env)->0
        &&& c.telegram.api_hash@ == env.tg_api_hash->0@
        &&& opt_chars(c.telegram.bot_token) == opt_chars(env.tg_bot_token)
        &&& opt_chars(c.telegram.phone_number) == opt_chars(env.tg_phone_number)
        &&& c.telegram.session_file@ == chars_or_default(env.tg_session_file, "bot.session"@)
        &&& c.translation.provider == match env.translation_provider {
            Some(name) => provider_named(name@),
            None => TranslationProvider::LibreTranslate,
        }
        &&& opt_chars(c.translation.api_key) == opt_chars(env.translation_api_key)
        &&& opt_chars(c.translation.api_url) == opt_chars(env.translation_api_url)
        &&& c.translation.default_target_language@ == chars_or_default(
            env.default_target_language,
            "en"@,
        )
        &&& c.bot.command_prefix@ == "/"@
        &&& c.bot.show_original == false
        &&& c.bot.admin_user_ids@ == admin_ids(chars_or_default(env.admin_user_ids, Seq::empty()))
        &&& c.bot.reply_format@ == default_reply_format_text()
    }
}

impl TranslationProvider {
    /// The provider that a (case-insensitive) name selects; unknown names
    /// select MyMemory.
    pub fn from_name(name: &str) -> (r: TranslationProvider)
        ensures
            r == provider_named(name@),
    {
        let l = lowercase_chars(&chars_of(name));
        if chars_eq(&l, &chars_of("deepl")) {
            TranslationProvider::DeepL
        } else if chars_eq(&l, &chars_of("google")) {
            TranslationProvider::Google
        } else if chars_eq(&l, &chars_of("libretranslate")) {
            TranslationProvider::LibreTranslate
        } else {
            TranslationProvider::MyMemory
        }
    }
}

/// The user ids listed, comma-separated, in `list`; entries that are not
/// integers (after trimming) are skipped.
pub fn parse_admin_user_ids(list: &str) -> (r: Vec<i64>)
    ensures
        r@ == admin_ids(list@),
{
    let ps = split_chars(&chars_of(list), Separator::Comma);
    let ghost pv = crate::text::char_seqs(ps@);
    let mut r: Vec<i64> = Vec::new();
    for i in 0..ps.len()
        invariant
            pv == crate::text::char_seqs(ps@),
            pv == pieces(list@, Separator::Comma),
            r@ == parsed_ids(pv.take(i as int)),
    {
        assert(pv.take(i + 1).drop_last() =~= pv.take(i as int));
        assert(pv.take(i + 1).last() == ps@[i as int]@);
        let t = trim_chars(&ps[i]);
        match parse_i64(&t) {
            Some(v) => {
                r.push(v);
            },
            None => {},
        }
        assert(r@ =~= parsed_ids(pv.take(i + 1)));
    }
    assert(pv.take(ps.len() as int) =~= pv);
    r
}

fn string_or(o: Option<String>, d: &str) -> (r: String)
    ensures
        r@ == chars_or_default(o, d@),
{
    match o {
        Some(s) => s,
        None => owned(d),
    }
}

impl Config {
    /// The configuration that the environment describes.
    pub fn from_env(env: EnvVars) -> (r: Result<Config, ConfigError>)
        ensures
            from_env_outcome(env, r),
    {
        let ghost e = env;
        let api_id = match &env.tg_api_id {
            None => {
                return Err(ConfigError::ApiIdMissing);
            },
            Some(s) => match parse_i32(&chars_of(s.as_str())) {
                Some(v) => v,
                None => {
                    return Err(ConfigError::ApiIdInvalid);
                },
            },
        };
        let EnvVars {
            tg_api_id: _,
            tg_api_hash,
            tg_bot_token,
            tg_phone_number,
            tg_session_file,
            translation_provider,
            translation_api_key,
            translation_api_url,
            default_target_language,
            admin_user_ids,
        } = env;
        let api_hash = match tg_api_hash {
            Some(h) => h,
            None => {
                return Err(ConfigError::ApiHashMissing);
            },
        };
        let provider = match translation_provider {
            Some(name) => TranslationProvider::from_name(name.as_str()),
            None => default_provider(),
        };
        let ids_text = string_or(admin_user_ids, "");
        let admin_ids_parsed = parse_admin_user_ids(ids_text.as_str());
        let defaults = BotConfig::default();
        let c = Config {
            telegram: TelegramConfig {
                api_id,
                api_hash,
                bot_token: tg_bot_token,
                phone_number: tg_phone_number,
                session_file: string_or(tg_session_file, "bot.session"),
            },
            translation: TranslationConfig {
                provider,
                api_key: translation_api_key,
                api_url: translation_api_url,
                default_target_language: string_or(default_target_language, "en"),
            },
            bot: BotConfig { admin_user_ids: admin_ids_parsed, ..defaults },
        };
        assert(""@ =~= Seq::<char>::empty()) by {
            reveal_strlit("");
        }
        Ok(c)
    }

    /// The configuration from the given source: the outcome of the file
    /// when there is one, else the environment's.
    pub fn load(source: ConfigSource) -> (r: Result<Config, ConfigError>)
        ensures
            match source {
                ConfigSource::File(f) => r == f,
                ConfigSource::Environment(env) => from_env_outcome(env, r),
            },
    {
        match source {
            ConfigSource::File(f) => f,
            ConfigSource::Environment(env) => Config::from_env(env),
        }
    }
}

} // verus!
