//! Properties that hold across the library's operations.
use vstd::prelude::*;

use crate::bot::{
    about_user, codes_in, command_kind, command_of, command_outcome, gathered, invalid_codes,
    language_codes, language_step, reference_of, reply_for, route, without_at, ActionView,
    CommandKind, ReferenceView, RouteView,
};
use crate::config::{
    group_or_fresh, languages_for, translates, users_of, with_enabled, with_languages,
    with_switched, with_user_added, with_user_removed, GroupView,
};
use crate::text::{
    all_digits, decimal, digit_char, digits_value, has_prefix, int_text, is_digit, joined, lowercase,
    lemma_pieces_nonempty, parsed_i64, pieces, sign_len, spelled_int, trimmed, Separator,
};
use crate::translator::languages::{normalized, valid_codes};
use crate::translator::{
    or_else, percent_encoded, planned_request, BodyView, HttpMethod, ResultView,
};
use crate::config::{TranslationConfigView, TranslationProvider};
use crate::bot::without_prefix;
use crate::text::{has_suffix, occurs_at, separates, uppercase, words};
use crate::bot::{formatted, list_text, lists_users, status_text, NO_USERS};
use vstd::utf8::encode_utf8;

verus! {

/// Only an admin, in a group, can change the translation settings: any
/// other command leaves them as they were, and only such a command asks for
/// a username to be looked up.
pub proof fn only_admins_change_settings(
    prefix: Seq<char>,
    admins: Seq<i64>,
    default_language: Seq<char>,
    pre: Map<i64, GroupView>,
    chat_id: i64,
    is_group: bool,
    sender: Option<i64>,
    replied: Option<i64>,
    text: Seq<char>,
    post: Map<i64, GroupView>,
    action: ActionView,
)
    requires
        command_outcome(
            prefix,
            admins,
            default_language,
            pre,
            chat_id,
            is_group,
            sender,
            replied,
            text,
            post,
            action,
        ),
        !(is_group && sender is Some && admins.contains(sender->0)),
    ensures
        post == pre,
        !(action is ResolveUser),
{
}

/// A command only ever changes the settings of the chat it was sent in.
pub proof fn commands_touch_only_their_chat(
    prefix: Seq<char>,
    admins: Seq<i64>,
    default_language: Seq<char>,
    pre: Map<i64, GroupView>,
    chat_id: i64,
    is_group: bool,
    sender: Option<i64>,
    replied: Option<i64>,
    text: Seq<char>,
    post: Map<i64, GroupView>,
    action: ActionView,
    other: i64,
)
    requires
        command_outcome(
            prefix,
            admins,
            default_language,
            pre,
            chat_id,
            is_group,
            sender,
            replied,
            text,
            post,
            action,
        ),
        other != chat_id,
    ensures
        post.contains_key(other) == pre.contains_key(other),
        pre.contains_key(other) ==> post[other] == pre[other],
{
}

/// After a user is added to a group, that user's messages there are
/// translated unless translation is switched off in the group (a group
/// configured for the first time has it on).
pub proof fn added_user_is_translated(m: Map<i64, GroupView>, group_id: i64, user_id: i64)
    ensures
        translates(with_user_added(m, group_id, user_id), group_id, user_id) == group_or_fresh(
            m,
            group_id,
        ).enabled,
        translates(with_user_added(Map::empty(), group_id, user_id), group_id, user_id),
{
}

/// Removing a user who was added reports that the user was translated, and
/// afterwards that user's messages are not translated.
pub proof fn removing_an_added_user(m: Map<i64, GroupView>, group_id: i64, user_id: i64)
    ensures
        users_of(with_user_added(m, group_id, user_id), group_id).contains(user_id),
        !translates(
            with_user_removed(with_user_added(m, group_id, user_id), group_id, user_id),
            group_id,
            user_id,
        ),
{
}

/// Removing a user who is not translated in a group changes nothing.
pub proof fn removing_an_absent_user(m: Map<i64, GroupView>, group_id: i64, user_id: i64)
    requires
        !users_of(m, group_id).contains(user_id),
    ensures
        with_user_removed(m, group_id, user_id) == m,
{
    if m.contains_key(group_id) {
        let g = m[group_id];
        assert(g.users.remove(user_id) =~= g.users);
        assert(with_user_removed(m, group_id, user_id) =~= m);
    }
}

/// A group's target languages are those last set, when they are not empty;
/// a group without languages of its own uses the default; either way there
/// is at least one.
pub proof fn languages_read_back(
    m: Map<i64, GroupView>,
    group_id: i64,
    languages: Seq<Seq<char>>,
    default: Seq<char>,
)
    ensures
        languages.len() > 0 ==> languages_for(
            with_languages(m, group_id, languages),
            group_id,
            default,
        ) == languages,
        languages.len() == 0 ==> languages_for(
            with_languages(m, group_id, languages),
            group_id,
            default,
        ) == seq![default],
        languages_for(m, group_id, default).len() >= 1,
{
}

/// Once translation is switched off in a group, no message there is
/// translated; switching it on again translates the group's users.
pub proof fn disabled_groups_are_not_translated(
    m: Map<i64, GroupView>,
    group_id: i64,
    user_id: i64,
)
    ensures
        !translates(with_enabled(m, group_id, false), group_id, user_id),
        translates(with_enabled(m, group_id, true), group_id, user_id) == users_of(
            m,
            group_id,
        ).contains(user_id),
        !translates(with_switched(m, group_id, false), group_id, user_id),
        translates(with_switched(m, group_id, true), group_id, user_id) == users_of(
            m,
            group_id,
        ).contains(user_id),
{
}

/// Changing one group's settings leaves every other group as it was.
pub proof fn other_groups_unchanged(
    m: Map<i64, GroupView>,
    group_id: i64,
    other: i64,
    user_id: i64,
    languages: Seq<Seq<char>>,
    enabled: bool,
)
    requires
        other != group_id,
    ensures
        with_user_added(m, group_id, user_id).contains_key(other) == m.contains_key(other),
        with_user_removed(m, group_id, user_id).contains_key(other) == m.contains_key(other),
        with_languages(m, group_id, languages).contains_key(other) == m.contains_key(other),
        with_enabled(m, group_id, enabled).contains_key(other) == m.contains_key(other),
        with_switched(m, group_id, enabled).contains_key(other) == m.contains_key(other),
        m.contains_key(other) ==> {
            &&& with_user_added(m, group_id, user_id)[other] == m[other]
            &&& with_user_removed(m, group_id, user_id)[other] == m[other]
            &&& with_languages(m, group_id, languages)[other] == m[other]
            &&& with_enabled(m, group_id, enabled)[other] == m[other]
            &&& with_switched(m, group_id, enabled)[other] == m[other]
        },
{
}

/// Only non-command messages from translated users, in groups, are
/// translated, and always into at least one language: the group's own or
/// the default.
pub proof fn only_targeted_messages_are_translated(
    prefix: Seq<char>,
    m: Map<i64, GroupView>,
    default_language: Seq<char>,
    chat_id: i64,
    is_group: bool,
    sender: Option<i64>,
    replied: Option<i64>,
    text: Seq<char>,
)
    ensures
        route(prefix, m, default_language, chat_id, is_group, sender, text) matches RouteView::Translate(
            langs,
        ) ==> {
            &&& is_group
            &&& sender is Some
            &&& translates(m, chat_id, sender->0)
            &&& text.len() > 0
            &&& !crate::text::has_prefix(text, prefix)
            &&& langs == languages_for(m, chat_id, default_language)
            &&& langs.len() >= 1
        },
{
}

/// Normalizing a language code never leaves the alias `ua`, and normalizing
/// twice is normalizing once.
pub proof fn normalization_is_stable(code: Seq<char>)
    ensures
        normalized(code) != "ua"@,
        normalized(normalized(code)) == normalized(code),
{
    reveal_strlit("ua");
    reveal_strlit("uk");
    assert("uk"@[1] != "ua"@[1]);
}

proof fn lemma_decimal_spells(n: nat)
    ensures
        decimal(n).len() > 0,
        all_digits(decimal(n)),
        digits_value(decimal(n)) == n,
    decreases n,
{
    let s = decimal(n);
    assert(digit_char((n % 10) as int) as int == n % 10 + 48);
    if n < 10 {
        assert(s.drop_last() =~= Seq::<char>::empty());
        assert(digits_value(s.drop_last()) == 0);
    } else {
        lemma_decimal_spells(n / 10);
        let d = decimal(n / 10);
        assert(s.drop_last() =~= d);
        assert(n == (n / 10) * 10 + n % 10);
        assert forall|i: int| 0 <= i < s.len() implies is_digit(#[trigger] s[i]) by {
            if i < d.len() {
                assert(s[i] == d[i]);
            }
        }
    }
}

/// A user id as the bot writes it (in `/list`, and in its replies to
/// `/translate` and `/untranslate`) names that same user when it is given
/// back to `/translate` or `/untranslate`.
pub proof fn printed_ids_read_back(id: i64)
    ensures
        parsed_i64(int_text(id as int)) == Some(id as int),
        reference_of(int_text(id as int)) == ReferenceView::Id(id),
{
    let t = int_text(id as int);
    if id < 0 {
        let m = (-(id as int)) as nat;
        lemma_decimal_spells(m);
        assert(t.skip(1) =~= decimal(m));
        assert(sign_len(t) == 1);
        assert(spelled_int(t) == Some(id as int));
    } else {
        lemma_decimal_spells(id as nat);
        assert(is_digit(t[0]));
        assert(sign_len(t) == 0);
        assert(t.skip(0) =~= t);
        assert(spelled_int(t) == Some(id as int));
    }
    assert(without_at(t) == t);
}

proof fn lemma_codes_never_ua(ps: Seq<Seq<char>>)
    ensures
        !codes_in(ps).contains("ua"@),
    decreases ps.len(),
{
    if ps.len() > 0 {
        lemma_codes_never_ua(ps.drop_last());
        let c = lowercase(trimmed(ps.last()));
        normalization_is_stable(c);
        let prev = codes_in(ps.drop_last());
        if c.len() > 0 {
            assert(codes_in(ps) =~= prev.push(normalized(c)));
            assert forall|i: int| 0 <= i < codes_in(ps).len() implies codes_in(ps)[i] != "ua"@ by {
                if i < prev.len() {
                    assert(codes_in(ps)[i] == prev[i]);
                }
            }
        } else {
            assert(codes_in(ps) =~= prev);
        }
    }
}

proof fn lemma_no_invalid_codes(codes: Seq<Seq<char>>)
    requires
        invalid_codes(codes).len() == 0,
    ensures
        forall|i: int| 0 <= i < codes.len() ==> valid_codes().contains(#[trigger] codes[i]),
    decreases codes.len(),
{
    if codes.len() > 0 {
        lemma_no_invalid_codes(codes.drop_last());
        assert forall|i: int| 0 <= i < codes.len() implies valid_codes().contains(
            #[trigger] codes[i],
        ) by {
            if i < codes.len() - 1 {
                assert(codes[i] == codes.drop_last()[i]);
            }
        }
    }
}

/// `/lang` either leaves the settings as they were, or gives the chat a
/// non-empty list of accepted language codes (never the alias `ua`) and
/// asks for the settings to be saved; other chats are left alone.
pub proof fn lang_sets_only_accepted_codes(
    admins: Seq<i64>,
    pre: Map<i64, GroupView>,
    chat_id: i64,
    is_group: bool,
    args: Seq<Seq<char>>,
    sender_id: i64,
)
    ensures
        ({
            let (post, action) = language_step(admins, pre, chat_id, is_group, args, sender_id);
            match action {
                ActionView::Reply(_, saved) => if saved {
                    let langs = language_codes(joined(args, " "@));
                    &&& post == with_languages(pre, chat_id, langs)
                    &&& langs.len() > 0
                    &&& forall|i: int|
                        0 <= i < langs.len() ==> valid_codes().contains(#[trigger] langs[i])
                    &&& !langs.contains("ua"@)
                } else {
                    post == pre
                },
                _ => false,
            }
        }),
{
    let langs = language_codes(joined(args, " "@));
    lemma_codes_never_ua(pieces(joined(args, " "@), Separator::CommaOrSpace));
    if invalid_codes(langs).len() == 0 {
        lemma_no_invalid_codes(langs);
    }
}

/// Once an admin has asked, in a group, for a user named by id to be
/// translated, that user's messages there are translated (into the group's
/// languages) unless translation is switched off in the group; the admin is
/// told so and the settings are to be saved.
pub proof fn translate_command_takes_effect(
    prefix: Seq<char>,
    admins: Seq<i64>,
    default_language: Seq<char>,
    pre: Map<i64, GroupView>,
    chat_id: i64,
    admin: i64,
    replied: Option<i64>,
    text: Seq<char>,
    post: Map<i64, GroupView>,
    action: ActionView,
    user: i64,
    message: Seq<char>,
)
    requires
        command_outcome(
            prefix,
            admins,
            default_language,
            pre,
            chat_id,
            true,
            Some(admin),
            replied,
            text,
            post,
            action,
        ),
        admins.contains(admin),
        command_kind(command_of(prefix, text).0) == CommandKind::TranslateUser,
        command_of(prefix, text).1.len() > 0,
        reference_of(command_of(prefix, text).1[0]) == ReferenceView::Id(user),
        message.len() > 0,
        !has_prefix(message, prefix),
    ensures
        action == ActionView::Reply(about_user("Now translating messages from user `"@, user), true),
        group_or_fresh(pre, chat_id).enabled ==> route(
            prefix,
            post,
            default_language,
            chat_id,
            true,
            Some(user),
            message,
        ) == RouteView::Translate(languages_for(pre, chat_id, default_language)),
{
}

/// Once an admin has asked, in a group, for a user named by id no longer to
/// be translated, no message of that user there is translated.
pub proof fn untranslate_command_takes_effect(
    prefix: Seq<char>,
    admins: Seq<i64>,
    default_language: Seq<char>,
    pre: Map<i64, GroupView>,
    chat_id: i64,
    admin: i64,
    replied: Option<i64>,
    text: Seq<char>,
    post: Map<i64, GroupView>,
    action: ActionView,
    user: i64,
    message: Seq<char>,
)
    requires
        command_outcome(
            prefix,
            admins,
            default_language,
            pre,
            chat_id,
            true,
            Some(admin),
            replied,
            text,
            post,
            action,
        ),
        admins.contains(admin),
        command_kind(command_of(prefix, text).0) == CommandKind::UntranslateUser,
        command_of(prefix, text).1.len() > 0,
        reference_of(command_of(prefix, text).1[0]) == ReferenceView::Id(user),
    ensures
        !(route(prefix, post, default_language, chat_id, true, Some(user), message) is Translate),
{
}

/// Once an admin has sent `/enable` or `/disable` in a group, the group is
/// stored with translation switched accordingly, its users and languages
/// kept; the admin is told so and the settings are to be saved.
pub proof fn enable_command_takes_effect(
    prefix: Seq<char>,
    admins: Seq<i64>,
    default_language: Seq<char>,
    pre: Map<i64, GroupView>,
    chat_id: i64,
    admin: i64,
    replied: Option<i64>,
    text: Seq<char>,
    post: Map<i64, GroupView>,
    action: ActionView,
    enable: bool,
)
    requires
        command_outcome(
            prefix,
            admins,
            default_language,
            pre,
            chat_id,
            true,
            Some(admin),
            replied,
            text,
            post,
            action,
        ),
        admins.contains(admin),
        command_kind(command_of(prefix, text).0) == if enable {
            CommandKind::Enable
        } else {
            CommandKind::Disable
        },
    ensures
        post.contains_key(chat_id),
        post[chat_id].enabled == enable,
        post[chat_id].users == group_or_fresh(pre, chat_id).users,
        post[chat_id].target_languages == group_or_fresh(pre, chat_id).target_languages,
        action matches ActionView::Reply(_, saved) && saved,
{
}

/// Once an admin has replied, in a group, to a message of a user with
/// `/translate` or `/untranslate` and no argument, that user is added to or
/// removed from the chat's translated users.
pub proof fn reply_commands_name_the_replied_user(
    prefix: Seq<char>,
    admins: Seq<i64>,
    default_language: Seq<char>,
    pre: Map<i64, GroupView>,
    chat_id: i64,
    admin: i64,
    user: i64,
    text: Seq<char>,
    post: Map<i64, GroupView>,
    action: ActionView,
)
    requires
        command_outcome(
            prefix,
            admins,
            default_language,
            pre,
            chat_id,
            true,
            Some(admin),
            Some(user),
            text,
            post,
            action,
        ),
        admins.contains(admin),
        command_of(prefix, text).1.len() == 0,
    ensures
        command_kind(command_of(prefix, text).0) == CommandKind::TranslateUser ==> post
            == with_user_added(pre, chat_id, user),
        command_kind(command_of(prefix, text).0) == CommandKind::UntranslateUser ==> post
            == with_user_removed(pre, chat_id, user),
{
}

/// The source language that a translation reports (`auto` when none).
pub open spec fn reported_source(r: ResultView) -> Seq<char> {
    match r.detected_language {
        Some(l) => l,
        None => "auto"@,
    }
}

/// Whether the attempt into `langs[i]` gave a translation worth replying
/// with: it succeeded, and its target is not the source it reports.
pub open spec fn kept_attempt(langs: Seq<Seq<char>>, outs: Seq<Option<ResultView>>, i: int) -> bool {
    outs[i] matches Some(r) && reported_source(r) != langs[i]
}

proof fn lemma_gathered_step(langs: Seq<Seq<char>>, outs: Seq<Option<ResultView>>)
    requires
        langs.len() == outs.len(),
        langs.len() > 0,
    ensures
        gathered(langs, outs).0 == if kept_attempt(langs, outs, langs.len() - 1) {
            gathered(langs.drop_last(), outs.drop_last()).0.push(
                (langs.last(), outs.last()->0.text),
            )
        } else {
            gathered(langs.drop_last(), outs.drop_last()).0
        },
{
}

proof fn lemma_gathered(langs: Seq<Seq<char>>, outs: Seq<Option<ResultView>>)
    requires
        langs.len() == outs.len(),
    ensures
        forall|k: int|
            #![trigger gathered(langs, outs).0[k]]
            0 <= k < gathered(langs, outs).0.len() ==> exists|i: int|
                0 <= i < langs.len() && #[trigger] kept_attempt(langs, outs, i)
                    && gathered(langs, outs).0[k] == (langs[i], outs[i]->0.text),
        forall|i: int|
            0 <= i < langs.len() && #[trigger] kept_attempt(langs, outs, i) ==> exists|k: int|
                0 <= k < gathered(langs, outs).0.len() && gathered(langs, outs).0[k] == (
                    langs[i],
                    outs[i]->0.text,
                ),
    decreases langs.len(),
{
    if langs.len() == 0 {
        assert(gathered(langs, outs).0.len() == 0);
    } else {
        let l0 = langs.drop_last();
        let o0 = outs.drop_last();
        let n = langs.len() - 1;
        lemma_gathered(l0, o0);
        lemma_gathered_step(langs, outs);
        let ts0 = gathered(l0, o0).0;
        let ts = gathered(langs, outs).0;
        assert forall|k: int|
            #![trigger gathered(langs, outs).0[k]]
            0 <= k < gathered(langs, outs).0.len() implies exists|i: int|
                0 <= i < langs.len() && #[trigger] kept_attempt(langs, outs, i) && gathered(
                    langs,
                    outs,
                ).0[k] == (langs[i], outs[i]->0.text) by {
            if k < ts0.len() {
                assert(ts[k] == ts0[k]);
                let i = choose|i: int|
                    0 <= i < l0.len() && #[trigger] kept_attempt(l0, o0, i) && ts0[k] == (
                        l0[i],
                        o0[i]->0.text,
                    );
                assert(l0[i] == langs[i] && o0[i] == outs[i]);
                assert(kept_attempt(langs, outs, i));
            } else {
                assert(kept_attempt(langs, outs, n));
                assert(ts[k] == (langs[n], outs[n]->0.text));
            }
        }
        assert forall|i: int| 0 <= i < langs.len() && #[trigger] kept_attempt(
            langs,
            outs,
            i,
        ) implies exists|k: int| 0 <= k < ts.len() && ts[k] == (langs[i], outs[i]->0.text) by {
            if i < n {
                assert(l0[i] == langs[i] && o0[i] == outs[i]);
                assert(kept_attempt(l0, o0, i));
                let k = choose|k: int| 0 <= k < ts0.len() && ts0[k] == (l0[i], o0[i]->0.text);
                assert(ts[k] == ts0[k]);
            } else {
                assert(ts[ts0.len() as int] == (langs[i], outs[i]->0.text));
            }
        }
    }
}

/// Attempts that failed, and those into the language the translation
/// reports as its source, are left out of the reply to a translated message;
/// every other attempt is in it; and when no attempt is left there is no
/// reply at all.
pub proof fn replies_skip_failed_and_same_language(
    template: Seq<char>,
    langs: Seq<Seq<char>>,
    outs: Seq<Option<ResultView>>,
)
    requires
        langs.len() == outs.len(),
    ensures
        reply_for(template, langs, outs) is None <==> forall|i: int|
            0 <= i < langs.len() ==> !#[trigger] kept_attempt(langs, outs, i),
        forall|k: int|
            #![trigger gathered(langs, outs).0[k]]
            0 <= k < gathered(langs, outs).0.len() ==> exists|i: int|
                0 <= i < langs.len() && #[trigger] kept_attempt(langs, outs, i)
                    && gathered(langs, outs).0[k] == (langs[i], outs[i]->0.text),
        forall|i: int|
            0 <= i < langs.len() && #[trigger] kept_attempt(langs, outs, i) ==> exists|k: int|
                0 <= k < gathered(langs, outs).0.len() && gathered(langs, outs).0[k] == (
                    langs[i],
                    outs[i]->0.text,
                ),
{
    lemma_gathered(langs, outs);
    let ts = gathered(langs, outs).0;
    if ts.len() > 0 {
        let i = choose|i: int|
            0 <= i < langs.len() && #[trigger] kept_attempt(langs, outs, i) && ts[0] == (
                langs[i],
                outs[i]->0.text,
            );
        assert(kept_attempt(langs, outs, i));
    }
}

/// The arguments of a command are all the words after the command word, in
/// order, however many there are.
pub proof fn command_arguments_are_the_remaining_words(prefix: Seq<char>, text: Seq<char>)
    ensures
        ({
            let w = words(without_prefix(text, prefix));
            let args = command_of(prefix, text).1;
            &&& w.len() == 0 ==> args.len() == 0
            &&& w.len() > 0 ==> args.len() + 1 == w.len()
            &&& forall|i: int| 0 <= i < args.len() ==> #[trigger] args[i] == w[i + 1]
        }),
{
}

/// A request carries the text and the languages it was asked for: the text
/// to translate, the target language, and the named source language (or the
/// service's default when none is named) each appear in it as the service
/// expects them; DeepL is refused only for want of an API key.
pub proof fn requests_carry_text_and_languages(
    config: TranslationConfigView,
    text: Seq<char>,
    target: Seq<char>,
    source: Option<Seq<char>>,
)
    ensures
        (planned_request(config, text, target, source) is Err) <==> (config.provider
            == TranslationProvider::DeepL && config.api_key is None),
        planned_request(config, text, target, source) matches Ok(req) ==> {
            &&& has_prefix(
                req.url,
                or_else(
                    config.api_url,
                    match config.provider {
                        TranslationProvider::LibreTranslate => "https://libretranslate.com"@,
                        TranslationProvider::DeepL => if has_suffix(
                            config.api_key->0,
                            ":fx"@,
                        ) {
                            "https://api-free.deepl.com/v2"@
                        } else {
                            "https://api.deepl.com/v2"@
                        },
                        TranslationProvider::Google => "https://lingva.ml/api/v1"@,
                        TranslationProvider::MyMemory => "https://api.mymemory.translated.net"@,
                    },
                ),
            )
            &&& req.provider == config.provider
            &&& req.source_language == source
            &&& match config.provider {
                TranslationProvider::LibreTranslate => req.body matches BodyView::Json {
                    q,
                    source: s,
                    target: t,
                    api_key,
                } && q == text && t == target && s == or_else(source, "auto"@) && api_key
                    == config.api_key && req.method == HttpMethod::Post,
                TranslationProvider::DeepL => req.body matches BodyView::Form(f) && f.len() >= 2
                    && f[0] == ("text"@, text) && f[1] == ("target_lang"@, uppercase(target))
                    && (source matches Some(s) ==> f.len() == 3 && f[2] == (
                    "source_lang"@,
                    uppercase(s),
                )) && (source is None ==> f.len() == 2) && req.method == HttpMethod::Post,
                TranslationProvider::Google => has_suffix(
                    req.url,
                    "/"@ + or_else(source, "auto"@) + "/"@ + target + "/"@ + percent_encoded(
                        encode_utf8(text),
                    ),
                ) && req.method == HttpMethod::Get,
                TranslationProvider::MyMemory => req.query.len() == 2 && req.query[0] == (
                    "q"@,
                    text,
                ) && req.query[1] == ("langpair"@, or_else(source, "en"@) + "|"@ + target)
                    && (source matches Some(s) ==> has_prefix(req.query[1].1, s + "|"@))
                    && req.method == HttpMethod::Get,
            }
        },
{
    if planned_request(config, text, target, source) is Ok {
        let req = planned_request(config, text, target, source)->Ok_0;
        let base = or_else(
            config.api_url,
            match config.provider {
                TranslationProvider::LibreTranslate => "https://libretranslate.com"@,
                TranslationProvider::DeepL => if has_suffix(config.api_key->0, ":fx"@) {
                    "https://api-free.deepl.com/v2"@
                } else {
                    "https://api.deepl.com/v2"@
                },
                TranslationProvider::Google => "https://lingva.ml/api/v1"@,
                TranslationProvider::MyMemory => "https://api.mymemory.translated.net"@,
            },
        );
        assert(req.url.take(base.len() as int) =~= base);
    }
    match config.provider {
        TranslationProvider::Google => {
            let req = planned_request(config, text, target, source)->Ok_0;
            let tail = "/"@ + or_else(source, "auto"@) + "/"@ + target + "/"@ + percent_encoded(
                encode_utf8(text),
            );
            let head = or_else(config.api_url, "https://lingva.ml/api/v1"@);
            assert(req.url =~= head + tail);
            assert(req.url.skip(req.url.len() - tail.len()) =~= tail);
        },
        TranslationProvider::MyMemory => {
            let req = planned_request(config, text, target, source)->Ok_0;
            if source is Some {
                let s = source->0;
                assert((s + "|"@ + target).take((s + "|"@).len() as int) =~= s + "|"@);
            }
        },
        _ => {},
    }
}

/// The accepted language codes: the ISO 639-1 codes of the services (with
/// `ceb`, `haw` and `hmn`), 108 of them, among them every code that the help
/// text lists (en, es, fr, de, it, pt, ru, zh, ja, ko, uk, pl, nl, tr, ar, hi).
pub proof fn accepted_language_codes()
    ensures
        valid_codes().len() == 108,
        valid_codes().contains("af"@),
        valid_codes().contains("sq"@),
        valid_codes().contains("am"@),
        valid_codes().contains("ar"@),
        valid_codes().contains("hy"@),
        valid_codes().contains("az"@),
        valid_codes().contains("eu"@),
        valid_codes().contains("be"@),
        valid_codes().contains("bn"@),
        valid_codes().contains("bs"@),
        valid_codes().contains("bg"@),
        valid_codes().contains("ca"@),
        valid_codes().contains("ceb"@),
        valid_codes().contains("zh"@),
        valid_codes().contains("co"@),
        valid_codes().contains("hr"@),
        valid_codes().contains("cs"@),
        valid_codes().contains("da"@),
        valid_codes().contains("nl"@),
        valid_codes().contains("en"@),
        valid_codes().contains("eo"@),
        valid_codes().contains("et"@),
        valid_codes().contains("fi"@),
        valid_codes().contains("fr"@),
        valid_codes().contains("fy"@),
        valid_codes().contains("gl"@),
        valid_codes().contains("ka"@),
        valid_codes().contains("de"@),
        valid_codes().contains("el"@),
        valid_codes().contains("gu"@),
        valid_codes().contains("ht"@),
        valid_codes().contains("ha"@),
        valid_codes().contains("haw"@),
        valid_codes().contains("he"@),
        valid_codes().contains("hi"@),
        valid_codes().contains("hmn"@),
        valid_codes().contains("hu"@),
        valid_codes().contains("is"@),
        valid_codes().contains("ig"@),
        valid_codes().contains("id"@),
        valid_codes().contains("ga"@),
        valid_codes().contains("it"@),
        valid_codes().contains("ja"@),
        valid_codes().contains("jv"@),
        valid_codes().contains("kn"@),
        valid_codes().contains("kk"@),
        valid_codes().contains("km"@),
        valid_codes().contains("rw"@),
        valid_codes().contains("ko"@),
        valid_codes().contains("ku"@),
        valid_codes().contains("ky"@),
        valid_codes().contains("lo"@),
        valid_codes().contains("la"@),
        valid_codes().contains("lv"@),
        valid_codes().contains("lt"@),
        valid_codes().contains("lb"@),
        valid_codes().contains("mk"@),
        valid_codes().contains("mg"@),
        valid_codes().contains("ms"@),
        valid_codes().contains("ml"@),
        valid_codes().contains("mt"@),
        valid_codes().contains("mi"@),
        valid_codes().contains("mr"@),
        valid_codes().contains("mn"@),
        valid_codes().contains("my"@),
        valid_codes().contains("ne"@),
        valid_codes().contains("no"@),
        valid_codes().contains("ny"@),
        valid_codes().contains("or"@),
        valid_codes().contains("ps"@),
        valid_codes().contains("fa"@),
        valid_codes().contains("pl"@),
        valid_codes().contains("pt"@),
        valid_codes().contains("pa"@),
        valid_codes().contains("ro"@),
        valid_codes().contains("ru"@),
        valid_codes().contains("sm"@),
        valid_codes().contains("gd"@),
        valid_codes().contains("sr"@),
        valid_codes().contains("st"@),
        valid_codes().contains("sn"@),
        valid_codes().contains("sd"@),
        valid_codes().contains("si"@),
        valid_codes().contains("sk"@),
        valid_codes().contains("sl"@),
        valid_codes().contains("so"@),
        valid_codes().contains("es"@),
        valid_codes().contains("su"@),
        valid_codes().contains("sw"@),
        valid_codes().contains("sv"@),
        valid_codes().contains("tl"@),
        valid_codes().contains("tg"@),
        valid_codes().contains("ta"@),
        valid_codes().contains("tt"@),
        valid_codes().contains("te"@),
        valid_codes().contains("th"@),
        valid_codes().contains("tr"@),
        valid_codes().contains("tk"@),
        valid_codes().contains("uk"@),
        valid_codes().contains("ur"@),
        valid_codes().contains("ug"@),
        valid_codes().contains("uz"@),
        valid_codes().contains("vi"@),
        valid_codes().contains("cy"@),
        valid_codes().contains("xh"@),
        valid_codes().contains("yi"@),
        valid_codes().contains("yo"@),
        valid_codes().contains("zu"@),
{
    assert(valid_codes()[0] == "af"@);
    assert(valid_codes()[1] == "sq"@);
    assert(valid_codes()[2] == "am"@);
    assert(valid_codes()[3] == "ar"@);
    assert(valid_codes()[4] == "hy"@);
    assert(valid_codes()[5] == "az"@);
    assert(valid_codes()[6] == "eu"@);
    assert(valid_codes()[7] == "be"@);
    assert(valid_codes()[8] == "bn"@);
    assert(valid_codes()[9] == "bs"@);
    assert(valid_codes()[10] == "bg"@);
    assert(valid_codes()[11] == "ca"@);
    assert(valid_codes()[12] == "ceb"@);
    assert(valid_codes()[13] == "zh"@);
    assert(valid_codes()[14] == "co"@);
    assert(valid_codes()[15] == "hr"@);
    assert(valid_codes()[16] == "cs"@);
    assert(valid_codes()[17] == "da"@);
    assert(valid_codes()[18] == "nl"@);
    assert(valid_codes()[19] == "en"@);
    assert(valid_codes()[20] == "eo"@);
    assert(valid_codes()[21] == "et"@);
    assert(valid_codes()[22] == "fi"@);
    assert(valid_codes()[23] == "fr"@);
    assert(valid_codes()[24] == "fy"@);
    assert(valid_codes()[25] == "gl"@);
    assert(valid_codes()[26] == "ka"@);
    assert(valid_codes()[27] == "de"@);
    assert(valid_codes()[28] == "el"@);
    assert(valid_codes()[29] == "gu"@);
    assert(valid_codes()[30] == "ht"@);
    assert(valid_codes()[31] == "ha"@);
    assert(valid_codes()[32] == "haw"@);
    assert(valid_codes()[33] == "he"@);
    assert(valid_codes()[34] == "hi"@);
    assert(valid_codes()[35] == "hmn"@);
    assert(valid_codes()[36] == "hu"@);
    assert(valid_codes()[37] == "is"@);
    assert(valid_codes()[38] == "ig"@);
    assert(valid_codes()[39] == "id"@);
    assert(valid_codes()[40] == "ga"@);
    assert(valid_codes()[41] == "it"@);
    assert(valid_codes()[42] == "ja"@);
    assert(valid_codes()[43] == "jv"@);
    assert(valid_codes()[44] == "kn"@);
    assert(valid_codes()[45] == "kk"@);
    assert(valid_codes()[46] == "km"@);
    assert(valid_codes()[47] == "rw"@);
    assert(valid_codes()[48] == "ko"@);
    assert(valid_codes()[49] == "ku"@);
    assert(valid_codes()[50] == "ky"@);
    assert(valid_codes()[51] == "lo"@);
    assert(valid_codes()[52] == "la"@);
    assert(valid_codes()[53] == "lv"@);
    assert(valid_codes()[54] == "lt"@);
    assert(valid_codes()[55] == "lb"@);
    assert(valid_codes()[56] == "mk"@);
    assert(valid_codes()[57] == "mg"@);
    assert(valid_codes()[58] == "ms"@);
    assert(valid_codes()[59] == "ml"@);
    assert(valid_codes()[60] == "mt"@);
    assert(valid_codes()[61] == "mi"@);
    assert(valid_codes()[62] == "mr"@);
    assert(valid_codes()[63] == "mn"@);
    assert(valid_codes()[64] == "my"@);
    assert(valid_codes()[65] == "ne"@);
    assert(valid_codes()[66] == "no"@);
    assert(valid_codes()[67] == "ny"@);
    assert(valid_codes()[68] == "or"@);
    assert(valid_codes()[69] == "ps"@);
    assert(valid_codes()[70] == "fa"@);
    assert(valid_codes()[71] == "pl"@);
    assert(valid_codes()[72] == "pt"@);
    assert(valid_codes()[73] == "pa"@);
    assert(valid_codes()[74] == "ro"@);
    assert(valid_codes()[75] == "ru"@);
    assert(valid_codes()[76] == "sm"@);
    assert(valid_codes()[77] == "gd"@);
    assert(valid_codes()[78] == "sr"@);
    assert(valid_codes()[79] == "st"@);
    assert(valid_codes()[80] == "sn"@);
    assert(valid_codes()[81] == "sd"@);
    assert(valid_codes()[82] == "si"@);
    assert(valid_codes()[83] == "sk"@);
    assert(valid_codes()[84] == "sl"@);
    assert(valid_codes()[85] == "so"@);
    assert(valid_codes()[86] == "es"@);
    assert(valid_codes()[87] == "su"@);
    assert(valid_codes()[88] == "sw"@);
    assert(valid_codes()[89] == "sv"@);
    assert(valid_codes()[90] == "tl"@);
    assert(valid_codes()[91] == "tg"@);
    assert(valid_codes()[92] == "ta"@);
    assert(valid_codes()[93] == "tt"@);
    assert(valid_codes()[94] == "te"@);
    assert(valid_codes()[95] == "th"@);
    assert(valid_codes()[96] == "tr"@);
    assert(valid_codes()[97] == "tk"@);
    assert(valid_codes()[98] == "uk"@);
    assert(valid_codes()[99] == "ur"@);
    assert(valid_codes()[100] == "ug"@);
    assert(valid_codes()[101] == "uz"@);
    assert(valid_codes()[102] == "vi"@);
    assert(valid_codes()[103] == "cy"@);
    assert(valid_codes()[104] == "xh"@);
    assert(valid_codes()[105] == "yi"@);
    assert(valid_codes()[106] == "yo"@);
    assert(valid_codes()[107] == "zu"@);
}

/// Whether `p` occurs somewhere in `s`.
pub open spec fn occurs_in(s: Seq<char>, p: Seq<char>) -> bool {
    exists|i: int| occurs_at(s, p, i)
}

proof fn lemma_occurs_between(x: Seq<char>, p: Seq<char>, y: Seq<char>)
    ensures
        occurs_at(x + p + y, p, x.len() as int),
        occurs_in(x + p + y, p),
{
    assert((x + p + y).subrange(x.len() as int, (x.len() + p.len()) as int) =~= p);
}

/// The reply to `/status` reports the chat's settings: its id, whether
/// translation is on (it is on in a chat that was never configured), how
/// many users are translated there, and its target languages.
pub proof fn status_reports_the_settings(
    m: Map<i64, GroupView>,
    chat_id: i64,
    default_language: Seq<char>,
)
    ensures
        occurs_in(
            status_text(m, chat_id, default_language),
            "**Chat ID:** `"@ + int_text(chat_id as int) + "`"@,
        ),
        !m.contains_key(chat_id) || m[chat_id].enabled ==> occurs_in(
            status_text(m, chat_id, default_language),
            "**Enabled:** Yes"@,
        ),
        m.contains_key(chat_id) && !m[chat_id].enabled ==> occurs_in(
            status_text(m, chat_id, default_language),
            "**Enabled:** No"@,
        ),
        occurs_in(
            status_text(m, chat_id, default_language),
            "**Users being translated:** "@ + int_text(users_of(m, chat_id).len() as int) + "\n"@,
        ),
        occurs_in(
            status_text(m, chat_id, default_language),
            "**Target language(s):** `"@ + joined(languages_for(m, chat_id, default_language), ", "@)
                + "`"@,
        ),
{
    reveal_strlit("**Translation Bot Status**\n\n**Chat ID:** `");
    reveal_strlit("**Translation Bot Status**\n\n");
    reveal_strlit("**Chat ID:** `");
    reveal_strlit("`\n**Enabled:** ");
    reveal_strlit("`");
    reveal_strlit("\n**Enabled:** ");
    reveal_strlit("**Enabled:** ");
    reveal_strlit("\n");
    reveal_strlit("Yes");
    reveal_strlit("No");
    reveal_strlit("**Enabled:** Yes");
    reveal_strlit("**Enabled:** No");
    reveal_strlit("\n**Users being translated:** ");
    reveal_strlit("**Users being translated:** ");
    reveal_strlit("\n**Target language(s):** `");
    reveal_strlit("**Target language(s):** `");
    let t = status_text(m, chat_id, default_language);
    let enabled = if m.contains_key(chat_id) {
        m[chat_id].enabled
    } else {
        true
    };
    let yn = if enabled {
        "Yes"@
    } else {
        "No"@
    };
    let id = int_text(chat_id as int);
    let n = int_text(users_of(m, chat_id).len() as int);
    let langs = joined(languages_for(m, chat_id, default_language), ", "@);
    let head = "**Translation Bot Status**\n\n"@;
    let chat_p = "**Chat ID:** `"@ + id + "`"@;
    let users_p = "**Users being translated:** "@ + n + "\n"@;
    let langs_p = "**Target language(s):** `"@ + langs + "`"@;
    assert("**Translation Bot Status**\n\n**Chat ID:** `"@ =~= head + "**Chat ID:** `"@);
    assert("`\n**Enabled:** "@ =~= "`"@ + "\n**Enabled:** "@);
    assert("\n**Enabled:** "@ =~= "\n"@ + "**Enabled:** "@);
    assert("\n**Users being translated:** "@ =~= "\n"@ + "**Users being translated:** "@);
    assert("\n**Target language(s):** `"@ =~= "\n"@ + "**Target language(s):** `"@);
    let enabled_p = "**Enabled:** "@ + yn;
    let nl = "\n"@;
    assert(t =~= head + chat_p + (nl + enabled_p + nl + users_p + langs_p));
    lemma_occurs_between(head, chat_p, nl + enabled_p + nl + users_p + langs_p);
    assert(t =~= (head + chat_p + nl) + enabled_p + (nl + users_p + langs_p));
    lemma_occurs_between(head + chat_p + nl, enabled_p, nl + users_p + langs_p);
    assert("**Enabled:** Yes"@ =~= "**Enabled:** "@ + "Yes"@);
    assert("**Enabled:** No"@ =~= "**Enabled:** "@ + "No"@);
    assert(t =~= (head + chat_p + nl + enabled_p + nl) + users_p + langs_p);
    lemma_occurs_between(head + chat_p + nl + enabled_p + nl, users_p, langs_p);
    assert(t =~= (head + chat_p + nl + enabled_p + nl + users_p) + langs_p + Seq::<char>::empty());
    lemma_occurs_between(head + chat_p + nl + enabled_p + nl + users_p, langs_p, Seq::empty());
}

proof fn lemma_occurs_extended(x: Seq<char>, p: Seq<char>, y: Seq<char>)
    requires
        occurs_in(x, p),
    ensures
        occurs_in(x + y, p),
        occurs_in(y + x, p),
{
    let i = choose|i: int| occurs_at(x, p, i);
    assert((x + y).subrange(i, i + p.len()) =~= x.subrange(i, i + p.len()));
    assert(occurs_at(x + y, p, i));
    assert((y + x).subrange(y.len() + i, y.len() + i + p.len()) =~= x.subrange(i, i + p.len()));
    assert(occurs_at(y + x, p, y.len() + i));
}

proof fn lemma_joined_has(list: Seq<Seq<char>>, sep: Seq<char>, k: int)
    requires
        0 <= k < list.len(),
    ensures
        occurs_in(joined(list, sep), list[k]),
    decreases list.len(),
{
    if list.len() == 1 {
        assert(joined(list, sep) =~= Seq::<char>::empty() + list[0] + Seq::<char>::empty());
        lemma_occurs_between(Seq::empty(), list[0], Seq::empty());
    } else if k == list.len() - 1 {
        let front = joined(list.drop_last(), sep) + sep;
        assert(joined(list, sep) =~= front + list[k] + Seq::<char>::empty());
        lemma_occurs_between(front, list[k], Seq::empty());
    } else {
        lemma_joined_has(list.drop_last(), sep, k);
        assert(list.drop_last()[k] == list[k]);
        lemma_occurs_extended(joined(list.drop_last(), sep), list[k], sep + list.last());
        assert(joined(list, sep) =~= joined(list.drop_last(), sep) + (sep + list.last()));
    }
}

/// The indices of the attempts worth replying with, in order.
pub open spec fn kept_indices(langs: Seq<Seq<char>>, outs: Seq<Option<ResultView>>) -> Seq<int>
    decreases langs.len(),
{
    if langs.len() == 0 {
        Seq::empty()
    } else {
        kept_indices(langs.drop_last(), outs.drop_last()) + if kept_attempt(
            langs,
            outs,
            langs.len() - 1,
        ) {
            seq![langs.len() - 1]
        } else {
            Seq::empty()
        }
    }
}

/// The source language that the last successful attempt reported, if any.
pub open spec fn last_reported(outs: Seq<Option<ResultView>>) -> Option<Seq<char>>
    decreases outs.len(),
{
    if outs.len() == 0 {
        None
    } else {
        match outs.last() {
            Some(r) => Some(reported_source(r)),
            None => last_reported(outs.drop_last()),
        }
    }
}

proof fn lemma_kept_indices(langs: Seq<Seq<char>>, outs: Seq<Option<ResultView>>)
    requires
        langs.len() == outs.len(),
    ensures
        ({
            let ki = kept_indices(langs, outs);
            let ts = gathered(langs, outs).0;
            &&& ts.len() == ki.len()
            &&& forall|k: int|
                0 <= k < ki.len() ==> 0 <= #[trigger] ki[k] < langs.len() && kept_attempt(
                    langs,
                    outs,
                    ki[k],
                ) && ts[k] == (langs[ki[k]], outs[ki[k]]->0.text)
            &&& forall|k1: int, k2: int| 0 <= k1 < k2 < ki.len() ==> ki[k1] < ki[k2]
            &&& forall|i: int|
                0 <= i < langs.len() && #[trigger] kept_attempt(langs, outs, i) ==> ki.contains(i)
            &&& gathered(langs, outs).1 == last_reported(outs)
        }),
    decreases langs.len(),
{
    if langs.len() > 0 {
        let l0 = langs.drop_last();
        let o0 = outs.drop_last();
        let n = langs.len() - 1;
        lemma_kept_indices(l0, o0);
        lemma_gathered_step(langs, outs);
        let ki0 = kept_indices(l0, o0);
        let ki = kept_indices(langs, outs);
        assert forall|i: int| 0 <= i < n implies kept_attempt(langs, outs, i) == kept_attempt(
            l0,
            o0,
            i,
        ) && langs[i] == l0[i] && outs[i] == o0[i] by {}
        assert forall|k: int| 0 <= k < ki0.len() implies ki[k] == ki0[k] by {}
        assert forall|i: int| 0 <= i < langs.len() && #[trigger] kept_attempt(
            langs,
            outs,
            i,
        ) implies ki.contains(i) by {
            if i < n {
                assert(kept_attempt(l0, o0, i));
                assert(ki0.contains(i));
                let k = choose|k: int| 0 <= k < ki0.len() && ki0[k] == i;
                assert(ki[k] == i);
            } else {
                assert(ki[ki0.len() as int] == i);
            }
        }
    }
}

/// The reply to a translated message when exactly one attempt is worth
/// replying with: the reply template filled with that translation, the
/// language last reported as source ("auto" when none was) and the target.
pub proof fn one_translation_fills_the_template(
    template: Seq<char>,
    langs: Seq<Seq<char>>,
    outs: Seq<Option<ResultView>>,
    i: int,
)
    requires
        langs.len() == outs.len(),
        0 <= i < langs.len(),
        kept_attempt(langs, outs, i),
        forall|j: int| 0 <= j < langs.len() && #[trigger] kept_attempt(langs, outs, j) ==> j == i,
    ensures
        reply_for(template, langs, outs) == Some(
            formatted(
                template,
                outs[i]->0.text,
                match last_reported(outs) {
                    Some(l) => l,
                    None => "auto"@,
                },
                langs[i],
            ),
        ),
{
    lemma_kept_indices(langs, outs);
    let ki = kept_indices(langs, outs);
    assert(ki.contains(i));
    if ki.len() >= 2 {
        assert(ki[0] < ki[1]);
        assert(kept_attempt(langs, outs, ki[0]));
        assert(kept_attempt(langs, outs, ki[1]));
    }
    assert(ki[0] == i);
}

/// The reply to a translated message when two or more attempts are worth
/// replying with: a "Translations" header naming the language last reported
/// as source, and a line `**<TARGET>:** <text>` for every such attempt.
pub proof fn several_translations_are_all_listed(
    template: Seq<char>,
    langs: Seq<Seq<char>>,
    outs: Seq<Option<ResultView>>,
    i: int,
    j: int,
)
    requires
        langs.len() == outs.len(),
        0 <= i < langs.len(),
        0 <= j < langs.len(),
        i != j,
        kept_attempt(langs, outs, i),
        kept_attempt(langs, outs, j),
    ensures
        reply_for(template, langs, outs) matches Some(r) && {
            &&& has_prefix(
                r,
                "🌐 **Translations** (from "@ + match last_reported(outs) {
                    Some(l) => l,
                    None => "auto"@,
                } + "):\n"@,
            )
            &&& forall|k: int|
                0 <= k < langs.len() && #[trigger] kept_attempt(langs, outs, k) ==> occurs_in(
                    r,
                    "**"@ + uppercase(langs[k]) + ":** "@ + outs[k]->0.text,
                )
        },
{
    lemma_kept_indices(langs, outs);
    let ki = kept_indices(langs, outs);
    let ts = gathered(langs, outs).0;
    assert(ki.contains(i));
    assert(ki.contains(j));
    if ki.len() < 2 {
        let a = choose|a: int| 0 <= a < ki.len() && ki[a] == i;
        let b = choose|b: int| 0 <= b < ki.len() && ki[b] == j;
        assert(false);
    }
    let src = match last_reported(outs) {
        Some(l) => l,
        None => "auto"@,
    };
    let header = "🌐 **Translations** (from "@ + src + "):\n"@;
    let lines = ts.map_values(|t: (Seq<char>, Seq<char>)| crate::bot::translation_line(t));
    let r = header + joined(lines, "\n"@);
    assert(reply_for(template, langs, outs) == Some(r));
    assert(r.take(header.len() as int) =~= header);
    assert forall|k: int| 0 <= k < langs.len() && #[trigger] kept_attempt(
        langs,
        outs,
        k,
    ) implies occurs_in(r, "**"@ + uppercase(langs[k]) + ":** "@ + outs[k]->0.text) by {
        assert(ki.contains(k));
        let a = choose|a: int| 0 <= a < ki.len() && ki[a] == k;
        assert(ts[a] == (langs[k], outs[k]->0.text));
        assert(lines[a] == "**"@ + uppercase(langs[k]) + ":** "@ + outs[k]->0.text);
        lemma_joined_has(lines, "\n"@, a);
        lemma_occurs_extended(joined(lines, "\n"@), lines[a], header);
    }
}

proof fn lemma_first_piece(s: Seq<char>, sep: Separator)
    ensures
        ({
            let p = pieces(s, sep);
            &&& p.len() >= 1
            &&& p[0].len() <= s.len()
            &&& s.take(p[0].len() as int) == p[0]
            &&& forall|i: int| 0 <= i < p[0].len() ==> !separates(sep, #[trigger] s[i])
            &&& p[0].len() < s.len() ==> separates(sep, s[p[0].len() as int])
            &&& p.len() == 1 ==> p[0] == s
            &&& p.len() >= 2 ==> p[0].len() < s.len()
        }),
    decreases s.len(),
{
    lemma_pieces_nonempty(s, sep);
    if s.len() > 0 {
        let dl = s.drop_last();
        lemma_first_piece(dl, sep);
        lemma_pieces_nonempty(dl, sep);
        let pd = pieces(dl, sep);
        let p = pieces(s, sep);
        assert forall|i: int| 0 <= i < dl.len() implies dl[i] == s[i] by {}
        if separates(sep, s.last()) {
            assert(p[0] == pd[0]);
            assert(s.take(pd[0].len() as int) =~= dl.take(pd[0].len() as int));
        } else if pd.len() == 1 {
            assert(p[0] == pd[0].push(s.last()));
            assert(p[0] =~= s);
            assert(s.take(s.len() as int) =~= s);
        } else {
            assert(p[0] == pd[0]);
            assert(s.take(pd[0].len() as int) =~= dl.take(pd[0].len() as int));
        }
    }
}

/// The index of the first `@` in `s`, or its length when there is none.
pub open spec fn first_at(s: Seq<char>) -> int
    decreases s.len(),
{
    if s.len() == 0 {
        0
    } else if s[0] == '@' {
        0
    } else {
        1 + first_at(s.drop_first())
    }
}

proof fn lemma_first_at(s: Seq<char>)
    ensures
        0 <= first_at(s) <= s.len(),
        forall|i: int| 0 <= i < first_at(s) ==> #[trigger] s[i] != '@',
        first_at(s) < s.len() ==> s[first_at(s)] == '@',
    decreases s.len(),
{
    if s.len() > 0 && s[0] != '@' {
        lemma_first_at(s.drop_first());
        assert forall|i: int| 0 <= i < first_at(s) implies #[trigger] s[i] != '@' by {
            if i > 0 {
                assert(s[i] == s.drop_first()[i - 1]);
            }
        }
    }
}

/// The name of a command is its first word up to any `@` (which introduces
/// the bot's name), lower-cased; without any word the name is empty.
pub proof fn command_name_is_the_first_word_before_at(prefix: Seq<char>, text: Seq<char>)
    ensures
        ({
            let w = words(without_prefix(text, prefix));
            let first = if w.len() > 0 {
                w[0]
            } else {
                Seq::<char>::empty()
            };
            command_of(prefix, text).0 == lowercase(first.take(first_at(first)))
        }),
{
    let w = words(without_prefix(text, prefix));
    let first = if w.len() > 0 {
        w[0]
    } else {
        Seq::<char>::empty()
    };
    lemma_first_piece(first, Separator::At);
    lemma_first_at(first);
    let p0 = pieces(first, Separator::At)[0];
    let a = first_at(first);
    if p0.len() < a {
        assert(first[p0.len() as int] != '@');
    }
    if a < p0.len() {
        assert(!separates(Separator::At, first[a]));
    }
    assert(p0 =~= first.take(a));
}

/// The reply to `/list` names every user translated in the chat, each as
/// `` `id` ``, and the chat's target languages; in a chat without such
/// users it says so. Nothing in the settings changes meanwhile.
pub proof fn list_reply_names_every_user(
    m: Map<i64, GroupView>,
    chat_id: i64,
    default_language: Seq<char>,
    action: ActionView,
)
    requires
        lists_users(m, chat_id, default_language, action),
    ensures
        users_of(m, chat_id).len() == 0 ==> action == ActionView::Reply(NO_USERS@, false),
        users_of(m, chat_id).len() > 0 ==> (action matches ActionView::Reply(t, saved) && !saved
            && has_prefix(t, "**Users being translated:**\n"@) && occurs_in(
            t,
            "**Target language(s):** `"@ + joined(languages_for(m, chat_id, default_language), ", "@)
                + "`"@,
        ) && forall|u: i64| #[trigger]
            users_of(m, chat_id).contains(u) ==> occurs_in(t, "`"@ + int_text(u as int) + "`"@)),
{
    if users_of(m, chat_id).len() > 0 {
        let langs = languages_for(m, chat_id, default_language);
        let listing = choose|listing: Seq<i64>|
            #![trigger list_text(listing, languages_for(m, chat_id, default_language))]
            listing.no_duplicates() && listing.to_set() == users_of(m, chat_id) && action
                == ActionView::Reply(list_text(listing, langs), false);
        let items = listing.map_values(|id: i64| "`"@ + int_text(id as int) + "`"@);
        let head = "**Users being translated:**\n"@;
        let body = joined(items, "\n"@);
        reveal_strlit("\n\n**Target language(s):** `");
        reveal_strlit("\n\n");
        reveal_strlit("**Target language(s):** `");
        assert("\n\n**Target language(s):** `"@ =~= "\n\n"@ + "**Target language(s):** `"@);
        let langs_p = "**Target language(s):** `"@ + joined(langs, ", "@) + "`"@;
        let t = list_text(listing, langs);
        assert(t =~= head + body + ("\n\n"@ + langs_p));
        assert(t.take(head.len() as int) =~= head);
        assert(t =~= (head + body + "\n\n"@) + langs_p + Seq::<char>::empty());
        lemma_occurs_between(head + body + "\n\n"@, langs_p, Seq::empty());
        assert forall|u: i64| #[trigger] users_of(m, chat_id).contains(u) implies occurs_in(
            t,
            "`"@ + int_text(u as int) + "`"@,
        ) by {
            assert(listing.to_set().contains(u));
            let k = choose|k: int| 0 <= k < listing.len() && listing[k] == u;
            assert(items[k] == "`"@ + int_text(u as int) + "`"@);
            lemma_joined_has(items, "\n"@, k);
            lemma_occurs_extended(body, items[k], head);
            lemma_occurs_extended(head + body, items[k], "\n\n"@ + langs_p);
        }
    }
}

/// The code that one piece of a `/lang` argument stands for.
pub open spec fn code_of_piece(piece: Seq<char>) -> Seq<char> {
    normalized(lowercase(trimmed(piece)))
}

/// The piece that the `k`-th code of `codes_in(ps)` comes from.
spec fn piece_of_code(ps: Seq<Seq<char>>, k: int) -> int
    decreases ps.len(),
{
    if ps.len() == 0 {
        0
    } else if k < codes_in(ps.drop_last()).len() {
        piece_of_code(ps.drop_last(), k)
    } else {
        ps.len() - 1
    }
}

proof fn lemma_codes_in(ps: Seq<Seq<char>>)
    ensures
        forall|i: int|
            0 <= i < ps.len() && lowercase(trimmed(#[trigger] ps[i])).len() > 0 ==> codes_in(
                ps,
            ).contains(code_of_piece(ps[i])),
        forall|k: int|
            0 <= k < codes_in(ps).len() ==> {
                let i = #[trigger] piece_of_code(ps, k);
                &&& 0 <= i < ps.len()
                &&& lowercase(trimmed(ps[i])).len() > 0
                &&& codes_in(ps)[k] == code_of_piece(ps[i])
            },
    decreases ps.len(),
{
    if ps.len() > 0 {
        let p0 = ps.drop_last();
        lemma_codes_in(p0);
        let c0 = codes_in(p0);
        let c = codes_in(ps);
        let n = ps.len() - 1;
        let last = lowercase(trimmed(ps.last()));
        assert forall|i: int| 0 <= i < n implies ps[i] == p0[i] by {}
        if last.len() > 0 {
            assert(c =~= c0.push(normalized(last)));
        } else {
            assert(c =~= c0);
        }
        assert forall|i: int|
            0 <= i < ps.len() && lowercase(trimmed(#[trigger] ps[i])).len() > 0 implies c.contains(
            code_of_piece(ps[i]),
        ) by {
            if i < n {
                assert(lowercase(trimmed(p0[i])).len() > 0);
                assert(c0.contains(code_of_piece(p0[i])));
                let k = choose|k: int| 0 <= k < c0.len() && c0[k] == code_of_piece(p0[i]);
                assert(c[k] == c0[k]);
            } else {
                assert(c[c0.len() as int] == code_of_piece(ps[i]));
            }
        }
        assert forall|k: int| 0 <= k < c.len() implies {
            let i = #[trigger] piece_of_code(ps, k);
            &&& 0 <= i < ps.len()
            &&& lowercase(trimmed(ps[i])).len() > 0
            &&& c[k] == code_of_piece(ps[i])
        } by {
            if k < c0.len() {
                assert(c[k] == c0[k]);
                assert(piece_of_code(ps, k) == piece_of_code(p0, k));
            }
        }
    }
}

/// The codes that a `/lang` argument lists: for every piece between commas
/// and spaces that is not blank, its code (trimmed, lower-cased, `ua` read
/// as `uk`) is among them, and nothing else is.
#[verifier::spinoff_prover]
pub proof fn lang_lists_every_piece(input: Seq<char>)
    ensures
        forall|i: int|
            0 <= i < pieces(input, Separator::CommaOrSpace).len() && lowercase(
                trimmed(#[trigger] pieces(input, Separator::CommaOrSpace)[i]),
            ).len() > 0 ==> language_codes(input).contains(
                code_of_piece(pieces(input, Separator::CommaOrSpace)[i]),
            ),
        forall|k: int|
            #![trigger language_codes(input)[k]]
            0 <= k < language_codes(input).len() ==> exists|i: int|
                0 <= i < pieces(input, Separator::CommaOrSpace).len() && lowercase(
                    trimmed(#[trigger] pieces(input, Separator::CommaOrSpace)[i]),
                ).len() > 0 && language_codes(input)[k] == code_of_piece(
                    pieces(input, Separator::CommaOrSpace)[i],
                ),
{
    let ps = pieces(input, Separator::CommaOrSpace);
    lemma_codes_in(ps);
    assert(language_codes(input) == codes_in(ps));
    assert forall|k: int| #![trigger language_codes(input)[k]] 0 <= k < language_codes(
        input,
    ).len() implies exists|i: int|
        0 <= i < ps.len() && lowercase(trimmed(#[trigger] ps[i])).len() > 0 && language_codes(
            input,
        )[k] == code_of_piece(ps[i]) by {
        let i = piece_of_code(ps, k);
        assert(0 <= i < ps.len() && lowercase(trimmed(ps[i])).len() > 0 && language_codes(
            input,
        )[k] == code_of_piece(ps[i]));
    }
}

} // verus!
