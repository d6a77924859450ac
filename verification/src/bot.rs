//! The decisions of the bot's message handlers: which model a button or a
//! name picks, how a private or group message is routed, what a button
//! press means, and the texts the bot replies with.
use crate::ai::{deepseek, gemini, groq};
use crate::protection::{
    command_word, command_word_of, is_staff_rank, lock_command_spec, parse_lock_command_word,
    rank_command_spec, resolve_rank_command_word, Rank, RankCommand,
};
use crate::store::{shown_spec, visibility_key_spec, ModelVisibility};
use crate::text::{
    append, chars_of, concat, contains, contains_spec, lowercase, owned, parse_i64,
    parse_i64_spec, remove_all, remove_all_spec, replace_char, replace_char_spec, split_char,
    split_char_spec, split_whitespace, starts_with, starts_with_spec, str_eq, string_from_range,
    take_chars, take_chars_spec, to_lowercase, trim, trim_spec, views, words, occurs_at,
};
use vstd::prelude::*;

verus! {

/// The model groups use unless configured otherwise.
pub const DEFAULT_GROUP_MODEL: &'static str = "gemini-3.5-flash-lite";

pub const BTN_MODEL_35_LITE: &'static str = "🟢 Gemini 3.5 Flash Lite";
pub const BTN_MODEL_DEEPSEEK: &'static str = "🔵 DeepSeek V4 Flash";
pub const BTN_MODEL_GROQ: &'static str = "🔴 GPT-OSS-120B";
pub const BTN_CHAT_AI: &'static str = "🔵 چت با هوش مصنوعی";
pub const BTN_SUPPORT: &'static str = "🔴 پشتیبانی";
pub const BTN_BACK: &'static str = "❌ بازگشت";

pub const MODEL_DESC_GEMINI: &'static str = "🟢 *Gemini 3.5 Flash Lite*\nسریع، سبک و دقیق. گزینه‌ی عالی برای چت روزمره، سوالات عمومی و پاسخ‌های فوری. تعادل خوبی بین سرعت و کیفیت داره.";
pub const MODEL_DESC_DEEPSEEK: &'static str = "🔵 *DeepSeek V4 Flash*\nمدل چینی قدرتمند برای کارهای پیچیده. توی تحلیل، استدلال منطقی، ریاضیات و برنامه‌نویسی فوق‌العاده عمل می‌کنه. اگه دنبال جواب عمیق و دقیق هستی، این انتخاب درسته.";
pub const MODEL_DESC_GROQ: &'static str = "🔴 *GPT-OSS-120B*\nمدل قدرتمند با سرعت پاسخ‌دهی بالا. دقت خوبی داره و برای کارهای سریع و روزمره گزینه‌ی مناسبیه.";

// ---------------------------------------------------------------------
// Models
// ---------------------------------------------------------------------

/// The model a button text or a short name picks (trimmed first).
pub open spec fn chat_model_spec(t: Seq<char>) -> Option<Seq<char>> {
    if t == BTN_MODEL_35_LITE@ || t == "gemini"@ || t == "gemini-3.5-flash-lite"@ {
        Some("gemini-3.5-flash-lite"@)
    } else if t == BTN_MODEL_DEEPSEEK@ || t == "deepseek"@ {
        Some(deepseek::MODEL@)
    } else if t == BTN_MODEL_GROQ@ || t == "groq"@ || t == "gpt"@ {
        Some(groq::MODEL@)
    } else {
        None
    }
}

/// `resolve_chat_model_id`: the model a button or name picks.
pub fn resolve_chat_model_id(button_text: &str) -> (r: Option<&'static str>)
    ensures
        match r {
            Some(m) => chat_model_spec(trim_spec(button_text@)) == Some(m@),
            None => chat_model_spec(trim_spec(button_text@)) is None,
        },
{
    let t = trim(button_text);
    let t = t.as_str();
    if str_eq(t, BTN_MODEL_35_LITE) || str_eq(t, "gemini") || str_eq(t, "gemini-3.5-flash-lite") {
        Some("gemini-3.5-flash-lite")
    } else if str_eq(t, BTN_MODEL_DEEPSEEK) || str_eq(t, "deepseek") {
        Some(deepseek::MODEL)
    } else if str_eq(t, BTN_MODEL_GROQ) || str_eq(t, "groq") || str_eq(t, "gpt") {
        Some(groq::MODEL)
    } else {
        None
    }
}

/// The name shown for a model id.
pub open spec fn display_name_spec(m: Seq<char>) -> Seq<char> {
    if m == "gemini-3.5-flash-lite"@ {
        "Gemini 3.5 Flash Lite"@
    } else if m == deepseek::MODEL@ {
        "DeepSeek V4 Flash"@
    } else if m == groq::MODEL@ {
        "GPT-OSS-120B"@
    } else {
        "مدل انتخابی"@
    }
}

/// `model_display_name`.
pub fn model_display_name(model_id: &str) -> (r: &'static str)
    ensures
        r@ == display_name_spec(model_id@),
{
    if str_eq(model_id, "gemini-3.5-flash-lite") {
        "Gemini 3.5 Flash Lite"
    } else if str_eq(model_id, deepseek::MODEL) {
        "DeepSeek V4 Flash"
    } else if str_eq(model_id, groq::MODEL) {
        "GPT-OSS-120B"
    } else {
        "مدل انتخابی"
    }
}

/// `is_deepseek_model`.
pub fn is_deepseek_model(m: &str) -> (r: bool)
    ensures
        r == (m@ == deepseek::MODEL@),
{
    str_eq(m, deepseek::MODEL)
}

/// `is_groq_model`.
pub fn is_groq_model(m: &str) -> (r: bool)
    ensures
        r == (m@ == groq::MODEL@),
{
    str_eq(m, groq::MODEL)
}

/// The model offered instead of an unavailable one: for a DeepSeek model
/// Gemini, else GPT-OSS; for a Groq/GPT-OSS model Gemini, else DeepSeek;
/// for anything else DeepSeek, else GPT-OSS; each only if shown, with the
/// first choice as the last resort.
pub open spec fn alternative_spec(requested: Seq<char>, vis: ModelVisibility) -> Seq<char> {
    if contains_spec(requested, "deepseek"@) {
        if vis.gemini {
            gemini::MODEL@
        } else if vis.groq {
            groq::MODEL@
        } else {
            gemini::MODEL@
        }
    } else if contains_spec(requested, "groq"@) || contains_spec(requested, "gpt-oss"@) {
        if vis.gemini {
            gemini::MODEL@
        } else if vis.deepseek {
            deepseek::MODEL@
        } else {
            gemini::MODEL@
        }
    } else {
        if vis.deepseek {
            deepseek::MODEL@
        } else if vis.groq {
            groq::MODEL@
        } else {
            deepseek::MODEL@
        }
    }
}

proof fn lemma_model_visibility_keys()
    ensures
        visibility_key_spec(gemini::MODEL@) == Some(0int),
        visibility_key_spec(deepseek::MODEL@) == Some(1int),
        visibility_key_spec(groq::MODEL@) == Some(2int),
        !contains_spec(gemini::MODEL@, "deepseek"@),
        !contains_spec(gemini::MODEL@, "groq"@),
        !contains_spec(gemini::MODEL@, "gpt-oss"@),
{
    reveal_strlit("gemini-3.5-flash-lite");
    reveal_strlit("deepseek/deepseek-v4-flash-free");
    reveal_strlit("openai/gpt-oss-120b");
    reveal_strlit("deepseek");
    reveal_strlit("groq");
    reveal_strlit("gpt-oss");
    let d = deepseek::MODEL@;
    let g = groq::MODEL@;
    assert(d.len() != gemini::MODEL@.len());
    assert(g.len() != gemini::MODEL@.len());
    assert(occurs_at(d, "deepseek"@, 0)) by {
        assert(d.subrange(0, 8) =~= "deepseek"@);
    }
    assert(occurs_at(g, "gpt-oss"@, 7)) by {
        assert(g.subrange(7, 14) =~= "gpt-oss"@);
    }
    assert forall|i: int| !occurs_at(g, "deepseek"@, i) by {
        if occurs_at(g, "deepseek"@, i) {
            assert(g.subrange(i, i + 8)[0] == 'd');
            assert(g[i] == 'd');
        }
    }
    let m = gemini::MODEL@;
    assert forall|i: int| !occurs_at(m, "deepseek"@, i) by {
        if occurs_at(m, "deepseek"@, i) {
            assert(m.subrange(i, i + 8)[0] == 'd');
            assert(m[i] == 'd');
        }
    }
    assert forall|i: int| !occurs_at(m, "groq"@, i) by {
        if occurs_at(m, "groq"@, i) {
            assert(m.subrange(i, i + 4)[0] == 'g');
            assert(m.subrange(i, i + 4)[1] == 'r');
            assert(m[i] == 'g');
            assert(m[i + 1] == 'r');
        }
    }
    assert forall|i: int| !occurs_at(m, "gpt-oss"@, i) by {
        if occurs_at(m, "gpt-oss"@, i) {
            assert(m.subrange(i, i + 7)[0] == 'g');
            assert(m.subrange(i, i + 7)[1] == 'p');
            assert(m[i] == 'g');
            assert(m[i + 1] == 'p');
        }
    }
}

/// When the requested model is not offered but some model is, the
/// alternative picked for it is an offered one.
pub proof fn law_alternative_is_offered(requested: Seq<char>, vis: ModelVisibility)
    requires
        !shown_spec(requested, vis),
        vis.gemini || vis.deepseek || vis.groq,
    ensures
        shown_spec(alternative_spec(requested, vis), vis),
{
    lemma_model_visibility_keys();
}

/// `pick_alternative_model`, given which models are shown.
pub fn pick_alternative_model(requested: &str, vis: &ModelVisibility) -> (r: &'static str)
    ensures
        r@ == alternative_spec(requested@, *vis),
{
    if contains(requested, "deepseek") {
        if vis.gemini {
            gemini::MODEL
        } else if vis.groq {
            groq::MODEL
        } else {
            gemini::MODEL
        }
    } else if contains(requested, "groq") || contains(requested, "gpt-oss") {
        if vis.gemini {
            gemini::MODEL
        } else if vis.deepseek {
            deepseek::MODEL
        } else {
            gemini::MODEL
        }
    } else {
        if vis.deepseek {
            deepseek::MODEL
        } else if vis.groq {
            groq::MODEL
        } else {
            deepseek::MODEL
        }
    }
}

/// The model a group member's question goes to: the member's own choice,
/// else the group default; an unavailable one is replaced.
pub open spec fn group_reply_model_spec(
    user_model: Option<Seq<char>>,
    group_model: Seq<char>,
    vis: ModelVisibility,
) -> Seq<char> {
    let requested = match user_model {
        Some(m) => m,
        None => group_model,
    };
    if shown_spec(requested, vis) {
        requested
    } else {
        alternative_spec(requested, vis)
    }
}

/// The model for a group question (see [`group_reply_model_spec`]).
pub fn group_reply_model(user_model: Option<String>, group_model: String, vis: &ModelVisibility) -> (r:
    String)
    ensures
        r@ == group_reply_model_spec(
            match user_model {
                Some(m) => Some(m@),
                None => None,
            },
            group_model@,
            *vis,
        ),
{
    let requested = match user_model {
        Some(m) => m,
        None => group_model,
    };
    if crate::store::is_model_shown(requested.as_str(), vis) {
        requested
    } else {
        owned(pick_alternative_model(requested.as_str(), vis))
    }
}

/// The model of a private conversation about to answer: its stored model
/// when shown, else the alternative (which is then stored).
pub fn private_reply_model(stored: &str, vis: &ModelVisibility) -> (r: (String, bool))
    ensures
        shown_spec(stored@, *vis) ==> r.0@ == stored@ && !r.1,
        !shown_spec(stored@, *vis) ==> r.0@ == alternative_spec(stored@, *vis) && r.1,
{
    if crate::store::is_model_shown(stored, vis) {
        (owned(stored), false)
    } else {
        (owned(pick_alternative_model(stored, vis)), true)
    }
}

// ---------------------------------------------------------------------
// Small texts
// ---------------------------------------------------------------------

/// The nickname the bot knows a user by.
pub open spec fn nickname_spec(user_id: i64) -> Option<Seq<char>> {
    if user_id == 7383778633 {
        Some("کاکا"@)
    } else if user_id == 6837607506 {
        Some("امین"@)
    } else if user_id == 8907987684 {
        Some("پابلو"@)
    } else if user_id == 5902213872 {
        Some("آراز"@)
    } else if user_id == 8233397688 {
        Some("شیرین"@)
    } else if user_id == 8172471963 {
        Some("سامی پدو"@)
    } else if user_id == 7030598934 {
        Some("گربه ماهی"@)
    } else if user_id == 6774873781 {
        Some("ویچر"@)
    } else if user_id == 1974887406 || user_id == 8747692661 {
        Some("امیر حسین پنیک"@)
    } else {
        None
    }
}

/// `first_name_for`: the nickname the bot knows a user by.
pub fn first_name_for(user_id: i64) -> (r: Option<&'static str>)
    ensures
        match r {
            Some(n) => nickname_spec(user_id) == Some(n@),
            None => nickname_spec(user_id) is None,
        },
{
    if user_id == 7383778633 {
        Some("کاکا")
    } else if user_id == 6837607506 {
        Some("امین")
    } else if user_id == 8907987684 {
        Some("پابلو")
    } else if user_id == 5902213872 {
        Some("آراز")
    } else if user_id == 8233397688 {
        Some("شیرین")
    } else if user_id == 8172471963 {
        Some("سامی پدو")
    } else if user_id == 7030598934 {
        Some("گربه ماهی")
    } else if user_id == 6774873781 {
        Some("ویچر")
    } else if user_id == 1974887406 || user_id == 8747692661 {
        Some("امیر حسین پنیک")
    } else {
        None
    }
}

/// `make_title_from_text`: the first 30 characters, with line breaks
/// turned into spaces.
pub fn make_title_from_text(text: &str) -> (r: String)
    ensures
        r@ == replace_char_spec(take_chars_spec(text@, 30), '\n', ' '),
{
    let snippet = take_chars(text, 30);
    replace_char(snippet.as_str(), '\n', ' ')
}

/// A text cut to `max` characters, with "..." after a cut.
pub open spec fn truncate_spec(s: Seq<char>, max: nat) -> Seq<char> {
    if s.len() <= max {
        s
    } else {
        s.take(max as int) + "..."@
    }
}

/// `truncate_chars`.
pub fn truncate_chars(s: &str, max: usize) -> (r: String)
    ensures
        r@ == truncate_spec(s@, max as nat),
{
    let cs = chars_of(s);
    if cs.len() <= max {
        owned(s)
    } else {
        let mut r = string_from_range(cs.as_slice(), 0, max);
        assert(cs@.subrange(0, max as int) =~= cs@.take(max as int));
        append(&mut r, "...");
        r
    }
}

/// The longest message the bot sends in one piece.
pub const LONG_MESSAGE_LIMIT: usize = 3800;

/// The pieces a long message is sent in: the whole text when it has at
/// most `limit` characters, else consecutive pieces of `limit` characters,
/// the last one shorter.
pub open spec fn chunks_spec(s: Seq<char>, limit: nat) -> Seq<Seq<char>>
    decreases s.len(),
{
    if s.len() <= limit || limit == 0 {
        seq![s]
    } else {
        seq![s.take(limit as int)] + chunks_spec(s.skip(limit as int), limit)
    }
}

/// A long text sent in pieces loses and reorders nothing: the pieces,
/// joined, are the text, none is longer than the limit, and only the text
/// itself, when empty, gives an empty piece.
pub proof fn law_pieces_rejoin(s: Seq<char>, limit: nat)
    requires
        limit > 0,
    ensures
        chunks_spec(s, limit).flatten() == s,
        forall|i: int|
            0 <= i < chunks_spec(s, limit).len() ==> #[trigger] chunks_spec(s, limit)[i].len()
                <= limit,
        forall|i: int|
            0 <= i < chunks_spec(s, limit).len() && s.len() > 0 ==> #[trigger] chunks_spec(
                s,
                limit,
            )[i].len() > 0,
    decreases s.len(),
{
    let c = chunks_spec(s, limit);
    if s.len() <= limit {
        assert(c == seq![s]);
        assert(c.drop_first() =~= Seq::<Seq<char>>::empty());
        assert(Seq::<Seq<char>>::empty().flatten() =~= Seq::<char>::empty());
        assert(c.flatten() == c.first() + c.drop_first().flatten());
        assert(c.flatten() =~= s);
    } else {
        let rest = s.skip(limit as int);
        law_pieces_rejoin(rest, limit);
        let cr = chunks_spec(rest, limit);
        assert(c == seq![s.take(limit as int)] + cr);
        assert(c.drop_first() =~= cr);
        assert(c.first() == s.take(limit as int));
        assert(s.take(limit as int) + rest =~= s);
        assert forall|i: int| 0 <= i < c.len() implies #[trigger] c[i].len() <= limit && (s.len()
            > 0 ==> c[i].len() > 0) by {
            if i > 0 {
                assert(c[i] == cr[i - 1]);
            }
        }
    }
}

/// The pieces of `send_long_message`.
pub fn split_long_message(text: &str, limit: usize) -> (r: Vec<String>)
    requires
        limit > 0,
    ensures
        views(r@) == chunks_spec(text@, limit as nat),
{
    let cs = chars_of(text);
    let n = cs.len();
    let mut out: Vec<String> = Vec::new();
    if n <= limit {
        out.push(owned(text));
        assert(views(out@) =~= seq![text@]);
        return out;
    }
    let mut start: usize = 0;
    assert(cs@.subrange(0, n as int) =~= cs@);
    assert(views(out@) + chunks_spec(text@, limit as nat) =~= chunks_spec(text@, limit as nat));
    while n - start > limit
        invariant
            start <= n,
            n == cs@.len(),
            limit > 0,
            chunks_spec(text@, limit as nat) == views(out@) + chunks_spec(
                cs@.subrange(start as int, n as int),
                limit as nat,
            ),
            cs@ == text@,
        decreases n - start,
    {
        let ghost rest = cs@.subrange(start as int, n as int);
        let end = start + limit;
        let piece = string_from_range(cs.as_slice(), start, end);
        let ghost before = views(out@);
        out.push(piece);
        assert(views(out@) =~= before.push(piece@));
        assert(rest.take(limit as int) =~= piece@);
        assert(rest.skip(limit as int) =~= cs@.subrange(end as int, n as int));
        assert(before + chunks_spec(rest, limit as nat) =~= views(out@) + chunks_spec(
            cs@.subrange(end as int, n as int),
            limit as nat,
        ));
        start = end;
    }
    let ghost before = views(out@);
    let last = string_from_range(cs.as_slice(), start, n);
    out.push(last);
    assert(views(out@) =~= before.push(last@));
    assert(before + seq![last@] =~= before.push(last@));
    out
}


// ---------------------------------------------------------------------
// Every message: bans, the power switch, mutes
// ---------------------------------------------------------------------

/// What happens to a message before it is handled.
#[derive(Debug, Clone, Copy, PartialEq, Eq, Structural)]
pub enum Admission {
    /// The sender is banned: nothing is done (the group is not recorded).
    Banned,
    /// The owner's `/on` or `/off`: switch the bot and say so.
    Power(bool),
    /// The bot is switched off: nothing more is done.
    Disabled,
    /// Go on and check whether the sender is muted.
    CheckMute,
}

/// The owner's power command in a message text, if any.
pub open spec fn power_spec(text: Option<Seq<char>>, is_owner: bool) -> Option<bool> {
    match text {
        Some(t) => if is_owner && trim_spec(t) == "/off"@ {
            Some(false)
        } else if is_owner && trim_spec(t) == "/on"@ {
            Some(true)
        } else {
            None
        },
        None => None,
    }
}

/// Admission of a message, checked in this order: a banned sender, the
/// owner's power command, the bot switched off, then the mute check.
pub open spec fn admission_spec(banned: bool, text: Option<Seq<char>>, is_owner: bool, enabled: bool) -> Admission {
    if banned {
        Admission::Banned
    } else if power_spec(text, is_owner) is Some {
        Admission::Power(power_spec(text, is_owner)->0)
    } else if !enabled {
        Admission::Disabled
    } else {
        Admission::CheckMute
    }
}

/// Decides the admission of a message (see [`admission_spec`]): `banned` and
/// `enabled` are what is stored, `text` the message text.
pub fn admit_update(banned: bool, text: Option<&str>, is_owner: bool, enabled: bool) -> (r: Admission)
    ensures
        r == admission_spec(banned, opt_str(text), is_owner, enabled),
{
    if banned {
        return Admission::Banned;
    }
    let power = match text {
        Some(t) => crate::replies::power_command(t, is_owner),
        None => None,
    };
    match power {
        Some(on) => Admission::Power(on),
        None => if !enabled {
            Admission::Disabled
        } else {
            Admission::CheckMute
        },
    }
}

/// What a mute does to a message.
#[derive(Debug, Clone, Copy, PartialEq, Eq, Structural)]
pub enum MuteCheck {
    /// Not muted: handle the message.
    Proceed,
    /// Muted, in a group, and not talking to the bot: ignore it.
    Silent,
    /// Muted: tell the sender how many minutes are left.
    Reply(i64),
}

/// The mute check: `muted_until` is the end of the sender's mute while it
/// lasts; in a group only a message meant for the bot is answered.
pub open spec fn mute_check_spec(muted_until: Option<i64>, is_group: bool, directed: bool, now: i64) -> MuteCheck {
    match muted_until {
        None => MuteCheck::Proceed,
        Some(u) => if is_group && !directed {
            MuteCheck::Silent
        } else {
            MuteCheck::Reply(crate::replies::minutes_left_spec(u, now) as i64)
        },
    }
}

/// Decides the mute check (see [`mute_check_spec`]).
pub fn check_mute(muted_until: Option<i64>, is_group: bool, directed: bool, now: i64) -> (r: MuteCheck)
    ensures
        r == mute_check_spec(muted_until, is_group, directed, now),
{
    match muted_until {
        None => MuteCheck::Proceed,
        Some(u) => if is_group && !directed {
            MuteCheck::Silent
        } else {
            MuteCheck::Reply(crate::replies::mute_minutes_left(u, now))
        },
    }
}

// ---------------------------------------------------------------------
// Private messages
// ---------------------------------------------------------------------

/// Where a private text message goes.
pub enum PrivateRoute {
    /// Nothing (an owner-only or admin-only command from someone else, or
    /// an argument that does not parse).
    Ignore,
    See,
    List,
    AddMute,
    RemoveMute,
    SetSystemPromptEnabled(bool),
    How,
    /// Show or hide a model (by its short name).
    SetModelShown(&'static str, bool),
    /// Reply with how to use a command.
    Usage(&'static str),
    AddAdmin(i64),
    RemoveAdmin(i64),
    /// `/removeadmin` on the owner.
    RemoveOwnerRefused,
    /// `/ban` of a user given by id or username.
    Ban(String),
    Unban(String),
    ChangeModel,
    Start,
    SetGroupModel(&'static str),
    ChatMenu,
    Support,
    Back,
    SelectModel(&'static str),
    /// Show the model menu, in a new conversation if `true`.
    ModelMenu(bool),
    /// Part of the conversation with the model.
    Conversation,
}

/// The mathematical content of a [`PrivateRoute`].
pub enum RouteSpec {
    Ignore,
    See,
    List,
    AddMute,
    RemoveMute,
    SetSystemPromptEnabled(bool),
    How,
    SetModelShown(Seq<char>, bool),
    Usage(Seq<char>),
    AddAdmin(i64),
    RemoveAdmin(i64),
    RemoveOwnerRefused,
    Ban(Seq<char>),
    Unban(Seq<char>),
    ChangeModel,
    Start,
    SetGroupModel(Seq<char>),
    ChatMenu,
    Support,
    Back,
    SelectModel(Seq<char>),
    ModelMenu(bool),
    Conversation,
}

impl PrivateRoute {
    pub open spec fn spec(&self) -> RouteSpec {
        match self {
            PrivateRoute::Ignore => RouteSpec::Ignore,
            PrivateRoute::See => RouteSpec::See,
            PrivateRoute::List => RouteSpec::List,
            PrivateRoute::AddMute => RouteSpec::AddMute,
            PrivateRoute::RemoveMute => RouteSpec::RemoveMute,
            PrivateRoute::SetSystemPromptEnabled(b) => RouteSpec::SetSystemPromptEnabled(*b),
            PrivateRoute::How => RouteSpec::How,
            PrivateRoute::SetModelShown(m, b) => RouteSpec::SetModelShown(m@, *b),
            PrivateRoute::Usage(u) => RouteSpec::Usage(u@),
            PrivateRoute::AddAdmin(t) => RouteSpec::AddAdmin(*t),
            PrivateRoute::RemoveAdmin(t) => RouteSpec::RemoveAdmin(*t),
            PrivateRoute::RemoveOwnerRefused => RouteSpec::RemoveOwnerRefused,
            PrivateRoute::Ban(t) => RouteSpec::Ban(t@),
            PrivateRoute::Unban(t) => RouteSpec::Unban(t@),
            PrivateRoute::ChangeModel => RouteSpec::ChangeModel,
            PrivateRoute::Start => RouteSpec::Start,
            PrivateRoute::SetGroupModel(m) => RouteSpec::SetGroupModel(m@),
            PrivateRoute::ChatMenu => RouteSpec::ChatMenu,
            PrivateRoute::Support => RouteSpec::Support,
            PrivateRoute::Back => RouteSpec::Back,
            PrivateRoute::SelectModel(m) => RouteSpec::SelectModel(m@),
            PrivateRoute::ModelMenu(b) => RouteSpec::ModelMenu(*b),
            PrivateRoute::Conversation => RouteSpec::Conversation,
        }
    }
}

/// `r` for the owner, nothing for anyone else.
pub open spec fn owner_only(is_owner: bool, r: RouteSpec) -> RouteSpec {
    if is_owner {
        r
    } else {
        RouteSpec::Ignore
    }
}

/// The visibility commands: (command, model short name, shown).
pub open spec fn visibility_command(t: Seq<char>) -> Option<(Seq<char>, bool)> {
    if t == "/deepseekoffshow"@ {
        Some(("deepseek"@, false))
    } else if t == "/gptoffshow"@ {
        Some(("groq"@, false))
    } else if t == "/gemenioffshow"@ {
        Some(("gemini"@, false))
    } else if t == "/deepseekshowon"@ {
        Some(("deepseek"@, true))
    } else if t == "/gptshowon"@ {
        Some(("groq"@, true))
    } else if t == "/gemenishowon"@ {
        Some(("gemini"@, true))
    } else {
        None
    }
}

/// The route of a visibility command.
pub open spec fn visibility_route_spec(p: (Seq<char>, bool)) -> RouteSpec {
    RouteSpec::SetModelShown(p.0, p.1)
}

/// `/addadmin <id>` and `/removeadmin <id>` from the owner.
pub open spec fn admin_command_spec(
    text: Seq<char>,
    add: bool,
    owner_id: i64,
) -> RouteSpec {
    let parts = words(text);
    if parts.len() != 2 {
        RouteSpec::Usage(
            if add {
                "فرمت: `/addadmin آیدی_عددی`"@
            } else {
                "فرمت: `/removeadmin آیدی_عددی`"@
            },
        )
    } else {
        match parse_i64_spec(parts[1]) {
            None => RouteSpec::Ignore,
            Some(t) => if add {
                RouteSpec::AddAdmin(t)
            } else if t == owner_id {
                RouteSpec::RemoveOwnerRefused
            } else {
                RouteSpec::RemoveAdmin(t)
            },
        }
    }
}

/// `/ban <ref>` and `/unban <ref>` from an admin.
pub open spec fn ban_command_spec(text: Seq<char>, ban: bool) -> RouteSpec {
    let parts = words(text);
    if parts.len() != 2 {
        RouteSpec::Usage(
            if ban {
                "فرمت: `/ban آیدی یا @یوزرنیم`"@
            } else {
                "فرمت: `/unban آیدی یا @یوزرنیم`"@
            },
        )
    } else if ban {
        RouteSpec::Ban(parts[1])
    } else {
        RouteSpec::Unban(parts[1])
    }
}

/// Where a private text goes, checked in this order: the owner's
/// commands `/see`, `/list`, `/add`, `/remove`, `/ison`, `/isoff`, `/how`,
/// the visibility commands, `/addadmin`, `/removeadmin`; the admins'
/// `/ban`, `/unban`; the owner's `/changemodel`; `/start`; the owner's
/// choice of the group model while choosing it; the menu buttons and
/// model choices; `/model` and `/newchat`; and otherwise the conversation.
pub open spec fn private_route_spec(
    text: Seq<char>,
    user_id: i64,
    owner_id: i64,
    is_admin: bool,
    stage: Seq<char>,
) -> RouteSpec {
    private_route_with(text, lowercase(trim_spec(text)), user_id, owner_id, is_admin, stage)
}

/// [`private_route_spec`], given the trimmed text lower-cased (`lower`).
pub open spec fn private_route_with(
    text: Seq<char>,
    lower: Seq<char>,
    user_id: i64,
    owner_id: i64,
    is_admin: bool,
    stage: Seq<char>,
) -> RouteSpec {
    let is_owner = user_id == owner_id;
    let trimmed = trim_spec(text);
    if starts_with_spec(text, "/see"@) {
        owner_only(is_owner, RouteSpec::See)
    } else if starts_with_spec(text, "/list"@) {
        owner_only(is_owner, RouteSpec::List)
    } else if starts_with_spec(text, "/add "@) || text == "/add"@ {
        owner_only(is_owner, RouteSpec::AddMute)
    } else if starts_with_spec(text, "/remove "@) || text == "/remove"@ {
        owner_only(is_owner, RouteSpec::RemoveMute)
    } else if trimmed == "/ison"@ {
        owner_only(is_owner, RouteSpec::SetSystemPromptEnabled(true))
    } else if trimmed == "/isoff"@ {
        owner_only(is_owner, RouteSpec::SetSystemPromptEnabled(false))
    } else if starts_with_spec(text, "/how"@) {
        owner_only(is_owner, RouteSpec::How)
    } else if visibility_command(trimmed) is Some {
        owner_only(is_owner, visibility_route_spec(visibility_command(trimmed)->0))
    } else if starts_with_spec(text, "/addadmin"@) {
        owner_only(is_owner, admin_command_spec(text, true, owner_id))
    } else if starts_with_spec(text, "/removeadmin"@) {
        owner_only(is_owner, admin_command_spec(text, false, owner_id))
    } else if starts_with_spec(text, "/ban"@) {
        if is_admin {
            ban_command_spec(text, true)
        } else {
            RouteSpec::Ignore
        }
    } else if starts_with_spec(text, "/unban"@) {
        if is_admin {
            ban_command_spec(text, false)
        } else {
            RouteSpec::Ignore
        }
    } else if trimmed == "/changemodel"@ {
        owner_only(is_owner, RouteSpec::ChangeModel)
    } else if trimmed == "/start"@ {
        RouteSpec::Start
    } else if stage == "group_model_select"@ && is_owner && chat_model_spec(trim_spec(trimmed)) is Some {
        RouteSpec::SetGroupModel(chat_model_spec(trim_spec(trimmed))->0)
    } else if trimmed == BTN_CHAT_AI@ || lower == "/chat"@ || lower == "chat"@ {
        RouteSpec::ChatMenu
    } else if trimmed == BTN_SUPPORT@ {
        RouteSpec::Support
    } else if trimmed == BTN_BACK@ {
        RouteSpec::Back
    } else if chat_model_spec(trim_spec(trimmed)) is Some {
        RouteSpec::SelectModel(chat_model_spec(trim_spec(trimmed))->0)
    } else if text == "/model"@ {
        RouteSpec::ModelMenu(false)
    } else if text == "/newchat"@ {
        RouteSpec::ModelMenu(true)
    } else {
        RouteSpec::Conversation
    }
}

/// The routes only the owner may take.
pub open spec fn is_owner_route(r: RouteSpec) -> bool {
    match r {
        RouteSpec::See | RouteSpec::List | RouteSpec::AddMute | RouteSpec::RemoveMute
        | RouteSpec::SetSystemPromptEnabled(_) | RouteSpec::How | RouteSpec::SetModelShown(_, _)
        | RouteSpec::AddAdmin(_) | RouteSpec::RemoveAdmin(_) | RouteSpec::RemoveOwnerRefused
        | RouteSpec::ChangeModel | RouteSpec::SetGroupModel(_) => true,
        _ => false,
    }
}

/// Only the owner reaches the owner's commands, and only bot admins reach
/// `/ban` and `/unban`.
pub proof fn law_private_commands_need_rights(
    text: Seq<char>,
    user_id: i64,
    owner_id: i64,
    is_admin: bool,
    stage: Seq<char>,
)
    ensures
        user_id != owner_id ==> !is_owner_route(
            private_route_spec(text, user_id, owner_id, is_admin, stage),
        ),
        !is_admin ==> !(private_route_spec(text, user_id, owner_id, is_admin, stage) is Ban)
            && !(private_route_spec(text, user_id, owner_id, is_admin, stage) is Unban),
{
}

fn owner_gate(is_owner: bool, r: PrivateRoute) -> (out: PrivateRoute)
    ensures
        out.spec() == owner_only(is_owner, r.spec()),
{
    if is_owner {
        r
    } else {
        PrivateRoute::Ignore
    }
}

fn visibility_route(t: &str) -> (r: Option<(&'static str, bool)>)
    ensures
        match r {
            Some(p) => visibility_command(t@) == Some((p.0@, p.1)),
            None => visibility_command(t@) is None,
        },
{
    if str_eq(t, "/deepseekoffshow") {
        Some(("deepseek", false))
    } else if str_eq(t, "/gptoffshow") {
        Some(("groq", false))
    } else if str_eq(t, "/gemenioffshow") {
        Some(("gemini", false))
    } else if str_eq(t, "/deepseekshowon") {
        Some(("deepseek", true))
    } else if str_eq(t, "/gptshowon") {
        Some(("groq", true))
    } else if str_eq(t, "/gemenishowon") {
        Some(("gemini", true))
    } else {
        None
    }
}

fn admin_command(text: &str, add: bool, owner_id: i64) -> (r: PrivateRoute)
    ensures
        r.spec() == admin_command_spec(text@, add, owner_id),
{
    let parts = split_whitespace(text);
    if parts.len() != 2 {
        return PrivateRoute::Usage(
            if add {
                "فرمت: `/addadmin آیدی_عددی`"
            } else {
                "فرمت: `/removeadmin آیدی_عددی`"
            },
        );
    }
    assert(views(parts@)[1] == parts@[1]@);
    match parse_i64(parts[1].as_str()) {
        None => PrivateRoute::Ignore,
        Some(t) => if add {
            PrivateRoute::AddAdmin(t)
        } else if t == owner_id {
            PrivateRoute::RemoveOwnerRefused
        } else {
            PrivateRoute::RemoveAdmin(t)
        },
    }
}

fn ban_command(text: &str, ban: bool) -> (r: PrivateRoute)
    ensures
        r.spec() == ban_command_spec(text@, ban),
{
    let parts = split_whitespace(text);
    if parts.len() != 2 {
        return PrivateRoute::Usage(
            if ban {
                "فرمت: `/ban آیدی یا @یوزرنیم`"
            } else {
                "فرمت: `/unban آیدی یا @یوزرنیم`"
            },
        );
    }
    assert(views(parts@)[1] == parts@[1]@);
    let target = parts[1].clone();
    if ban {
        PrivateRoute::Ban(target)
    } else {
        PrivateRoute::Unban(target)
    }
}

/// Routes a private text message (see [`private_route_spec`]). `stage`
/// is the stored menu stage of the chat.
pub fn route_private_text(
    text: &str,
    user_id: i64,
    owner_id: i64,
    is_admin: bool,
    stage: &str,
) -> (r: PrivateRoute)
    ensures
        r.spec() == private_route_spec(text@, user_id, owner_id, is_admin, stage@),
{
    let trimmed = trim(text);
    let lower = to_lowercase(trimmed.as_str());
    route_private_text_with(text, lower.as_str(), user_id, owner_id, is_admin, stage)
}

/// Routes a private text message given its trimmed text lower-cased (see
/// [`private_route_with`]).
pub fn route_private_text_with(
    text: &str,
    lower: &str,
    user_id: i64,
    owner_id: i64,
    is_admin: bool,
    stage: &str,
) -> (r: PrivateRoute)
    ensures
        r.spec() == private_route_with(text@, lower@, user_id, owner_id, is_admin, stage@),
{
    let is_owner = user_id == owner_id;
    let trimmed_s = trim(text);
    let trimmed = trimmed_s.as_str();
    if starts_with(text, "/see") {
        owner_gate(is_owner, PrivateRoute::See)
    } else if starts_with(text, "/list") {
        owner_gate(is_owner, PrivateRoute::List)
    } else if starts_with(text, "/add ") || str_eq(text, "/add") {
        owner_gate(is_owner, PrivateRoute::AddMute)
    } else if starts_with(text, "/remove ") || str_eq(text, "/remove") {
        owner_gate(is_owner, PrivateRoute::RemoveMute)
    } else if str_eq(trimmed, "/ison") {
        owner_gate(is_owner, PrivateRoute::SetSystemPromptEnabled(true))
    } else if str_eq(trimmed, "/isoff") {
        owner_gate(is_owner, PrivateRoute::SetSystemPromptEnabled(false))
    } else if starts_with(text, "/how") {
        owner_gate(is_owner, PrivateRoute::How)
    } else if let Some((name, shown)) = visibility_route(trimmed) {
        owner_gate(is_owner, PrivateRoute::SetModelShown(name, shown))
    } else if starts_with(text, "/addadmin") {
        owner_gate(is_owner, admin_command(text, true, owner_id))
    } else if starts_with(text, "/removeadmin") {
        owner_gate(is_owner, admin_command(text, false, owner_id))
    } else if starts_with(text, "/ban") {
        if is_admin {
            ban_command(text, true)
        } else {
            PrivateRoute::Ignore
        }
    } else if starts_with(text, "/unban") {
        if is_admin {
            ban_command(text, false)
        } else {
            PrivateRoute::Ignore
        }
    } else if str_eq(trimmed, "/changemodel") {
        owner_gate(is_owner, PrivateRoute::ChangeModel)
    } else if str_eq(trimmed, "/start") {
        PrivateRoute::Start
    } else {
        let chosen = resolve_chat_model_id(trimmed);
        if str_eq(stage, "group_model_select") && is_owner && chosen.is_some() {
            match chosen {
                Some(m) => PrivateRoute::SetGroupModel(m),
                None => PrivateRoute::Ignore,
            }
        } else {
            if str_eq(trimmed, BTN_CHAT_AI) || str_eq(lower, "/chat") || str_eq(lower, "chat") {
                PrivateRoute::ChatMenu
            } else if str_eq(trimmed, BTN_SUPPORT) {
                PrivateRoute::Support
            } else if str_eq(trimmed, BTN_BACK) {
                PrivateRoute::Back
            } else if let Some(m) = chosen {
                PrivateRoute::SelectModel(m)
            } else if str_eq(text, "/model") {
                PrivateRoute::ModelMenu(false)
            } else if str_eq(text, "/newchat") {
                PrivateRoute::ModelMenu(true)
            } else {
                PrivateRoute::Conversation
            }
        }
    }
}


// ---------------------------------------------------------------------
// Group messages
// ---------------------------------------------------------------------

/// Whether a group message is meant for the bot, on lower-cased texts: a
/// reply to a bot whose `@username` is the bot's username, or a text that
/// contains the bot's username.
pub open spec fn directed_lower_spec(
    reply_from_is_bot: bool,
    reply_at_name: Option<Seq<char>>,
    text: Option<Seq<char>>,
    bot_username: Seq<char>,
) -> bool {
    let reply_to_bot = reply_from_is_bot && match reply_at_name {
        Some(u) => u == bot_username,
        None => false,
    };
    let mentioned = match text {
        Some(t) => contains_spec(t, bot_username),
        None => false,
    };
    reply_to_bot || mentioned
}

/// Whether a group message is meant for the bot: a reply to a bot whose
/// `@username`, lower-cased, is the bot's username lower-cased; or a text
/// that, lower-cased, contains the bot's username lower-cased.
pub open spec fn directed_spec(
    reply_from_is_bot: bool,
    reply_from_username: Option<Seq<char>>,
    text: Option<Seq<char>>,
    bot_username: Seq<char>,
) -> bool {
    directed_lower_spec(
        reply_from_is_bot,
        match reply_from_username {
            Some(u) => Some(lowercase("@"@ + u)),
            None => None,
        },
        match text {
            Some(t) => Some(lowercase(t)),
            None => None,
        },
        lowercase(bot_username),
    )
}

/// The view of an optional text.
pub open spec fn opt_str(s: Option<&str>) -> Option<Seq<char>> {
    match s {
        Some(v) => Some(v@),
        None => None,
    }
}

/// `is_directed_at_bot`, on what it reads of the message.
pub fn is_directed_at_bot(
    reply_from_is_bot: bool,
    reply_from_username: Option<&str>,
    text: Option<&str>,
    bot_username: &str,
) -> (r: bool)
    ensures
        r == directed_spec(
            reply_from_is_bot,
            opt_str(reply_from_username),
            opt_str(text),
            bot_username@,
        ),
{
    let bot_lower = to_lowercase(bot_username);
    let name_lower = match reply_from_username {
        Some(u) => {
            let at = concat("@", u);
            Some(to_lowercase(at.as_str()))
        },
        None => None,
    };
    let text_lower = match text {
        Some(t) => Some(to_lowercase(t)),
        None => None,
    };
    let n = match &name_lower {
        Some(l) => Some(l.as_str()),
        None => None,
    };
    let t = match &text_lower {
        Some(l) => Some(l.as_str()),
        None => None,
    };
    directed_at_bot_lower(reply_from_is_bot, n, t, bot_lower.as_str())
}

/// Whether a group message is meant for the bot, given the lower-cased
/// `@username` of the replied-to sender, the lower-cased text and the
/// lower-cased username of the bot (see [`directed_lower_spec`]).
pub fn directed_at_bot_lower(
    reply_from_is_bot: bool,
    reply_at_name: Option<&str>,
    text: Option<&str>,
    bot_username: &str,
) -> (r: bool)
    ensures
        r == directed_lower_spec(
            reply_from_is_bot,
            opt_str(reply_at_name),
            opt_str(text),
            bot_username@,
        ),
{
    let reply_to_bot = reply_from_is_bot && match reply_at_name {
        Some(u) => str_eq(u, bot_username),
        None => false,
    };
    let mentioned = match text {
        Some(t) => contains(t, bot_username),
        None => false,
    };
    reply_to_bot || mentioned
}

/// What the commands of a group message ask for, before its content is
/// checked against the locks.
pub enum GroupCommand {
    /// A rank command on the replied-to member.
    Rank(RankCommand),
    /// Restrict the replied-to member from a content type.
    RestrictUser(&'static str),
    /// Lift the replied-to member's restriction.
    LiftUser(&'static str),
    /// Lock (`true`) or unlock a content type for the whole group.
    GroupLock(bool, &'static str),
    /// No such command: go on.
    Continue,
}

/// The rank and lock commands of a group message. `reply` is the
/// replied-to sender as (id, is a bot); a rank or member command needs a
/// non-zero, non-bot target (otherwise the message goes on), a lock
/// command without a reply applies to the whole group.
pub open spec fn group_command_spec(text: Seq<char>, reply: Option<(i64, bool)>) -> (
    int,
    Option<RankCommand>,
    bool,
    Seq<char>,
) {
    group_command_with(command_word(text), reply)
}

/// [`group_command_spec`], given the command word of the message.
pub open spec fn group_command_with(word: Seq<char>, reply: Option<(i64, bool)>) -> (
    int,
    Option<RankCommand>,
    bool,
    Seq<char>,
) {
    let valid = reply matches Some(t) && t.0 != 0 && !t.1;
    let rc = rank_command_spec(word);
    if valid && rc is Some {
        (1, rc, false, seq![])
    } else {
        match lock_command_spec(word) {
            Some(p) => if reply is Some {
                if valid {
                    if p.0 {
                        (2, None, true, p.1)
                    } else {
                        (3, None, false, p.1)
                    }
                } else {
                    (0, None, false, seq![])
                }
            } else {
                (4, None, p.0, p.1)
            },
            None => (0, None, false, seq![]),
        }
    }
}

/// The group command of a message (see [`group_command_spec`]: 1 `Rank`,
/// 2 `RestrictUser`, 3 `LiftUser`, 4 `GroupLock`, 0 `Continue`).
pub fn route_group_command(text: &str, reply: Option<(i64, bool)>) -> (r: GroupCommand)
    ensures
        ({
            let e = group_command_spec(text@, reply);
            match r {
                GroupCommand::Rank(c) => e.0 == 1 && e.1 == Some(c),
                GroupCommand::RestrictUser(lt) => e.0 == 2 && e.3 == lt@,
                GroupCommand::LiftUser(lt) => e.0 == 3 && e.3 == lt@,
                GroupCommand::GroupLock(l, lt) => e.0 == 4 && e.2 == l && e.3 == lt@,
                GroupCommand::Continue => e.0 == 0,
            }
        }),
{
    let word = command_word_of(text);
    route_group_command_word(word.as_str(), reply)
}

/// The group command of a message given its command word (see
/// [`group_command_with`]).
pub fn route_group_command_word(word: &str, reply: Option<(i64, bool)>) -> (r: GroupCommand)
    ensures
        ({
            let e = group_command_with(word@, reply);
            match r {
                GroupCommand::Rank(c) => e.0 == 1 && e.1 == Some(c),
                GroupCommand::RestrictUser(lt) => e.0 == 2 && e.3 == lt@,
                GroupCommand::LiftUser(lt) => e.0 == 3 && e.3 == lt@,
                GroupCommand::GroupLock(l, lt) => e.0 == 4 && e.2 == l && e.3 == lt@,
                GroupCommand::Continue => e.0 == 0,
            }
        }),
{
    let valid = match reply {
        Some((id, is_bot)) => id != 0 && !is_bot,
        None => false,
    };
    if valid {
        if let Some(rc) = resolve_rank_command_word(word) {
            return GroupCommand::Rank(rc);
        }
    }
    match parse_lock_command_word(word) {
        Some((is_lock, lt)) => {
            if reply.is_some() {
                if valid {
                    if is_lock {
                        GroupCommand::RestrictUser(lt)
                    } else {
                        GroupCommand::LiftUser(lt)
                    }
                } else {
                    GroupCommand::Continue
                }
            } else {
                GroupCommand::GroupLock(is_lock, lt)
            }
        },
        None => GroupCommand::Continue,
    }
}

/// The minutes a member restriction lasts: the last word of the message,
/// when it is a number.
pub open spec fn lock_minutes_spec(text: Seq<char>) -> Option<i64> {
    let ws = words(text);
    if ws.len() == 0 {
        None
    } else {
        parse_i64_spec(ws.last())
    }
}

/// The minutes of a restriction command.
pub fn lock_minutes(text: &str) -> (r: Option<i64>)
    ensures
        r == lock_minutes_spec(text@),
{
    let ws = split_whitespace(text);
    if ws.len() == 0 {
        None
    } else {
        assert(views(ws@).last() == ws@[ws@.len() - 1]@);
        parse_i64(ws[ws.len() - 1].as_str())
    }
}

/// The time `minutes` after `now` (in seconds), in the two's-complement
/// arithmetic of a release build.
pub fn after_minutes(now: i64, minutes: i64) -> (r: i64)
    ensures
        r == now.wrapping_add(minutes.wrapping_mul(60)),
{
    now.wrapping_add(minutes.wrapping_mul(60))
}

/// When a restriction of `minutes` set at `now` ends (`None`: never).
pub fn restriction_until(minutes: Option<i64>, now: i64) -> (r: Option<i64>)
    ensures
        match minutes {
            Some(m) => r == Some(now.wrapping_add(m.wrapping_mul(60))),
            None => r is None,
        },
{
    match minutes {
        Some(m) => Some(after_minutes(now, m)),
        None => None,
    }
}

/// What a group message asks for once it passed the lock check.
pub enum GroupRoute {
    /// Answer "بله".
    ReplyYes,
    /// `/ban` (decided by `protection::group_ban_decision`).
    Ban,
    /// Unban this user id.
    Unban(i64),
    /// Show the model menu.
    ModelMenu,
    /// Ask the model this question.
    AskAi(String),
    /// Nothing.
    Ignore,
}

/// Where a group message goes once it passed the lock check: the bare
/// word "بات", then `/ban`, `/unban <id>` (staff only), `/model`, and a
/// question to the bot (its text without the bot's username, trimmed, when
/// not empty).
pub open spec fn group_route_spec(
    text: Seq<char>,
    sender: Rank,
    directed: bool,
    bot_username: Seq<char>,
) -> (int, Seq<char>, i64) {
    let t = trim_spec(text);
    if t == "بات"@ {
        (1, seq![], 0)
    } else if starts_with_spec(t, "/ban"@) {
        (2, seq![], 0)
    } else if starts_with_spec(t, "/unban"@) {
        if !is_staff_rank(sender) || words(t).len() != 2 {
            (0, seq![], 0)
        } else {
            match parse_i64_spec(words(t)[1]) {
                Some(id) => (3, seq![], id),
                None => (0, seq![], 0),
            }
        }
    } else if t == "/model"@ {
        (4, seq![], 0)
    } else if !directed {
        (0, seq![], 0)
    } else {
        let clean = trim_spec(remove_all_spec(text, bot_username));
        if clean.len() == 0 {
            (0, seq![], 0)
        } else {
            (5, clean, 0)
        }
    }
}

/// Only staff (first owner, owners, admins) unban from a group.
pub proof fn law_group_unban_needs_staff(
    text: Seq<char>,
    sender: Rank,
    directed: bool,
    bot_username: Seq<char>,
)
    ensures
        group_route_spec(text, sender, directed, bot_username).0 == 3 ==> is_staff_rank(sender),
{
}

/// Where a group message goes: the bare word "بات" is answered, any
/// message starting with "/ban" goes to the ban decision whoever sends it,
/// "/unban" from anyone but staff is ignored, "/model" opens the menu, and
/// any other text is ignored unless directed at the bot, in which case it
/// is asked as a question (without the bot's username, trimmed) when
/// something is left.
pub proof fn law_group_routes(text: Seq<char>, sender: Rank, directed: bool, bot_username: Seq<char>)
    ensures
        ({
            let t = trim_spec(text);
            let r = group_route_spec(text, sender, directed, bot_username);
            let clean = trim_spec(remove_all_spec(text, bot_username));
            &&& t == "بات"@ ==> r.0 == 1
            &&& starts_with_spec(t, "/ban"@) ==> r.0 == 2
            &&& starts_with_spec(t, "/unban"@) && !(sender == Rank::FirstOwner || sender == Rank::Owner
                || sender == Rank::Admin) ==> r.0 == 0
            &&& t == "/model"@ ==> r.0 == 4
            &&& t != "بات"@ && !starts_with_spec(t, "/ban"@) && !starts_with_spec(t, "/unban"@) && t
                != "/model"@ ==> r == (if directed && clean.len() > 0 {
                (5int, clean, 0i64)
            } else {
                (0int, Seq::<char>::empty(), 0i64)
            })
        }),
{
    let t = trim_spec(text);
    reveal_strlit("/unban");
    reveal_strlit("/ban");
    reveal_strlit("/model");
    reveal_strlit("بات");
    if starts_with_spec(t, "/ban"@) {
        assert(t.subrange(0, 4)[0] == t[0]);
        assert(t != "بات"@);
    }
    if starts_with_spec(t, "/unban"@) {
        assert(t.subrange(0, 6)[0] == t[0]);
        assert(t.subrange(0, 6)[1] == t[1]);
        assert(t != "بات"@);
        if starts_with_spec(t, "/ban"@) {
            assert(t.subrange(0, 4)[1] == t[1]);
        }
    }
    if t == "/model"@ {
        assert(t[1] == 'm');
        if starts_with_spec(t, "/ban"@) {
            assert(t.subrange(0, 4)[1] == t[1]);
        }
        if starts_with_spec(t, "/unban"@) {
            assert(t.subrange(0, 6)[1] == t[1]);
        }
        assert(t != "بات"@) by {
            assert(t[0] == '/');
        }
    }
}

/// Staff unban: "/unban <id>" (after trimming, two words, the second a
/// number) from the first owner, an owner or an admin is routed to
/// unbanning that id, whoever the message is directed at.
pub proof fn law_staff_unban(text: Seq<char>, sender: Rank, directed: bool, bot_username: Seq<char>)
    requires
        sender == Rank::FirstOwner || sender == Rank::Owner || sender == Rank::Admin,
        starts_with_spec(trim_spec(text), "/unban"@),
        words(trim_spec(text)).len() == 2,
        parse_i64_spec(words(trim_spec(text))[1]) is Some,
    ensures
        group_route_spec(text, sender, directed, bot_username) == (
            3int,
            Seq::<char>::empty(),
            parse_i64_spec(words(trim_spec(text))[1])->0,
        ),
{
    let t = trim_spec(text);
    reveal_strlit("/unban");
    reveal_strlit("/ban");
    reveal_strlit("بات");
    assert(t[1] == "/unban"@[1]) by {
        assert(t.subrange(0, 6)[1] == t[1]);
    }
    assert(t != "بات"@) by {
        assert(t.subrange(0, 6)[0] == t[0]);
    }
    assert(!starts_with_spec(t, "/ban"@)) by {
        if starts_with_spec(t, "/ban"@) {
            assert(t.subrange(0, 4)[1] == t[1]);
        }
    }
}

/// Routes a group message that passed the lock check (see
/// [`group_route_spec`]: 1 `ReplyYes`, 2 `Ban`, 3 `Unban`, 4 `ModelMenu`,
/// 5 `AskAi`, 0 `Ignore`).
pub fn route_group_text(text: &str, sender_rank: Rank, directed: bool, bot_username: &str) -> (r:
    GroupRoute)
    ensures
        ({
            let e = group_route_spec(text@, sender_rank, directed, bot_username@);
            match r {
                GroupRoute::ReplyYes => e.0 == 1,
                GroupRoute::Ban => e.0 == 2,
                GroupRoute::Unban(id) => e.0 == 3 && e.2 == id,
                GroupRoute::ModelMenu => e.0 == 4,
                GroupRoute::AskAi(q) => e.0 == 5 && e.1 == q@,
                GroupRoute::Ignore => e.0 == 0,
            }
        }),
{
    let t = trim(text);
    if str_eq(t.as_str(), "بات") {
        return GroupRoute::ReplyYes;
    }
    if starts_with(t.as_str(), "/ban") {
        return GroupRoute::Ban;
    }
    if starts_with(t.as_str(), "/unban") {
        let staff = sender_rank == Rank::FirstOwner || sender_rank == Rank::Owner || sender_rank
            == Rank::Admin;
        if !staff {
            return GroupRoute::Ignore;
        }
        let parts = split_whitespace(t.as_str());
        if parts.len() != 2 {
            return GroupRoute::Ignore;
        }
        assert(views(parts@)[1] == parts@[1]@);
        return match parse_i64(parts[1].as_str()) {
            Some(id) => GroupRoute::Unban(id),
            None => GroupRoute::Ignore,
        };
    }
    if str_eq(t.as_str(), "/model") {
        return GroupRoute::ModelMenu;
    }
    if !directed {
        return GroupRoute::Ignore;
    }
    let removed = remove_all(text, bot_username);
    let clean = trim(removed.as_str());
    if clean.as_str().is_empty() {
        GroupRoute::Ignore
    } else {
        GroupRoute::AskAi(clean)
    }
}

/// Whether a chat type is a group (a group or a supergroup).
pub fn is_group_chat(chat_type: &str) -> (r: bool)
    ensures
        r == (chat_type@ == "group"@ || chat_type@ == "supergroup"@),
{
    str_eq(chat_type, "group") || str_eq(chat_type, "supergroup")
}

/// Whether the bot, added to a chat, registers the member who added it as
/// the first owner: the chat is a group or supergroup and the bot's new
/// status is member or administrator.
pub fn registers_first_owner(chat_type: &str, new_status: &str) -> (r: bool)
    ensures
        r == ((chat_type@ == "group"@ || chat_type@ == "supergroup"@) && (new_status@ == "member"@
            || new_status@ == "administrator"@)),
{
    is_group_chat(chat_type) && (str_eq(new_status, "member") || str_eq(new_status, "administrator"))
}

// ---------------------------------------------------------------------
// Buttons pressed
// ---------------------------------------------------------------------

/// What a button press asks for.
pub enum CallbackDecision {
    /// Only acknowledge the press.
    AnswerOnly,
    /// Acknowledge and tell the presser the button is someone else's.
    NotYourButton,
    /// Acknowledge and set the presser's model in groups.
    GroupModel(&'static str),
    /// Acknowledge and go back to the main menu.
    ChatBack,
    /// Acknowledge and set the model of the private conversation.
    ChatModel(&'static str),
}

/// The model a button key names.
pub open spec fn key_model_spec(k: Seq<char>) -> Option<Seq<char>> {
    if k == "gemini"@ {
        Some("gemini-3.5-flash-lite"@)
    } else if k == "deepseek"@ {
        Some(deepseek::MODEL@)
    } else if k == "groq"@ {
        Some(groq::MODEL@)
    } else {
        None
    }
}

fn key_model(k: &str) -> (r: Option<&'static str>)
    ensures
        match r {
            Some(m) => key_model_spec(k@) == Some(m@),
            None => key_model_spec(k@) is None,
        },
{
    if str_eq(k, "gemini") {
        Some("gemini-3.5-flash-lite")
    } else if str_eq(k, "deepseek") {
        Some(deepseek::MODEL)
    } else if str_eq(k, "groq") {
        Some(groq::MODEL)
    } else {
        None
    }
}

/// The meaning of a button's data: `model:<key>:<owner id>` sets the
/// group model of the owner (anyone else is told it is not their button);
/// `chatmodel:back` and `chatmodel:<key>` drive the private menu; anything
/// malformed or unknown is only acknowledged.
pub open spec fn callback_spec(data: Seq<char>, clicker: i64) -> (int, Seq<char>) {
    if starts_with_spec(data, "model:"@) {
        let parts = split_char_spec(data, ':');
        if parts.len() != 3 {
            (0, seq![])
        } else {
            match parse_i64_spec(parts[2]) {
                None => (0, seq![]),
                Some(owner) => if clicker != owner {
                    (1, seq![])
                } else {
                    match key_model_spec(parts[1]) {
                        Some(m) => (2, m),
                        None => (0, seq![]),
                    }
                },
            }
        }
    } else if starts_with_spec(data, "chatmodel:"@) {
        let key = data.skip("chatmodel:"@.len() as int);
        if key == "back"@ {
            (3, seq![])
        } else {
            match key_model_spec(key) {
                Some(m) => (4, m),
                None => (0, seq![]),
            }
        }
    } else {
        (0, seq![])
    }
}

/// Decides a button press (see [`callback_spec`]: 0 `AnswerOnly`, 1
/// `NotYourButton`, 2 `GroupModel`, 3 `ChatBack`, 4 `ChatModel`).
pub fn decide_callback(data: &str, clicker_id: i64) -> (r: CallbackDecision)
    ensures
        ({
            let e = callback_spec(data@, clicker_id);
            match r {
                CallbackDecision::AnswerOnly => e.0 == 0,
                CallbackDecision::NotYourButton => e.0 == 1,
                CallbackDecision::GroupModel(m) => e.0 == 2 && e.1 == m@,
                CallbackDecision::ChatBack => e.0 == 3,
                CallbackDecision::ChatModel(m) => e.0 == 4 && e.1 == m@,
            }
        }),
{
    if starts_with(data, "model:") {
        let parts = split_char(data, ':');
        if parts.len() != 3 {
            return CallbackDecision::AnswerOnly;
        }
        assert(views(parts@)[1] == parts@[1]@);
        assert(views(parts@)[2] == parts@[2]@);
        match parse_i64(parts[2].as_str()) {
            None => CallbackDecision::AnswerOnly,
            Some(owner) => {
                if clicker_id != owner {
                    CallbackDecision::NotYourButton
                } else {
                    match key_model(parts[1].as_str()) {
                        Some(m) => CallbackDecision::GroupModel(m),
                        None => CallbackDecision::AnswerOnly,
                    }
                }
            },
        }
    } else {
        match crate::text::strip_prefix(data, "chatmodel:") {
            Some(key) => {
                if str_eq(key.as_str(), "back") {
                    CallbackDecision::ChatBack
                } else {
                    match key_model(key.as_str()) {
                        Some(m) => CallbackDecision::ChatModel(m),
                        None => CallbackDecision::AnswerOnly,
                    }
                }
            },
            None => CallbackDecision::AnswerOnly,
        }
    }
}

/// A model button is honoured only for the member it was shown to.
pub proof fn law_group_model_button_owner(data: Seq<char>, clicker: i64)
    ensures
        callback_spec(data, clicker).0 == 2 ==> split_char_spec(data, ':').len() == 3
            && parse_i64_spec(split_char_spec(data, ':')[2]) == Some(clicker),
{
}

} // verus!
