//! The bot's stored records and the rules that interpret what the storage
//! layer reads: restrictions and their expiry, mutes, settings flags, model
//! visibility, forgetting markers and lookups by reference.
use crate::text::{
    concat, contains, contains_spec, owned, parse_i64, parse_i64_spec, str_eq, trim, trim_spec,
    trim_start_char, trim_start_char_spec,
};
use vstd::prelude::*;

verus! {

/// A private conversation of a user with the bot.
pub struct Chat {
    pub id: i64,
    pub title: String,
    pub model: Option<String>,
}

/// One stored message of a conversation.
pub struct Message {
    pub role: String,
    pub content: String,
}

/// A group the bot has seen.
pub struct GroupInfo {
    pub chat_id: i64,
    pub title: String,
    pub username: Option<String>,
    pub join_link: Option<String>,
}

/// A user of the bot.
pub struct UserInfo {
    pub user_id: i64,
    pub username: Option<String>,
    pub joined_at: i64,
    pub message_count: i64,
}

/// A member seen in a group.
pub struct GroupMember {
    pub user_id: i64,
    pub username: Option<String>,
    pub last_seen_at: i64,
}

/// A message of a user from any conversation, with where it came from
/// (`"private"` or `"group"`).
pub struct FullMessage {
    pub role: String,
    pub content: String,
    pub created_at: i64,
    pub source: String,
}

// ---------------------------------------------------------------------
// Restrictions
// ---------------------------------------------------------------------

/// Whether a user may not send a content type, and whether an expired
/// personal restriction is to be deleted.
#[derive(Debug, Clone, Copy, PartialEq, Eq, Structural)]
pub struct RestrictionVerdict {
    pub restricted: bool,
    pub clear_expired: bool,
}

/// `is_user_restricted` on what the storage holds: VIPs are exempt; a
/// group-wide lock applies to everyone else; otherwise the user's personal
/// restriction (`Some(None)` permanent, `Some(Some(until))` until that
/// time) applies while `until > now`, and once expired it is cleared.
pub open spec fn restriction_spec(
    is_vip: bool,
    group_locked: bool,
    personal: Option<Option<i64>>,
    now: i64,
) -> RestrictionVerdict {
    if is_vip {
        RestrictionVerdict { restricted: false, clear_expired: false }
    } else if group_locked {
        RestrictionVerdict { restricted: true, clear_expired: false }
    } else {
        match personal {
            None => RestrictionVerdict { restricted: false, clear_expired: false },
            Some(None) => RestrictionVerdict { restricted: true, clear_expired: false },
            Some(Some(until)) => if until > now {
                RestrictionVerdict { restricted: true, clear_expired: false }
            } else {
                RestrictionVerdict { restricted: false, clear_expired: true }
            },
        }
    }
}

/// `is_user_restricted`, given whether the user is a VIP, whether the
/// group locks the type, the user's personal restriction row and the time.
pub fn is_user_restricted(
    is_vip: bool,
    group_locked: bool,
    personal: Option<Option<i64>>,
    now: i64,
) -> (r: RestrictionVerdict)
    ensures
        r == restriction_spec(is_vip, group_locked, personal, now),
{
    if is_vip {
        return RestrictionVerdict { restricted: false, clear_expired: false };
    }
    if group_locked {
        return RestrictionVerdict { restricted: true, clear_expired: false };
    }
    match personal {
        None => RestrictionVerdict { restricted: false, clear_expired: false },
        Some(None) => RestrictionVerdict { restricted: true, clear_expired: false },
        Some(Some(until)) => {
            if until > now {
                RestrictionVerdict { restricted: true, clear_expired: false }
            } else {
                RestrictionVerdict { restricted: false, clear_expired: true }
            }
        },
    }
}

/// A VIP is never restricted; anyone else is restricted whenever the group
/// locks the type; a personal restriction set until `until` restricts
/// exactly before `until`.
pub proof fn law_restriction_rules(
    is_vip: bool,
    group_locked: bool,
    personal: Option<Option<i64>>,
    now: i64,
)
    ensures
        is_vip ==> !restriction_spec(is_vip, group_locked, personal, now).restricted,
        !is_vip && group_locked ==> restriction_spec(is_vip, group_locked, personal, now).restricted,
        !is_vip && !group_locked && personal == Some(Option::<i64>::None) ==> restriction_spec(
            is_vip,
            group_locked,
            personal,
            now,
        ).restricted,
        forall|until: i64|
            !is_vip && !group_locked && personal == Some(Some(until)) ==> #[trigger] restriction_spec(
                is_vip,
                group_locked,
                Some(Some(until)),
                now,
            ).restricted == (until > now),
        restriction_spec(is_vip, group_locked, personal, now).clear_expired ==> !restriction_spec(
            is_vip,
            group_locked,
            personal,
            now,
        ).restricted,
{
}

// ---------------------------------------------------------------------
// Mutes
// ---------------------------------------------------------------------

/// The state of a user's mute.
#[derive(Debug, Clone, Copy, PartialEq, Eq, Structural)]
pub enum MuteStatus {
    /// No mute is stored.
    NotMuted,
    /// Muted until the given time.
    Muted(i64),
    /// The stored mute has run out and is to be deleted.
    Expired,
}

/// `is_muted` on the stored end of the mute: active while `until > now`.
pub open spec fn mute_spec(until: Option<i64>, now: i64) -> MuteStatus {
    match until {
        None => MuteStatus::NotMuted,
        Some(u) => if u > now {
            MuteStatus::Muted(u)
        } else {
            MuteStatus::Expired
        },
    }
}

/// `is_muted`, given the stored end of the mute and the time.
pub fn is_muted(until: Option<i64>, now: i64) -> (r: MuteStatus)
    ensures
        r == mute_spec(until, now),
{
    match until {
        None => MuteStatus::NotMuted,
        Some(u) => if u > now {
            MuteStatus::Muted(u)
        } else {
            MuteStatus::Expired
        },
    }
}

// ---------------------------------------------------------------------
// Settings
// ---------------------------------------------------------------------

/// A stored on/off setting: on when it is exactly "1", `default` when it
/// is not stored (or could not be read).
pub open spec fn flag_spec(stored: Option<Seq<char>>, default: bool) -> bool {
    match stored {
        Some(v) => v == "1"@,
        None => default,
    }
}

/// The view of an optional stored text.
pub open spec fn opt_view(s: Option<&str>) -> Option<Seq<char>> {
    match s {
        Some(v) => Some(v@),
        None => None,
    }
}

/// Reads a stored on/off setting (see [`flag_spec`]).
pub fn setting_flag(stored: Option<&str>, default: bool) -> (r: bool)
    ensures
        r == flag_spec(opt_view(stored), default),
{
    match stored {
        Some(v) => str_eq(v, "1"),
        None => default,
    }
}

/// `is_bot_enabled`: on unless stored as something other than "1".
pub fn is_bot_enabled(stored: Option<&str>) -> (r: bool)
    ensures
        r == flag_spec(opt_view(stored), true),
{
    setting_flag(stored, true)
}

/// `is_system_prompt_enabled`: off unless stored as "1".
pub fn is_system_prompt_enabled(stored: Option<&str>) -> (r: bool)
    ensures
        r == flag_spec(opt_view(stored), false),
{
    setting_flag(stored, false)
}

/// The stored text of an on/off setting: "1" or "0".
pub fn flag_value(enabled: bool) -> (r: &'static str)
    ensures
        r@ == (if enabled {
            "1"@
        } else {
            "0"@
        }),
{
    if enabled {
        "1"
    } else {
        "0"
    }
}

/// Storing a flag and reading it back gives the flag.
pub proof fn law_flag_round_trip(enabled: bool, default: bool)
    ensures
        flag_spec(Some(if enabled { "1"@ } else { "0"@ }), default) == enabled,
{
    reveal_strlit("1");
    reveal_strlit("0");
    assert("0"@[0] != "1"@[0]);
}

// ---------------------------------------------------------------------
// Which models are shown
// ---------------------------------------------------------------------

/// Whether each model is offered (the three `show_*` settings).
#[derive(Debug, Clone, Copy, PartialEq, Eq, Structural)]
pub struct ModelVisibility {
    pub gemini: bool,
    pub deepseek: bool,
    pub groq: bool,
}

/// The visibility setting that governs a model id: `show_gemini` for
/// exactly "gemini-3.5-flash-lite", `show_deepseek` for ids containing
/// "deepseek", `show_groq` for ids containing "groq" or "gpt-oss"; none
/// (always shown) for anything else. 0, 1, 2 stand for the three settings.
pub open spec fn visibility_key_spec(model: Seq<char>) -> Option<int> {
    if model == "gemini-3.5-flash-lite"@ {
        Some(0)
    } else if contains_spec(model, "deepseek"@) {
        Some(1)
    } else if contains_spec(model, "groq"@) || contains_spec(model, "gpt-oss"@) {
        Some(2)
    } else {
        None
    }
}

/// `is_model_shown` on the visibility settings (see
/// [`visibility_key_spec`]).
pub open spec fn shown_spec(model: Seq<char>, vis: ModelVisibility) -> bool {
    match visibility_key_spec(model) {
        Some(k) => if k == 0 {
            vis.gemini
        } else if k == 1 {
            vis.deepseek
        } else {
            vis.groq
        },
        None => true,
    }
}

/// `is_model_shown`: whether a model is currently offered.
pub fn is_model_shown(model: &str, vis: &ModelVisibility) -> (r: bool)
    ensures
        r == shown_spec(model@, *vis),
{
    if str_eq(model, "gemini-3.5-flash-lite") {
        vis.gemini
    } else if contains(model, "deepseek") {
        vis.deepseek
    } else if contains(model, "groq") || contains(model, "gpt-oss") {
        vis.groq
    } else {
        true
    }
}

/// The three visibility settings read from stored values: each model is
/// shown unless its setting is stored as something other than "1" (a value
/// that cannot be read counts as not stored).
pub fn visibility_from_settings(
    show_gemini: Option<&str>,
    show_deepseek: Option<&str>,
    show_groq: Option<&str>,
) -> (r: ModelVisibility)
    ensures
        r == (ModelVisibility {
            gemini: flag_spec(opt_view(show_gemini), true),
            deepseek: flag_spec(opt_view(show_deepseek), true),
            groq: flag_spec(opt_view(show_groq), true),
        }),
{
    ModelVisibility {
        gemini: setting_flag(show_gemini, true),
        deepseek: setting_flag(show_deepseek, true),
        groq: setting_flag(show_groq, true),
    }
}

/// The stored value of a setting, if any.
pub open spec fn setting_of(settings: Map<Seq<char>, Seq<char>>, key: Seq<char>) -> Option<
    Seq<char>,
> {
    if settings.contains_key(key) {
        Some(settings[key])
    } else {
        None
    }
}

/// The visibility that the stored settings give (see
/// [`visibility_from_settings`]).
pub open spec fn settings_visibility(settings: Map<Seq<char>, Seq<char>>) -> ModelVisibility {
    ModelVisibility {
        gemini: flag_spec(setting_of(settings, "show_gemini"@), true),
        deepseek: flag_spec(setting_of(settings, "show_deepseek"@), true),
        groq: flag_spec(setting_of(settings, "show_groq"@), true),
    }
}

/// The visibility setting (0, 1, 2, as in [`visibility_key_spec`]) that a
/// setting key stands for.
pub open spec fn toggle_index(key: Seq<char>) -> int {
    if key == "show_gemini"@ {
        0
    } else if key == "show_deepseek"@ {
        1
    } else {
        2
    }
}

/// The setting that `set_model_shown` changes for a model name: the exact
/// names "gemini-3.5-flash-lite" or "gemini", "deepseek", "groq" or "gpt".
pub open spec fn toggle_key_spec(model: Seq<char>) -> Option<Seq<char>> {
    if model == "gemini-3.5-flash-lite"@ || model == "gemini"@ {
        Some("show_gemini"@)
    } else if model == "deepseek"@ {
        Some("show_deepseek"@)
    } else if model == "groq"@ || model == "gpt"@ {
        Some("show_groq"@)
    } else {
        None
    }
}

/// `set_model_shown`: the setting key to store, if the name is known.
pub fn model_toggle_key(model: &str) -> (r: Option<&'static str>)
    ensures
        match r {
            Some(k) => toggle_key_spec(model@) == Some(k@),
            None => toggle_key_spec(model@) is None,
        },
{
    if str_eq(model, "gemini-3.5-flash-lite") || str_eq(model, "gemini") {
        Some("show_gemini")
    } else if str_eq(model, "deepseek") {
        Some("show_deepseek")
    } else if str_eq(model, "groq") || str_eq(model, "gpt") {
        Some("show_groq")
    } else {
        None
    }
}

/// Showing or hiding a model and then reading the settings back: every
/// model of the family the name governs ("gemini" the Gemini model,
/// "deepseek" the DeepSeek models, "groq" or "gpt" the Groq models) is
/// shown exactly as set, the other families are unchanged, and a model of
/// no family stays shown.
pub proof fn law_visibility_round_trip(
    settings: Map<Seq<char>, Seq<char>>,
    name: Seq<char>,
    shown: bool,
    model: Seq<char>,
)
    requires
        toggle_key_spec(name) is Some,
    ensures
        ({
            let key = toggle_key_spec(name)->0;
            let after = settings.insert(key, if shown { "1"@ } else { "0"@ });
            &&& (name == "gemini"@ || name == "gemini-3.5-flash-lite"@) ==> toggle_index(key) == 0
            &&& name == "deepseek"@ ==> toggle_index(key) == 1
            &&& (name == "groq"@ || name == "gpt"@) ==> toggle_index(key) == 2
            &&& visibility_key_spec(model) == Some(toggle_index(key)) ==> shown_spec(
                model,
                settings_visibility(after),
            ) == shown
            &&& (visibility_key_spec(model) matches Some(k) && k != toggle_index(key)) ==> shown_spec(
                model,
                settings_visibility(after),
            ) == shown_spec(model, settings_visibility(settings))
            &&& visibility_key_spec(model) is None ==> shown_spec(model, settings_visibility(after))
        }),
{
    reveal_strlit("show_gemini");
    reveal_strlit("show_deepseek");
    reveal_strlit("show_groq");
    reveal_strlit("1");
    reveal_strlit("0");
    reveal_strlit("gemini");
    reveal_strlit("gemini-3.5-flash-lite");
    reveal_strlit("deepseek");
    reveal_strlit("groq");
    reveal_strlit("gpt");
    assert("0"@[0] != "1"@[0]);
    assert("deepseek"@ != "gemini"@ && "deepseek"@ != "gemini-3.5-flash-lite"@) by {
        assert("deepseek"@[0] != "gemini"@[0]);
        assert("deepseek"@[0] != "gemini-3.5-flash-lite"@[0]);
    }
    assert("groq"@ != "gemini"@ && "groq"@ != "gemini-3.5-flash-lite"@ && "groq"@ != "deepseek"@) by {
        assert("groq"@.len() != "gemini"@.len());
        assert("groq"@.len() != "gemini-3.5-flash-lite"@.len());
        assert("groq"@.len() != "deepseek"@.len());
    }
    assert("gpt"@ != "gemini"@ && "gpt"@ != "gemini-3.5-flash-lite"@ && "gpt"@ != "deepseek"@) by {
        assert("gpt"@.len() != "gemini"@.len());
        assert("gpt"@.len() != "gemini-3.5-flash-lite"@.len());
        assert("gpt"@.len() != "deepseek"@.len());
    }
    assert("show_gemini"@ != "show_deepseek"@) by {
        assert("show_gemini"@.len() != "show_deepseek"@.len());
    }
    assert("show_gemini"@ != "show_groq"@) by {
        assert("show_gemini"@[6] != "show_groq"@[6]);
    }
    assert("show_deepseek"@ != "show_groq"@) by {
        assert("show_deepseek"@.len() != "show_groq"@.len());
    }
}

// ---------------------------------------------------------------------
// Forgetting markers
// ---------------------------------------------------------------------

/// The marker after `mark_forgotten_before(.., id)`: the larger of the
/// stored marker and `id`.
pub open spec fn marker_after_spec(stored: Option<i64>, id: i64) -> i64 {
    match stored {
        Some(old) => if old > id {
            old
        } else {
            id
        },
        None => id,
    }
}

/// `mark_forgotten_before`: the new marker value.
pub fn mark_forgotten_before(stored: Option<i64>, last_forgotten_id: i64) -> (r: i64)
    ensures
        r == marker_after_spec(stored, last_forgotten_id),
{
    match stored {
        Some(old) => if old > last_forgotten_id {
            old
        } else {
            last_forgotten_id
        },
        None => last_forgotten_id,
    }
}

/// The forgetting marker only moves forward: after marking, it is at least
/// the old marker and at least the id marked.
pub proof fn law_marker_monotone(stored: Option<i64>, id: i64)
    ensures
        marker_after_spec(stored, id) >= id,
        stored matches Some(old) ==> marker_after_spec(stored, id) >= old,
{
}

/// The cutoff below which messages are forgotten: the marker, or 0.
pub fn forgotten_cutoff(stored: Option<i64>) -> (r: i64)
    ensures
        r == match stored {
            Some(v) => v,
            None => 0,
        },
{
    match stored {
        Some(v) => v,
        None => 0,
    }
}

/// Whether a stored message with this id is still remembered.
pub fn is_remembered(id: i64, cutoff: i64) -> (r: bool)
    ensures
        r == (id > cutoff),
{
    id > cutoff
}

// ---------------------------------------------------------------------
// Other stored values
// ---------------------------------------------------------------------

/// `is_banned`: the stored ban flag is exactly 1.
pub fn is_banned(stored: Option<i64>) -> (r: bool)
    ensures
        r == (stored == Some(1i64)),
{
    match stored {
        Some(v) => v == 1,
        None => false,
    }
}

/// `get_stage`: the stored menu stage, or "root".
pub fn get_stage(stored: Option<String>) -> (r: String)
    ensures
        r@ == match stored {
            Some(s) => s@,
            None => "root"@,
        },
{
    match stored {
        Some(s) => s,
        None => owned("root"),
    }
}

/// `list_groups_full`: a group's title, or "بدون عنوان" when none is stored.
pub fn group_title(stored: Option<String>) -> (r: String)
    ensures
        r@ == match stored {
            Some(s) => s@,
            None => "بدون عنوان"@,
        },
{
    match stored {
        Some(s) => s,
        None => owned("بدون عنوان"),
    }
}

/// `find_user_id_by_username`: the username to look up, without leading
/// `@`s.
pub fn username_key(username: &str) -> (r: String)
    ensures
        r@ == trim_start_char_spec(username@, '@'),
{
    trim_start_char(username, '@')
}

/// Where the join link stored for a group comes from.
pub enum JoinLink {
    /// The public link of a group with a username.
    Public(String),
    /// The link already stored.
    Stored(String),
    /// A new invite link is to be exported.
    Export,
}

/// The stored join link, when it is not empty.
pub open spec fn usable_link(stored: Option<String>) -> Option<Seq<char>> {
    match stored {
        Some(s) => if s@.len() > 0 {
            Some(s@)
        } else {
            None
        },
        None => None,
    }
}

/// The join link of a group: `https://t.me/<username>` for a public group,
/// else the stored link when it is not empty, else a new invite link.
pub fn join_link_source(username: Option<&str>, stored: Option<String>) -> (r: JoinLink)
    ensures
        match r {
            JoinLink::Public(l) => username matches Some(u) && l@ == "https://t.me/"@ + u@,
            JoinLink::Stored(l) => username is None && usable_link(stored) == Some(l@),
            JoinLink::Export => username is None && usable_link(stored) is None,
        },
{
    match username {
        Some(u) => JoinLink::Public(concat("https://t.me/", u)),
        None => match stored {
            Some(s) => if s.as_str().is_empty() {
                JoinLink::Export
            } else {
                JoinLink::Stored(s)
            },
            None => JoinLink::Export,
        },
    }
}

/// How a user is referred to in an owner command.
pub enum UserRef {
    /// By numeric id.
    Id(i64),
    /// By username, to be looked up (without leading `@`s).
    Username(String),
}

/// `resolve_target_user_id`: the input as a number if it parses; otherwise
/// the username to look up (see [`username_key`]).
pub fn resolve_target_user_id(input: &str) -> (r: UserRef)
    ensures
        match r {
            UserRef::Id(id) => parse_i64_spec(input@) == Some(id),
            UserRef::Username(n) => parse_i64_spec(input@) is None && n@
                == trim_start_char_spec(input@, '@'),
        },
{
    match parse_i64(input) {
        Some(id) => UserRef::Id(id),
        None => UserRef::Username(username_key(input)),
    }
}

/// How a group is referred to.
pub enum GroupRef {
    /// By its numeric id.
    Id(i64),
    /// By its username or title (without leading `@`s).
    Name(String),
}

/// `find_group_by_ref`: the trimmed input as a number if it parses, else
/// as a name with its leading `@`s removed.
pub fn find_group_by_ref(input: &str) -> (r: GroupRef)
    ensures
        match r {
            GroupRef::Id(id) => parse_i64_spec(trim_spec(input@)) == Some(id),
            GroupRef::Name(n) => parse_i64_spec(trim_spec(input@)) is None && n@
                == trim_start_char_spec(trim_spec(input@), '@'),
        },
{
    let t = trim(input);
    match parse_i64(t.as_str()) {
        Some(id) => GroupRef::Id(id),
        None => GroupRef::Name(trim_start_char(t.as_str(), '@')),
    }
}

} // verus!
