//! The texts the bot answers with, built from the values they mention.
use crate::bot::{callback_spec, display_name_spec, key_model_spec, model_display_name};
use crate::client::EmojiText;
use crate::text::{
    append, concat, concat3, i64_to_string, int_decimal, lacks, lemma_int_decimal_chars,
    lemma_split_char_three, law_parse_after_format, owned, split_char_spec, parse_i64, parse_i64_spec,
    split_whitespace, trim, trim_spec, trim_start_str, trim_start_str_spec, views, words, str_eq,
};
use vstd::prelude::*;

verus! {

/// `a`, the decimal text of `n`, then `b`.
pub fn with_number(a: &str, n: i64, b: &str) -> (r: String)
    ensures
        r@ == a@ + int_decimal(n as int) + b@,
{
    let d = i64_to_string(n);
    concat3(a, d.as_str(), b)
}

/// `a`, `x`, then `b`.
pub fn with_text(a: &str, x: &str, b: &str) -> (r: String)
    ensures
        r@ == a@ + x@ + b@,
{
    concat3(a, x, b)
}

/// `a`, `x`, `b`, `y`, then `c`.
pub fn with_two_texts(a: &str, x: &str, b: &str, y: &str, c: &str) -> (r: String)
    ensures
        r@ == a@ + x@ + b@ + y@ + c@,
{
    let mut r = concat3(a, x, b);
    append(&mut r, y);
    append(&mut r, c);
    r
}

// ---------------------------------------------------------------------
// Choosing models
// ---------------------------------------------------------------------

/// To someone pressing another member's model button.
pub const NOT_YOUR_BUTTON: &'static str = "⚠️ این دکمه برای شما نیست. اگه می‌خوای مدل خودت رو انتخاب کنی، `/model` رو بزن.";

/// In a group: the chosen model is unavailable and `alt` was set instead.
pub fn group_model_unavailable_text(model: &str, alt: &str) -> (r: String)
    ensures
        r@ == "⚠️ *"@ + display_name_spec(model@) + "* موقتاً در دسترس نیست.\n\nبه‌جاش مدل *"@
            + display_name_spec(alt@)
            + "* برات فعال شد. وقتی مدل اصلی برگشت، دوباره `/model` بزن."@,
{
    with_two_texts(
        "⚠️ *",
        model_display_name(model),
        "* موقتاً در دسترس نیست.\n\nبه‌جاش مدل *",
        model_display_name(alt),
        "* برات فعال شد. وقتی مدل اصلی برگشت، دوباره `/model` بزن.",
    )
}

/// In a group: the chosen model is now the member's.
pub fn group_model_set_text(model: &str) -> (r: String)
    ensures
        r@ == "✅ *"@ + display_name_spec(model@)
            + "* برای شما فعال شد.\n\nاز این به بعد توی این گروه، جواب‌ها با این مدل داده می‌شن. اگه خواستی تغییر بدی، دوباره `/model` رو بزن."@,
{
    with_text(
        "✅ *",
        model_display_name(model),
        "* برای شما فعال شد.\n\nاز این به بعد توی این گروه، جواب‌ها با این مدل داده می‌شن. اگه خواستی تغییر بدی، دوباره `/model` رو بزن.",
    )
}

/// In private, by button: the chosen model is unavailable.
pub fn chat_model_unavailable_text(model: &str, alt: &str) -> (r: String)
    ensures
        r@ == "⚠️ *"@ + display_name_spec(model@) + "* موقتاً در دسترس نیست.\n\nبه‌جاش مدل *"@
            + display_name_spec(alt@) + "* برات فعال شد."@,
{
    with_two_texts(
        "⚠️ *",
        model_display_name(model),
        "* موقتاً در دسترس نیست.\n\nبه‌جاش مدل *",
        model_display_name(alt),
        "* برات فعال شد.",
    )
}

/// In private, by button: the chosen model is active.
pub fn chat_model_set_text(model: &str) -> (r: String)
    ensures
        r@ == "✅ *"@ + display_name_spec(model@) + "* فعال شد. حالا می‌تونی بی‌واسطه پیام بدی."@,
{
    with_text("✅ *", model_display_name(model), "* فعال شد. حالا می‌تونی بی‌واسطه پیام بدی.")
}

/// In private, from the keyboard: the chosen model is unavailable.
pub fn select_model_unavailable_text(model: &str, alt: &str) -> (r: String)
    ensures
        r@ == "⚠️ *"@ + display_name_spec(model@) + "* موقتاً در دسترس نیست.\n\nبه‌جاش مدل *"@
            + display_name_spec(alt@)
            + "* برات فعال شد. وقتی مدل اصلی برگشت، دوباره از منو انتخابش کن."@,
{
    with_two_texts(
        "⚠️ *",
        model_display_name(model),
        "* موقتاً در دسترس نیست.\n\nبه‌جاش مدل *",
        model_display_name(alt),
        "* برات فعال شد. وقتی مدل اصلی برگشت، دوباره از منو انتخابش کن.",
    )
}

/// In private, from the keyboard: the chosen model is active.
pub fn select_model_set_text(model: &str) -> (r: String)
    ensures
        r@ == "✅ مدل *"@ + display_name_spec(model@) + "* فعال شد.\n\nحالا هرچی می‌خوای بپرس 💬"@,
{
    with_text("✅ مدل *", model_display_name(model), "* فعال شد.\n\nحالا هرچی می‌خوای بپرس 💬")
}

/// The owner changed the groups' default model.
pub fn group_default_changed_text(model: &str) -> (r: String)
    ensures
        r@ == "✅ مدل گروه‌ها به *"@ + display_name_spec(model@) + "* تغییر کرد."@,
{
    with_text("✅ مدل گروه‌ها به *", model_display_name(model), "* تغییر کرد.")
}

/// The prompt of `/changemodel`.
pub fn change_model_prompt_text(current: &str) -> (r: String)
    ensures
        r@ == "مدل پیش‌فرض گروه‌ها: *"@ + display_name_spec(current@)
            + "*\n\nمدل جدید رو انتخاب کن:"@,
{
    with_text("مدل پیش‌فرض گروه‌ها: *", model_display_name(current), "*\n\nمدل جدید رو انتخاب کن:")
}

/// The text of the group `/model` menu.
pub fn group_model_menu_text() -> (r: String)
    ensures
        r@ == "🎯 *انتخاب مدل زبانی*\n\nلطفاً مدل مورد نظرت رو انتخاب کن:\n\n"@
            + crate::bot::MODEL_DESC_GEMINI@ + "\n\n"@ + crate::bot::MODEL_DESC_DEEPSEEK@ + "\n\n"@
            + crate::bot::MODEL_DESC_GROQ@,
{
    let mut r = with_two_texts(
        "🎯 *انتخاب مدل زبانی*\n\nلطفاً مدل مورد نظرت رو انتخاب کن:\n\n",
        crate::bot::MODEL_DESC_GEMINI,
        "\n\n",
        crate::bot::MODEL_DESC_DEEPSEEK,
        "\n\n",
    );
    append(&mut r, crate::bot::MODEL_DESC_GROQ);
    r
}

/// The buttons of the group `/model` menu for `user_id`: (text, data,
/// color).
pub fn group_model_buttons(user_id: i64) -> (r: Vec<(String, String, String)>)
    ensures
        r@.len() == 3,
        r@[0].0@ == "🟢 Gemini 3.5 Flash Lite"@ && r@[0].1@ == "model:gemini:"@ + int_decimal(
            user_id as int,
        ) && r@[0].2@ == "success"@,
        r@[1].0@ == "🔵 DeepSeek V4 Flash"@ && r@[1].1@ == "model:deepseek:"@ + int_decimal(
            user_id as int,
        ) && r@[1].2@ == "primary"@,
        r@[2].0@ == "🔴 GPT-OSS-120B"@ && r@[2].1@ == "model:groq:"@ + int_decimal(user_id as int)
            && r@[2].2@ == "danger"@,
{
    let id = i64_to_string(user_id);
    let mut v: Vec<(String, String, String)> = Vec::new();
    v.push((owned("🟢 Gemini 3.5 Flash Lite"), concat("model:gemini:", id.as_str()), owned("success")));
    v.push((owned("🔵 DeepSeek V4 Flash"), concat("model:deepseek:", id.as_str()), owned("primary")));
    v.push((owned("🔴 GPT-OSS-120B"), concat("model:groq:", id.as_str()), owned("danger")));
    v
}

/// The introduction of the private model menu.
pub fn chat_intro_parts() -> (r: Vec<EmojiText>)
    ensures
        r@.len() == 1,
        r@[0].custom_emoji_id is None,
        r@[0].text@ == "به بخش چت با هوش مصنوعی خوش اومدی 💬\n\nقبل از شروع یکی از مدل‌ها رو انتخاب کن:\n\n"@
            + crate::bot::MODEL_DESC_GEMINI@ + "\n\n"@ + crate::bot::MODEL_DESC_DEEPSEEK@ + "\n\n"@
            + crate::bot::MODEL_DESC_GROQ@ + "\n\nاز دکمه‌های پایین انتخاب کن 👇"@,
{
    let mut t = with_two_texts(
        "به بخش چت با هوش مصنوعی خوش اومدی 💬\n\nقبل از شروع یکی از مدل‌ها رو انتخاب کن:\n\n",
        crate::bot::MODEL_DESC_GEMINI,
        "\n\n",
        crate::bot::MODEL_DESC_DEEPSEEK,
        "\n\n",
    );
    append(&mut t, crate::bot::MODEL_DESC_GROQ);
    append(&mut t, "\n\nاز دکمه‌های پایین انتخاب کن 👇");
    let mut v = Vec::new();
    v.push(EmojiText::plain(t.as_str()));
    v
}

/// Back at the main menu.
pub fn back_to_root_parts() -> (r: Vec<EmojiText>)
    ensures
        r@.len() == 1,
        r@[0].custom_emoji_id is None,
        r@[0].text@ == "🔙 برگشتی به منوی اصلی، از دکمه‌های زیر انتخاب کن:"@,
{
    let mut v = Vec::new();
    v.push(EmojiText::plain("🔙 برگشتی به منوی اصلی، از دکمه‌های زیر انتخاب کن:"));
    v
}

/// A nudge to use the menu.
pub fn use_buttons_parts() -> (r: Vec<EmojiText>)
    ensures
        r@.len() == 1,
        r@[0].custom_emoji_id is None,
        r@[0].text@ == "برای شروع از دکمه‌های زیر استفاده کن 👇"@,
{
    let mut v = Vec::new();
    v.push(EmojiText::plain("برای شروع از دکمه‌های زیر استفاده کن 👇"));
    v
}

// ---------------------------------------------------------------------
// Administration
// ---------------------------------------------------------------------

/// `/addadmin` done.
pub fn admin_added_text(id: i64) -> (r: String)
    ensures
        r@ == "✅ آیدی "@ + int_decimal(id as int) + " ادمین شد."@,
{
    with_number("✅ آیدی ", id, " ادمین شد.")
}

/// `/removeadmin` done.
pub fn admin_removed_text(id: i64) -> (r: String)
    ensures
        r@ == "✅ آیدی "@ + int_decimal(id as int) + " از ادمین‌ها حذف شد."@,
{
    with_number("✅ آیدی ", id, " از ادمین‌ها حذف شد.")
}

/// `/removeadmin` on the owner.
pub const OWNER_NOT_REMOVABLE: &'static str = "مالک اصلی رو نمی‌تونی حذف کنی.";

/// A user reference that matched no one.
pub const USER_NOT_FOUND: &'static str = "کاربر پیدا نشد.";

/// Private `/ban` done.
pub fn user_banned_text(id: i64) -> (r: String)
    ensures
        r@ == "🚫 کاربر "@ + int_decimal(id as int) + " بن شد."@,
{
    with_number("🚫 کاربر ", id, " بن شد.")
}

/// Private `/unban` done.
pub fn user_unbanned_text(id: i64) -> (r: String)
    ensures
        r@ == "✅ کاربر "@ + int_decimal(id as int) + " آزاد شد."@,
{
    with_number("✅ کاربر ", id, " آزاد شد.")
}

/// Group `/ban` done.
pub fn group_banned_text(name: &str) -> (r: String)
    ensures
        r@ == name@ + " has been banned from this group."@,
{
    concat(name, " has been banned from this group.")
}

/// Group `/ban` refused by Telegram.
pub fn ban_failed_text(description: &str) -> (r: String)
    ensures
        r@ == "Failed to ban: "@ + description@,
{
    concat("Failed to ban: ", description)
}

/// Group `/unban` done.
pub fn group_unbanned_text(id: i64) -> (r: String)
    ensures
        r@ == "User "@ + int_decimal(id as int) + " has been unbanned."@,
{
    with_number("User ", id, " has been unbanned.")
}

// ---------------------------------------------------------------------
// Locks
// ---------------------------------------------------------------------

/// A member was restricted from a content type.
pub fn restriction_reply(name: &str, label: &str, minutes: Option<i64>) -> (r: String)
    ensures
        r@ == name@ + " has been restricted from sending "@ + label@ + match minutes {
            Some(m) => " for "@ + int_decimal(m as int) + " minutes."@,
            None => "."@,
        },
{
    let mut r = concat3(name, " has been restricted from sending ", label);
    match minutes {
        Some(m) => {
            let tail = with_number(" for ", m, " minutes.");
            append(&mut r, tail.as_str());
        },
        None => append(&mut r, "."),
    }
    r
}

/// A member's restriction was lifted.
pub fn lift_reply(name: &str, label: &str) -> (r: String)
    ensures
        r@ == name@ + " can send "@ + label@ + " again."@,
{
    let mut r = concat3(name, " can send ", label);
    append(&mut r, " again.");
    r
}

/// A content type was locked or unlocked for the whole group.
pub fn group_lock_reply(label: &str, locked: bool) -> (r: String)
    ensures
        r@ == label@ + if locked {
            " are now locked for everyone in this group."@
        } else {
            " are now unlocked for everyone in this group."@
        },
{
    if locked {
        concat(label, " are now locked for everyone in this group.")
    } else {
        concat(label, " are now unlocked for everyone in this group.")
    }
}

/// The welcome when the bot is added to a group.
pub const GROUP_WELCOME: &'static str = "🎭 *SafeGuard is now protecting this group.*\n\nThe person who added me is the first owner. Use `ad` (reply to a member) to add bot admins, or `panel`-style text commands to configure locks and protections.";

// ---------------------------------------------------------------------
// Mutes and flood control
// ---------------------------------------------------------------------

/// Whole minutes left of a mute, rounded up, never negative.
pub open spec fn minutes_left_spec(until: i64, now: i64) -> int {
    let remaining = if until - now > 0 {
        until - now
    } else {
        0
    };
    (remaining + 59) / 60
}

/// The minutes left of a mute ending at `until` (computed without
/// overflow).
pub fn mute_minutes_left(until: i64, now: i64) -> (r: i64)
    ensures
        r == minutes_left_spec(until, now),
{
    let diff: i128 = (until as i128) - (now as i128);
    let remaining: i128 = if diff > 0 {
        diff
    } else {
        0
    };
    let mins = (remaining + 59) / 60;
    assert(mins <= i64::MAX) by {
        assert(remaining + 59 <= 60 * 0x7fff_ffff_ffff_ffff_i128);
    }
    mins as i64
}

/// When a mute of `duration_secs` starting at `now` ends.
pub fn mute_until(now: i64, duration_secs: i64) -> (r: i64)
    requires
        i64::MIN <= now + duration_secs <= i64::MAX,
    ensures
        r == now + duration_secs,
{
    now + duration_secs
}

/// The whole minutes of a mute lasting `duration_secs` seconds.
pub fn mute_minutes(duration_secs: i64) -> (r: i64)
    requires
        duration_secs >= 0,
    ensures
        r == duration_secs / 60,
{
    duration_secs / 60
}

/// To a muted user writing in private.
pub fn muted_private_text(minutes: i64) -> (r: String)
    ensures
        r@ == "🚫 کاربر عزیز، به‌خاطر ارسال پیام‌های پشت‌سرهم، به مدت "@ + int_decimal(
            minutes as int,
        ) + " دقیقه دیگه نمی‌تونی از ربات استفاده کنی.\n\nکمی استراحت کن، بعد دوباره برگرد. 🙏"@,
{
    with_number(
        "🚫 کاربر عزیز، به‌خاطر ارسال پیام‌های پشت‌سرهم، به مدت ",
        minutes,
        " دقیقه دیگه نمی‌تونی از ربات استفاده کنی.\n\nکمی استراحت کن، بعد دوباره برگرد. 🙏",
    )
}

/// To a user just muted for flooding in private.
pub fn spam_private_text(minutes: i64) -> (r: String)
    ensures
        r@ == "🚫 کاربر عزیز، به‌خاطر ارسال پیام‌های پشت‌سرهم، به مدت "@ + int_decimal(
            minutes as int,
        ) + " دقیقه نمی‌تونی از ربات استفاده کنی.\n\nکمی استراحت کن، بعد دوباره برگرد. 🙏"@,
{
    with_number(
        "🚫 کاربر عزیز، به‌خاطر ارسال پیام‌های پشت‌سرهم، به مدت ",
        minutes,
        " دقیقه نمی‌تونی از ربات استفاده کنی.\n\nکمی استراحت کن، بعد دوباره برگرد. 🙏",
    )
}

/// To a user just muted for flooding in a group.
pub fn spam_group_text(minutes: i64) -> (r: String)
    ensures
        r@ == "🚫 کاربر عزیز، به‌خاطر ارسال پیام‌های پی‌درپی، به مدت "@ + int_decimal(minutes as int)
            + " دقیقه از استفاده از ربات محروم شدی.\n\nلطفاً پس از پایان این مدت دوباره تلاش کن. 🙏"@,
{
    with_number(
        "🚫 کاربر عزیز، به‌خاطر ارسال پیام‌های پی‌درپی، به مدت ",
        minutes,
        " دقیقه از استفاده از ربات محروم شدی.\n\nلطفاً پس از پایان این مدت دوباره تلاش کن. 🙏",
    )
}

/// Who a user is, in the owner's reports.
pub open spec fn who_spec(username: Option<Seq<char>>, user_id: i64) -> Seq<char> {
    match username {
        Some(u) => "@"@ + u + " (آیدی: "@ + int_decimal(user_id as int) + ")"@,
        None => "آیدی: "@ + int_decimal(user_id as int),
    }
}

/// The owner's report of a user muted for flooding.
pub fn spam_report_text(minutes: i64, username: Option<&str>, user_id: i64, location: &str) -> (r:
    String)
    ensures
        r@ == "🛡️ *گزارش امنیتی*\n\nیک کاربر به‌خاطر اسپم، به مدت "@ + int_decimal(minutes as int)
            + " دقیقه سکوت شد.\n\n👤 کاربر: "@ + who_spec(
            match username {
                Some(u) => Some(u@),
                None => None,
            },
            user_id,
        ) + "\n📍 محل: "@ + location@ + "\n⏱️ مدت سکوت: "@ + int_decimal(minutes as int)
            + " دقیقه"@,
{
    let id = i64_to_string(user_id);
    let who = match username {
        Some(u) => {
            let mut w = concat3("@", u, " (آیدی: ");
            append(&mut w, id.as_str());
            append(&mut w, ")");
            w
        },
        None => concat("آیدی: ", id.as_str()),
    };
    let mins = i64_to_string(minutes);
    let mut r = concat3(
        "🛡️ *گزارش امنیتی*\n\nیک کاربر به‌خاطر اسپم، به مدت ",
        mins.as_str(),
        " دقیقه سکوت شد.\n\n👤 کاربر: ",
    );
    append(&mut r, who.as_str());
    append(&mut r, "\n📍 محل: ");
    append(&mut r, location);
    append(&mut r, "\n⏱️ مدت سکوت: ");
    append(&mut r, mins.as_str());
    append(&mut r, " دقیقه");
    r
}

/// The arguments of `/add <minutes> <user>`.
pub enum AddMuteArgs {
    /// Not three words: show the usage.
    Usage,
    /// The minutes are not a number.
    BadMinutes,
    /// Mute the user given by id or username for this many minutes.
    Mute(i64, String),
}

/// Reads `/add <minutes> <user>`.
pub fn parse_add_mute(text: &str) -> (r: AddMuteArgs)
    ensures
        ({
            let ws = words(text@);
            match r {
                AddMuteArgs::Usage => ws.len() != 3,
                AddMuteArgs::BadMinutes => ws.len() == 3 && parse_i64_spec(ws[1]) is None,
                AddMuteArgs::Mute(m, t) => ws.len() == 3 && parse_i64_spec(ws[1]) == Some(m) && t@
                    == ws[2],
            }
        }),
{
    let parts = split_whitespace(text);
    if parts.len() != 3 {
        return AddMuteArgs::Usage;
    }
    assert(views(parts@)[1] == parts@[1]@);
    assert(views(parts@)[2] == parts@[2]@);
    match parse_i64(parts[1].as_str()) {
        None => AddMuteArgs::BadMinutes,
        Some(m) => AddMuteArgs::Mute(m, parts[2].clone()),
    }
}

/// The second word of a command when it has exactly two words
/// (`/remove <user>`).
pub fn second_word_of_two(text: &str) -> (r: Option<String>)
    ensures
        match r {
            Some(w) => words(text@).len() == 2 && w@ == words(text@)[1],
            None => words(text@).len() != 2,
        },
{
    let parts = split_whitespace(text);
    if parts.len() != 2 {
        return None;
    }
    assert(views(parts@)[1] == parts@[1]@);
    Some(parts[1].clone())
}

/// The second word of a command when it has at least two words (`/see
/// <user>`, `/list <group>`).
pub fn second_word(text: &str) -> (r: Option<String>)
    ensures
        match r {
            Some(w) => words(text@).len() >= 2 && w@ == words(text@)[1],
            None => words(text@).len() < 2,
        },
{
    let parts = split_whitespace(text);
    if parts.len() < 2 {
        return None;
    }
    assert(views(parts@)[1] == parts@[1]@);
    Some(parts[1].clone())
}

/// The owner muted a user.
pub fn muted_by_owner_text(target: i64, minutes: i64) -> (r: String)
    ensures
        r@ == "✅ کاربر `"@ + int_decimal(target as int) + "` به مدت "@ + int_decimal(minutes as int)
            + " دقیقه سکوت شد."@,
{
    let mut r = with_number("✅ کاربر `", target, "` به مدت ");
    let tail = with_number("", minutes, " دقیقه سکوت شد.");
    proof {
        reveal_strlit("");
    }
    append(&mut r, tail.as_str());
    assert(""@ + int_decimal(minutes as int) =~= int_decimal(minutes as int));
    r
}

/// To the muted user.
pub fn mute_notice_text(minutes: i64) -> (r: String)
    ensures
        r@ == "🚫 شما به مدت "@ + int_decimal(minutes as int)
            + " دقیقه از استفاده از ربات محروم شدید.\n\nکمی استراحت کن، بعد دوباره برگرد. 🙏"@,
{
    with_number(
        "🚫 شما به مدت ",
        minutes,
        " دقیقه از استفاده از ربات محروم شدید.\n\nکمی استراحت کن، بعد دوباره برگرد. 🙏",
    )
}

/// The owner lifted a user's mute.
pub fn unmuted_text(target: i64) -> (r: String)
    ensures
        r@ == "✅ سکوت کاربر `"@ + int_decimal(target as int) + "` برداشته شد."@,
{
    with_number("✅ سکوت کاربر `", target, "` برداشته شد.")
}

// ---------------------------------------------------------------------
// The system prompt
// ---------------------------------------------------------------------

/// The prompt given with `/how`: empty for the bare command, otherwise
/// the text after the leading `/how`s, trimmed.
pub open spec fn how_prompt_spec(text: Seq<char>) -> Seq<char> {
    if trim_spec(text) == "/how"@ {
        seq![]
    } else {
        trim_spec(trim_start_str_spec(text, "/how"@))
    }
}

/// Reads the prompt of `/how`.
pub fn how_prompt(text: &str) -> (r: String)
    ensures
        r@ == how_prompt_spec(text@),
{
    let t = trim(text);
    if str_eq(t.as_str(), "/how") {
        String::new()
    } else {
        let rest = trim_start_str(text, "/how");
        trim(rest.as_str())
    }
}

/// `/how` without a prompt: the current prompt and whether it is on.
pub fn how_status_text(current: &str, enabled: bool) -> (r: String)
    ensures
        r@ == "📝 *پرامپت سیستمی فعلی:*\n\n"@ + (if current@.len() == 0 {
            "— تعریف نشده —"@
        } else {
            current@
        }) + "\n\nوضعیت: "@ + (if enabled {
            "🟢 روشن"@
        } else {
            "🔴 خاموش"@
        }) + "\n\nبرای تعریف پرامپت جدید:\n`/how متن پرامپت`"@,
{
    let shown = if current.is_empty() {
        "— تعریف نشده —"
    } else {
        current
    };
    let status = if enabled {
        "🟢 روشن"
    } else {
        "🔴 خاموش"
    };
    with_two_texts(
        "📝 *پرامپت سیستمی فعلی:*\n\n",
        shown,
        "\n\nوضعیت: ",
        status,
        "\n\nبرای تعریف پرامپت جدید:\n`/how متن پرامپت`",
    )
}

/// `/how` with a prompt: it was stored.
pub fn how_set_text(prompt: &str) -> (r: String)
    ensures
        r@ == "✅ *پرامپت سیستمی تعریف شد.*\n\n📝 متن:\n«"@ + prompt@ + "»\n\nبرای فعال‌سازی: `/ison`"@,
{
    with_text(
        "✅ *پرامپت سیستمی تعریف شد.*\n\n📝 متن:\n«",
        prompt,
        "»\n\nبرای فعال‌سازی: `/ison`",
    )
}

/// The system prompt used in groups: the stored prompt when prompts are
/// enabled and it is not empty.
pub fn effective_system_prompt(enabled: bool, prompt: String) -> (r: Option<String>)
    ensures
        match r {
            Some(p) => enabled && prompt@.len() > 0 && p@ == prompt@,
            None => !enabled || prompt@.len() == 0,
        },
{
    if enabled && !prompt.as_str().is_empty() {
        Some(prompt)
    } else {
        None
    }
}

/// What a failed reply shows: the real error and model to the owner, a
/// polite apology to anyone else.
pub fn failure_reply(is_owner: bool, model: &str, err: &str) -> (r: String)
    ensures
        is_owner ==> r@ == "🔴 *خطای واقعی (فقط مالک)*\n\nمدل: "@ + model@ + "\n\n"@ + err@,
        !is_owner ==> r@
            == "⚠️ یه مشکل فنی پیش اومد و نتونستم جوابت رو بدم.\n\nلطفاً چند لحظه بعد دوباره تلاش کن. 🙏"@,
{
    if is_owner {
        let mut r = concat3("🔴 *خطای واقعی (فقط مالک)*\n\nمدل: ", model, "\n\n");
        append(&mut r, err);
        r
    } else {
        owned(
            "⚠️ یه مشکل فنی پیش اومد و نتونستم جوابت رو بدم.\n\nلطفاً چند لحظه بعد دوباره تلاش کن. 🙏",
        )
    }
}


// ---------------------------------------------------------------------
// Menus and fixed messages
// ---------------------------------------------------------------------

pub const EMOJI_THINKING: &'static str = "5330257244166572322";
pub const EMOJI_CLAUDE: &'static str = "5244474931810438131";
pub const EMOJI_GEMINI: &'static str = "5246819764910727208";
pub const EMOJI_GROK: &'static str = "5247179567206016466";
pub const EMOJI_CHATGPT: &'static str = "5251681865458293966";
pub const EMOJI_DARTH_VADER: &'static str = "5235488215254736349";
pub const EMOJI_STAR: &'static str = "5246727573437723110";
pub const EMOJI_WHALE_DEEPSEEK: &'static str = "5832498002362638135";
pub const EMOJI_LIGHTNING: &'static str = "5774172509691715895";

/// The main menu keyboard: (button, color).
pub fn main_menu() -> (r: Vec<(&'static str, &'static str)>)
    ensures
        r@.len() == 2,
        r@[0].0@ == crate::bot::BTN_CHAT_AI@ && r@[0].1@ == "primary"@,
        r@[1].0@ == crate::bot::BTN_SUPPORT@ && r@[1].1@ == "danger"@,
{
    let mut v = Vec::new();
    v.push((crate::bot::BTN_CHAT_AI, "primary"));
    v.push((crate::bot::BTN_SUPPORT, "danger"));
    v
}

/// The private model menu keyboard.
pub fn chat_model_menu() -> (r: Vec<(&'static str, &'static str)>)
    ensures
        r@.len() == 4,
        r@[0].0@ == crate::bot::BTN_MODEL_35_LITE@ && r@[0].1@ == "success"@,
        r@[1].0@ == crate::bot::BTN_MODEL_DEEPSEEK@ && r@[1].1@ == "primary"@,
        r@[2].0@ == crate::bot::BTN_MODEL_GROQ@ && r@[2].1@ == "danger"@,
        r@[3].0@ == crate::bot::BTN_BACK@ && r@[3].1@ == ""@,
{
    let mut v = Vec::new();
    v.push((crate::bot::BTN_MODEL_35_LITE, "success"));
    v.push((crate::bot::BTN_MODEL_DEEPSEEK, "primary"));
    v.push((crate::bot::BTN_MODEL_GROQ, "danger"));
    v.push((crate::bot::BTN_BACK, ""));
    v
}

/// The keyboard with only the back button.
pub fn back_only_menu() -> (r: Vec<(&'static str, &'static str)>)
    ensures
        r@.len() == 1,
        r@[0].0@ == crate::bot::BTN_BACK@ && r@[0].1@ == ""@,
{
    let mut v = Vec::new();
    v.push((crate::bot::BTN_BACK, ""));
    v
}

/// The keyboard of `/changemodel`.
pub fn group_model_menu() -> (r: Vec<(&'static str, &'static str)>)
    ensures
        r@.len() == 3,
        r@[0].0@ == crate::bot::BTN_MODEL_35_LITE@ && r@[0].1@ == "success"@,
        r@[1].0@ == crate::bot::BTN_MODEL_DEEPSEEK@ && r@[1].1@ == "primary"@,
        r@[2].0@ == crate::bot::BTN_MODEL_GROQ@ && r@[2].1@ == "danger"@,
{
    let mut v = Vec::new();
    v.push((crate::bot::BTN_MODEL_35_LITE, "success"));
    v.push((crate::bot::BTN_MODEL_DEEPSEEK, "primary"));
    v.push((crate::bot::BTN_MODEL_GROQ, "danger"));
    v
}

/// The placeholder shown while the model thinks: a text and an emoji.
pub fn thinking_parts() -> (r: Vec<EmojiText>)
    ensures
        r@.len() == 2,
        r@[0].custom_emoji_id is None && r@[0].text@ == "در حال تفکر "@,
        r@[1].custom_emoji_id matches Some(id) && id@ == EMOJI_THINKING@,
        r@[1].text@ == ""@,
{
    let mut v = Vec::new();
    v.push(EmojiText::plain("در حال تفکر "));
    v.push(EmojiText::with_emoji(EMOJI_THINKING, ""));
    v
}

/// The owner's `/on` and `/off`: `Some(enabled)` for the owner's exact
/// command (trimmed), `None` otherwise.
pub fn power_command(text: &str, is_owner: bool) -> (r: Option<bool>)
    ensures
        r == (if is_owner && trim_spec(text@) == "/off"@ {
            Some(false)
        } else if is_owner && trim_spec(text@) == "/on"@ {
            Some(true)
        } else {
            None
        }),
{
    let t = trim(text);
    if is_owner && str_eq(t.as_str(), "/off") {
        Some(false)
    } else if is_owner && str_eq(t.as_str(), "/on") {
        Some(true)
    } else {
        None
    }
}

pub const BOT_TURNED_OFF: &'static str = "🔴 ربات خاموش شد.";
pub const BOT_TURNED_ON: &'static str = "🟢 ربات روشن شد.";
pub const PROMPT_ON: &'static str = "🟢 پرامپت سیستمی *روشن* شد. از این به بعد توی گروه‌ها اعمال می‌شه.";
pub const PROMPT_OFF: &'static str = "🔴 پرامپت سیستمی *خاموش* شد.";
pub const WAIT_PRIVATE: &'static str = "⏳ صبر کن تا جواب پیام قبلی بیاد.";
pub const TOO_SOON_PRIVATE: &'static str = "⏱ هر ۵ ثانیه فقط یک درخواست می‌تونی بفرستی.";
pub const WAIT_GROUP: &'static str = "⏳ صبر کن تا جواب قبلی بیاد.";
pub const TOO_SOON_GROUP: &'static str = "⏱ هر ۵ ثانیه فقط یک درخواست.";
pub const SEND_FAILED: &'static str = "خطا در فرستادن پیام.";
pub const SUPPORT_PROMPT: &'static str = "هر سوال یا مشکلی داشتی مستقیم پیام بده 👇";
pub const SUPPORT_BUTTON: &'static str = "ارتباط با پشتیبانی 💬";
pub const NEW_CHAT_TITLE: &'static str = "چت جدید";
pub const USER_NOT_FOUND_X: &'static str = "❌ کاربر پیدا نشد.";
pub const GROUP_NOT_FOUND: &'static str = "❌ گروه پیدا نشد.";
pub const BAD_MINUTES: &'static str = "❌ مدت زمان باید عدد باشه (به دقیقه).";
pub const ADD_USAGE: &'static str = "فرمت: `/add <دقیقه> <آیدی یا @یوزرنیم>`";
pub const REMOVE_USAGE: &'static str = "فرمت: `/remove <آیدی یا @یوزرنیم>`";
pub const LIST_USAGE: &'static str = "فرمت: `/list <آیدی یا یوزرنیم گروه>`";
pub const UNMUTE_NOTICE: &'static str = "✅ سکوت شما برداشته شد. حالا می‌تونی از ربات استفاده کنی.";

/// The notice that a model was hidden or shown again, by its short name.
pub fn model_visibility_text(name: &str, shown: bool) -> (r: &'static str)
    ensures
        r@ == (if name@ == "deepseek"@ {
            if shown {
                "🟢 *DeepSeek V4 Flash* دوباره در دسترس قرار گرفت."@
            } else {
                "🔴 *DeepSeek V4 Flash* موقتاً از دسترس خارج شد.\n\nاگه کسی انتخابش کنه، بهش می‌گیم در دسترس نیست و از مدل جایگزین استفاده می‌کنه."@
            }
        } else if name@ == "groq"@ {
            if shown {
                "🟢 *GPT-OSS-120B* دوباره در دسترس قرار گرفت."@
            } else {
                "🔴 *GPT-OSS-120B* موقتاً از دسترس خارج شد.\n\nاگه کسی انتخابش کنه، بهش می‌گیم در دسترس نیست و از مدل جایگزین استفاده می‌کنه."@
            }
        } else {
            if shown {
                "🟢 *Gemini 3.5 Flash Lite* دوباره در دسترس قرار گرفت."@
            } else {
                "🔴 *Gemini 3.5 Flash Lite* موقتاً از دسترس خارج شد.\n\nاگه کسی انتخابش کنه، بهش می‌گیم در دسترس نیست و از مدل جایگزین استفاده می‌کنه."@
            }
        }),
{
    if str_eq(name, "deepseek") {
        if shown {
            "🟢 *DeepSeek V4 Flash* دوباره در دسترس قرار گرفت."
        } else {
            "🔴 *DeepSeek V4 Flash* موقتاً از دسترس خارج شد.\n\nاگه کسی انتخابش کنه، بهش می‌گیم در دسترس نیست و از مدل جایگزین استفاده می‌کنه."
        }
    } else if str_eq(name, "groq") {
        if shown {
            "🟢 *GPT-OSS-120B* دوباره در دسترس قرار گرفت."
        } else {
            "🔴 *GPT-OSS-120B* موقتاً از دسترس خارج شد.\n\nاگه کسی انتخابش کنه، بهش می‌گیم در دسترس نیست و از مدل جایگزین استفاده می‌کنه."
        }
    } else {
        if shown {
            "🟢 *Gemini 3.5 Flash Lite* دوباره در دسترس قرار گرفت."
        } else {
            "🔴 *Gemini 3.5 Flash Lite* موقتاً از دسترس خارج شد.\n\nاگه کسی انتخابش کنه، بهش می‌گیم در دسترس نیست و از مدل جایگزین استفاده می‌کنه."
        }
    }
}

/// The link that adds the bot to a group.
pub fn group_add_link(bot_username: &str) -> (r: String)
    ensures
        r@ == "https://t.me/"@ + crate::text::trim_start_char_spec(bot_username@, '@')
            + "?startgroup=true"@,
{
    let name = crate::text::trim_start_char(bot_username, '@');
    concat3("https://t.me/", name.as_str(), "?startgroup=true")
}

/// A custom emoji in rich Markdown.
pub open spec fn md_emoji(id: Seq<char>) -> Seq<char> {
    "![🎭](tg://emoji?id="@ + id + ")"@
}

fn add_emoji(out: &mut String, id: &str)
    ensures
        final(out)@ == old(out)@ + md_emoji(id@),
{
    append(out, "![🎭](tg://emoji?id=");
    append(out, id);
    append(out, ")");
}

/// The rich introduction sent on `/start`.
pub open spec fn start_text_spec() -> Seq<char> {
    "# I'm SafeGuard "@ + md_emoji(EMOJI_DARTH_VADER@)
        + "\n\n**Your Smart Group Protector, Powered by artificial intelligence** "@ + md_emoji(
        EMOJI_CLAUDE@,
    ) + md_emoji(EMOJI_GEMINI@) + md_emoji(EMOJI_GROK@)
        + "\n\n## What I can do?\n\n| Feature | Description |\n|---|---|\n| **AI Moderation** | Detect and Remove Explicit or Inappropriate Content using AI |\n| **Spam Blocking** | Block spam, flood, and unwanted links automatically |\n| **AI Chat** | Chat with Powerful AI Models Right Inside the Group |\n| **Member Control** | Warn, Mute, Ban, and Beyond |\n\n**You can also Chat with AI Right here** "@
        + md_emoji(EMOJI_CHATGPT@) + " Just send /chat"@
}

/// The rich introduction of `/start`.
pub fn start_text() -> (r: String)
    ensures
        r@ == start_text_spec(),
{
    let mut t = String::new();
    append(&mut t, "# I'm SafeGuard ");
    add_emoji(&mut t, EMOJI_DARTH_VADER);
    append(&mut t, "\n\n**Your Smart Group Protector, Powered by artificial intelligence** ");
    add_emoji(&mut t, EMOJI_CLAUDE);
    add_emoji(&mut t, EMOJI_GEMINI);
    add_emoji(&mut t, EMOJI_GROK);
    append(
        &mut t,
        "\n\n## What I can do?\n\n| Feature | Description |\n|---|---|\n| **AI Moderation** | Detect and Remove Explicit or Inappropriate Content using AI |\n| **Spam Blocking** | Block spam, flood, and unwanted links automatically |\n| **AI Chat** | Chat with Powerful AI Models Right Inside the Group |\n| **Member Control** | Warn, Mute, Ban, and Beyond |\n\n**You can also Chat with AI Right here** ",
    );
    add_emoji(&mut t, EMOJI_CHATGPT);
    append(&mut t, " Just send /chat");
    assert(t@ =~= start_text_spec());
    t
}

/// The rich model menu of `/chat`.
pub open spec fn chat_menu_text_spec() -> Seq<char> {
    "# Pick Your AI "@ + md_emoji(EMOJI_LIGHTNING@)
        + "\n\nEvery Model has its own Strengths — choose the one that fits what you need.\n\n## MODEL\n\n| Model | Description |\n|---|---|\n| Gemini "@
        + md_emoji(EMOJI_GEMINI@) + " | Quick, everyday chats "@ + md_emoji(EMOJI_STAR@)
        + " |\n| ChatGPT "@ + md_emoji(EMOJI_CHATGPT@) + " | Speed over precision "@ + md_emoji(
        EMOJI_STAR@,
    ) + " |\n| DeepSeek "@ + md_emoji(EMOJI_WHALE_DEEPSEEK@) + " | Fast and Powerful model "@
        + md_emoji(EMOJI_STAR@) + " |\n\n**Tap a model to begin →**"@
}

/// The rich model menu of `/chat`.
pub fn chat_menu_text() -> (r: String)
    ensures
        r@ == chat_menu_text_spec(),
{
    let mut t = String::new();
    append(&mut t, "# Pick Your AI ");
    add_emoji(&mut t, EMOJI_LIGHTNING);
    append(
        &mut t,
        "\n\nEvery Model has its own Strengths — choose the one that fits what you need.\n\n## MODEL\n\n| Model | Description |\n|---|---|\n| Gemini ",
    );
    add_emoji(&mut t, EMOJI_GEMINI);
    append(&mut t, " | Quick, everyday chats ");
    add_emoji(&mut t, EMOJI_STAR);
    append(&mut t, " |\n| ChatGPT ");
    add_emoji(&mut t, EMOJI_CHATGPT);
    append(&mut t, " | Speed over precision ");
    add_emoji(&mut t, EMOJI_STAR);
    append(&mut t, " |\n| DeepSeek ");
    add_emoji(&mut t, EMOJI_WHALE_DEEPSEEK);
    append(&mut t, " | Fast and Powerful model ");
    add_emoji(&mut t, EMOJI_STAR);
    append(&mut t, " |\n\n**Tap a model to begin →**");
    assert(t@ =~= chat_menu_text_spec());
    t
}

/// The buttons of the `/chat` menu: rows of (text, color, callback data).
pub fn chat_menu_buttons() -> (r: Vec<Vec<(&'static str, &'static str, &'static str)>>)
    ensures
        r@.len() == 3,
        r@[0]@.len() == 2 && r@[1]@.len() == 1 && r@[2]@.len() == 1,
        r@[0]@[0].0@ == "Gemini"@ && r@[0]@[0].1@ == "success"@ && r@[0]@[0].2@ == "chatmodel:gemini"@,
        r@[0]@[1].0@ == "ChatGPT"@ && r@[0]@[1].1@ == "primary"@ && r@[0]@[1].2@ == "chatmodel:groq"@,
        r@[1]@[0].0@ == "DeepSeek"@ && r@[1]@[0].1@ == "primary"@ && r@[1]@[0].2@
            == "chatmodel:deepseek"@,
        r@[2]@[0].0@ == "🔙 Back"@ && r@[2]@[0].1@ == "danger"@ && r@[2]@[0].2@ == "chatmodel:back"@,
{
    let mut row1 = Vec::new();
    row1.push(("Gemini", "success", "chatmodel:gemini"));
    row1.push(("ChatGPT", "primary", "chatmodel:groq"));
    let mut row2 = Vec::new();
    row2.push(("DeepSeek", "primary", "chatmodel:deepseek"));
    let mut row3 = Vec::new();
    row3.push(("🔙 Back", "danger", "chatmodel:back"));
    let mut v = Vec::new();
    v.push(row1);
    v.push(row2);
    v.push(row3);
    v
}

/// Whether a private text reaches the model: only in the active stage.
pub fn conversation_active(stage: &str) -> (r: bool)
    ensures
        r == (stage@ == "chat_active"@),
{
    str_eq(stage, "chat_active")
}

proof fn lemma_model_button(key: Seq<char>, user_id: i64, clicker: i64)
    requires
        lacks(key, ':'),
        key_model_spec(key) is Some,
    ensures
        callback_spec("model:"@ + key + ":"@ + int_decimal(user_id as int), clicker) == if clicker
            == user_id {
            (2int, key_model_spec(key)->0)
        } else {
            (1int, Seq::<char>::empty())
        },
{
    reveal_strlit("model:");
    reveal_strlit("model");
    reveal_strlit(":");
    let d = int_decimal(user_id as int);
    let data = "model:"@ + key + ":"@ + d;
    lemma_int_decimal_chars(user_id as int, ':');
    assert(lacks(d, ':'));
    assert(lacks("model"@, ':'));
    assert("model:"@ =~= "model"@ + seq![':']);
    assert(data =~= "model"@ + seq![':'] + key + seq![':'] + d);
    lemma_split_char_three("model"@, key, d, ':');
    assert(data.subrange(0, "model:"@.len() as int) =~= "model:"@);
    law_parse_after_format(user_id);
    assert(split_char_spec(data, ':')[2] == d);
    assert(split_char_spec(data, ':')[1] == key);
}

/// A button of the group model menu shown to `user_id` sets the model it
/// names when `user_id` presses it, and tells anyone else it is not theirs.
pub proof fn law_model_buttons_answer_their_member(user_id: i64, clicker: i64)
    ensures
        callback_spec("model:gemini:"@ + int_decimal(user_id as int), clicker) == if clicker
            == user_id {
            (2int, crate::ai::gemini::MODEL@)
        } else {
            (1int, Seq::<char>::empty())
        },
        callback_spec("model:deepseek:"@ + int_decimal(user_id as int), clicker) == if clicker
            == user_id {
            (2int, crate::ai::deepseek::MODEL@)
        } else {
            (1int, Seq::<char>::empty())
        },
        callback_spec("model:groq:"@ + int_decimal(user_id as int), clicker) == if clicker
            == user_id {
            (2int, crate::ai::groq::MODEL@)
        } else {
            (1int, Seq::<char>::empty())
        },
{
    reveal_strlit("model:");
    reveal_strlit(":");
    reveal_strlit("gemini");
    reveal_strlit("deepseek");
    reveal_strlit("groq");
    reveal_strlit("model:gemini:");
    reveal_strlit("model:deepseek:");
    reveal_strlit("model:groq:");
    assert(lacks("gemini"@, ':'));
    assert(lacks("deepseek"@, ':'));
    assert(lacks("groq"@, ':'));
    assert("deepseek"@ != "gemini"@) by {
        assert("deepseek"@.len() != "gemini"@.len());
    }
    assert("groq"@ != "gemini"@) by {
        assert("groq"@.len() != "gemini"@.len());
    }
    assert("groq"@ != "deepseek"@) by {
        assert("groq"@.len() != "deepseek"@.len());
    }
    lemma_model_button("gemini"@, user_id, clicker);
    lemma_model_button("deepseek"@, user_id, clicker);
    lemma_model_button("groq"@, user_id, clicker);
    assert("model:gemini:"@ + int_decimal(user_id as int) =~= "model:"@ + "gemini"@ + ":"@
        + int_decimal(user_id as int));
    assert("model:deepseek:"@ + int_decimal(user_id as int) =~= "model:"@ + "deepseek"@ + ":"@
        + int_decimal(user_id as int));
    assert("model:groq:"@ + int_decimal(user_id as int) =~= "model:"@ + "groq"@ + ":"@
        + int_decimal(user_id as int));
}

} // verus!
