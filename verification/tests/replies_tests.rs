use safeguard::ai::{deepseek, gemini, groq};
use safeguard::bot::{BTN_BACK, BTN_CHAT_AI, MODEL_DESC_DEEPSEEK, MODEL_DESC_GEMINI, MODEL_DESC_GROQ};
use safeguard::replies::{
    admin_added_text, chat_menu_buttons, chat_menu_text, chat_model_menu, effective_system_prompt,
    failure_reply, group_add_link, group_lock_reply, group_model_buttons, group_model_menu_text,
    group_model_unavailable_text, how_prompt, how_set_text, how_status_text, lift_reply,
    main_menu, model_visibility_text, mute_minutes_left, mute_until, muted_by_owner_text,
    parse_add_mute, power_command, restriction_reply, second_word, second_word_of_two,
    select_model_set_text, spam_report_text, start_text, thinking_parts, unmuted_text,
    with_number, AddMuteArgs, EMOJI_THINKING,
};

#[test]
fn numbers_in_texts() {
    assert_eq!(with_number("a", -12, "b"), "a-12b");
    assert_eq!(admin_added_text(77), "✅ آیدی 77 ادمین شد.");
    assert_eq!(unmuted_text(5), "✅ سکوت کاربر `5` برداشته شد.");
    assert_eq!(muted_by_owner_text(5, 30), "✅ کاربر `5` به مدت 30 دقیقه سکوت شد.");
}

#[test]
fn model_texts() {
    assert_eq!(
        group_model_unavailable_text(deepseek::MODEL, gemini::MODEL),
        "⚠️ *DeepSeek V4 Flash* موقتاً در دسترس نیست.\n\nبه‌جاش مدل *Gemini 3.5 Flash Lite* برات فعال شد. وقتی مدل اصلی برگشت، دوباره `/model` بزن."
    );
    assert_eq!(
        select_model_set_text(groq::MODEL),
        "✅ مدل *GPT-OSS-120B* فعال شد.\n\nحالا هرچی می‌خوای بپرس 💬"
    );
    assert_eq!(
        group_model_menu_text(),
        format!(
            "🎯 *انتخاب مدل زبانی*\n\nلطفاً مدل مورد نظرت رو انتخاب کن:\n\n{}\n\n{}\n\n{}",
            MODEL_DESC_GEMINI, MODEL_DESC_DEEPSEEK, MODEL_DESC_GROQ
        )
    );
}

#[test]
fn group_model_button_data() {
    let b = group_model_buttons(42);
    assert_eq!(b.len(), 3);
    assert_eq!(b[0], ("🟢 Gemini 3.5 Flash Lite".to_string(), "model:gemini:42".to_string(), "success".to_string()));
    assert_eq!(b[1].1, "model:deepseek:42");
    assert_eq!(b[2].1, "model:groq:42");
    assert_eq!(group_model_buttons(-3)[0].1, "model:gemini:-3");
}

#[test]
fn lock_replies() {
    assert_eq!(restriction_reply("Ali", "links", None), "Ali has been restricted from sending links.");
    assert_eq!(
        restriction_reply("Ali", "links", Some(10)),
        "Ali has been restricted from sending links for 10 minutes."
    );
    assert_eq!(lift_reply("Ali", "GIFs"), "Ali can send GIFs again.");
    assert_eq!(group_lock_reply("stickers", true), "stickers are now locked for everyone in this group.");
    assert_eq!(group_lock_reply("stickers", false), "stickers are now unlocked for everyone in this group.");
}

#[test]
fn minutes_left_round_up() {
    assert_eq!(mute_minutes_left(100, 100), 0);
    assert_eq!(mute_minutes_left(101, 100), 1);
    assert_eq!(mute_minutes_left(160, 100), 1);
    assert_eq!(mute_minutes_left(161, 100), 2);
    assert_eq!(mute_minutes_left(50, 100), 0);
    assert_eq!(mute_minutes_left(i64::MAX, i64::MIN), (((i64::MAX as i128) - (i64::MIN as i128) + 59) / 60) as i64);
    assert_eq!(mute_until(1000, 600), 1600);
}

#[test]
fn spam_report() {
    assert_eq!(
        spam_report_text(10, Some("bob"), 7, "پیوی"),
        "🛡️ *گزارش امنیتی*\n\nیک کاربر به‌خاطر اسپم، به مدت 10 دقیقه سکوت شد.\n\n👤 کاربر: @bob (آیدی: 7)\n📍 محل: پیوی\n⏱️ مدت سکوت: 10 دقیقه"
    );
    assert!(spam_report_text(10, None, 7, "g").contains("👤 کاربر: آیدی: 7\n"));
}

#[test]
fn add_mute_arguments() {
    assert!(matches!(parse_add_mute("/add 5"), AddMuteArgs::Usage));
    assert!(matches!(parse_add_mute("/add x @u"), AddMuteArgs::BadMinutes));
    match parse_add_mute("/add 15 @u") {
        AddMuteArgs::Mute(m, t) => {
            assert_eq!(m, 15);
            assert_eq!(t, "@u");
        }
        _ => panic!("expected a mute"),
    }
    assert_eq!(second_word_of_two("/remove 9"), Some("9".to_string()));
    assert_eq!(second_word_of_two("/remove 9 x"), None);
    assert_eq!(second_word("/see a b"), Some("a".to_string()));
    assert_eq!(second_word("/see"), None);
}

#[test]
fn system_prompt_texts() {
    assert_eq!(how_prompt("/how"), "");
    assert_eq!(how_prompt("  /how  "), "");
    assert_eq!(how_prompt("/how  be brief "), "be brief");
    assert_eq!(how_prompt("/how/how x"), "x");
    assert_eq!(
        how_status_text("", false),
        "📝 *پرامپت سیستمی فعلی:*\n\n— تعریف نشده —\n\nوضعیت: 🔴 خاموش\n\nبرای تعریف پرامپت جدید:\n`/how متن پرامپت`"
    );
    assert!(how_status_text("p", true).contains("\n\np\n\nوضعیت: 🟢 روشن"));
    assert_eq!(how_set_text("p"), "✅ *پرامپت سیستمی تعریف شد.*\n\n📝 متن:\n«p»\n\nبرای فعال‌سازی: `/ison`");
    assert_eq!(effective_system_prompt(true, "p".to_string()), Some("p".to_string()));
    assert_eq!(effective_system_prompt(true, String::new()), None);
    assert_eq!(effective_system_prompt(false, "p".to_string()), None);
}

#[test]
fn failure_texts() {
    assert_eq!(failure_reply(true, "m", "boom"), "🔴 *خطای واقعی (فقط مالک)*\n\nمدل: m\n\nboom");
    assert_eq!(
        failure_reply(false, "m", "boom"),
        "⚠️ یه مشکل فنی پیش اومد و نتونستم جوابت رو بدم.\n\nلطفاً چند لحظه بعد دوباره تلاش کن. 🙏"
    );
}

#[test]
fn menus() {
    assert_eq!(main_menu(), vec![(BTN_CHAT_AI, "primary"), ("🔴 پشتیبانی", "danger")]);
    let m = chat_model_menu();
    assert_eq!(m.len(), 4);
    assert_eq!(m[3], (BTN_BACK, ""));
    let rows = chat_menu_buttons();
    assert_eq!(rows[0][1], ("ChatGPT", "primary", "chatmodel:groq"));
    assert_eq!(rows[2][0].2, "chatmodel:back");
    let t = thinking_parts();
    assert_eq!(t[1].custom_emoji_id.as_deref(), Some(EMOJI_THINKING));
}

#[test]
fn power_commands() {
    assert_eq!(power_command(" /off ", true), Some(false));
    assert_eq!(power_command("/on", true), Some(true));
    assert_eq!(power_command("/on", false), None);
    assert_eq!(power_command("/onx", true), None);
}

#[test]
fn fixed_rich_texts() {
    assert!(start_text().starts_with("# I'm SafeGuard ![🎭](tg://emoji?id=5235488215254736349)\n\n"));
    assert!(start_text().ends_with("![🎭](tg://emoji?id=5251681865458293966) Just send /chat"));
    assert!(chat_menu_text().ends_with("|\n\n**Tap a model to begin →**"));
    assert_eq!(group_add_link("@@SafeBot"), "https://t.me/SafeBot?startgroup=true");
    assert_eq!(
        model_visibility_text("groq", true),
        "🟢 *GPT-OSS-120B* دوباره در دسترس قرار گرفت."
    );
}

#[test]
fn whole_minutes_of_a_mute() {
    assert_eq!(safeguard::replies::mute_minutes(600), 10);
    assert_eq!(safeguard::replies::mute_minutes(59), 0);
    assert_eq!(safeguard::replies::mute_minutes(0), 0);
}
