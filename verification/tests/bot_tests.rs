use safeguard::ai::{deepseek, gemini, groq};
use safeguard::bot::{
    admit_update, check_mute, MuteCheck, Admission, decide_callback, first_name_for, group_reply_model, is_deepseek_model, is_directed_at_bot,
    is_groq_model, lock_minutes, make_title_from_text, model_display_name, pick_alternative_model,
    private_reply_model, registers_first_owner, resolve_chat_model_id, restriction_until,
    route_group_command, route_group_text, route_private_text, split_long_message,
    truncate_chars, CallbackDecision, GroupCommand, GroupRoute, PrivateRoute, BTN_BACK,
    BTN_CHAT_AI, BTN_MODEL_35_LITE, BTN_MODEL_DEEPSEEK, BTN_MODEL_GROQ, BTN_SUPPORT,
    DEFAULT_GROUP_MODEL, LONG_MESSAGE_LIMIT,
};
use safeguard::protection::{Rank, RankCommand};
use safeguard::store::ModelVisibility;

const OWNER: i64 = 1000;

fn vis(gemini: bool, deepseek: bool, groq: bool) -> ModelVisibility {
    ModelVisibility { gemini, deepseek, groq }
}

#[test]
fn chat_model_ids() {
    assert_eq!(resolve_chat_model_id(BTN_MODEL_35_LITE), Some("gemini-3.5-flash-lite"));
    assert_eq!(resolve_chat_model_id(" gemini "), Some("gemini-3.5-flash-lite"));
    assert_eq!(resolve_chat_model_id(BTN_MODEL_DEEPSEEK), Some(deepseek::MODEL));
    assert_eq!(resolve_chat_model_id("deepseek"), Some(deepseek::MODEL));
    assert_eq!(resolve_chat_model_id(BTN_MODEL_GROQ), Some(groq::MODEL));
    assert_eq!(resolve_chat_model_id("gpt"), Some(groq::MODEL));
    assert_eq!(resolve_chat_model_id("Gemini"), None);
    assert_eq!(DEFAULT_GROUP_MODEL, gemini::MODEL);
}

#[test]
fn display_names() {
    assert_eq!(model_display_name("gemini-3.5-flash-lite"), "Gemini 3.5 Flash Lite");
    assert_eq!(model_display_name(deepseek::MODEL), "DeepSeek V4 Flash");
    assert_eq!(model_display_name(groq::MODEL), "GPT-OSS-120B");
    assert_eq!(model_display_name("x"), "مدل انتخابی");
    assert!(is_deepseek_model("deepseek/deepseek-v4-flash-free"));
    assert!(!is_deepseek_model("deepseek"));
    assert!(is_groq_model("openai/gpt-oss-120b"));
    assert!(!is_groq_model("groq"));
}

#[test]
fn alternatives_for_unavailable_models() {
    assert_eq!(pick_alternative_model(deepseek::MODEL, &vis(true, true, true)), gemini::MODEL);
    assert_eq!(pick_alternative_model(deepseek::MODEL, &vis(false, true, true)), groq::MODEL);
    assert_eq!(pick_alternative_model(deepseek::MODEL, &vis(false, true, false)), gemini::MODEL);
    assert_eq!(pick_alternative_model(groq::MODEL, &vis(true, true, true)), gemini::MODEL);
    assert_eq!(pick_alternative_model(groq::MODEL, &vis(false, true, true)), deepseek::MODEL);
    assert_eq!(pick_alternative_model(groq::MODEL, &vis(false, false, true)), gemini::MODEL);
    assert_eq!(pick_alternative_model(gemini::MODEL, &vis(true, true, true)), deepseek::MODEL);
    assert_eq!(pick_alternative_model(gemini::MODEL, &vis(true, false, true)), groq::MODEL);
    assert_eq!(pick_alternative_model(gemini::MODEL, &vis(true, false, false)), deepseek::MODEL);
}

#[test]
fn reply_models() {
    let all = vis(true, true, true);
    assert_eq!(group_reply_model(None, "gemini-3.5-flash-lite".to_string(), &all), "gemini-3.5-flash-lite");
    assert_eq!(
        group_reply_model(Some(groq::MODEL.to_string()), "gemini-3.5-flash-lite".to_string(), &all),
        groq::MODEL
    );
    assert_eq!(
        group_reply_model(Some(groq::MODEL.to_string()), "g".to_string(), &vis(true, true, false)),
        gemini::MODEL
    );
    let (m, changed) = private_reply_model(deepseek::MODEL, &vis(true, false, true));
    assert_eq!(m, gemini::MODEL);
    assert!(changed);
    let (m, changed) = private_reply_model(deepseek::MODEL, &all);
    assert_eq!(m, deepseek::MODEL);
    assert!(!changed);
}

#[test]
fn nicknames() {
    assert_eq!(first_name_for(7383778633), Some("کاکا"));
    assert_eq!(first_name_for(8747692661), Some("امیر حسین پنیک"));
    assert_eq!(first_name_for(1), None);
}

#[test]
fn titles_and_truncation() {
    assert_eq!(make_title_from_text("line one\nline two"), "line one line two");
    let long = "x".repeat(40);
    assert_eq!(make_title_from_text(&long), "x".repeat(30));
    assert_eq!(truncate_chars("abc", 3), "abc");
    assert_eq!(truncate_chars("abcd", 3), "abc...");
    assert_eq!(truncate_chars("سلام دنیا", 4), "سلام...");
}

#[test]
fn long_messages_are_split() {
    assert_eq!(LONG_MESSAGE_LIMIT, 3800);
    assert_eq!(split_long_message("short", 3800), vec!["short"]);
    assert_eq!(split_long_message("abcdefg", 3), vec!["abc", "def", "g"]);
    assert_eq!(split_long_message("abcdef", 3), vec!["abc", "def"]);
    let text: String = "ب".repeat(7700);
    let parts = split_long_message(&text, 3800);
    assert_eq!(parts.len(), 3);
    assert_eq!(parts[0].chars().count(), 3800);
    assert_eq!(parts[2].chars().count(), 100);
    assert_eq!(parts.concat(), text);
}

#[test]
fn private_owner_commands() {
    assert!(matches!(route_private_text("/see", OWNER, OWNER, true, "root"), PrivateRoute::See));
    assert!(matches!(route_private_text("/see", 5, OWNER, true, "root"), PrivateRoute::Ignore));
    assert!(matches!(route_private_text("/list g", OWNER, OWNER, true, "root"), PrivateRoute::List));
    assert!(matches!(route_private_text("/add 5 @u", OWNER, OWNER, true, "root"), PrivateRoute::AddMute));
    assert!(matches!(route_private_text("/add", OWNER, OWNER, true, "root"), PrivateRoute::AddMute));
    assert!(matches!(route_private_text("/remove @u", OWNER, OWNER, true, "root"), PrivateRoute::RemoveMute));
    assert!(matches!(
        route_private_text(" /ison ", OWNER, OWNER, true, "root"),
        PrivateRoute::SetSystemPromptEnabled(true)
    ));
    assert!(matches!(
        route_private_text("/isoff", OWNER, OWNER, true, "root"),
        PrivateRoute::SetSystemPromptEnabled(false)
    ));
    assert!(matches!(route_private_text("/how be nice", OWNER, OWNER, true, "root"), PrivateRoute::How));
    assert!(matches!(
        route_private_text("/gptoffshow", OWNER, OWNER, true, "root"),
        PrivateRoute::SetModelShown("groq", false)
    ));
    assert!(matches!(
        route_private_text("/gemenishowon", OWNER, OWNER, true, "root"),
        PrivateRoute::SetModelShown("gemini", true)
    ));
    assert!(matches!(route_private_text("/changemodel", OWNER, OWNER, true, "root"), PrivateRoute::ChangeModel));
}

#[test]
fn private_admin_commands() {
    assert!(matches!(route_private_text("/addadmin 77", OWNER, OWNER, true, "root"), PrivateRoute::AddAdmin(77)));
    assert!(matches!(
        route_private_text("/addadmin", OWNER, OWNER, true, "root"),
        PrivateRoute::Usage("فرمت: `/addadmin آیدی_عددی`")
    ));
    assert!(matches!(route_private_text("/addadmin x", OWNER, OWNER, true, "root"), PrivateRoute::Ignore));
    assert!(matches!(
        route_private_text("/removeadmin 1000", OWNER, OWNER, true, "root"),
        PrivateRoute::RemoveOwnerRefused
    ));
    assert!(matches!(route_private_text("/removeadmin 7", OWNER, OWNER, true, "root"), PrivateRoute::RemoveAdmin(7)));
    match route_private_text("/ban @spammer", 5, OWNER, true, "root") {
        PrivateRoute::Ban(t) => assert_eq!(t, "@spammer"),
        _ => panic!("expected a ban"),
    }
    assert!(matches!(route_private_text("/ban @spammer", 5, OWNER, false, "root"), PrivateRoute::Ignore));
    match route_private_text("/unban 12", 5, OWNER, true, "root") {
        PrivateRoute::Unban(t) => assert_eq!(t, "12"),
        _ => panic!("expected an unban"),
    }
    assert!(matches!(
        route_private_text("/unban", 5, OWNER, true, "root"),
        PrivateRoute::Usage("فرمت: `/unban آیدی یا @یوزرنیم`")
    ));
}

#[test]
fn private_menu_routes() {
    assert!(matches!(route_private_text("/start", 5, OWNER, false, "root"), PrivateRoute::Start));
    assert!(matches!(
        route_private_text(BTN_MODEL_DEEPSEEK, OWNER, OWNER, true, "group_model_select"),
        PrivateRoute::SetGroupModel(m) if m == deepseek::MODEL
    ));
    assert!(matches!(
        route_private_text(BTN_MODEL_DEEPSEEK, 5, OWNER, false, "group_model_select"),
        PrivateRoute::SelectModel(m) if m == deepseek::MODEL
    ));
    assert!(matches!(route_private_text(BTN_CHAT_AI, 5, OWNER, false, "root"), PrivateRoute::ChatMenu));
    assert!(matches!(route_private_text("CHAT", 5, OWNER, false, "root"), PrivateRoute::ChatMenu));
    assert!(matches!(route_private_text("/Chat", 5, OWNER, false, "root"), PrivateRoute::ChatMenu));
    assert!(matches!(route_private_text(BTN_SUPPORT, 5, OWNER, false, "root"), PrivateRoute::Support));
    assert!(matches!(route_private_text(BTN_BACK, 5, OWNER, false, "root"), PrivateRoute::Back));
    assert!(matches!(route_private_text("/model", 5, OWNER, false, "root"), PrivateRoute::ModelMenu(false)));
    assert!(matches!(route_private_text("/newchat", 5, OWNER, false, "root"), PrivateRoute::ModelMenu(true)));
    assert!(matches!(route_private_text(" /model", 5, OWNER, false, "root"), PrivateRoute::Conversation));
    assert!(matches!(route_private_text("hello there", 5, OWNER, false, "chat_active"), PrivateRoute::Conversation));
}

#[test]
fn directed_messages() {
    assert!(is_directed_at_bot(true, Some("SafeBot"), None, "@safebot"));
    assert!(!is_directed_at_bot(false, Some("SafeBot"), None, "@safebot"));
    assert!(!is_directed_at_bot(true, Some("Other"), None, "@safebot"));
    assert!(is_directed_at_bot(false, None, Some("hey @SAFEBOT what"), "@safebot"));
    assert!(!is_directed_at_bot(false, None, Some("hey there"), "@safebot"));
}

#[test]
fn group_commands() {
    assert!(matches!(route_group_command("ad", Some((5, false))), GroupCommand::Rank(RankCommand::MakeAdmin)));
    assert!(matches!(route_group_command("ad", Some((5, true))), GroupCommand::Continue));
    assert!(matches!(route_group_command("ad", None), GroupCommand::Continue));
    assert!(matches!(route_group_command("lock link", Some((5, false))), GroupCommand::RestrictUser("link")));
    assert!(matches!(route_group_command("ul link", Some((5, false))), GroupCommand::LiftUser("link")));
    assert!(matches!(route_group_command("lock link", Some((0, false))), GroupCommand::Continue));
    assert!(matches!(route_group_command("lock gif", None), GroupCommand::GroupLock(true, "gif")));
    assert!(matches!(route_group_command("unlock gif", None), GroupCommand::GroupLock(false, "gif")));
    assert!(matches!(route_group_command("hello", None), GroupCommand::Continue));
}

#[test]
fn restriction_minutes() {
    assert_eq!(lock_minutes("llink 30"), Some(30));
    assert_eq!(lock_minutes("llink"), None);
    assert_eq!(lock_minutes(""), None);
    assert_eq!(restriction_until(Some(30), 1000), Some(1000 + 1800));
    assert_eq!(restriction_until(None, 1000), None);
    assert_eq!(restriction_until(Some(i64::MAX), 0), Some(i64::MAX.wrapping_mul(60)));
}

#[test]
fn group_routes() {
    assert!(matches!(route_group_text(" بات ", Rank::Regular, false, "@b"), GroupRoute::ReplyYes));
    assert!(matches!(route_group_text("/ban", Rank::Regular, false, "@b"), GroupRoute::Ban));
    assert!(matches!(route_group_text("/unban 42", Rank::Admin, false, "@b"), GroupRoute::Unban(42)));
    assert!(matches!(route_group_text("/unban 42", Rank::Vip, false, "@b"), GroupRoute::Ignore));
    assert!(matches!(route_group_text("/unban x", Rank::Owner, false, "@b"), GroupRoute::Ignore));
    assert!(matches!(route_group_text("/model", Rank::Regular, false, "@b"), GroupRoute::ModelMenu));
    assert!(matches!(route_group_text("hi", Rank::Regular, false, "@b"), GroupRoute::Ignore));
    match route_group_text("@b  what is rust? ", Rank::Regular, true, "@b") {
        GroupRoute::AskAi(q) => assert_eq!(q, "what is rust?"),
        _ => panic!("expected a question"),
    }
    assert!(matches!(route_group_text(" @b ", Rank::Regular, true, "@b"), GroupRoute::Ignore));
}

#[test]
fn first_owner_registration() {
    assert!(registers_first_owner("group", "member"));
    assert!(registers_first_owner("supergroup", "administrator"));
    assert!(!registers_first_owner("private", "member"));
    assert!(!registers_first_owner("group", "left"));
}

#[test]
fn callbacks() {
    assert!(matches!(decide_callback("model:gemini:42", 42), CallbackDecision::GroupModel(m) if m == gemini::MODEL));
    assert!(matches!(decide_callback("model:groq:42", 7), CallbackDecision::NotYourButton));
    assert!(matches!(decide_callback("model:mistral:42", 42), CallbackDecision::AnswerOnly));
    assert!(matches!(decide_callback("model:gemini", 42), CallbackDecision::AnswerOnly));
    assert!(matches!(decide_callback("model:gemini:x", 42), CallbackDecision::AnswerOnly));
    assert!(matches!(decide_callback("chatmodel:back", 1), CallbackDecision::ChatBack));
    assert!(matches!(decide_callback("chatmodel:deepseek", 1), CallbackDecision::ChatModel(m) if m == deepseek::MODEL));
    assert!(matches!(decide_callback("chatmodel:x", 1), CallbackDecision::AnswerOnly));
    assert!(matches!(decide_callback("other", 1), CallbackDecision::AnswerOnly));
}

#[test]
fn group_chat_types_and_minutes() {
    assert!(safeguard::bot::is_group_chat("group"));
    assert!(safeguard::bot::is_group_chat("supergroup"));
    assert!(!safeguard::bot::is_group_chat("private"));
    assert!(!safeguard::bot::is_group_chat("channel"));
    assert_eq!(safeguard::bot::after_minutes(100, 2), 220);
    assert_eq!(safeguard::bot::after_minutes(100, -1), 40);
}

#[test]
fn menu_buttons_answer_the_member_they_were_shown_to() {
    for user in [42i64, -7, 0, i64::MAX, i64::MIN] {
        let buttons = safeguard::replies::group_model_buttons(user);
        let expected = [gemini::MODEL, deepseek::MODEL, groq::MODEL];
        for (b, m) in buttons.iter().zip(expected.iter()) {
            assert!(matches!(decide_callback(&b.1, user), CallbackDecision::GroupModel(x) if x == *m));
            let other = user.wrapping_add(1);
            assert!(matches!(decide_callback(&b.1, other), CallbackDecision::NotYourButton));
        }
    }
}

#[test]
fn pieces_rejoin_into_the_text() {
    let text: String = "سلام, hello! ".repeat(700);
    for limit in [1usize, 7, 100, 3800, 20000] {
        let parts = split_long_message(&text, limit);
        assert_eq!(parts.concat(), text);
        assert!(parts.iter().all(|p| !p.is_empty() && p.chars().count() <= limit));
    }
    assert_eq!(split_long_message("", 5), vec![""]);
}

#[test]
fn alternative_is_offered_when_something_is() {
    let models = [gemini::MODEL, deepseek::MODEL, groq::MODEL];
    for mask in 1u8..8 {
        let v = vis(mask & 1 != 0, mask & 2 != 0, mask & 4 != 0);
        for m in models.iter() {
            if !safeguard::store::is_model_shown(m, &v) {
                let alt = pick_alternative_model(m, &v);
                assert!(safeguard::store::is_model_shown(alt, &v), "{} {:?}", m, v);
            }
        }
    }
}

#[test]
fn non_owner_never_reaches_owner_commands() {
    let texts = [
        "/see", "/list x", "/add 5 u", "/remove u", "/ison", "/isoff", "/how p", "/gptoffshow",
        "/addadmin 1", "/removeadmin 1", "/changemodel", BTN_MODEL_GROQ,
    ];
    for t in texts.iter() {
        let r = route_private_text(t, 5, OWNER, true, "group_model_select");
        assert!(
            matches!(r, PrivateRoute::Ignore | PrivateRoute::SelectModel(_)),
            "{}",
            t
        );
    }
    assert!(matches!(route_private_text("/ban 1", 5, OWNER, false, "root"), PrivateRoute::Ignore));
    assert!(matches!(route_private_text("/unban 1", OWNER, OWNER, false, "root"), PrivateRoute::Ignore));
}

#[test]
fn routing_on_lowered_words() {
    assert!(matches!(
        safeguard::bot::route_group_command_word("ad", Some((5, false))),
        GroupCommand::Rank(RankCommand::MakeAdmin)
    ));
    assert!(matches!(safeguard::bot::route_group_command_word("AD", Some((5, false))), GroupCommand::Continue));
    assert!(matches!(
        safeguard::bot::route_group_command_word("lock gif", None),
        GroupCommand::GroupLock(true, "gif")
    ));
    assert!(matches!(
        safeguard::bot::route_private_text_with("CHAT", "chat", 5, OWNER, false, "root"),
        PrivateRoute::ChatMenu
    ));
    assert!(matches!(
        safeguard::bot::route_private_text_with("CHAT", "CHAT", 5, OWNER, false, "root"),
        PrivateRoute::Conversation
    ));
    assert!(safeguard::bot::directed_at_bot_lower(true, Some("@safebot"), None, "@safebot"));
    assert!(!safeguard::bot::directed_at_bot_lower(true, Some("@SafeBot"), None, "@safebot"));
    assert!(safeguard::bot::directed_at_bot_lower(false, None, Some("hi @safebot"), "@safebot"));
}

#[test]
fn update_gate_order() {
    assert_eq!(admit_update(true, Some("/off"), true, true), Admission::Banned);
    assert_eq!(admit_update(false, Some(" /off "), true, true), Admission::Power(false));
    assert_eq!(admit_update(false, Some("/on"), true, false), Admission::Power(true));
    assert_eq!(admit_update(false, Some("/on"), false, false), Admission::Disabled);
    assert_eq!(admit_update(false, None, true, false), Admission::Disabled);
    assert_eq!(admit_update(false, Some("hi"), false, true), Admission::CheckMute);
}

#[test]
fn mute_check() {
    assert_eq!(check_mute(None, true, false, 100), MuteCheck::Proceed);
    assert_eq!(check_mute(Some(200), true, false, 100), MuteCheck::Silent);
    assert_eq!(check_mute(Some(200), true, true, 100), MuteCheck::Reply(2));
    assert_eq!(check_mute(Some(161), false, false, 100), MuteCheck::Reply(2));
    assert_eq!(check_mute(Some(160), false, false, 100), MuteCheck::Reply(1));
}
