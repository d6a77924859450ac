use std::collections::HashMap;
use safeguard::store::{
    find_group_by_ref, flag_value, forgotten_cutoff, get_stage, group_title, is_banned,
    is_bot_enabled, is_model_shown, is_muted, is_remembered, is_system_prompt_enabled,
    is_user_restricted, mark_forgotten_before, model_toggle_key, resolve_target_user_id,
    join_link_source, setting_flag, username_key, GroupRef, JoinLink, ModelVisibility, MuteStatus,
    RestrictionVerdict, UserRef,
};

fn all_shown() -> ModelVisibility {
    ModelVisibility { gemini: true, deepseek: true, groq: true }
}

#[test]
fn vip_is_never_restricted() {
    let r = is_user_restricted(true, true, Some(None), 100);
    assert_eq!(r, RestrictionVerdict { restricted: false, clear_expired: false });
}

#[test]
fn group_lock_restricts_everyone_else() {
    let r = is_user_restricted(false, true, None, 100);
    assert_eq!(r, RestrictionVerdict { restricted: true, clear_expired: false });
}

#[test]
fn personal_restrictions() {
    assert_eq!(
        is_user_restricted(false, false, None, 100),
        RestrictionVerdict { restricted: false, clear_expired: false }
    );
    assert_eq!(
        is_user_restricted(false, false, Some(None), 100),
        RestrictionVerdict { restricted: true, clear_expired: false }
    );
    assert_eq!(
        is_user_restricted(false, false, Some(Some(101)), 100),
        RestrictionVerdict { restricted: true, clear_expired: false }
    );
    assert_eq!(
        is_user_restricted(false, false, Some(Some(100)), 100),
        RestrictionVerdict { restricted: false, clear_expired: true }
    );
}

#[test]
fn mute_status() {
    assert_eq!(is_muted(None, 10), MuteStatus::NotMuted);
    assert_eq!(is_muted(Some(11), 10), MuteStatus::Muted(11));
    assert_eq!(is_muted(Some(10), 10), MuteStatus::Expired);
}

#[test]
fn settings_flags() {
    assert!(setting_flag(Some("1"), false));
    assert!(!setting_flag(Some("0"), true));
    assert!(!setting_flag(Some("true"), true));
    assert!(setting_flag(None, true));
    assert!(is_bot_enabled(None));
    assert!(!is_bot_enabled(Some("0")));
    assert!(!is_system_prompt_enabled(None));
    assert!(is_system_prompt_enabled(Some("1")));
}

#[test]
fn flag_round_trip() {
    for enabled in [true, false] {
        assert_eq!(setting_flag(Some(flag_value(enabled)), !enabled), enabled);
    }
    assert_eq!(flag_value(true), "1");
    assert_eq!(flag_value(false), "0");
}

#[test]
fn model_visibility() {
    let mut v = all_shown();
    assert!(is_model_shown("gemini-3.5-flash-lite", &v));
    v.gemini = false;
    assert!(!is_model_shown("gemini-3.5-flash-lite", &v));
    assert!(is_model_shown("gemini-3.5-flash", &v));
    v.deepseek = false;
    assert!(!is_model_shown("deepseek/deepseek-v4-flash-free", &v));
    v.groq = false;
    assert!(!is_model_shown("openai/gpt-oss-120b", &v));
    assert!(!is_model_shown("groq-anything", &v));
    assert!(is_model_shown("other-model", &v));
}

#[test]
fn model_toggle_keys() {
    assert_eq!(model_toggle_key("gemini"), Some("show_gemini"));
    assert_eq!(model_toggle_key("gemini-3.5-flash-lite"), Some("show_gemini"));
    assert_eq!(model_toggle_key("deepseek"), Some("show_deepseek"));
    assert_eq!(model_toggle_key("groq"), Some("show_groq"));
    assert_eq!(model_toggle_key("gpt"), Some("show_groq"));
    assert_eq!(model_toggle_key("mistral"), None);
}

#[test]
fn forgetting_marker_takes_the_maximum() {
    assert_eq!(mark_forgotten_before(None, 5), 5);
    assert_eq!(mark_forgotten_before(Some(9), 5), 9);
    assert_eq!(mark_forgotten_before(Some(3), 5), 5);
    assert_eq!(forgotten_cutoff(None), 0);
    assert_eq!(forgotten_cutoff(Some(12)), 12);
    assert!(is_remembered(13, 12));
    assert!(!is_remembered(12, 12));
}

#[test]
fn ban_flag_and_stored_texts() {
    assert!(is_banned(Some(1)));
    assert!(!is_banned(Some(0)));
    assert!(!is_banned(Some(2)));
    assert!(!is_banned(None));
    assert_eq!(get_stage(None), "root");
    assert_eq!(get_stage(Some("chat_active".to_string())), "chat_active");
    assert_eq!(group_title(None), "بدون عنوان");
    assert_eq!(group_title(Some("G".to_string())), "G");
}

#[test]
fn username_keys_drop_leading_ats() {
    assert_eq!(username_key("@@alice"), "alice");
    assert_eq!(username_key("bob@"), "bob@");
}

#[test]
fn group_references() {
    assert!(matches!(find_group_by_ref("  -100123  "), GroupRef::Id(-100123)));
    match find_group_by_ref(" @mygroup ") {
        GroupRef::Name(n) => assert_eq!(n, "mygroup"),
        GroupRef::Id(_) => panic!("expected a name"),
    }
}

#[test]
fn user_references() {
    assert!(matches!(resolve_target_user_id("12345"), UserRef::Id(12345)));
    match resolve_target_user_id("@carol") {
        UserRef::Username(n) => assert_eq!(n, "carol"),
        UserRef::Id(_) => panic!("expected a username"),
    }
    assert!(matches!(resolve_target_user_id(" 12"), UserRef::Username(_)));
}

#[test]
fn join_link_sources() {
    match join_link_source(Some("grp"), Some("https://t.me/+old".to_string())) {
        JoinLink::Public(l) => assert_eq!(l, "https://t.me/grp"),
        _ => panic!("expected the public link"),
    }
    match join_link_source(None, Some("https://t.me/+old".to_string())) {
        JoinLink::Stored(l) => assert_eq!(l, "https://t.me/+old"),
        _ => panic!("expected the stored link"),
    }
    assert!(matches!(join_link_source(None, Some(String::new())), JoinLink::Export));
    assert!(matches!(join_link_source(None, None), JoinLink::Export));
}

#[test]
fn visibility_round_trip() {
    let read = |s: &HashMap<&'static str, &'static str>| {
        safeguard::store::visibility_from_settings(
            s.get("show_gemini").copied(),
            s.get("show_deepseek").copied(),
            s.get("show_groq").copied(),
        )
    };
    let families = [
        ("gemini", "gemini-3.5-flash-lite"),
        ("gemini-3.5-flash-lite", "gemini-3.5-flash-lite"),
        ("deepseek", "deepseek/deepseek-v4-flash-free"),
        ("gpt", "openai/gpt-oss-120b"),
        ("groq", "groq-x"),
    ];
    for (name, model) in families.iter() {
        for shown in [true, false] {
            let mut settings: HashMap<&'static str, &'static str> = HashMap::new();
            settings.insert("show_gemini", "1");
            settings.insert("show_deepseek", "0");
            let key = model_toggle_key(name).unwrap();
            settings.insert(key, flag_value(shown));
            let vis = read(&settings);
            assert_eq!(is_model_shown(model, &vis), shown, "{} {}", name, shown);
            assert!(is_model_shown("other-model", &vis));
        }
    }
    assert_eq!(read(&HashMap::new()), ModelVisibility { gemini: true, deepseek: true, groq: true });
}
