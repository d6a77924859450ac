use safeguard::protection::{
    apply_rank_command, can_ban_vip, command_word_of, detect_message_content_types, get_rank,
    group_ban_decision, is_bare_bot_word, lock_entry, lock_type_label, parse_lock_command,
    parse_lock_command_word, resolve_lock_type, resolve_lowercase_lock_type, resolve_rank_command,
    should_delete, BanDecision, MessageFeatures, Rank, RankActionResult, RankCommand, RankEffect,
    LOCK_TYPE_COUNT,
};

fn no_features() -> MessageFeatures {
    MessageFeatures {
        has_sticker: false,
        has_animation: false,
        has_video: false,
        has_photo: false,
        has_voice: false,
        has_audio: false,
        has_document: false,
        has_location: false,
        has_venue: false,
        has_contact: false,
        has_game: false,
        has_forward_origin: false,
        has_forward_from: false,
        has_via_bot: false,
        from_is_bot: false,
        has_sender_chat: false,
        entity_types: None,
    }
}

#[test]
fn lock_table_entries() {
    assert_eq!(LOCK_TYPE_COUNT, 19);
    assert_eq!(lock_entry(0), ("link", "lnk", "links"));
    assert_eq!(lock_entry(13), ("emoji", "emj", "excess emoji"));
    assert_eq!(lock_entry(18), ("game", "gm", "games"));
}

#[test]
fn lock_types_by_name_and_abbreviation() {
    assert_eq!(resolve_lock_type("link"), Some("link"));
    assert_eq!(resolve_lock_type("LNK"), Some("link"));
    assert_eq!(resolve_lock_type("Sticker"), Some("sticker"));
    assert_eq!(resolve_lock_type("gf"), Some("gif"));
    assert_eq!(resolve_lock_type("an"), Some("anon"));
    assert_eq!(resolve_lock_type("links"), None);
    assert_eq!(resolve_lock_type(""), None);
    assert_eq!(resolve_lowercase_lock_type("usr"), Some("username"));
    assert_eq!(resolve_lowercase_lock_type("USR"), None);
}

#[test]
fn lock_labels() {
    assert_eq!(lock_type_label("gif"), "GIFs");
    assert_eq!(lock_type_label("anon"), "anonymous admin messages");
    assert_eq!(lock_type_label("lnk"), "that content type");
    assert_eq!(lock_type_label("unknown"), "that content type");
}

#[test]
fn lock_commands_spaced() {
    assert_eq!(parse_lock_command("lock link"), Some((true, "link")));
    assert_eq!(parse_lock_command("  /Lock   STK  "), Some((true, "sticker")));
    assert_eq!(parse_lock_command("l photo"), Some((true, "photo")));
    assert_eq!(parse_lock_command("unlock video"), Some((false, "video")));
    assert_eq!(parse_lock_command("ul vc"), Some((false, "voice")));
    assert_eq!(parse_lock_command("lock nothing"), None);
    assert_eq!(parse_lock_command("lock link 10"), None);
}

#[test]
fn lock_commands_glued() {
    assert_eq!(parse_lock_command("llink"), Some((true, "link")));
    assert_eq!(parse_lock_command("locklink"), Some((true, "link")));
    assert_eq!(parse_lock_command("ullink"), Some((false, "link")));
    assert_eq!(parse_lock_command("unlocklink"), Some((false, "link")));
    assert_eq!(parse_lock_command("/LGIF"), Some((true, "gif")));
    assert_eq!(parse_lock_command("lockx"), None);
    assert_eq!(parse_lock_command("hello"), None);
}

#[test]
fn glued_unlock_prefix_is_not_a_lock() {
    // "ulan": "ul" + "an" names anon; it is an unlock, not "l" + "ulan".
    assert_eq!(parse_lock_command("ulan"), Some((false, "anon")));
    // "lan": "l" + "an".
    assert_eq!(parse_lock_command("lan"), Some((true, "anon")));
}

#[test]
fn command_word_is_trimmed_unslashed_lowered() {
    assert_eq!(command_word_of("  /ADmin "), "admin");
    assert_eq!(command_word_of("//x"), "/x");
    assert_eq!(parse_lock_command_word("lock link"), Some((true, "link")));
}

#[test]
fn rank_commands() {
    assert_eq!(resolve_rank_command("ad"), Some(RankCommand::MakeAdmin));
    assert_eq!(resolve_rank_command(" /ADMIN "), Some(RankCommand::MakeAdmin));
    assert_eq!(resolve_rank_command("own"), Some(RankCommand::MakeOwner));
    assert_eq!(resolve_rank_command("remove"), Some(RankCommand::RemoveAny));
    assert_eq!(resolve_rank_command("rad"), Some(RankCommand::RemoveAdmin));
    assert_eq!(resolve_rank_command("rown"), Some(RankCommand::DemoteOwner));
    assert_eq!(resolve_rank_command("VIP"), Some(RankCommand::Vip));
    assert_eq!(resolve_rank_command("rvip"), Some(RankCommand::RemoveVip));
    assert_eq!(resolve_rank_command("admin please"), None);
}

#[test]
fn ranks_from_table_entries() {
    assert_eq!(get_rank(true, true, false, false), Rank::FirstOwner);
    assert_eq!(get_rank(false, true, true, true), Rank::Owner);
    assert_eq!(get_rank(false, false, true, true), Rank::Admin);
    assert_eq!(get_rank(false, false, false, true), Rank::Vip);
    assert_eq!(get_rank(false, false, false, false), Rank::Regular);
    assert!(can_ban_vip(Rank::FirstOwner));
    assert!(can_ban_vip(Rank::Owner));
    assert!(!can_ban_vip(Rank::Admin));
}

fn accepted(r: &RankActionResult) -> Option<String> {
    match r {
        RankActionResult::Accepted(m) => Some(m.clone()),
        _ => None,
    }
}

fn denied(r: &RankActionResult) -> Option<String> {
    match r {
        RankActionResult::Denied(m) => Some(m.clone()),
        _ => None,
    }
}

#[test]
fn owner_makes_admin() {
    let d = apply_rank_command(Some(Rank::Owner), Some(Rank::Regular), "Ali", RankCommand::MakeAdmin);
    assert_eq!(accepted(&d.result).unwrap(), "Ali has been added to the bot admins list.");
    assert_eq!(d.effects, vec![RankEffect::AddAdmin]);
}

#[test]
fn admin_cannot_make_admin() {
    let d = apply_rank_command(Some(Rank::Admin), Some(Rank::Regular), "Ali", RankCommand::MakeAdmin);
    assert_eq!(denied(&d.result).unwrap(), "Only owners can promote members to bot admin.");
    assert!(d.effects.is_empty());
}

#[test]
fn only_first_owner_makes_owner() {
    let d = apply_rank_command(Some(Rank::Owner), Some(Rank::Admin), "B", RankCommand::MakeOwner);
    assert_eq!(denied(&d.result).unwrap(), "Only the first owner can promote members to bot owner.");
    let d = apply_rank_command(Some(Rank::FirstOwner), Some(Rank::Admin), "B", RankCommand::MakeOwner);
    assert_eq!(accepted(&d.result).unwrap(), "B has been added to the bot owners list.");
    assert_eq!(d.effects, vec![RankEffect::AddOwner]);
}

#[test]
fn remove_any_rules() {
    let d = apply_rank_command(Some(Rank::FirstOwner), Some(Rank::FirstOwner), "F", RankCommand::RemoveAny);
    assert_eq!(denied(&d.result).unwrap(), "The first owner cannot be removed.");
    let d = apply_rank_command(Some(Rank::FirstOwner), Some(Rank::Owner), "O", RankCommand::RemoveAny);
    assert_eq!(accepted(&d.result).unwrap(), "O is now a regular member.");
    assert_eq!(d.effects, vec![RankEffect::DemoteToRegular]);
    let d = apply_rank_command(Some(Rank::Owner), Some(Rank::Owner), "O", RankCommand::RemoveAny);
    assert_eq!(denied(&d.result).unwrap(), "You can only use this on bot admins.");
    let d = apply_rank_command(Some(Rank::Owner), Some(Rank::Admin), "A", RankCommand::RemoveAny);
    assert_eq!(d.effects, vec![RankEffect::DemoteToRegular]);
    let d = apply_rank_command(Some(Rank::Vip), Some(Rank::Admin), "A", RankCommand::RemoveAny);
    assert_eq!(denied(&d.result).unwrap(), "You don't have permission to use this command.");
}

#[test]
fn remove_admin_rules() {
    let d = apply_rank_command(Some(Rank::FirstOwner), Some(Rank::Regular), "R", RankCommand::RemoveAdmin);
    assert_eq!(accepted(&d.result).unwrap(), "R is no longer a bot admin.");
    assert_eq!(d.effects, vec![RankEffect::RemoveAdmin]);
    let d = apply_rank_command(Some(Rank::Owner), Some(Rank::Vip), "V", RankCommand::RemoveAdmin);
    assert_eq!(denied(&d.result).unwrap(), "You can only use this on bot admins.");
    let d = apply_rank_command(Some(Rank::Regular), Some(Rank::Admin), "A", RankCommand::RemoveAdmin);
    assert_eq!(denied(&d.result).unwrap(), "You don't have permission to use this command.");
}

#[test]
fn demote_owner_rules() {
    let d = apply_rank_command(Some(Rank::FirstOwner), Some(Rank::Owner), "O", RankCommand::DemoteOwner);
    assert_eq!(accepted(&d.result).unwrap(), "O has been demoted from owner to admin.");
    assert_eq!(d.effects, vec![RankEffect::RemoveOwner, RankEffect::AddAdmin]);
    let d = apply_rank_command(Some(Rank::FirstOwner), Some(Rank::FirstOwner), "F", RankCommand::DemoteOwner);
    assert_eq!(denied(&d.result).unwrap(), "The first owner cannot be demoted.");
    let d = apply_rank_command(Some(Rank::Owner), Some(Rank::Owner), "O", RankCommand::DemoteOwner);
    assert_eq!(denied(&d.result).unwrap(), "Only the first owner can demote an owner.");
}

#[test]
fn vip_rules() {
    let d = apply_rank_command(Some(Rank::Owner), Some(Rank::Regular), "V", RankCommand::Vip);
    assert_eq!(accepted(&d.result).unwrap(), "V is now a VIP member.");
    assert_eq!(d.effects, vec![RankEffect::AddVip]);
    let d = apply_rank_command(Some(Rank::Admin), Some(Rank::Vip), "V", RankCommand::RemoveVip);
    assert_eq!(denied(&d.result).unwrap(), "Only owners can remove VIP status.");
    let d = apply_rank_command(Some(Rank::FirstOwner), Some(Rank::Vip), "V", RankCommand::RemoveVip);
    assert_eq!(accepted(&d.result).unwrap(), "V is no longer a VIP member.");
    assert_eq!(d.effects, vec![RankEffect::RemoveVip]);
    let d = apply_rank_command(Some(Rank::Admin), Some(Rank::Regular), "V", RankCommand::Vip);
    assert_eq!(denied(&d.result).unwrap(), "Only owners can grant VIP status.");
}

#[test]
fn unreadable_rank_is_an_internal_error() {
    let d = apply_rank_command(None, Some(Rank::Regular), "X", RankCommand::MakeAdmin);
    assert_eq!(denied(&d.result).unwrap(), "خطای داخلی در بررسی رتبه.");
    assert!(d.effects.is_empty());
    let d = apply_rank_command(Some(Rank::FirstOwner), None, "X", RankCommand::Vip);
    assert_eq!(denied(&d.result).unwrap(), "خطای داخلی در بررسی رتبه.");
}

#[test]
fn bare_bot_word() {
    assert!(is_bare_bot_word("بات"));
    assert!(is_bare_bot_word("  بات \n"));
    assert!(!is_bare_bot_word("بات جان"));
    assert!(!is_bare_bot_word(""));
}

#[test]
fn content_types_in_order() {
    let mut m = no_features();
    assert!(detect_message_content_types(&m).is_empty());
    m.has_sticker = true;
    m.has_venue = true;
    m.has_forward_from = true;
    m.has_via_bot = true;
    m.from_is_bot = true;
    m.has_sender_chat = true;
    m.entity_types = Some(vec![
        Some("url".to_string()),
        Some("bold".to_string()),
        None,
        Some("text_mention".to_string()),
        Some("hashtag".to_string()),
        Some("text_link".to_string()),
    ]);
    assert_eq!(
        detect_message_content_types(&m),
        vec!["sticker", "location", "forward", "bot", "bot", "link", "mention", "hashtag", "link", "anon"]
    );
}

#[test]
fn content_types_of_media() {
    let mut m = no_features();
    m.has_animation = true;
    m.has_video = true;
    m.has_photo = true;
    m.has_voice = true;
    m.has_audio = true;
    m.has_document = true;
    m.has_contact = true;
    m.has_game = true;
    m.has_forward_origin = true;
    assert_eq!(
        detect_message_content_types(&m),
        vec!["gif", "video", "photo", "voice", "audio", "file", "contact", "game", "forward"]
    );
}

#[test]
fn first_locked_type_is_deleted() {
    let types = ["sticker", "link", "anon"];
    assert_eq!(should_delete(&types, &[false, true, true]), Some("link"));
    assert_eq!(should_delete(&types, &[false, false, false]), None);
    assert_eq!(should_delete(&[], &[]), None);
}

#[test]
fn group_ban_rules() {
    assert!(matches!(group_ban_decision(Rank::Vip, Some((5, false, Rank::Regular))), BanDecision::Ignore));
    assert!(matches!(group_ban_decision(Rank::Admin, None), BanDecision::Ignore));
    assert!(matches!(group_ban_decision(Rank::Admin, Some((0, false, Rank::Regular))), BanDecision::Ignore));
    assert!(matches!(group_ban_decision(Rank::Admin, Some((5, true, Rank::Regular))), BanDecision::Ignore));
    match group_ban_decision(Rank::FirstOwner, Some((5, false, Rank::Owner))) {
        BanDecision::Refuse(m) => assert_eq!(m, "This user is an owner and cannot be banned."),
        _ => panic!("expected a refusal"),
    }
    match group_ban_decision(Rank::Admin, Some((5, false, Rank::Vip))) {
        BanDecision::Refuse(m) => assert_eq!(m, "Only owners can ban a VIP member."),
        _ => panic!("expected a refusal"),
    }
    assert!(matches!(group_ban_decision(Rank::Owner, Some((5, false, Rank::Vip))), BanDecision::Ban));
    assert!(matches!(group_ban_decision(Rank::Admin, Some((5, false, Rank::Regular))), BanDecision::Ban));
}

#[test]
fn rank_command_words() {
    assert_eq!(safeguard::protection::resolve_rank_command_word("rowner"), Some(RankCommand::DemoteOwner));
    assert_eq!(safeguard::protection::resolve_rank_command_word("ROWNER"), None);
    assert_eq!(safeguard::protection::resolve_rank_command_word("/rowner"), None);
}
