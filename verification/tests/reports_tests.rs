use safeguard::reports::{group_title_for, member_list_report, stats_report, user_report, RULE};
use safeguard::store::{FullMessage, GroupInfo, GroupMember, UserInfo};

fn group(id: i64, title: &str, username: Option<&str>, link: Option<&str>) -> GroupInfo {
    GroupInfo {
        chat_id: id,
        title: title.to_string(),
        username: username.map(|s| s.to_string()),
        join_link: link.map(|s| s.to_string()),
    }
}

fn member(id: i64, username: Option<&str>) -> GroupMember {
    GroupMember { user_id: id, username: username.map(|s| s.to_string()), last_seen_at: 0 }
}

#[test]
fn empty_statistics() {
    let expected = format!(
        "📊 *آمار کامل ربات*\n{r}\n👥 *گروه‌ها* (0):\n{r}— هیچ گروهی ثبت نشده\n\n👤 *کاربران پیوی* (0):\n{r}— هیچ کاربری ثبت نشده\n\n\n💬 کاربران فعال در گروه‌ها: *0* نفر",
        r = RULE
    );
    assert_eq!(stats_report(&[], &[], 0), expected);
}

#[test]
fn statistics_with_groups_and_users() {
    let groups = vec![group(-1, "G1", Some("g1"), None), group(-2, "G2", None, Some("https://t.me/+x"))];
    let users = vec![(5, Some("u5".to_string())), (6, None)];
    let expected = format!(
        "📊 *آمار کامل ربات*\n{r}\n👥 *گروه‌ها* (2):\n{r}▪️ G1\n   📛 @g1\n   🔗 بدون لینک\n\n▪️ G2\n   🔗 https://t.me/+x\n\n\n👤 *کاربران پیوی* (2):\n{r}▪️ @u5 (آیدی: `5`)\n▪️ بدون یوزرنیم (آیدی: `6`)\n\n\n💬 کاربران فعال در گروه‌ها: *3* نفر",
        r = RULE
    );
    assert_eq!(stats_report(&groups, &users, 3), expected);
}

#[test]
fn user_report_with_messages() {
    let info = Some(UserInfo { user_id: 9, username: None, joined_at: 0, message_count: 4 });
    let long = "a".repeat(205);
    let msgs = vec![
        FullMessage { role: "user".to_string(), content: "hi".to_string(), created_at: 1, source: "private".to_string() },
        FullMessage { role: "assistant".to_string(), content: long.clone(), created_at: 2, source: "group".to_string() },
    ];
    let expected = format!(
        "👤 *اطلاعات کاربر*\n{r}\n📛 یوزرنیم: ندارد\n🆔 آیدی عددی: `9`\n📨 مجموع پیام‌ها: 4\n\n🎯 مدل گروه: *GPT-OSS-120B*\n\n📊 مجموع پیام‌های ثبت‌شده: *2*\n\n{r}💬 *آخرین ۵۰ پیام:*\n\n1. [پیوی - 👤 کاربر]\nhi\n\n2. [گروه - 🤖 ربات]\n{cut}...\n\n",
        r = RULE,
        cut = "a".repeat(200)
    );
    assert_eq!(user_report(&info, Some("openai/gpt-oss-120b"), 2, &msgs), expected);
}

#[test]
fn user_report_of_unknown_user() {
    let expected = format!(
        "👤 *اطلاعات کاربر*\n{r}\n\n📊 مجموع پیام‌های ثبت‌شده: *0*\n\n{r}💬 *آخرین ۵۰ پیام:*\n\n— هیچ پیامی ثبت نشده\n",
        r = RULE
    );
    assert_eq!(user_report(&None, None, 0, &[]), expected);
}

#[test]
fn member_list_with_admins() {
    let members = vec![member(1, Some("boss")), member(2, None), member(3, Some("m3"))];
    let expected = format!(
        "📋 *ممبرای گروه G*\n{r}\n👑 *ادمین‌ها* (2):\n▪️ @boss (آیدی: `1`)\n▪️ آیدی: `4`\n\n👤 *اعضای شناخته‌شده* (نمایش 3 از 5):\n2. آیدی: `2`\n3. @m3 (آیدی: `3`)\n\n⚠️ 2 عضو دیگه هم هست که توی این لیست نیست.",
        r = RULE
    );
    assert_eq!(member_list_report("G", &[1, 4], &members, 5), expected);
}

#[test]
fn member_list_empty() {
    let expected = format!(
        "📋 *ممبرای گروه G*\n{r}\n👤 *اعضای شناخته‌شده* (نمایش 0 از 0):\n— هنوز عضوی توی دیتابیس ثبت نشده\n",
        r = RULE
    );
    assert_eq!(member_list_report("G", &[], &[], 0), expected);
}

#[test]
fn group_titles() {
    let groups = vec![group(-1, "G1", None, None), group(-2, "G2", None, None)];
    assert_eq!(group_title_for(&groups, -2), "G2");
    assert_eq!(group_title_for(&groups, -3), "گروه");
}
