//! The owner's reports: statistics of the bot (`/see`), what is known of
//! a user (`/see <user>`), and the members of a group (`/list <group>`).
use crate::bot::{display_name_spec, model_display_name, truncate_chars, truncate_spec};
use crate::store::{FullMessage, GroupInfo, GroupMember, UserInfo};
use crate::text::{
    append, concat_indexed, i64_to_string, int_decimal, lemma_concat_indexed_step, nat_decimal,
    str_eq, usize_to_string,
};
use vstd::prelude::*;

verus! {

/// The rule under report headings.
pub const RULE: &'static str = "━━━━━━━━━━━━━━━━━━━━━━\n";

fn add_number(out: &mut String, n: i64)
    ensures
        final(out)@ == old(out)@ + int_decimal(n as int),
{
    let d = i64_to_string(n);
    append(out, d.as_str());
}

fn add_count(out: &mut String, n: usize)
    ensures
        final(out)@ == old(out)@ + nat_decimal(n as nat),
{
    let d = usize_to_string(n);
    append(out, d.as_str());
}

// ---------------------------------------------------------------------
// Statistics
// ---------------------------------------------------------------------

/// The lines of one group in the statistics.
pub open spec fn group_lines(g: GroupInfo) -> Seq<char> {
    "▪️ "@ + g.title@ + "\n"@ + match g.username {
        Some(u) => "   📛 @"@ + u@ + "\n"@,
        None => seq![],
    } + match g.join_link {
        Some(l) => "   🔗 "@ + l@ + "\n"@,
        None => "   🔗 بدون لینک\n"@,
    } + "\n"@
}

pub open spec fn group_lines_fn() -> spec_fn(int, GroupInfo) -> Seq<char> {
    |i: int, g: GroupInfo| group_lines(g)
}

/// The line of one private user in the statistics.
pub open spec fn user_line(u: (i64, Option<String>)) -> Seq<char> {
    match u.1 {
        Some(name) => "▪️ @"@ + name@ + " (آیدی: `"@ + int_decimal(u.0 as int) + "`)\n"@,
        None => "▪️ بدون یوزرنیم (آیدی: `"@ + int_decimal(u.0 as int) + "`)\n"@,
    }
}

pub open spec fn user_line_fn() -> spec_fn(int, (i64, Option<String>)) -> Seq<char> {
    |i: int, u: (i64, Option<String>)| user_line(u)
}

/// The statistics of `/see`.
pub open spec fn stats_spec(
    groups: Seq<GroupInfo>,
    users: Seq<(i64, Option<String>)>,
    group_users: nat,
) -> Seq<char> {
    "📊 *آمار کامل ربات*\n"@ + RULE@ + "\n"@ + "👥 *گروه‌ها* ("@ + nat_decimal(groups.len()) + "):\n"@
        + RULE@ + (if groups.len() == 0 {
        "— هیچ گروهی ثبت نشده\n"@
    } else {
        concat_indexed(groups, group_lines_fn())
    }) + "\n👤 *کاربران پیوی* ("@ + nat_decimal(users.len()) + "):\n"@ + RULE@ + (if users.len()
        == 0 {
        "— هیچ کاربری ثبت نشده\n"@
    } else {
        concat_indexed(users, user_line_fn())
    }) + "\n\n💬 کاربران فعال در گروه‌ها: *"@ + nat_decimal(group_users) + "* نفر"@
}

fn add_group_lines(out: &mut String, g: &GroupInfo)
    ensures
        final(out)@ == old(out)@ + group_lines(*g),
{
    append(out, "▪️ ");
    append(out, g.title.as_str());
    append(out, "\n");
    let ghost a = out@;
    match &g.username {
        Some(u) => {
            append(out, "   📛 @");
            append(out, u.as_str());
            append(out, "\n");
        },
        None => {
            assert(a + Seq::<char>::empty() =~= a);
        },
    }
    match &g.join_link {
        Some(l) => {
            append(out, "   🔗 ");
            append(out, l.as_str());
            append(out, "\n");
        },
        None => {
            append(out, "   🔗 بدون لینک\n");
        },
    }
    append(out, "\n");
    assert(out@ =~= old(out)@ + group_lines(*g));
}

fn add_user_line(out: &mut String, u: &(i64, Option<String>))
    ensures
        final(out)@ == old(out)@ + user_line(*u),
{
    match &u.1 {
        Some(name) => {
            append(out, "▪️ @");
            append(out, name.as_str());
            append(out, " (آیدی: `");
        },
        None => {
            append(out, "▪️ بدون یوزرنیم (آیدی: `");
        },
    }
    add_number(out, u.0);
    append(out, "`)\n");
    assert(out@ =~= old(out)@ + user_line(*u));
}

/// The statistics of `/see`: every group with its username and link,
/// every private user, and the number of users active in groups.
pub fn stats_report(groups: &[GroupInfo], users: &[(i64, Option<String>)], group_users: usize) -> (r:
    String)
    ensures
        r@ == stats_spec(groups@, users@, group_users as nat),
{
    let mut msg = String::new();
    append(&mut msg, "📊 *آمار کامل ربات*\n");
    append(&mut msg, RULE);
    append(&mut msg, "\n");
    append(&mut msg, "👥 *گروه‌ها* (");
    add_count(&mut msg, groups.len());
    append(&mut msg, "):\n");
    append(&mut msg, RULE);
    let ghost p1 = msg@;
    if groups.len() == 0 {
        append(&mut msg, "— هیچ گروهی ثبت نشده\n");
    } else {
        let mut i: usize = 0;
        assert(concat_indexed(groups@.subrange(0, 0), group_lines_fn()) =~= Seq::<char>::empty());
        assert(p1 + Seq::<char>::empty() =~= p1);
        while i < groups.len()
            invariant
                i <= groups@.len(),
                msg@ == p1 + concat_indexed(groups@.subrange(0, i as int), group_lines_fn()),
            decreases groups.len() - i,
        {
            add_group_lines(&mut msg, &groups[i]);
            proof {
                lemma_concat_indexed_step(groups@, group_lines_fn(), i as int);
            }
            assert(msg@ =~= p1 + concat_indexed(groups@.subrange(0, i + 1), group_lines_fn()));
            i = i + 1;
        }
        assert(groups@.subrange(0, groups@.len() as int) =~= groups@);
    }
    append(&mut msg, "\n👤 *کاربران پیوی* (");
    add_count(&mut msg, users.len());
    append(&mut msg, "):\n");
    append(&mut msg, RULE);
    let ghost p2 = msg@;
    if users.len() == 0 {
        append(&mut msg, "— هیچ کاربری ثبت نشده\n");
    } else {
        let mut i: usize = 0;
        assert(concat_indexed(users@.subrange(0, 0), user_line_fn()) =~= Seq::<char>::empty());
        assert(p2 + Seq::<char>::empty() =~= p2);
        while i < users.len()
            invariant
                i <= users@.len(),
                msg@ == p2 + concat_indexed(users@.subrange(0, i as int), user_line_fn()),
            decreases users.len() - i,
        {
            add_user_line(&mut msg, &users[i]);
            proof {
                lemma_concat_indexed_step(users@, user_line_fn(), i as int);
            }
            assert(msg@ =~= p2 + concat_indexed(users@.subrange(0, i + 1), user_line_fn()));
            i = i + 1;
        }
        assert(users@.subrange(0, users@.len() as int) =~= users@);
    }
    append(&mut msg, "\n\n💬 کاربران فعال در گروه‌ها: *");
    add_count(&mut msg, group_users);
    append(&mut msg, "* نفر");
    assert(msg@ =~= stats_spec(groups@, users@, group_users as nat));
    msg
}

// ---------------------------------------------------------------------
// One user
// ---------------------------------------------------------------------

/// One message in a user's history.
pub open spec fn message_entry(i: int, m: FullMessage) -> Seq<char> {
    nat_decimal((i + 1) as nat) + ". ["@ + (if m.source@ == "private"@ {
        "پیوی"@
    } else {
        "گروه"@
    }) + " - "@ + (if m.role@ == "user"@ {
        "👤 کاربر"@
    } else {
        "🤖 ربات"@
    }) + "]\n"@ + truncate_spec(m.content@, 200) + "\n\n"@
}

pub open spec fn message_entry_fn() -> spec_fn(int, FullMessage) -> Seq<char> {
    |i: int, m: FullMessage| message_entry(i, m)
}

/// What `/see <user>` shows of the stored user.
pub open spec fn user_info_lines(info: Option<UserInfo>) -> Seq<char> {
    match info {
        Some(u) => (match u.username {
            Some(n) => "📛 یوزرنیم: @"@ + n@ + "\n"@,
            None => "📛 یوزرنیم: ندارد\n"@,
        }) + "🆔 آیدی عددی: `"@ + int_decimal(u.user_id as int) + "`\n"@ + "📨 مجموع پیام‌ها: "@
            + int_decimal(u.message_count as int) + "\n"@,
        None => seq![],
    }
}

/// The line naming the model a user has chosen in groups.
pub open spec fn group_model_line(group_model: Option<Seq<char>>) -> Seq<char> {
    match group_model {
        Some(m) => "\n🎯 مدل گروه: *"@ + display_name_spec(m) + "*\n"@,
        None => seq![],
    }
}

/// The numbered list of a user's messages.
pub open spec fn message_lines(msgs: Seq<FullMessage>) -> Seq<char> {
    if msgs.len() == 0 {
        "— هیچ پیامی ثبت نشده\n"@
    } else {
        concat_indexed(msgs, message_entry_fn())
    }
}

/// What `/see <user>` shows.
pub open spec fn user_report_spec(
    info: Option<UserInfo>,
    group_model: Option<Seq<char>>,
    total: i64,
    msgs: Seq<FullMessage>,
) -> Seq<char> {
    "👤 *اطلاعات کاربر*\n"@ + RULE@ + "\n"@ + user_info_lines(info) + group_model_line(group_model)
        + "\n📊 مجموع پیام‌های ثبت‌شده: *"@ + int_decimal(total as int) + "*\n"@ + "\n"@ + RULE@
        + "💬 *آخرین ۵۰ پیام:*\n\n"@ + message_lines(msgs)
}

fn add_user_info(out: &mut String, info: &Option<UserInfo>)
    ensures
        final(out)@ == old(out)@ + user_info_lines(*info),
{
    match info {
        Some(u) => {
            match &u.username {
                Some(n) => {
                    append(out, "📛 یوزرنیم: @");
                    append(out, n.as_str());
                    append(out, "\n");
                },
                None => {
                    append(out, "📛 یوزرنیم: ندارد\n");
                },
            }
            append(out, "🆔 آیدی عددی: `");
            add_number(out, u.user_id);
            append(out, "`\n");
            append(out, "📨 مجموع پیام‌ها: ");
            add_number(out, u.message_count);
            append(out, "\n");
            assert(out@ =~= old(out)@ + user_info_lines(*info));
        },
        None => {
            assert(old(out)@ + Seq::<char>::empty() =~= old(out)@);
        },
    }
}

fn add_group_model_line(out: &mut String, group_model: Option<&str>)
    ensures
        final(out)@ == old(out)@ + group_model_line(
            match group_model {
                Some(m) => Some(m@),
                None => None,
            },
        ),
{
    match group_model {
        Some(m) => {
            append(out, "\n🎯 مدل گروه: *");
            append(out, model_display_name(m));
            append(out, "*\n");
            assert(out@ =~= old(out)@ + group_model_line(Some(m@)));
        },
        None => {
            assert(old(out)@ + Seq::<char>::empty() =~= old(out)@);
        },
    }
}

fn add_message_lines(out: &mut String, msgs: &[FullMessage])
    ensures
        final(out)@ == old(out)@ + message_lines(msgs@),
{
    let ghost p = out@;
    if msgs.len() == 0 {
        append(out, "— هیچ پیامی ثبت نشده\n");
    } else {
        let mut i: usize = 0;
        assert(concat_indexed(msgs@.subrange(0, 0), message_entry_fn()) =~= Seq::<char>::empty());
        assert(p + Seq::<char>::empty() =~= p);
        while i < msgs.len()
            invariant
                i <= msgs@.len(),
                msg_len_bound(msgs@.len()),
                out@ == p + concat_indexed(msgs@.subrange(0, i as int), message_entry_fn()),
            decreases msgs.len() - i,
        {
            add_message_entry(out, i, &msgs[i]);
            proof {
                lemma_concat_indexed_step(msgs@, message_entry_fn(), i as int);
            }
            assert(out@ =~= p + concat_indexed(msgs@.subrange(0, i + 1), message_entry_fn()));
            i = i + 1;
        }
        assert(msgs@.subrange(0, msgs@.len() as int) =~= msgs@);
    }
}

fn add_message_entry(out: &mut String, i: usize, m: &FullMessage)
    requires
        i < usize::MAX,
    ensures
        final(out)@ == old(out)@ + message_entry(i as int, *m),
{
    add_count(out, i + 1);
    append(out, ". [");
    if str_eq(m.source.as_str(), "private") {
        append(out, "پیوی");
    } else {
        append(out, "گروه");
    }
    append(out, " - ");
    if str_eq(m.role.as_str(), "user") {
        append(out, "👤 کاربر");
    } else {
        append(out, "🤖 ربات");
    }
    append(out, "]\n");
    let t = truncate_chars(m.content.as_str(), 200);
    append(out, t.as_str());
    append(out, "\n\n");
    assert(out@ =~= old(out)@ + message_entry(i as int, *m));
}

/// `/see <user>`: what is known of the user, the model they use in
/// groups, their number of stored messages, and their messages (each cut
/// to 200 characters).
pub fn user_report(
    info: &Option<UserInfo>,
    group_model: Option<&str>,
    total: i64,
    msgs: &[FullMessage],
) -> (r: String)
    ensures
        r@ == user_report_spec(
            *info,
            match group_model {
                Some(m) => Some(m@),
                None => None,
            },
            total,
            msgs@,
        ),
{
    let mut h = String::new();
    append(&mut h, "👤 *اطلاعات کاربر*\n");
    append(&mut h, RULE);
    append(&mut h, "\n");
    add_user_info(&mut h, info);
    add_group_model_line(&mut h, group_model);
    append(&mut h, "\n📊 مجموع پیام‌های ثبت‌شده: *");
    add_number(&mut h, total);
    append(&mut h, "*\n");
    append(&mut h, "\n");
    append(&mut h, RULE);
    append(&mut h, "💬 *آخرین ۵۰ پیام:*\n\n");
    add_message_lines(&mut h, msgs);
    assert(h@ =~= user_report_spec(
        *info,
        match group_model {
            Some(m) => Some(m@),
            None => None,
        },
        total,
        msgs@,
    ));
    h
}

spec fn msg_len_bound(n: nat) -> bool {
    n <= usize::MAX
}

// ---------------------------------------------------------------------
// Members of a group
// ---------------------------------------------------------------------

/// The username stored for the first member with this id, if any.
pub open spec fn member_username(members: Seq<GroupMember>, id: i64) -> Option<Seq<char>>
    decreases members.len(),
{
    if members.len() == 0 {
        None
    } else if members[0].user_id == id {
        match members[0].username {
            Some(u) => Some(u@),
            None => None,
        }
    } else {
        member_username(members.drop_first(), id)
    }
}

/// The line of one administrator.
pub open spec fn admin_line(members: Seq<GroupMember>, id: i64) -> Seq<char> {
    match member_username(members, id) {
        Some(u) => "▪️ @"@ + u + " (آیدی: `"@ + int_decimal(id as int) + "`)\n"@,
        None => "▪️ آیدی: `"@ + int_decimal(id as int) + "`\n"@,
    }
}

pub open spec fn admin_line_fn(members: Seq<GroupMember>) -> spec_fn(int, i64) -> Seq<char> {
    |i: int, id: i64| admin_line(members, id)
}

/// The line of one member at position `i` (skipped for administrators).
pub open spec fn member_line(admins: Seq<i64>, i: int, m: GroupMember) -> Seq<char> {
    if admins.contains(m.user_id) {
        seq![]
    } else {
        nat_decimal((i + 1) as nat) + match m.username {
            Some(u) => ". @"@ + u@ + " (آیدی: `"@ + int_decimal(m.user_id as int) + "`)\n"@,
            None => ". آیدی: `"@ + int_decimal(m.user_id as int) + "`\n"@,
        }
    }
}

pub open spec fn member_line_fn(admins: Seq<i64>) -> spec_fn(int, GroupMember) -> Seq<char> {
    |i: int, m: GroupMember| member_line(admins, i, m)
}

/// What `/list <group>` shows.
pub open spec fn member_list_spec(
    title: Seq<char>,
    admins: Seq<i64>,
    members: Seq<GroupMember>,
    total: i64,
) -> Seq<char> {
    "📋 *ممبرای گروه "@ + title + "*\n"@ + RULE@ + "\n"@ + (if admins.len() == 0 {
        seq![]
    } else {
        "👑 *ادمین‌ها* ("@ + nat_decimal(admins.len()) + "):\n"@ + concat_indexed(
            admins,
            admin_line_fn(members),
        ) + "\n"@
    }) + "👤 *اعضای شناخته‌شده* (نمایش "@ + nat_decimal(members.len()) + " از "@ + int_decimal(
        total as int,
    ) + "):\n"@ + if members.len() == 0 {
        "— هنوز عضوی توی دیتابیس ثبت نشده\n"@
    } else {
        concat_indexed(members, member_line_fn(admins)) + if total > members.len() {
            "\n⚠️ "@ + int_decimal(total - members.len()) + " عضو دیگه هم هست که توی این لیست نیست."@
        } else {
            seq![]
        }
    }
}

fn find_member_username(members: &[GroupMember], id: i64) -> (r: Option<&str>)
    ensures
        match r {
            Some(u) => member_username(members@, id) == Some(u@),
            None => member_username(members@, id) is None,
        },
{
    let mut i: usize = 0;
    assert(members@.subrange(0, members@.len() as int) =~= members@);
    while i < members.len()
        invariant
            i <= members@.len(),
            member_username(members@, id) == member_username(
                members@.subrange(i as int, members@.len() as int),
                id,
            ),
        decreases members.len() - i,
    {
        assert(members@.subrange(i as int, members@.len() as int)[0] == members@[i as int]);
        if members[i].user_id == id {
            return match &members[i].username {
                Some(u) => Some(u.as_str()),
                None => None,
            };
        }
        assert(members@.subrange(i as int, members@.len() as int).drop_first() =~= members@.subrange(
            i + 1,
            members@.len() as int,
        ));
        i = i + 1;
    }
    None
}

fn contains_id(ids: &[i64], id: i64) -> (r: bool)
    ensures
        r == ids@.contains(id),
{
    let mut i: usize = 0;
    while i < ids.len()
        invariant
            i <= ids@.len(),
            forall|j: int| 0 <= j < i ==> ids@[j] != id,
        decreases ids.len() - i,
    {
        if ids[i] == id {
            assert(ids@[i as int] == id);
            return true;
        }
        i = i + 1;
    }
    false
}

fn add_member_line(out: &mut String, admins: &[i64], i: usize, m: &GroupMember)
    requires
        i < usize::MAX,
    ensures
        final(out)@ == old(out)@ + member_line(admins@, i as int, *m),
{
    if contains_id(admins, m.user_id) {
        assert(old(out)@ + Seq::<char>::empty() =~= old(out)@);
        return;
    }
    add_count(out, i + 1);
    match &m.username {
        Some(u) => {
            append(out, ". @");
            append(out, u.as_str());
            append(out, " (آیدی: `");
            add_number(out, m.user_id);
            append(out, "`)\n");
        },
        None => {
            append(out, ". آیدی: `");
            add_number(out, m.user_id);
            append(out, "`\n");
        },
    }
    assert(out@ =~= old(out)@ + member_line(admins@, i as int, *m));
}

/// `/list <group>`: the group's administrators (with their usernames when
/// known) and the known members who are not administrators, numbered by
/// position, with a note of how many stored members are not listed.
pub fn member_list_report(title: &str, admins: &[i64], members: &[GroupMember], total: i64) -> (r:
    String)
    ensures
        r@ == member_list_spec(title@, admins@, members@, total),
{
    let mut msg = String::new();
    append(&mut msg, "📋 *ممبرای گروه ");
    append(&mut msg, title);
    append(&mut msg, "*\n");
    append(&mut msg, RULE);
    append(&mut msg, "\n");
    let ghost p0 = msg@;
    if admins.len() > 0 {
        append(&mut msg, "👑 *ادمین‌ها* (");
        add_count(&mut msg, admins.len());
        append(&mut msg, "):\n");
        let ghost p1 = msg@;
        let mut i: usize = 0;
        assert(concat_indexed(admins@.subrange(0, 0), admin_line_fn(members@)) =~= Seq::<
            char,
        >::empty());
        assert(p1 + Seq::<char>::empty() =~= p1);
        while i < admins.len()
            invariant
                i <= admins@.len(),
                msg@ == p1 + concat_indexed(admins@.subrange(0, i as int), admin_line_fn(members@)),
            decreases admins.len() - i,
        {
            let id = admins[i];
            match find_member_username(members, id) {
                Some(u) => {
                    append(&mut msg, "▪️ @");
                    append(&mut msg, u);
                    append(&mut msg, " (آیدی: `");
                    add_number(&mut msg, id);
                    append(&mut msg, "`)\n");
                },
                None => {
                    append(&mut msg, "▪️ آیدی: `");
                    add_number(&mut msg, id);
                    append(&mut msg, "`\n");
                },
            }
            proof {
                lemma_concat_indexed_step(admins@, admin_line_fn(members@), i as int);
            }
            assert(msg@ =~= p1 + concat_indexed(
                admins@.subrange(0, i + 1),
                admin_line_fn(members@),
            ));
            i = i + 1;
        }
        assert(admins@.subrange(0, admins@.len() as int) =~= admins@);
        append(&mut msg, "\n");
    } else {
        assert(p0 + Seq::<char>::empty() =~= p0);
    }
    append(&mut msg, "👤 *اعضای شناخته‌شده* (نمایش ");
    add_count(&mut msg, members.len());
    append(&mut msg, " از ");
    add_number(&mut msg, total);
    append(&mut msg, "):\n");
    let ghost p2 = msg@;
    if members.len() == 0 {
        append(&mut msg, "— هنوز عضوی توی دیتابیس ثبت نشده\n");
    } else {
        let mut i: usize = 0;
        assert(concat_indexed(members@.subrange(0, 0), member_line_fn(admins@)) =~= Seq::<
            char,
        >::empty());
        assert(p2 + Seq::<char>::empty() =~= p2);
        while i < members.len()
            invariant
                i <= members@.len(),
                msg_len_bound(members@.len()),
                msg@ == p2 + concat_indexed(members@.subrange(0, i as int), member_line_fn(admins@)),
            decreases members.len() - i,
        {
            add_member_line(&mut msg, admins, i, &members[i]);
            proof {
                lemma_concat_indexed_step(members@, member_line_fn(admins@), i as int);
            }
            assert(msg@ =~= p2 + concat_indexed(
                members@.subrange(0, i + 1),
                member_line_fn(admins@),
            ));
            i = i + 1;
        }
        assert(members@.subrange(0, members@.len() as int) =~= members@);
        let ghost p3 = msg@;
        let n = members.len() as u64;
        if total > 0 && (total as u64) > n {
            append(&mut msg, "\n⚠️ ");
            add_number(&mut msg, ((total as u64) - n) as i64);
            append(&mut msg, " عضو دیگه هم هست که توی این لیست نیست.");
        } else {
            assert(p3 + Seq::<char>::empty() =~= p3);
        }
    }
    assert(msg@ =~= member_list_spec(title@, admins@, members@, total));
    msg
}

/// The title of a group in `/list`: that of the group with this id among
/// the known groups, else "گروه".
pub open spec fn group_title_spec(groups: Seq<GroupInfo>, id: i64) -> Seq<char>
    decreases groups.len(),
{
    if groups.len() == 0 {
        "گروه"@
    } else if groups[0].chat_id == id {
        groups[0].title@
    } else {
        group_title_spec(groups.drop_first(), id)
    }
}

/// Finds the title of a group for `/list`.
pub fn group_title_for(groups: &[GroupInfo], id: i64) -> (r: String)
    ensures
        r@ == group_title_spec(groups@, id),
{
    let mut i: usize = 0;
    assert(groups@.subrange(0, groups@.len() as int) =~= groups@);
    while i < groups.len()
        invariant
            i <= groups@.len(),
            group_title_spec(groups@, id) == group_title_spec(
                groups@.subrange(i as int, groups@.len() as int),
                id,
            ),
        decreases groups.len() - i,
    {
        assert(groups@.subrange(i as int, groups@.len() as int)[0] == groups@[i as int]);
        if groups[i].chat_id == id {
            return groups[i].title.clone();
        }
        assert(groups@.subrange(i as int, groups@.len() as int).drop_first() =~= groups@.subrange(
            i + 1,
            groups@.len() as int,
        ));
        i = i + 1;
    }
    crate::text::owned("گروه")
}

} // verus!
