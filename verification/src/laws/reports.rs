//! What the bot shows and reports.

use crate::bridge::cards::{
    card, card_bottom, card_top, flip, group_data, live_facts, manageable, member_data, member_rows,
    members_view, perm_label, LiveFacts,
};
use crate::bridge::format::escaped;
use crate::bridge::i18n::{filled, hole, Lang};
use crate::bridge::reply::{face, Key, Reply};
use crate::bridge::reports::{
    after_first_addition, chats_report, contact_phones, contacts_report, friendly, group_lines,
    listed, member_lines, merge_addition, others, render_validation_errors, telling, Addition,
    Refused,
};
use crate::error::{AppError, ErrorsDto};
use crate::models::{AddMembersOutcome, GroupDto, GroupKind, Permission, RegisteredContact, Role};
use crate::numbers::{decimal, decimal_int};
use crate::store::{GroupEntity, GroupWithUnread, MemberEntity};
use crate::text::{ascii_lower, begins_with, join, occurs_at, texts};
use vstd::prelude::*;

verus! {

/// A permission is turned into the other one: what admitted admins alone admits everyone, and the
/// other way round.
pub proof fn law_flip(p: &Permission, r: Permission, w: &'static str)
    requires
        call_ensures(flip, (p,), r),
        call_ensures(perm_label, (p,), w),
    ensures
        ascii_lower(p.0@) == "admins"@ ==> r.0@ == "everyone"@ && w@ == "admins"@,
        ascii_lower(p.0@) != "admins"@ ==> r.0@ == "admins"@ && w@ == "everyone"@,
{
    reveal_strlit("admins");
    assert(ascii_lower("admins"@) =~= "admins"@);
}

/// What the server says of a group, and what stands in where it could not be asked.
pub proof fn law_live_facts(live: &Option<GroupDto>, r: LiveFacts)
    requires
        call_ensures(live_facts, (live,), r),
    ensures
        *live is None ==> r.min_members == 0 && r.max_length == 1000 && r.unread == 0,
        *live matches Some(g) ==> (g.unread_count is None ==> r.unread == 0) && (
        g.unread_count matches Some(n) ==> r.unread == n) && (g.limits is None ==> r.min_members == 0
            && r.max_length == 2000) && (g.limits matches Some(l) ==> (l.min_members_to_post
            matches Some(n) ==> r.min_members == n) && (l.message_max_length matches Some(n)
            ==> r.max_length == n)),
{
}

/// A row of buttons that has one meaning.
pub open spec fn offers(rows: Seq<Seq<Key>>, data: Seq<char>) -> bool {
    exists|i: int, k: int|
        0 <= i < rows.len() && 0 <= k < rows[i].len() && (#[trigger] rows[i][k]).1 == data
}

/// The buttons of a group's card are those of the user's rights: admins rename and delete, whoever
/// may add members adds them, and nothing can be done about a system thread but reading and muting
/// it.
pub proof fn law_card_buttons(g: &GroupEntity, live: &Option<GroupDto>, conv: i64, more: bool, r: Reply)
    requires
        call_ensures(card, (g, live, conv), r),
        call_ensures(GroupEntity::can_add_members, (g,), more),
    ensures
        ({
            let rows = face(r).keyboard;
            let system = g.kind == GroupKind::System;
            let admin = g.my_role == Role::Admin;
            &&& offers(rows, group_data(conv, "read"@))
            &&& offers(rows, group_data(conv, "mute"@))
            &&& !system ==> offers(rows, group_data(conv, "members"@)) && offers(
                rows,
                group_data(conv, "leave"@),
            )
            &&& !system && more ==> offers(rows, group_data(conv, "add"@))
            &&& !system && admin ==> offers(rows, group_data(conv, "rename"@)) && offers(
                rows,
                group_data(conv, "post"@),
            ) && offers(rows, group_data(conv, "addm"@)) && offers(rows, group_data(conv, "del1"@))
        }),
        g.kind == GroupKind::System ==> face(r).keyboard.len() == 2,
        g.kind != GroupKind::System && g.my_role == Role::Member ==> face(r).keyboard.len() == 3,
        g.kind != GroupKind::System && g.my_role == Role::Admin ==> face(r).keyboard.len() == 6,
{
    let rows = face(r).keyboard;
    let top = card_top(*g, conv);
    let bottom = card_bottom(*g, conv);
    let n = top.len() as int;
    assert(rows == top + bottom);
    assert(rows[n] == bottom[0]);
    assert(rows[n][0].1 == group_data(conv, "read"@));
    assert(rows[n][1].1 == group_data(conv, "mute"@));
    if g.kind != GroupKind::System {
        assert(rows[0] == top[0]);
        assert(rows[0][0].1 == group_data(conv, "members"@));
        assert(rows[n][2].1 == group_data(conv, "leave"@));
        if more {
            assert(rows[0][1].1 == group_data(conv, "add"@));
        }
        if g.my_role == Role::Admin {
            assert(rows[1][0].1 == group_data(conv, "rename"@));
            assert(rows[2][0].1 == group_data(conv, "post"@));
            assert(rows[2][1].1 == group_data(conv, "addm"@));
            assert(rows[n + 1] == bottom[1]);
            assert(rows[n + 1][0].1 == group_data(conv, "del1"@));
        }
    }
}

proof fn lemma_member_rows(ms: Seq<MemberEntity>, me: Seq<char>, conv: i64, i: int)
    requires
        0 <= i < ms.len(),
        manageable(ms[i], me),
    ensures
        offers(member_rows(ms, me, conv), member_data(conv, ms[i].user_id@)),
    decreases ms.len(),
{
    let t = ms.drop_last();
    let less = member_rows(t, me, conv);
    let all = member_rows(ms, me, conv);
    let data = member_data(conv, ms[i].user_id@);
    if i < t.len() {
        assert(t[i] == ms[i]);
        lemma_member_rows(t, me, conv, i);
        let (a, k) = choose|a: int, k: int|
            0 <= a < less.len() && 0 <= k < less[a].len() && (#[trigger] less[a][k]).1 == data;
        assert(all[a] == less[a]);
        assert(all[a][k].1 == data);
    } else {
        assert(all[all.len() - 1][0].1 == data);
    }
}

/// An admin has a button for every other person in the group; nobody else has buttons for members.
pub proof fn law_member_buttons(g: &GroupEntity, ms: &Vec<MemberEntity>, me: &str, conv: i64, r: Reply, i: int)
    requires
        call_ensures(members_view, (g, ms, me, conv), r),
    ensures
        g.my_role != Role::Admin ==> face(r).keyboard.len() == 1,
        g.my_role == Role::Admin && 0 <= i < ms@.len() && ms@[i].user_id@ != me@ && !begins_with(
            ms@[i].user_id@,
            "00000000-0000-7000-8000-"@,
        ) ==> offers(face(r).keyboard, member_data(conv, ms@[i].user_id@)),
{
    if g.my_role == Role::Admin && 0 <= i < ms@.len() && manageable(ms@[i], me@) {
        lemma_member_rows(ms@, me@, conv, i);
        let rows = member_rows(ms@, me@, conv);
        let data = member_data(conv, ms@[i].user_id@);
        let (a, k) = choose|a: int, k: int|
            0 <= a < rows.len() && 0 <= k < rows[a].len() && (#[trigger] rows[a][k]).1 == data;
        assert(face(r).keyboard[a] == rows[a]);
        assert(face(r).keyboard[a][k].1 == data);
    }
}

/// Numbers that were looked up are told as registered or not, none as both.
pub proof fn law_contacts(reg: Seq<RegisteredContact>, phones: Seq<Seq<char>>, p: Seq<char>)
    ensures
        contact_phones(reg).contains(p) <==> exists|i: int|
            0 <= i < reg.len() && (#[trigger] reg[i]).phone_e164 is Some && reg[i].phone_e164->0@ == p,
        others(phones, contact_phones(reg)).contains(p) <==> phones.contains(p) && !contact_phones(
            reg,
        ).contains(p),
{
    lemma_contact_phones(reg, p);
    lemma_others(phones, contact_phones(reg), p);
}

proof fn lemma_contact_phones(reg: Seq<RegisteredContact>, p: Seq<char>)
    ensures
        contact_phones(reg).contains(p) <==> exists|i: int|
            0 <= i < reg.len() && (#[trigger] reg[i]).phone_e164 is Some && reg[i].phone_e164->0@ == p,
    decreases reg.len(),
{
    if reg.len() > 0 {
        let t = reg.drop_last();
        let less = contact_phones(t);
        let all = contact_phones(reg);
        lemma_contact_phones(t, p);
        if less.contains(p) {
            let k = choose|k: int| 0 <= k < less.len() && less[k] == p;
            assert(all[k] == p);
            let i = choose|i: int|
                0 <= i < t.len() && (#[trigger] t[i]).phone_e164 is Some && t[i].phone_e164->0@ == p;
            assert(reg[i] == t[i]);
        }
        if all.contains(p) && !less.contains(p) {
            let k = choose|k: int| 0 <= k < all.len() && all[k] == p;
            if k < less.len() {
                assert(less[k] == p);
            }
            assert(reg[reg.len() - 1] == reg.last());
        }
        if exists|i: int|
            0 <= i < reg.len() && (#[trigger] reg[i]).phone_e164 is Some && reg[i].phone_e164->0@ == p {
            let i = choose|i: int|
                0 <= i < reg.len() && (#[trigger] reg[i]).phone_e164 is Some && reg[i].phone_e164->0@
                    == p;
            if i < t.len() {
                assert(t[i] == reg[i]);
            } else {
                assert(all[all.len() - 1] == p);
            }
        }
    }
}

proof fn lemma_others(v: Seq<Seq<char>>, known: Seq<Seq<char>>, p: Seq<char>)
    ensures
        others(v, known).contains(p) <==> v.contains(p) && !known.contains(p),
    decreases v.len(),
{
    if v.len() > 0 {
        let t = v.drop_last();
        let less = others(t, known);
        let all = others(v, known);
        lemma_others(t, known, p);
        if less.contains(p) {
            let k = choose|k: int| 0 <= k < less.len() && less[k] == p;
            assert(all[k] == p);
        }
        if t.contains(p) {
            let k = choose|k: int| 0 <= k < t.len() && t[k] == p;
            assert(v[k] == p);
        }
        if v.contains(p) && !t.contains(p) {
            let k = choose|k: int| 0 <= k < v.len() && v[k] == p;
            if k < t.len() {
                assert(t[k] == p);
            }
            if !known.contains(p) {
                assert(all[all.len() - 1] == p);
            }
        }
        if all.contains(p) && !less.contains(p) {
            let k = choose|k: int| 0 <= k < all.len() && all[k] == p;
            if k < less.len() {
                assert(less[k] == p);
            }
            assert(v[v.len() - 1] == p);
        }
    }
}

/// The report on numbers: the registered ones, the others, and what is no number.
pub proof fn law_contacts_report(reg: &Vec<RegisteredContact>, phones: &Vec<String>, bad: &Vec<String>, r: String)
    requires
        call_ensures(contacts_report, (reg, phones, bad), r),
    ensures
        r@ == listed("On Tzibbur: "@, contact_phones(reg@), "\n"@) + listed(
            "Not on Tzibbur: "@,
            others(texts(phones@), contact_phones(reg@)),
            "\n"@,
        ) + listed("Not phone numbers: "@, texts(bad@), Seq::empty()),
{
}

/// A list is shown behind its lead, and not at all where it is empty.
pub proof fn law_listed(lead: Seq<char>, v: Seq<Seq<char>>, end: Seq<char>)
    ensures
        v.len() == 0 ==> listed(lead, v, end).len() == 0,
        v.len() > 0 ==> listed(lead, v, end) == lead + escaped(join(v, ", "@)) + end,
{
}

/// The list of groups has a line for each: its name, its members, and what is unread.
pub proof fn law_chats(rows: Seq<GroupWithUnread>, g: GroupWithUnread)
    ensures
        group_lines(Seq::empty()) == Seq::<char>::empty(),
        g.group.muted == false && g.unread_count == 0 ==> group_lines(rows.push(g)) == group_lines(rows)
            + ("• "@ + escaped(g.group.name@) + ""@ + " — "@ + decimal_int(
            g.group.member_count as int,
        ) + " member(s)"@ + Seq::empty() + "\n"@),
        g.group.muted == false && g.unread_count > 0 ==> group_lines(rows.push(g)) == group_lines(rows)
            + ("• "@ + escaped(g.group.name@) + ""@ + " — "@ + decimal_int(
            g.group.member_count as int,
        ) + " member(s)"@ + (" · "@ + decimal(g.unread_count as nat) + " unread"@) + "\n"@),
{
    assert(rows.push(g).drop_last() =~= rows);
}

/// The report on groups.
pub proof fn law_chats_report(rows: &Vec<GroupWithUnread>, r: String)
    requires
        call_ensures(chats_report, (rows,), r),
    ensures
        rows@.len() == 0 ==> r@ == "No groups yet. Send /newgroup to create one."@,
        rows@.len() > 0 ==> r@ == "<b>Your Tzibbur groups</b>\n"@ + group_lines(rows@),
{
}

/// The list of members has a line for each, with marks for admins and for the user.
pub proof fn law_member_lines(ms: Seq<MemberEntity>, m: MemberEntity, me: Seq<char>)
    ensures
        member_lines(Seq::empty(), me) == Seq::<char>::empty(),
        m.role == Role::Member && m.user_id@ != me ==> member_lines(ms.push(m), me) == member_lines(
            ms,
            me,
        ) + ("• "@ + escaped(m.display_name@) + ""@ + ""@ + "\n"@),
        m.role == Role::Admin && m.user_id@ != me ==> member_lines(ms.push(m), me) == member_lines(
            ms,
            me,
        ) + ("• "@ + escaped(m.display_name@) + " (admin)"@ + ""@ + "\n"@),
        m.role == Role::Member && m.user_id@ == me ==> member_lines(ms.push(m), me) == member_lines(
            ms,
            me,
        ) + ("• "@ + escaped(m.display_name@) + ""@ + " — you"@ + "\n"@),
{
    assert(ms.push(m).drop_last() =~= ms);
}

/// What users are told of an error in words of their own.
pub proof fn law_friendly(e: &AppError, r: String)
    requires
        call_ensures(friendly, (e,), r),
    ensures
        *e is InvalidCode ==> r@ == "Wrong code."@,
        *e is SmsDeliveryFailed ==> r@ == "Tzibbur could not send an SMS to that number."@,
        *e is ReservedDisplayName ==> r@ == "That display name is reserved."@,
        *e is Network ==> r@ == "Tzibbur is unreachable. Try again shortly."@,
        *e matches AppError::RateLimited { retry_after_seconds: Some(s), .. } ==> r@
            == "Too many attempts. Try again in "@ + decimal(s as nat) + " seconds."@,
        *e matches AppError::RateLimited { retry_after_seconds: None, .. } ==> r@
            == "Too many attempts. Try again in "@ + decimal(60) + " seconds."@,
        *e matches AppError::GroupTooSmall { min_members: Some(m), .. } ==> r@
            == "The group needs at least "@ + decimal(m as nat) + " members before anyone can post."@,
        *e matches AppError::GroupTooSmall { min_members: None, .. } ==> r@
            == "The group needs at least "@ + decimal(3) + " members before anyone can post."@,
{
}

/// What is wrong with a request, where the server named nothing, and where it gave a sentence.
pub proof fn law_validation_words(errors: &Option<ErrorsDto>, t: String, r: String)
    requires
        call_ensures(render_validation_errors, (errors,), r),
    ensures
        *errors is None ==> r@ == "invalid input"@,
        *errors == Some(ErrorsDto::Text(t)) && t@.len() > 0 ==> r@ == t@,
        *errors == Some(ErrorsDto::Text(t)) && t@.len() == 0 ==> r@ == "invalid input"@,
{
    let one = seq![t@];
    assert(one.drop_last() =~= Seq::<Seq<char>>::empty());
    assert(telling(Seq::<Seq<char>>::empty()) =~= Seq::empty());
    if t@.len() > 0 {
        assert(telling(one) =~= one);
        assert(join(one, "; "@) == t@);
    } else {
        assert(telling(one) =~= Seq::<Seq<char>>::empty());
    }
}

/// Numbers that are added together are added one by one where the server refused the list for what
/// is in it; any other refusal is one of them all.
pub proof fn law_additions(phones: &Vec<String>, reply: Result<AddMembersOutcome, AppError>, r: Addition, i: int)
    requires
        call_ensures(after_first_addition, (phones, reply), r),
    ensures
        reply matches Ok(o) ==> r == Addition::Done(o),
        reply matches Err(e) ==> (e is ValidationFailed && phones@.len() > 1 ==> r is OneByOne),
        reply matches Err(e) ==> (!(e is ValidationFailed) || phones@.len() <= 1 ==> (
        r matches Addition::Failed(v) && v@.len() == phones@.len() && (0 <= i < v@.len()
            ==> v@[i].phone@ == phones@[i]@))),
{
    if let Addition::Failed(v) = r {
        if 0 <= i < v@.len() {
            assert(texts(phones@)[i] == phones@[i]@);
        }
    }
}

/// What became of one number is added to what became of the others.
pub proof fn law_merge_addition(phone: &str, reply: Result<AddMembersOutcome, AppError>)
    ensures
        forall|o: &mut AddMembersOutcome, f: &mut Vec<Refused>| #[trigger]
            call_ensures(merge_addition, (o, f, phone, reply), ()) ==> {
                &&& reply matches Ok(x) ==> final(o).added@ == o.added@ + x.added@
                    && final(o).not_found@ == o.not_found@ + x.not_found@
                    && final(o).already_member@ == o.already_member@ + x.already_member@
                    && final(f)@ == f@
                &&& reply is Err ==> *final(o) == *o && final(f)@.len() == f@.len() + 1
                    && final(f)@.last().phone@ == phone@
            },
{
}

proof fn lemma_no_hole(s: Seq<char>, from: int)
    requires
        0 <= from <= s.len(),
        !s.contains('{'),
    ensures
        hole(s, from) == s.len(),
    decreases s.len() - from,
{
    reveal_strlit("{}");
    if from < s.len() {
        if occurs_at(s, "{}"@, from) {
            assert(s.subrange(from, from + 2)[0] == s[from]);
            assert(s.contains(s[from]));
        }
        lemma_no_hole(s, from + 1);
    }
}

proof fn lemma_hole_behind(a: Seq<char>, b: Seq<char>, from: int)
    requires
        0 <= from <= a.len(),
        !a.contains('{'),
    ensures
        hole((a + "{}"@) + b, from) == a.len(),
    decreases a.len() - from,
{
    reveal_strlit("{}");
    let s = (a + "{}"@) + b;
    if from < a.len() {
        if occurs_at(s, "{}"@, from) {
            assert(s.subrange(from, from + 2)[0] == s[from]);
            assert(s[from] == a[from]);
            assert(a.contains(a[from]));
        }
        lemma_hole_behind(a, b, from + 1);
    } else {
        assert(s.subrange(from, from + 2) =~= "{}"@);
    }
}

/// A text without a placeholder stays as it is, and a placeholder gives way to the argument.
pub proof fn law_filled(a: Seq<char>, x: Seq<char>, b: Seq<char>)
    requires
        !a.contains('{'),
        !b.contains('{'),
    ensures
        filled(a, seq![]) == a,
        filled(a, seq![x]) == a,
        filled((a + "{}"@) + b, seq![x]) == a + x + b,
{
    reveal_strlit("{}");
    lemma_no_hole(a, 0);
    lemma_no_hole(b, 0);
    lemma_hole_behind(a, b, 0);
    let s = (a + "{}"@) + b;
    assert(s.take(a.len() as int) =~= a);
    assert(s.skip(a.len() as int + 2) =~= b);
    assert(seq![x].drop_first() =~= Seq::<Seq<char>>::empty());
    assert(filled(b, seq![x].drop_first()) == b);
    assert(filled(s, seq![x]) =~= a + x + b);
}

/// The language of a user goes by the start of the code that Telegram names; English is the rest.
pub proof fn law_languages(code: &str, rest: Seq<char>, r: Lang, none: Lang)
    requires
        call_ensures(Lang::from_code, (Some(code),), r),
        call_ensures(Lang::from_code, (None::<&str>,), none),
    ensures
        none == Lang::En,
        ascii_lower(code@) == "he"@ + rest ==> r == Lang::He,
        ascii_lower(code@) == "iw"@ + rest ==> r == Lang::He,
        ascii_lower(code@) == "yi"@ + rest ==> r == Lang::Yi,
        ascii_lower(code@) == "ji"@ + rest ==> r == Lang::Yi,
        ascii_lower(code@) == "en"@ + rest ==> r == Lang::En,
{
    reveal_strlit("he");
    reveal_strlit("iw");
    reveal_strlit("yi");
    reveal_strlit("ji");
    reveal_strlit("en");
    let c = ascii_lower(code@);
    if c.len() >= 2 {
        let head = c.subrange(0, 2);
        assert(head.len() == 2);
        assert(head[0] == c[0]);
        if c == "he"@ + rest {
            assert(head =~= "he"@);
        }
        if c == "iw"@ + rest {
            assert(head =~= "iw"@);
        }
        if c == "yi"@ + rest {
            assert(head =~= "yi"@);
        }
        if c == "ji"@ + rest {
            assert(head =~= "ji"@);
        }
        if c == "en"@ + rest {
            assert(head =~= "en"@);
        }
    }
    assert("he"@[0] == 'h' && "iw"@[0] == 'i' && "yi"@[0] == 'y' && "ji"@[0] == 'j' && "en"@[0] == 'e');
}

} // verus!
