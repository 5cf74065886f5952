//! Messages on their way to Telegram: what is forwarded, under whose name, and what a search finds.

use crate::bridge::format::{
    escaped, label_of, law_chunks_keep_text, member_with, rejoined, rendered,
};
use crate::bridge::forward::{
    due, law_bookmark_covers, law_forwarded_once, law_nothing_left_behind, left_behind, lowercase,
    page_asked, page_taken, planned, tag_of, ForwardPlan, Search,
};
use crate::bridge::records::{topic_of, Conversation};
use crate::laws::common::{lemma_filter_from, lemma_filter_has};
use crate::laws::text::{law_contained, law_contains};
use crate::models::{MessageDto, MessagesPage};
use crate::sorting::{arranged, in_order, key_le, law_arranged, Keyed};
use crate::store::{MemberEntity, MessageEntity};
use crate::text::{texts, trim};
use vstd::prelude::*;

verus! {

proof fn lemma_member_with(members: Seq<MemberEntity>, user: Seq<char>, i: int)
    requires
        0 <= i < members.len(),
        members[i].user_id@ == user,
        forall|j: int| 0 <= j < i ==> (#[trigger] members[j]).user_id@ != user,
    ensures
        member_with(members, user) == Some(members[i]),
    decreases members.len(),
{
    if i > 0 {
        assert(members[0].user_id@ != user);
        let t = members.drop_first();
        assert forall|j: int| 0 <= j < i - 1 implies (#[trigger] t[j]).user_id@ != user by {
            assert(members[j + 1].user_id@ != user);
        }
        lemma_member_with(t, user, i - 1);
    }
}

proof fn lemma_no_member_with(members: Seq<MemberEntity>, user: Seq<char>)
    requires
        forall|j: int| 0 <= j < members.len() ==> (#[trigger] members[j]).user_id@ != user,
    ensures
        member_with(members, user) is None,
    decreases members.len(),
{
    if members.len() > 0 {
        assert(members[0].user_id@ != user);
        let t = members.drop_first();
        assert forall|j: int| 0 <= j < t.len() implies (#[trigger] t[j]).user_id@ != user by {
            assert(members[j + 1].user_id@ != user);
        }
        lemma_no_member_with(t, user);
    }
}

/// A message of someone else is labelled with the name of the member who sent it; with their phone
/// number only where they have no name and numbers are shown.
pub proof fn law_label_of_member(
    sender: Seq<char>,
    members: Seq<MemberEntity>,
    me: Option<Seq<char>>,
    show_phone: bool,
    i: int,
)
    requires
        me != Some(sender),
        0 <= i < members.len(),
        members[i].user_id@ == sender,
        forall|j: int| 0 <= j < i ==> (#[trigger] members[j]).user_id@ != sender,
    ensures
        trim(members[i].display_name@).len() > 0 ==> label_of(sender, members, me, show_phone)
            == members[i].display_name@,
        trim(members[i].display_name@).len() == 0 && show_phone && members[i].phone_e164 is Some
            ==> label_of(sender, members, me, show_phone) == members[i].phone_e164->0@,
        trim(members[i].display_name@).len() == 0 && !(show_phone && members[i].phone_e164 is Some)
            ==> label_of(sender, members, me, show_phone) == label_of(sender, seq![], me, show_phone),
{
    lemma_member_with(members, sender, i);
}

/// The user's own messages are labelled as such, and where the sender is no member, no member is
/// named: the label is that of an unknown sender, made of the sender's id alone.
pub proof fn law_label_without_member(
    sender: Seq<char>,
    members: Seq<MemberEntity>,
    me: Option<Seq<char>>,
    show_phone: bool,
)
    ensures
        me == Some(sender) ==> label_of(sender, members, me, show_phone) == "You"@,
        me != Some(sender) && (forall|j: int|
            0 <= j < members.len() ==> (#[trigger] members[j]).user_id@ != sender) ==> label_of(
            sender,
            members,
            me,
            show_phone,
        ) == label_of(sender, seq![], None, false),
{
    if me != Some(sender) && (forall|j: int|
        0 <= j < members.len() ==> (#[trigger] members[j]).user_id@ != sender) {
        lemma_no_member_with(members, sender);
    }
}

/// An unknown sender is shown by the start of their id, up to eight characters of it; an id of the
/// service by the service's name.
pub proof fn law_unknown_sender(sender: Seq<char>, rest: Seq<char>)
    ensures
        sender == "00000000-0000-7000-8000-"@ + rest ==> label_of(sender, seq![], None, false)
            == "Tzibbur"@,
        sender.len() > 0 && sender[0] != '0' ==> exists|n: int|
            0 <= n <= 8 && n <= sender.len() && label_of(sender, seq![], None, false) == "Member "@
                + #[trigger] sender.take(n) && (plain_ascii(sender) ==> n == 8 || n == sender.len()),
{
    if sender == "00000000-0000-7000-8000-"@ + rest {
        law_contains(Seq::empty(), "00000000-0000-7000-8000-"@, rest);
    }
    if sender.len() > 0 && sender[0] != '0' {
        reveal_strlit("00000000-0000-7000-8000-");
        let p = "00000000-0000-7000-8000-"@;
        assert(p.len() == 24);
        assert(p[0] == '0');
        if crate::text::begins_with(sender, p) {
            assert(sender.subrange(0, 24)[0] == sender[0]);
        }
        lemma_fits(sender, 8);
        let n = crate::bridge::format::fitting(sender, 8);
        assert(label_of(sender, seq![], None, false) == "Member "@ + sender.take(n));
    }
}

/// Made of ASCII characters alone.
pub open spec fn plain_ascii(s: Seq<char>) -> bool {
    forall|k: int| 0 <= k < s.len() ==> (#[trigger] s[k]) as u32 <= 127
}

proof fn lemma_fits(s: Seq<char>, room: int)
    requires
        room >= 0,
    ensures
        0 <= crate::bridge::format::fitting(s, room) <= s.len(),
        crate::bridge::format::fitting(s, room) <= room,
        plain_ascii(s) ==> crate::bridge::format::fitting(s, room) == room
            || crate::bridge::format::fitting(s, room) == s.len(),
    decreases s.len(),
{
    if s.len() > 0 && crate::bridge::format::width(s[0]) <= room {
        lemma_fits(s.drop_first(), room - crate::bridge::format::width(s[0]));
        if plain_ascii(s) {
            assert forall|k: int| 0 <= k < s.drop_first().len() implies (
            #[trigger] s.drop_first()[k]) as u32 <= 127 by {
                assert(s[k + 1] as u32 <= 127);
            }
            assert(s[0] as u32 <= 127);
        }
    } else if s.len() > 0 && plain_ascii(s) {
        assert(s[0] as u32 <= 127);
    }
}

proof fn lemma_due(s: Seq<MessageEntity>, floor: i64, known: Seq<Seq<char>>, i: int)
    requires
        0 <= i < due(s, floor, known).len(),
    ensures
        s.contains(due(s, floor, known)[i]),
        due(s, floor, known)[i].seq > floor,
        due(s, floor, known)[i].body@.len() > 0,
        !known.contains(due(s, floor, known)[i].id@),
    decreases s.len(),
{
    let before = due(s.drop_last(), floor, known);
    let all = due(s, floor, known);
    if i < before.len() {
        lemma_due(s.drop_last(), floor, known, i);
        assert(all[i] == before[i]);
        let k = choose|k: int| 0 <= k < s.drop_last().len() && s.drop_last()[k] == before[i];
        assert(s[k] == before[i]);
    } else {
        assert(s[s.len() - 1] == all[i]);
    }
}

/// What is forwarded are messages that are newer than the bookmark, still have their text, and were
/// not forwarded before. What goes out names the sender and holds the whole text, after the name of
/// the group where the chat has no topics, in parts that Telegram takes.
pub proof fn law_forwarded_message(
    conv: Conversation,
    messages: Seq<MessageEntity>,
    known: Seq<Seq<char>>,
    members: Seq<MemberEntity>,
    me: Seq<char>,
    show_phone: bool,
    plan: ForwardPlan,
    i: int,
) -> (m: MessageEntity)
    requires
        planned(conv, messages, known, members, me, show_phone, plan),
        0 <= i < plan.deliveries@.len(),
    ensures
        messages.contains(m),
        m.id@ == plan.deliveries@[i].message_id@,
        m.seq == plan.deliveries@[i].seq,
        m.seq > conv.last_forwarded_seq,
        m.body@.len() > 0,
        !known.contains(m.id@),
        rejoined(texts(plan.deliveries@[i].parts@)) == (if topic_of(conv) is None && conv.name is Some {
            "<i>["@ + escaped(conv.name->0@) + "]</i>\n"@
        } else {
            Seq::empty()
        }) + "<b>"@ + escaped(label_of(m.sender_id@, members, Some(me), show_phone)) + "</b>\n"@
            + escaped(m.body@),
        forall|k: int|
            0 <= k < plan.deliveries@[i].parts@.len() ==> (
            #[trigger] plan.deliveries@[i].parts@[k])@.len() <= 4000,
{
    let s = arranged(messages);
    law_arranged(messages);
    let d = due(s, conv.last_forwarded_seq, known);
    lemma_due(s, conv.last_forwarded_seq, known, i);
    let m = d[i];
    let text = rendered(
        label_of(m.sender_id@, members, Some(me), show_phone),
        m.body@,
        tag_of(conv),
    );
    law_chunks_keep_text(text, 4000);
    let del = plan.deliveries@[i];
    assert forall|k: int| 0 <= k < del.parts@.len() implies (#[trigger] del.parts@[k])@.len()
        <= 4000 by {
        assert(texts(del.parts@)[k] == del.parts@[k]@);
    }
    m
}

/// Every message that is newer than the bookmark and has its text is forwarded, unless one with its
/// id was. None is forwarded twice, and they go out in the order of the group.
pub proof fn law_all_is_forwarded(
    conv: Conversation,
    messages: Seq<MessageEntity>,
    known: Seq<Seq<char>>,
    members: Seq<MemberEntity>,
    me: Seq<char>,
    show_phone: bool,
    plan: ForwardPlan,
)
    requires
        planned(conv, messages, known, members, me, show_phone, plan),
    ensures
        forall|m: MessageEntity| #[trigger]
            messages.contains(m) && m.seq > conv.last_forwarded_seq && m.body@.len() > 0
                && !known.contains(m.id@) ==> exists|i: int|
                0 <= i < plan.deliveries@.len() && (#[trigger] plan.deliveries@[i]).message_id@
                    == m.id@,
        forall|i: int, j: int|
            0 <= i < j < plan.deliveries@.len() ==> (#[trigger] plan.deliveries@[i]).message_id@ != (
            #[trigger] plan.deliveries@[j]).message_id@,
        forall|i: int, j: int|
            0 <= i < j < plan.deliveries@.len() ==> (#[trigger] plan.deliveries@[i]).seq <= (
            #[trigger] plan.deliveries@[j]).seq,
        plan.deliveries@.len() == 0 <==> plan.advance is None,
        plan.advance matches Some(at) ==> at > conv.last_forwarded_seq && forall|i: int|
            0 <= i < plan.deliveries@.len() ==> (#[trigger] plan.deliveries@[i]).seq <= at,
        plan.advance matches Some(at) ==> exists|i: int|
            0 <= i < plan.deliveries@.len() && (#[trigger] plan.deliveries@[i]).seq == at,
{
    let s = arranged(messages);
    let floor = conv.last_forwarded_seq;
    let d = due(s, floor, known);
    law_arranged(messages);
    law_forwarded_once(s, floor, known);
    assert forall|m: MessageEntity| #[trigger]
        messages.contains(m) && m.seq > floor && m.body@.len() > 0 && !known.contains(
            m.id@,
        ) implies exists|i: int|
        0 <= i < plan.deliveries@.len() && (#[trigger] plan.deliveries@[i]).message_id@ == m.id@ by {
        assert(s.contains(m));
        assert(left_behind(m, floor));
        law_nothing_left_behind(s, floor, known, m);
        let k = choose|k: int| 0 <= k < d.len() && (#[trigger] d[k]).id@ == m.id@;
        assert(plan.deliveries@[k].message_id@ == m.id@);
    }
    assert forall|i: int, j: int| 0 <= i < j < plan.deliveries@.len() implies (
    #[trigger] plan.deliveries@[i]).message_id@ != (#[trigger] plan.deliveries@[j]).message_id@ by {
        assert(d[i].id@ != d[j].id@);
    }
    assert forall|i: int, j: int| 0 <= i < j < plan.deliveries@.len() implies (
    #[trigger] plan.deliveries@[i]).seq <= (#[trigger] plan.deliveries@[j]).seq by {
        lemma_due_ordered(s, floor, known, i, j);
    }
    if d.len() > 0 {
        law_bookmark_covers(s, floor, known);
        assert(plan.deliveries@[d.len() - 1].seq == d.last().seq);
        assert forall|i: int| 0 <= i < plan.deliveries@.len() implies (
        #[trigger] plan.deliveries@[i]).seq <= d.last().seq by {
            assert(d[i].seq <= d.last().seq);
        }
    }
}

proof fn lemma_due_ordered(s: Seq<MessageEntity>, floor: i64, known: Seq<Seq<char>>, i: int, j: int)
    requires
        in_order(s),
        0 <= i < j < due(s, floor, known).len(),
    ensures
        due(s, floor, known)[i].seq <= due(s, floor, known)[j].seq,
    decreases s.len(),
{
    let rest = s.drop_last();
    let before = due(rest, floor, known);
    let all = due(s, floor, known);
    assert(in_order(rest)) by {
        assert forall|a: int, b: int| 0 <= a <= b < rest.len() implies key_le(
            #[trigger] rest[a].key(),
            #[trigger] rest[b].key(),
        ) by {
            assert(key_le(s[a].key(), s[b].key()));
        }
    }
    assert(all[i] == before[i]);
    if j < before.len() {
        lemma_due_ordered(rest, floor, known, i, j);
        assert(all[j] == before[j]);
    } else {
        lemma_due(rest, floor, known, i);
        let k = choose|k: int| 0 <= k < rest.len() && rest[k] == before[i];
        assert(key_le(s[k].key(), s[s.len() - 1].key()));
    }
}

/// A message whose text holds the searched one anywhere, whatever the case, is found on its page.
pub proof fn law_search_finds(
    s: Search,
    t: Search,
    page: MessagesPage,
    m: MessageDto,
    a: Seq<char>,
    b: Seq<char>,
)
    requires
        page_taken(s, t, page),
        page.items@.contains(m),
        lowercase(m.body@) == a + s.needle@ + b,
    ensures
        t.hits@.contains(m),
        t.needle == s.needle,
{
    law_contains(a, s.needle@, b);
    let p = |x: MessageDto| crate::bridge::forward::is_hit(x, s.needle@);
    let f = page.items@.filter(p);
    assert(f.contains(m)) by {
        let k = choose|k: int| 0 <= k < page.items@.len() && page.items@[k] == m;
        lemma_filter_has(page.items@, p, k);
    }
    let k = choose|k: int| 0 <= k < f.len() && f[k] == m;
    assert(t.hits@[s.hits@.len() + k] == m);
}

/// Nothing else is found: a new hit stands on the page and holds the searched text. Hits of earlier
/// pages stay.
pub proof fn law_search_finds_no_more(s: Search, t: Search, page: MessagesPage, m: MessageDto)
    requires
        page_taken(s, t, page),
    ensures
        s.hits@.contains(m) ==> t.hits@.contains(m),
        t.hits@.contains(m) && !s.hits@.contains(m) ==> page.items@.contains(m) && exists|
            a: Seq<char>,
            b: Seq<char>,
        |
            lowercase(m.body@) == #[trigger] ((a + s.needle@) + b),
{
    let p = |x: MessageDto| crate::bridge::forward::is_hit(x, s.needle@);
    let f = page.items@.filter(p);
    if s.hits@.contains(m) {
        let k = choose|k: int| 0 <= k < s.hits@.len() && s.hits@[k] == m;
        assert(t.hits@[k] == m);
    }
    if t.hits@.contains(m) && !s.hits@.contains(m) {
        let k = choose|k: int| 0 <= k < t.hits@.len() && t.hits@[k] == m;
        if k < s.hits@.len() {
            assert(s.hits@[k] == m);
        }
        assert(f[k - s.hits@.len()] == m);
        lemma_filter_from(page.items@, p, m);
        law_contained(lowercase(m.body@), s.needle@);
    }
}

/// A search goes back through the group page by page: the next page lies before what was seen, asks
/// for no more than is left, and no page is asked for once there is nothing more.
pub proof fn law_search_goes_back(s: Search, t: Search, page: MessagesPage)
    requires
        page_taken(s, t, page),
    ensures
        page_asked(s) matches Some(q) ==> q.before_seq == s.before && q.after_seq is None && (q.limit
            matches Some(n) && 0 < n <= 100 && n <= s.limit - s.fetched),
        s.fetched < s.limit && !s.over ==> page_asked(s) is Some,
        page.items@.len() == 0 ==> page_asked(t) is None,
        t.fetched == s.fetched + page.items@.len(),
        t.fetched >= t.limit ==> page_asked(t) is None,
        page.next_before_seq is Some && page.items@.len() > 0 ==> t.before == page.next_before_seq,
        page.next_before_seq is None && page.items@.len() > 0 ==> (t.before matches Some(at) && (
        forall|i: int| 0 <= i < page.items@.len() ==> at <= (#[trigger] page.items@[i]).seq)),
{
    lemma_lowest(page.items@);
}

proof fn lemma_lowest(items: Seq<MessageDto>)
    ensures
        items.len() > 0 ==> (crate::bridge::forward::lowest(items) matches Some(at) && (forall|i: int|
            0 <= i < items.len() ==> at <= (#[trigger] items[i]).seq)),
    decreases items.len(),
{
    if items.len() > 0 {
        let t = items.drop_last();
        lemma_lowest(t);
        if t.len() > 0 {
            let at = crate::bridge::forward::lowest(items)->0;
            assert forall|i: int| 0 <= i < items.len() implies at <= (#[trigger] items[i]).seq by {
                if i < t.len() {
                    assert(t[i] == items[i]);
                }
            }
        }
    }
}

} // verus!
