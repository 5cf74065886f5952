//! Forwarding a group's messages into its topic, importing history, and searching a group.

use crate::bridge::format::{chunk, chunked, label_of, render_inbound, rendered, sender_label};
use crate::bridge::records::{topic_of, Conversation};
use crate::models::{opt_text, MessageDto, MessagesPage, MessagesQuery};
use crate::sorting::{arranged, in_order, key_le, sorted, Keyed, SortKey};
use crate::store::messages::{redacted, redacted_row};
use crate::store::{GroupEntity, MemberEntity, MessageEntity};
use crate::text::{contains, contains_text, same, texts};
use vstd::prelude::*;

verus! {

/// Characters that one message to Telegram holds.
pub const PART: usize = 4000;

/// How many cached messages are looked through for ones left behind by an outage.
pub const FLUSH_DEPTH: u32 = 500;

/// Whether new messages of a group are forwarded: the group is known and not deleted, and it has a
/// conversation or may get one.
pub fn forwards(group: &Option<GroupEntity>, auto_topics: bool, mapped: bool) -> (r: bool)
    ensures
        r == (match *group {
            Some(g) => !g.is_deleted && (auto_topics || mapped),
            None => false,
        }),
{
    match group {
        Some(g) => !g.is_deleted && (auto_topics || mapped),
        None => false,
    }
}

/// A message that was never forwarded and still has its text.
pub open spec fn left_behind(m: MessageEntity, bookmark: i64) -> bool {
    m.seq > bookmark && m.body@.len() > 0
}

/// The cached messages of a conversation that an outage left behind; none in a closed one.
pub fn leftovers(conv: &Conversation, thread: Vec<MessageEntity>) -> (r: Vec<MessageEntity>)
    ensures
        r@ == (if conv.closed {
            seq![]
        } else {
            thread@.filter(|m: MessageEntity| left_behind(m, conv.last_forwarded_seq))
        }),
{
    if conv.closed {
        return Vec::new();
    }
    keep_newer(thread, conv.last_forwarded_seq)
}

fn keep_newer(thread: Vec<MessageEntity>, bookmark: i64) -> (r: Vec<MessageEntity>)
    ensures
        r@ == thread@.filter(|m: MessageEntity| left_behind(m, bookmark)),
{
    let ghost p = |m: MessageEntity| left_behind(m, bookmark);
    let ghost all = thread@;
    let mut rest = thread;
    let mut out: Vec<MessageEntity> = Vec::new();
    let ghost mut n: int = 0;
    assert(all.take(0).filter(p) =~= Seq::empty()) by {
        reveal(Seq::filter);
    }
    while rest.len() > 0
        invariant
            p == (|m: MessageEntity| left_behind(m, bookmark)),
            0 <= n <= all.len(),
            rest@ =~= all.skip(n),
            out@ == all.take(n).filter(p),
        decreases rest.len(),
    {
        let m = rest.remove(0);
        proof {
            assert(all.take(n + 1).drop_last() =~= all.take(n));
            assert(all.take(n + 1).last() == m);
            reveal(Seq::filter);
        }
        if m.seq > bookmark && !m.body.as_str().is_empty() {
            out.push(m);
        }
        proof {
            n = n + 1;
        }
    }
    assert(all.take(n) =~= all);
    out
}

/// The messages that can be imported as history: those whose text is still there.
pub fn history_of(thread: Vec<MessageEntity>) -> (r: Vec<MessageEntity>)
    ensures
        r@ == thread@.filter(|m: MessageEntity| m.body@.len() > 0),
{
    let ghost p = |m: MessageEntity| m.body@.len() > 0;
    let ghost all = thread@;
    let mut rest = thread;
    let mut out: Vec<MessageEntity> = Vec::new();
    let ghost mut n: int = 0;
    assert(all.take(0).filter(p) =~= Seq::empty()) by {
        reveal(Seq::filter);
    }
    while rest.len() > 0
        invariant
            p == (|m: MessageEntity| m.body@.len() > 0),
            0 <= n <= all.len(),
            rest@ =~= all.skip(n),
            out@ == all.take(n).filter(p),
        decreases rest.len(),
    {
        let m = rest.remove(0);
        proof {
            assert(all.take(n + 1).drop_last() =~= all.take(n));
            assert(all.take(n + 1).last() == m);
            reveal(Seq::filter);
        }
        if !m.body.as_str().is_empty() {
            out.push(m);
        }
        proof {
            n = n + 1;
        }
    }
    assert(all.take(n) =~= all);
    out
}

/// The bookmark of a new conversation: just before the history it imports, else at the latest
/// message; never negative.
pub open spec fn first_bookmark(history: Seq<MessageEntity>, max_seq: Option<i64>) -> i64 {
    let at = if history.len() > 0 {
        history[0].seq - 1
    } else {
        match max_seq {
            Some(s) => s as int,
            None => 0,
        }
    };
    if at > 0 {
        at as i64
    } else {
        0
    }
}

/// The bookmark of a new conversation.
pub fn bookmark(history: &Vec<MessageEntity>, max_seq: Option<i64>) -> (r: i64)
    ensures
        r == first_bookmark(history@, max_seq),
{
    if history.len() > 0 {
        if history[0].seq > 1 {
            history[0].seq - 1
        } else {
            0
        }
    } else {
        match max_seq {
            Some(s) => if s > 0 {
                s
            } else {
                0
            },
            None => 0,
        }
    }
}

/// Every message of an imported history lies after the bookmark.
pub proof fn law_history_is_forwarded(history: Seq<MessageEntity>, max_seq: Option<i64>)
    requires
        in_order(history),
        history.len() > 0,
        history[0].seq > 0,
    ensures
        forall|i: int|
            0 <= i < history.len() ==> (#[trigger] history[i]).seq > first_bookmark(history, max_seq),
{
    assert forall|i: int| 0 <= i < history.len() implies (#[trigger] history[i]).seq
        > first_bookmark(history, max_seq) by {
        assert(key_le(history[0].key(), history[i].key()));
    }
}

/// A message bears an id.
pub open spec fn has_id(s: Seq<MessageEntity>, id: Seq<char>) -> bool {
    exists|i: int| 0 <= i < s.len() && (#[trigger] s[i]).id@ == id
}

/// The messages to forward, in order: newer than the bookmark, not forwarded before, not yet
/// redacted, and each id once.
pub open spec fn due(s: Seq<MessageEntity>, floor: i64, known: Seq<Seq<char>>) -> Seq<MessageEntity>
    decreases s.len(),
{
    if s.len() == 0 {
        seq![]
    } else {
        let before = due(s.drop_last(), floor, known);
        let m = s.last();
        if m.seq > floor && !known.contains(m.id@) && !has_id(before, m.id@) && m.body@.len() > 0 {
            before.push(m)
        } else {
            before
        }
    }
}

/// One message on its way to Telegram, in parts.
#[derive(Debug)]
pub struct Delivery {
    pub message_id: String,
    pub seq: i64,
    pub parts: Vec<String>,
}

/// A message as it goes to Telegram.
pub open spec fn delivers(
    d: Delivery,
    m: MessageEntity,
    members: Seq<MemberEntity>,
    me: Seq<char>,
    show_phone: bool,
    group: Option<Seq<char>>,
) -> bool {
    &&& d.message_id@ == m.id@
    &&& d.seq == m.seq
    &&& texts(d.parts@) == chunked(
        rendered(label_of(m.sender_id@, members, Some(me), show_phone), m.body@, group),
        PART as int,
    )
}

/// The tag of messages in a chat without topics: the group's name.
pub open spec fn tag_of(c: Conversation) -> Option<Seq<char>> {
    if topic_of(c) is None {
        opt_text(c.name)
    } else {
        None
    }
}

/// What forwarding does: the deliveries in order, and the bookmark after them.
#[derive(Debug)]
pub struct ForwardPlan {
    pub deliveries: Vec<Delivery>,
    /// Where the bookmark moves, and up to where texts are redacted, once all is delivered.
    pub advance: Option<i64>,
}

fn id_among(id: &str, known: &Vec<String>) -> (r: bool)
    ensures
        r == texts(known@).contains(id@),
{
    let mut i: usize = 0;
    while i < known.len()
        invariant
            i <= known.len(),
            forall|k: int| 0 <= k < i ==> texts(known@)[k] != id@,
        decreases known.len() - i,
    {
        if same(known[i].as_str(), id) {
            assert(texts(known@)[i as int] == id@);
            return true;
        }
        i += 1;
    }
    false
}

fn id_planned(id: &str, list: &Vec<Delivery>, Ghost(s): Ghost<Seq<MessageEntity>>) -> (r: bool)
    requires
        list@.len() == s.len(),
        forall|k: int| 0 <= k < s.len() ==> (#[trigger] list@[k]).message_id@ == s[k].id@,
    ensures
        r == has_id(s, id@),
{
    let mut i: usize = 0;
    while i < list.len()
        invariant
            i <= list.len(),
            list@.len() == s.len(),
            forall|k: int| 0 <= k < s.len() ==> (#[trigger] list@[k]).message_id@ == s[k].id@,
            forall|k: int| 0 <= k < i ==> (#[trigger] s[k]).id@ != id@,
        decreases list.len() - i,
    {
        if same(list[i].message_id.as_str(), id) {
            assert(list@[i as int].message_id@ == s[i as int].id@);
            assert(s[i as int].id@ == id@);
            return true;
        }
        assert(list@[i as int].message_id@ == s[i as int].id@);
        i += 1;
    }
    false
}

/// The plan for the forwarding of messages into a conversation.
pub open spec fn planned(
    conv: Conversation,
    messages: Seq<MessageEntity>,
    known: Seq<Seq<char>>,
    members: Seq<MemberEntity>,
    me: Seq<char>,
    show_phone: bool,
    plan: ForwardPlan,
) -> bool {
    let d = due(arranged(messages), conv.last_forwarded_seq, known);
    &&& plan.deliveries@.len() == d.len()
    &&& forall|i: int|
        0 <= i < d.len() ==> delivers(
            #[trigger] plan.deliveries@[i],
            d[i],
            members,
            me,
            show_phone,
            tag_of(conv),
        )
    &&& plan.advance == (if d.len() > 0 {
        Some(d.last().seq)
    } else {
        None
    })
}

/// Plan the forwarding of messages into a conversation. `known` holds the ids of messages that were
/// forwarded before.
pub fn plan_forward(
    conv: &Conversation,
    messages: Vec<MessageEntity>,
    known: &Vec<String>,
    members: &Vec<MemberEntity>,
    me: &str,
    show_phone: bool,
) -> (plan: ForwardPlan)
    ensures
        planned(*conv, messages@, texts(known@), members@, me@, show_phone, plan),
{
    let queue = sorted(messages);
    let ghost s = queue@;
    let ghost floor = conv.last_forwarded_seq;
    let mut out: Vec<Delivery> = Vec::new();
    let mut advance: Option<i64> = None;
    let tag: Option<&str> = if conv.topic_id().is_none() {
        match &conv.name {
            Some(n) => Some(n.as_str()),
            None => None,
        }
    } else {
        None
    };
    let mut i: usize = 0;
    assert(s.take(0) =~= Seq::empty());
    while i < queue.len()
        invariant
            i <= queue.len(),
            s == queue@,
            floor == conv.last_forwarded_seq,
            (match tag {
                Some(n) => Some(n@),
                None => None,
            }) == tag_of(*conv),
            ({
                let d = due(s.take(i as int), floor, texts(known@));
                &&& out@.len() == d.len()
                &&& forall|k: int|
                    0 <= k < d.len() ==> delivers(
                        #[trigger] out@[k],
                        d[k],
                        members@,
                        me@,
                        show_phone,
                        tag_of(*conv),
                    )
                &&& advance == (if d.len() > 0 {
                    Some(d.last().seq)
                } else {
                    None
                })
            }),
        decreases queue.len() - i,
    {
        assert(s.take(i + 1).drop_last() =~= s.take(i as int));
        let ghost before = due(s.take(i as int), floor, texts(known@));
        let m = &queue[i];
        if m.seq > conv.last_forwarded_seq && !id_among(m.id.as_str(), known) && !id_planned(
            m.id.as_str(),
            &out,
            Ghost(before),
        ) && !m.body.as_str().is_empty() {
            let label = sender_label(m, members, Some(me), show_phone);
            let text = render_inbound(label.as_str(), m.body.as_str(), tag);
            let parts = chunk(text.as_str(), PART);
            out.push(Delivery { message_id: m.id.clone(), seq: m.seq, parts });
            advance = Some(m.seq);
        }
        i += 1;
    }
    assert(s.take(i as int) =~= s);
    ForwardPlan { deliveries: out, advance }
}

/// Whether a message has to be looked up among those forwarded before.
pub fn lookup_due(conv: &Conversation, m: &MessageEntity) -> (r: bool)
    ensures
        r == (m.seq > conv.last_forwarded_seq),
{
    m.seq > conv.last_forwarded_seq
}

proof fn lemma_due_members(s: Seq<MessageEntity>, floor: i64, known: Seq<Seq<char>>)
    ensures
        forall|i: int|
            0 <= i < due(s, floor, known).len() ==> {
                let m = #[trigger] due(s, floor, known)[i];
                s.contains(m) && m.seq > floor && m.body@.len() > 0 && !known.contains(m.id@)
            },
    decreases s.len(),
{
    if s.len() > 0 {
        lemma_due_members(s.drop_last(), floor, known);
        let before = due(s.drop_last(), floor, known);
        let all = due(s, floor, known);
        assert forall|i: int| 0 <= i < all.len() implies {
            let m = #[trigger] all[i];
            s.contains(m) && m.seq > floor && m.body@.len() > 0 && !known.contains(m.id@)
        } by {
            if i < before.len() {
                assert(all[i] == before[i]);
                let k = choose|k: int| 0 <= k < s.drop_last().len() && s.drop_last()[k] == before[i];
                assert(s[k] == before[i]);
            } else {
                assert(all[i] == s[s.len() - 1]);
            }
        }
    }
}

/// No message is forwarded twice: the ids of what is forwarded differ.
pub proof fn law_forwarded_once(s: Seq<MessageEntity>, floor: i64, known: Seq<Seq<char>>)
    ensures
        forall|i: int, j: int|
            0 <= i < j < due(s, floor, known).len() ==> (#[trigger] due(s, floor, known)[i]).id@ != (
            #[trigger] due(s, floor, known)[j]).id@,
    decreases s.len(),
{
    if s.len() > 0 {
        law_forwarded_once(s.drop_last(), floor, known);
        let before = due(s.drop_last(), floor, known);
        let all = due(s, floor, known);
        assert forall|i: int, j: int| 0 <= i < j < all.len() implies (#[trigger] all[i]).id@ != (
        #[trigger] all[j]).id@ by {
            assert(all[i] == before[i]);
            if j < before.len() {
                assert(all[j] == before[j]);
            }
        }
    }
}

proof fn lemma_due_covers(s: Seq<MessageEntity>, floor: i64, known: Seq<Seq<char>>)
    ensures
        forall|i: int|
            0 <= i < s.len() && left_behind(#[trigger] s[i], floor) ==> known.contains(s[i].id@)
                || has_id(due(s, floor, known), s[i].id@),
    decreases s.len(),
{
    if s.len() > 0 {
        lemma_due_covers(s.drop_last(), floor, known);
        let before = due(s.drop_last(), floor, known);
        let all = due(s, floor, known);
        assert forall|i: int| 0 <= i < s.len() && left_behind(#[trigger] s[i], floor) implies
            known.contains(s[i].id@) || has_id(all, s[i].id@) by {
            if i < s.len() - 1 {
                assert(s.drop_last()[i] == s[i]);
                if has_id(before, s[i].id@) {
                    let k = choose|k: int| 0 <= k < before.len() && (#[trigger] before[k]).id@ == s[i].id@;
                    assert(all[k] == before[k]);
                }
            } else if has_id(before, s[i].id@) {
                let k = choose|k: int| 0 <= k < before.len() && (#[trigger] before[k]).id@ == s[i].id@;
                assert(all[k] == before[k]);
            } else if !known.contains(s[i].id@) {
                assert(all[all.len() - 1] == s[i]);
            }
        }
    }
}

/// Nothing is lost: a message that is newer than the bookmark and has its text is forwarded, unless
/// a message with its id was.
pub proof fn law_nothing_left_behind(
    s: Seq<MessageEntity>,
    floor: i64,
    known: Seq<Seq<char>>,
    m: MessageEntity,
)
    requires
        s.contains(m),
        left_behind(m, floor),
        !known.contains(m.id@),
    ensures
        has_id(due(s, floor, known), m.id@),
{
    lemma_due_covers(s, floor, known);
    let i = choose|i: int| 0 <= i < s.len() && s[i] == m;
    assert(left_behind(s[i], floor));
}

/// Forwarding can be repeated: once the forwarded ids are on record, the same messages give nothing
/// to forward.
pub proof fn law_forwarding_settles(
    s: Seq<MessageEntity>,
    floor: i64,
    known: Seq<Seq<char>>,
    recorded: Seq<Seq<char>>,
)
    requires
        forall|id: Seq<char>| known.contains(id) ==> recorded.contains(id),
        forall|i: int|
            0 <= i < due(s, floor, known).len() ==> recorded.contains(
                (#[trigger] due(s, floor, known)[i]).id@,
            ),
    ensures
        due(s, floor, recorded) == Seq::<MessageEntity>::empty(),
{
    lemma_due_covers(s, floor, known);
    lemma_due_members(s, floor, recorded);
    let again = due(s, floor, recorded);
    if again.len() > 0 {
        let m = again[0];
        assert(s.contains(m));
        let i = choose|i: int| 0 <= i < s.len() && s[i] == m;
        assert(left_behind(s[i], floor));
        if has_id(due(s, floor, known), m.id@) {
            let k = choose|k: int|
                0 <= k < due(s, floor, known).len() && (#[trigger] due(s, floor, known)[k]).id@ == m.id@;
            assert(recorded.contains(due(s, floor, known)[k].id@));
        }
        assert(false);
    }
    assert(again =~= Seq::empty());
}

/// The bookmark moves to the newest forwarded message, and only forward.
pub proof fn law_bookmark_covers(s: Seq<MessageEntity>, floor: i64, known: Seq<Seq<char>>)
    requires
        in_order(s),
        due(s, floor, known).len() > 0,
    ensures
        due(s, floor, known).last().seq > floor,
        forall|i: int|
            0 <= i < due(s, floor, known).len() ==> (#[trigger] due(s, floor, known)[i]).seq <= due(
                s,
                floor,
                known,
            ).last().seq,
    decreases s.len(),
{
    let all = due(s, floor, known);
    lemma_due_members(s, floor, known);
    assert(all[all.len() - 1].seq > floor);
    let before = due(s.drop_last(), floor, known);
    let rest = s.drop_last();
    assert(in_order(rest)) by {
        assert forall|i: int, j: int| 0 <= i <= j < rest.len() implies key_le(
            #[trigger] rest[i].key(),
            #[trigger] rest[j].key(),
        ) by {
            assert(key_le(s[i].key(), s[j].key()));
        }
    }
    if all.len() == before.len() {
        assert(all == before);
        law_bookmark_covers(rest, floor, known);
    } else {
        lemma_due_members(rest, floor, known);
        assert forall|i: int| 0 <= i < all.len() implies (#[trigger] all[i]).seq <= all.last().seq by {
            if i < before.len() {
                assert(all[i] == before[i]);
                let k = choose|k: int| 0 <= k < rest.len() && rest[k] == before[i];
                assert(key_le(s[k].key(), s[s.len() - 1].key()));
            }
        }
    }
}

/// Once what was forwarded is redacted up to the new bookmark, no forwarded message keeps its text
/// in the cache.
pub proof fn law_delivered_text_is_gone(
    s: Seq<MessageEntity>,
    floor: i64,
    known: Seq<Seq<char>>,
    before: Seq<MessageEntity>,
    after: Seq<MessageEntity>,
    group: Seq<char>,
    k: int,
    i: int,
)
    requires
        in_order(s),
        0 <= k < due(s, floor, known).len(),
        redacted(before, after, group, due(s, floor, known).last().seq),
        0 <= i < before.len(),
        before[i].group_id@ == group,
        before[i].seq == due(s, floor, known)[k].seq,
    ensures
        after[i].body@.len() == 0,
        after[i].id == before[i].id,
{
    law_bookmark_covers(s, floor, known);
    assert(due(s, floor, known)[k].seq <= due(s, floor, known).last().seq);
    assert(redacted_row(before[i], after[i], group, due(s, floor, known).last().seq));
}

/// A text in lower case, by Unicode's rules.
pub uninterp spec fn lowercase(s: Seq<char>) -> Seq<char>;

/// `str::to_lowercase`. What each text is in lower case is left to a name.
#[verifier::external_body]
pub(crate) fn lowered(s: &str) -> (r: String)
    ensures
        r@ == lowercase(s@),
{
    s.to_lowercase()
}

impl Keyed for MessageDto {
    open spec fn key(self) -> SortKey {
        (self.seq as int, Seq::empty(), Seq::empty(), 0)
    }

    fn up_to(&self, other: &Self) -> (r: bool) {
        self.seq <= other.seq
    }
}

/// A search through the latest messages of a group, page by page.
#[derive(Debug)]
pub struct Search {
    /// What is searched, in lower case.
    pub needle: String,
    /// How many messages to look through.
    pub limit: u32,
    pub before: Option<i64>,
    pub fetched: u64,
    pub over: bool,
    pub hits: Vec<MessageDto>,
}

/// A message holds the searched text, whatever its case.
pub open spec fn is_hit(m: MessageDto, needle: Seq<char>) -> bool {
    contains_text(lowercase(m.body@), needle)
}

/// The lowest seq of a page.
pub open spec fn lowest(items: Seq<MessageDto>) -> Option<i64>
    decreases items.len(),
{
    if items.len() == 0 {
        None
    } else {
        match lowest(items.drop_last()) {
            Some(s) => if s <= items.last().seq {
                Some(s)
            } else {
                Some(items.last().seq)
            },
            None => Some(items.last().seq),
        }
    }
}

/// Messages that one page of a search asks for.
pub const SEARCH_PAGE: u32 = 100;

/// Where the next page of a search starts.
pub open spec fn next_before(page: MessagesPage) -> Option<i64> {
    match page.next_before_seq {
        Some(b) => Some(b),
        None => lowest(page.items@),
    }
}

/// What a page does to a search.
pub open spec fn page_taken(s: Search, t: Search, page: MessagesPage) -> bool {
    &&& t.needle == s.needle
    &&& t.limit == s.limit
    &&& t.fetched == s.fetched + page.items@.len()
    &&& t.hits@ == s.hits@ + page.items@.filter(|m: MessageDto| is_hit(m, s.needle@))
    &&& page.items@.len() == 0 ==> t.over && t.before == s.before
    &&& page.items@.len() > 0 ==> {
        let next = next_before(page);
        &&& t.over == (s.over || next == s.before)
        &&& t.before == next
    }
}

/// The next page that a search asks for.
pub open spec fn page_asked(s: Search) -> Option<MessagesQuery> {
    if s.over || s.fetched >= s.limit {
        None
    } else {
        Some(
            MessagesQuery {
                after_seq: None,
                before_seq: s.before,
                limit: Some(
                    if s.limit - s.fetched < SEARCH_PAGE {
                        (s.limit - s.fetched) as u32
                    } else {
                        SEARCH_PAGE
                    },
                ),
            },
        )
    }
}

impl Search {
    /// Start a search.
    pub fn start(needle: &str, limit: u32) -> (r: Self)
        ensures
            r.needle@ == lowercase(needle@),
            r.limit == limit,
            r.before is None,
            r.fetched == 0,
            !r.over,
            r.hits@.len() == 0,
    {
        Search {
            needle: lowered(needle),
            limit,
            before: None,
            fetched: 0,
            over: false,
            hits: Vec::new(),
        }
    }

    /// The next page to fetch; none when the search is over.
    pub fn next_query(&self) -> (r: Option<MessagesQuery>)
        ensures
            r == page_asked(*self),
    {
        if self.over || self.fetched >= self.limit as u64 {
            return None;
        }
        let left: u32 = self.limit - self.fetched as u32;
        let limit: u32 = if left < SEARCH_PAGE {
            left
        } else {
            SEARCH_PAGE
        };
        Some(MessagesQuery { after_seq: None, before_seq: self.before, limit: Some(limit) })
    }

    /// Take in a page: keep its hits, and go on before it unless the server names the same place
    /// again.
    pub fn take_page(&mut self, page: MessagesPage)
        requires
            old(self).fetched + page.items@.len() <= u64::MAX,
        ensures
            page_taken(*old(self), *final(self), page),
    {
        let ghost p = |m: MessageDto| is_hit(m, old(self).needle@);
        let ghost all = page.items@;
        let next = page.next_before_seq;
        let mut rest = page.items;
        let mut low: Option<i64> = None;
        let ghost mut n: int = 0;
        if rest.len() == 0 {
            self.over = true;
            assert(all.filter(p) =~= Seq::empty()) by {
                reveal(Seq::filter);
            }
            assert(self.hits@ =~= old(self).hits@ + all.filter(p));
            return;
        }
        let needle = self.needle.clone();
        let mut count: u64 = 0;
        assert(all.take(0).filter(p) =~= Seq::empty()) by {
            reveal(Seq::filter);
        }
        assert(all.take(0) =~= Seq::empty());
        assert(self.hits@ =~= old(self).hits@ + all.take(0).filter(p));
        while rest.len() > 0
            invariant
                p == (|m: MessageDto| is_hit(m, needle@)),
                0 <= n <= all.len(),
                n == count,
                all.len() <= u64::MAX,
                rest@ =~= all.skip(n),
                low == lowest(all.take(n)),
                self.hits@ == old(self).hits@ + all.take(n).filter(p),
                self.needle == old(self).needle,
                self.limit == old(self).limit,
                self.fetched == old(self).fetched,
                self.before == old(self).before,
                self.over == old(self).over,
            decreases rest.len(),
        {
            let m = rest.remove(0);
            proof {
                assert(all.take(n + 1).drop_last() =~= all.take(n));
                assert(all.take(n + 1).last() == m);
                reveal(Seq::filter);
            }
            low = match low {
                Some(s) => if s <= m.seq {
                    Some(s)
                } else {
                    Some(m.seq)
                },
                None => Some(m.seq),
            };
            let ghost before = self.hits@;
            if contains(lowered(m.body.as_str()).as_str(), needle.as_str()) {
                self.hits.push(m);
                assert(self.hits@ =~= old(self).hits@ + all.take(n).filter(p).push(m));
            }
            proof {
                n = n + 1;
            }
            count += 1;
        }
        assert(all.take(n) =~= all);
        self.fetched = self.fetched + count;
        let next: Option<i64> = match next {
            Some(b) => Some(b),
            None => low,
        };
        if next == self.before {
            self.over = true;
        }
        self.before = next;
    }

    /// The hits, oldest first.
    pub fn finish(self) -> (r: Vec<MessageDto>)
        ensures
            r@ == arranged(self.hits@),
            in_order(r@),
    {
        sorted(self.hits)
    }
}

} // verus!
