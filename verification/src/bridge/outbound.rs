//! From a topic to a group: what may be sent, what becomes of it, and what the user changes in a
//! group.

use crate::bridge::i18n::{phrase_of, said, Lang};
use crate::bridge::records::{topic_of, Account, Conversation, MessageMap};
use crate::catchup::mark_read;
use crate::crypto::{decrypts_to, sealed_for, Opened, SessionCipher};
use crate::http::CommandReply;
use crate::models::{
    code_points, min_to_post, opt_text, permits, GroupDto, GroupKind, MessageDto, Permission, Role,
    UpdateGroupRequest,
};
use crate::numbers::{
    decimal, decimal_int, parse_i32, parsed_i32, show_i64, show_u64, show_usize,
};
use crate::outbox::enqueue;
use crate::seal::GCM_MAX_PLAIN;
use crate::socket::SyncState;
use crate::store::groups::{max_seq_of, read_up_to, with_count_moved};
use crate::store::local::{group_pos, log, outbox_pos, LocalStore};
use crate::store::members::without_member;
use crate::store::messages::redacted;
use crate::store::outbox::outbox_note;
use crate::store::{queued, random_id, Change, GroupEntity, OutboxEntity, OutboxState};
use crate::sync::AckVia;
use crate::text::{same, texts, trim};
use vstd::prelude::*;
use vstd::utf8::encode_utf8;

verus! {

/// Characters that the service takes in one message.
pub const MAX_OUTBOUND_CHARS: usize = 1000;

/// The cached row of a group.
pub open spec fn cached(s: LocalStore, id: Seq<char>) -> Option<GroupEntity> {
    let p = group_pos(s.group_rows@, id);
    if p < s.group_rows@.len() {
        Some(s.group_rows@[p])
    } else {
        None
    }
}

/// Why a text cannot be sent to a group, before it is queued.
pub open spec fn refusal(group: Option<GroupEntity>, text: Seq<char>) -> Option<Seq<char>> {
    match group {
        None => Some("group not in local cache yet; try again in a moment"@),
        Some(g) => if g.kind == GroupKind::System {
            Some("this is a system announcement thread; nobody can post here"@)
        } else if !permits(g.who_can_post.0@, g.my_role) && g.my_role != Role::Admin {
            Some("only admins can post in this group"@)
        } else if text.len() > MAX_OUTBOUND_CHARS {
            Some(
                "message is "@ + decimal(text.len()) + " characters; Tzibbur allows "@ + decimal(
                    MAX_OUTBOUND_CHARS as nat,
                ),
            )
        } else {
            None
        },
    }
}

fn refused(group: &Option<GroupEntity>, text: &str) -> (r: Option<String>)
    ensures
        opt_text(r) == refusal(*group, text@),
{
    let g = match group {
        Some(g) => g,
        None => {
            return Some("group not in local cache yet; try again in a moment".to_owned());
        },
    };
    if g.kind == GroupKind::System {
        return Some("this is a system announcement thread; nobody can post here".to_owned());
    }
    if !g.who_can_post.allows(g.my_role) && g.my_role != Role::Admin {
        return Some("only admins can post in this group".to_owned());
    }
    let n: usize = code_points(text);
    if n > MAX_OUTBOUND_CHARS {
        return Some(
            "message is ".to_owned().concat(show_usize(n).as_str()).concat(
                " characters; Tzibbur allows ",
            ).concat(show_usize(MAX_OUTBOUND_CHARS).as_str()),
        );
    }
    None
}

/// What posting a text to a group does to the store, and what it gives.
pub open spec fn posted(
    s: LocalStore,
    t: LocalStore,
    group: Seq<char>,
    text: Seq<char>,
    now: i64,
    r: Result<OutboxEntity, String>,
) -> bool {
    &&& r is Ok == (refusal(cached(s, group), text) is None && trim(text).len() > 0)
    &&& match r {
        Ok(e) => {
            &&& random_id(e.client_message_id@)
            &&& queued(e, group, trim(text), now)
            &&& t.outbox_rows@ == (if outbox_pos(s.outbox_rows@, e.client_message_id@)
                < s.outbox_rows@.len() {
                s.outbox_rows@
            } else {
                s.outbox_rows@.push(e)
            })
            &&& t.rest_of_outbox(s)
            &&& log(t.changes@) == log(s.changes@).push(Change::Outbox(group))
        },
        Err(m) => {
            &&& t == s
            &&& m@ == (match refusal(cached(s, group), text) {
                Some(why) => why,
                None => "invalid input: "@ + "message body is empty"@,
            })
        },
    }
}

/// Queue a text for the group of a conversation. What cannot be sent is refused with a reason, and
/// leaves the store as it is.
pub fn send_text(store: &mut LocalStore, conv: &Conversation, text: &str, now: i64) -> (r: Result<
    OutboxEntity,
    String,
>)
    requires
        old(store).wf(),
    ensures
        final(store).wf(),
        posted(*old(store), *final(store), conv.group_id@, text@, now, r),
{
    let group = store.get_group(conv.group_id.as_str());
    match refused(&group, text) {
        Some(m) => {
            return Err(m);
        },
        None => {},
    }
    proof {
        lemma_trim_shortens(text@);
    }
    match enqueue(store, conv.group_id.as_str(), text, now) {
        Ok(e) => Ok(e),
        Err(e) => Err(e.message()),
    }
}

proof fn lemma_trim_start_shortens(s: Seq<char>)
    ensures
        crate::text::trim_start(s).len() <= s.len(),
    decreases s.len(),
{
    if s.len() > 0 && crate::text::is_white(s[0]) {
        lemma_trim_start_shortens(s.drop_first());
    }
}

proof fn lemma_trim_end_shortens(s: Seq<char>)
    ensures
        crate::text::trim_end(s).len() <= s.len(),
    decreases s.len(),
{
    if s.len() > 0 && crate::text::is_white(s.last()) {
        lemma_trim_end_shortens(s.drop_last());
    }
}

proof fn lemma_trim_shortens(s: Seq<char>)
    ensures
        trim(s).len() <= s.len(),
{
    lemma_trim_start_shortens(s);
    lemma_trim_end_shortens(crate::text::trim_start(s));
}

/// Drop the texts that a confirmed message leaves in the cache.
pub fn forget_confirmed(store: &mut LocalStore, message: &MessageDto)
    requires
        old(store).wf(),
    ensures
        final(store).wf(),
        forall|i: int|
            0 <= i < final(store).outbox_rows@.len() && (
            #[trigger] final(store).outbox_rows@[i]).state == OutboxState::Confirmed
                ==> final(store).outbox_rows@[i].body@.len() == 0,
        redacted(
            old(store).message_rows@,
            final(store).message_rows@,
            match message.group_id {
                Some(g) => g@,
                None => Seq::empty(),
            },
            message.seq,
        ),
        final(store).outbox_rows@.len() == old(store).outbox_rows@.len(),
        forall|i: int|
            #![trigger final(store).outbox_rows@[i]]
            0 <= i < old(store).outbox_rows@.len() ==> {
                let a = old(store).outbox_rows@[i];
                let b = final(store).outbox_rows@[i];
                b == (OutboxEntity { body: b.body, ..a }) && (a.state != OutboxState::Confirmed
                    ==> b == a)
            },
        final(store).group_rows@ == ({
            let rows = old(store).group_rows@;
            let p = group_pos(
                rows,
                match message.group_id {
                    Some(g) => g@,
                    None => Seq::empty(),
                },
            );
            if p < rows.len() {
                rows.update(p, GroupEntity { last_message_preview: None, ..rows[p] })
            } else {
                rows
            }
        }),
        final(store).member_rows == old(store).member_rows,
        final(store).reply_rows == old(store).reply_rows,
        final(store).next_reply_id == old(store).next_reply_id,
        final(store).changes == old(store).changes,
{
    let _ = store.redact_confirmed_outbox();
    match &message.group_id {
        Some(g) => {
            let _ = store.redact_messages(g.as_str(), message.seq);
        },
        None => {
            proof {
                reveal_strlit("");
                assert(""@ =~= Seq::empty());
            }
            let _ = store.redact_messages("", message.seq);
        },
    }
}

/// The Telegram message of a mapping.
pub open spec fn telegram_message(m: Option<MessageMap>) -> Option<i32> {
    match m {
        Some(m) => match m.telegram_message_id {
            Some(s) => parsed_i32(s@),
            None => None,
        },
        None => None,
    }
}

/// The Telegram message that gets a thumbs up or down.
pub fn telegram_message_of(m: &Option<MessageMap>) -> (r: Option<i32>)
    ensures
        r == telegram_message(*m),
{
    match m {
        Some(m) => match &m.telegram_message_id {
            Some(s) => parse_i32(s.as_str()),
            None => None,
        },
        None => None,
    }
}

/// Reaction to a message that was delivered.
pub const DELIVERED: &'static str = "👍";

/// Reaction to a message that was not.
pub const FAILED: &'static str = "👎";

/// How many members a group needs before anyone may post, or a default.
pub open spec fn needed(g: GroupDto, d: u32) -> u32 {
    match min_to_post(g) {
        Some(n) => n,
        None => d,
    }
}

fn members_needed(g: &GroupDto, d: u32) -> (r: u32)
    ensures
        r == needed(*g, d),
{
    match g.min_members_to_post() {
        Some(n) => n,
        None => d,
    }
}

/// The codes that say that the user may not do this.
pub open spec fn not_permitted(code: Seq<char>) -> bool {
    ||| code == "forbidden"@
    ||| code == "posting-not-allowed"@
    ||| code == "adding-members-not-allowed"@
    ||| code == "admin-required"@
    ||| code == "leave-not-allowed"@
}

fn forbids(code: &str) -> (r: bool)
    ensures
        r == not_permitted(code@),
{
    same(code, "forbidden") || same(code, "posting-not-allowed") || same(
        code,
        "adding-members-not-allowed",
    ) || same(code, "admin-required") || same(code, "leave-not-allowed")
}

/// Why a message was not sent, given the group as the server describes it now.
pub open spec fn reason(code: Seq<char>, group: Option<GroupDto>) -> Seq<char> {
    if code == "group-too-small"@ {
        match group {
            Some(g) => "Tzibbur needs "@ + decimal(needed(g, 3) as nat)
                + " members before anyone can post; the group has "@ + decimal_int(
                g.member_count as int,
            ) + ". Add members with /add and this message will be sent automatically"@,
            None => "the group is too small to post in yet; I'll resend once more members join"@,
        }
    } else if not_permitted(code) {
        match group {
            Some(g) => if 0 <= g.member_count < needed(g, 0) {
                "this group needs at least "@ + decimal(needed(g, 0) as nat)
                    + " members before anyone can post (it has "@ + decimal_int(
                    g.member_count as int,
                ) + "). Add members with /add"@
            } else {
                "you are not allowed to post in this group"@
            },
            None => "you are not allowed to post in this group"@,
        }
    } else if code == "not-found"@ {
        "the group no longer exists"@
    } else if code == "invalid-message"@ {
        "the message was rejected (max "@ + decimal(MAX_OUTBOUND_CHARS as nat) + " characters)"@
    } else if code == "unauthorized"@ || code == "device-blocked"@ {
        "your session expired; use /reconnect"@
    } else {
        "error `"@ + code + "`"@
    }
}

/// Whether the reason for a rejection depends on how the group stands now.
pub fn reason_needs_group(code: &str) -> (r: bool)
    ensures
        r == (code@ == "group-too-small"@ || not_permitted(code@)),
        !r ==> forall|g: Option<GroupDto>| #[trigger] reason(code@, g) == reason(code@, None),
{
    same(code, "group-too-small") || forbids(code)
}

/// Why a message was not sent.
pub fn rejection_reason(code: &str, group: &Option<GroupDto>) -> (r: String)
    ensures
        r@ == reason(code@, *group),
{
    if same(code, "group-too-small") {
        match group {
            Some(g) => "Tzibbur needs ".to_owned().concat(
                show_u64(members_needed(g, 3) as u64).as_str(),
            ).concat(" members before anyone can post; the group has ").concat(
                show_i64(g.member_count).as_str(),
            ).concat(". Add members with /add and this message will be sent automatically"),
            None =>
                "the group is too small to post in yet; I'll resend once more members join".to_owned(),
        }
    } else if forbids(code) {
        match group {
            Some(g) => {
                let n: u32 = members_needed(g, 0);
                if 0 <= g.member_count && g.member_count < n as i64 {
                    return "this group needs at least ".to_owned().concat(
                        show_u64(n as u64).as_str(),
                    ).concat(" members before anyone can post (it has ").concat(
                        show_i64(g.member_count).as_str(),
                    ).concat("). Add members with /add");
                }
            },
            None => {},
        }
        "you are not allowed to post in this group".to_owned()
    } else if same(code, "not-found") {
        "the group no longer exists".to_owned()
    } else if same(code, "invalid-message") {
        "the message was rejected (max ".to_owned().concat(show_usize(MAX_OUTBOUND_CHARS).as_str())
            .concat(" characters)")
    } else if same(code, "unauthorized") || same(code, "device-blocked") {
        "your session expired; use /reconnect".to_owned()
    } else {
        "error `".to_owned().concat(code).concat("`")
    }
}

/// A text below a message of the user's.
#[derive(Debug)]
pub struct Explanation {
    pub text: String,
    pub reply_to: i32,
    pub topic: Option<i32>,
}

/// Explain a rejection, where the message and its conversation are still known.
pub fn explain_rejection(
    code: &str,
    map: &Option<MessageMap>,
    conv: &Option<Conversation>,
    group: &Option<GroupDto>,
    lang: Lang,
) -> (r: Option<Explanation>)
    ensures
        r is Some == (telegram_message(*map) is Some && *conv is Some),
        r matches Some(e) ==> e.text@ == said(lang, "not_sent"@, seq![reason(code@, *group)])
            && Some(e.reply_to) == telegram_message(*map) && e.topic == topic_of(conv->0),
{
    match (telegram_message_of(map), conv) {
        (Some(tg), Some(c)) => {
            let why = rejection_reason(code, group);
            Some(
                Explanation {
                    text: phrase_of(lang, "not_sent", why.as_str()),
                    reply_to: tg,
                    topic: c.topic_id(),
                },
            )
        },
        _ => None,
    }
}

/// Show the answer to a command below the Telegram message that held it, where that message and its
/// conversation are still known.
pub fn show_answer(
    reply: &CommandReply,
    map: &Option<MessageMap>,
    conv: &Option<Conversation>,
) -> (r: Option<Explanation>)
    ensures
        r is Some == (telegram_message(*map) is Some && *conv is Some),
        r matches Some(e) ==> e.text == reply.text && Some(e.reply_to) == telegram_message(*map)
            && e.topic == topic_of(conv->0),
{
    match (telegram_message_of(map), conv) {
        (Some(tg), Some(c)) => Some(
            Explanation { text: reply.text.clone(), reply_to: tg, topic: c.topic_id() },
        ),
        _ => None,
    }
}

/// Code of messages that failed because the group was too small.
pub const TOO_SMALL: &'static str = "group-too-small";

/// A row that failed because the group was too small.
pub open spec fn failed_too_small(e: OutboxEntity) -> bool {
    opt_text(e.error_code) == Some(TOO_SMALL@)
}

/// The ids of rows that failed because the group was too small.
pub open spec fn too_small_ids(rows: Seq<OutboxEntity>) -> Seq<Seq<char>>
    decreases rows.len(),
{
    if rows.len() == 0 {
        seq![]
    } else {
        let before = too_small_ids(rows.drop_last());
        if failed_too_small(rows.last()) {
            before.push(rows.last().client_message_id@)
        } else {
            before
        }
    }
}

/// Which failed messages wait for more members.
pub fn waiting_for_members(rows: &Vec<OutboxEntity>) -> (r: Vec<String>)
    ensures
        texts(r@) == too_small_ids(rows@),
{
    let mut out: Vec<String> = Vec::new();
    let mut i: usize = 0;
    assert(rows@.take(0) =~= Seq::empty());
    assert(texts(out@) =~= seq![]);
    while i < rows.len()
        invariant
            i <= rows.len(),
            texts(out@) == too_small_ids(rows@.take(i as int)),
        decreases rows.len() - i,
    {
        assert(rows@.take(i + 1).drop_last() =~= rows@.take(i as int));
        let small = match &rows[i].error_code {
            Some(c) => same(c.as_str(), TOO_SMALL),
            None => false,
        };
        if small {
            let ghost before = out@;
            out.push(rows[i].client_message_id.clone());
            assert(texts(out@) =~= texts(before).push(rows@[i as int].client_message_id@));
        }
        i += 1;
    }
    assert(rows@.take(i as int) =~= rows@);
    out
}

/// Whether a group has the members it needs before anyone may post.
pub fn big_enough(g: &GroupDto) -> (r: bool)
    ensures
        r == (g.member_count >= needed(*g, 0)),
{
    g.member_count >= members_needed(g, 0) as i64
}

/// The note when earlier messages are sent after all.
pub const SENDING_EARLIER: &'static str =
    "The group is big enough now. Sending your earlier message.";

/// The outbox after a row was made due again.
pub open spec fn due_again(rows: Seq<OutboxEntity>, id: Seq<char>, now: i64) -> Seq<OutboxEntity> {
    let p = outbox_pos(rows, id);
    if p < rows.len() && rows[p].state != OutboxState::Confirmed {
        rows.update(
            p,
            OutboxEntity {
                state: OutboxState::Pending,
                error_code: None,
                next_attempt_at: Some(now),
                ..rows[p]
            },
        )
    } else {
        rows
    }
}

/// The outbox after several rows were made due again.
pub open spec fn all_due_again(rows: Seq<OutboxEntity>, ids: Seq<Seq<char>>, now: i64) -> Seq<
    OutboxEntity,
>
    decreases ids.len(),
{
    if ids.len() == 0 {
        rows
    } else {
        due_again(all_due_again(rows, ids.drop_last(), now), ids.last(), now)
    }
}

/// The change log after several rows were made due again.
pub open spec fn all_notes(
    rows: Seq<OutboxEntity>,
    ids: Seq<Seq<char>>,
    now: i64,
    c: Seq<Change>,
) -> Seq<Change>
    decreases ids.len(),
{
    if ids.len() == 0 {
        c
    } else {
        outbox_note(
            all_due_again(rows, ids.drop_last(), now),
            ids.last(),
            all_notes(rows, ids.drop_last(), now, c),
        )
    }
}

/// Make messages due again.
pub fn retry_all(store: &mut LocalStore, ids: &Vec<String>, now: i64)
    requires
        old(store).wf(),
    ensures
        final(store).wf(),
        final(store).outbox_rows@ == all_due_again(old(store).outbox_rows@, texts(ids@), now),
        final(store).rest_of_outbox(*old(store)),
        log(final(store).changes@) == all_notes(
            old(store).outbox_rows@,
            texts(ids@),
            now,
            log(old(store).changes@),
        ),
{
    let mut i: usize = 0;
    assert(texts(ids@).take(0) =~= seq![]);
    while i < ids.len()
        invariant
            i <= ids.len(),
            store.wf(),
            store.outbox_rows@ == all_due_again(
                old(store).outbox_rows@,
                texts(ids@).take(i as int),
                now,
            ),
            store.rest_of_outbox(*old(store)),
            log(store.changes@) == all_notes(
                old(store).outbox_rows@,
                texts(ids@).take(i as int),
                now,
                log(old(store).changes@),
            ),
        decreases ids.len() - i,
    {
        assert(texts(ids@).take(i + 1).drop_last() =~= texts(ids@).take(i as int));
        assert(texts(ids@).take(i + 1).last() == ids@[i as int]@);
        store.retry_outbox(ids[i].as_str(), now);
        i += 1;
    }
    assert(texts(ids@).take(i as int) =~= texts(ids@));
}

/// The newest cached seq of a group; zero when nothing is cached.
pub open spec fn newest(s: LocalStore, group: Seq<char>) -> i64 {
    match max_seq_of(s.message_rows@, group) {
        Some(n) => n,
        None => 0,
    }
}

/// Mark a conversation read up to its newest cached message: gives that seq, zero when there is
/// nothing to mark, and on which transport to tell the server.
pub fn mark_conversation_read(store: &mut LocalStore, state: SyncState, conv: &Conversation) -> (r: (
    i64,
    AckVia,
))
    requires
        old(store).wf(),
    ensures
        final(store).wf(),
        ({
            let seq = newest(*old(store), conv.group_id@);
            if seq > 0 {
                &&& r.0 == seq
                &&& r.1 == (if state == SyncState::Connected {
                    AckVia::Socket
                } else {
                    AckVia::Rest
                })
                &&& final(store).group_rows@ == read_up_to(
                    old(store).group_rows@,
                    conv.group_id@,
                    seq,
                )
                &&& final(store).rest_of_groups(*old(store))
                &&& log(final(store).changes@) == log(old(store).changes@).push(Change::Groups)
            } else {
                r == (0i64, AckVia::Nothing) && *final(store) == *old(store)
            }
        }),
{
    let seq: i64 = match store.max_seq(conv.group_id.as_str()) {
        Some(n) => n,
        None => 0,
    };
    if seq > 0 {
        let via_which = mark_read(store, state, conv.group_id.as_str(), seq);
        (seq, via_which)
    } else {
        (0, AckVia::Nothing)
    }
}

/// The request that changes who may post or add members.
pub fn permission_request(
    who_can_post: Option<Permission>,
    who_can_add_members: Option<Permission>,
) -> (r: UpdateGroupRequest)
    ensures
        r.name is None,
        r.who_can_post == who_can_post,
        r.who_can_add_members == who_can_add_members,
{
    UpdateGroupRequest { name: None, who_can_post, who_can_add_members }
}

/// Take a removed member out of the cache, and count one member less.
pub fn forget_member(store: &mut LocalStore, group_id: &str, user_id: &str)
    requires
        old(store).wf(),
    ensures
        final(store).wf(),
        final(store).member_rows@ == without_member(
            old(store).member_rows@,
            group_id@,
            user_id@,
        ),
        final(store).group_rows@ == with_count_moved(old(store).group_rows@, group_id@, -1i64),
        final(store).message_rows == old(store).message_rows,
        final(store).outbox_rows == old(store).outbox_rows,
        final(store).reply_rows == old(store).reply_rows,
        final(store).next_reply_id == old(store).next_reply_id,
        log(final(store).changes@) == log(old(store).changes@).push(
            Change::Members(group_id@),
        ).push(Change::Groups),
{
    store.delete_member(group_id, user_id);
    store.set_group_member_count(group_id, -1);
}

/// A session taken out of its row.
#[derive(Debug)]
pub struct Unlocked {
    pub token: String,
    /// The session under the current key, where it was stored under another.
    pub fresh: Option<String>,
}

/// Open the stored session of an account; one under an old key is sealed again under the current
/// one.
pub fn unlock(cipher: &SessionCipher, account: &Account) -> (r: Result<Unlocked, String>)
    ensures
        match account.encrypted_session {
            None => r matches Err(m) && m@ == "account "@ + decimal_int(account.id as int)
                + " has no session"@,
            Some(blob) => exists|o: Result<Opened, String>| #[trigger]
                decrypts_to(cipher.keys(), blob@, account.tzibbur_user_id@, o) && (match o {
                    Err(m) => r matches Err(e) && e@ == m@,
                    Ok(op) => if op.rewrap && encode_utf8(op.token@).len() > GCM_MAX_PLAIN {
                        r matches Err(e) && e@ == "encrypt session"@
                    } else {
                        r matches Ok(u) && u.token@ == op.token@ && (match u.fresh {
                            Some(f) => op.rewrap && sealed_for(
                                cipher.keys(),
                                op.token@,
                                account.tzibbur_user_id@,
                                f@,
                            ),
                            None => !op.rewrap,
                        })
                    },
                }),
        },
{
    let blob = match &account.encrypted_session {
        Some(b) => b,
        None => {
            return Err(
                "account ".to_owned().concat(show_i64(account.id).as_str()).concat(
                    " has no session",
                ),
            );
        },
    };
    let o = cipher.decrypt(blob.as_str(), account.tzibbur_user_id.as_str());
    assert(decrypts_to(cipher.keys(), blob@, account.tzibbur_user_id@, o));
    match o {
        Err(m) => Err(m),
        Ok(op) => {
            if op.rewrap {
                match cipher.encrypt(op.token.as_str(), account.tzibbur_user_id.as_str()) {
                    Ok(f) => Ok(Unlocked { token: op.token, fresh: Some(f) }),
                    Err(e) => Err(e),
                }
            } else {
                Ok(Unlocked { token: op.token, fresh: None })
            }
        },
    }
}

} // verus!
