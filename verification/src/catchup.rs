//! The REST-driven part of the sync engine: refreshing groups and members, pulling what is pending,
//! paging history, and the user's own actions.

use crate::error::AppError;
use crate::models::{
    GroupDto, MemberDto, MessagesPage, MessagesQuery, PendingResponse, Role,
};
use crate::outbox::OutboxEvent;
use crate::socket::SyncState;
use crate::store::groups::{
    deleted_except, ids_of, read_up_to, upserted, upserted_all, with_group_deleted,
};
use crate::store::local::{group_known, group_pos, log, members_attached};
use crate::store::members::{lacks_group, members_upserted, outside_group};
use crate::store::{
    group_row, member_row_of, Change, GroupEntity, LocalStore, MemberEntity,
};
use crate::sync::{member_row, AckVia, MemberRefreshPolicy, SyncEvent, HISTORY_PAGE};
use vstd::prelude::*;

verus! {

/// Whether the members of a group are fetched when someone joins it.
pub fn refreshes_members(policy: MemberRefreshPolicy, observed: bool) -> (r: bool)
    ensures
        r == (policy == MemberRefreshPolicy::All || observed),
{
    match policy {
        MemberRefreshPolicy::All => true,
        MemberRefreshPolicy::ObservedOnly => observed,
    }
}

/// `m` is the stored row of a member, or a row made up from what the event told.
pub open spec fn announced(
    s: LocalStore,
    group: Seq<char>,
    user: Seq<char>,
    role: Option<Role>,
    now: i64,
    m: MemberEntity,
) -> bool {
    match member_row(s, group, user) {
        Some(row) => m == row,
        None => {
            &&& m.group_id@ == group
            &&& m.user_id@ == user
            &&& m.display_name@.len() == 0
            &&& m.phone_e164 is None
            &&& m.role == (match role {
                Some(x) => x,
                None => Role::Member,
            })
            &&& m.joined_at == now
        },
    }
}

/// The events that announce a member who joined.
pub fn announce_member(
    store: &LocalStore,
    group_id: String,
    user_id: &str,
    role: Option<Role>,
    now: i64,
) -> (events: Vec<SyncEvent>)
    ensures
        events@.len() == 2,
        events@[0] matches SyncEvent::MemberAdded { group_id: g, member } && g == group_id
            && announced(*store, group_id@, user_id@, role, now, member),
        events@[1] == (SyncEvent::MembersChanged { group_id }),
{
    let member = match store.find_member(group_id.as_str(), user_id) {
        Some(i) => store.member_rows[i].clone(),
        None => MemberEntity {
            group_id: group_id.clone(),
            user_id: user_id.to_owned(),
            display_name: String::new(),
            phone_e164: None,
            role: match role {
                Some(x) => x,
                None => Role::Member,
            },
            joined_at: now,
        },
    };
    let mut events: Vec<SyncEvent> = Vec::new();
    events.push(SyncEvent::MemberAdded { group_id: group_id.clone(), member });
    events.push(SyncEvent::MembersChanged { group_id });
    events
}

/// The store after a group turned out to be gone.
pub open spec fn dropped(s: LocalStore, t: LocalStore, group: Seq<char>) -> bool {
    &&& t.group_rows@ == with_group_deleted(s.group_rows@, group)
    &&& t.rest_of_groups(s)
    &&& log(t.changes@) == log(s.changes@).push(Change::Groups)
}

/// Mark a group deleted and report it: it was left, deleted, or the server does not know it.
pub fn drop_group(store: &mut LocalStore, group_id: &str) -> (event: SyncEvent)
    requires
        old(store).wf(),
    ensures
        final(store).wf(),
        dropped(*old(store), *final(store), group_id@),
        event matches SyncEvent::GroupDeleted { group_id: g } && g@ == group_id@,
{
    store.mark_group_deleted(group_id);
    SyncEvent::GroupDeleted { group_id: group_id.to_owned() }
}

/// What the fetch of a single group led to.
#[derive(Debug)]
pub enum Refreshed<T> {
    Found(T),
    /// The group is gone; report this.
    Gone(SyncEvent),
    Failed(AppError),
}

/// Take in the reply to the fetch of a single group; one that is not found is marked deleted.
pub fn refresh_group(
    store: &mut LocalStore,
    group_id: &str,
    reply: Result<GroupDto, AppError>,
    now: i64,
) -> (r: Refreshed<GroupEntity>)
    requires
        old(store).wf(),
    ensures
        final(store).wf(),
        match reply {
            Ok(g) => {
                &&& r == Refreshed::Found(group_row(g, now))
                &&& final(store).group_rows@ == upserted(old(store).group_rows@, group_row(g, now))
                &&& final(store).rest_of_groups(*old(store))
                &&& log(final(store).changes@) == log(old(store).changes@).push(Change::Groups)
            },
            Err(e) => if e is NotFound {
                &&& dropped(*old(store), *final(store), group_id@)
                &&& r matches Refreshed::Gone(SyncEvent::GroupDeleted { group_id: g }) && g@
                    == group_id@
            } else {
                *final(store) == *old(store) && r == Refreshed::<GroupEntity>::Failed(e)
            },
        },
{
    match reply {
        Ok(g) => {
            let row = GroupEntity::from_dto(g, now);
            store.upsert_group(&row);
            Refreshed::Found(row)
        },
        Err(e) => {
            if matches!(e, AppError::NotFound { .. }) {
                Refreshed::Gone(drop_group(store, group_id))
            } else {
                Refreshed::Failed(e)
            }
        },
    }
}

/// `rows` are the rows for a list of members, in order.
pub open spec fn member_rows_of(
    ms: Seq<MemberDto>,
    group: Seq<char>,
    now: i64,
    rows: Seq<MemberEntity>,
) -> bool {
    &&& rows.len() == ms.len()
    &&& forall|i: int| 0 <= i < rows.len() ==> member_row_of(ms[i], group, now, #[trigger] rows[i])
}

fn member_batch(ms: Vec<MemberDto>, group_id: &str, now: i64) -> (rows: Vec<MemberEntity>)
    ensures
        member_rows_of(ms@, group_id@, now, rows@),
{
    let ghost all = ms@;
    let mut rest = ms;
    let mut rows: Vec<MemberEntity> = Vec::new();
    while rest.len() > 0
        invariant
            rows@.len() + rest@.len() == all.len(),
            rest@ =~= all.skip(rows@.len() as int),
            forall|k: int|
                0 <= k < rows@.len() ==> member_row_of(
                    all[k],
                    group_id@,
                    now,
                    #[trigger] rows@[k],
                ),
        decreases rest.len(),
    {
        let m = rest.remove(0);
        rows.push(MemberEntity::from_dto(m, group_id, now));
    }
    rows
}

/// The store after the members of a group were replaced.
pub open spec fn members_replaced(
    s: LocalStore,
    t: LocalStore,
    group: Seq<char>,
    rows: Seq<MemberEntity>,
) -> bool {
    &&& t.member_rows@ == members_upserted(outside_group(s.member_rows@, group), rows)
    &&& t.group_rows@ == ({
        let g = s.group_rows@;
        let p = group_pos(g, group);
        if p < g.len() {
            g.update(p, GroupEntity { member_count: rows.len() as i64, ..g[p] })
        } else {
            g
        }
    })
    &&& t.message_rows == s.message_rows
    &&& t.outbox_rows == s.outbox_rows
    &&& t.reply_rows == s.reply_rows
    &&& t.next_reply_id == s.next_reply_id
    &&& log(t.changes@) == log(s.changes@).push(Change::Members(group)).push(Change::Groups)
}

/// Take in the reply to the fetch of a group's members.
pub fn refresh_members(
    store: &mut LocalStore,
    group_id: &str,
    reply: Result<Vec<MemberDto>, AppError>,
    now: i64,
) -> (r: Refreshed<Vec<MemberEntity>>)
    requires
        old(store).wf(),
        reply matches Ok(ms) ==> ms@.len() <= i64::MAX,
    ensures
        final(store).wf(),
        match reply {
            Ok(ms) => if ms@.len() == 0 || group_known(old(store).group_rows@, group_id@) {
                r matches Refreshed::Found(rows) && member_rows_of(ms@, group_id@, now, rows@)
                    && members_replaced(*old(store), *final(store), group_id@, rows@)
            } else {
                *final(store) == *old(store) && (r matches Refreshed::Failed(e) && lacks_group(e))
            },
            Err(e) => if e is NotFound {
                &&& dropped(*old(store), *final(store), group_id@)
                &&& r matches Refreshed::Gone(SyncEvent::GroupDeleted { group_id: g }) && g@
                    == group_id@
            } else {
                *final(store) == *old(store) && r == Refreshed::<Vec<MemberEntity>>::Failed(e)
            },
        },
{
    match reply {
        Ok(ms) => {
            let rows = member_batch(ms, group_id, now);
            proof {
                if rows@.len() > 0 {
                    assert(rows@[0].group_id@ == group_id@);
                }
                assert(members_attached(store.group_rows@, rows@) <==> rows@.len() == 0
                    || group_known(store.group_rows@, group_id@));
            }
            match store.replace_members(group_id, &rows) {
                Ok(()) => Refreshed::Found(rows),
                Err(e) => Refreshed::Failed(e),
            }
        },
        Err(e) => {
            if matches!(e, AppError::NotFound { .. }) {
                Refreshed::Gone(drop_group(store, group_id))
            } else {
                Refreshed::Failed(e)
            }
        },
    }
}

/// The rows for a list of groups.
pub open spec fn group_rows_of(list: Seq<GroupDto>, now: i64) -> Seq<GroupEntity> {
    Seq::new(list.len(), |i: int| group_row(list[i], now))
}

/// Take in the whole group list: groups in it are stored, all others are marked deleted.
pub fn reconcile_groups(store: &mut LocalStore, list: Vec<GroupDto>, now: i64)
    requires
        old(store).wf(),
    ensures
        final(store).wf(),
        final(store).group_rows@ == deleted_except(
            upserted_all(old(store).group_rows@, group_rows_of(list@, now)),
            ids_of(group_rows_of(list@, now)),
        ),
        final(store).rest_of_groups(*old(store)),
        log(final(store).changes@) == log(old(store).changes@).push(Change::Groups),
{
    let ghost all = list@;
    let mut rest = list;
    let mut rows: Vec<GroupEntity> = Vec::new();
    while rest.len() > 0
        invariant
            rows@.len() + rest@.len() == all.len(),
            rest@ =~= all.skip(rows@.len() as int),
            forall|k: int| 0 <= k < rows@.len() ==> #[trigger] rows@[k] == group_row(all[k], now),
        decreases rest.len(),
    {
        let g = rest.remove(0);
        rows.push(GroupEntity::from_dto(g, now));
    }
    assert(rows@ =~= group_rows_of(all, now));
    store.reconcile_groups(&rows);
}

/// Whether a bucket says there is more and brought something.
pub open spec fn bucket_more(page: PendingResponse, i: int) -> bool {
    page.messages@[i].has_more && page.messages@[i].messages@.len() > 0
}

/// Whether another round of the REST catch-up is due.
pub fn more_pending(page: &PendingResponse) -> (r: bool)
    ensures
        r == ((exists|i: int| 0 <= i < page.messages@.len() && #[trigger] bucket_more(*page, i)) || (
        page.has_more && page.next_cursor is Some)),
{
    let mut i: usize = 0;
    while i < page.messages.len()
        invariant
            i <= page.messages.len(),
            forall|k: int| 0 <= k < i ==> !#[trigger] bucket_more(*page, k),
        decreases page.messages.len() - i,
    {
        if page.messages[i].has_more && page.messages[i].messages.len() > 0 {
            assert(bucket_more(*page, i as int));
            return true;
        }
        i += 1;
    }
    page.has_more && page.next_cursor.is_some()
}

/// The next page of a history catch-up.
pub fn history_query(after: Option<i64>) -> (q: MessagesQuery)
    ensures
        q == (MessagesQuery { after_seq: after, before_seq: None, limit: Some(HISTORY_PAGE) }),
{
    MessagesQuery { after_seq: after, before_seq: None, limit: Some(HISTORY_PAGE) }
}

/// The page before the oldest stored message.
pub fn older_query(before: Option<i64>, limit: u32) -> (q: MessagesQuery)
    ensures
        q == (MessagesQuery { after_seq: None, before_seq: before, limit: Some(limit) }),
{
    MessagesQuery { after_seq: None, before_seq: before, limit: Some(limit) }
}

/// Where a history catch-up goes on: from the position the server named, and only after a page that
/// held something.
pub fn next_history(page: &MessagesPage) -> (next: Option<i64>)
    ensures
        next == (if page.items@.len() == 0 {
            None
        } else {
            page.next_after_seq
        }),
{
    if page.items.len() == 0 {
        None
    } else {
        page.next_after_seq
    }
}

/// Move the user's read position, and say on which transport to tell the server.
pub fn mark_read(store: &mut LocalStore, state: SyncState, group_id: &str, seq: i64) -> (how: AckVia)
    requires
        old(store).wf(),
    ensures
        final(store).wf(),
        final(store).group_rows@ == read_up_to(old(store).group_rows@, group_id@, seq),
        final(store).rest_of_groups(*old(store)),
        log(final(store).changes@) == log(old(store).changes@).push(Change::Groups),
        how == (if state == SyncState::Connected {
            AckVia::Socket
        } else {
            AckVia::Rest
        }),
{
    store.mark_read(group_id, seq);
    if state == SyncState::Connected {
        AckVia::Socket
    } else {
        AckVia::Rest
    }
}

/// What consumers hear of an outbox event: only that a message was confirmed.
pub fn outbox_news(ev: OutboxEvent) -> (r: Option<SyncEvent>)
    ensures
        match ev {
            OutboxEvent::Confirmed { client_message_id, message } => {
                r matches Some(
                    SyncEvent::EchoConfirmed { group_id, client_message_id: c, server_id, seq },
                ) && c == client_message_id && server_id == message.id && seq == message.seq
                    && group_id@ == (match message.group_id {
                    Some(g) => g@,
                    None => Seq::empty(),
                })
            },
            _ => r is None,
        },
{
    match ev {
        OutboxEvent::Confirmed { client_message_id, message } => Some(
            SyncEvent::EchoConfirmed {
                group_id: match message.group_id {
                    Some(g) => g,
                    None => String::new(),
                },
                client_message_id,
                server_id: message.id,
                seq: message.seq,
            },
        ),
        _ => None,
    }
}

/// The news that the account joined a group, once the group's row has been fetched.
pub fn join_news(row: &Refreshed<GroupEntity>, group_id: &str) -> (r: Option<SyncEvent>)
    ensures
        match *row {
            Refreshed::Found(_) => r matches Some(SyncEvent::GroupJoined { group_id: g }) && g@
                == group_id@,
            _ => r is None,
        },
{
    match row {
        Refreshed::Found(_) => Some(SyncEvent::GroupJoined { group_id: group_id.to_owned() }),
        _ => None,
    }
}

} // verus!
