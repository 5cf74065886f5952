//! The cached members of a group, and what a catch-up leaves of groups and members.

use crate::catchup::{
    announce_member, join_news, mark_read, more_pending, next_history, outbox_news, refresh_group,
    refreshes_members, Refreshed,
};
use crate::error::AppError;
use crate::laws::common::{lemma_filter_from, lemma_filter_has, lemma_only_group, lemma_only_member};
use crate::models::{GroupDto, MessagesPage, PendingResponse, Role};
use crate::outbox::OutboxEvent;
use crate::socket::SyncState;
use crate::sorting::{law_sorting_keeps_rows, Keyed};
use crate::store::{GroupEntity, LocalStore, MemberEntity};
use crate::store::local::{lemma_group_pos, lemma_member_row_pos, member_row_pos};
use crate::store::members::{member_upserted, members_upserted, outside_group};
use crate::sync::{AckVia, MemberRefreshPolicy, SyncEvent};
use vstd::prelude::*;

verus! {

/// The list of a group's members holds just them, those who joined earlier first.
pub proof fn law_members(store: &LocalStore, group: &str, r: Vec<MemberEntity>, m: MemberEntity)
    requires
        call_ensures(LocalStore::members, (store, group), r),
    ensures
        r@.contains(m) <==> store.member_rows@.contains(m) && m.group_id@ == group@,
        forall|i: int, j: int|
            0 <= i < j < r@.len() ==> (#[trigger] r@[i]).joined_at <= (#[trigger] r@[j]).joined_at,
{
    let rows = store.member_rows@;
    let p = |x: MemberEntity| x.group_id@ == group@;
    law_sorting_keeps_rows(rows.filter(p), r@, m);
    if rows.contains(m) && m.group_id@ == group@ {
        let k = choose|k: int| 0 <= k < rows.len() && rows[k] == m;
        lemma_filter_has(rows, p, k);
    }
    if rows.filter(p).contains(m) {
        lemma_filter_from(rows, p, m);
    }
    assert forall|i: int, j: int| 0 <= i < j < r@.len() implies (#[trigger] r@[i]).joined_at <= (
    #[trigger] r@[j]).joined_at by {
        assert(crate::sorting::key_le(r@[i].key(), r@[j].key()));
    }
}

/// A role that is set reaches one member of one group.
pub proof fn law_set_role(group: &str, user: &str, role: Role)
    ensures
        forall|store: &mut LocalStore|
            store.wf() && #[trigger] call_ensures(LocalStore::set_role, (store, group, user, role), ())
                ==> role_set(*store, *final(store), group@, user@, role),
{
    assert forall|store: &mut LocalStore|
        store.wf() && #[trigger] call_ensures(
            LocalStore::set_role,
            (store, group, user, role),
            (),
        ) implies role_set(*store, *final(store), group@, user@, role) by {
        lemma_member_row_pos(store.member_rows@, group@, user@);
        assert forall|i: int| 0 <= i < store.member_rows@.len() implies (
        #[trigger] final(store).member_rows@[i]) == (if store.member_rows@[i].group_id@ == group@
            && store.member_rows@[i].user_id@ == user@ {
            MemberEntity { role, ..store.member_rows@[i] }
        } else {
            store.member_rows@[i]
        }) by {
            lemma_only_member(*store, group@, user@, i);
        }
    }
}

/// `t` is `s` with the role of one member set.
pub open spec fn role_set(
    s: LocalStore,
    t: LocalStore,
    group: Seq<char>,
    user: Seq<char>,
    role: Role,
) -> bool {
    &&& t.member_rows@.len() == s.member_rows@.len()
    &&& forall|i: int|
        0 <= i < s.member_rows@.len() ==> (#[trigger] t.member_rows@[i]) == (
        if s.member_rows@[i].group_id@ == group && s.member_rows@[i].user_id@ == user {
            MemberEntity { role, ..s.member_rows@[i] }
        } else {
            s.member_rows@[i]
        })
    &&& t.group_rows == s.group_rows
    &&& t.message_rows == s.message_rows
    &&& t.outbox_rows == s.outbox_rows
}

/// `t` is `s` without the members of a group that `gone` names.
pub open spec fn members_left(
    s: LocalStore,
    t: LocalStore,
    m: MemberEntity,
    gone: bool,
) -> bool {
    &&& t.member_rows@.contains(m) <==> s.member_rows@.contains(m) && !gone
    &&& t.group_rows == s.group_rows
    &&& t.message_rows == s.message_rows
    &&& t.outbox_rows == s.outbox_rows
}

/// A member who is deleted goes, and everyone else stays.
pub proof fn law_delete_member(group: &str, user: &str, m: MemberEntity)
    ensures
        forall|store: &mut LocalStore|
            store.wf() && #[trigger] call_ensures(LocalStore::delete_member, (store, group, user), ())
                ==> members_left(
                *store,
                *final(store),
                m,
                m.group_id@ == group@ && m.user_id@ == user@,
            ),
{
    assert forall|store: &mut LocalStore|
        store.wf() && #[trigger] call_ensures(
            LocalStore::delete_member,
            (store, group, user),
            (),
        ) implies members_left(
        *store,
        *final(store),
        m,
        m.group_id@ == group@ && m.user_id@ == user@,
    ) by {
        let old = store.member_rows@;
        let new = final(store).member_rows@;
        lemma_member_row_pos(old, group@, user@);
        let p = member_row_pos(old, group@, user@);
        if new.contains(m) {
            let i = choose|i: int| 0 <= i < new.len() && new[i] == m;
            let k = if p < old.len() && i >= p {
                i + 1
            } else {
                i
            };
            assert(old[k] == m);
            lemma_only_member(*store, group@, user@, k);
        }
        if old.contains(m) && !(m.group_id@ == group@ && m.user_id@ == user@) {
            let k = choose|k: int| 0 <= k < old.len() && old[k] == m;
            if p < old.len() {
                assert(k != p);
                let i = if k < p {
                    k
                } else {
                    k - 1
                };
                assert(new[i] == m);
            }
        }
    }
}

proof fn lemma_outside(rows: Seq<MemberEntity>, group: Seq<char>, m: MemberEntity)
    ensures
        outside_group(rows, group).contains(m) <==> rows.contains(m) && m.group_id@ != group,
    decreases rows.len(),
{
    reveal(Seq::filter);
    if rows.len() > 0 {
        let t = rows.drop_last();
        let less = outside_group(t, group);
        let all = outside_group(rows, group);
        lemma_outside(t, group, m);
        assert(all == if rows.last().group_id@ != group {
            less.push(rows.last())
        } else {
            less
        });
        assert(rows == t.push(rows.last()));
        if rows.contains(m) && m != rows.last() {
            let k = choose|k: int| 0 <= k < rows.len() && rows[k] == m;
            assert(t[k] == m);
        }
        if t.contains(m) {
            let k = choose|k: int| 0 <= k < t.len() && t[k] == m;
            assert(rows[k] == m);
        }
        if less.contains(m) {
            let k = choose|k: int| 0 <= k < less.len() && less[k] == m;
            assert(all[k] == m);
        }
        if all.contains(m) && m != rows.last() {
            let k = choose|k: int| 0 <= k < all.len() && all[k] == m;
            assert(less[k] == m);
        }
        if m == rows.last() {
            assert(rows[rows.len() - 1] == m);
            if m.group_id@ != group {
                assert(all[all.len() - 1] == m);
            } else if all.contains(m) {
                let k = choose|k: int| 0 <= k < all.len() && all[k] == m;
                assert(less[k] == m);
            }
        }
    }
}

/// The members of a group go together, and those of the others stay.
pub proof fn law_delete_all_members(group: &str, m: MemberEntity)
    ensures
        forall|store: &mut LocalStore|
            store.wf() && #[trigger] call_ensures(LocalStore::delete_all_members, (store, group), ())
                ==> members_left(*store, *final(store), m, m.group_id@ == group@),
{
    assert forall|store: &mut LocalStore|
        store.wf() && #[trigger] call_ensures(
            LocalStore::delete_all_members,
            (store, group),
            (),
        ) implies members_left(*store, *final(store), m, m.group_id@ == group@) by {
        lemma_outside(store.member_rows@, group@, m);
    }
}

/// Everyone in the list is of one group, and nobody is in it twice.
pub open spec fn one_group(list: Seq<MemberEntity>, group: Seq<char>) -> bool {
    &&& forall|i: int| 0 <= i < list.len() ==> (#[trigger] list[i]).group_id@ == group
    &&& forall|i: int, j: int|
        0 <= i < j < list.len() ==> (#[trigger] list[i]).user_id@ != (#[trigger] list[j]).user_id@
}

proof fn lemma_appended(base: Seq<MemberEntity>, list: Seq<MemberEntity>, group: Seq<char>)
    requires
        forall|i: int| 0 <= i < base.len() ==> (#[trigger] base[i]).group_id@ != group,
        one_group(list, group),
    ensures
        members_upserted(base, list) == base + list,
    decreases list.len(),
{
    if list.len() > 0 {
        let front = list.drop_last();
        let m = list.last();
        assert forall|i: int| 0 <= i < front.len() implies (#[trigger] front[i]).group_id@
            == group by {
            assert(list[i].group_id@ == group);
        }
        assert forall|i: int, j: int| 0 <= i < j < front.len() implies (#[trigger] front[i]).user_id@
            != (#[trigger] front[j]).user_id@ by {
            assert(list[i].user_id@ != list[j].user_id@);
        }
        lemma_appended(base, front, group);
        let rows = base + front;
        assert(list[list.len() - 1].group_id@ == group);
        lemma_member_row_pos(rows, group, m.user_id@);
        let p = member_row_pos(rows, group, m.user_id@);
        if p < rows.len() {
            if p < base.len() {
                assert(rows[p] == base[p]);
            } else {
                assert(rows[p] == list[p - base.len()]);
                assert(list[p - base.len()].user_id@ != list[list.len() - 1].user_id@);
            }
        }
        assert(member_upserted(rows, m) == rows.push(m));
        assert(base + list =~= rows.push(m));
    } else {
        assert(base + list =~= base);
    }
}

/// The stores before and after the members of a group were replaced by a list.
pub open spec fn list_taken(
    s: LocalStore,
    t: LocalStore,
    group: Seq<char>,
    list: Seq<MemberEntity>,
    m: MemberEntity,
    i: int,
) -> bool {
    &&& t.member_rows@.contains(m) <==> if m.group_id@ == group {
        list.contains(m)
    } else {
        s.member_rows@.contains(m)
    }
    &&& t.group_rows@.len() == s.group_rows@.len()
    &&& 0 <= i < s.group_rows@.len() ==> t.group_rows@[i] == (if s.group_rows@[i].id@ == group {
        GroupEntity { member_count: list.len() as i64, ..s.group_rows@[i] }
    } else {
        s.group_rows@[i]
    })
    &&& t.message_rows == s.message_rows
    &&& t.outbox_rows == s.outbox_rows
}

proof fn lemma_list_taken(
    s: LocalStore,
    group: Seq<char>,
    list: Seq<MemberEntity>,
    m: MemberEntity,
    i: int,
)
    requires
        s.wf(),
        one_group(list, group),
    ensures
        members_upserted(outside_group(s.member_rows@, group), list).contains(m) <==> (
        if m.group_id@ == group {
            list.contains(m)
        } else {
            s.member_rows@.contains(m)
        }),
{
    let base = outside_group(s.member_rows@, group);
    assert forall|k: int| 0 <= k < base.len() implies (#[trigger] base[k]).group_id@ != group by {
        assert(base.contains(base[k]));
        lemma_outside(s.member_rows@, group, base[k]);
    }
    lemma_appended(base, list, group);
    lemma_outside(s.member_rows@, group, m);
    let all = base + list;
    if all.contains(m) {
        let k = choose|k: int| 0 <= k < all.len() && all[k] == m;
        if k < base.len() {
            assert(base[k] == m);
            assert(base.contains(m));
        } else {
            assert(list[k - base.len()] == m);
            assert(m.group_id@ == group);
        }
    }
    if base.contains(m) {
        let k = choose|k: int| 0 <= k < base.len() && base[k] == m;
        assert(all[k] == m);
    }
    if list.contains(m) {
        let k = choose|k: int| 0 <= k < list.len() && list[k] == m;
        assert(all[base.len() + k] == m);
    }
}

/// A group's members become those of the list: who is not in it goes, who is in it stays as the
/// list has them, and the group counts as many as the list. Members of other groups, and the other
/// groups, stay.
pub proof fn law_replace_members(
    group: &str,
    list: &Vec<MemberEntity>,
    m: MemberEntity,
    i: int,
    r: Result<(), AppError>,
)
    requires
        one_group(list@, group@),
    ensures
        forall|store: &mut LocalStore|
            store.wf() && #[trigger] call_ensures(
                LocalStore::replace_members,
                (store, group, list),
                r,
            ) ==> {
                &&& (exists|k: int|
                    0 <= k < store.group_rows@.len() && (#[trigger] store.group_rows@[k]).id@
                        == group@) ==> r is Ok
                &&& r is Ok ==> list_taken(*store, *final(store), group@, list@, m, i)
                &&& r is Err ==> *final(store) == *store
            },
{
    assert forall|store: &mut LocalStore|
        store.wf() && #[trigger] call_ensures(
            LocalStore::replace_members,
            (store, group, list),
            r,
        ) implies {
        &&& (exists|k: int|
            0 <= k < store.group_rows@.len() && (#[trigger] store.group_rows@[k]).id@ == group@)
            ==> r is Ok
        &&& r is Ok ==> list_taken(*store, *final(store), group@, list@, m, i)
        &&& r is Err ==> *final(store) == *store
    } by {
        lemma_list_taken(*store, group@, list@, m, i);
        lemma_group_pos(store.group_rows@, group@);
        if 0 <= i < store.group_rows@.len() {
            lemma_only_group(*store, group@, i);
        }
    }
}

/// Whether a group's members are fetched: always under the policy for all, and under the other one
/// where someone looks at the group.
pub proof fn law_whose_members_are_fetched(observed: bool, r: bool)
    ensures
        call_ensures(refreshes_members, (MemberRefreshPolicy::All, observed), r) ==> r,
        call_ensures(refreshes_members, (MemberRefreshPolicy::ObservedOnly, observed), r) ==> r == observed,
{
}

/// Whoever is announced is in the news by the cached row; someone unknown has the role from the
/// event, that of a member where it named none, and joined now.
pub proof fn law_announced(
    store: &LocalStore,
    group_id: String,
    user: &str,
    role: Option<Role>,
    now: i64,
    r: Vec<SyncEvent>,
    i: int,
)
    requires
        store.wf(),
        call_ensures(announce_member, (store, group_id, user, role, now), r),
        0 <= i < store.member_rows@.len(),
    ensures
        r@.len() == 2,
        r@[0] matches SyncEvent::MemberAdded { group_id: g, member } && g == group_id && {
            &&& store.member_rows@[i].group_id@ == group_id@ && store.member_rows@[i].user_id@
                == user@ ==> member == store.member_rows@[i]
            &&& (forall|k: int|
                0 <= k < store.member_rows@.len() ==> !((
                #[trigger] store.member_rows@[k]).group_id@ == group_id@
                    && store.member_rows@[k].user_id@ == user@)) ==> member.group_id@ == group_id@
                && member.user_id@ == user@ && member.joined_at == now && member.display_name@.len()
                == 0 && member.phone_e164 is None && (role matches Some(x) ==> member.role == x) && (
            role is None ==> member.role == Role::Member)
        },
        r@[1] == (SyncEvent::MembersChanged { group_id }),
{
    lemma_member_row_pos(store.member_rows@, group_id@, user@);
    lemma_only_member(*store, group_id@, user@, i);
}

/// A fetched group is stored as the server has it, with the user's own marks kept; one that the
/// server does not know is marked deleted; any other failure changes nothing.
pub proof fn law_refresh_group(
    group: &str,
    reply: Result<GroupDto, AppError>,
    now: i64,
    r: Refreshed<GroupEntity>,
    i: int,
)
    ensures
        forall|store: &mut LocalStore|
            store.wf() && #[trigger] call_ensures(refresh_group, (store, group, reply, now), r)
                ==> group_refreshed(*store, *final(store), group@, reply, r, i),
{
    assert forall|store: &mut LocalStore|
        store.wf() && #[trigger] call_ensures(
            refresh_group,
            (store, group, reply, now),
            r,
        ) implies group_refreshed(*store, *final(store), group@, reply, r, i) by {
        lemma_group_pos(store.group_rows@, group@);
        if 0 <= i < store.group_rows@.len() {
            lemma_only_group(*store, group@, i);
        }
        if let Ok(g) = reply {
            lemma_group_pos(store.group_rows@, g.id@);
            if 0 <= i < store.group_rows@.len() {
                lemma_only_group(*store, g.id@, i);
            }
        }
    }
}

/// What the fetch of a group leaves in its row at `i`.
pub open spec fn group_refreshed(
    s: LocalStore,
    t: LocalStore,
    group: Seq<char>,
    reply: Result<GroupDto, AppError>,
    r: Refreshed<GroupEntity>,
    i: int,
) -> bool {
    &&& reply matches Ok(g) ==> {
        &&& r matches Refreshed::Found(row) && row.id == g.id && row.name == g.name
        &&& 0 <= i < s.group_rows@.len() && s.group_rows@[i].id@ != g.id@ ==> t.group_rows@[i]
            == s.group_rows@[i]
        &&& 0 <= i < s.group_rows@.len() && s.group_rows@[i].id@ == g.id@ ==> {
            &&& t.group_rows@[i].name == g.name
            &&& t.group_rows@[i].my_role == g.my_role
            &&& t.group_rows@[i].muted == s.group_rows@[i].muted
            &&& !t.group_rows@[i].is_deleted
        }
        &&& t.member_rows == s.member_rows && t.message_rows == s.message_rows && t.outbox_rows
            == s.outbox_rows
    }
    &&& reply matches Err(AppError::NotFound { .. }) ==> {
        &&& r matches Refreshed::Gone(SyncEvent::GroupDeleted { group_id }) && group_id@ == group
        &&& t.group_rows@.len() == s.group_rows@.len()
        &&& 0 <= i < s.group_rows@.len() ==> t.group_rows@[i] == (if s.group_rows@[i].id@ == group {
            GroupEntity { is_deleted: true, ..s.group_rows@[i] }
        } else {
            s.group_rows@[i]
        })
        &&& t.member_rows == s.member_rows && t.message_rows == s.message_rows && t.outbox_rows
            == s.outbox_rows
    }
    &&& (reply matches Err(e) && !(e is NotFound)) ==> t == s && r == Refreshed::<
        GroupEntity,
    >::Failed(reply->Err_0)
}

/// More of a pending page is fetched where a bucket that brought something says there is more, or
/// where the page says so and names a place to go on from; else the fetching is over.
pub proof fn law_more_pending(page: &PendingResponse, r: bool)
    requires
        call_ensures(more_pending, (page,), r),
    ensures
        page.has_more && page.next_cursor is Some ==> r,
        forall|i: int|
            0 <= i < page.messages@.len() && (#[trigger] page.messages@[i]).has_more
                && page.messages@[i].messages@.len() > 0 ==> r,
        !(page.has_more && page.next_cursor is Some) && (forall|i: int|
            0 <= i < page.messages@.len() ==> !(#[trigger] page.messages@[i]).has_more
                || page.messages@[i].messages@.len() == 0) ==> !r,
{
    assert forall|i: int|
        0 <= i < page.messages@.len() && (#[trigger] page.messages@[i]).has_more
            && page.messages@[i].messages@.len() > 0 implies r by {
        assert(crate::catchup::bucket_more(*page, i));
    }
}

/// A history goes on where the page says, and ends with an empty page.
pub proof fn law_next_history(page: &MessagesPage, r: Option<i64>)
    requires
        call_ensures(next_history, (page,), r),
    ensures
        page.items@.len() > 0 ==> r == page.next_after_seq,
        page.items@.len() == 0 ==> r is None,
{
}

/// A read position goes to the socket while it is connected, and by a request otherwise.
pub proof fn law_read_is_told(state: SyncState, group: &str, seq: i64, how: AckVia)
    ensures
        forall|store: &mut LocalStore|
            store.wf() && #[trigger] call_ensures(mark_read, (store, state, group, seq), how) ==> (
            state == SyncState::Connected ==> how == AckVia::Socket) && (state
                != SyncState::Connected ==> how == AckVia::Rest),
{
}

/// Consumers hear of the confirmed message by its ids and place; of nothing else in the outbox.
pub proof fn law_outbox_news(ev: OutboxEvent, r: Option<SyncEvent>)
    requires
        call_ensures(outbox_news, (ev,), r),
    ensures
        !(ev is Confirmed) ==> r is None,
        ev matches OutboxEvent::Confirmed { client_message_id, message } ==> (r matches Some(
            SyncEvent::EchoConfirmed { group_id, client_message_id: c, server_id, seq },
        ) && c == client_message_id && server_id == message.id && seq == message.seq && (
        message.group_id matches Some(g) ==> group_id@ == g@)),
{
}

/// The account joined a group once its row was found, and not before.
pub proof fn law_join_news(row: &Refreshed<GroupEntity>, group: &str, r: Option<SyncEvent>)
    requires
        call_ensures(join_news, (row, group), r),
    ensures
        row is Found ==> (r matches Some(SyncEvent::GroupJoined { group_id }) && group_id@ == group@),
        !(row is Found) ==> r is None,
{
}

} // verus!
