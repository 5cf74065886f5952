//! The cached groups, members and messages.

use crate::laws::common::{lemma_filter_from, lemma_filter_has, lemma_only_group};
use crate::sorting::{in_order, key_le, law_sorting_keeps_rows, Keyed};
use crate::store::{GroupEntity, GroupWithUnread, LocalStore, MessageEntity};
use crate::store::groups::{live_groups, max_seq_of, unread_of};
use crate::store::local::{group_pos, lemma_group_pos};
use crate::store::messages::{count_in, in_group, latest_of, min_seq_of, stored_all, with_previews};
use vstd::prelude::*;

verus! {

/// A cached group is found by its id, and nothing else is.
pub proof fn law_get_group(store: &LocalStore, id: &str, r: Option<GroupEntity>)
    requires
        call_ensures(LocalStore::get_group, (store, id), r),
    ensures
        r matches Some(g) ==> g.id@ == id@ && store.group_rows@.contains(g),
        r is None ==> forall|i: int|
            0 <= i < store.group_rows@.len() ==> (#[trigger] store.group_rows@[i]).id@ != id@,
{
    lemma_group_pos(store.group_rows@, id@);
    let p = group_pos(store.group_rows@, id@);
    if r is Some {
        assert(store.group_rows@[p] == r->0);
    } else {
        assert forall|i: int| 0 <= i < store.group_rows@.len() implies (
        #[trigger] store.group_rows@[i]).id@ != id@ by {}
    }
}

/// What the server says of a group is taken over, and the group is there afterwards. What only this
/// device knows stays: whether the group is muted, and how far it was read. No other group changes.
pub proof fn law_upsert_group(g: &GroupEntity)
    ensures
        forall|store: &mut LocalStore|
            store.wf() && #[trigger] call_ensures(LocalStore::upsert_group, (store, g), ()) ==> {
                let rows = final(store).group_rows@;
                &&& exists|i: int|
                    {
                        &&& 0 <= i < rows.len()
                        &&& (#[trigger] rows[i]).id@ == g.id@
                        &&& rows[i].name == g.name
                        &&& rows[i].kind == g.kind
                        &&& rows[i].my_role == g.my_role
                        &&& rows[i].member_count == g.member_count
                        &&& rows[i].who_can_post == g.who_can_post
                        &&& rows[i].who_can_add_members == g.who_can_add_members
                        &&& !rows[i].is_deleted
                        &&& rows[i].last_read_seq >= g.last_read_seq
                    }
                &&& forall|i: int|
                    0 <= i < store.group_rows@.len() && (#[trigger] store.group_rows@[i]).id@
                        == g.id@ ==> {
                        &&& rows[i].id@ == g.id@
                        &&& rows[i].muted == store.group_rows@[i].muted
                        &&& rows[i].last_read_seq >= store.group_rows@[i].last_read_seq
                        &&& rows[i].last_read_seq == store.group_rows@[i].last_read_seq
                            || rows[i].last_read_seq == g.last_read_seq
                        &&& g.last_message_preview is None ==> rows[i].last_message_preview
                            == store.group_rows@[i].last_message_preview
                    }
                &&& forall|i: int|
                    0 <= i < store.group_rows@.len() && (#[trigger] store.group_rows@[i]).id@
                        != g.id@ ==> rows[i] == store.group_rows@[i]
                &&& final(store).member_rows == store.member_rows
                &&& final(store).message_rows == store.message_rows
                &&& final(store).outbox_rows == store.outbox_rows
            },
{
    assert forall|store: &mut LocalStore|
        store.wf() && #[trigger] call_ensures(LocalStore::upsert_group, (store, g), ()) implies {
        let rows = final(store).group_rows@;
        &&& exists|i: int|
            {
                &&& 0 <= i < rows.len()
                &&& (#[trigger] rows[i]).id@ == g.id@
                &&& rows[i].name == g.name
                &&& rows[i].kind == g.kind
                &&& rows[i].my_role == g.my_role
                &&& rows[i].member_count == g.member_count
                &&& rows[i].who_can_post == g.who_can_post
                &&& rows[i].who_can_add_members == g.who_can_add_members
                &&& !rows[i].is_deleted
                &&& rows[i].last_read_seq >= g.last_read_seq
            }
        &&& forall|i: int|
            0 <= i < store.group_rows@.len() && (#[trigger] store.group_rows@[i]).id@ == g.id@ ==> {
                &&& rows[i].id@ == g.id@
                &&& rows[i].muted == store.group_rows@[i].muted
                &&& rows[i].last_read_seq >= store.group_rows@[i].last_read_seq
                &&& rows[i].last_read_seq == store.group_rows@[i].last_read_seq
                    || rows[i].last_read_seq == g.last_read_seq
                &&& g.last_message_preview is None ==> rows[i].last_message_preview
                    == store.group_rows@[i].last_message_preview
            }
        &&& forall|i: int|
            0 <= i < store.group_rows@.len() && (#[trigger] store.group_rows@[i]).id@ != g.id@
                ==> rows[i] == store.group_rows@[i]
        &&& final(store).member_rows == store.member_rows
        &&& final(store).message_rows == store.message_rows
        &&& final(store).outbox_rows == store.outbox_rows
    } by {
        let old = store.group_rows@;
        let rows = final(store).group_rows@;
        lemma_group_pos(old, g.id@);
        let p = group_pos(old, g.id@);
        assert(rows[p].id@ == g.id@);
        assert forall|i: int| 0 <= i < old.len() implies ((#[trigger] old[i]).id@ == g.id@ <==> i
            == p) by {
            lemma_only_group(*store, g.id@, i);
        }
    }
}

/// Reading marks a group as read up to a place, never back, and only that group.
pub proof fn law_mark_read(id: &str, seq: i64)
    ensures
        forall|store: &mut LocalStore|
            store.wf() && #[trigger] call_ensures(LocalStore::mark_read, (store, id, seq), ())
                ==> marked_read(*store, *final(store), id@, seq),
{
    assert forall|store: &mut LocalStore|
        store.wf() && #[trigger] call_ensures(
            LocalStore::mark_read,
            (store, id, seq),
            (),
        ) implies marked_read(*store, *final(store), id@, seq) by {
        lemma_group_pos(store.group_rows@, id@);
        assert forall|i: int| 0 <= i < store.group_rows@.len() implies ((
        #[trigger] store.group_rows@[i]).id@ == id@ <==> i == group_pos(
            store.group_rows@,
            id@,
        )) by {
            lemma_only_group(*store, id@, i);
        }
    }
}

/// A group is read up to a place: its read position is the higher of the two, and nothing else
/// differs.
pub open spec fn marked_read(s: LocalStore, t: LocalStore, id: Seq<char>, seq: i64) -> bool {
    &&& t.group_rows@.len() == s.group_rows@.len()
    &&& forall|i: int|
        0 <= i < s.group_rows@.len() && (#[trigger] s.group_rows@[i]).id@ != id ==> t.group_rows@[i]
            == s.group_rows@[i]
    &&& forall|i: int|
        0 <= i < s.group_rows@.len() && (#[trigger] s.group_rows@[i]).id@ == id ==> {
            &&& t.group_rows@[i].last_read_seq >= seq
            &&& t.group_rows@[i].last_read_seq >= s.group_rows@[i].last_read_seq
            &&& t.group_rows@[i].last_read_seq == seq || t.group_rows@[i].last_read_seq
                == s.group_rows@[i].last_read_seq
            &&& t.group_rows@[i] == (GroupEntity {
                last_read_seq: t.group_rows@[i].last_read_seq,
                ..s.group_rows@[i]
            })
        }
    &&& t.member_rows == s.member_rows
    &&& t.message_rows == s.message_rows
    &&& t.outbox_rows == s.outbox_rows
}

/// Muting touches one group, and only whether it is muted.
pub proof fn law_set_muted(id: &str, muted: bool)
    ensures
        forall|store: &mut LocalStore|
            store.wf() && #[trigger] call_ensures(LocalStore::set_muted, (store, id, muted), ())
                ==> final(store).group_rows@.len() == store.group_rows@.len() && (forall|i: int|
                0 <= i < store.group_rows@.len() ==> (#[trigger] final(store).group_rows@[i]) == (
                if store.group_rows@[i].id@ == id@ {
                    GroupEntity { muted, ..store.group_rows@[i] }
                } else {
                    store.group_rows@[i]
                })),
{
    assert forall|store: &mut LocalStore|
        store.wf() && #[trigger] call_ensures(
            LocalStore::set_muted,
            (store, id, muted),
            (),
        ) implies final(store).group_rows@.len() == store.group_rows@.len() && (forall|i: int|
        0 <= i < store.group_rows@.len() ==> (#[trigger] final(store).group_rows@[i]) == (
        if store.group_rows@[i].id@ == id@ {
            GroupEntity { muted, ..store.group_rows@[i] }
        } else {
            store.group_rows@[i]
        })) by {
        lemma_group_pos(store.group_rows@, id@);
        assert forall|i: int| 0 <= i < store.group_rows@.len() implies (
        #[trigger] final(store).group_rows@[i]) == (if store.group_rows@[i].id@ == id@ {
            GroupEntity { muted, ..store.group_rows@[i] }
        } else {
            store.group_rows@[i]
        }) by {
            lemma_only_group(*store, id@, i);
        }
    }
}

/// The list of groups holds every group that is not deleted, no other, and the most recently active
/// first.
pub proof fn law_group_list(store: &LocalStore, r: Vec<GroupEntity>, g: GroupEntity)
    requires
        call_ensures(LocalStore::groups, (store,), r),
    ensures
        r@.contains(g) <==> store.group_rows@.contains(g) && !g.is_deleted,
        forall|i: int, j: int|
            0 <= i < j < r@.len() ==> when_active(#[trigger] r@[i]) >= when_active(#[trigger] r@[j]),
{
    let live = live_groups(store.group_rows@);
    let p = |x: GroupEntity| !x.is_deleted;
    law_sorting_keeps_rows(r@, live, g);
    if live.contains(g) {
        lemma_filter_from(store.group_rows@, p, g);
    }
    if store.group_rows@.contains(g) && !g.is_deleted {
        let k = choose|k: int| 0 <= k < store.group_rows@.len() && store.group_rows@[k] == g;
        lemma_filter_has(store.group_rows@, p, k);
    }
    assert forall|i: int, j: int| 0 <= i < j < r@.len() implies when_active(#[trigger] r@[i])
        >= when_active(#[trigger] r@[j]) by {
        assert(key_le(r@[i].key(), r@[j].key()));
    }
}

/// When something last happened in a group, or else when it was made.
pub open spec fn when_active(g: GroupEntity) -> i64 {
    match g.last_activity_at {
        Some(at) => at,
        None => g.created_at,
    }
}

/// A message counts as unread just where it is of the group, lies beyond the read position, and
/// someone else sent it.
pub proof fn law_unread_counts(
    messages: Seq<MessageEntity>,
    m: MessageEntity,
    g: GroupEntity,
    me: Seq<char>,
)
    ensures
        unread_of(seq![], g, me) == 0,
        unread_of(messages.push(m), g, me) == unread_of(messages, g, me) + (if m.group_id@ == g.id@
            && m.seq > g.last_read_seq && m.sender_id@ != me {
            1int
        } else {
            0
        }),
{
    assert(messages.push(m).drop_last() =~= messages);
}

/// The overview shows each group that is not deleted, with its unread messages and its newest place.
pub proof fn law_overview(store: &LocalStore, me: &str, r: Vec<GroupWithUnread>, i: int, k: int)
    requires
        call_ensures(LocalStore::groups_with_unread, (store, me), r),
        0 <= i < r@.len(),
    ensures
        store.group_rows@.contains(r@[i].group),
        !r@[i].group.is_deleted,
        r@[i].unread_count == unread_of(store.message_rows@, r@[i].group, me@) as i64,
        0 <= k < store.message_rows@.len() && store.message_rows@[k].group_id@ == r@[i].group.id@
            ==> (r@[i].max_seq matches Some(at) && store.message_rows@[k].seq <= at),
        0 <= k < r@.len() && i < k ==> when_active(r@[i].group) >= when_active(r@[k].group),
{
    let p = |x: GroupEntity| !x.is_deleted;
    let order = choose|order: Seq<GroupEntity>|
        {
            &&& #[trigger] in_order(order)
            &&& order.to_multiset() == live_groups(store.group_rows@).to_multiset()
            &&& order.len() == r@.len()
            &&& forall|i: int|
                0 <= i < r@.len() ==> {
                    &&& (#[trigger] r@[i]).group == order[i]
                    &&& r@[i].unread_count == unread_of(
                        store.message_rows@,
                        order[i],
                        me@,
                    ) as i64
                    &&& r@[i].max_seq == max_seq_of(store.message_rows@, order[i].id@)
                }
        };
    assert(order.contains(order[i]));
    law_sorting_keeps_rows(order, live_groups(store.group_rows@), order[i]);
    lemma_filter_from(store.group_rows@, p, order[i]);
    if 0 <= k < store.message_rows@.len() && store.message_rows@[k].group_id@ == r@[i].group.id@ {
        lemma_max(store.message_rows@, r@[i].group.id@, k);
    }
    if 0 <= k < r@.len() && i < k {
        assert(r@[k].group == order[k]);
        assert(key_le(order[i].key(), order[k].key()));
    }
}

/// No message of a group lies beyond its highest place.
pub proof fn lemma_max(rows: Seq<MessageEntity>, group: Seq<char>, k: int)
    requires
        0 <= k < rows.len(),
        rows[k].group_id@ == group,
    ensures
        max_seq_of(rows, group) matches Some(at) && rows[k].seq <= at,
    decreases rows.len(),
{
    if k < rows.len() - 1 {
        lemma_max(rows.drop_last(), group, k);
    }
}

/// The highest place is that of a message.
pub proof fn lemma_max_origin(rows: Seq<MessageEntity>, group: Seq<char>) -> (k: int)
    requires
        max_seq_of(rows, group) is Some,
    ensures
        0 <= k < rows.len(),
        rows[k].group_id@ == group,
        max_seq_of(rows, group) == Some(rows[k].seq),
    decreases rows.len(),
{
    let m = rows.last();
    if m.group_id@ == group && max_seq_of(rows, group) == Some(m.seq) {
        rows.len() - 1
    } else {
        lemma_max_origin(rows.drop_last(), group)
    }
}

/// The highest place of a group is that of one of its messages, and none lies beyond it.
pub proof fn law_max_seq(store: &LocalStore, group: &str, r: Option<i64>, k: int)
    requires
        call_ensures(LocalStore::max_seq, (store, group), r),
    ensures
        0 <= k < store.message_rows@.len() && store.message_rows@[k].group_id@ == group@ ==> (r
            matches Some(at) && store.message_rows@[k].seq <= at),
        r matches Some(at) ==> exists|i: int|
            0 <= i < store.message_rows@.len() && (#[trigger] store.message_rows@[i]).group_id@
                == group@ && store.message_rows@[i].seq == at,
{
    if 0 <= k < store.message_rows@.len() && store.message_rows@[k].group_id@ == group@ {
        lemma_max(store.message_rows@, group@, k);
    }
    if r is Some {
        let i = lemma_max_origin(store.message_rows@, group@);
        assert(store.message_rows@[i].group_id@ == group@);
    }
}

proof fn lemma_min(rows: Seq<MessageEntity>, group: Seq<char>, k: int)
    requires
        0 <= k < rows.len(),
        rows[k].group_id@ == group,
    ensures
        min_seq_of(rows, group) matches Some(at) && at <= rows[k].seq,
    decreases rows.len(),
{
    if k < rows.len() - 1 {
        lemma_min(rows.drop_last(), group, k);
    }
}

proof fn lemma_min_origin(rows: Seq<MessageEntity>, group: Seq<char>) -> (k: int)
    requires
        min_seq_of(rows, group) is Some,
    ensures
        0 <= k < rows.len(),
        rows[k].group_id@ == group,
        min_seq_of(rows, group) == Some(rows[k].seq),
    decreases rows.len(),
{
    let m = rows.last();
    if m.group_id@ == group && min_seq_of(rows, group) == Some(m.seq) {
        rows.len() - 1
    } else {
        lemma_min_origin(rows.drop_last(), group)
    }
}

/// The lowest place of a group is that of one of its messages, and none lies before it.
pub proof fn law_min_seq(store: &LocalStore, group: &str, r: Option<i64>, k: int)
    requires
        call_ensures(LocalStore::min_seq, (store, group), r),
    ensures
        0 <= k < store.message_rows@.len() && store.message_rows@[k].group_id@ == group@ ==> (r
            matches Some(at) && at <= store.message_rows@[k].seq),
        r matches Some(at) ==> exists|i: int|
            0 <= i < store.message_rows@.len() && (#[trigger] store.message_rows@[i]).group_id@
                == group@ && store.message_rows@[i].seq == at,
{
    if 0 <= k < store.message_rows@.len() && store.message_rows@[k].group_id@ == group@ {
        lemma_min(store.message_rows@, group@, k);
    }
    if r is Some {
        let i = lemma_min_origin(store.message_rows@, group@);
        assert(store.message_rows@[i].group_id@ == group@);
    }
}

proof fn lemma_latest(rows: Seq<MessageEntity>, group: Seq<char>)
    ensures
        latest_of(rows, group) matches Some(m) ==> rows.contains(m) && m.group_id@ == group && (
        forall|i: int|
            0 <= i < rows.len() && (#[trigger] rows[i]).group_id@ == group ==> rows[i].seq <= m.seq),
        latest_of(rows, group) is None ==> forall|i: int|
            0 <= i < rows.len() ==> (#[trigger] rows[i]).group_id@ != group,
    decreases rows.len(),
{
    if rows.len() > 0 {
        let t = rows.drop_last();
        lemma_latest(t, group);
        match latest_of(rows, group) {
            Some(m) => {
                if t.contains(m) {
                    let k = choose|k: int| 0 <= k < t.len() && t[k] == m;
                    assert(rows[k] == m);
                } else {
                    assert(rows[rows.len() - 1] == m);
                }
                assert forall|i: int|
                    0 <= i < rows.len() && (#[trigger] rows[i]).group_id@
                        == group implies rows[i].seq <= m.seq by {
                    if i < t.len() {
                        assert(t[i] == rows[i]);
                    }
                }
            },
            None => {
                assert forall|i: int| 0 <= i < rows.len() implies (#[trigger] rows[i]).group_id@
                    != group by {
                    if i < t.len() {
                        assert(t[i] == rows[i]);
                    }
                }
            },
        }
    }
}

/// The latest message of a group is one of its messages, and none is later.
pub proof fn law_latest_message(store: &LocalStore, group: &str, r: Option<MessageEntity>, k: int)
    requires
        call_ensures(LocalStore::latest_message, (store, group), r),
    ensures
        r matches Some(m) ==> store.message_rows@.contains(m) && m.group_id@ == group@,
        0 <= k < store.message_rows@.len() && store.message_rows@[k].group_id@ == group@ ==> (r
            matches Some(m) && store.message_rows@[k].seq <= m.seq),
{
    lemma_latest(store.message_rows@, group@);
    if 0 <= k < store.message_rows@.len() {
        assert(store.message_rows@[k].group_id@ == group@ || store.message_rows@[k].group_id@
            != group@);
    }
}

/// The thread of a group holds its messages, no others, oldest first. Where there are more than asked
/// for, it is the older ones that are left out.
pub proof fn law_thread(store: &LocalStore, group: &str, limit: u32, r: Vec<MessageEntity>)
    requires
        call_ensures(LocalStore::thread, (store, group, limit), r),
    ensures
        r@.len() <= limit,
        forall|m: MessageEntity| #[trigger]
            r@.contains(m) ==> store.message_rows@.contains(m) && m.group_id@ == group@,
        forall|i: int, j: int|
            0 <= i < j < r@.len() ==> (#[trigger] r@[i]).seq <= (#[trigger] r@[j]).seq,
        forall|m: MessageEntity| #[trigger]
            store.message_rows@.contains(m) && m.group_id@ == group@ ==> r@.contains(m) || (r@.len()
                == limit && forall|i: int| 0 <= i < r@.len() ==> m.seq <= (#[trigger] r@[i]).seq),
{
    let p = |m: MessageEntity| m.group_id@ == group@;
    let all = choose|all: Seq<MessageEntity>|
        {
            &&& #[trigger] in_order(all)
            &&& all.to_multiset() == in_group(store.message_rows@, group@).to_multiset()
            &&& r@ == (if all.len() <= limit {
                all
            } else {
                all.skip(all.len() - limit)
            })
        };
    let cut = if all.len() <= limit {
        0
    } else {
        all.len() - limit
    };
    assert(r@ =~= all.skip(cut));
    assert forall|m: MessageEntity| #[trigger] r@.contains(m) implies store.message_rows@.contains(m)
        && m.group_id@ == group@ by {
        let i = choose|i: int| 0 <= i < r@.len() && r@[i] == m;
        assert(all[cut + i] == m);
        law_sorting_keeps_rows(all, in_group(store.message_rows@, group@), m);
        lemma_filter_from(store.message_rows@, p, m);
    }
    assert forall|i: int, j: int| 0 <= i < j < r@.len() implies (#[trigger] r@[i]).seq <= (
    #[trigger] r@[j]).seq by {
        assert(key_le(all[cut + i].key(), all[cut + j].key()));
    }
    assert forall|m: MessageEntity| #[trigger]
        store.message_rows@.contains(m) && m.group_id@ == group@ implies r@.contains(m) || (r@.len()
        == limit && forall|i: int| 0 <= i < r@.len() ==> m.seq <= (#[trigger] r@[i]).seq) by {
        let k = choose|k: int| 0 <= k < store.message_rows@.len() && store.message_rows@[k] == m;
        lemma_filter_has(store.message_rows@, p, k);
        law_sorting_keeps_rows(all, in_group(store.message_rows@, group@), m);
        let q = choose|q: int| 0 <= q < all.len() && all[q] == m;
        if q >= cut {
            assert(r@[q - cut] == m);
        } else {
            assert forall|i: int| 0 <= i < r@.len() implies m.seq <= (#[trigger] r@[i]).seq by {
                assert(key_le(all[q].key(), all[cut + i].key()));
            }
        }
    }
}

/// A message counts just where it is of the group and lies between the two places, both included.
pub proof fn law_count_between(
    rows: Seq<MessageEntity>,
    m: MessageEntity,
    group: Seq<char>,
    from: i64,
    to: i64,
)
    ensures
        count_in(seq![], group, from, to) == 0,
        count_in(rows.push(m), group, from, to) == count_in(rows, group, from, to) + (
        if m.group_id@ == group && from <= m.seq && m.seq <= to {
            1int
        } else {
            0
        }),
{
    assert(rows.push(m).drop_last() =~= rows);
}

/// Storing messages keeps what is stored, in its place; what is added comes from the list.
pub proof fn law_storing_keeps_and_adds(
    rows: Seq<MessageEntity>,
    list: Seq<MessageEntity>,
    m: MessageEntity,
)
    ensures
        stored_all(rows, list).len() >= rows.len(),
        forall|i: int| 0 <= i < rows.len() ==> (#[trigger] stored_all(rows, list)[i]) == rows[i],
        stored_all(rows, list).contains(m) ==> rows.contains(m) || list.contains(m),
    decreases list.len(),
{
    if list.len() > 0 {
        let t = list.drop_last();
        law_storing_keeps_and_adds(rows, t, m);
        let before = stored_all(rows, t);
        let after = stored_all(rows, list);
        assert forall|i: int| 0 <= i < rows.len() implies (#[trigger] after[i]) == rows[i] by {
            assert(before[i] == rows[i]);
        }
        if after.contains(m) {
            let k = choose|k: int| 0 <= k < after.len() && after[k] == m;
            if k < before.len() {
                assert(before[k] == m);
                if list.drop_last().contains(m) {
                    let q = choose|q: int| 0 <= q < t.len() && t[q] == m;
                    assert(list[q] == m);
                }
            } else {
                assert(list[list.len() - 1] == m);
            }
        }
    }
}

/// The preview of a group is the text of its latest message, and its activity never goes back. Groups
/// without new messages stay as they are.
pub proof fn law_previews(
    groups: Seq<GroupEntity>,
    messages: Seq<MessageEntity>,
    touched: Seq<Seq<char>>,
    i: int,
    k: int,
)
    requires
        0 <= i < groups.len(),
        0 <= k < messages.len(),
        messages[k].group_id@ == groups[i].id@,
        forall|j: int|
            0 <= j < messages.len() && j != k && (#[trigger] messages[j]).group_id@ == groups[i].id@
                ==> messages[j].seq < messages[k].seq,
    ensures
        with_previews(groups, messages, touched).len() == groups.len(),
        !touched.contains(groups[i].id@) ==> with_previews(groups, messages, touched)[i] == groups[i],
        touched.contains(groups[i].id@) ==> {
            let g = with_previews(groups, messages, touched)[i];
            &&& messages[k].body@.len() > 0 ==> g.last_message_preview == Some(messages[k].body)
            &&& messages[k].body@.len() == 0 ==> g.last_message_preview is None
            &&& g.last_activity_at matches Some(at) && at >= messages[k].created_at && (
            groups[i].last_activity_at matches Some(was) ==> at >= was)
            &&& g.id == groups[i].id
            &&& g.name == groups[i].name
            &&& g.last_read_seq == groups[i].last_read_seq
            &&& g.muted == groups[i].muted
            &&& g.is_deleted == groups[i].is_deleted
        },
{
    lemma_latest(messages, groups[i].id@);
    let m = latest_of(messages, groups[i].id@)->0;
    let j = choose|j: int| 0 <= j < messages.len() && messages[j] == m;
    assert(messages[k].seq <= m.seq);
    if j != k {
        assert(messages[j].seq < messages[k].seq);
    }
}

/// Erasing the texts of a group up to a place erases those, and no others; no message goes.
pub proof fn law_redaction(group: &str, seq: i64, i: int)
    ensures
        forall|store: &mut LocalStore, n: usize|
            #[trigger] call_ensures(LocalStore::redact_messages, (store, group, seq), n) ==> {
                &&& final(store).message_rows@.len() == store.message_rows@.len()
                &&& 0 <= i < store.message_rows@.len() ==> {
                    let a = store.message_rows@[i];
                    let b = final(store).message_rows@[i];
                    &&& a.group_id@ == group@ && a.seq <= seq ==> b.body@.len() == 0
                    &&& !(a.group_id@ == group@ && a.seq <= seq) ==> b == a
                    &&& b.id == a.id && b.seq == a.seq && b.group_id == a.group_id && b.sender_id
                        == a.sender_id
                }
            },
{
    assert forall|store: &mut LocalStore, n: usize|
        #[trigger] call_ensures(LocalStore::redact_messages, (store, group, seq), n) implies {
        &&& final(store).message_rows@.len() == store.message_rows@.len()
        &&& 0 <= i < store.message_rows@.len() ==> {
            let a = store.message_rows@[i];
            let b = final(store).message_rows@[i];
            &&& a.group_id@ == group@ && a.seq <= seq ==> b.body@.len() == 0
            &&& !(a.group_id@ == group@ && a.seq <= seq) ==> b == a
            &&& b.id == a.id && b.seq == a.seq && b.group_id == a.group_id && b.sender_id
                == a.sender_id
        }
    } by {
        assert(crate::store::messages::redacted(
            store.message_rows@,
            final(store).message_rows@,
            group@,
            seq,
        ));
        if 0 <= i < store.message_rows@.len() {
            assert(crate::store::messages::redacted_row(
                store.message_rows@[i],
                final(store).message_rows@[i],
                group@,
                seq,
            ));
        }
    }
}

} // verus!
