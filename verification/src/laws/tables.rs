//! The tables of groups and messages, one operation at a time.

use crate::laws::common::{lemma_filter_from, lemma_filter_has, lemma_only_group};
use crate::models::{Permission, Role};
use crate::store::{GroupEntity, LocalStore, MemberEntity, MessageEntity, OutboxEntity};
use crate::store::groups::{deleted_except, doomed, ids_of, lemma_upsert_unique, upserted_all};
use crate::store::local::{group_pos, groups_unique, lemma_group_pos};
use crate::store::messages::{lemma_ids_in, lemma_seqs_in};
use crate::text::texts;
use vstd::prelude::*;

verus! {

/// The group row at `i` is `g` where it has the id, and as before otherwise; all else is as before.
pub open spec fn one_group_now(s: LocalStore, t: LocalStore, id: Seq<char>, i: int, g: GroupEntity) -> bool {
    &&& t.group_rows@.len() == s.group_rows@.len()
    &&& 0 <= i < s.group_rows@.len() ==> t.group_rows@[i] == (if s.group_rows@[i].id@ == id {
        g
    } else {
        s.group_rows@[i]
    })
    &&& t.message_rows == s.message_rows
    &&& t.member_rows == s.member_rows
    &&& t.outbox_rows == s.outbox_rows
}

/// Marking a group deleted, setting the user's role in it, and moving its member count (which never
/// goes under zero) reach that group alone.
pub proof fn law_one_group(id: &str, role: Role, delta: i64, i: int)
    ensures
        forall|store: &mut LocalStore|
            store.wf() && #[trigger] call_ensures(LocalStore::mark_group_deleted, (store, id), ())
                ==> one_group_now(
                *store,
                *final(store),
                id@,
                i,
                GroupEntity { is_deleted: true, ..store.group_rows@[i] },
            ),
        forall|store: &mut LocalStore|
            store.wf() && #[trigger] call_ensures(LocalStore::set_my_role, (store, id, role), ())
                ==> one_group_now(
                *store,
                *final(store),
                id@,
                i,
                GroupEntity { my_role: role, ..store.group_rows@[i] },
            ),
        forall|store: &mut LocalStore|
            store.wf() && -1_000_000_000 <= delta <= 1_000_000_000 && 0 <= i
                < store.group_rows@.len() && 0 <= store.group_rows@[i].member_count <= 1_000_000_000
                && #[trigger] call_ensures(
                LocalStore::set_group_member_count,
                (store, id, delta),
                (),
            ) ==> one_group_now(
                *store,
                *final(store),
                id@,
                i,
                GroupEntity {
                    member_count: if store.group_rows@[i].member_count + delta < 0 {
                        0
                    } else {
                        (store.group_rows@[i].member_count + delta) as i64
                    },
                    ..store.group_rows@[i]
                },
            ),
{
    assert forall|store: &mut LocalStore|
        store.wf() && #[trigger] call_ensures(
            LocalStore::mark_group_deleted,
            (store, id),
            (),
        ) implies one_group_now(
        *store,
        *final(store),
        id@,
        i,
        GroupEntity { is_deleted: true, ..store.group_rows@[i] },
    ) by {
        lemma_group_pos(store.group_rows@, id@);
        if 0 <= i < store.group_rows@.len() {
            lemma_only_group(*store, id@, i);
        }
    }
    assert forall|store: &mut LocalStore|
        store.wf() && #[trigger] call_ensures(
            LocalStore::set_my_role,
            (store, id, role),
            (),
        ) implies one_group_now(
        *store,
        *final(store),
        id@,
        i,
        GroupEntity { my_role: role, ..store.group_rows@[i] },
    ) by {
        lemma_group_pos(store.group_rows@, id@);
        if 0 <= i < store.group_rows@.len() {
            lemma_only_group(*store, id@, i);
        }
    }
    assert forall|store: &mut LocalStore|
        store.wf() && -1_000_000_000 <= delta <= 1_000_000_000 && 0 <= i < store.group_rows@.len()
            && 0 <= store.group_rows@[i].member_count <= 1_000_000_000 && #[trigger] call_ensures(
            LocalStore::set_group_member_count,
            (store, id, delta),
            (),
        ) implies one_group_now(
        *store,
        *final(store),
        id@,
        i,
        GroupEntity {
            member_count: if store.group_rows@[i].member_count + delta < 0 {
                0
            } else {
                (store.group_rows@[i].member_count + delta) as i64
            },
            ..store.group_rows@[i]
        },
    ) by {
        lemma_group_pos(store.group_rows@, id@);
        lemma_only_group(*store, id@, i);
    }
}

/// New settings of a group replace just those that are given, in that group alone.
pub proof fn law_group_settings(
    id: &str,
    name: Option<&str>,
    post: Option<&Permission>,
    more: Option<&Permission>,
    i: int,
)
    ensures
        forall|store: &mut LocalStore|
            store.wf() && 0 <= i < store.group_rows@.len() && #[trigger] call_ensures(
                LocalStore::apply_group_updated,
                (store, id, name, post, more),
                (),
            ) ==> {
                let was = store.group_rows@[i];
                let row = final(store).group_rows@[i];
                &&& was.id@ != id@ ==> row == was
                &&& was.id@ == id@ ==> {
                    &&& name matches Some(n) ==> row.name@ == n@
                    &&& name is None ==> row.name@ == was.name@
                    &&& post matches Some(p) ==> row.who_can_post == *p
                    &&& post is None ==> row.who_can_post == was.who_can_post
                    &&& more matches Some(p) ==> row.who_can_add_members == *p
                    &&& more is None ==> row.who_can_add_members == was.who_can_add_members
                    &&& row == (GroupEntity {
                        name: row.name,
                        who_can_post: row.who_can_post,
                        who_can_add_members: row.who_can_add_members,
                        ..was
                    })
                }
            },
{
    assert forall|store: &mut LocalStore|
        store.wf() && 0 <= i < store.group_rows@.len() && #[trigger] call_ensures(
            LocalStore::apply_group_updated,
            (store, id, name, post, more),
            (),
        ) implies {
        let was = store.group_rows@[i];
        let row = final(store).group_rows@[i];
        &&& was.id@ != id@ ==> row == was
        &&& was.id@ == id@ ==> {
            &&& name matches Some(n) ==> row.name@ == n@
            &&& name is None ==> row.name@ == was.name@
            &&& post matches Some(p) ==> row.who_can_post == *p
            &&& post is None ==> row.who_can_post == was.who_can_post
            &&& more matches Some(p) ==> row.who_can_add_members == *p
            &&& more is None ==> row.who_can_add_members == was.who_can_add_members
            &&& row == (GroupEntity {
                name: row.name,
                who_can_post: row.who_can_post,
                who_can_add_members: row.who_can_add_members,
                ..was
            })
        }
    } by {
        lemma_group_pos(store.group_rows@, id@);
        lemma_only_group(*store, id@, i);
    }
}

/// Groups that are not named are marked deleted and nothing else; those that are named stay.
pub proof fn law_deleted_except(ids: &Vec<String>, i: int)
    ensures
        forall|store: &mut LocalStore|
            store.wf() && 0 <= i < store.group_rows@.len() && #[trigger] call_ensures(
                LocalStore::mark_groups_deleted_except,
                (store, ids),
                (),
            ) ==> final(store).group_rows@.len() == store.group_rows@.len()
                && final(store).group_rows@[i] == (if exists|k: int|
                0 <= k < ids@.len() && (#[trigger] ids@[k])@ == store.group_rows@[i].id@ {
                store.group_rows@[i]
            } else {
                GroupEntity { is_deleted: true, ..store.group_rows@[i] }
            }),
        forall|store: &mut LocalStore|
            store.wf() && 0 <= i < store.group_rows@.len() && #[trigger] call_ensures(
                LocalStore::mark_all_groups_deleted,
                (store,),
                (),
            ) ==> final(store).group_rows@.len() == store.group_rows@.len()
                && final(store).group_rows@[i] == (GroupEntity {
                is_deleted: true,
                ..store.group_rows@[i]
            }),
{
    assert forall|store: &mut LocalStore|
        store.wf() && 0 <= i < store.group_rows@.len() && #[trigger] call_ensures(
            LocalStore::mark_groups_deleted_except,
            (store, ids),
            (),
        ) implies final(store).group_rows@.len() == store.group_rows@.len()
        && final(store).group_rows@[i] == (if exists|k: int|
        0 <= k < ids@.len() && (#[trigger] ids@[k])@ == store.group_rows@[i].id@ {
        store.group_rows@[i]
    } else {
        GroupEntity { is_deleted: true, ..store.group_rows@[i] }
    }) by {
        let id = store.group_rows@[i].id@;
        if texts(ids@).contains(id) {
            let k = choose|k: int| 0 <= k < texts(ids@).len() && texts(ids@)[k] == id;
            assert(ids@[k]@ == id);
        }
        if exists|k: int| 0 <= k < ids@.len() && (#[trigger] ids@[k])@ == id {
            let k = choose|k: int| 0 <= k < ids@.len() && (#[trigger] ids@[k])@ == id;
            assert(texts(ids@)[k] == id);
        }
    }
}

proof fn lemma_unlisted(rows: Seq<GroupEntity>, list: Seq<GroupEntity>, i: int)
    requires
        groups_unique(rows),
        0 <= i < rows.len(),
    ensures
        groups_unique(upserted_all(rows, list)),
        upserted_all(rows, list).len() >= rows.len(),
        upserted_all(rows, list)[i].id@ == rows[i].id@,
        upserted_all(rows, list)[i].muted == rows[i].muted,
        upserted_all(rows, list)[i].last_read_seq >= rows[i].last_read_seq,
        (forall|k: int| 0 <= k < list.len() ==> (#[trigger] list[k]).id@ != rows[i].id@)
            ==> upserted_all(rows, list)[i] == rows[i],
    decreases list.len(),
{
    if list.len() > 0 {
        let front = list.drop_last();
        let g = list.last();
        lemma_unlisted(rows, front, i);
        let mid = upserted_all(rows, front);
        lemma_upsert_unique(mid, g);
        lemma_group_pos(mid, g.id@);
        if forall|k: int| 0 <= k < list.len() ==> (#[trigger] list[k]).id@ != rows[i].id@ {
            assert(list[list.len() - 1].id@ != rows[i].id@);
            assert forall|k: int| 0 <= k < front.len() implies (#[trigger] front[k]).id@
                != rows[i].id@ by {
                assert(list[k].id@ != rows[i].id@);
            }
        }
    }
}

proof fn lemma_listed(rows: Seq<GroupEntity>, list: Seq<GroupEntity>, k: int) -> (i: int)
    requires
        groups_unique(rows),
        0 <= k < list.len(),
        forall|a: int, b: int|
            0 <= a < b < list.len() ==> (#[trigger] list[a]).id@ != (#[trigger] list[b]).id@,
    ensures
        0 <= i < upserted_all(rows, list).len(),
        groups_unique(upserted_all(rows, list)),
        upserted_all(rows, list)[i].id@ == list[k].id@,
        upserted_all(rows, list)[i].name == list[k].name,
        upserted_all(rows, list)[i].my_role == list[k].my_role,
        upserted_all(rows, list)[i].member_count == list[k].member_count,
        upserted_all(rows, list)[i].who_can_post == list[k].who_can_post,
        !upserted_all(rows, list)[i].is_deleted,
    decreases list.len(),
{
    let front = list.drop_last();
    let g = list.last();
    let mid = upserted_all(rows, front);
    lemma_unique_all(rows, front);
    lemma_upsert_unique(mid, g);
    lemma_group_pos(mid, g.id@);
    let p = group_pos(mid, g.id@);
    if k == list.len() - 1 {
        p
    } else {
        assert forall|a: int, b: int| 0 <= a < b < front.len() implies (#[trigger] front[a]).id@ != (
        #[trigger] front[b]).id@ by {
            assert(list[a].id@ != list[b].id@);
        }
        let i = lemma_listed(rows, front, k);
        assert(list[k].id@ != list[list.len() - 1].id@);
        assert(front[k] == list[k]);
        assert(i != p);
        i
    }
}

proof fn lemma_unique_all(rows: Seq<GroupEntity>, list: Seq<GroupEntity>)
    requires
        groups_unique(rows),
    ensures
        groups_unique(upserted_all(rows, list)),
    decreases list.len(),
{
    if list.len() > 0 {
        lemma_unique_all(rows, list.drop_last());
        lemma_upsert_unique(upserted_all(rows, list.drop_last()), list.last());
    }
}

/// A full list of groups is taken over: each listed group is alive as the list has it, each group
/// that is not listed is marked deleted and otherwise stays, and what the user muted or read stays.
pub proof fn law_full_list(list: &Vec<GroupEntity>, k: int, i: int)
    requires
        forall|a: int, b: int|
            0 <= a < b < list@.len() ==> (#[trigger] list@[a]).id@ != (#[trigger] list@[b]).id@,
    ensures
        forall|store: &mut LocalStore|
            store.wf() && #[trigger] call_ensures(LocalStore::reconcile_groups, (store, list), ())
                ==> list_taken_over(*store, *final(store), list@, k, i),
{
    assert forall|store: &mut LocalStore|
        store.wf() && #[trigger] call_ensures(
            LocalStore::reconcile_groups,
            (store, list),
            (),
        ) implies list_taken_over(*store, *final(store), list@, k, i) by {
        lemma_taken_over(*store, *final(store), list@, k, i);
    }
}

/// The tables before and after a full list was taken over.
pub proof fn lemma_taken_over(s: LocalStore, t: LocalStore, list: Seq<GroupEntity>, k: int, i: int)
    requires
        s.wf(),
        t.group_rows@ == deleted_except(upserted_all(s.group_rows@, list), ids_of(list)),
        t.rest_of_groups(s),
        forall|a: int, b: int|
            0 <= a < b < list.len() ==> (#[trigger] list[a]).id@ != (#[trigger] list[b]).id@,
    ensures
        list_taken_over(s, t, list, k, i),
{
    let rows = s.group_rows@;
    let new = t.group_rows@;
    let ids = ids_of(list);
    if 0 <= k < list.len() {
        let j = lemma_listed(rows, list, k);
        assert(ids[k] == list[k].id@);
        assert(ids.contains(list[k].id@));
        assert(new[j].id@ == list[k].id@);
    }
    if 0 <= i < rows.len() {
        lemma_unlisted(rows, list, i);
        if ids.contains(rows[i].id@) {
            let m = choose|m: int| 0 <= m < ids.len() && ids[m] == rows[i].id@;
            assert(list[m].id@ == rows[i].id@);
        }
    }
}

/// What a full list leaves: a row for the group at `k` of the list, and of the row at `i`.
pub open spec fn list_taken_over(
    s: LocalStore,
    t: LocalStore,
    list: Seq<GroupEntity>,
    k: int,
    i: int,
) -> bool {
    &&& 0 <= k < list.len() ==> exists|j: int|
        0 <= j < t.group_rows@.len() && (#[trigger] t.group_rows@[j]).id@ == list[k].id@
            && t.group_rows@[j].name == list[k].name && t.group_rows@[j].my_role == list[k].my_role
            && t.group_rows@[j].member_count == list[k].member_count && t.group_rows@[j].who_can_post
            == list[k].who_can_post && !t.group_rows@[j].is_deleted
    &&& 0 <= i < s.group_rows@.len() ==> {
        &&& t.group_rows@[i].id@ == s.group_rows@[i].id@
        &&& t.group_rows@[i].muted == s.group_rows@[i].muted
        &&& t.group_rows@[i].last_read_seq >= s.group_rows@[i].last_read_seq
        &&& (forall|m: int| 0 <= m < list.len() ==> (#[trigger] list[m]).id@ != s.group_rows@[i].id@)
            ==> t.group_rows@[i] == (GroupEntity { is_deleted: true, ..s.group_rows@[i] })
    }
    &&& t.message_rows == s.message_rows
    &&& t.member_rows == s.member_rows
    &&& t.outbox_rows == s.outbox_rows
}

/// A row of a deleted group goes with the group, and every other row stays.
pub proof fn law_purge(n: usize, g: GroupEntity, m: MessageEntity, e: OutboxEntity, p: MemberEntity)
    ensures
        forall|store: &mut LocalStore|
            store.wf() && #[trigger] call_ensures(LocalStore::purge_deleted_groups, (store,), n) ==> {
                &&& final(store).group_rows@.contains(g) <==> store.group_rows@.contains(g)
                    && !g.is_deleted
                &&& final(store).message_rows@.contains(m) <==> store.message_rows@.contains(m)
                    && !group_deleted(*store, m.group_id@)
                &&& final(store).outbox_rows@.contains(e) <==> store.outbox_rows@.contains(e)
                    && !group_deleted(*store, e.group_id@)
                &&& final(store).member_rows@.contains(p) <==> store.member_rows@.contains(p)
                    && !group_deleted(*store, p.group_id@)
                &&& n + final(store).group_rows@.len() == store.group_rows@.len()
            },
{
    assert forall|store: &mut LocalStore|
        store.wf() && #[trigger] call_ensures(
            LocalStore::purge_deleted_groups,
            (store,),
            n,
        ) implies {
        &&& final(store).group_rows@.contains(g) <==> store.group_rows@.contains(g) && !g.is_deleted
        &&& final(store).message_rows@.contains(m) <==> store.message_rows@.contains(m)
            && !group_deleted(*store, m.group_id@)
        &&& final(store).outbox_rows@.contains(e) <==> store.outbox_rows@.contains(e)
            && !group_deleted(*store, e.group_id@)
        &&& final(store).member_rows@.contains(p) <==> store.member_rows@.contains(p)
            && !group_deleted(*store, p.group_id@)
        &&& n + final(store).group_rows@.len() == store.group_rows@.len()
    } by {
        let groups = store.group_rows@;
        let f = |r: GroupEntity| !r.is_deleted;
        lemma_kept(groups, f, g);
        let fm = |x: MessageEntity| !doomed(store.group_rows@, x.group_id@);
        lemma_kept(store.message_rows@, fm, m);
        let fe = |x: OutboxEntity| !doomed(store.group_rows@, x.group_id@);
        lemma_kept(store.outbox_rows@, fe, e);
        let fp = |x: MemberEntity| !doomed(groups, x.group_id@);
        lemma_kept(store.member_rows@, fp, p);
    }
}

/// The group with this id is marked deleted.
pub open spec fn group_deleted(s: LocalStore, id: Seq<char>) -> bool {
    exists|i: int|
        0 <= i < s.group_rows@.len() && (#[trigger] s.group_rows@[i]).id@ == id
            && s.group_rows@[i].is_deleted
}

proof fn lemma_kept<T>(s: Seq<T>, p: spec_fn(T) -> bool, x: T)
    ensures
        s.filter(p).contains(x) <==> s.contains(x) && p(x),
{
    if s.contains(x) && p(x) {
        let k = choose|k: int| 0 <= k < s.len() && s[k] == x;
        lemma_filter_has(s, p, k);
    }
    if s.filter(p).contains(x) {
        lemma_filter_from(s, p, x);
    }
}

/// Which of some ids, and of some places, a group's stored messages have.
pub proof fn law_what_exists(
    store: &LocalStore,
    group: &str,
    ids: &Vec<String>,
    seqs: &Vec<i64>,
    a: Vec<String>,
    b: Vec<i64>,
    id: Seq<char>,
    seq: i64,
)
    requires
        call_ensures(LocalStore::message_ids_exist, (store, group, ids), a),
        call_ensures(LocalStore::seqs_exist, (store, group, seqs), b),
    ensures
        texts(a@).contains(id) <==> texts(ids@).contains(id) && exists|i: int|
            0 <= i < store.message_rows@.len() && (#[trigger] store.message_rows@[i]).id@ == id
                && store.message_rows@[i].group_id@ == group@,
        b@.contains(seq) <==> seqs@.contains(seq) && exists|i: int|
            0 <= i < store.message_rows@.len() && (#[trigger] store.message_rows@[i]).seq == seq
                && store.message_rows@[i].group_id@ == group@,
{
    lemma_ids_in(store.message_rows@, group@, id);
    lemma_seqs_in(store.message_rows@, group@, seq);
}

} // verus!
