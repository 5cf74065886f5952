//! Operations on the group table.

use crate::models::{Permission, Role};
use crate::reconcile::has_text;
use crate::sorting::{in_order, law_text_order_total, sorted, text_up_to, Keyed, SortKey};
use crate::store::local::{
    group_known, group_pos, groups_unique, lemma_group_pos, log, members_attached, LocalStore,
};
use crate::store::{
    or_i64, value_or, Change, GroupEntity, GroupWithUnread, MessageEntity, StoreChange,
};
use crate::text::{same, texts};
use vstd::prelude::*;

verus! {

/// When something last happened in the group.
pub open spec fn activity(g: GroupEntity) -> i64 {
    or_i64(g.last_activity_at, g.created_at)
}

impl Keyed for GroupEntity {
    /// Latest activity first, then by name.
    open spec fn key(self) -> SortKey {
        (-(activity(self) as int), self.name@, Seq::empty(), 0)
    }

    fn up_to(&self, other: &Self) -> (r: bool) {
        let a: i64 = value_or(self.last_activity_at, self.created_at);
        let b: i64 = value_or(other.last_activity_at, other.created_at);
        proof {
            law_text_order_total(self.name@, self.name@);
        }
        a > b || (a == b && text_up_to(self.name.as_str(), other.name.as_str()))
    }
}

/// The groups that are not deleted.
pub open spec fn live_groups(g: Seq<GroupEntity>) -> Seq<GroupEntity> {
    g.filter(|r: GroupEntity| !r.is_deleted)
}

/// The first present of two options.
pub open spec fn coalesce<T>(a: Option<T>, b: Option<T>) -> Option<T> {
    if a is Some {
        a
    } else {
        b
    }
}

/// The larger of two numbers.
pub open spec fn larger(a: i64, b: i64) -> i64 {
    if a >= b {
        a
    } else {
        b
    }
}

/// A stored group merged with what the server says of it: local marks stay, and the read position
/// never goes back.
pub open spec fn merged_group(stored: GroupEntity, g: GroupEntity) -> GroupEntity {
    GroupEntity {
        id: stored.id,
        name: g.name,
        category: g.category,
        kind: g.kind,
        who_can_post: g.who_can_post,
        who_can_add_members: g.who_can_add_members,
        created_by: coalesce(g.created_by, stored.created_by),
        created_at: g.created_at,
        my_role: g.my_role,
        member_count: g.member_count,
        muted: stored.muted,
        last_activity_at: coalesce(g.last_activity_at, stored.last_activity_at),
        last_message_preview: coalesce(g.last_message_preview, stored.last_message_preview),
        is_deleted: false,
        last_read_seq: larger(stored.last_read_seq, g.last_read_seq),
    }
}

/// The group table after `g` was stored.
pub open spec fn upserted(rows: Seq<GroupEntity>, g: GroupEntity) -> Seq<GroupEntity> {
    let p = group_pos(rows, g.id@);
    if p < rows.len() {
        rows.update(p, merged_group(rows[p], g))
    } else {
        rows.push(GroupEntity { is_deleted: false, ..g })
    }
}

/// The group table after every group of a list was stored, in order.
pub open spec fn upserted_all(rows: Seq<GroupEntity>, list: Seq<GroupEntity>) -> Seq<GroupEntity>
    decreases list.len(),
{
    if list.len() == 0 {
        rows
    } else {
        upserted(upserted_all(rows, list.drop_last()), list.last())
    }
}

/// The group table with every group not named in `ids` marked deleted.
pub open spec fn deleted_except(rows: Seq<GroupEntity>, ids: Seq<Seq<char>>) -> Seq<GroupEntity> {
    Seq::new(
        rows.len(),
        |i: int|
            if ids.contains(rows[i].id@) {
                rows[i]
            } else {
                GroupEntity { is_deleted: true, ..rows[i] }
            },
    )
}

/// The ids of a list of groups.
pub open spec fn ids_of(list: Seq<GroupEntity>) -> Seq<Seq<char>> {
    Seq::new(list.len(), |i: int| list[i].id@)
}

/// `id` names a group that is marked deleted.
pub open spec fn doomed(rows: Seq<GroupEntity>, id: Seq<char>) -> bool {
    exists|i: int| 0 <= i < rows.len() && (#[trigger] rows[i]).id@ == id && rows[i].is_deleted
}

/// Number of stored messages of a group beyond the read position that others sent.
pub open spec fn unread_of(
    messages: Seq<MessageEntity>,
    g: GroupEntity,
    self_user: Seq<char>,
) -> nat
    decreases messages.len(),
{
    if messages.len() == 0 {
        0
    } else {
        let m = messages.last();
        unread_of(messages.drop_last(), g, self_user) + if m.group_id@ == g.id@ && m.seq
            > g.last_read_seq && m.sender_id@ != self_user {
            1nat
        } else {
            0nat
        }
    }
}

/// The highest stored seq of a group.
pub open spec fn max_seq_of(messages: Seq<MessageEntity>, group: Seq<char>) -> Option<i64>
    decreases messages.len(),
{
    if messages.len() == 0 {
        None
    } else {
        let before = max_seq_of(messages.drop_last(), group);
        let m = messages.last();
        if m.group_id@ != group {
            before
        } else {
            match before {
                Some(s) => Some(larger(s, m.seq)),
                None => Some(m.seq),
            }
        }
    }
}

/// The group table with the read position of a group moved up to `seq`, never back.
pub open spec fn read_up_to(rows: Seq<GroupEntity>, id: Seq<char>, seq: i64) -> Seq<GroupEntity> {
    let p = group_pos(rows, id);
    if p < rows.len() {
        rows.update(
            p,
            GroupEntity { last_read_seq: larger(rows[p].last_read_seq, seq), ..rows[p] },
        )
    } else {
        rows
    }
}

/// The group table with a group marked deleted.
pub open spec fn with_group_deleted(rows: Seq<GroupEntity>, id: Seq<char>) -> Seq<GroupEntity> {
    let p = group_pos(rows, id);
    if p < rows.len() {
        rows.update(p, GroupEntity { is_deleted: true, ..rows[p] })
    } else {
        rows
    }
}

/// The group table with the member count of a group moved by `delta`.
pub open spec fn with_count_moved(rows: Seq<GroupEntity>, id: Seq<char>, delta: i64) -> Seq<
    GroupEntity,
> {
    let p = group_pos(rows, id);
    if p < rows.len() {
        rows.update(
            p,
            GroupEntity { member_count: clamped_sum(rows[p].member_count, delta), ..rows[p] },
        )
    } else {
        rows
    }
}

/// The group table with the user's role in a group set.
pub open spec fn with_my_role(rows: Seq<GroupEntity>, id: Seq<char>, role: Role) -> Seq<GroupEntity> {
    let p = group_pos(rows, id);
    if p < rows.len() {
        rows.update(p, GroupEntity { my_role: role, ..rows[p] })
    } else {
        rows
    }
}

/// `new` is the group table with the given settings of a group replaced.
pub open spec fn with_settings(
    rows: Seq<GroupEntity>,
    id: Seq<char>,
    name: Option<Seq<char>>,
    post: Option<Permission>,
    add: Option<Permission>,
    new: Seq<GroupEntity>,
) -> bool {
    let p = group_pos(rows, id);
    &&& new.len() == rows.len()
    &&& forall|i: int| 0 <= i < rows.len() && i != p ==> new[i] == rows[i]
    &&& p < rows.len() ==> {
        &&& new[p] == (GroupEntity {
            name: new[p].name,
            who_can_post: match post {
                Some(w) => w,
                None => rows[p].who_can_post,
            },
            who_can_add_members: match add {
                Some(w) => w,
                None => rows[p].who_can_add_members,
            },
            ..rows[p]
        })
        &&& new[p].name@ == (match name {
            Some(n) => n,
            None => rows[p].name@,
        })
    }
}

impl LocalStore {
    /// Insert a group, or merge what the server says into the stored row.
    pub fn upsert_group(&mut self, g: &GroupEntity)
        requires
            old(self).wf(),
        ensures
            final(self).wf(),
            final(self).group_rows@ == upserted(old(self).group_rows@, *g),
            final(self).rest_of_groups(*old(self)),
            log(final(self).changes@) == log(old(self).changes@).push(Change::Groups),
    {
        self.merge_group(g);
        self.notify(StoreChange::Groups);
    }

    fn merge_group(&mut self, g: &GroupEntity)
        requires
            old(self).wf(),
        ensures
            final(self).wf(),
            final(self).group_rows@ == upserted(old(self).group_rows@, *g),
            final(self).rest_of_groups(*old(self)),
            final(self).changes == old(self).changes,
    {
        proof {
            lemma_group_pos(self.group_rows@, g.id@);
        }
        match self.find_group(g.id.as_str()) {
            Some(i) => {
                let stored = self.group_rows[i].clone();
                let created_by = match &g.created_by {
                    Some(c) => Some(c.clone()),
                    None => stored.created_by.clone(),
                };
                let last_activity_at = match g.last_activity_at {
                    Some(t) => Some(t),
                    None => stored.last_activity_at,
                };
                let last_message_preview = match &g.last_message_preview {
                    Some(p) => Some(p.clone()),
                    None => stored.last_message_preview.clone(),
                };
                let row = GroupEntity {
                    id: stored.id.clone(),
                    name: g.name.clone(),
                    category: g.category.clone(),
                    kind: g.kind,
                    who_can_post: g.who_can_post.clone(),
                    who_can_add_members: g.who_can_add_members.clone(),
                    created_by,
                    created_at: g.created_at,
                    my_role: g.my_role,
                    member_count: g.member_count,
                    muted: stored.muted,
                    last_activity_at,
                    last_message_preview,
                    is_deleted: false,
                    last_read_seq: if stored.last_read_seq >= g.last_read_seq {
                        stored.last_read_seq
                    } else {
                        g.last_read_seq
                    },
                };
                self.put_group(i, row);
            },
            None => {
                let mut row = g.clone();
                row.is_deleted = false;
                let ghost before = self.group_rows@;
                self.group_rows.push(row);
                assert(groups_unique(self.group_rows@)) by {
                    assert forall|a: int, b: int| 0 <= a < b < self.group_rows@.len() implies (
                    #[trigger] self.group_rows@[a]).id@ != (#[trigger] self.group_rows@[b]).id@ by {
                        assert(self.group_rows@[a] == before[a]);
                        if b < before.len() {
                            assert(self.group_rows@[b] == before[b]);
                        }
                    }
                }
                assert(members_attached(self.group_rows@, self.member_rows@)) by {
                    assert forall|k: int| 0 <= k < self.member_rows@.len() implies group_known(
                        self.group_rows@,
                        (#[trigger] self.member_rows@[k]).group_id@,
                    ) by {
                        let id = self.member_rows@[k].group_id@;
                        assert(group_known(before, id));
                        let i = choose|i: int| 0 <= i < before.len() && (#[trigger] before[i]).id@ == id;
                        assert(self.group_rows@[i].id@ == id);
                    }
                }
            },
        }
    }

    /// The row of a group, deleted or not.
    pub fn get_group(&self, id: &str) -> (r: Option<GroupEntity>)
        ensures
            r == (if group_pos(self.group_rows@, id@) < self.group_rows@.len() {
                Some(self.group_rows@[group_pos(self.group_rows@, id@)])
            } else {
                None
            }),
    {
        match self.find_group(id) {
            Some(i) => Some(self.group_rows[i].clone()),
            None => None,
        }
    }

    /// All groups that are not deleted, latest activity first.
    pub fn groups(&self) -> (r: Vec<GroupEntity>)
        ensures
            in_order(r@),
            r@.to_multiset() == live_groups(self.group_rows@).to_multiset(),
            r@.len() == live_groups(self.group_rows@).len(),
    {
        let mut live: Vec<GroupEntity> = Vec::new();
        let mut i: usize = 0;
        proof {
            reveal(Seq::filter);
            assert(live_groups(self.group_rows@.take(0)) =~= Seq::empty());
        }
        while i < self.group_rows.len()
            invariant
                i <= self.group_rows.len(),
                live@ == live_groups(self.group_rows@.take(i as int)),
            decreases self.group_rows.len() - i,
        {
            proof {
                reveal(Seq::filter);
                assert(self.group_rows@.take(i + 1).drop_last() =~= self.group_rows@.take(i as int));
            }
            if !self.group_rows[i].is_deleted {
                live.push(self.group_rows[i].clone());
            }
            i += 1;
        }
        assert(self.group_rows@.take(i as int) =~= self.group_rows@);
        sorted(live)
    }

    fn count_unread(&self, g: &GroupEntity, self_user_id: &str) -> (n: usize)
        ensures
            n == unread_of(self.message_rows@, *g, self_user_id@),
    {
        let mut n: usize = 0;
        let mut i: usize = 0;
        assert(self.message_rows@.take(0) =~= Seq::empty());
        while i < self.message_rows.len()
            invariant
                n <= i <= self.message_rows.len(),
                n == unread_of(self.message_rows@.take(i as int), *g, self_user_id@),
            decreases self.message_rows.len() - i,
        {
            let m = &self.message_rows[i];
            assert(self.message_rows@.take(i + 1).drop_last() =~= self.message_rows@.take(i as int));
            if same(m.group_id.as_str(), g.id.as_str()) && m.seq > g.last_read_seq && !same(
                m.sender_id.as_str(),
                self_user_id,
            ) {
                n += 1;
            }
            i += 1;
        }
        assert(self.message_rows@.take(i as int) =~= self.message_rows@);
        n
    }

    /// The groups that are not deleted, with unread counts: messages beyond the read position that
    /// `self_user_id` did not send.
    pub fn groups_with_unread(&self, self_user_id: &str) -> (r: Vec<GroupWithUnread>)
        ensures
            exists|order: Seq<GroupEntity>|
                {
                    &&& #[trigger] in_order(order)
                    &&& order.to_multiset() == live_groups(self.group_rows@).to_multiset()
                    &&& order.len() == r@.len()
                    &&& forall|i: int|
                        0 <= i < r@.len() ==> {
                            &&& (#[trigger] r@[i]).group == order[i]
                            &&& r@[i].unread_count == unread_of(
                                self.message_rows@,
                                order[i],
                                self_user_id@,
                            ) as i64
                            &&& r@[i].max_seq == max_seq_of(self.message_rows@, order[i].id@)
                        }
                },
    {
        let order = self.groups();
        let mut out: Vec<GroupWithUnread> = Vec::new();
        let mut i: usize = 0;
        while i < order.len()
            invariant
                i <= order.len(),
                out@.len() == i,
                forall|k: int|
                    0 <= k < i ==> {
                        &&& (#[trigger] out@[k]).group == order@[k]
                        &&& out@[k].unread_count == unread_of(
                            self.message_rows@,
                            order@[k],
                            self_user_id@,
                        ) as i64
                        &&& out@[k].max_seq == max_seq_of(self.message_rows@, order@[k].id@)
                    },
            decreases order.len() - i,
        {
            let n: usize = self.count_unread(&order[i], self_user_id);
            let max_seq = self.max_seq(order[i].id.as_str());
            out.push(
                GroupWithUnread { group: order[i].clone(), unread_count: n as i64, max_seq },
            );
            i += 1;
        }
        assert(in_order(order@));
        out
    }

    /// Move the read position of a group forward; it never goes back.
    pub fn mark_read(&mut self, group_id: &str, seq: i64)
        requires
            old(self).wf(),
        ensures
            final(self).wf(),
            final(self).group_rows@ == read_up_to(old(self).group_rows@, group_id@, seq),
            final(self).rest_of_groups(*old(self)),
            log(final(self).changes@) == log(old(self).changes@).push(Change::Groups),
    {
        match self.find_group(group_id) {
            Some(i) => {
                let mut row = self.group_rows[i].clone();
                if row.last_read_seq < seq {
                    row.last_read_seq = seq;
                }
                self.put_group(i, row);
            },
            None => {},
        }
        self.notify(StoreChange::Groups);
    }

    /// Mark one group deleted.
    pub fn mark_group_deleted(&mut self, id: &str)
        requires
            old(self).wf(),
        ensures
            final(self).wf(),
            final(self).group_rows@ == with_group_deleted(old(self).group_rows@, id@),
            final(self).rest_of_groups(*old(self)),
            log(final(self).changes@) == log(old(self).changes@).push(Change::Groups),
    {
        match self.find_group(id) {
            Some(i) => {
                let mut row = self.group_rows[i].clone();
                row.is_deleted = true;
                self.put_group(i, row);
            },
            None => {},
        }
        self.notify(StoreChange::Groups);
    }

    fn delete_except(&mut self, ids: &Vec<String>)
        requires
            old(self).wf(),
        ensures
            final(self).wf(),
            final(self).group_rows@ == deleted_except(old(self).group_rows@, texts(ids@)),
            final(self).rest_of_groups(*old(self)),
            final(self).changes == old(self).changes,
    {
        let ghost rows = self.group_rows@;
        let ghost target = deleted_except(rows, texts(ids@));
        let mut i: usize = 0;
        while i < self.group_rows.len()
            invariant
                self.wf(),
                i <= self.group_rows.len() == rows.len(),
                target == deleted_except(rows, texts(ids@)),
                forall|k: int| 0 <= k < i ==> self.group_rows@[k] == target[k],
                forall|k: int| i <= k < rows.len() ==> self.group_rows@[k] == rows[k],
                self.rest_of_groups(*old(self)),
                self.changes == old(self).changes,
            decreases self.group_rows.len() - i,
        {
            if !has_text(ids, &self.group_rows[i].id) {
                let mut row = self.group_rows[i].clone();
                row.is_deleted = true;
                self.put_group(i, row);
            }
            i += 1;
        }
        assert(self.group_rows@ =~= target);
    }

    /// Mark every group deleted.
    pub fn mark_all_groups_deleted(&mut self)
        requires
            old(self).wf(),
        ensures
            final(self).wf(),
            final(self).group_rows@ == deleted_except(old(self).group_rows@, seq![]),
            final(self).rest_of_groups(*old(self)),
            log(final(self).changes@) == log(old(self).changes@).push(Change::Groups),
    {
        let none: Vec<String> = Vec::new();
        assert(texts(none@) =~= seq![]);
        self.delete_except(&none);
        self.notify(StoreChange::Groups);
    }

    /// Mark every group deleted that `ids` does not name.
    pub fn mark_groups_deleted_except(&mut self, ids: &Vec<String>)
        requires
            old(self).wf(),
        ensures
            final(self).wf(),
            final(self).group_rows@ == deleted_except(old(self).group_rows@, texts(ids@)),
            final(self).rest_of_groups(*old(self)),
            log(final(self).changes@) == log(old(self).changes@).push(Change::Groups),
    {
        self.delete_except(ids);
        self.notify(StoreChange::Groups);
    }

    /// Mute or unmute a group.
    pub fn set_muted(&mut self, id: &str, muted: bool)
        requires
            old(self).wf(),
        ensures
            final(self).wf(),
            final(self).group_rows@ == ({
                let rows = old(self).group_rows@;
                let p = group_pos(rows, id@);
                if p < rows.len() {
                    rows.update(p, GroupEntity { muted, ..rows[p] })
                } else {
                    rows
                }
            }),
            final(self).rest_of_groups(*old(self)),
            log(final(self).changes@) == log(old(self).changes@).push(Change::Groups),
    {
        match self.find_group(id) {
            Some(i) => {
                let mut row = self.group_rows[i].clone();
                row.muted = muted;
                self.put_group(i, row);
            },
            None => {},
        }
        self.notify(StoreChange::Groups);
    }

    /// Store every listed group and mark every other one deleted.
    pub fn reconcile_groups(&mut self, groups: &Vec<GroupEntity>)
        requires
            old(self).wf(),
        ensures
            final(self).wf(),
            final(self).group_rows@ == deleted_except(
                upserted_all(old(self).group_rows@, groups@),
                ids_of(groups@),
            ),
            final(self).rest_of_groups(*old(self)),
            log(final(self).changes@) == log(old(self).changes@).push(Change::Groups),
    {
        let mut ids: Vec<String> = Vec::new();
        let mut i: usize = 0;
        assert(groups@.take(0) =~= Seq::empty());
        while i < groups.len()
            invariant
                self.wf(),
                i <= groups.len(),
                ids@.len() == i,
                forall|k: int| 0 <= k < i ==> (#[trigger] ids@[k])@ == groups@[k].id@,
                self.group_rows@ == upserted_all(old(self).group_rows@, groups@.take(i as int)),
                self.rest_of_groups(*old(self)),
                self.changes == old(self).changes,
            decreases groups.len() - i,
        {
            assert(groups@.take(i + 1).drop_last() =~= groups@.take(i as int));
            self.merge_group(&groups[i]);
            ids.push(groups[i].id.clone());
            i += 1;
        }
        assert(groups@.take(i as int) =~= groups@);
        assert(texts(ids@) =~= ids_of(groups@));
        self.delete_except(&ids);
        self.notify(StoreChange::Groups);
    }

    /// Apply a change of a group's name or permissions; what is absent stays.
    pub fn apply_group_updated(
        &mut self,
        id: &str,
        name: Option<&str>,
        who_can_post: Option<&Permission>,
        who_can_add_members: Option<&Permission>,
    )
        requires
            old(self).wf(),
        ensures
            final(self).wf(),
            with_settings(
                old(self).group_rows@,
                id@,
                match name {
                    Some(n) => Some(n@),
                    None => None,
                },
                match who_can_post {
                    Some(w) => Some(*w),
                    None => None,
                },
                match who_can_add_members {
                    Some(w) => Some(*w),
                    None => None,
                },
                final(self).group_rows@,
            ),
            final(self).rest_of_groups(*old(self)),
            log(final(self).changes@) == log(old(self).changes@).push(Change::Groups),
    {
        match self.find_group(id) {
            Some(i) => {
                let mut row = self.group_rows[i].clone();
                match name {
                    Some(n) => {
                        row.name = n.to_owned();
                    },
                    None => {},
                }
                match who_can_post {
                    Some(w) => {
                        row.who_can_post = w.clone();
                    },
                    None => {},
                }
                match who_can_add_members {
                    Some(w) => {
                        row.who_can_add_members = w.clone();
                    },
                    None => {},
                }
                self.put_group(i, row);
            },
            None => {},
        }
        self.notify(StoreChange::Groups);
    }

    /// Change the member count of a group by `delta`; it never drops below zero.
    pub fn set_group_member_count(&mut self, id: &str, delta: i64)
        requires
            old(self).wf(),
        ensures
            final(self).wf(),
            final(self).group_rows@ == with_count_moved(old(self).group_rows@, id@, delta),
            final(self).rest_of_groups(*old(self)),
            log(final(self).changes@) == log(old(self).changes@).push(Change::Groups),
    {
        match self.find_group(id) {
            Some(i) => {
                let mut row = self.group_rows[i].clone();
                let sum: i128 = row.member_count as i128 + delta as i128;
                row.member_count = if sum < 0 {
                    0
                } else if sum > 0x7fff_ffff_ffff_ffff {
                    0x7fff_ffff_ffff_ffff
                } else {
                    sum as i64
                };
                self.put_group(i, row);
            },
            None => {},
        }
        self.notify(StoreChange::Groups);
    }

    /// Set the signed-in user's role in a group.
    pub fn set_my_role(&mut self, id: &str, role: Role)
        requires
            old(self).wf(),
        ensures
            final(self).wf(),
            final(self).group_rows@ == with_my_role(old(self).group_rows@, id@, role),
            final(self).rest_of_groups(*old(self)),
            log(final(self).changes@) == log(old(self).changes@).push(Change::Groups),
    {
        match self.find_group(id) {
            Some(i) => {
                let mut row = self.group_rows[i].clone();
                row.my_role = role;
                self.put_group(i, row);
            },
            None => {},
        }
        self.notify(StoreChange::Groups);
    }
}

/// A count changed by `delta`, kept within what a count can be.
pub open spec fn clamped_sum(n: i64, delta: i64) -> i64 {
    if n + delta < 0 {
        0
    } else if n + delta > i64::MAX {
        i64::MAX
    } else {
        (n + delta) as i64
    }
}

/// Storing a group again never moves its read position back and keeps it muted or not.
pub proof fn law_upsert_keeps_local_marks(stored: GroupEntity, g: GroupEntity)
    ensures
        merged_group(stored, g).last_read_seq >= stored.last_read_seq,
        merged_group(stored, g).last_read_seq >= g.last_read_seq,
        merged_group(stored, g).muted == stored.muted,
        !merged_group(stored, g).is_deleted,
{
}

/// After a reconciliation exactly the listed groups are alive.
pub proof fn law_reconciled_groups(rows: Seq<GroupEntity>, list: Seq<GroupEntity>, i: int)
    requires
        groups_unique(rows),
        0 <= i < upserted_all(rows, list).len(),
    ensures
        ({
            let r = deleted_except(upserted_all(rows, list), ids_of(list));
            !r[i].is_deleted <==> ids_of(list).contains(r[i].id@)
        }),
{
    lemma_listed_alive(rows, list);
    let u = upserted_all(rows, list);
    if ids_of(list).contains(u[i].id@) {
        let k = choose|k: int| 0 <= k < ids_of(list).len() && ids_of(list)[k] == u[i].id@;
        assert(list[k].id@ == u[i].id@);
    }
}

pub proof fn lemma_upsert_unique(rows: Seq<GroupEntity>, g: GroupEntity)
    requires
        groups_unique(rows),
    ensures
        groups_unique(upserted(rows, g)),
        forall|i: int| 0 <= i < rows.len() ==> (#[trigger] upserted(rows, g)[i]).id@ == rows[i].id@,
        upserted(rows, g).len() >= rows.len(),
{
    lemma_group_pos(rows, g.id@);
    let u = upserted(rows, g);
    assert forall|a: int, b: int| 0 <= a < b < u.len() implies (#[trigger] u[a]).id@ != (
    #[trigger] u[b]).id@ by {
        if b < rows.len() {
            assert(rows[a].id@ != rows[b].id@);
        } else {
            assert(rows[a].id@ != g.id@);
        }
    }
}

proof fn lemma_listed_alive(rows: Seq<GroupEntity>, list: Seq<GroupEntity>)
    requires
        groups_unique(rows),
    ensures
        groups_unique(upserted_all(rows, list)),
        forall|i: int, k: int|
            0 <= i < upserted_all(rows, list).len() && 0 <= k < list.len() && (
            #[trigger] upserted_all(rows, list)[i]).id@ == (#[trigger] list[k]).id@
                ==> !upserted_all(rows, list)[i].is_deleted,
    decreases list.len(),
{
    if list.len() > 0 {
        let head = list.drop_last();
        let before = upserted_all(rows, head);
        let g = list.last();
        lemma_listed_alive(rows, head);
        lemma_upsert_unique(before, g);
        lemma_group_pos(before, g.id@);
        let u = upserted_all(rows, list);
        assert forall|i: int, k: int|
            0 <= i < u.len() && 0 <= k < list.len() && (#[trigger] u[i]).id@ == (
            #[trigger] list[k]).id@ implies !u[i].is_deleted by {
            if u[i].id@ == g.id@ {
                let p = group_pos(before, g.id@);
                if p < before.len() {
                    assert(u[p].id@ == g.id@);
                    if i < p {
                        assert(u[i].id@ != u[p].id@);
                    } else if p < i {
                        assert(u[p].id@ != u[i].id@);
                    }
                } else if i < before.len() {
                    assert(before[i].id@ == u[i].id@);
                }
            } else {
                assert(k < head.len());
                assert(head[k] == list[k]);
                assert(i < before.len());
                assert(u[i] == before[i]);
            }
        }
    }
}

} // verus!
