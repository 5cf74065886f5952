//! Operations on the member table.

use crate::error::AppError;
use crate::models::Role;
use crate::sorting::{in_order, law_text_order_total, sorted, text_up_to, Keyed, SortKey};
use crate::store::local::{
    group_known, group_pos, lemma_group_pos, lemma_member_row_pos, log, member_row_pos,
    members_attached, members_unique, LocalStore,
};
use crate::store::{Change, GroupEntity, MemberEntity, StoreChange};
use crate::text::same;
use vstd::prelude::*;

verus! {

/// What the store says where a member names a group that is not known.
pub const NO_GROUP: &'static str = "FOREIGN KEY constraint failed";

/// The refusal of a member without a group.
pub open spec fn lacks_group(e: AppError) -> bool {
    e matches AppError::Store(m) && m@ == NO_GROUP@
}

impl Keyed for MemberEntity {
    /// First to join first, then by user id.
    open spec fn key(self) -> SortKey {
        (self.joined_at as int, self.user_id@, Seq::empty(), 0)
    }

    fn up_to(&self, other: &Self) -> (r: bool) {
        proof {
            law_text_order_total(self.user_id@, self.user_id@);
        }
        self.joined_at < other.joined_at || (self.joined_at == other.joined_at && text_up_to(
            self.user_id.as_str(),
            other.user_id.as_str(),
        ))
    }
}

/// The member table after `m` was stored: a known member's details are replaced.
pub open spec fn member_upserted(rows: Seq<MemberEntity>, m: MemberEntity) -> Seq<MemberEntity> {
    let p = member_row_pos(rows, m.group_id@, m.user_id@);
    if p < rows.len() {
        rows.update(p, MemberEntity { group_id: rows[p].group_id, user_id: rows[p].user_id, ..m })
    } else {
        rows.push(m)
    }
}

/// The member table after every member of a list was stored, in order.
pub open spec fn members_upserted(
    rows: Seq<MemberEntity>,
    list: Seq<MemberEntity>,
) -> Seq<MemberEntity>
    decreases list.len(),
{
    if list.len() == 0 {
        rows
    } else {
        member_upserted(members_upserted(rows, list.drop_last()), list.last())
    }
}

/// The member table without a member.
pub open spec fn without_member(
    rows: Seq<MemberEntity>,
    group: Seq<char>,
    user: Seq<char>,
) -> Seq<MemberEntity> {
    let p = member_row_pos(rows, group, user);
    if p < rows.len() {
        rows.remove(p)
    } else {
        rows
    }
}

/// The member table with the role of a member set.
pub open spec fn with_role(
    rows: Seq<MemberEntity>,
    group: Seq<char>,
    user: Seq<char>,
    role: Role,
) -> Seq<MemberEntity> {
    let p = member_row_pos(rows, group, user);
    if p < rows.len() {
        rows.update(p, MemberEntity { role, ..rows[p] })
    } else {
        rows
    }
}

/// The members that do not belong to a group.
pub open spec fn outside_group(rows: Seq<MemberEntity>, group: Seq<char>) -> Seq<MemberEntity> {
    rows.filter(|m: MemberEntity| m.group_id@ != group)
}

proof fn lemma_upserted_members(groups: Seq<GroupEntity>, rows: Seq<MemberEntity>, m: MemberEntity)
    requires
        members_unique(rows),
        members_attached(groups, rows),
        group_known(groups, m.group_id@),
    ensures
        members_unique(member_upserted(rows, m)),
        members_attached(groups, member_upserted(rows, m)),
{
    lemma_member_row_pos(rows, m.group_id@, m.user_id@);
    let p = member_row_pos(rows, m.group_id@, m.user_id@);
    let u = member_upserted(rows, m);
    assert forall|i: int, j: int| 0 <= i < j < u.len() implies !((#[trigger] u[i]).group_id@ == (
    #[trigger] u[j]).group_id@ && u[i].user_id@ == u[j].user_id@) by {
        if p < rows.len() {
            assert(!(rows[i].group_id@ == rows[j].group_id@ && rows[i].user_id@
                == rows[j].user_id@));
        } else {
            assert(u[i] == rows[i]);
            if j < rows.len() {
                assert(u[j] == rows[j]);
            }
        }
    }
    assert forall|i: int| 0 <= i < u.len() implies group_known(
        groups,
        (#[trigger] u[i]).group_id@,
    ) by {
        if i < rows.len() {
            assert(u[i].group_id@ == rows[i].group_id@);
            assert(group_known(groups, rows[i].group_id@));
        }
    }
}

proof fn lemma_outside(groups: Seq<GroupEntity>, rows: Seq<MemberEntity>, group: Seq<char>)
    requires
        members_unique(rows),
        members_attached(groups, rows),
    ensures
        members_unique(outside_group(rows, group)),
        members_attached(groups, outside_group(rows, group)),
        forall|i: int|
            0 <= i < outside_group(rows, group).len() ==> rows.contains(
                #[trigger] outside_group(rows, group)[i],
            ),
    decreases rows.len(),
{
    reveal(Seq::filter);
    if rows.len() > 0 {
        let head = rows.drop_last();
        let f = outside_group(head, group);
        let g = outside_group(rows, group);
        assert(members_unique(head)) by {
            assert forall|i: int, j: int| 0 <= i < j < head.len() implies !((#[trigger] head[
                i
            ]).group_id@ == (#[trigger] head[j]).group_id@ && head[i].user_id@ == head[j].user_id@) by {
                assert(rows[i] == head[i] && rows[j] == head[j]);
            }
        }
        assert(members_attached(groups, head)) by {
            assert forall|i: int| 0 <= i < head.len() implies group_known(
                groups,
                (#[trigger] head[i]).group_id@,
            ) by {
                assert(rows[i] == head[i]);
            }
        }
        lemma_outside(groups, head, group);
        assert forall|i: int| 0 <= i < g.len() implies rows.contains(#[trigger] g[i]) by {
            if i < f.len() {
                assert(g[i] == f[i]);
                let k = choose|k: int| 0 <= k < head.len() && head[k] == f[i];
                assert(rows[k] == g[i]);
            } else {
                assert(rows[rows.len() - 1] == g[i]);
            }
        }
        assert forall|i: int, j: int| 0 <= i < j < g.len() implies !((#[trigger] g[i]).group_id@ == (
        #[trigger] g[j]).group_id@ && g[i].user_id@ == g[j].user_id@) by {
            assert(g[i] == f[i]);
            if j < f.len() {
                assert(g[j] == f[j]);
            } else {
                let k = choose|k: int| 0 <= k < head.len() && head[k] == f[i];
                assert(rows[k] == g[i]);
                assert(rows[rows.len() - 1] == g[j]);
            }
        }
        assert forall|i: int| 0 <= i < g.len() implies group_known(
            groups,
            (#[trigger] g[i]).group_id@,
        ) by {
            let k = choose|k: int| 0 <= k < rows.len() && rows[k] == g[i];
            assert(group_known(groups, rows[k].group_id@));
        }
    }
}

impl LocalStore {
    fn put_member(&mut self, m: &MemberEntity)
        requires
            old(self).wf(),
            group_known(old(self).group_rows@, m.group_id@),
        ensures
            final(self).wf(),
            final(self).member_rows@ == member_upserted(old(self).member_rows@, *m),
            final(self).rest_of_members(*old(self)),
            final(self).changes == old(self).changes,
    {
        proof {
            lemma_upserted_members(self.group_rows@, self.member_rows@, *m);
            lemma_member_row_pos(self.member_rows@, m.group_id@, m.user_id@);
        }
        match self.find_member(m.group_id.as_str(), m.user_id.as_str()) {
            Some(i) => {
                let mut row = m.clone();
                row.group_id = self.member_rows[i].group_id.clone();
                row.user_id = self.member_rows[i].user_id.clone();
                self.member_rows.set(i, row);
            },
            None => {
                self.member_rows.push(m.clone());
            },
        }
    }

    /// Store a member; refused when the group is not known.
    pub fn upsert_member(&mut self, m: &MemberEntity) -> (r: Result<(), AppError>)
        requires
            old(self).wf(),
        ensures
            final(self).wf(),
            final(self).rest_of_members(*old(self)),
            r is Ok <==> group_known(old(self).group_rows@, m.group_id@),
            r is Ok ==> final(self).member_rows@ == member_upserted(old(self).member_rows@, *m)
                && log(final(self).changes@) == log(old(self).changes@).push(
                Change::Members(m.group_id@),
            ),
            r matches Err(e) ==> lacks_group(e) && *final(self) == *old(self),
    {
        proof {
            lemma_group_pos(self.group_rows@, m.group_id@);
        }
        match self.find_group(m.group_id.as_str()) {
            Some(_) => {
                self.put_member(m);
                self.notify(StoreChange::Members { group_id: m.group_id.clone() });
                Ok(())
            },
            None => Err(AppError::Store(NO_GROUP.to_owned())),
        }
    }

    /// The members of a group, first to join first.
    pub fn members(&self, group_id: &str) -> (r: Vec<MemberEntity>)
        ensures
            in_order(r@),
            r@.to_multiset() == self.member_rows@.filter(
                |m: MemberEntity| m.group_id@ == group_id@,
            ).to_multiset(),
            r@.len() == self.member_rows@.filter(|m: MemberEntity| m.group_id@ == group_id@).len(),
    {
        let ghost pick = |m: MemberEntity| m.group_id@ == group_id@;
        let mut out: Vec<MemberEntity> = Vec::new();
        let mut i: usize = 0;
        proof {
            reveal(Seq::filter);
            assert(self.member_rows@.take(0).filter(pick) =~= Seq::empty());
        }
        while i < self.member_rows.len()
            invariant
                i <= self.member_rows.len(),
                pick == (|m: MemberEntity| m.group_id@ == group_id@),
                out@ == self.member_rows@.take(i as int).filter(pick),
            decreases self.member_rows.len() - i,
        {
            proof {
                reveal(Seq::filter);
                assert(self.member_rows@.take(i + 1).drop_last() =~= self.member_rows@.take(
                    i as int,
                ));
            }
            if same(self.member_rows[i].group_id.as_str(), group_id) {
                out.push(self.member_rows[i].clone());
            }
            i += 1;
        }
        assert(self.member_rows@.take(i as int) =~= self.member_rows@);
        sorted(out)
    }

    /// Drop one member of a group.
    pub fn delete_member(&mut self, group_id: &str, user_id: &str)
        requires
            old(self).wf(),
        ensures
            final(self).wf(),
            final(self).member_rows@ == without_member(
                old(self).member_rows@,
                group_id@,
                user_id@,
            ),
            final(self).rest_of_members(*old(self)),
            log(final(self).changes@) == log(old(self).changes@).push(Change::Members(group_id@)),
    {
        match self.find_member(group_id, user_id) {
            Some(i) => {
                let ghost before = self.member_rows@;
                let _ = self.member_rows.remove(i);
                let ghost after = self.member_rows@;
                proof {
                    assert forall|a: int| 0 <= a < after.len() implies group_known(
                        self.group_rows@,
                        (#[trigger] after[a]).group_id@,
                    ) by {
                        let a2 = if a < i {
                            a
                        } else {
                            a + 1
                        };
                        assert(after[a] == before[a2]);
                        assert(group_known(self.group_rows@, before[a2].group_id@));
                    }
                    assert forall|a: int, b: int| 0 <= a < b < after.len() implies !((
                    #[trigger] after[a]).group_id@ == (#[trigger] after[b]).group_id@
                        && after[a].user_id@ == after[b].user_id@) by {
                        let a2 = if a < i {
                            a
                        } else {
                            a + 1
                        };
                        let b2 = if b < i {
                            b
                        } else {
                            b + 1
                        };
                        assert(after[a] == before[a2] && after[b] == before[b2]);
                    }
                }
            },
            None => {},
        }
        self.notify(StoreChange::Members { group_id: group_id.to_owned() });
    }

    fn drop_members(&mut self, group_id: &str)
        requires
            old(self).wf(),
        ensures
            final(self).wf(),
            final(self).member_rows@ == outside_group(old(self).member_rows@, group_id@),
            final(self).rest_of_members(*old(self)),
            final(self).changes == old(self).changes,
    {
        let ghost rows = self.member_rows@;
        let mut kept: Vec<MemberEntity> = Vec::new();
        let mut i: usize = 0;
        proof {
            reveal(Seq::filter);
            assert(outside_group(rows.take(0), group_id@) =~= Seq::empty());
        }
        while i < self.member_rows.len()
            invariant
                *self == *old(self),
                rows == self.member_rows@,
                i <= self.member_rows.len(),
                kept@ == outside_group(rows.take(i as int), group_id@),
            decreases self.member_rows.len() - i,
        {
            proof {
                reveal(Seq::filter);
                assert(rows.take(i + 1).drop_last() =~= rows.take(i as int));
            }
            if !same(self.member_rows[i].group_id.as_str(), group_id) {
                kept.push(self.member_rows[i].clone());
            }
            i += 1;
        }
        assert(rows.take(i as int) =~= rows);
        proof {
            lemma_outside(self.group_rows@, rows, group_id@);
        }
        self.member_rows = kept;
    }

    /// Drop every member of a group.
    pub fn delete_all_members(&mut self, group_id: &str)
        requires
            old(self).wf(),
        ensures
            final(self).wf(),
            final(self).member_rows@ == outside_group(old(self).member_rows@, group_id@),
            final(self).rest_of_members(*old(self)),
            log(final(self).changes@) == log(old(self).changes@).push(Change::Members(group_id@)),
    {
        self.drop_members(group_id);
        self.notify(StoreChange::Members { group_id: group_id.to_owned() });
    }

    /// Set the role of a member.
    pub fn set_role(&mut self, group_id: &str, user_id: &str, role: Role)
        requires
            old(self).wf(),
        ensures
            final(self).wf(),
            final(self).member_rows@ == with_role(
                old(self).member_rows@,
                group_id@,
                user_id@,
                role,
            ),
            final(self).rest_of_members(*old(self)),
            log(final(self).changes@) == log(old(self).changes@).push(Change::Members(group_id@)),
    {
        match self.find_member(group_id, user_id) {
            Some(i) => {
                let ghost before = self.member_rows@;
                let mut row = self.member_rows[i].clone();
                row.role = role;
                self.member_rows.set(i, row);
                let ghost after = self.member_rows@;
                proof {
                    assert forall|a: int| 0 <= a < after.len() implies group_known(
                        self.group_rows@,
                        (#[trigger] after[a]).group_id@,
                    ) by {
                        assert(group_known(self.group_rows@, before[a].group_id@));
                    }
                    assert forall|a: int, b: int| 0 <= a < b < after.len() implies !((
                    #[trigger] after[a]).group_id@ == (#[trigger] after[b]).group_id@
                        && after[a].user_id@ == after[b].user_id@) by {
                        assert(!(before[a].group_id@ == before[b].group_id@ && before[a].user_id@
                            == before[b].user_id@));
                    }
                }
            },
            None => {},
        }
        self.notify(StoreChange::Members { group_id: group_id.to_owned() });
    }

    /// Replace the members of a group by a list, and count them; refused, with nothing changed,
    /// when a member of the list names a group that is not known.
    pub fn replace_members(&mut self, group_id: &str, members: &Vec<MemberEntity>) -> (r: Result<
        (),
        AppError,
    >)
        requires
            old(self).wf(),
            members@.len() <= i64::MAX,
        ensures
            final(self).wf(),
            r is Ok <==> members_attached(old(self).group_rows@, members@),
            r matches Err(e) ==> lacks_group(e) && *final(self) == *old(self),
            r is Ok ==> {
                &&& final(self).member_rows@ == members_upserted(
                    outside_group(old(self).member_rows@, group_id@),
                    members@,
                )
                &&& final(self).group_rows@ == ({
                    let rows = old(self).group_rows@;
                    let p = group_pos(rows, group_id@);
                    if p < rows.len() {
                        rows.update(p, GroupEntity { member_count: members@.len() as i64, ..rows[p] })
                    } else {
                        rows
                    }
                })
                &&& final(self).message_rows == old(self).message_rows
                &&& final(self).outbox_rows == old(self).outbox_rows
                &&& final(self).reply_rows == old(self).reply_rows
                &&& final(self).next_reply_id == old(self).next_reply_id
                &&& log(final(self).changes@) == log(old(self).changes@).push(
                    Change::Members(group_id@),
                ).push(Change::Groups)
            },
    {
        let mut k: usize = 0;
        while k < members.len()
            invariant
                *self == *old(self),
                self.wf(),
                k <= members.len(),
                forall|j: int|
                    0 <= j < k ==> group_known(
                        self.group_rows@,
                        (#[trigger] members@[j]).group_id@,
                    ),
            decreases members.len() - k,
        {
            proof {
                lemma_group_pos(self.group_rows@, members@[k as int].group_id@);
            }
            match self.find_group(members[k].group_id.as_str()) {
                Some(_) => {},
                None => {
                    assert(!group_known(self.group_rows@, members@[k as int].group_id@));
                    return Err(AppError::Store(NO_GROUP.to_owned()));
                },
            }
            k += 1;
        }
        self.drop_members(group_id);
        let mut i: usize = 0;
        assert(members@.take(0) =~= Seq::empty());
        while i < members.len()
            invariant
                self.wf(),
                i <= members.len(),
                forall|j: int|
                    0 <= j < members@.len() ==> group_known(
                        self.group_rows@,
                        (#[trigger] members@[j]).group_id@,
                    ),
                self.member_rows@ == members_upserted(
                    outside_group(old(self).member_rows@, group_id@),
                    members@.take(i as int),
                ),
                self.rest_of_members(*old(self)),
                self.changes == old(self).changes,
            decreases members.len() - i,
        {
            assert(members@.take(i + 1).drop_last() =~= members@.take(i as int));
            self.put_member(&members[i]);
            i += 1;
        }
        assert(members@.take(i as int) =~= members@);
        match self.find_group(group_id) {
            Some(p) => {
                let mut row = self.group_rows[p].clone();
                row.member_count = members.len() as i64;
                self.put_group(p, row);
            },
            None => {},
        }
        self.notify(StoreChange::Members { group_id: group_id.to_owned() });
        self.notify(StoreChange::Groups);
        Ok(())
    }
}

} // verus!
