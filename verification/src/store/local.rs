//! The tables and their invariant.

use crate::error::AppError;
use crate::store::{
    change_of, Change, GroupEntity, LocalCommandReplyEntity, MemberEntity, MessageEntity,
    OutboxEntity, StoreChange,
};
use crate::text::same;
use vstd::prelude::*;

verus! {

/// The rows of every table, and the changes not yet handed to observers.
#[derive(Debug)]
pub struct LocalStore {
    pub group_rows: Vec<GroupEntity>,
    pub message_rows: Vec<MessageEntity>,
    pub member_rows: Vec<MemberEntity>,
    pub outbox_rows: Vec<OutboxEntity>,
    pub reply_rows: Vec<LocalCommandReplyEntity>,
    /// The id of the next command reply.
    pub next_reply_id: i64,
    pub changes: Vec<StoreChange>,
}

/// Group ids are unique.
pub open spec fn groups_unique(g: Seq<GroupEntity>) -> bool {
    forall|i: int, j: int|
        0 <= i < j < g.len() ==> (#[trigger] g[i]).id@ != (#[trigger] g[j]).id@
}

/// Message ids are unique, and seqs are unique within a group.
pub open spec fn messages_unique(m: Seq<MessageEntity>) -> bool {
    forall|i: int, j: int|
        0 <= i < j < m.len() ==> (#[trigger] m[i]).id@ != (#[trigger] m[j]).id@ && !(m[i].group_id@
            == m[j].group_id@ && m[i].seq == m[j].seq)
}

/// A user is a member of a group once.
pub open spec fn members_unique(m: Seq<MemberEntity>) -> bool {
    forall|i: int, j: int|
        0 <= i < j < m.len() ==> !((#[trigger] m[i]).group_id@ == (#[trigger] m[j]).group_id@
            && m[i].user_id@ == m[j].user_id@)
}

/// There is a group row for `id`.
pub open spec fn group_known(g: Seq<GroupEntity>, id: Seq<char>) -> bool {
    exists|i: int| 0 <= i < g.len() && (#[trigger] g[i]).id@ == id
}

/// Every member belongs to a known group.
pub open spec fn members_attached(g: Seq<GroupEntity>, m: Seq<MemberEntity>) -> bool {
    forall|i: int| 0 <= i < m.len() ==> group_known(g, (#[trigger] m[i]).group_id@)
}

/// Client message ids are unique.
pub open spec fn outbox_unique(o: Seq<OutboxEntity>) -> bool {
    forall|i: int, j: int|
        0 <= i < j < o.len() ==> (#[trigger] o[i]).client_message_id@ != (#[trigger] o[
            j
        ]).client_message_id@
}

/// Command replies bear increasing ids below the next one.
pub open spec fn replies_numbered(r: Seq<LocalCommandReplyEntity>, next: i64) -> bool {
    &&& forall|i: int| 0 <= i < r.len() ==> (#[trigger] r[i]).id is Some && r[i].id->0 < next
    &&& forall|i: int, j: int|
        0 <= i < j < r.len() ==> (#[trigger] r[i]).id->0 < (#[trigger] r[j]).id->0
}

/// Position of the group row for `id`; the number of rows when there is none.
pub open spec fn group_pos(g: Seq<GroupEntity>, id: Seq<char>) -> int
    decreases g.len(),
{
    if g.len() == 0 {
        0
    } else if g[0].id@ == id {
        0
    } else {
        1 + group_pos(g.drop_first(), id)
    }
}

/// Position of the outbox row for a client id; the number of rows when there is none.
pub open spec fn outbox_pos(o: Seq<OutboxEntity>, id: Seq<char>) -> int
    decreases o.len(),
{
    if o.len() == 0 {
        0
    } else if o[0].client_message_id@ == id {
        0
    } else {
        1 + outbox_pos(o.drop_first(), id)
    }
}

/// Position of the row of a member; the number of rows when there is none.
pub open spec fn member_row_pos(m: Seq<MemberEntity>, group: Seq<char>, user: Seq<char>) -> int
    decreases m.len(),
{
    if m.len() == 0 {
        0
    } else if m[0].group_id@ == group && m[0].user_id@ == user {
        0
    } else {
        1 + member_row_pos(m.drop_first(), group, user)
    }
}

/// Where the lookup of a group ends up.
pub proof fn lemma_group_pos(g: Seq<GroupEntity>, id: Seq<char>)
    ensures
        0 <= group_pos(g, id) <= g.len(),
        group_pos(g, id) < g.len() ==> g[group_pos(g, id)].id@ == id,
        group_known(g, id) <==> group_pos(g, id) < g.len(),
        forall|i: int| 0 <= i < group_pos(g, id) ==> (#[trigger] g[i]).id@ != id,
    decreases g.len(),
{
    if g.len() > 0 && g[0].id@ != id {
        let t = g.drop_first();
        lemma_group_pos(t, id);
        assert forall|i: int| 0 <= i < group_pos(g, id) implies (#[trigger] g[i]).id@ != id by {
            if i > 0 {
                assert(g[i] == t[i - 1]);
            }
        }
        if group_pos(g, id) < g.len() {
            assert(g[group_pos(g, id)] == t[group_pos(t, id)]);
        }
        if group_known(g, id) {
            let i = choose|i: int| 0 <= i < g.len() && (#[trigger] g[i]).id@ == id;
            assert(t[i - 1] == g[i]);
        }
    }
}

/// Where the lookup of an outbox row ends up.
pub proof fn lemma_outbox_pos(o: Seq<OutboxEntity>, id: Seq<char>)
    ensures
        0 <= outbox_pos(o, id) <= o.len(),
        outbox_pos(o, id) < o.len() ==> o[outbox_pos(o, id)].client_message_id@ == id,
        forall|i: int| 0 <= i < outbox_pos(o, id) ==> (#[trigger] o[i]).client_message_id@ != id,
    decreases o.len(),
{
    if o.len() > 0 && o[0].client_message_id@ != id {
        let t = o.drop_first();
        lemma_outbox_pos(t, id);
        assert forall|i: int| 0 <= i < outbox_pos(o, id) implies (#[trigger] o[
            i
        ]).client_message_id@ != id by {
            if i > 0 {
                assert(o[i] == t[i - 1]);
            }
        }
        if outbox_pos(o, id) < o.len() {
            assert(o[outbox_pos(o, id)] == t[outbox_pos(t, id)]);
        }
    }
}

/// Where the lookup of a member ends up.
pub proof fn lemma_member_row_pos(m: Seq<MemberEntity>, group: Seq<char>, user: Seq<char>)
    ensures
        0 <= member_row_pos(m, group, user) <= m.len(),
        member_row_pos(m, group, user) < m.len() ==> m[member_row_pos(m, group, user)].group_id@
            == group && m[member_row_pos(m, group, user)].user_id@ == user,
        forall|i: int|
            0 <= i < member_row_pos(m, group, user) ==> !((#[trigger] m[i]).group_id@ == group
                && m[i].user_id@ == user),
    decreases m.len(),
{
    if m.len() > 0 && !(m[0].group_id@ == group && m[0].user_id@ == user) {
        let t = m.drop_first();
        lemma_member_row_pos(t, group, user);
        assert forall|i: int| 0 <= i < member_row_pos(m, group, user) implies !((#[trigger] m[
            i
        ]).group_id@ == group && m[i].user_id@ == user) by {
            if i > 0 {
                assert(m[i] == t[i - 1]);
            }
        }
        if member_row_pos(m, group, user) < m.len() {
            assert(m[member_row_pos(m, group, user)] == t[member_row_pos(t, group, user)]);
        }
    }
}

/// The changes as a model.
pub open spec fn log(c: Seq<StoreChange>) -> Seq<Change> {
    Seq::new(c.len(), |i: int| change_of(c[i]))
}

fn unique_groups(rows: &Vec<GroupEntity>) -> (r: bool)
    ensures
        r == groups_unique(rows@),
{
    let mut j: usize = 0;
    while j < rows.len()
        invariant
            j <= rows.len(),
            forall|a: int, b: int|
                0 <= a < b < j ==> (#[trigger] rows@[a]).id@ != (#[trigger] rows@[b]).id@,
        decreases rows.len() - j,
    {
        let mut i: usize = 0;
        while i < j
            invariant
                i <= j < rows.len(),
                forall|a: int| 0 <= a < i ==> (#[trigger] rows@[a]).id@ != rows@[j as int].id@,
            decreases j - i,
        {
            if rows[i].id == rows[j].id {
                assert(rows@[i as int].id@ == rows@[j as int].id@);
                return false;
            }
            i += 1;
        }
        j += 1;
    }
    true
}

fn unique_messages(rows: &Vec<MessageEntity>) -> (r: bool)
    ensures
        r == messages_unique(rows@),
{
    let mut j: usize = 0;
    while j < rows.len()
        invariant
            j <= rows.len(),
            forall|a: int, b: int|
                0 <= a < b < j ==> (#[trigger] rows@[a]).id@ != (#[trigger] rows@[b]).id@
                    && !(rows@[a].group_id@ == rows@[b].group_id@ && rows@[a].seq == rows@[b].seq),
        decreases rows.len() - j,
    {
        let mut i: usize = 0;
        while i < j
            invariant
                i <= j < rows.len(),
                forall|a: int|
                    0 <= a < i ==> (#[trigger] rows@[a]).id@ != rows@[j as int].id@
                        && !(rows@[a].group_id@ == rows@[j as int].group_id@ && rows@[a].seq
                        == rows@[j as int].seq),
            decreases j - i,
        {
            if rows[i].id == rows[j].id || rows[i].seq == rows[j].seq && rows[i].group_id
                == rows[j].group_id {
                assert(rows@[i as int].id@ == rows@[j as int].id@ || rows@[i as int].seq
                    == rows@[j as int].seq);
                return false;
            }
            i += 1;
        }
        j += 1;
    }
    true
}

fn unique_members(rows: &Vec<MemberEntity>) -> (r: bool)
    ensures
        r == members_unique(rows@),
{
    let mut j: usize = 0;
    while j < rows.len()
        invariant
            j <= rows.len(),
            forall|a: int, b: int|
                0 <= a < b < j ==> !((#[trigger] rows@[a]).group_id@
                    == (#[trigger] rows@[b]).group_id@ && rows@[a].user_id@ == rows@[b].user_id@),
        decreases rows.len() - j,
    {
        let mut i: usize = 0;
        while i < j
            invariant
                i <= j < rows.len(),
                forall|a: int|
                    0 <= a < i ==> !((#[trigger] rows@[a]).group_id@ == rows@[j as int].group_id@
                        && rows@[a].user_id@ == rows@[j as int].user_id@),
            decreases j - i,
        {
            if rows[i].user_id == rows[j].user_id && rows[i].group_id == rows[j].group_id {
                assert(rows@[i as int].user_id@ == rows@[j as int].user_id@);
                return false;
            }
            i += 1;
        }
        j += 1;
    }
    true
}

fn unique_outbox(rows: &Vec<OutboxEntity>) -> (r: bool)
    ensures
        r == outbox_unique(rows@),
{
    let mut j: usize = 0;
    while j < rows.len()
        invariant
            j <= rows.len(),
            forall|a: int, b: int|
                0 <= a < b < j ==> (#[trigger] rows@[a]).client_message_id@
                    != (#[trigger] rows@[b]).client_message_id@,
        decreases rows.len() - j,
    {
        let mut i: usize = 0;
        while i < j
            invariant
                i <= j < rows.len(),
                forall|a: int|
                    0 <= a < i ==> (#[trigger] rows@[a]).client_message_id@
                        != rows@[j as int].client_message_id@,
            decreases j - i,
        {
            if rows[i].client_message_id == rows[j].client_message_id {
                assert(rows@[i as int].client_message_id@ == rows@[j as int].client_message_id@);
                return false;
            }
            i += 1;
        }
        j += 1;
    }
    true
}

fn attached(groups: &Vec<GroupEntity>, members: &Vec<MemberEntity>) -> (r: bool)
    ensures
        r == members_attached(groups@, members@),
{
    let mut i: usize = 0;
    while i < members.len()
        invariant
            i <= members.len(),
            forall|k: int| 0 <= k < i ==> group_known(groups@, (#[trigger] members@[k]).group_id@),
        decreases members.len() - i,
    {
        let mut k: usize = 0;
        let mut known = false;
        while k < groups.len() && !known
            invariant
                i < members.len(),
                k <= groups.len(),
                known ==> group_known(groups@, members@[i as int].group_id@),
                !known ==> forall|a: int|
                    0 <= a < k ==> (#[trigger] groups@[a]).id@ != members@[i as int].group_id@,
            decreases groups.len() - k,
        {
            if groups[k].id == members[i].group_id {
                assert(groups@[k as int].id@ == members@[i as int].group_id@);
                known = true;
            }
            k += 1;
        }
        if !known {
            assert(!group_known(groups@, members@[i as int].group_id@));
            return false;
        }
        i += 1;
    }
    true
}

/// The highest id that a command reply was given: the one on record, or that of the last reply
/// where it is higher.
pub open spec fn highest_given(r: Seq<LocalCommandReplyEntity>, recorded: i64) -> i64 {
    let floor = if recorded > 0 {
        recorded
    } else {
        0i64
    };
    if r.len() > 0 && r.last().id is Some && r.last().id->0 > floor {
        r.last().id->0
    } else {
        floor
    }
}

/// The id of the next command reply: one above the highest that was given. An id is not given twice,
/// so the replies that are left do not tell it alone.
pub open spec fn next_after(r: Seq<LocalCommandReplyEntity>, recorded: i64) -> Option<i64> {
    let top = highest_given(r, recorded);
    if top < i64::MAX {
        Some((top + 1) as i64)
    } else {
        None
    }
}

fn next_reply(rows: &Vec<LocalCommandReplyEntity>, recorded: i64) -> (r: Option<i64>)
    ensures
        r == next_after(rows@, recorded),
{
    let mut top: i64 = if recorded > 0 {
        recorded
    } else {
        0
    };
    if rows.len() > 0 {
        match rows[rows.len() - 1].id {
            Some(id) => {
                if id > top {
                    top = id;
                }
            },
            None => {},
        }
    }
    if top < i64::MAX {
        Some(top + 1)
    } else {
        None
    }
}

/// A store that is read back with the highest id it had given goes on where it was: no id of a reply
/// is given twice, though the reply be gone.
pub proof fn law_reply_ids_go_on(s: LocalStore)
    requires
        s.wf(),
        s.next_reply_id >= 1,
    ensures
        next_after(s.reply_rows@, (s.next_reply_id - 1) as i64) == Some(s.next_reply_id),
{
}

fn numbered_replies(rows: &Vec<LocalCommandReplyEntity>, next: i64) -> (r: bool)
    ensures
        r == replies_numbered(rows@, next),
{
    let mut i: usize = 0;
    while i < rows.len()
        invariant
            i <= rows.len(),
            forall|k: int| 0 <= k < i ==> (#[trigger] rows@[k]).id is Some && rows@[k].id->0 < next,
            forall|a: int, b: int|
                0 <= a < b < i ==> (#[trigger] rows@[a]).id->0 < (#[trigger] rows@[b]).id->0,
        decreases rows.len() - i,
    {
        match rows[i].id {
            Some(id) => {
                if id >= next {
                    assert(rows@[i as int].id->0 >= next);
                    return false;
                }
                if i > 0 {
                    match rows[i - 1].id {
                        Some(before) => {
                            if before >= id {
                                assert(rows@[i - 1].id->0 >= rows@[i as int].id->0);
                                return false;
                            }
                        },
                        None => {
                            return false;
                        },
                    }
                }
            },
            None => {
                assert(rows@[i as int].id is None);
                return false;
            },
        }
        i += 1;
    }
    true
}

/// Rows that make up a store: keys are unique, every member's group is there, and the command
/// replies bear increasing ids with one left for the next.
pub open spec fn rows_fit(
    groups: Seq<GroupEntity>,
    messages: Seq<MessageEntity>,
    members: Seq<MemberEntity>,
    outbox: Seq<OutboxEntity>,
    replies: Seq<LocalCommandReplyEntity>,
    recorded: i64,
) -> bool {
    &&& groups_unique(groups)
    &&& messages_unique(messages)
    &&& members_unique(members)
    &&& members_attached(groups, members)
    &&& outbox_unique(outbox)
    &&& next_after(replies, recorded) matches Some(n) && replies_numbered(replies, n)
}

impl LocalStore {
    /// The invariant that every operation keeps.
    pub open spec fn wf(self) -> bool {
        &&& groups_unique(self.group_rows@)
        &&& messages_unique(self.message_rows@)
        &&& members_unique(self.member_rows@)
        &&& members_attached(self.group_rows@, self.member_rows@)
        &&& outbox_unique(self.outbox_rows@)
        &&& replies_numbered(self.reply_rows@, self.next_reply_id)
    }

    /// Only the group table and the change log may differ.
    pub open spec fn rest_of_groups(self, other: Self) -> bool {
        &&& self.message_rows == other.message_rows
        &&& self.member_rows == other.member_rows
        &&& self.outbox_rows == other.outbox_rows
        &&& self.reply_rows == other.reply_rows
        &&& self.next_reply_id == other.next_reply_id
    }

    /// Only the outbox table and the change log may differ.
    pub open spec fn rest_of_outbox(self, other: Self) -> bool {
        &&& self.message_rows == other.message_rows
        &&& self.member_rows == other.member_rows
        &&& self.group_rows == other.group_rows
        &&& self.reply_rows == other.reply_rows
        &&& self.next_reply_id == other.next_reply_id
    }

    /// Only the member table and the change log may differ.
    pub open spec fn rest_of_members(self, other: Self) -> bool {
        &&& self.message_rows == other.message_rows
        &&& self.outbox_rows == other.outbox_rows
        &&& self.group_rows == other.group_rows
        &&& self.reply_rows == other.reply_rows
        &&& self.next_reply_id == other.next_reply_id
    }

    /// Only the message table, the group table and the change log may differ.
    pub open spec fn rest_of_messages(self, other: Self) -> bool {
        &&& self.member_rows == other.member_rows
        &&& self.outbox_rows == other.outbox_rows
        &&& self.reply_rows == other.reply_rows
        &&& self.next_reply_id == other.next_reply_id
    }

    /// Empty tables.
    pub fn new() -> (r: Self)
        ensures
            r.wf(),
            r.group_rows@.len() == 0,
            r.message_rows@.len() == 0,
            r.member_rows@.len() == 0,
            r.outbox_rows@.len() == 0,
            r.reply_rows@.len() == 0,
            r.next_reply_id == 1,
            r.changes@.len() == 0,
    {
        LocalStore {
            group_rows: Vec::new(),
            message_rows: Vec::new(),
            member_rows: Vec::new(),
            outbox_rows: Vec::new(),
            reply_rows: Vec::new(),
            next_reply_id: 1,
            changes: Vec::new(),
        }
    }

    /// A store of the rows that were read from a database, and of the highest id of a command reply
    /// that it has on record; an error where they break the invariant.
    pub fn from_rows(
        groups: Vec<GroupEntity>,
        messages: Vec<MessageEntity>,
        members: Vec<MemberEntity>,
        outbox: Vec<OutboxEntity>,
        replies: Vec<LocalCommandReplyEntity>,
        recorded: i64,
    ) -> (r: Result<Self, AppError>)
        ensures
            match r {
                Ok(s) => {
                    &&& rows_fit(groups@, messages@, members@, outbox@, replies@, recorded)
                    &&& s.wf()
                    &&& s.group_rows == groups
                    &&& s.message_rows == messages
                    &&& s.member_rows == members
                    &&& s.outbox_rows == outbox
                    &&& s.reply_rows == replies
                    &&& next_after(replies@, recorded) == Some(s.next_reply_id)
                    &&& s.changes@.len() == 0
                },
                Err(e) => {
                    &&& !rows_fit(groups@, messages@, members@, outbox@, replies@, recorded)
                    &&& e matches AppError::Store(m) && m@ == "the stored rows are inconsistent"@
                },
            },
    {
        let fits = unique_groups(&groups) && unique_messages(&messages) && unique_members(&members)
            && attached(&groups, &members) && unique_outbox(&outbox);
        match next_reply(&replies, recorded) {
            Some(next) => {
                if fits && numbered_replies(&replies, next) {
                    return Ok(
                        LocalStore {
                            group_rows: groups,
                            message_rows: messages,
                            member_rows: members,
                            outbox_rows: outbox,
                            reply_rows: replies,
                            next_reply_id: next,
                            changes: Vec::new(),
                        },
                    );
                }
            },
            None => {},
        }
        Err(AppError::Store("the stored rows are inconsistent".to_owned()))
    }

    /// Hand out the changes since the last call.
    pub fn take_changes(&mut self) -> (r: Vec<StoreChange>)
        ensures
            r@ == old(self).changes@,
            final(self).changes@.len() == 0,
            final(self).rest_of_groups(*old(self)),
            final(self).group_rows == old(self).group_rows,
    {
        let mut out: Vec<StoreChange> = Vec::new();
        std::mem::swap(&mut out, &mut self.changes);
        out
    }

    /// Note a change for the observers.
    pub(crate) fn notify(&mut self, c: StoreChange)
        ensures
            log(final(self).changes@) == log(old(self).changes@).push(change_of(c)),
            final(self).rest_of_groups(*old(self)),
            final(self).group_rows == old(self).group_rows,
    {
        self.changes.push(c);
        assert(log(self.changes@) =~= log(old(self).changes@).push(change_of(c)));
    }

    pub(crate) fn find_group(&self, id: &str) -> (r: Option<usize>)
        ensures
            match r {
                Some(i) => i < self.group_rows.len() && i == group_pos(self.group_rows@, id@)
                    && self.group_rows@[i as int].id@ == id@,
                None => group_pos(self.group_rows@, id@) == self.group_rows@.len(),
            },
    {
        let mut i: usize = 0;
        assert(self.group_rows@.skip(0) =~= self.group_rows@);
        while i < self.group_rows.len()
            invariant
                i <= self.group_rows.len(),
                group_pos(self.group_rows@, id@) == i + group_pos(
                    self.group_rows@.skip(i as int),
                    id@,
                ),
            decreases self.group_rows.len() - i,
        {
            if same(self.group_rows[i].id.as_str(), id) {
                return Some(i);
            }
            assert(self.group_rows@.skip(i as int).drop_first() =~= self.group_rows@.skip(i + 1));
            i += 1;
        }
        None
    }

    pub(crate) fn find_outbox(&self, id: &str) -> (r: Option<usize>)
        ensures
            match r {
                Some(i) => i < self.outbox_rows.len() && i == outbox_pos(self.outbox_rows@, id@)
                    && self.outbox_rows@[i as int].client_message_id@ == id@,
                None => outbox_pos(self.outbox_rows@, id@) == self.outbox_rows@.len(),
            },
    {
        let mut i: usize = 0;
        assert(self.outbox_rows@.skip(0) =~= self.outbox_rows@);
        while i < self.outbox_rows.len()
            invariant
                i <= self.outbox_rows.len(),
                outbox_pos(self.outbox_rows@, id@) == i + outbox_pos(
                    self.outbox_rows@.skip(i as int),
                    id@,
                ),
            decreases self.outbox_rows.len() - i,
        {
            if same(self.outbox_rows[i].client_message_id.as_str(), id) {
                return Some(i);
            }
            assert(self.outbox_rows@.skip(i as int).drop_first() =~= self.outbox_rows@.skip(i + 1));
            i += 1;
        }
        None
    }

    pub(crate) fn find_member(&self, group: &str, user: &str) -> (r: Option<usize>)
        ensures
            match r {
                Some(i) => i < self.member_rows.len() && i == member_row_pos(
                    self.member_rows@,
                    group@,
                    user@,
                ),
                None => member_row_pos(self.member_rows@, group@, user@) == self.member_rows@.len(),
            },
    {
        let mut i: usize = 0;
        assert(self.member_rows@.skip(0) =~= self.member_rows@);
        while i < self.member_rows.len()
            invariant
                i <= self.member_rows.len(),
                member_row_pos(self.member_rows@, group@, user@) == i + member_row_pos(
                    self.member_rows@.skip(i as int),
                    group@,
                    user@,
                ),
            decreases self.member_rows.len() - i,
        {
            if same(self.member_rows[i].group_id.as_str(), group) && same(
                self.member_rows[i].user_id.as_str(),
                user,
            ) {
                return Some(i);
            }
            assert(self.member_rows@.skip(i as int).drop_first() =~= self.member_rows@.skip(i + 1));
            i += 1;
        }
        None
    }

    /// Replace the group row at `i` by one with the same id.
    pub(crate) fn put_group(&mut self, i: usize, row: GroupEntity)
        requires
            old(self).wf(),
            i < old(self).group_rows.len(),
            row.id@ == old(self).group_rows@[i as int].id@,
        ensures
            final(self).wf(),
            final(self).group_rows@ == old(self).group_rows@.update(i as int, row),
            final(self).rest_of_groups(*old(self)),
            final(self).changes == old(self).changes,
    {
        let ghost before = self.group_rows@;
        self.group_rows.set(i, row);
        assert(groups_unique(self.group_rows@)) by {
            assert forall|a: int, b: int| 0 <= a < b < self.group_rows@.len() implies (
            #[trigger] self.group_rows@[a]).id@ != (#[trigger] self.group_rows@[b]).id@ by {
                assert(before[a].id@ != before[b].id@);
            }
        }
        assert(members_attached(self.group_rows@, self.member_rows@)) by {
            assert forall|k: int| 0 <= k < self.member_rows@.len() implies group_known(
                self.group_rows@,
                (#[trigger] self.member_rows@[k]).group_id@,
            ) by {
                lemma_known_after_update(
                    before,
                    i as int,
                    row,
                    self.member_rows@[k].group_id@,
                );
            }
        }
    }

    /// Replace the outbox row at `i` by one with the same client id.
    pub(crate) fn put_outbox(&mut self, i: usize, row: OutboxEntity)
        requires
            old(self).wf(),
            i < old(self).outbox_rows.len(),
            row.client_message_id@ == old(self).outbox_rows@[i as int].client_message_id@,
        ensures
            final(self).wf(),
            final(self).outbox_rows@ == old(self).outbox_rows@.update(i as int, row),
            final(self).rest_of_outbox(*old(self)),
            final(self).changes == old(self).changes,
    {
        let ghost before = self.outbox_rows@;
        self.outbox_rows.set(i, row);
        assert(outbox_unique(self.outbox_rows@)) by {
            assert forall|a: int, b: int| 0 <= a < b < self.outbox_rows@.len() implies (
            #[trigger] self.outbox_rows@[a]).client_message_id@ != (#[trigger] self.outbox_rows@[
                b
            ]).client_message_id@ by {
                assert(before[a].client_message_id@ != before[b].client_message_id@);
            }
        }
    }

    /// Delete every row of every table.
    pub fn clear_all(&mut self)
        requires
            old(self).wf(),
        ensures
            final(self).wf(),
            final(self).group_rows@.len() == 0,
            final(self).message_rows@.len() == 0,
            final(self).member_rows@.len() == 0,
            final(self).outbox_rows@.len() == 0,
            final(self).reply_rows@.len() == 0,
            final(self).next_reply_id == old(self).next_reply_id,
            log(final(self).changes@) == log(old(self).changes@).push(Change::Cleared),
    {
        self.group_rows.clear();
        self.message_rows.clear();
        self.member_rows.clear();
        self.outbox_rows.clear();
        self.reply_rows.clear();
        self.notify(StoreChange::Cleared);
    }
}

proof fn lemma_known_after_update(g: Seq<GroupEntity>, i: int, row: GroupEntity, id: Seq<char>)
    requires
        0 <= i < g.len(),
        row.id@ == g[i].id@,
        group_known(g, id),
    ensures
        group_known(g.update(i, row), id),
{
    let k = choose|k: int| 0 <= k < g.len() && (#[trigger] g[k]).id@ == id;
    assert(g.update(i, row)[k].id@ == id);
}

} // verus!
