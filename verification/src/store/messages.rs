//! Operations on the message table.

use crate::reconcile::{
    fresh, fresh_messages, has_seq, has_text, new_id, plan_is, reconcile, EchoConfirmation,
    ReconcilePlan, ReconcileState,
};
use crate::sorting::{in_order, sorted};
use crate::store::groups::{doomed, larger, live_groups, max_seq_of};
use crate::store::local::{
    group_known, group_pos, groups_unique, log, members_attached, members_unique, messages_unique,
    LocalStore,
};
use crate::store::outbox::{confirmed_in, lemma_filter_numbered, lemma_filter_unique, unconfirmed_of};
use crate::store::{
    or_i64, value_or, Change, GroupEntity, LocalCommandReplyEntity, MemberEntity, MessageEntity,
    OutboxEntity, StoreChange,
};
use crate::text::{same, texts};
use vstd::prelude::*;

verus! {

/// Result of storing an incoming batch.
#[derive(Debug)]
pub struct StoreBatchOutcome {
    pub plan: ReconcilePlan,
    /// Rows actually written.
    pub inserted: usize,
}

/// No stored message bears the id of `m`, nor its seq in its group.
pub open spec fn storable(rows: Seq<MessageEntity>, m: MessageEntity) -> bool {
    forall|i: int|
        0 <= i < rows.len() ==> (#[trigger] rows[i]).id@ != m.id@ && !(rows[i].group_id@
            == m.group_id@ && rows[i].seq == m.seq)
}

/// The message table after trying to store `m`.
pub open spec fn stored(rows: Seq<MessageEntity>, m: MessageEntity) -> Seq<MessageEntity> {
    if storable(rows, m) {
        rows.push(m)
    } else {
        rows
    }
}

/// The message table after trying to store every message of a list, in order.
pub open spec fn stored_all(rows: Seq<MessageEntity>, list: Seq<MessageEntity>) -> Seq<MessageEntity>
    decreases list.len(),
{
    if list.len() == 0 {
        rows
    } else {
        stored(stored_all(rows, list.drop_last()), list.last())
    }
}

/// The stored message of a group with the highest seq.
pub open spec fn latest_of(rows: Seq<MessageEntity>, group: Seq<char>) -> Option<MessageEntity>
    decreases rows.len(),
{
    if rows.len() == 0 {
        None
    } else {
        let before = latest_of(rows.drop_last(), group);
        let m = rows.last();
        if m.group_id@ == group && (before matches Some(b) ==> m.seq > b.seq) {
            Some(m)
        } else {
            before
        }
    }
}

/// A group row that shows the latest message.
pub open spec fn with_preview(g: GroupEntity, latest: Option<MessageEntity>) -> GroupEntity {
    GroupEntity {
        last_message_preview: match latest {
            Some(m) => if m.body@.len() > 0 {
                Some(m.body)
            } else {
                None
            },
            None => None,
        },
        last_activity_at: Some(
            larger(
                or_i64(g.last_activity_at, 0),
                match latest {
                    Some(m) => m.created_at,
                    None => 0,
                },
            ),
        ),
        ..g
    }
}

/// The group table with the previews of the groups in `touched` brought up to date.
pub open spec fn with_previews(
    rows: Seq<GroupEntity>,
    messages: Seq<MessageEntity>,
    touched: Seq<Seq<char>>,
) -> Seq<GroupEntity> {
    Seq::new(
        rows.len(),
        |i: int|
            if touched.contains(rows[i].id@) {
                with_preview(rows[i], latest_of(messages, rows[i].id@))
            } else {
                rows[i]
            },
    )
}

/// The groups of a list of messages, each once, in order of first appearance.
pub open spec fn touched_groups(list: Seq<MessageEntity>) -> Seq<Seq<char>>
    decreases list.len(),
{
    if list.len() == 0 {
        seq![]
    } else {
        let before = touched_groups(list.drop_last());
        if before.contains(list.last().group_id@) {
            before
        } else {
            before.push(list.last().group_id@)
        }
    }
}

/// A `Messages` change for each group.
pub open spec fn message_notes(groups: Seq<Seq<char>>) -> Seq<Change> {
    Seq::new(groups.len(), |i: int| Change::Messages(groups[i]))
}

/// The messages of a group.
pub open spec fn in_group(rows: Seq<MessageEntity>, group: Seq<char>) -> Seq<MessageEntity> {
    rows.filter(|m: MessageEntity| m.group_id@ == group)
}

/// The ids of the messages of a group.
pub open spec fn ids_in(rows: Seq<MessageEntity>, group: Seq<char>) -> Seq<Seq<char>> {
    let g = in_group(rows, group);
    Seq::new(g.len(), |i: int| g[i].id@)
}

/// The seqs of the messages of a group.
pub open spec fn seqs_in(rows: Seq<MessageEntity>, group: Seq<char>) -> Seq<i64> {
    let g = in_group(rows, group);
    Seq::new(g.len(), |i: int| g[i].seq)
}

/// The lowest stored seq of a group.
pub open spec fn min_seq_of(rows: Seq<MessageEntity>, group: Seq<char>) -> Option<i64>
    decreases rows.len(),
{
    if rows.len() == 0 {
        None
    } else {
        let before = min_seq_of(rows.drop_last(), group);
        let m = rows.last();
        if m.group_id@ != group {
            before
        } else {
            match before {
                Some(s) => if s <= m.seq {
                    Some(s)
                } else {
                    Some(m.seq)
                },
                None => Some(m.seq),
            }
        }
    }
}

/// Number of stored messages of a group with a seq of a closed range.
pub open spec fn count_in(rows: Seq<MessageEntity>, group: Seq<char>, from: i64, to: i64) -> nat
    decreases rows.len(),
{
    if rows.len() == 0 {
        0
    } else {
        let m = rows.last();
        count_in(rows.drop_last(), group, from, to) + if m.group_id@ == group && from <= m.seq <= to {
            1nat
        } else {
            0nat
        }
    }
}

/// The outbox after confirming every echo, in order.
pub open spec fn echoes_confirmed(
    rows: Seq<OutboxEntity>,
    echoes: Seq<EchoConfirmation>,
) -> Seq<OutboxEntity>
    decreases echoes.len(),
{
    if echoes.len() == 0 {
        rows
    } else {
        let e = echoes.last();
        confirmed_in(
            echoes_confirmed(rows, echoes.drop_last()),
            e.client_message_id@,
            e.server_id,
            e.seq,
        )
    }
}

/// Number of messages of a group up to a seq that still hold text.
pub open spec fn texts_up_to(rows: Seq<MessageEntity>, group: Seq<char>, seq: i64) -> nat
    decreases rows.len(),
{
    if rows.len() == 0 {
        0
    } else {
        let m = rows.last();
        texts_up_to(rows.drop_last(), group, seq) + if m.group_id@ == group && m.seq <= seq
            && m.body@.len() > 0 {
            1nat
        } else {
            0nat
        }
    }
}

proof fn lemma_stored_unique(rows: Seq<MessageEntity>, m: MessageEntity)
    requires
        messages_unique(rows),
    ensures
        messages_unique(stored(rows, m)),
{
    let s = stored(rows, m);
    assert forall|i: int, j: int| 0 <= i < j < s.len() implies (#[trigger] s[i]).id@ != (
    #[trigger] s[j]).id@ && !(s[i].group_id@ == s[j].group_id@ && s[i].seq == s[j].seq) by {
        assert(s[i] == rows[i]);
        if j < rows.len() {
            assert(s[j] == rows[j]);
        }
    }
}

proof fn lemma_stored_all_len(rows: Seq<MessageEntity>, list: Seq<MessageEntity>)
    ensures
        rows.len() <= stored_all(rows, list).len() <= rows.len() + list.len(),
        forall|i: int| 0 <= i < rows.len() ==> stored_all(rows, list)[i] == rows[i],
    decreases list.len(),
{
    if list.len() > 0 {
        lemma_stored_all_len(rows, list.drop_last());
    }
}

impl LocalStore {
    fn store_message(&mut self, m: &MessageEntity) -> (new: bool)
        requires
            old(self).wf(),
        ensures
            final(self).wf(),
            new == storable(old(self).message_rows@, *m),
            final(self).message_rows@ == stored(old(self).message_rows@, *m),
            final(self).rest_of_messages(*old(self)),
            final(self).group_rows == old(self).group_rows,
            final(self).changes == old(self).changes,
    {
        let mut i: usize = 0;
        while i < self.message_rows.len()
            invariant
                *self == *old(self),
                self.wf(),
                i <= self.message_rows.len(),
                forall|k: int|
                    0 <= k < i ==> (#[trigger] self.message_rows@[k]).id@ != m.id@
                        && !(self.message_rows@[k].group_id@ == m.group_id@
                        && self.message_rows@[k].seq == m.seq),
            decreases self.message_rows.len() - i,
        {
            let r = &self.message_rows[i];
            if same(r.id.as_str(), m.id.as_str()) || (r.seq == m.seq && same(
                r.group_id.as_str(),
                m.group_id.as_str(),
            )) {
                return false;
            }
            i += 1;
        }
        proof {
            lemma_stored_unique(self.message_rows@, *m);
        }
        self.message_rows.push(m.clone());
        true
    }

    fn store_messages(&mut self, list: &Vec<MessageEntity>) -> (n: usize)
        requires
            old(self).wf(),
        ensures
            final(self).wf(),
            final(self).message_rows@ == stored_all(old(self).message_rows@, list@),
            n == final(self).message_rows@.len() - old(self).message_rows@.len(),
            final(self).rest_of_messages(*old(self)),
            final(self).group_rows == old(self).group_rows,
            final(self).changes == old(self).changes,
    {
        let mut n: usize = 0;
        let mut i: usize = 0;
        assert(list@.take(0) =~= Seq::empty());
        while i < list.len()
            invariant
                self.wf(),
                n <= i <= list.len(),
                self.message_rows@ == stored_all(old(self).message_rows@, list@.take(i as int)),
                n == self.message_rows@.len() - old(self).message_rows@.len(),
                self.rest_of_messages(*old(self)),
                self.group_rows == old(self).group_rows,
                self.changes == old(self).changes,
            decreases list.len() - i,
        {
            assert(list@.take(i + 1).drop_last() =~= list@.take(i as int));
            if self.store_message(&list[i]) {
                n += 1;
            }
            i += 1;
        }
        assert(list@.take(i as int) =~= list@);
        n
    }

    /// The stored message of a group with the highest seq.
    pub fn latest_message(&self, group_id: &str) -> (r: Option<MessageEntity>)
        ensures
            r == latest_of(self.message_rows@, group_id@),
    {
        let mut best: Option<usize> = None;
        let mut i: usize = 0;
        assert(self.message_rows@.take(0) =~= Seq::empty());
        while i < self.message_rows.len()
            invariant
                i <= self.message_rows.len(),
                match best {
                    Some(b) => b < self.message_rows.len() && latest_of(
                        self.message_rows@.take(i as int),
                        group_id@,
                    ) == Some(self.message_rows@[b as int]),
                    None => latest_of(self.message_rows@.take(i as int), group_id@) is None,
                },
            decreases self.message_rows.len() - i,
        {
            assert(self.message_rows@.take(i + 1).drop_last() =~= self.message_rows@.take(i as int));
            let m = &self.message_rows[i];
            if same(m.group_id.as_str(), group_id) {
                best = match best {
                    Some(b) => if m.seq > self.message_rows[b].seq {
                        Some(i)
                    } else {
                        Some(b)
                    },
                    None => Some(i),
                };
            }
            i += 1;
        }
        assert(self.message_rows@.take(i as int) =~= self.message_rows@);
        match best {
            Some(b) => Some(self.message_rows[b].clone()),
            None => None,
        }
    }

    fn refresh_previews(&mut self, touched: &Vec<String>)
        requires
            old(self).wf(),
        ensures
            final(self).wf(),
            final(self).group_rows@ == with_previews(
                old(self).group_rows@,
                old(self).message_rows@,
                texts(touched@),
            ),
            final(self).rest_of_groups(*old(self)),
            final(self).changes == old(self).changes,
    {
        let ghost rows = self.group_rows@;
        let ghost target = with_previews(rows, self.message_rows@, texts(touched@));
        let mut i: usize = 0;
        while i < self.group_rows.len()
            invariant
                self.wf(),
                i <= self.group_rows.len() == rows.len(),
                target == with_previews(rows, self.message_rows@, texts(touched@)),
                forall|k: int| 0 <= k < i ==> self.group_rows@[k] == target[k],
                forall|k: int| i <= k < rows.len() ==> self.group_rows@[k] == rows[k],
                self.rest_of_groups(*old(self)),
                self.changes == old(self).changes,
            decreases self.group_rows.len() - i,
        {
            if has_text(touched, &self.group_rows[i].id) {
                let mut row = self.group_rows[i].clone();
                let latest = self.latest_message(row.id.as_str());
                let shown: i64 = value_or(row.last_activity_at, 0);
                let sent: i64 = match &latest {
                    Some(m) => m.created_at,
                    None => 0,
                };
                row.last_activity_at = Some(
                    if shown >= sent {
                        shown
                    } else {
                        sent
                    },
                );
                row.last_message_preview = match &latest {
                    Some(m) => if m.body.as_str().is_empty() {
                        None
                    } else {
                        Some(m.body.clone())
                    },
                    None => None,
                };
                self.put_group(i, row);
            }
            i += 1;
        }
        assert(self.group_rows@ =~= target);
    }

    /// Store messages that are not stored yet, and bring the previews of their groups up to date;
    /// gives the number of new rows.
    pub fn insert_messages(&mut self, msgs: &Vec<MessageEntity>) -> (n: usize)
        requires
            old(self).wf(),
        ensures
            final(self).wf(),
            final(self).message_rows@ == stored_all(old(self).message_rows@, msgs@),
            n == final(self).message_rows@.len() - old(self).message_rows@.len(),
            final(self).group_rows@ == (if msgs@.len() == 0 {
                old(self).group_rows@
            } else {
                with_previews(
                    old(self).group_rows@,
                    final(self).message_rows@,
                    touched_groups(msgs@),
                )
            }),
            final(self).rest_of_messages(*old(self)),
            log(final(self).changes@) == (if msgs@.len() == 0 {
                log(old(self).changes@)
            } else {
                (log(old(self).changes@) + message_notes(touched_groups(msgs@))).push(Change::Groups)
            }),
    {
        if msgs.len() == 0 {
            return 0;
        }
        let n: usize = self.store_messages(msgs);
        let mut touched: Vec<String> = Vec::new();
        let mut i: usize = 0;
        assert(msgs@.take(0) =~= Seq::empty());
        assert(texts(touched@) =~= touched_groups(msgs@.take(0)));
        while i < msgs.len()
            invariant
                i <= msgs.len(),
                texts(touched@) == touched_groups(msgs@.take(i as int)),
            decreases msgs.len() - i,
        {
            assert(msgs@.take(i + 1).drop_last() =~= msgs@.take(i as int));
            if !has_text(&touched, &msgs[i].group_id) {
                let ghost before = texts(touched@);
                touched.push(msgs[i].group_id.clone());
                assert(texts(touched@) =~= before.push(msgs@[i as int].group_id@));
            }
            i += 1;
        }
        assert(msgs@.take(i as int) =~= msgs@);
        self.refresh_previews(&touched);
        let ghost base = log(self.changes@);
        let mut k: usize = 0;
        assert(base + message_notes(texts(touched@).take(0)) =~= base);
        while k < touched.len()
            invariant
                self.wf(),
                k <= touched.len(),
                self.message_rows@ == stored_all(old(self).message_rows@, msgs@),
                self.group_rows@ == with_previews(
                    old(self).group_rows@,
                    self.message_rows@,
                    texts(touched@),
                ),
                self.rest_of_messages(*old(self)),
                log(self.changes@) == base + message_notes(texts(touched@).take(k as int)),
            decreases touched.len() - k,
        {
            self.notify(StoreChange::Messages { group_id: touched[k].clone() });
            assert(base + message_notes(texts(touched@).take(k + 1)) =~= (base + message_notes(
                texts(touched@).take(k as int),
            )).push(Change::Messages(touched@[k as int]@)));
            k += 1;
        }
        assert(texts(touched@).take(k as int) =~= texts(touched@));
        self.notify(StoreChange::Groups);
        n
    }

    fn collect_group(&self, group_id: &str) -> (r: Vec<MessageEntity>)
        ensures
            r@ == in_group(self.message_rows@, group_id@),
    {
        let mut out: Vec<MessageEntity> = Vec::new();
        let mut i: usize = 0;
        proof {
            reveal(Seq::filter);
            assert(in_group(self.message_rows@.take(0), group_id@) =~= Seq::empty());
        }
        while i < self.message_rows.len()
            invariant
                i <= self.message_rows.len(),
                out@ == in_group(self.message_rows@.take(i as int), group_id@),
            decreases self.message_rows.len() - i,
        {
            proof {
                reveal(Seq::filter);
                assert(self.message_rows@.take(i + 1).drop_last() =~= self.message_rows@.take(
                    i as int,
                ));
            }
            if same(self.message_rows[i].group_id.as_str(), group_id) {
                out.push(self.message_rows[i].clone());
            }
            i += 1;
        }
        assert(self.message_rows@.take(i as int) =~= self.message_rows@);
        out
    }

    /// The latest `limit` messages of a group, by seq.
    pub fn thread(&self, group_id: &str, limit: u32) -> (r: Vec<MessageEntity>)
        ensures
            exists|all: Seq<MessageEntity>|
                {
                    &&& #[trigger] in_order(all)
                    &&& all.to_multiset() == in_group(self.message_rows@, group_id@).to_multiset()
                    &&& r@ == (if all.len() <= limit {
                        all
                    } else {
                        all.skip(all.len() - limit)
                    })
                },
    {
        let mut all = sorted(self.collect_group(group_id));
        let ghost whole = all@;
        assert(in_order(whole));
        if all.len() <= limit as usize {
            return all;
        }
        let cut: usize = all.len() - limit as usize;
        let tail = all.split_off(cut);
        assert(tail@ =~= whole.skip(whole.len() - limit));
        tail
    }

    /// The highest stored seq of a group.
    pub fn max_seq(&self, group_id: &str) -> (r: Option<i64>)
        ensures
            r == max_seq_of(self.message_rows@, group_id@),
    {
        let mut best: Option<i64> = None;
        let mut i: usize = 0;
        assert(self.message_rows@.take(0) =~= Seq::empty());
        while i < self.message_rows.len()
            invariant
                i <= self.message_rows.len(),
                best == max_seq_of(self.message_rows@.take(i as int), group_id@),
            decreases self.message_rows.len() - i,
        {
            let m = &self.message_rows[i];
            assert(self.message_rows@.take(i + 1).drop_last() =~= self.message_rows@.take(i as int));
            if same(m.group_id.as_str(), group_id) {
                best = match best {
                    Some(s) => if s >= m.seq {
                        Some(s)
                    } else {
                        Some(m.seq)
                    },
                    None => Some(m.seq),
                };
            }
            i += 1;
        }
        assert(self.message_rows@.take(i as int) =~= self.message_rows@);
        best
    }

    /// The lowest stored seq of a group.
    pub fn min_seq(&self, group_id: &str) -> (r: Option<i64>)
        ensures
            r == min_seq_of(self.message_rows@, group_id@),
    {
        let mut best: Option<i64> = None;
        let mut i: usize = 0;
        assert(self.message_rows@.take(0) =~= Seq::empty());
        while i < self.message_rows.len()
            invariant
                i <= self.message_rows.len(),
                best == min_seq_of(self.message_rows@.take(i as int), group_id@),
            decreases self.message_rows.len() - i,
        {
            let m = &self.message_rows[i];
            assert(self.message_rows@.take(i + 1).drop_last() =~= self.message_rows@.take(i as int));
            if same(m.group_id.as_str(), group_id) {
                best = match best {
                    Some(s) => if s <= m.seq {
                        Some(s)
                    } else {
                        Some(m.seq)
                    },
                    None => Some(m.seq),
                };
            }
            i += 1;
        }
        assert(self.message_rows@.take(i as int) =~= self.message_rows@);
        best
    }

    /// Number of stored messages of a group with a seq of a closed range.
    pub fn count_between(&self, group_id: &str, from: i64, to: i64) -> (n: usize)
        ensures
            n == count_in(self.message_rows@, group_id@, from, to),
    {
        let mut n: usize = 0;
        let mut i: usize = 0;
        assert(self.message_rows@.take(0) =~= Seq::empty());
        while i < self.message_rows.len()
            invariant
                n <= i <= self.message_rows.len(),
                n == count_in(self.message_rows@.take(i as int), group_id@, from, to),
            decreases self.message_rows.len() - i,
        {
            let m = &self.message_rows[i];
            assert(self.message_rows@.take(i + 1).drop_last() =~= self.message_rows@.take(i as int));
            if same(m.group_id.as_str(), group_id) && from <= m.seq && m.seq <= to {
                n += 1;
            }
            i += 1;
        }
        assert(self.message_rows@.take(i as int) =~= self.message_rows@);
        n
    }

    fn drop_messages(&mut self, group_id: &str)
        requires
            old(self).wf(),
        ensures
            final(self).wf(),
            final(self).message_rows@ == old(self).message_rows@.filter(
                |m: MessageEntity| m.group_id@ != group_id@,
            ),
            final(self).message_rows@.len() <= old(self).message_rows@.len(),
            final(self).rest_of_messages(*old(self)),
            final(self).group_rows == old(self).group_rows,
            final(self).changes == old(self).changes,
    {
        let ghost keep = |m: MessageEntity| m.group_id@ != group_id@;
        let ghost rows = self.message_rows@;
        let mut kept: Vec<MessageEntity> = Vec::new();
        let mut i: usize = 0;
        proof {
            reveal(Seq::filter);
            assert(rows.take(0).filter(keep) =~= Seq::empty());
        }
        while i < self.message_rows.len()
            invariant
                *self == *old(self),
                rows == self.message_rows@,
                i <= self.message_rows.len(),
                keep == (|m: MessageEntity| m.group_id@ != group_id@),
                kept@ == rows.take(i as int).filter(keep),
                kept@.len() <= i,
            decreases self.message_rows.len() - i,
        {
            proof {
                reveal(Seq::filter);
                assert(rows.take(i + 1).drop_last() =~= rows.take(i as int));
            }
            if !same(self.message_rows[i].group_id.as_str(), group_id) {
                kept.push(self.message_rows[i].clone());
            }
            i += 1;
        }
        assert(rows.take(i as int) =~= rows);
        proof {
            lemma_filter_messages(rows, keep);
        }
        self.message_rows = kept;
    }

    /// Drop the messages of a group; gives their number.
    pub fn delete_messages_for_group(&mut self, group_id: &str) -> (n: usize)
        requires
            old(self).wf(),
        ensures
            final(self).wf(),
            final(self).message_rows@ == old(self).message_rows@.filter(
                |m: MessageEntity| m.group_id@ != group_id@,
            ),
            n == old(self).message_rows@.len() - final(self).message_rows@.len(),
            final(self).rest_of_messages(*old(self)),
            final(self).group_rows == old(self).group_rows,
            log(final(self).changes@) == log(old(self).changes@).push(Change::Messages(group_id@)),
    {
        let before: usize = self.message_rows.len();
        self.drop_messages(group_id);
        let n: usize = before - self.message_rows.len();
        self.notify(StoreChange::Messages { group_id: group_id.to_owned() });
        n
    }

    /// The ids of the stored messages of a group.
    fn stored_ids(&self, group_id: &str) -> (r: Vec<String>)
        ensures
            texts(r@) == ids_in(self.message_rows@, group_id@),
    {
        let rows = self.collect_group(group_id);
        let mut out: Vec<String> = Vec::new();
        let mut i: usize = 0;
        while i < rows.len()
            invariant
                i <= rows.len(),
                out@.len() == i,
                forall|k: int| 0 <= k < i ==> (#[trigger] out@[k])@ == rows@[k].id@,
            decreases rows.len() - i,
        {
            out.push(rows[i].id.clone());
            i += 1;
        }
        assert(texts(out@) =~= ids_in(self.message_rows@, group_id@));
        out
    }

    /// The seqs of the stored messages of a group.
    fn stored_seqs(&self, group_id: &str) -> (r: Vec<i64>)
        ensures
            r@ == seqs_in(self.message_rows@, group_id@),
    {
        let rows = self.collect_group(group_id);
        let mut out: Vec<i64> = Vec::new();
        let mut i: usize = 0;
        while i < rows.len()
            invariant
                i <= rows.len(),
                out@.len() == i,
                forall|k: int| 0 <= k < i ==> (#[trigger] out@[k]) == rows@[k].seq,
            decreases rows.len() - i,
        {
            out.push(rows[i].seq);
            i += 1;
        }
        assert(out@ =~= seqs_in(self.message_rows@, group_id@));
        out
    }

    /// Those of `ids` that are stored for a group.
    pub fn message_ids_exist(&self, group_id: &str, ids: &Vec<String>) -> (r: Vec<String>)
        ensures
            forall|x: Seq<char>| #[trigger]
                texts(r@).contains(x) <==> texts(ids@).contains(x) && ids_in(
                    self.message_rows@,
                    group_id@,
                ).contains(x),
    {
        let known = self.stored_ids(group_id);
        let ghost all = ids_in(self.message_rows@, group_id@);
        let mut out: Vec<String> = Vec::new();
        let mut i: usize = 0;
        while i < ids.len()
            invariant
                i <= ids.len(),
                texts(known@) == all,
                forall|k: int|
                    0 <= k < out@.len() ==> texts(ids@).contains((#[trigger] out@[k])@)
                        && all.contains(out@[k]@),
                forall|k: int|
                    0 <= k < i && all.contains((#[trigger] ids@[k])@) ==> texts(out@).contains(
                        ids@[k]@,
                    ),
            decreases ids.len() - i,
        {
            if has_text(&known, &ids[i]) {
                let ghost before = out@;
                out.push(ids[i].clone());
                proof {
                    assert(texts(ids@)[i as int] == ids@[i as int]@);
                    assert(texts(out@)[before.len() as int] == ids@[i as int]@);
                    assert forall|k: int| 0 <= k < i + 1 && all.contains(
                        (#[trigger] ids@[k])@,
                    ) implies texts(out@).contains(ids@[k]@) by {
                        if k < i {
                            let j = choose|j: int|
                                0 <= j < texts(before).len() && texts(before)[j] == ids@[k]@;
                            assert(texts(out@)[j] == ids@[k]@);
                        }
                    }
                }
            }
            i += 1;
        }
        assert forall|x: Seq<char>| #[trigger] texts(out@).contains(x) <==> texts(ids@).contains(x)
            && all.contains(x) by {
            if texts(out@).contains(x) {
                let j = choose|j: int| 0 <= j < texts(out@).len() && texts(out@)[j] == x;
                assert(out@[j]@ == x);
            }
            if texts(ids@).contains(x) && all.contains(x) {
                let j = choose|j: int| 0 <= j < texts(ids@).len() && texts(ids@)[j] == x;
                assert(ids@[j]@ == x);
            }
        }
        out
    }

    /// Those of `seqs` that a stored message of a group bears.
    pub fn seqs_exist(&self, group_id: &str, seqs: &Vec<i64>) -> (r: Vec<i64>)
        ensures
            forall|x: i64| #[trigger]
                r@.contains(x) <==> seqs@.contains(x) && seqs_in(
                    self.message_rows@,
                    group_id@,
                ).contains(x),
    {
        let known = self.stored_seqs(group_id);
        let mut out: Vec<i64> = Vec::new();
        let mut i: usize = 0;
        while i < seqs.len()
            invariant
                i <= seqs.len(),
                known@ == seqs_in(self.message_rows@, group_id@),
                forall|k: int|
                    0 <= k < out@.len() ==> seqs@.contains(#[trigger] out@[k]) && known@.contains(
                        out@[k],
                    ),
                forall|k: int|
                    0 <= k < i && known@.contains(#[trigger] seqs@[k]) ==> out@.contains(seqs@[k]),
            decreases seqs.len() - i,
        {
            let found = has_seq(&known, seqs[i]);
            let ghost old_out = out@;
            if found {
                out.push(seqs[i]);
                assert(out@[old_out.len() as int] == seqs@[i as int]);
            }
            proof {
                assert forall|k: int| 0 <= k < i + 1 && known@.contains(
                    #[trigger] seqs@[k],
                ) implies out@.contains(seqs@[k]) by {
                    if k < i {
                        let q = choose|q: int| 0 <= q < old_out.len() && old_out[q] == seqs@[k];
                        assert(out@[q] == seqs@[k]);
                    }
                }
            }
            i += 1;
        }
        assert forall|x: i64| #[trigger] out@.contains(x) <==> seqs@.contains(x) && known@.contains(
            x,
        ) by {
            if seqs@.contains(x) && known@.contains(x) {
                let k = choose|k: int| 0 <= k < seqs@.len() && seqs@[k] == x;
                assert(out@.contains(seqs@[k]));
            }
        }
        out
    }

    /// Reconcile a batch of one group with what is stored, write what is new, confirm echoes and
    /// bring the group's preview up to date.
    pub fn store_incoming_batch(&mut self, group_id: &str, batch: Vec<MessageEntity>) -> (out:
        StoreBatchOutcome)
        requires
            old(self).wf(),
        ensures
            final(self).wf(),
            plan_is(
                batch@,
                ids_in(old(self).message_rows@, group_id@),
                seqs_in(old(self).message_rows@, group_id@),
                unconfirmed_of(old(self).outbox_rows@, group_id@),
                out.plan,
            ),
            final(self).message_rows@ == stored_all(
                old(self).message_rows@,
                out.plan.to_insert@,
            ),
            out.inserted == final(self).message_rows@.len() - old(self).message_rows@.len(),
            final(self).outbox_rows@ == echoes_confirmed(
                old(self).outbox_rows@,
                out.plan.echo_confirmations@,
            ),
            final(self).group_rows@ == (if out.inserted > 0 {
                with_previews(
                    old(self).group_rows@,
                    final(self).message_rows@,
                    seq![group_id@],
                )
            } else {
                old(self).group_rows@
            }),
            final(self).member_rows == old(self).member_rows,
            final(self).reply_rows == old(self).reply_rows,
            final(self).next_reply_id == old(self).next_reply_id,
            log(final(self).changes@) == log(old(self).changes@) + (if out.inserted > 0 {
                seq![Change::Messages(group_id@), Change::Groups]
            } else {
                seq![]
            }) + (if out.plan.echo_confirmations@.len() > 0 {
                seq![Change::Outbox(group_id@)]
            } else {
                seq![]
            }),
    {
        let state = ReconcileState {
            existing_ids: self.stored_ids(group_id),
            existing_seqs: self.stored_seqs(group_id),
            unconfirmed_client_message_ids: self.unconfirmed_ids(group_id),
        };
        let plan = reconcile(batch, &state);
        let inserted: usize = self.store_messages(&plan.to_insert);
        let mut i: usize = 0;
        assert(plan.echo_confirmations@.take(0) =~= Seq::empty());
        while i < plan.echo_confirmations.len()
            invariant
                self.wf(),
                i <= plan.echo_confirmations.len(),
                self.outbox_rows@ == echoes_confirmed(
                    old(self).outbox_rows@,
                    plan.echo_confirmations@.take(i as int),
                ),
                self.message_rows@ == stored_all(old(self).message_rows@, plan.to_insert@),
                inserted == self.message_rows@.len() - old(self).message_rows@.len(),
                self.group_rows == old(self).group_rows,
                self.member_rows == old(self).member_rows,
                self.reply_rows == old(self).reply_rows,
                self.next_reply_id == old(self).next_reply_id,
                self.changes == old(self).changes,
            decreases plan.echo_confirmations.len() - i,
        {
            let e = &plan.echo_confirmations[i];
            assert(plan.echo_confirmations@.take(i + 1).drop_last()
                =~= plan.echo_confirmations@.take(i as int));
            self.confirm_row(e.client_message_id.as_str(), &e.server_id, e.seq);
            i += 1;
        }
        assert(plan.echo_confirmations@.take(i as int) =~= plan.echo_confirmations@);
        let ghost base = log(self.changes@);
        if inserted > 0 {
            let mut touched: Vec<String> = Vec::new();
            touched.push(group_id.to_owned());
            assert(texts(touched@) =~= seq![group_id@]);
            self.refresh_previews(&touched);
            self.notify(StoreChange::Messages { group_id: group_id.to_owned() });
            self.notify(StoreChange::Groups);
            assert(log(self.changes@) =~= base + seq![Change::Messages(group_id@), Change::Groups]);
        }
        assert(base + Seq::<Change>::empty() =~= base);
        let ghost mid = log(self.changes@);
        if plan.echo_confirmations.len() > 0 {
            self.notify(StoreChange::Outbox { group_id: group_id.to_owned() });
            assert(log(self.changes@) =~= mid + seq![Change::Outbox(group_id@)]);
        }
        assert(mid + Seq::<Change>::empty() =~= mid);
        StoreBatchOutcome { plan, inserted }
    }

    /// Drop the text of a group's messages up to a seq, and the group's preview; gives how many had
    /// a text.
    pub fn redact_messages(&mut self, group_id: &str, up_to_seq: i64) -> (n: usize)
        requires
            old(self).wf(),
        ensures
            final(self).wf(),
            redacted(old(self).message_rows@, final(self).message_rows@, group_id@, up_to_seq),
            n == texts_up_to(old(self).message_rows@, group_id@, up_to_seq),
            final(self).group_rows@ == ({
                let rows = old(self).group_rows@;
                let p = group_pos(rows, group_id@);
                if p < rows.len() {
                    rows.update(p, GroupEntity { last_message_preview: None, ..rows[p] })
                } else {
                    rows
                }
            }),
            final(self).rest_of_messages(*old(self)),
            final(self).changes == old(self).changes,
    {
        let ghost rows = self.message_rows@;
        let mut n: usize = 0;
        let mut i: usize = 0;
        assert(rows.take(0) =~= Seq::empty());
        while i < self.message_rows.len()
            invariant
                self.wf(),
                rows == old(self).message_rows@,
                self.message_rows@.len() == rows.len(),
                n <= i <= self.message_rows.len(),
                n == texts_up_to(rows.take(i as int), group_id@, up_to_seq),
                forall|k: int|
                    0 <= k < i ==> redacted_row(
                        rows[k],
                        #[trigger] self.message_rows@[k],
                        group_id@,
                        up_to_seq,
                    ),
                forall|k: int| i <= k < rows.len() ==> self.message_rows@[k] == rows[k],
                self.rest_of_messages(*old(self)),
                self.group_rows == old(self).group_rows,
                self.changes == old(self).changes,
            decreases self.message_rows.len() - i,
        {
            assert(rows.take(i + 1).drop_last() =~= rows.take(i as int));
            if same(self.message_rows[i].group_id.as_str(), group_id) && self.message_rows[i].seq
                <= up_to_seq && !self.message_rows[i].body.as_str().is_empty() {
                let mut row = self.message_rows[i].clone();
                row.body = String::new();
                let ghost before = self.message_rows@;
                self.message_rows.set(i, row);
                assert(messages_unique(self.message_rows@)) by {
                    assert forall|a: int, b: int| 0 <= a < b < self.message_rows@.len() implies (
                    #[trigger] self.message_rows@[a]).id@ != (#[trigger] self.message_rows@[b]).id@
                        && !(self.message_rows@[a].group_id@ == self.message_rows@[b].group_id@
                        && self.message_rows@[a].seq == self.message_rows@[b].seq) by {
                        assert(before[a].id@ != before[b].id@);
                    }
                }
                n += 1;
            }
            i += 1;
        }
        assert(rows.take(i as int) =~= rows);
        match self.find_group(group_id) {
            Some(p) => {
                let mut row = self.group_rows[p].clone();
                row.last_message_preview = None;
                self.put_group(p, row);
            },
            None => {},
        }
        n
    }

    /// Drop every group marked deleted with all that belongs to it; gives the number of groups.
    pub fn purge_deleted_groups(&mut self) -> (n: usize)
        requires
            old(self).wf(),
        ensures
            final(self).wf(),
            final(self).group_rows@ == live_groups(old(self).group_rows@),
            final(self).message_rows@ == old(self).message_rows@.filter(
                |m: MessageEntity| !doomed(old(self).group_rows@, m.group_id@),
            ),
            final(self).outbox_rows@ == old(self).outbox_rows@.filter(
                |e: OutboxEntity| !doomed(old(self).group_rows@, e.group_id@),
            ),
            final(self).reply_rows@ == old(self).reply_rows@.filter(
                |e: LocalCommandReplyEntity| !doomed(old(self).group_rows@, e.group_id@),
            ),
            final(self).member_rows@ == spared_members(
                old(self).group_rows@,
                old(self).member_rows@,
            ),
            final(self).next_reply_id == old(self).next_reply_id,
            n == old(self).group_rows@.len() - final(self).group_rows@.len(),
            log(final(self).changes@) == log(old(self).changes@).push(Change::Groups),
    {
        let ghost gone = self.group_rows@;
        let messages = self.surviving_messages();
        let outbox = self.surviving_outbox();
        let replies = self.surviving_replies();
        let members = self.surviving_members();
        let ghost keep = |g: GroupEntity| !g.is_deleted;
        let mut kept: Vec<GroupEntity> = Vec::new();
        let mut i: usize = 0;
        proof {
            reveal(Seq::filter);
            assert(gone.take(0).filter(keep) =~= Seq::empty());
        }
        while i < self.group_rows.len()
            invariant
                *self == *old(self),
                gone == self.group_rows@,
                i <= self.group_rows.len(),
                keep == (|g: GroupEntity| !g.is_deleted),
                kept@ == gone.take(i as int).filter(keep),
                kept@.len() <= i,
            decreases self.group_rows.len() - i,
        {
            proof {
                reveal(Seq::filter);
                assert(gone.take(i + 1).drop_last() =~= gone.take(i as int));
            }
            if !self.group_rows[i].is_deleted {
                kept.push(self.group_rows[i].clone());
            }
            i += 1;
        }
        assert(gone.take(i as int) =~= gone);
        let n: usize = self.group_rows.len() - kept.len();
        proof {
            lemma_filter_messages(
                self.message_rows@,
                |m: MessageEntity| !doomed(gone, m.group_id@),
            );
            lemma_filter_unique(self.outbox_rows@, |e: OutboxEntity| !doomed(gone, e.group_id@));
            lemma_filter_numbered(
                self.reply_rows@,
                |e: LocalCommandReplyEntity| !doomed(gone, e.group_id@),
                self.next_reply_id,
            );
            lemma_filter_groups(gone);
            lemma_filter_members(gone, self.member_rows@);
        }
        self.group_rows = kept;
        self.message_rows = messages;
        self.outbox_rows = outbox;
        self.reply_rows = replies;
        self.member_rows = members;
        self.notify(StoreChange::Groups);
        n
    }

    fn is_doomed(&self, id: &String) -> (r: bool)
        ensures
            r == doomed(self.group_rows@, id@),
    {
        let mut i: usize = 0;
        while i < self.group_rows.len()
            invariant
                i <= self.group_rows.len(),
                forall|k: int|
                    0 <= k < i ==> !((#[trigger] self.group_rows@[k]).id@ == id@
                        && self.group_rows@[k].is_deleted),
            decreases self.group_rows.len() - i,
        {
            if self.group_rows[i].is_deleted && self.group_rows[i].id == *id {
                return true;
            }
            i += 1;
        }
        false
    }

    fn surviving_messages(&self) -> (r: Vec<MessageEntity>)
        ensures
            r@ == self.message_rows@.filter(
                |m: MessageEntity| !doomed(self.group_rows@, m.group_id@),
            ),
    {
        let ghost keep = |m: MessageEntity| !doomed(self.group_rows@, m.group_id@);
        let mut kept: Vec<MessageEntity> = Vec::new();
        let mut i: usize = 0;
        proof {
            reveal(Seq::filter);
            assert(self.message_rows@.take(0).filter(keep) =~= Seq::empty());
        }
        while i < self.message_rows.len()
            invariant
                i <= self.message_rows.len(),
                keep == (|m: MessageEntity| !doomed(self.group_rows@, m.group_id@)),
                kept@ == self.message_rows@.take(i as int).filter(keep),
            decreases self.message_rows.len() - i,
        {
            proof {
                reveal(Seq::filter);
                assert(self.message_rows@.take(i + 1).drop_last() =~= self.message_rows@.take(
                    i as int,
                ));
            }
            if !self.is_doomed(&self.message_rows[i].group_id) {
                kept.push(self.message_rows[i].clone());
            }
            i += 1;
        }
        assert(self.message_rows@.take(i as int) =~= self.message_rows@);
        kept
    }

    fn surviving_outbox(&self) -> (r: Vec<OutboxEntity>)
        ensures
            r@ == self.outbox_rows@.filter(
                |e: OutboxEntity| !doomed(self.group_rows@, e.group_id@),
            ),
    {
        let ghost keep = |e: OutboxEntity| !doomed(self.group_rows@, e.group_id@);
        let mut kept: Vec<OutboxEntity> = Vec::new();
        let mut i: usize = 0;
        proof {
            reveal(Seq::filter);
            assert(self.outbox_rows@.take(0).filter(keep) =~= Seq::empty());
        }
        while i < self.outbox_rows.len()
            invariant
                i <= self.outbox_rows.len(),
                keep == (|e: OutboxEntity| !doomed(self.group_rows@, e.group_id@)),
                kept@ == self.outbox_rows@.take(i as int).filter(keep),
            decreases self.outbox_rows.len() - i,
        {
            proof {
                reveal(Seq::filter);
                assert(self.outbox_rows@.take(i + 1).drop_last() =~= self.outbox_rows@.take(
                    i as int,
                ));
            }
            if !self.is_doomed(&self.outbox_rows[i].group_id) {
                kept.push(self.outbox_rows[i].clone());
            }
            i += 1;
        }
        assert(self.outbox_rows@.take(i as int) =~= self.outbox_rows@);
        kept
    }

    fn surviving_replies(&self) -> (r: Vec<LocalCommandReplyEntity>)
        ensures
            r@ == self.reply_rows@.filter(
                |e: LocalCommandReplyEntity| !doomed(self.group_rows@, e.group_id@),
            ),
    {
        let ghost keep = |e: LocalCommandReplyEntity| !doomed(self.group_rows@, e.group_id@);
        let mut kept: Vec<LocalCommandReplyEntity> = Vec::new();
        let mut i: usize = 0;
        proof {
            reveal(Seq::filter);
            assert(self.reply_rows@.take(0).filter(keep) =~= Seq::empty());
        }
        while i < self.reply_rows.len()
            invariant
                i <= self.reply_rows.len(),
                keep == (|e: LocalCommandReplyEntity| !doomed(self.group_rows@, e.group_id@)),
                kept@ == self.reply_rows@.take(i as int).filter(keep),
            decreases self.reply_rows.len() - i,
        {
            proof {
                reveal(Seq::filter);
                assert(self.reply_rows@.take(i + 1).drop_last() =~= self.reply_rows@.take(i as int));
            }
            if !self.is_doomed(&self.reply_rows[i].group_id) {
                kept.push(self.reply_rows[i].clone());
            }
            i += 1;
        }
        assert(self.reply_rows@.take(i as int) =~= self.reply_rows@);
        kept
    }

    fn surviving_members(&self) -> (r: Vec<MemberEntity>)
        ensures
            r@ == self.member_rows@.filter(
                |m: MemberEntity| !doomed(self.group_rows@, m.group_id@),
            ),
    {
        let ghost keep = |m: MemberEntity| !doomed(self.group_rows@, m.group_id@);
        let mut kept: Vec<MemberEntity> = Vec::new();
        let mut i: usize = 0;
        proof {
            reveal(Seq::filter);
            assert(self.member_rows@.take(0).filter(keep) =~= Seq::empty());
        }
        while i < self.member_rows.len()
            invariant
                i <= self.member_rows.len(),
                keep == (|m: MemberEntity| !doomed(self.group_rows@, m.group_id@)),
                kept@ == self.member_rows@.take(i as int).filter(keep),
            decreases self.member_rows.len() - i,
        {
            proof {
                reveal(Seq::filter);
                assert(self.member_rows@.take(i + 1).drop_last() =~= self.member_rows@.take(
                    i as int,
                ));
            }
            if !self.is_doomed(&self.member_rows[i].group_id) {
                kept.push(self.member_rows[i].clone());
            }
            i += 1;
        }
        assert(self.member_rows@.take(i as int) =~= self.member_rows@);
        kept
    }
}

/// `b` is `a` with its text dropped, if it is a message of the group up to the seq.
pub open spec fn redacted_row(
    a: MessageEntity,
    b: MessageEntity,
    group: Seq<char>,
    seq: i64,
) -> bool {
    if a.group_id@ == group && a.seq <= seq {
        &&& b.body@.len() == 0
        &&& b == (MessageEntity { body: b.body, ..a })
    } else {
        b == a
    }
}

/// `after` is `before` with the texts of the group's messages up to the seq dropped.
pub open spec fn redacted(
    before: Seq<MessageEntity>,
    after: Seq<MessageEntity>,
    group: Seq<char>,
    seq: i64,
) -> bool {
    &&& after.len() == before.len()
    &&& forall|i: int|
        0 <= i < before.len() ==> redacted_row(before[i], #[trigger] after[i], group, seq)
}

proof fn lemma_filter_messages(rows: Seq<MessageEntity>, keep: spec_fn(MessageEntity) -> bool)
    requires
        messages_unique(rows),
    ensures
        messages_unique(rows.filter(keep)),
        forall|i: int| 0 <= i < rows.filter(keep).len() ==> rows.contains(#[trigger] rows.filter(keep)[i]),
    decreases rows.len(),
{
    reveal(Seq::filter);
    if rows.len() > 0 {
        let head = rows.drop_last();
        let f = head.filter(keep);
        let g = rows.filter(keep);
        assert(messages_unique(head)) by {
            assert forall|i: int, j: int| 0 <= i < j < head.len() implies (#[trigger] head[i]).id@
                != (#[trigger] head[j]).id@ && !(head[i].group_id@ == head[j].group_id@
                && head[i].seq == head[j].seq) by {
                assert(rows[i] == head[i] && rows[j] == head[j]);
            }
        }
        lemma_filter_messages(head, keep);
        assert forall|i: int| 0 <= i < g.len() implies rows.contains(#[trigger] g[i]) by {
            if i < f.len() {
                assert(g[i] == f[i]);
                let k = choose|k: int| 0 <= k < head.len() && head[k] == f[i];
                assert(rows[k] == g[i]);
            } else {
                assert(rows[rows.len() - 1] == g[i]);
            }
        }
        assert forall|i: int, j: int| 0 <= i < j < g.len() implies (#[trigger] g[i]).id@ != (
        #[trigger] g[j]).id@ && !(g[i].group_id@ == g[j].group_id@ && g[i].seq == g[j].seq) by {
            assert(g[i] == f[i]);
            if j < f.len() {
                assert(g[j] == f[j]);
            } else {
                let k = choose|k: int| 0 <= k < head.len() && head[k] == f[i];
                assert(rows[k] == g[i]);
                assert(rows[rows.len() - 1] == g[j]);
            }
        }
    }
}

proof fn lemma_filter_groups(rows: Seq<GroupEntity>)
    requires
        groups_unique(rows),
    ensures
        groups_unique(live_groups(rows)),
        forall|i: int|
            0 <= i < live_groups(rows).len() ==> rows.contains(#[trigger] live_groups(rows)[i]),
        forall|i: int|
            0 <= i < rows.len() && !(#[trigger] rows[i]).is_deleted ==> live_groups(rows).contains(
                rows[i],
            ),
    decreases rows.len(),
{
    reveal(Seq::filter);
    if rows.len() > 0 {
        let head = rows.drop_last();
        let f = live_groups(head);
        let g = live_groups(rows);
        assert(groups_unique(head)) by {
            assert forall|i: int, j: int| 0 <= i < j < head.len() implies (#[trigger] head[i]).id@
                != (#[trigger] head[j]).id@ by {
                assert(rows[i] == head[i] && rows[j] == head[j]);
            }
        }
        lemma_filter_groups(head);
        assert forall|i: int| 0 <= i < g.len() implies rows.contains(#[trigger] g[i]) by {
            if i < f.len() {
                assert(g[i] == f[i]);
                let k = choose|k: int| 0 <= k < head.len() && head[k] == f[i];
                assert(rows[k] == g[i]);
            } else {
                assert(rows[rows.len() - 1] == g[i]);
            }
        }
        assert forall|i: int, j: int| 0 <= i < j < g.len() implies (#[trigger] g[i]).id@ != (
        #[trigger] g[j]).id@ by {
            assert(g[i] == f[i]);
            if j < f.len() {
                assert(g[j] == f[j]);
            } else {
                let k = choose|k: int| 0 <= k < head.len() && head[k] == f[i];
                assert(rows[k] == g[i]);
                assert(rows[rows.len() - 1] == g[j]);
            }
        }
        assert forall|i: int| 0 <= i < rows.len() && !(#[trigger] rows[i]).is_deleted implies g.contains(
            rows[i],
        ) by {
            if i < head.len() {
                assert(head[i] == rows[i]);
                let k = choose|k: int| 0 <= k < f.len() && f[k] == head[i];
                assert(g[k] == rows[i]);
            } else {
                assert(g[g.len() - 1] == rows[i]);
            }
        }
    }
}

/// The members whose group is not marked deleted.
pub open spec fn spared_members(
    groups: Seq<GroupEntity>,
    rows: Seq<MemberEntity>,
) -> Seq<MemberEntity> {
    rows.filter(|m: MemberEntity| !doomed(groups, m.group_id@))
}

proof fn lemma_filter_members(groups: Seq<GroupEntity>, rows: Seq<MemberEntity>)
    requires
        groups_unique(groups),
        members_unique(rows),
        members_attached(groups, rows),
    ensures
        members_unique(spared_members(groups, rows)),
        members_attached(live_groups(groups), spared_members(groups, rows)),
        forall|i: int|
            0 <= i < spared_members(groups, rows).len() ==> rows.contains(
                #[trigger] spared_members(groups, rows)[i],
            ),
    decreases rows.len(),
{
    reveal(Seq::filter);
    let live = live_groups(groups);
    if rows.len() > 0 {
        let head = rows.drop_last();
        let f = spared_members(groups, head);
        let g = spared_members(groups, rows);
        assert(members_unique(head)) by {
            assert forall|i: int, j: int| 0 <= i < j < head.len() implies !((#[trigger] head[
                i
            ]).group_id@ == (#[trigger] head[j]).group_id@ && head[i].user_id@ == head[j].user_id@) by {
                assert(rows[i] == head[i] && rows[j] == head[j]);
            }
        }
        assert(members_attached(groups, head)) by {
            assert forall|i: int| 0 <= i < head.len() implies group_known(
                groups,
                (#[trigger] head[i]).group_id@,
            ) by {
                assert(rows[i] == head[i]);
            }
        }
        lemma_filter_members(groups, head);
        assert forall|i: int| 0 <= i < g.len() implies rows.contains(#[trigger] g[i]) by {
            if i < f.len() {
                assert(g[i] == f[i]);
                let k = choose|k: int| 0 <= k < head.len() && head[k] == f[i];
                assert(rows[k] == g[i]);
            } else {
                assert(rows[rows.len() - 1] == g[i]);
            }
        }
        assert forall|i: int, j: int| 0 <= i < j < g.len() implies !((#[trigger] g[i]).group_id@ == (
        #[trigger] g[j]).group_id@ && g[i].user_id@ == g[j].user_id@) by {
            assert(g[i] == f[i]);
            if j < f.len() {
                assert(g[j] == f[j]);
            } else {
                let k = choose|k: int| 0 <= k < head.len() && head[k] == f[i];
                assert(rows[k] == g[i]);
                assert(rows[rows.len() - 1] == g[j]);
            }
        }
        assert forall|i: int| 0 <= i < g.len() implies group_known(
            live,
            (#[trigger] g[i]).group_id@,
        ) by {
            if i < f.len() {
                assert(g[i] == f[i]);
            } else {
                let m = rows[rows.len() - 1];
                assert(g[i] == m);
                let k = choose|k: int|
                    0 <= k < groups.len() && (#[trigger] groups[k]).id@ == m.group_id@;
                assert(!groups[k].is_deleted);
                lemma_filter_groups(groups);
                let j = choose|j: int| 0 <= j < live.len() && live[j] == groups[k];
                assert(live[j].id@ == m.group_id@);
            }
        }
    }
}

/// Redaction drops texts and nothing else: every message stays with its id, group and seq.
pub proof fn law_redaction_keeps_identity(
    before: Seq<MessageEntity>,
    after: Seq<MessageEntity>,
    group: Seq<char>,
    seq: i64,
    i: int,
)
    requires
        redacted(before, after, group, seq),
        0 <= i < before.len(),
    ensures
        after[i].id == before[i].id,
        after[i].group_id == before[i].group_id,
        after[i].seq == before[i].seq,
        after[i].client_message_id == before[i].client_message_id,
        before[i].group_id@ == group && before[i].seq <= seq ==> after[i].body@.len() == 0,
{
    assert(redacted_row(before[i], after[i], group, seq));
}

/// A message is refused after redaction exactly when it was before: duplicates are still known.
pub proof fn law_dedup_survives_redaction(
    before: Seq<MessageEntity>,
    after: Seq<MessageEntity>,
    group: Seq<char>,
    seq: i64,
    m: MessageEntity,
)
    requires
        redacted(before, after, group, seq),
    ensures
        storable(before, m) == storable(after, m),
{
    if storable(before, m) {
        assert forall|i: int| 0 <= i < after.len() implies (#[trigger] after[i]).id@ != m.id@ && !(
        after[i].group_id@ == m.group_id@ && after[i].seq == m.seq) by {
            assert(redacted_row(before[i], after[i], group, seq));
            assert(before[i].id@ != m.id@);
        }
    }
    if storable(after, m) {
        assert forall|i: int| 0 <= i < before.len() implies (#[trigger] before[i]).id@ != m.id@ && !(
        before[i].group_id@ == m.group_id@ && before[i].seq == m.seq) by {
            assert(redacted_row(before[i], after[i], group, seq));
            assert(after[i].id@ != m.id@);
        }
    }
}

proof fn lemma_blocked_stays(rows: Seq<MessageEntity>, list: Seq<MessageEntity>, m: MessageEntity)
    requires
        !storable(rows, m),
    ensures
        !storable(stored_all(rows, list), m),
{
    lemma_stored_all_len(rows, list);
    let i = choose|i: int|
        0 <= i < rows.len() && !((#[trigger] rows[i]).id@ != m.id@ && !(rows[i].group_id@
            == m.group_id@ && rows[i].seq == m.seq));
    assert(stored_all(rows, list)[i] == rows[i]);
}

proof fn lemma_attempted_is_blocked(
    rows: Seq<MessageEntity>,
    list: Seq<MessageEntity>,
    m: MessageEntity,
)
    requires
        list.contains(m),
    ensures
        !storable(stored_all(rows, list), m),
    decreases list.len(),
{
    let head = list.drop_last();
    let before = stored_all(rows, head);
    if list.last() == m {
        if storable(before, m) {
            assert(stored_all(rows, list)[before.len() as int] == m);
        }
    } else {
        let k = choose|k: int| 0 <= k < list.len() && list[k] == m;
        assert(head[k] == m);
        lemma_attempted_is_blocked(rows, head, m);
        let one = seq![list.last()];
        assert(one.drop_last() =~= Seq::empty());
        reveal_with_fuel(stored_all, 2);
        assert(stored_all(before, one) == stored_all(rows, list));
        lemma_blocked_stays(before, one, m);
    }
}

proof fn lemma_stored_origin(rows: Seq<MessageEntity>, list: Seq<MessageEntity>, x: MessageEntity)
    requires
        stored_all(rows, list).contains(x),
    ensures
        rows.contains(x) || list.contains(x),
    decreases list.len(),
{
    if list.len() > 0 {
        let head = list.drop_last();
        let before = stored_all(rows, head);
        let all = stored_all(rows, list);
        let k = choose|k: int| 0 <= k < all.len() && all[k] == x;
        if k < before.len() {
            assert(before[k] == x);
            lemma_stored_origin(rows, head, x);
            if head.contains(x) {
                let j = choose|j: int| 0 <= j < head.len() && head[j] == x;
                assert(list[j] == x);
            }
        } else {
            assert(list[list.len() - 1] == x);
        }
    }
}

proof fn lemma_nothing_storable(rows: Seq<MessageEntity>, list: Seq<MessageEntity>)
    requires
        forall|i: int| 0 <= i < list.len() ==> !storable(rows, #[trigger] list[i]),
    ensures
        stored_all(rows, list) == rows,
    decreases list.len(),
{
    if list.len() > 0 {
        let head = list.drop_last();
        assert forall|i: int| 0 <= i < head.len() implies !storable(rows, #[trigger] head[i]) by {
            assert(head[i] == list[i]);
        }
        lemma_nothing_storable(rows, head);
        assert(!storable(rows, list[list.len() - 1]));
    }
}

proof fn lemma_in_group(rows: Seq<MessageEntity>, group: Seq<char>)
    ensures
        forall|i: int|
            0 <= i < rows.len() && (#[trigger] rows[i]).group_id@ == group ==> in_group(
                rows,
                group,
            ).contains(rows[i]),
        forall|i: int|
            0 <= i < in_group(rows, group).len() ==> rows.contains(
                #[trigger] in_group(rows, group)[i],
            ) && in_group(rows, group)[i].group_id@ == group,
    decreases rows.len(),
{
    reveal(Seq::filter);
    if rows.len() > 0 {
        let head = rows.drop_last();
        let f = in_group(head, group);
        let g = in_group(rows, group);
        lemma_in_group(head, group);
        assert forall|i: int| 0 <= i < rows.len() && (#[trigger] rows[i]).group_id@
            == group implies g.contains(rows[i]) by {
            if i < head.len() {
                assert(head[i] == rows[i]);
                let k = choose|k: int| 0 <= k < f.len() && f[k] == head[i];
                assert(g[k] == rows[i]);
            } else {
                assert(g[g.len() - 1] == rows[i]);
            }
        }
        assert forall|i: int| 0 <= i < g.len() implies rows.contains(#[trigger] g[i]) && g[i].group_id@
            == group by {
            if i < f.len() {
                assert(g[i] == f[i]);
                let k = choose|k: int| 0 <= k < head.len() && head[k] == f[i];
                assert(rows[k] == g[i]);
            } else {
                assert(rows[rows.len() - 1] == g[i]);
            }
        }
    }
}

/// A stored message of the group bears the id.
pub proof fn lemma_ids_in(rows: Seq<MessageEntity>, group: Seq<char>, id: Seq<char>)
    ensures
        ids_in(rows, group).contains(id) <==> exists|i: int|
            0 <= i < rows.len() && (#[trigger] rows[i]).id@ == id && rows[i].group_id@ == group,
{
    lemma_in_group(rows, group);
    let g = in_group(rows, group);
    if ids_in(rows, group).contains(id) {
        let k = choose|k: int| 0 <= k < ids_in(rows, group).len() && ids_in(rows, group)[k] == id;
        assert(rows.contains(g[k]));
        let i = choose|i: int| 0 <= i < rows.len() && rows[i] == g[k];
        assert(rows[i].id@ == id);
    }
    if exists|i: int| 0 <= i < rows.len() && (#[trigger] rows[i]).id@ == id && rows[i].group_id@ == group {
        let i = choose|i: int|
            0 <= i < rows.len() && (#[trigger] rows[i]).id@ == id && rows[i].group_id@ == group;
        let k = choose|k: int| 0 <= k < g.len() && g[k] == rows[i];
        assert(ids_in(rows, group)[k] == id);
    }
}

/// A stored message of the group bears the seq.
pub proof fn lemma_seqs_in(rows: Seq<MessageEntity>, group: Seq<char>, seq: i64)
    ensures
        seqs_in(rows, group).contains(seq) <==> exists|i: int|
            0 <= i < rows.len() && (#[trigger] rows[i]).seq == seq && rows[i].group_id@ == group,
{
    lemma_in_group(rows, group);
    let g = in_group(rows, group);
    if seqs_in(rows, group).contains(seq) {
        let k = choose|k: int| 0 <= k < seqs_in(rows, group).len() && seqs_in(rows, group)[k] == seq;
        assert(rows.contains(g[k]));
        let i = choose|i: int| 0 <= i < rows.len() && rows[i] == g[k];
        assert(rows[i].seq == seq);
    }
    if exists|i: int| 0 <= i < rows.len() && (#[trigger] rows[i]).seq == seq && rows[i].group_id@ == group {
        let i = choose|i: int|
            0 <= i < rows.len() && (#[trigger] rows[i]).seq == seq && rows[i].group_id@ == group;
        let k = choose|k: int| 0 <= k < g.len() && g[k] == rows[i];
        assert(seqs_in(rows, group)[k] == seq);
    }
}

/// Delivering a batch of a group a second time stores nothing.
pub proof fn law_redelivery_stores_nothing(
    rows: Seq<MessageEntity>,
    group: Seq<char>,
    batch: Seq<MessageEntity>,
    unconfirmed: Seq<Seq<char>>,
    plan: ReconcilePlan,
    later_unconfirmed: Seq<Seq<char>>,
    later: ReconcilePlan,
)
    requires
        forall|i: int| 0 <= i < batch.len() ==> (#[trigger] batch[i]).group_id@ == group,
        plan_is(batch, ids_in(rows, group), seqs_in(rows, group), unconfirmed, plan),
        plan_is(
            batch,
            ids_in(stored_all(rows, plan.to_insert@), group),
            seqs_in(stored_all(rows, plan.to_insert@), group),
            later_unconfirmed,
            later,
        ),
    ensures
        stored_all(stored_all(rows, plan.to_insert@), later.to_insert@) == stored_all(
            rows,
            plan.to_insert@,
        ),
{
    let after = stored_all(rows, plan.to_insert@);
    assert forall|k: int| 0 <= k < later.to_insert@.len() implies !storable(
        after,
        #[trigger] later.to_insert@[k],
    ) by {
        lemma_redelivered_message(
            rows,
            group,
            batch,
            unconfirmed,
            plan,
            later_unconfirmed,
            later,
            k,
        );
    }
    lemma_nothing_storable(after, later.to_insert@);
}

proof fn lemma_redelivered_message(
    rows: Seq<MessageEntity>,
    group: Seq<char>,
    batch: Seq<MessageEntity>,
    unconfirmed: Seq<Seq<char>>,
    plan: ReconcilePlan,
    later_unconfirmed: Seq<Seq<char>>,
    later: ReconcilePlan,
    k: int,
)
    requires
        forall|i: int| 0 <= i < batch.len() ==> (#[trigger] batch[i]).group_id@ == group,
        plan_is(batch, ids_in(rows, group), seqs_in(rows, group), unconfirmed, plan),
        plan_is(
            batch,
            ids_in(stored_all(rows, plan.to_insert@), group),
            seqs_in(stored_all(rows, plan.to_insert@), group),
            later_unconfirmed,
            later,
        ),
        0 <= k < later.to_insert@.len(),
    ensures
        !storable(stored_all(rows, plan.to_insert@), later.to_insert@[k]),
{
    let ids = ids_in(rows, group);
    let seqs = seqs_in(rows, group);
    let after = stored_all(rows, plan.to_insert@);
    let ids2 = ids_in(after, group);
    let seqs2 = seqs_in(after, group);
    let m = later.to_insert@[k];
    let kept = fresh_messages(batch, ids, seqs, batch.len() as int);
    let i = lemma_planned_origin(batch, ids2, seqs2, later_unconfirmed, later, k);
    lemma_stored_all_len(rows, plan.to_insert@);
    if fresh(batch, ids, seqs, i) {
        lemma_fresh_is_kept(batch, ids, seqs, batch.len() as int, i);
        crate::sorting::law_sorting_keeps_rows(plan.to_insert@, kept, m);
        lemma_attempted_is_blocked(rows, plan.to_insert@, m);
    } else if ids.contains(m.id@) {
        lemma_ids_in(rows, group, m.id@);
        let r = choose|r: int|
            0 <= r < rows.len() && (#[trigger] rows[r]).id@ == m.id@ && rows[r].group_id@ == group;
        assert(after[r] == rows[r]);
    } else if seqs.contains(m.seq) {
        lemma_seqs_in(rows, group, m.seq);
        let r = choose|r: int|
            0 <= r < rows.len() && (#[trigger] rows[r]).seq == m.seq && rows[r].group_id@ == group;
        assert(after[r] == rows[r]);
        assert(batch[i].group_id@ == group);
    } else {
        assert(new_id(batch, ids, i));
        let j = choose|j: int|
            0 <= j < i && #[trigger] new_id(batch, ids, j) && batch[j].seq == batch[i].seq;
        assert(!new_id(batch, ids2, j));
        assert(ids2.contains(batch[j].id@));
        lemma_ids_in(after, group, batch[j].id@);
        let r = choose|r: int|
            0 <= r < after.len() && (#[trigger] after[r]).id@ == batch[j].id@ && after[r].group_id@
                == group;
        let x = after[r];
        assert(after.contains(x));
        lemma_stored_origin(rows, plan.to_insert@, x);
        if rows.contains(x) {
            lemma_ids_in(rows, group, x.id@);
            let q = choose|q: int| 0 <= q < rows.len() && rows[q] == x;
            assert(rows[q].id@ == x.id@ && rows[q].group_id@ == group);
            assert(false);
        }
        let q = choose|q: int| 0 <= q < plan.to_insert@.len() && plan.to_insert@[q] == x;
        let p = lemma_planned_origin(batch, ids, seqs, unconfirmed, plan, q);
        assert(batch[p].id@ == batch[j].id@);
        if p < j {
            assert(batch[p].id@ != batch[j].id@);
        } else if j < p {
            assert(batch[j].id@ != batch[p].id@);
        }
        assert(x.seq == m.seq);
        assert(batch[i].group_id@ == group);
    }
}

/// A planned message stands in the batch and is no duplicate there.
pub proof fn lemma_planned_origin(
    batch: Seq<MessageEntity>,
    ids: Seq<Seq<char>>,
    seqs: Seq<i64>,
    unconfirmed: Seq<Seq<char>>,
    plan: ReconcilePlan,
    k: int,
) -> (i: int)
    requires
        plan_is(batch, ids, seqs, unconfirmed, plan),
        0 <= k < plan.to_insert@.len(),
    ensures
        0 <= i < batch.len(),
        batch[i] == plan.to_insert@[k],
        fresh(batch, ids, seqs, i),
{
    let kept = fresh_messages(batch, ids, seqs, batch.len() as int);
    let m = plan.to_insert@[k];
    crate::sorting::law_sorting_keeps_rows(plan.to_insert@, kept, m);
    assert(plan.to_insert@.contains(m));
    let j = choose|j: int| 0 <= j < kept.len() && kept[j] == m;
    crate::reconcile::lemma_kept_origin(batch, ids, seqs, batch.len() as int, j)
}

pub proof fn lemma_fresh_is_kept(
    batch: Seq<MessageEntity>,
    ids: Seq<Seq<char>>,
    seqs: Seq<i64>,
    n: int,
    i: int,
)
    requires
        0 <= i < n <= batch.len(),
        fresh(batch, ids, seqs, i),
    ensures
        fresh_messages(batch, ids, seqs, n).contains(batch[i]),
    decreases n,
{
    let before = fresh_messages(batch, ids, seqs, n - 1);
    let all = fresh_messages(batch, ids, seqs, n);
    if i == n - 1 {
        assert(all[before.len() as int] == batch[i]);
    } else {
        lemma_fresh_is_kept(batch, ids, seqs, n - 1, i);
        let k = choose|k: int| 0 <= k < before.len() && before[k] == batch[i];
        assert(all[k] == batch[i]);
    }
}

/// Among the messages with a new id and the seq of `batch[i]`, one is no duplicate.
proof fn lemma_first_bearer(
    batch: Seq<MessageEntity>,
    ids: Seq<Seq<char>>,
    seqs: Seq<i64>,
    i: int,
) -> (j: int)
    requires
        0 <= i < batch.len(),
        new_id(batch, ids, i),
        !seqs.contains(batch[i].seq),
    ensures
        0 <= j <= i,
        fresh(batch, ids, seqs, j),
        batch[j].seq == batch[i].seq,
    decreases i,
{
    if fresh(batch, ids, seqs, i) {
        i
    } else {
        let k = choose|k: int|
            0 <= k < i && #[trigger] new_id(batch, ids, k) && batch[k].seq == batch[i].seq;
        lemma_first_bearer(batch, ids, seqs, k)
    }
}

/// Once a batch is applied, every message of it is in the store: a row bears its id, or its seq in
/// its group. An id stands for one message of one group.
pub proof fn law_delivered_is_stored(
    rows: Seq<MessageEntity>,
    group: Seq<char>,
    batch: Seq<MessageEntity>,
    unconfirmed: Seq<Seq<char>>,
    plan: ReconcilePlan,
    i: int,
)
    requires
        forall|k: int| 0 <= k < batch.len() ==> (#[trigger] batch[k]).group_id@ == group,
        forall|r: int, k: int|
            0 <= r < rows.len() && 0 <= k < batch.len() && (#[trigger] rows[r]).id@ == (
            #[trigger] batch[k]).id@ ==> rows[r].group_id@ == group,
        forall|j: int, k: int|
            0 <= j < batch.len() && 0 <= k < batch.len() && (#[trigger] batch[j]).id@ == (
            #[trigger] batch[k]).id@ ==> batch[j].seq == batch[k].seq,
        plan_is(batch, ids_in(rows, group), seqs_in(rows, group), unconfirmed, plan),
        0 <= i < batch.len(),
    ensures
        !storable(stored_all(rows, plan.to_insert@), batch[i]),
    decreases i,
{
    let ids = ids_in(rows, group);
    let seqs = seqs_in(rows, group);
    let after = stored_all(rows, plan.to_insert@);
    let m = batch[i];
    let kept = fresh_messages(batch, ids, seqs, batch.len() as int);
    lemma_stored_all_len(rows, plan.to_insert@);
    if ids.contains(m.id@) {
        lemma_ids_in(rows, group, m.id@);
        let r = choose|r: int|
            0 <= r < rows.len() && (#[trigger] rows[r]).id@ == m.id@ && rows[r].group_id@ == group;
        assert(after[r] == rows[r]);
    } else if seqs.contains(m.seq) {
        lemma_seqs_in(rows, group, m.seq);
        let r = choose|r: int|
            0 <= r < rows.len() && (#[trigger] rows[r]).seq == m.seq && rows[r].group_id@ == group;
        assert(after[r] == rows[r]);
    } else if !new_id(batch, ids, i) {
        let j = choose|j: int| 0 <= j < i && (#[trigger] batch[j]).id@ == m.id@;
        law_delivered_is_stored(rows, group, batch, unconfirmed, plan, j);
        assert(batch[j].seq == batch[i].seq);
        let r = choose|r: int|
            0 <= r < after.len() && !((#[trigger] after[r]).id@ != batch[j].id@ && !(after[
                r
            ].group_id@ == batch[j].group_id@ && after[r].seq == batch[j].seq));
        assert(after[r].id@ == m.id@ || (after[r].group_id@ == m.group_id@ && after[r].seq
            == m.seq));
    } else {
        let j = lemma_first_bearer(batch, ids, seqs, i);
        lemma_fresh_is_kept(batch, ids, seqs, batch.len() as int, j);
        crate::sorting::law_sorting_keeps_rows(plan.to_insert@, kept, batch[j]);
        lemma_attempted_is_blocked(rows, plan.to_insert@, batch[j]);
        let r = choose|r: int|
            0 <= r < after.len() && !((#[trigger] after[r]).id@ != batch[j].id@ && !(after[
                r
            ].group_id@ == batch[j].group_id@ && after[r].seq == batch[j].seq));
        let x = after[r];
        if x.id@ == batch[j].id@ {
            assert(after.contains(x));
            lemma_stored_origin(rows, plan.to_insert@, x);
            if rows.contains(x) {
                let q = choose|q: int| 0 <= q < rows.len() && rows[q] == x;
                assert(rows[q].id@ == batch[j].id@);
                lemma_ids_in(rows, group, batch[j].id@);
                assert(false);
            }
            let q = choose|q: int| 0 <= q < plan.to_insert@.len() && plan.to_insert@[q] == x;
            let p = lemma_planned_origin(batch, ids, seqs, unconfirmed, plan, q);
            if p < j {
                assert(batch[p].id@ != batch[j].id@);
            } else if j < p {
                assert(batch[j].id@ != batch[p].id@);
            }
            assert(x.seq == m.seq && x.group_id@ == m.group_id@);
        }
        assert(batch[j].group_id@ == m.group_id@);
    }
}

/// Once a batch is applied, a delivery of any of its messages, in any order, stores nothing.
pub proof fn law_partial_redelivery_stores_nothing(
    rows: Seq<MessageEntity>,
    group: Seq<char>,
    batch: Seq<MessageEntity>,
    unconfirmed: Seq<Seq<char>>,
    plan: ReconcilePlan,
    again: Seq<MessageEntity>,
    later_unconfirmed: Seq<Seq<char>>,
    later: ReconcilePlan,
)
    requires
        forall|k: int| 0 <= k < batch.len() ==> (#[trigger] batch[k]).group_id@ == group,
        forall|r: int, k: int|
            0 <= r < rows.len() && 0 <= k < batch.len() && (#[trigger] rows[r]).id@ == (
            #[trigger] batch[k]).id@ ==> rows[r].group_id@ == group,
        forall|j: int, k: int|
            0 <= j < batch.len() && 0 <= k < batch.len() && (#[trigger] batch[j]).id@ == (
            #[trigger] batch[k]).id@ ==> batch[j].seq == batch[k].seq,
        plan_is(batch, ids_in(rows, group), seqs_in(rows, group), unconfirmed, plan),
        forall|i: int| 0 <= i < again.len() ==> batch.contains(#[trigger] again[i]),
        plan_is(
            again,
            ids_in(stored_all(rows, plan.to_insert@), group),
            seqs_in(stored_all(rows, plan.to_insert@), group),
            later_unconfirmed,
            later,
        ),
    ensures
        stored_all(stored_all(rows, plan.to_insert@), later.to_insert@) == stored_all(
            rows,
            plan.to_insert@,
        ),
{
    let after = stored_all(rows, plan.to_insert@);
    assert forall|k: int| 0 <= k < later.to_insert@.len() implies !storable(
        after,
        #[trigger] later.to_insert@[k],
    ) by {
        let j = lemma_planned_origin(
            again,
            ids_in(after, group),
            seqs_in(after, group),
            later_unconfirmed,
            later,
            k,
        );
        let i = choose|i: int| 0 <= i < batch.len() && batch[i] == again[j];
        law_delivered_is_stored(rows, group, batch, unconfirmed, plan, i);
    }
    lemma_nothing_storable(after, later.to_insert@);
}

/// Storing a message twice stores it once.
pub proof fn law_storing_is_idempotent(rows: Seq<MessageEntity>, m: MessageEntity)
    ensures
        stored(stored(rows, m), m) == stored(rows, m),
{
    if storable(rows, m) {
        let s = rows.push(m);
        assert(s[rows.len() as int] == m);
        assert(!storable(s, m));
    }
}

} // verus!
