//! Operations on the outbox table.

use crate::constants::IN_FLIGHT_STALE;
use crate::models::opt_text;
use crate::sorting::{in_order, sorted, Keyed, SortKey};
use crate::store::local::{
    lemma_outbox_pos, log, outbox_pos, outbox_unique, replies_numbered, LocalStore,
};
use crate::store::{Change, LocalCommandReplyEntity, OutboxEntity, OutboxState, StoreChange};
use crate::text::{same, texts};
use vstd::prelude::*;

verus! {

impl Keyed for OutboxEntity {
    /// Oldest first.
    open spec fn key(self) -> SortKey {
        (self.created_at as int, Seq::empty(), Seq::empty(), 0)
    }

    fn up_to(&self, other: &Self) -> (r: bool) {
        self.created_at <= other.created_at
    }
}

impl Keyed for LocalCommandReplyEntity {
    /// Oldest first, then in order of arrival.
    open spec fn key(self) -> SortKey {
        (
            self.created_at as int,
            Seq::empty(),
            Seq::empty(),
            match self.id {
                Some(n) => n as int,
                None => 0,
            },
        )
    }

    fn up_to(&self, other: &Self) -> (r: bool) {
        let a: i64 = match self.id {
            Some(n) => n,
            None => 0,
        };
        let b: i64 = match other.id {
            Some(n) => n,
            None => 0,
        };
        self.created_at < other.created_at || (self.created_at == other.created_at && a <= b)
    }
}

/// One attempt more.
pub open spec fn bumped(n: i64) -> i64 {
    if n == i64::MAX {
        n
    } else {
        (n + 1) as i64
    }
}

fn bump(n: i64) -> (r: i64)
    ensures
        r == bumped(n),
{
    if n == i64::MAX {
        n
    } else {
        n + 1
    }
}

/// Unconfirmed rows of a group.
pub open spec fn unconfirmed_rows(rows: Seq<OutboxEntity>, group: Seq<char>) -> Seq<OutboxEntity> {
    rows.filter(|e: OutboxEntity| e.group_id@ == group && e.state != OutboxState::Confirmed)
}

/// Client ids of the unconfirmed rows of a group.
pub open spec fn unconfirmed_of(rows: Seq<OutboxEntity>, group: Seq<char>) -> Seq<Seq<char>> {
    let u = unconfirmed_rows(rows, group);
    Seq::new(u.len(), |i: int| u[i].client_message_id@)
}

/// A row was refused and no retry is scheduled.
pub open spec fn is_failed(e: OutboxEntity) -> bool {
    e.state == OutboxState::Pending && e.error_code is Some && e.next_attempt_at is None
}

/// Number of rows that are not confirmed.
pub open spec fn open_rows(rows: Seq<OutboxEntity>) -> nat
    decreases rows.len(),
{
    if rows.len() == 0 {
        0
    } else {
        open_rows(rows.drop_last()) + if rows.last().state == OutboxState::Confirmed {
            0nat
        } else {
            1nat
        }
    }
}

/// A row is due: a pending one whose time has come or that was never tried and not refused, or one
/// in flight since before `stale_before`.
pub open spec fn dispatchable(e: OutboxEntity, now: i64, stale_before: i64) -> bool {
    match e.state {
        OutboxState::Pending => match e.next_attempt_at {
            Some(t) => t <= now,
            None => e.error_code is None,
        },
        OutboxState::InFlight => match e.last_attempt_at {
            Some(t) => t <= stale_before,
            None => true,
        },
        OutboxState::Confirmed => false,
    }
}

/// When a row that is not due now becomes due.
pub open spec fn due_time(e: OutboxEntity, now: i64) -> Option<i64> {
    match e.state {
        OutboxState::Pending => match e.next_attempt_at {
            Some(t) => if t > now {
                Some(t)
            } else {
                None
            },
            None => None,
        },
        OutboxState::InFlight => match e.last_attempt_at {
            Some(t) => Some(
                if t + IN_FLIGHT_STALE > i64::MAX {
                    i64::MAX
                } else {
                    (t + IN_FLIGHT_STALE) as i64
                },
            ),
            None => None,
        },
        OutboxState::Confirmed => None,
    }
}

/// The earliest due time of a sequence of rows.
pub open spec fn earliest(rows: Seq<OutboxEntity>, now: i64) -> Option<i64>
    decreases rows.len(),
{
    if rows.len() == 0 {
        None
    } else {
        match (earliest(rows.drop_last(), now), due_time(rows.last(), now)) {
            (Some(a), Some(b)) => if a <= b {
                Some(a)
            } else {
                Some(b)
            },
            (Some(a), None) => Some(a),
            (None, b) => b,
        }
    }
}

/// A row the server has confirmed under `server_id` and `seq`.
pub open spec fn confirmed_row(e: OutboxEntity, server_id: String, seq: i64) -> OutboxEntity {
    OutboxEntity {
        state: OutboxState::Confirmed,
        error_code: None,
        next_attempt_at: None,
        confirmed_message_id: Some(server_id),
        confirmed_seq: Some(seq),
        ..e
    }
}

/// The outbox with the row for `id` confirmed.
pub open spec fn confirmed_in(
    rows: Seq<OutboxEntity>,
    id: Seq<char>,
    server_id: String,
    seq: i64,
) -> Seq<OutboxEntity> {
    let p = outbox_pos(rows, id);
    if p < rows.len() {
        rows.update(p, confirmed_row(rows[p], server_id, seq))
    } else {
        rows
    }
}

/// The changes after touching the row for `id`: one, for the row's group, if there is such a row.
pub open spec fn outbox_note(rows: Seq<OutboxEntity>, id: Seq<char>, c: Seq<Change>) -> Seq<Change> {
    let p = outbox_pos(rows, id);
    if p < rows.len() {
        c.push(Change::Outbox(rows[p].group_id@))
    } else {
        c
    }
}

/// The outbox with a send of the row for `id` started at `at`; a confirmed row stays as it is.
pub open spec fn in_flight_at(rows: Seq<OutboxEntity>, id: Seq<char>, at: i64) -> Seq<OutboxEntity> {
    let p = outbox_pos(rows, id);
    if p < rows.len() && rows[p].state != OutboxState::Confirmed {
        rows.update(
            p,
            OutboxEntity { state: OutboxState::InFlight, last_attempt_at: Some(at), ..rows[p] },
        )
    } else {
        rows
    }
}

/// `new` is the outbox after a failed send of the row for `id`: pending again, one attempt more,
/// due at `next`, or never when there is no such time. A confirmed row stays as it is.
pub open spec fn tried_again_at(
    rows: Seq<OutboxEntity>,
    id: Seq<char>,
    next: Option<i64>,
    code: Option<Seq<char>>,
    new: Seq<OutboxEntity>,
) -> bool {
    let p = outbox_pos(rows, id);
    if p < rows.len() && rows[p].state != OutboxState::Confirmed {
        &&& new == rows.update(
            p,
            OutboxEntity {
                state: OutboxState::Pending,
                error_code: new[p].error_code,
                next_attempt_at: next,
                attempt_count: bumped(rows[p].attempt_count),
                ..rows[p]
            },
        )
        &&& opt_text(new[p].error_code) == code
    } else {
        new == rows
    }
}

/// The outbox with the row for `id` due at `at`, its error forgotten; a confirmed row stays as it is.
pub open spec fn retried_at(rows: Seq<OutboxEntity>, id: Seq<char>, at: i64) -> Seq<OutboxEntity> {
    let p = outbox_pos(rows, id);
    if p < rows.len() && rows[p].state != OutboxState::Confirmed {
        rows.update(
            p,
            OutboxEntity {
                state: OutboxState::Pending,
                error_code: None,
                next_attempt_at: Some(at),
                ..rows[p]
            },
        )
    } else {
        rows
    }
}

/// A row repaired after a crash: delivered but not marked so, or refused only because the reply
/// could not be read.
pub open spec fn repaired(e: OutboxEntity, now: i64) -> OutboxEntity {
    let a = if e.confirmed_seq is Some && e.state != OutboxState::Confirmed {
        OutboxEntity {
            state: OutboxState::Confirmed,
            error_code: None,
            next_attempt_at: None,
            ..e
        }
    } else {
        e
    };
    if a.state == OutboxState::Pending && a.next_attempt_at is None && (opt_text(a.error_code)
        == Some("json"@) || opt_text(a.error_code) == Some("client-message-id-reused"@)) {
        OutboxEntity { next_attempt_at: Some(now), ..a }
    } else {
        a
    }
}

impl LocalStore {
    /// Queue a row; a row with the same client id stays as it is.
    pub fn insert_outbox(&mut self, e: &OutboxEntity)
        requires
            old(self).wf(),
        ensures
            final(self).wf(),
            final(self).outbox_rows@ == (if outbox_pos(
                old(self).outbox_rows@,
                e.client_message_id@,
            ) < old(self).outbox_rows@.len() {
                old(self).outbox_rows@
            } else {
                old(self).outbox_rows@.push(*e)
            }),
            final(self).rest_of_outbox(*old(self)),
            log(final(self).changes@) == log(old(self).changes@).push(Change::Outbox(e.group_id@)),
    {
        proof {
            lemma_outbox_pos(self.outbox_rows@, e.client_message_id@);
        }
        match self.find_outbox(e.client_message_id.as_str()) {
            Some(_) => {},
            None => {
                let ghost before = self.outbox_rows@;
                self.outbox_rows.push(e.clone());
                assert forall|a: int, b: int| 0 <= a < b < self.outbox_rows@.len() implies (
                #[trigger] self.outbox_rows@[a]).client_message_id@ != (
                #[trigger] self.outbox_rows@[b]).client_message_id@ by {
                    assert(self.outbox_rows@[a] == before[a]);
                    if b < before.len() {
                        assert(self.outbox_rows@[b] == before[b]);
                    }
                }
            },
        }
        self.notify(StoreChange::Outbox { group_id: e.group_id.clone() });
    }

    /// Number of rows that are not confirmed.
    pub fn pending_count(&self) -> (n: usize)
        ensures
            n == open_rows(self.outbox_rows@),
    {
        let mut n: usize = 0;
        let mut i: usize = 0;
        assert(self.outbox_rows@.take(0) =~= Seq::empty());
        while i < self.outbox_rows.len()
            invariant
                n <= i <= self.outbox_rows.len(),
                n == open_rows(self.outbox_rows@.take(i as int)),
            decreases self.outbox_rows.len() - i,
        {
            assert(self.outbox_rows@.take(i + 1).drop_last() =~= self.outbox_rows@.take(i as int));
            if self.outbox_rows[i].state != OutboxState::Confirmed {
                n += 1;
            }
            i += 1;
        }
        assert(self.outbox_rows@.take(i as int) =~= self.outbox_rows@);
        n
    }

    fn collect_unconfirmed(&self, group_id: &str) -> (r: Vec<OutboxEntity>)
        ensures
            r@ == unconfirmed_rows(self.outbox_rows@, group_id@),
    {
        let mut out: Vec<OutboxEntity> = Vec::new();
        let mut i: usize = 0;
        proof {
            reveal(Seq::filter);
            assert(unconfirmed_rows(self.outbox_rows@.take(0), group_id@) =~= Seq::empty());
        }
        while i < self.outbox_rows.len()
            invariant
                i <= self.outbox_rows.len(),
                out@ == unconfirmed_rows(self.outbox_rows@.take(i as int), group_id@),
            decreases self.outbox_rows.len() - i,
        {
            proof {
                reveal(Seq::filter);
                assert(self.outbox_rows@.take(i + 1).drop_last() =~= self.outbox_rows@.take(
                    i as int,
                ));
            }
            let e = &self.outbox_rows[i];
            if same(e.group_id.as_str(), group_id) && e.state != OutboxState::Confirmed {
                out.push(e.clone());
            }
            i += 1;
        }
        assert(self.outbox_rows@.take(i as int) =~= self.outbox_rows@);
        out
    }

    /// Client ids of a group's rows that are not confirmed.
    pub fn unconfirmed_ids(&self, group_id: &str) -> (r: Vec<String>)
        ensures
            texts(r@) == unconfirmed_of(self.outbox_rows@, group_id@),
    {
        let rows = self.collect_unconfirmed(group_id);
        let mut out: Vec<String> = Vec::new();
        let mut i: usize = 0;
        while i < rows.len()
            invariant
                i <= rows.len(),
                out@.len() == i,
                forall|k: int| 0 <= k < i ==> (#[trigger] out@[k])@ == rows@[k].client_message_id@,
            decreases rows.len() - i,
        {
            out.push(rows[i].client_message_id.clone());
            i += 1;
        }
        assert(texts(out@) =~= unconfirmed_of(self.outbox_rows@, group_id@));
        out
    }

    /// The row for a client id.
    pub fn get_outbox(&self, client_message_id: &str) -> (r: Option<OutboxEntity>)
        ensures
            r == (if outbox_pos(self.outbox_rows@, client_message_id@) < self.outbox_rows@.len() {
                Some(self.outbox_rows@[outbox_pos(self.outbox_rows@, client_message_id@)])
            } else {
                None
            }),
    {
        match self.find_outbox(client_message_id) {
            Some(i) => Some(self.outbox_rows[i].clone()),
            None => None,
        }
    }

    /// The rows of a group that are not confirmed, oldest first.
    pub fn pending_outbox(&self, group_id: &str) -> (r: Vec<OutboxEntity>)
        ensures
            in_order(r@),
            r@.to_multiset() == unconfirmed_rows(self.outbox_rows@, group_id@).to_multiset(),
            r@.len() == unconfirmed_rows(self.outbox_rows@, group_id@).len(),
    {
        sorted(self.collect_unconfirmed(group_id))
    }

    /// The rows of a group that were refused, oldest first.
    pub fn failed_outbox(&self, group_id: &str) -> (r: Vec<OutboxEntity>)
        ensures
            in_order(r@),
            r@.to_multiset() == self.outbox_rows@.filter(
                |e: OutboxEntity| e.group_id@ == group_id@ && is_failed(e),
            ).to_multiset(),
    {
        let ghost pick = |e: OutboxEntity| e.group_id@ == group_id@ && is_failed(e);
        let mut out: Vec<OutboxEntity> = Vec::new();
        let mut i: usize = 0;
        proof {
            reveal(Seq::filter);
            assert(self.outbox_rows@.take(0).filter(pick) =~= Seq::empty());
        }
        while i < self.outbox_rows.len()
            invariant
                i <= self.outbox_rows.len(),
                pick == (|e: OutboxEntity| e.group_id@ == group_id@ && is_failed(e)),
                out@ == self.outbox_rows@.take(i as int).filter(pick),
            decreases self.outbox_rows.len() - i,
        {
            proof {
                reveal(Seq::filter);
                assert(self.outbox_rows@.take(i + 1).drop_last() =~= self.outbox_rows@.take(
                    i as int,
                ));
            }
            let e = &self.outbox_rows[i];
            if same(e.group_id.as_str(), group_id) && e.state == OutboxState::Pending
                && e.error_code.is_some() && e.next_attempt_at.is_none() {
                out.push(e.clone());
            }
            i += 1;
        }
        assert(self.outbox_rows@.take(i as int) =~= self.outbox_rows@);
        sorted(out)
    }

    /// Drop the row for a client id.
    pub fn delete_outbox(&mut self, client_message_id: &str)
        requires
            old(self).wf(),
        ensures
            final(self).wf(),
            final(self).outbox_rows@ == ({
                let rows = old(self).outbox_rows@;
                let p = outbox_pos(rows, client_message_id@);
                if p < rows.len() {
                    rows.remove(p)
                } else {
                    rows
                }
            }),
            final(self).rest_of_outbox(*old(self)),
            log(final(self).changes@) == outbox_note(
                old(self).outbox_rows@,
                client_message_id@,
                log(old(self).changes@),
            ),
    {
        match self.find_outbox(client_message_id) {
            Some(i) => {
                let ghost before = self.outbox_rows@;
                let row = self.outbox_rows.remove(i);
                assert forall|a: int, b: int| 0 <= a < b < self.outbox_rows@.len() implies (
                #[trigger] self.outbox_rows@[a]).client_message_id@ != (
                #[trigger] self.outbox_rows@[b]).client_message_id@ by {
                    let a2 = if a < i {
                        a
                    } else {
                        a + 1
                    };
                    let b2 = if b < i {
                        b
                    } else {
                        b + 1
                    };
                    assert(before[a2].client_message_id@ != before[b2].client_message_id@);
                }
                self.notify(StoreChange::Outbox { group_id: row.group_id });
            },
            None => {},
        }
    }

    /// Drop confirmed rows created before a time; gives their number.
    pub fn purge_old_confirmed(&mut self, before: i64) -> (n: usize)
        requires
            old(self).wf(),
        ensures
            final(self).wf(),
            final(self).outbox_rows@ == old(self).outbox_rows@.filter(
                |e: OutboxEntity| !(e.state == OutboxState::Confirmed && e.created_at < before),
            ),
            n == old(self).outbox_rows@.len() - final(self).outbox_rows@.len(),
            final(self).rest_of_outbox(*old(self)),
            final(self).changes == old(self).changes,
    {
        let ghost keep = |e: OutboxEntity|
            !(e.state == OutboxState::Confirmed && e.created_at < before);
        let ghost rows = self.outbox_rows@;
        let mut kept: Vec<OutboxEntity> = Vec::new();
        let mut i: usize = 0;
        proof {
            reveal(Seq::filter);
            assert(rows.take(0).filter(keep) =~= Seq::empty());
        }
        while i < self.outbox_rows.len()
            invariant
                *self == *old(self),
                rows == self.outbox_rows@,
                i <= self.outbox_rows.len(),
                keep == (|e: OutboxEntity|
                    !(e.state == OutboxState::Confirmed && e.created_at < before)),
                kept@ == rows.take(i as int).filter(keep),
                kept@.len() <= i,
            decreases self.outbox_rows.len() - i,
        {
            proof {
                reveal(Seq::filter);
                assert(rows.take(i + 1).drop_last() =~= rows.take(i as int));
            }
            let e = &self.outbox_rows[i];
            if !(e.state == OutboxState::Confirmed && e.created_at < before) {
                kept.push(e.clone());
            }
            i += 1;
        }
        assert(rows.take(i as int) =~= rows);
        proof {
            lemma_filter_unique(rows, keep);
        }
        let n: usize = self.outbox_rows.len() - kept.len();
        self.outbox_rows = kept;
        n
    }

    /// The oldest row that is due, if any.
    pub fn next_dispatchable(&self, now: i64, stale_before: i64) -> (r: Option<OutboxEntity>)
        ensures
            match r {
                Some(e) => {
                    &&& self.outbox_rows@.contains(e)
                    &&& dispatchable(e, now, stale_before)
                    &&& forall|i: int|
                        0 <= i < self.outbox_rows@.len() && dispatchable(
                            #[trigger] self.outbox_rows@[i],
                            now,
                            stale_before,
                        ) ==> e.created_at <= self.outbox_rows@[i].created_at
                },
                None => forall|i: int|
                    0 <= i < self.outbox_rows@.len() ==> !dispatchable(
                        #[trigger] self.outbox_rows@[i],
                        now,
                        stale_before,
                    ),
            },
    {
        let mut best: Option<usize> = None;
        let mut i: usize = 0;
        while i < self.outbox_rows.len()
            invariant
                i <= self.outbox_rows.len(),
                match best {
                    Some(b) => {
                        &&& b < i
                        &&& dispatchable(self.outbox_rows@[b as int], now, stale_before)
                        &&& forall|k: int|
                            0 <= k < i && dispatchable(
                                #[trigger] self.outbox_rows@[k],
                                now,
                                stale_before,
                            ) ==> self.outbox_rows@[b as int].created_at
                                <= self.outbox_rows@[k].created_at
                    },
                    None => forall|k: int|
                        0 <= k < i ==> !dispatchable(
                            #[trigger] self.outbox_rows@[k],
                            now,
                            stale_before,
                        ),
                },
            decreases self.outbox_rows.len() - i,
        {
            let e = &self.outbox_rows[i];
            let due = match e.state {
                OutboxState::Pending => match e.next_attempt_at {
                    Some(t) => t <= now,
                    None => e.error_code.is_none(),
                },
                OutboxState::InFlight => match e.last_attempt_at {
                    Some(t) => t <= stale_before,
                    None => true,
                },
                OutboxState::Confirmed => false,
            };
            if due {
                best = match best {
                    Some(b) => if self.outbox_rows[b].created_at <= e.created_at {
                        Some(b)
                    } else {
                        Some(i)
                    },
                    None => Some(i),
                };
            }
            i += 1;
        }
        match best {
            Some(b) => Some(self.outbox_rows[b].clone()),
            None => None,
        }
    }

    /// The earliest time at which a row that is not due now becomes due.
    pub fn earliest_next_attempt(&self, now: i64) -> (r: Option<i64>)
        ensures
            r == earliest(self.outbox_rows@, now),
    {
        let mut best: Option<i64> = None;
        let mut i: usize = 0;
        assert(self.outbox_rows@.take(0) =~= Seq::empty());
        while i < self.outbox_rows.len()
            invariant
                i <= self.outbox_rows.len(),
                best == earliest(self.outbox_rows@.take(i as int), now),
            decreases self.outbox_rows.len() - i,
        {
            assert(self.outbox_rows@.take(i + 1).drop_last() =~= self.outbox_rows@.take(i as int));
            let e = &self.outbox_rows[i];
            let due: Option<i64> = match e.state {
                OutboxState::Pending => match e.next_attempt_at {
                    Some(t) => if t > now {
                        Some(t)
                    } else {
                        None
                    },
                    None => None,
                },
                OutboxState::InFlight => match e.last_attempt_at {
                    Some(t) => if t > 0x7fff_ffff_ffff_ffff - IN_FLIGHT_STALE as i64 {
                        Some(0x7fff_ffff_ffff_ffff)
                    } else {
                        Some(t + IN_FLIGHT_STALE as i64)
                    },
                    None => None,
                },
                OutboxState::Confirmed => None,
            };
            best = match (best, due) {
                (Some(a), Some(b)) => if a <= b {
                    Some(a)
                } else {
                    Some(b)
                },
                (Some(a), None) => Some(a),
                (None, b) => b,
            };
            i += 1;
        }
        assert(self.outbox_rows@.take(i as int) =~= self.outbox_rows@);
        best
    }

    /// A send has started; a confirmed row stays confirmed.
    pub fn mark_in_flight(&mut self, client_message_id: &str, at: i64)
        requires
            old(self).wf(),
        ensures
            final(self).wf(),
            final(self).outbox_rows@ == in_flight_at(
                old(self).outbox_rows@,
                client_message_id@,
                at,
            ),
            final(self).rest_of_outbox(*old(self)),
            final(self).changes == old(self).changes,
    {
        match self.find_outbox(client_message_id) {
            Some(i) => {
                if self.outbox_rows[i].state != OutboxState::Confirmed {
                    let mut row = self.outbox_rows[i].clone();
                    row.state = OutboxState::InFlight;
                    row.last_attempt_at = Some(at);
                    self.put_outbox(i, row);
                }
            },
            None => {},
        }
    }

    /// Permanent rejection: the row shows as failed until it is retried by hand. A confirmed row
    /// stays confirmed.
    pub fn mark_rejected(&mut self, client_message_id: &str, error_code: &str)
        requires
            old(self).wf(),
        ensures
            final(self).wf(),
            tried_again_at(
                old(self).outbox_rows@,
                client_message_id@,
                None,
                Some(error_code@),
                final(self).outbox_rows@,
            ),
            final(self).rest_of_outbox(*old(self)),
            log(final(self).changes@) == outbox_note(
                old(self).outbox_rows@,
                client_message_id@,
                log(old(self).changes@),
            ),
    {
        match self.find_outbox(client_message_id) {
            Some(i) => {
                let group_id = self.outbox_rows[i].group_id.clone();
                if self.outbox_rows[i].state != OutboxState::Confirmed {
                    let mut row = self.outbox_rows[i].clone();
                    row.state = OutboxState::Pending;
                    row.error_code = Some(error_code.to_owned());
                    row.next_attempt_at = None;
                    row.attempt_count = bump(row.attempt_count);
                    self.put_outbox(i, row);
                }
                self.notify(StoreChange::Outbox { group_id });
            },
            None => {},
        }
    }

    /// Transient failure: the row is tried again at `next_at`. A confirmed row stays confirmed.
    pub fn reschedule(&mut self, client_message_id: &str, next_at: i64, error_code: Option<&str>)
        requires
            old(self).wf(),
        ensures
            final(self).wf(),
            tried_again_at(
                old(self).outbox_rows@,
                client_message_id@,
                Some(next_at),
                match error_code {
                    Some(c) => Some(c@),
                    None => None,
                },
                final(self).outbox_rows@,
            ),
            final(self).rest_of_outbox(*old(self)),
            log(final(self).changes@) == outbox_note(
                old(self).outbox_rows@,
                client_message_id@,
                log(old(self).changes@),
            ),
    {
        match self.find_outbox(client_message_id) {
            Some(i) => {
                let group_id = self.outbox_rows[i].group_id.clone();
                if self.outbox_rows[i].state != OutboxState::Confirmed {
                    let mut row = self.outbox_rows[i].clone();
                    row.state = OutboxState::Pending;
                    row.error_code = match error_code {
                        Some(c) => Some(c.to_owned()),
                        None => None,
                    };
                    row.next_attempt_at = Some(next_at);
                    row.attempt_count = bump(row.attempt_count);
                    self.put_outbox(i, row);
                }
                self.notify(StoreChange::Outbox { group_id });
            },
            None => {},
        }
    }

    /// Clear the error and make the row due at `now`. A confirmed row stays confirmed.
    pub fn retry_outbox(&mut self, client_message_id: &str, now: i64)
        requires
            old(self).wf(),
        ensures
            final(self).wf(),
            final(self).outbox_rows@ == retried_at(old(self).outbox_rows@, client_message_id@, now),
            final(self).rest_of_outbox(*old(self)),
            log(final(self).changes@) == outbox_note(
                old(self).outbox_rows@,
                client_message_id@,
                log(old(self).changes@),
            ),
    {
        match self.find_outbox(client_message_id) {
            Some(i) => {
                let group_id = self.outbox_rows[i].group_id.clone();
                if self.outbox_rows[i].state != OutboxState::Confirmed {
                    let mut row = self.outbox_rows[i].clone();
                    row.state = OutboxState::Pending;
                    row.error_code = None;
                    row.next_attempt_at = Some(now);
                    self.put_outbox(i, row);
                }
                self.notify(StoreChange::Outbox { group_id });
            },
            None => {},
        }
    }

    /// Confirm a row without telling observers.
    pub(crate) fn confirm_row(&mut self, client_message_id: &str, server_id: &String, seq: i64)
        requires
            old(self).wf(),
        ensures
            final(self).wf(),
            final(self).outbox_rows@ == confirmed_in(
                old(self).outbox_rows@,
                client_message_id@,
                *server_id,
                seq,
            ),
            final(self).rest_of_outbox(*old(self)),
            final(self).changes == old(self).changes,
    {
        match self.find_outbox(client_message_id) {
            Some(i) => {
                let mut row = self.outbox_rows[i].clone();
                row.state = OutboxState::Confirmed;
                row.error_code = None;
                row.next_attempt_at = None;
                row.confirmed_message_id = Some(server_id.clone());
                row.confirmed_seq = Some(seq);
                self.put_outbox(i, row);
            },
            None => {},
        }
    }

    /// Move a row to confirmed with the server's id and seq.
    pub fn confirm_sent(&mut self, client_message_id: &str, server_id: &String, seq: i64)
        requires
            old(self).wf(),
        ensures
            final(self).wf(),
            final(self).outbox_rows@ == confirmed_in(
                old(self).outbox_rows@,
                client_message_id@,
                *server_id,
                seq,
            ),
            final(self).rest_of_outbox(*old(self)),
            log(final(self).changes@) == outbox_note(
                old(self).outbox_rows@,
                client_message_id@,
                log(old(self).changes@),
            ),
    {
        let found = self.find_outbox(client_message_id);
        self.confirm_row(client_message_id, server_id, seq);
        match found {
            Some(i) => {
                let group_id = self.outbox_rows[i].group_id.clone();
                self.notify(StoreChange::Outbox { group_id });
            },
            None => {},
        }
    }

    /// Drop the text of confirmed rows; gives how many had one.
    pub fn redact_confirmed_outbox(&mut self) -> (n: usize)
        requires
            old(self).wf(),
        ensures
            final(self).wf(),
            final(self).outbox_rows@.len() == old(self).outbox_rows@.len(),
            forall|i: int|
                #![trigger final(self).outbox_rows@[i]]
                0 <= i < old(self).outbox_rows@.len() ==> {
                    let a = old(self).outbox_rows@[i];
                    let b = final(self).outbox_rows@[i];
                    if a.state == OutboxState::Confirmed {
                        &&& b.body@.len() == 0
                        &&& b == (OutboxEntity { body: b.body, ..a })
                    } else {
                        b == a
                    }
                },
            n == texts_in_confirmed(old(self).outbox_rows@),
            final(self).rest_of_outbox(*old(self)),
            final(self).changes == old(self).changes,
    {
        let ghost rows = self.outbox_rows@;
        let mut n: usize = 0;
        let mut i: usize = 0;
        assert(rows.take(0) =~= Seq::empty());
        while i < self.outbox_rows.len()
            invariant
                self.wf(),
                rows == old(self).outbox_rows@,
                self.outbox_rows@.len() == rows.len(),
                n <= i <= self.outbox_rows.len(),
                n == texts_in_confirmed(rows.take(i as int)),
                forall|k: int|
                    #![trigger self.outbox_rows@[k]]
                    0 <= k < i ==> {
                        let a = rows[k];
                        let b = self.outbox_rows@[k];
                        if a.state == OutboxState::Confirmed {
                            &&& b.body@.len() == 0
                            &&& b == (OutboxEntity { body: b.body, ..a })
                        } else {
                            b == a
                        }
                    },
                forall|k: int| i <= k < rows.len() ==> self.outbox_rows@[k] == rows[k],
                self.rest_of_outbox(*old(self)),
                self.changes == old(self).changes,
            decreases self.outbox_rows.len() - i,
        {
            assert(rows.take(i + 1).drop_last() =~= rows.take(i as int));
            if self.outbox_rows[i].state == OutboxState::Confirmed
                && !self.outbox_rows[i].body.as_str().is_empty() {
                let mut row = self.outbox_rows[i].clone();
                row.body = String::new();
                self.put_outbox(i, row);
                n += 1;
            }
            i += 1;
        }
        assert(rows.take(i as int) =~= rows);
        n
    }

    /// Mend rows left inconsistent by a crash.
    pub fn repair(&mut self, now: i64)
        requires
            old(self).wf(),
        ensures
            final(self).wf(),
            final(self).outbox_rows@.len() == old(self).outbox_rows@.len(),
            forall|i: int|
                0 <= i < old(self).outbox_rows@.len() ==> #[trigger] final(self).outbox_rows@[i]
                    == repaired(old(self).outbox_rows@[i], now),
            final(self).rest_of_outbox(*old(self)),
            final(self).changes == old(self).changes,
    {
        let ghost rows = self.outbox_rows@;
        let mut i: usize = 0;
        while i < self.outbox_rows.len()
            invariant
                self.wf(),
                rows == old(self).outbox_rows@,
                self.outbox_rows@.len() == rows.len(),
                i <= self.outbox_rows.len(),
                forall|k: int|
                    0 <= k < i ==> #[trigger] self.outbox_rows@[k] == repaired(rows[k], now),
                forall|k: int| i <= k < rows.len() ==> self.outbox_rows@[k] == rows[k],
                self.rest_of_outbox(*old(self)),
                self.changes == old(self).changes,
            decreases self.outbox_rows.len() - i,
        {
            let mut row = self.outbox_rows[i].clone();
            if row.confirmed_seq.is_some() && row.state != OutboxState::Confirmed {
                row.state = OutboxState::Confirmed;
                row.error_code = None;
                row.next_attempt_at = None;
            }
            if row.state == OutboxState::Pending && row.next_attempt_at.is_none() {
                let unread = match &row.error_code {
                    Some(c) => same(c.as_str(), "json") || same(
                        c.as_str(),
                        "client-message-id-reused",
                    ),
                    None => false,
                };
                if unread {
                    row.next_attempt_at = Some(now);
                }
            }
            self.put_outbox(i, row);
            i += 1;
        }
    }

    /// Keep a command reply; gives its id.
    pub fn insert_command_reply(&mut self, e: &LocalCommandReplyEntity) -> (id: i64)
        requires
            old(self).wf(),
            old(self).next_reply_id < i64::MAX,
        ensures
            final(self).wf(),
            id == old(self).next_reply_id,
            final(self).next_reply_id == id + 1,
            final(self).reply_rows@ == old(self).reply_rows@.push(
                LocalCommandReplyEntity { id: Some(id), ..*e },
            ),
            final(self).group_rows == old(self).group_rows,
            final(self).message_rows == old(self).message_rows,
            final(self).member_rows == old(self).member_rows,
            final(self).outbox_rows == old(self).outbox_rows,
            log(final(self).changes@) == log(old(self).changes@).push(
                Change::CommandReplies(e.group_id@),
            ),
    {
        let id: i64 = self.next_reply_id;
        let mut row = e.clone();
        row.id = Some(id);
        self.reply_rows.push(row);
        self.next_reply_id = id + 1;
        self.notify(StoreChange::CommandReplies { group_id: e.group_id.clone() });
        id
    }

    /// The command replies of a group, oldest first.
    pub fn command_replies(&self, group_id: &str) -> (r: Vec<LocalCommandReplyEntity>)
        ensures
            in_order(r@),
            r@.to_multiset() == self.reply_rows@.filter(
                |e: LocalCommandReplyEntity| e.group_id@ == group_id@,
            ).to_multiset(),
    {
        let ghost pick = |e: LocalCommandReplyEntity| e.group_id@ == group_id@;
        let mut out: Vec<LocalCommandReplyEntity> = Vec::new();
        let mut i: usize = 0;
        proof {
            reveal(Seq::filter);
            assert(self.reply_rows@.take(0).filter(pick) =~= Seq::empty());
        }
        while i < self.reply_rows.len()
            invariant
                i <= self.reply_rows.len(),
                pick == (|e: LocalCommandReplyEntity| e.group_id@ == group_id@),
                out@ == self.reply_rows@.take(i as int).filter(pick),
            decreases self.reply_rows.len() - i,
        {
            proof {
                reveal(Seq::filter);
                assert(self.reply_rows@.take(i + 1).drop_last() =~= self.reply_rows@.take(i as int));
            }
            if same(self.reply_rows[i].group_id.as_str(), group_id) {
                out.push(self.reply_rows[i].clone());
            }
            i += 1;
        }
        assert(self.reply_rows@.take(i as int) =~= self.reply_rows@);
        sorted(out)
    }

    /// Drop the command replies of a group; gives their number.
    pub fn clear_command_replies(&mut self, group_id: &str) -> (n: usize)
        requires
            old(self).wf(),
        ensures
            final(self).wf(),
            final(self).reply_rows@ == old(self).reply_rows@.filter(
                |e: LocalCommandReplyEntity| e.group_id@ != group_id@,
            ),
            n == old(self).reply_rows@.len() - final(self).reply_rows@.len(),
            final(self).next_reply_id == old(self).next_reply_id,
            final(self).group_rows == old(self).group_rows,
            final(self).message_rows == old(self).message_rows,
            final(self).member_rows == old(self).member_rows,
            final(self).outbox_rows == old(self).outbox_rows,
            log(final(self).changes@) == log(old(self).changes@).push(
                Change::CommandReplies(group_id@),
            ),
    {
        let ghost keep = |e: LocalCommandReplyEntity| e.group_id@ != group_id@;
        let ghost rows = self.reply_rows@;
        let mut kept: Vec<LocalCommandReplyEntity> = Vec::new();
        let mut i: usize = 0;
        proof {
            reveal(Seq::filter);
            assert(rows.take(0).filter(keep) =~= Seq::empty());
        }
        while i < self.reply_rows.len()
            invariant
                *self == *old(self),
                rows == self.reply_rows@,
                i <= self.reply_rows.len(),
                keep == (|e: LocalCommandReplyEntity| e.group_id@ != group_id@),
                kept@ == rows.take(i as int).filter(keep),
                kept@.len() <= i,
            decreases self.reply_rows.len() - i,
        {
            proof {
                reveal(Seq::filter);
                assert(rows.take(i + 1).drop_last() =~= rows.take(i as int));
            }
            if !same(self.reply_rows[i].group_id.as_str(), group_id) {
                kept.push(self.reply_rows[i].clone());
            }
            i += 1;
        }
        assert(rows.take(i as int) =~= rows);
        proof {
            lemma_filter_numbered(rows, keep, self.next_reply_id);
        }
        let n: usize = self.reply_rows.len() - kept.len();
        self.reply_rows = kept;
        self.notify(StoreChange::CommandReplies { group_id: group_id.to_owned() });
        n
    }
}

/// Number of confirmed rows that still hold text.
pub open spec fn texts_in_confirmed(rows: Seq<OutboxEntity>) -> nat
    decreases rows.len(),
{
    if rows.len() == 0 {
        0
    } else {
        texts_in_confirmed(rows.drop_last()) + if rows.last().state == OutboxState::Confirmed
            && rows.last().body@.len() > 0 {
            1nat
        } else {
            0nat
        }
    }
}

pub(crate) proof fn lemma_filter_unique(rows: Seq<OutboxEntity>, keep: spec_fn(OutboxEntity) -> bool)
    requires
        outbox_unique(rows),
    ensures
        outbox_unique(rows.filter(keep)),
        forall|i: int| 0 <= i < rows.filter(keep).len() ==> rows.contains(#[trigger] rows.filter(keep)[i]),
    decreases rows.len(),
{
    reveal(Seq::filter);
    if rows.len() > 0 {
        let head = rows.drop_last();
        let f = head.filter(keep);
        let g = rows.filter(keep);
        assert(outbox_unique(head)) by {
            assert forall|i: int, j: int| 0 <= i < j < head.len() implies (#[trigger] head[
                i
            ]).client_message_id@ != (#[trigger] head[j]).client_message_id@ by {
                assert(rows[i] == head[i] && rows[j] == head[j]);
            }
        }
        lemma_filter_unique(head, keep);
        assert forall|i: int| 0 <= i < g.len() implies rows.contains(#[trigger] g[i]) by {
            if i < f.len() {
                assert(g[i] == f[i]);
                let k = choose|k: int| 0 <= k < head.len() && head[k] == f[i];
                assert(rows[k] == g[i]);
            } else {
                assert(rows[rows.len() - 1] == g[i]);
            }
        }
        assert forall|i: int, j: int| 0 <= i < j < g.len() implies (#[trigger] g[
            i
        ]).client_message_id@ != (#[trigger] g[j]).client_message_id@ by {
            assert(g[i] == f[i]);
            if j < f.len() {
                assert(g[j] == f[j]);
            } else {
                let k = choose|k: int| 0 <= k < head.len() && head[k] == f[i];
                assert(rows[k] == g[i]);
                assert(rows[rows.len() - 1] == g[j]);
            }
        }
    }
}

pub(crate) proof fn lemma_filter_numbered(
    rows: Seq<LocalCommandReplyEntity>,
    keep: spec_fn(LocalCommandReplyEntity) -> bool,
    next: i64,
)
    requires
        replies_numbered(rows, next),
    ensures
        replies_numbered(rows.filter(keep), next),
        forall|i: int| 0 <= i < rows.filter(keep).len() ==> rows.contains(#[trigger] rows.filter(keep)[i]),
    decreases rows.len(),
{
    reveal(Seq::filter);
    if rows.len() > 0 {
        let head = rows.drop_last();
        let f = head.filter(keep);
        let g = rows.filter(keep);
        assert(replies_numbered(head, next)) by {
            assert forall|i: int| 0 <= i < head.len() implies (#[trigger] head[i]).id is Some && head[
                i
            ].id->0 < next by {
                assert(rows[i] == head[i]);
            }
            assert forall|i: int, j: int| 0 <= i < j < head.len() implies (#[trigger] head[i]).id->0 < (
            #[trigger] head[j]).id->0 by {
                assert(rows[i] == head[i] && rows[j] == head[j]);
            }
        }
        lemma_filter_numbered(head, keep, next);
        assert forall|i: int| 0 <= i < g.len() implies rows.contains(#[trigger] g[i]) by {
            if i < f.len() {
                assert(g[i] == f[i]);
                let k = choose|k: int| 0 <= k < head.len() && head[k] == f[i];
                assert(rows[k] == g[i]);
            } else {
                assert(rows[rows.len() - 1] == g[i]);
            }
        }
        assert forall|i: int| 0 <= i < g.len() implies (#[trigger] g[i]).id is Some && g[i].id->0
            < next by {
            if i < f.len() {
                assert(g[i] == f[i]);
            } else {
                assert(rows[rows.len() - 1] == g[i]);
            }
        }
        assert forall|i: int, j: int| 0 <= i < j < g.len() implies (#[trigger] g[i]).id->0 < (
        #[trigger] g[j]).id->0 by {
            assert(g[i] == f[i]);
            if j < f.len() {
                assert(g[j] == f[j]);
            } else {
                let k = choose|k: int| 0 <= k < head.len() && head[k] == f[i];
                assert(rows[k] == g[i]);
                assert(rows[rows.len() - 1] == g[j]);
            }
        }
    }
}

/// A confirmed row is never due: what was delivered is not sent again.
pub proof fn law_confirmed_is_final(e: OutboxEntity, now: i64, stale_before: i64)
    requires
        e.state == OutboxState::Confirmed,
    ensures
        !dispatchable(e, now, stale_before),
        due_time(e, now) is None,
        repaired(e, now) == e,
{
}

/// A refused row is not sent again until someone retries it, and then it is due.
pub proof fn law_failed_until_retry(e: OutboxEntity, now: i64, stale_before: i64)
    requires
        is_failed(e),
    ensures
        !dispatchable(e, now, stale_before),
        crate::store::outgoing(e) == crate::store::OutgoingState::Failed,
        dispatchable(
            OutboxEntity {
                state: OutboxState::Pending,
                error_code: None,
                next_attempt_at: Some(now),
                ..e
            },
            now,
            stale_before,
        ),
{
}

} // verus!
