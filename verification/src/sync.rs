//! The decisions of the sync engine: it ties the socket, REST catch-up, group reconciliation and the
//! outbox together on top of the local store.
//!
//! The socket is the only live transport. Each batch is stored and then acked on the transport that
//! delivered it, with its last seq. Group events are never replayed, so the group list is fetched
//! once per connect. Only while the socket is down does the engine pull what is pending.

use crate::error::AppError;
use crate::models::{GroupDto, MemberDto, MessageDto, Role};
use crate::reconcile::{has_text, law_top_seq, plan_is, top_seq, ReconcilePlan};
use crate::socket::{DisconnectReason, SocketEvent, SyncState};
use crate::store::groups::{
    upserted, with_count_moved, with_group_deleted, with_my_role, with_settings,
};
use crate::store::local::{group_known, lemma_group_pos, log, member_row_pos};
use crate::store::members::{lacks_group, member_upserted, with_role, without_member};
use crate::store::messages::{
    echoes_confirmed, ids_in, law_delivered_is_stored, seqs_in, storable, stored_all, with_previews,
    StoreBatchOutcome,
};
use crate::store::outbox::unconfirmed_of;
use crate::store::{
    group_row, member_row_of, row_of, Change, GroupEntity, LocalStore, MemberEntity, MessageEntity,
};
use crate::text::{same, texts};
use crate::ws::GroupEvent;
use vstd::prelude::*;

verus! {

/// Interval of the REST fallback while the socket is down, in milliseconds.
pub const DEFAULT_FALLBACK_POLL_INTERVAL: u64 = 300_000;

/// Most rounds of one REST catch-up.
pub const MAX_PENDING_ROUNDS: u32 = 50;

/// Most pages of one history catch-up.
pub const MAX_HISTORY_PAGES: u32 = 1000;

/// Messages per history page.
pub const HISTORY_PAGE: u32 = 100;

/// Ref-counted set of group ids currently observed.
#[derive(Debug)]
pub struct MemberObservationRegistry {
    counts: Vec<(String, usize)>,
}

/// Where a group is counted.
pub open spec fn count_pos(c: Seq<(String, usize)>, id: Seq<char>) -> int
    decreases c.len(),
{
    if c.len() == 0 {
        0
    } else if c[0].0@ == id {
        0
    } else {
        1 + count_pos(c.drop_first(), id)
    }
}

proof fn lemma_count_pos(c: Seq<(String, usize)>, id: Seq<char>)
    ensures
        0 <= count_pos(c, id) <= c.len(),
        count_pos(c, id) < c.len() ==> c[count_pos(c, id)].0@ == id,
        forall|i: int| 0 <= i < count_pos(c, id) ==> (#[trigger] c[i]).0@ != id,
    decreases c.len(),
{
    if c.len() > 0 && c[0].0@ != id {
        let t = c.drop_first();
        lemma_count_pos(t, id);
        assert forall|i: int| 0 <= i < count_pos(c, id) implies (#[trigger] c[i]).0@ != id by {
            if i > 0 {
                assert(c[i] == t[i - 1]);
            }
        }
        if count_pos(c, id) < c.len() {
            assert(c[count_pos(c, id)] == t[count_pos(t, id)]);
        }
    }
}

impl MemberObservationRegistry {
    /// Every group is counted once, with a count above zero.
    pub closed spec fn wf(self) -> bool {
        &&& forall|i: int| 0 <= i < self.counts@.len() ==> (#[trigger] self.counts@[i]).1 > 0
        &&& forall|i: int, j: int|
            0 <= i < j < self.counts@.len() ==> (#[trigger] self.counts@[i]).0@ != (
            #[trigger] self.counts@[j]).0@
    }

    /// How many observers a group has.
    pub closed spec fn count(self, id: Seq<char>) -> nat {
        let p = count_pos(self.counts@, id);
        if p < self.counts@.len() {
            self.counts@[p].1 as nat
        } else {
            0
        }
    }

    /// Nothing is observed.
    pub fn new() -> (r: Self)
        ensures
            r.wf(),
            forall|id: Seq<char>| r.count(id) == 0,
    {
        MemberObservationRegistry { counts: Vec::new() }
    }

    fn find(&self, group_id: &str) -> (r: Option<usize>)
        ensures
            match r {
                Some(i) => i < self.counts.len() && i == count_pos(self.counts@, group_id@),
                None => count_pos(self.counts@, group_id@) == self.counts@.len(),
            },
    {
        let mut i: usize = 0;
        while i < self.counts.len()
            invariant
                i <= self.counts.len(),
                forall|k: int| 0 <= k < i ==> (#[trigger] self.counts@[k]).0@ != group_id@,
            decreases self.counts.len() - i,
        {
            if same(self.counts[i].0.as_str(), group_id) {
                proof {
                    lemma_count_pos(self.counts@, group_id@);
                }
                return Some(i);
            }
            i += 1;
        }
        proof {
            lemma_count_pos(self.counts@, group_id@);
        }
        None
    }

    /// One more observer of a group.
    pub fn retain(&mut self, group_id: &str)
        requires
            old(self).wf(),
            old(self).count(group_id@) < usize::MAX,
        ensures
            final(self).wf(),
            forall|id: Seq<char>| #[trigger]
                final(self).count(id) == old(self).count(id) + if id == group_id@ {
                    1nat
                } else {
                    0nat
                },
    {
        match self.find(group_id) {
            Some(i) => {
                let n: usize = self.counts[i].1;
                let name = self.counts[i].0.clone();
                self.counts.set(i, (name, n + 1));
            },
            None => {
                self.counts.push((group_id.to_owned(), 1));
            },
        }
        proof {
            let a = old(self).counts@;
            let b = self.counts@;
            lemma_count_pos(a, group_id@);
            assert forall|k: int| 0 <= k < a.len() implies (#[trigger] b[k]).0@ == a[k].0@ by {}
            assert forall|id: Seq<char>| #[trigger]
                self.count(id) == old(self).count(id) + if id == group_id@ {
                    1nat
                } else {
                    0nat
                } by {
                lemma_count_pos(a, id);
                lemma_count_pos(b, id);
                let p = count_pos(a, id);
                let q = count_pos(b, id);
                if p < a.len() {
                    assert(b[p].0@ == id);
                    if q < p {
                        assert(b[q].0@ == a[q].0@);
                    }
                    assert(p == q);
                } else if q < a.len() {
                    assert(b[q].0@ == a[q].0@);
                    assert(false);
                } else if b.len() > a.len() {
                    assert(b[a.len() as int].0@ == group_id@);
                }
            }
        }
    }

    /// One observer less; unknown groups are ignored.
    pub fn release(&mut self, group_id: &str)
        requires
            old(self).wf(),
        ensures
            final(self).wf(),
            forall|id: Seq<char>| #[trigger]
                final(self).count(id) == (if id == group_id@ && old(self).count(id) > 0 {
                    (old(self).count(id) - 1) as nat
                } else {
                    old(self).count(id)
                }),
    {
        let ghost a = self.counts@;
        let found = self.find(group_id);
        match found {
            Some(i) => {
                let n: usize = self.counts[i].1;
                if n <= 1 {
                    self.counts.remove(i);
                } else {
                    let name = self.counts[i].0.clone();
                    self.counts.set(i, (name, n - 1));
                }
            },
            None => {},
        }
        proof {
            let b = self.counts@;
            lemma_count_pos(a, group_id@);
            let g = count_pos(a, group_id@);
            let removed = b.len() < a.len();
            if removed {
                assert(b =~= a.remove(g));
                assert forall|i: int, j: int| 0 <= i < j < b.len() implies (#[trigger] b[i]).0@ != (
                #[trigger] b[j]).0@ by {
                    let x = if i < g { i } else { i + 1 };
                    let y = if j < g { j } else { j + 1 };
                    assert(b[i] == a[x] && b[j] == a[y]);
                }
                assert forall|i: int| 0 <= i < b.len() implies (#[trigger] b[i]).1 > 0 by {
                    let x = if i < g { i } else { i + 1 };
                    assert(b[i] == a[x]);
                }
            }
            assert forall|id: Seq<char>| #[trigger]
                self.count(id) == (if id == group_id@ && old(self).count(id) > 0 {
                    (old(self).count(id) - 1) as nat
                } else {
                    old(self).count(id)
                }) by {
                lemma_count_pos(a, id);
                lemma_count_pos(b, id);
                let p = count_pos(a, id);
                let q = count_pos(b, id);
                if removed {
                    if q < b.len() {
                        let y = if q < g { q } else { q + 1 };
                        assert(b[q] == a[y]);
                        assert(a[y].0@ == id);
                        if p != y {
                            if p < y {
                                assert(a[p].0@ != a[y].0@);
                            } else {
                                assert(a[y].0@ != id);
                            }
                        }
                    }
                    if p < a.len() && p != g {
                        let y = if p < g { p } else { p - 1 };
                        assert(b[y] == a[p]);
                    }
                } else {
                    if p < a.len() {
                        assert(b[p].0@ == id);
                    }
                    if q < b.len() {
                        assert(a[q].0@ == id);
                    }
                }
            }
        }
    }

    /// Whether a group has an observer.
    pub fn is_observed(&self, group_id: &str) -> (r: bool)
        requires
            self.wf(),
        ensures
            r == (self.count(group_id@) > 0),
    {
        match self.find(group_id) {
            Some(i) => {
                assert(self.counts@[i as int].1 > 0);
                true
            },
            None => false,
        }
    }

    /// The observed groups.
    pub fn observed_group_ids(&self) -> (r: Vec<String>)
        requires
            self.wf(),
        ensures
            forall|id: Seq<char>| #[trigger] texts(r@).contains(id) <==> self.count(id) > 0,
            texts(r@).no_duplicates(),
    {
        let mut out: Vec<String> = Vec::new();
        let mut i: usize = 0;
        while i < self.counts.len()
            invariant
                i <= self.counts.len(),
                out@.len() == i,
                forall|k: int| 0 <= k < i ==> (#[trigger] out@[k])@ == self.counts@[k].0@,
            decreases self.counts.len() - i,
        {
            out.push(self.counts[i].0.clone());
            i += 1;
        }
        proof {
            assert forall|id: Seq<char>| #[trigger]
                texts(out@).contains(id) <==> self.count(id) > 0 by {
                lemma_count_pos(self.counts@, id);
                let p = count_pos(self.counts@, id);
                if p < self.counts@.len() {
                    assert(self.counts@[p].1 > 0);
                    assert(texts(out@)[p] == id);
                }
                if texts(out@).contains(id) {
                    let k = choose|k: int| 0 <= k < texts(out@).len() && texts(out@)[k] == id;
                    assert(self.counts@[k].0@ == id);
                }
            }
            assert forall|x: int, y: int|
                0 <= x < texts(out@).len() && 0 <= y < texts(out@).len() && x != y implies texts(
                out@,
            )[x] != texts(out@)[y] by {
                let (u, v) = if x < y { (x, y) } else { (y, x) };
                assert(self.counts@[u].0@ != self.counts@[v].0@);
                assert(out@[u]@ == self.counts@[u].0@ && out@[v]@ == self.counts@[v].0@);
            }
        }
        out
    }
}

impl Default for MemberObservationRegistry {
    fn default() -> (r: Self)
        ensures
            r.wf(),
            forall|id: Seq<char>| r.count(id) == 0,
    {
        Self::new()
    }
}

/// Events for consumers.
#[derive(Debug)]
pub enum SyncEvent {
    StateChanged(SyncState),
    /// New messages that are no echoes were stored for a group.
    NewMessages { group_id: String, messages: Vec<MessageEntity> },
    /// One of our own messages was confirmed.
    EchoConfirmed { group_id: String, client_message_id: String, server_id: String, seq: i64 },
    GroupChanged { group_id: String },
    GroupDeleted { group_id: String },
    MembersChanged { group_id: String },
    /// A member joined.
    MemberAdded { group_id: String, member: MemberEntity },
    /// A member left or was removed, with the cached name if known.
    MemberRemoved { group_id: String, user_id: String, display_name: Option<String> },
    RoleChanged { group_id: String, user_id: String, role: Role, display_name: Option<String> },
    /// The account was added to a group whose row has been fetched.
    GroupJoined { group_id: String },
    /// A catch-up or group reconciliation completed.
    CaughtUp,
    UpdateRequired,
}

/// Which groups' members are refreshed when someone joins.
#[derive(Debug, Clone, Copy, PartialEq, Eq, Structural)]
pub enum MemberRefreshPolicy {
    /// Only observed groups.
    ObservedOnly,
    /// Every group.
    All,
}

/// Where a batch came from, which decides how it is acknowledged.
#[derive(Debug, Clone, Copy, PartialEq, Eq, Structural)]
pub enum AckVia {
    Socket,
    Rest,
    /// History paging: nothing to acknowledge.
    Nothing,
}

/// The events of a change of state.
pub open spec fn state_events(from: SyncState, to: SyncState) -> Seq<SyncEvent> {
    if from == to {
        seq![]
    } else if to == SyncState::UpdateRequired {
        seq![SyncEvent::StateChanged(to), SyncEvent::UpdateRequired]
    } else {
        seq![SyncEvent::StateChanged(to)]
    }
}

/// Move to a state; a state that stays is not reported.
pub fn set_state(state: &mut SyncState, to: SyncState) -> (events: Vec<SyncEvent>)
    ensures
        *final(state) == to,
        events@ == state_events(*old(state), to),
{
    let mut events: Vec<SyncEvent> = Vec::new();
    if *state != to {
        *state = to;
        events.push(SyncEvent::StateChanged(to));
        if to == SyncState::UpdateRequired {
            events.push(SyncEvent::UpdateRequired);
        }
    }
    events
}

/// Whether the fallback timer pulls what is pending: only while the socket is down for a while.
pub fn should_poll(state: SyncState) -> (r: bool)
    ensures
        r == (state != SyncState::Connected && state != SyncState::UpdateRequired),
{
    state != SyncState::Connected && state != SyncState::UpdateRequired
}

/// What a socket event asks of the engine.
#[derive(Debug)]
pub enum SocketReaction {
    /// The socket is up: fetch the group list, report, wake the outbox.
    Connected,
    /// An update was demanded.
    UpdateRequired,
    Nothing,
    /// Store this batch and ack it on the socket.
    Apply { group_id: String, batch: Vec<MessageEntity> },
    Group(GroupEvent),
    Read { group_id: String, seq: i64 },
}

/// `batch` holds the rows for `ms`, in order.
pub open spec fn rows_of(
    ms: Seq<MessageDto>,
    group: Seq<char>,
    now: i64,
    batch: Seq<MessageEntity>,
) -> bool {
    &&& batch.len() == ms.len()
    &&& forall|i: int| 0 <= i < batch.len() ==> row_of(ms[i], group, now, #[trigger] batch[i])
}

/// The rows for a list of messages of a group.
pub fn batch_of(ms: &Vec<MessageDto>, group_id: &str, now: i64) -> (batch: Vec<MessageEntity>)
    ensures
        rows_of(ms@, group_id@, now, batch@),
{
    let mut batch: Vec<MessageEntity> = Vec::new();
    let mut i: usize = 0;
    while i < ms.len()
        invariant
            i <= ms.len(),
            batch@.len() == i,
            forall|k: int| 0 <= k < i ==> row_of(ms@[k], group_id@, now, #[trigger] batch@[k]),
        decreases ms.len() - i,
    {
        batch.push(MessageEntity::of(&ms[i], group_id, now));
        i += 1;
    }
    batch
}

/// What a socket event asks of the engine.
pub open spec fn reaction_is(ev: SocketEvent, now: i64, r: SocketReaction) -> bool {
    match ev {
        SocketEvent::Connected => r == SocketReaction::Connected,
        SocketEvent::Disconnected { reason } => r == if reason == DisconnectReason::UpdateRequired {
            SocketReaction::UpdateRequired
        } else {
            SocketReaction::Nothing
        },
        SocketEvent::Hello { .. } => r == SocketReaction::Nothing,
        SocketEvent::Messages { group_id, messages, has_more } => r matches SocketReaction::Apply {
            group_id: g,
            batch,
        } && g == group_id && rows_of(messages@, group_id@, now, batch@),
        SocketEvent::GroupEvent(e) => r == SocketReaction::Group(e),
        SocketEvent::Read { group_id, read_seq } => r == (SocketReaction::Read {
            group_id,
            seq: read_seq,
        }),
    }
}

/// What a socket event asks of the engine.
pub fn handle_socket_event(ev: SocketEvent, now: i64) -> (r: SocketReaction)
    ensures
        reaction_is(ev, now, r),
{
    match ev {
        SocketEvent::Connected => SocketReaction::Connected,
        SocketEvent::Disconnected { reason } => match reason {
            DisconnectReason::UpdateRequired => SocketReaction::UpdateRequired,
            _ => SocketReaction::Nothing,
        },
        SocketEvent::Hello { .. } => SocketReaction::Nothing,
        SocketEvent::Messages { group_id, messages, .. } => {
            let batch = batch_of(&messages, group_id.as_str(), now);
            SocketReaction::Apply { group_id, batch }
        },
        SocketEvent::GroupEvent(e) => SocketReaction::Group(e),
        SocketEvent::Read { group_id, read_seq } => SocketReaction::Read {
            group_id,
            seq: read_seq,
        },
    }
}

/// What was found out about a group that is not stored.
#[derive(Debug)]
pub enum GroupFetch {
    /// It was not asked for, or the request failed.
    Unknown,
    Found(GroupDto),
    /// The server knows no such group for this account.
    Gone,
}

/// Whether a group must be fetched before a batch of it is applied.
pub fn needs_group(store: &LocalStore, group_id: &str) -> (r: bool)
    ensures
        r == !group_known(store.group_rows@, group_id@),
{
    proof {
        lemma_group_pos(store.group_rows@, group_id@);
    }
    store.get_group(group_id).is_none()
}

/// The seq to acknowledge for a batch: its highest one, if it is positive and the transport takes
/// acks.
pub open spec fn ack_of(batch: Seq<MessageEntity>, via: AckVia) -> Option<i64> {
    match top_seq(batch) {
        Some(s) => if s > 0 && via != AckVia::Nothing {
            Some(s)
        } else {
            None
        },
        None => None,
    }
}

fn ack_seq(batch: &Vec<MessageEntity>, via: AckVia) -> (r: Option<i64>)
    ensures
        r == ack_of(batch@, via),
{
    let mut top: Option<i64> = None;
    let mut i: usize = 0;
    assert(batch@.take(0) =~= Seq::empty());
    while i < batch.len()
        invariant
            i <= batch.len(),
            top == top_seq(batch@.take(i as int)),
        decreases batch.len() - i,
    {
        assert(batch@.take(i + 1).drop_last() =~= batch@.take(i as int));
        let s: i64 = batch[i].seq;
        top = match top {
            Some(t) => if t >= s {
                Some(t)
            } else {
                Some(s)
            },
            None => Some(s),
        };
        i += 1;
    }
    assert(batch@.take(i as int) =~= batch@);
    match top {
        Some(s) => if s > 0 && via != AckVia::Nothing {
            Some(s)
        } else {
            None
        },
        None => None,
    }
}

/// What applying a batch did and asks for.
#[derive(Debug)]
pub struct Applied {
    pub outcome: StoreBatchOutcome,
    /// Acknowledge delivery up to this seq, on the transport that delivered the batch.
    pub ack: Option<i64>,
    /// Events to emit, in order, after the ack.
    pub events: Vec<SyncEvent>,
}

/// The messages of a plan that are no echoes.
pub open spec fn news_of(plan: ReconcilePlan) -> Seq<MessageEntity> {
    plan.to_insert@.filter(|m: MessageEntity| texts(plan.new_message_ids@).contains(m.id@))
}

/// The event of an echo.
pub open spec fn echo_event(group: Seq<char>, plan: ReconcilePlan, i: int, e: SyncEvent) -> bool {
    e matches SyncEvent::EchoConfirmed { group_id, client_message_id, server_id, seq } && group_id@
        == group && client_message_id == plan.echo_confirmations@[i].client_message_id && server_id
        == plan.echo_confirmations@[i].server_id && seq == plan.echo_confirmations@[i].seq
}

/// The events of a stored batch: the echoes, then the new messages, if there are any.
pub open spec fn batch_events(group: Seq<char>, plan: ReconcilePlan, events: Seq<SyncEvent>) -> bool {
    let n = plan.echo_confirmations@.len();
    &&& events.len() == n + if plan.new_message_ids@.len() > 0 {
        1nat
    } else {
        0nat
    }
    &&& forall|i: int| 0 <= i < n ==> echo_event(group, plan, i, #[trigger] events[i])
    &&& plan.new_message_ids@.len() > 0 ==> (events.last() matches SyncEvent::NewMessages {
        group_id,
        messages,
    } && group_id@ == group && messages@ == news_of(plan))
}

fn events_of(group_id: &str, plan: &ReconcilePlan) -> (events: Vec<SyncEvent>)
    ensures
        batch_events(group_id@, *plan, events@),
{
    let mut events: Vec<SyncEvent> = Vec::new();
    let mut i: usize = 0;
    while i < plan.echo_confirmations.len()
        invariant
            i <= plan.echo_confirmations.len(),
            events@.len() == i,
            forall|k: int| 0 <= k < i ==> echo_event(group_id@, *plan, k, #[trigger] events@[k]),
        decreases plan.echo_confirmations.len() - i,
    {
        let e = &plan.echo_confirmations[i];
        events.push(
            SyncEvent::EchoConfirmed {
                group_id: group_id.to_owned(),
                client_message_id: e.client_message_id.clone(),
                server_id: e.server_id.clone(),
                seq: e.seq,
            },
        );
        i += 1;
    }
    if plan.new_message_ids.len() > 0 {
        let mut messages: Vec<MessageEntity> = Vec::new();
        let ghost keep = |m: MessageEntity| texts(plan.new_message_ids@).contains(m.id@);
        let mut j: usize = 0;
        assert(plan.to_insert@.take(0).filter(keep) =~= Seq::empty()) by {
            reveal(Seq::filter);
        }
        while j < plan.to_insert.len()
            invariant
                j <= plan.to_insert.len(),
                keep == (|m: MessageEntity| texts(plan.new_message_ids@).contains(m.id@)),
                messages@ == plan.to_insert@.take(j as int).filter(keep),
            decreases plan.to_insert.len() - j,
        {
            assert(plan.to_insert@.take(j + 1).drop_last() =~= plan.to_insert@.take(j as int));
            proof {
                reveal(Seq::filter);
            }
            if has_text(&plan.new_message_ids, &plan.to_insert[j].id) {
                messages.push(plan.to_insert[j].clone());
            }
            j += 1;
        }
        assert(plan.to_insert@.take(j as int) =~= plan.to_insert@);
        let ghost before = events@;
        events.push(SyncEvent::NewMessages { group_id: group_id.to_owned(), messages });
        assert forall|k: int| 0 <= k < before.len() implies echo_event(
            group_id@,
            *plan,
            k,
            #[trigger] events@[k],
        ) by {
            assert(events@[k] == before[k]);
        }
    }
    events
}

/// The store after a batch of a group was reconciled and written.
pub open spec fn batch_stored(
    s: LocalStore,
    t: LocalStore,
    group: Seq<char>,
    batch: Seq<MessageEntity>,
    out: StoreBatchOutcome,
) -> bool {
    &&& plan_is(
        batch,
        ids_in(s.message_rows@, group),
        seqs_in(s.message_rows@, group),
        unconfirmed_of(s.outbox_rows@, group),
        out.plan,
    )
    &&& t.message_rows@ == stored_all(s.message_rows@, out.plan.to_insert@)
    &&& out.inserted == t.message_rows@.len() - s.message_rows@.len()
    &&& t.outbox_rows@ == echoes_confirmed(s.outbox_rows@, out.plan.echo_confirmations@)
    &&& t.group_rows@ == (if out.inserted > 0 {
        with_previews(s.group_rows@, t.message_rows@, seq![group])
    } else {
        s.group_rows@
    })
    &&& t.member_rows == s.member_rows
    &&& t.reply_rows == s.reply_rows
    &&& t.next_reply_id == s.next_reply_id
    &&& log(t.changes@) == log(s.changes@) + (if out.inserted > 0 {
        seq![Change::Messages(group), Change::Groups]
    } else {
        seq![]
    }) + (if out.plan.echo_confirmations@.len() > 0 {
        seq![Change::Outbox(group)]
    } else {
        seq![]
    })
}

/// Nothing was stored.
pub open spec fn nothing_stored(out: StoreBatchOutcome) -> bool {
    &&& out.inserted == 0
    &&& out.plan.to_insert@.len() == 0
    &&& out.plan.echo_confirmations@.len() == 0
    &&& out.plan.new_message_ids@.len() == 0
    &&& out.plan.max_seq is None
}

/// The store once an unknown group was looked up.
pub open spec fn looked_up(
    s: LocalStore,
    t: LocalStore,
    group: Seq<char>,
    fetch: GroupFetch,
    now: i64,
) -> bool {
    match fetch {
        GroupFetch::Found(g) => if group_known(s.group_rows@, group) {
            t == s
        } else {
            &&& t.group_rows@ == upserted(s.group_rows@, group_row(g, now))
            &&& t.rest_of_groups(s)
            &&& log(t.changes@) == log(s.changes@).push(Change::Groups)
        },
        _ => t == s,
    }
}

/// What applying a batch does: an unknown group is looked up first; a batch of a group that is gone
/// is not stored, but still acknowledged.
pub open spec fn applied(
    s: LocalStore,
    t: LocalStore,
    group: Seq<char>,
    batch: Seq<MessageEntity>,
    via: AckVia,
    fetch: GroupFetch,
    now: i64,
    a: Applied,
) -> bool {
    &&& a.ack == ack_of(batch, via)
    &&& if !group_known(s.group_rows@, group) && fetch is Gone {
        &&& t.group_rows@ == s.group_rows@
        &&& t.rest_of_groups(s)
        &&& log(t.changes@) == log(s.changes@).push(Change::Groups)
        &&& nothing_stored(a.outcome)
        &&& a.events@.len() == 0
    } else {
        &&& exists|mid: LocalStore| #[trigger]
            looked_up(s, mid, group, fetch, now) && batch_stored(mid, t, group, batch, a.outcome)
        &&& batch_events(group, a.outcome.plan, a.events@)
    }
}

/// Store a batch of a group and say how to acknowledge and report it.
pub fn apply_incoming(
    store: &mut LocalStore,
    group_id: &str,
    batch: Vec<MessageEntity>,
    via: AckVia,
    fetch: GroupFetch,
    now: i64,
) -> (a: Applied)
    requires
        old(store).wf(),
    ensures
        final(store).wf(),
        applied(*old(store), *final(store), group_id@, batch@, via, fetch, now, a),
{
    let ack = ack_seq(&batch, via);
    if needs_group(store, group_id) {
        match fetch {
            GroupFetch::Found(g) => {
                store.upsert_group(&GroupEntity::from_dto(g, now));
            },
            GroupFetch::Gone => {
                proof {
                    lemma_group_pos(store.group_rows@, group_id@);
                }
                store.mark_group_deleted(group_id);
                return Applied {
                    outcome: StoreBatchOutcome { plan: ReconcilePlan::default(), inserted: 0 },
                    ack,
                    events: Vec::new(),
                };
            },
            GroupFetch::Unknown => {},
        }
    }
    let ghost mid = *store;
    assert(looked_up(*old(store), mid, group_id@, fetch, now));
    let outcome = store.store_incoming_batch(group_id, batch);
    assert(batch_stored(mid, *store, group_id@, batch@, outcome));
    let events = events_of(group_id, &outcome.plan);
    Applied { outcome, ack, events }
}

/// What a group event leaves to do.
#[derive(Debug)]
pub enum AfterGroupEvent {
    /// Emit these, in order.
    Emit(Vec<SyncEvent>),
    /// The account joined a group: fetch the group and its members, then report it.
    Joined { group_id: String },
    /// Someone joined: refresh the members if asked to, then announce the member.
    Announce { group_id: String, user_id: String, role: Option<Role>, refresh: bool },
}

/// The stored row of a member.
pub open spec fn member_row(s: LocalStore, group: Seq<char>, user: Seq<char>) -> Option<MemberEntity> {
    let p = member_row_pos(s.member_rows@, group, user);
    if p < s.member_rows@.len() {
        Some(s.member_rows@[p])
    } else {
        None
    }
}

/// The stored name of a member.
pub open spec fn cached_name(s: LocalStore, group: Seq<char>, user: Seq<char>) -> Option<String> {
    match member_row(s, group, user) {
        Some(m) => Some(m.display_name),
        None => None,
    }
}

fn name_of(store: &LocalStore, group: &str, user: &str) -> (r: Option<String>)
    ensures
        r == cached_name(*store, group@, user@),
{
    match store.find_member(group, user) {
        Some(i) => Some(store.member_rows[i].display_name.clone()),
        None => None,
    }
}

/// Only the tables of groups and members and the change log differ.
pub open spec fn rest_kept(s: LocalStore, t: LocalStore) -> bool {
    &&& t.message_rows == s.message_rows
    &&& t.outbox_rows == s.outbox_rows
    &&& t.reply_rows == s.reply_rows
    &&& t.next_reply_id == s.next_reply_id
}

/// `user` is the signed-in user.
pub open spec fn is_self(me: Option<Seq<char>>, user: Seq<char>) -> bool {
    me == Some(user)
}

/// The store after someone else joined a group.
pub open spec fn joined(
    s: LocalStore,
    t: LocalStore,
    group: Seq<char>,
    member: Option<MemberDto>,
    now: i64,
) -> bool {
    &&& rest_kept(s, t)
    &&& t.group_rows@ == with_count_moved(s.group_rows@, group, 1)
    &&& match member {
        Some(m) => {
            &&& exists|row: MemberEntity| #[trigger]
                member_row_of(m, group, now, row) && t.member_rows@ == member_upserted(
                    s.member_rows@,
                    row,
                )
            &&& log(t.changes@) == log(s.changes@).push(Change::Members(group)).push(Change::Groups)
        },
        None => t.member_rows == s.member_rows && log(t.changes@) == log(s.changes@).push(
            Change::Groups,
        ),
    }
}

/// The events when a member left.
pub open spec fn removal_events(
    s: LocalStore,
    group: String,
    user: String,
    own: bool,
    events: Seq<SyncEvent>,
) -> bool {
    let gone = SyncEvent::MemberRemoved {
        group_id: group,
        user_id: user,
        display_name: cached_name(s, group@, user@),
    };
    let changed = SyncEvent::MembersChanged { group_id: group };
    events =~= if own {
        seq![gone, SyncEvent::GroupDeleted { group_id: group }, changed]
    } else {
        seq![gone, changed]
    }
}

/// The events when a role changed.
pub open spec fn role_events(
    s: LocalStore,
    group: String,
    user: String,
    role: Role,
    own: bool,
    events: Seq<SyncEvent>,
) -> bool {
    let moved = SyncEvent::RoleChanged {
        group_id: group,
        user_id: user,
        role,
        display_name: cached_name(s, group@, user@),
    };
    let changed = SyncEvent::MembersChanged { group_id: group };
    events =~= if own {
        seq![moved, SyncEvent::GroupChanged { group_id: group }, changed]
    } else {
        seq![moved, changed]
    }
}

/// What a group event does to the store, and what it leaves to do.
pub open spec fn event_applied(
    s: LocalStore,
    t: LocalStore,
    me: Option<Seq<char>>,
    refresh: bool,
    ge: GroupEvent,
    now: i64,
    r: Result<AfterGroupEvent, AppError>,
) -> bool {
    match ge {
        GroupEvent::MemberAdded { group_id, user_id, role, member } => if is_self(me, user_id@) {
            t == s && r == Ok::<AfterGroupEvent, AppError>(AfterGroupEvent::Joined { group_id })
        } else if member is Some && !group_known(s.group_rows@, group_id@) {
            t == s && r is Err && lacks_group(r->Err_0)
        } else {
            &&& joined(s, t, group_id@, member, now)
            &&& r == Ok::<AfterGroupEvent, AppError>(
                AfterGroupEvent::Announce { group_id, user_id, role, refresh },
            )
        },
        GroupEvent::MemberRemoved { group_id, user_id, reason } => {
            let own = is_self(me, user_id@);
            let counted = with_count_moved(s.group_rows@, group_id@, -1i64);
            &&& rest_kept(s, t)
            &&& t.member_rows@ == without_member(s.member_rows@, group_id@, user_id@)
            &&& t.group_rows@ == (if own {
                with_group_deleted(counted, group_id@)
            } else {
                counted
            })
            &&& log(t.changes@) =~= log(s.changes@).push(Change::Members(group_id@)).push(
                Change::Groups,
            ) + (if own {
                seq![Change::Groups]
            } else {
                seq![]
            })
            &&& r matches Ok(AfterGroupEvent::Emit(events)) && removal_events(
                s,
                group_id,
                user_id,
                own,
                events@,
            )
        },
        GroupEvent::RoleChanged { group_id, user_id, role } => {
            let own = is_self(me, user_id@);
            &&& rest_kept(s, t)
            &&& t.member_rows@ == with_role(s.member_rows@, group_id@, user_id@, role)
            &&& t.group_rows@ == (if own {
                with_my_role(s.group_rows@, group_id@, role)
            } else {
                s.group_rows@
            })
            &&& log(t.changes@) =~= log(s.changes@).push(Change::Members(group_id@)) + (if own {
                seq![Change::Groups]
            } else {
                seq![]
            })
            &&& r matches Ok(AfterGroupEvent::Emit(events)) && role_events(
                s,
                group_id,
                user_id,
                role,
                own,
                events@,
            )
        },
        GroupEvent::GroupUpdated { group_id, name, who_can_post, who_can_add_members } => {
            &&& with_settings(
                s.group_rows@,
                group_id@,
                match name {
                    Some(n) => Some(n@),
                    None => None,
                },
                who_can_post,
                who_can_add_members,
                t.group_rows@,
            )
            &&& t.rest_of_groups(s)
            &&& log(t.changes@) == log(s.changes@).push(Change::Groups)
            &&& r matches Ok(AfterGroupEvent::Emit(events)) && events@ =~= seq![
                SyncEvent::GroupChanged { group_id },
            ]
        },
        GroupEvent::GroupDeleted { group_id } => {
            &&& t.group_rows@ == with_group_deleted(s.group_rows@, group_id@)
            &&& t.rest_of_groups(s)
            &&& log(t.changes@) == log(s.changes@).push(Change::Groups)
            &&& r matches Ok(AfterGroupEvent::Emit(events)) && events@ =~= seq![
                SyncEvent::GroupDeleted { group_id },
            ]
        },
        GroupEvent::Unknown { .. } => t == s && (r matches Ok(AfterGroupEvent::Emit(events))
            && events@.len() == 0),
    }
}

/// Apply a group event to the store.
pub fn apply_group_event(
    store: &mut LocalStore,
    self_user_id: Option<&str>,
    refresh: bool,
    ge: GroupEvent,
    now: i64,
) -> (r: Result<AfterGroupEvent, AppError>)
    requires
        old(store).wf(),
    ensures
        final(store).wf(),
        event_applied(
            *old(store),
            *final(store),
            match self_user_id {
                Some(u) => Some(u@),
                None => None,
            },
            refresh,
            ge,
            now,
            r,
        ),
{
    let mut events: Vec<SyncEvent> = Vec::new();
    match ge {
        GroupEvent::MemberAdded { group_id, user_id, role, member } => {
            if own_event(self_user_id, &user_id) {
                return Ok(AfterGroupEvent::Joined { group_id });
            }
            match member {
                Some(m) => {
                    let row = MemberEntity::from_dto(m, group_id.as_str(), now);
                    match store.upsert_member(&row) {
                        Ok(()) => {},
                        Err(e) => {
                            return Err(e);
                        },
                    }
                    assert(member_row_of(m, group_id@, now, row));
                },
                None => {},
            }
            store.set_group_member_count(group_id.as_str(), 1);
            Ok(AfterGroupEvent::Announce { group_id, user_id, role, refresh })
        },
        GroupEvent::MemberRemoved { group_id, user_id, .. } => {
            let own = own_event(self_user_id, &user_id);
            let display_name = name_of(store, group_id.as_str(), user_id.as_str());
            store.delete_member(group_id.as_str(), user_id.as_str());
            store.set_group_member_count(group_id.as_str(), -1);
            let g = group_id.clone();
            events.push(
                SyncEvent::MemberRemoved { group_id: group_id.clone(), user_id, display_name },
            );
            if own {
                store.mark_group_deleted(group_id.as_str());
                events.push(SyncEvent::GroupDeleted { group_id: g });
            }
            events.push(SyncEvent::MembersChanged { group_id });
            Ok(AfterGroupEvent::Emit(events))
        },
        GroupEvent::RoleChanged { group_id, user_id, role } => {
            let own = own_event(self_user_id, &user_id);
            let ghost before = *store;
            store.set_role(group_id.as_str(), user_id.as_str(), role);
            let display_name = name_of(store, group_id.as_str(), user_id.as_str());
            proof {
                lemma_role_keeps_names(before.member_rows@, group_id@, user_id@, role);
                assert(display_name == cached_name(before, group_id@, user_id@));
            }
            events.push(
                SyncEvent::RoleChanged { group_id: group_id.clone(), user_id, role, display_name },
            );
            if own {
                store.set_my_role(group_id.as_str(), role);
                events.push(SyncEvent::GroupChanged { group_id: group_id.clone() });
            }
            events.push(SyncEvent::MembersChanged { group_id });
            Ok(AfterGroupEvent::Emit(events))
        },
        GroupEvent::GroupUpdated { group_id, name, who_can_post, who_can_add_members } => {
            let name_ref: Option<&str> = match &name {
                Some(n) => Some(n.as_str()),
                None => None,
            };
            store.apply_group_updated(
                group_id.as_str(),
                name_ref,
                who_can_post.as_ref(),
                who_can_add_members.as_ref(),
            );
            events.push(SyncEvent::GroupChanged { group_id });
            Ok(AfterGroupEvent::Emit(events))
        },
        GroupEvent::GroupDeleted { group_id } => {
            store.mark_group_deleted(group_id.as_str());
            events.push(SyncEvent::GroupDeleted { group_id });
            Ok(AfterGroupEvent::Emit(events))
        },
        GroupEvent::Unknown { .. } => Ok(AfterGroupEvent::Emit(events)),
    }
}

fn own_event(self_user_id: Option<&str>, user_id: &String) -> (r: bool)
    ensures
        r == is_self(
            match self_user_id {
                Some(u) => Some(u@),
                None => None,
            },
            user_id@,
        ),
{
    match self_user_id {
        Some(u) => same(u, user_id.as_str()),
        None => false,
    }
}

/// Setting a role moves no member and renames none.
proof fn lemma_role_keeps_names(rows: Seq<MemberEntity>, group: Seq<char>, user: Seq<char>, role: Role)
    ensures
        member_row_pos(with_role(rows, group, user, role), group, user) == member_row_pos(
            rows,
            group,
            user,
        ),
        with_role(rows, group, user, role).len() == rows.len(),
        0 <= member_row_pos(rows, group, user),
        forall|i: int|
            0 <= i < rows.len() ==> (#[trigger] with_role(rows, group, user, role)[i]).display_name
                == rows[i].display_name,
{
    let new = with_role(rows, group, user, role);
    crate::store::local::lemma_member_row_pos(rows, group, user);
    crate::store::local::lemma_member_row_pos(new, group, user);
    let p = member_row_pos(rows, group, user);
    let q = member_row_pos(new, group, user);
    if p < rows.len() {
        assert(new[p].group_id@ == group && new[p].user_id@ == user);
        if q < p {
            assert(rows[q] == new[q]);
        }
    }
}

/// What is acknowledged is in the store: once a batch is applied, every message of it is there, by
/// its id or by its seq in its group, and none lies beyond the acknowledged seq. An id stands for one
/// message of one group.
pub proof fn law_acked_is_stored(
    s: LocalStore,
    t: LocalStore,
    group: Seq<char>,
    batch: Seq<MessageEntity>,
    through: AckVia,
    fetch: GroupFetch,
    now: i64,
    a: Applied,
    i: int,
)
    requires
        applied(s, t, group, batch, through, fetch, now, a),
        group_known(s.group_rows@, group) || !(fetch is Gone),
        forall|k: int| 0 <= k < batch.len() ==> (#[trigger] batch[k]).group_id@ == group,
        forall|r: int, k: int|
            0 <= r < s.message_rows@.len() && 0 <= k < batch.len() && (#[trigger] s.message_rows@[
                r
            ]).id@ == (#[trigger] batch[k]).id@ ==> s.message_rows@[r].group_id@ == group,
        forall|j: int, k: int|
            0 <= j < batch.len() && 0 <= k < batch.len() && (#[trigger] batch[j]).id@ == (
            #[trigger] batch[k]).id@ ==> batch[j].seq == batch[k].seq,
        0 <= i < batch.len(),
    ensures
        !storable(t.message_rows@, batch[i]),
        a.ack matches Some(seq) ==> batch[i].seq <= seq,
{
    let mid = choose|mid: LocalStore| #[trigger]
        looked_up(s, mid, group, fetch, now) && batch_stored(mid, t, group, batch, a.outcome);
    assert(mid.message_rows@ == s.message_rows@);
    law_delivered_is_stored(
        s.message_rows@,
        group,
        batch,
        unconfirmed_of(mid.outbox_rows@, group),
        a.outcome.plan,
        i,
    );
    law_top_seq(batch);
}

} // verus!
