//! What to do with an incoming batch of messages for one group, given what is stored.

use crate::sorting::{in_order, sorted, Keyed, SortKey};
use crate::store::MessageEntity;
use crate::text::texts;
use vstd::prelude::*;

verus! {

/// One of our own messages echoed back by the server.
#[derive(Debug)]
pub struct EchoConfirmation {
    pub client_message_id: String,
    pub server_id: String,
    pub seq: i64,
}

/// Output of [`reconcile`].
#[derive(Debug)]
pub struct ReconcilePlan {
    /// New messages to store, by seq (echoes included).
    pub to_insert: Vec<MessageEntity>,
    /// Our own messages confirmed by the server.
    pub echo_confirmations: Vec<EchoConfirmation>,
    /// Ids of the new messages that are no echoes.
    pub new_message_ids: Vec<String>,
    /// Highest seq in the batch, duplicates included.
    pub max_seq: Option<i64>,
}

impl ReconcilePlan {
    pub fn is_empty(&self) -> (r: bool)
        ensures
            r == (self.to_insert@.len() == 0 && self.echo_confirmations@.len() == 0),
    {
        self.to_insert.len() == 0 && self.echo_confirmations.len() == 0
    }
}

impl Default for ReconcilePlan {
    fn default() -> (r: Self)
        ensures
            r.to_insert@.len() == 0,
            r.echo_confirmations@.len() == 0,
            r.new_message_ids@.len() == 0,
            r.max_seq is None,
    {
        ReconcilePlan {
            to_insert: Vec::new(),
            echo_confirmations: Vec::new(),
            new_message_ids: Vec::new(),
            max_seq: None,
        }
    }
}

/// What is stored for one group, as far as a batch asks.
#[derive(Debug)]
pub struct ReconcileState {
    /// Message ids already stored for this group.
    pub existing_ids: Vec<String>,
    /// Sequence numbers already stored for this group.
    pub existing_seqs: Vec<i64>,
    /// Client ids in the outbox that are not yet confirmed.
    pub unconfirmed_client_message_ids: Vec<String>,
}

impl Default for ReconcileState {
    fn default() -> (r: Self)
        ensures
            r.existing_ids@.len() == 0,
            r.existing_seqs@.len() == 0,
            r.unconfirmed_client_message_ids@.len() == 0,
    {
        ReconcileState {
            existing_ids: Vec::new(),
            existing_seqs: Vec::new(),
            unconfirmed_client_message_ids: Vec::new(),
        }
    }
}

impl Keyed for MessageEntity {
    open spec fn key(self) -> SortKey {
        (self.seq as int, Seq::empty(), Seq::empty(), 0)
    }

    fn up_to(&self, other: &Self) -> (r: bool) {
        self.seq <= other.seq
    }
}

/// `batch[i]` bears an id that is neither stored nor borne by an earlier message of the batch.
pub open spec fn new_id(batch: Seq<MessageEntity>, ids: Seq<Seq<char>>, i: int) -> bool {
    &&& !ids.contains(batch[i].id@)
    &&& forall|j: int| 0 <= j < i ==> (#[trigger] batch[j]).id@ != batch[i].id@
}

/// `batch[i]` is no duplicate: its id is new, and its seq is neither stored nor that of an earlier
/// message with a new id.
pub open spec fn fresh(
    batch: Seq<MessageEntity>,
    ids: Seq<Seq<char>>,
    seqs: Seq<i64>,
    i: int,
) -> bool {
    &&& new_id(batch, ids, i)
    &&& !seqs.contains(batch[i].seq)
    &&& forall|j: int|
        0 <= j < i && #[trigger] new_id(batch, ids, j) ==> batch[j].seq != batch[i].seq
}

/// The first `n` messages of the batch without the duplicates.
pub open spec fn fresh_messages(
    batch: Seq<MessageEntity>,
    ids: Seq<Seq<char>>,
    seqs: Seq<i64>,
    n: int,
) -> Seq<MessageEntity>
    decreases n,
{
    if n <= 0 {
        seq![]
    } else {
        let before = fresh_messages(batch, ids, seqs, n - 1);
        if fresh(batch, ids, seqs, n - 1) {
            before.push(batch[n - 1])
        } else {
            before
        }
    }
}

/// The message was sent by this client and not yet confirmed.
pub open spec fn is_echo(m: MessageEntity, unconfirmed: Seq<Seq<char>>) -> bool {
    m.client_message_id matches Some(c) && unconfirmed.contains(c@)
}

/// The ids of the messages that are no echoes.
pub open spec fn new_ids_of(s: Seq<MessageEntity>, unconfirmed: Seq<Seq<char>>) -> Seq<Seq<char>>
    decreases s.len(),
{
    if s.len() == 0 {
        seq![]
    } else {
        let before = new_ids_of(s.drop_last(), unconfirmed);
        if is_echo(s.last(), unconfirmed) {
            before
        } else {
            before.push(s.last().id@)
        }
    }
}

/// An echo confirmation as texts.
pub type EchoView = (Seq<char>, Seq<char>, i64);

/// The echoes among the messages: client id, server id, seq.
pub open spec fn echoes_of(s: Seq<MessageEntity>, unconfirmed: Seq<Seq<char>>) -> Seq<EchoView>
    decreases s.len(),
{
    if s.len() == 0 {
        seq![]
    } else {
        let before = echoes_of(s.drop_last(), unconfirmed);
        if is_echo(s.last(), unconfirmed) {
            before.push((s.last().client_message_id->0@, s.last().id@, s.last().seq))
        } else {
            before
        }
    }
}

/// Confirmations as texts.
pub open spec fn echo_views(s: Seq<EchoConfirmation>) -> Seq<EchoView> {
    Seq::new(s.len(), |i: int| (s[i].client_message_id@, s[i].server_id@, s[i].seq))
}

/// The highest seq of a batch.
pub open spec fn top_seq(batch: Seq<MessageEntity>) -> Option<i64>
    decreases batch.len(),
{
    if batch.len() == 0 {
        None
    } else {
        match top_seq(batch.drop_last()) {
            Some(m) => if m >= batch.last().seq {
                Some(m)
            } else {
                Some(batch.last().seq)
            },
            None => Some(batch.last().seq),
        }
    }
}

/// `plan` is what reconciling `batch` against the stored ids, seqs and unconfirmed client ids
/// yields.
pub open spec fn plan_is(
    batch: Seq<MessageEntity>,
    ids: Seq<Seq<char>>,
    seqs: Seq<i64>,
    unconfirmed: Seq<Seq<char>>,
    plan: ReconcilePlan,
) -> bool {
    let kept = fresh_messages(batch, ids, seqs, batch.len() as int);
    &&& in_order(plan.to_insert@)
    &&& plan.to_insert@.to_multiset() == kept.to_multiset()
    &&& texts(plan.new_message_ids@) == new_ids_of(kept, unconfirmed)
    &&& echo_views(plan.echo_confirmations@) == echoes_of(kept, unconfirmed)
    &&& plan.max_seq == top_seq(batch)
}

/// One of the first `n` messages with a new id bears the seq `s`.
spec fn seq_before(batch: Seq<MessageEntity>, ids: Seq<Seq<char>>, n: int, s: i64) -> bool {
    exists|j: int| 0 <= j < n && #[trigger] new_id(batch, ids, j) && batch[j].seq == s
}

proof fn lemma_seq_before_grows(batch: Seq<MessageEntity>, ids: Seq<Seq<char>>, n: int, s: i64)
    requires
        seq_before(batch, ids, n, s),
    ensures
        seq_before(batch, ids, n + 1, s),
{
    let j = choose|j: int| 0 <= j < n && #[trigger] new_id(batch, ids, j) && batch[j].seq == s;
    assert(new_id(batch, ids, j));
}

/// `m` is one of the first `n` messages and no duplicate.
spec fn comes_from(
    batch: Seq<MessageEntity>,
    ids: Seq<Seq<char>>,
    seqs: Seq<i64>,
    n: int,
    m: MessageEntity,
) -> bool {
    exists|i: int| 0 <= i < n && #[trigger] fresh(batch, ids, seqs, i) && m == batch[i]
}

/// Whether `s` is one of `list`.
pub fn has_text(list: &Vec<String>, s: &String) -> (r: bool)
    ensures
        r == texts(list@).contains(s@),
{
    let mut i: usize = 0;
    while i < list.len()
        invariant
            i <= list.len(),
            forall|k: int| 0 <= k < i ==> texts(list@)[k] != s@,
        decreases list.len() - i,
    {
        if list[i] == *s {
            assert(texts(list@)[i as int] == s@);
            return true;
        }
        i += 1;
    }
    false
}

pub(crate) fn has_seq(list: &Vec<i64>, s: i64) -> (r: bool)
    ensures
        r == list@.contains(s),
{
    let mut i: usize = 0;
    while i < list.len()
        invariant
            i <= list.len(),
            forall|k: int| 0 <= k < i ==> list@[k] != s,
        decreases list.len() - i,
    {
        if list[i] == s {
            assert(list@[i as int] == s);
            return true;
        }
        i += 1;
    }
    false
}

/// Build a plan for `batch` (all messages of one group).
///
/// Messages whose id or seq is already stored are skipped, duplicates within the batch are
/// collapsed, and a message whose client id is unconfirmed is our own echo: it is stored and
/// confirmed, and does not count as new.
pub fn reconcile(batch: Vec<MessageEntity>, state: &ReconcileState) -> (plan: ReconcilePlan)
    ensures
        plan_is(
            batch@,
            texts(state.existing_ids@),
            state.existing_seqs@,
            texts(state.unconfirmed_client_message_ids@),
            plan,
        ),
{
    let ghost ids = texts(state.existing_ids@);
    let ghost seqs = state.existing_seqs@;
    let ghost unconfirmed = texts(state.unconfirmed_client_message_ids@);
    let mut to_insert: Vec<MessageEntity> = Vec::new();
    let mut echo_confirmations: Vec<EchoConfirmation> = Vec::new();
    let mut new_message_ids: Vec<String> = Vec::new();
    let mut max_seq: Option<i64> = None;
    let mut seen_ids: Vec<String> = Vec::new();
    let mut seen_seqs: Vec<i64> = Vec::new();
    let mut n: usize = 0;
    assert(batch@.take(0) =~= Seq::empty());
    assert(texts(new_message_ids@) =~= new_ids_of(to_insert@, unconfirmed));
    assert(echo_views(echo_confirmations@) =~= echoes_of(to_insert@, unconfirmed));
    while n < batch.len()
        invariant
            n <= batch.len(),
            ids == texts(state.existing_ids@),
            seqs == state.existing_seqs@,
            unconfirmed == texts(state.unconfirmed_client_message_ids@),
            max_seq == top_seq(batch@.take(n as int)),
            to_insert@ == fresh_messages(batch@, ids, seqs, n as int),
            texts(new_message_ids@) == new_ids_of(to_insert@, unconfirmed),
            echo_views(echo_confirmations@) == echoes_of(to_insert@, unconfirmed),
            forall|k: int|
                0 <= k < seen_ids@.len() ==> exists|j: int|
                    0 <= j < n && (#[trigger] batch@[j]).id@ == (#[trigger] seen_ids@[k])@,
            forall|j: int|
                0 <= j < n ==> ids.contains((#[trigger] batch@[j]).id@) || texts(
                    seen_ids@,
                ).contains(batch@[j].id@),
            forall|k: int|
                0 <= k < seen_seqs@.len() ==> seq_before(
                    batch@,
                    ids,
                    n as int,
                    #[trigger] seen_seqs@[k],
                ),
            forall|j: int|
                0 <= j < n && #[trigger] new_id(batch@, ids, j) ==> seqs.contains(batch@[j].seq)
                    || seen_seqs@.contains(batch@[j].seq),
        decreases batch.len() - n,
    {
        let msg = &batch[n];
        let ghost old_seen = seen_ids@;
        let ghost old_seqs = seen_seqs@;
        proof {
            assert(batch@.take(n + 1).drop_last() =~= batch@.take(n as int));
            assert(batch@.take(n + 1).last() == *msg);
            assert forall|k: int| 0 <= k < old_seqs.len() implies seq_before(
                batch@,
                ids,
                n + 1,
                #[trigger] old_seqs[k],
            ) by {
                lemma_seq_before_grows(batch@, ids, n as int, old_seqs[k]);
            }
        }
        max_seq = match max_seq {
            Some(m) => if m >= msg.seq {
                Some(m)
            } else {
                Some(msg.seq)
            },
            None => Some(msg.seq),
        };
        let known_id = has_text(&state.existing_ids, &msg.id) || has_text(&seen_ids, &msg.id);
        proof {
            assert(known_id == !new_id(batch@, ids, n as int)) by {
                if texts(seen_ids@).contains(msg.id@) {
                    let k = choose|k: int|
                        0 <= k < texts(seen_ids@).len() && texts(seen_ids@)[k] == msg.id@;
                    assert(seen_ids@[k]@ == msg.id@);
                    let j = choose|j: int|
                        0 <= j < n && (#[trigger] batch@[j]).id@ == seen_ids@[k]@;
                    assert(batch@[j].id@ == msg.id@);
                }
                if !known_id {
                    assert forall|j: int| 0 <= j < n implies (#[trigger] batch@[j]).id@
                        != batch@[n as int].id@ by {}
                }
            }
        }
        if known_id {
            assert forall|j: int| 0 <= j < n + 1 implies ids.contains((#[trigger] batch@[j]).id@)
                || texts(seen_ids@).contains(batch@[j].id@) by {}
            n += 1;
            continue;
        }
        seen_ids.push(msg.id.clone());
        proof {
            assert(texts(seen_ids@) =~= texts(old_seen).push(msg.id@));
            assert forall|j: int| 0 <= j < n + 1 implies ids.contains((#[trigger] batch@[j]).id@)
                || texts(seen_ids@).contains(batch@[j].id@) by {
                if j < n {
                    if texts(old_seen).contains(batch@[j].id@) {
                        let k = choose|k: int|
                            0 <= k < texts(old_seen).len() && texts(old_seen)[k] == batch@[j].id@;
                        assert(texts(seen_ids@)[k] == batch@[j].id@);
                    }
                } else {
                    assert(texts(seen_ids@)[old_seen.len() as int] == msg.id@);
                }
            }
            assert forall|k: int| 0 <= k < seen_ids@.len() implies exists|j: int|
                0 <= j < n + 1 && (#[trigger] batch@[j]).id@ == (#[trigger] seen_ids@[k])@ by {
                if k < old_seen.len() {
                    assert(seen_ids@[k] == old_seen[k]);
                    let j = choose|j: int| 0 <= j < n && (#[trigger] batch@[j]).id@ == old_seen[k]@;
                    assert(batch@[j].id@ == seen_ids@[k]@);
                } else {
                    assert(batch@[n as int].id@ == seen_ids@[k]@);
                }
            }
        }
        let known_seq = has_seq(&state.existing_seqs, msg.seq) || has_seq(&seen_seqs, msg.seq);
        proof {
            assert(known_seq == !fresh(batch@, ids, seqs, n as int)) by {
                if seen_seqs@.contains(msg.seq) {
                    let k = choose|k: int| 0 <= k < seen_seqs@.len() && seen_seqs@[k] == msg.seq;
                    let j = choose|j: int|
                        0 <= j < n && #[trigger] new_id(batch@, ids, j) && batch@[j].seq
                            == seen_seqs@[k];
                    assert(new_id(batch@, ids, j));
                }
            }
        }
        if known_seq {
            n += 1;
            continue;
        }
        seen_seqs.push(msg.seq);
        proof {
            assert forall|k: int| 0 <= k < seen_seqs@.len() implies seq_before(
                batch@,
                ids,
                n + 1,
                #[trigger] seen_seqs@[k],
            ) by {
                if k < old_seqs.len() {
                    assert(seen_seqs@[k] == old_seqs[k]);
                } else {
                    assert(new_id(batch@, ids, n as int));
                }
            }
            assert forall|j: int| 0 <= j < n + 1 && #[trigger] new_id(batch@, ids, j) implies seqs.contains(
                batch@[j].seq,
            ) || seen_seqs@.contains(batch@[j].seq) by {
                if j < n {
                    if old_seqs.contains(batch@[j].seq) {
                        let k = choose|k: int|
                            0 <= k < old_seqs.len() && old_seqs[k] == batch@[j].seq;
                        assert(seen_seqs@[k] == batch@[j].seq);
                    }
                } else {
                    assert(seen_seqs@[old_seqs.len() as int] == msg.seq);
                }
            }
        }
        let echo = match &msg.client_message_id {
            Some(c) => has_text(&state.unconfirmed_client_message_ids, c),
            None => false,
        };
        let ghost kept = to_insert@;
        assert(kept.push(*msg).drop_last() =~= kept);
        let ghost old_ids = texts(new_message_ids@);
        let ghost old_echoes = echo_views(echo_confirmations@);
        if echo {
            let client_message_id = match &msg.client_message_id {
                Some(c) => c.clone(),
                None => String::new(),
            };
            echo_confirmations.push(
                EchoConfirmation { client_message_id, server_id: msg.id.clone(), seq: msg.seq },
            );
            assert(echo_views(echo_confirmations@) =~= old_echoes.push(
                (msg.client_message_id->0@, msg.id@, msg.seq),
            ));
        } else {
            new_message_ids.push(msg.id.clone());
            assert(texts(new_message_ids@) =~= old_ids.push(msg.id@));
        }
        to_insert.push(msg.clone());
        n += 1;
    }
    assert(batch@.take(n as int) =~= batch@);
    ReconcilePlan { to_insert: sorted(to_insert), echo_confirmations, new_message_ids, max_seq }
}

proof fn lemma_fresh_members(
    batch: Seq<MessageEntity>,
    ids: Seq<Seq<char>>,
    seqs: Seq<i64>,
    n: int,
)
    requires
        0 <= n <= batch.len(),
    ensures
        forall|k: int|
            0 <= k < fresh_messages(batch, ids, seqs, n).len() ==> comes_from(
                batch,
                ids,
                seqs,
                n,
                #[trigger] fresh_messages(batch, ids, seqs, n)[k],
            ),
        forall|k: int, l: int|
            0 <= k < l < fresh_messages(batch, ids, seqs, n).len() ==> #[trigger] fresh_messages(
                batch,
                ids,
                seqs,
                n,
            )[k].id@ != #[trigger] fresh_messages(batch, ids, seqs, n)[l].id@
                && fresh_messages(batch, ids, seqs, n)[k].seq != fresh_messages(
                batch,
                ids,
                seqs,
                n,
            )[l].seq,
    decreases n,
{
    if n > 0 {
        lemma_fresh_members(batch, ids, seqs, n - 1);
        let before = fresh_messages(batch, ids, seqs, n - 1);
        let all = fresh_messages(batch, ids, seqs, n);
        assert forall|k: int| 0 <= k < all.len() implies comes_from(
            batch,
            ids,
            seqs,
            n,
            #[trigger] all[k],
        ) by {
            if k < before.len() {
                assert(all[k] == before[k]);
                assert(comes_from(batch, ids, seqs, n - 1, before[k]));
                let i = choose|i: int|
                    0 <= i < n - 1 && #[trigger] fresh(batch, ids, seqs, i) && before[k] == batch[i];
                assert(fresh(batch, ids, seqs, i) && all[k] == batch[i]);
            } else {
                assert(fresh(batch, ids, seqs, n - 1) && all[k] == batch[n - 1]);
            }
        }
        assert forall|k: int, l: int| 0 <= k < l < all.len() implies #[trigger] all[k].id@
            != #[trigger] all[l].id@ && all[k].seq != all[l].seq by {
            assert(all[k] == before[k]);
            if l < before.len() {
                assert(all[l] == before[l]);
            } else {
                assert(all[l] == batch[n - 1]);
                assert(comes_from(batch, ids, seqs, n - 1, before[k]));
                let i = choose|i: int|
                    0 <= i < n - 1 && #[trigger] fresh(batch, ids, seqs, i) && before[k] == batch[i];
                assert(new_id(batch, ids, i));
            }
        }
    }
}

/// A kept message stands in the batch and is no duplicate there.
pub proof fn lemma_kept_origin(
    batch: Seq<MessageEntity>,
    ids: Seq<Seq<char>>,
    seqs: Seq<i64>,
    n: int,
    k: int,
) -> (i: int)
    requires
        0 <= n <= batch.len(),
        0 <= k < fresh_messages(batch, ids, seqs, n).len(),
    ensures
        0 <= i < n,
        fresh(batch, ids, seqs, i),
        batch[i] == fresh_messages(batch, ids, seqs, n)[k],
{
    lemma_fresh_members(batch, ids, seqs, n);
    let m = fresh_messages(batch, ids, seqs, n)[k];
    assert(comes_from(batch, ids, seqs, n, m));
    choose|i: int| 0 <= i < n && #[trigger] fresh(batch, ids, seqs, i) && m == batch[i]
}

/// Nothing stored is stored again: a planned message bears neither a stored id nor a stored seq.
pub proof fn law_no_stored_message_again(
    batch: Seq<MessageEntity>,
    ids: Seq<Seq<char>>,
    seqs: Seq<i64>,
    unconfirmed: Seq<Seq<char>>,
    plan: ReconcilePlan,
    k: int,
)
    requires
        plan_is(batch, ids, seqs, unconfirmed, plan),
        0 <= k < plan.to_insert@.len(),
    ensures
        !ids.contains(plan.to_insert@[k].id@),
        !seqs.contains(plan.to_insert@[k].seq),
        batch.contains(plan.to_insert@[k]),
{
    let kept = fresh_messages(batch, ids, seqs, batch.len() as int);
    let m = plan.to_insert@[k];
    crate::sorting::law_sorting_keeps_rows(plan.to_insert@, kept, m);
    assert(plan.to_insert@.contains(m));
    let j = choose|j: int| 0 <= j < kept.len() && kept[j] == m;
    lemma_fresh_members(batch, ids, seqs, batch.len() as int);
    assert(comes_from(batch, ids, seqs, batch.len() as int, kept[j]));
    let i = choose|i: int|
        0 <= i < batch.len() && #[trigger] fresh(batch, ids, seqs, i) && kept[j] == batch[i];
    assert(batch[i] == m);
}

/// A planned message is either an echo or new, never both and never neither.
pub proof fn law_echo_or_new(s: Seq<MessageEntity>, unconfirmed: Seq<Seq<char>>)
    ensures
        new_ids_of(s, unconfirmed).len() + echoes_of(s, unconfirmed).len() == s.len(),
    decreases s.len(),
{
    if s.len() > 0 {
        law_echo_or_new(s.drop_last(), unconfirmed);
    }
}

/// Once every id of a batch is stored, the batch brings nothing.
pub proof fn law_known_batch_brings_nothing(
    batch: Seq<MessageEntity>,
    ids: Seq<Seq<char>>,
    seqs: Seq<i64>,
    n: int,
)
    requires
        0 <= n <= batch.len(),
        forall|i: int| 0 <= i < batch.len() ==> ids.contains((#[trigger] batch[i]).id@),
    ensures
        fresh_messages(batch, ids, seqs, n).len() == 0,
    decreases n,
{
    if n > 0 {
        law_known_batch_brings_nothing(batch, ids, seqs, n - 1);
        assert(ids.contains(batch[n - 1].id@));
    }
}

/// The highest seq is that of a message of the batch, and no message exceeds it.
pub proof fn law_top_seq(batch: Seq<MessageEntity>)
    ensures
        batch.len() == 0 <==> top_seq(batch) is None,
        forall|i: int| 0 <= i < batch.len() ==> (#[trigger] batch[i]).seq <= top_seq(batch)->0,
        batch.len() > 0 ==> exists|i: int|
            0 <= i < batch.len() && (#[trigger] batch[i]).seq == top_seq(batch)->0,
    decreases batch.len(),
{
    if batch.len() > 0 {
        let head = batch.drop_last();
        law_top_seq(head);
        assert forall|i: int| 0 <= i < batch.len() implies (#[trigger] batch[i]).seq <= top_seq(
            batch,
        )->0 by {
            if i < head.len() {
                assert(batch[i] == head[i]);
            }
        }
        if top_seq(batch)->0 == batch.last().seq {
            assert(batch[batch.len() - 1].seq == top_seq(batch)->0);
        } else {
            let i = choose|i: int|
                0 <= i < head.len() && (#[trigger] head[i]).seq == top_seq(head)->0;
            assert(batch[i] == head[i]);
        }
    }
}

} // verus!
