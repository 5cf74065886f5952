//! Messages as they arrive: sorted by group, stored once, and queued to be sent.

use crate::catchup::{group_rows_of, reconcile_groups};
use crate::crypto::{law_session_roundtrip, Opened, SessionCipher};
use crate::error::AppError;
use crate::laws::cache::law_storing_keeps_and_adds;
use crate::laws::common::{lemma_filter_from, lemma_filter_has};
use crate::laws::tables::{lemma_taken_over, list_taken_over};
use crate::models::{GroupDto, GroupMessages, MessageDto};
use crate::numbers::{
    all_digits, digits_value, is_digit, parse_i32, parse_i64, parse_u32, parse_u64, parsed_int,
};
use crate::outbox::enqueue;
use crate::pending::{bucket_messages, group_of, groups_seen, law_buckets_keep_messages, of_group};
use crate::sorting::{text_le, text_up_to};
use crate::store::{LocalStore, MessageEntity, OutboxEntity, OutboxState};
use crate::store::local::lemma_outbox_pos;
use crate::store::messages::{storable, stored_all};
use crate::text::trim;
use crate::ws::ClientFrame;
use vstd::prelude::*;

verus! {

/// The group that a message names, or none.
pub open spec fn names_group(m: MessageDto, g: Seq<char>) -> bool {
    match m.group_id {
        Some(x) => x@ == g,
        None => g.len() == 0,
    }
}

proof fn lemma_names(m: MessageDto, g: Seq<char>)
    ensures
        group_of(m) == g <==> names_group(m, g),
{
    if m.group_id is None && g.len() == 0 {
        assert(g =~= Seq::<char>::empty());
    }
}

/// Messages are sorted by group: each lands in the bucket of its group, a bucket holds no other, and
/// no group has two.
pub proof fn law_buckets(flat: Vec<MessageDto>, b: Vec<GroupMessages>, i: int, k: int, m: MessageDto)
    requires
        call_ensures(bucket_messages, (flat,), b),
    ensures
        0 <= i < flat@.len() ==> exists|j: int|
            0 <= j < b@.len() && (#[trigger] b@[j]).messages@.contains(flat@[i]),
        0 <= k < b@.len() ==> (b@[k].messages@.contains(m) <==> flat@.contains(m) && names_group(
            m,
            b@[k].group_id@,
        )),
        forall|x: int, y: int|
            0 <= x < y < b@.len() ==> (#[trigger] b@[x]).group_id@ != (#[trigger] b@[y]).group_id@,
{
    if 0 <= i < flat@.len() {
        law_buckets_keep_messages(flat@, b@, i);
    }
    lemma_seen_once(flat@);
    if 0 <= k < b@.len() {
        let g = b@[k].group_id@;
        let p = |x: MessageDto| group_of(x) == g;
        lemma_names(m, g);
        assert(b@[k].messages@ == of_group(flat@, g));
        if flat@.contains(m) && p(m) {
            let j = choose|j: int| 0 <= j < flat@.len() && flat@[j] == m;
            lemma_filter_has(flat@, p, j);
        }
        if flat@.filter(p).contains(m) {
            lemma_filter_from(flat@, p, m);
        }
    }
    assert forall|x: int, y: int| 0 <= x < y < b@.len() implies (#[trigger] b@[x]).group_id@ != (
    #[trigger] b@[y]).group_id@ by {
        assert(groups_seen(flat@)[x] != groups_seen(flat@)[y]);
    }
}

proof fn lemma_seen_once(flat: Seq<MessageDto>)
    ensures
        forall|x: int, y: int|
            0 <= x < y < groups_seen(flat).len() ==> #[trigger] groups_seen(flat)[x]
                != #[trigger] groups_seen(flat)[y],
    decreases flat.len(),
{
    if flat.len() > 0 {
        lemma_seen_once(flat.drop_last());
        let before = groups_seen(flat.drop_last());
        let all = groups_seen(flat);
        assert forall|x: int, y: int| 0 <= x < y < all.len() implies #[trigger] all[x]
            != #[trigger] all[y] by {
            assert(all[x] == before[x]);
            if y < before.len() {
                assert(all[y] == before[y]);
            } else {
                assert(before.contains(before[x]));
            }
        }
    }
}

/// A row that a message clashes with: its id, or its place in its group.
pub open spec fn clashes(row: MessageEntity, m: MessageEntity) -> bool {
    row.id@ == m.id@ || (row.group_id@ == m.group_id@ && row.seq == m.seq)
}

proof fn lemma_new_is_stored(rows: Seq<MessageEntity>, list: Seq<MessageEntity>, k: int)
    requires
        0 <= k < list.len(),
        forall|i: int| 0 <= i < rows.len() ==> !clashes(#[trigger] rows[i], list[k]),
        forall|j: int| 0 <= j < k ==> !clashes(#[trigger] list[j], list[k]),
    ensures
        stored_all(rows, list).contains(list[k]),
    decreases list.len(),
{
    let front = list.drop_last();
    let mid = stored_all(rows, front);
    let all = stored_all(rows, list);
    if k < front.len() {
        assert forall|j: int| 0 <= j < k implies !clashes(#[trigger] front[j], front[k]) by {
            assert(front[j] == list[j]);
        }
        lemma_new_is_stored(rows, front, k);
        let i = choose|i: int| 0 <= i < mid.len() && mid[i] == list[k];
        assert(all[i] == list[k]);
    } else {
        assert forall|i: int| 0 <= i < mid.len() implies !clashes(#[trigger] mid[i], list[k]) by {
            law_storing_keeps_and_adds(rows, front, mid[i]);
            assert(mid.contains(mid[i]));
            if rows.contains(mid[i]) {
                let a = choose|a: int| 0 <= a < rows.len() && rows[a] == mid[i];
                assert(!clashes(rows[a], list[k]));
            } else {
                let a = choose|a: int| 0 <= a < front.len() && front[a] == mid[i];
                assert(!clashes(list[a], list[k]));
            }
        }
        assert(storable(mid, list[k])) by {
            assert forall|i: int| 0 <= i < mid.len() implies (#[trigger] mid[i]).id@ != list[k].id@
                && !(mid[i].group_id@ == list[k].group_id@ && mid[i].seq == list[k].seq) by {
                assert(!clashes(mid[i], list[k]));
            }
        }
        assert(all[mid.len() as int] == list[k]);
    }
}

/// Messages are stored once: what is stored stays, a message that is new by its id and its place is
/// added, one that is not is left out, and the number of those added is told.
pub proof fn law_insert_messages(list: &Vec<MessageEntity>, n: usize, k: int, m: MessageEntity)
    ensures
        forall|store: &mut LocalStore|
            store.wf() && #[trigger] call_ensures(LocalStore::insert_messages, (store, list), n) ==> {
                let old = store.message_rows@;
                let new = final(store).message_rows@;
                &&& n == new.len() - old.len()
                &&& old.contains(m) ==> new.contains(m)
                &&& new.contains(m) ==> old.contains(m) || list@.contains(m)
                &&& 0 <= k < list@.len() && (forall|i: int|
                    0 <= i < old.len() ==> !clashes(#[trigger] old[i], list@[k])) && (forall|j: int|
                    0 <= j < k ==> !clashes(#[trigger] list@[j], list@[k])) ==> new.contains(list@[k])
                &&& final(store).outbox_rows == store.outbox_rows
                &&& final(store).member_rows == store.member_rows
            },
{
    assert forall|store: &mut LocalStore|
        store.wf() && #[trigger] call_ensures(LocalStore::insert_messages, (store, list), n) implies {
        let old = store.message_rows@;
        let new = final(store).message_rows@;
        &&& n == new.len() - old.len()
        &&& old.contains(m) ==> new.contains(m)
        &&& new.contains(m) ==> old.contains(m) || list@.contains(m)
        &&& 0 <= k < list@.len() && (forall|i: int|
            0 <= i < old.len() ==> !clashes(#[trigger] old[i], list@[k])) && (forall|j: int|
            0 <= j < k ==> !clashes(#[trigger] list@[j], list@[k])) ==> new.contains(list@[k])
        &&& final(store).outbox_rows == store.outbox_rows
        &&& final(store).member_rows == store.member_rows
    } by {
        let old = store.message_rows@;
        let new = final(store).message_rows@;
        law_storing_keeps_and_adds(old, list@, m);
        if old.contains(m) {
            let i = choose|i: int| 0 <= i < old.len() && old[i] == m;
            assert(new[i] == m);
        }
        if 0 <= k < list@.len() && (forall|i: int|
            0 <= i < old.len() ==> !clashes(#[trigger] old[i], list@[k])) && (forall|j: int|
            0 <= j < k ==> !clashes(#[trigger] list@[j], list@[k])) {
            lemma_new_is_stored(old, list@, k);
        }
    }
}

/// What is queued to be sent: the text without the white space around it, where that is between one
/// and two thousand characters; it waits under a fresh id and nothing else changes.
pub proof fn law_enqueue(group: &str, body: &str, now: i64, r: Result<OutboxEntity, AppError>)
    ensures
        forall|store: &mut LocalStore|
            store.wf() && #[trigger] call_ensures(enqueue, (store, group, body, now), r) ==> {
                &&& r is Ok <==> 0 < trim(body@).len() <= 2000
                &&& r matches Ok(e) ==> e.body@ == trim(body@) && e.group_id@ == group@ && e.state
                    == OutboxState::Pending && e.created_at == now && e.attempt_count == 0
                    && e.error_code is None && final(store).outbox_rows@.len()
                    <= store.outbox_rows@.len() + 1 && ((forall|i: int|
                    0 <= i < store.outbox_rows@.len() ==> (
                    #[trigger] store.outbox_rows@[i]).client_message_id@ != e.client_message_id@)
                    ==> final(store).outbox_rows@ == store.outbox_rows@.push(e))
                &&& r is Err ==> *final(store) == *store && r->Err_0 is InvalidInput
            },
{
    assert forall|store: &mut LocalStore|
        store.wf() && #[trigger] call_ensures(enqueue, (store, group, body, now), r) implies {
        &&& r is Ok <==> 0 < trim(body@).len() <= 2000
        &&& r matches Ok(e) ==> e.body@ == trim(body@) && e.group_id@ == group@ && e.state
            == OutboxState::Pending && e.created_at == now && e.attempt_count == 0
            && e.error_code is None && final(store).outbox_rows@.len() <= store.outbox_rows@.len()
            + 1 && ((forall|i: int|
            0 <= i < store.outbox_rows@.len() ==> (
            #[trigger] store.outbox_rows@[i]).client_message_id@ != e.client_message_id@)
            ==> final(store).outbox_rows@ == store.outbox_rows@.push(e))
        &&& r is Err ==> *final(store) == *store && r->Err_0 is InvalidInput
    } by {
        if let Ok(e) = r {
            lemma_outbox_pos(store.outbox_rows@, e.client_message_id@);
        }
    }
}

/// A full list from the server is taken over: each listed group is alive as the list has it, and
/// each group that is not listed is marked deleted.
pub proof fn law_server_list(list: Vec<GroupDto>, now: i64, k: int, i: int)
    requires
        forall|a: int, b: int|
            0 <= a < b < list@.len() ==> (#[trigger] list@[a]).id@ != (#[trigger] list@[b]).id@,
        0 <= k < list@.len(),
    ensures
        group_rows_of(list@, now)[k].id == list@[k].id,
        group_rows_of(list@, now)[k].name == list@[k].name,
        group_rows_of(list@, now)[k].my_role == list@[k].my_role,
        group_rows_of(list@, now).len() == list@.len(),
        forall|store: &mut LocalStore|
            store.wf() && #[trigger] call_ensures(reconcile_groups, (store, list, now), ())
                ==> list_taken_over(*store, *final(store), group_rows_of(list@, now), k, i),
{
    let rows = group_rows_of(list@, now);
    assert forall|a: int, b: int| 0 <= a < b < rows.len() implies (#[trigger] rows[a]).id@ != (
    #[trigger] rows[b]).id@ by {
        assert(list@[a].id@ != list@[b].id@);
    }
    assert forall|store: &mut LocalStore|
        store.wf() && #[trigger] call_ensures(
            reconcile_groups,
            (store, list, now),
            (),
        ) implies list_taken_over(*store, *final(store), rows, k, i) by {
        lemma_taken_over(*store, *final(store), rows, k, i);
    }
}

/// Texts are ordered by the first character in which they differ; a text stands before every
/// longer one that begins with it.
pub proof fn law_text_order(p: Seq<char>, x: char, y: char, a: Seq<char>, b: Seq<char>)
    ensures
        (x as u32) < (y as u32) ==> text_le(p + (seq![x] + a), p + (seq![y] + b)) && !text_le(
            p + (seq![y] + b),
            p + (seq![x] + a),
        ),
        text_le(p, p + a),
        a.len() > 0 ==> !text_le(p + a, p),
    decreases p.len(),
{
    if p.len() > 0 {
        let q = p.drop_first();
        law_text_order(q, x, y, a, b);
        assert((p + (seq![x] + a)).drop_first() =~= q + (seq![x] + a));
        assert((p + (seq![y] + b)).drop_first() =~= q + (seq![y] + b));
        assert((p + a).drop_first() =~= q + a);
        assert((p + a)[0] == p[0]);
        assert((p + (seq![x] + a))[0] == p[0]);
        assert((p + (seq![y] + b))[0] == p[0]);
    } else {
        assert(p + (seq![x] + a) =~= seq![x] + a);
        assert(p + (seq![y] + b) =~= seq![y] + b);
        assert((seq![x] + a)[0] == x);
        assert((seq![y] + b)[0] == y);
        assert(p + a =~= a);
    }
}

/// The comparison of texts is that order.
pub proof fn law_text_up_to(a: &str, b: &str, r: bool)
    requires
        call_ensures(text_up_to, (a, b), r),
    ensures
        r == text_le(a@, b@),
{
}

/// Numbers are read from their digits; a plus sign changes nothing, a minus sign negates, and
/// leading zeros do not count. What has anything else in it is no number.
pub proof fn law_numbers_read(d: Seq<char>, c: char, i: int)
    requires
        d.len() > 0,
        all_digits(d),
    ensures
        parsed_int(d) == Some(digits_value(d) as int),
        parsed_int(seq!['+'] + d) == Some(digits_value(d) as int),
        parsed_int(seq!['-'] + d) == Some(-(digits_value(d) as int)),
        digits_value(seq!['0'] + d) == digits_value(d),
        is_digit(c) ==> digits_value(d.push(c)) == 10 * digits_value(d) + (c as u32 - 48),
        parsed_int(Seq::empty()) is None,
        !is_digit(c) ==> parsed_int(d.push(c)) is None,
{
    assert(is_digit(d[0]));
    assert((seq!['+'] + d).skip(1) =~= d);
    assert((seq!['-'] + d).skip(1) =~= d);
    assert(d.push(c).drop_last() =~= d);
    lemma_zero(d);
    if !is_digit(c) {
        let s = d.push(c);
        assert(s[0] == d[0]);
        assert(!is_digit(s[d.len() as int]));
    }
}

proof fn lemma_zero(d: Seq<char>)
    ensures
        digits_value(seq!['0'] + d) == digits_value(d),
    decreases d.len(),
{
    reveal_with_fuel(digits_value, 2);
    let s = seq!['0'] + d;
    if d.len() > 0 {
        lemma_zero(d.drop_last());
        assert(s.drop_last() =~= seq!['0'] + d.drop_last());
        assert(s.last() == d.last());
    } else {
        assert(s.drop_last() =~= Seq::<char>::empty());
        assert(s.last() == '0');
    }
}

/// The readers of numbers take what fits and nothing else.
pub proof fn law_number_readers(s: &str, a: Option<i64>, b: Option<i32>, c: Option<u32>, d: Option<u64>)
    requires
        call_ensures(parse_i64, (s,), a),
        call_ensures(parse_i32, (s,), b),
        call_ensures(parse_u32, (s,), c),
        call_ensures(parse_u64, (s,), d),
    ensures
        parsed_int(s@) is None ==> a is None && b is None && c is None && d is None,
        parsed_int(s@) matches Some(n) ==> {
            &&& a is Some <==> i64::MIN <= n <= i64::MAX
            &&& b is Some <==> i32::MIN <= n <= i32::MAX
            &&& n > 0 ==> (c is Some <==> n <= u32::MAX) && (d is Some <==> n <= u64::MAX)
            &&& n < 0 ==> c is None && d is None
            &&& a is Some ==> a->0 == n
            &&& b is Some ==> b->0 == n
            &&& c is Some ==> c->0 == n
            &&& d is Some ==> d->0 == n
        },
{
    if s@.len() > 1 && s@[0] == '-' && all_digits(s@.skip(1)) {
        assert(parsed_int(s@) == Some(-(digits_value(s@.skip(1)) as int)));
    }
}

/// The frames that the client sends: acknowledgements and read positions name the group and the
/// place.
pub proof fn law_client_frames(f: &ClientFrame, r: String)
    requires
        call_ensures(ClientFrame::to_text, (f,), r),
    ensures
        *f == ClientFrame::Ping ==> r@ == "{\"type\":\"ping\"}"@,
        *f matches ClientFrame::Ack { group_id, seq } ==> r@ == "{\"type\":\"ack\",\"groupId\":"@ + (
        seq!['"'] + crate::ws::json_chars(group_id@) + seq!['"']) + ",\"seq\":"@
            + crate::numbers::decimal_int(seq as int) + "}"@,
        *f matches ClientFrame::Read { group_id, seq } ==> r@ == "{\"type\":\"read\",\"groupId\":"@ + (
        seq!['"'] + crate::ws::json_chars(group_id@) + seq!['"']) + ",\"seq\":"@
            + crate::numbers::decimal_int(seq as int) + "}"@,
{
}

/// What is encrypted for an account is decrypted for it to the same token, with nothing to renew.
pub proof fn law_cipher_roundtrip(
    c: &SessionCipher,
    token: &str,
    context: &str,
    sealed: String,
    blob: &str,
    r: Result<Opened, String>,
)
    requires
        call_ensures(SessionCipher::encrypt, (c, token, context), Ok::<String, String>(sealed)),
        blob@ == sealed@,
        call_ensures(SessionCipher::decrypt, (c, blob, context), r),
    ensures
        r matches Ok(o) && o.token@ == token@ && !o.rewrap,
{
    law_session_roundtrip(c.keys(), token@, context@, blob@, r);
}

} // verus!
