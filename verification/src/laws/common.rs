//! Facts that several laws rest on.

use crate::store::local::{
    group_pos, lemma_group_pos, lemma_member_row_pos, lemma_outbox_pos, member_row_pos, outbox_pos,
    outbox_unique,
};
use crate::store::{LocalStore, OutboxEntity};
use vstd::prelude::*;

verus! {

/// What a filter lets pass is there.
pub proof fn lemma_filter_has<T>(s: Seq<T>, p: spec_fn(T) -> bool, k: int)
    requires
        0 <= k < s.len(),
        p(s[k]),
    ensures
        s.filter(p).contains(s[k]),
    decreases s.len(),
{
    reveal(Seq::filter);
    let t = s.drop_last();
    if k < t.len() {
        lemma_filter_has(t, p, k);
        let j = choose|j: int| 0 <= j < t.filter(p).len() && t.filter(p)[j] == s[k];
        assert(s.filter(p)[j] == s[k]);
    } else {
        assert(s.filter(p).last() == s[k]);
    }
}

/// What is there was let pass.
pub proof fn lemma_filter_from<T>(s: Seq<T>, p: spec_fn(T) -> bool, x: T)
    requires
        s.filter(p).contains(x),
    ensures
        s.contains(x),
        p(x),
    decreases s.len(),
{
    reveal(Seq::filter);
    if s.len() > 0 {
        let t = s.drop_last();
        let j = choose|j: int| 0 <= j < s.filter(p).len() && s.filter(p)[j] == x;
        if j < t.filter(p).len() {
            assert(t.filter(p)[j] == x);
            lemma_filter_from(t, p, x);
            let k = choose|k: int| 0 <= k < t.len() && t[k] == x;
            assert(s[k] == x);
        } else {
            assert(s[s.len() - 1] == x);
        }
    }
}

/// One row has the id of a group.
pub proof fn lemma_only_group(s: LocalStore, id: Seq<char>, i: int)
    requires
        s.wf(),
        0 <= i < s.group_rows@.len(),
    ensures
        s.group_rows@[i].id@ == id <==> i == group_pos(s.group_rows@, id),
{
    let rows = s.group_rows@;
    lemma_group_pos(rows, id);
    let p = group_pos(rows, id);
    if rows[i].id@ == id && p < i {
        assert(rows[p].id@ != rows[i].id@);
    }
    if rows[i].id@ == id && i < p {
        assert(rows[i].id@ != id);
    }
}

/// One row stands for a member.
pub proof fn lemma_only_member(s: LocalStore, group: Seq<char>, user: Seq<char>, i: int)
    requires
        s.wf(),
        0 <= i < s.member_rows@.len(),
    ensures
        s.member_rows@[i].group_id@ == group && s.member_rows@[i].user_id@ == user <==> i
            == member_row_pos(s.member_rows@, group, user),
{
    let rows = s.member_rows@;
    lemma_member_row_pos(rows, group, user);
    let p = member_row_pos(rows, group, user);
    if rows[i].group_id@ == group && rows[i].user_id@ == user && p < i {
        assert(!(rows[p].group_id@ == rows[i].group_id@ && rows[p].user_id@ == rows[i].user_id@));
    }
    if i < p {
        assert(!(rows[i].group_id@ == group && rows[i].user_id@ == user));
    }
}

/// One row has the id of a message.
pub proof fn lemma_only_row(rows: Seq<OutboxEntity>, id: Seq<char>, i: int)
    requires
        outbox_unique(rows),
        0 <= i < rows.len(),
    ensures
        rows[i].client_message_id@ == id <==> i == outbox_pos(rows, id),
{
    lemma_outbox_pos(rows, id);
    let p = outbox_pos(rows, id);
    if rows[i].client_message_id@ == id && p < i {
        assert(rows[p].client_message_id@ != rows[i].client_message_id@);
    }
}

} // verus!
