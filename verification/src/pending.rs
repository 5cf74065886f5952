//! What waited for this device while it was away.

use crate::json::{as_str, get, member_of, Json};
use crate::models::{opt_text, GroupDto, GroupEventDto, GroupMessages, MessageDto, PendingResponse};
use crate::pages::{first_named, first_str, first_value, take_first, text_value};
use crate::wire::{copy_unknown, extra_is, list_bad, list_from, list_is, Wire};
use vstd::prelude::*;

verus! {

/// The group a message belongs to; empty when it does not say.
pub open spec fn group_of(m: MessageDto) -> Seq<char> {
    match m.group_id {
        Some(g) => g@,
        None => Seq::empty(),
    }
}

/// The groups of a list of messages, each once, in order of first appearance.
pub open spec fn groups_seen(flat: Seq<MessageDto>) -> Seq<Seq<char>>
    decreases flat.len(),
{
    if flat.len() == 0 {
        seq![]
    } else {
        let before = groups_seen(flat.drop_last());
        if before.contains(group_of(flat.last())) {
            before
        } else {
            before.push(group_of(flat.last()))
        }
    }
}

/// The messages of one group, in order.
pub open spec fn of_group(flat: Seq<MessageDto>, g: Seq<char>) -> Seq<MessageDto> {
    flat.filter(|m: MessageDto| group_of(m) == g)
}

/// `b` is `flat` sorted into one bucket per group.
pub open spec fn bucketed(flat: Seq<MessageDto>, b: Seq<GroupMessages>) -> bool {
    &&& b.len() == groups_seen(flat).len()
    &&& forall|i: int|
        0 <= i < b.len() ==> {
            &&& (#[trigger] b[i]).group_id@ == groups_seen(flat)[i]
            &&& b[i].messages@ == of_group(flat, b[i].group_id@)
            &&& b[i].delivered_seq is None
            &&& !b[i].has_more
        }
}

proof fn lemma_groups_distinct(flat: Seq<MessageDto>)
    ensures
        groups_seen(flat).no_duplicates(),
        forall|i: int|
            0 <= i < flat.len() ==> groups_seen(flat).contains(group_of(#[trigger] flat[i])),
    decreases flat.len(),
{
    if flat.len() > 0 {
        let before = groups_seen(flat.drop_last());
        lemma_groups_distinct(flat.drop_last());
        let g = group_of(flat.last());
        if !before.contains(g) {
            assert(before.push(g)[before.len() as int] == g);
        }
        assert forall|i: int| 0 <= i < flat.len() implies groups_seen(flat).contains(
            group_of(#[trigger] flat[i]),
        ) by {
            if i < flat.len() - 1 {
                assert(flat[i] == flat.drop_last()[i]);
                let k = choose|k: int| 0 <= k < before.len() && before[k] == group_of(flat[i]);
                assert(groups_seen(flat)[k] == group_of(flat[i]));
            }
        }
    }
}

proof fn lemma_of_group_push(flat: Seq<MessageDto>, m: MessageDto, g: Seq<char>)
    ensures
        of_group(flat.push(m), g) == (if group_of(m) == g {
            of_group(flat, g).push(m)
        } else {
            of_group(flat, g)
        }),
{
    reveal(Seq::filter);
    assert(flat.push(m).drop_last() =~= flat);
}

proof fn lemma_of_group_unseen(flat: Seq<MessageDto>, g: Seq<char>)
    requires
        !groups_seen(flat).contains(g),
    ensures
        of_group(flat, g) =~= Seq::empty(),
    decreases flat.len(),
{
    reveal(Seq::filter);
    if flat.len() > 0 {
        let before = groups_seen(flat.drop_last());
        lemma_groups_distinct(flat);
        assert(group_of(flat[flat.len() - 1]) != g);
        assert(!before.contains(g)) by {
            if before.contains(g) {
                let k = choose|k: int| 0 <= k < before.len() && before[k] == g;
                assert(groups_seen(flat)[k] == g);
            }
        }
        lemma_of_group_unseen(flat.drop_last(), g);
    }
}

fn same_group(m: &MessageDto, g: &String) -> (r: bool)
    ensures
        r == (group_of(*m) == g@),
{
    match &m.group_id {
        Some(h) => *h == *g,
        None => {
            assert(g@.len() == 0 ==> g@ =~= Seq::empty());
            g.as_str().is_empty()
        },
    }
}

/// Sort a flat list of messages into one bucket per group, keeping the order.
pub fn bucket_messages(messages: Vec<MessageDto>) -> (b: Vec<GroupMessages>)
    ensures
        bucketed(messages@, b@),
{
    let ghost flat = messages@;
    let mut rest = messages;
    let mut out: Vec<GroupMessages> = Vec::new();
    let ghost mut done: int = 0;
    assert(flat.take(0) =~= Seq::empty());
    assert(flat.skip(0) =~= flat);
    while rest.len() > 0
        invariant
            0 <= done <= flat.len(),
            rest@ == flat.skip(done),
            bucketed(flat.take(done), out@),
        decreases rest.len(),
    {
        let ghost seen = flat.take(done);
        let m = rest.remove(0);
        proof {
            assert(m == flat[done]);
            assert(flat.take(done + 1) =~= seen.push(m));
            assert(seen.push(m).drop_last() =~= seen);
            assert(rest@ =~= flat.skip(done + 1));
            lemma_groups_distinct(seen);
            assert forall|g: Seq<char>| of_group(seen.push(m), g) == (if group_of(m) == g {
                of_group(seen, g).push(m)
            } else {
                of_group(seen, g)
            }) by {
                lemma_of_group_push(seen, m, g);
            }
        }
        let mut i: usize = 0;
        while i < out.len() && !same_group(&m, &out[i].group_id)
            invariant
                i <= out.len(),
                forall|k: int| 0 <= k < i ==> (#[trigger] out@[k]).group_id@ != group_of(m),
            decreases out.len() - i,
        {
            i += 1;
        }
        let ghost before = out@;
        if i < out.len() {
            assert(groups_seen(seen)[i as int] == group_of(m));
            let mut bucket = out.remove(i);
            bucket.messages.push(m);
            out.insert(i, bucket);
            assert forall|k: int| 0 <= k < out@.len() implies {
                &&& (#[trigger] out@[k]).group_id@ == groups_seen(seen.push(m))[k]
                &&& out@[k].messages@ == of_group(seen.push(m), out@[k].group_id@)
                &&& out@[k].delivered_seq is None
                &&& !out@[k].has_more
            } by {
                if k != i {
                    assert(out@[k] == before[k]);
                    assert(groups_seen(seen)[k] != groups_seen(seen)[i as int]);
                }
            }
        } else {
            assert(!groups_seen(seen).contains(group_of(m))) by {
                if groups_seen(seen).contains(group_of(m)) {
                    let k = choose|k: int|
                        0 <= k < groups_seen(seen).len() && groups_seen(seen)[k] == group_of(m);
                    assert(before[k].group_id@ == group_of(m));
                }
            }
            proof {
                lemma_of_group_unseen(seen, group_of(m));
            }
            let group_id = match &m.group_id {
                Some(g) => g.clone(),
                None => String::new(),
            };
            let mut one: Vec<MessageDto> = Vec::new();
            one.push(m);
            assert(one@ =~= Seq::<MessageDto>::empty().push(m));
            out.push(
                GroupMessages { group_id, messages: one, delivered_seq: None, has_more: false },
            );
            assert forall|k: int| 0 <= k < out@.len() implies {
                &&& (#[trigger] out@[k]).group_id@ == groups_seen(seen.push(m))[k]
                &&& out@[k].messages@ == of_group(seen.push(m), out@[k].group_id@)
                &&& out@[k].delivered_seq is None
                &&& !out@[k].has_more
            } by {
                if k < before.len() {
                    assert(out@[k] == before[k]);
                    assert(groups_seen(seen)[k] == before[k].group_id@);
                }
            }
        }
        proof {
            done = done + 1;
        }
    }
    assert(flat.take(done) =~= flat);
    out
}

/// Every element of a list nests a list of messages.
pub open spec fn all_buckets(items: Seq<Json>) -> bool {
    forall|i: int| 0 <= i < items.len() ==> is_bucket(#[trigger] items[i])
}

/// An object that nests a list of messages.
pub open spec fn is_bucket(j: Json) -> bool {
    match j {
        Json::Obj(o) => member_of(o@, "messages"@) matches Some(m) && m is Arr,
        _ => false,
    }
}

/// `b` is what the message list `j` decodes to: buckets, or single messages sorted into buckets.
pub open spec fn buckets_are(j: Json, b: Seq<GroupMessages>) -> bool {
    match j {
        Json::Arr(items) => if all_buckets(items@) {
            list_is(items@, b)
        } else {
            exists|flat: Seq<MessageDto>| #[trigger] list_is(items@, flat) && bucketed(flat, b)
        },
        Json::Null => b.len() == 0,
        _ => false,
    }
}

/// The message list `j` does not decode.
pub open spec fn buckets_bad(j: Json) -> bool {
    match j {
        Json::Arr(items) => if all_buckets(items@) {
            list_bad::<GroupMessages>(items@)
        } else {
            list_bad::<MessageDto>(items@)
        },
        Json::Null => false,
        _ => true,
    }
}

fn bucket_shaped(j: &Json) -> (r: bool)
    ensures
        r == is_bucket(*j),
{
    match j {
        Json::Obj(o) => match get(o, "messages") {
            Some(Json::Arr(_)) => true,
            _ => false,
        },
        _ => false,
    }
}

/// Decode a message list: `[{groupId, messages}]`, or a flat list of messages.
pub fn parse_message_buckets(j: &Json) -> (r: Option<Vec<GroupMessages>>)
    ensures
        match r {
            Some(b) => buckets_are(*j, b@),
            None => buckets_bad(*j),
        },
{
    match j {
        Json::Arr(items) => {
            let mut i: usize = 0;
            while i < items.len() && bucket_shaped(&items[i])
                invariant
                    i <= items.len(),
                    forall|k: int| 0 <= k < i ==> is_bucket(#[trigger] items@[k]),
                decreases items.len() - i,
            {
                i += 1;
            }
            if i == items.len() {
                list_from::<GroupMessages>(items)
            } else {
                assert(!is_bucket(items@[i as int]));
                match list_from::<MessageDto>(items) {
                    Some(flat) => {
                        let ghost f = flat@;
                        assert(list_is(items@, f));
                        Some(bucket_messages(flat))
                    },
                    None => None,
                }
            }
        },
        Json::Null => Some(Vec::new()),
        _ => None,
    }
}

/// A `groups` list that holds message buckets: its first element has a `groupId`.
pub open spec fn groups_hold_buckets(j: Json) -> bool {
    match j {
        Json::Arr(items) => items@.len() > 0 && (items@[0] matches Json::Obj(o) && member_of(
            o@,
            "groupId"@,
        ) is Some),
        _ => false,
    }
}

fn hold_buckets(j: &Json) -> (r: bool)
    ensures
        r == groups_hold_buckets(*j),
{
    match j {
        Json::Arr(items) => if items.len() > 0 {
            match &items[0] {
                Json::Obj(o) => get(o, "groupId").is_some(),
                _ => false,
            }
        } else {
            false
        },
        _ => false,
    }
}

/// The first `k` buckets come from the message list, the others from the group list.
pub open spec fn parts_at(
    messages: Option<Json>,
    groups: Option<Json>,
    b: Seq<GroupMessages>,
    k: int,
) -> bool {
    &&& 0 <= k <= b.len()
    &&& match messages {
        Some(m) => buckets_are(m, b.take(k)),
        None => k == 0,
    }
    &&& match groups {
        Some(g) => if groups_hold_buckets(g) {
            buckets_are(g, b.skip(k))
        } else {
            k == b.len()
        },
        None => k == b.len(),
    }
}

/// The decoding of each part of a pending response.
pub open spec fn pending_is(
    messages: Option<Json>,
    groups: Option<Json>,
    events: Option<Json>,
    cursor: Option<Seq<char>>,
    more: Option<Json>,
    r: Option<PendingResponse>,
) -> bool {
    let bucketed_groups = groups matches Some(g) && groups_hold_buckets(g);
    match r {
        Some(p) => {
            &&& exists|k: int| #[trigger] parts_at(messages, groups, p.messages@, k)
            &&& match groups {
                Some(Json::Arr(items)) => if bucketed_groups {
                    p.groups@.len() == 0
                } else {
                    list_is(items@, p.groups@)
                },
                Some(_) => false,
                None => p.groups@.len() == 0,
            }
            &&& match events {
                Some(Json::Arr(items)) => list_is(items@, p.events@),
                Some(_) => false,
                None => p.events@.len() == 0,
            }
            &&& opt_text(p.next_cursor) == cursor
            &&& p.has_more == (match more {
                Some(Json::Bool(b)) => b,
                _ => cursor is Some,
            })
        },
        None => {
            ||| messages matches Some(m) && buckets_bad(m)
            ||| match groups {
                Some(Json::Arr(items)) => if bucketed_groups {
                    buckets_bad(groups->0)
                } else {
                    list_bad::<GroupDto>(items@)
                },
                Some(_) => true,
                None => false,
            }
            ||| match events {
                Some(Json::Arr(items)) => list_bad::<GroupEventDto>(items@),
                Some(_) => true,
                None => false,
            }
        },
    }
}

/// An optional value, not its reference.
pub open spec fn by_value(j: Option<&Json>) -> Option<Json> {
    match j {
        Some(v) => Some(*v),
        None => None,
    }
}

fn assemble(
    messages: Option<&Json>,
    groups: Option<&Json>,
    events: Option<&Json>,
    next_cursor: Option<String>,
    more: Option<&Json>,
) -> (r: Option<PendingResponse>)
    ensures
        pending_is(
            by_value(messages),
            by_value(groups),
            by_value(events),
            opt_text(next_cursor),
            by_value(more),
            r,
        ),
        r matches Some(p) ==> p.extra@.len() == 0,
{
    let mut buckets: Vec<GroupMessages> = match messages {
        Some(m) => match parse_message_buckets(m) {
            Some(b) => b,
            None => {
                return None;
            },
        },
        None => Vec::new(),
    };
    let ghost first = buckets@;
    let mut group_list: Vec<GroupDto> = Vec::new();
    match groups {
        Some(g) => {
            if hold_buckets(g) {
                match parse_message_buckets(g) {
                    Some(b) => {
                        let mut more_buckets = b;
                        let ghost second = more_buckets@;
                        buckets.append(&mut more_buckets);
                        assert(buckets@.take(first.len() as int) =~= first);
                        assert(buckets@.skip(first.len() as int) =~= second);
                    },
                    None => {
                        return None;
                    },
                }
            } else {
                match g {
                    Json::Arr(items) => match list_from::<GroupDto>(items) {
                        Some(l) => {
                            group_list = l;
                        },
                        None => {
                            return None;
                        },
                    },
                    _ => {
                        return None;
                    },
                }
            }
        },
        None => {},
    }
    let event_list: Vec<GroupEventDto> = match events {
        Some(Json::Arr(items)) => match list_from::<GroupEventDto>(items) {
            Some(l) => l,
            None => {
                return None;
            },
        },
        Some(_) => {
            return None;
        },
        None => Vec::new(),
    };
    let has_more = match more {
        Some(Json::Bool(b)) => *b,
        _ => next_cursor.is_some(),
    };
    assert(buckets@.take(first.len() as int) =~= first);
    let p = PendingResponse {
        messages: buckets,
        groups: group_list,
        events: event_list,
        next_cursor,
        has_more,
        extra: Vec::new(),
    };
    assert(parts_at(by_value(messages), by_value(groups), p.messages@, first.len() as int));
    Some(p)
}

/// The member names that a pending object uses.
pub open spec fn pending_members(o: Seq<(String, Json)>) -> Seq<&'static str> {
    first_named(o, seq!["messages", "items"]) + first_named(o, seq!["nextCursor", "cursor"])
        + seq!["groups", "events", "hasMore"]
}

impl Wire for PendingResponse {
    /// `{messages, groups, events, nextCursor, hasMore}`, a bare message list, or null.
    open spec fn decodes(j: Json, r: Option<Self>) -> bool {
        match j {
            Json::Obj(o) => {
                &&& pending_is(
                    first_value(o@, seq!["messages", "items"]),
                    member_of(o@, "groups"@),
                    member_of(o@, "events"@),
                    first_str(o@, seq!["nextCursor", "cursor"]),
                    member_of(o@, "hasMore"@),
                    r,
                )
                &&& r matches Some(p) ==> extra_is(o@, pending_members(o@), p.extra@)
            },
            Json::Arr(_) => {
                &&& pending_is(Some(j), None, None, None, None, r)
                &&& r matches Some(p) ==> p.extra@.len() == 0
            },
            Json::Null => {
                &&& pending_is(None, None, None, None, None, r)
                &&& r matches Some(p) && p.extra@.len() == 0
            },
            _ => r is None,
        }
    }

    fn from_json(j: &Json) -> (r: Option<Self>) {
        match j {
            Json::Obj(o) => {
                let mut known: Vec<&'static str> = Vec::new();
                let messages = take_first(o, "messages", "items", &mut known);
                let cursor = text_value(take_first(o, "nextCursor", "cursor", &mut known));
                known.push("groups");
                known.push("events");
                known.push("hasMore");
                assert(known@ =~= pending_members(o@));
                match assemble(messages, get(o, "groups"), get(o, "events"), cursor, get(o, "hasMore")) {
                    Some(p) => {
                        let ghost m = first_value(o@, seq!["messages", "items"]);
                        let ghost g = member_of(o@, "groups"@);
                        let ghost k = choose|k: int| #[trigger] parts_at(m, g, p.messages@, k);
                        let q = PendingResponse {
                            messages: p.messages,
                            groups: p.groups,
                            events: p.events,
                            next_cursor: p.next_cursor,
                            has_more: p.has_more,
                            extra: copy_unknown(o, known.as_slice()),
                        };
                        assert(parts_at(m, g, q.messages@, k));
                        Some(q)
                    },
                    None => None,
                }
            },
            Json::Arr(_) => assemble(Some(j), None, None, None, None),
            Json::Null => assemble(None, None, None, None, None),
            _ => None,
        }
    }
}

/// Sorting into buckets loses no message: every message stands in the bucket of its group.
pub proof fn law_buckets_keep_messages(flat: Seq<MessageDto>, b: Seq<GroupMessages>, i: int)
    requires
        bucketed(flat, b),
        0 <= i < flat.len(),
    ensures
        exists|k: int| 0 <= k < b.len() && (#[trigger] b[k]).messages@.contains(flat[i]),
{
    lemma_groups_distinct(flat);
    let g = group_of(flat[i]);
    let k = choose|k: int| 0 <= k < groups_seen(flat).len() && groups_seen(flat)[k] == g;
    assert(b[k].group_id@ == g);
    lemma_filter_has(flat, g, i);
}

proof fn lemma_filter_has(flat: Seq<MessageDto>, g: Seq<char>, i: int)
    requires
        0 <= i < flat.len(),
        group_of(flat[i]) == g,
    ensures
        of_group(flat, g).contains(flat[i]),
    decreases flat.len(),
{
    reveal(Seq::filter);
    let head = of_group(flat.drop_last(), g);
    if i == flat.len() - 1 {
        assert(of_group(flat, g) == head.push(flat[i]));
        assert(of_group(flat, g)[head.len() as int] == flat[i]);
    } else {
        lemma_filter_has(flat.drop_last(), g, i);
        let k = choose|k: int| 0 <= k < head.len() && head[k] == flat[i];
        assert(of_group(flat, g)[k] == flat[i]);
    }
}

} // verus!
