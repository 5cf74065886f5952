//! Pagination envelopes, contact lists, legal documents and pending message buckets.

use crate::json::{as_str, get, member_of, member_pos, str_of, Json};
use crate::models::{opt_text, LegalDocument, Page, RegisteredContact};
use crate::text::same;
use crate::wire::{
    copy_unknown, decodes_list, either, extra_is, find, find_either, list_from, one, opt_text_in,
    opt_time_in, read_opt_text, read_opt_time, read_text_or_empty, text_or_empty_in, Wire,
};
use vstd::prelude::*;

verus! {

/// Member names under which a list may stand in a page object, in order of preference.
pub open spec fn list_keys() -> Seq<&'static str> {
    seq![
        "items",
        "data",
        "results",
        "groups",
        "members",
        "messages",
        "devices",
        "registered",
        "events",
        "categories",
    ]
}

/// Member names under which a cursor may stand, in order of preference.
pub open spec fn cursor_keys() -> Seq<&'static str> {
    seq!["nextCursor", "next_cursor", "cursor", "next"]
}

/// Position of the list under the first of `keys` that holds one.
pub open spec fn keyed_list(o: Seq<(String, Json)>, keys: Seq<&'static str>) -> Option<int>
    decreases keys.len(),
{
    if keys.len() == 0 {
        None
    } else {
        let p = member_pos(o, keys[0]@, 0);
        if 0 <= p < o.len() && o[p].1 is Arr {
            Some(p)
        } else {
            keyed_list(o, keys.drop_first())
        }
    }
}

/// Position of the first list at or after `from`.
pub open spec fn first_list(o: Seq<(String, Json)>, from: int) -> Option<int>
    decreases o.len() - from,
{
    if 0 <= from < o.len() {
        if o[from].1 is Arr {
            Some(from)
        } else {
            first_list(o, from + 1)
        }
    } else {
        None
    }
}

/// Position of a page object's list.
pub open spec fn list_pos(o: Seq<(String, Json)>) -> Option<int> {
    match keyed_list(o, list_keys()) {
        Some(p) => Some(p),
        None => first_list(o, 0),
    }
}

/// The member named `name`, not counting the one at position `skip`.
pub open spec fn other_member(o: Seq<(String, Json)>, name: Seq<char>, skip: int, from: int) -> Option<
    Json,
>
    decreases o.len() - from,
{
    if 0 <= from < o.len() {
        if from != skip && o[from].0@ == name {
            Some(o[from].1)
        } else {
            other_member(o, name, skip, from + 1)
        }
    } else {
        None
    }
}

/// The cursor under the first of `keys` that is present besides position `skip`.
pub open spec fn cursor_in(
    o: Seq<(String, Json)>,
    keys: Seq<&'static str>,
    skip: int,
) -> Option<Seq<char>>
    decreases keys.len(),
{
    if keys.len() == 0 {
        None
    } else {
        match other_member(o, keys[0]@, skip, 0) {
            Some(j) => str_of(j),
            None => cursor_in(o, keys.drop_first(), skip),
        }
    }
}

/// The parts of a page object.
pub open spec fn page_is<T: Wire>(o: Seq<(String, Json)>, r: Option<Page<T>>) -> bool {
    let pos = list_pos(o);
    let skip = match pos {
        Some(p) => p,
        None => -1,
    };
    let cursor = cursor_in(o, cursor_keys(), skip);
    let list_ok = |v: Option<Vec<T>>|
        match pos {
            Some(p) => decodes_list(o[p].1->Arr_0@, v),
            None => v matches Some(w) && w@.len() == 0,
        };
    match r {
        Some(page) => {
            &&& list_ok(Some(page.items))
            &&& opt_text(page.next_cursor) == cursor
            &&& page.has_more == (match other_member(o, "hasMore"@, skip, 0) {
                Some(Json::Bool(b)) => b,
                _ => cursor is Some,
            })
        },
        None => list_ok(None),
    }
}

fn find_keyed_list(o: &Vec<(String, Json)>, keys: &[&'static str]) -> (r: Option<usize>)
    ensures
        match r {
            Some(p) => keyed_list(o@, keys@) == Some(p as int) && p < o.len() && o@[p as int].1 is Arr,
            None => keyed_list(o@, keys@) is None,
        },
{
    let mut k: usize = 0;
    assert(keys@.skip(0) =~= keys@);
    while k < keys.len()
        invariant
            k <= keys.len(),
            keyed_list(o@, keys@) == keyed_list(o@, keys@.skip(k as int)),
        decreases keys.len() - k,
    {
        let name = keys[k];
        let mut i: usize = 0;
        while i < o.len() && !same(o[i].0.as_str(), name)
            invariant
                i <= o.len(),
                member_pos(o@, name@, 0) == member_pos(o@, name@, i as int),
            decreases o.len() - i,
        {
            i += 1;
        }
        assert(keys@.skip(k as int)[0] == name);
        assert(keys@.skip(k as int).drop_first() =~= keys@.skip(k + 1));
        if i < o.len() {
            if matches!(o[i].1, Json::Arr(_)) {
                return Some(i);
            }
        }
        k += 1;
    }
    None
}

fn find_list(o: &Vec<(String, Json)>) -> (r: Option<usize>)
    ensures
        match r {
            Some(p) => list_pos(o@) == Some(p as int) && p < o.len() && o@[p as int].1 is Arr,
            None => list_pos(o@) is None,
        },
{
    let keys: [&'static str; 10] = [
        "items",
        "data",
        "results",
        "groups",
        "members",
        "messages",
        "devices",
        "registered",
        "events",
        "categories",
    ];
    assert(keys@ =~= list_keys());
    match find_keyed_list(o, keys.as_slice()) {
        Some(p) => Some(p),
        None => {
            let mut i: usize = 0;
            while i < o.len()
                invariant
                    i <= o.len(),
                    keyed_list(o@, list_keys()) is None,
                    first_list(o@, 0) == first_list(o@, i as int),
                decreases o.len() - i,
            {
                if matches!(o[i].1, Json::Arr(_)) {
                    return Some(i);
                }
                i += 1;
            }
            None
        },
    }
}

fn get_other<'a>(o: &'a Vec<(String, Json)>, name: &str, list: Option<usize>) -> (r: Option<&'a Json>)
    ensures
        ({
            let skip = match list {
                Some(p) => p as int,
                None => -1,
            };
            r == (match other_member(o@, name@, skip, 0) {
                Some(j) => Some(&j),
                None => None,
            })
        }),
{
    let ghost skip = match list {
        Some(p) => p as int,
        None => -1,
    };
    let mut i: usize = 0;
    while i < o.len()
        invariant
            i <= o.len(),
            skip == (match list {
                Some(p) => p as int,
                None => -1,
            }),
            other_member(o@, name@, skip, 0) == other_member(o@, name@, skip, i as int),
        decreases o.len() - i,
    {
        let skipped = match list {
            Some(p) => p == i,
            None => false,
        };
        if !skipped && same(o[i].0.as_str(), name) {
            return Some(&o[i].1);
        }
        i += 1;
    }
    None
}

fn find_cursor(o: &Vec<(String, Json)>, list: Option<usize>) -> (r: Option<String>)
    ensures
        opt_text(r) == cursor_in(
            o@,
            cursor_keys(),
            match list {
                Some(p) => p as int,
                None => -1,
            },
        ),
{
    let ghost skip = match list {
        Some(p) => p as int,
        None => -1,
    };
    let keys: [&'static str; 4] = ["nextCursor", "next_cursor", "cursor", "next"];
    assert(keys@ =~= cursor_keys());
    let mut k: usize = 0;
    assert(cursor_keys().skip(0) =~= cursor_keys());
    while k < keys.len()
        invariant
            k <= keys.len(),
            keys@ == cursor_keys(),
            skip == (match list {
                Some(p) => p as int,
                None => -1,
            }),
            cursor_in(o@, cursor_keys(), skip) == cursor_in(o@, cursor_keys().skip(k as int), skip),
        decreases keys.len() - k,
    {
        let name = keys[k];
        assert(cursor_keys().skip(k as int)[0] == name);
        assert(cursor_keys().skip(k as int).drop_first() =~= cursor_keys().skip(k + 1));
        match get_other(o, name, list) {
            Some(j) => {
                return match as_str(j) {
                    Some(s) => Some(s.clone()),
                    None => None,
                };
            },
            None => {},
        }
        k += 1;
    }
    None
}

impl<T: Wire> Wire for Page<T> {
    /// A bare list, an object that wraps one, or null.
    open spec fn decodes(j: Json, r: Option<Self>) -> bool {
        match j {
            Json::Arr(items) => match r {
                Some(page) => decodes_list(items@, Some(page.items)) && page.next_cursor is None
                    && !page.has_more,
                None => decodes_list::<T>(items@, None),
            },
            Json::Obj(o) => page_is(o@, r),
            Json::Null => r matches Some(page) && page.items@.len() == 0 && page.next_cursor is None
                && !page.has_more,
            _ => r is None,
        }
    }

    fn from_json(j: &Json) -> (r: Option<Self>) {
        match j {
            Json::Arr(items) => match list_from(items) {
                Some(items) => Some(Page { items, next_cursor: None, has_more: false }),
                None => None,
            },
            Json::Obj(o) => {
                let list = find_list(o);
                let items: Vec<T> = match list {
                    Some(p) => match &o[p].1 {
                        Json::Arr(v) => match list_from(v) {
                            Some(items) => items,
                            None => {
                                return None;
                            },
                        },
                        _ => Vec::new(),
                    },
                    None => Vec::new(),
                };
                let next_cursor = find_cursor(o, list);
                let has_more = match get_other(o, "hasMore", list) {
                    Some(Json::Bool(b)) => *b,
                    _ => next_cursor.is_some(),
                };
                Some(Page { items, next_cursor, has_more })
            },
            Json::Null => Some(Page::default()),
            _ => None,
        }
    }
}

/// The first of `keys` that names a member.
pub open spec fn first_named(o: Seq<(String, Json)>, keys: Seq<&'static str>) -> Seq<&'static str>
    decreases keys.len(),
{
    if keys.len() == 0 {
        seq![]
    } else if member_of(o, keys[0]@) is Some {
        seq![keys[0]]
    } else {
        first_named(o, keys.drop_first())
    }
}

/// The value of the member `first_named`.
pub open spec fn first_value(o: Seq<(String, Json)>, keys: Seq<&'static str>) -> Option<Json> {
    let n = first_named(o, keys);
    if n.len() == 0 {
        None
    } else {
        member_of(o, n[0]@)
    }
}

/// The text of the member `first_named`, if it is a string.
pub open spec fn first_str(o: Seq<(String, Json)>, keys: Seq<&'static str>) -> Option<Seq<char>> {
    match first_value(o, keys) {
        Some(j) => str_of(j),
        None => None,
    }
}

/// Take the member under the first present name of two, noting the name in `known`.
pub(crate) fn take_first<'a>(
    o: &'a Vec<(String, Json)>,
    a: &'static str,
    b: &'static str,
    known: &mut Vec<&'static str>,
) -> (r: Option<&'a Json>)
    ensures
        final(known)@ == old(known)@ + first_named(o@, seq![a, b]),
        r == (match first_value(o@, seq![a, b]) {
            Some(j) => Some(&j),
            None => None,
        }),
{
    proof {
        assert(seq![a, b].drop_first() =~= seq![b]);
        assert(seq![b].drop_first() =~= seq![]);
        reveal_with_fuel(first_named, 3);
    }
    match get(o, a) {
        Some(j) => {
            known.push(a);
            assert(known@ =~= old(known)@ + seq![a]);
            Some(j)
        },
        None => match get(o, b) {
            Some(j) => {
                known.push(b);
                assert(known@ =~= old(known)@ + seq![b]);
                Some(j)
            },
            None => {
                assert(known@ =~= old(known)@ + Seq::<&'static str>::empty());
                None
            },
        },
    }
}

pub(crate) fn text_value(j: Option<&Json>) -> (r: Option<String>)
    ensures
        opt_text(r) == (match j {
            Some(v) => str_of(*v),
            None => None,
        }),
{
    match j {
        Some(v) => match as_str(v) {
            Some(s) => Some(s.clone()),
            None => None,
        },
        None => None,
    }
}

impl Wire for RegisteredContact {
    /// A plain number, or an object with a number, an id and a name.
    open spec fn decodes(j: Json, r: Option<Self>) -> bool {
        match j {
            Json::Str(s) => r matches Some(c) && opt_text(c.phone_e164) == Some(s@)
                && c.user_id is None && c.display_name is None && c.extra@.len() == 0,
            Json::Obj(o) => r matches Some(c) && opt_text(c.phone_e164) == first_str(
                o@,
                seq!["phoneE164", "phone"],
            ) && opt_text(c.user_id) == first_str(o@, seq!["userId", "id"]) && opt_text(
                c.display_name,
            ) == first_str(o@, seq!["displayName", "displayName"]) && extra_is(
                o@,
                first_named(o@, seq!["phoneE164", "phone"]) + first_named(o@, seq!["userId", "id"])
                    + first_named(o@, seq!["displayName", "displayName"]),
                c.extra@,
            ),
            _ => r is None,
        }
    }

    fn from_json(j: &Json) -> (r: Option<Self>) {
        match j {
            Json::Str(s) => Some(
                RegisteredContact {
                    phone_e164: Some(s.clone()),
                    user_id: None,
                    display_name: None,
                    extra: Vec::new(),
                },
            ),
            Json::Obj(o) => {
                let mut known: Vec<&'static str> = Vec::new();
                let phone_e164 = text_value(take_first(o, "phoneE164", "phone", &mut known));
                let user_id = text_value(take_first(o, "userId", "id", &mut known));
                let display_name = text_value(
                    take_first(o, "displayName", "displayName", &mut known),
                );
                assert(known@ =~= first_named(o@, seq!["phoneE164", "phone"]) + first_named(
                    o@,
                    seq!["userId", "id"],
                ) + first_named(o@, seq!["displayName", "displayName"]));
                let extra = copy_unknown(o, known.as_slice());
                Some(RegisteredContact { phone_e164, user_id, display_name, extra })
            },
            _ => None,
        }
    }
}

/// The member names of a legal document.
pub open spec fn legal_members() -> Seq<&'static str> {
    seq!["key", "markdown", "content", "body", "text", "checksum", "hash", "version", "updatedAt"]
}

/// A legal document read from one object, of which `known` members are not extra.
pub open spec fn legal_flat(
    o: Seq<(String, Json)>,
    known: Seq<&'static str>,
    r: Option<LegalDocument>,
) -> bool {
    let key = opt_text_in(one(o, "key"@));
    let markdown = text_or_empty_in(
        either(
            one(o, "markdown"@),
            either(one(o, "content"@), either(one(o, "body"@), one(o, "text"@))),
        ),
    );
    let checksum = text_or_empty_in(
        either(one(o, "checksum"@), either(one(o, "hash"@), one(o, "version"@))),
    );
    let updated_at = opt_time_in(one(o, "updatedAt"@));
    if key is Some && markdown is Some && checksum is Some && updated_at is Some {
        &&& r matches Some(d)
        &&& opt_text(d.key) == key->0
        &&& d.markdown@ == markdown->0
        &&& d.checksum@ == checksum->0
        &&& d.updated_at == updated_at->0
        &&& extra_is(o, known, d.extra@)
    } else {
        r is None
    }
}

fn read_legal_flat(o: &Vec<(String, Json)>, known: &[&'static str]) -> (r: Option<LegalDocument>)
    ensures
        legal_flat(o@, known@, r),
{
    let key = match read_opt_text(find(o, "key")) {
        Some(v) => v,
        None => {
            return None;
        },
    };
    let markdown = match read_text_or_empty(
        find_either(
            find(o, "markdown"),
            find_either(find(o, "content"), find_either(find(o, "body"), find(o, "text"))),
        ),
    ) {
        Some(v) => v,
        None => {
            return None;
        },
    };
    let checksum = match read_text_or_empty(
        find_either(find(o, "checksum"), find_either(find(o, "hash"), find(o, "version"))),
    ) {
        Some(v) => v,
        None => {
            return None;
        },
    };
    let updated_at = match read_opt_time(find(o, "updatedAt")) {
        Some(v) => v,
        None => {
            return None;
        },
    };
    Some(LegalDocument { key, markdown, checksum, updated_at, extra: copy_unknown(o, known) })
}

impl Wire for LegalDocument {
    /// The document itself, or an object that wraps it under `document`.
    open spec fn decodes(j: Json, r: Option<Self>) -> bool {
        match j {
            Json::Obj(o) => match member_of(o@, "document"@) {
                None | Some(Json::Null) => legal_flat(o@, legal_members().push("document"), r),
                Some(Json::Obj(d)) => if legal_flat(o@, legal_members().push("document"), None) {
                    r is None
                } else {
                    legal_flat(d@, legal_members(), r)
                },
                Some(_) => r is None,
            },
            _ => r is None,
        }
    }

    fn from_json(j: &Json) -> (r: Option<Self>) {
        let o = match j {
            Json::Obj(o) => o,
            _ => {
                return None;
            },
        };
        let outer_names: [&'static str; 10] = [
            "key",
            "markdown",
            "content",
            "body",
            "text",
            "checksum",
            "hash",
            "version",
            "updatedAt",
            "document",
        ];
        assert(outer_names@ =~= legal_members().push("document"));
        let names: [&'static str; 9] = [
            "key",
            "markdown",
            "content",
            "body",
            "text",
            "checksum",
            "hash",
            "version",
            "updatedAt",
        ];
        assert(names@ =~= legal_members());
        let outer = read_legal_flat(o, outer_names.as_slice());
        match get(o, "document") {
            None | Some(Json::Null) => outer,
            Some(Json::Obj(d)) => match outer {
                None => None,
                Some(_) => read_legal_flat(d, names.as_slice()),
            },
            Some(_) => None,
        }
    }
}

} // verus!
