//! JSON values as the wire decoders read them.
//!
//! An object is a list of members; where a name occurs twice the first member counts.

use crate::numbers::{parse_i64, parsed_i64};
use crate::text::same;
use vstd::prelude::*;

verus! {

/// A JSON value. A fractional number is held as its text, beside its whole part, cut towards zero.
#[derive(Debug)]
pub enum Json {
    Null,
    Bool(bool),
    Int(i64),
    /// A whole number above `i64::MAX`.
    Big(u64),
    Real { whole: i64, text: String },
    Str(String),
    Arr(Vec<Json>),
    Obj(Vec<(String, Json)>),
}

/// What a JSON value says, as a model for contracts.
pub enum Doc {
    Null,
    Flag(bool),
    Number(int),
    Text(Seq<char>),
    List(Seq<Doc>),
    Record(Seq<(Seq<char>, Doc)>),
}

/// A JSON value says what the model says, member by member.
pub open spec fn shows(j: Json, d: Doc) -> bool
    decreases j,
{
    match (j, d) {
        (Json::Null, Doc::Null) => true,
        (Json::Bool(x), Doc::Flag(y)) => x == y,
        (Json::Int(x), Doc::Number(y)) => x == y,
        (Json::Big(x), Doc::Number(y)) => x == y,
        (Json::Str(x), Doc::Text(y)) => x@ == y,
        (Json::Arr(x), Doc::List(y)) => x@.len() == y.len() && forall|i: int|
            0 <= i < x@.len() ==> shows(#[trigger] x@[i], y[i]),
        (Json::Obj(x), Doc::Record(y)) => x@.len() == y.len() && forall|i: int|
            0 <= i < x@.len() ==> (#[trigger] x@[i]).0@ == y[i].0 && shows(x@[i].1, y[i].1),
        _ => false,
    }
}

/// The members of an object say what the model says.
pub open spec fn shows_members(o: Seq<(String, Json)>, d: Seq<(Seq<char>, Doc)>) -> bool {
    o.len() == d.len() && forall|i: int|
        0 <= i < o.len() ==> (#[trigger] o[i]).0@ == d[i].0 && shows(o[i].1, d[i].1)
}

/// The elements of a list say what the model says.
pub open spec fn shows_items(v: Seq<Json>, d: Seq<Doc>) -> bool {
    v.len() == d.len() && forall|i: int| 0 <= i < v.len() ==> shows(#[trigger] v[i], d[i])
}

/// The model of an optional text: null where it is absent.
pub open spec fn opt_doc(s: Option<Seq<char>>) -> Doc {
    match s {
        Some(t) => Doc::Text(t),
        None => Doc::Null,
    }
}

/// Add a member to an object under construction.
pub fn put(o: &mut Vec<(String, Json)>, name: &str, value: Json)
    ensures
        forall|ds: Seq<(Seq<char>, Doc)>, d: Doc|
            #![trigger shows_members(old(o)@, ds), shows(value, d)]
            shows_members(old(o)@, ds) && shows(value, d) ==> shows_members(
                final(o)@,
                ds.push((name@, d)),
            ),
{
    let ghost before = o@;
    o.push((name.to_owned(), value));
    proof {
        assert forall|ds: Seq<(Seq<char>, Doc)>, d: Doc|
            #![trigger shows_members(before, ds), shows(value, d)]
            shows_members(before, ds) && shows(value, d) implies shows_members(
            o@,
            ds.push((name@, d)),
        ) by {
            let all = ds.push((name@, d));
            assert forall|i: int| 0 <= i < o@.len() implies (#[trigger] o@[i]).0@ == all[i].0
                && shows(o@[i].1, all[i].1) by {
                if i < before.len() {
                    assert(o@[i] == before[i]);
                }
            }
        }
    }
}

/// Add a text member to an object under construction.
pub fn put_text(o: &mut Vec<(String, Json)>, name: &str, text: &str)
    ensures
        forall|ds: Seq<(Seq<char>, Doc)>| #[trigger]
            shows_members(old(o)@, ds) ==> shows_members(
                final(o)@,
                ds.push((name@, Doc::Text(text@))),
            ),
{
    let value = Json::Str(text.to_owned());
    assert(shows(value, Doc::Text(text@)));
    put(o, name, value);
}

/// Add an optional text member to an object under construction.
pub fn put_opt_text(o: &mut Vec<(String, Json)>, name: &str, text: Option<&str>)
    ensures
        forall|ds: Seq<(Seq<char>, Doc)>| #[trigger]
            shows_members(old(o)@, ds) ==> shows_members(
                final(o)@,
                ds.push(
                    (
                        name@,
                        opt_doc(
                            match text {
                                Some(t) => Some(t@),
                                None => None,
                            },
                        ),
                    ),
                ),
            ),
{
    match text {
        Some(t) => put_text(o, name, t),
        None => {
            assert(shows(Json::Null, Doc::Null));
            put(o, name, Json::Null);
        },
    }
}

/// Add a number member to an object under construction.
pub fn put_number(o: &mut Vec<(String, Json)>, name: &str, n: i64)
    ensures
        forall|ds: Seq<(Seq<char>, Doc)>| #[trigger]
            shows_members(old(o)@, ds) ==> shows_members(
                final(o)@,
                ds.push((name@, Doc::Number(n as int))),
            ),
{
    assert(shows(Json::Int(n), Doc::Number(n as int)));
    put(o, name, Json::Int(n));
}

/// Add a flag to an object under construction.
pub fn put_flag(o: &mut Vec<(String, Json)>, name: &str, b: bool)
    ensures
        forall|ds: Seq<(Seq<char>, Doc)>| #[trigger]
            shows_members(old(o)@, ds) ==> shows_members(
                final(o)@,
                ds.push((name@, Doc::Flag(b))),
            ),
{
    assert(shows(Json::Bool(b), Doc::Flag(b)));
    put(o, name, Json::Bool(b));
}

/// Add an element to a list under construction.
pub fn put_item(v: &mut Vec<Json>, value: Json)
    ensures
        forall|ds: Seq<Doc>, d: Doc|
            #![trigger shows_items(old(v)@, ds), shows(value, d)]
            shows_items(old(v)@, ds) && shows(value, d) ==> shows_items(final(v)@, ds.push(d)),
{
    let ghost before = v@;
    v.push(value);
    proof {
        assert forall|ds: Seq<Doc>, d: Doc|
            #![trigger shows_items(before, ds), shows(value, d)]
            shows_items(before, ds) && shows(value, d) implies shows_items(v@, ds.push(d)) by {
            assert forall|i: int| 0 <= i < v@.len() implies shows(
                #[trigger] v@[i],
                ds.push(d)[i],
            ) by {
                if i < before.len() {
                    assert(v@[i] == before[i]);
                }
            }
        }
    }
}

/// A finished object.
pub fn object(o: Vec<(String, Json)>) -> (r: Json)
    ensures
        r == Json::Obj(o),
        forall|ds: Seq<(Seq<char>, Doc)>| #[trigger]
            shows_members(o@, ds) ==> shows(r, Doc::Record(ds)),
{
    Json::Obj(o)
}

/// Two values denote the same JSON document.
pub open spec fn same_json(a: Json, b: Json) -> bool
    decreases a,
{
    match (a, b) {
        (Json::Null, Json::Null) => true,
        (Json::Bool(x), Json::Bool(y)) => x == y,
        (Json::Int(x), Json::Int(y)) => x == y,
        (Json::Big(x), Json::Big(y)) => x == y,
        (Json::Real { whole: x, text: t }, Json::Real { whole: y, text: u }) => x == y && t@ == u@,
        (Json::Str(x), Json::Str(y)) => x@ == y@,
        (Json::Arr(x), Json::Arr(y)) => x@.len() == y@.len() && forall|i: int|
            0 <= i < x@.len() ==> same_json(#[trigger] x@[i], y@[i]),
        (Json::Obj(x), Json::Obj(y)) => x@.len() == y@.len() && forall|i: int|
            0 <= i < x@.len() ==> (#[trigger] x@[i]).0@ == y@[i].0@ && same_json(x@[i].1, y@[i].1),
        _ => false,
    }
}

/// A copy of `j`.
pub fn copy_json(j: &Json) -> (r: Json)
    ensures
        same_json(*j, r),
    decreases j,
{
    match j {
        Json::Null => Json::Null,
        Json::Bool(b) => Json::Bool(*b),
        Json::Int(n) => Json::Int(*n),
        Json::Big(n) => Json::Big(*n),
        Json::Real { whole, text } => Json::Real { whole: *whole, text: text.clone() },
        Json::Str(s) => Json::Str(s.clone()),
        Json::Arr(items) => {
            let mut out: Vec<Json> = Vec::new();
            let mut i: usize = 0;
            while i < items.len()
                invariant
                    i <= items.len(),
                    out@.len() == i,
                    *j == Json::Arr(*items),
                    forall|k: int| 0 <= k < i ==> same_json(#[trigger] items@[k], out@[k]),
                decreases items.len() - i,
            {
                assert(decreases_to!(*j => (*j)->Arr_0@[i as int]));
                out.push(copy_json(&items[i]));
                i += 1;
            }
            Json::Arr(out)
        },
        Json::Obj(members) => {
            let mut out: Vec<(String, Json)> = Vec::new();
            let mut i: usize = 0;
            while i < members.len()
                invariant
                    i <= members.len(),
                    out@.len() == i,
                    *j == Json::Obj(*members),
                    forall|k: int|
                        0 <= k < i ==> (#[trigger] members@[k]).0@ == out@[k].0@ && same_json(
                            members@[k].1,
                            out@[k].1,
                        ),
                decreases members.len() - i,
            {
                assert(decreases_to!(*j => (*j)->Obj_0@[i as int].1));
                let name = members[i].0.clone();
                let value = copy_json(&members[i].1);
                out.push((name, value));
                i += 1;
            }
            Json::Obj(out)
        },
    }
}

/// A copy denotes the same document as what it was made from.
pub proof fn law_same_json_reflexive(a: Json)
    ensures
        same_json(a, a),
    decreases a,
{
    match a {
        Json::Arr(x) => {
            assert forall|i: int| 0 <= i < x@.len() implies same_json(#[trigger] x@[i], x@[i]) by {
                law_same_json_reflexive(x@[i]);
            }
        },
        Json::Obj(x) => {
            assert forall|i: int| 0 <= i < x@.len() implies (#[trigger] x@[i]).0@ == x@[i].0@
                && same_json(x@[i].1, x@[i].1) by {
                law_same_json_reflexive(x@[i].1);
            }
        },
        _ => {},
    }
}

/// Position of the first member named `name` at or after `from`, or the number of members.
pub open spec fn member_pos(o: Seq<(String, Json)>, name: Seq<char>, from: int) -> int
    decreases o.len() - from,
{
    if 0 <= from < o.len() {
        if o[from].0@ == name {
            from
        } else {
            member_pos(o, name, from + 1)
        }
    } else {
        o.len() as int
    }
}

/// The value of the member named `name`.
pub open spec fn member_of(o: Seq<(String, Json)>, name: Seq<char>) -> Option<Json> {
    let p = member_pos(o, name, 0);
    if 0 <= p < o.len() {
        Some(o[p].1)
    } else {
        None
    }
}

/// The value of the member named `name`, if there is one.
pub fn get<'a>(o: &'a Vec<(String, Json)>, name: &str) -> (r: Option<&'a Json>)
    ensures
        r == (match member_of(o@, name@) {
            Some(j) => Some(&j),
            None => None,
        }),
{
    let mut i: usize = 0;
    while i < o.len()
        invariant
            i <= o.len(),
            member_pos(o@, name@, 0) == member_pos(o@, name@, i as int),
        decreases o.len() - i,
    {
        if same(o[i].0.as_str(), name) {
            return Some(&o[i].1);
        }
        i += 1;
    }
    None
}

/// The text of a string value.
pub open spec fn str_of(j: Json) -> Option<Seq<char>> {
    match j {
        Json::Str(s) => Some(s@),
        _ => None,
    }
}

/// The text of a string value.
pub fn as_str<'a>(j: &'a Json) -> (r: Option<&'a String>)
    ensures
        r == (match *j {
            Json::Str(s) => Some(&s),
            _ => None,
        }),
{
    match j {
        Json::Str(s) => Some(s),
        _ => None,
    }
}

/// A whole number that fits an `i64`.
pub open spec fn i64_of(j: Json) -> Option<i64> {
    match j {
        Json::Int(n) => Some(n),
        _ => None,
    }
}

/// A whole number that fits a `u64`.
pub open spec fn u64_of(j: Json) -> Option<u64> {
    match j {
        Json::Int(n) => if n >= 0 {
            Some(n as u64)
        } else {
            None
        },
        Json::Big(n) => Some(n),
        _ => None,
    }
}

/// `i64_of` as a function.
pub fn as_i64(j: &Json) -> (r: Option<i64>)
    ensures
        r == i64_of(*j),
{
    match j {
        Json::Int(n) => Some(*n),
        _ => None,
    }
}

/// `u64_of` as a function.
pub fn as_u64(j: &Json) -> (r: Option<u64>)
    ensures
        r == u64_of(*j),
{
    match j {
        Json::Int(n) => if *n >= 0 {
            Some(*n as u64)
        } else {
            None
        },
        Json::Big(n) => Some(*n),
        _ => None,
    }
}

/// A boolean value.
pub fn as_bool(j: &Json) -> (r: Option<bool>)
    ensures
        r == (match *j {
            Json::Bool(b) => Some(b),
            _ => None,
        }),
{
    match j {
        Json::Bool(b) => Some(*b),
        _ => None,
    }
}

/// Epoch milliseconds of an RFC 3339 date and time, if `text` is one.
pub uninterp spec fn rfc3339_ms(text: Seq<char>) -> Option<i64>;

/// `chrono::DateTime::parse_from_rfc3339` followed by `timestamp_millis`: a value that depends on
/// the text alone. Which texts are accepted is left to the outside parser.
#[verifier::external_body]
fn parse_rfc3339_ms(text: &str) -> (r: Option<i64>)
    ensures
        r == rfc3339_ms(text@),
{
    chrono::DateTime::parse_from_rfc3339(text).ok().map(|t| t.timestamp_millis())
}

/// Epoch milliseconds held by a JSON value: a number, a decimal string or an RFC 3339 string.
pub open spec fn epoch_ms_of(j: Json) -> Option<i64> {
    match j {
        Json::Int(n) => Some(n),
        Json::Big(_) => Some(i64::MAX),
        Json::Real { whole, .. } => Some(whole),
        Json::Str(s) => match parsed_i64(s@) {
            Some(n) => Some(n),
            None => rfc3339_ms(s@),
        },
        _ => None,
    }
}

/// Epoch milliseconds from either a JSON number or an RFC 3339 string.
pub fn epoch_ms_from_value(j: &Json) -> (r: Option<i64>)
    ensures
        r == epoch_ms_of(*j),
{
    match j {
        Json::Int(n) => Some(*n),
        Json::Big(_) => Some(i64::MAX),
        Json::Real { whole, .. } => Some(*whole),
        Json::Str(s) => {
            let plain = parse_i64(s.as_str());
            let iso = parse_rfc3339_ms(s.as_str());
            timestamp_from(plain, iso)
        },
        _ => None,
    }
}

/// A timestamp written as text: its decimal reading if it has one, else its RFC 3339 reading.
pub fn timestamp_from(plain: Option<i64>, iso: Option<i64>) -> (r: Option<i64>)
    ensures
        r == (if plain is Some {
            plain
        } else {
            iso
        }),
{
    match plain {
        Some(n) => Some(n),
        None => iso,
    }
}

} // verus!
