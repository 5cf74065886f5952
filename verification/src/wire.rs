//! Decoding of server JSON.
//!
//! Shapes the server is known to vary (pagination envelopes, contact lists, timestamps, message
//! buckets) are accepted in every form; a member of the wrong type makes the whole value invalid.

use crate::json::{
    as_str, copy_json, epoch_ms_from_value, epoch_ms_of, get, i64_of, member_of, same_json, str_of,
    u64_of, Json,
};
use crate::models::{
    kind_of, opt_text, role_of, AccountKind, AddMembersOutcome, AddedMember, Device,
    EnrollmentChallenge, GroupDto, GroupEventDto, GroupKind, GroupLimits, GroupMessages,
    GroupSettings, MemberDto, MessageDto, MessagesPage, Permission, Role, Session, User, ADMINS,
    EVERYONE,
};
use crate::text::same;
use vstd::prelude::*;

verus! {

/// A value that can be read from JSON.
pub trait Wire: Sized {
    /// `r` is what decoding `j` yields; `None` when `j` is not acceptable.
    spec fn decodes(j: Json, r: Option<Self>) -> bool;

    fn from_json(j: &Json) -> (r: Option<Self>)
        ensures
            Self::decodes(*j, r),
    ;
}

/// A member looked up under one or more names: absent, present, or an error when it occurs twice.
pub type Found<'a> = Result<Option<&'a Json>, ()>;

/// `Found` as a ghost value.
pub type FoundJson = Result<Option<Json>, ()>;

/// What a lookup found.
pub open spec fn found(f: Found<'_>) -> FoundJson {
    match f {
        Ok(Some(j)) => Ok(Some(*j)),
        Ok(None) => Ok(None),
        Err(_) => Err(()),
    }
}

/// The member named `a`.
pub open spec fn one(o: Seq<(String, Json)>, a: Seq<char>) -> FoundJson {
    Ok(member_of(o, a))
}

/// A member that goes by two names, of which only one may be used.
pub open spec fn either(x: FoundJson, y: FoundJson) -> FoundJson {
    match (x, y) {
        (Ok(None), f) => f,
        (f, Ok(None)) => f,
        _ => Err(()),
    }
}

pub(crate) fn find<'a>(o: &'a Vec<(String, Json)>, a: &str) -> (r: Found<'a>)
    ensures
        found(r) == one(o@, a@),
{
    Ok(get(o, a))
}

pub(crate) fn find_either<'a>(x: Found<'a>, y: Found<'a>) -> (r: Found<'a>)
    ensures
        found(r) == either(found(x), found(y)),
{
    match (x, y) {
        (Ok(None), f) => f,
        (f, Ok(None)) => f,
        _ => Err(()),
    }
}

/// A record of `n` fields: an object, or a list that holds no more than the fields, in order.
pub open spec fn is_record(j: Json, n: nat) -> bool {
    match j {
        Json::Obj(_) => true,
        Json::Arr(items) => items@.len() <= n,
        _ => false,
    }
}

/// A field of a record: the member with its name, or the element at its place.
pub open spec fn slot(j: Json, i: int, name: Seq<char>) -> FoundJson {
    match j {
        Json::Obj(o) => one(o@, name),
        Json::Arr(items) => if i < items@.len() {
            Ok(Some(items@[i]))
        } else {
            Ok(None)
        },
        _ => Err(()),
    }
}

/// A field of a record whose member goes by two names.
pub open spec fn slot_either(j: Json, i: int, a: Seq<char>, b: Seq<char>) -> FoundJson {
    match j {
        Json::Obj(o) => either(one(o@, a), one(o@, b)),
        _ => slot(j, i, a),
    }
}

pub(crate) fn has_slots(j: &Json, n: usize) -> (r: bool)
    ensures
        r == is_record(*j, n as nat),
{
    match j {
        Json::Obj(_) => true,
        Json::Arr(items) => items.len() <= n,
        _ => false,
    }
}

pub(crate) fn field<'a>(j: &'a Json, i: usize, name: &str) -> (r: Found<'a>)
    ensures
        found(r) == slot(*j, i as int, name@),
{
    match j {
        Json::Obj(o) => find(o, name),
        Json::Arr(items) => if i < items.len() {
            Ok(Some(&items[i]))
        } else {
            Ok(None)
        },
        _ => Err(()),
    }
}

pub(crate) fn field_either<'a>(j: &'a Json, i: usize, a: &str, b: &str) -> (r: Found<'a>)
    ensures
        found(r) == slot_either(*j, i as int, a@, b@),
{
    match j {
        Json::Obj(o) => find_either(find(o, a), find(o, b)),
        _ => field(j, i, a),
    }
}

/// The name of a plain variant: a string, or an object whose one member has that name and is null.
pub open spec fn variant_in(f: FoundJson) -> Option<Seq<char>> {
    match f {
        Ok(Some(Json::Str(s))) => Some(s@),
        Ok(Some(Json::Obj(o))) => if o@.len() == 1 && o@[0].1 is Null {
            Some(o@[0].0@)
        } else {
            None
        },
        _ => None,
    }
}

pub(crate) fn read_variant(f: Found<'_>) -> (r: Option<String>)
    ensures
        opt_text(r) == variant_in(found(f)),
{
    match f {
        Ok(Some(Json::Str(s))) => Some(s.clone()),
        Ok(Some(Json::Obj(o))) => if o.len() == 1 && matches!(o[0].1, Json::Null) {
            Some(o[0].0.clone())
        } else {
            None
        },
        _ => None,
    }
}

/// A required string.
pub open spec fn text_in(f: FoundJson) -> Option<Seq<char>> {
    match f {
        Ok(Some(Json::Str(s))) => Some(s@),
        _ => None,
    }
}

/// A string, empty when absent.
pub open spec fn text_or_empty_in(f: FoundJson) -> Option<Seq<char>> {
    match f {
        Ok(None) => Some(Seq::empty()),
        Ok(Some(Json::Str(s))) => Some(s@),
        _ => None,
    }
}

/// A string, or nothing when absent or null.
pub open spec fn opt_text_in(f: FoundJson) -> Option<Option<Seq<char>>> {
    match f {
        Ok(None) | Ok(Some(Json::Null)) => Some(None),
        Ok(Some(Json::Str(s))) => Some(Some(s@)),
        _ => None,
    }
}

/// A required whole number.
pub open spec fn i64_in(f: FoundJson) -> Option<i64> {
    match f {
        Ok(Some(j)) => i64_of(j),
        _ => None,
    }
}

/// A whole number, zero when absent.
pub open spec fn i64_or_zero_in(f: FoundJson) -> Option<i64> {
    match f {
        Ok(None) => Some(0i64),
        Ok(Some(j)) => i64_of(j),
        _ => None,
    }
}

/// A whole number, or nothing when absent or null.
pub open spec fn opt_i64_in(f: FoundJson) -> Option<Option<i64>> {
    match f {
        Ok(None) | Ok(Some(Json::Null)) => Some(None),
        Ok(Some(Json::Int(n))) => Some(Some(n)),
        _ => None,
    }
}

/// A whole number from 0 on, or nothing when absent or null.
pub open spec fn opt_u64_in(f: FoundJson) -> Option<Option<u64>> {
    match f {
        Ok(None) | Ok(Some(Json::Null)) => Some(None),
        Ok(Some(j)) => match u64_of(j) {
            Some(n) => Some(Some(n)),
            None => None,
        },
        _ => None,
    }
}

/// A whole number that fits a `u32`, or nothing when absent or null.
pub open spec fn opt_u32_in(f: FoundJson) -> Option<Option<u32>> {
    match opt_u64_in(f) {
        Some(Some(n)) => if n <= u32::MAX {
            Some(Some(n as u32))
        } else {
            None
        },
        Some(None) => Some(None),
        None => None,
    }
}

/// A boolean, false when absent.
pub open spec fn bool_or_false_in(f: FoundJson) -> Option<bool> {
    match f {
        Ok(None) => Some(false),
        Ok(Some(Json::Bool(b))) => Some(b),
        _ => None,
    }
}

/// A timestamp, or nothing when absent or null.
pub open spec fn opt_time_in(f: FoundJson) -> Option<Option<i64>> {
    match f {
        Ok(None) | Ok(Some(Json::Null)) => Some(None),
        Ok(Some(j)) => match epoch_ms_of(j) {
            Some(t) => Some(Some(t)),
            None => None,
        },
        _ => None,
    }
}

/// A role, `member` when absent.
pub open spec fn role_in(f: FoundJson) -> Option<Role> {
    match f {
        Ok(None) => Some(Role::Member),
        Ok(Some(Json::Str(s))) => role_of(s@),
        _ => None,
    }
}

/// A group kind; anything unrecognised is `Unknown`.
pub open spec fn group_kind_in(f: FoundJson) -> Option<GroupKind> {
    match f {
        Ok(Some(Json::Str(s))) => Some(kind_of(s@)),
        Ok(_) => Some(GroupKind::Unknown),
        Err(_) => None,
    }
}

/// The account kind a member gives: `person` when absent.
pub open spec fn account_kind_in(f: FoundJson, r: Option<AccountKind>) -> bool {
    match f {
        Ok(None) => r == Some(AccountKind::Person),
        Ok(Some(Json::Str(s))) => if s@ == "person"@ {
            r == Some(AccountKind::Person)
        } else if s@ == "service"@ {
            r == Some(AccountKind::Service)
        } else {
            r matches Some(AccountKind::Other(t)) && t@ == s@
        },
        _ => if variant_in(f) == Some("person"@) {
            r == Some(AccountKind::Person)
        } else if variant_in(f) == Some("service"@) {
            r == Some(AccountKind::Service)
        } else {
            r is None
        },
    }
}

pub(crate) fn read_text(f: Found<'_>) -> (r: Option<String>)
    ensures
        opt_text(r) == text_in(found(f)),
{
    match f {
        Ok(Some(Json::Str(s))) => Some(s.clone()),
        _ => None,
    }
}

pub(crate) fn read_text_or_empty(f: Found<'_>) -> (r: Option<String>)
    ensures
        opt_text(r) == text_or_empty_in(found(f)),
{
    match f {
        Ok(None) => Some(String::new()),
        Ok(Some(Json::Str(s))) => Some(s.clone()),
        _ => None,
    }
}

pub(crate) fn read_opt_text(f: Found<'_>) -> (r: Option<Option<String>>)
    ensures
        match r {
            Some(v) => opt_text_in(found(f)) == Some(opt_text(v)),
            None => opt_text_in(found(f)) is None,
        },
{
    match f {
        Ok(None) | Ok(Some(Json::Null)) => Some(None),
        Ok(Some(Json::Str(s))) => Some(Some(s.clone())),
        _ => None,
    }
}

pub(crate) fn read_i64(f: Found<'_>) -> (r: Option<i64>)
    ensures
        r == i64_in(found(f)),
{
    match f {
        Ok(Some(Json::Int(n))) => Some(*n),
        _ => None,
    }
}

fn read_i64_or_zero(f: Found<'_>) -> (r: Option<i64>)
    ensures
        r == i64_or_zero_in(found(f)),
{
    match f {
        Ok(None) => Some(0),
        Ok(Some(Json::Int(n))) => Some(*n),
        _ => None,
    }
}

pub(crate) fn read_opt_i64(f: Found<'_>) -> (r: Option<Option<i64>>)
    ensures
        r == opt_i64_in(found(f)),
{
    match f {
        Ok(None) | Ok(Some(Json::Null)) => Some(None),
        Ok(Some(Json::Int(n))) => Some(Some(*n)),
        _ => None,
    }
}

fn read_opt_u64(f: Found<'_>) -> (r: Option<Option<u64>>)
    ensures
        r == opt_u64_in(found(f)),
{
    match f {
        Ok(None) | Ok(Some(Json::Null)) => Some(None),
        Ok(Some(j)) => match crate::json::as_u64(j) {
            Some(n) => Some(Some(n)),
            None => None,
        },
        _ => None,
    }
}

pub(crate) fn read_opt_u32(f: Found<'_>) -> (r: Option<Option<u32>>)
    ensures
        r == opt_u32_in(found(f)),
{
    match read_opt_u64(f) {
        Some(Some(n)) => if n <= 0xffff_ffff {
            Some(Some(n as u32))
        } else {
            None
        },
        Some(None) => Some(None),
        None => None,
    }
}

pub(crate) fn read_bool(f: Found<'_>) -> (r: Option<bool>)
    ensures
        r == bool_or_false_in(found(f)),
{
    match f {
        Ok(None) => Some(false),
        Ok(Some(Json::Bool(b))) => Some(*b),
        _ => None,
    }
}

pub(crate) fn read_opt_time(f: Found<'_>) -> (r: Option<Option<i64>>)
    ensures
        r == opt_time_in(found(f)),
{
    match f {
        Ok(None) | Ok(Some(Json::Null)) => Some(None),
        Ok(Some(j)) => match epoch_ms_from_value(j) {
            Some(t) => Some(Some(t)),
            None => None,
        },
        _ => None,
    }
}

pub(crate) fn read_role(f: Found<'_>) -> (r: Option<Role>)
    ensures
        r == role_in(found(f)),
{
    match f {
        Ok(None) => Some(Role::Member),
        Ok(Some(Json::Str(s))) => Role::parse(s.as_str()),
        _ => None,
    }
}

fn read_group_kind(f: Found<'_>) -> (r: Option<GroupKind>)
    ensures
        r == group_kind_in(found(f)),
{
    match f {
        Ok(Some(Json::Str(s))) => Some(GroupKind::parse(s.as_str())),
        Ok(_) => Some(GroupKind::Unknown),
        Err(_) => None,
    }
}

fn read_account_kind(f: Found<'_>) -> (r: Option<AccountKind>)
    ensures
        account_kind_in(found(f), r),
{
    match f {
        Ok(None) => Some(AccountKind::Person),
        Ok(Some(Json::Str(s))) => if same(s.as_str(), "person") {
            Some(AccountKind::Person)
        } else if same(s.as_str(), "service") {
            Some(AccountKind::Service)
        } else {
            Some(AccountKind::Other(s.clone()))
        },
        _ => match read_variant(f) {
            Some(s) => if same(s.as_str(), "person") {
                Some(AccountKind::Person)
            } else if same(s.as_str(), "service") {
                Some(AccountKind::Service)
            } else {
                None
            },
            None => None,
        },
    }
}

/// `name` is one of `known`.
pub open spec fn named(known: Seq<&'static str>, name: Seq<char>) -> bool {
    exists|i: int| 0 <= i < known.len() && (#[trigger] known[i])@ == name
}

/// The members whose names are not `known`.
pub open spec fn unknown(o: Seq<(String, Json)>, known: Seq<&'static str>) -> Seq<(String, Json)> {
    o.filter(|m: (String, Json)| !named(known, m.0@))
}

/// `extra` is a copy of the members whose names are not `known`, in order.
pub open spec fn extra_is(
    o: Seq<(String, Json)>,
    known: Seq<&'static str>,
    extra: Seq<(String, Json)>,
) -> bool {
    &&& extra.len() == unknown(o, known).len()
    &&& forall|i: int|
        0 <= i < extra.len() ==> (#[trigger] extra[i]).0@ == unknown(o, known)[i].0@ && same_json(
            unknown(o, known)[i].1,
            extra[i].1,
        )
}

fn is_named(known: &[&'static str], name: &str) -> (r: bool)
    ensures
        r == named(known@, name@),
{
    let mut i: usize = 0;
    while i < known.len()
        invariant
            i <= known.len(),
            forall|k: int| 0 <= k < i ==> (#[trigger] known@[k])@ != name@,
        decreases known.len() - i,
    {
        if same(known[i], name) {
            return true;
        }
        i += 1;
    }
    false
}

pub(crate) fn copy_unknown(
    o: &Vec<(String, Json)>,
    known: &[&'static str],
) -> (extra: Vec<(String, Json)>)
    ensures
        extra_is(o@, known@, extra@),
{
    let mut extra: Vec<(String, Json)> = Vec::new();
    let mut i: usize = 0;
    assert(unknown(o@.take(0), known@) =~= Seq::empty()) by {
        reveal(Seq::filter);
    }
    while i < o.len()
        invariant
            i <= o.len(),
            extra_is(o@.take(i as int), known@, extra@),
        decreases o.len() - i,
    {
        let ghost before = unknown(o@.take(i as int), known@);
        proof {
            let m = o@[i as int];
            assert(o@.take(i + 1) =~= o@.take(i as int).push(m));
            assert(o@.take(i + 1).drop_last() =~= o@.take(i as int));
            reveal(Seq::filter);
            assert(unknown(o@.take(i + 1), known@) == if !named(known@, m.0@) {
                before.push(m)
            } else {
                before
            });
        }
        if !is_named(known, o[i].0.as_str()) {
            let ghost old_extra = extra@;
            extra.push((o[i].0.clone(), copy_json(&o[i].1)));
            assert forall|k: int| 0 <= k < extra@.len() implies (#[trigger] extra@[k]).0@
                == unknown(o@.take(i + 1), known@)[k].0@ && same_json(
                unknown(o@.take(i + 1), known@)[k].1,
                extra@[k].1,
            ) by {
                if k < old_extra.len() {
                    assert(extra@[k] == old_extra[k]);
                }
            }
        }
        i += 1;
    }
    assert(o@.take(i as int) =~= o@);
    extra
}

/// `v` holds what each element of a list decodes to.
pub open spec fn list_is<T: Wire>(items: Seq<Json>, v: Seq<T>) -> bool {
    &&& v.len() == items.len()
    &&& forall|i: int| 0 <= i < items.len() ==> T::decodes(#[trigger] items[i], Some(v[i]))
}

/// Some element of a list does not decode.
pub open spec fn list_bad<T: Wire>(items: Seq<Json>) -> bool {
    exists|i: int| 0 <= i < items.len() && T::decodes(#[trigger] items[i], None)
}

/// A list decodes element by element, and not at all when one element does not.
pub open spec fn decodes_list<T: Wire>(items: Seq<Json>, r: Option<Vec<T>>) -> bool {
    match r {
        Some(v) => list_is(items, v@),
        None => list_bad::<T>(items),
    }
}

/// Decode every element of a list.
pub fn list_from<T: Wire>(items: &Vec<Json>) -> (r: Option<Vec<T>>)
    ensures
        decodes_list(items@, r),
{
    let mut out: Vec<T> = Vec::new();
    let mut i: usize = 0;
    while i < items.len()
        invariant
            i <= items.len(),
            out@.len() == i,
            forall|k: int| 0 <= k < i ==> T::decodes(#[trigger] items@[k], Some(out@[k])),
        decreases items.len() - i,
    {
        match T::from_json(&items[i]) {
            Some(v) => {
                out.push(v);
            },
            None => {
                assert(T::decodes(items@[i as int], None));
                return None;
            },
        }
        i += 1;
    }
    Some(out)
}

/// A list of which an absent one is empty.
pub open spec fn list_or_empty_in<T: Wire>(f: FoundJson, r: Option<Vec<T>>) -> bool {
    match f {
        Ok(None) => r matches Some(v) && v@.len() == 0,
        Ok(Some(Json::Arr(items))) => decodes_list(items@, r),
        _ => r is None,
    }
}

pub(crate) fn read_list<T: Wire>(f: Found<'_>) -> (r: Option<Vec<T>>)
    ensures
        list_or_empty_in(found(f), r),
{
    match f {
        Ok(None) => Some(Vec::new()),
        Ok(Some(Json::Arr(items))) => list_from(items),
        _ => None,
    }
}

impl Wire for String {
    open spec fn decodes(j: Json, r: Option<Self>) -> bool {
        opt_text(r) == str_of(j)
    }

    fn from_json(j: &Json) -> (r: Option<Self>) {
        match j {
            Json::Str(s) => Some(s.clone()),
            _ => None,
        }
    }
}

/// A required nested value.
pub open spec fn sub_in<T: Wire>(f: FoundJson, r: Option<T>) -> bool {
    match f {
        Ok(Some(j)) => T::decodes(j, r),
        _ => r is None,
    }
}

/// A nested value, or nothing when absent or null.
pub open spec fn opt_sub_in<T: Wire>(f: FoundJson, r: Option<Option<T>>) -> bool {
    match f {
        Ok(None) | Ok(Some(Json::Null)) => r matches Some(v) && v is None,
        Ok(Some(j)) => match r {
            Some(Some(v)) => T::decodes(j, Some(v)),
            Some(None) => false,
            None => T::decodes(j, None),
        },
        _ => r is None,
    }
}

pub(crate) fn read_sub<T: Wire>(f: Found<'_>) -> (r: Option<T>)
    ensures
        sub_in(found(f), r),
{
    match f {
        Ok(Some(j)) => T::from_json(j),
        _ => None,
    }
}

pub(crate) fn read_opt_sub<T: Wire>(f: Found<'_>) -> (r: Option<Option<T>>)
    ensures
        opt_sub_in(found(f), r),
{
    match f {
        Ok(None) | Ok(Some(Json::Null)) => Some(None),
        Ok(Some(j)) => match T::from_json(j) {
            Some(v) => Some(Some(v)),
            None => None,
        },
        _ => None,
    }
}

/// The member names of a message.
pub open spec fn message_members() -> Seq<&'static str> {
    seq!["id", "groupId", "seq", "senderId", "body", "clientMessageId", "createdAt"]
}

impl Wire for MessageDto {
    open spec fn decodes(j: Json, r: Option<Self>) -> bool {
        match j {
            Json::Obj(o) => {
                let id = text_in(one(o@, "id"@));
                let group_id = opt_text_in(one(o@, "groupId"@));
                let seq = i64_in(one(o@, "seq"@));
                let sender_id = text_or_empty_in(one(o@, "senderId"@));
                let body = text_or_empty_in(one(o@, "body"@));
                let client_message_id = opt_text_in(one(o@, "clientMessageId"@));
                let created_at = opt_time_in(one(o@, "createdAt"@));
                let plain_ok = id is Some && group_id is Some && seq is Some && sender_id is Some
                    && body is Some && client_message_id is Some && created_at is Some;
                match r {
                    Some(m) => {
                        &&& plain_ok
                        &&& m.id@ == id->0
                        &&& opt_text(m.group_id) == group_id->0
                        &&& m.seq == seq->0
                        &&& m.sender_id@ == sender_id->0
                        &&& m.body@ == body->0
                        &&& opt_text(m.client_message_id) == client_message_id->0
                        &&& m.created_at == created_at->0
                        &&& extra_is(o@, message_members(), m.extra@)
                    },
                    None => {
                        ||| !plain_ok
                    },
                }
            },
            _ => r is None,
        }
    }

    fn from_json(j: &Json) -> (r: Option<Self>) {
        let o = match j {
            Json::Obj(o) => o,
            _ => {
                return None;
            },
        };
        let id = match read_text(find(o, "id")) {
            Some(v) => v,
            None => {
                return None;
            },
        };
        let group_id = match read_opt_text(find(o, "groupId")) {
            Some(v) => v,
            None => {
                return None;
            },
        };
        let seq = match read_i64(find(o, "seq")) {
            Some(v) => v,
            None => {
                return None;
            },
        };
        let sender_id = match read_text_or_empty(find(o, "senderId")) {
            Some(v) => v,
            None => {
                return None;
            },
        };
        let body = match read_text_or_empty(find(o, "body")) {
            Some(v) => v,
            None => {
                return None;
            },
        };
        let client_message_id = match read_opt_text(find(o, "clientMessageId")) {
            Some(v) => v,
            None => {
                return None;
            },
        };
        let created_at = match read_opt_time(find(o, "createdAt")) {
            Some(v) => v,
            None => {
                return None;
            },
        };
        let known: [&'static str; 7] = [
            "id",
            "groupId",
            "seq",
            "senderId",
            "body",
            "clientMessageId",
            "createdAt",
        ];
        assert(known@ =~= message_members());
        let extra = copy_unknown(o, known.as_slice());
        Some(
            MessageDto { id, group_id, seq, sender_id, body, client_message_id, created_at, extra },
        )
    }
}

/// The member names of a member.
pub open spec fn member_members() -> Seq<&'static str> {
    seq!["userId", "id", "displayName", "phoneE164", "phone", "role", "kind", "joinedAt"]
}

impl Wire for MemberDto {
    open spec fn decodes(j: Json, r: Option<Self>) -> bool {
        match j {
            Json::Obj(o) => {
                let user_id = text_in(either(one(o@, "userId"@), one(o@, "id"@)));
                let display_name = text_or_empty_in(one(o@, "displayName"@));
                let phone_e164 = opt_text_in(either(one(o@, "phoneE164"@), one(o@, "phone"@)));
                let role = role_in(one(o@, "role"@));
                let joined_at = opt_time_in(one(o@, "joinedAt"@));
                let plain_ok = user_id is Some && display_name is Some && phone_e164 is Some
                    && role is Some && joined_at is Some;
                match r {
                    Some(m) => {
                        &&& plain_ok
                        &&& m.user_id@ == user_id->0
                        &&& m.display_name@ == display_name->0
                        &&& opt_text(m.phone_e164) == phone_e164->0
                        &&& m.role == role->0
                        &&& m.joined_at == joined_at->0
                        &&& account_kind_in(one(o@, "kind"@), Some(m.kind))
                        &&& extra_is(o@, member_members(), m.extra@)
                    },
                    None => {
                        ||| !plain_ok
                        ||| account_kind_in(one(o@, "kind"@), None)
                    },
                }
            },
            _ => r is None,
        }
    }

    fn from_json(j: &Json) -> (r: Option<Self>) {
        let o = match j {
            Json::Obj(o) => o,
            _ => {
                return None;
            },
        };
        let user_id = match read_text(find_either(find(o, "userId"), find(o, "id"))) {
            Some(v) => v,
            None => {
                return None;
            },
        };
        let display_name = match read_text_or_empty(find(o, "displayName")) {
            Some(v) => v,
            None => {
                return None;
            },
        };
        let phone_e164 = match read_opt_text(find_either(find(o, "phoneE164"), find(o, "phone"))) {
            Some(v) => v,
            None => {
                return None;
            },
        };
        let role = match read_role(find(o, "role")) {
            Some(v) => v,
            None => {
                return None;
            },
        };
        let kind = match read_account_kind(find(o, "kind")) {
            Some(v) => v,
            None => {
                return None;
            },
        };
        let joined_at = match read_opt_time(find(o, "joinedAt")) {
            Some(v) => v,
            None => {
                return None;
            },
        };
        let known: [&'static str; 8] = [
            "userId",
            "id",
            "displayName",
            "phoneE164",
            "phone",
            "role",
            "kind",
            "joinedAt",
        ];
        assert(known@ =~= member_members());
        let extra = copy_unknown(o, known.as_slice());
        Some(MemberDto { user_id, display_name, phone_e164, role, kind, joined_at, extra })
    }
}

impl Wire for User {
    open spec fn decodes(j: Json, r: Option<Self>) -> bool {
        if is_record(j, 7) {
            let id = text_in(slot(j, 0, "id"@));
            let display_name = text_or_empty_in(slot(j, 1, "displayName"@));
            let phone_e164 = opt_text_in(slot_either(j, 2, "phoneE164"@, "phone"@));
            let created_at = opt_time_in(slot(j, 4, "createdAt"@));
            let email = opt_text_in(slot(j, 5, "email"@));
            let google_linked = bool_or_false_in(slot(j, 6, "googleLinked"@));
            let plain_ok = id is Some && display_name is Some && phone_e164 is Some
                && created_at is Some && email is Some && google_linked is Some;
            match r {
                Some(m) => {
                    &&& plain_ok
                    &&& m.id@ == id->0
                    &&& m.display_name@ == display_name->0
                    &&& opt_text(m.phone_e164) == phone_e164->0
                    &&& m.created_at == created_at->0
                    &&& opt_text(m.email) == email->0
                    &&& m.google_linked == google_linked->0
                    &&& account_kind_in(slot(j, 3, "kind"@), Some(m.kind))
                },
                None => {
                    ||| !plain_ok
                    ||| account_kind_in(slot(j, 3, "kind"@), None)
                },
            }
        } else {
            r is None
        }
    }

    fn from_json(j: &Json) -> (r: Option<Self>) {
        if !has_slots(j, 7) {
            return None;
        }
        let id = match read_text(field(j, 0, "id")) {
            Some(v) => v,
            None => {
                return None;
            },
        };
        let display_name = match read_text_or_empty(field(j, 1, "displayName")) {
            Some(v) => v,
            None => {
                return None;
            },
        };
        let phone_e164 = match read_opt_text(field_either(j, 2, "phoneE164", "phone")) {
            Some(v) => v,
            None => {
                return None;
            },
        };
        let kind = match read_account_kind(field(j, 3, "kind")) {
            Some(v) => v,
            None => {
                return None;
            },
        };
        let created_at = match read_opt_time(field(j, 4, "createdAt")) {
            Some(v) => v,
            None => {
                return None;
            },
        };
        let email = match read_opt_text(field(j, 5, "email")) {
            Some(v) => v,
            None => {
                return None;
            },
        };
        let google_linked = match read_bool(field(j, 6, "googleLinked")) {
            Some(v) => v,
            None => {
                return None;
            },
        };
        Some(User { id, display_name, phone_e164, kind, created_at, email, google_linked })
    }
}

/// The member names of a device.
pub open spec fn device_members() -> Seq<&'static str> {
    seq![
        "id",
        "name",
        "platform",
        "appVersion",
        "deviceModel",
        "userId",
        "imei",
        "serialNumber",
        "createdAt",
        "registeredAt",
        "lastSeenAt",
    ]
}

impl Wire for Device {
    open spec fn decodes(j: Json, r: Option<Self>) -> bool {
        match j {
            Json::Obj(o) => {
                let id = text_in(one(o@, "id"@));
                let name = opt_text_in(one(o@, "name"@));
                let platform = opt_text_in(one(o@, "platform"@));
                let app_version = opt_text_in(one(o@, "appVersion"@));
                let device_model = opt_text_in(one(o@, "deviceModel"@));
                let user_id = opt_text_in(one(o@, "userId"@));
                let imei = opt_text_in(one(o@, "imei"@));
                let serial_number = opt_text_in(one(o@, "serialNumber"@));
                let created_at = opt_time_in(
                    either(one(o@, "createdAt"@), one(o@, "registeredAt"@)),
                );
                let last_seen_at = opt_time_in(one(o@, "lastSeenAt"@));
                let plain_ok = id is Some && name is Some && platform is Some && app_version is Some
                    && device_model is Some && user_id is Some && imei is Some
                    && serial_number is Some && created_at is Some && last_seen_at is Some;
                match r {
                    Some(m) => {
                        &&& plain_ok
                        &&& m.id@ == id->0
                        &&& opt_text(m.name) == name->0
                        &&& opt_text(m.platform) == platform->0
                        &&& opt_text(m.app_version) == app_version->0
                        &&& opt_text(m.device_model) == device_model->0
                        &&& opt_text(m.user_id) == user_id->0
                        &&& opt_text(m.imei) == imei->0
                        &&& opt_text(m.serial_number) == serial_number->0
                        &&& m.created_at == created_at->0
                        &&& m.last_seen_at == last_seen_at->0
                        &&& extra_is(o@, device_members(), m.extra@)
                    },
                    None => {
                        ||| !plain_ok
                    },
                }
            },
            _ => r is None,
        }
    }

    fn from_json(j: &Json) -> (r: Option<Self>) {
        let o = match j {
            Json::Obj(o) => o,
            _ => {
                return None;
            },
        };
        let id = match read_text(find(o, "id")) {
            Some(v) => v,
            None => {
                return None;
            },
        };
        let name = match read_opt_text(find(o, "name")) {
            Some(v) => v,
            None => {
                return None;
            },
        };
        let platform = match read_opt_text(find(o, "platform")) {
            Some(v) => v,
            None => {
                return None;
            },
        };
        let app_version = match read_opt_text(find(o, "appVersion")) {
            Some(v) => v,
            None => {
                return None;
            },
        };
        let device_model = match read_opt_text(find(o, "deviceModel")) {
            Some(v) => v,
            None => {
                return None;
            },
        };
        let user_id = match read_opt_text(find(o, "userId")) {
            Some(v) => v,
            None => {
                return None;
            },
        };
        let imei = match read_opt_text(find(o, "imei")) {
            Some(v) => v,
            None => {
                return None;
            },
        };
        let serial_number = match read_opt_text(find(o, "serialNumber")) {
            Some(v) => v,
            None => {
                return None;
            },
        };
        let created_at = match read_opt_time(
            find_either(find(o, "createdAt"), find(o, "registeredAt")),
        ) {
            Some(v) => v,
            None => {
                return None;
            },
        };
        let last_seen_at = match read_opt_time(find(o, "lastSeenAt")) {
            Some(v) => v,
            None => {
                return None;
            },
        };
        let known: [&'static str; 11] = [
            "id",
            "name",
            "platform",
            "appVersion",
            "deviceModel",
            "userId",
            "imei",
            "serialNumber",
            "createdAt",
            "registeredAt",
            "lastSeenAt",
        ];
        assert(known@ =~= device_members());
        let extra = copy_unknown(o, known.as_slice());
        Some(
            Device {
                id,
                name,
                platform,
                app_version,
                device_model,
                user_id,
                imei,
                serial_number,
                created_at,
                last_seen_at,
                extra,
            },
        )
    }
}

impl Wire for Session {
    open spec fn decodes(j: Json, r: Option<Self>) -> bool {
        if is_record(j, 3) {
            let token = text_in(slot(j, 2, "token"@));
            let plain_ok = token is Some;
            match r {
                Some(m) => {
                    &&& plain_ok
                    &&& m.token@ == token->0
                    &&& sub_in::<User>(slot(j, 0, "user"@), Some(m.user))
                    &&& sub_in::<Device>(slot(j, 1, "device"@), Some(m.device))
                },
                None => {
                    ||| !plain_ok
                    ||| sub_in::<User>(slot(j, 0, "user"@), None)
                    ||| sub_in::<Device>(slot(j, 1, "device"@), None)
                },
            }
        } else {
            r is None
        }
    }

    fn from_json(j: &Json) -> (r: Option<Self>) {
        if !has_slots(j, 3) {
            return None;
        }
        let user = match read_sub::<User>(field(j, 0, "user")) {
            Some(v) => v,
            None => {
                return None;
            },
        };
        let device = match read_sub::<Device>(field(j, 1, "device")) {
            Some(v) => v,
            None => {
                return None;
            },
        };
        let token = match read_text(field(j, 2, "token")) {
            Some(v) => v,
            None => {
                return None;
            },
        };
        Some(Session { user, device, token })
    }
}

/// The member names of a challenge.
pub open spec fn challenge_members() -> Seq<&'static str> {
    seq![
        "challengeId",
        "id",
        "challenge",
        "expiresAtEpochMs",
        "expiresAt",
        "expires_at",
        "expiresAtMs",
        "expiry",
        "expiresInSeconds",
        "ttlSeconds",
        "resendAfterSeconds",
        "resendAfter",
        "retryAfterSeconds",
        "resendInSeconds",
    ]
}

impl Wire for EnrollmentChallenge {
    open spec fn decodes(j: Json, r: Option<Self>) -> bool {
        match j {
            Json::Obj(o) => {
                let challenge_id = text_in(
                    either(one(o@, "challengeId"@), either(one(o@, "id"@), one(o@, "challenge"@))),
                );
                let expires_at_epoch_ms = opt_time_in(
                    either(
                        one(o@, "expiresAtEpochMs"@),
                        either(
                            one(o@, "expiresAt"@),
                            either(
                                one(o@, "expires_at"@),
                                either(one(o@, "expiresAtMs"@), one(o@, "expiry"@)),
                            ),
                        ),
                    ),
                );
                let expires_in_seconds = opt_u64_in(
                    either(one(o@, "expiresInSeconds"@), one(o@, "ttlSeconds"@)),
                );
                let resend_after_seconds = opt_u64_in(
                    either(
                        one(o@, "resendAfterSeconds"@),
                        either(
                            one(o@, "resendAfter"@),
                            either(one(o@, "retryAfterSeconds"@), one(o@, "resendInSeconds"@)),
                        ),
                    ),
                );
                let plain_ok = challenge_id is Some && expires_at_epoch_ms is Some
                    && expires_in_seconds is Some && resend_after_seconds is Some;
                match r {
                    Some(m) => {
                        &&& plain_ok
                        &&& m.challenge_id@ == challenge_id->0
                        &&& m.expires_at_epoch_ms == expires_at_epoch_ms->0
                        &&& m.expires_in_seconds == expires_in_seconds->0
                        &&& m.resend_after_seconds == resend_after_seconds->0
                        &&& extra_is(o@, challenge_members(), m.extra@)
                    },
                    None => {
                        ||| !plain_ok
                    },
                }
            },
            _ => r is None,
        }
    }

    fn from_json(j: &Json) -> (r: Option<Self>) {
        let o = match j {
            Json::Obj(o) => o,
            _ => {
                return None;
            },
        };
        let challenge_id = match read_text(
            find_either(find(o, "challengeId"), find_either(find(o, "id"), find(o, "challenge"))),
        ) {
            Some(v) => v,
            None => {
                return None;
            },
        };
        let expires_at_epoch_ms = match read_opt_time(
            find_either(
                find(o, "expiresAtEpochMs"),
                find_either(
                    find(o, "expiresAt"),
                    find_either(
                        find(o, "expires_at"),
                        find_either(find(o, "expiresAtMs"), find(o, "expiry")),
                    ),
                ),
            ),
        ) {
            Some(v) => v,
            None => {
                return None;
            },
        };
        let expires_in_seconds = match read_opt_u64(
            find_either(find(o, "expiresInSeconds"), find(o, "ttlSeconds")),
        ) {
            Some(v) => v,
            None => {
                return None;
            },
        };
        let resend_after_seconds = match read_opt_u64(
            find_either(
                find(o, "resendAfterSeconds"),
                find_either(
                    find(o, "resendAfter"),
                    find_either(find(o, "retryAfterSeconds"), find(o, "resendInSeconds")),
                ),
            ),
        ) {
            Some(v) => v,
            None => {
                return None;
            },
        };
        let known: [&'static str; 14] = [
            "challengeId",
            "id",
            "challenge",
            "expiresAtEpochMs",
            "expiresAt",
            "expires_at",
            "expiresAtMs",
            "expiry",
            "expiresInSeconds",
            "ttlSeconds",
            "resendAfterSeconds",
            "resendAfter",
            "retryAfterSeconds",
            "resendInSeconds",
        ];
        assert(known@ =~= challenge_members());
        let extra = copy_unknown(o, known.as_slice());
        Some(
            EnrollmentChallenge {
                challenge_id,
                expires_at_epoch_ms,
                expires_in_seconds,
                resend_after_seconds,
                extra,
            },
        )
    }
}

impl Wire for GroupLimits {
    open spec fn decodes(j: Json, r: Option<Self>) -> bool {
        if is_record(j, 3) {
            let member_cap = opt_u32_in(slot(j, 0, "memberCap"@));
            let message_max_length = opt_u32_in(slot(j, 1, "messageMaxLength"@));
            let min_members_to_post = opt_u32_in(slot(j, 2, "minMembersToPost"@));
            let plain_ok = member_cap is Some && message_max_length is Some
                && min_members_to_post is Some;
            match r {
                Some(m) => {
                    &&& plain_ok
                    &&& m.member_cap == member_cap->0
                    &&& m.message_max_length == message_max_length->0
                    &&& m.min_members_to_post == min_members_to_post->0
                },
                None => {
                    ||| !plain_ok
                },
            }
        } else {
            r is None
        }
    }

    fn from_json(j: &Json) -> (r: Option<Self>) {
        if !has_slots(j, 3) {
            return None;
        }
        let member_cap = match read_opt_u32(field(j, 0, "memberCap")) {
            Some(v) => v,
            None => {
                return None;
            },
        };
        let message_max_length = match read_opt_u32(field(j, 1, "messageMaxLength")) {
            Some(v) => v,
            None => {
                return None;
            },
        };
        let min_members_to_post = match read_opt_u32(field(j, 2, "minMembersToPost")) {
            Some(v) => v,
            None => {
                return None;
            },
        };
        Some(GroupLimits { member_cap, message_max_length, min_members_to_post })
    }
}

impl Wire for GroupMessages {
    open spec fn decodes(j: Json, r: Option<Self>) -> bool {
        if is_record(j, 4) {
            let group_id = text_in(slot(j, 0, "groupId"@));
            let delivered_seq = opt_i64_in(slot(j, 2, "deliveredSeq"@));
            let has_more = bool_or_false_in(slot(j, 3, "hasMore"@));
            let plain_ok = group_id is Some && delivered_seq is Some && has_more is Some;
            match r {
                Some(m) => {
                    &&& plain_ok
                    &&& m.group_id@ == group_id->0
                    &&& m.delivered_seq == delivered_seq->0
                    &&& m.has_more == has_more->0
                    &&& list_or_empty_in(slot(j, 1, "messages"@), Some(m.messages))
                },
                None => {
                    ||| !plain_ok
                    ||| list_or_empty_in::<MessageDto>(slot(j, 1, "messages"@), None)
                },
            }
        } else {
            r is None
        }
    }

    fn from_json(j: &Json) -> (r: Option<Self>) {
        if !has_slots(j, 4) {
            return None;
        }
        let group_id = match read_text(field(j, 0, "groupId")) {
            Some(v) => v,
            None => {
                return None;
            },
        };
        let messages = match read_list::<MessageDto>(field(j, 1, "messages")) {
            Some(v) => v,
            None => {
                return None;
            },
        };
        let delivered_seq = match read_opt_i64(field(j, 2, "deliveredSeq")) {
            Some(v) => v,
            None => {
                return None;
            },
        };
        let has_more = match read_bool(field(j, 3, "hasMore")) {
            Some(v) => v,
            None => {
                return None;
            },
        };
        Some(GroupMessages { group_id, messages, delivered_seq, has_more })
    }
}

/// The member names of a page of messages.
pub open spec fn page_members() -> Seq<&'static str> {
    seq!["items", "messages", "nextAfterSeq", "nextBeforeSeq"]
}

impl Wire for MessagesPage {
    open spec fn decodes(j: Json, r: Option<Self>) -> bool {
        match j {
            Json::Obj(o) => {
                let next_after_seq = opt_i64_in(one(o@, "nextAfterSeq"@));
                let next_before_seq = opt_i64_in(one(o@, "nextBeforeSeq"@));
                let plain_ok = next_after_seq is Some && next_before_seq is Some;
                match r {
                    Some(m) => {
                        &&& plain_ok
                        &&& m.next_after_seq == next_after_seq->0
                        &&& m.next_before_seq == next_before_seq->0
                        &&& list_or_empty_in(
                            either(one(o@, "items"@), one(o@, "messages"@)),
                            Some(m.items),
                        )
                        &&& extra_is(o@, page_members(), m.extra@)
                    },
                    None => {
                        ||| !plain_ok
                        ||| list_or_empty_in::<MessageDto>(
                            either(one(o@, "items"@), one(o@, "messages"@)),
                            None,
                        )
                    },
                }
            },
            _ => r is None,
        }
    }

    fn from_json(j: &Json) -> (r: Option<Self>) {
        let o = match j {
            Json::Obj(o) => o,
            _ => {
                return None;
            },
        };
        let items = match read_list::<MessageDto>(
            find_either(find(o, "items"), find(o, "messages")),
        ) {
            Some(v) => v,
            None => {
                return None;
            },
        };
        let next_after_seq = match read_opt_i64(find(o, "nextAfterSeq")) {
            Some(v) => v,
            None => {
                return None;
            },
        };
        let next_before_seq = match read_opt_i64(find(o, "nextBeforeSeq")) {
            Some(v) => v,
            None => {
                return None;
            },
        };
        let known: [&'static str; 4] = ["items", "messages", "nextAfterSeq", "nextBeforeSeq"];
        assert(known@ =~= page_members());
        let extra = copy_unknown(o, known.as_slice());
        Some(MessagesPage { items, next_after_seq, next_before_seq, extra })
    }
}

/// The permission settings a group object nests; both absent when it nests none.
pub open spec fn settings_in(f: FoundJson) -> Option<(Option<Seq<char>>, Option<Seq<char>>)> {
    match f {
        Ok(None) => Some((None, None)),
        Ok(Some(j)) => match (
            opt_text_in(slot(j, 0, "whoCanPost"@)),
            opt_text_in(slot(j, 1, "whoCanAddMembers"@)),
        ) {
            (Some(p), Some(a)) => if is_record(j, 2) {
                Some((p, a))
            } else {
                None
            },
            _ => None,
        },
        Err(_) => None,
    }
}

/// The slug of an optional permission.
pub open spec fn perm_text(p: Option<Permission>) -> Option<Seq<char>> {
    match p {
        Some(q) => Some(q.0@),
        None => None,
    }
}

fn as_permission(s: Option<String>) -> (r: Option<Permission>)
    ensures
        perm_text(r) == opt_text(s),
{
    match s {
        Some(t) => Some(Permission(t)),
        None => None,
    }
}

pub(crate) fn read_settings(f: Found<'_>) -> (r: Option<GroupSettings>)
    ensures
        match r {
            Some(s) => settings_in(found(f)) == Some(
                (perm_text(s.who_can_post), perm_text(s.who_can_add_members)),
            ),
            None => settings_in(found(f)) is None,
        },
{
    match f {
        Ok(None) => Some(GroupSettings { who_can_post: None, who_can_add_members: None }),
        Ok(Some(j)) => {
            if !has_slots(j, 2) {
                return None;
            }
            let post = match read_opt_text(field(j, 0, "whoCanPost")) {
                Some(v) => v,
                None => {
                    return None;
                },
            };
            let add_members = match read_opt_text(field(j, 1, "whoCanAddMembers")) {
                Some(v) => v,
                None => {
                    return None;
                },
            };
            Some(
                GroupSettings {
                    who_can_post: as_permission(post),
                    who_can_add_members: as_permission(add_members),
                },
            )
        },
        Err(_) => None,
    }
}

/// The nested setting, else the flat one, else the default.
pub open spec fn effective(
    nested: Option<Seq<char>>,
    flat: Option<Seq<char>>,
    default: Seq<char>,
) -> Seq<char> {
    match nested {
        Some(p) => p,
        None => match flat {
            Some(p) => p,
            None => default,
        },
    }
}

/// The member names of a group.
pub open spec fn group_members() -> Seq<&'static str> {
    seq![
        "id",
        "name",
        "category",
        "kind",
        "createdBy",
        "createdAt",
        "myRole",
        "role",
        "memberCount",
        "muted",
        "lastActivityAt",
        "lastMessagePreview",
        "lastReadSeq",
        "readSeq",
        "unreadCount",
        "latestSeq",
        "lastSeq",
        "maxSeq",
        "settings",
        "whoCanPost",
        "whoCanAddMembers",
        "limits",
    ]
}

impl Wire for GroupDto {
    open spec fn decodes(j: Json, r: Option<Self>) -> bool {
        match j {
            Json::Obj(o) => {
                let id = text_in(one(o@, "id"@));
                let name = text_or_empty_in(one(o@, "name"@));
                let category = text_or_empty_in(one(o@, "category"@));
                let kind = group_kind_in(one(o@, "kind"@));
                let created_by = opt_text_in(one(o@, "createdBy"@));
                let created_at = opt_time_in(one(o@, "createdAt"@));
                let my_role = role_in(either(one(o@, "myRole"@), one(o@, "role"@)));
                let member_count = i64_or_zero_in(one(o@, "memberCount"@));
                let muted = bool_or_false_in(one(o@, "muted"@));
                let last_activity_at = opt_time_in(one(o@, "lastActivityAt"@));
                let last_message_preview = opt_text_in(one(o@, "lastMessagePreview"@));
                let last_read_seq = opt_i64_in(
                    either(one(o@, "lastReadSeq"@), one(o@, "readSeq"@)),
                );
                let unread_count = opt_i64_in(one(o@, "unreadCount"@));
                let latest_seq = opt_i64_in(
                    either(one(o@, "latestSeq"@), either(one(o@, "lastSeq"@), one(o@, "maxSeq"@))),
                );
                let settings = settings_in(one(o@, "settings"@));
                let flat_post = opt_text_in(one(o@, "whoCanPost"@));
                let flat_add = opt_text_in(one(o@, "whoCanAddMembers"@));
                let plain_ok = id is Some && name is Some && category is Some && kind is Some
                    && created_by is Some && created_at is Some && my_role is Some
                    && member_count is Some && muted is Some && last_activity_at is Some
                    && last_message_preview is Some && last_read_seq is Some && unread_count is Some
                    && latest_seq is Some && settings is Some && flat_post is Some
                    && flat_add is Some;
                match r {
                    Some(m) => {
                        &&& plain_ok
                        &&& m.id@ == id->0
                        &&& m.name@ == name->0
                        &&& m.category@ == category->0
                        &&& m.kind == kind->0
                        &&& opt_text(m.created_by) == created_by->0
                        &&& m.created_at == created_at->0
                        &&& m.my_role == my_role->0
                        &&& m.member_count == member_count->0
                        &&& m.muted == muted->0
                        &&& m.last_activity_at == last_activity_at->0
                        &&& opt_text(m.last_message_preview) == last_message_preview->0
                        &&& m.last_read_seq == last_read_seq->0
                        &&& m.unread_count == unread_count->0
                        &&& m.latest_seq == latest_seq->0
                        &&& m.who_can_post.0@ == effective((settings->0).0, flat_post->0, EVERYONE@)
                        &&& m.who_can_add_members.0@ == effective(
                            (settings->0).1,
                            flat_add->0,
                            ADMINS@,
                        )
                        &&& opt_sub_in::<GroupLimits>(one(o@, "limits"@), Some(m.limits))
                        &&& extra_is(o@, group_members(), m.extra@)
                    },
                    None => {
                        ||| !plain_ok
                        ||| opt_sub_in::<GroupLimits>(one(o@, "limits"@), None)
                    },
                }
            },
            _ => r is None,
        }
    }

    fn from_json(j: &Json) -> (r: Option<Self>) {
        let o = match j {
            Json::Obj(o) => o,
            _ => {
                return None;
            },
        };
        let id = match read_text(find(o, "id")) {
            Some(v) => v,
            None => {
                return None;
            },
        };
        let name = match read_text_or_empty(find(o, "name")) {
            Some(v) => v,
            None => {
                return None;
            },
        };
        let category = match read_text_or_empty(find(o, "category")) {
            Some(v) => v,
            None => {
                return None;
            },
        };
        let kind = match read_group_kind(find(o, "kind")) {
            Some(v) => v,
            None => {
                return None;
            },
        };
        let created_by = match read_opt_text(find(o, "createdBy")) {
            Some(v) => v,
            None => {
                return None;
            },
        };
        let created_at = match read_opt_time(find(o, "createdAt")) {
            Some(v) => v,
            None => {
                return None;
            },
        };
        let my_role = match read_role(find_either(find(o, "myRole"), find(o, "role"))) {
            Some(v) => v,
            None => {
                return None;
            },
        };
        let member_count = match read_i64_or_zero(find(o, "memberCount")) {
            Some(v) => v,
            None => {
                return None;
            },
        };
        let muted = match read_bool(find(o, "muted")) {
            Some(v) => v,
            None => {
                return None;
            },
        };
        let last_activity_at = match read_opt_time(find(o, "lastActivityAt")) {
            Some(v) => v,
            None => {
                return None;
            },
        };
        let last_message_preview = match read_opt_text(find(o, "lastMessagePreview")) {
            Some(v) => v,
            None => {
                return None;
            },
        };
        let last_read_seq = match read_opt_i64(
            find_either(find(o, "lastReadSeq"), find(o, "readSeq")),
        ) {
            Some(v) => v,
            None => {
                return None;
            },
        };
        let unread_count = match read_opt_i64(find(o, "unreadCount")) {
            Some(v) => v,
            None => {
                return None;
            },
        };
        let latest_seq = match read_opt_i64(
            find_either(find(o, "latestSeq"), find_either(find(o, "lastSeq"), find(o, "maxSeq"))),
        ) {
            Some(v) => v,
            None => {
                return None;
            },
        };
        let settings = match read_settings(find(o, "settings")) {
            Some(v) => v,
            None => {
                return None;
            },
        };
        let flat_post = match read_opt_text(find(o, "whoCanPost")) {
            Some(v) => v,
            None => {
                return None;
            },
        };
        let flat_add = match read_opt_text(find(o, "whoCanAddMembers")) {
            Some(v) => v,
            None => {
                return None;
            },
        };
        let limits = match read_opt_sub::<GroupLimits>(find(o, "limits")) {
            Some(v) => v,
            None => {
                return None;
            },
        };
        let known: [&'static str; 22] = [
            "id",
            "name",
            "category",
            "kind",
            "createdBy",
            "createdAt",
            "myRole",
            "role",
            "memberCount",
            "muted",
            "lastActivityAt",
            "lastMessagePreview",
            "lastReadSeq",
            "readSeq",
            "unreadCount",
            "latestSeq",
            "lastSeq",
            "maxSeq",
            "settings",
            "whoCanPost",
            "whoCanAddMembers",
            "limits",
        ];
        assert(known@ =~= group_members());
        let extra = copy_unknown(o, known.as_slice());
        let who_can_post = match settings.who_can_post {
            Some(p) => p,
            None => match flat_post {
                Some(p) => Permission(p),
                None => Permission::everyone(),
            },
        };
        let who_can_add_members = match settings.who_can_add_members {
            Some(p) => p,
            None => match flat_add {
                Some(p) => Permission(p),
                None => Permission::admins(),
            },
        };
        Some(
            GroupDto {
                id,
                name,
                category,
                kind,
                created_by,
                created_at,
                my_role,
                member_count,
                muted,
                last_activity_at,
                last_message_preview,
                last_read_seq,
                unread_count,
                latest_seq,
                who_can_post,
                who_can_add_members,
                limits,
                extra,
            },
        )
    }
}

impl Wire for AddedMember {
    /// A full member, or a plain phone number.
    open spec fn decodes(j: Json, r: Option<Self>) -> bool {
        match r {
            Some(AddedMember::Member(m)) => MemberDto::decodes(j, Some(m)),
            Some(AddedMember::Phone(p)) => MemberDto::decodes(j, None) && str_of(j) == Some(p@),
            None => MemberDto::decodes(j, None) && str_of(j) is None,
        }
    }

    fn from_json(j: &Json) -> (r: Option<Self>) {
        match MemberDto::from_json(j) {
            Some(m) => Some(AddedMember::Member(m)),
            None => match j {
                Json::Str(s) => Some(AddedMember::Phone(s.clone())),
                _ => None,
            },
        }
    }
}

/// The member names of the outcome of adding members.
pub open spec fn outcome_members() -> Seq<&'static str> {
    seq!["added", "notFound", "alreadyMember"]
}

impl Wire for AddMembersOutcome {
    open spec fn decodes(j: Json, r: Option<Self>) -> bool {
        match j {
            Json::Obj(o) => {
                match r {
                    Some(m) => {
                        &&& list_or_empty_in(one(o@, "added"@), Some(m.added))
                        &&& list_or_empty_in(one(o@, "notFound"@), Some(m.not_found))
                        &&& list_or_empty_in(one(o@, "alreadyMember"@), Some(m.already_member))
                        &&& extra_is(o@, outcome_members(), m.extra@)
                    },
                    None => {
                        ||| list_or_empty_in::<AddedMember>(one(o@, "added"@), None)
                        ||| list_or_empty_in::<String>(one(o@, "notFound"@), None)
                        ||| list_or_empty_in::<String>(one(o@, "alreadyMember"@), None)
                    },
                }
            },
            _ => r is None,
        }
    }

    fn from_json(j: &Json) -> (r: Option<Self>) {
        let o = match j {
            Json::Obj(o) => o,
            _ => {
                return None;
            },
        };
        let added = match read_list::<AddedMember>(find(o, "added")) {
            Some(v) => v,
            None => {
                return None;
            },
        };
        let not_found = match read_list::<String>(find(o, "notFound")) {
            Some(v) => v,
            None => {
                return None;
            },
        };
        let already_member = match read_list::<String>(find(o, "alreadyMember")) {
            Some(v) => v,
            None => {
                return None;
            },
        };
        let known: [&'static str; 3] = ["added", "notFound", "alreadyMember"];
        assert(known@ =~= outcome_members());
        let extra = copy_unknown(o, known.as_slice());
        Some(AddMembersOutcome { added, not_found, already_member, extra })
    }
}

impl Wire for GroupEventDto {
    open spec fn decodes(j: Json, r: Option<Self>) -> bool {
        if is_record(j, 2) {
            let event = text_in(slot(j, 0, "event"@));
            let payload = slot(j, 1, "payload"@);
            match r {
                Some(m) => {
                    &&& event == Some(m.event@)
                    &&& match payload {
                        Ok(None) => m.payload@.len() == 0,
                        Ok(Some(Json::Obj(p))) => extra_is(p@, seq![], m.payload@),
                        _ => false,
                    }
                },
                None => event is None || (payload matches Ok(Some(p)) && !(p is Obj)),
            }
        } else {
            r is None
        }
    }

    fn from_json(j: &Json) -> (r: Option<Self>) {
        if !has_slots(j, 2) {
            return None;
        }
        let event = match read_text(field(j, 0, "event")) {
            Some(v) => v,
            None => {
                return None;
            },
        };
        match field(j, 1, "payload") {
            Ok(None) => Some(GroupEventDto { event, payload: Vec::new() }),
            Ok(Some(Json::Obj(p))) => {
                let known: [&'static str; 0] = [];
                assert(known@ =~= Seq::<&'static str>::empty());
                Some(GroupEventDto { event, payload: copy_unknown(p, known.as_slice()) })
            },
            _ => None,
        }
    }
}

} // verus!
