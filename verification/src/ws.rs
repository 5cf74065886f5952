//! The frames of the WebSocket protocol.
//!
//! After `hello` the server pushes every undelivered batch; every `messages` frame is answered with
//! an `ack` for its last seq.

use crate::json::{copy_json, get, member_of, member_pos, same_json, str_of, Json};
use crate::models::{
    opt_text, role_of, GroupSettings, MemberDto, MessageDto, Permission, Role,
};
use crate::numbers::{decimal_int, show_i64};
use crate::text::same;
use crate::wire::{
    bool_or_false_in, copy_unknown, extra_is, field, field_either, find, found, has_slots, i64_in,
    is_record, list_or_empty_in, one, opt_text_in, opt_u32_in, perm_text, read_bool, read_i64,
    read_list, read_opt_text, read_opt_u32, read_settings, read_text, settings_in, slot,
    slot_either, text_in, unknown, FoundJson, Wire,
};
use vstd::prelude::*;

verus! {

/// Client to server frames.
#[derive(Debug)]
pub enum ClientFrame {
    /// Liveness probe.
    Ping,
    /// This device stored everything of a group up to `seq`.
    Ack { group_id: String, seq: i64 },
    /// The user has read a group up to `seq`.
    Read { group_id: String, seq: i64 },
}

/// The hexadecimal digit for `d < 16`.
pub open spec fn hex_digit(d: int) -> char {
    if d < 10 {
        ('0' as u8 + d) as char
    } else {
        ('a' as u8 + (d - 10)) as char
    }
}

/// A character inside a JSON string.
pub open spec fn json_char(c: char) -> Seq<char> {
    let n = c as u32;
    if c == '"' || c == '\\' {
        seq!['\\', c]
    } else if n == 8 {
        seq!['\\', 'b']
    } else if n == 9 {
        seq!['\\', 't']
    } else if n == 10 {
        seq!['\\', 'n']
    } else if n == 12 {
        seq!['\\', 'f']
    } else if n == 13 {
        seq!['\\', 'r']
    } else if n < 32 {
        seq!['\\', 'u', '0', '0', hex_digit(n as int / 16), hex_digit(n as int % 16)]
    } else {
        seq![c]
    }
}

/// The characters of `s` as they stand inside a JSON string.
pub open spec fn json_chars(s: Seq<char>) -> Seq<char>
    decreases s.len(),
{
    if s.len() == 0 {
        Seq::empty()
    } else {
        json_chars(s.drop_last()) + json_char(s.last())
    }
}

/// `serde_json` notation of a string value: the text between quotes, with quotes, backslashes and
/// control characters escaped.
#[verifier::external_body]
fn json_string(s: &str) -> (r: String)
    ensures
        r@ == seq!['"'] + json_chars(s@) + seq!['"'],
{
    serde_json::Value::from(s).to_string()
}

/// The text of a client frame.
pub open spec fn client_frame_text(f: ClientFrame) -> Seq<char> {
    match f {
        ClientFrame::Ping => "{\"type\":\"ping\"}"@,
        ClientFrame::Ack { group_id, seq } => "{\"type\":\"ack\",\"groupId\":"@ + (seq!['"']
            + json_chars(group_id@) + seq!['"']) + ",\"seq\":"@ + decimal_int(seq as int) + "}"@,
        ClientFrame::Read { group_id, seq } => "{\"type\":\"read\",\"groupId\":"@ + (seq!['"']
            + json_chars(group_id@) + seq!['"']) + ",\"seq\":"@ + decimal_int(seq as int) + "}"@,
    }
}

impl ClientFrame {
    /// The frame as it goes over the wire.
    pub fn to_text(&self) -> (r: String)
        ensures
            r@ == client_frame_text(*self),
    {
        match self {
            ClientFrame::Ping => "{\"type\":\"ping\"}".to_owned(),
            ClientFrame::Ack { group_id, seq } => "{\"type\":\"ack\",\"groupId\":".to_owned().concat(
                json_string(group_id.as_str()).as_str(),
            ).concat(",\"seq\":").concat(show_i64(*seq).as_str()).concat("}"),
            ClientFrame::Read { group_id, seq } => "{\"type\":\"read\",\"groupId\":".to_owned().concat(
                json_string(group_id.as_str()).as_str(),
            ).concat(",\"seq\":").concat(show_i64(*seq).as_str()).concat("}"),
        }
    }
}

/// Connection limits announced in the `hello` frame.
#[derive(Debug, Clone, Copy, PartialEq, Eq, Structural)]
pub struct HelloLimits {
    pub heartbeat_seconds: Option<u32>,
    pub max_connections_per_device: Option<u32>,
    pub max_frame_bytes: Option<u32>,
}

impl Default for HelloLimits {
    fn default() -> (r: Self)
        ensures
            r == (HelloLimits {
                heartbeat_seconds: None,
                max_connections_per_device: None,
                max_frame_bytes: None,
            }),
    {
        HelloLimits {
            heartbeat_seconds: None,
            max_connections_per_device: None,
            max_frame_bytes: None,
        }
    }
}

/// Server to client frames.
#[derive(Debug)]
pub enum ServerFrame {
    /// Capability handshake sent on connect.
    Hello {
        protocol_version: u32,
        user_id: Option<String>,
        device_id: Option<String>,
        limits: HelloLimits,
    },
    Pong,
    /// New messages.
    Messages { group_id: String, messages: Vec<MessageDto>, has_more: bool },
    /// Group lifecycle event; its fields stand beside `type` and `event`.
    Group { event: String, fields: Vec<(String, Json)> },
    /// The user's read position moved on another of their devices.
    Read { group_id: String, read_seq: i64 },
    /// Protocol-level error.
    Error { code: String, detail: Option<String> },
}

/// The limits a `hello` frame announces; none when it announces none.
pub open spec fn limits_in(f: FoundJson) -> Option<HelloLimits> {
    match f {
        Ok(None) => Some(
            HelloLimits {
                heartbeat_seconds: None,
                max_connections_per_device: None,
                max_frame_bytes: None,
            },
        ),
        Ok(Some(j)) => match (
            opt_u32_in(slot(j, 0, "heartbeatSeconds"@)),
            opt_u32_in(slot(j, 1, "maxConnectionsPerDevice"@)),
            opt_u32_in(slot(j, 2, "maxFrameBytes"@)),
        ) {
            (Some(a), Some(b), Some(c)) => if is_record(j, 3) {
                Some(
                    HelloLimits {
                        heartbeat_seconds: a,
                        max_connections_per_device: b,
                        max_frame_bytes: c,
                    },
                )
            } else {
                None
            },
            _ => None,
        },
        Err(_) => None,
    }
}

/// A protocol version, zero when absent.
pub open spec fn version_in(f: FoundJson) -> Option<u32> {
    match f {
        Ok(None) => Some(0u32),
        Ok(Some(Json::Null)) => None,
        _ => match opt_u32_in(f) {
            Some(Some(n)) => Some(n),
            _ => None,
        },
    }
}

fn read_limits(f: crate::wire::Found<'_>) -> (r: Option<HelloLimits>)
    ensures
        r == limits_in(found(f)),
{
    match f {
        Ok(None) => Some(HelloLimits::default()),
        Ok(Some(j)) => {
            if !has_slots(j, 3) {
                return None;
            }
            let heartbeat_seconds = match read_opt_u32(field(j, 0, "heartbeatSeconds")) {
                Some(v) => v,
                None => {
                    return None;
                },
            };
            let max_connections_per_device = match read_opt_u32(
                field(j, 1, "maxConnectionsPerDevice"),
            ) {
                Some(v) => v,
                None => {
                    return None;
                },
            };
            let max_frame_bytes = match read_opt_u32(field(j, 2, "maxFrameBytes")) {
                Some(v) => v,
                None => {
                    return None;
                },
            };
            Some(HelloLimits { heartbeat_seconds, max_connections_per_device, max_frame_bytes })
        },
        Err(_) => None,
    }
}

fn read_version(f: crate::wire::Found<'_>) -> (r: Option<u32>)
    ensures
        r == version_in(found(f)),
{
    match f {
        Ok(None) => Some(0),
        Ok(Some(Json::Null)) => None,
        _ => match read_opt_u32(f) {
            Some(Some(n)) => Some(n),
            _ => None,
        },
    }
}

/// What a record whose type is `ty` decodes to. The type is the first field of each frame; only a
/// group event, whose other members are not fixed, is always an object.
pub open spec fn typed_frame(j: Json, ty: Seq<char>, r: Option<ServerFrame>) -> bool {
    if ty == "hello"@ {
        let version = version_in(slot_either(j, 1, "protocolVersion"@, "version"@));
        let user = opt_text_in(slot(j, 2, "userId"@));
        let device = opt_text_in(slot(j, 3, "deviceId"@));
        let lim = limits_in(slot(j, 4, "limits"@));
        if is_record(j, 5) && version is Some && user is Some && device is Some && lim is Some {
            r matches Some(ServerFrame::Hello { protocol_version, user_id, device_id, limits })
                && protocol_version == version->0 && opt_text(user_id) == user->0 && opt_text(
                device_id,
            ) == device->0 && limits == lim->0
        } else {
            r is None
        }
    } else if ty == "pong"@ {
        r == (if is_record(j, 1) {
            Some(ServerFrame::Pong)
        } else {
            None
        })
    } else if ty == "messages"@ {
        let group = text_in(slot(j, 1, "groupId"@));
        let more = bool_or_false_in(slot(j, 3, "hasMore"@));
        match r {
            Some(ServerFrame::Messages { group_id, messages, has_more }) => {
                &&& is_record(j, 4)
                &&& group == Some(group_id@)
                &&& more == Some(has_more)
                &&& list_or_empty_in(slot(j, 2, "messages"@), Some(messages))
            },
            Some(_) => false,
            None => !is_record(j, 4) || group is None || more is None || list_or_empty_in::<
                MessageDto,
            >(slot(j, 2, "messages"@), None),
        }
    } else if ty == "group"@ {
        match j {
            Json::Obj(o) => match text_in(one(o@, "event"@)) {
                Some(e) => r matches Some(ServerFrame::Group { event, fields }) && event@ == e
                    && extra_is(o@, seq!["type", "event"], fields@),
                None => r is None,
            },
            _ => r is None,
        }
    } else if ty == "read"@ {
        let group = text_in(slot(j, 1, "groupId"@));
        let seq = i64_in(slot(j, 2, "readSeq"@));
        if is_record(j, 3) && group is Some && seq is Some {
            r matches Some(ServerFrame::Read { group_id, read_seq }) && group_id@ == group->0
                && read_seq == seq->0
        } else {
            r is None
        }
    } else if ty == "error"@ {
        let c = text_in(slot(j, 1, "code"@));
        let d = opt_text_in(slot(j, 2, "detail"@));
        if is_record(j, 3) && c is Some && d is Some {
            r matches Some(ServerFrame::Error { code, detail }) && code@ == c->0 && opt_text(detail)
                == d->0
        } else {
            r is None
        }
    } else {
        r is None
    }
}

impl Wire for ServerFrame {
    /// A record whose `type` says which frame it is.
    open spec fn decodes(j: Json, r: Option<Self>) -> bool {
        match text_in(slot(j, 0, "type"@)) {
            Some(ty) => typed_frame(j, ty, r),
            None => r is None,
        }
    }

    fn from_json(j: &Json) -> (r: Option<Self>) {
        let ty = match read_text(field(j, 0, "type")) {
            Some(t) => t,
            None => {
                return None;
            },
        };
        if same(ty.as_str(), "hello") {
            read_hello(j)
        } else if same(ty.as_str(), "pong") {
            if has_slots(j, 1) {
                Some(ServerFrame::Pong)
            } else {
                None
            }
        } else if same(ty.as_str(), "messages") {
            if !has_slots(j, 4) {
                return None;
            }
            let group_id = match read_text(field(j, 1, "groupId")) {
                Some(v) => v,
                None => {
                    return None;
                },
            };
            let messages = match read_list::<MessageDto>(field(j, 2, "messages")) {
                Some(v) => v,
                None => {
                    return None;
                },
            };
            let has_more = match read_bool(field(j, 3, "hasMore")) {
                Some(v) => v,
                None => {
                    return None;
                },
            };
            Some(ServerFrame::Messages { group_id, messages, has_more })
        } else if same(ty.as_str(), "group") {
            let o = match j {
                Json::Obj(o) => o,
                _ => {
                    return None;
                },
            };
            let event = match read_text(find(o, "event")) {
                Some(v) => v,
                None => {
                    return None;
                },
            };
            let known: [&'static str; 2] = ["type", "event"];
            assert(known@ =~= seq!["type", "event"]);
            Some(ServerFrame::Group { event, fields: copy_unknown(o, known.as_slice()) })
        } else if same(ty.as_str(), "read") {
            if !has_slots(j, 3) {
                return None;
            }
            let group_id = match read_text(field(j, 1, "groupId")) {
                Some(v) => v,
                None => {
                    return None;
                },
            };
            let read_seq = match read_i64(field(j, 2, "readSeq")) {
                Some(v) => v,
                None => {
                    return None;
                },
            };
            Some(ServerFrame::Read { group_id, read_seq })
        } else if same(ty.as_str(), "error") {
            if !has_slots(j, 3) {
                return None;
            }
            let code = match read_text(field(j, 1, "code")) {
                Some(v) => v,
                None => {
                    return None;
                },
            };
            let detail = match read_opt_text(field(j, 2, "detail")) {
                Some(v) => v,
                None => {
                    return None;
                },
            };
            Some(ServerFrame::Error { code, detail })
        } else {
            None
        }
    }
}

fn read_hello(j: &Json) -> (r: Option<ServerFrame>)
    ensures
        typed_frame(*j, "hello"@, r),
{
    if !has_slots(j, 5) {
        return None;
    }
    let protocol_version = match read_version(
        field_either(j, 1, "protocolVersion", "version"),
    ) {
        Some(v) => v,
        None => {
            return None;
        },
    };
    let user_id = match read_opt_text(field(j, 2, "userId")) {
        Some(v) => v,
        None => {
            return None;
        },
    };
    let device_id = match read_opt_text(field(j, 3, "deviceId")) {
        Some(v) => v,
        None => {
            return None;
        },
    };
    let limits = match read_limits(field(j, 4, "limits")) {
        Some(v) => v,
        None => {
            return None;
        },
    };
    Some(ServerFrame::Hello { protocol_version, user_id, device_id, limits })
}

/// `v` holds the elements of a list that decode, in order.
pub open spec fn salvaged(items: Seq<Json>, v: Seq<MessageDto>) -> bool
    decreases items.len(),
{
    if items.len() == 0 {
        v.len() == 0
    } else if MessageDto::decodes(items.last(), None) {
        salvaged(items.drop_last(), v)
    } else {
        &&& v.len() > 0
        &&& MessageDto::decodes(items.last(), Some(v.last()))
        &&& salvaged(items.drop_last(), v.drop_last())
    }
}

/// `v` holds the one message that `j` decodes to, or nothing.
pub open spec fn salvaged_one(j: Json, v: Seq<MessageDto>) -> bool {
    if MessageDto::decodes(j, None) {
        v.len() == 0
    } else {
        v.len() == 1 && MessageDto::decodes(j, Some(v[0]))
    }
}

/// The messages found in an object of another shape: under `messages`, under `message`, or the
/// object itself.
pub open spec fn stray_messages(o: Vec<(String, Json)>, v: Seq<MessageDto>) -> bool {
    match member_of(o@, "messages"@) {
        Some(Json::Arr(items)) => salvaged(items@, v),
        _ => match member_of(o@, "message"@) {
            Some(Json::Obj(m)) => salvaged_one(Json::Obj(m), v),
            _ => if member_of(o@, "seq"@) is Some && member_of(o@, "body"@) is Some {
                salvaged_one(Json::Obj(o), v)
            } else {
                v.len() == 0
            },
        },
    }
}

/// What a frame of another shape is taken for: a push of the messages it holds, if their group is
/// known.
pub open spec fn stray_frame(o: Vec<(String, Json)>, r: Option<ServerFrame>) -> bool {
    let named_group = match member_of(o@, "groupId"@) {
        Some(j) => str_of(j),
        None => None,
    };
    match r {
        Some(ServerFrame::Messages { group_id, messages, has_more }) => {
            &&& stray_messages(o, messages@)
            &&& messages@.len() > 0
            &&& !has_more
            &&& Some(group_id@) == (if named_group is Some {
                named_group
            } else {
                opt_text(messages@[0].group_id)
            })
        },
        Some(_) => false,
        None => exists|v: Seq<MessageDto>| #[trigger]
            stray_messages(o, v) && (v.len() == 0 || (named_group is None && v[0].group_id is None)),
    }
}

/// What a received value decodes to: a known frame, else a push in another shape.
pub open spec fn frame_is(j: Json, r: Option<ServerFrame>) -> bool {
    if ServerFrame::decodes(j, None) {
        match j {
            Json::Obj(o) => stray_frame(o, r),
            _ => r is None,
        }
    } else {
        ServerFrame::decodes(j, r)
    }
}

fn salvage(items: &Vec<Json>) -> (v: Vec<MessageDto>)
    ensures
        salvaged(items@, v@),
{
    let mut out: Vec<MessageDto> = Vec::new();
    let mut i: usize = 0;
    assert(items@.take(0) =~= Seq::empty());
    while i < items.len()
        invariant
            i <= items.len(),
            salvaged(items@.take(i as int), out@),
        decreases items.len() - i,
    {
        assert(items@.take(i + 1).drop_last() =~= items@.take(i as int));
        match MessageDto::from_json(&items[i]) {
            Some(m) => {
                let ghost before = out@;
                out.push(m);
                assert(out@.drop_last() =~= before);
            },
            None => {},
        }
        i += 1;
    }
    assert(items@.take(i as int) =~= items@);
    out
}

fn salvage_one(j: &Json) -> (v: Vec<MessageDto>)
    ensures
        salvaged_one(*j, v@),
{
    let mut out: Vec<MessageDto> = Vec::new();
    match MessageDto::from_json(j) {
        Some(m) => {
            out.push(m);
        },
        None => {},
    }
    out
}

fn salvage_stray(j: &Json, o: &Vec<(String, Json)>) -> (v: Vec<MessageDto>)
    requires
        *j == Json::Obj(*o),
    ensures
        stray_messages(*o, v@),
{
    match get(o, "messages") {
        Some(Json::Arr(items)) => salvage(items),
        _ => match get(o, "message") {
            Some(m) => match m {
                Json::Obj(_) => salvage_one(m),
                _ => if get(o, "seq").is_some() && get(o, "body").is_some() {
                    salvage_one(j)
                } else {
                    Vec::new()
                },
            },
            None => if get(o, "seq").is_some() && get(o, "body").is_some() {
                salvage_one(j)
            } else {
                Vec::new()
            },
        },
    }
}

/// Decode a server frame leniently: a value that is no known frame but still carries messages is
/// taken as a message push; anything else is ignored.
pub fn decode_frame(j: &Json) -> (r: Option<ServerFrame>)
    ensures
        frame_is(*j, r),
{
    match ServerFrame::from_json(j) {
        Some(f) => {
            return Some(f);
        },
        None => {},
    }
    let o = match j {
        Json::Obj(o) => o,
        _ => {
            return None;
        },
    };
    let list = salvage_stray(j, o);
    if list.len() == 0 {
        assert(stray_messages(*o, list@));
        return None;
    }
    let group_id = match get(o, "groupId") {
        Some(Json::Str(s)) => Some(s.clone()),
        _ => list[0].group_id.clone(),
    };
    match group_id {
        Some(group_id) => Some(
            ServerFrame::Messages { group_id, messages: list, has_more: false },
        ),
        None => {
            assert(stray_messages(*o, list@));
            None
        },
    }
}

/// Typed view of a `group` frame.
#[derive(Debug)]
pub enum GroupEvent {
    /// Someone joined; the full member only where the server embeds it.
    MemberAdded {
        group_id: String,
        user_id: String,
        role: Option<Role>,
        member: Option<MemberDto>,
    },
    /// Someone left or was removed.
    MemberRemoved { group_id: String, user_id: String, reason: Option<String> },
    RoleChanged { group_id: String, user_id: String, role: Role },
    GroupUpdated {
        group_id: String,
        name: Option<String>,
        who_can_post: Option<Permission>,
        who_can_add_members: Option<Permission>,
    },
    GroupDeleted { group_id: String },
    /// An event of another kind.
    Unknown { event: String, group_id: Option<String>, payload: Vec<(String, Json)> },
}

/// Wire name of the event that a member joined.
pub const MEMBER_ADDED: &'static str = "member-added";

/// Wire name of the event that a member left.
pub const MEMBER_REMOVED: &'static str = "member-removed";

/// Wire name of the event that a role changed.
pub const ROLE_CHANGED: &'static str = "role-changed";

/// Wire name of the event that a group changed.
pub const GROUP_UPDATED: &'static str = "group-updated";

/// Wire name of the event that a group was deleted.
pub const GROUP_DELETED: &'static str = "group-deleted";

/// The wire name of an event.
pub open spec fn event_kind(e: GroupEvent) -> Seq<char> {
    match e {
        GroupEvent::MemberAdded { .. } => MEMBER_ADDED@,
        GroupEvent::MemberRemoved { .. } => MEMBER_REMOVED@,
        GroupEvent::RoleChanged { .. } => ROLE_CHANGED@,
        GroupEvent::GroupUpdated { .. } => GROUP_UPDATED@,
        GroupEvent::GroupDeleted { .. } => GROUP_DELETED@,
        GroupEvent::Unknown { event, .. } => event@,
    }
}

/// The group of an event.
pub open spec fn event_group(e: GroupEvent) -> Option<String> {
    match e {
        GroupEvent::MemberAdded { group_id, .. } => Some(group_id),
        GroupEvent::MemberRemoved { group_id, .. } => Some(group_id),
        GroupEvent::RoleChanged { group_id, .. } => Some(group_id),
        GroupEvent::GroupUpdated { group_id, .. } => Some(group_id),
        GroupEvent::GroupDeleted { group_id } => Some(group_id),
        GroupEvent::Unknown { group_id, .. } => group_id,
    }
}

/// A field of a group event: on the frame itself, else inside a nested `payload`.
pub open spec fn event_field(p: Seq<(String, Json)>, name: Seq<char>) -> Option<Json> {
    match member_of(p, name) {
        Some(j) => Some(j),
        None => match member_of(p, "payload"@) {
            Some(Json::Obj(inner)) => member_of(inner@, name),
            _ => None,
        },
    }
}

/// A text field of a group event.
pub open spec fn event_text(p: Seq<(String, Json)>, name: Seq<char>) -> Option<Seq<char>> {
    match event_field(p, name) {
        Some(j) => str_of(j),
        None => None,
    }
}

/// A role field of a group event.
pub open spec fn event_role(p: Seq<(String, Json)>) -> Option<Role> {
    match event_text(p, "role"@) {
        Some(s) => role_of(s),
        None => None,
    }
}

/// The member a group event embeds.
pub open spec fn event_member(p: Seq<(String, Json)>, m: Option<MemberDto>) -> bool {
    match event_field(p, "member"@) {
        Some(j) => MemberDto::decodes(j, m),
        None => m is None,
    }
}

/// The settings a group event nests; none where they are missing or malformed.
pub open spec fn event_settings(p: Seq<(String, Json)>) -> (Option<Seq<char>>, Option<Seq<char>>) {
    match event_field(p, "settings"@) {
        Some(j) => match settings_in(Ok(Some(j))) {
            Some(s) => s,
            None => (None, None),
        },
        None => (None, None),
    }
}

/// The first present of two texts.
pub open spec fn first_text(a: Option<Seq<char>>, b: Option<Seq<char>>) -> Option<Seq<char>> {
    if a is Some {
        a
    } else {
        b
    }
}

/// The members of a nested payload that the frame itself does not have.
pub open spec fn nested_members(
    outer: Seq<(String, Json)>,
    inner: Seq<(String, Json)>,
) -> Seq<(String, Json)> {
    inner.filter(|m: (String, Json)| member_of(outer, m.0@) is None)
}

/// The fields of a group event: those of the frame without `payload`, then those of the payload
/// that the frame does not have.
pub open spec fn event_fields(p: Seq<(String, Json)>) -> Seq<(String, Json)> {
    let outer = unknown(p, seq!["payload"]);
    match member_of(p, "payload"@) {
        Some(Json::Obj(inner)) => outer + nested_members(outer, inner@),
        _ => outer,
    }
}

/// `b` has the same members as `a`, in the same order.
pub open spec fn same_members(a: Seq<(String, Json)>, b: Seq<(String, Json)>) -> bool {
    &&& a.len() == b.len()
    &&& forall|i: int|
        0 <= i < b.len() ==> (#[trigger] b[i]).0@ == a[i].0@ && same_json(a[i].1, b[i].1)
}

/// An event that is kept as it came.
pub open spec fn unknown_is(event: Seq<char>, p: Seq<(String, Json)>, r: GroupEvent) -> bool {
    r matches GroupEvent::Unknown { event: e, group_id, payload } && e@ == event && opt_text(group_id)
        == event_text(p, "groupId"@) && same_members(event_fields(p), payload@)
}

/// What a group event parses to.
pub open spec fn event_is(event: Seq<char>, p: Seq<(String, Json)>, r: GroupEvent) -> bool {
    let group = event_text(p, "groupId"@);
    let user = event_text(p, "userId"@);
    if group is None {
        unknown_is(event, p, r)
    } else if event == MEMBER_ADDED@ {
        ||| r matches GroupEvent::MemberAdded { group_id, user_id, role, member } && group_id@
            == group->0 && event_member(p, member) && first_text(
            user,
            match member {
                Some(m) => Some(m.user_id@),
                None => None,
            },
        ) == Some(user_id@) && role == (match event_role(p) {
            Some(x) => Some(x),
            None => match member {
                Some(m) => Some(m.role),
                None => None,
            },
        })
        ||| unknown_is(event, p, r) && user is None && event_member(p, None)
    } else if event == MEMBER_REMOVED@ {
        match user {
            Some(u) => r matches GroupEvent::MemberRemoved { group_id, user_id, reason } && group_id@
                == group->0 && user_id@ == u && opt_text(reason) == event_text(p, "reason"@),
            None => unknown_is(event, p, r),
        }
    } else if event == ROLE_CHANGED@ {
        match (user, event_role(p)) {
            (Some(u), Some(x)) => r matches GroupEvent::RoleChanged { group_id, user_id, role }
                && group_id@ == group->0 && user_id@ == u && role == x,
            _ => unknown_is(event, p, r),
        }
    } else if event == GROUP_UPDATED@ {
        r matches GroupEvent::GroupUpdated { group_id, name, who_can_post, who_can_add_members }
            && group_id@ == group->0 && opt_text(name) == event_text(p, "name"@) && perm_text(
            who_can_post,
        ) == first_text(event_settings(p).0, event_text(p, "whoCanPost"@)) && perm_text(
            who_can_add_members,
        ) == first_text(event_settings(p).1, event_text(p, "whoCanAddMembers"@))
    } else if event == GROUP_DELETED@ {
        r matches GroupEvent::GroupDeleted { group_id } && group_id@ == group->0
    } else {
        unknown_is(event, p, r)
    }
}

fn get_field<'a>(p: &'a Vec<(String, Json)>, name: &str) -> (r: Option<&'a Json>)
    ensures
        r == (match event_field(p@, name@) {
            Some(j) => Some(&j),
            None => None,
        }),
{
    match get(p, name) {
        Some(j) => Some(j),
        None => match get(p, "payload") {
            Some(Json::Obj(inner)) => get(inner, name),
            _ => None,
        },
    }
}

fn get_text(p: &Vec<(String, Json)>, name: &str) -> (r: Option<String>)
    ensures
        opt_text(r) == event_text(p@, name@),
{
    match get_field(p, name) {
        Some(Json::Str(s)) => Some(s.clone()),
        _ => None,
    }
}

fn get_role(p: &Vec<(String, Json)>) -> (r: Option<Role>)
    ensures
        r == event_role(p@),
{
    match get_text(p, "role") {
        Some(s) => Role::parse(s.as_str()),
        None => None,
    }
}

/// Member lookups see only names and values.
proof fn lemma_same_lookup(a: Seq<(String, Json)>, b: Seq<(String, Json)>, name: Seq<char>, from: int)
    requires
        same_members(a, b),
        0 <= from,
    ensures
        member_pos(a, name, from) == member_pos(b, name, from),
    decreases a.len() - from,
{
    if from < a.len() {
        assert(b[from].0@ == a[from].0@);
        lemma_same_lookup(a, b, name, from + 1);
    }
}

fn copy_nested(outer: &Vec<(String, Json)>, inner: &Vec<(String, Json)>) -> (v: Vec<(String, Json)>)
    ensures
        same_members(nested_members(outer@, inner@), v@),
{
    let mut out: Vec<(String, Json)> = Vec::new();
    let mut i: usize = 0;
    assert(nested_members(outer@, inner@.take(0)) =~= Seq::empty()) by {
        reveal(Seq::filter);
    }
    while i < inner.len()
        invariant
            i <= inner.len(),
            same_members(nested_members(outer@, inner@.take(i as int)), out@),
        decreases inner.len() - i,
    {
        let ghost before = nested_members(outer@, inner@.take(i as int));
        let ghost after = nested_members(outer@, inner@.take(i + 1));
        proof {
            let m = inner@[i as int];
            assert(inner@.take(i + 1).drop_last() =~= inner@.take(i as int));
            reveal(Seq::filter);
            assert(after == if member_of(outer@, m.0@) is None {
                before.push(m)
            } else {
                before
            });
        }
        if get(outer, inner[i].0.as_str()).is_none() {
            let ghost old_out = out@;
            out.push((inner[i].0.clone(), copy_json(&inner[i].1)));
            assert forall|k: int| 0 <= k < out@.len() implies (#[trigger] out@[k]).0@ == after[k].0@
                && same_json(after[k].1, out@[k].1) by {
                if k < old_out.len() {
                    assert(out@[k] == old_out[k]);
                }
            }
        }
        i += 1;
    }
    assert(inner@.take(i as int) =~= inner@);
    out
}

fn unknown_event(event: &str, p: &Vec<(String, Json)>) -> (r: GroupEvent)
    ensures
        unknown_is(event@, p@, r),
{
    let outer: [&'static str; 1] = ["payload"];
    assert(outer@ =~= seq!["payload"]);
    let mut payload = copy_unknown(p, outer.as_slice());
    let ghost first = payload@;
    let ghost kept = unknown(p@, seq!["payload"]);
    assert(same_members(kept, first));
    match get(p, "payload") {
        Some(Json::Obj(inner)) => {
            let mut rest = copy_nested(&payload, inner);
            let ghost second = rest@;
            proof {
                assert forall|m: (String, Json)| #[trigger]
                    member_of(first, m.0@) is None == member_of(kept, m.0@) is None by {
                    lemma_same_lookup(kept, first, m.0@, 0);
                }
                assert((|m: (String, Json)| member_of(first, m.0@) is None) =~= (|m: (String, Json)|
                    member_of(kept, m.0@) is None));
                assert(nested_members(first, inner@) == nested_members(kept, inner@));
            }
            payload.append(&mut rest);
            assert(payload@ =~= first + second);
            assert forall|k: int| 0 <= k < payload@.len() implies (#[trigger] payload@[k]).0@
                == event_fields(p@)[k].0@ && same_json(event_fields(p@)[k].1, payload@[k].1) by {
                if k < first.len() {
                    assert(payload@[k] == first[k]);
                } else {
                    assert(payload@[k] == second[k - first.len()]);
                }
            }
        },
        _ => {},
    }
    GroupEvent::Unknown { event: event.to_owned(), group_id: get_text(p, "groupId"), payload }
}

fn perm_or(a: Option<Permission>, b: Option<String>) -> (r: Option<Permission>)
    ensures
        perm_text(r) == first_text(perm_text(a), opt_text(b)),
{
    match a {
        Some(p) => Some(p),
        None => match b {
            Some(s) => Some(Permission(s)),
            None => None,
        },
    }
}

impl GroupEvent {
    /// The wire name of the event.
    pub fn kind(&self) -> (r: &str)
        ensures
            r@ == event_kind(*self),
    {
        match self {
            GroupEvent::MemberAdded { .. } => MEMBER_ADDED,
            GroupEvent::MemberRemoved { .. } => MEMBER_REMOVED,
            GroupEvent::RoleChanged { .. } => ROLE_CHANGED,
            GroupEvent::GroupUpdated { .. } => GROUP_UPDATED,
            GroupEvent::GroupDeleted { .. } => GROUP_DELETED,
            GroupEvent::Unknown { event, .. } => event.as_str(),
        }
    }

    /// The group of the event.
    pub fn group_id(&self) -> (r: Option<&String>)
        ensures
            r == (match event_group(*self) {
                Some(g) => Some(&g),
                None => None,
            }),
    {
        match self {
            GroupEvent::MemberAdded { group_id, .. }
            | GroupEvent::MemberRemoved { group_id, .. }
            | GroupEvent::RoleChanged { group_id, .. }
            | GroupEvent::GroupUpdated { group_id, .. }
            | GroupEvent::GroupDeleted { group_id } => Some(group_id),
            GroupEvent::Unknown { group_id, .. } => group_id.as_ref(),
        }
    }

    /// Read an event from its name and its fields; fields nested under `payload` count as well.
    pub fn parse(event: &str, payload: &Vec<(String, Json)>) -> (r: Self)
        ensures
            event_is(event@, payload@, r),
    {
        let group_id = match get_text(payload, "groupId") {
            Some(g) => g,
            None => {
                return unknown_event(event, payload);
            },
        };
        if same(event, MEMBER_ADDED) {
            let member = match get_field(payload, "member") {
                Some(j) => MemberDto::from_json(j),
                None => None,
            };
            let user = match get_text(payload, "userId") {
                Some(u) => Some(u),
                None => match &member {
                    Some(m) => Some(m.user_id.clone()),
                    None => None,
                },
            };
            let role = match get_role(payload) {
                Some(x) => Some(x),
                None => match &member {
                    Some(m) => Some(m.role),
                    None => None,
                },
            };
            match user {
                Some(user_id) => GroupEvent::MemberAdded { group_id, user_id, role, member },
                None => unknown_event(event, payload),
            }
        } else if same(event, MEMBER_REMOVED) {
            match get_text(payload, "userId") {
                Some(user_id) => GroupEvent::MemberRemoved {
                    group_id,
                    user_id,
                    reason: get_text(payload, "reason"),
                },
                None => unknown_event(event, payload),
            }
        } else if same(event, ROLE_CHANGED) {
            match (get_text(payload, "userId"), get_role(payload)) {
                (Some(user_id), Some(role)) => GroupEvent::RoleChanged { group_id, user_id, role },
                _ => unknown_event(event, payload),
            }
        } else if same(event, GROUP_UPDATED) {
            let settings = match get_field(payload, "settings") {
                Some(j) => match read_settings(Ok(Some(j))) {
                    Some(s) => s,
                    None => GroupSettings { who_can_post: None, who_can_add_members: None },
                },
                None => GroupSettings { who_can_post: None, who_can_add_members: None },
            };
            GroupEvent::GroupUpdated {
                group_id,
                name: get_text(payload, "name"),
                who_can_post: perm_or(settings.who_can_post, get_text(payload, "whoCanPost")),
                who_can_add_members: perm_or(
                    settings.who_can_add_members,
                    get_text(payload, "whoCanAddMembers"),
                ),
            }
        } else if same(event, GROUP_DELETED) {
            GroupEvent::GroupDeleted { group_id }
        } else {
            unknown_event(event, payload)
        }
    }
}

} // verus!
