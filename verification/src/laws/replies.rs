//! What is read from the JSON values that the server and the socket send.

use crate::json::{member_of, Json};
use crate::models::{
    EnrollmentChallenge, GroupDto, GroupKind, GroupLimits, MemberDto, MessageDto, Role, Session,
};
use crate::text::ascii_lower;
use crate::wire::Wire;
use crate::ws::{decode_frame, GroupEvent, ServerFrame};
use vstd::prelude::*;

verus! {

/// An object has no member of this name.
pub open spec fn lacks(o: Seq<(String, Json)>, name: Seq<char>) -> bool {
    member_of(o, name) is None
}

/// An object has a text under a name.
pub open spec fn says(o: Seq<(String, Json)>, name: Seq<char>, text: Seq<char>) -> bool {
    member_of(o, name) matches Some(Json::Str(s)) && s@ == text
}

/// An object has a number under a name.
pub open spec fn counts(o: Seq<(String, Json)>, name: Seq<char>, n: i64) -> bool {
    member_of(o, name) == Some(Json::Int(n))
}

/// A message has an id and a place; what else it says is taken over, and what it leaves out is
/// empty.
pub proof fn law_message_read(j: &Json, o: Vec<(String, Json)>, r: Option<MessageDto>, id: Seq<char>, t: Seq<char>, n: i64)
    requires
        call_ensures(MessageDto::from_json, (j,), r),
        *j == Json::Obj(o),
    ensures
        lacks(o@, "id"@) ==> r is None,
        lacks(o@, "seq"@) ==> r is None,
        r matches Some(m) ==> {
            &&& says(o@, "id"@, id) ==> m.id@ == id
            &&& counts(o@, "seq"@, n) ==> m.seq == n
            &&& says(o@, "groupId"@, t) ==> (m.group_id matches Some(g) && g@ == t)
            &&& lacks(o@, "groupId"@) ==> m.group_id is None
            &&& says(o@, "senderId"@, t) ==> m.sender_id@ == t
            &&& lacks(o@, "senderId"@) ==> m.sender_id@.len() == 0
            &&& says(o@, "body"@, t) ==> m.body@ == t
            &&& lacks(o@, "body"@) ==> m.body@.len() == 0
            &&& says(o@, "clientMessageId"@, t) ==> (m.client_message_id matches Some(c) && c@ == t)
            &&& lacks(o@, "clientMessageId"@) ==> m.client_message_id is None
            &&& counts(o@, "createdAt"@, n) ==> m.created_at == Some(n)
            &&& lacks(o@, "createdAt"@) ==> m.created_at is None
        },
        says(o@, "id"@, id) && counts(o@, "seq"@, n) && lacks(o@, "groupId"@) && lacks(
            o@,
            "senderId"@,
        ) && lacks(o@, "body"@) && lacks(o@, "clientMessageId"@) && lacks(o@, "createdAt"@) ==> r is Some,
{
}

/// A member has an id under either name; the role is that of a member unless another one is named.
pub proof fn law_member_read(j: &Json, o: Vec<(String, Json)>, r: Option<MemberDto>, t: Seq<char>, n: i64)
    requires
        call_ensures(MemberDto::from_json, (j,), r),
        *j == Json::Obj(o),
    ensures
        lacks(o@, "userId"@) && lacks(o@, "id"@) ==> r is None,
        !lacks(o@, "userId"@) && !lacks(o@, "id"@) ==> r is None,
        r matches Some(m) ==> {
            &&& says(o@, "userId"@, t) ==> m.user_id@ == t
            &&& says(o@, "id"@, t) ==> m.user_id@ == t
            &&& says(o@, "displayName"@, t) ==> m.display_name@ == t
            &&& says(o@, "phoneE164"@, t) ==> (m.phone_e164 matches Some(p) && p@ == t)
            &&& says(o@, "phone"@, t) ==> (m.phone_e164 matches Some(p) && p@ == t)
            &&& lacks(o@, "role"@) ==> m.role == Role::Member
            &&& says(o@, "role"@, t) && ascii_lower(t) == "admin"@ ==> m.role == Role::Admin
            &&& says(o@, "role"@, t) && ascii_lower(t) == "member"@ ==> m.role == Role::Member
            &&& counts(o@, "joinedAt"@, n) ==> m.joined_at == Some(n)
        },
{
    reveal_strlit("admin");
    reveal_strlit("member");
    assert("admin"@.len() == 5 && "member"@.len() == 6);
}

/// A group has an id; its rights are those in its settings, else those beside them, else everyone
/// posts and admins add members.
pub proof fn law_group_read(j: &Json, o: Vec<(String, Json)>, r: Option<GroupDto>, t: Seq<char>, n: i64)
    requires
        call_ensures(GroupDto::from_json, (j,), r),
        *j == Json::Obj(o),
    ensures
        lacks(o@, "id"@) ==> r is None,
        r matches Some(g) ==> {
            &&& says(o@, "id"@, t) ==> g.id@ == t
            &&& says(o@, "name"@, t) ==> g.name@ == t
            &&& says(o@, "category"@, t) ==> g.category@ == t
            &&& lacks(o@, "kind"@) ==> g.kind == GroupKind::Unknown
            &&& says(o@, "kind"@, t) && ascii_lower(t) == "system"@ ==> g.kind == GroupKind::System
            &&& says(o@, "kind"@, t) && ascii_lower(t) == "standard"@ ==> g.kind
                == GroupKind::Standard
            &&& says(o@, "myRole"@, t) && ascii_lower(t) == "admin"@ ==> g.my_role == Role::Admin
            &&& says(o@, "role"@, t) && ascii_lower(t) == "admin"@ ==> g.my_role == Role::Admin
            &&& lacks(o@, "myRole"@) && lacks(o@, "role"@) ==> g.my_role == Role::Member
            &&& counts(o@, "memberCount"@, n) ==> g.member_count == n
            &&& lacks(o@, "memberCount"@) ==> g.member_count == 0
            &&& lacks(o@, "muted"@) ==> !g.muted
            &&& member_of(o@, "muted"@) == Some(Json::Bool(true)) ==> g.muted
            &&& counts(o@, "lastReadSeq"@, n) ==> g.last_read_seq == Some(n)
            &&& counts(o@, "readSeq"@, n) ==> g.last_read_seq == Some(n)
            &&& counts(o@, "unreadCount"@, n) ==> g.unread_count == Some(n)
            &&& counts(o@, "latestSeq"@, n) ==> g.latest_seq == Some(n)
            &&& counts(o@, "lastSeq"@, n) ==> g.latest_seq == Some(n)
            &&& counts(o@, "maxSeq"@, n) ==> g.latest_seq == Some(n)
            &&& lacks(o@, "settings"@) && lacks(o@, "whoCanPost"@) ==> g.who_can_post.0@
                == "everyone"@
            &&& lacks(o@, "settings"@) && says(o@, "whoCanPost"@, t) ==> g.who_can_post.0@ == t
            &&& lacks(o@, "settings"@) && lacks(o@, "whoCanAddMembers"@)
                ==> g.who_can_add_members.0@ == "admins"@
            &&& lacks(o@, "settings"@) && says(o@, "whoCanAddMembers"@, t)
                ==> g.who_can_add_members.0@ == t
            &&& lacks(o@, "limits"@) ==> g.limits is None
        },
{
    reveal_strlit("admin");
    reveal_strlit("member");
    reveal_strlit("standard");
    reveal_strlit("system");
    assert("admin"@.len() == 5 && "member"@.len() == 6);
    assert("standard"@.len() == 8 && "system"@.len() == 6);
}

/// The limits of a group, each under its own name.
pub proof fn law_limits_read(j: &Json, o: Vec<(String, Json)>, r: Option<GroupLimits>, n: i64)
    requires
        call_ensures(GroupLimits::from_json, (j,), r),
        *j == Json::Obj(o),
        0 <= n <= 0xffff_ffff,
    ensures
        r matches Some(l) ==> {
            &&& counts(o@, "memberCap"@, n) ==> l.member_cap == Some(n as u32)
            &&& counts(o@, "messageMaxLength"@, n) ==> l.message_max_length == Some(n as u32)
            &&& counts(o@, "minMembersToPost"@, n) ==> l.min_members_to_post == Some(n as u32)
            &&& lacks(o@, "memberCap"@) ==> l.member_cap is None
            &&& lacks(o@, "messageMaxLength"@) ==> l.message_max_length is None
            &&& lacks(o@, "minMembersToPost"@) ==> l.min_members_to_post is None
        },
{
}

/// A challenge has an id, under any of three names; its times are read in the units that they are
/// named for.
pub proof fn law_challenge_read(j: &Json, o: Vec<(String, Json)>, r: Option<EnrollmentChallenge>, t: Seq<char>, n: i64)
    requires
        call_ensures(EnrollmentChallenge::from_json, (j,), r),
        *j == Json::Obj(o),
        n >= 0,
    ensures
        lacks(o@, "challengeId"@) && lacks(o@, "id"@) && lacks(o@, "challenge"@) ==> r is None,
        r matches Some(c) ==> {
            &&& says(o@, "challengeId"@, t) ==> c.challenge_id@ == t
            &&& says(o@, "id"@, t) ==> c.challenge_id@ == t
            &&& says(o@, "challenge"@, t) ==> c.challenge_id@ == t
            &&& counts(o@, "expiresAt"@, n) ==> c.expires_at_epoch_ms == Some(n)
            &&& counts(o@, "expiresAtEpochMs"@, n) ==> c.expires_at_epoch_ms == Some(n)
            &&& counts(o@, "expiresInSeconds"@, n) ==> c.expires_in_seconds == Some(n as u64)
            &&& counts(o@, "ttlSeconds"@, n) ==> c.expires_in_seconds == Some(n as u64)
            &&& counts(o@, "resendAfterSeconds"@, n) ==> c.resend_after_seconds == Some(n as u64)
            &&& counts(o@, "resendAfter"@, n) ==> c.resend_after_seconds == Some(n as u64)
        },
{
}

/// A session has a token.
pub proof fn law_session_read(j: &Json, o: Vec<(String, Json)>, r: Option<Session>, t: Seq<char>)
    requires
        call_ensures(Session::from_json, (j,), r),
        *j == Json::Obj(o),
    ensures
        lacks(o@, "token"@) ==> r is None,
        r matches Some(s) ==> (says(o@, "token"@, t) ==> s.token@ == t),
{
}

/// A frame is what its type says, with the members that its type has.
pub proof fn law_frames_read(j: &Json, o: Vec<(String, Json)>, r: Option<ServerFrame>, t: Seq<char>, n: i64)
    requires
        call_ensures(decode_frame, (j,), r),
        *j == Json::Obj(o),
    ensures
        says(o@, "type"@, "pong"@) ==> r == Some(ServerFrame::Pong),
        says(o@, "type"@, "read"@) && says(o@, "groupId"@, t) && counts(o@, "readSeq"@, n) ==> (
        r matches Some(ServerFrame::Read { group_id, read_seq }) && group_id@ == t && read_seq == n),
        says(o@, "type"@, "error"@) && says(o@, "code"@, t) && lacks(o@, "detail"@) ==> (
        r matches Some(ServerFrame::Error { code, detail }) && code@ == t && detail is None),
        says(o@, "type"@, "group"@) && says(o@, "event"@, t) ==> (r matches Some(
            ServerFrame::Group { event, .. },
        ) && event@ == t),
        says(o@, "type"@, "hello"@) && counts(o@, "protocolVersion"@, n) && lacks(o@, "version"@)
            && 0 <= n <= 100 && lacks(o@, "userId"@) && lacks(o@, "deviceId"@) && lacks(
            o@,
            "limits"@,
        ) ==> (r matches Some(ServerFrame::Hello { protocol_version, .. }) && protocol_version == n),
        says(o@, "type"@, "messages"@) && says(o@, "groupId"@, t) && lacks(o@, "messages"@) && lacks(
            o@,
            "hasMore"@,
        ) ==> (r matches Some(ServerFrame::Messages { group_id, messages, has_more }) && group_id@
            == t && messages@.len() == 0 && !has_more),
{
    reveal_strlit("hello");
    reveal_strlit("pong");
    reveal_strlit("messages");
    reveal_strlit("group");
    reveal_strlit("read");
    reveal_strlit("error");
    assert("hello"@.len() == 5 && "hello"@[0] == 'h');
    assert("group"@.len() == 5 && "group"@[0] == 'g');
    assert("error"@.len() == 5 && "error"@[0] == 'e');
    assert("pong"@.len() == 4 && "pong"@[0] == 'p');
    assert("read"@.len() == 4 && "read"@[0] == 'r');
    assert("messages"@.len() == 8);
}

/// A group event tells which group it is about, and of members who; one that names no group, and
/// one of another kind, is kept as it came.
pub proof fn law_group_events_read(event: &str, o: &Vec<(String, Json)>, r: GroupEvent, g: Seq<char>, u: Seq<char>, t: Seq<char>)
    requires
        call_ensures(GroupEvent::parse, (event, o), r),
        lacks(o@, "payload"@),
    ensures
        lacks(o@, "groupId"@) ==> r is Unknown,
        says(o@, "groupId"@, g) && event@ == "group-deleted"@ ==> (r matches GroupEvent::GroupDeleted {
            group_id,
        } && group_id@ == g),
        says(o@, "groupId"@, g) && says(o@, "userId"@, u) && event@ == "member-removed"@ ==> (
        r matches GroupEvent::MemberRemoved { group_id, user_id, reason } && group_id@ == g && user_id@
            == u && (says(o@, "reason"@, t) ==> (reason matches Some(x) && x@ == t)) && (lacks(
            o@,
            "reason"@,
        ) ==> reason is None)),
        says(o@, "groupId"@, g) && says(o@, "userId"@, u) && event@ == "role-changed"@ && says(
            o@,
            "role"@,
            t,
        ) && ascii_lower(t) == "admin"@ ==> (r matches GroupEvent::RoleChanged {
            group_id,
            user_id,
            role,
        } && group_id@ == g && user_id@ == u && role == Role::Admin),
        says(o@, "groupId"@, g) && says(o@, "userId"@, u) && event@ == "role-changed"@ && says(
            o@,
            "role"@,
            t,
        ) && ascii_lower(t) == "member"@ ==> (r matches GroupEvent::RoleChanged {
            group_id,
            user_id,
            role,
        } && group_id@ == g && user_id@ == u && role == Role::Member),
        says(o@, "groupId"@, g) && says(o@, "userId"@, u) && event@ == "member-added"@ && lacks(
            o@,
            "member"@,
        ) && lacks(o@, "role"@) ==> (r matches GroupEvent::MemberAdded {
            group_id,
            user_id,
            role,
            member,
        } && group_id@ == g && user_id@ == u && role is None && member is None),
        says(o@, "groupId"@, g) && event@ == "group-updated"@ ==> (
        r matches GroupEvent::GroupUpdated { group_id, name, who_can_post, who_can_add_members }
            && group_id@ == g && (says(o@, "name"@, t) ==> (name matches Some(x) && x@ == t)) && (
        lacks(o@, "name"@) ==> name is None) && (lacks(o@, "settings"@) && says(
            o@,
            "whoCanPost"@,
            t,
        ) ==> (who_can_post matches Some(p) && p.0@ == t)) && (lacks(o@, "settings"@) && lacks(
            o@,
            "whoCanPost"@,
        ) ==> who_can_post is None) && (lacks(o@, "settings"@) && says(o@, "whoCanAddMembers"@, t)
            ==> (who_can_add_members matches Some(p) && p.0@ == t))),
{
    reveal_strlit("member-added");
    reveal_strlit("member-removed");
    reveal_strlit("role-changed");
    reveal_strlit("group-updated");
    reveal_strlit("group-deleted");
    reveal_strlit("admin");
    reveal_strlit("member");
    assert("admin"@.len() == 5 && "member"@.len() == 6);
    assert("member-added"@.len() == 12 && "member-added"@[0] == 'm');
    assert("role-changed"@.len() == 12 && "role-changed"@[0] == 'r');
    assert("member-removed"@.len() == 14);
    assert("group-updated"@.len() == 13 && "group-updated"@[6] == 'u');
    assert("group-deleted"@.len() == 13 && "group-deleted"@[6] == 'd');
}

/// The names of events, and their groups.
pub proof fn law_event_names(e: &GroupEvent, kind: &str, g: Option<&String>)
    requires
        call_ensures(GroupEvent::kind, (e,), kind),
        call_ensures(GroupEvent::group_id, (e,), g),
    ensures
        *e matches GroupEvent::MemberAdded { group_id, .. } ==> kind@ == "member-added"@ && g == Some(
            &group_id,
        ),
        *e matches GroupEvent::MemberRemoved { group_id, .. } ==> kind@ == "member-removed"@ && g
            == Some(&group_id),
        *e matches GroupEvent::RoleChanged { group_id, .. } ==> kind@ == "role-changed"@ && g
            == Some(&group_id),
        *e matches GroupEvent::GroupUpdated { group_id, .. } ==> kind@ == "group-updated"@ && g
            == Some(&group_id),
        *e matches GroupEvent::GroupDeleted { group_id } ==> kind@ == "group-deleted"@ && g == Some(
            &group_id,
        ),
{
}

} // verus!
