//! Local persistence: the rows of the five tables and the operations on them.

pub mod groups;
pub mod local;
pub mod members;
pub mod messages;
pub mod outbox;
pub mod schema;

use crate::models::{permits, GroupDto, GroupKind, MemberDto, MessageDto, Permission, Role};
use crate::text::same;
use vstd::prelude::*;

pub use crate::store::local::LocalStore;
pub use crate::store::messages::StoreBatchOutcome;

verus! {

/// Row of the group table.
#[derive(Debug)]
pub struct GroupEntity {
    pub id: String,
    pub name: String,
    pub category: String,
    pub kind: GroupKind,
    pub who_can_post: Permission,
    pub who_can_add_members: Permission,
    pub created_by: Option<String>,
    /// Epoch milliseconds.
    pub created_at: i64,
    pub my_role: Role,
    pub member_count: i64,
    pub muted: bool,
    pub last_activity_at: Option<i64>,
    pub last_message_preview: Option<String>,
    pub is_deleted: bool,
    pub last_read_seq: i64,
}

impl Clone for GroupEntity {
    fn clone(&self) -> (r: Self)
        ensures
            r == *self,
    {
        GroupEntity {
            id: self.id.clone(),
            name: self.name.clone(),
            category: self.category.clone(),
            kind: self.kind,
            who_can_post: self.who_can_post.clone(),
            who_can_add_members: self.who_can_add_members.clone(),
            created_by: self.created_by.clone(),
            created_at: self.created_at,
            my_role: self.my_role,
            member_count: self.member_count,
            muted: self.muted,
            last_activity_at: self.last_activity_at,
            last_message_preview: self.last_message_preview.clone(),
            is_deleted: self.is_deleted,
            last_read_seq: self.last_read_seq,
        }
    }
}

/// The signed-in member may post in the group.
pub open spec fn may_post(g: GroupEntity) -> bool {
    g.kind != GroupKind::System && permits(g.who_can_post.0@, g.my_role)
}

/// The signed-in member may add members to the group.
pub open spec fn may_add_members(g: GroupEntity) -> bool {
    permits(g.who_can_add_members.0@, g.my_role)
}

/// The row for a group the server described.
pub open spec fn group_row(g: GroupDto, now_ms: i64) -> GroupEntity {
    GroupEntity {
        id: g.id,
        name: g.name,
        category: g.category,
        kind: g.kind,
        who_can_post: g.who_can_post,
        who_can_add_members: g.who_can_add_members,
        created_by: g.created_by,
        created_at: or_i64(g.created_at, now_ms),
        my_role: g.my_role,
        member_count: g.member_count,
        muted: g.muted,
        last_activity_at: g.last_activity_at,
        last_message_preview: g.last_message_preview,
        is_deleted: false,
        last_read_seq: or_i64(g.last_read_seq, 0),
    }
}

impl GroupEntity {
    pub fn is_system(&self) -> (r: bool)
        ensures
            r == (self.kind == GroupKind::System),
    {
        self.kind == GroupKind::System
    }

    /// Whether the signed-in member may post here; nobody posts in a system thread.
    pub fn can_post(&self) -> (r: bool)
        ensures
            r == may_post(*self),
    {
        !self.is_system() && self.who_can_post.allows(self.my_role)
    }

    /// Whether the signed-in member may add members.
    pub fn can_add_members(&self) -> (r: bool)
        ensures
            r == may_add_members(*self),
    {
        self.who_can_add_members.allows(self.my_role)
    }

    pub fn is_admin(&self) -> (r: bool)
        ensures
            r == (self.my_role == Role::Admin),
    {
        self.my_role == Role::Admin
    }

    /// The row for a group the server described; `now_ms` stands in for a missing creation time.
    pub fn from_dto(g: GroupDto, now_ms: i64) -> (r: Self)
        ensures
            r == group_row(g, now_ms),
    {
        GroupEntity {
            id: g.id,
            name: g.name,
            category: g.category,
            kind: g.kind,
            who_can_post: g.who_can_post,
            who_can_add_members: g.who_can_add_members,
            created_by: g.created_by,
            created_at: value_or(g.created_at, now_ms),
            my_role: g.my_role,
            member_count: g.member_count,
            muted: g.muted,
            last_activity_at: g.last_activity_at,
            last_message_preview: g.last_message_preview,
            is_deleted: false,
            last_read_seq: value_or(g.last_read_seq, 0),
        }
    }
}

/// Admins may post everywhere but in system threads, where nobody may.
pub proof fn law_posting_rights(g: GroupEntity)
    ensures
        g.kind == GroupKind::System ==> !may_post(g),
        g.kind != GroupKind::System && g.my_role == Role::Admin ==> may_post(g),
        g.my_role == Role::Admin ==> may_add_members(g),
{
}

/// `v`, or `d` where there is none.
pub open spec fn or_i64(v: Option<i64>, d: i64) -> i64 {
    match v {
        Some(n) => n,
        None => d,
    }
}

/// `or_i64` as a function.
pub fn value_or(v: Option<i64>, d: i64) -> (r: i64)
    ensures
        r == or_i64(v, d),
{
    match v {
        Some(n) => n,
        None => d,
    }
}

/// A group with its unread count.
#[derive(Debug)]
pub struct GroupWithUnread {
    pub group: GroupEntity,
    pub unread_count: i64,
    /// Highest stored seq, if any messages are stored.
    pub max_seq: Option<i64>,
}

/// Row of the message table.
#[derive(Debug)]
pub struct MessageEntity {
    pub id: String,
    pub group_id: String,
    pub seq: i64,
    pub sender_id: String,
    pub body: String,
    /// Set if this user sent it.
    pub client_message_id: Option<String>,
    pub created_at: i64,
}

impl Clone for MessageEntity {
    fn clone(&self) -> (r: Self)
        ensures
            r == *self,
    {
        MessageEntity {
            id: self.id.clone(),
            group_id: self.group_id.clone(),
            seq: self.seq,
            sender_id: self.sender_id.clone(),
            body: self.body.clone(),
            client_message_id: self.client_message_id.clone(),
            created_at: self.created_at,
        }
    }
}

/// `r` is the row for a message.
pub open spec fn row_of(m: MessageDto, fallback_group: Seq<char>, now_ms: i64, r: MessageEntity) -> bool {
    &&& r.id == m.id
    &&& r.group_id@ == (match m.group_id {
        Some(g) => g@,
        None => fallback_group,
    })
    &&& r.seq == m.seq
    &&& r.sender_id == m.sender_id
    &&& r.body == m.body
    &&& r.client_message_id == m.client_message_id
    &&& r.created_at == or_i64(m.created_at, now_ms)
}

impl MessageEntity {
    /// The row for a message; `fallback_group_id` counts when the message names no group, and
    /// `now_ms` when it names no time.
    pub fn from_dto(m: MessageDto, fallback_group_id: &str, now_ms: i64) -> (r: Self)
        ensures
            row_of(m, fallback_group_id@, now_ms, r),
    {
        Self::of(&m, fallback_group_id, now_ms)
    }

    /// The row for a message that is kept.
    pub fn of(m: &MessageDto, fallback_group_id: &str, now_ms: i64) -> (r: Self)
        ensures
            row_of(*m, fallback_group_id@, now_ms, r),
    {
        MessageEntity {
            id: m.id.clone(),
            group_id: match &m.group_id {
                Some(g) => g.clone(),
                None => fallback_group_id.to_owned(),
            },
            seq: m.seq,
            sender_id: m.sender_id.clone(),
            body: m.body.clone(),
            client_message_id: m.client_message_id.clone(),
            created_at: value_or(m.created_at, now_ms),
        }
    }
}

/// Row of the member table.
#[derive(Debug)]
pub struct MemberEntity {
    pub group_id: String,
    pub user_id: String,
    pub display_name: String,
    pub phone_e164: Option<String>,
    pub role: Role,
    pub joined_at: i64,
}

impl Clone for MemberEntity {
    fn clone(&self) -> (r: Self)
        ensures
            r == *self,
    {
        MemberEntity {
            group_id: self.group_id.clone(),
            user_id: self.user_id.clone(),
            display_name: self.display_name.clone(),
            phone_e164: self.phone_e164.clone(),
            role: self.role,
            joined_at: self.joined_at,
        }
    }
}

/// `r` is the row for a member of a group.
pub open spec fn member_row_of(m: MemberDto, group: Seq<char>, now_ms: i64, r: MemberEntity) -> bool {
    &&& r.group_id@ == group
    &&& r.user_id == m.user_id
    &&& r.display_name == m.display_name
    &&& r.phone_e164 == m.phone_e164
    &&& r.role == m.role
    &&& r.joined_at == or_i64(m.joined_at, now_ms)
}

impl MemberEntity {
    /// The row for a member of `group_id`; `now_ms` stands in for a missing joining time.
    pub fn from_dto(m: MemberDto, group_id: &str, now_ms: i64) -> (r: Self)
        ensures
            member_row_of(m, group_id@, now_ms, r),
    {
        MemberEntity {
            group_id: group_id.to_owned(),
            user_id: m.user_id,
            display_name: m.display_name,
            phone_e164: m.phone_e164,
            role: m.role,
            joined_at: value_or(m.joined_at, now_ms),
        }
    }
}

/// State of an outgoing row.
#[derive(Debug, Clone, Copy, PartialEq, Eq, Structural)]
pub enum OutboxState {
    Pending,
    InFlight,
    Confirmed,
}

/// Stored text of an outbox state.
pub open spec fn outbox_state_text(s: OutboxState) -> Seq<char> {
    match s {
        OutboxState::Pending => "PENDING"@,
        OutboxState::InFlight => "IN_FLIGHT"@,
        OutboxState::Confirmed => "CONFIRMED"@,
    }
}

impl OutboxState {
    pub fn as_str(self) -> (r: &'static str)
        ensures
            r@ == outbox_state_text(self),
    {
        match self {
            OutboxState::Pending => "PENDING",
            OutboxState::InFlight => "IN_FLIGHT",
            OutboxState::Confirmed => "CONFIRMED",
        }
    }

    pub fn parse(s: &str) -> (r: Option<Self>)
        ensures
            match r {
                Some(st) => s@ == outbox_state_text(st),
                None => forall|st: OutboxState| s@ != #[trigger] outbox_state_text(st),
            },
    {
        if same(s, "PENDING") {
            Some(OutboxState::Pending)
        } else if same(s, "IN_FLIGHT") {
            Some(OutboxState::InFlight)
        } else if same(s, "CONFIRMED") {
            Some(OutboxState::Confirmed)
        } else {
            None
        }
    }
}

/// Distinct outbox states have distinct stored texts.
pub proof fn law_outbox_state_texts_distinct(a: OutboxState, b: OutboxState)
    requires
        outbox_state_text(a) == outbox_state_text(b),
    ensures
        a == b,
{
    reveal_strlit("PENDING");
    reveal_strlit("IN_FLIGHT");
    reveal_strlit("CONFIRMED");
    assert("PENDING"@.len() == 7);
    assert("IN_FLIGHT"@[0] != "CONFIRMED"@[0]);
}

/// What a user sees of an outgoing message.
#[derive(Debug, Clone, Copy, PartialEq, Eq, Structural)]
pub enum OutgoingState {
    /// Not yet acknowledged by the server.
    Pending,
    /// Confirmed by the server.
    Sent,
    /// Refused, with no retry scheduled.
    Failed,
}

/// Row of the outbox table.
#[derive(Debug)]
pub struct OutboxEntity {
    pub client_message_id: String,
    pub group_id: String,
    pub body: String,
    pub state: OutboxState,
    pub error_code: Option<String>,
    pub attempt_count: i64,
    pub next_attempt_at: Option<i64>,
    pub last_attempt_at: Option<i64>,
    pub created_at: i64,
    pub confirmed_message_id: Option<String>,
    pub confirmed_seq: Option<i64>,
}

impl Clone for OutboxEntity {
    fn clone(&self) -> (r: Self)
        ensures
            r == *self,
    {
        OutboxEntity {
            client_message_id: self.client_message_id.clone(),
            group_id: self.group_id.clone(),
            body: self.body.clone(),
            state: self.state,
            error_code: self.error_code.clone(),
            attempt_count: self.attempt_count,
            next_attempt_at: self.next_attempt_at,
            last_attempt_at: self.last_attempt_at,
            created_at: self.created_at,
            confirmed_message_id: self.confirmed_message_id.clone(),
            confirmed_seq: self.confirmed_seq,
        }
    }
}

/// The notation of a random id: groups of lower-case hexadecimal digits between hyphens, with the
/// version and the variant of random ids marked.
pub open spec fn random_id(s: Seq<char>) -> bool {
    &&& s.len() == 36
    &&& forall|i: int|
        0 <= i < 36 ==> if i == 8 || i == 13 || i == 18 || i == 23 {
            #[trigger] s[i] == '-'
        } else {
            '0' <= s[i] <= '9' || 'a' <= s[i] <= 'f'
        }
    &&& s[14] == '4'
    &&& s[19] == '8' || s[19] == '9' || s[19] == 'a' || s[19] == 'b'
}

/// `e` is the row of a message queued at `now` that was never tried.
pub open spec fn queued(e: OutboxEntity, group: Seq<char>, body: Seq<char>, now: i64) -> bool {
    &&& e.group_id@ == group
    &&& e.body@ == body
    &&& e.state == OutboxState::Pending
    &&& e.error_code is None
    &&& e.attempt_count == 0
    &&& e.next_attempt_at is None
    &&& e.last_attempt_at is None
    &&& e.created_at == now
    &&& e.confirmed_message_id is None
    &&& e.confirmed_seq is None
}

/// `uuid::Uuid::new_v4` in its hyphenated notation: some random id of version 4. Nothing is said of
/// which one.
#[verifier::external_body]
fn fresh_uuid() -> (r: String)
    ensures
        random_id(r@),
{
    uuid::Uuid::new_v4().to_string()
}

/// What a user sees of an outbox row.
pub open spec fn outgoing(e: OutboxEntity) -> OutgoingState {
    if e.state == OutboxState::Confirmed {
        OutgoingState::Sent
    } else if e.error_code is Some && e.next_attempt_at is None {
        OutgoingState::Failed
    } else {
        OutgoingState::Pending
    }
}

impl OutboxEntity {
    /// New pending entry with a fresh random id.
    pub fn new(group_id: &str, body: &str, now_ms: i64) -> (r: Self)
        ensures
            random_id(r.client_message_id@),
            queued(r, group_id@, body@, now_ms),
    {
        Self::with_id(fresh_uuid(), group_id, body, now_ms)
    }

    /// New pending entry under a given id.
    pub fn with_id(client_message_id: String, group_id: &str, body: &str, now_ms: i64) -> (r: Self)
        ensures
            r.client_message_id == client_message_id,
            queued(r, group_id@, body@, now_ms),
    {
        OutboxEntity {
            client_message_id,
            group_id: group_id.to_owned(),
            body: body.to_owned(),
            state: OutboxState::Pending,
            error_code: None,
            attempt_count: 0,
            next_attempt_at: None,
            last_attempt_at: None,
            created_at: now_ms,
            confirmed_message_id: None,
            confirmed_seq: None,
        }
    }

    /// What a user sees of this row.
    pub fn outgoing_state(&self) -> (r: OutgoingState)
        ensures
            r == outgoing(*self),
    {
        if self.state == OutboxState::Confirmed {
            OutgoingState::Sent
        } else if self.error_code.is_some() && self.next_attempt_at.is_none() {
            OutgoingState::Failed
        } else {
            OutgoingState::Pending
        }
    }
}

/// Row of the table of command replies.
#[derive(Debug)]
pub struct LocalCommandReplyEntity {
    /// Absent before the row is stored.
    pub id: Option<i64>,
    pub group_id: String,
    pub command_name: String,
    pub ok: bool,
    pub code: String,
    pub params_json: Option<String>,
    pub text: String,
    pub created_at: i64,
}

impl Clone for LocalCommandReplyEntity {
    fn clone(&self) -> (r: Self)
        ensures
            r == *self,
    {
        LocalCommandReplyEntity {
            id: self.id,
            group_id: self.group_id.clone(),
            command_name: self.command_name.clone(),
            ok: self.ok,
            code: self.code.clone(),
            params_json: self.params_json.clone(),
            text: self.text.clone(),
            created_at: self.created_at,
        }
    }
}

/// Which part of the store changed.
#[derive(Debug)]
pub enum StoreChange {
    Groups,
    Messages { group_id: String },
    Members { group_id: String },
    Outbox { group_id: String },
    CommandReplies { group_id: String },
    /// Every table was cleared.
    Cleared,
}

/// `StoreChange` with its group as text.
pub enum Change {
    Groups,
    Messages(Seq<char>),
    Members(Seq<char>),
    Outbox(Seq<char>),
    CommandReplies(Seq<char>),
    Cleared,
}

/// The model of a change.
pub open spec fn change_of(c: StoreChange) -> Change {
    match c {
        StoreChange::Groups => Change::Groups,
        StoreChange::Messages { group_id } => Change::Messages(group_id@),
        StoreChange::Members { group_id } => Change::Members(group_id@),
        StoreChange::Outbox { group_id } => Change::Outbox(group_id@),
        StoreChange::CommandReplies { group_id } => Change::CommandReplies(group_id@),
        StoreChange::Cleared => Change::Cleared,
    }
}

} // verus!
