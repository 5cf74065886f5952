//! Wire data and request bodies of the Tzibbur REST and WebSocket API.

use crate::constants::{DEFAULT_MAX_MEMBERS, DEFAULT_MAX_MESSAGE};
use crate::json::Json;
use crate::text::{
    ascii_lower, ascii_upper, contains, contains_text, same, to_ascii_lower, to_ascii_upper,
};
use vstd::prelude::*;

verus! {

/// Number of Unicode code points in `s` (the server counts code points, not bytes).
pub fn code_points(s: &str) -> (n: usize)
    ensures
        n == s@.len(),
{
    s.unicode_len()
}

/// The text of an optional string.
pub open spec fn opt_text(s: Option<String>) -> Option<Seq<char>> {
    match s {
        Some(t) => Some(t@),
        None => None,
    }
}

/// A page of results.
#[derive(Debug)]
pub struct Page<T> {
    pub items: Vec<T>,
    pub next_cursor: Option<String>,
    /// The server signalled more results, or returned a cursor.
    pub has_more: bool,
}

impl<T> Default for Page<T> {
    fn default() -> (r: Self)
        ensures
            r.items@.len() == 0,
            r.next_cursor is None,
            !r.has_more,
    {
        Page { items: Vec::new(), next_cursor: None, has_more: false }
    }
}

/// Group kind. `system` threads have no composer.
#[derive(Debug, Clone, Copy, PartialEq, Eq, Structural)]
pub enum GroupKind {
    Standard,
    System,
    Unknown,
}

impl Default for GroupKind {
    fn default() -> (r: Self)
        ensures
            r == GroupKind::Unknown,
    {
        GroupKind::Unknown
    }
}

/// Wire value of a group kind.
pub open spec fn kind_text(k: GroupKind) -> Seq<char> {
    match k {
        GroupKind::Standard => "standard"@,
        GroupKind::System => "system"@,
        GroupKind::Unknown => "unknown"@,
    }
}

/// The kind that a wire value names, in any case.
pub open spec fn kind_of(s: Seq<char>) -> GroupKind {
    if ascii_lower(s) == "standard"@ {
        GroupKind::Standard
    } else if ascii_lower(s) == "system"@ {
        GroupKind::System
    } else {
        GroupKind::Unknown
    }
}

impl GroupKind {
    /// Wire value (lower case, as the server emits).
    pub fn as_str(self) -> (r: &'static str)
        ensures
            r@ == kind_text(self),
    {
        match self {
            GroupKind::Standard => "standard",
            GroupKind::System => "system",
            GroupKind::Unknown => "unknown",
        }
    }

    pub fn parse(s: &str) -> (r: Self)
        ensures
            r == kind_of(s@),
    {
        let low = to_ascii_lower(s);
        if same(low.as_str(), "standard") {
            GroupKind::Standard
        } else if same(low.as_str(), "system") {
            GroupKind::System
        } else {
            GroupKind::Unknown
        }
    }
}

/// Member role within a group.
#[derive(Debug, Clone, Copy, PartialEq, Eq, Structural)]
pub enum Role {
    Admin,
    Member,
}

impl Default for Role {
    fn default() -> (r: Self)
        ensures
            r == Role::Member,
    {
        Role::Member
    }
}

/// Wire value of a role.
pub open spec fn role_text(r: Role) -> Seq<char> {
    match r {
        Role::Admin => "admin"@,
        Role::Member => "member"@,
    }
}

/// The role that a wire value names, in any case.
pub open spec fn role_of(s: Seq<char>) -> Option<Role> {
    if ascii_lower(s) == "admin"@ {
        Some(Role::Admin)
    } else if ascii_lower(s) == "member"@ {
        Some(Role::Member)
    } else {
        None
    }
}

impl Role {
    pub fn as_str(self) -> (r: &'static str)
        ensures
            r@ == role_text(self),
    {
        match self {
            Role::Admin => "admin",
            Role::Member => "member",
        }
    }

    pub fn parse(s: &str) -> (r: Option<Self>)
        ensures
            r == role_of(s@),
    {
        let low = to_ascii_lower(s);
        if same(low.as_str(), "admin") {
            Some(Role::Admin)
        } else if same(low.as_str(), "member") {
            Some(Role::Member)
        } else {
            None
        }
    }
}

/// Account kind: `person` for users, `service` for system senders.
#[derive(Debug)]
pub enum AccountKind {
    Person,
    Service,
    Other(String),
}

impl Default for AccountKind {
    fn default() -> (r: Self)
        ensures
            r == AccountKind::Person,
    {
        AccountKind::Person
    }
}

impl AccountKind {
    pub fn is_service(&self) -> (r: bool)
        ensures
            r == (*self is Service),
    {
        matches!(self, AccountKind::Service)
    }
}

/// Every member may perform the action.
pub const EVERYONE: &'static str = "everyone";

/// Only admins may perform the action.
pub const ADMINS: &'static str = "admins";

/// Group permission setting (`whoCanPost`, `whoCanAddMembers`): an open set of slugs.
#[derive(Debug)]
pub struct Permission(pub String);

impl Clone for Permission {
    fn clone(&self) -> (r: Self)
        ensures
            r == *self,
    {
        Permission(self.0.clone())
    }
}

/// Whether a permission slug admits a member holding `role`.
pub open spec fn permits(slug: Seq<char>, role: Role) -> bool {
    role == Role::Admin || !(contains_text(ascii_upper(slug), "ADMIN"@) || contains_text(
        ascii_upper(slug),
        "OWNER"@,
    ))
}

impl Permission {
    pub fn everyone() -> (r: Self)
        ensures
            r.0@ == EVERYONE@,
    {
        Permission(EVERYONE.to_owned())
    }

    pub fn admins() -> (r: Self)
        ensures
            r.0@ == ADMINS@,
    {
        Permission(ADMINS.to_owned())
    }

    pub fn as_str(&self) -> (r: &str)
        ensures
            r@ == self.0@,
    {
        self.0.as_str()
    }

    /// Whether a member holding `role` satisfies this permission.
    ///
    /// Admins always pass. Members pass unless the slug restricts to admins.
    pub fn allows(&self, role: Role) -> (r: bool)
        ensures
            r == permits(self.0@, role),
    {
        if role == Role::Admin {
            return true;
        }
        let s = to_ascii_upper(self.0.as_str());
        !(contains(s.as_str(), "ADMIN") || contains(s.as_str(), "OWNER"))
    }
}

impl From<String> for Permission {
    fn from(s: String) -> (r: Self) {
        Permission(s)
    }
}

impl vstd::std_specs::convert::FromSpecImpl<String> for Permission {
    open spec fn obeys_from_spec() -> bool {
        true
    }

    open spec fn from_spec(s: String) -> Permission {
        Permission(s)
    }
}

/// Every permission admits admins.
pub proof fn law_admins_always_pass(slug: Seq<char>)
    ensures
        permits(slug, Role::Admin),
{
}

/// "Everyone" admits plain members and "admins" does not.
pub proof fn law_standard_permissions()
    ensures
        permits(EVERYONE@, Role::Member),
        !permits(ADMINS@, Role::Member),
{
    reveal_strlit("everyone");
    reveal_strlit("admins");
    reveal_strlit("ADMIN");
    reveal_strlit("OWNER");
    let up = ascii_upper(EVERYONE@);
    assert forall|i: int| !crate::text::occurs_at(up, "ADMIN"@, i) by {
        if 0 <= i && i + 5 <= up.len() {
            assert(up.subrange(i, i + 5)[0] == up[i]);
        }
    }
    assert forall|i: int| !crate::text::occurs_at(up, "OWNER"@, i) by {
        if 0 <= i && i + 5 <= up.len() {
            assert(up.subrange(i, i + 5)[0] == up[i]);
        }
    }
    let adm = ascii_upper(ADMINS@);
    assert(adm.subrange(0, 5) =~= "ADMIN"@);
    assert(crate::text::occurs_at(adm, "ADMIN"@, 0));
}

/// Keys of the legal documents.
#[derive(Debug, Clone, Copy, PartialEq, Eq, Structural)]
pub enum LegalDocKey {
    Privacy,
    Terms,
}

impl LegalDocKey {
    pub fn as_str(self) -> (r: &'static str)
        ensures
            r@ == (match self {
                LegalDocKey::Privacy => "privacy"@,
                LegalDocKey::Terms => "terms"@,
            }),
    {
        match self {
            LegalDocKey::Privacy => "privacy",
            LegalDocKey::Terms => "terms",
        }
    }
}

/// Theme override kept in the preferences.
#[derive(Debug, Clone, Copy, PartialEq, Eq, Structural)]
pub enum ThemeOverride {
    System,
    Light,
    Dark,
}

impl Default for ThemeOverride {
    fn default() -> (r: Self)
        ensures
            r == ThemeOverride::System,
    {
        ThemeOverride::System
    }
}

/// A user.
#[derive(Debug)]
pub struct User {
    pub id: String,
    pub display_name: String,
    pub phone_e164: Option<String>,
    pub kind: AccountKind,
    pub created_at: Option<i64>,
    pub email: Option<String>,
    pub google_linked: bool,
}

/// A signed-in device.
#[derive(Debug)]
pub struct Device {
    pub id: String,
    pub name: Option<String>,
    pub platform: Option<String>,
    pub app_version: Option<String>,
    pub device_model: Option<String>,
    pub user_id: Option<String>,
    pub imei: Option<String>,
    pub serial_number: Option<String>,
    /// Enrollment time (`registeredAt` on the wire).
    pub created_at: Option<i64>,
    pub last_seen_at: Option<i64>,
    /// Other fields the server returned.
    pub extra: Vec<(String, Json)>,
}

/// Authenticated session.
#[derive(Debug)]
pub struct Session {
    pub user: User,
    pub device: Device,
    pub token: String,
}

/// A started sign-in.
#[derive(Debug)]
pub struct EnrollmentChallenge {
    pub challenge_id: String,
    pub expires_at_epoch_ms: Option<i64>,
    pub expires_in_seconds: Option<u64>,
    pub resend_after_seconds: Option<u64>,
    pub extra: Vec<(String, Json)>,
}

impl EnrollmentChallenge {
    /// Best-effort expiry as epoch milliseconds, given the current time.
    pub fn expires_at(&self, now_ms: i64) -> (r: Option<i64>)
        requires
            self.expires_in_seconds matches Some(s) ==> now_ms + s * 1000 <= i64::MAX && s * 1000
                <= i64::MAX,
        ensures
            r == (match self.expires_at_epoch_ms {
                Some(t) => Some(t),
                None => match self.expires_in_seconds {
                    Some(s) => Some((now_ms + s * 1000) as i64),
                    None => None,
                },
            }),
    {
        match self.expires_at_epoch_ms {
            Some(t) => Some(t),
            None => match self.expires_in_seconds {
                Some(s) => Some(now_ms + (s as i64) * 1000),
                None => None,
            },
        }
    }
}

/// Body of a sign-in request.
#[derive(Debug)]
pub struct StartAuthRequest {
    /// E.164 international format.
    pub phone: String,
    /// Required on first registration.
    pub display_name: Option<String>,
    /// ISO 3166-1 alpha-2.
    pub region: Option<String>,
    /// Filled from the device description when absent.
    pub platform: Option<String>,
    /// Filled from the device description when absent.
    pub device_model: Option<String>,
}

/// Body of a code verification.
#[derive(Debug)]
pub struct VerifyAuthRequest {
    pub challenge_id: String,
    /// Six-digit code.
    pub code: String,
    pub phone: String,
    pub display_name: Option<String>,
    pub region: Option<String>,
    pub platform: Option<String>,
    pub device_model: Option<String>,
}

/// Body of a profile change.
#[derive(Debug)]
pub struct UpdateProfileRequest {
    pub display_name: String,
}

/// Body of a contact lookup.
#[derive(Debug)]
pub struct ContactsCheckRequest {
    /// E.164 numbers, max 100.
    pub phones: Vec<String>,
    pub region: Option<String>,
}

/// One registered contact.
#[derive(Debug)]
pub struct RegisteredContact {
    pub phone_e164: Option<String>,
    pub user_id: Option<String>,
    pub display_name: Option<String>,
    pub extra: Vec<(String, Json)>,
}

impl RegisteredContact {
    pub fn phone(&self) -> (r: Option<&String>)
        ensures
            r == (match self.phone_e164 {
                Some(p) => Some(&p),
                None => None,
            }),
    {
        self.phone_e164.as_ref()
    }
}

/// A legal document.
#[derive(Debug)]
pub struct LegalDocument {
    pub key: Option<String>,
    /// Markdown body.
    pub markdown: String,
    pub checksum: String,
    pub updated_at: Option<i64>,
    pub extra: Vec<(String, Json)>,
}

/// Server-imposed limits for a group.
#[derive(Debug, Clone, Copy, PartialEq, Eq, Structural)]
pub struct GroupLimits {
    pub member_cap: Option<u32>,
    pub message_max_length: Option<u32>,
    pub min_members_to_post: Option<u32>,
}

/// Permission settings of a group.
#[derive(Debug)]
pub struct GroupSettings {
    pub who_can_post: Option<Permission>,
    pub who_can_add_members: Option<Permission>,
}

/// A group as returned by the server.
#[derive(Debug)]
pub struct GroupDto {
    pub id: String,
    pub name: String,
    pub category: String,
    pub kind: GroupKind,
    pub who_can_post: Permission,
    pub who_can_add_members: Permission,
    pub created_by: Option<String>,
    pub created_at: Option<i64>,
    pub my_role: Role,
    pub member_count: i64,
    pub muted: bool,
    pub last_activity_at: Option<i64>,
    pub last_message_preview: Option<String>,
    /// This device's read bookmark.
    pub last_read_seq: Option<i64>,
    /// Server-computed unread count, when returned.
    pub unread_count: Option<i64>,
    /// Server-side latest sequence number, when returned.
    pub latest_seq: Option<i64>,
    pub limits: Option<GroupLimits>,
    pub extra: Vec<(String, Json)>,
}

impl GroupDto {
    /// Effective max message length: the group's own limit, else the default.
    pub fn message_max_length(&self) -> (r: usize)
        ensures
            r == (match self.limits {
                Some(GroupLimits { message_max_length: Some(n), .. }) => n as usize,
                _ => DEFAULT_MAX_MESSAGE,
            }),
    {
        match self.limits {
            Some(GroupLimits { message_max_length: Some(n), .. }) => n as usize,
            _ => DEFAULT_MAX_MESSAGE,
        }
    }

    /// Effective member cap: the group's own limit, else the default.
    pub fn member_cap(&self) -> (r: usize)
        ensures
            r == (match self.limits {
                Some(GroupLimits { member_cap: Some(n), .. }) => n as usize,
                _ => DEFAULT_MAX_MEMBERS,
            }),
    {
        match self.limits {
            Some(GroupLimits { member_cap: Some(n), .. }) => n as usize,
            _ => DEFAULT_MAX_MEMBERS,
        }
    }

    /// How many members the group needs before anyone may post, when the server said.
    pub fn min_members_to_post(&self) -> (r: Option<u32>)
        ensures
            r == min_to_post(*self),
    {
        match self.limits {
            Some(l) => l.min_members_to_post,
            None => None,
        }
    }
}

/// How many members a group needs before anyone may post, when the server said.
pub open spec fn min_to_post(g: GroupDto) -> Option<u32> {
    match g.limits {
        Some(l) => l.min_members_to_post,
        None => None,
    }
}

/// Body of a group creation.
#[derive(Debug)]
pub struct CreateGroupRequest {
    /// Max 100 code points.
    pub name: String,
    /// A slug out of the category list.
    pub category: String,
    pub kind: GroupKind,
    pub who_can_post: Permission,
    pub who_can_add_members: Permission,
}

impl CreateGroupRequest {
    /// A standard group where everyone may post and only admins add members.
    pub fn standard(name: &str, category: &str) -> (r: Self)
        ensures
            r.name@ == name@,
            r.category@ == category@,
            r.kind == GroupKind::Standard,
            r.who_can_post.0@ == EVERYONE@,
            r.who_can_add_members.0@ == ADMINS@,
    {
        CreateGroupRequest {
            name: name.to_owned(),
            category: category.to_owned(),
            kind: GroupKind::Standard,
            who_can_post: Permission::everyone(),
            who_can_add_members: Permission::admins(),
        }
    }
}

/// Body of a group change; absent fields stay as they are.
#[derive(Debug)]
pub struct UpdateGroupRequest {
    pub name: Option<String>,
    pub who_can_post: Option<Permission>,
    pub who_can_add_members: Option<Permission>,
}

impl UpdateGroupRequest {
    /// A change of the name alone.
    pub fn rename(name: &str) -> (r: Self)
        ensures
            opt_text(r.name) == Some(name@),
            r.who_can_post is None,
            r.who_can_add_members is None,
    {
        UpdateGroupRequest {
            name: Some(name.to_owned()),
            who_can_post: None,
            who_can_add_members: None,
        }
    }
}

/// Group categories with the time of the fetch.
#[derive(Debug)]
pub struct CategoriesEnvelope {
    pub categories: Vec<String>,
    /// RFC 3339 timestamp of the fetch.
    pub fetched_at: String,
}

/// Cursor pagination parameters.
#[derive(Debug)]
pub struct ListParams {
    pub cursor: Option<String>,
    pub limit: Option<u32>,
}

impl ListParams {
    pub fn limit(limit: u32) -> (r: Self)
        ensures
            r.cursor is None,
            r.limit == Some(limit),
    {
        ListParams { cursor: None, limit: Some(limit) }
    }

    pub fn with_cursor(self, cursor: String) -> (r: Self)
        ensures
            r == (ListParams { cursor: Some(cursor), limit: self.limit }),
    {
        ListParams { cursor: Some(cursor), limit: self.limit }
    }
}

/// A group member as returned by the server.
#[derive(Debug)]
pub struct MemberDto {
    pub user_id: String,
    pub display_name: String,
    pub phone_e164: Option<String>,
    pub role: Role,
    pub kind: AccountKind,
    pub joined_at: Option<i64>,
    pub extra: Vec<(String, Json)>,
}

/// Body of a member addition.
#[derive(Debug)]
pub struct AddMembersRequest {
    pub phones: Vec<String>,
    pub region: Option<String>,
}

/// An added member: the full member or just a phone number.
#[derive(Debug)]
pub enum AddedMember {
    Member(MemberDto),
    Phone(String),
}

/// What became of each number of a member addition.
#[derive(Debug)]
pub struct AddMembersOutcome {
    pub added: Vec<AddedMember>,
    pub not_found: Vec<String>,
    pub already_member: Vec<String>,
    pub extra: Vec<(String, Json)>,
}

impl Default for AddMembersOutcome {
    fn default() -> (r: Self)
        ensures
            r.added@.len() == 0,
            r.not_found@.len() == 0,
            r.already_member@.len() == 0,
            r.extra@.len() == 0,
    {
        AddMembersOutcome {
            added: Vec::new(),
            not_found: Vec::new(),
            already_member: Vec::new(),
            extra: Vec::new(),
        }
    }
}

/// Body of a role change.
#[derive(Debug, Clone, Copy, PartialEq, Eq, Structural)]
pub struct SetRoleRequest {
    pub role: Role,
}

/// A message as returned by the server.
#[derive(Debug)]
pub struct MessageDto {
    pub id: String,
    /// May be absent inside a socket frame, which carries it.
    pub group_id: Option<String>,
    pub seq: i64,
    pub sender_id: String,
    pub body: String,
    /// Set when this device sent the message.
    pub client_message_id: Option<String>,
    pub created_at: Option<i64>,
    pub extra: Vec<(String, Json)>,
}

/// Query for a page of messages.
#[derive(Debug, Clone, Copy, PartialEq, Eq, Structural)]
pub struct MessagesQuery {
    /// Exclusive lower bound.
    pub after_seq: Option<i64>,
    /// Exclusive upper bound.
    pub before_seq: Option<i64>,
    pub limit: Option<u32>,
}

impl MessagesQuery {
    pub fn after(seq: i64) -> (r: Self)
        ensures
            r == (MessagesQuery { after_seq: Some(seq), before_seq: None, limit: None }),
    {
        MessagesQuery { after_seq: Some(seq), before_seq: None, limit: None }
    }

    pub fn before(seq: i64) -> (r: Self)
        ensures
            r == (MessagesQuery { after_seq: None, before_seq: Some(seq), limit: None }),
    {
        MessagesQuery { after_seq: None, before_seq: Some(seq), limit: None }
    }

    pub fn limit(self, limit: u32) -> (r: Self)
        ensures
            r == (MessagesQuery {
                after_seq: self.after_seq,
                before_seq: self.before_seq,
                limit: Some(limit),
            }),
    {
        MessagesQuery {
            after_seq: self.after_seq,
            before_seq: self.before_seq,
            limit: Some(limit),
        }
    }
}

/// A page of messages.
#[derive(Debug)]
pub struct MessagesPage {
    pub items: Vec<MessageDto>,
    /// Continue forwards from here; absent when caught up.
    pub next_after_seq: Option<i64>,
    /// Continue backwards from here; absent at the beginning.
    pub next_before_seq: Option<i64>,
    pub extra: Vec<(String, Json)>,
}

/// Body of a message to send.
#[derive(Debug)]
pub struct SendMessageRequest {
    /// Used for deduplication and echo detection.
    pub client_message_id: String,
    pub body: String,
}

/// Body of an acknowledgement.
#[derive(Debug, Clone, Copy, PartialEq, Eq, Structural)]
pub struct AckRequest {
    pub seq: i64,
}

/// Messages for one group.
#[derive(Debug)]
pub struct GroupMessages {
    pub group_id: String,
    pub messages: Vec<MessageDto>,
    /// Seq this device had been delivered up to before this batch.
    pub delivered_seq: Option<i64>,
    /// More messages exist beyond this batch for the group.
    pub has_more: bool,
}

/// A group lifecycle event.
#[derive(Debug)]
pub struct GroupEventDto {
    pub event: String,
    pub payload: Vec<(String, Json)>,
}

/// Everything that waited for this device.
#[derive(Debug)]
pub struct PendingResponse {
    pub messages: Vec<GroupMessages>,
    pub groups: Vec<GroupDto>,
    pub events: Vec<GroupEventDto>,
    pub next_cursor: Option<String>,
    pub has_more: bool,
    pub extra: Vec<(String, Json)>,
}

impl Default for PendingResponse {
    fn default() -> (r: Self)
        ensures
            r.messages@.len() == 0,
            r.groups@.len() == 0,
            r.events@.len() == 0,
            r.next_cursor is None,
            !r.has_more,
            r.extra@.len() == 0,
    {
        PendingResponse {
            messages: Vec::new(),
            groups: Vec::new(),
            events: Vec::new(),
            next_cursor: None,
            has_more: false,
            extra: Vec::new(),
        }
    }
}

/// Number of messages over all groups.
pub open spec fn total_messages(b: Seq<GroupMessages>) -> nat
    decreases b.len(),
{
    if b.len() == 0 {
        0
    } else {
        total_messages(b.drop_last()) + b.last().messages@.len()
    }
}

impl PendingResponse {
    /// Total number of messages across all groups.
    pub fn message_count(&self) -> (n: usize)
        requires
            total_messages(self.messages@) <= usize::MAX,
        ensures
            n == total_messages(self.messages@),
    {
        let mut n: usize = 0;
        let mut i: usize = 0;
        assert(self.messages@.take(0) =~= Seq::empty());
        while i < self.messages.len()
            invariant
                i <= self.messages.len(),
                n == total_messages(self.messages@.take(i as int)),
                total_messages(self.messages@) <= usize::MAX,
            decreases self.messages.len() - i,
        {
            proof {
                lemma_total_prefix(self.messages@, i + 1);
                assert(self.messages@.take(i + 1).drop_last() =~= self.messages@.take(i as int));
            }
            n = n + self.messages[i].messages.len();
            i += 1;
        }
        assert(self.messages@.take(i as int) =~= self.messages@);
        n
    }
}

proof fn lemma_total_prefix(b: Seq<GroupMessages>, i: int)
    requires
        0 <= i <= b.len(),
    ensures
        total_messages(b.take(i)) <= total_messages(b),
    decreases b.len() - i,
{
    if i < b.len() {
        lemma_total_prefix(b, i + 1);
        assert(b.take(i + 1).drop_last() =~= b.take(i));
    } else {
        assert(b.take(i) =~= b);
    }
}

} // verus!
