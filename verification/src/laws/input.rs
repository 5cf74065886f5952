//! What users type, and the limits and rights that it meets.

use crate::constants::CODE_LENGTH;
use crate::models::{
    CreateGroupRequest, EnrollmentChallenge, GroupDto, GroupKind, LegalDocKey, MemberDto,
    MessageDto, Permission, Role,
};
use crate::numbers::is_digit;
use crate::store::{GroupEntity, MemberEntity, MessageEntity};
use crate::text::{ascii_lower, ascii_upper, contains_text, trim};
use crate::validation::{
    composer_info, extract_otp, first_code, is_valid_otp, keep_digits, looks_like_e164, maximal_run,
    normalize_phone, only_digits, validate_display_name, validate_group_name, validate_message_body,
    ComposerInfo, TextValidation,
};
use vstd::prelude::*;

verus! {

/// A text is valid where it holds something besides white space and is not over the limit; it is
/// then handed on without the white space around it.
pub open spec fn judged(input: Seq<char>, max: int, r: TextValidation) -> bool {
    let t = trim(input);
    &&& t.len() == 0 <==> r is Empty
    &&& t.len() > max <==> r is TooLong
    &&& 0 < t.len() <= max <==> r is Valid
    &&& r matches TextValidation::Valid { text } ==> text@ == t
    &&& r matches TextValidation::TooLong { count, max: m } ==> count == t.len() && m == max
}

/// Display names hold up to 64 characters, names of groups up to 100, messages up to 2000.
pub proof fn law_validation(input: &str, r: TextValidation)
    ensures
        call_ensures(validate_display_name, (input,), r) ==> judged(input@, 64, r),
        call_ensures(validate_group_name, (input,), r) ==> judged(input@, 100, r),
        call_ensures(validate_message_body, (input,), r) ==> judged(input@, 2000, r),
{
}

/// The result of a validation tells whether it passed, and gives the text just then.
pub proof fn law_validation_result(v: TextValidation, ok: bool, text: Option<String>)
    ensures
        call_ensures(TextValidation::is_valid, (&v,), ok) ==> (ok <==> v is Valid),
        call_ensures(TextValidation::into_valid, (v,), text) ==> match v {
            TextValidation::Valid { text: t } => text == Some(t),
            _ => text is None,
        },
{
}

/// The composer counts the characters that would be sent and warns from 1800 of 2000 on.
pub proof fn law_composer(draft: &str, r: ComposerInfo)
    requires
        call_ensures(composer_info, (draft,), r),
    ensures
        r.code_points == trim(draft@).len(),
        r.is_valid <==> 0 < trim(draft@).len() <= 2000,
        r.is_near_limit <==> trim(draft@).len() >= 1800,
        r.max_length == 2000,
{
}

/// A character from `0` to `9`.
pub open spec fn digit(c: char) -> bool {
    '0' <= c <= '9'
}

/// A number looks complete where it is a plus and eight to fifteen digits.
pub proof fn law_looks_complete(s: &str, r: bool)
    requires
        call_ensures(looks_like_e164, (s,), r),
    ensures
        r <==> {
            let t = trim(s@);
            &&& 9 <= t.len() <= 16
            &&& t[0] == '+'
            &&& forall|i: int| 1 <= i < t.len() ==> digit(#[trigger] t[i])
        },
{
    let t = trim(s@);
    if r {
        assert forall|i: int| 1 <= i < t.len() implies digit(#[trigger] t[i]) by {
            assert(is_digit(t.skip(1)[i - 1]));
        }
    }
    if 9 <= t.len() <= 16 && t[0] == '+' && (forall|i: int|
        1 <= i < t.len() ==> digit(#[trigger] t[i])) {
        assert forall|i: int| 0 <= i < t.skip(1).len() implies is_digit(#[trigger] t.skip(1)[i]) by {
            assert(digit(t[i + 1]));
        }
    }
}

/// Keeping the digits of a text goes character by character: a digit stays, all else goes.
pub proof fn law_only_digits(s: Seq<char>, c: char)
    ensures
        only_digits(Seq::empty()) == Seq::<char>::empty(),
        digit(c) ==> only_digits(s.push(c)) == only_digits(s).push(c),
        !digit(c) ==> only_digits(s.push(c)) == only_digits(s),
{
    reveal(Seq::filter);
    assert(s.push(c).drop_last() =~= s);
}

/// The digits of a text, and the number made of them: two leading zeros stand for the plus.
pub proof fn law_normalized(s: &str, d: String, r: String)
    requires
        call_ensures(keep_digits, (s,), d),
        call_ensures(normalize_phone, (s,), r),
    ensures
        d@ == only_digits(s@),
        d@.len() >= 2 && d@[0] == '0' && d@[1] == '0' ==> r@ == seq!['+'] + d@.skip(2),
        d@.len() < 2 || d@[0] != '0' || d@[1] != '0' ==> r@ == seq!['+'] + d@,
{
}

/// A code is six digits, and nothing else is one.
pub proof fn law_code_shape(code: &str, r: bool)
    requires
        call_ensures(is_valid_otp, (code,), r),
    ensures
        r <==> code@.len() == 6 && forall|i: int| 0 <= i < 6 ==> digit(#[trigger] code@[i]),
{
    if r {
        assert forall|i: int| 0 <= i < 6 implies digit(#[trigger] code@[i]) by {
            assert(is_digit(code@[i]));
        }
    }
}

/// The code in a text message is the first run of just six digits: what is found is six digits that
/// stand alone, and a run of six that no digit precedes is found.
pub proof fn law_code_found(sms: &str, a: Seq<char>, w: Seq<char>, b: Seq<char>, r: Option<String>)
    requires
        call_ensures(extract_otp, (sms,), r),
    ensures
        r matches Some(c) ==> c@.len() == 6 && (forall|i: int| 0 <= i < 6 ==> digit(#[trigger] c@[i])),
        sms@ == (a + w) + b && w.len() == 6 && (forall|i: int|
            0 <= i < 6 ==> digit(#[trigger] w[i])) && (forall|i: int|
            0 <= i < a.len() ==> !digit(#[trigger] a[i])) && (b.len() == 0 || !digit(b[0])) ==> (
        r matches Some(c) && c@ == w),
{
    let s = sms@;
    assert(first_code(s, r));
    if let Some(c) = r {
        let i = choose|i: int|
            {
                &&& #[trigger] maximal_run(s, i, i + CODE_LENGTH)
                &&& c@ == s.subrange(i, i + CODE_LENGTH)
                &&& forall|k: int|
                    k < i ==> !#[trigger] maximal_run(s, k, k + CODE_LENGTH)
            };
        assert forall|k: int| 0 <= k < 6 implies digit(#[trigger] c@[k]) by {
            assert(is_digit(s[i + k]));
        }
    }
    if s == (a + w) + b && w.len() == 6 && (forall|i: int| 0 <= i < 6 ==> digit(#[trigger] w[i])) && (
    forall|i: int| 0 <= i < a.len() ==> !digit(#[trigger] a[i])) && (b.len() == 0 || !digit(b[0])) {
        let n = a.len() as int;
        assert forall|k: int| n <= k < n + 6 implies is_digit(#[trigger] s[k]) by {
            assert(s[k] == w[k - n]);
        }
        assert forall|k: int| 0 <= k < n implies !is_digit(#[trigger] s[k]) by {
            assert(s[k] == a[k]);
        }
        if b.len() > 0 {
            assert(s[n + 6] == b[0]);
        }
        assert(maximal_run(s, n, n + CODE_LENGTH));
        if r is None {
            assert(!maximal_run(sms@, n, n + CODE_LENGTH));
        }
        let c = r->0;
        let i = choose|i: int|
            {
                &&& #[trigger] maximal_run(s, i, i + CODE_LENGTH)
                &&& c@ == s.subrange(i, i + CODE_LENGTH)
                &&& forall|k: int|
                    k < i ==> !#[trigger] maximal_run(s, k, k + CODE_LENGTH)
            };
        assert(maximal_run(s, i, i + CODE_LENGTH));
        if i < n {
            assert(is_digit(s[i]));
        }
        assert(i == n);
        assert(s.subrange(n, n + 6) =~= w);
    }
}

/// An admin may do what a permission guards; a member may unless the permission names admins or
/// owners.
pub proof fn law_permission(p: &Permission, role: Role, r: bool)
    requires
        call_ensures(Permission::allows, (p, role), r),
    ensures
        role == Role::Admin ==> r,
        role == Role::Member ==> (r <==> !contains_text(ascii_upper(p.0@), "ADMIN"@)
            && !contains_text(ascii_upper(p.0@), "OWNER"@)),
{
}

/// The user's rights in a group go by the permission and the role; nobody posts in a system thread.
pub proof fn law_rights(g: &GroupEntity, post: bool, add: bool, system: bool, admin: bool)
    requires
        call_ensures(GroupEntity::can_post, (g,), post),
        call_ensures(GroupEntity::can_add_members, (g,), add),
        call_ensures(GroupEntity::is_system, (g,), system),
        call_ensures(GroupEntity::is_admin, (g,), admin),
    ensures
        system <==> g.kind == GroupKind::System,
        admin <==> g.my_role == Role::Admin,
        g.kind == GroupKind::System ==> !post,
        g.kind != GroupKind::System && g.my_role == Role::Admin ==> post,
        g.kind != GroupKind::System && g.my_role == Role::Member ==> (post <==> !contains_text(
            ascii_upper(g.who_can_post.0@),
            "ADMIN"@,
        ) && !contains_text(ascii_upper(g.who_can_post.0@), "OWNER"@)),
        g.my_role == Role::Admin ==> add,
        g.my_role == Role::Member ==> (add <==> !contains_text(
            ascii_upper(g.who_can_add_members.0@),
            "ADMIN"@,
        ) && !contains_text(ascii_upper(g.who_can_add_members.0@), "OWNER"@)),
{
}

/// The row of a group, a message or a member has what the server sent; the given time stands in
/// where none was sent.
pub proof fn law_rows_from_server(
    g: GroupDto,
    m: MessageDto,
    p: MemberDto,
    group: &str,
    now: i64,
    gr: GroupEntity,
    mr: MessageEntity,
    pr: MemberEntity,
)
    requires
        call_ensures(GroupEntity::from_dto, (g, now), gr),
        call_ensures(MessageEntity::from_dto, (m, group, now), mr),
        call_ensures(MemberEntity::from_dto, (p, group, now), pr),
    ensures
        gr.id == g.id && gr.name == g.name && gr.kind == g.kind && gr.my_role == g.my_role
            && gr.member_count == g.member_count && gr.muted == g.muted && gr.who_can_post
            == g.who_can_post && gr.who_can_add_members == g.who_can_add_members && !gr.is_deleted
            && gr.last_activity_at == g.last_activity_at && gr.last_message_preview
            == g.last_message_preview && gr.category == g.category,
        gr.created_at == g.created_at.unwrap_or(now),
        gr.last_read_seq == g.last_read_seq.unwrap_or(0),
        mr.id == m.id && mr.seq == m.seq && mr.sender_id == m.sender_id && mr.body == m.body
            && mr.client_message_id == m.client_message_id,
        m.group_id matches Some(x) ==> mr.group_id@ == x@,
        m.group_id is None ==> mr.group_id@ == group@,
        mr.created_at == m.created_at.unwrap_or(now),
        pr.group_id@ == group@ && pr.user_id == p.user_id && pr.display_name == p.display_name
            && pr.role == p.role && pr.phone_e164 == p.phone_e164,
        pr.joined_at == p.joined_at.unwrap_or(now),
{
}

/// The limits of a group are its own, else 2000 characters and 200 members.
pub proof fn law_group_limits(g: &GroupDto, len: usize, cap: usize, min: Option<u32>)
    requires
        call_ensures(GroupDto::message_max_length, (g,), len),
        call_ensures(GroupDto::member_cap, (g,), cap),
        call_ensures(GroupDto::min_members_to_post, (g,), min),
    ensures
        g.limits is None ==> len == 2000 && cap == 200 && min is None,
        g.limits matches Some(l) ==> min == l.min_members_to_post && (l.message_max_length is None
            ==> len == 2000) && (l.member_cap is None ==> cap == 200) && (
        l.message_max_length matches Some(n) ==> len == n) && (l.member_cap matches Some(n) ==> cap
            == n),
{
}

/// A challenge expires when the server says, else after the seconds that it named.
pub proof fn law_challenge_expires(c: &EnrollmentChallenge, now: i64, r: Option<i64>)
    requires
        call_ensures(EnrollmentChallenge::expires_at, (c, now), r),
        c.expires_in_seconds matches Some(s) ==> i64::MIN <= now + s * 1_000 <= i64::MAX,
    ensures
        c.expires_at_epoch_ms is Some ==> r == c.expires_at_epoch_ms,
        c.expires_at_epoch_ms is None && c.expires_in_seconds is None ==> r is None,
        c.expires_at_epoch_ms is None && c.expires_in_seconds is Some ==> (r matches Some(t) && t
            == now + c.expires_in_seconds->0 * 1_000),
{
}

/// The words for roles and kinds are read back as what they name, in any case; other words name
/// neither role, and a kind that is unknown.
pub proof fn law_words(s: &str, role: Option<Role>, kind: GroupKind)
    requires
        call_ensures(Role::parse, (s,), role),
        call_ensures(GroupKind::parse, (s,), kind),
    ensures
        ascii_lower(s@) == "admin"@ ==> role == Some(Role::Admin),
        ascii_lower(s@) == "member"@ ==> role == Some(Role::Member),
        ascii_lower(s@) != "admin"@ && ascii_lower(s@) != "member"@ ==> role is None,
        ascii_lower(s@) == "standard"@ ==> kind == GroupKind::Standard,
        ascii_lower(s@) == "system"@ ==> kind == GroupKind::System,
        ascii_lower(s@) != "standard"@ && ascii_lower(s@) != "system"@ ==> kind == GroupKind::Unknown,
{
    reveal_strlit("admin");
    reveal_strlit("member");
    reveal_strlit("standard");
    reveal_strlit("system");
    assert("admin"@.len() == 5 && "member"@.len() == 6);
    assert("standard"@.len() == 8 && "system"@.len() == 6);
}

/// The words that are written for roles, kinds and documents.
pub proof fn law_words_written(role: Role, kind: GroupKind, key: LegalDocKey, a: &'static str, b: &'static str, c: &'static str)
    requires
        call_ensures(Role::as_str, (role,), a),
        call_ensures(GroupKind::as_str, (kind,), b),
        call_ensures(LegalDocKey::as_str, (key,), c),
    ensures
        role == Role::Admin ==> a@ == "admin"@,
        role == Role::Member ==> a@ == "member"@,
        kind == GroupKind::Standard ==> b@ == "standard"@,
        kind == GroupKind::System ==> b@ == "system"@,
        kind == GroupKind::Unknown ==> b@ == "unknown"@,
        key == LegalDocKey::Privacy ==> c@ == "privacy"@,
        key == LegalDocKey::Terms ==> c@ == "terms"@,
{
}

/// A new group is a standard one in which everyone posts and admins add members.
pub proof fn law_new_group(name: &str, category: &str, r: CreateGroupRequest)
    requires
        call_ensures(CreateGroupRequest::standard, (name, category), r),
    ensures
        r.name@ == name@,
        r.category@ == category@,
        r.kind == GroupKind::Standard,
        r.who_can_post.0@ == "everyone"@,
        r.who_can_add_members.0@ == "admins"@,
{
}

} // verus!
