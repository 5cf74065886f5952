//! How a failed request is told apart.

use crate::error::{
    dashed, extra_number, extra_of, field_text, slug_of, AppError, ErrorsDto, ProblemDto,
};
use crate::text::{ascii_lower, split};
use vstd::prelude::*;

verus! {

proof fn lemma_codes()
    ensures
        "validation-failed"@.len() == 17,
        "validation"@.len() == 10,
        "invalid-display-name"@.len() == 20,
        "invalid-group-name"@.len() == 18,
        "group-full"@.len() == 10,
        "group-too-small"@.len() == 15,
        "rate-limited"@.len() == 12,
        "reserved-display-name"@.len() == 21,
        "invalid-category"@.len() == 16,
        "invalid-message"@.len() == 15,
        "contacts-batch-too-large"@.len() == 24,
        "client-message-id-reused"@.len() == 24,
        "unauthorized"@.len() == 12,
        "invalid-code"@.len() == 12,
        "forbidden"@.len() == 9,
        "posting-not-allowed"@.len() == 19,
        "adding-members-not-allowed"@.len() == 26,
        "admin-required"@.len() == 14,
        "leave-not-allowed"@.len() == 17,
        "device-blocked"@.len() == 14,
        "not-found"@.len() == 9,
        "last-admin"@.len() == 10,
        "sms-delivery-failed"@.len() == 19,
        "not-implemented"@.len() == 15,
        "internal"@.len() == 8,
        "validation-failed"@[0] == 'v',
        "leave-not-allowed"@[0] == 'l',
        "validation"@[0] == 'v',
        "group-full"@[0] == 'g',
        "last-admin"@[0] == 'l',
        "group-too-small"@[0] == 'g',
        "invalid-message"@[0] == 'i',
        "not-implemented"@[0] == 'n',
        "rate-limited"@[0] == 'r',
        "unauthorized"@[0] == 'u',
        "invalid-code"@[0] == 'i',
        "contacts-batch-too-large"@[1] == 'o',
        "client-message-id-reused"@[1] == 'l',
        "forbidden"@[0] == 'f',
        "not-found"@[0] == 'n',
        "posting-not-allowed"@[0] == 'p',
        "sms-delivery-failed"@[0] == 's',
        "admin-required"@[0] == 'a',
        "device-blocked"@[0] == 'd',
{
    reveal_strlit("validation-failed");
    reveal_strlit("validation");
    reveal_strlit("invalid-display-name");
    reveal_strlit("invalid-group-name");
    reveal_strlit("group-full");
    reveal_strlit("group-too-small");
    reveal_strlit("rate-limited");
    reveal_strlit("reserved-display-name");
    reveal_strlit("invalid-category");
    reveal_strlit("invalid-message");
    reveal_strlit("contacts-batch-too-large");
    reveal_strlit("client-message-id-reused");
    reveal_strlit("unauthorized");
    reveal_strlit("invalid-code");
    reveal_strlit("forbidden");
    reveal_strlit("posting-not-allowed");
    reveal_strlit("adding-members-not-allowed");
    reveal_strlit("admin-required");
    reveal_strlit("leave-not-allowed");
    reveal_strlit("device-blocked");
    reveal_strlit("not-found");
    reveal_strlit("last-admin");
    reveal_strlit("sms-delivery-failed");
    reveal_strlit("not-implemented");
    reveal_strlit("internal");
}

proof fn lemma_last_piece(a: Seq<char>, sep: char, w: Seq<char>)
    requires
        !w.contains(sep),
    ensures
        split(a.push(sep) + w, seq![sep]).last() == w,
        split(w, seq![sep]).last() == w,
    decreases w.len(),
{
    let seps = seq![sep];
    assert(seps.contains(sep)) by {
        assert(seps[0] == sep);
    }
    let s = a.push(sep) + w;
    if w.len() == 0 {
        assert(s =~= a.push(sep));
        assert(s.last() == sep);
        assert(w =~= Seq::<char>::empty());
    } else {
        let v = w.drop_last();
        assert forall|k: int| 0 <= k < v.len() implies v[k] != sep by {
            assert(w[k] == v[k]);
            assert(w.contains(w[k]));
        }
        assert(!v.contains(sep));
        lemma_last_piece(a, sep, v);
        assert(s.drop_last() =~= a.push(sep) + v);
        assert(s.last() == w.last());
        assert(w.contains(w.last())) by {
            assert(w[w.len() - 1] == w.last());
        }
        assert(!seps.contains(w.last()));
        assert(w =~= v.push(w.last()));
    }
}

/// A word that is a code as it stands: small letters and dashes, no `/` and no `:`.
pub open spec fn is_slug(w: Seq<char>) -> bool {
    &&& w.len() > 0
    &&& forall|i: int|
        0 <= i < w.len() ==> (#[trigger] w[i]) != ':' && w[i] != '/' && w[i] != '_' && !('A' as u32
            <= w[i] as u32 <= 'Z' as u32)
}

proof fn lemma_slug(w: Seq<char>)
    requires
        is_slug(w),
    ensures
        !w.contains(':'),
        !w.contains('/'),
        dashed(ascii_lower(w)) == w,
{
    assert(ascii_lower(w) =~= w);
    assert(dashed(w) =~= w);
}

/// The code of a problem is the last part of its type, behind the last `:` or `/`, whatever stands
/// in front of it; a problem without a type has none.
pub proof fn law_problem_code(p: &ProblemDto, a: Seq<char>, w: Seq<char>, r: Option<String>)
    requires
        call_ensures(ProblemDto::code, (p,), r),
        is_slug(w),
    ensures
        p.type_uri is None ==> r is None,
        p.type_uri matches Some(u) && u@ == w ==> (r matches Some(c) && c@ == w),
        p.type_uri matches Some(u) && u@ == a.push(':') + w ==> (r matches Some(c) && c@ == w),
        p.type_uri matches Some(u) && u@ == a.push('/') + w ==> (r matches Some(c) && c@ == w),
{
    lemma_slug(w);
    lemma_last_piece(a, ':', w);
    lemma_last_piece(a, '/', w);
    if let Some(u) = p.type_uri {
        if u@ == a.push('/') + w {
            lemma_after_colon(a, w);
        }
    }
}

proof fn lemma_after_colon(a: Seq<char>, w: Seq<char>)
    requires
        !w.contains(':'),
        !w.contains('/'),
    ensures
        slug_of(a.push('/') + w) == w,
    decreases a.len(),
{
    let seps = seq![':'];
    let s = a.push('/') + w;
    lemma_tail(a, w);
    let piece = split(s, seps).last();
    let front = split(a, seps).last();
    assert(piece == front.push('/') + w);
    lemma_last_piece(front, '/', w);
}

proof fn lemma_tail(a: Seq<char>, w: Seq<char>)
    requires
        !w.contains(':'),
    ensures
        split(a.push('/') + w, seq![':']).last() == split(a, seq![':']).last().push('/') + w,
    decreases w.len(),
{
    let seps = seq![':'];
    let s = a.push('/') + w;
    assert(!seps.contains('/'));
    if w.len() == 0 {
        assert(s =~= a.push('/'));
        assert(s.drop_last() =~= a);
        assert(split(s, seps).last() =~= split(a, seps).last().push('/') + w);
    } else {
        let v = w.drop_last();
        assert(!v.contains(':')) by {
            if v.contains(':') {
                let k = choose|k: int| 0 <= k < v.len() && v[k] == ':';
                assert(w[k] == ':');
            }
        }
        lemma_tail(a, v);
        assert(s.drop_last() =~= a.push('/') + v);
        assert(s.last() == w.last());
        assert(w[w.len() - 1] == w.last());
        assert(!seps.contains(w.last()));
        assert(split(s, seps).last() =~= split(a, seps).last().push('/') + w);
    }
}

/// The codes that name an error.
pub open spec fn known_code(c: Seq<char>) -> bool {
    ||| c == "validation-failed"@
    ||| c == "validation"@
    ||| c == "invalid-display-name"@
    ||| c == "invalid-group-name"@
    ||| c == "group-full"@
    ||| c == "group-too-small"@
    ||| c == "rate-limited"@
    ||| c == "reserved-display-name"@
    ||| c == "invalid-category"@
    ||| c == "invalid-message"@
    ||| c == "contacts-batch-too-large"@
    ||| c == "client-message-id-reused"@
    ||| c == "unauthorized"@
    ||| c == "invalid-code"@
    ||| c == "forbidden"@
    ||| c == "posting-not-allowed"@
    ||| c == "adding-members-not-allowed"@
    ||| c == "admin-required"@
    ||| c == "leave-not-allowed"@
    ||| c == "device-blocked"@
    ||| c == "not-found"@
    ||| c == "last-admin"@
    ||| c == "sms-delivery-failed"@
    ||| c == "not-implemented"@
    ||| c == "internal"@
}

/// Each known code stands for its own error, whatever the status; the request keeps its id.
pub proof fn law_error_by_code(
    status: u16,
    p: &ProblemDto,
    header: Option<u64>,
    c: String,
    r: AppError,
    id: Option<&String>,
)
    requires
        call_ensures(ProblemDto::code, (p,), Some(c)),
        call_ensures(AppError::from_problem, (status, p, header), r),
        call_ensures(AppError::request_id, (&r,), id),
    ensures
        c@ == "validation-failed"@ ==> r is ValidationFailed,
        c@ == "validation"@ ==> r is ValidationFailed,
        c@ == "invalid-display-name"@ ==> r is InvalidDisplayName,
        c@ == "invalid-group-name"@ ==> r is InvalidGroupName,
        c@ == "group-full"@ ==> r is GroupFull,
        c@ == "group-too-small"@ ==> r is GroupTooSmall,
        c@ == "rate-limited"@ ==> r is RateLimited,
        c@ == "reserved-display-name"@ ==> r is ReservedDisplayName,
        c@ == "invalid-category"@ ==> r is InvalidCategory,
        c@ == "invalid-message"@ ==> r is InvalidMessage,
        c@ == "contacts-batch-too-large"@ ==> r is ContactsBatchTooLarge,
        c@ == "client-message-id-reused"@ ==> r is ClientMessageIdReused,
        c@ == "unauthorized"@ ==> r is Unauthorized,
        c@ == "invalid-code"@ ==> r is InvalidCode,
        c@ == "forbidden"@ ==> r is Forbidden,
        c@ == "posting-not-allowed"@ ==> r is PostingNotAllowed,
        c@ == "adding-members-not-allowed"@ ==> r is AddingMembersNotAllowed,
        c@ == "admin-required"@ ==> r is AdminRequired,
        c@ == "leave-not-allowed"@ ==> r is LeaveNotAllowed,
        c@ == "device-blocked"@ ==> r is DeviceBlocked,
        c@ == "not-found"@ ==> r is NotFound,
        c@ == "last-admin"@ ==> r is LastAdmin,
        c@ == "sms-delivery-failed"@ ==> r is SmsDeliveryFailed,
        c@ == "not-implemented"@ ==> r is NotImplemented,
        c@ == "internal"@ ==> r is Internal,
        p.request_id is None ==> id is None,
        p.request_id matches Some(x) ==> id == Some(&x),
{
    lemma_codes();
}

/// A status on its own: the error for it, with the wait that a header named.
pub open spec fn by_status(
    status: u16,
    rid: Option<String>,
    detail: Option<String>,
    header: Option<u64>,
    r: AppError,
) -> bool {
    &&& status == 400 ==> r is ValidationFailed
    &&& status == 401 ==> r == (AppError::Unauthorized { request_id: rid })
    &&& status == 403 ==> r == (AppError::Forbidden { request_id: rid })
    &&& status == 404 ==> r == (AppError::NotFound { request_id: rid })
    &&& status == 429 ==> r == (AppError::RateLimited {
        retry_after_seconds: header,
        request_id: rid,
    })
    &&& status == 501 ==> r == (AppError::NotImplemented { request_id: rid })
    &&& 500 <= status <= 599 && status != 501 ==> r == (AppError::Internal { request_id: rid })
    &&& (status < 400 || status == 402 || 405 <= status <= 428 || 430 <= status <= 499 || status
        >= 600) ==> r == (AppError::Unknown { status: Some(status), request_id: rid, detail })
}

/// A reply without a problem document goes by its status.
pub proof fn law_error_by_status(
    status: u16,
    rid: Option<String>,
    detail: Option<String>,
    header: Option<u64>,
    errors: Option<ErrorsDto>,
    r: AppError,
)
    requires
        call_ensures(AppError::from_status, (status, rid, detail, header, errors), r),
    ensures
        by_status(status, rid, detail, header, r),
        status == 400 ==> r == (AppError::ValidationFailed { request_id: rid, errors }),
{
}

/// A problem document without a code, or with one that names no error, goes by its status too.
pub proof fn law_unknown_problem(status: u16, p: &ProblemDto, header: Option<u64>, code: Option<String>, r: AppError)
    requires
        call_ensures(ProblemDto::code, (p,), code),
        call_ensures(AppError::from_problem, (status, p, header), r),
        code matches Some(c) ==> !known_code(c@),
    ensures
        by_status(status, p.request_id, p.detail, header, r),
{
}

proof fn lemma_extra(p: ProblemDto, key: Seq<char>, i: int)
    requires
        0 <= i < p.extra@.len(),
        p.extra@[i].name@ == key,
        forall|j: int| 0 <= j < i ==> (#[trigger] p.extra@[j]).name@ != key,
    ensures
        extra_number(p.extra@, key) == Some(p.extra@[i].number),
{
    lemma_extra_at(p.extra@, key, i);
}

proof fn lemma_extra_at(m: Seq<crate::error::ExtraMember>, key: Seq<char>, i: int)
    requires
        0 <= i < m.len(),
        m[i].name@ == key,
        forall|j: int| 0 <= j < i ==> (#[trigger] m[j]).name@ != key,
    ensures
        extra_number(m, key) == Some(m[i].number),
    decreases i,
{
    if i > 0 {
        assert(m[0].name@ != key);
        let rest = m.drop_first();
        assert forall|j: int| 0 <= j < i - 1 implies (#[trigger] rest[j]).name@ != key by {
            assert(m[j + 1].name@ != key);
        }
        lemma_extra_at(rest, key, i - 1);
    }
}

proof fn lemma_no_extra(m: Seq<crate::error::ExtraMember>, key: Seq<char>)
    requires
        forall|j: int| 0 <= j < m.len() ==> (#[trigger] m[j]).name@ != key,
    ensures
        extra_number(m, key) is None,
    decreases m.len(),
{
    if m.len() > 0 {
        assert(m[0].name@ != key);
        let rest = m.drop_first();
        assert forall|j: int| 0 <= j < rest.len() implies (#[trigger] rest[j]).name@ != key by {
            assert(m[j + 1].name@ != key);
        }
        lemma_no_extra(rest, key);
    }
}

/// The limit that a problem names is the error's limit; without one the usual limit stands.
pub proof fn law_limits_named(
    status: u16,
    p: &ProblemDto,
    header: Option<u64>,
    r: AppError,
    key: Seq<char>,
    i: int,
    n: u64,
)
    requires
        call_ensures(AppError::from_problem, (status, p, header), r),
        0 <= i < p.extra@.len(),
        p.extra@[i].name@ == key,
        p.extra@[i].number == Some(n),
        forall|j: int| 0 <= j < i ==> (#[trigger] p.extra@[j]).name@ != key,
        n <= 0xffff_ffff,
    ensures
        key == "maxLength"@ ==> (r matches AppError::InvalidDisplayName { max_length, .. }
            ==> max_length == n),
        key == "maxLength"@ ==> (r matches AppError::InvalidGroupName { max_length, .. }
            ==> max_length == n),
        key == "maxMembers"@ ==> (r matches AppError::GroupFull { max_members, .. } ==> max_members
            == n),
        key == "minMembers"@ ==> (r matches AppError::GroupTooSmall { min_members, .. }
            ==> min_members == Some(n as u32)),
        key == "retryAfterSeconds"@ && p.type_uri is Some && (exists|c: String|
            #[trigger] call_ensures(ProblemDto::code, (p,), Some(c)) && c@ == "rate-limited"@) ==> (
        r matches AppError::RateLimited { retry_after_seconds, .. } && retry_after_seconds == Some(
            n,
        )),
{
    lemma_extra(*p, key, i);
    lemma_codes();
    assert(extra_of(*p, key) == Some(n as usize));
}

/// Where a problem names no limit, the usual one stands: 64 characters for a display name, 100 for
/// a group's name, 200 members; a wait is then that of the header.
pub proof fn law_usual_limits(status: u16, p: &ProblemDto, header: Option<u64>, r: AppError)
    requires
        call_ensures(AppError::from_problem, (status, p, header), r),
        p.extra@.len() == 0,
        p.errors is None,
    ensures
        r matches AppError::InvalidDisplayName { max_length, .. } ==> max_length == 64,
        r matches AppError::InvalidGroupName { max_length, .. } ==> max_length == 100,
        r matches AppError::GroupFull { max_members, .. } ==> max_members == 200,
        r matches AppError::GroupTooSmall { min_members, .. } ==> min_members is None,
        r matches AppError::RateLimited { retry_after_seconds, .. } ==> retry_after_seconds
            == header,
{
    lemma_no_extra(p.extra@, "maxLength"@);
    lemma_no_extra(p.extra@, "maxMembers"@);
    lemma_no_extra(p.extra@, "minMembers"@);
    lemma_no_extra(p.extra@, "minMembersToPost"@);
    lemma_no_extra(p.extra@, "retryAfterSeconds"@);
}

proof fn lemma_field_text(m: Seq<crate::error::ErrorField>, key: Seq<char>, i: int)
    requires
        0 <= i < m.len(),
        m[i].name@ == key,
        forall|j: int| 0 <= j < i ==> (#[trigger] m[j]).name@ != key,
    ensures
        field_text(m, key) == Some(m[i].text),
    decreases i,
{
    if i > 0 {
        assert(m[0].name@ != key);
        let rest = m.drop_first();
        assert forall|j: int| 0 <= j < i - 1 implies (#[trigger] rest[j]).name@ != key by {
            assert(m[j + 1].name@ != key);
        }
        lemma_field_text(rest, key, i - 1);
    }
}

/// A refusal tells the reason that the server gave.
pub proof fn law_refusal_tells_why(
    status: u16,
    p: &ProblemDto,
    header: Option<u64>,
    r: AppError,
    f: Vec<crate::error::ErrorField>,
    i: int,
)
    requires
        call_ensures(AppError::from_problem, (status, p, header), r),
        p.errors == Some(ErrorsDto::Fields(f)),
        0 <= i < f@.len(),
        f@[i].name@ == "reason"@,
        forall|j: int| 0 <= j < i ==> (#[trigger] f@[j]).name@ != "reason"@,
    ensures
        r matches AppError::PostingNotAllowed { reason, .. } ==> reason == Some(f@[i].text),
        r matches AppError::AddingMembersNotAllowed { reason, .. } ==> reason == Some(f@[i].text),
        r matches AppError::AdminRequired { reason, .. } ==> reason == Some(f@[i].text),
        r matches AppError::LeaveNotAllowed { reason, .. } ==> reason == Some(f@[i].text),
        r matches AppError::DeviceBlocked { reason, .. } ==> reason == Some(f@[i].text),
{
    lemma_field_text(f@, "reason"@, i);
}

/// What may be tried again: network and socket failures, the server's own failures, and a request
/// that came too often. Nothing else.
pub proof fn law_retryable(e: &AppError, r: bool)
    requires
        call_ensures(AppError::is_retryable, (e,), r),
    ensures
        r <==> e is Network || e is Internal || e is RateLimited || e is WebSocket || (
        *e matches AppError::Unknown { status: Some(s), .. } && 500 <= s <= 599),
{
}

/// What ends the session: a session that the server does not know, and a blocked device.
pub proof fn law_session_lost(e: &AppError, r: bool)
    requires
        call_ensures(AppError::invalidates_session, (e,), r),
    ensures
        r <==> e is Unauthorized || e is DeviceBlocked,
{
}

/// The wait is that of the refusal for coming too often, and no other error has one.
pub proof fn law_wait_named(e: &AppError, r: Option<u64>)
    requires
        call_ensures(AppError::retry_after, (e,), r),
    ensures
        *e matches AppError::RateLimited { retry_after_seconds, .. } ==> r == retry_after_seconds,
        !(e is RateLimited) ==> r is None,
{
}

/// An error that came from a status alone has that status again.
pub proof fn law_status_kept(
    status: u16,
    rid: Option<String>,
    detail: Option<String>,
    header: Option<u64>,
    errors: Option<ErrorsDto>,
    e: AppError,
    r: Option<u16>,
)
    requires
        call_ensures(AppError::from_status, (status, rid, detail, header, errors), e),
        call_ensures(AppError::status, (&e,), r),
    ensures
        status < 500 || status == 501 || status >= 600 ==> r == Some(status),
        500 <= status <= 599 && status != 501 ==> r == Some(500u16),
{
}

/// An error that came from a code has that code again.
pub proof fn law_code_kept(
    status: u16,
    p: &ProblemDto,
    header: Option<u64>,
    c: String,
    e: AppError,
    r: &'static str,
)
    requires
        call_ensures(ProblemDto::code, (p,), Some(c)),
        call_ensures(AppError::from_problem, (status, p, header), e),
        call_ensures(AppError::code, (&e,), r),
        known_code(c@),
    ensures
        c@ != "validation"@ ==> r@ == c@,
        c@ == "validation"@ ==> r@ == "validation-failed"@,
{
    lemma_codes();
}

} // verus!
