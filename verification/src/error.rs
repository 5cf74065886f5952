//! Typed errors and the mapping of problem documents.
//!
//! The server describes a failure by a problem document; the end of its `type` selects the error
//! (`urn:tzibbur:error:invalid-display-name` gives [`AppError::InvalidDisplayName`]). Anything
//! unmapped falls back to the HTTP status.

use crate::constants::{DEFAULT_MAX_DISPLAY_NAME, DEFAULT_MAX_GROUP_NAME, DEFAULT_MAX_MEMBERS};
use crate::numbers::{decimal, show_u64};
use crate::text::{ascii_lower, chars_of, same, split, split_on, to_ascii_lower};
use vstd::prelude::*;

verus! {

/// One entry of a list of field errors.
#[derive(Debug)]
pub struct ErrorItem {
    pub path: String,
    pub message: String,
}

/// One member of an object of field errors: its text (a string's own text, any other value in JSON
/// notation) and, for a whole number, its value.
#[derive(Debug)]
pub struct ErrorField {
    pub name: String,
    pub text: String,
    pub number: Option<u64>,
}

/// Field-level validation errors.
#[derive(Debug)]
pub enum ErrorsDto {
    Items(Vec<ErrorItem>),
    Fields(Vec<ErrorField>),
    /// Any other value, in JSON notation.
    Text(String),
}

/// A member of a problem document beyond the standard ones, such as `maxLength`.
#[derive(Debug)]
pub struct ExtraMember {
    pub name: String,
    /// The value, where it is a whole number.
    pub number: Option<u64>,
}

/// A problem document.
#[derive(Debug)]
pub struct ProblemDto {
    pub type_uri: Option<String>,
    pub title: Option<String>,
    pub status: Option<u16>,
    pub detail: Option<String>,
    pub request_id: Option<String>,
    pub errors: Option<ErrorsDto>,
    pub extra: Vec<ExtraMember>,
}

impl Default for ProblemDto {
    fn default() -> (r: Self)
        ensures
            r.type_uri is None,
            r.title is None,
            r.status is None,
            r.detail is None,
            r.request_id is None,
            r.errors is None,
            r.extra@.len() == 0,
    {
        ProblemDto {
            type_uri: None,
            title: None,
            status: None,
            detail: None,
            request_id: None,
            errors: None,
            extra: Vec::new(),
        }
    }
}

/// Two lists of field errors say the same.
pub open spec fn same_errors(a: Option<ErrorsDto>, b: Option<ErrorsDto>) -> bool {
    match (a, b) {
        (None, None) => true,
        (Some(ErrorsDto::Items(x)), Some(ErrorsDto::Items(y))) => x@.len() == y@.len() && forall|
            i: int,
        |
            0 <= i < x@.len() ==> (#[trigger] x@[i]).path@ == y@[i].path@ && x@[i].message@
                == y@[i].message@,
        (Some(ErrorsDto::Fields(x)), Some(ErrorsDto::Fields(y))) => x@.len() == y@.len() && forall|
            i: int,
        |
            0 <= i < x@.len() ==> (#[trigger] x@[i]).name@ == y@[i].name@ && x@[i].text@
                == y@[i].text@ && x@[i].number == y@[i].number,
        (Some(ErrorsDto::Text(x)), Some(ErrorsDto::Text(y))) => x@ == y@,
        _ => false,
    }
}

/// A copy of a list of field errors.
pub fn copy_errors(e: &Option<ErrorsDto>) -> (r: Option<ErrorsDto>)
    ensures
        same_errors(*e, r),
{
    match e {
        None => None,
        Some(ErrorsDto::Text(t)) => Some(ErrorsDto::Text(t.clone())),
        Some(ErrorsDto::Items(items)) => {
            let mut out: Vec<ErrorItem> = Vec::new();
            let mut i: usize = 0;
            while i < items.len()
                invariant
                    i <= items.len(),
                    out@.len() == i,
                    forall|k: int|
                        0 <= k < i ==> (#[trigger] items@[k]).path@ == out@[k].path@
                            && items@[k].message@ == out@[k].message@,
                decreases items.len() - i,
            {
                out.push(
                    ErrorItem { path: items[i].path.clone(), message: items[i].message.clone() },
                );
                i += 1;
            }
            Some(ErrorsDto::Items(out))
        },
        Some(ErrorsDto::Fields(fields)) => {
            let mut out: Vec<ErrorField> = Vec::new();
            let mut i: usize = 0;
            while i < fields.len()
                invariant
                    i <= fields.len(),
                    out@.len() == i,
                    forall|k: int|
                        0 <= k < i ==> (#[trigger] fields@[k]).name@ == out@[k].name@
                            && fields@[k].text@ == out@[k].text@ && fields@[k].number
                            == out@[k].number,
                decreases fields.len() - i,
            {
                out.push(
                    ErrorField {
                        name: fields[i].name.clone(),
                        text: fields[i].text.clone(),
                        number: fields[i].number,
                    },
                );
                i += 1;
            }
            Some(ErrorsDto::Fields(out))
        },
    }
}

/// The end of a problem's `type`: what follows its last `:`, and in that its last `/`.
pub open spec fn slug_of(uri: Seq<char>) -> Seq<char> {
    split(split(uri, seq![':']).last(), seq!['/']).last()
}

/// `s` with `-` in place of `_`.
pub open spec fn dashed(s: Seq<char>) -> Seq<char> {
    Seq::new(
        s.len(),
        |i: int|
            if s[i] == '_' {
                '-'
            } else {
                s[i]
            },
    )
}

/// The code of a problem `type`, if it has one.
pub open spec fn code_of(type_uri: Option<String>) -> Option<Seq<char>> {
    match type_uri {
        Some(u) => if slug_of(u@).len() == 0 {
            None
        } else {
            Some(dashed(ascii_lower(slug_of(u@))))
        },
        None => None,
    }
}

fn last_piece(s: &str, sep: char) -> (r: String)
    ensures
        r@ == split(s@, seq![sep]).last(),
{
    let seps: [char; 1] = [sep];
    let mut pieces = split_on(s, seps.as_slice());
    proof {
        crate::text::lemma_split_nonempty(s@, seq![sep]);
        assert(seps@ =~= seq![sep]);
    }
    let ghost all = pieces@;
    match pieces.pop() {
        Some(p) => {
            assert(crate::text::texts(all).last() == p@);
            p
        },
        None => String::new(),
    }
}

fn with_dashes(s: &str) -> (r: String)
    ensures
        r@ == dashed(s@),
{
    let v = chars_of(s);
    let mut out = String::new();
    let mut i: usize = 0;
    while i < v.len()
        invariant
            i <= v.len(),
            v@ == s@,
            out@ == dashed(s@).take(i as int),
        decreases v.len() - i,
    {
        let c = if v[i] == '_' {
            '-'
        } else {
            v[i]
        };
        out.push(c);
        assert(dashed(s@).take(i + 1) =~= dashed(s@).take(i as int).push(c));
        i += 1;
    }
    assert(dashed(s@).take(v.len() as int) =~= dashed(s@));
    out
}

/// The number of the first extra member named `key`; `None` when there is no such member.
pub open spec fn extra_number(m: Seq<ExtraMember>, key: Seq<char>) -> Option<Option<u64>>
    decreases m.len(),
{
    if m.len() == 0 {
        None
    } else if m[0].name@ == key {
        Some(m[0].number)
    } else {
        extra_number(m.drop_first(), key)
    }
}

/// The number of the first error field named `key`.
pub open spec fn field_number(m: Seq<ErrorField>, key: Seq<char>) -> Option<u64>
    decreases m.len(),
{
    if m.len() == 0 {
        None
    } else if m[0].name@ == key {
        m[0].number
    } else {
        field_number(m.drop_first(), key)
    }
}

/// The text of the first error field named `key`.
pub open spec fn field_text(m: Seq<ErrorField>, key: Seq<char>) -> Option<String>
    decreases m.len(),
{
    if m.len() == 0 {
        None
    } else if m[0].name@ == key {
        Some(m[0].text)
    } else {
        field_text(m.drop_first(), key)
    }
}

/// Why the server refused, as the error field `reason` says.
pub open spec fn reason_of(p: ProblemDto) -> Option<String> {
    match p.errors {
        Some(ErrorsDto::Fields(f)) => field_text(f@, "reason"@),
        _ => None,
    }
}

/// A number the problem document gives under `key`: an extra member, else an error field.
pub open spec fn extra_of(p: ProblemDto, key: Seq<char>) -> Option<usize> {
    let n = match extra_number(p.extra@, key) {
        Some(v) => v,
        None => match p.errors {
            Some(ErrorsDto::Fields(f)) => field_number(f@, key),
            _ => None,
        },
    };
    match n {
        Some(v) => Some(v as usize),
        None => None,
    }
}

impl ProblemDto {
    /// The end of `type`, in lower case and with dashes.
    pub fn code(&self) -> (r: Option<String>)
        ensures
            match r {
                Some(c) => code_of(self.type_uri) == Some(c@),
                None => code_of(self.type_uri) is None,
            },
    {
        match &self.type_uri {
            None => None,
            Some(u) => {
                let after_colon = last_piece(u.as_str(), ':');
                let slug = last_piece(after_colon.as_str(), '/');
                if slug.as_str().is_empty() {
                    None
                } else {
                    Some(with_dashes(to_ascii_lower(slug.as_str()).as_str()))
                }
            },
        }
    }

    fn extra_usize(&self, key: &str) -> (r: Option<usize>)
        ensures
            r == extra_of(*self, key@),
    {
        let mut i: usize = 0;
        assert(self.extra@.skip(0) =~= self.extra@);
        while i < self.extra.len()
            invariant
                i <= self.extra.len(),
                extra_number(self.extra@, key@) == extra_number(self.extra@.skip(i as int), key@),
            decreases self.extra.len() - i,
        {
            if same(self.extra[i].name.as_str(), key) {
                return match self.extra[i].number {
                    Some(v) => Some(v as usize),
                    None => None,
                };
            }
            assert(self.extra@.skip(i as int).drop_first() =~= self.extra@.skip(i + 1));
            i += 1;
        }
        match &self.errors {
            Some(ErrorsDto::Fields(f)) => {
                let mut k: usize = 0;
                assert(f@.skip(0) =~= f@);
                while k < f.len()
                    invariant
                        k <= f.len(),
                        self.errors == Some(ErrorsDto::Fields(*f)),
                        extra_number(self.extra@, key@) is None,
                        field_number(f@, key@) == field_number(f@.skip(k as int), key@),
                    decreases f.len() - k,
                {
                    if same(f[k].name.as_str(), key) {
                        return match f[k].number {
                            Some(v) => Some(v as usize),
                            None => None,
                        };
                    }
                    assert(f@.skip(k as int).drop_first() =~= f@.skip(k + 1));
                    k += 1;
                }
                None
            },
            _ => None,
        }
    }

    fn reason(&self) -> (r: Option<String>)
        ensures
            r == reason_of(*self),
    {
        match &self.errors {
            Some(ErrorsDto::Fields(f)) => {
                let mut k: usize = 0;
                assert(f@.skip(0) =~= f@);
                while k < f.len()
                    invariant
                        k <= f.len(),
                        self.errors == Some(ErrorsDto::Fields(*f)),
                        field_text(f@, "reason"@) == field_text(f@.skip(k as int), "reason"@),
                    decreases f.len() - k,
                {
                    if same(f[k].name.as_str(), "reason") {
                        return Some(f[k].text.clone());
                    }
                    assert(f@.skip(k as int).drop_first() =~= f@.skip(k + 1));
                    k += 1;
                }
                None
            },
            _ => None,
        }
    }
}

/// Every failure of the client.
#[derive(Debug)]
pub enum AppError {
    ValidationFailed { request_id: Option<String>, errors: Option<ErrorsDto> },
    InvalidDisplayName { max_length: usize, request_id: Option<String> },
    ReservedDisplayName { request_id: Option<String> },
    InvalidGroupName { max_length: usize, request_id: Option<String> },
    InvalidCategory { request_id: Option<String> },
    InvalidMessage { request_id: Option<String> },
    ContactsBatchTooLarge { request_id: Option<String> },
    ClientMessageIdReused { request_id: Option<String> },
    Unauthorized { request_id: Option<String> },
    InvalidCode { request_id: Option<String> },
    Forbidden { request_id: Option<String> },
    PostingNotAllowed { reason: Option<String>, request_id: Option<String> },
    AddingMembersNotAllowed { reason: Option<String>, request_id: Option<String> },
    AdminRequired { reason: Option<String>, request_id: Option<String> },
    LeaveNotAllowed { reason: Option<String>, request_id: Option<String> },
    DeviceBlocked { reason: Option<String>, request_id: Option<String> },
    NotFound { request_id: Option<String> },
    GroupFull { max_members: usize, request_id: Option<String> },
    LastAdmin { request_id: Option<String> },
    SmsDeliveryFailed { request_id: Option<String> },
    GroupTooSmall { min_members: Option<u32>, request_id: Option<String> },
    RateLimited { retry_after_seconds: Option<u64>, request_id: Option<String> },
    NotImplemented { request_id: Option<String> },
    Internal { request_id: Option<String> },
    Network { message: String },
    Unknown { status: Option<u16>, request_id: Option<String>, detail: Option<String> },
    Store(String),
    Json(String),
    WebSocket(String),
    Protocol { code: String, detail: Option<String> },
    NotSignedIn,
    InvalidInput(String),
}

/// Two errors say the same.
pub open spec fn same_error(a: AppError, b: AppError) -> bool {
    match (a, b) {
        (
            AppError::ValidationFailed { request_id: r, errors: e },
            AppError::ValidationFailed { request_id: s, errors: f },
        ) => r == s && same_errors(e, f),
        _ => a == b,
    }
}

/// The error for an HTTP status alone.
pub open spec fn status_error(
    status: u16,
    request_id: Option<String>,
    detail: Option<String>,
    header: Option<u64>,
    errors: Option<ErrorsDto>,
) -> AppError {
    if status == 400 {
        AppError::ValidationFailed { request_id, errors }
    } else if status == 401 {
        AppError::Unauthorized { request_id }
    } else if status == 403 {
        AppError::Forbidden { request_id }
    } else if status == 404 {
        AppError::NotFound { request_id }
    } else if status == 429 {
        AppError::RateLimited { retry_after_seconds: header, request_id }
    } else if status == 501 {
        AppError::NotImplemented { request_id }
    } else if 500 <= status <= 599 {
        AppError::Internal { request_id }
    } else {
        AppError::Unknown { status: Some(status), request_id, detail }
    }
}

/// `v`, or `d` where there is none.
pub open spec fn or_usize(v: Option<usize>, d: usize) -> usize {
    match v {
        Some(n) => n,
        None => d,
    }
}

fn or_default(v: Option<usize>, d: usize) -> (r: usize)
    ensures
        r == or_usize(v, d),
{
    match v {
        Some(n) => n,
        None => d,
    }
}

/// The error for a problem document: chosen by its code, else by the status.
pub open spec fn problem_error(status: u16, p: ProblemDto, header: Option<u64>) -> AppError {
    let rid = p.request_id;
    match code_of(p.type_uri) {
        None => status_error(status, rid, p.detail, header, p.errors),
        Some(code) => {
            if code == "validation-failed"@ || code == "validation"@ {
                AppError::ValidationFailed { request_id: rid, errors: p.errors }
            } else if code == "invalid-display-name"@ {
                AppError::InvalidDisplayName {
                    max_length: or_usize(extra_of(p, "maxLength"@), DEFAULT_MAX_DISPLAY_NAME),
                    request_id: rid,
                }
            } else if code == "invalid-group-name"@ {
                AppError::InvalidGroupName {
                    max_length: or_usize(extra_of(p, "maxLength"@), DEFAULT_MAX_GROUP_NAME),
                    request_id: rid,
                }
            } else if code == "group-full"@ {
                AppError::GroupFull {
                    max_members: or_usize(extra_of(p, "maxMembers"@), DEFAULT_MAX_MEMBERS),
                    request_id: rid,
                }
            } else if code == "group-too-small"@ {
                AppError::GroupTooSmall {
                    min_members: match extra_of(p, "minMembers"@) {
                        Some(n) => Some(n as u32),
                        None => match extra_of(p, "minMembersToPost"@) {
                            Some(n) => Some(n as u32),
                            None => None,
                        },
                    },
                    request_id: rid,
                }
            } else if code == "rate-limited"@ {
                AppError::RateLimited {
                    retry_after_seconds: match extra_of(p, "retryAfterSeconds"@) {
                        Some(n) => Some(n as u64),
                        None => header,
                    },
                    request_id: rid,
                }
            } else if code == "reserved-display-name"@ {
                AppError::ReservedDisplayName { request_id: rid }
            } else if code == "invalid-category"@ {
                AppError::InvalidCategory { request_id: rid }
            } else if code == "invalid-message"@ {
                AppError::InvalidMessage { request_id: rid }
            } else if code == "contacts-batch-too-large"@ {
                AppError::ContactsBatchTooLarge { request_id: rid }
            } else if code == "client-message-id-reused"@ {
                AppError::ClientMessageIdReused { request_id: rid }
            } else if code == "unauthorized"@ {
                AppError::Unauthorized { request_id: rid }
            } else if code == "invalid-code"@ {
                AppError::InvalidCode { request_id: rid }
            } else if code == "forbidden"@ {
                AppError::Forbidden { request_id: rid }
            } else if code == "posting-not-allowed"@ {
                AppError::PostingNotAllowed { reason: reason_of(p), request_id: rid }
            } else if code == "adding-members-not-allowed"@ {
                AppError::AddingMembersNotAllowed { reason: reason_of(p), request_id: rid }
            } else if code == "admin-required"@ {
                AppError::AdminRequired { reason: reason_of(p), request_id: rid }
            } else if code == "leave-not-allowed"@ {
                AppError::LeaveNotAllowed { reason: reason_of(p), request_id: rid }
            } else if code == "device-blocked"@ {
                AppError::DeviceBlocked { reason: reason_of(p), request_id: rid }
            } else if code == "not-found"@ {
                AppError::NotFound { request_id: rid }
            } else if code == "last-admin"@ {
                AppError::LastAdmin { request_id: rid }
            } else if code == "sms-delivery-failed"@ {
                AppError::SmsDeliveryFailed { request_id: rid }
            } else if code == "not-implemented"@ {
                AppError::NotImplemented { request_id: rid }
            } else if code == "internal"@ {
                AppError::Internal { request_id: rid }
            } else {
                status_error(status, rid, p.detail, header, p.errors)
            }
        },
    }
}

/// The stable code of an error.
pub open spec fn error_code(e: AppError) -> Seq<char> {
    match e {
        AppError::ValidationFailed { .. } => "validation-failed"@,
        AppError::InvalidDisplayName { .. } => "invalid-display-name"@,
        AppError::ReservedDisplayName { .. } => "reserved-display-name"@,
        AppError::InvalidGroupName { .. } => "invalid-group-name"@,
        AppError::InvalidCategory { .. } => "invalid-category"@,
        AppError::InvalidMessage { .. } => "invalid-message"@,
        AppError::ContactsBatchTooLarge { .. } => "contacts-batch-too-large"@,
        AppError::ClientMessageIdReused { .. } => "client-message-id-reused"@,
        AppError::Unauthorized { .. } => "unauthorized"@,
        AppError::InvalidCode { .. } => "invalid-code"@,
        AppError::Forbidden { .. } => "forbidden"@,
        AppError::PostingNotAllowed { .. } => "posting-not-allowed"@,
        AppError::AddingMembersNotAllowed { .. } => "adding-members-not-allowed"@,
        AppError::AdminRequired { .. } => "admin-required"@,
        AppError::LeaveNotAllowed { .. } => "leave-not-allowed"@,
        AppError::DeviceBlocked { .. } => "device-blocked"@,
        AppError::NotFound { .. } => "not-found"@,
        AppError::GroupFull { .. } => "group-full"@,
        AppError::LastAdmin { .. } => "last-admin"@,
        AppError::SmsDeliveryFailed { .. } => "sms-delivery-failed"@,
        AppError::GroupTooSmall { .. } => "group-too-small"@,
        AppError::RateLimited { .. } => "rate-limited"@,
        AppError::NotImplemented { .. } => "not-implemented"@,
        AppError::Internal { .. } => "internal"@,
        AppError::Network { .. } => "network"@,
        AppError::Unknown { .. } => "unknown"@,
        AppError::Store(_) => "store"@,
        AppError::Json(_) => "json"@,
        AppError::WebSocket(_) => "websocket"@,
        AppError::Protocol { .. } => "protocol"@,
        AppError::NotSignedIn => "not-signed-in"@,
        AppError::InvalidInput(_) => "invalid-input"@,
    }
}

/// The HTTP status of an error.
pub open spec fn error_status(e: AppError) -> Option<u16> {
    match e {
        AppError::ValidationFailed { .. }
        | AppError::InvalidDisplayName { .. }
        | AppError::ReservedDisplayName { .. }
        | AppError::InvalidGroupName { .. }
        | AppError::InvalidCategory { .. }
        | AppError::InvalidMessage { .. }
        | AppError::ContactsBatchTooLarge { .. } => Some(400u16),
        AppError::Unauthorized { .. } | AppError::InvalidCode { .. } => Some(401u16),
        AppError::Forbidden { .. }
        | AppError::PostingNotAllowed { .. }
        | AppError::AddingMembersNotAllowed { .. }
        | AppError::AdminRequired { .. }
        | AppError::LeaveNotAllowed { .. }
        | AppError::DeviceBlocked { .. } => Some(403u16),
        AppError::NotFound { .. } => Some(404u16),
        AppError::ClientMessageIdReused { .. } | AppError::GroupTooSmall { .. } => Some(409u16),
        AppError::GroupFull { .. }
        | AppError::LastAdmin { .. }
        | AppError::SmsDeliveryFailed { .. } => Some(422u16),
        AppError::RateLimited { .. } => Some(429u16),
        AppError::NotImplemented { .. } => Some(501u16),
        AppError::Internal { .. } => Some(500u16),
        AppError::Unknown { status, .. } => status,
        _ => None,
    }
}

/// The server's id of the failed request.
pub open spec fn error_request_id(e: AppError) -> Option<String> {
    match e {
        AppError::ValidationFailed { request_id, .. } => request_id,
        AppError::InvalidDisplayName { request_id, .. } => request_id,
        AppError::ReservedDisplayName { request_id, .. } => request_id,
        AppError::InvalidGroupName { request_id, .. } => request_id,
        AppError::InvalidCategory { request_id, .. } => request_id,
        AppError::InvalidMessage { request_id, .. } => request_id,
        AppError::ContactsBatchTooLarge { request_id, .. } => request_id,
        AppError::ClientMessageIdReused { request_id, .. } => request_id,
        AppError::Unauthorized { request_id, .. } => request_id,
        AppError::InvalidCode { request_id, .. } => request_id,
        AppError::Forbidden { request_id, .. } => request_id,
        AppError::PostingNotAllowed { request_id, .. } => request_id,
        AppError::AddingMembersNotAllowed { request_id, .. } => request_id,
        AppError::AdminRequired { request_id, .. } => request_id,
        AppError::LeaveNotAllowed { request_id, .. } => request_id,
        AppError::DeviceBlocked { request_id, .. } => request_id,
        AppError::NotFound { request_id, .. } => request_id,
        AppError::GroupFull { request_id, .. } => request_id,
        AppError::LastAdmin { request_id, .. } => request_id,
        AppError::SmsDeliveryFailed { request_id, .. } => request_id,
        AppError::GroupTooSmall { request_id, .. } => request_id,
        AppError::RateLimited { request_id, .. } => request_id,
        AppError::NotImplemented { request_id, .. } => request_id,
        AppError::Internal { request_id, .. } => request_id,
        AppError::Unknown { request_id, .. } => request_id,
        _ => None,
    }
}

/// The session is gone: the server no longer knows it, or has blocked the device.
pub open spec fn ends_session(e: AppError) -> bool {
    e is Unauthorized || e is DeviceBlocked
}

/// The failure is transient.
pub open spec fn retryable(e: AppError) -> bool {
    match e {
        AppError::Network { .. }
        | AppError::Internal { .. }
        | AppError::RateLimited { .. }
        | AppError::WebSocket(_) => true,
        AppError::Unknown { status, .. } => match status {
            Some(s) => 500 <= s <= 599,
            None => false,
        },
        _ => false,
    }
}

/// ` [requestId=..]`, or nothing.
pub open spec fn rid_suffix(rid: Option<String>) -> Seq<char> {
    match rid {
        Some(r) => " [requestId="@ + r@ + "]"@,
        None => Seq::empty(),
    }
}

/// ` (..)`, or nothing.
pub open spec fn reason_suffix(reason: Option<String>) -> Seq<char> {
    match reason {
        Some(r) => " ("@ + r@ + ")"@,
        None => Seq::empty(),
    }
}

/// What an error says to a reader.
pub open spec fn error_text(e: AppError) -> Seq<char> {
    match e {
        AppError::ValidationFailed { request_id, .. } => "validation failed"@ + rid_suffix(request_id),
        AppError::InvalidDisplayName { max_length, request_id } => "invalid display name (max "@
            + decimal(max_length as nat) + " code points)"@ + rid_suffix(request_id),
        AppError::InvalidGroupName { max_length, request_id } => "invalid group name (max "@
            + decimal(max_length as nat) + " code points)"@ + rid_suffix(request_id),
        AppError::GroupFull { max_members, request_id } => "group is full (max "@ + decimal(
            max_members as nat,
        ) + " members)"@ + rid_suffix(request_id),
        AppError::GroupTooSmall { min_members: Some(m), request_id } =>
            "group too small to post (needs "@ + decimal(m as nat) + " members)"@ + rid_suffix(
            request_id,
        ),
        AppError::GroupTooSmall { min_members: None, request_id } => "group too small to post"@
            + rid_suffix(request_id),
        AppError::RateLimited { retry_after_seconds: Some(s), request_id } =>
            "rate limited (retry after "@ + decimal(s as nat) + "s)"@ + rid_suffix(request_id),
        AppError::RateLimited { retry_after_seconds: None, request_id } => "rate limited"@
            + rid_suffix(request_id),
        AppError::ReservedDisplayName { request_id } => "display name is reserved"@ + rid_suffix(request_id),
        AppError::InvalidCategory { request_id } => "invalid category"@ + rid_suffix(request_id),
        AppError::InvalidMessage { request_id } => "invalid message body"@ + rid_suffix(request_id),
        AppError::ContactsBatchTooLarge { request_id } => "contacts batch too large"@ + rid_suffix(request_id),
        AppError::ClientMessageIdReused { request_id } => "clientMessageId reused"@ + rid_suffix(request_id),
        AppError::Unauthorized { request_id } => "unauthorized"@ + rid_suffix(request_id),
        AppError::InvalidCode { request_id } => "invalid OTP code"@ + rid_suffix(request_id),
        AppError::Forbidden { request_id } => "forbidden"@ + rid_suffix(request_id),
        AppError::PostingNotAllowed { reason, request_id } => "posting not allowed"@ + reason_suffix(reason)
            + rid_suffix(request_id),
        AppError::AddingMembersNotAllowed { reason, request_id } => "adding members not allowed"@ + reason_suffix(reason)
            + rid_suffix(request_id),
        AppError::AdminRequired { reason, request_id } => "admin required"@ + reason_suffix(reason)
            + rid_suffix(request_id),
        AppError::LeaveNotAllowed { reason, request_id } => "leaving not allowed"@ + reason_suffix(reason)
            + rid_suffix(request_id),
        AppError::DeviceBlocked { reason, request_id } => "device blocked"@ + reason_suffix(reason)
            + rid_suffix(request_id),
        AppError::NotFound { request_id } => "not found"@ + rid_suffix(request_id),
        AppError::LastAdmin { request_id } => "cannot demote or remove the last admin"@ + rid_suffix(request_id),
        AppError::SmsDeliveryFailed { request_id } => "SMS delivery failed"@ + rid_suffix(request_id),
        AppError::NotImplemented { request_id } => "not implemented"@ + rid_suffix(request_id),
        AppError::Internal { request_id } => "internal server error"@ + rid_suffix(request_id),
        AppError::Network { message } => "network error: "@ + message@,
        AppError::Unknown { status: Some(s), request_id, .. } => "unknown error (HTTP "@ + decimal(
            s as nat,
        ) + ")"@ + rid_suffix(request_id),
        AppError::Unknown { status: None, request_id, .. } => "unknown error"@ + rid_suffix(
            request_id,
        ),
        AppError::Store(m) => "local store error: "@ + m@,
        AppError::Json(m) => "JSON error: "@ + m@,
        AppError::WebSocket(m) => "websocket error: "@ + m@,
        AppError::Protocol { code, detail: Some(d) } => "protocol error: "@ + code@ + ": "@ + d@,
        AppError::Protocol { code, detail: None } => "protocol error: "@ + code@,
        AppError::NotSignedIn => "client is not signed in"@,
        AppError::InvalidInput(m) => "invalid input: "@ + m@,
    }
}

fn fmt_rid(rid: &Option<String>) -> (r: String)
    ensures
        r@ == rid_suffix(*rid),
{
    match rid {
        Some(id) => " [requestId=".to_owned().concat(id.as_str()).concat("]"),
        None => String::new(),
    }
}

fn labelled(head: &str, rid: &Option<String>) -> (r: String)
    ensures
        r@ == head@ + rid_suffix(*rid),
{
    head.to_owned().concat(fmt_rid(rid).as_str())
}

fn explained(head: &str, reason: &Option<String>, rid: &Option<String>) -> (r: String)
    ensures
        r@ == head@ + reason_suffix(*reason) + rid_suffix(*rid),
{
    let why = match reason {
        Some(t) => " (".to_owned().concat(t.as_str()).concat(")"),
        None => String::new(),
    };
    head.to_owned().concat(why.as_str()).concat(fmt_rid(rid).as_str())
}

fn numbered(head: &str, n: u64, tail: &str, rid: &Option<String>) -> (r: String)
    ensures
        r@ == head@ + decimal(n as nat) + tail@ + rid_suffix(*rid),
{
    head.to_owned().concat(show_u64(n).as_str()).concat(tail).concat(fmt_rid(rid).as_str())
}

impl AppError {
    /// The server's id of the failed request.
    pub fn request_id(&self) -> (r: Option<&String>)
        ensures
            r == (match error_request_id(*self) {
                Some(s) => Some(&s),
                None => None,
            }),
    {
        match self {
            AppError::ValidationFailed { request_id, .. }
            | AppError::InvalidDisplayName { request_id, .. }
            | AppError::ReservedDisplayName { request_id, .. }
            | AppError::InvalidGroupName { request_id, .. }
            | AppError::InvalidCategory { request_id, .. }
            | AppError::InvalidMessage { request_id, .. }
            | AppError::ContactsBatchTooLarge { request_id, .. }
            | AppError::ClientMessageIdReused { request_id, .. }
            | AppError::Unauthorized { request_id, .. }
            | AppError::InvalidCode { request_id, .. }
            | AppError::Forbidden { request_id, .. }
            | AppError::PostingNotAllowed { request_id, .. }
            | AppError::AddingMembersNotAllowed { request_id, .. }
            | AppError::AdminRequired { request_id, .. }
            | AppError::LeaveNotAllowed { request_id, .. }
            | AppError::DeviceBlocked { request_id, .. }
            | AppError::NotFound { request_id, .. }
            | AppError::GroupFull { request_id, .. }
            | AppError::LastAdmin { request_id, .. }
            | AppError::SmsDeliveryFailed { request_id, .. }
            | AppError::GroupTooSmall { request_id, .. }
            | AppError::RateLimited { request_id, .. }
            | AppError::NotImplemented { request_id, .. }
            | AppError::Internal { request_id, .. }
            | AppError::Unknown { request_id, .. } => request_id.as_ref(),
            _ => None,
        }
    }

    /// HTTP status this error corresponds to, if any.
    pub fn status(&self) -> (r: Option<u16>)
        ensures
            r == error_status(*self),
    {
        match self {
            AppError::ValidationFailed { .. }
            | AppError::InvalidDisplayName { .. }
            | AppError::ReservedDisplayName { .. }
            | AppError::InvalidGroupName { .. }
            | AppError::InvalidCategory { .. }
            | AppError::InvalidMessage { .. }
            | AppError::ContactsBatchTooLarge { .. } => Some(400),
            AppError::Unauthorized { .. } | AppError::InvalidCode { .. } => Some(401),
            AppError::Forbidden { .. }
            | AppError::PostingNotAllowed { .. }
            | AppError::AddingMembersNotAllowed { .. }
            | AppError::AdminRequired { .. }
            | AppError::LeaveNotAllowed { .. }
            | AppError::DeviceBlocked { .. } => Some(403),
            AppError::NotFound { .. } => Some(404),
            AppError::ClientMessageIdReused { .. } | AppError::GroupTooSmall { .. } => Some(409),
            AppError::GroupFull { .. }
            | AppError::LastAdmin { .. }
            | AppError::SmsDeliveryFailed { .. } => Some(422),
            AppError::RateLimited { .. } => Some(429),
            AppError::NotImplemented { .. } => Some(501),
            AppError::Internal { .. } => Some(500),
            AppError::Unknown { status, .. } => *status,
            _ => None,
        }
    }

    /// Stable kebab-case code of this error; stored with a failed outbox row.
    pub fn code(&self) -> (r: &'static str)
        ensures
            r@ == error_code(*self),
    {
        match self {
            AppError::ValidationFailed { .. } => "validation-failed",
            AppError::InvalidDisplayName { .. } => "invalid-display-name",
            AppError::ReservedDisplayName { .. } => "reserved-display-name",
            AppError::InvalidGroupName { .. } => "invalid-group-name",
            AppError::InvalidCategory { .. } => "invalid-category",
            AppError::InvalidMessage { .. } => "invalid-message",
            AppError::ContactsBatchTooLarge { .. } => "contacts-batch-too-large",
            AppError::ClientMessageIdReused { .. } => "client-message-id-reused",
            AppError::Unauthorized { .. } => "unauthorized",
            AppError::InvalidCode { .. } => "invalid-code",
            AppError::Forbidden { .. } => "forbidden",
            AppError::PostingNotAllowed { .. } => "posting-not-allowed",
            AppError::AddingMembersNotAllowed { .. } => "adding-members-not-allowed",
            AppError::AdminRequired { .. } => "admin-required",
            AppError::LeaveNotAllowed { .. } => "leave-not-allowed",
            AppError::DeviceBlocked { .. } => "device-blocked",
            AppError::NotFound { .. } => "not-found",
            AppError::GroupFull { .. } => "group-full",
            AppError::LastAdmin { .. } => "last-admin",
            AppError::SmsDeliveryFailed { .. } => "sms-delivery-failed",
            AppError::GroupTooSmall { .. } => "group-too-small",
            AppError::RateLimited { .. } => "rate-limited",
            AppError::NotImplemented { .. } => "not-implemented",
            AppError::Internal { .. } => "internal",
            AppError::Network { .. } => "network",
            AppError::Unknown { .. } => "unknown",
            AppError::Store(_) => "store",
            AppError::Json(_) => "json",
            AppError::WebSocket(_) => "websocket",
            AppError::Protocol { .. } => "protocol",
            AppError::NotSignedIn => "not-signed-in",
            AppError::InvalidInput(_) => "invalid-input",
        }
    }

    /// `true` for a 401 and for a blocked device: the session is gone.
    pub fn invalidates_session(&self) -> (r: bool)
        ensures
            r == ends_session(*self),
    {
        matches!(self, AppError::Unauthorized { .. } | AppError::DeviceBlocked { .. })
    }

    /// `true` when the failure is transient and the request may be retried.
    pub fn is_retryable(&self) -> (r: bool)
        ensures
            r == retryable(*self),
    {
        match self {
            AppError::Network { .. }
            | AppError::Internal { .. }
            | AppError::RateLimited { .. }
            | AppError::WebSocket(_) => true,
            AppError::Unknown { status, .. } => match status {
                Some(s) => 500 <= *s && *s <= 599,
                None => false,
            },
            _ => false,
        }
    }

    /// Seconds to wait before retrying, when the server said.
    pub fn retry_after(&self) -> (r: Option<u64>)
        ensures
            r == (match *self {
                AppError::RateLimited { retry_after_seconds, .. } => retry_after_seconds,
                _ => None,
            }),
    {
        match self {
            AppError::RateLimited { retry_after_seconds, .. } => *retry_after_seconds,
            _ => None,
        }
    }

    /// A transport failure.
    pub fn network(msg: String) -> (r: Self)
        ensures
            r == (AppError::Network { message: msg }),
    {
        AppError::Network { message: msg }
    }

    /// What the error says to a reader.
    pub fn message(&self) -> (r: String)
        ensures
            r@ == error_text(*self),
    {
        match self {
            AppError::ValidationFailed { request_id, .. } => labelled("validation failed", request_id),
            AppError::InvalidDisplayName { max_length, request_id } => numbered(
                "invalid display name (max ",
                *max_length as u64,
                " code points)",
                request_id,
            ),
            AppError::InvalidGroupName { max_length, request_id } => numbered(
                "invalid group name (max ",
                *max_length as u64,
                " code points)",
                request_id,
            ),
            AppError::GroupFull { max_members, request_id } => numbered(
                "group is full (max ",
                *max_members as u64,
                " members)",
                request_id,
            ),
            AppError::GroupTooSmall { min_members, request_id } => match min_members {
                Some(m) => numbered(
                    "group too small to post (needs ",
                    *m as u64,
                    " members)",
                    request_id,
                ),
                None => labelled("group too small to post", request_id),
            },
            AppError::RateLimited { retry_after_seconds, request_id } => match retry_after_seconds {
                Some(s) => numbered("rate limited (retry after ", *s, "s)", request_id),
                None => labelled("rate limited", request_id),
            },
            AppError::ReservedDisplayName { request_id } => labelled("display name is reserved", request_id),
            AppError::InvalidCategory { request_id } => labelled("invalid category", request_id),
            AppError::InvalidMessage { request_id } => labelled("invalid message body", request_id),
            AppError::ContactsBatchTooLarge { request_id } => labelled("contacts batch too large", request_id),
            AppError::ClientMessageIdReused { request_id } => labelled("clientMessageId reused", request_id),
            AppError::Unauthorized { request_id } => labelled("unauthorized", request_id),
            AppError::InvalidCode { request_id } => labelled("invalid OTP code", request_id),
            AppError::Forbidden { request_id } => labelled("forbidden", request_id),
            AppError::PostingNotAllowed { reason, request_id } => explained(
                "posting not allowed",
                reason,
                request_id,
            ),
            AppError::AddingMembersNotAllowed { reason, request_id } => explained(
                "adding members not allowed",
                reason,
                request_id,
            ),
            AppError::AdminRequired { reason, request_id } => explained(
                "admin required",
                reason,
                request_id,
            ),
            AppError::LeaveNotAllowed { reason, request_id } => explained(
                "leaving not allowed",
                reason,
                request_id,
            ),
            AppError::DeviceBlocked { reason, request_id } => explained(
                "device blocked",
                reason,
                request_id,
            ),
            AppError::NotFound { request_id } => labelled("not found", request_id),
            AppError::LastAdmin { request_id } => labelled("cannot demote or remove the last admin", request_id),
            AppError::SmsDeliveryFailed { request_id } => labelled("SMS delivery failed", request_id),
            AppError::NotImplemented { request_id } => labelled("not implemented", request_id),
            AppError::Internal { request_id } => labelled("internal server error", request_id),
            AppError::Network { message } => "network error: ".to_owned().concat(message.as_str()),
            AppError::Unknown { status, request_id, .. } => match status {
                Some(s) => numbered("unknown error (HTTP ", *s as u64, ")", request_id),
                None => labelled("unknown error", request_id),
            },
            AppError::Store(m) => "local store error: ".to_owned().concat(m.as_str()),
            AppError::Json(m) => "JSON error: ".to_owned().concat(m.as_str()),
            AppError::WebSocket(m) => "websocket error: ".to_owned().concat(m.as_str()),
            AppError::Protocol { code, detail } => match detail {
                Some(d) => "protocol error: ".to_owned().concat(code.as_str()).concat(": ").concat(
                    d.as_str(),
                ),
                None => "protocol error: ".to_owned().concat(code.as_str()),
            },
            AppError::NotSignedIn => "client is not signed in".to_owned(),
            AppError::InvalidInput(m) => "invalid input: ".to_owned().concat(m.as_str()),
        }
    }

    /// Map a problem document, with the response status and the `Retry-After` header, to a typed
    /// error.
    pub fn from_problem(status: u16, problem: &ProblemDto, retry_after_header: Option<u64>) -> (r:
        Self)
        ensures
            same_error(r, problem_error(status, *problem, retry_after_header)),
    {
        let rid = problem.request_id.clone();
        let code = match problem.code() {
            None => {
                return Self::from_status(
                    status,
                    rid,
                    problem.detail.clone(),
                    retry_after_header,
                    copy_errors(&problem.errors),
                );
            },
            Some(c) => c,
        };
        let c = code.as_str();
        if same(c, "validation-failed") || same(c, "validation") {
            AppError::ValidationFailed { request_id: rid, errors: copy_errors(&problem.errors) }
        } else if same(c, "invalid-display-name") {
            AppError::InvalidDisplayName {
                max_length: or_default(problem.extra_usize("maxLength"), DEFAULT_MAX_DISPLAY_NAME),
                request_id: rid,
            }
        } else if same(c, "invalid-group-name") {
            AppError::InvalidGroupName {
                max_length: or_default(problem.extra_usize("maxLength"), DEFAULT_MAX_GROUP_NAME),
                request_id: rid,
            }
        } else if same(c, "group-full") {
            AppError::GroupFull {
                max_members: or_default(problem.extra_usize("maxMembers"), DEFAULT_MAX_MEMBERS),
                request_id: rid,
            }
        } else if same(c, "group-too-small") {
            AppError::GroupTooSmall {
                min_members: match problem.extra_usize("minMembers") {
                    Some(n) => Some(n as u32),
                    None => match problem.extra_usize("minMembersToPost") {
                        Some(n) => Some(n as u32),
                        None => None,
                    },
                },
                request_id: rid,
            }
        } else if same(c, "rate-limited") {
            AppError::RateLimited {
                retry_after_seconds: match problem.extra_usize("retryAfterSeconds") {
                    Some(n) => Some(n as u64),
                    None => retry_after_header,
                },
                request_id: rid,
            }
        } else if same(c, "reserved-display-name") {
            AppError::ReservedDisplayName { request_id: rid }
        } else if same(c, "invalid-category") {
            AppError::InvalidCategory { request_id: rid }
        } else if same(c, "invalid-message") {
            AppError::InvalidMessage { request_id: rid }
        } else if same(c, "contacts-batch-too-large") {
            AppError::ContactsBatchTooLarge { request_id: rid }
        } else if same(c, "client-message-id-reused") {
            AppError::ClientMessageIdReused { request_id: rid }
        } else if same(c, "unauthorized") {
            AppError::Unauthorized { request_id: rid }
        } else if same(c, "invalid-code") {
            AppError::InvalidCode { request_id: rid }
        } else if same(c, "forbidden") {
            AppError::Forbidden { request_id: rid }
        } else if same(c, "posting-not-allowed") {
            AppError::PostingNotAllowed { reason: problem.reason(), request_id: rid }
        } else if same(c, "adding-members-not-allowed") {
            AppError::AddingMembersNotAllowed { reason: problem.reason(), request_id: rid }
        } else if same(c, "admin-required") {
            AppError::AdminRequired { reason: problem.reason(), request_id: rid }
        } else if same(c, "leave-not-allowed") {
            AppError::LeaveNotAllowed { reason: problem.reason(), request_id: rid }
        } else if same(c, "device-blocked") {
            AppError::DeviceBlocked { reason: problem.reason(), request_id: rid }
        } else if same(c, "not-found") {
            AppError::NotFound { request_id: rid }
        } else if same(c, "last-admin") {
            AppError::LastAdmin { request_id: rid }
        } else if same(c, "sms-delivery-failed") {
            AppError::SmsDeliveryFailed { request_id: rid }
        } else if same(c, "not-implemented") {
            AppError::NotImplemented { request_id: rid }
        } else if same(c, "internal") {
            AppError::Internal { request_id: rid }
        } else {
            Self::from_status(
                status,
                rid,
                problem.detail.clone(),
                retry_after_header,
                copy_errors(&problem.errors),
            )
        }
    }

    /// Mapping by HTTP status alone.
    pub fn from_status(
        status: u16,
        request_id: Option<String>,
        detail: Option<String>,
        retry_after_header: Option<u64>,
        errors: Option<ErrorsDto>,
    ) -> (r: Self)
        ensures
            r == status_error(status, request_id, detail, retry_after_header, errors),
    {
        if status == 400 {
            AppError::ValidationFailed { request_id, errors }
        } else if status == 401 {
            AppError::Unauthorized { request_id }
        } else if status == 403 {
            AppError::Forbidden { request_id }
        } else if status == 404 {
            AppError::NotFound { request_id }
        } else if status == 429 {
            AppError::RateLimited { retry_after_seconds: retry_after_header, request_id }
        } else if status == 501 {
            AppError::NotImplemented { request_id }
        } else if 500 <= status && status <= 599 {
            AppError::Internal { request_id }
        } else {
            AppError::Unknown { status: Some(status), request_id, detail }
        }
    }
}

/// A mapped error keeps the problem's request id.
pub proof fn law_request_id_survives(status: u16, p: ProblemDto, header: Option<u64>)
    ensures
        error_request_id(problem_error(status, p, header)) == p.request_id,
{
}

/// An error selected by a problem's code carries that very code (`validation` stands for
/// `validation-failed`).
pub proof fn law_code_mirrors_problem(status: u16, p: ProblemDto, header: Option<u64>)
    ensures
        match code_of(p.type_uri) {
            Some(c) => {
                let e = problem_error(status, p, header);
                ||| error_code(e) == c
                ||| c == "validation"@ && error_code(e) == "validation-failed"@
                ||| e == status_error(status, p.request_id, p.detail, header, p.errors)
            },
            None => problem_error(status, p, header) == status_error(
                status,
                p.request_id,
                p.detail,
                header,
                p.errors,
            ),
        },
{
}

/// An error that ends the session is a 401 or a 403, and is never retried.
pub proof fn law_session_loss_is_final(e: AppError)
    requires
        ends_session(e),
    ensures
        error_status(e) == Some(401u16) || error_status(e) == Some(403u16),
        !retryable(e),
{
}

/// A problem document ends the session just where its code is `unauthorized` or `device-blocked`,
/// or where no error goes by its code and the status is 401.
pub proof fn law_what_ends_the_session(status: u16, p: ProblemDto, header: Option<u64>)
    ensures
        ends_session(problem_error(status, p, header)) == {
            ||| code_of(p.type_uri) == Some("unauthorized"@)
            ||| code_of(p.type_uri) == Some("device-blocked"@)
            ||| status == 401 && problem_error(status, p, header) == status_error(
                status,
                p.request_id,
                p.detail,
                header,
                p.errors,
            )
        },
{
    reveal_strlit("validation-failed");
    reveal_strlit("validation");
    reveal_strlit("invalid-display-name");
    reveal_strlit("invalid-group-name");
    reveal_strlit("group-full");
    reveal_strlit("group-too-small");
    reveal_strlit("rate-limited");
    reveal_strlit("reserved-display-name");
    reveal_strlit("invalid-category");
    reveal_strlit("invalid-message");
    reveal_strlit("contacts-batch-too-large");
    reveal_strlit("client-message-id-reused");
    reveal_strlit("unauthorized");
    reveal_strlit("invalid-code");
    reveal_strlit("forbidden");
    reveal_strlit("posting-not-allowed");
    reveal_strlit("adding-members-not-allowed");
    reveal_strlit("admin-required");
    reveal_strlit("leave-not-allowed");
    reveal_strlit("device-blocked");
    reveal_strlit("not-found");
    reveal_strlit("last-admin");
    reveal_strlit("sms-delivery-failed");
    reveal_strlit("not-implemented");
    reveal_strlit("internal");
    assert("validation-failed"@.len() == 17);
    assert("validation"@.len() == 10);
    assert("invalid-display-name"@.len() == 20);
    assert("invalid-group-name"@.len() == 18);
    assert("group-full"@.len() == 10);
    assert("group-too-small"@.len() == 15);
    assert("rate-limited"@.len() == 12);
    assert("reserved-display-name"@.len() == 21);
    assert("invalid-category"@.len() == 16);
    assert("invalid-message"@.len() == 15);
    assert("contacts-batch-too-large"@.len() == 24);
    assert("client-message-id-reused"@.len() == 24);
    assert("unauthorized"@.len() == 12);
    assert("invalid-code"@.len() == 12);
    assert("forbidden"@.len() == 9);
    assert("posting-not-allowed"@.len() == 19);
    assert("adding-members-not-allowed"@.len() == 26);
    assert("admin-required"@.len() == 14);
    assert("leave-not-allowed"@.len() == 17);
    assert("device-blocked"@.len() == 14);
    assert("not-found"@.len() == 9);
    assert("last-admin"@.len() == 10);
    assert("sms-delivery-failed"@.len() == 19);
    assert("not-implemented"@.len() == 15);
    assert("internal"@.len() == 8);
    assert("rate-limited"@[0] == 'r');
    assert("unauthorized"@[0] == 'u');
    assert("invalid-code"@[0] == 'i');
    assert("admin-required"@[0] == 'a');
    assert("device-blocked"@[0] == 'd');
}

/// A refusal that the server's policy gives keeps the reason that it named.
pub proof fn law_refusal_keeps_its_reason(status: u16, p: ProblemDto, header: Option<u64>)
    ensures
        problem_error(status, p, header) matches AppError::PostingNotAllowed { reason, .. }
            ==> reason == reason_of(p),
        problem_error(status, p, header) matches AppError::AddingMembersNotAllowed { reason, .. }
            ==> reason == reason_of(p),
        problem_error(status, p, header) matches AppError::AdminRequired { reason, .. }
            ==> reason == reason_of(p),
        problem_error(status, p, header) matches AppError::LeaveNotAllowed { reason, .. }
            ==> reason == reason_of(p),
        problem_error(status, p, header) matches AppError::DeviceBlocked { reason, .. }
            ==> reason == reason_of(p),
{
}

} // verus!
