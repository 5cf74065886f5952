//! Requests to the server and the reading of its replies.

use crate::error::{AppError, ProblemDto};
use crate::http::{
    batches, check_batch, completed, decode_send_reply, decode_sent_message, fill_page, fill_sent,
    fill_start, fill_verify, flat, group_part_path, group_path, legal_path, map_error, member_path,
    missing_slash, next_groups_cursor, next_members_cursor, relative, relative_path, DeviceInfo,
    SendReply,
};
use crate::json::{
    as_bool, as_i64, as_str, as_u64, epoch_ms_from_value, get, member_of, member_pos,
    timestamp_from, Json,
};
use crate::models::{
    GroupDto, LegalDocKey, MemberDto, MessageDto, MessagesPage, Page, StartAuthRequest,
    VerifyAuthRequest,
};
use crate::numbers::parsed_u64;
use crate::text::{texts, trim};
use crate::wire::Wire;
use vstd::prelude::*;

verus! {

/// A member of an object is found by its name, the first one where several bear it.
pub proof fn law_member_found(o: Seq<(String, Json)>, name: Seq<char>, i: int)
    ensures
        0 <= i < o.len() && o[i].0@ == name && (forall|j: int|
            0 <= j < i ==> (#[trigger] o[j]).0@ != name) ==> member_of(o, name) == Some(o[i].1),
        (forall|j: int| 0 <= j < o.len() ==> (#[trigger] o[j]).0@ != name) ==> member_of(o, name) is None,
{
    if 0 <= i < o.len() && o[i].0@ == name && (forall|j: int|
        0 <= j < i ==> (#[trigger] o[j]).0@ != name) {
        lemma_pos(o, name, 0, i);
    }
    if forall|j: int| 0 <= j < o.len() ==> (#[trigger] o[j]).0@ != name {
        lemma_no_pos(o, name, 0);
    }
}

proof fn lemma_pos(o: Seq<(String, Json)>, name: Seq<char>, from: int, i: int)
    requires
        0 <= from <= i < o.len(),
        o[i].0@ == name,
        forall|j: int| from <= j < i ==> (#[trigger] o[j]).0@ != name,
    ensures
        member_pos(o, name, from) == i,
    decreases i - from,
{
    if from < i {
        assert(o[from].0@ != name);
        lemma_pos(o, name, from + 1, i);
    }
}

proof fn lemma_no_pos(o: Seq<(String, Json)>, name: Seq<char>, from: int)
    requires
        0 <= from <= o.len(),
        forall|j: int| 0 <= j < o.len() ==> (#[trigger] o[j]).0@ != name,
    ensures
        member_pos(o, name, from) == o.len(),
    decreases o.len() - from,
{
    if from < o.len() {
        assert(o[from].0@ != name);
        lemma_no_pos(o, name, from + 1);
    }
}

/// The readers of JSON values: each takes its own kind and nothing else.
pub proof fn law_json_values(
    o: &Vec<(String, Json)>,
    name: &str,
    j: &Json,
    g: Option<&Json>,
    s: Option<&String>,
    n: Option<i64>,
    u: Option<u64>,
    b: Option<bool>,
)
    requires
        call_ensures(get, (o, name), g),
        call_ensures(as_str, (j,), s),
        call_ensures(as_i64, (j,), n),
        call_ensures(as_u64, (j,), u),
        call_ensures(as_bool, (j,), b),
    ensures
        member_of(o@, name@) matches Some(x) ==> g == Some(&x),
        member_of(o@, name@) is None ==> g is None,
        *j matches Json::Str(x) ==> s == Some(&x),
        !(j is Str) ==> s is None,
        *j matches Json::Int(x) ==> n == Some(x) && (x >= 0 ==> u == Some(x as u64)) && (x < 0 ==> u is None),
        *j matches Json::Big(x) ==> u == Some(x) && n is None,
        !(j is Int) && !(j is Big) ==> u is None && n is None,
        *j matches Json::Bool(x) ==> b == Some(x),
        !(j is Bool) ==> b is None,
{
}

/// A time is a number of milliseconds or a text; in a text the decimal reading goes first.
pub proof fn law_times(j: &Json, r: Option<i64>, plain: Option<i64>, iso: Option<i64>, t: Option<i64>)
    requires
        call_ensures(epoch_ms_from_value, (j,), r),
        call_ensures(timestamp_from, (plain, iso), t),
    ensures
        *j matches Json::Int(n) ==> r == Some(n),
        j is Bool || j is Null || j is Arr || j is Obj ==> r is None,
        plain is Some ==> t == plain,
        plain is None ==> t == iso,
{
}

/// An error reply keeps the problem's request id, else that of the header, whatever its status; a
/// `Retry-After` header counts in seconds.
pub proof fn law_error_reply(
    status: u16,
    retry: Option<&str>,
    header_id: Option<String>,
    text: &str,
    p: ProblemDto,
    r: AppError,
    id: Option<&String>,
)
    requires
        call_ensures(map_error, (status, retry, header_id, text, p), r),
        call_ensures(AppError::request_id, (&r,), id),
    ensures
        p.request_id matches Some(x) ==> id == Some(&x),
        p.request_id is None && header_id is None ==> id is None,
        p.request_id is None && header_id is Some ==> id == Some(&header_id->0),
        p.type_uri is None && status == 429 ==> (r matches AppError::RateLimited {
            retry_after_seconds,
            ..
        } && match retry {
            None => retry_after_seconds is None,
            Some(h) => retry_after_seconds == parsed_u64(trim(h@)),
        }),
        p.type_uri is None && status == 401 ==> r is Unauthorized,
        p.type_uri is None && status == 404 ==> r is NotFound,
        p.type_uri is None && status == 503 ==> r is Internal,
        p.type_uri is None && status == 418 && p.detail is None && 0 < text@.len() <= 512 ==> (
        r matches AppError::Unknown { detail: Some(d), .. } && d@ == text@),
{
    let q = choose|q: ProblemDto|
        {
            &&& #[trigger] completed(p, header_id, text@, q)
            &&& crate::error::same_error(
                r,
                crate::error::problem_error(
                    status,
                    q,
                    crate::http::retry_seconds(
                        match retry {
                            Some(h) => Some(h@),
                            None => None,
                        },
                    ),
                ),
            )
        };
    assert(completed(p, header_id, text@, q));
    if 0 < text@.len() <= 512 {
        assert(crate::text::first_chars(text@, 512) =~= text@);
    }
}

/// The device is named in a request that names none; what the request names stays.
pub proof fn law_device_named(
    a: StartAuthRequest,
    b: VerifyAuthRequest,
    d: &DeviceInfo,
    ra: StartAuthRequest,
    rb: VerifyAuthRequest,
)
    requires
        call_ensures(fill_start, (a, d), ra),
        call_ensures(fill_verify, (b, d), rb),
    ensures
        a.platform is None ==> ra.platform == Some(d.platform),
        a.platform is Some ==> ra.platform == a.platform,
        a.device_model is None ==> ra.device_model == Some(d.model),
        a.device_model is Some ==> ra.device_model == a.device_model,
        ra.phone == a.phone,
        ra.display_name == a.display_name,
        b.platform is None ==> rb.platform == Some(d.platform),
        b.platform is Some ==> rb.platform == b.platform,
        b.device_model is None ==> rb.device_model == Some(d.model),
        b.device_model is Some ==> rb.device_model == b.device_model,
        rb.code == b.code,
{
}

/// Up to a hundred numbers make a batch; more are refused, and a list is cut into full batches and a
/// rest without losing any or changing their order.
pub proof fn law_batches(phones: &Vec<String>, ok: Result<(), AppError>, r: Vec<Vec<String>>, i: int)
    requires
        call_ensures(check_batch, (phones,), ok),
        call_ensures(batches, (phones,), r),
    ensures
        ok is Ok <==> phones@.len() <= 100,
        ok matches Err(e) ==> e is ContactsBatchTooLarge,
        flat(r@) == texts(phones@),
        0 <= i < r@.len() ==> 0 < r@[i]@.len() <= 100,
        0 <= i < r@.len() - 1 ==> r@[i]@.len() == 100,
{
}

/// Batches put together again are their numbers one behind the other.
pub proof fn law_flat(a: Seq<Vec<String>>, b: Vec<String>)
    ensures
        flat(Seq::empty()) == Seq::<Seq<char>>::empty(),
        flat(a.push(b)) == flat(a) + texts(b@),
{
    assert(a.push(b).drop_last() =~= a);
}

/// Where a list goes on: groups as long as the server says so or names a place, members as long as
/// it names one.
pub proof fn law_next_pages(g: &Page<GroupDto>, m: &Page<MemberDto>, a: Option<String>, b: Option<String>)
    requires
        call_ensures(next_groups_cursor, (g,), a),
        call_ensures(next_members_cursor, (m,), b),
    ensures
        g.next_cursor is None ==> a is None,
        g.next_cursor is Some && (g.has_more || g.next_cursor->0@.len() > 0) ==> a == g.next_cursor,
        g.next_cursor is Some && !g.has_more && g.next_cursor->0@.len() == 0 ==> a is None,
        m.next_cursor is None ==> b is None,
        m.next_cursor is Some && m.next_cursor->0@.len() > 0 ==> b == m.next_cursor,
        m.next_cursor is Some && m.next_cursor->0@.len() == 0 ==> b is None,
{
}

/// The messages of a page are of its group unless they name another, and nothing else changes.
pub proof fn law_page_filled(page: MessagesPage, group: &String, r: MessagesPage, i: int)
    requires
        call_ensures(fill_page, (page, group), r),
    ensures
        r.next_after_seq == page.next_after_seq,
        r.next_before_seq == page.next_before_seq,
        r.items@.len() == page.items@.len(),
        0 <= i < r.items@.len() ==> {
            &&& page.items@[i].group_id is Some ==> r.items@[i] == page.items@[i]
            &&& page.items@[i].group_id is None ==> r.items@[i] == (MessageDto {
                group_id: Some(*group),
                ..page.items@[i]
            })
        },
{
}

/// A message that came back has its group and its client id, those of the request where the reply
/// names none.
pub proof fn law_sent_filled(m: MessageDto, group: &str, client: &str, r: MessageDto)
    requires
        call_ensures(fill_sent, (m, group, client), r),
    ensures
        m.group_id matches Some(g) ==> (r.group_id matches Some(x) && x@ == g@),
        m.group_id is None ==> (r.group_id matches Some(x) && x@ == group@),
        m.client_message_id matches Some(c) ==> (r.client_message_id matches Some(x) && x@ == c@),
        m.client_message_id is None ==> (r.client_message_id matches Some(x) && x@ == client@),
        r.id == m.id && r.seq == m.seq && r.body == m.body && r.sender_id == m.sender_id
            && r.created_at == m.created_at,
{
}

/// The reply to a send is a command's answer where it holds one with a text, and a message
/// otherwise.
pub proof fn law_send_reply(
    raw: &Json,
    text: &str,
    group: &str,
    client: &str,
    body: &str,
    o: Vec<(String, Json)>,
    c: Vec<(String, Json)>,
    t: String,
    r: Result<SendReply, AppError>,
)
    requires
        call_ensures(decode_send_reply, (raw, text, group, client, body), r),
        *raw == Json::Obj(o),
    ensures
        member_of(o@, "command"@) is None ==> !(r matches Ok(SendReply::Command(_))),
        member_of(o@, "command"@) == Some(Json::Obj(c)) && member_of(c@, "text"@) == Some(
            Json::Str(t),
        ) ==> (r matches Ok(SendReply::Command(a)) && a.text@ == t@ && (member_of(c@, "ok"@)
            == Some(Json::Bool(true)) <==> a.ok) && (member_of(c@, "name"@) matches Some(
            Json::Str(n),
        ) ==> a.name@ == n@) && (member_of(c@, "code"@) matches Some(Json::Str(n)) ==> a.code@
            == n@)),
{
}

/// A bare reply with an id and a place is the message that was sent: it has that id and place, and
/// the group, the client id and the text of the request.
pub proof fn law_bare_reply(
    raw: &Json,
    text: &str,
    group: &str,
    client: &str,
    body: &str,
    o: Vec<(String, Json)>,
    id: String,
    seq: i64,
    r: Result<MessageDto, AppError>,
)
    requires
        call_ensures(decode_sent_message, (raw, text, group, client, body), r),
        *raw == Json::Obj(o),
        MessageDto::decodes(*raw, None),
        member_of(o@, "message"@) is None,
        member_of(o@, "data"@) is None,
        member_of(o@, "item"@) is None,
        member_of(o@, "result"@) is None,
        member_of(o@, "body"@) is None,
    ensures
        (member_of(o@, "id"@) == Some(Json::Str(id)) || member_of(o@, "id"@) is None && member_of(
            o@,
            "messageId"@,
        ) == Some(Json::Str(id))) && member_of(o@, "seq"@) == Some(Json::Int(seq)) ==> (
        r matches Ok(m) && m.id@ == id@ && m.seq == seq && m.body@ == body@ && (
        m.group_id matches Some(g) && g@ == group@) && (m.client_message_id matches Some(c) && c@
            == client@)),
        member_of(o@, "seq"@) is None ==> r is Err,
{
}

/// Paths of the server, and what an endpoint is made of: no slash at the front of a path counts.
pub proof fn law_paths(
    id: &str,
    user: &str,
    part: &str,
    a: String,
    b: String,
    c: String,
    path: &str,
    d: String,
    rest: Seq<char>,
)
    requires
        call_ensures(group_path, (id,), a),
        call_ensures(group_part_path, (id, part), b),
        call_ensures(member_path, (id, user), c),
        call_ensures(relative_path, (path,), d),
    ensures
        a@ == "v1/groups/"@ + id@,
        b@ == a@ + "/"@ + part@,
        c@ == a@ + "/members/"@ + user@,
        path@.len() == 0 || path@[0] != '/' ==> d@ == path@,
        path@ == seq!['/'] + rest && (rest.len() == 0 || rest[0] != '/') ==> d@ == rest,
        d@.len() == 0 || d@[0] != '/',
{
    lemma_relative(path@);
    reveal_with_fuel(relative, 2);
    if path@ == seq!['/'] + rest {
        assert(path@.drop_first() =~= rest);
        assert(path@[0] == '/');
    }
}

proof fn lemma_relative(p: Seq<char>)
    ensures
        relative(p).len() == 0 || relative(p)[0] != '/',
    decreases p.len(),
{
    if p.len() > 0 && p[0] == '/' {
        lemma_relative(p.drop_first());
    }
}

/// A slash is missing just where the path does not end in one.
pub proof fn law_missing_slash(path: &str, r: Option<String>)
    requires
        call_ensures(missing_slash, (path,), r),
    ensures
        path@.len() > 0 && path@.last() == '/' ==> r is None,
        path@.len() == 0 || path@.last() != '/' ==> (r matches Some(p) && p@ == path@.push('/')),
{
    assert(path@.push('/').len() == path@.len() + 1);
}

/// The paths of the legal documents.
pub proof fn law_legal_paths(key: LegalDocKey, r: String)
    requires
        call_ensures(legal_path, (key,), r),
    ensures
        key == LegalDocKey::Privacy ==> r@ == "v1/legal/"@ + "privacy"@,
        key == LegalDocKey::Terms ==> r@ == "v1/legal/"@ + "terms"@,
{
}

/// What a device says of itself.
pub proof fn law_device_headers(d: &DeviceInfo, r: Vec<(&'static str, String)>, agent: String)
    requires
        call_ensures(DeviceInfo::headers, (d,), r),
        call_ensures(DeviceInfo::user_agent, (d,), agent),
    ensures
        r@.len() == 5,
        r@[0].0@ == "X-Platform"@ && r@[0].1 == d.platform,
        r@[1].0@ == "X-Device-Platform"@ && r@[1].1 == d.platform,
        r@[2].0@ == "X-Device-Model"@ && r@[2].1 == d.model,
        r@[3].0@ == "X-App-Version"@ && r@[3].1 == d.app_version,
        r@[4].0@ == "X-OS-Version"@ && r@[4].1 == d.os_version,
        d.platform@ == "android"@ ==> agent@ == "Tzibbur/"@ + d.app_version@ + " ("@ + "Android"@ + " "@
            + d.os_version@ + "; "@ + d.model@ + ") Ktor"@,
{
}

/// Web addresses become socket addresses of the same security.
pub proof fn law_socket_schemes(s: Seq<char>)
    ensures
        crate::http::socket_scheme("https"@) == "wss"@,
        crate::http::socket_scheme("http"@) == "ws"@,
        s != "https"@ && s != "http"@ ==> crate::http::socket_scheme(s) == s,
{
    reveal_strlit("https");
    reveal_strlit("http");
    assert("https"@.len() == 5 && "http"@.len() == 4);
}

} // verus!
