//! What the REST client sends and how it reads replies. The requests themselves are made by the
//! application.

use crate::constants::{DEFAULT_BASE_URL, DEFAULT_MAX_PHONES};
use crate::error::{problem_error, same_error, AppError, ProblemDto};
use crate::json::{
    as_bool, as_i64, as_str, copy_json, epoch_ms_from_value, epoch_ms_of, get, i64_of, member_of,
    same_json, str_of, Json,
};
use crate::models::{
    opt_text, GroupDto, LegalDocKey, LegalDocument, MemberDto, MessageDto, MessagesPage, Page,
    StartAuthRequest, VerifyAuthRequest,
};
use crate::numbers::{parse_u64, parsed_u64};
use crate::socket::{fill_groups, in_group};
use crate::text::{chars_of, first_chars, join, joined, same, string_from, take_chars, texts, trim, trimmed};
use crate::wire::Wire;
use crate::ws::same_members;
use vstd::prelude::*;
use vstd::utf8::encode_utf8;

verus! {

/// Notified when the server rejects the token.
pub trait SessionInvalidationListener {
    fn on_session_invalidated(&self);
}

/// How the client presents itself to the server.
#[derive(Debug)]
pub struct DeviceInfo {
    /// `android`, `ios`, `web`, `kosher`, ...
    pub platform: String,
    /// Such as `Pixel 7`.
    pub model: String,
    /// App version the server sees, such as `0.1.0`.
    pub app_version: String,
    /// Version of the operating system, such as `14`.
    pub os_version: String,
}

/// The name of a platform as it stands in a user agent.
pub open spec fn platform_name(p: Seq<char>) -> Seq<char> {
    if p == "android"@ {
        "Android"@
    } else if p == "ios"@ {
        "iOS"@
    } else {
        p
    }
}

/// The user agent of a device.
pub open spec fn agent_of(d: DeviceInfo) -> Seq<char> {
    "Tzibbur/"@ + d.app_version@ + " ("@ + platform_name(d.platform@) + " "@ + d.os_version@ + "; "@
        + d.model@ + ") Ktor"@
}

impl Clone for DeviceInfo {
    fn clone(&self) -> (r: Self)
        ensures
            r == *self,
    {
        DeviceInfo {
            platform: self.platform.clone(),
            model: self.model.clone(),
            app_version: self.app_version.clone(),
            os_version: self.os_version.clone(),
        }
    }
}

/// `d` is the mobile app on a Pixel 7 with Android 14.
pub open spec fn is_android(d: DeviceInfo) -> bool {
    &&& d.platform@ == "android"@
    &&& d.model@ == "Pixel 7"@
    &&& d.app_version@ == "0.1.0"@
    &&& d.os_version@ == "14"@
}

impl Default for DeviceInfo {
    fn default() -> (r: Self)
        ensures
            is_android(r),
    {
        Self::android()
    }
}

impl DeviceInfo {
    /// The mobile app on a Pixel 7 with Android 14.
    pub fn android() -> (r: Self)
        ensures
            is_android(r),
    {
        DeviceInfo {
            platform: "android".to_owned(),
            model: "Pixel 7".to_owned(),
            app_version: "0.1.0".to_owned(),
            os_version: "14".to_owned(),
        }
    }

    /// Such as `Tzibbur/0.1.0 (Android 14; Pixel 7) Ktor`.
    pub fn user_agent(&self) -> (r: String)
        ensures
            r@ == agent_of(*self),
    {
        let os = if same(self.platform.as_str(), "android") {
            "Android"
        } else if same(self.platform.as_str(), "ios") {
            "iOS"
        } else {
            self.platform.as_str()
        };
        "Tzibbur/".to_owned().concat(self.app_version.as_str()).concat(" (").concat(os).concat(
            " ",
        ).concat(self.os_version.as_str()).concat("; ").concat(self.model.as_str()).concat(") Ktor")
    }

    /// Extra headers of every request and of the socket handshake.
    pub fn headers(&self) -> (r: Vec<(&'static str, String)>)
        ensures
            r@.len() == 5,
            r@[0].0@ == "X-Platform"@ && r@[0].1 == self.platform,
            r@[1].0@ == "X-Device-Platform"@ && r@[1].1 == self.platform,
            r@[2].0@ == "X-Device-Model"@ && r@[2].1 == self.model,
            r@[3].0@ == "X-App-Version"@ && r@[3].1 == self.app_version,
            r@[4].0@ == "X-OS-Version"@ && r@[4].1 == self.os_version,
    {
        let mut v: Vec<(&'static str, String)> = Vec::new();
        v.push(("X-Platform", self.platform.clone()));
        v.push(("X-Device-Platform", self.platform.clone()));
        v.push(("X-Device-Model", self.model.clone()));
        v.push(("X-App-Version", self.app_version.clone()));
        v.push(("X-OS-Version", self.os_version.clone()));
        v
    }
}

/// What a client is built from.
#[derive(Debug)]
pub struct ClientBuilder {
    pub base_url: String,
    pub token: Option<String>,
    pub user_agent: String,
    /// Milliseconds.
    pub timeout_ms: u64,
    pub device: DeviceInfo,
    /// The user agent was set by hand.
    pub user_agent_override: bool,
}

impl ClientBuilder {
    /// Unless it was set by hand, the user agent is that of the device.
    pub open spec fn consistent(self) -> bool {
        self.user_agent_override || self.user_agent@ == agent_of(self.device)
    }

    pub fn new() -> (r: Self)
        ensures
            r.consistent(),
            r.base_url@ == DEFAULT_BASE_URL@,
            r.token is None,
            r.timeout_ms == 30_000,
            is_android(r.device),
            !r.user_agent_override,
    {
        let device = DeviceInfo::default();
        ClientBuilder {
            base_url: DEFAULT_BASE_URL.to_owned(),
            token: None,
            user_agent: device.user_agent(),
            timeout_ms: 30_000,
            device,
            user_agent_override: false,
        }
    }

    pub fn base_url(self, url: String) -> (r: Self)
        ensures
            r == (ClientBuilder { base_url: url, ..self }),
    {
        ClientBuilder { base_url: url, ..self }
    }

    pub fn token(self, token: String) -> (r: Self)
        ensures
            r == (ClientBuilder { token: Some(token), ..self }),
    {
        ClientBuilder { token: Some(token), ..self }
    }

    /// Set the user agent by hand.
    pub fn user_agent(self, ua: String) -> (r: Self)
        ensures
            r == (ClientBuilder { user_agent: ua, user_agent_override: true, ..self }),
            r.consistent(),
    {
        ClientBuilder { user_agent: ua, user_agent_override: true, ..self }
    }

    /// Present as this device.
    pub fn device(self, device: DeviceInfo) -> (r: Self)
        ensures
            self.user_agent_override ==> r == (ClientBuilder { device, ..self }),
            !self.user_agent_override ==> r == (ClientBuilder {
                device,
                user_agent: r.user_agent,
                ..self
            }) && r.user_agent@ == agent_of(device),
            self.consistent() ==> r.consistent(),
    {
        if self.user_agent_override {
            ClientBuilder { device, ..self }
        } else {
            let user_agent = device.user_agent();
            ClientBuilder { device, user_agent, ..self }
        }
    }

    pub fn timeout(self, ms: u64) -> (r: Self)
        ensures
            r == (ClientBuilder { timeout_ms: ms, ..self }),
    {
        ClientBuilder { timeout_ms: ms, ..self }
    }
}

/// A URL as it is written in full, and its path; else what is wrong with it.
pub uninterp spec fn url_parsed(url: Seq<char>) -> Result<(Seq<char>, Seq<char>), Seq<char>>;

/// A URL with another path.
pub uninterp spec fn url_with_path(url: Seq<char>, path: Seq<char>) -> Option<Seq<char>>;

/// A URL that a path relative to another one leads to; else what is wrong.
pub uninterp spec fn url_joined(base: Seq<char>, path: Seq<char>) -> Result<Seq<char>, Seq<char>>;

/// The scheme of a URL.
pub uninterp spec fn url_scheme(url: Seq<char>) -> Option<Seq<char>>;

/// A URL with another scheme, where the scheme can be changed.
pub uninterp spec fn url_with_scheme(url: Seq<char>, scheme: Seq<char>) -> Option<Seq<char>>;

/// Longest URL, in bytes. `url` keeps positions in 32 bits, and reading or changing a URL may add a
/// few bytes before one.
pub const URL_LIMIT: u64 = 0xffff_fff0;

/// A URL of at most that length.
pub open spec fn url_sized(url: Seq<char>) -> bool {
    encode_utf8(url).len() <= URL_LIMIT
}

fn is_sized(url: &str) -> (r: bool)
    ensures
        r == url_sized(url@),
{
    url.as_bytes().len() as u64 <= URL_LIMIT
}

/// What is wrong with a longer one.
pub const URL_TOO_LONG: &'static str = "URLs more than 4 GB are not supported";

/// `url::Url::parse`, then the URL in full and `path`. What they are is left to a name. A scheme of
/// 4 GiB could overflow a position.
#[verifier::external_body]
fn parse_url(url: &str) -> (r: Result<(String, String), String>)
    requires
        url_sized(url@),
    ensures
        match r {
            Ok(x) => url_parsed(url@) == Ok::<(Seq<char>, Seq<char>), Seq<char>>((x.0@, x.1@)),
            Err(m) => url_parsed(url@) == Err::<(Seq<char>, Seq<char>), Seq<char>>(m@),
        },
{
    url::Url::parse(url).map(|u| (u.to_string(), u.path().to_owned())).map_err(|e| e.to_string())
}

/// `url::Url::set_path` on a parsed URL. The outcome is left to a name. The call panics where the
/// URL up to the end of its path, old or new, is longer than positions reach. The new path is the
/// old one, perhaps with a slash behind it: what was encoded stays as it is, and at most the three
/// bytes of `%2F` are added.
#[verifier::external_body]
fn set_path(url: &str, path: &str) -> (r: Option<String>)
    requires
        url_sized(url@),
        url_parsed(url@) matches Ok(x) && url_sized(x.0) && path@ == slashed(x.1),
    ensures
        opt_text(r) == url_with_path(url@, path@),
{
    let mut u = url::Url::parse(url).ok()?;
    u.set_path(path);
    Some(u.to_string())
}

/// `url::Url::join` on a parsed URL. The outcome is left to a name. A scheme of 4 GiB could overflow
/// a position.
#[verifier::external_body]
fn join_url(base: &str, path: &str) -> (r: Result<String, String>)
    requires
        url_sized(base@),
        url_sized(path@),
    ensures
        match r {
            Ok(u) => url_joined(base@, path@) == Ok::<Seq<char>, Seq<char>>(u@),
            Err(m) => url_joined(base@, path@) == Err::<Seq<char>, Seq<char>>(m@),
        },
{
    let joined = url::Url::parse(base).and_then(|u| u.join(path));
    joined.map(|u| u.to_string()).map_err(|e| e.to_string())
}

/// `url::Url::scheme` of a parsed URL. The outcome is left to a name. A scheme of 4 GiB could
/// overflow a position.
#[verifier::external_body]
fn scheme_of(url: &str) -> (r: Option<String>)
    requires
        url_sized(url@),
    ensures
        opt_text(r) == url_scheme(url@),
{
    url::Url::parse(url).ok().map(|u| u.scheme().to_owned())
}

/// `url::Url::set_scheme` on a parsed URL. The outcome is left to a name. The call panics on a
/// scheme that is longer than positions reach; the one asked for is no longer than the URL's own.
#[verifier::external_body]
fn set_scheme(url: &str, scheme: &str) -> (r: Option<String>)
    requires
        url_sized(url@),
        url_scheme(url@) matches Some(s) && scheme@ == socket_scheme(s),
    ensures
        opt_text(r) == url_with_scheme(url@, scheme@),
{
    let mut u = url::Url::parse(url).ok()?;
    u.set_scheme(scheme).ok()?;
    Some(u.to_string())
}

/// A URL as it is written in full, and its path; else what is wrong with it, be it too long.
pub open spec fn url_read(url: Seq<char>) -> Result<(Seq<char>, Seq<char>), Seq<char>> {
    if url_sized(url) {
        url_parsed(url)
    } else {
        Err(URL_TOO_LONG@)
    }
}

/// A URL as it is written in full, and its path.
pub fn read_url(url: &str) -> (r: Result<(String, String), String>)
    ensures
        match r {
            Ok(x) => url_read(url@) == Ok::<(Seq<char>, Seq<char>), Seq<char>>((x.0@, x.1@)),
            Err(m) => url_read(url@) == Err::<(Seq<char>, Seq<char>), Seq<char>>(m@),
        },
{
    if is_sized(url) {
        parse_url(url)
    } else {
        Err(URL_TOO_LONG.to_owned())
    }
}

/// A URL that a path relative to another one leads to; else what is wrong, be one of them too long.
pub open spec fn url_led(base: Seq<char>, path: Seq<char>) -> Result<Seq<char>, Seq<char>> {
    if url_sized(base) && url_sized(path) {
        url_joined(base, path)
    } else {
        Err(URL_TOO_LONG@)
    }
}

fn lead_url(base: &str, path: &str) -> (r: Result<String, String>)
    ensures
        match r {
            Ok(u) => url_led(base@, path@) == Ok::<Seq<char>, Seq<char>>(u@),
            Err(m) => url_led(base@, path@) == Err::<Seq<char>, Seq<char>>(m@),
        },
{
    if is_sized(base) && is_sized(path) {
        join_url(base, path)
    } else {
        Err(URL_TOO_LONG.to_owned())
    }
}

/// The scheme of a URL, where it has one and is not too long.
pub open spec fn scheme_read(url: Seq<char>) -> Option<Seq<char>> {
    if url_sized(url) {
        url_scheme(url)
    } else {
        None
    }
}

/// A path that ends in a slash.
pub open spec fn slashed(path: Seq<char>) -> Seq<char> {
    if path.len() > 0 && path.last() == '/' {
        path
    } else {
        path.push('/')
    }
}

/// `path` with a slash at its end; nothing when it has one.
pub fn missing_slash(path: &str) -> (r: Option<String>)
    ensures
        match r {
            Some(p) => p@ == slashed(path@) && p@ != path@,
            None => slashed(path@) == path@,
        },
{
    let v = chars_of(path);
    if v.len() > 0 && v[v.len() - 1] == '/' {
        None
    } else {
        let mut p = path.to_owned();
        p.push('/');
        assert(p@.len() == path@.len() + 1);
        Some(p)
    }
}

/// The base URL of a client: the given one, with a path that ends in a slash. Where its full text
/// leaves no room for the slash, it is refused.
pub fn normalized_base(raw: &str) -> (r: Result<String, AppError>)
    ensures
        match url_read(raw@) {
            Ok(x) => if slashed(x.1) == x.1 {
                r matches Ok(u) && u@ == x.0
            } else if url_sized(x.0) {
                match url_with_path(raw@, slashed(x.1)) {
                    Some(u2) => r matches Ok(u) && u@ == u2,
                    None => r matches Err(AppError::InvalidInput(m)) && m@ == "bad url"@,
                }
            } else {
                r matches Err(AppError::InvalidInput(m)) && m@ == "bad url"@
            },
            Err(e) => r matches Err(AppError::InvalidInput(m)) && m@ == "bad url: "@ + e,
        },
{
    match read_url(raw) {
        Ok((full, path)) => match missing_slash(path.as_str()) {
            None => Ok(full),
            Some(p) => {
                if is_sized(full.as_str()) {
                    match set_path(raw, p.as_str()) {
                        Some(u) => Ok(u),
                        None => Err(AppError::InvalidInput("bad url".to_owned())),
                    }
                } else {
                    Err(AppError::InvalidInput("bad url".to_owned()))
                }
            },
        },
        Err(e) => Err(AppError::InvalidInput("bad url: ".to_owned().concat(e.as_str()))),
    }
}

/// The socket scheme for a web scheme.
pub open spec fn socket_scheme(scheme: Seq<char>) -> Seq<char> {
    if scheme == "https"@ {
        "wss"@
    } else if scheme == "http"@ {
        "ws"@
    } else {
        scheme
    }
}

/// The URL of a joined socket endpoint: its scheme replaced by the socket scheme.
pub fn to_socket_url(url: &str) -> (r: Result<String, AppError>)
    ensures
        match scheme_read(url@) {
            Some(s) => match url_with_scheme(url@, socket_scheme(s)) {
                Some(u2) => r matches Ok(u) && u@ == u2,
                None => r matches Err(AppError::InvalidInput(m)) && m@ == "cannot derive ws scheme"@,
            },
            None => r matches Err(AppError::InvalidInput(m)) && m@ == "cannot derive ws scheme"@,
        },
{
    if !is_sized(url) {
        return Err(AppError::InvalidInput("cannot derive ws scheme".to_owned()));
    }
    let scheme = match scheme_of(url) {
        Some(s) => s,
        None => {
            return Err(AppError::InvalidInput("cannot derive ws scheme".to_owned()));
        },
    };
    let target = if same(scheme.as_str(), "https") {
        "wss"
    } else if same(scheme.as_str(), "http") {
        "ws"
    } else {
        scheme.as_str()
    };
    match set_scheme(url, target) {
        Some(u) => Ok(u),
        None => Err(AppError::InvalidInput("cannot derive ws scheme".to_owned())),
    }
}

/// The socket endpoint derived from a base URL.
pub fn ws_url(base: &str) -> (r: Result<String, AppError>)
    ensures
        match url_led(base@, "v1/ws"@) {
            Ok(u) => match scheme_read(u) {
                Some(s) => match url_with_scheme(u, socket_scheme(s)) {
                    Some(u2) => r matches Ok(x) && x@ == u2,
                    None => r matches Err(AppError::InvalidInput(m)) && m@
                        == "cannot derive ws scheme"@,
                },
                None => r matches Err(AppError::InvalidInput(m)) && m@ == "cannot derive ws scheme"@,
            },
            Err(e) => r matches Err(AppError::InvalidInput(m)) && m@ == "bad url: "@ + e,
        },
{
    match lead_url(base, "v1/ws") {
        Ok(u) => to_socket_url(u.as_str()),
        Err(e) => Err(AppError::InvalidInput("bad url: ".to_owned().concat(e.as_str()))),
    }
}

/// A path without its leading slashes.
pub open spec fn relative(path: Seq<char>) -> Seq<char>
    decreases path.len(),
{
    if path.len() > 0 && path[0] == '/' {
        relative(path.drop_first())
    } else {
        path
    }
}

/// A path without its leading slashes.
pub fn relative_path(path: &str) -> (r: String)
    ensures
        r@ == relative(path@),
{
    let v = chars_of(path);
    let mut i: usize = 0;
    assert(path@.skip(0) =~= path@);
    while i < v.len() && v[i] == '/'
        invariant
            i <= v.len(),
            v@ == path@,
            relative(path@) == relative(path@.skip(i as int)),
        decreases v.len() - i,
    {
        assert(path@.skip(i as int).drop_first() =~= path@.skip(i + 1));
        i += 1;
    }
    assert(path@.skip(i as int) =~= v@.subrange(i as int, v@.len() as int));
    string_from(&v, i, v.len())
}

/// The URL of an endpoint.
pub fn endpoint(base: &str, path: &str) -> (r: Result<String, AppError>)
    ensures
        match url_led(base@, relative(path@)) {
            Ok(u) => r matches Ok(x) && x@ == u,
            Err(e) => r matches Err(AppError::InvalidInput(m)) && m@ == "bad url: "@ + e,
        },
{
    match lead_url(base, relative_path(path).as_str()) {
        Ok(u) => Ok(u),
        Err(e) => Err(AppError::InvalidInput("bad url: ".to_owned().concat(e.as_str()))),
    }
}

/// The whole seconds a `Retry-After` header asks for.
pub open spec fn retry_seconds(header: Option<Seq<char>>) -> Option<u64> {
    match header {
        Some(h) => parsed_u64(trim(h)),
        None => None,
    }
}

/// The problem document of an error reply, completed from the reply itself: the request id from its
/// header, and the body as detail where it is no problem document.
pub open spec fn completed(
    p: ProblemDto,
    request_id: Option<String>,
    text: Seq<char>,
    q: ProblemDto,
) -> bool {
    &&& q == (ProblemDto {
        request_id: if p.request_id is Some {
            p.request_id
        } else {
            request_id
        },
        detail: q.detail,
        ..p
    })
    &&& opt_text(q.detail) == (if p.detail is None && text.len() > 0 && p.type_uri is None {
        Some(first_chars(text, 512))
    } else {
        opt_text(p.detail)
    })
}

/// The error for an error reply. `problem` is what its body was read as, empty where it is none.
pub fn map_error(
    status: u16,
    retry_after: Option<&str>,
    request_id: Option<String>,
    text: &str,
    problem: ProblemDto,
) -> (r: AppError)
    ensures
        exists|q: ProblemDto|
            {
                &&& #[trigger] completed(problem, request_id, text@, q)
                &&& same_error(
                    r,
                    problem_error(
                        status,
                        q,
                        retry_seconds(
                            match retry_after {
                                Some(h) => Some(h@),
                                None => None,
                            },
                        ),
                    ),
                )
            },
{
    let header: Option<u64> = match retry_after {
        Some(h) => parse_u64(trimmed(h).as_str()),
        None => None,
    };
    let mut q = problem;
    if q.request_id.is_none() {
        q.request_id = request_id;
    }
    if q.detail.is_none() && !text.is_empty() && q.type_uri.is_none() {
        q.detail = Some(take_chars(text, 512));
    }
    assert(completed(problem, request_id, text@, q));
    AppError::from_problem(status, &q, header)
}

/// `v`, or `d` where there is none.
pub open spec fn or_text(v: Option<String>, d: String) -> Option<String> {
    if v is Some {
        v
    } else {
        Some(d)
    }
}

/// A sign-in request that names the device.
pub fn fill_start(req: StartAuthRequest, d: &DeviceInfo) -> (r: StartAuthRequest)
    ensures
        r == (StartAuthRequest {
            platform: or_text(req.platform, d.platform),
            device_model: or_text(req.device_model, d.model),
            ..req
        }),
{
    let mut r = req;
    if r.platform.is_none() {
        r.platform = Some(d.platform.clone());
    }
    if r.device_model.is_none() {
        r.device_model = Some(d.model.clone());
    }
    r
}

/// A code verification that names the device.
pub fn fill_verify(req: VerifyAuthRequest, d: &DeviceInfo) -> (r: VerifyAuthRequest)
    ensures
        r == (VerifyAuthRequest {
            platform: or_text(req.platform, d.platform),
            device_model: or_text(req.device_model, d.model),
            ..req
        }),
{
    let mut r = req;
    if r.platform.is_none() {
        r.platform = Some(d.platform.clone());
    }
    if r.device_model.is_none() {
        r.device_model = Some(d.model.clone());
    }
    r
}

/// Refuse a batch of more phone numbers than the server takes.
pub fn check_batch(phones: &Vec<String>) -> (r: Result<(), AppError>)
    ensures
        r is Ok == (phones@.len() <= DEFAULT_MAX_PHONES),
        r matches Err(e) ==> e == (AppError::ContactsBatchTooLarge { request_id: None }),
{
    if phones.len() > DEFAULT_MAX_PHONES {
        Err(AppError::ContactsBatchTooLarge { request_id: None })
    } else {
        Ok(())
    }
}

/// The concatenation of all chunks.
pub open spec fn flat(chunks: Seq<Vec<String>>) -> Seq<Seq<char>>
    decreases chunks.len(),
{
    if chunks.len() == 0 {
        seq![]
    } else {
        flat(chunks.drop_last()) + texts(chunks.last()@)
    }
}

/// Split a list of phone numbers into batches the server takes: all full but the last.
pub fn batches(phones: &Vec<String>) -> (r: Vec<Vec<String>>)
    ensures
        flat(r@) == texts(phones@),
        forall|i: int| 0 <= i < r@.len() ==> 0 < (#[trigger] r@[i])@.len() <= DEFAULT_MAX_PHONES,
        forall|i: int| 0 <= i < r@.len() - 1 ==> (#[trigger] r@[i])@.len() == DEFAULT_MAX_PHONES,
{
    let mut out: Vec<Vec<String>> = Vec::new();
    let mut i: usize = 0;
    assert(texts(phones@.take(0)) =~= Seq::empty());
    while i < phones.len()
        invariant
            i <= phones.len(),
            flat(out@) == texts(phones@.take(i as int)),
            forall|k: int|
                0 <= k < out@.len() ==> 0 < (#[trigger] out@[k])@.len() <= DEFAULT_MAX_PHONES,
            forall|k: int|
                0 <= k < out@.len() - 1 ==> (#[trigger] out@[k])@.len() == DEFAULT_MAX_PHONES,
            out@.len() > 0 && i < phones.len() ==> out@.last()@.len() == DEFAULT_MAX_PHONES,
        decreases phones.len() - i,
    {
        let mut chunk: Vec<String> = Vec::new();
        let start: usize = i;
        while i < phones.len() && chunk.len() < DEFAULT_MAX_PHONES
            invariant
                start <= i <= phones.len(),
                chunk@.len() == i - start,
                chunk@.len() <= DEFAULT_MAX_PHONES,
                forall|k: int| 0 <= k < chunk@.len() ==> (#[trigger] chunk@[k])@ == phones@[start + k]@,
            decreases phones.len() - i,
        {
            chunk.push(phones[i].clone());
            i += 1;
        }
        let ghost before = out@;
        out.push(chunk);
        assert(out@.drop_last() =~= before);
        assert forall|k: int| 0 <= k < out@.len() - 1 implies (#[trigger] out@[k])@.len()
            == DEFAULT_MAX_PHONES by {
            assert(out@[k] == before[k]);
        }
        assert(texts(phones@.take(i as int)) =~= texts(phones@.take(start as int)) + texts(chunk@));
    }
    assert(phones@.take(i as int) =~= phones@);
    out
}

/// What a legal reply holds under `document`, whatever it is; else the reply itself.
pub open spec fn legal_core(raw: Json) -> Json {
    match raw {
        Json::Obj(o) => match member_of(o@, "document"@) {
            Some(d) => d,
            None => raw,
        },
        _ => raw,
    }
}

/// The document of a legal reply, with its key filled in.
pub fn legal_document(raw: &Json, key: LegalDocKey) -> (r: Result<LegalDocument, AppError>)
    ensures
        match r {
            Ok(d) => exists|m: LegalDocument|
                {
                    &&& #[trigger] LegalDocument::decodes(legal_core(*raw), Some(m))
                    &&& d == (LegalDocument { key: d.key, ..m })
                    &&& opt_text(d.key) == (if m.key is Some {
                        opt_text(m.key)
                    } else {
                        Some(
                            match key {
                                LegalDocKey::Privacy => "privacy"@,
                                LegalDocKey::Terms => "terms"@,
                            },
                        )
                    })
                },
            Err(e) => (e matches AppError::Json(m) && m@ == "legal reply holds no document"@)
                && LegalDocument::decodes(legal_core(*raw), None),
        },
{
    let inner = match raw {
        Json::Obj(o) => match get(o, "document") {
            Some(d) => d,
            None => raw,
        },
        _ => raw,
    };
    match LegalDocument::from_json(inner) {
        Some(m) => {
            assert(LegalDocument::decodes(legal_core(*raw), Some(m)));
            let mut d = m;
            if d.key.is_none() {
                d.key = Some(key.as_str().to_owned());
            }
            Ok(d)
        },
        None => Err(AppError::Json("legal reply holds no document".to_owned())),
    }
}

/// The cursor of the next page of groups, if there is one.
pub fn next_groups_cursor(page: &Page<GroupDto>) -> (r: Option<String>)
    ensures
        r == (match page.next_cursor {
            Some(c) => if page.has_more || c@.len() > 0 {
                Some(c)
            } else {
                None
            },
            None => None,
        }),
{
    match &page.next_cursor {
        Some(c) => if page.has_more || !c.as_str().is_empty() {
            Some(c.clone())
        } else {
            None
        },
        None => None,
    }
}

/// The cursor of the next page of members, if there is one.
pub fn next_members_cursor(page: &Page<MemberDto>) -> (r: Option<String>)
    ensures
        r == (match page.next_cursor {
            Some(c) => if c@.len() > 0 {
                Some(c)
            } else {
                None
            },
            None => None,
        }),
{
    match &page.next_cursor {
        Some(c) => if !c.as_str().is_empty() {
            Some(c.clone())
        } else {
            None
        },
        None => None,
    }
}

/// A page of messages of a group, each with its group filled in.
pub fn fill_page(page: MessagesPage, group_id: &String) -> (r: MessagesPage)
    ensures
        r == (MessagesPage { items: r.items, ..page }),
        r.items@ =~= page.items@.map_values(|m: MessageDto| in_group(m, *group_id)),
{
    let items = fill_groups(group_id, page.items);
    MessagesPage {
        items,
        next_after_seq: page.next_after_seq,
        next_before_seq: page.next_before_seq,
        extra: page.extra,
    }
}

/// `v`, or what stands under `key` in it where that is an object.
pub open spec fn unwrapped(v: Json, key: Seq<char>) -> Json {
    match v {
        Json::Obj(o) => match member_of(o@, key) {
            Some(Json::Obj(d)) => Json::Obj(d),
            _ => v,
        },
        _ => v,
    }
}

/// A send reply without its envelopes.
pub open spec fn sent_core(raw: Json) -> Json {
    unwrapped(unwrapped(unwrapped(unwrapped(raw, "message"@), "data"@), "item"@), "result"@)
}

fn unwrap_member<'a>(v: &'a Json, key: &str) -> (r: &'a Json)
    ensures
        *r == unwrapped(*v, key@),
{
    match v {
        Json::Obj(o) => match get(o, key) {
            Some(j) => match j {
                Json::Obj(_) => j,
                _ => v,
            },
            None => v,
        },
        _ => v,
    }
}

/// The members of an object; none of another value.
pub open spec fn members_of(j: Json) -> Seq<(String, Json)> {
    match j {
        Json::Obj(o) => o@,
        _ => seq![],
    }
}

/// The text of a member.
pub open spec fn member_text(o: Seq<(String, Json)>, name: Seq<char>) -> Option<Seq<char>> {
    match member_of(o, name) {
        Some(j) => str_of(j),
        None => None,
    }
}

/// The id in a minimal reply: under `id`, else under `messageId`.
pub open spec fn reply_id(o: Seq<(String, Json)>) -> Option<Seq<char>> {
    if member_of(o, "id"@) is Some {
        member_text(o, "id"@)
    } else {
        member_text(o, "messageId"@)
    }
}

/// The seq in a minimal reply.
pub open spec fn reply_seq(o: Seq<(String, Json)>) -> Option<i64> {
    match member_of(o, "seq"@) {
        Some(j) => i64_of(j),
        None => None,
    }
}

/// The names of the members of an object.
pub open spec fn member_names(o: Seq<(String, Json)>) -> Seq<Seq<char>> {
    Seq::new(o.len(), |i: int| o[i].0@)
}

/// What a send reply is taken for.
pub open spec fn sent_is(
    raw: Json,
    raw_text: Seq<char>,
    group: Seq<char>,
    client_id: Seq<char>,
    body: Seq<char>,
    r: Result<MessageDto, AppError>,
) -> bool {
    let v = sent_core(raw);
    let o = members_of(v);
    if !MessageDto::decodes(v, None) {
        r matches Ok(m) && MessageDto::decodes(v, Some(m))
    } else if reply_id(o) is Some && reply_seq(o) is Some {
        r matches Ok(m) && m.id@ == reply_id(o)->0 && m.seq == reply_seq(o)->0 && opt_text(m.group_id)
            == Some(group) && m.sender_id@ == (match member_text(o, "senderId"@) {
            Some(s) => s,
            None => Seq::empty(),
        }) && m.body@ == (match member_text(o, "body"@) {
            Some(s) => s,
            None => body,
        }) && opt_text(m.client_message_id) == Some(client_id) && m.created_at == (match member_of(
            o,
            "createdAt"@,
        ) {
            Some(j) => epoch_ms_of(j),
            None => None,
        }) && same_members(o, m.extra@)
    } else {
        r matches Err(AppError::Json(m)) && m@ == "send reply has no usable message (keys: "@ + (
        if v is Obj {
            join(member_names(o), ","@)
        } else {
            raw_text
        }) + ")"@
    }
}

fn text_member(o: &Vec<(String, Json)>, name: &str) -> (r: Option<String>)
    ensures
        opt_text(r) == member_text(o@, name@),
{
    match get(o, name) {
        Some(Json::Str(s)) => Some(s.clone()),
        _ => None,
    }
}

pub(crate) fn copy_members(o: &Vec<(String, Json)>) -> (v: Vec<(String, Json)>)
    ensures
        same_members(o@, v@),
{
    let mut v: Vec<(String, Json)> = Vec::new();
    let mut i: usize = 0;
    while i < o.len()
        invariant
            i <= o.len(),
            v@.len() == i,
            forall|k: int|
                0 <= k < i ==> (#[trigger] v@[k]).0@ == o@[k].0@ && same_json(o@[k].1, v@[k].1),
        decreases o.len() - i,
    {
        v.push((o[i].0.clone(), copy_json(&o[i].1)));
        i += 1;
    }
    v
}

fn names_of(o: &Vec<(String, Json)>) -> (v: Vec<String>)
    ensures
        texts(v@) == member_names(o@),
{
    let mut v: Vec<String> = Vec::new();
    let mut i: usize = 0;
    while i < o.len()
        invariant
            i <= o.len(),
            v@.len() == i,
            forall|k: int| 0 <= k < i ==> (#[trigger] v@[k])@ == o@[k].0@,
        decreases o.len() - i,
    {
        v.push(o[i].0.clone());
        i += 1;
    }
    assert(texts(v@) =~= member_names(o@));
    v
}

/// Turn whatever a send was answered with into a message: a message, perhaps in an envelope, or at
/// least an id and a seq. `raw_text` is the reply in JSON notation.
pub fn decode_sent_message(
    raw: &Json,
    raw_text: &str,
    group_id: &str,
    client_message_id: &str,
    body: &str,
) -> (r: Result<MessageDto, AppError>)
    ensures
        sent_is(*raw, raw_text@, group_id@, client_message_id@, body@, r),
{
    let v = unwrap_member(
        unwrap_member(unwrap_member(unwrap_member(raw, "message"), "data"), "item"),
        "result",
    );
    match MessageDto::from_json(v) {
        Some(m) => {
            return Ok(m);
        },
        None => {},
    }
    let o = match v {
        Json::Obj(o) => o,
        _ => {
            return Err(
                AppError::Json(
                    "send reply has no usable message (keys: ".to_owned().concat(raw_text).concat(
                        ")",
                    ),
                ),
            );
        },
    };
    let seq: Option<i64> = match get(o, "seq") {
        Some(j) => as_i64(j),
        None => None,
    };
    let id = if get(o, "id").is_some() {
        text_member(o, "id")
    } else {
        text_member(o, "messageId")
    };
    match (id, seq) {
        (Some(id), Some(seq)) => Ok(
            MessageDto {
                id,
                group_id: Some(group_id.to_owned()),
                seq,
                sender_id: match text_member(o, "senderId") {
                    Some(s) => s,
                    None => String::new(),
                },
                body: match text_member(o, "body") {
                    Some(s) => s,
                    None => body.to_owned(),
                },
                client_message_id: Some(client_message_id.to_owned()),
                created_at: match get(o, "createdAt") {
                    Some(j) => epoch_ms_from_value(j),
                    None => None,
                },
                extra: copy_members(o),
            },
        ),
        _ => Err(
            AppError::Json(
                "send reply has no usable message (keys: ".to_owned().concat(
                    joined(&names_of(o), ",").as_str(),
                ).concat(")"),
            ),
        ),
    }
}

/// A sent message with its group and its client id filled in.
pub fn fill_sent(m: MessageDto, group_id: &str, client_message_id: &str) -> (r: MessageDto)
    ensures
        filled(m, group_id@, client_message_id@, r),
{
    let mut r = m;
    if r.group_id.is_none() {
        r.group_id = Some(group_id.to_owned());
    }
    if r.client_message_id.is_none() {
        r.client_message_id = Some(client_message_id.to_owned());
    }
    r
}

/// The answer of the server to an in-chat command, which it runs and does not store.
#[derive(Debug)]
pub struct CommandReply {
    pub name: String,
    pub ok: bool,
    pub code: String,
    /// What the user is shown.
    pub text: String,
}

/// What a send was answered with.
#[derive(Debug)]
pub enum SendReply {
    /// The message as the server took it.
    Message(MessageDto),
    /// The body was a command.
    Command(CommandReply),
}

/// The members of a command's answer: an object under `command` that has a text.
pub open spec fn command_in(raw: Json) -> Option<Seq<(String, Json)>> {
    match member_of(members_of(raw), "command"@) {
        Some(Json::Obj(c)) => if member_text(c@, "text"@) is Some {
            Some(c@)
        } else {
            None
        },
        _ => None,
    }
}

/// A command's answer holds what the members say; what is absent is empty, or false.
pub open spec fn command_is(c: Seq<(String, Json)>, r: CommandReply) -> bool {
    &&& r.name@ == text_or_empty(member_text(c, "name"@))
    &&& r.ok == (member_of(c, "ok"@) matches Some(Json::Bool(b)) && b)
    &&& r.code@ == text_or_empty(member_text(c, "code"@))
    &&& Some(r.text@) == member_text(c, "text"@)
}

/// A text, or the empty one.
pub open spec fn text_or_empty(s: Option<Seq<char>>) -> Seq<char> {
    match s {
        Some(s) => s,
        None => Seq::empty(),
    }
}

fn text_or_nothing(o: &Vec<(String, Json)>, name: &str) -> (r: String)
    ensures
        r@ == text_or_empty(member_text(o@, name@)),
{
    match text_member(o, name) {
        Some(s) => s,
        None => String::new(),
    }
}

/// The answer to a command, where a reply holds one.
pub fn command_reply(raw: &Json) -> (r: Option<CommandReply>)
    ensures
        r is Some == command_in(*raw) is Some,
        r matches Some(c) ==> command_is(command_in(*raw)->0, c),
{
    let o = match raw {
        Json::Obj(o) => o,
        _ => {
            return None;
        },
    };
    let c = match get(o, "command") {
        Some(Json::Obj(c)) => c,
        _ => {
            return None;
        },
    };
    let text = match text_member(c, "text") {
        Some(t) => t,
        None => {
            return None;
        },
    };
    let ok = match get(c, "ok") {
        Some(j) => match as_bool(j) {
            Some(b) => b,
            None => false,
        },
        None => false,
    };
    Some(
        CommandReply {
            name: text_or_nothing(c, "name"),
            ok,
            code: text_or_nothing(c, "code"),
            text,
        },
    )
}

/// `m` is a message as it came back, with its group and its client id filled in.
pub open spec fn filled(
    m: MessageDto,
    group: Seq<char>,
    client_id: Seq<char>,
    r: MessageDto,
) -> bool {
    &&& r == (MessageDto { group_id: r.group_id, client_message_id: r.client_message_id, ..m })
    &&& opt_text(r.group_id) == (if m.group_id is Some {
        opt_text(m.group_id)
    } else {
        Some(group)
    })
    &&& opt_text(r.client_message_id) == (if m.client_message_id is Some {
        opt_text(m.client_message_id)
    } else {
        Some(client_id)
    })
}

/// Read the reply to a send: the answer to a command, else a message.
pub fn decode_send_reply(
    raw: &Json,
    raw_text: &str,
    group_id: &str,
    client_message_id: &str,
    body: &str,
) -> (r: Result<SendReply, AppError>)
    ensures
        match command_in(*raw) {
            Some(c) => r matches Ok(SendReply::Command(a)) && command_is(c, a),
            None => match r {
                Ok(SendReply::Message(m)) => exists|d: MessageDto|
                    {
                        &&& #[trigger] filled(d, group_id@, client_message_id@, m)
                        &&& sent_is(
                            *raw,
                            raw_text@,
                            group_id@,
                            client_message_id@,
                            body@,
                            Ok::<MessageDto, AppError>(d),
                        )
                    },
                Ok(SendReply::Command(_)) => false,
                Err(e) => sent_is(
                    *raw,
                    raw_text@,
                    group_id@,
                    client_message_id@,
                    body@,
                    Err::<MessageDto, AppError>(e),
                ),
            },
        },
{
    match command_reply(raw) {
        Some(c) => {
            return Ok(SendReply::Command(c));
        },
        None => {},
    }
    match decode_sent_message(raw, raw_text, group_id, client_message_id, body) {
        Ok(d) => {
            let m = fill_sent(d, group_id, client_message_id);
            assert(filled(d, group_id@, client_message_id@, m));
            Ok(SendReply::Message(m))
        },
        Err(e) => Err(e),
    }
}

/// Path of a group.
pub fn group_path(id: &str) -> (r: String)
    ensures
        r@ == "v1/groups/"@ + id@,
{
    "v1/groups/".to_owned().concat(id)
}

/// Path of something that belongs to a group, such as `/members`.
pub fn group_part_path(id: &str, part: &str) -> (r: String)
    ensures
        r@ == "v1/groups/"@ + id@ + "/"@ + part@,
{
    "v1/groups/".to_owned().concat(id).concat("/").concat(part)
}

/// Path of a member of a group.
pub fn member_path(id: &str, user_id: &str) -> (r: String)
    ensures
        r@ == "v1/groups/"@ + id@ + "/members/"@ + user_id@,
{
    "v1/groups/".to_owned().concat(id).concat("/members/").concat(user_id)
}

/// Path of a legal document.
pub fn legal_path(key: LegalDocKey) -> (r: String)
    ensures
        r@ == "v1/legal/"@ + (match key {
            LegalDocKey::Privacy => "privacy"@,
            LegalDocKey::Terms => "terms"@,
        }),
{
    "v1/legal/".to_owned().concat(key.as_str())
}

} // verus!
