//! The login page inside Telegram: who opened it, and what its requests lead to.
//!
//! A request of the page carries the data with which Telegram opened it, signed with the bot's
//! token. Nothing happens before the signature and the age of that data are checked.

use crate::bridge::dialogue::{start_request, verify_request};
use crate::bridge::phone::{parse_phone, phone_of, result_text};
use crate::error::{error_text, AppError};
use crate::models::{opt_text, StartAuthRequest, VerifyAuthRequest};
use crate::numbers::{parse_i64, parsed_i64};
use crate::sorting::{arranged, law_text_order_total, sorted, text_up_to, Keyed, SortKey};
use crate::text::{ascii_lower, join, joined, same, texts, to_ascii_lower, trim, trimmed};
use crate::validation::{is_valid_otp, keep_digits, only_digits, otp_shape};
use hmac::{Hmac, Mac};
use sha2::Sha256;
use vstd::prelude::*;
use vstd::utf8::encode_utf8;

verus! {

/// A name and its value, out of signed data.
#[derive(Debug)]
pub struct Pair {
    pub name: String,
    pub value: String,
}

impl Clone for Pair {
    fn clone(&self) -> (r: Self)
        ensures
            r == *self,
    {
        Pair { name: self.name.clone(), value: self.value.clone() }
    }
}

impl Keyed for Pair {
    open spec fn key(self) -> SortKey {
        (0, self.name@, self.value@, 0)
    }

    fn up_to(&self, other: &Self) -> (r: bool) {
        proof {
            law_text_order_total(self.value@, self.value@);
        }
        if same(self.name.as_str(), other.name.as_str()) {
            text_up_to(self.value.as_str(), other.value.as_str())
        } else {
            text_up_to(self.name.as_str(), other.name.as_str())
        }
    }
}

/// The texts of pairs.
pub open spec fn pair_texts(v: Seq<Pair>) -> Seq<(Seq<char>, Seq<char>)> {
    Seq::new(v.len(), |i: int| (v[i].name@, v[i].value@))
}

/// The names and values of a text in the notation of web forms, in order.
pub uninterp spec fn form_pairs(s: Seq<char>) -> Seq<(Seq<char>, Seq<char>)>;

/// `url::form_urlencoded::parse` of the bytes of a text. What the names and values are, with their
/// percent signs and plus signs resolved, is left to a name.
#[verifier::external_body]
fn read_form(s: &str) -> (r: Vec<Pair>)
    ensures
        pair_texts(r@) == form_pairs(s@),
{
    url::form_urlencoded::parse(s.as_bytes())
        .map(|(k, v)| Pair { name: k.into_owned(), value: v.into_owned() })
        .collect()
}

/// The HMAC of a message under a key, with SHA-256.
pub uninterp spec fn hmac_sha256(key: Seq<u8>, message: Seq<u8>) -> Seq<u8>;

/// `hmac::Hmac::<sha2::Sha256>`: `new_from_slice`, which takes a key of any length, `update` and
/// `finalize`. The bytes are left to a name.
#[verifier::external_body]
fn authenticate(key: &[u8], message: &[u8]) -> (r: Vec<u8>)
    ensures
        r@ == hmac_sha256(key@, message@),
{
    match <Hmac<Sha256> as Mac>::new_from_slice(key) {
        Ok(mut mac) => {
            mac.update(message);
            mac.finalize().into_bytes().to_vec()
        },
        Err(_) => Vec::new(),
    }
}

/// A hexadecimal digit, in lower case.
pub open spec fn hex_digit(n: int) -> char {
    if n < 10 {
        (48 + n) as char
    } else {
        (87 + n) as char
    }
}

/// Bytes in hexadecimal notation: two lower-case digits each.
pub open spec fn hex_text(b: Seq<u8>) -> Seq<char> {
    Seq::new(
        2 * b.len(),
        |i: int|
            if i % 2 == 0 {
                hex_digit(b[i / 2] as int / 16)
            } else {
                hex_digit(b[i / 2] as int % 16)
            },
    )
}

/// `hex::encode`: two lower-case hexadecimal digits for each byte.
#[verifier::external_body]
fn hex_encode(b: &[u8]) -> (r: String)
    ensures
        r@ == hex_text(b@),
{
    hex::encode(b)
}

/// The first value of a name.
pub open spec fn value_of(v: Seq<Pair>, name: Seq<char>) -> Option<Seq<char>>
    decreases v.len(),
{
    if v.len() == 0 {
        None
    } else if v[0].name@ == name {
        Some(v[0].value@)
    } else {
        value_of(v.drop_first(), name)
    }
}

fn find_value(v: &Vec<Pair>, name: &str) -> (r: Option<String>)
    ensures
        opt_text(r) == value_of(v@, name@),
{
    let mut i: usize = 0;
    assert(v@.skip(0) =~= v@);
    while i < v.len()
        invariant
            i <= v.len(),
            value_of(v@, name@) == value_of(v@.skip(i as int), name@),
        decreases v.len() - i,
    {
        if same(v[i].name.as_str(), name) {
            return Some(v[i].value.clone());
        }
        assert(v@.skip(i as int).drop_first() =~= v@.skip(i + 1));
        i += 1;
    }
    None
}

/// The signed pairs: all but the signature.
pub open spec fn signed(v: Seq<Pair>) -> Seq<Pair> {
    v.filter(|p: Pair| p.name@ != "hash"@)
}

fn drop_signature(v: &Vec<Pair>) -> (r: Vec<Pair>)
    ensures
        r@ == signed(v@),
{
    let ghost keep = |p: Pair| p.name@ != "hash"@;
    let mut out: Vec<Pair> = Vec::new();
    let mut i: usize = 0;
    assert(v@.take(0).filter(keep) =~= Seq::empty()) by {
        reveal(Seq::filter);
    }
    while i < v.len()
        invariant
            keep == (|p: Pair| p.name@ != "hash"@),
            i <= v.len(),
            out@ == v@.take(i as int).filter(keep),
        decreases v.len() - i,
    {
        proof {
            assert(v@.take(i + 1).drop_last() =~= v@.take(i as int));
            reveal(Seq::filter);
        }
        if !same(v[i].name.as_str(), "hash") {
            out.push(v[i].clone());
        }
        i += 1;
    }
    assert(v@.take(i as int) =~= v@);
    out
}

/// A pair in one line.
pub open spec fn pair_line(p: Pair) -> Seq<char> {
    p.name@ + "="@ + p.value@
}

/// The text that is signed: the pairs in alphabetical order, one per line.
pub open spec fn check_text(v: Seq<Pair>) -> Seq<char> {
    join(Seq::new(v.len(), |i: int| pair_line(v[i])), "\n"@)
}

fn text_to_check(v: &Vec<Pair>) -> (r: String)
    ensures
        r@ == check_text(v@),
{
    let mut lines: Vec<String> = Vec::new();
    let mut i: usize = 0;
    while i < v.len()
        invariant
            i <= v.len(),
            lines@.len() == i,
            forall|k: int| 0 <= k < i ==> (#[trigger] lines@[k])@ == pair_line(v@[k]),
        decreases v.len() - i,
    {
        lines.push(v[i].name.clone().concat("=").concat(v[i].value.as_str()));
        i += 1;
    }
    assert(texts(lines@) =~= Seq::new(v@.len(), |i: int| pair_line(v@[i])));
    joined(&lines, "\n")
}

/// The signature that the bot's token gives a text.
pub open spec fn signature(text: Seq<char>, bot_token: Seq<char>) -> Seq<char> {
    hex_text(
        hmac_sha256(
            hmac_sha256(encode_utf8("WebAppData"@), encode_utf8(bot_token)),
            encode_utf8(text),
        ),
    )
}

fn sign(text: &str, bot_token: &str) -> (r: String)
    ensures
        r@ == signature(text@, bot_token@),
{
    let secret = authenticate("WebAppData".as_bytes(), bot_token.as_bytes());
    let mac = authenticate(secret.as_slice(), text.as_bytes());
    hex_encode(mac.as_slice())
}

/// When the data was signed, in seconds since the epoch; zero where it does not say.
pub open spec fn signed_at(v: Seq<Pair>) -> i64 {
    match value_of(v, "auth_date"@) {
        Some(s) => match parsed_i64(s) {
            Some(n) => n,
            None => 0,
        },
        None => 0,
    }
}

/// What signed data says about the user, given the signature that its text should bear.
pub open spec fn accepted(
    pairs: Seq<Pair>,
    expected: Seq<char>,
    now: i64,
    max_age: i64,
) -> Result<Seq<char>, Seq<char>> {
    let rest = arranged(signed(pairs));
    match value_of(pairs, "hash"@) {
        None => Err("initData without hash"@),
        Some(hash) => if expected != ascii_lower(hash) {
            Err("initData signature mismatch"@)
        } else if now - signed_at(rest) > max_age {
            Err("initData expired"@)
        } else {
            match value_of(rest, "user"@) {
                Some(u) => Ok(u),
                None => Err("initData without user"@),
            }
        },
    }
}

/// The text of signed data, in the order in which it is signed.
pub fn signed_text(pairs: &Vec<Pair>) -> (r: String)
    ensures
        r@ == check_text(arranged(signed(pairs@))),
{
    text_to_check(&sorted(drop_signature(pairs)))
}

/// Accept signed data, given the signature that its text should bear.
pub fn accept(pairs: &Vec<Pair>, expected: &str, now: i64, max_age: i64) -> (r: Result<
    String,
    String,
>)
    ensures
        result_text(r) == accepted(pairs@, expected@, now, max_age),
{
    let hash = match find_value(pairs, "hash") {
        Some(h) => h,
        None => {
            return Err("initData without hash".to_owned());
        },
    };
    if !same(expected, to_ascii_lower(hash.as_str()).as_str()) {
        return Err("initData signature mismatch".to_owned());
    }
    let rest = sorted(drop_signature(pairs));
    let at: i64 = match find_value(&rest, "auth_date") {
        Some(s) => match parse_i64(s.as_str()) {
            Some(n) => n,
            None => 0,
        },
        None => 0,
    };
    if (now as i128) - (at as i128) > max_age as i128 {
        return Err("initData expired".to_owned());
    }
    match find_value(&rest, "user") {
        Some(u) => Ok(u),
        None => Err("initData without user".to_owned()),
    }
}

/// Check the data with which Telegram opened the page, and give the user in it, in JSON notation.
pub fn verify_init_data(init_data: &str, bot_token: &str, now: i64, max_age_secs: i64) -> (r: Result<
    String,
    String,
>)
    ensures
        exists|pairs: Seq<Pair>|
            #![trigger pair_texts(pairs)]
            pair_texts(pairs) == form_pairs(init_data@) && result_text(r) == accepted(
                pairs,
                signature(check_text(arranged(signed(pairs))), bot_token@),
                now,
                max_age_secs,
            ),
{
    let pairs = read_form(init_data);
    let expected = sign(signed_text(&pairs).as_str(), bot_token);
    let r = accept(&pairs, expected.as_str(), now, max_age_secs);
    assert(pair_texts(pairs@) == form_pairs(init_data@));
    r
}

/// Data is accepted only with the signature that the bot's token gives its text, and only within its
/// age.
pub proof fn law_accepted_is_signed(
    pairs: Seq<Pair>,
    bot_token: Seq<char>,
    now: i64,
    max_age: i64,
)
    requires
        accepted(
            pairs,
            signature(check_text(arranged(signed(pairs))), bot_token),
            now,
            max_age,
        ) is Ok,
    ensures
        value_of(pairs, "hash"@) matches Some(h) && ascii_lower(h) == signature(
            check_text(arranged(signed(pairs))),
            bot_token,
        ),
        now - signed_at(arranged(signed(pairs))) <= max_age,
{
}

/// Seconds for which the data that opened the page is good.
pub const INIT_DATA_AGE: i64 = 3600;

/// A refusal, with its HTTP status.
#[derive(Debug)]
pub struct Refusal {
    pub status: u16,
    pub error: String,
}

/// A name that says something.
pub open spec fn given_name(name: Option<String>) -> Option<Seq<char>> {
    match name {
        Some(n) => if trim(n@).len() > 0 {
            Some(trim(n@))
        } else {
            None
        },
        None => None,
    }
}

fn read_name(name: &Option<String>) -> (r: Option<String>)
    ensures
        opt_text(r) == given_name(*name),
{
    match name {
        Some(n) => {
            let t = trimmed(n.as_str());
            if t.as_str().is_empty() {
                None
            } else {
                Some(t)
            }
        },
        None => None,
    }
}

/// The page asks for a code: the request to the service, or a refusal. `user` is what checking the
/// page's data gave.
pub fn api_start(
    user: &Result<String, String>,
    phone: &str,
    display_name: &Option<String>,
    region: &str,
) -> (r: Result<StartAuthRequest, Refusal>)
    ensures
        match *user {
            Err(m) => r matches Err(e) && e.status == 401 && e.error@ == m@,
            Ok(_) => match phone_of(phone@, region@) {
                Err(why) => r matches Err(e) && e.status == 400 && e.error@ == "phone: "@ + why,
                Ok(p) => r matches Ok(q) && q.phone@ == p && opt_text(q.display_name) == given_name(
                    *display_name,
                ) && q.region is None && q.platform is None && q.device_model is None,
            },
        },
{
    match user {
        Err(m) => {
            return Err(Refusal { status: 401, error: m.clone() });
        },
        Ok(_) => {},
    }
    match parse_phone(phone, region) {
        Err(why) => Err(
            Refusal { status: 400, error: "phone: ".to_owned().concat(why.as_str()) },
        ),
        Ok(p) => Ok(start_request(p.as_str(), read_name(display_name))),
    }
}

/// The page sends a code: the request to the service, or a refusal.
pub fn api_verify(
    user: &Result<String, String>,
    challenge_id: &str,
    phone: &str,
    code: &str,
    display_name: &Option<String>,
    region: &str,
) -> (r: Result<VerifyAuthRequest, Refusal>)
    ensures
        match *user {
            Err(m) => r matches Err(e) && e.status == 401 && e.error@ == m@,
            Ok(_) => if !otp_shape(only_digits(code@)) {
                r matches Err(e) && e.status == 400 && e.error@ == "code must be 6 digits"@
            } else {
                r matches Ok(q) && q.challenge_id@ == challenge_id@ && q.code@ == only_digits(code@)
                    && q.phone@ == (match phone_of(phone@, region@) {
                    Ok(p) => p,
                    Err(_) => phone@,
                }) && opt_text(q.display_name) == given_name(*display_name) && q.region is None
                    && q.platform is None && q.device_model is None
            },
        },
{
    match user {
        Err(m) => {
            return Err(Refusal { status: 401, error: m.clone() });
        },
        Ok(_) => {},
    }
    let digits = keep_digits(code);
    if !is_valid_otp(digits.as_str()) {
        return Err(Refusal { status: 400, error: "code must be 6 digits".to_owned() });
    }
    let number = match parse_phone(phone, region) {
        Ok(p) => p,
        Err(_) => phone.to_owned(),
    };
    Ok(verify_request(challenge_id, digits, number.as_str(), read_name(display_name)))
}

/// The service refused the page's request.
pub fn login_refused(e: &AppError) -> (r: Refusal)
    ensures
        r.status == (if *e is InvalidCode {
            401u16
        } else {
            502u16
        }),
        r.error@ == (if *e is InvalidCode {
            "wrong code"@
        } else {
            error_text(*e)
        }),
{
    if matches!(e, AppError::InvalidCode { .. }) {
        Refusal { status: 401, error: "wrong code".to_owned() }
    } else {
        Refusal { status: 502, error: e.message() }
    }
}

} // verus!
