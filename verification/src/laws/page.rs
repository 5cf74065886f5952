//! The login page: whom it lets in, and what it asks of the server.

use crate::bridge::miniapp::{
    accept, api_start, api_verify, login_refused, pair_line, signed, signed_text, value_of, Pair,
    Refusal,
};
use crate::bridge::phone::parse_phone;
use crate::error::AppError;
use crate::models::{StartAuthRequest, VerifyAuthRequest};
use crate::numbers::parsed_i64;
use crate::sorting::{arranged, in_order, law_arranged};
use crate::text::{ascii_lower, join, trim};
use crate::validation::only_digits;
use vstd::prelude::*;

verus! {

/// A value is found under its name, the first one where several bear it.
pub proof fn law_value_found(v: Seq<Pair>, name: Seq<char>, i: int)
    ensures
        0 <= i < v.len() && v[i].name@ == name && (forall|j: int|
            0 <= j < i ==> (#[trigger] v[j]).name@ != name) ==> value_of(v, name) == Some(v[i].value@),
        (forall|j: int| 0 <= j < v.len() ==> (#[trigger] v[j]).name@ != name) ==> value_of(v, name) is None,
    decreases v.len(),
{
    if v.len() > 0 {
        let rest = v.drop_first();
        law_value_found(rest, name, i - 1);
        if 0 < i < v.len() && v[i].name@ == name && (forall|j: int|
            0 <= j < i ==> (#[trigger] v[j]).name@ != name) {
            assert(v[0].name@ != name);
            assert forall|j: int| 0 <= j < i - 1 implies (#[trigger] rest[j]).name@ != name by {
                assert(rest[j] == v[j + 1]);
            }
            assert(rest[i - 1] == v[i]);
        }
        if forall|j: int| 0 <= j < v.len() ==> (#[trigger] v[j]).name@ != name {
            assert(v[0].name@ != name);
            assert forall|j: int| 0 <= j < rest.len() implies (#[trigger] rest[j]).name@ != name by {
                assert(rest[j] == v[j + 1]);
            }
        }
    }
}

/// Data without a signature, and data whose signature is not the expected one, are refused.
pub proof fn law_unsigned_is_refused(pairs: &Vec<Pair>, expected: &str, now: i64, age: i64, r: Result<String, String>)
    requires
        call_ensures(accept, (pairs, expected, now, age), r),
    ensures
        value_of(pairs@, "hash"@) is None ==> r is Err,
        value_of(pairs@, "hash"@) matches Some(h) ==> (ascii_lower(h) != expected@ ==> r is Err),
{
}

proof fn lemma_signed(v: Seq<Pair>, p: Pair)
    ensures
        signed(v).contains(p) <==> v.contains(p) && p.name@ != "hash"@,
    decreases v.len(),
{
    reveal(Seq::filter);
    if v.len() > 0 {
        let t = v.drop_last();
        let last = v.last();
        let less = signed(t);
        let all = signed(v);
        lemma_signed(t, p);
        assert(all == if last.name@ != "hash"@ {
            less.push(last)
        } else {
            less
        });
        if v.contains(p) && p != last {
            let k = choose|k: int| 0 <= k < v.len() && v[k] == p;
            assert(t[k] == p);
        }
        if t.contains(p) {
            let k = choose|k: int| 0 <= k < t.len() && t[k] == p;
            assert(v[k] == p);
        }
        if less.contains(p) {
            let k = choose|k: int| 0 <= k < less.len() && less[k] == p;
            assert(all[k] == p);
        }
        if all.contains(p) && !(p == last && last.name@ != "hash"@) {
            let k = choose|k: int| 0 <= k < all.len() && all[k] == p;
            assert(less[k] == p);
        }
        if p == last {
            assert(v[v.len() - 1] == p);
            if last.name@ != "hash"@ {
                assert(all[all.len() - 1] == p);
            }
        }
    }
}

proof fn lemma_only_value(v: Seq<Pair>, p: Pair)
    requires
        v.contains(p),
        forall|i: int| 0 <= i < v.len() && (#[trigger] v[i]).name@ == p.name@ ==> v[i] == p,
    ensures
        value_of(v, p.name@) == Some(p.value@),
    decreases v.len(),
{
    let k = choose|k: int| 0 <= k < v.len() && v[k] == p;
    if v[0].name@ != p.name@ {
        let rest = v.drop_first();
        assert(rest[k - 1] == p);
        assert forall|i: int| 0 <= i < rest.len() && (#[trigger] rest[i]).name@
            == p.name@ implies rest[i] == p by {
            assert(rest[i] == v[i + 1]);
        }
        lemma_only_value(rest, p);
    }
}

/// Data with the expected signature that is young enough lets in the user that it names, and data
/// that is too old lets nobody in.
pub proof fn law_signed_is_accepted(
    pairs: &Vec<Pair>,
    expected: &str,
    now: i64,
    age: i64,
    date: Pair,
    user: Pair,
    at: i64,
    r: Result<String, String>,
)
    requires
        call_ensures(accept, (pairs, expected, now, age), r),
        forall|i: int, j: int|
            0 <= i < j < pairs@.len() ==> (#[trigger] pairs@[i]).name@ != (
            #[trigger] pairs@[j]).name@,
        value_of(pairs@, "hash"@) is Some && ascii_lower(value_of(pairs@, "hash"@)->0) == expected@,
        pairs@.contains(date) && date.name@ == "auth_date"@ && parsed_i64(date.value@) == Some(at),
        pairs@.contains(user) && user.name@ == "user"@,
    ensures
        now - at <= age ==> (r matches Ok(u) && u@ == user.value@),
        now - at > age ==> r is Err,
{
    reveal_strlit("hash");
    reveal_strlit("auth_date");
    reveal_strlit("user");
    assert("hash"@.len() == 4 && "auth_date"@.len() == 9 && "user"@.len() == 4);
    assert("hash"@[0] == 'h' && "user"@[0] == 'u');
    let rest = arranged(signed(pairs@));
    law_arranged(signed(pairs@));
    lemma_signed(pairs@, date);
    lemma_signed(pairs@, user);
    assert forall|i: int| 0 <= i < rest.len() implies pairs@.contains(#[trigger] rest[i]) by {
        assert(rest.contains(rest[i]));
        lemma_signed(pairs@, rest[i]);
    }
    assert forall|x: Pair, y: Pair|
        #[trigger] pairs@.contains(x) && #[trigger] pairs@.contains(y) && x.name@
            == y.name@ implies x == y by {
        let a = choose|a: int| 0 <= a < pairs@.len() && pairs@[a] == x;
        let b = choose|b: int| 0 <= b < pairs@.len() && pairs@[b] == y;
        if a < b {
            assert(pairs@[a].name@ != pairs@[b].name@);
        } else if b < a {
            assert(pairs@[b].name@ != pairs@[a].name@);
        }
    }
    lemma_only_value(rest, date);
    lemma_only_value(rest, user);
}

/// The text that is signed holds every pair but the signature, each as `name=value` in a line of
/// its own.
pub proof fn law_signed_text(pairs: &Vec<Pair>, r: String, p: Pair) -> (s: Seq<Pair>)
    requires
        call_ensures(signed_text, (pairs,), r),
    ensures
        r@ == join(Seq::new(s.len(), |i: int| s[i].name@ + "="@ + s[i].value@), "\n"@),
        s.contains(p) <==> pairs@.contains(p) && p.name@ != "hash"@,
        in_order(s),
{
    let s = arranged(signed(pairs@));
    law_arranged(signed(pairs@));
    lemma_signed(pairs@, p);
    assert(Seq::new(s.len(), |i: int| pair_line(s[i])) =~= Seq::new(
        s.len(),
        |i: int| s[i].name@ + "="@ + s[i].value@,
    ));
    s
}

/// The page asks for a code only for a user that was let in and a number that was read, and sends
/// both on as they are.
pub proof fn law_page_start(
    user: &Result<String, String>,
    phone: &str,
    name: &Option<String>,
    region: &str,
    p: Result<String, String>,
    r: Result<StartAuthRequest, Refusal>,
)
    requires
        call_ensures(api_start, (user, phone, name, region), r),
        call_ensures(parse_phone, (phone, region), p),
    ensures
        user is Err ==> (r matches Err(e) && e.status == 401),
        user is Ok && p is Err ==> (r matches Err(e) && e.status == 400),
        user is Ok && p is Ok ==> (r matches Ok(q) && q.phone@ == p->Ok_0@ && (*name is None
            ==> q.display_name is None) && (*name is Some && trim((*name)->0@).len() > 0 ==> (
        q.display_name matches Some(n) && n@ == trim((*name)->0@))) && (*name is Some && trim(
            (*name)->0@,
        ).len() == 0 ==> q.display_name is None)),
{
}

/// The page checks a code only for a user that was let in, and only six digits.
pub proof fn law_page_verify(
    user: &Result<String, String>,
    challenge: &str,
    phone: &str,
    code: &str,
    name: &Option<String>,
    region: &str,
    r: Result<VerifyAuthRequest, Refusal>,
)
    requires
        call_ensures(api_verify, (user, challenge, phone, code, name, region), r),
    ensures
        user is Err ==> (r matches Err(e) && e.status == 401),
        user is Ok && only_digits(code@).len() != 6 ==> (r matches Err(e) && e.status == 400),
        user is Ok && only_digits(code@).len() == 6 && crate::numbers::all_digits(
            only_digits(code@),
        ) ==> (r matches Ok(q) && q.challenge_id@ == challenge@ && q.code@ == only_digits(code@)),
{
}

/// A wrong code is the user's fault, any other failure the server's.
pub proof fn law_page_refusal(e: &AppError, r: Refusal)
    requires
        call_ensures(login_refused, (e,), r),
    ensures
        *e is InvalidCode ==> r.status == 401,
        !(*e is InvalidCode) ==> r.status == 502,
{
}

} // verus!
