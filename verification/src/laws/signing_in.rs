//! Signing in through the bot: how often it may be tried, and how the conversation goes.

use crate::bridge::accounts::{
    after_disconnect, before_connect, current, recent, AuthKind, AuthLimiter, Before, Try,
};
use crate::bridge::dialogue::{
    category_chosen, code_checked, code_requested, on_code, on_group_name, on_name, on_phone,
    on_rename, phone_read, start_request, verify_request, Checked, SharedContact, State, Step,
};
use crate::bridge::records::{Account, AccountStatus};
use crate::bridge::reply::Reply;
use crate::error::AppError;
use crate::models::{EnrollmentChallenge, Session, StartAuthRequest, VerifyAuthRequest};
use crate::text::{ascii_lower, trim};
use crate::validation::only_digits;
use vstd::prelude::*;

verus! {

/// Tries are counted one by one: one of the user and of the kind counts for an hour, no other does.
pub proof fn law_tries_counted(tries: Seq<Try>, t: Try, user: i64, kind: AuthKind, now: i64)
    ensures
        recent(Seq::empty(), user, kind, now) == 0,
        t.user == user && t.kind == kind && now - t.at < 3_600_000 ==> recent(
            tries.push(t),
            user,
            kind,
            now,
        ) == recent(tries, user, kind, now) + 1,
        t.user != user || t.kind != kind || now - t.at >= 3_600_000 ==> recent(
            tries.push(t),
            user,
            kind,
            now,
        ) == recent(tries, user, kind, now),
{
    assert(tries.push(t).drop_last() =~= tries);
}

proof fn lemma_current(tries: Seq<Try>, now: i64, t: Try)
    ensures
        current(tries, now).contains(t) <==> tries.contains(t) && now - t.at < 3_600_000,
    decreases tries.len(),
{
    if tries.len() > 0 {
        let front = tries.drop_last();
        let last = tries.last();
        let less = current(front, now);
        let all = current(tries, now);
        lemma_current(front, now, t);
        if tries.contains(t) && t != last {
            let k = choose|k: int| 0 <= k < tries.len() && tries[k] == t;
            assert(front[k] == t);
        }
        if front.contains(t) {
            let k = choose|k: int| 0 <= k < front.len() && front[k] == t;
            assert(tries[k] == t);
        }
        if less.contains(t) {
            let k = choose|k: int| 0 <= k < less.len() && less[k] == t;
            assert(all[k] == t);
        }
        if all.contains(t) && t != last {
            let k = choose|k: int| 0 <= k < all.len() && all[k] == t;
            assert(less[k] == t);
        }
        if t == last {
            assert(tries[tries.len() - 1] == t);
            if now - last.at < 3_600_000 {
                assert(all[all.len() - 1] == t);
            } else if all.contains(t) {
                assert(less.contains(t));
            }
        }
    }
}

/// A code may be asked for five times within an hour and sent fifteen times. A try that is allowed
/// is remembered, and a try is forgotten after an hour and not before.
pub proof fn law_tries_limited(user: i64, kind: AuthKind, now: i64, r: bool, t: Try)
    ensures
        forall|l: &mut AuthLimiter| #[trigger]
            call_ensures(AuthLimiter::allow_auth, (l, user, kind, now), r) ==> {
                &&& kind == AuthKind::Request ==> (r <==> recent(l.tries@, user, kind, now) < 5)
                &&& kind == AuthKind::Attempt ==> (r <==> recent(l.tries@, user, kind, now) < 15)
                &&& final(l).tries@.contains(t) <==> (l.tries@.contains(t) && now - t.at < 3_600_000)
                    || (r && t == (Try { user, kind, at: now }))
            },
{
    assert forall|l: &mut AuthLimiter| #[trigger]
        call_ensures(AuthLimiter::allow_auth, (l, user, kind, now), r) implies {
        &&& kind == AuthKind::Request ==> (r <==> recent(l.tries@, user, kind, now) < 5)
        &&& kind == AuthKind::Attempt ==> (r <==> recent(l.tries@, user, kind, now) < 15)
        &&& final(l).tries@.contains(t) <==> (l.tries@.contains(t) && now - t.at < 3_600_000) || (r
            && t == (Try { user, kind, at: now }))
    } by {
        lemma_current(l.tries@, now, t);
        let kept = current(l.tries@, now);
        let new = final(l).tries@;
        if r {
            assert(new == kept.push(Try { user, kind, at: now }));
            assert(new[kept.len() as int] == (Try { user, kind, at: now }));
            if kept.contains(t) {
                let k = choose|k: int| 0 <= k < kept.len() && kept[k] == t;
                assert(new[k] == t);
            }
            if new.contains(t) {
                let k = choose|k: int| 0 <= k < new.len() && new[k] == t;
                if k < kept.len() {
                    assert(kept[k] == t);
                }
            }
        }
    }
}

/// A new sign-in stops the account before it: for the same person to go on with it, for another to
/// replace it.
pub proof fn law_before_connect(previous: &Option<Account>, identity: &str, r: Before)
    requires
        call_ensures(before_connect, (previous, identity), r),
    ensures
        *previous is None ==> r == Before::Nothing,
        *previous matches Some(a) ==> (a.tzibbur_user_id@ == identity@ ==> r == (Before::Stop {
            account: a.id,
        })) && (a.tzibbur_user_id@ != identity@ ==> r == (Before::Replace { account: a.id })),
{
}

/// An account that is not erased is marked disconnected.
pub proof fn law_after_disconnect(purge: bool, r: Option<AccountStatus>)
    requires
        call_ensures(after_disconnect, (purge,), r),
    ensures
        purge ==> r is None,
        !purge ==> r == Some(AccountStatus::Disconnected),
{
}

/// A number that was read leads to the question for the name, with that number; one that was not
/// read is asked for again. Someone else's contact is refused.
pub proof fn law_phone_step(
    read: Result<String, String>,
    contact: &Option<SharedContact>,
    sender: u64,
    text: &str,
    region: &str,
    s: Step,
    t: Step,
)
    requires
        call_ensures(phone_read, (read,), s),
        call_ensures(on_phone, (contact, sender, text, region), t),
    ensures
        read matches Ok(p) ==> (s matches Step::Move { state: State::AwaitName { phone }, .. }
            && phone@ == p@),
        read is Err ==> s is Stay,
        *contact matches Some(c) ==> (c.user_id is Some && c.user_id != Some(sender) ==> (
        t matches Step::Stay(reply) && reply.text@
            == "That is someone else's contact. Send your own number."@)),
{
}

/// A name is taken as it stands without the white space around it; a skipped one is none.
pub proof fn law_name_step(text: &str, r: Result<Option<String>, Reply>)
    requires
        call_ensures(on_name, (text,), r),
    ensures
        ascii_lower(trim(text@)) == "skip"@ ==> r == Ok::<Option<String>, Reply>(None),
        trim(text@) == "-"@ ==> r == Ok::<Option<String>, Reply>(None),
        trim(trim(text@)).len() > 64 ==> r is Err,
        trim(text@).len() == 0 ==> r is Err,
        ascii_lower(trim(text@)) != "skip"@ && trim(text@) != "-"@ && 0 < trim(trim(text@)).len()
            <= 64 ==> (r matches Ok(Some(name)) && name@ == trim(trim(text@))),
{
    reveal_strlit("skip");
    reveal_strlit("-");
    assert(ascii_lower("skip"@) =~= "skip"@);
    assert("skip"@.len() == 4 && "-"@.len() == 1);
    if trim(text@).len() == 0 {
        assert(ascii_lower(trim(text@)).len() == 0);
        assert(trim(trim(text@)).len() == 0);
    }
    if trim(trim(text@)).len() > 64 {
        lemma_trim_shorter(trim(text@));
        assert(ascii_lower(trim(text@)).len() == trim(text@).len());
    }
}

proof fn lemma_trim_shorter(s: Seq<char>)
    ensures
        trim(s).len() <= s.len(),
{
    crate::laws::text::law_trim(s);
}

/// The request for a code names the number and the name that the user gave, and the check of a code
/// the challenge, the code and the number.
pub proof fn law_requests_named(
    phone: &str,
    name: Option<String>,
    challenge: &str,
    code: String,
    a: StartAuthRequest,
    b: VerifyAuthRequest,
)
    requires
        call_ensures(start_request, (phone, name), a),
        call_ensures(verify_request, (challenge, code, phone, name), b),
    ensures
        a.phone@ == phone@ && a.display_name == name,
        b.challenge_id@ == challenge@ && b.code == code && b.phone@ == phone@ && b.display_name
            == name,
{
}

/// A code on its way is waited for, with no failures counted; a request that failed ends the
/// conversation.
pub proof fn law_code_requested(
    reply: Result<EnrollmentChallenge, AppError>,
    phone: String,
    name: Option<String>,
    s: Step,
)
    requires
        call_ensures(code_requested, (reply, phone, name), s),
    ensures
        reply matches Ok(c) ==> (s matches Step::Move { state, .. } && state == (State::AwaitCode {
            challenge_id: c.challenge_id,
            phone,
            display_name: name,
            failures: 0,
        })),
        reply is Err ==> s is Leave,
{
}

/// What counts as a code are six digits, whatever else was typed around them.
pub proof fn law_code_step(text: &str, r: Result<String, Reply>)
    requires
        call_ensures(on_code, (text,), r),
    ensures
        r is Ok <==> only_digits(text@).len() == 6,
        r matches Ok(code) ==> code@ == only_digits(text@),
{
    lemma_digits_only(text@);
}

proof fn lemma_digits_only(s: Seq<char>)
    ensures
        crate::numbers::all_digits(only_digits(s)),
    decreases s.len(),
{
    reveal(Seq::filter);
    if s.len() > 0 {
        lemma_digits_only(s.drop_last());
    }
}

/// The right code signs in. A wrong one may be followed by another two; after the third, and after
/// any other failure, the conversation is over.
pub proof fn law_code_checked(
    reply: Result<Session, AppError>,
    challenge: String,
    phone: String,
    name: Option<String>,
    failures: u32,
    r: Checked,
)
    requires
        call_ensures(code_checked, (reply, challenge, phone, name, failures), r),
    ensures
        reply matches Ok(s) ==> r == Checked::SignedIn(s),
        reply matches Err(e) ==> (e is InvalidCode && failures < 2 ==> (r matches Checked::Answer(
            Step::Move { state, .. },
        ) && state == (State::AwaitCode {
            challenge_id: challenge,
            phone,
            display_name: name,
            failures: (failures + 1) as u32,
        }))),
        reply matches Err(e) ==> (!(e is InvalidCode) || failures >= 2 ==> r matches Checked::Answer(
            Step::Leave(_),
        )),
{
}

/// A group's name, new or changed, is taken without the white space around it, up to a hundred
/// characters.
pub proof fn law_group_name_step(text: &str, a: Result<String, Reply>, b: Result<String, Reply>)
    requires
        call_ensures(on_group_name, (text,), a),
        call_ensures(on_rename, (text,), b),
    ensures
        a is Ok <==> 0 < trim(text@).len() <= 100,
        b is Ok <==> 0 < trim(text@).len() <= 100,
        a matches Ok(n) ==> n@ == trim(text@),
        b matches Ok(n) ==> n@ == trim(text@),
{
}

/// A category counts while a group waits for one, and keeps the group's name.
pub proof fn law_category_step(state: State, category: &str, r: Option<Step>)
    requires
        call_ensures(category_chosen, (state, category), r),
    ensures
        state matches State::AwaitGroupCategory { name } ==> (r matches Some(
            Step::Move { state: State::AwaitGroupPhones { name: n, category: c }, .. },
        ) && n == name && c@ == category@),
        !(state is AwaitGroupCategory) ==> r is None,
{
}

} // verus!
