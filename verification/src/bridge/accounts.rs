//! Signing in and out: how often a user may try, and what a new sign-in does to the account before
//! it.

use crate::bridge::records::{Account, AccountStatus};
use crate::text::same;
use vstd::prelude::*;

verus! {

/// What a user tries.
#[derive(Debug, Clone, Copy, PartialEq, Eq, Structural)]
pub enum AuthKind {
    /// Asking for a code.
    Request,
    /// Sending a code.
    Attempt,
}

/// Milliseconds for which a try counts.
pub const AUTH_WINDOW: i64 = 3_600_000;

/// How often a user may ask for a code within the window.
pub const MAX_REQUESTS: usize = 5;

/// How often a user may send a code within the window.
pub const MAX_ATTEMPTS: usize = 15;

/// How often a user may try within the window.
pub open spec fn limit_of(k: AuthKind) -> usize {
    match k {
        AuthKind::Request => MAX_REQUESTS,
        AuthKind::Attempt => MAX_ATTEMPTS,
    }
}

/// One try.
#[derive(Debug, Clone, Copy, PartialEq, Eq, Structural)]
pub struct Try {
    /// The Telegram user.
    pub user: i64,
    pub kind: AuthKind,
    /// Epoch milliseconds.
    pub at: i64,
}

/// The tries of the last hour.
#[derive(Debug)]
pub struct AuthLimiter {
    pub tries: Vec<Try>,
}

/// A try still counts.
pub open spec fn counts(t: Try, now: i64) -> bool {
    now - t.at < AUTH_WINDOW
}

/// The tries that still count.
pub open spec fn current(tries: Seq<Try>, now: i64) -> Seq<Try>
    decreases tries.len(),
{
    if tries.len() == 0 {
        seq![]
    } else if counts(tries.last(), now) {
        current(tries.drop_last(), now).push(tries.last())
    } else {
        current(tries.drop_last(), now)
    }
}

/// How often a user tried within the window.
pub open spec fn recent(tries: Seq<Try>, user: i64, kind: AuthKind, now: i64) -> nat
    decreases tries.len(),
{
    if tries.len() == 0 {
        0
    } else {
        let t = tries.last();
        recent(tries.drop_last(), user, kind, now) + (if t.user == user && t.kind == kind && counts(
            t,
            now,
        ) {
            1nat
        } else {
            0
        })
    }
}

/// Nobody tried more often than they may.
pub open spec fn within_limits(tries: Seq<Try>, now: i64) -> bool {
    forall|user: i64, kind: AuthKind| #[trigger]
        recent(tries, user, kind, now) <= limit_of(kind)
}

/// The tries after one more: counted if it is allowed; those that no longer count are forgotten.
pub open spec fn after_try(tries: Seq<Try>, user: i64, kind: AuthKind, now: i64) -> Seq<Try> {
    if recent(tries, user, kind, now) < limit_of(kind) {
        current(tries, now).push(Try { user, kind, at: now })
    } else {
        current(tries, now)
    }
}

impl AuthLimiter {
    pub fn new() -> (r: Self)
        ensures
            r.tries@.len() == 0,
            forall|now: i64| #[trigger] within_limits(r.tries@, now),
    {
        AuthLimiter { tries: Vec::new() }
    }

    /// Whether a user may try now. A try that is allowed is counted; tries that no longer count are
    /// forgotten.
    pub fn allow_auth(&mut self, user: i64, kind: AuthKind, now: i64) -> (r: bool)
        ensures
            r == (recent(old(self).tries@, user, kind, now) < limit_of(kind)),
            final(self).tries@ == after_try(old(self).tries@, user, kind, now),
    {
        let mut kept: Vec<Try> = Vec::new();
        let mut n: usize = 0;
        let mut i: usize = 0;
        assert(self.tries@.take(0) =~= seq![]);
        while i < self.tries.len()
            invariant
                i <= self.tries.len(),
                n <= i,
                *self == *old(self),
                kept@ == current(self.tries@.take(i as int), now),
                n == recent(self.tries@.take(i as int), user, kind, now),
            decreases self.tries.len() - i,
        {
            assert(self.tries@.take(i + 1).drop_last() =~= self.tries@.take(i as int));
            let t = self.tries[i];
            if (now as i128) - (t.at as i128) < AUTH_WINDOW as i128 {
                kept.push(t);
                if t.user == user && t.kind == kind {
                    n += 1;
                }
            }
            i += 1;
        }
        assert(self.tries@.take(i as int) =~= self.tries@);
        let limit: usize = match kind {
            AuthKind::Request => MAX_REQUESTS,
            AuthKind::Attempt => MAX_ATTEMPTS,
        };
        let r = n < limit;
        if r {
            kept.push(Try { user, kind, at: now });
        }
        self.tries = kept;
        r
    }
}

proof fn lemma_current_counts(tries: Seq<Try>, user: i64, kind: AuthKind, now: i64)
    ensures
        recent(current(tries, now), user, kind, now) == recent(tries, user, kind, now),
    decreases tries.len(),
{
    if tries.len() > 0 {
        lemma_current_counts(tries.drop_last(), user, kind, now);
        if counts(tries.last(), now) {
            let c = current(tries, now);
            assert(c.drop_last() =~= current(tries.drop_last(), now));
        }
    }
}

proof fn lemma_counts_fade(tries: Seq<Try>, user: i64, kind: AuthKind, now: i64, later: i64)
    requires
        now <= later,
    ensures
        recent(tries, user, kind, later) <= recent(tries, user, kind, now),
    decreases tries.len(),
{
    if tries.len() > 0 {
        lemma_counts_fade(tries.drop_last(), user, kind, now, later);
    }
}

/// Nobody ever tries more often within an hour than they may: a try, allowed or not, keeps everyone
/// within their limits, and so does time.
pub proof fn law_auth_is_limited(
    tries: Seq<Try>,
    now: i64,
    user: i64,
    kind: AuthKind,
    later: i64,
)
    requires
        within_limits(tries, now),
        now <= later,
    ensures
        within_limits(after_try(tries, user, kind, now), later),
{
    let after = after_try(tries, user, kind, now);
    assert forall|u: i64, k: AuthKind| #[trigger] recent(after, u, k, now) <= limit_of(k) by {
        lemma_current_counts(tries, u, k, now);
        assert(recent(tries, u, k, now) <= limit_of(k));
        if recent(tries, user, kind, now) < limit_of(kind) {
            assert(after.drop_last() =~= current(tries, now));
        }
    }
    assert forall|u: i64, k: AuthKind| #[trigger] recent(after, u, k, later) <= limit_of(k) by {
        lemma_counts_fade(after, u, k, now, later);
        assert(recent(after, u, k, now) <= limit_of(k));
    }
}

/// The tries of one user do not touch those of another.
pub proof fn law_users_do_not_share_limits(
    tries: Seq<Try>,
    user: i64,
    kind: AuthKind,
    other: i64,
    k: AuthKind,
    now: i64,
)
    requires
        other != user || k != kind,
    ensures
        recent(after_try(tries, user, kind, now), other, k, now) == recent(tries, other, k, now),
{
    lemma_current_counts(tries, other, k, now);
    if recent(tries, user, kind, now) < limit_of(kind) {
        assert(after_try(tries, user, kind, now).drop_last() =~= current(tries, now));
    }
}

/// The answer to a try too many.
pub const TOO_MANY_TRIES: &'static str = "Too many attempts. Try again in an hour.";

/// What a new sign-in does to the account before it.
#[derive(Debug, Clone, Copy, PartialEq, Eq, Structural)]
pub enum Before {
    /// There is none.
    Nothing,
    /// The same person signs in again: stop its connection; its topics are reused.
    Stop { account: i64 },
    /// Someone else signs in: stop it, remove its topics and their mappings, and mark it
    /// disconnected.
    Replace { account: i64 },
}

/// What a new sign-in does to the account before it.
pub fn before_connect(previous: &Option<Account>, identity: &str) -> (r: Before)
    ensures
        r == (match *previous {
            None => Before::Nothing,
            Some(a) => if a.tzibbur_user_id@ == identity@ {
                Before::Stop { account: a.id }
            } else {
                Before::Replace { account: a.id }
            },
        }),
{
    match previous {
        None => Before::Nothing,
        Some(a) => if same(a.tzibbur_user_id.as_str(), identity) {
            Before::Stop { account: a.id }
        } else {
            Before::Replace { account: a.id }
        },
    }
}

/// The status of an account after a disconnection; none when it is erased.
pub fn after_disconnect(purge: bool) -> (r: Option<AccountStatus>)
    ensures
        r == (if purge {
            None
        } else {
            Some(AccountStatus::Disconnected)
        }),
{
    if purge {
        None
    } else {
        Some(AccountStatus::Disconnected)
    }
}

} // verus!
