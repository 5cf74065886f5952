//! Sessions, what is kept of them, and what an account sees.

use crate::models::{LegalDocKey, LegalDocument, User};
use crate::session::{
    lifecycle, wipe_local, LegalStore, Lifecycle, MemorySessionStore, SessionState,
    StoredSession, WipeGuard,
};
use crate::store::LocalStore;
use vstd::prelude::*;

verus! {

/// What is saved is what is loaded, until it is cleared; a new name changes the name alone.
pub proof fn law_session_kept(s: StoredSession, name: &str, r: Option<&StoredSession>)
    ensures
        forall|m: &mut MemorySessionStore| #[trigger]
            call_ensures(MemorySessionStore::save, (m, s), ()) && call_ensures(
                MemorySessionStore::load,
                (&*final(m),),
                r,
            ) ==> r == Some(&s),
        forall|m: &mut MemorySessionStore| #[trigger]
            call_ensures(MemorySessionStore::clear, (m,), ()) && call_ensures(
                MemorySessionStore::load,
                (&*final(m),),
                r,
            ) ==> r is None,
        forall|m: &mut MemorySessionStore| #[trigger]
            call_ensures(MemorySessionStore::update_display_name, (m, name), ()) ==> {
                &&& m.session is None ==> final(m).session is None
                &&& m.session is Some ==> {
                    &&& final(m).session is Some
                    &&& final(m).session->0.token == m.session->0.token
                    &&& final(m).session->0.device == m.session->0.device
                    &&& final(m).session->0.user.id == m.session->0.user.id
                    &&& final(m).session->0.user.display_name@ == name@
                }
            },
{
}

/// Someone is signed in just where a session was stored, as its user.
pub proof fn law_signed_in(
    s: Option<StoredSession>,
    st: SessionState,
    yes: bool,
    u: Option<&User>,
    name: &str,
    t: SessionState,
)
    requires
        call_ensures(SessionState::from_stored, (s,), st),
        call_ensures(SessionState::is_signed_in, (&st,), yes),
        call_ensures(SessionState::user, (&st,), u),
        call_ensures(SessionState::rename, (st, name), t),
    ensures
        yes <==> s is Some,
        s matches Some(x) ==> u == Some(&x.user) && (st matches SessionState::SignedIn {
            token,
            ..
        } && token == x.token),
        s is None ==> u is None && st == SessionState::SignedOut && t == st,
        s matches Some(x) ==> (t matches SessionState::SignedIn { user, token } && token == x.token
            && user.id == x.user.id && user.display_name@ == name@),
{
}

/// A wipe leaves no row of any table and nobody signed in.
pub proof fn law_wipe(before: SessionState)
    ensures
        forall|store: &mut LocalStore, state: &mut SessionState|
            store.wf() && #[trigger] call_ensures(wipe_local, (store, state), ()) ==> {
                &&& final(store).group_rows@.len() == 0
                &&& final(store).message_rows@.len() == 0
                &&& final(store).member_rows@.len() == 0
                &&& final(store).outbox_rows@.len() == 0
                &&& final(store).reply_rows@.len() == 0
                &&& *final(state) == SessionState::SignedOut
            },
        forall|store: &mut LocalStore|
            store.wf() && #[trigger] call_ensures(LocalStore::clear_all, (store,), ()) ==> {
                &&& final(store).group_rows@.len() == 0
                &&& final(store).message_rows@.len() == 0
                &&& final(store).member_rows@.len() == 0
                &&& final(store).outbox_rows@.len() == 0
                &&& final(store).reply_rows@.len() == 0
            },
{
}

/// Of two wipes that overlap one goes on; after the end of a wipe the next may start.
pub proof fn law_wipe_once(a: bool, b: bool)
    ensures
        forall|x: &mut WipeGuard, y: &mut WipeGuard| #[trigger]
            call_ensures(WipeGuard::begin, (x,), a) && *y == *final(x) && #[trigger] call_ensures(
                WipeGuard::begin,
                (y,),
                b,
            ) ==> !b && final(y).in_flight,
        forall|x: &mut WipeGuard, y: &mut WipeGuard| #[trigger]
            call_ensures(WipeGuard::end, (x,), ()) && *y == *final(x) && #[trigger] call_ensures(
                WipeGuard::begin,
                (y,),
                b,
            ) ==> b,
{
}

/// After the step the engine runs just where someone is signed in with the app in front; nothing is
/// started or stopped that runs or rests as it should.
pub proof fn law_lifecycle(foreground: bool, signed_in: bool, running: bool, r: Lifecycle)
    requires
        call_ensures(lifecycle, (foreground, signed_in, running), r),
    ensures
        foreground && signed_in && !running ==> r == Lifecycle::Start,
        foreground && signed_in && running ==> r == Lifecycle::Keep,
        (!foreground || !signed_in) && running ==> r == Lifecycle::Stop,
        (!foreground || !signed_in) && !running ==> r == Lifecycle::Keep,
{
}

/// A legal document is to be accepted until it was seen, and again once its text is another; each
/// document on its own.
pub proof fn law_acceptance(key: LegalDocKey, other: LegalDocKey, doc: LegalDocument, before: bool, after: bool)
    requires
        key != other,
    ensures
        forall|s: &mut LegalStore| #[trigger]
            call_ensures(LegalStore::mark_seen, (s, key), ()) ==> {
                &&& call_ensures(LegalStore::needs_acceptance, (&*final(s), key), after) ==> !after
                &&& call_ensures(LegalStore::needs_acceptance, (&*s, other), before) && call_ensures(
                    LegalStore::needs_acceptance,
                    (&*final(s), other),
                    after,
                ) ==> after == before
            },
        forall|s: &mut LegalStore, t: &mut LegalStore, u: &mut LegalStore| #[trigger]
            call_ensures(LegalStore::put_document, (s, key, doc), ()) && *t == *final(s)
                && #[trigger] call_ensures(LegalStore::mark_seen, (t, key), ()) && *u == *final(t)
                && #[trigger] call_ensures(LegalStore::put_document, (u, key, doc), ())
                && call_ensures(LegalStore::needs_acceptance, (&*final(u), key), after) ==> !after,
        forall|s: &mut LegalStore| #[trigger]
            call_ensures(LegalStore::put_document, (s, key, doc), ()) ==> {
                let seen = match key {
                    LegalDocKey::Privacy => s.privacy.last_seen_checksum,
                    LegalDocKey::Terms => s.terms.last_seen_checksum,
                };
                &&& seen is None && call_ensures(
                    LegalStore::needs_acceptance,
                    (&*final(s), key),
                    after,
                ) ==> after
                &&& seen is Some && seen->0@ != doc.checksum@ && call_ensures(
                    LegalStore::needs_acceptance,
                    (&*final(s), key),
                    after,
                ) ==> after
            },
{
}

} // verus!
