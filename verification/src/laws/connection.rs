//! The socket: when it connects again, what its frames bring, and what the engine makes of it.

use crate::backoff::{backoff_base, backoff_delay, law_backoff_bounds};
use crate::laws::text::law_contains;
use crate::models::MessageDto;
use crate::numbers::parsed_u64;
use crate::socket::{
    is_update_required_code, retry_after, DisconnectReason, FrameStep, Next, SocketEvent,
    SocketLoop, SyncState,
};
use crate::store::LocalStore;
use crate::sync::{
    handle_socket_event, needs_group, set_state, should_poll, MemberObservationRegistry,
    SocketReaction, SyncEvent,
};
use crate::text::{ascii_lower, contains_text, trim};
use crate::ws::{event_is, ServerFrame};
use vstd::arithmetic::power2::{lemma2_to64, lemma_pow2_strictly_increases};
use vstd::prelude::*;

verus! {

/// The wait doubles from two seconds to five minutes; a random part takes off at most half.
pub proof fn law_waits(attempt: u32, base: u64, ms: u64)
    requires
        call_ensures(backoff_base, (attempt,), base),
        call_ensures(backoff_delay, (attempt,), ms),
    ensures
        attempt == 0 ==> base == 2_000,
        attempt == 1 ==> base == 4_000,
        attempt == 2 ==> base == 8_000,
        attempt == 3 ==> base == 16_000,
        attempt == 4 ==> base == 32_000,
        attempt == 5 ==> base == 64_000,
        attempt == 6 ==> base == 128_000,
        attempt == 7 ==> base == 256_000,
        attempt >= 8 ==> base == 300_000,
        base / 2 <= ms <= base,
{
    lemma2_to64();
    if attempt > 8 {
        lemma_pow2_strictly_increases(8, attempt as nat);
    }
}

/// What holds of every wait after the given number of failures, and of the state it is waited in.
pub open spec fn waits(s: SocketLoop, t: SocketLoop, least: u64, n: Next) -> bool {
    &&& t.state == SyncState::BackingOff
    &&& s.attempt < u32::MAX ==> t.attempt == s.attempt + 1
    &&& !n.invalidate
    &&& n.wait_ms matches Some(ms) && least <= ms && 1_000 <= ms && (ms <= 300_000 || ms == least)
        && (s.attempt == 0 && least <= 2_000 ==> ms <= 2_000) && (s.attempt >= 8 ==> ms >= 150_000)
}

/// Nothing follows: the loop ends.
pub open spec fn gives_up(n: Next) -> bool {
    n.wait_ms is None
}

/// A handshake that is refused with 401 or 403 ends the session and is not repeated. Any other is
/// repeated after a wait, after 429 not before the time that the server named.
pub proof fn law_refused_handshake(status: u16, text: &str, retry: Option<&str>, n: Next, wait: Option<u64>)
    requires
        call_ensures(retry_after, (retry,), wait),
    ensures
        forall|s: &mut SocketLoop| #[trigger]
            call_ensures(SocketLoop::refused, (s, status, text, retry), n) ==> {
                &&& status == 401 ==> gives_up(n) && n.invalidate && n.reason == (
                DisconnectReason::SessionRevoked { blocked: false })
                &&& status == 403 ==> gives_up(n) && n.invalidate && n.reason == (
                DisconnectReason::SessionRevoked { blocked: true })
                &&& status == 429 && wait is Some ==> waits(*s, *final(s), wait->0, n)
                &&& status == 429 && wait is None ==> waits(*s, *final(s), 0, n)
                &&& status != 401 && status != 403 && status != 429 ==> waits(*s, *final(s), 0, n)
            },
{
    assert forall|s: &mut SocketLoop| #[trigger]
        call_ensures(SocketLoop::refused, (s, status, text, retry), n) implies {
        &&& status == 401 ==> gives_up(n) && n.invalidate && n.reason == (
        DisconnectReason::SessionRevoked { blocked: false })
        &&& status == 403 ==> gives_up(n) && n.invalidate && n.reason == (
        DisconnectReason::SessionRevoked { blocked: true })
        &&& status == 429 && wait is Some ==> waits(*s, *final(s), wait->0, n)
        &&& status == 429 && wait is None ==> waits(*s, *final(s), 0, n)
        &&& status != 401 && status != 403 && status != 429 ==> waits(*s, *final(s), 0, n)
    } by {
        lemma2_to64();
        law_backoff_bounds(s.attempt as nat);
        if s.attempt > 8 {
            lemma_pow2_strictly_increases(8, s.attempt as nat);
        }
    }
}

/// A failed attempt is repeated after a wait, and reported with its cause.
pub proof fn law_failed_attempt(cause: String, n: Next)
    ensures
        forall|s: &mut SocketLoop| #[trigger]
            call_ensures(SocketLoop::failed, (s, cause), n) ==> waits(*s, *final(s), 0, n)
                && n.reason == (DisconnectReason::Error { cause: Some(cause) }),
{
    assert forall|s: &mut SocketLoop| #[trigger]
        call_ensures(SocketLoop::failed, (s, cause), n) implies waits(*s, *final(s), 0, n)
        && n.reason == (DisconnectReason::Error { cause: Some(cause) }) by {
        lemma2_to64();
        law_backoff_bounds(s.attempt as nat);
        if s.attempt > 8 {
            lemma_pow2_strictly_increases(8, s.attempt as nat);
        }
    }
}

/// The server closed the connection with this code.
pub open spec fn closed_with(r: DisconnectReason, code: u16) -> bool {
    r matches DisconnectReason::Closed { code: Some(c), .. } && c == code
}

/// After close code 4001 the session is lost and after a demand for an update the loop is over for
/// good; after 4029 it waits at least a minute; after anything else it waits as after a failure. A
/// loop that is being stopped does not wait.
pub proof fn law_connection_ended(reason: DisconnectReason, stopping: bool, n: Next)
    ensures
        forall|s: &mut SocketLoop| #[trigger]
            call_ensures(SocketLoop::ended, (s, reason, stopping), n) ==> {
                let revoked = closed_with(reason, 4001);
                let update = reason == DisconnectReason::UpdateRequired;
                &&& n.invalidate == revoked
                &&& revoked ==> gives_up(n) && n.reason == (DisconnectReason::SessionRevoked {
                    blocked: false,
                })
                &&& !revoked ==> n.reason == reason
                &&& update ==> gives_up(n) && final(s).state == SyncState::UpdateRequired
                &&& stopping ==> gives_up(n)
                &&& !stopping && closed_with(reason, 4029) ==> waits(*s, *final(s), 60_000, n)
                &&& !stopping && !revoked && !update && !closed_with(reason, 4029) ==> waits(
                    *s,
                    *final(s),
                    0,
                    n,
                )
            },
{
    assert forall|s: &mut SocketLoop| #[trigger]
        call_ensures(SocketLoop::ended, (s, reason, stopping), n) implies {
        let revoked = closed_with(reason, 4001);
        let update = reason == DisconnectReason::UpdateRequired;
        &&& n.invalidate == revoked
        &&& revoked ==> gives_up(n) && n.reason == (DisconnectReason::SessionRevoked {
            blocked: false,
        })
        &&& !revoked ==> n.reason == reason
        &&& update ==> gives_up(n) && final(s).state == SyncState::UpdateRequired
        &&& stopping ==> gives_up(n)
        &&& !stopping && closed_with(reason, 4029) ==> waits(*s, *final(s), 60_000, n)
        &&& !stopping && !revoked && !update && !closed_with(reason, 4029) ==> waits(
            *s,
            *final(s),
            0,
            n,
        )
    } by {
        lemma2_to64();
        law_backoff_bounds(s.attempt as nat);
        if s.attempt > 8 {
            lemma_pow2_strictly_increases(8, s.attempt as nat);
        }
    }
}

/// A loop starts once at a time, and not again after a demand for an update; a stop leaves that
/// demand in place.
pub proof fn law_start_and_stop(running: bool, go: bool)
    ensures
        forall|s: &mut SocketLoop| #[trigger]
            call_ensures(SocketLoop::start, (s, running), go) ==> {
                &&& go <==> !running && s.state != SyncState::UpdateRequired
                &&& go ==> final(s).attempt == 0
                &&& final(s).state == s.state
            },
        forall|s: &mut SocketLoop| #[trigger]
            call_ensures(SocketLoop::stopped, (s,), ()) ==> {
                &&& s.state == SyncState::UpdateRequired ==> *final(s) == *s
                &&& s.state != SyncState::UpdateRequired ==> final(s).state == SyncState::Idle
            },
        forall|s: &mut SocketLoop| #[trigger]
            call_ensures(SocketLoop::opened, (s,), ()) ==> !final(s).got_hello
                && final(s).heartbeat_ms == 30_000 && final(s).attempt == s.attempt,
        forall|s: &mut SocketLoop| #[trigger]
            call_ensures(SocketLoop::connecting, (s,), ()) ==> final(s).state
                == SyncState::Connecting && final(s).attempt == s.attempt,
{
}

/// The wait in a `Retry-After` header is a number of seconds.
pub proof fn law_retry_after(header: &str, r: Option<u64>)
    requires
        call_ensures(retry_after, (Some(header),), r),
    ensures
        r is Some <==> parsed_u64(trim(header@)) is Some,
        parsed_u64(trim(header@)) matches Some(n) ==> (n <= 1_000_000_000_000 ==> r == Some(
            (n * 1_000) as u64,
        )),
{
}

/// A code asks for an update where it speaks of one, of a version, of an upgrade or of an
/// unsupported client, in small or capital letters.
pub proof fn law_update_codes(code: &str, a: Seq<char>, b: Seq<char>, r: bool)
    requires
        call_ensures(is_update_required_code, (code,), r),
    ensures
        ascii_lower(code@) == (a + "update"@) + b ==> r,
        ascii_lower(code@) == (a + "version"@) + b ==> r,
        ascii_lower(code@) == (a + "upgrade"@) + b ==> r,
        ascii_lower(code@) == (a + "unsupported-client"@) + b ==> r,
        !contains_text(ascii_lower(code@), "update"@) && !contains_text(
            ascii_lower(code@),
            "version"@,
        ) && !contains_text(ascii_lower(code@), "upgrade"@) && !contains_text(
            ascii_lower(code@),
            "unsupported-client"@,
        ) ==> !r,
{
    law_contains(a, "update"@, b);
    law_contains(a, "version"@, b);
    law_contains(a, "upgrade"@, b);
    law_contains(a, "unsupported-client"@, b);
}

/// A greeting in the known protocol opens the connection and ends the backoff; its heartbeat counts
/// where it names one. A later protocol asks for an update.
pub proof fn law_greeting(frame: ServerFrame, step: FrameStep)
    ensures
        forall|s: &mut SocketLoop| #[trigger]
            call_ensures(SocketLoop::handle_frame, (s, frame), step) ==> (
            frame matches ServerFrame::Hello { protocol_version, user_id, device_id, limits } ==> {
                &&& protocol_version > 1 ==> step.end == Some(DisconnectReason::UpdateRequired)
                    && step.events@.len() == 0 && *final(s) == *s
                &&& protocol_version <= 1 ==> {
                    &&& step.end is None
                    &&& final(s).state == SyncState::Connected
                    &&& final(s).attempt == 0
                    &&& final(s).got_hello
                    &&& step.events@.len() == 2
                    &&& step.events@[0] == (SocketEvent::Hello {
                        protocol_version,
                        user_id,
                        device_id,
                        limits,
                    })
                    &&& step.events@[1] == SocketEvent::Connected
                    &&& limits.heartbeat_seconds is None ==> final(s).heartbeat_ms == s.heartbeat_ms
                    &&& limits.heartbeat_seconds == Some(0u32) ==> final(s).heartbeat_ms
                        == s.heartbeat_ms
                    &&& limits.heartbeat_seconds is Some && limits.heartbeat_seconds->0 > 0
                        ==> final(s).heartbeat_ms == limits.heartbeat_seconds->0 * 1_000
                }
            }),
{
}

/// Messages are handed on, each with the group of its frame unless it names its own. The first
/// frame of messages opens a connection that was not greeted.
pub proof fn law_frame_of_messages(frame: ServerFrame, step: FrameStep, i: int)
    ensures
        forall|s: &mut SocketLoop| #[trigger]
            call_ensures(SocketLoop::handle_frame, (s, frame), step) ==> (
            frame matches ServerFrame::Messages { group_id, messages, has_more } ==> {
                &&& step.end is None
                &&& s.got_hello ==> *final(s) == *s && step.events@.len() == 1
                &&& !s.got_hello ==> final(s).state == SyncState::Connected && final(s).attempt == 0
                    && final(s).got_hello && step.events@.len() == 2 && step.events@[0]
                    == SocketEvent::Connected
                &&& messages_told(step.events@.last(), group_id, messages@, has_more, i)
            }),
{
}

/// The event tells of these messages; the one at `i` is in the group that it names, else in `group`.
pub open spec fn messages_told(
    e: SocketEvent,
    group: String,
    ms: Seq<MessageDto>,
    more: bool,
    i: int,
) -> bool {
    &&& e matches SocketEvent::Messages { group_id, messages, has_more }
    &&& group_id == group
    &&& has_more == more
    &&& messages@.len() == ms.len()
    &&& 0 <= i < ms.len() ==> {
        &&& messages@[i].id == ms[i].id
        &&& messages@[i].seq == ms[i].seq
        &&& messages@[i].body == ms[i].body
        &&& messages@[i].sender_id == ms[i].sender_id
        &&& messages@[i].client_message_id == ms[i].client_message_id
        &&& ms[i].group_id is Some ==> messages@[i].group_id == ms[i].group_id
        &&& ms[i].group_id is None ==> messages@[i].group_id == Some(group)
    }
}

/// Other frames leave the connection as it is. An error ends it where it asks for an update or where
/// a push failed.
pub proof fn law_other_frames(frame: ServerFrame, step: FrameStep)
    ensures
        forall|s: &mut SocketLoop| #[trigger]
            call_ensures(SocketLoop::handle_frame, (s, frame), step) ==> {
                &&& frame is Pong ==> *final(s) == *s && step.end is None && step.events@.len() == 0
                &&& frame matches ServerFrame::Read { group_id, read_seq } ==> *final(s) == *s
                    && step.end is None && step.events@.len() == 1 && step.events@[0] == (
                SocketEvent::Read { group_id, read_seq })
                &&& frame matches ServerFrame::Group { event, fields } ==> *final(s) == *s
                    && step.end is None && step.events@.len() == 1 && (
                step.events@[0] matches SocketEvent::GroupEvent(e) && event_is(event@, fields@, e))
                &&& frame matches ServerFrame::Error { code, detail } ==> {
                    &&& *final(s) == *s
                    &&& step.events@.len() == 0
                    &&& crate::socket::update_code(code@) ==> step.end == Some(
                        DisconnectReason::UpdateRequired,
                    )
                    &&& !crate::socket::update_code(code@) && code@ == "push_failed"@ ==> step.end
                        == Some(DisconnectReason::Error { cause: Some(code) })
                    &&& !crate::socket::update_code(code@) && code@ != "push_failed"@ ==> step.end is None
                }
            },
{
}

/// The engine's answer to each event of the socket.
pub proof fn law_socket_reactions(ev: SocketEvent, now: i64, r: SocketReaction, i: int)
    requires
        call_ensures(handle_socket_event, (ev, now), r),
    ensures
        ev is Connected ==> r == SocketReaction::Connected,
        ev is Hello ==> r == SocketReaction::Nothing,
        ev matches SocketEvent::Disconnected { reason } ==> r == (if reason is UpdateRequired {
            SocketReaction::UpdateRequired
        } else {
            SocketReaction::Nothing
        }),
        ev matches SocketEvent::GroupEvent(e) ==> r == SocketReaction::Group(e),
        ev matches SocketEvent::Read { group_id, read_seq } ==> r == (SocketReaction::Read {
            group_id,
            seq: read_seq,
        }),
        ev matches SocketEvent::Messages { group_id, messages, .. } ==> (
        r matches SocketReaction::Apply { group_id: g, batch } && g == group_id && batch@.len()
            == messages@.len() && (0 <= i < batch@.len() ==> {
            &&& batch@[i].id == messages@[i].id
            &&& batch@[i].seq == messages@[i].seq
            &&& batch@[i].body == messages@[i].body
            &&& batch@[i].sender_id == messages@[i].sender_id
            &&& batch@[i].client_message_id == messages@[i].client_message_id
            &&& messages@[i].group_id is Some ==> batch@[i].group_id@ == messages@[i].group_id->0@
            &&& messages@[i].group_id is None ==> batch@[i].group_id@ == group_id@
            &&& messages@[i].created_at is Some ==> batch@[i].created_at
                == messages@[i].created_at->0
            &&& messages@[i].created_at is None ==> batch@[i].created_at == now
        })),
{
}

/// Consumers hear of a state just when it is another one, and of a demand for an update by name.
pub proof fn law_state_is_told(to: SyncState, r: Vec<SyncEvent>)
    ensures
        forall|s: &mut SyncState| #[trigger]
            call_ensures(set_state, (s, to), r) ==> {
                &&& *final(s) == to
                &&& *s == to ==> r@.len() == 0
                &&& *s != to ==> r@.len() > 0 && r@[0] == SyncEvent::StateChanged(to)
                &&& *s != to && to == SyncState::UpdateRequired ==> r@.len() == 2 && r@[1]
                    == SyncEvent::UpdateRequired
                &&& *s != to && to != SyncState::UpdateRequired ==> r@.len() == 1
            },
{
}

/// The fallback asks while the socket is neither up nor refused for good.
pub proof fn law_polling(state: SyncState, r: bool)
    requires
        call_ensures(should_poll, (state,), r),
    ensures
        state == SyncState::Connected || state == SyncState::UpdateRequired ==> !r,
        state == SyncState::Idle || state == SyncState::Connecting || state == SyncState::BackingOff
            ==> r,
{
}

/// A group is fetched before its messages are stored just where it is not known.
pub proof fn law_needs_group(store: &LocalStore, group: &str, r: bool)
    requires
        call_ensures(needs_group, (store, group), r),
    ensures
        r <==> forall|i: int|
            0 <= i < store.group_rows@.len() ==> (#[trigger] store.group_rows@[i]).id@ != group@,
{
}

/// A group is observed from the first observer that comes to the last that leaves, however many
/// there are; observers of other groups do not count.
pub proof fn law_observed(group: &str, other: &str, before: bool, after: bool)
    requires
        group@ != other@,
    ensures
        forall|a: &mut MemberObservationRegistry|
            a.wf() && #[trigger] call_ensures(MemberObservationRegistry::retain, (a, group), ()) ==> {
                &&& call_ensures(MemberObservationRegistry::is_observed, (&*final(a), group), after)
                    ==> after
                &&& call_ensures(MemberObservationRegistry::is_observed, (&*a, other), before)
                    && call_ensures(
                    MemberObservationRegistry::is_observed,
                    (&*final(a), other),
                    after,
                ) ==> after == before
            },
        forall|a: &mut MemberObservationRegistry, b: &mut MemberObservationRegistry|
            a.wf() && #[trigger] call_ensures(MemberObservationRegistry::retain, (a, group), ())
                && *b == *final(a) && #[trigger] call_ensures(
                MemberObservationRegistry::release,
                (b, group),
                (),
            ) ==> {
                &&& call_ensures(MemberObservationRegistry::is_observed, (&*a, group), before)
                    && call_ensures(
                    MemberObservationRegistry::is_observed,
                    (&*final(b), group),
                    after,
                ) ==> after == before
                &&& call_ensures(MemberObservationRegistry::is_observed, (&*a, other), before)
                    && call_ensures(
                    MemberObservationRegistry::is_observed,
                    (&*final(b), other),
                    after,
                ) ==> after == before
            },
{
}

/// Nothing is observed at first.
pub proof fn law_nothing_observed(r: MemberObservationRegistry, group: &str, seen: bool)
    requires
        call_ensures(MemberObservationRegistry::new, (), r),
        call_ensures(MemberObservationRegistry::is_observed, (&r, group), seen),
    ensures
        !seen,
{
}

} // verus!
