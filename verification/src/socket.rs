//! The decisions of the auto-reconnecting socket.
//!
//! ```text
//! Idle -> Connecting -> Connected <-> BackingOff
//!                    \-> UpdateRequired
//! ```
//!
//! A refused token or close code 4001 ends the session, close code 4029 waits at least a minute, a
//! 429 handshake waits as long as the server says, and every other drop reconnects with backoff. A
//! demand for an update is final.

use crate::backoff::{backoff_delay, backoff_ms, law_backoff_bounds};
use crate::constants::{
    PING_AFTER_OUTBOUND_SILENCE, TOO_MANY_CONNECTIONS_WAIT, WS_CLOSE_SESSION_REVOKED,
    WS_CLOSE_TOO_MANY_CONNECTIONS, WS_PROTOCOL_VERSION,
};
use crate::models::MessageDto;
use crate::numbers::{parse_u64, parsed_u64};
use crate::text::{ascii_lower, contains, contains_text, same, to_ascii_lower, trim, trimmed};
use crate::ws::{event_is, GroupEvent, HelloLimits, ServerFrame};
use vstd::prelude::*;

verus! {

/// Why the socket went down.
#[derive(Debug)]
pub enum DisconnectReason {
    Closed { code: Option<u16>, message: Option<String> },
    Error { cause: Option<String> },
    /// The server demanded a client update; the socket will not reconnect.
    UpdateRequired,
    /// The token is dead or the device was blocked; the socket will not reconnect.
    SessionRevoked { blocked: bool },
}

/// The server closed because the device has too many connections.
pub open spec fn too_many_connections(r: DisconnectReason) -> bool {
    r matches DisconnectReason::Closed { code: Some(c), .. } && c == WS_CLOSE_TOO_MANY_CONNECTIONS
}

/// The server closed because the session was revoked.
pub open spec fn session_revoked(r: DisconnectReason) -> bool {
    r matches DisconnectReason::Closed { code: Some(c), .. } && c == WS_CLOSE_SESSION_REVOKED
}

impl DisconnectReason {
    pub fn is_too_many_connections(&self) -> (r: bool)
        ensures
            r == too_many_connections(*self),
    {
        match self {
            DisconnectReason::Closed { code: Some(c), .. } => *c == WS_CLOSE_TOO_MANY_CONNECTIONS,
            _ => false,
        }
    }
}

/// Events of the socket.
#[derive(Debug)]
pub enum SocketEvent {
    /// Server `hello` received, just before [`SocketEvent::Connected`].
    Hello {
        protocol_version: u32,
        user_id: Option<String>,
        device_id: Option<String>,
        limits: HelloLimits,
    },
    Connected,
    Disconnected { reason: DisconnectReason },
    /// A batch of undelivered messages. Ack the last seq on the socket.
    Messages { group_id: String, messages: Vec<MessageDto>, has_more: bool },
    GroupEvent(GroupEvent),
    /// The user's read position moved elsewhere.
    Read { group_id: String, read_seq: i64 },
}

/// Connection state.
#[derive(Debug, Clone, Copy, PartialEq, Eq, Hash, Structural)]
pub enum SyncState {
    Idle,
    Connecting,
    Connected,
    BackingOff,
    UpdateRequired,
}

impl Default for SyncState {
    fn default() -> (r: Self)
        ensures
            r == SyncState::Idle,
    {
        SyncState::Idle
    }
}

impl SyncState {
    pub fn is_connected(self) -> (r: bool)
        ensures
            r == (self == SyncState::Connected),
    {
        self == SyncState::Connected
    }
}

/// An error code that asks for a newer client.
pub open spec fn update_code(code: Seq<char>) -> bool {
    let c = ascii_lower(code);
    contains_text(c, "update"@) || contains_text(c, "version"@) || contains_text(c, "upgrade"@)
        || contains_text(c, "unsupported-client"@)
}

/// Whether an error code asks for a newer client.
pub fn is_update_required_code(code: &str) -> (r: bool)
    ensures
        r == update_code(code@),
{
    let c = to_ascii_lower(code);
    contains(c.as_str(), "update") || contains(c.as_str(), "version") || contains(
        c.as_str(),
        "upgrade",
    ) || contains(c.as_str(), "unsupported-client")
}

/// `m` as it is handed on: with the group of its frame unless it names one itself.
pub open spec fn in_group(m: MessageDto, group: String) -> MessageDto {
    MessageDto {
        group_id: if m.group_id is Some {
            m.group_id
        } else {
            Some(group)
        },
        ..m
    }
}

/// The state of the socket between two events.
#[derive(Debug, Clone, Copy, PartialEq, Eq, Structural)]
pub struct SocketLoop {
    pub state: SyncState,
    /// Failed attempts since the last successful connection.
    pub attempt: u32,
    /// Whether the current connection has been greeted.
    pub got_hello: bool,
    /// Ping after this much outbound silence, in milliseconds.
    pub heartbeat_ms: u64,
}

/// Whether a start runs the loop.
pub open spec fn may_start(s: SocketLoop, running: bool) -> bool {
    !running && s.state != SyncState::UpdateRequired
}

/// The state after the loop ended.
pub open spec fn after_stop(s: SocketLoop) -> SocketLoop {
    SocketLoop {
        state: if s.state == SyncState::UpdateRequired {
            SyncState::UpdateRequired
        } else {
            SyncState::Idle
        },
        ..s
    }
}

/// What a received frame asks for.
#[derive(Debug)]
pub struct FrameStep {
    /// Events to emit, in order.
    pub events: Vec<SocketEvent>,
    /// The connection must be torn down for this reason.
    pub end: Option<DisconnectReason>,
}

/// What the end of a connection or a failed attempt asks for.
#[derive(Debug)]
pub struct Next {
    /// The reason to report.
    pub reason: DisconnectReason,
    /// The session is dead.
    pub invalidate: bool,
    /// Connect again after this many milliseconds; stop when absent.
    pub wait_ms: Option<u64>,
}

/// The greeted state: attempts start again from zero.
pub open spec fn greeted(s: SocketLoop, heartbeat: Option<u32>) -> SocketLoop {
    SocketLoop {
        state: SyncState::Connected,
        attempt: 0,
        got_hello: true,
        heartbeat_ms: match heartbeat {
            Some(n) => if n > 0 {
                (n * 1000) as u64
            } else {
                s.heartbeat_ms
            },
            None => s.heartbeat_ms,
        },
    }
}

/// The event list reports `ms` of `group`, each with its group filled in.
pub open spec fn reports_messages(
    e: SocketEvent,
    group: String,
    ms: Seq<MessageDto>,
    more: bool,
) -> bool {
    e matches SocketEvent::Messages { group_id, messages, has_more } && group_id == group && has_more
        == more && messages@ =~= ms.map_values(|m: MessageDto| in_group(m, group))
}

/// What a frame does to the socket, and the events it brings.
pub open spec fn frame_step(
    s: SocketLoop,
    frame: ServerFrame,
    t: SocketLoop,
    step: FrameStep,
) -> bool {
    match frame {
        ServerFrame::Hello { protocol_version, user_id, device_id, limits } => if protocol_version
            > WS_PROTOCOL_VERSION {
            t == s && step.events@.len() == 0 && step.end == Some(DisconnectReason::UpdateRequired)
        } else {
            t == greeted(s, limits.heartbeat_seconds) && step.end is None && step.events@ =~= seq![
                SocketEvent::Hello { protocol_version, user_id, device_id, limits },
                SocketEvent::Connected,
            ]
        },
        ServerFrame::Pong => t == s && step.events@.len() == 0 && step.end is None,
        ServerFrame::Messages { group_id, messages, has_more } => {
            &&& step.end is None
            &&& if s.got_hello {
                t == s && step.events@.len() == 1
            } else {
                t == greeted(s, None) && step.events@.len() == 2 && step.events@[0]
                    == SocketEvent::Connected
            }
            &&& reports_messages(step.events@.last(), group_id, messages@, has_more)
        },
        ServerFrame::Group { event, fields } => {
            &&& t == s
            &&& step.end is None
            &&& step.events@.len() == 1
            &&& step.events@[0] matches SocketEvent::GroupEvent(e) && event_is(event@, fields@, e)
        },
        ServerFrame::Read { group_id, read_seq } => t == s && step.end is None && step.events@
            =~= seq![SocketEvent::Read { group_id, read_seq }],
        ServerFrame::Error { code, detail } => {
            &&& t == s
            &&& step.events@.len() == 0
            &&& step.end == if update_code(code@) {
                Some(DisconnectReason::UpdateRequired)
            } else if code@ == "push_failed"@ {
                Some(DisconnectReason::Error { cause: Some(code) })
            } else {
                None
            }
        },
    }
}

/// A wait after failed attempt number `attempt`, at least `min`.
pub open spec fn wait_is(attempt: u32, min: Option<u64>, ms: u64) -> bool {
    let floor = match min {
        Some(m) => m,
        None => 0u64,
    };
    &&& floor <= ms
    &&& backoff_ms(attempt as nat) / 2 <= ms
    &&& ms <= backoff_ms(attempt as nat) || ms == floor
}

/// The state after an attempt failed that is to be repeated.
pub open spec fn backing_off(s: SocketLoop) -> SocketLoop {
    SocketLoop {
        state: SyncState::BackingOff,
        attempt: if s.attempt < u32::MAX {
            (s.attempt + 1) as u32
        } else {
            u32::MAX
        },
        ..s
    }
}

/// The wait a `Retry-After` header asks for, in milliseconds.
pub open spec fn retry_after_ms(header: Option<Seq<char>>) -> Option<u64> {
    match header {
        Some(h) => match parsed_u64(trim(h)) {
            Some(n) => Some(
                if n * 1000 <= u64::MAX {
                    (n * 1000) as u64
                } else {
                    u64::MAX
                },
            ),
            None => None,
        },
        None => None,
    }
}

/// The wait a `Retry-After` header asks for, in milliseconds.
pub fn retry_after(header: Option<&str>) -> (r: Option<u64>)
    ensures
        r == retry_after_ms(
            match header {
                Some(h) => Some(h@),
                None => None,
            },
        ),
{
    match header {
        Some(h) => match parse_u64(trimmed(h).as_str()) {
            Some(n) => Some(
                if n <= u64::MAX / 1000 {
                    n * 1000
                } else {
                    u64::MAX
                },
            ),
            None => None,
        },
        None => None,
    }
}

pub(crate) fn fill_groups(group: &String, messages: Vec<MessageDto>) -> (v: Vec<MessageDto>)
    ensures
        v@ =~= messages@.map_values(|m: MessageDto| in_group(m, *group)),
{
    let mut rest = messages;
    let mut out: Vec<MessageDto> = Vec::new();
    let ghost all = messages@;
    while rest.len() > 0
        invariant
            out@.len() + rest@.len() == all.len(),
            rest@ =~= all.skip(out@.len() as int),
            forall|k: int|
                0 <= k < out@.len() ==> #[trigger] out@[k] == in_group(all[k], *group),
        decreases rest.len(),
    {
        let mut m = rest.remove(0);
        if m.group_id.is_none() {
            m.group_id = Some(group.clone());
        }
        out.push(m);
    }
    out
}

impl SocketLoop {
    /// A socket that has not been started.
    pub fn new() -> (r: Self)
        ensures
            r == (SocketLoop {
                state: SyncState::Idle,
                attempt: 0,
                got_hello: false,
                heartbeat_ms: PING_AFTER_OUTBOUND_SILENCE,
            }),
    {
        SocketLoop {
            state: SyncState::Idle,
            attempt: 0,
            got_hello: false,
            heartbeat_ms: PING_AFTER_OUTBOUND_SILENCE,
        }
    }

    /// Whether a start runs the loop: not while it runs, and never after an update was demanded.
    pub fn start(&mut self, running: bool) -> (go: bool)
        ensures
            go == may_start(*old(self), running),
            *final(self) == (if go {
                SocketLoop { attempt: 0, ..*old(self) }
            } else {
                *old(self)
            }),
    {
        if running || self.state == SyncState::UpdateRequired {
            return false;
        }
        self.attempt = 0;
        true
    }

    /// The loop ended: idle, unless an update was demanded.
    pub fn stopped(&mut self)
        ensures
            *final(self) == after_stop(*old(self)),
    {
        if self.state != SyncState::UpdateRequired {
            self.state = SyncState::Idle;
        }
    }

    /// A connection is being attempted.
    pub fn connecting(&mut self)
        ensures
            *final(self) == (SocketLoop { state: SyncState::Connecting, ..*old(self) }),
    {
        self.state = SyncState::Connecting;
    }

    /// A connection is up and waits for its greeting.
    pub fn opened(&mut self)
        ensures
            *final(self) == (SocketLoop {
                got_hello: false,
                heartbeat_ms: PING_AFTER_OUTBOUND_SILENCE,
                ..*old(self)
            }),
    {
        self.got_hello = false;
        self.heartbeat_ms = PING_AFTER_OUTBOUND_SILENCE;
    }

    /// A frame arrived.
    pub fn handle_frame(&mut self, frame: ServerFrame) -> (step: FrameStep)
        ensures
            frame_step(*old(self), frame, *final(self), step),
    {
        let mut events: Vec<SocketEvent> = Vec::new();
        match frame {
            ServerFrame::Hello { protocol_version, user_id, device_id, limits } => {
                if protocol_version > WS_PROTOCOL_VERSION {
                    return FrameStep { events, end: Some(DisconnectReason::UpdateRequired) };
                }
                match limits.heartbeat_seconds {
                    Some(n) => {
                        if n > 0 {
                            self.heartbeat_ms = n as u64 * 1000;
                        }
                    },
                    None => {},
                }
                self.got_hello = true;
                self.attempt = 0;
                self.state = SyncState::Connected;
                events.push(SocketEvent::Hello { protocol_version, user_id, device_id, limits });
                events.push(SocketEvent::Connected);
                FrameStep { events, end: None }
            },
            ServerFrame::Pong => FrameStep { events, end: None },
            ServerFrame::Messages { group_id, messages, has_more } => {
                if !self.got_hello {
                    self.got_hello = true;
                    self.attempt = 0;
                    self.state = SyncState::Connected;
                    events.push(SocketEvent::Connected);
                }
                let messages = fill_groups(&group_id, messages);
                events.push(SocketEvent::Messages { group_id, messages, has_more });
                FrameStep { events, end: None }
            },
            ServerFrame::Group { event, fields } => {
                events.push(SocketEvent::GroupEvent(GroupEvent::parse(event.as_str(), &fields)));
                FrameStep { events, end: None }
            },
            ServerFrame::Read { group_id, read_seq } => {
                events.push(SocketEvent::Read { group_id, read_seq });
                FrameStep { events, end: None }
            },
            ServerFrame::Error { code, detail: _ } => {
                let end = if is_update_required_code(code.as_str()) {
                    Some(DisconnectReason::UpdateRequired)
                } else if same(code.as_str(), "push_failed") {
                    Some(DisconnectReason::Error { cause: Some(code) })
                } else {
                    None
                };
                FrameStep { events, end }
            },
        }
    }

    fn backoff_wait(&mut self, min: Option<u64>) -> (ms: u64)
        ensures
            *final(self) == backing_off(*old(self)),
            wait_is(old(self).attempt, min, ms),
    {
        self.state = SyncState::BackingOff;
        let mut ms: u64 = backoff_delay(self.attempt);
        match min {
            Some(m) => {
                if ms < m {
                    ms = m;
                }
            },
            None => {},
        }
        if self.attempt < u32::MAX {
            self.attempt = self.attempt + 1;
        }
        ms
    }

    /// The handshake was refused with an HTTP status.
    pub fn refused(&mut self, status: u16, status_text: &str, retry: Option<&str>) -> (n: Next)
        ensures
            status == 401 || status == 403 ==> *final(self) == *old(self) && n.invalidate
                && n.wait_ms is None && n.reason == (DisconnectReason::SessionRevoked {
                blocked: status == 403,
            }),
            status != 401 && status != 403 ==> {
                &&& *final(self) == backing_off(*old(self))
                &&& !n.invalidate
                &&& n.wait_ms is Some
                &&& wait_is(
                    old(self).attempt,
                    if status == 429 {
                        retry_after_ms(
                            match retry {
                                Some(h) => Some(h@),
                                None => None,
                            },
                        )
                    } else {
                        None
                    },
                    n.wait_ms->0,
                )
                &&& n.reason matches DisconnectReason::Error { cause: Some(c) } && c@ == "HTTP "@
                    + status_text@
            },
    {
        if status == 401 || status == 403 {
            return Next {
                reason: DisconnectReason::SessionRevoked { blocked: status == 403 },
                invalidate: true,
                wait_ms: None,
            };
        }
        let min = if status == 429 {
            retry_after(retry)
        } else {
            None
        };
        Next {
            reason: DisconnectReason::Error { cause: Some("HTTP ".to_owned().concat(status_text)) },
            invalidate: false,
            wait_ms: Some(self.backoff_wait(min)),
        }
    }

    /// The connection could not be made.
    pub fn failed(&mut self, cause: String) -> (n: Next)
        ensures
            *final(self) == backing_off(*old(self)),
            !n.invalidate,
            n.wait_ms is Some,
            wait_is(old(self).attempt, None, n.wait_ms->0),
            n.reason == (DisconnectReason::Error { cause: Some(cause) }),
    {
        Next {
            reason: DisconnectReason::Error { cause: Some(cause) },
            invalidate: false,
            wait_ms: Some(self.backoff_wait(None)),
        }
    }

    /// A connection ended; `stopping` when the user asked for it.
    pub fn ended(&mut self, reason: DisconnectReason, stopping: bool) -> (n: Next)
        ensures
            n.reason == (if session_revoked(reason) {
                DisconnectReason::SessionRevoked { blocked: false }
            } else {
                reason
            }),
            n.invalidate == session_revoked(reason),
            n.wait_ms is Some == (!stopping && !session_revoked(reason)
                && reason != DisconnectReason::UpdateRequired),
            n.wait_ms matches Some(ms) ==> *final(self) == backing_off(*old(self)) && wait_is(
                old(self).attempt,
                if too_many_connections(reason) {
                    Some(TOO_MANY_CONNECTIONS_WAIT)
                } else {
                    None
                },
                ms,
            ),
            n.wait_ms is None ==> *final(self) == (SocketLoop {
                state: if reason == DisconnectReason::UpdateRequired {
                    SyncState::UpdateRequired
                } else {
                    old(self).state
                },
                ..*old(self)
            }),
    {
        let revoked = match &reason {
            DisconnectReason::Closed { code: Some(c), .. } => *c == WS_CLOSE_SESSION_REVOKED,
            _ => false,
        };
        let update = match &reason {
            DisconnectReason::UpdateRequired => true,
            _ => false,
        };
        let min = if reason.is_too_many_connections() {
            Some(TOO_MANY_CONNECTIONS_WAIT)
        } else {
            None
        };
        if update {
            self.state = SyncState::UpdateRequired;
        }
        let wait_ms = if stopping || revoked || update {
            None
        } else {
            Some(self.backoff_wait(min))
        };
        let reason = if revoked {
            DisconnectReason::SessionRevoked { blocked: false }
        } else {
            reason
        };
        Next { reason, invalidate: revoked, wait_ms }
    }
}

/// Once an update was demanded, no start runs the loop and no stop forgets it.
pub proof fn law_update_is_final(s: SocketLoop, running: bool)
    requires
        s.state == SyncState::UpdateRequired,
    ensures
        !may_start(s, running),
        after_stop(s) == s,
{
}

/// Every wait is at least a second, and at most five minutes unless the server asked for more.
pub proof fn law_wait_bounds(attempt: u32, min: Option<u64>, ms: u64)
    requires
        wait_is(attempt, min, ms),
    ensures
        1_000 <= ms,
        ms <= 300_000 || min == Some(ms),
{
    law_backoff_bounds(attempt as nat);
}

/// A greeting, or a first batch without one, ends the backoff.
pub proof fn law_traffic_resets_backoff(
    s: SocketLoop,
    frame: ServerFrame,
    t: SocketLoop,
    step: FrameStep,
)
    requires
        frame_step(s, frame, t, step),
        !s.got_hello,
        t.got_hello,
    ensures
        t.attempt == 0,
        t.state == SyncState::Connected,
        step.end is None,
        exists|i: int| 0 <= i < step.events@.len() && step.events@[i] == SocketEvent::Connected,
{
    match frame {
        ServerFrame::Hello { .. } => {
            assert(step.events@[1] == SocketEvent::Connected);
        },
        ServerFrame::Messages { .. } => {
            assert(step.events@[0] == SocketEvent::Connected);
        },
        _ => {},
    }
}

} // verus!
