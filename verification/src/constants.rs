//! Protocol constants and limits. Durations are in milliseconds.

use vstd::prelude::*;

verus! {

/// REST base URL.
pub const DEFAULT_BASE_URL: &'static str = "https://api.tzibbur.me";

/// WebSocket endpoint.
pub const DEFAULT_WS_URL: &'static str = "wss://api.tzibbur.me/v1/ws";

/// WebSocket protocol version the client speaks.
pub const WS_PROTOCOL_VERSION: u32 = 1;

/// Close code of a revoked session.
pub const WS_CLOSE_SESSION_REVOKED: u16 = 4001;

/// Close code sent when the account has too many open connections.
pub const WS_CLOSE_TOO_MANY_CONNECTIONS: u16 = 4029;

/// Capacity of the socket event buffer.
pub const WS_EVENT_BUFFER: usize = 256;

/// A `ping` is sent after this much outbound silence.
pub const PING_AFTER_OUTBOUND_SILENCE: u64 = 30_000;

/// Shortest pause after the server closed with "too many connections".
pub const TOO_MANY_CONNECTIONS_WAIT: u64 = 60_000;

/// Max display name length in Unicode code points.
pub const DEFAULT_MAX_DISPLAY_NAME: usize = 64;

/// Max group name length in Unicode code points.
pub const DEFAULT_MAX_GROUP_NAME: usize = 100;

/// Max members per group.
pub const DEFAULT_MAX_MEMBERS: usize = 200;

/// Max message body length in Unicode code points.
pub const DEFAULT_MAX_MESSAGE: usize = 2000;

/// The composer warns from this many code points on.
pub const MESSAGE_NEAR_LIMIT: usize = 1800;

/// Max phone numbers in one contact lookup or member batch.
pub const DEFAULT_MAX_PHONES: usize = 100;

/// Length of a one-time code.
pub const CODE_LENGTH: usize = 6;

/// Wait before a resend is offered when the server did not say.
pub const DEFAULT_RESEND_WAIT: u64 = 60_000;

/// Wait after a rate limit that named no time.
pub const DEFAULT_RATE_LIMIT_WAIT: u64 = 60_000;

/// After this many failed codes a new one is suggested.
pub const SUGGEST_RESEND_AFTER_FAILURES: u32 = 3;

/// First retry delay.
pub const BACKOFF_BASE: u64 = 2_000;

/// Longest retry delay.
pub const BACKOFF_CAP: u64 = 300_000;

/// Poll interval of an idle outbox without a signal.
pub const FALLBACK_POLL: u64 = 15_000;

/// An in-flight row older than this is sent again.
pub const IN_FLIGHT_STALE: u64 = 120_000;

/// Version of the local schema.
pub const DB_SCHEMA_VERSION: i32 = 2;

} // verus!
