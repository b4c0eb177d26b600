//! A minimal liveness-heartbeat client: it notifies a remote monitoring
//! endpoint that the host is alive, either on demand or on a fixed interval
//! from a background loop, and never lets a transport failure escalate into
//! the host process.

pub mod pusher;
pub mod schedule;

pub use pusher::TransportError;
pub use pusher::UptimePusher;
pub use schedule::HEARTBEAT_INTERVAL_SECS;
pub use schedule::PUSH_TIMEOUT_SECS;
