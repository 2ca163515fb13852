//! Message-envelope and handler-dispatch core of an actor runtime.
//!
//! A mailbox needs one uniform element type, yet every message has its own
//! payload type and its own reply type, and each message may be delivered to
//! its handler at most once. The envelope reconciles the three: it captures a
//! payload together with the sending half of a single-use reply channel,
//! carries an optional scheduler guard for its whole lifetime, and exposes a
//! dispatch operation that consumes the payload, runs the actor's handler and
//! pushes the reply back to the original sender.

pub mod actor;
pub mod channel;
pub mod envelope;
pub mod scheduler;
