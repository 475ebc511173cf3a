//! Daily cat-fact notification service: the verified core.
//!
//! The library holds the logic of a small service that stores cat facts
//! and subscriber addresses and mails a random fact to every subscriber
//! once per local calendar day.  Three pieces carry the design weight and
//! are verified here:
//!
//! * [`schedule`] — the drift-free daily trigger: the next local midnight
//!   is recomputed from the current wall clock after every cycle, never by
//!   adding a fixed interval, so dispatch latency cannot accumulate skew.
//! * [`dispatch`] — the fan-out delivery cycle as an explicit state
//!   machine: fetch one fact, fetch the subscriber list, then send one
//!   message per recipient, isolating per-recipient failures so that one
//!   bouncing address never aborts the rest of the batch.
//! * [`message`] and [`store`] — the exact text of the outgoing mail and
//!   of the store queries the service issues.
//!
//! The surrounding process — the HTTP listener, the SMTP relay, the
//! remote store connection and the async runtime that races the listener
//! against the scheduler — performs I/O and stays outside the library; it
//! drives these state machines and executes the actions they request.

pub mod clock;
pub mod dispatch;
pub mod message;
pub mod records;
pub mod schedule;
pub mod store;
