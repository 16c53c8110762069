//! Verified core of a multi-user messaging backend.
//!
//! The heart of the crate is the path an inbound request takes between a
//! resolved identity and persistent storage: `perms` resolves a capability
//! set per (user, channel) pair and gates every operation; `mutation`
//! applies sparse set-and-remove updates to channels under field
//! invariants; `system_message` derives the notices a completed mutation
//! gives rise to; `dispatch` wraps message creation in an idempotency
//! guarantee keyed by a client token; and `store` is the gateway that
//! routes every read and write to one of the interchangeable backends,
//! answering with an explicit error where a backend lacks a verb.
//!
//! Around that core, `channel_ops` carries the channel edit operation and
//! the conversation openers, `events`, `guests` and `trips` the adjacent
//! record flows, `invite` the invitation tokens, `notifications` the
//! bounded notification queue and its worker's decisions, and `external`
//! the few trusted calls into outside crates (fresh identifiers, the
//! clock). Side effects that may not fail a primary operation — outbound
//! mail, notification delivery — are returned to the caller as data.

use vstd::prelude::*;

pub mod channel;
pub mod channel_ops;
pub mod dispatch;
pub mod error;
pub mod events;
pub mod external;
pub mod guests;
pub mod invite;
pub mod message;
pub mod mutation;
pub mod notifications;
pub mod perms;
pub mod server;
pub mod store;
pub mod system_message;
pub mod text;
pub mod trips;
pub mod users;

verus! {

/// Utility used by serializers to skip `false` flags.
pub fn if_false(t: &bool) -> (r: bool)
    ensures
        r == !*t,
{
    !*t
}

} // verus!
