//! A router of Lightning payments that can receive over a trampoline path of the caller's choice.
//!
//! [`router::TrampolineAwareRouter`] hands a request for blinded payment paths on to another
//! router, unless an ordered list of nodes has been configured. Then it offers exactly one path: a
//! blinded trampoline path that starts at the first of these nodes, runs through each of the others
//! in turn, and ends at the recipient.
//!
//! - [`payload`] holds what such a path carries, and what it asks of a payer.
//! - [`ldk`] holds the calls into `lightning`, `lightning_types` and `bitcoin`.
//! - [`router`] builds the path, and decides when to.
//! - [`laws`] states what holds of every path that is built.

pub mod laws;
pub mod ldk;
pub mod payload;
pub mod router;
