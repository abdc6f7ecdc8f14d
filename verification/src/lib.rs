//! A cross-chain fund-forwarding workflow built around an interchain account
//! (ICA) on a remote ledger.
//!
//! The library is the protocol core of the forwarder: a persisted state
//! machine (`Instantiated -> IcaCreated -> Complete`) driven by a repeatable
//! `Tick` command, the registration and transfer submissions it emits, and the
//! two-stage correlation engine that matches asynchronous acknowledgments,
//! errors and timeouts back to the submission that caused them.
//!
//! Host plumbing (storage substrate, message dispatch, balance queries, entry
//! points) stays outside; the library works on plain values and states its
//! behaviour in contracts.

pub mod codec;
pub mod contract;
pub mod laws;
pub mod msg;
pub mod state;
