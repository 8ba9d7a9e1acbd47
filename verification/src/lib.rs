//! A merchant-subscription payment ledger.
//!
//! Merchants register on a platform, publish subscription products, and users
//! purchase time-boxed access passes by transferring funds to the merchant.
//! Every entity lives at a deterministic address derived from its owner and
//! parent keys, every handler validates before it mutates, and every
//! state transition is proved to move the whole system from one
//! well-formed state to the next, atomically.

pub mod addresses;
pub mod entities;
pub mod errors;
pub mod gateway;
pub mod handlers;
pub mod ids;
pub mod laws;
pub mod model;
pub mod system;
pub mod transitions;
