//! Authority-gated controller for a fungible token's supply.
//!
//! A single configured administrator may request that new units be minted or
//! existing units be burned. The supply-changing calls themselves are signed
//! not by the administrator's key but by a program-owned signing delegate whose
//! address is derived deterministically from the administrator's identity.
//! The actual balance bookkeeping is delegated to an external ledger module;
//! this crate's job is the authorization protocol: create the configuration
//! record exactly once, derive the delegate on demand, and refuse every
//! supply-changing request that does not come from the one true administrator
//! for the one configured token.

pub mod config;
pub mod delegate;
pub mod deployment;
pub mod error;
pub mod identity;
pub mod ops;
