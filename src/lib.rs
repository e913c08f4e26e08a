//! A minter contract for a fungible token: it creates a token contract, records
//! its address when the host reports the creation, and lets one administrator
//! mint new tokens through it.
//!
//! The host runtime drives four entry points. This library holds what they
//! decide, over plain values; storage and the host's address checks stay with
//! the caller.




pub mod encoding;

pub mod contract;
pub mod error;
pub mod msg;
pub mod response;
pub mod state;
