//! Plain data types exchanged with JavaScript callers of a coinswap taker,
//! and the fixed settings of the regtest bitcoind that its integration
//! setup talks to.

pub mod types;
pub mod docker;
pub mod swap_outcome;
