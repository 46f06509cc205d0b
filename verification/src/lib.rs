//! An NFT vault contract: NFTs are deposited into vaults, each vault is backed
//! by a fungible vault token, and holders of vault tokens redeem NFTs.
//!
//! The contract's state transitions, replies and queries are written here as
//! functions from the contract's state and the decoded message to the new state
//! and the response, with contracts over a mathematical model of the state.
pub mod numeral;
pub mod str_map;
pub mod state;
pub mod msg;
pub mod error;
pub mod response;
pub mod model;
pub mod contract;

pub mod laws;
