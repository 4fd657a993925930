//! Client-side protocol for deploying, upgrading and retiring upgradeable
//! on-ledger programs.

pub mod account;
pub mod address;
pub mod authority_change;
pub mod chunking;
mod clock;
pub mod config;
pub mod deploy;
pub mod error;
pub mod instruction;
pub mod protocol;
pub mod rotate;
pub mod upgrade;
pub mod upload;
pub mod utils;
