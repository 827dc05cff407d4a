//! A peer-to-peer escrow for trading tokens or SOL against fiat: pools that
//! charge a fee, offers, orders held in escrow until completed or cancelled,
//! and trader profiles, each instruction verified against its contract.

pub mod address;
pub mod error;
pub mod state;
pub mod cpi;
pub mod utils;
pub mod accounts;
pub mod program;
pub mod laws;
