//! An example program implementing the transfer-hook interface: its
//! instruction set, its processor, and helpers for building its validation
//! account state.

pub mod instruction;
pub mod processor;
pub mod state;
