//! Verified decoders for Solana DEX account data, event logs and inner
//! instructions.

pub mod bytes;
pub mod types;
pub mod events;
pub mod logs;
pub mod instr;
pub mod accounts;
pub mod shredstream;
pub mod laws;
pub mod layouts;
