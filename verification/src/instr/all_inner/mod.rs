//! Per-protocol routing of inner instructions.

pub mod meteora_amm;
pub mod orca;
pub mod pump_fees;
pub mod raydium_amm;
pub mod raydium_cpmm;
