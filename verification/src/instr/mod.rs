//! Decoders for inner instructions.

pub mod all_inner;
pub mod raydium_clmm_inner;
