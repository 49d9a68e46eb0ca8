//! Account decoders.

pub mod raydium_clmm;
