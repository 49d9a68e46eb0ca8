//! Event decoders for program logs and pre-decoded event bodies.

pub mod discriminator_lut;
pub mod event_body;
pub mod program_data;
pub mod pump_fees;
pub mod raydium_clmm;
