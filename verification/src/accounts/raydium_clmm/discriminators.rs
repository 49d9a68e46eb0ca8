//! The 8-byte discriminators of Raydium CLMM account types.

use vstd::prelude::*;

verus! {

pub const AMM_CONFIG: [u8; 8] = [218, 244, 33, 104, 203, 203, 43, 111];
pub const POOL_STATE: [u8; 8] = [247, 237, 227, 245, 215, 195, 222, 70];
pub const TICK_ARRAY_STATE: [u8; 8] = [192, 155, 85, 205, 49, 249, 129, 42];

} // verus!
