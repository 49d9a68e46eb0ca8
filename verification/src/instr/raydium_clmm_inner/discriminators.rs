//! The 16-byte inner-instruction discriminators of Raydium CLMM events.

use vstd::prelude::*;

verus! {

pub const SWAP: [u8; 16] = [64, 198, 205, 232, 38, 8, 113, 226, 155, 167, 108, 32, 122, 76, 173, 64];
pub const INCREASE_LIQUIDITY: [u8; 16] = [49, 79, 105, 212, 32, 34, 30, 84, 155, 167, 108, 32, 122, 76, 173, 64];
pub const DECREASE_LIQUIDITY: [u8; 16] = [58, 222, 86, 58, 68, 50, 85, 56, 155, 167, 108, 32, 122, 76, 173, 64];
pub const LIQUIDITY_CHANGE: [u8; 16] = [126, 240, 175, 206, 158, 88, 153, 107, 155, 167, 108, 32, 122, 76, 173, 64];
pub const CONFIG_CHANGE: [u8; 16] = [247, 189, 7, 119, 106, 112, 95, 151, 155, 167, 108, 32, 122, 76, 173, 64];
pub const CREATE_PERSONAL_POSITION: [u8; 16] = [100, 30, 87, 249, 196, 223, 154, 206, 155, 167, 108, 32, 122, 76, 173, 64];
pub const LIQUIDITY_CALCULATE: [u8; 16] = [237, 112, 148, 230, 57, 84, 180, 162, 155, 167, 108, 32, 122, 76, 173, 64];
pub const OPEN_LIMIT_ORDER: [u8; 16] = [106, 24, 71, 85, 57, 169, 158, 216, 155, 167, 108, 32, 122, 76, 173, 64];
pub const INCREASE_LIMIT_ORDER: [u8; 16] = [11, 120, 13, 204, 199, 87, 19, 200, 155, 167, 108, 32, 122, 76, 173, 64];
pub const DECREASE_LIMIT_ORDER: [u8; 16] = [70, 48, 40, 221, 219, 237, 212, 163, 155, 167, 108, 32, 122, 76, 173, 64];
pub const SETTLE_LIMIT_ORDER: [u8; 16] = [88, 119, 77, 164, 125, 124, 10, 194, 155, 167, 108, 32, 122, 76, 173, 64];
pub const UPDATE_REWARD_INFOS: [u8; 16] = [109, 127, 186, 78, 114, 65, 37, 236, 155, 167, 108, 32, 122, 76, 173, 64];
pub const CREATE_POOL: [u8; 16] = [25, 94, 75, 47, 112, 99, 53, 63, 155, 167, 108, 32, 122, 76, 173, 64];
pub const COLLECT_PERSONAL_FEE: [u8; 16] = [166, 174, 105, 192, 81, 161, 83, 105, 155, 167, 108, 32, 122, 76, 173, 64];
pub const COLLECT_PROTOCOL_FEE: [u8; 16] = [206, 87, 17, 79, 45, 41, 213, 61, 155, 167, 108, 32, 122, 76, 173, 64];

} // verus!
