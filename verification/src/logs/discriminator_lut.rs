//! Discriminator lookup table: the 8-byte event discriminator, read as a
//! little-endian `u64`, mapped to the event kind, protocol and name.
//!
//! The table is kept sorted by discriminator so that a lookup is a binary
//! search.

use crate::events::{DexEvent, EventKind};
use crate::logs::event_body::{parse_event_body, routed_result};
use crate::types::EventMetadata;
use vstd::prelude::*;

verus! {

/// Protocol that an event belongs to.
#[derive(Clone, Copy, Debug, PartialEq, Eq, Structural)]
pub enum Protocol {
    PumpFun,
    PumpFees,
    PumpSwap,
    RaydiumClmm,
    RaydiumCpmm,
    RaydiumAmm,
    OrcaWhirlpool,
    MeteoraAmm,
    MeteoraDamm,
    MeteoraDlmm,
}

/// One row of the table.
#[derive(Clone, Copy, Debug)]
pub struct DiscriminatorInfo {
    pub discriminator: u64,
    /// The event kind whose body decoder this discriminator selects.
    pub kind: EventKind,
    pub protocol: Protocol,
    /// Human-readable name.
    pub name: &'static str,
}

/// Number of rows in the table.
pub const LUT_LEN: usize = 51;

/// Discriminators, in strictly increasing order.
pub const DISCRIMINATOR_KEYS: [u64; 51] = [
    0x0100000000000000,
    0x0300000000000000,
    0x03F36CD5DC68A79B,
    0x0400000000000000,
    0x0900000000000000,
    0x0ABB5CA7047241A6,
    0x0B00000000000000,
    0x22A16D949C4612B7,
    0x2ADC03A50A372F3E,
    0x385532443A56DE3A,
    0x3A981F67E861F474,
    0x3DD5292D4F1157CE,
    0x3E99BE0E3C651772,
    0x3F3563702F4B5E19,
    0x529DDC6858292CCA,
    0x541E2220D4694F31,
    0x58FB74B8C8AA6985,
    0x6953A151C069AEA6,
    0x6B99589ECEAFF07E,
    0x74A776A0D20C31B1,
    0x7663EBDE4DA91B1B,
    0x7777F52C1F52F467,
    0x7EE2380AE6F48A59,
    0x906B8E1F533DF878,
    0x94EA945DB95DE9BD,
    0x96A02B93AF49CAE1,
    0x975F706A7707BDF7,
    0xA19BFE6690071E1E,
    0xA2B45439E69470ED,
    0xA3D4EDDBDD283046,
    0xADB44AA35662D937,
    0xB6F2E15289C623F2,
    0xBA3D34E35A7D5E1F,
    0xC0472CA01A850916,
    0xC20A7C7DA44D7758,
    0xC40AD0CDBE6CE351,
    0xC81357C7CC0D780B,
    0xCBE1E45BB8C4BA15,
    0xCC21BA7ABBA959AB,
    0xCE9ADFC4F9571E64,
    0xD0BCF43E2341175A,
    0xD89EA9395547186A,
    0xDE331EC4DA5ABE8F,
    0xE2710826E8CDC640,
    0xE5FEC60C57AD7664,
    0xEA423FF657AB98E1,
    0xEC08B84DF5C68F7C,
    0xEC2541724EBA7F6D,
    0xEE61E64ED37FDBBD,
    0xF3D63778E297CCCB,
    0xF70E375C88267F79,
];

/// Event kind of each row.
pub const DISCRIMINATOR_KINDS: [EventKind; 51] = [
    EventKind::RaydiumAmmInitialize2,
    EventKind::RaydiumAmmDeposit,
    EventKind::PumpFunMigrateBondingCurveCreator,
    EventKind::RaydiumAmmWithdraw,
    EventKind::RaydiumAmmSwapBaseIn,
    EventKind::OrcaLiquidityDecreased,
    EventKind::RaydiumAmmSwapBaseOut,
    EventKind::RaydiumCpmmWithdraw,
    EventKind::PumpSwapSell,
    EventKind::RaydiumClmmDecreaseLiquidity,
    EventKind::MeteoraAmmRemoveLiquidity,
    EventKind::RaydiumClmmCollectProtocolFee,
    EventKind::PumpFeesRevokeFeeSharingAuthority,
    EventKind::RaydiumClmmCreatePool,
    EventKind::MeteoraAmmPoolCreated,
    EventKind::RaydiumClmmIncreaseLiquidity,
    EventKind::PumpFeesCreateFeeSharingConfig,
    EventKind::RaydiumClmmCollectPersonalFee,
    EventKind::RaydiumClmmLiquidityChange,
    EventKind::PumpSwapCreatePool,
    EventKind::PumpFunCreate,
    EventKind::PumpSwapBuy,
    EventKind::PumpFeesInitializeFeeConfig,
    EventKind::PumpSwapAddLiquidity,
    EventKind::PumpFunMigrate,
    EventKind::OrcaTraded,
    EventKind::RaydiumClmmConfigChange,
    EventKind::OrcaLiquidityIncreased,
    EventKind::RaydiumClmmLiquidityCalculate,
    EventKind::RaydiumClmmDecreaseLimitOrder,
    EventKind::RaydiumCpmmSwapBaseOut,
    EventKind::RaydiumCpmmDeposit,
    EventKind::MeteoraAmmAddLiquidity,
    EventKind::PumpSwapRemoveLiquidity,
    EventKind::RaydiumClmmSettleLimitOrder,
    EventKind::MeteoraAmmSwap,
    EventKind::RaydiumClmmIncreaseLimitOrder,
    EventKind::PumpFeesUpdateFeeShares,
    EventKind::PumpFeesUpsertFeeTiers,
    EventKind::RaydiumClmmCreatePersonalPosition,
    EventKind::PumpFeesUpdateFeeConfig,
    EventKind::RaydiumClmmOpenLimitOrder,
    EventKind::RaydiumCpmmSwapBaseIn,
    EventKind::RaydiumClmmSwap,
    EventKind::OrcaPoolInitialized,
    EventKind::PumpFeesUpdateAdmin,
    EventKind::PumpFeesTransferFeeSharingAuthority,
    EventKind::RaydiumClmmUpdateRewardInfos,
    EventKind::PumpFunTrade,
    EventKind::PumpFeesResetFeeSharingConfig,
    EventKind::MeteoraAmmBootstrapLiquidity,
];

/// Protocol of each row.
pub const DISCRIMINATOR_PROTOCOLS: [Protocol; 51] = [
    Protocol::RaydiumAmm,
    Protocol::RaydiumAmm,
    Protocol::PumpFun,
    Protocol::RaydiumAmm,
    Protocol::RaydiumAmm,
    Protocol::OrcaWhirlpool,
    Protocol::RaydiumAmm,
    Protocol::RaydiumCpmm,
    Protocol::PumpSwap,
    Protocol::RaydiumClmm,
    Protocol::MeteoraAmm,
    Protocol::RaydiumClmm,
    Protocol::PumpFees,
    Protocol::RaydiumClmm,
    Protocol::MeteoraAmm,
    Protocol::RaydiumClmm,
    Protocol::PumpFees,
    Protocol::RaydiumClmm,
    Protocol::RaydiumClmm,
    Protocol::PumpSwap,
    Protocol::PumpFun,
    Protocol::PumpSwap,
    Protocol::PumpFees,
    Protocol::PumpSwap,
    Protocol::PumpFun,
    Protocol::OrcaWhirlpool,
    Protocol::RaydiumClmm,
    Protocol::OrcaWhirlpool,
    Protocol::RaydiumClmm,
    Protocol::RaydiumClmm,
    Protocol::RaydiumCpmm,
    Protocol::RaydiumCpmm,
    Protocol::MeteoraAmm,
    Protocol::PumpSwap,
    Protocol::RaydiumClmm,
    Protocol::MeteoraAmm,
    Protocol::RaydiumClmm,
    Protocol::PumpFees,
    Protocol::PumpFees,
    Protocol::RaydiumClmm,
    Protocol::PumpFees,
    Protocol::RaydiumClmm,
    Protocol::RaydiumCpmm,
    Protocol::RaydiumClmm,
    Protocol::OrcaWhirlpool,
    Protocol::PumpFees,
    Protocol::PumpFees,
    Protocol::RaydiumClmm,
    Protocol::PumpFun,
    Protocol::PumpFees,
    Protocol::MeteoraAmm,
];

/// Name of each row.
pub const DISCRIMINATOR_NAMES: [&'static str; 51] = [
    "Raydium AMM Initialize2",
    "Raydium AMM Deposit",
    "PumpFun Migrate Bonding Curve Creator",
    "Raydium AMM Withdraw",
    "Raydium AMM Swap Base In",
    "Orca Whirlpool Liquidity Decreased",
    "Raydium AMM Swap Base Out",
    "Raydium CPMM Withdraw",
    "PumpSwap Sell",
    "Raydium CLMM Decrease Liquidity",
    "Meteora AMM Remove Liquidity",
    "Raydium CLMM Collect Protocol Fee",
    "Pump Fees Revoke Fee Sharing Authority",
    "Raydium CLMM Create Pool",
    "Meteora AMM Pool Created",
    "Raydium CLMM Increase Liquidity",
    "Pump Fees Create Fee Sharing Config",
    "Raydium CLMM Collect Personal Fee",
    "Raydium CLMM Liquidity Change",
    "PumpSwap Create Pool",
    "PumpFun Create",
    "PumpSwap Buy",
    "Pump Fees Initialize Fee Config",
    "PumpSwap Add Liquidity",
    "PumpFun Migrate",
    "Orca Whirlpool Traded",
    "Raydium CLMM Config Change",
    "Orca Whirlpool Liquidity Increased",
    "Raydium CLMM Liquidity Calculate",
    "Raydium CLMM Decrease Limit Order",
    "Raydium CPMM Swap Base Out",
    "Raydium CPMM Deposit",
    "Meteora AMM Add Liquidity",
    "PumpSwap Remove Liquidity",
    "Raydium CLMM Settle Limit Order",
    "Meteora AMM Swap",
    "Raydium CLMM Increase Limit Order",
    "Pump Fees Update Fee Shares",
    "Pump Fees Upsert Fee Tiers",
    "Raydium CLMM Create Personal Position",
    "Pump Fees Update Fee Config",
    "Raydium CLMM Open Limit Order",
    "Raydium CPMM Swap Base In",
    "Raydium CLMM Swap",
    "Orca Whirlpool Initialize",
    "Pump Fees Update Admin",
    "Pump Fees Transfer Fee Sharing Authority",
    "Raydium CLMM Update Reward Infos",
    "PumpFun Trade",
    "Pump Fees Reset Fee Sharing Config",
    "Meteora AMM Bootstrap Liquidity",
];

/// Row `i` of the table.
pub open spec fn lut_info(i: int) -> DiscriminatorInfo {
    DiscriminatorInfo {
        discriminator: DISCRIMINATOR_KEYS@[i],
        kind: DISCRIMINATOR_KINDS@[i],
        protocol: DISCRIMINATOR_PROTOCOLS@[i],
        name: DISCRIMINATOR_NAMES@[i],
    }
}

/// The discriminators strictly increase along the table.
pub open spec fn lut_strictly_sorted() -> bool {
    forall|i: int, j: int|
        0 <= i < j < LUT_LEN ==> #[trigger] DISCRIMINATOR_KEYS@[i] < #[trigger] DISCRIMINATOR_KEYS@[j]
}

proof fn lemma_chain(s: Seq<u64>, i: int, j: int)
    requires
        0 <= i < j < s.len(),
        forall|k: int| 0 <= k < s.len() - 1 ==> #[trigger] s[k] < s[k + 1],
    ensures
        s[i] < s[j],
    decreases j - i,
{
    assert(s[j - 1] < s[j]);
    if i < j - 1 {
        lemma_chain(s, i, j - 1);
    }
}

/// The table is sorted, strictly, by discriminator; in particular no
/// discriminator occurs twice.
pub proof fn lemma_lut_strictly_sorted()
    ensures
        lut_strictly_sorted(),
{
    assert(DISCRIMINATOR_KEYS@[0] < DISCRIMINATOR_KEYS@[1]);
    assert(DISCRIMINATOR_KEYS@[1] < DISCRIMINATOR_KEYS@[2]);
    assert(DISCRIMINATOR_KEYS@[2] < DISCRIMINATOR_KEYS@[3]);
    assert(DISCRIMINATOR_KEYS@[3] < DISCRIMINATOR_KEYS@[4]);
    assert(DISCRIMINATOR_KEYS@[4] < DISCRIMINATOR_KEYS@[5]);
    assert(DISCRIMINATOR_KEYS@[5] < DISCRIMINATOR_KEYS@[6]);
    assert(DISCRIMINATOR_KEYS@[6] < DISCRIMINATOR_KEYS@[7]);
    assert(DISCRIMINATOR_KEYS@[7] < DISCRIMINATOR_KEYS@[8]);
    assert(DISCRIMINATOR_KEYS@[8] < DISCRIMINATOR_KEYS@[9]);
    assert(DISCRIMINATOR_KEYS@[9] < DISCRIMINATOR_KEYS@[10]);
    assert(DISCRIMINATOR_KEYS@[10] < DISCRIMINATOR_KEYS@[11]);
    assert(DISCRIMINATOR_KEYS@[11] < DISCRIMINATOR_KEYS@[12]);
    assert(DISCRIMINATOR_KEYS@[12] < DISCRIMINATOR_KEYS@[13]);
    assert(DISCRIMINATOR_KEYS@[13] < DISCRIMINATOR_KEYS@[14]);
    assert(DISCRIMINATOR_KEYS@[14] < DISCRIMINATOR_KEYS@[15]);
    assert(DISCRIMINATOR_KEYS@[15] < DISCRIMINATOR_KEYS@[16]);
    assert(DISCRIMINATOR_KEYS@[16] < DISCRIMINATOR_KEYS@[17]);
    assert(DISCRIMINATOR_KEYS@[17] < DISCRIMINATOR_KEYS@[18]);
    assert(DISCRIMINATOR_KEYS@[18] < DISCRIMINATOR_KEYS@[19]);
    assert(DISCRIMINATOR_KEYS@[19] < DISCRIMINATOR_KEYS@[20]);
    assert(DISCRIMINATOR_KEYS@[20] < DISCRIMINATOR_KEYS@[21]);
    assert(DISCRIMINATOR_KEYS@[21] < DISCRIMINATOR_KEYS@[22]);
    assert(DISCRIMINATOR_KEYS@[22] < DISCRIMINATOR_KEYS@[23]);
    assert(DISCRIMINATOR_KEYS@[23] < DISCRIMINATOR_KEYS@[24]);
    assert(DISCRIMINATOR_KEYS@[24] < DISCRIMINATOR_KEYS@[25]);
    assert(DISCRIMINATOR_KEYS@[25] < DISCRIMINATOR_KEYS@[26]);
    assert(DISCRIMINATOR_KEYS@[26] < DISCRIMINATOR_KEYS@[27]);
    assert(DISCRIMINATOR_KEYS@[27] < DISCRIMINATOR_KEYS@[28]);
    assert(DISCRIMINATOR_KEYS@[28] < DISCRIMINATOR_KEYS@[29]);
    assert(DISCRIMINATOR_KEYS@[29] < DISCRIMINATOR_KEYS@[30]);
    assert(DISCRIMINATOR_KEYS@[30] < DISCRIMINATOR_KEYS@[31]);
    assert(DISCRIMINATOR_KEYS@[31] < DISCRIMINATOR_KEYS@[32]);
    assert(DISCRIMINATOR_KEYS@[32] < DISCRIMINATOR_KEYS@[33]);
    assert(DISCRIMINATOR_KEYS@[33] < DISCRIMINATOR_KEYS@[34]);
    assert(DISCRIMINATOR_KEYS@[34] < DISCRIMINATOR_KEYS@[35]);
    assert(DISCRIMINATOR_KEYS@[35] < DISCRIMINATOR_KEYS@[36]);
    assert(DISCRIMINATOR_KEYS@[36] < DISCRIMINATOR_KEYS@[37]);
    assert(DISCRIMINATOR_KEYS@[37] < DISCRIMINATOR_KEYS@[38]);
    assert(DISCRIMINATOR_KEYS@[38] < DISCRIMINATOR_KEYS@[39]);
    assert(DISCRIMINATOR_KEYS@[39] < DISCRIMINATOR_KEYS@[40]);
    assert(DISCRIMINATOR_KEYS@[40] < DISCRIMINATOR_KEYS@[41]);
    assert(DISCRIMINATOR_KEYS@[41] < DISCRIMINATOR_KEYS@[42]);
    assert(DISCRIMINATOR_KEYS@[42] < DISCRIMINATOR_KEYS@[43]);
    assert(DISCRIMINATOR_KEYS@[43] < DISCRIMINATOR_KEYS@[44]);
    assert(DISCRIMINATOR_KEYS@[44] < DISCRIMINATOR_KEYS@[45]);
    assert(DISCRIMINATOR_KEYS@[45] < DISCRIMINATOR_KEYS@[46]);
    assert(DISCRIMINATOR_KEYS@[46] < DISCRIMINATOR_KEYS@[47]);
    assert(DISCRIMINATOR_KEYS@[47] < DISCRIMINATOR_KEYS@[48]);
    assert(DISCRIMINATOR_KEYS@[48] < DISCRIMINATOR_KEYS@[49]);
    assert(DISCRIMINATOR_KEYS@[49] < DISCRIMINATOR_KEYS@[50]);
    let s = DISCRIMINATOR_KEYS@;
    assert(s.len() == LUT_LEN);
    assert forall|i: int, j: int| 0 <= i < j < LUT_LEN implies #[trigger] s[i] < #[trigger] s[j] by {
        lemma_chain(s, i, j);
    }
}

/// Row `index` of the table.
pub fn lut_entry(index: usize) -> (info: DiscriminatorInfo)
    requires
        index < LUT_LEN,
    ensures
        info == lut_info(index as int),
{
    DiscriminatorInfo {
        discriminator: DISCRIMINATOR_KEYS[index],
        kind: DISCRIMINATOR_KINDS[index],
        protocol: DISCRIMINATOR_PROTOCOLS[index],
        name: DISCRIMINATOR_NAMES[index],
    }
}

/// The row whose discriminator is `discriminator`, if there is one.
pub open spec fn spec_lookup(discriminator: u64) -> Option<DiscriminatorInfo> {
    if exists|i: int| 0 <= i < LUT_LEN && DISCRIMINATOR_KEYS@[i] == discriminator {
        Some(lut_info(choose|i: int| 0 <= i < LUT_LEN && DISCRIMINATOR_KEYS@[i] == discriminator))
    } else {
        None
    }
}

/// Looks a discriminator up by binary search.
pub fn lookup_discriminator(discriminator: u64) -> (r: Option<DiscriminatorInfo>)
    ensures
        r == spec_lookup(discriminator),
{
    proof {
        lemma_lut_strictly_sorted();
    }
    let mut lo: usize = 0;
    let mut hi: usize = LUT_LEN;
    while lo < hi
        invariant
            lo <= hi <= LUT_LEN,
            lut_strictly_sorted(),
            forall|i: int| 0 <= i < lo ==> DISCRIMINATOR_KEYS@[i] < discriminator,
            forall|i: int| hi <= i < LUT_LEN ==> DISCRIMINATOR_KEYS@[i] > discriminator,
        decreases hi - lo,
    {
        let mid = lo + (hi - lo) / 2;
        let key = DISCRIMINATOR_KEYS[mid];
        if key == discriminator {
            proof {
                let i = choose|i: int| 0 <= i < LUT_LEN && DISCRIMINATOR_KEYS@[i] == discriminator;
                assert(DISCRIMINATOR_KEYS@[mid as int] == discriminator);
                assert(i == mid) by {
                    if i < mid {
                        assert(DISCRIMINATOR_KEYS@[i] < DISCRIMINATOR_KEYS@[mid as int]);
                    } else if i > mid {
                        assert(DISCRIMINATOR_KEYS@[mid as int] < DISCRIMINATOR_KEYS@[i]);
                    }
                }
            }
            return Some(lut_entry(mid));
        } else if key < discriminator {
            proof {
                assert forall|i: int| 0 <= i < mid + 1 implies DISCRIMINATOR_KEYS@[i] < discriminator by {
                    if i < mid {
                        assert(DISCRIMINATOR_KEYS@[i] < DISCRIMINATOR_KEYS@[mid as int]);
                    }
                }
            }
            lo = mid + 1;
        } else {
            proof {
                assert forall|i: int| mid <= i < LUT_LEN implies DISCRIMINATOR_KEYS@[i] > discriminator by {
                    if i > mid {
                        assert(DISCRIMINATOR_KEYS@[mid as int] < DISCRIMINATOR_KEYS@[i]);
                    }
                }
            }
            hi = mid;
        }
    }
    None
}

/// Name of the event with this discriminator.
pub fn discriminator_to_name(discriminator: u64) -> (r: Option<&'static str>)
    ensures
        match spec_lookup(discriminator) {
            Some(info) => r == Some(info.name),
            None => r is None,
        },
{
    match lookup_discriminator(discriminator) {
        Some(info) => Some(info.name),
        None => None,
    }
}

/// Protocol of the event with this discriminator.
pub fn discriminator_to_protocol(discriminator: u64) -> (r: Option<Protocol>)
    ensures
        match spec_lookup(discriminator) {
            Some(info) => r == Some(info.protocol),
            None => r is None,
        },
{
    match lookup_discriminator(discriminator) {
        Some(info) => Some(info.protocol),
        None => None,
    }
}

/// Decodes an event body with the decoder that the discriminator selects;
/// `None` for an unknown discriminator.
/// The event kind of the table row for `discriminator`, if it has one.
pub open spec fn lut_kind(discriminator: u64) -> Option<EventKind> {
    match spec_lookup(discriminator) {
        Some(info) => Some(info.kind),
        None => None,
    }
}

pub fn parse_with_discriminator(discriminator: u64, data: &[u8], metadata: EventMetadata) -> (r: Option<DexEvent>)
    ensures
        routed_result(lut_kind(discriminator), data@, metadata, r),
{
    match lookup_discriminator(discriminator) {
        Some(info) => parse_event_body(info.kind, data, metadata),
        None => None,
    }
}

} // verus!
