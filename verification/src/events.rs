//! Decoded DEX events and the catalogue of event kinds.

use crate::types::{EventMetadata, Pubkey};
use vstd::prelude::*;

verus! {

/// Every event kind that the discriminator tables route to.
#[derive(Clone, Copy, Debug, PartialEq, Eq, Structural)]
pub enum EventKind {
    PumpFunCreate,
    PumpFunTrade,
    PumpFunMigrate,
    PumpFunMigrateBondingCurveCreator,
    PumpFeesCreateFeeSharingConfig,
    PumpFeesInitializeFeeConfig,
    PumpFeesResetFeeSharingConfig,
    PumpFeesRevokeFeeSharingAuthority,
    PumpFeesTransferFeeSharingAuthority,
    PumpFeesUpdateAdmin,
    PumpFeesUpdateFeeConfig,
    PumpFeesUpdateFeeShares,
    PumpFeesUpsertFeeTiers,
    PumpSwapBuy,
    PumpSwapSell,
    PumpSwapCreatePool,
    PumpSwapAddLiquidity,
    PumpSwapRemoveLiquidity,
    RaydiumClmmSwap,
    RaydiumClmmIncreaseLiquidity,
    RaydiumClmmDecreaseLiquidity,
    RaydiumClmmLiquidityChange,
    RaydiumClmmConfigChange,
    RaydiumClmmCreatePersonalPosition,
    RaydiumClmmLiquidityCalculate,
    RaydiumClmmOpenLimitOrder,
    RaydiumClmmIncreaseLimitOrder,
    RaydiumClmmDecreaseLimitOrder,
    RaydiumClmmSettleLimitOrder,
    RaydiumClmmUpdateRewardInfos,
    RaydiumClmmCreatePool,
    RaydiumClmmCollectPersonalFee,
    RaydiumClmmCollectProtocolFee,
    RaydiumCpmmSwapBaseIn,
    RaydiumCpmmSwapBaseOut,
    RaydiumCpmmCreatePool,
    RaydiumCpmmDeposit,
    RaydiumCpmmWithdraw,
    RaydiumAmmSwapBaseIn,
    RaydiumAmmSwapBaseOut,
    RaydiumAmmDeposit,
    RaydiumAmmWithdraw,
    RaydiumAmmInitialize2,
    RaydiumAmmWithdrawPnl,
    OrcaTraded,
    OrcaLiquidityIncreased,
    OrcaLiquidityDecreased,
    OrcaPoolInitialized,
    MeteoraAmmSwap,
    MeteoraAmmAddLiquidity,
    MeteoraAmmRemoveLiquidity,
    MeteoraAmmBootstrapLiquidity,
    MeteoraAmmPoolCreated,
    MeteoraAmmSetPoolFees,
}

/// An event whose kind was identified but whose body this crate does not
/// decode: the kind, the metadata and the body bytes as they came.
#[derive(Clone, Debug, PartialEq, Eq)]
pub struct UndecodedEvent {
    pub kind: EventKind,
    pub metadata: EventMetadata,
    pub data: Vec<u8>,
}

/// The pump-fees program's `UpdateAdmin` event: the admin key changed.
#[derive(Clone, Copy, Debug, PartialEq, Eq)]
pub struct PumpFeesUpdateAdminEvent {
    pub metadata: EventMetadata,
    pub timestamp: i64,
    pub old_admin: Pubkey,
    pub new_admin: Pubkey,
}

#[derive(Clone, Copy, Debug, PartialEq, Eq)]
pub struct RaydiumClmmSwapEvent {
    pub metadata: EventMetadata,
    pub pool_state: Pubkey,
    pub sender: Pubkey,
    pub token_account_0: Pubkey,
    pub token_account_1: Pubkey,
    pub amount_0: u64,
    pub transfer_fee_0: u64,
    pub amount_1: u64,
    pub transfer_fee_1: u64,
    pub zero_for_one: bool,
    pub sqrt_price_x64: u128,
    pub liquidity: u128,
    pub tick: i32,
}

#[derive(Clone, Copy, Debug, PartialEq, Eq)]
pub struct RaydiumClmmIncreaseLiquidityEvent {
    pub metadata: EventMetadata,
    pub position_nft_mint: Pubkey,
    pub liquidity: u128,
    pub amount_0: u64,
    pub amount_1: u64,
    pub amount_0_transfer_fee: u64,
    pub amount_1_transfer_fee: u64,
    pub pool: Pubkey,
    pub user: Pubkey,
    pub amount0_max: u64,
    pub amount1_max: u64,
}

#[derive(Clone, Copy, Debug, PartialEq, Eq)]
pub struct RaydiumClmmDecreaseLiquidityEvent {
    pub metadata: EventMetadata,
    pub position_nft_mint: Pubkey,
    pub liquidity: u128,
    pub decrease_amount_0: u64,
    pub decrease_amount_1: u64,
    pub fee_amount_0: u64,
    pub fee_amount_1: u64,
    pub reward_amounts: [u64; 3],
    pub transfer_fee_0: u64,
    pub transfer_fee_1: u64,
    pub pool: Pubkey,
    pub user: Pubkey,
    pub amount0_min: u64,
    pub amount1_min: u64,
}

#[derive(Clone, Copy, Debug, PartialEq, Eq)]
pub struct RaydiumClmmLiquidityChangeEvent {
    pub metadata: EventMetadata,
    pub pool_state: Pubkey,
    pub tick: i32,
    pub tick_lower: i32,
    pub tick_upper: i32,
    pub liquidity_before: u128,
    pub liquidity_after: u128,
}

#[derive(Clone, Copy, Debug, PartialEq, Eq)]
pub struct RaydiumClmmConfigChangeEvent {
    pub metadata: EventMetadata,
    pub index: u16,
    pub owner: Pubkey,
    pub protocol_fee_rate: u32,
    pub trade_fee_rate: u32,
    pub tick_spacing: u16,
    pub fund_fee_rate: u32,
    pub fund_owner: Pubkey,
}

#[derive(Clone, Copy, Debug, PartialEq, Eq)]
pub struct RaydiumClmmCreatePersonalPositionEvent {
    pub metadata: EventMetadata,
    pub pool_state: Pubkey,
    pub minter: Pubkey,
    pub nft_owner: Pubkey,
    pub tick_lower_index: i32,
    pub tick_upper_index: i32,
    pub liquidity: u128,
    pub deposit_amount_0: u64,
    pub deposit_amount_1: u64,
    pub deposit_amount_0_transfer_fee: u64,
    pub deposit_amount_1_transfer_fee: u64,
}

#[derive(Clone, Copy, Debug, PartialEq, Eq)]
pub struct RaydiumClmmLiquidityCalculateEvent {
    pub metadata: EventMetadata,
    pub pool_liquidity: u128,
    pub pool_sqrt_price_x64: u128,
    pub pool_tick: i32,
    pub calc_amount_0: u64,
    pub calc_amount_1: u64,
    pub trade_fee_owed_0: u64,
    pub trade_fee_owed_1: u64,
    pub transfer_fee_0: u64,
    pub transfer_fee_1: u64,
}

#[derive(Clone, Copy, Debug, PartialEq, Eq)]
pub struct RaydiumClmmOpenLimitOrderEvent {
    pub metadata: EventMetadata,
    pub pool_id: Pubkey,
    pub limit_order: Pubkey,
    pub zero_for_one: bool,
    pub tick_index: i32,
    pub total_amount: u64,
    pub transfer_fee: u64,
}

#[derive(Clone, Copy, Debug, PartialEq, Eq)]
pub struct RaydiumClmmIncreaseLimitOrderEvent {
    pub metadata: EventMetadata,
    pub pool_id: Pubkey,
    pub limit_order: Pubkey,
    pub zero_for_one: bool,
    pub tick_index: i32,
    pub total_amount: u64,
    pub increased_amount: u64,
    pub transfer_fee: u64,
}

#[derive(Clone, Copy, Debug, PartialEq, Eq)]
pub struct RaydiumClmmDecreaseLimitOrderEvent {
    pub metadata: EventMetadata,
    pub pool_id: Pubkey,
    pub limit_order: Pubkey,
    pub zero_for_one: bool,
    pub tick_index: i32,
    pub total_amount: u64,
    pub filled_amount: u64,
    pub settled_output_amount: u64,
    pub decreased_amount: u64,
}

#[derive(Clone, Copy, Debug, PartialEq, Eq)]
pub struct RaydiumClmmSettleLimitOrderEvent {
    pub metadata: EventMetadata,
    pub pool_id: Pubkey,
    pub limit_order: Pubkey,
    pub zero_for_one: bool,
    pub tick_index: i32,
    pub total_amount: u64,
    pub filled_amount: u64,
    pub settled_amount_out: u64,
}

#[derive(Clone, Copy, Debug, PartialEq, Eq)]
pub struct RaydiumClmmUpdateRewardInfosEvent {
    pub metadata: EventMetadata,
    pub reward_growth_global_x64: [u128; 3],
}

#[derive(Clone, Copy, Debug, PartialEq, Eq)]
pub struct RaydiumClmmCreatePoolEvent {
    pub metadata: EventMetadata,
    pub pool: Pubkey,
    pub token_0_mint: Pubkey,
    pub token_1_mint: Pubkey,
    pub tick_spacing: u16,
    pub sqrt_price_x64: u128,
    pub tick: i32,
    pub token_vault_0: Pubkey,
    pub token_vault_1: Pubkey,
    pub fee_rate: u32,
    pub creator: Pubkey,
    pub open_time: u64,
}

/// Both collect-fee events (personal and protocol) share this shape; the
/// key that an event does not carry is left all-zero.
#[derive(Clone, Copy, Debug, PartialEq, Eq)]
pub struct RaydiumClmmCollectFeeEvent {
    pub metadata: EventMetadata,
    pub pool_state: Pubkey,
    pub position_nft_mint: Pubkey,
    pub recipient_token_account_0: Pubkey,
    pub recipient_token_account_1: Pubkey,
    pub amount_0: u64,
    pub amount_1: u64,
}

/// Raydium CLMM `AmmConfig` account body.
#[derive(Clone, Copy, Debug, PartialEq, Eq)]
pub struct RaydiumClmmAmmConfig {
    pub bump: u8,
    pub index: u16,
    pub owner: Pubkey,
    pub protocol_fee_rate: u32,
    pub trade_fee_rate: u32,
    pub tick_spacing: u16,
    pub fund_fee_rate: u32,
    pub padding_u32: u32,
    pub fund_owner: Pubkey,
    pub padding: [u64; 3],
}

#[derive(Clone, Copy, Debug, PartialEq, Eq)]
pub struct RaydiumClmmRewardInfo {
    pub reward_state: u8,
    pub open_time: u64,
    pub end_time: u64,
    pub last_update_time: u64,
    pub emissions_per_second_x64: u128,
    pub reward_total_emitted: u64,
    pub reward_claimed: u64,
    pub token_mint: Pubkey,
    pub token_vault: Pubkey,
    pub authority: Pubkey,
    pub reward_growth_global_x64: u128,
}

#[derive(Clone, Copy, Debug, PartialEq, Eq)]
pub struct RaydiumClmmDynamicFeeInfo {
    pub filter_period: u16,
    pub decay_period: u16,
    pub reduction_factor: u16,
    pub dynamic_fee_control: u32,
    pub max_volatility_accumulator: u32,
    pub tick_spacing_index_reference: i32,
    pub volatility_reference: u32,
    pub volatility_accumulator: u32,
    pub last_update_timestamp: u64,
    pub padding: [u8; 46],
}

/// Raydium CLMM `PoolState` account body.
#[derive(Clone, Copy, Debug, PartialEq, Eq)]
pub struct RaydiumClmmPoolState {
    pub bump: [u8; 1],
    pub amm_config: Pubkey,
    pub owner: Pubkey,
    pub token_mint_0: Pubkey,
    pub token_mint_1: Pubkey,
    pub token_vault_0: Pubkey,
    pub token_vault_1: Pubkey,
    pub observation_key: Pubkey,
    pub mint_decimals_0: u8,
    pub mint_decimals_1: u8,
    pub tick_spacing: u16,
    pub liquidity: u128,
    pub sqrt_price_x64: u128,
    pub tick_current: i32,
    pub padding3: u16,
    pub padding4: u16,
    pub fee_growth_global_0_x64: u128,
    pub fee_growth_global_1_x64: u128,
    pub protocol_fees_token_0: u64,
    pub protocol_fees_token_1: u64,
    pub padding5: [u128; 4],
    pub status: u8,
    pub fee_on: u8,
    pub padding: [u8; 6],
    pub reward_infos: [RaydiumClmmRewardInfo; 3],
    pub tick_array_bitmap: [u64; 16],
    pub padding6: [u64; 4],
    pub fund_fees_token_0: u64,
    pub fund_fees_token_1: u64,
    pub open_time: u64,
    pub recent_epoch: u64,
    pub dynamic_fee_info: RaydiumClmmDynamicFeeInfo,
    pub padding1: [u64; 14],
    pub padding2: [u64; 32],
}

/// One tick of a Raydium CLMM tick array.
#[derive(Clone, Copy, Debug, PartialEq, Eq)]
pub struct Tick {
    pub tick: i32,
    pub liquidity_net: i128,
    pub liquidity_gross: u128,
    pub fee_growth_outside_0_x64: u128,
    pub fee_growth_outside_1_x64: u128,
    pub reward_growths_outside_x64: [u128; 3],
    pub order_phase: u64,
    pub orders_amount: u64,
    pub part_filled_orders_remaining: u64,
    pub unfilled_ratio_x64: u128,
    pub padding: [u32; 3],
}

/// Raydium CLMM `TickArrayState` account body.
#[derive(Clone, Debug, PartialEq, Eq)]
pub struct RaydiumClmmTickArrayState {
    pub pool_id: Pubkey,
    pub start_tick_index: i32,
    pub ticks: Vec<Tick>,
    pub initialized_tick_count: u8,
    pub recent_epoch: u64,
    pub padding: [u8; 107],
}

#[derive(Clone, Copy, Debug, PartialEq, Eq)]
pub struct RaydiumClmmAmmConfigAccountEvent {
    pub metadata: EventMetadata,
    pub pubkey: Pubkey,
    pub amm_config: RaydiumClmmAmmConfig,
}

#[derive(Clone, Copy, Debug, PartialEq, Eq)]
pub struct RaydiumClmmPoolStateAccountEvent {
    pub metadata: EventMetadata,
    pub pubkey: Pubkey,
    pub pool_state: RaydiumClmmPoolState,
}

#[derive(Clone, Debug, PartialEq, Eq)]
pub struct RaydiumClmmTickArrayStateAccountEvent {
    pub metadata: EventMetadata,
    pub pubkey: Pubkey,
    pub tick_array_state: RaydiumClmmTickArrayState,
}

/// A decoded event.
#[derive(Clone, Debug, PartialEq, Eq)]
pub enum DexEvent {
    RaydiumClmmSwap(RaydiumClmmSwapEvent),
    RaydiumClmmIncreaseLiquidity(RaydiumClmmIncreaseLiquidityEvent),
    RaydiumClmmDecreaseLiquidity(RaydiumClmmDecreaseLiquidityEvent),
    RaydiumClmmLiquidityChange(RaydiumClmmLiquidityChangeEvent),
    RaydiumClmmConfigChange(RaydiumClmmConfigChangeEvent),
    RaydiumClmmCreatePersonalPosition(RaydiumClmmCreatePersonalPositionEvent),
    RaydiumClmmLiquidityCalculate(RaydiumClmmLiquidityCalculateEvent),
    RaydiumClmmOpenLimitOrder(RaydiumClmmOpenLimitOrderEvent),
    RaydiumClmmIncreaseLimitOrder(RaydiumClmmIncreaseLimitOrderEvent),
    RaydiumClmmDecreaseLimitOrder(RaydiumClmmDecreaseLimitOrderEvent),
    RaydiumClmmSettleLimitOrder(RaydiumClmmSettleLimitOrderEvent),
    RaydiumClmmUpdateRewardInfos(RaydiumClmmUpdateRewardInfosEvent),
    RaydiumClmmCreatePool(RaydiumClmmCreatePoolEvent),
    RaydiumClmmCollectFee(RaydiumClmmCollectFeeEvent),
    RaydiumClmmAmmConfigAccount(RaydiumClmmAmmConfigAccountEvent),
    RaydiumClmmPoolStateAccount(RaydiumClmmPoolStateAccountEvent),
    RaydiumClmmTickArrayStateAccount(RaydiumClmmTickArrayStateAccountEvent),
    PumpFeesUpdateAdmin(PumpFeesUpdateAdminEvent),
    Undecoded(UndecodedEvent),
}

/// Two tick-array bodies hold the same values (their tick lists compared as
/// sequences).
pub open spec fn same_tick_array(a: RaydiumClmmTickArrayState, b: RaydiumClmmTickArrayState) -> bool {
    &&& a.pool_id == b.pool_id
    &&& a.start_tick_index == b.start_tick_index
    &&& a.ticks@ == b.ticks@
    &&& a.initialized_tick_count == b.initialized_tick_count
    &&& a.recent_epoch == b.recent_epoch
    &&& a.padding == b.padding
}

/// Two events hold the same values: byte and tick lists are compared as
/// sequences, every other field as a value.
pub open spec fn same_event(a: DexEvent, b: DexEvent) -> bool {
    match a {
        DexEvent::Undecoded(x) => b matches DexEvent::Undecoded(y) && x.kind == y.kind
            && x.metadata == y.metadata && x.data@ == y.data@,
        DexEvent::RaydiumClmmTickArrayStateAccount(x) => b matches DexEvent::RaydiumClmmTickArrayStateAccount(y)
            && x.metadata == y.metadata && x.pubkey == y.pubkey
            && same_tick_array(x.tick_array_state, y.tick_array_state),
        _ => a == b,
    }
}

/// Two decoding results agree: both nothing, or the same event.
pub open spec fn same_result(a: Option<DexEvent>, b: Option<DexEvent>) -> bool {
    match a {
        Some(x) => b matches Some(y) && same_event(x, y),
        None => b is None,
    }
}

} // verus!
