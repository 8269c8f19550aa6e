//! Wire shapes of the upstream analytics API: every metric arrives as a
//! decimal string, and each response is an envelope holding one ordered page
//! of intervals. These types carry the payload exactly as received; the
//! resource modules normalize them into typed records.

use vstd::prelude::*;

verus! {

/// One record of a paginated response: exposes the `end_time` field that
/// drives the sync cursor.
pub trait WireInterval {
    /// The characters of the record's `end_time` wire field.
    spec fn end_time_text(&self) -> Seq<char>;

    /// The record's `end_time` wire field.
    fn end_time_str(&self) -> (r: &str)
        ensures
            r@ == self.end_time_text(),
    ;
}

/// One price/depth interval as received off the wire.
#[derive(Debug, Clone, PartialEq, Eq)]
pub struct PriceDepthInterval {
    pub asset_depth: String,
    pub asset_price: String,
    pub asset_price_usd: String,
    pub end_time: String,
    pub liquidity_units: String,
    pub luvi: String,
    pub members_count: String,
    pub rune_depth: String,
    pub start_time: String,
    pub synth_supply: String,
    pub synth_units: String,
    pub units: String,
}

impl WireInterval for PriceDepthInterval {
    open spec fn end_time_text(&self) -> Seq<char> {
        self.end_time@
    }

    fn end_time_str(&self) -> (r: &str) {
        self.end_time.as_str()
    }
}

/// The envelope of one price/depth page.
#[derive(Debug, Clone, PartialEq, Eq)]
pub struct DepthPriceHistoryResponse {
    pub intervals: Vec<PriceDepthInterval>,
}

/// Per-pool earnings nested inside one earnings interval.
#[derive(Debug, Clone, PartialEq, Eq)]
pub struct Pool {
    pub pool: String,
    pub asset_liquidity_fees: String,
    pub rune_liquidity_fees: String,
    pub total_liquidity_fees_rune: String,
    pub saver_earning: String,
    pub rewards: String,
    pub earnings: String,
}

/// One earnings interval as received off the wire, with its nested ordered
/// list of per-pool entries.
#[derive(Debug, Clone, PartialEq, Eq)]
pub struct EarningInterval {
    pub start_time: String,
    pub end_time: String,
    pub liquidity_fees: String,
    pub block_rewards: String,
    pub earnings: String,
    pub bonding_earnings: String,
    pub liquidity_earnings: String,
    pub avg_node_count: String,
    pub rune_price_usd: String,
    pub pools: Vec<Pool>,
}

impl WireInterval for EarningInterval {
    open spec fn end_time_text(&self) -> Seq<char> {
        self.end_time@
    }

    fn end_time_str(&self) -> (r: &str) {
        self.end_time.as_str()
    }
}

/// The envelope of one earnings page.
#[derive(Debug, Clone, PartialEq, Eq)]
pub struct EarningHistoryResponse {
    pub intervals: Vec<EarningInterval>,
}

/// One swaps interval as received off the wire.
#[derive(Debug, Clone, PartialEq, Eq)]
pub struct SwapInterval {
    pub average_slip: String,
    pub end_time: String,
    pub from_secured_average_slip: String,
    pub from_secured_count: String,
    pub from_secured_fees: String,
    pub from_secured_volume: String,
    pub from_secured_volume_usd: String,
    pub from_trade_average_slip: String,
    pub from_trade_count: String,
    pub from_trade_fees: String,
    pub from_trade_volume: String,
    pub from_trade_volume_usd: String,
    pub rune_price_usd: String,
    pub start_time: String,
    pub synth_mint_average_slip: String,
    pub synth_mint_count: String,
    pub synth_mint_fees: String,
    pub synth_mint_volume: String,
    pub synth_mint_volume_usd: String,
    pub synth_redeem_average_slip: String,
    pub synth_redeem_count: String,
    pub synth_redeem_fees: String,
    pub synth_redeem_volume: String,
    pub synth_redeem_volume_usd: String,
    pub to_asset_average_slip: String,
    pub to_asset_count: String,
    pub to_asset_fees: String,
    pub to_asset_volume: String,
    pub to_asset_volume_usd: String,
    pub to_rune_average_slip: String,
    pub to_rune_count: String,
    pub to_rune_fees: String,
    pub to_rune_volume: String,
    pub to_rune_volume_usd: String,
    pub to_secured_average_slip: String,
    pub to_secured_count: String,
    pub to_secured_fees: String,
    pub to_secured_volume: String,
    pub to_secured_volume_usd: String,
    pub to_trade_average_slip: String,
    pub to_trade_count: String,
    pub to_trade_fees: String,
    pub to_trade_volume: String,
    pub to_trade_volume_usd: String,
    pub total_count: String,
    pub total_fees: String,
    pub total_volume: String,
    pub total_volume_usd: String,
}

impl WireInterval for SwapInterval {
    open spec fn end_time_text(&self) -> Seq<char> {
        self.end_time@
    }

    fn end_time_str(&self) -> (r: &str) {
        self.end_time.as_str()
    }
}

/// The envelope of one swaps page.
#[derive(Debug, Clone, PartialEq, Eq)]
pub struct SwapHistoryResponse {
    pub intervals: Vec<SwapInterval>,
}

/// One rune-pool interval as received off the wire.
#[derive(Debug, Clone, PartialEq, Eq)]
pub struct RunepoolInterval {
    pub count: String,
    pub start_time: String,
    pub end_time: String,
    pub units: String,
}

impl WireInterval for RunepoolInterval {
    open spec fn end_time_text(&self) -> Seq<char> {
        self.end_time@
    }

    fn end_time_str(&self) -> (r: &str) {
        self.end_time.as_str()
    }
}

/// The envelope of one rune-pool page.
#[derive(Debug, Clone, PartialEq, Eq)]
pub struct RunepoolHistoryResponse {
    pub intervals: Vec<RunepoolInterval>,
}

} // verus!
