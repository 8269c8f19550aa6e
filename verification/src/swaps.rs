//! The swaps resource: its typed record, normalizer, retrieval query, and
//! batch encoding.

use vstd::prelude::*;

use crate::numeric::{
    decimal_to_string, decimal_wf, i64_to_string, parse_decimal, parse_decimal_or_zero,
    parse_i64, parse_i64_or_zero, spec_decimal_or_zero, spec_decimal_text, spec_decimal_value,
    spec_i64_or_zero, spec_i64_string, spec_parse_i64, DecimalValue,
};
use crate::persist::{spec_table_name, table_name, CopyRow};
use crate::query::{
    dec_bound, int_bound, lemma_offset_in_range, opt_int_i16, opt_int_i8, parse_order, plan_model,
    push_bind, push_comparison, render_sql, spec_bind_models, spec_comparison, spec_dec_bound,
    spec_int_bound, spec_order_of, spec_pagination, spec_plan_binds, spec_render_sql,
    spec_split_range, spec_trunc_of_label, split_date_range, trunc_of_label, BindModel,
    ColumnName, Filter, Pagination, PlanModel, QueryPlan, QueryValue, SortOrder,
};
use crate::sync::Resource;
use crate::timefmt::{renderable_ts, spec_utc_text, utc_text};
use crate::wire::SwapInterval;

verus! {

/// One typed swaps row, timestamps in epoch seconds.
#[derive(Debug, Clone, PartialEq, Eq)]
pub struct SwapHistory {
    pub id: Option<i32>,
    pub average_slip: DecimalValue,
    pub start_time: i64,
    pub end_time: i64,
    pub from_trade_average_slip: DecimalValue,
    pub from_trade_count: i64,
    pub from_trade_fees: i64,
    pub from_trade_volume: i64,
    pub from_trade_volume_usd: DecimalValue,
    pub rune_price_usd: DecimalValue,
    pub synth_mint_average_slip: DecimalValue,
    pub synth_mint_count: i64,
    pub synth_mint_fees: i64,
    pub synth_mint_volume: i64,
    pub synth_mint_volume_usd: DecimalValue,
    pub synth_redeem_average_slip: DecimalValue,
    pub synth_redeem_count: i64,
    pub synth_redeem_fees: i64,
    pub synth_redeem_volume: i64,
    pub synth_redeem_volume_usd: DecimalValue,
    pub to_asset_average_slip: DecimalValue,
    pub to_asset_count: i64,
    pub to_asset_fees: i64,
    pub to_asset_volume: i64,
    pub to_asset_volume_usd: DecimalValue,
    pub to_rune_average_slip: DecimalValue,
    pub to_rune_count: i64,
    pub to_rune_fees: i64,
    pub to_rune_volume: i64,
    pub to_rune_volume_usd: DecimalValue,
    pub to_trade_average_slip: DecimalValue,
    pub to_trade_count: i64,
    pub to_trade_fees: i64,
    pub to_trade_volume: i64,
    pub to_trade_volume_usd: DecimalValue,
    pub total_count: i64,
    pub total_fees: i64,
    pub total_volume: i64,
    pub total_volume_usd: DecimalValue,
}

/// The record's decimal fields stay within the decimal value model.
pub open spec fn swap_wf(r: SwapHistory) -> bool {
    &&& decimal_wf(r.average_slip)
    &&& decimal_wf(r.from_trade_average_slip)
    &&& decimal_wf(r.from_trade_volume_usd)
    &&& decimal_wf(r.rune_price_usd)
    &&& decimal_wf(r.synth_mint_average_slip)
    &&& decimal_wf(r.synth_mint_volume_usd)
    &&& decimal_wf(r.synth_redeem_average_slip)
    &&& decimal_wf(r.synth_redeem_volume_usd)
    &&& decimal_wf(r.to_asset_average_slip)
    &&& decimal_wf(r.to_asset_volume_usd)
    &&& decimal_wf(r.to_rune_average_slip)
    &&& decimal_wf(r.to_rune_volume_usd)
    &&& decimal_wf(r.to_trade_average_slip)
    &&& decimal_wf(r.to_trade_volume_usd)
    &&& decimal_wf(r.total_volume_usd)
}

/// What the normalizer makes of one wire interval: every numeric-string
/// field parsed, with the zero default substituted for a malformed field.
/// The secured-trade wire fields are accepted but not persisted.
pub open spec fn spec_normalize_swap(w: SwapInterval) -> SwapHistory {
    SwapHistory {
        id: None,
        average_slip: spec_decimal_or_zero(w.average_slip@),
        start_time: spec_i64_or_zero(w.start_time@),
        end_time: spec_i64_or_zero(w.end_time@),
        from_trade_average_slip: spec_decimal_or_zero(w.from_trade_average_slip@),
        from_trade_count: spec_i64_or_zero(w.from_trade_count@),
        from_trade_fees: spec_i64_or_zero(w.from_trade_fees@),
        from_trade_volume: spec_i64_or_zero(w.from_trade_volume@),
        from_trade_volume_usd: spec_decimal_or_zero(w.from_trade_volume_usd@),
        rune_price_usd: spec_decimal_or_zero(w.rune_price_usd@),
        synth_mint_average_slip: spec_decimal_or_zero(w.synth_mint_average_slip@),
        synth_mint_count: spec_i64_or_zero(w.synth_mint_count@),
        synth_mint_fees: spec_i64_or_zero(w.synth_mint_fees@),
        synth_mint_volume: spec_i64_or_zero(w.synth_mint_volume@),
        synth_mint_volume_usd: spec_decimal_or_zero(w.synth_mint_volume_usd@),
        synth_redeem_average_slip: spec_decimal_or_zero(w.synth_redeem_average_slip@),
        synth_redeem_count: spec_i64_or_zero(w.synth_redeem_count@),
        synth_redeem_fees: spec_i64_or_zero(w.synth_redeem_fees@),
        synth_redeem_volume: spec_i64_or_zero(w.synth_redeem_volume@),
        synth_redeem_volume_usd: spec_decimal_or_zero(w.synth_redeem_volume_usd@),
        to_asset_average_slip: spec_decimal_or_zero(w.to_asset_average_slip@),
        to_asset_count: spec_i64_or_zero(w.to_asset_count@),
        to_asset_fees: spec_i64_or_zero(w.to_asset_fees@),
        to_asset_volume: spec_i64_or_zero(w.to_asset_volume@),
        to_asset_volume_usd: spec_decimal_or_zero(w.to_asset_volume_usd@),
        to_rune_average_slip: spec_decimal_or_zero(w.to_rune_average_slip@),
        to_rune_count: spec_i64_or_zero(w.to_rune_count@),
        to_rune_fees: spec_i64_or_zero(w.to_rune_fees@),
        to_rune_volume: spec_i64_or_zero(w.to_rune_volume@),
        to_rune_volume_usd: spec_decimal_or_zero(w.to_rune_volume_usd@),
        to_trade_average_slip: spec_decimal_or_zero(w.to_trade_average_slip@),
        to_trade_count: spec_i64_or_zero(w.to_trade_count@),
        to_trade_fees: spec_i64_or_zero(w.to_trade_fees@),
        to_trade_volume: spec_i64_or_zero(w.to_trade_volume@),
        to_trade_volume_usd: spec_decimal_or_zero(w.to_trade_volume_usd@),
        total_count: spec_i64_or_zero(w.total_count@),
        total_fees: spec_i64_or_zero(w.total_fees@),
        total_volume: spec_i64_or_zero(w.total_volume@),
        total_volume_usd: spec_decimal_or_zero(w.total_volume_usd@),
    }
}

/// Normalizes one wire interval; total, with the zero-default policy per
/// field.
pub fn normalize(w: &SwapInterval) -> (r: SwapHistory)
    ensures
        r == spec_normalize_swap(*w),
        swap_wf(r),
{
    SwapHistory {
        id: None,
        average_slip: parse_decimal_or_zero(w.average_slip.as_str()),
        start_time: parse_i64_or_zero(w.start_time.as_str()),
        end_time: parse_i64_or_zero(w.end_time.as_str()),
        from_trade_average_slip: parse_decimal_or_zero(w.from_trade_average_slip.as_str()),
        from_trade_count: parse_i64_or_zero(w.from_trade_count.as_str()),
        from_trade_fees: parse_i64_or_zero(w.from_trade_fees.as_str()),
        from_trade_volume: parse_i64_or_zero(w.from_trade_volume.as_str()),
        from_trade_volume_usd: parse_decimal_or_zero(w.from_trade_volume_usd.as_str()),
        rune_price_usd: parse_decimal_or_zero(w.rune_price_usd.as_str()),
        synth_mint_average_slip: parse_decimal_or_zero(w.synth_mint_average_slip.as_str()),
        synth_mint_count: parse_i64_or_zero(w.synth_mint_count.as_str()),
        synth_mint_fees: parse_i64_or_zero(w.synth_mint_fees.as_str()),
        synth_mint_volume: parse_i64_or_zero(w.synth_mint_volume.as_str()),
        synth_mint_volume_usd: parse_decimal_or_zero(w.synth_mint_volume_usd.as_str()),
        synth_redeem_average_slip: parse_decimal_or_zero(w.synth_redeem_average_slip.as_str()),
        synth_redeem_count: parse_i64_or_zero(w.synth_redeem_count.as_str()),
        synth_redeem_fees: parse_i64_or_zero(w.synth_redeem_fees.as_str()),
        synth_redeem_volume: parse_i64_or_zero(w.synth_redeem_volume.as_str()),
        synth_redeem_volume_usd: parse_decimal_or_zero(w.synth_redeem_volume_usd.as_str()),
        to_asset_average_slip: parse_decimal_or_zero(w.to_asset_average_slip.as_str()),
        to_asset_count: parse_i64_or_zero(w.to_asset_count.as_str()),
        to_asset_fees: parse_i64_or_zero(w.to_asset_fees.as_str()),
        to_asset_volume: parse_i64_or_zero(w.to_asset_volume.as_str()),
        to_asset_volume_usd: parse_decimal_or_zero(w.to_asset_volume_usd.as_str()),
        to_rune_average_slip: parse_decimal_or_zero(w.to_rune_average_slip.as_str()),
        to_rune_count: parse_i64_or_zero(w.to_rune_count.as_str()),
        to_rune_fees: parse_i64_or_zero(w.to_rune_fees.as_str()),
        to_rune_volume: parse_i64_or_zero(w.to_rune_volume.as_str()),
        to_rune_volume_usd: parse_decimal_or_zero(w.to_rune_volume_usd.as_str()),
        to_trade_average_slip: parse_decimal_or_zero(w.to_trade_average_slip.as_str()),
        to_trade_count: parse_i64_or_zero(w.to_trade_count.as_str()),
        to_trade_fees: parse_i64_or_zero(w.to_trade_fees.as_str()),
        to_trade_volume: parse_i64_or_zero(w.to_trade_volume.as_str()),
        to_trade_volume_usd: parse_decimal_or_zero(w.to_trade_volume_usd.as_str()),
        total_count: parse_i64_or_zero(w.total_count.as_str()),
        total_fees: parse_i64_or_zero(w.total_fees.as_str()),
        total_volume: parse_i64_or_zero(w.total_volume.as_str()),
        total_volume_usd: parse_decimal_or_zero(w.total_volume_usd.as_str()),
    }
}

/// The malformed-field count of one group of wire fields.
pub open spec fn spec_defaulted_seg1(w: SwapInterval) -> int {
    (if spec_decimal_value(w.average_slip@) is None { 1int } else { 0int })
        + (if spec_parse_i64(w.start_time@) is None { 1int } else { 0int })
        + (if spec_parse_i64(w.end_time@) is None { 1int } else { 0int })
        + (if spec_decimal_value(w.from_trade_average_slip@) is None { 1int } else { 0int })
        + (if spec_parse_i64(w.from_trade_count@) is None { 1int } else { 0int })
        + (if spec_parse_i64(w.from_trade_fees@) is None { 1int } else { 0int })
        + (if spec_parse_i64(w.from_trade_volume@) is None { 1int } else { 0int })
        + (if spec_decimal_value(w.from_trade_volume_usd@) is None { 1int } else { 0int })
        + (if spec_decimal_value(w.rune_price_usd@) is None { 1int } else { 0int })
        + (if spec_decimal_value(w.synth_mint_average_slip@) is None { 1int } else { 0int })
}

/// Counts the malformed fields of one group.
#[verifier::rlimit(60)]
fn defaulted_seg1(w: &SwapInterval) -> (n: u64)
    ensures
        n == spec_defaulted_seg1(*w),
        n <= 10,
{
    let mut n: u64 = 0;
    if parse_decimal(w.average_slip.as_str()).is_none() {
        n = n + 1;
    }
    if parse_i64(w.start_time.as_str()).is_none() {
        n = n + 1;
    }
    if parse_i64(w.end_time.as_str()).is_none() {
        n = n + 1;
    }
    if parse_decimal(w.from_trade_average_slip.as_str()).is_none() {
        n = n + 1;
    }
    if parse_i64(w.from_trade_count.as_str()).is_none() {
        n = n + 1;
    }
    if parse_i64(w.from_trade_fees.as_str()).is_none() {
        n = n + 1;
    }
    if parse_i64(w.from_trade_volume.as_str()).is_none() {
        n = n + 1;
    }
    if parse_decimal(w.from_trade_volume_usd.as_str()).is_none() {
        n = n + 1;
    }
    if parse_decimal(w.rune_price_usd.as_str()).is_none() {
        n = n + 1;
    }
    if parse_decimal(w.synth_mint_average_slip.as_str()).is_none() {
        n = n + 1;
    }
    n
}

/// The malformed-field count of one group of wire fields.
pub open spec fn spec_defaulted_seg2(w: SwapInterval) -> int {
    (if spec_parse_i64(w.synth_mint_count@) is None { 1int } else { 0int })
        + (if spec_parse_i64(w.synth_mint_fees@) is None { 1int } else { 0int })
        + (if spec_parse_i64(w.synth_mint_volume@) is None { 1int } else { 0int })
        + (if spec_decimal_value(w.synth_mint_volume_usd@) is None { 1int } else { 0int })
        + (if spec_decimal_value(w.synth_redeem_average_slip@) is None { 1int } else { 0int })
        + (if spec_parse_i64(w.synth_redeem_count@) is None { 1int } else { 0int })
        + (if spec_parse_i64(w.synth_redeem_fees@) is None { 1int } else { 0int })
        + (if spec_parse_i64(w.synth_redeem_volume@) is None { 1int } else { 0int })
        + (if spec_decimal_value(w.synth_redeem_volume_usd@) is None { 1int } else { 0int })
        + (if spec_decimal_value(w.to_asset_average_slip@) is None { 1int } else { 0int })
}

/// Counts the malformed fields of one group.
#[verifier::rlimit(60)]
fn defaulted_seg2(w: &SwapInterval) -> (n: u64)
    ensures
        n == spec_defaulted_seg2(*w),
        n <= 10,
{
    let mut n: u64 = 0;
    if parse_i64(w.synth_mint_count.as_str()).is_none() {
        n = n + 1;
    }
    if parse_i64(w.synth_mint_fees.as_str()).is_none() {
        n = n + 1;
    }
    if parse_i64(w.synth_mint_volume.as_str()).is_none() {
        n = n + 1;
    }
    if parse_decimal(w.synth_mint_volume_usd.as_str()).is_none() {
        n = n + 1;
    }
    if parse_decimal(w.synth_redeem_average_slip.as_str()).is_none() {
        n = n + 1;
    }
    if parse_i64(w.synth_redeem_count.as_str()).is_none() {
        n = n + 1;
    }
    if parse_i64(w.synth_redeem_fees.as_str()).is_none() {
        n = n + 1;
    }
    if parse_i64(w.synth_redeem_volume.as_str()).is_none() {
        n = n + 1;
    }
    if parse_decimal(w.synth_redeem_volume_usd.as_str()).is_none() {
        n = n + 1;
    }
    if parse_decimal(w.to_asset_average_slip.as_str()).is_none() {
        n = n + 1;
    }
    n
}

/// The malformed-field count of one group of wire fields.
pub open spec fn spec_defaulted_seg3(w: SwapInterval) -> int {
    (if spec_parse_i64(w.to_asset_count@) is None { 1int } else { 0int })
        + (if spec_parse_i64(w.to_asset_fees@) is None { 1int } else { 0int })
        + (if spec_parse_i64(w.to_asset_volume@) is None { 1int } else { 0int })
        + (if spec_decimal_value(w.to_asset_volume_usd@) is None { 1int } else { 0int })
        + (if spec_decimal_value(w.to_rune_average_slip@) is None { 1int } else { 0int })
        + (if spec_parse_i64(w.to_rune_count@) is None { 1int } else { 0int })
        + (if spec_parse_i64(w.to_rune_fees@) is None { 1int } else { 0int })
        + (if spec_parse_i64(w.to_rune_volume@) is None { 1int } else { 0int })
        + (if spec_decimal_value(w.to_rune_volume_usd@) is None { 1int } else { 0int })
        + (if spec_decimal_value(w.to_trade_average_slip@) is None { 1int } else { 0int })
}

/// Counts the malformed fields of one group.
#[verifier::rlimit(60)]
fn defaulted_seg3(w: &SwapInterval) -> (n: u64)
    ensures
        n == spec_defaulted_seg3(*w),
        n <= 10,
{
    let mut n: u64 = 0;
    if parse_i64(w.to_asset_count.as_str()).is_none() {
        n = n + 1;
    }
    if parse_i64(w.to_asset_fees.as_str()).is_none() {
        n = n + 1;
    }
    if parse_i64(w.to_asset_volume.as_str()).is_none() {
        n = n + 1;
    }
    if parse_decimal(w.to_asset_volume_usd.as_str()).is_none() {
        n = n + 1;
    }
    if parse_decimal(w.to_rune_average_slip.as_str()).is_none() {
        n = n + 1;
    }
    if parse_i64(w.to_rune_count.as_str()).is_none() {
        n = n + 1;
    }
    if parse_i64(w.to_rune_fees.as_str()).is_none() {
        n = n + 1;
    }
    if parse_i64(w.to_rune_volume.as_str()).is_none() {
        n = n + 1;
    }
    if parse_decimal(w.to_rune_volume_usd.as_str()).is_none() {
        n = n + 1;
    }
    if parse_decimal(w.to_trade_average_slip.as_str()).is_none() {
        n = n + 1;
    }
    n
}

/// The malformed-field count of one group of wire fields.
pub open spec fn spec_defaulted_seg4(w: SwapInterval) -> int {
    (if spec_parse_i64(w.to_trade_count@) is None { 1int } else { 0int })
        + (if spec_parse_i64(w.to_trade_fees@) is None { 1int } else { 0int })
        + (if spec_parse_i64(w.to_trade_volume@) is None { 1int } else { 0int })
        + (if spec_decimal_value(w.to_trade_volume_usd@) is None { 1int } else { 0int })
        + (if spec_parse_i64(w.total_count@) is None { 1int } else { 0int })
        + (if spec_parse_i64(w.total_fees@) is None { 1int } else { 0int })
        + (if spec_parse_i64(w.total_volume@) is None { 1int } else { 0int })
        + (if spec_decimal_value(w.total_volume_usd@) is None { 1int } else { 0int })
}

/// Counts the malformed fields of one group.
#[verifier::rlimit(60)]
fn defaulted_seg4(w: &SwapInterval) -> (n: u64)
    ensures
        n == spec_defaulted_seg4(*w),
        n <= 10,
{
    let mut n: u64 = 0;
    if parse_i64(w.to_trade_count.as_str()).is_none() {
        n = n + 1;
    }
    if parse_i64(w.to_trade_fees.as_str()).is_none() {
        n = n + 1;
    }
    if parse_i64(w.to_trade_volume.as_str()).is_none() {
        n = n + 1;
    }
    if parse_decimal(w.to_trade_volume_usd.as_str()).is_none() {
        n = n + 1;
    }
    if parse_i64(w.total_count.as_str()).is_none() {
        n = n + 1;
    }
    if parse_i64(w.total_fees.as_str()).is_none() {
        n = n + 1;
    }
    if parse_i64(w.total_volume.as_str()).is_none() {
        n = n + 1;
    }
    if parse_decimal(w.total_volume_usd.as_str()).is_none() {
        n = n + 1;
    }
    n
}

/// How many of the record's numeric-string fields are malformed (and so
/// would be defaulted to zero): the normalizer's lossy tolerance, made
/// observable so callers can warn. The secured-trade wire fields are not
/// persisted and are not counted.
pub open spec fn spec_defaulted_fields(w: SwapInterval) -> int {
    spec_defaulted_seg1(w) + spec_defaulted_seg2(w) + spec_defaulted_seg3(w)
        + spec_defaulted_seg4(w)
}

/// Counts the fields the normalizer would default for this record.
pub fn defaulted_fields(w: &SwapInterval) -> (n: u64)
    ensures
        n == spec_defaulted_fields(*w),
{
    defaulted_seg1(w) + defaulted_seg2(w) + defaulted_seg3(w) + defaulted_seg4(w)
}

/// Normalizes a fetched page in order.
pub fn normalize_page(page: &Vec<SwapInterval>) -> (r: Vec<SwapHistory>)
    ensures
        r@.len() == page@.len(),
        forall|i: int| 0 <= i < page@.len() ==> r@[i] == spec_normalize_swap(
            #[trigger] page@[i],
        ),
{
    let mut r: Vec<SwapHistory> = Vec::new();
    let n = page.len();
    let mut i: usize = 0;
    while i < n
        invariant
            i <= n == page@.len(),
            r@.len() == i,
            forall|j: int| 0 <= j < i ==> r@[j] == spec_normalize_swap(#[trigger] page@[j]),
        decreases n - i,
    {
        let rec = normalize(&page[i]);
        r.push(rec);
        i = i + 1;
    }
    r
}

impl SwapHistory {
    /// A well-formed interval ends strictly after it starts; a violation is
    /// an upstream data error to surface, not coerce.
    pub fn time_ordered(&self) -> (b: bool)
        ensures
            b == (self.start_time < self.end_time),
    {
        self.start_time < self.end_time
    }
}

/// The queryable columns of the swaps table.
#[derive(Debug, Clone, Copy, PartialEq, Eq, Structural)]
pub enum SwapColumn {
    AverageSlip,
    StartTime,
    EndTime,
    FromTradeAverageSlip,
    FromTradeCount,
    FromTradeFees,
    FromTradeVolume,
    FromTradeVolumeUsd,
    RunePriceUsd,
    SynthMintAverageSlip,
    SynthMintCount,
    SynthMintFees,
    SynthMintVolume,
    SynthMintVolumeUsd,
    SynthRedeemAverageSlip,
    SynthRedeemCount,
    SynthRedeemFees,
    SynthRedeemVolume,
    SynthRedeemVolumeUsd,
    ToAssetAverageSlip,
    ToAssetCount,
    ToAssetFees,
    ToAssetVolume,
    ToAssetVolumeUsd,
    ToRuneAverageSlip,
    ToRuneCount,
    ToRuneFees,
    ToRuneVolume,
    ToRuneVolumeUsd,
    ToTradeAverageSlip,
    ToTradeCount,
    ToTradeFees,
    ToTradeVolume,
    ToTradeVolumeUsd,
    TotalCount,
    TotalFees,
    TotalVolume,
    TotalVolumeUsd,
}

impl ColumnName for SwapColumn {
    open spec fn spec_sql_name(self) -> Seq<char> {
        match self {
            SwapColumn::AverageSlip => "average_slip"@,
            SwapColumn::StartTime => "start_time"@,
            SwapColumn::EndTime => "end_time"@,
            SwapColumn::FromTradeAverageSlip => "from_trade_average_slip"@,
            SwapColumn::FromTradeCount => "from_trade_count"@,
            SwapColumn::FromTradeFees => "from_trade_fees"@,
            SwapColumn::FromTradeVolume => "from_trade_volume"@,
            SwapColumn::FromTradeVolumeUsd => "from_trade_volume_usd"@,
            SwapColumn::RunePriceUsd => "rune_price_usd"@,
            SwapColumn::SynthMintAverageSlip => "synth_mint_average_slip"@,
            SwapColumn::SynthMintCount => "synth_mint_count"@,
            SwapColumn::SynthMintFees => "synth_mint_fees"@,
            SwapColumn::SynthMintVolume => "synth_mint_volume"@,
            SwapColumn::SynthMintVolumeUsd => "synth_mint_volume_usd"@,
            SwapColumn::SynthRedeemAverageSlip => "synth_redeem_average_slip"@,
            SwapColumn::SynthRedeemCount => "synth_redeem_count"@,
            SwapColumn::SynthRedeemFees => "synth_redeem_fees"@,
            SwapColumn::SynthRedeemVolume => "synth_redeem_volume"@,
            SwapColumn::SynthRedeemVolumeUsd => "synth_redeem_volume_usd"@,
            SwapColumn::ToAssetAverageSlip => "to_asset_average_slip"@,
            SwapColumn::ToAssetCount => "to_asset_count"@,
            SwapColumn::ToAssetFees => "to_asset_fees"@,
            SwapColumn::ToAssetVolume => "to_asset_volume"@,
            SwapColumn::ToAssetVolumeUsd => "to_asset_volume_usd"@,
            SwapColumn::ToRuneAverageSlip => "to_rune_average_slip"@,
            SwapColumn::ToRuneCount => "to_rune_count"@,
            SwapColumn::ToRuneFees => "to_rune_fees"@,
            SwapColumn::ToRuneVolume => "to_rune_volume"@,
            SwapColumn::ToRuneVolumeUsd => "to_rune_volume_usd"@,
            SwapColumn::ToTradeAverageSlip => "to_trade_average_slip"@,
            SwapColumn::ToTradeCount => "to_trade_count"@,
            SwapColumn::ToTradeFees => "to_trade_fees"@,
            SwapColumn::ToTradeVolume => "to_trade_volume"@,
            SwapColumn::ToTradeVolumeUsd => "to_trade_volume_usd"@,
            SwapColumn::TotalCount => "total_count"@,
            SwapColumn::TotalFees => "total_fees"@,
            SwapColumn::TotalVolume => "total_volume"@,
            SwapColumn::TotalVolumeUsd => "total_volume_usd"@,
        }
    }

    fn sql_name(self) -> (r: &'static str) {
        match self {
            SwapColumn::AverageSlip => "average_slip",
            SwapColumn::StartTime => "start_time",
            SwapColumn::EndTime => "end_time",
            SwapColumn::FromTradeAverageSlip => "from_trade_average_slip",
            SwapColumn::FromTradeCount => "from_trade_count",
            SwapColumn::FromTradeFees => "from_trade_fees",
            SwapColumn::FromTradeVolume => "from_trade_volume",
            SwapColumn::FromTradeVolumeUsd => "from_trade_volume_usd",
            SwapColumn::RunePriceUsd => "rune_price_usd",
            SwapColumn::SynthMintAverageSlip => "synth_mint_average_slip",
            SwapColumn::SynthMintCount => "synth_mint_count",
            SwapColumn::SynthMintFees => "synth_mint_fees",
            SwapColumn::SynthMintVolume => "synth_mint_volume",
            SwapColumn::SynthMintVolumeUsd => "synth_mint_volume_usd",
            SwapColumn::SynthRedeemAverageSlip => "synth_redeem_average_slip",
            SwapColumn::SynthRedeemCount => "synth_redeem_count",
            SwapColumn::SynthRedeemFees => "synth_redeem_fees",
            SwapColumn::SynthRedeemVolume => "synth_redeem_volume",
            SwapColumn::SynthRedeemVolumeUsd => "synth_redeem_volume_usd",
            SwapColumn::ToAssetAverageSlip => "to_asset_average_slip",
            SwapColumn::ToAssetCount => "to_asset_count",
            SwapColumn::ToAssetFees => "to_asset_fees",
            SwapColumn::ToAssetVolume => "to_asset_volume",
            SwapColumn::ToAssetVolumeUsd => "to_asset_volume_usd",
            SwapColumn::ToRuneAverageSlip => "to_rune_average_slip",
            SwapColumn::ToRuneCount => "to_rune_count",
            SwapColumn::ToRuneFees => "to_rune_fees",
            SwapColumn::ToRuneVolume => "to_rune_volume",
            SwapColumn::ToRuneVolumeUsd => "to_rune_volume_usd",
            SwapColumn::ToTradeAverageSlip => "to_trade_average_slip",
            SwapColumn::ToTradeCount => "to_trade_count",
            SwapColumn::ToTradeFees => "to_trade_fees",
            SwapColumn::ToTradeVolume => "to_trade_volume",
            SwapColumn::ToTradeVolumeUsd => "to_trade_volume_usd",
            SwapColumn::TotalCount => "total_count",
            SwapColumn::TotalFees => "total_fees",
            SwapColumn::TotalVolume => "total_volume",
            SwapColumn::TotalVolumeUsd => "total_volume_usd",
        }
    }
}

/// The column a sort request names, if it is one of the table's columns.
pub open spec fn spec_parse_column(l: Seq<char>) -> Option<SwapColumn> {
    if l == "average_slip"@ {
        Some(SwapColumn::AverageSlip)
    } else if l == "start_time"@ {
        Some(SwapColumn::StartTime)
    } else if l == "end_time"@ {
        Some(SwapColumn::EndTime)
    } else if l == "from_trade_average_slip"@ {
        Some(SwapColumn::FromTradeAverageSlip)
    } else if l == "from_trade_count"@ {
        Some(SwapColumn::FromTradeCount)
    } else if l == "from_trade_fees"@ {
        Some(SwapColumn::FromTradeFees)
    } else if l == "from_trade_volume"@ {
        Some(SwapColumn::FromTradeVolume)
    } else if l == "from_trade_volume_usd"@ {
        Some(SwapColumn::FromTradeVolumeUsd)
    } else if l == "rune_price_usd"@ {
        Some(SwapColumn::RunePriceUsd)
    } else if l == "synth_mint_average_slip"@ {
        Some(SwapColumn::SynthMintAverageSlip)
    } else if l == "synth_mint_count"@ {
        Some(SwapColumn::SynthMintCount)
    } else if l == "synth_mint_fees"@ {
        Some(SwapColumn::SynthMintFees)
    } else if l == "synth_mint_volume"@ {
        Some(SwapColumn::SynthMintVolume)
    } else if l == "synth_mint_volume_usd"@ {
        Some(SwapColumn::SynthMintVolumeUsd)
    } else if l == "synth_redeem_average_slip"@ {
        Some(SwapColumn::SynthRedeemAverageSlip)
    } else if l == "synth_redeem_count"@ {
        Some(SwapColumn::SynthRedeemCount)
    } else if l == "synth_redeem_fees"@ {
        Some(SwapColumn::SynthRedeemFees)
    } else if l == "synth_redeem_volume"@ {
        Some(SwapColumn::SynthRedeemVolume)
    } else if l == "synth_redeem_volume_usd"@ {
        Some(SwapColumn::SynthRedeemVolumeUsd)
    } else if l == "to_asset_average_slip"@ {
        Some(SwapColumn::ToAssetAverageSlip)
    } else if l == "to_asset_count"@ {
        Some(SwapColumn::ToAssetCount)
    } else if l == "to_asset_fees"@ {
        Some(SwapColumn::ToAssetFees)
    } else if l == "to_asset_volume"@ {
        Some(SwapColumn::ToAssetVolume)
    } else if l == "to_asset_volume_usd"@ {
        Some(SwapColumn::ToAssetVolumeUsd)
    } else if l == "to_rune_average_slip"@ {
        Some(SwapColumn::ToRuneAverageSlip)
    } else if l == "to_rune_count"@ {
        Some(SwapColumn::ToRuneCount)
    } else if l == "to_rune_fees"@ {
        Some(SwapColumn::ToRuneFees)
    } else if l == "to_rune_volume"@ {
        Some(SwapColumn::ToRuneVolume)
    } else if l == "to_rune_volume_usd"@ {
        Some(SwapColumn::ToRuneVolumeUsd)
    } else if l == "to_trade_average_slip"@ {
        Some(SwapColumn::ToTradeAverageSlip)
    } else if l == "to_trade_count"@ {
        Some(SwapColumn::ToTradeCount)
    } else if l == "to_trade_fees"@ {
        Some(SwapColumn::ToTradeFees)
    } else if l == "to_trade_volume"@ {
        Some(SwapColumn::ToTradeVolume)
    } else if l == "to_trade_volume_usd"@ {
        Some(SwapColumn::ToTradeVolumeUsd)
    } else if l == "total_count"@ {
        Some(SwapColumn::TotalCount)
    } else if l == "total_fees"@ {
        Some(SwapColumn::TotalFees)
    } else if l == "total_volume"@ {
        Some(SwapColumn::TotalVolume)
    } else if l == "total_volume_usd"@ {
        Some(SwapColumn::TotalVolumeUsd)
    } else {
        None
    }
}

/// Parses a sort-column request; unknown names sort nothing (request text
/// never reaches the SQL).
pub fn parse_column(l: &String) -> (r: Option<SwapColumn>)
    ensures
        r == spec_parse_column(l@),
{
    if *l == String::from_str("average_slip") {
        Some(SwapColumn::AverageSlip)
    } else if *l == String::from_str("start_time") {
        Some(SwapColumn::StartTime)
    } else if *l == String::from_str("end_time") {
        Some(SwapColumn::EndTime)
    } else if *l == String::from_str("from_trade_average_slip") {
        Some(SwapColumn::FromTradeAverageSlip)
    } else if *l == String::from_str("from_trade_count") {
        Some(SwapColumn::FromTradeCount)
    } else if *l == String::from_str("from_trade_fees") {
        Some(SwapColumn::FromTradeFees)
    } else if *l == String::from_str("from_trade_volume") {
        Some(SwapColumn::FromTradeVolume)
    } else if *l == String::from_str("from_trade_volume_usd") {
        Some(SwapColumn::FromTradeVolumeUsd)
    } else if *l == String::from_str("rune_price_usd") {
        Some(SwapColumn::RunePriceUsd)
    } else if *l == String::from_str("synth_mint_average_slip") {
        Some(SwapColumn::SynthMintAverageSlip)
    } else if *l == String::from_str("synth_mint_count") {
        Some(SwapColumn::SynthMintCount)
    } else if *l == String::from_str("synth_mint_fees") {
        Some(SwapColumn::SynthMintFees)
    } else if *l == String::from_str("synth_mint_volume") {
        Some(SwapColumn::SynthMintVolume)
    } else if *l == String::from_str("synth_mint_volume_usd") {
        Some(SwapColumn::SynthMintVolumeUsd)
    } else if *l == String::from_str("synth_redeem_average_slip") {
        Some(SwapColumn::SynthRedeemAverageSlip)
    } else if *l == String::from_str("synth_redeem_count") {
        Some(SwapColumn::SynthRedeemCount)
    } else if *l == String::from_str("synth_redeem_fees") {
        Some(SwapColumn::SynthRedeemFees)
    } else if *l == String::from_str("synth_redeem_volume") {
        Some(SwapColumn::SynthRedeemVolume)
    } else if *l == String::from_str("synth_redeem_volume_usd") {
        Some(SwapColumn::SynthRedeemVolumeUsd)
    } else if *l == String::from_str("to_asset_average_slip") {
        Some(SwapColumn::ToAssetAverageSlip)
    } else if *l == String::from_str("to_asset_count") {
        Some(SwapColumn::ToAssetCount)
    } else if *l == String::from_str("to_asset_fees") {
        Some(SwapColumn::ToAssetFees)
    } else if *l == String::from_str("to_asset_volume") {
        Some(SwapColumn::ToAssetVolume)
    } else if *l == String::from_str("to_asset_volume_usd") {
        Some(SwapColumn::ToAssetVolumeUsd)
    } else if *l == String::from_str("to_rune_average_slip") {
        Some(SwapColumn::ToRuneAverageSlip)
    } else if *l == String::from_str("to_rune_count") {
        Some(SwapColumn::ToRuneCount)
    } else if *l == String::from_str("to_rune_fees") {
        Some(SwapColumn::ToRuneFees)
    } else if *l == String::from_str("to_rune_volume") {
        Some(SwapColumn::ToRuneVolume)
    } else if *l == String::from_str("to_rune_volume_usd") {
        Some(SwapColumn::ToRuneVolumeUsd)
    } else if *l == String::from_str("to_trade_average_slip") {
        Some(SwapColumn::ToTradeAverageSlip)
    } else if *l == String::from_str("to_trade_count") {
        Some(SwapColumn::ToTradeCount)
    } else if *l == String::from_str("to_trade_fees") {
        Some(SwapColumn::ToTradeFees)
    } else if *l == String::from_str("to_trade_volume") {
        Some(SwapColumn::ToTradeVolume)
    } else if *l == String::from_str("to_trade_volume_usd") {
        Some(SwapColumn::ToTradeVolumeUsd)
    } else if *l == String::from_str("total_count") {
        Some(SwapColumn::TotalCount)
    } else if *l == String::from_str("total_fees") {
        Some(SwapColumn::TotalFees)
    } else if *l == String::from_str("total_volume") {
        Some(SwapColumn::TotalVolume)
    } else if *l == String::from_str("total_volume_usd") {
        Some(SwapColumn::TotalVolumeUsd)
    } else {
        None
    }
}

/// The swaps retrieval parameters.
#[derive(Debug, Clone, PartialEq, Eq, Default)]
pub struct QueryParams {
    pub interval: Option<String>,
    pub limit: Option<i16>,
    pub page: Option<i16>,
    pub order: Option<String>,
    pub sort_by: Option<String>,
    pub date_range: Option<String>,
    pub count: Option<i8>,
    pub from_trade_average_slip_gt: Option<DecimalValue>,
    pub from_trade_average_slip_lt: Option<DecimalValue>,
    pub from_trade_average_slip_eq: Option<DecimalValue>,
    pub from_trade_count_gt: Option<i64>,
    pub from_trade_count_lt: Option<i64>,
    pub from_trade_count_eq: Option<i64>,
    pub from_trade_fees_gt: Option<i64>,
    pub from_trade_fees_lt: Option<i64>,
    pub from_trade_fees_eq: Option<i64>,
    pub from_trade_volume_gt: Option<i64>,
    pub from_trade_volume_lt: Option<i64>,
    pub from_trade_volume_eq: Option<i64>,
    pub from_trade_volume_usd_gt: Option<DecimalValue>,
    pub from_trade_volume_usd_lt: Option<DecimalValue>,
    pub from_trade_volume_usd_eq: Option<DecimalValue>,
    pub synth_mint_average_slip_gt: Option<DecimalValue>,
    pub synth_mint_average_slip_lt: Option<DecimalValue>,
    pub synth_mint_average_slip_eq: Option<DecimalValue>,
    pub synth_mint_count_gt: Option<i64>,
    pub synth_mint_count_lt: Option<i64>,
    pub synth_mint_count_eq: Option<i64>,
    pub synth_mint_fees_gt: Option<i64>,
    pub synth_mint_fees_lt: Option<i64>,
    pub synth_mint_fees_eq: Option<i64>,
    pub synth_mint_volume_gt: Option<i64>,
    pub synth_mint_volume_lt: Option<i64>,
    pub synth_mint_volume_eq: Option<i64>,
    pub synth_mint_volume_usd_gt: Option<DecimalValue>,
    pub synth_mint_volume_usd_lt: Option<DecimalValue>,
    pub synth_mint_volume_usd_eq: Option<DecimalValue>,
    pub synth_redeem_average_slip_gt: Option<DecimalValue>,
    pub synth_redeem_average_slip_lt: Option<DecimalValue>,
    pub synth_redeem_average_slip_eq: Option<DecimalValue>,
    pub synth_redeem_count_gt: Option<i64>,
    pub synth_redeem_count_lt: Option<i64>,
    pub synth_redeem_count_eq: Option<i64>,
    pub synth_redeem_fees_gt: Option<i64>,
    pub synth_redeem_fees_lt: Option<i64>,
    pub synth_redeem_fees_eq: Option<i64>,
    pub synth_redeem_volume_gt: Option<i64>,
    pub synth_redeem_volume_lt: Option<i64>,
    pub synth_redeem_volume_eq: Option<i64>,
    pub synth_redeem_volume_usd_gt: Option<DecimalValue>,
    pub synth_redeem_volume_usd_lt: Option<DecimalValue>,
    pub synth_redeem_volume_usd_eq: Option<DecimalValue>,
    pub to_asset_average_slip_gt: Option<DecimalValue>,
    pub to_asset_average_slip_lt: Option<DecimalValue>,
    pub to_asset_average_slip_eq: Option<DecimalValue>,
    pub to_asset_count_gt: Option<i64>,
    pub to_asset_count_lt: Option<i64>,
    pub to_asset_count_eq: Option<i64>,
    pub to_asset_fees_gt: Option<i64>,
    pub to_asset_fees_lt: Option<i64>,
    pub to_asset_fees_eq: Option<i64>,
    pub to_asset_volume_gt: Option<i64>,
    pub to_asset_volume_lt: Option<i64>,
    pub to_asset_volume_eq: Option<i64>,
    pub to_asset_volume_usd_gt: Option<DecimalValue>,
    pub to_asset_volume_usd_lt: Option<DecimalValue>,
    pub to_asset_volume_usd_eq: Option<DecimalValue>,
    pub to_rune_average_slip_gt: Option<DecimalValue>,
    pub to_rune_average_slip_lt: Option<DecimalValue>,
    pub to_rune_average_slip_eq: Option<DecimalValue>,
    pub to_rune_count_gt: Option<i64>,
    pub to_rune_count_lt: Option<i64>,
    pub to_rune_count_eq: Option<i64>,
    pub to_rune_fees_gt: Option<i64>,
    pub to_rune_fees_lt: Option<i64>,
    pub to_rune_fees_eq: Option<i64>,
    pub to_rune_volume_gt: Option<i64>,
    pub to_rune_volume_lt: Option<i64>,
    pub to_rune_volume_eq: Option<i64>,
    pub to_rune_volume_usd_gt: Option<DecimalValue>,
    pub to_rune_volume_usd_lt: Option<DecimalValue>,
    pub to_rune_volume_usd_eq: Option<DecimalValue>,
    pub to_trade_average_slip_gt: Option<DecimalValue>,
    pub to_trade_average_slip_lt: Option<DecimalValue>,
    pub to_trade_average_slip_eq: Option<DecimalValue>,
    pub to_trade_count_gt: Option<i64>,
    pub to_trade_count_lt: Option<i64>,
    pub to_trade_count_eq: Option<i64>,
    pub to_trade_fees_gt: Option<i64>,
    pub to_trade_fees_lt: Option<i64>,
    pub to_trade_fees_eq: Option<i64>,
    pub to_trade_volume_gt: Option<i64>,
    pub to_trade_volume_lt: Option<i64>,
    pub to_trade_volume_eq: Option<i64>,
    pub to_trade_volume_usd_gt: Option<DecimalValue>,
    pub to_trade_volume_usd_lt: Option<DecimalValue>,
    pub to_trade_volume_usd_eq: Option<DecimalValue>,
    pub total_count_gt: Option<i64>,
    pub total_count_lt: Option<i64>,
    pub total_count_eq: Option<i64>,
    pub total_fees_gt: Option<i64>,
    pub total_fees_lt: Option<i64>,
    pub total_fees_eq: Option<i64>,
    pub total_volume_gt: Option<i64>,
    pub total_volume_lt: Option<i64>,
    pub total_volume_eq: Option<i64>,
}

/// The filters a request contributes, column by column.
pub open spec fn spec_filters(p: QueryParams) -> Seq<Filter<SwapColumn>> {
    Seq::empty()
        + spec_comparison(
        SwapColumn::FromTradeAverageSlip,
        spec_dec_bound(p.from_trade_average_slip_gt),
        spec_dec_bound(p.from_trade_average_slip_lt),
        spec_dec_bound(p.from_trade_average_slip_eq),
    )
        + spec_comparison(
        SwapColumn::FromTradeCount,
        spec_int_bound(p.from_trade_count_gt),
        spec_int_bound(p.from_trade_count_lt),
        spec_int_bound(p.from_trade_count_eq),
    )
        + spec_comparison(
        SwapColumn::FromTradeFees,
        spec_int_bound(p.from_trade_fees_gt),
        spec_int_bound(p.from_trade_fees_lt),
        spec_int_bound(p.from_trade_fees_eq),
    )
        + spec_comparison(
        SwapColumn::FromTradeVolume,
        spec_int_bound(p.from_trade_volume_gt),
        spec_int_bound(p.from_trade_volume_lt),
        spec_int_bound(p.from_trade_volume_eq),
    )
        + spec_comparison(
        SwapColumn::FromTradeVolumeUsd,
        spec_dec_bound(p.from_trade_volume_usd_gt),
        spec_dec_bound(p.from_trade_volume_usd_lt),
        spec_dec_bound(p.from_trade_volume_usd_eq),
    )
        + spec_comparison(
        SwapColumn::SynthMintAverageSlip,
        spec_dec_bound(p.synth_mint_average_slip_gt),
        spec_dec_bound(p.synth_mint_average_slip_lt),
        spec_dec_bound(p.synth_mint_average_slip_eq),
    )
        + spec_comparison(
        SwapColumn::SynthMintCount,
        spec_int_bound(p.synth_mint_count_gt),
        spec_int_bound(p.synth_mint_count_lt),
        spec_int_bound(p.synth_mint_count_eq),
    )
        + spec_comparison(
        SwapColumn::SynthMintFees,
        spec_int_bound(p.synth_mint_fees_gt),
        spec_int_bound(p.synth_mint_fees_lt),
        spec_int_bound(p.synth_mint_fees_eq),
    )
        + spec_comparison(
        SwapColumn::SynthMintVolume,
        spec_int_bound(p.synth_mint_volume_gt),
        spec_int_bound(p.synth_mint_volume_lt),
        spec_int_bound(p.synth_mint_volume_eq),
    )
        + spec_comparison(
        SwapColumn::SynthMintVolumeUsd,
        spec_dec_bound(p.synth_mint_volume_usd_gt),
        spec_dec_bound(p.synth_mint_volume_usd_lt),
        spec_dec_bound(p.synth_mint_volume_usd_eq),
    )
        + spec_comparison(
        SwapColumn::SynthRedeemAverageSlip,
        spec_dec_bound(p.synth_redeem_average_slip_gt),
        spec_dec_bound(p.synth_redeem_average_slip_lt),
        spec_dec_bound(p.synth_redeem_average_slip_eq),
    )
        + spec_comparison(
        SwapColumn::SynthRedeemCount,
        spec_int_bound(p.synth_redeem_count_gt),
        spec_int_bound(p.synth_redeem_count_lt),
        spec_int_bound(p.synth_redeem_count_eq),
    )
        + spec_comparison(
        SwapColumn::SynthRedeemFees,
        spec_int_bound(p.synth_redeem_fees_gt),
        spec_int_bound(p.synth_redeem_fees_lt),
        spec_int_bound(p.synth_redeem_fees_eq),
    )
        + spec_comparison(
        SwapColumn::SynthRedeemVolume,
        spec_int_bound(p.synth_redeem_volume_gt),
        spec_int_bound(p.synth_redeem_volume_lt),
        spec_int_bound(p.synth_redeem_volume_eq),
    )
        + spec_comparison(
        SwapColumn::SynthRedeemVolumeUsd,
        spec_dec_bound(p.synth_redeem_volume_usd_gt),
        spec_dec_bound(p.synth_redeem_volume_usd_lt),
        spec_dec_bound(p.synth_redeem_volume_usd_eq),
    )
        + spec_comparison(
        SwapColumn::ToAssetAverageSlip,
        spec_dec_bound(p.to_asset_average_slip_gt),
        spec_dec_bound(p.to_asset_average_slip_lt),
        spec_dec_bound(p.to_asset_average_slip_eq),
    )
        + spec_comparison(
        SwapColumn::ToAssetCount,
        spec_int_bound(p.to_asset_count_gt),
        spec_int_bound(p.to_asset_count_lt),
        spec_int_bound(p.to_asset_count_eq),
    )
        + spec_comparison(
        SwapColumn::ToAssetFees,
        spec_int_bound(p.to_asset_fees_gt),
        spec_int_bound(p.to_asset_fees_lt),
        spec_int_bound(p.to_asset_fees_eq),
    )
        + spec_comparison(
        SwapColumn::ToAssetVolume,
        spec_int_bound(p.to_asset_volume_gt),
        spec_int_bound(p.to_asset_volume_lt),
        spec_int_bound(p.to_asset_volume_eq),
    )
        + spec_comparison(
        SwapColumn::ToAssetVolumeUsd,
        spec_dec_bound(p.to_asset_volume_usd_gt),
        spec_dec_bound(p.to_asset_volume_usd_lt),
        spec_dec_bound(p.to_asset_volume_usd_eq),
    )
        + spec_comparison(
        SwapColumn::ToRuneAverageSlip,
        spec_dec_bound(p.to_rune_average_slip_gt),
        spec_dec_bound(p.to_rune_average_slip_lt),
        spec_dec_bound(p.to_rune_average_slip_eq),
    )
        + spec_comparison(
        SwapColumn::ToRuneCount,
        spec_int_bound(p.to_rune_count_gt),
        spec_int_bound(p.to_rune_count_lt),
        spec_int_bound(p.to_rune_count_eq),
    )
        + spec_comparison(
        SwapColumn::ToRuneFees,
        spec_int_bound(p.to_rune_fees_gt),
        spec_int_bound(p.to_rune_fees_lt),
        spec_int_bound(p.to_rune_fees_eq),
    )
        + spec_comparison(
        SwapColumn::ToRuneVolume,
        spec_int_bound(p.to_rune_volume_gt),
        spec_int_bound(p.to_rune_volume_lt),
        spec_int_bound(p.to_rune_volume_eq),
    )
        + spec_comparison(
        SwapColumn::ToRuneVolumeUsd,
        spec_dec_bound(p.to_rune_volume_usd_gt),
        spec_dec_bound(p.to_rune_volume_usd_lt),
        spec_dec_bound(p.to_rune_volume_usd_eq),
    )
        + spec_comparison(
        SwapColumn::ToTradeAverageSlip,
        spec_dec_bound(p.to_trade_average_slip_gt),
        spec_dec_bound(p.to_trade_average_slip_lt),
        spec_dec_bound(p.to_trade_average_slip_eq),
    )
        + spec_comparison(
        SwapColumn::ToTradeCount,
        spec_int_bound(p.to_trade_count_gt),
        spec_int_bound(p.to_trade_count_lt),
        spec_int_bound(p.to_trade_count_eq),
    )
        + spec_comparison(
        SwapColumn::ToTradeFees,
        spec_int_bound(p.to_trade_fees_gt),
        spec_int_bound(p.to_trade_fees_lt),
        spec_int_bound(p.to_trade_fees_eq),
    )
        + spec_comparison(
        SwapColumn::ToTradeVolume,
        spec_int_bound(p.to_trade_volume_gt),
        spec_int_bound(p.to_trade_volume_lt),
        spec_int_bound(p.to_trade_volume_eq),
    )
        + spec_comparison(
        SwapColumn::ToTradeVolumeUsd,
        spec_dec_bound(p.to_trade_volume_usd_gt),
        spec_dec_bound(p.to_trade_volume_usd_lt),
        spec_dec_bound(p.to_trade_volume_usd_eq),
    )
        + spec_comparison(
        SwapColumn::TotalCount,
        spec_int_bound(p.total_count_gt),
        spec_int_bound(p.total_count_lt),
        spec_int_bound(p.total_count_eq),
    )
        + spec_comparison(
        SwapColumn::TotalFees,
        spec_int_bound(p.total_fees_gt),
        spec_int_bound(p.total_fees_lt),
        spec_int_bound(p.total_fees_eq),
    )
        + spec_comparison(
        SwapColumn::TotalVolume,
        spec_int_bound(p.total_volume_gt),
        spec_int_bound(p.total_volume_lt),
        spec_int_bound(p.total_volume_eq),
    )
}

/// The whole plan a request compiles to.
pub open spec fn spec_plan(p: QueryParams) -> PlanModel<SwapColumn> {
    PlanModel {
        interval: match p.interval {
            Some(l) => Some(spec_trunc_of_label(l@)),
            None => None,
        },
        date_range: match p.date_range {
            Some(s) => spec_split_range(s@),
            None => None,
        },
        filters: spec_filters(p),
        sort: match p.sort_by {
            Some(sb) => match spec_parse_column(sb@) {
                Some(c) => Some((c, spec_order_of(p.order))),
                None => None,
            },
            None => None,
        },
        pagination: spec_pagination(
            opt_int_i8(p.count),
            opt_int_i16(p.limit),
            opt_int_i16(p.page),
        ),
    }
}

/// Compiles a swaps request to a typed query plan.
#[verifier::rlimit(100)]
pub fn query_plan(p: &QueryParams) -> (plan: QueryPlan<SwapColumn>)
    ensures
        plan_model(plan) == spec_plan(*p),
        plan.filters@.len() <= 99,
{
    let interval = match &p.interval {
        Some(l) => Some(trunc_of_label(l)),
        None => None,
    };
    let date_range = match &p.date_range {
        Some(s) => split_date_range(s.as_str()),
        None => None,
    };
    let mut filters: Vec<Filter<SwapColumn>> = Vec::new();
    push_comparison(
        &mut filters,
        SwapColumn::FromTradeAverageSlip,
        dec_bound(&p.from_trade_average_slip_gt),
        dec_bound(&p.from_trade_average_slip_lt),
        dec_bound(&p.from_trade_average_slip_eq),
    );
    push_comparison(
        &mut filters,
        SwapColumn::FromTradeCount,
        int_bound(&p.from_trade_count_gt),
        int_bound(&p.from_trade_count_lt),
        int_bound(&p.from_trade_count_eq),
    );
    push_comparison(
        &mut filters,
        SwapColumn::FromTradeFees,
        int_bound(&p.from_trade_fees_gt),
        int_bound(&p.from_trade_fees_lt),
        int_bound(&p.from_trade_fees_eq),
    );
    push_comparison(
        &mut filters,
        SwapColumn::FromTradeVolume,
        int_bound(&p.from_trade_volume_gt),
        int_bound(&p.from_trade_volume_lt),
        int_bound(&p.from_trade_volume_eq),
    );
    push_comparison(
        &mut filters,
        SwapColumn::FromTradeVolumeUsd,
        dec_bound(&p.from_trade_volume_usd_gt),
        dec_bound(&p.from_trade_volume_usd_lt),
        dec_bound(&p.from_trade_volume_usd_eq),
    );
    push_comparison(
        &mut filters,
        SwapColumn::SynthMintAverageSlip,
        dec_bound(&p.synth_mint_average_slip_gt),
        dec_bound(&p.synth_mint_average_slip_lt),
        dec_bound(&p.synth_mint_average_slip_eq),
    );
    push_comparison(
        &mut filters,
        SwapColumn::SynthMintCount,
        int_bound(&p.synth_mint_count_gt),
        int_bound(&p.synth_mint_count_lt),
        int_bound(&p.synth_mint_count_eq),
    );
    push_comparison(
        &mut filters,
        SwapColumn::SynthMintFees,
        int_bound(&p.synth_mint_fees_gt),
        int_bound(&p.synth_mint_fees_lt),
        int_bound(&p.synth_mint_fees_eq),
    );
    push_comparison(
        &mut filters,
        SwapColumn::SynthMintVolume,
        int_bound(&p.synth_mint_volume_gt),
        int_bound(&p.synth_mint_volume_lt),
        int_bound(&p.synth_mint_volume_eq),
    );
    push_comparison(
        &mut filters,
        SwapColumn::SynthMintVolumeUsd,
        dec_bound(&p.synth_mint_volume_usd_gt),
        dec_bound(&p.synth_mint_volume_usd_lt),
        dec_bound(&p.synth_mint_volume_usd_eq),
    );
    push_comparison(
        &mut filters,
        SwapColumn::SynthRedeemAverageSlip,
        dec_bound(&p.synth_redeem_average_slip_gt),
        dec_bound(&p.synth_redeem_average_slip_lt),
        dec_bound(&p.synth_redeem_average_slip_eq),
    );
    push_comparison(
        &mut filters,
        SwapColumn::SynthRedeemCount,
        int_bound(&p.synth_redeem_count_gt),
        int_bound(&p.synth_redeem_count_lt),
        int_bound(&p.synth_redeem_count_eq),
    );
    push_comparison(
        &mut filters,
        SwapColumn::SynthRedeemFees,
        int_bound(&p.synth_redeem_fees_gt),
        int_bound(&p.synth_redeem_fees_lt),
        int_bound(&p.synth_redeem_fees_eq),
    );
    push_comparison(
        &mut filters,
        SwapColumn::SynthRedeemVolume,
        int_bound(&p.synth_redeem_volume_gt),
        int_bound(&p.synth_redeem_volume_lt),
        int_bound(&p.synth_redeem_volume_eq),
    );
    push_comparison(
        &mut filters,
        SwapColumn::SynthRedeemVolumeUsd,
        dec_bound(&p.synth_redeem_volume_usd_gt),
        dec_bound(&p.synth_redeem_volume_usd_lt),
        dec_bound(&p.synth_redeem_volume_usd_eq),
    );
    push_comparison(
        &mut filters,
        SwapColumn::ToAssetAverageSlip,
        dec_bound(&p.to_asset_average_slip_gt),
        dec_bound(&p.to_asset_average_slip_lt),
        dec_bound(&p.to_asset_average_slip_eq),
    );
    push_comparison(
        &mut filters,
        SwapColumn::ToAssetCount,
        int_bound(&p.to_asset_count_gt),
        int_bound(&p.to_asset_count_lt),
        int_bound(&p.to_asset_count_eq),
    );
    push_comparison(
        &mut filters,
        SwapColumn::ToAssetFees,
        int_bound(&p.to_asset_fees_gt),
        int_bound(&p.to_asset_fees_lt),
        int_bound(&p.to_asset_fees_eq),
    );
    push_comparison(
        &mut filters,
        SwapColumn::ToAssetVolume,
        int_bound(&p.to_asset_volume_gt),
        int_bound(&p.to_asset_volume_lt),
        int_bound(&p.to_asset_volume_eq),
    );
    push_comparison(
        &mut filters,
        SwapColumn::ToAssetVolumeUsd,
        dec_bound(&p.to_asset_volume_usd_gt),
        dec_bound(&p.to_asset_volume_usd_lt),
        dec_bound(&p.to_asset_volume_usd_eq),
    );
    push_comparison(
        &mut filters,
        SwapColumn::ToRuneAverageSlip,
        dec_bound(&p.to_rune_average_slip_gt),
        dec_bound(&p.to_rune_average_slip_lt),
        dec_bound(&p.to_rune_average_slip_eq),
    );
    push_comparison(
        &mut filters,
        SwapColumn::ToRuneCount,
        int_bound(&p.to_rune_count_gt),
        int_bound(&p.to_rune_count_lt),
        int_bound(&p.to_rune_count_eq),
    );
    push_comparison(
        &mut filters,
        SwapColumn::ToRuneFees,
        int_bound(&p.to_rune_fees_gt),
        int_bound(&p.to_rune_fees_lt),
        int_bound(&p.to_rune_fees_eq),
    );
    push_comparison(
        &mut filters,
        SwapColumn::ToRuneVolume,
        int_bound(&p.to_rune_volume_gt),
        int_bound(&p.to_rune_volume_lt),
        int_bound(&p.to_rune_volume_eq),
    );
    push_comparison(
        &mut filters,
        SwapColumn::ToRuneVolumeUsd,
        dec_bound(&p.to_rune_volume_usd_gt),
        dec_bound(&p.to_rune_volume_usd_lt),
        dec_bound(&p.to_rune_volume_usd_eq),
    );
    push_comparison(
        &mut filters,
        SwapColumn::ToTradeAverageSlip,
        dec_bound(&p.to_trade_average_slip_gt),
        dec_bound(&p.to_trade_average_slip_lt),
        dec_bound(&p.to_trade_average_slip_eq),
    );
    push_comparison(
        &mut filters,
        SwapColumn::ToTradeCount,
        int_bound(&p.to_trade_count_gt),
        int_bound(&p.to_trade_count_lt),
        int_bound(&p.to_trade_count_eq),
    );
    push_comparison(
        &mut filters,
        SwapColumn::ToTradeFees,
        int_bound(&p.to_trade_fees_gt),
        int_bound(&p.to_trade_fees_lt),
        int_bound(&p.to_trade_fees_eq),
    );
    push_comparison(
        &mut filters,
        SwapColumn::ToTradeVolume,
        int_bound(&p.to_trade_volume_gt),
        int_bound(&p.to_trade_volume_lt),
        int_bound(&p.to_trade_volume_eq),
    );
    push_comparison(
        &mut filters,
        SwapColumn::ToTradeVolumeUsd,
        dec_bound(&p.to_trade_volume_usd_gt),
        dec_bound(&p.to_trade_volume_usd_lt),
        dec_bound(&p.to_trade_volume_usd_eq),
    );
    push_comparison(
        &mut filters,
        SwapColumn::TotalCount,
        int_bound(&p.total_count_gt),
        int_bound(&p.total_count_lt),
        int_bound(&p.total_count_eq),
    );
    push_comparison(
        &mut filters,
        SwapColumn::TotalFees,
        int_bound(&p.total_fees_gt),
        int_bound(&p.total_fees_lt),
        int_bound(&p.total_fees_eq),
    );
    push_comparison(
        &mut filters,
        SwapColumn::TotalVolume,
        int_bound(&p.total_volume_gt),
        int_bound(&p.total_volume_lt),
        int_bound(&p.total_volume_eq),
    );
    let sort = match &p.sort_by {
        Some(sb) => match parse_column(sb) {
            Some(c) => {
                let ord = match &p.order {
                    Some(o) => parse_order(o),
                    None => SortOrder::Ascending,
                };
                Some((c, ord))
            },
            None => None,
        },
        None => None,
    };
    let pagination = match p.count {
        Some(c) => Pagination::Count(c as i64),
        None => match p.limit {
            Some(l) => match p.page {
                Some(pg) => {
                    let pg64: i64 = pg as i64;
                    let l64: i64 = l as i64;
                    let offset: i64 = if pg64 >= 1 {
                        proof {
                            lemma_offset_in_range(pg64 as int, l64 as int);
                        }
                        (pg64 - 1) * l64
                    } else {
                        0
                    };
                    Pagination::LimitOffset { limit: l64, offset }
                },
                None => Pagination::Limit(l as i64),
            },
            None => Pagination::All,
        },
    };
    let plan = QueryPlan { interval, date_range, filters, sort, pagination };
    proof {
        assert(plan_model(plan) == spec_plan(*p));
    }
    plan
}

/// The swaps retrieval query: one parameterized `SELECT` and its binds.
#[verifier::rlimit(100)]
pub fn history_sql(p: &QueryParams) -> (r: (String, Vec<QueryValue>))
    ensures
        r.0@ == spec_render_sql(spec_table_name(Resource::Swaps), spec_plan(*p)),
        spec_bind_models(r.1@) == spec_plan_binds(spec_plan(*p)),
{
    let plan = query_plan(p);
    render_sql(table_name(Resource::Swaps), &plan)
}

/// One segment of a swaps `COPY` row.
pub open spec fn spec_swap_row_seg1(r: SwapHistory) -> Seq<char> {
    spec_decimal_text(r.average_slip.mantissa, r.average_slip.scale) + "\t"@ + spec_utc_text(r.end_time) + "\t"@ + spec_decimal_text(r.from_trade_average_slip.mantissa, r.from_trade_average_slip.scale) + "\t"@ + spec_i64_string(r.from_trade_count as int) + "\t"@ + spec_i64_string(r.from_trade_fees as int) + "\t"@ + spec_i64_string(r.from_trade_volume as int) + "\t"@ + spec_decimal_text(r.from_trade_volume_usd.mantissa, r.from_trade_volume_usd.scale) + "\t"@ + spec_decimal_text(r.rune_price_usd.mantissa, r.rune_price_usd.scale) + "\t"@ + spec_utc_text(r.start_time) + "\t"@ + spec_decimal_text(r.synth_mint_average_slip.mantissa, r.synth_mint_average_slip.scale) + "\t"@
}
/// One segment of a swaps `COPY` row.
pub open spec fn spec_swap_row_seg2(r: SwapHistory) -> Seq<char> {
    spec_i64_string(r.synth_mint_count as int) + "\t"@ + spec_i64_string(r.synth_mint_fees as int) + "\t"@ + spec_i64_string(r.synth_mint_volume as int) + "\t"@ + spec_decimal_text(r.synth_mint_volume_usd.mantissa, r.synth_mint_volume_usd.scale) + "\t"@ + spec_decimal_text(r.synth_redeem_average_slip.mantissa, r.synth_redeem_average_slip.scale) + "\t"@ + spec_i64_string(r.synth_redeem_count as int) + "\t"@ + spec_i64_string(r.synth_redeem_fees as int) + "\t"@ + spec_i64_string(r.synth_redeem_volume as int) + "\t"@ + spec_decimal_text(r.synth_redeem_volume_usd.mantissa, r.synth_redeem_volume_usd.scale) + "\t"@ + spec_decimal_text(r.to_asset_average_slip.mantissa, r.to_asset_average_slip.scale) + "\t"@
}
/// One segment of a swaps `COPY` row.
pub open spec fn spec_swap_row_seg3(r: SwapHistory) -> Seq<char> {
    spec_i64_string(r.to_asset_count as int) + "\t"@ + spec_i64_string(r.to_asset_fees as int) + "\t"@ + spec_i64_string(r.to_asset_volume as int) + "\t"@ + spec_decimal_text(r.to_asset_volume_usd.mantissa, r.to_asset_volume_usd.scale) + "\t"@ + spec_decimal_text(r.to_rune_average_slip.mantissa, r.to_rune_average_slip.scale) + "\t"@ + spec_i64_string(r.to_rune_count as int) + "\t"@ + spec_i64_string(r.to_rune_fees as int) + "\t"@ + spec_i64_string(r.to_rune_volume as int) + "\t"@ + spec_decimal_text(r.to_rune_volume_usd.mantissa, r.to_rune_volume_usd.scale) + "\t"@ + spec_decimal_text(r.to_trade_average_slip.mantissa, r.to_trade_average_slip.scale) + "\t"@
}
/// One segment of a swaps `COPY` row.
pub open spec fn spec_swap_row_seg4(r: SwapHistory) -> Seq<char> {
    spec_i64_string(r.to_trade_count as int) + "\t"@ + spec_i64_string(r.to_trade_fees as int) + "\t"@ + spec_i64_string(r.to_trade_volume as int) + "\t"@ + spec_decimal_text(r.to_trade_volume_usd.mantissa, r.to_trade_volume_usd.scale) + "\t"@ + spec_i64_string(r.total_count as int) + "\t"@ + spec_i64_string(r.total_fees as int) + "\t"@ + spec_i64_string(r.total_volume as int) + "\t"@ + spec_decimal_text(r.total_volume_usd.mantissa, r.total_volume_usd.scale) + "\n"@
}

/// Appends one segment of a swaps `COPY` row.
#[verifier::rlimit(60)]
fn append_swap_row_seg1(out: &mut String, r: &SwapHistory)
    requires
        decimal_wf(r.average_slip),
        renderable_ts(r.end_time),
        decimal_wf(r.from_trade_average_slip),
        decimal_wf(r.from_trade_volume_usd),
        decimal_wf(r.rune_price_usd),
        renderable_ts(r.start_time),
        decimal_wf(r.synth_mint_average_slip),
    ensures
        final(out)@ == old(out)@ + spec_swap_row_seg1(*r),
{
    let saverage_slip = decimal_to_string(&r.average_slip);
    out.append(saverage_slip.as_str());
    out.append("\t");
    let send_time = utc_text(r.end_time);
    out.append(send_time.as_str());
    out.append("\t");
    let sfrom_trade_average_slip = decimal_to_string(&r.from_trade_average_slip);
    out.append(sfrom_trade_average_slip.as_str());
    out.append("\t");
    let sfrom_trade_count = i64_to_string(r.from_trade_count);
    out.append(sfrom_trade_count.as_str());
    out.append("\t");
    let sfrom_trade_fees = i64_to_string(r.from_trade_fees);
    out.append(sfrom_trade_fees.as_str());
    out.append("\t");
    let sfrom_trade_volume = i64_to_string(r.from_trade_volume);
    out.append(sfrom_trade_volume.as_str());
    out.append("\t");
    let sfrom_trade_volume_usd = decimal_to_string(&r.from_trade_volume_usd);
    out.append(sfrom_trade_volume_usd.as_str());
    out.append("\t");
    let srune_price_usd = decimal_to_string(&r.rune_price_usd);
    out.append(srune_price_usd.as_str());
    out.append("\t");
    let sstart_time = utc_text(r.start_time);
    out.append(sstart_time.as_str());
    out.append("\t");
    let ssynth_mint_average_slip = decimal_to_string(&r.synth_mint_average_slip);
    out.append(ssynth_mint_average_slip.as_str());
    out.append("\t");
    proof {
        assert(final(out)@ =~= old(out)@ + spec_swap_row_seg1(*r));
    }
}
/// Appends one segment of a swaps `COPY` row.
#[verifier::rlimit(60)]
fn append_swap_row_seg2(out: &mut String, r: &SwapHistory)
    requires
        decimal_wf(r.synth_mint_volume_usd),
        decimal_wf(r.synth_redeem_average_slip),
        decimal_wf(r.synth_redeem_volume_usd),
        decimal_wf(r.to_asset_average_slip),
    ensures
        final(out)@ == old(out)@ + spec_swap_row_seg2(*r),
{
    let ssynth_mint_count = i64_to_string(r.synth_mint_count);
    out.append(ssynth_mint_count.as_str());
    out.append("\t");
    let ssynth_mint_fees = i64_to_string(r.synth_mint_fees);
    out.append(ssynth_mint_fees.as_str());
    out.append("\t");
    let ssynth_mint_volume = i64_to_string(r.synth_mint_volume);
    out.append(ssynth_mint_volume.as_str());
    out.append("\t");
    let ssynth_mint_volume_usd = decimal_to_string(&r.synth_mint_volume_usd);
    out.append(ssynth_mint_volume_usd.as_str());
    out.append("\t");
    let ssynth_redeem_average_slip = decimal_to_string(&r.synth_redeem_average_slip);
    out.append(ssynth_redeem_average_slip.as_str());
    out.append("\t");
    let ssynth_redeem_count = i64_to_string(r.synth_redeem_count);
    out.append(ssynth_redeem_count.as_str());
    out.append("\t");
    let ssynth_redeem_fees = i64_to_string(r.synth_redeem_fees);
    out.append(ssynth_redeem_fees.as_str());
    out.append("\t");
    let ssynth_redeem_volume = i64_to_string(r.synth_redeem_volume);
    out.append(ssynth_redeem_volume.as_str());
    out.append("\t");
    let ssynth_redeem_volume_usd = decimal_to_string(&r.synth_redeem_volume_usd);
    out.append(ssynth_redeem_volume_usd.as_str());
    out.append("\t");
    let sto_asset_average_slip = decimal_to_string(&r.to_asset_average_slip);
    out.append(sto_asset_average_slip.as_str());
    out.append("\t");
    proof {
        assert(final(out)@ =~= old(out)@ + spec_swap_row_seg2(*r));
    }
}
/// Appends one segment of a swaps `COPY` row.
#[verifier::rlimit(60)]
fn append_swap_row_seg3(out: &mut String, r: &SwapHistory)
    requires
        decimal_wf(r.to_asset_volume_usd),
        decimal_wf(r.to_rune_average_slip),
        decimal_wf(r.to_rune_volume_usd),
        decimal_wf(r.to_trade_average_slip),
    ensures
        final(out)@ == old(out)@ + spec_swap_row_seg3(*r),
{
    let sto_asset_count = i64_to_string(r.to_asset_count);
    out.append(sto_asset_count.as_str());
    out.append("\t");
    let sto_asset_fees = i64_to_string(r.to_asset_fees);
    out.append(sto_asset_fees.as_str());
    out.append("\t");
    let sto_asset_volume = i64_to_string(r.to_asset_volume);
    out.append(sto_asset_volume.as_str());
    out.append("\t");
    let sto_asset_volume_usd = decimal_to_string(&r.to_asset_volume_usd);
    out.append(sto_asset_volume_usd.as_str());
    out.append("\t");
    let sto_rune_average_slip = decimal_to_string(&r.to_rune_average_slip);
    out.append(sto_rune_average_slip.as_str());
    out.append("\t");
    let sto_rune_count = i64_to_string(r.to_rune_count);
    out.append(sto_rune_count.as_str());
    out.append("\t");
    let sto_rune_fees = i64_to_string(r.to_rune_fees);
    out.append(sto_rune_fees.as_str());
    out.append("\t");
    let sto_rune_volume = i64_to_string(r.to_rune_volume);
    out.append(sto_rune_volume.as_str());
    out.append("\t");
    let sto_rune_volume_usd = decimal_to_string(&r.to_rune_volume_usd);
    out.append(sto_rune_volume_usd.as_str());
    out.append("\t");
    let sto_trade_average_slip = decimal_to_string(&r.to_trade_average_slip);
    out.append(sto_trade_average_slip.as_str());
    out.append("\t");
    proof {
        assert(final(out)@ =~= old(out)@ + spec_swap_row_seg3(*r));
    }
}
/// Appends one segment of a swaps `COPY` row.
#[verifier::rlimit(60)]
fn append_swap_row_seg4(out: &mut String, r: &SwapHistory)
    requires
        decimal_wf(r.to_trade_volume_usd),
        decimal_wf(r.total_volume_usd),
    ensures
        final(out)@ == old(out)@ + spec_swap_row_seg4(*r),
{
    let sto_trade_count = i64_to_string(r.to_trade_count);
    out.append(sto_trade_count.as_str());
    out.append("\t");
    let sto_trade_fees = i64_to_string(r.to_trade_fees);
    out.append(sto_trade_fees.as_str());
    out.append("\t");
    let sto_trade_volume = i64_to_string(r.to_trade_volume);
    out.append(sto_trade_volume.as_str());
    out.append("\t");
    let sto_trade_volume_usd = decimal_to_string(&r.to_trade_volume_usd);
    out.append(sto_trade_volume_usd.as_str());
    out.append("\t");
    let stotal_count = i64_to_string(r.total_count);
    out.append(stotal_count.as_str());
    out.append("\t");
    let stotal_fees = i64_to_string(r.total_fees);
    out.append(stotal_fees.as_str());
    out.append("\t");
    let stotal_volume = i64_to_string(r.total_volume);
    out.append(stotal_volume.as_str());
    out.append("\t");
    let stotal_volume_usd = decimal_to_string(&r.total_volume_usd);
    out.append(stotal_volume_usd.as_str());
    out.append("\n");
    proof {
        assert(final(out)@ =~= old(out)@ + spec_swap_row_seg4(*r));
    }
}

impl CopyRow for SwapHistory {
    open spec fn copy_renderable(&self) -> bool {
        renderable_ts(self.start_time) && renderable_ts(self.end_time) && swap_wf(*self)
    }

    open spec fn spec_copy_row(&self) -> Seq<char> {
        spec_swap_row_seg1(*self) + spec_swap_row_seg2(*self) + spec_swap_row_seg3(*self)
            + spec_swap_row_seg4(*self)
    }

    fn is_renderable(&self) -> (b: bool) {
        crate::timefmt::ts_is_renderable(self.start_time) && crate::timefmt::ts_is_renderable(
            self.end_time,
        ) && crate::numeric::decimal_is_wf(&self.average_slip) && crate::numeric::decimal_is_wf(&self.from_trade_average_slip) && crate::numeric::decimal_is_wf(&self.from_trade_volume_usd) && crate::numeric::decimal_is_wf(&self.rune_price_usd) && crate::numeric::decimal_is_wf(&self.synth_mint_average_slip) && crate::numeric::decimal_is_wf(&self.synth_mint_volume_usd) && crate::numeric::decimal_is_wf(&self.synth_redeem_average_slip) && crate::numeric::decimal_is_wf(&self.synth_redeem_volume_usd) && crate::numeric::decimal_is_wf(&self.to_asset_average_slip) && crate::numeric::decimal_is_wf(&self.to_asset_volume_usd) && crate::numeric::decimal_is_wf(&self.to_rune_average_slip) && crate::numeric::decimal_is_wf(&self.to_rune_volume_usd) && crate::numeric::decimal_is_wf(&self.to_trade_average_slip) && crate::numeric::decimal_is_wf(&self.to_trade_volume_usd) && crate::numeric::decimal_is_wf(&self.total_volume_usd)
    }

    fn append_copy_row(&self, out: &mut String) {
        append_swap_row_seg1(out, self);
        append_swap_row_seg2(out, self);
        append_swap_row_seg3(out, self);
        append_swap_row_seg4(out, self);
        proof {
            assert(final(out)@ =~= old(out)@ + self.spec_copy_row());
        }
    }
}

/// The `COPY` statement a batch of swaps rows is sent under.
pub fn copy_statement() -> (s: &'static str)
    ensures
        s@
            == "COPY swap_history (average_slip, end_time, from_trade_average_slip, from_trade_count, from_trade_fees, from_trade_volume, from_trade_volume_usd, rune_price_usd, start_time, synth_mint_average_slip, synth_mint_count, synth_mint_fees, synth_mint_volume, synth_mint_volume_usd, synth_redeem_average_slip, synth_redeem_count, synth_redeem_fees, synth_redeem_volume, synth_redeem_volume_usd, to_asset_average_slip, to_asset_count, to_asset_fees, to_asset_volume, to_asset_volume_usd, to_rune_average_slip, to_rune_count, to_rune_fees, to_rune_volume, to_rune_volume_usd, to_trade_average_slip, to_trade_count, to_trade_fees, to_trade_volume, to_trade_volume_usd, total_count, total_fees, total_volume, total_volume_usd) FROM STDIN WITH (FORMAT text, DELIMITER '\t')"@,
{
    "COPY swap_history (average_slip, end_time, from_trade_average_slip, from_trade_count, from_trade_fees, from_trade_volume, from_trade_volume_usd, rune_price_usd, start_time, synth_mint_average_slip, synth_mint_count, synth_mint_fees, synth_mint_volume, synth_mint_volume_usd, synth_redeem_average_slip, synth_redeem_count, synth_redeem_fees, synth_redeem_volume, synth_redeem_volume_usd, to_asset_average_slip, to_asset_count, to_asset_fees, to_asset_volume, to_asset_volume_usd, to_rune_average_slip, to_rune_count, to_rune_fees, to_rune_volume, to_rune_volume_usd, to_trade_average_slip, to_trade_count, to_trade_fees, to_trade_volume, to_trade_volume_usd, total_count, total_fees, total_volume, total_volume_usd) FROM STDIN WITH (FORMAT text, DELIMITER '\t')"
}

/// The single-row insert statement for a swaps record.
pub fn insert_statement() -> (s: &'static str)
    ensures
        s@
            == "INSERT INTO swap_history (average_slip, end_time, from_trade_average_slip, from_trade_count, from_trade_fees, from_trade_volume, from_trade_volume_usd, rune_price_usd, start_time, synth_mint_average_slip, synth_mint_count, synth_mint_fees, synth_mint_volume, synth_mint_volume_usd, synth_redeem_average_slip, synth_redeem_count, synth_redeem_fees, synth_redeem_volume, synth_redeem_volume_usd, to_asset_average_slip, to_asset_count, to_asset_fees, to_asset_volume, to_asset_volume_usd, to_rune_average_slip, to_rune_count, to_rune_fees, to_rune_volume, to_rune_volume_usd, to_trade_average_slip, to_trade_count, to_trade_fees, to_trade_volume, to_trade_volume_usd, total_count, total_fees, total_volume, total_volume_usd) VALUES ($1, $2, $3, $4, $5, $6, $7, $8, $9, $10, $11, $12, $13, $14, $15, $16, $17, $18, $19, $20, $21, $22, $23, $24, $25, $26, $27, $28, $29, $30, $31, $32, $33, $34, $35, $36, $37, $38) RETURNING id"@,
{
    "INSERT INTO swap_history (average_slip, end_time, from_trade_average_slip, from_trade_count, from_trade_fees, from_trade_volume, from_trade_volume_usd, rune_price_usd, start_time, synth_mint_average_slip, synth_mint_count, synth_mint_fees, synth_mint_volume, synth_mint_volume_usd, synth_redeem_average_slip, synth_redeem_count, synth_redeem_fees, synth_redeem_volume, synth_redeem_volume_usd, to_asset_average_slip, to_asset_count, to_asset_fees, to_asset_volume, to_asset_volume_usd, to_rune_average_slip, to_rune_count, to_rune_fees, to_rune_volume, to_rune_volume_usd, to_trade_average_slip, to_trade_count, to_trade_fees, to_trade_volume, to_trade_volume_usd, total_count, total_fees, total_volume, total_volume_usd) VALUES ($1, $2, $3, $4, $5, $6, $7, $8, $9, $10, $11, $12, $13, $14, $15, $16, $17, $18, $19, $20, $21, $22, $23, $24, $25, $26, $27, $28, $29, $30, $31, $32, $33, $34, $35, $36, $37, $38) RETURNING id"
}

/// The ordered bind values of a single-row insert.
#[verifier::rlimit(100)]
pub fn insert_values(r: &SwapHistory) -> (vs: Vec<QueryValue>)
    ensures
        spec_bind_models(vs@) == seq![
            BindModel::BDec(r.average_slip),
            BindModel::BTime(r.end_time),
            BindModel::BDec(r.from_trade_average_slip),
            BindModel::BInt(r.from_trade_count),
            BindModel::BInt(r.from_trade_fees),
            BindModel::BInt(r.from_trade_volume),
            BindModel::BDec(r.from_trade_volume_usd),
            BindModel::BDec(r.rune_price_usd),
            BindModel::BTime(r.start_time),
            BindModel::BDec(r.synth_mint_average_slip),
            BindModel::BInt(r.synth_mint_count),
            BindModel::BInt(r.synth_mint_fees),
            BindModel::BInt(r.synth_mint_volume),
            BindModel::BDec(r.synth_mint_volume_usd),
            BindModel::BDec(r.synth_redeem_average_slip),
            BindModel::BInt(r.synth_redeem_count),
            BindModel::BInt(r.synth_redeem_fees),
            BindModel::BInt(r.synth_redeem_volume),
            BindModel::BDec(r.synth_redeem_volume_usd),
            BindModel::BDec(r.to_asset_average_slip),
            BindModel::BInt(r.to_asset_count),
            BindModel::BInt(r.to_asset_fees),
            BindModel::BInt(r.to_asset_volume),
            BindModel::BDec(r.to_asset_volume_usd),
            BindModel::BDec(r.to_rune_average_slip),
            BindModel::BInt(r.to_rune_count),
            BindModel::BInt(r.to_rune_fees),
            BindModel::BInt(r.to_rune_volume),
            BindModel::BDec(r.to_rune_volume_usd),
            BindModel::BDec(r.to_trade_average_slip),
            BindModel::BInt(r.to_trade_count),
            BindModel::BInt(r.to_trade_fees),
            BindModel::BInt(r.to_trade_volume),
            BindModel::BDec(r.to_trade_volume_usd),
            BindModel::BInt(r.total_count),
            BindModel::BInt(r.total_fees),
            BindModel::BInt(r.total_volume),
            BindModel::BDec(r.total_volume_usd),
        ],
{
    let mut vs: Vec<QueryValue> = Vec::new();
    push_bind(&mut vs, QueryValue::Dec(r.average_slip));
    push_bind(&mut vs, QueryValue::Timestamp(r.end_time));
    push_bind(&mut vs, QueryValue::Dec(r.from_trade_average_slip));
    push_bind(&mut vs, QueryValue::Int(r.from_trade_count));
    push_bind(&mut vs, QueryValue::Int(r.from_trade_fees));
    push_bind(&mut vs, QueryValue::Int(r.from_trade_volume));
    push_bind(&mut vs, QueryValue::Dec(r.from_trade_volume_usd));
    push_bind(&mut vs, QueryValue::Dec(r.rune_price_usd));
    push_bind(&mut vs, QueryValue::Timestamp(r.start_time));
    push_bind(&mut vs, QueryValue::Dec(r.synth_mint_average_slip));
    push_bind(&mut vs, QueryValue::Int(r.synth_mint_count));
    push_bind(&mut vs, QueryValue::Int(r.synth_mint_fees));
    push_bind(&mut vs, QueryValue::Int(r.synth_mint_volume));
    push_bind(&mut vs, QueryValue::Dec(r.synth_mint_volume_usd));
    push_bind(&mut vs, QueryValue::Dec(r.synth_redeem_average_slip));
    push_bind(&mut vs, QueryValue::Int(r.synth_redeem_count));
    push_bind(&mut vs, QueryValue::Int(r.synth_redeem_fees));
    push_bind(&mut vs, QueryValue::Int(r.synth_redeem_volume));
    push_bind(&mut vs, QueryValue::Dec(r.synth_redeem_volume_usd));
    push_bind(&mut vs, QueryValue::Dec(r.to_asset_average_slip));
    push_bind(&mut vs, QueryValue::Int(r.to_asset_count));
    push_bind(&mut vs, QueryValue::Int(r.to_asset_fees));
    push_bind(&mut vs, QueryValue::Int(r.to_asset_volume));
    push_bind(&mut vs, QueryValue::Dec(r.to_asset_volume_usd));
    push_bind(&mut vs, QueryValue::Dec(r.to_rune_average_slip));
    push_bind(&mut vs, QueryValue::Int(r.to_rune_count));
    push_bind(&mut vs, QueryValue::Int(r.to_rune_fees));
    push_bind(&mut vs, QueryValue::Int(r.to_rune_volume));
    push_bind(&mut vs, QueryValue::Dec(r.to_rune_volume_usd));
    push_bind(&mut vs, QueryValue::Dec(r.to_trade_average_slip));
    push_bind(&mut vs, QueryValue::Int(r.to_trade_count));
    push_bind(&mut vs, QueryValue::Int(r.to_trade_fees));
    push_bind(&mut vs, QueryValue::Int(r.to_trade_volume));
    push_bind(&mut vs, QueryValue::Dec(r.to_trade_volume_usd));
    push_bind(&mut vs, QueryValue::Int(r.total_count));
    push_bind(&mut vs, QueryValue::Int(r.total_fees));
    push_bind(&mut vs, QueryValue::Int(r.total_volume));
    push_bind(&mut vs, QueryValue::Dec(r.total_volume_usd));
    proof {
        assert(spec_bind_models(vs@) =~= seq![
            BindModel::BDec(r.average_slip),
            BindModel::BTime(r.end_time),
            BindModel::BDec(r.from_trade_average_slip),
            BindModel::BInt(r.from_trade_count),
            BindModel::BInt(r.from_trade_fees),
            BindModel::BInt(r.from_trade_volume),
            BindModel::BDec(r.from_trade_volume_usd),
            BindModel::BDec(r.rune_price_usd),
            BindModel::BTime(r.start_time),
            BindModel::BDec(r.synth_mint_average_slip),
            BindModel::BInt(r.synth_mint_count),
            BindModel::BInt(r.synth_mint_fees),
            BindModel::BInt(r.synth_mint_volume),
            BindModel::BDec(r.synth_mint_volume_usd),
            BindModel::BDec(r.synth_redeem_average_slip),
            BindModel::BInt(r.synth_redeem_count),
            BindModel::BInt(r.synth_redeem_fees),
            BindModel::BInt(r.synth_redeem_volume),
            BindModel::BDec(r.synth_redeem_volume_usd),
            BindModel::BDec(r.to_asset_average_slip),
            BindModel::BInt(r.to_asset_count),
            BindModel::BInt(r.to_asset_fees),
            BindModel::BInt(r.to_asset_volume),
            BindModel::BDec(r.to_asset_volume_usd),
            BindModel::BDec(r.to_rune_average_slip),
            BindModel::BInt(r.to_rune_count),
            BindModel::BInt(r.to_rune_fees),
            BindModel::BInt(r.to_rune_volume),
            BindModel::BDec(r.to_rune_volume_usd),
            BindModel::BDec(r.to_trade_average_slip),
            BindModel::BInt(r.to_trade_count),
            BindModel::BInt(r.to_trade_fees),
            BindModel::BInt(r.to_trade_volume),
            BindModel::BDec(r.to_trade_volume_usd),
            BindModel::BInt(r.total_count),
            BindModel::BInt(r.total_fees),
            BindModel::BInt(r.total_volume),
            BindModel::BDec(r.total_volume_usd),
        ]);
    }
    vs
}

} // verus!
