//! The price/depth resource: its typed record, normalizer, retrieval query,
//! and row persistence.

use vstd::prelude::*;

use crate::numeric::{
    decimal_wf, parse_decimal, parse_decimal_or_zero, parse_i64, parse_i64_or_zero,
    spec_decimal_or_zero, spec_decimal_value, spec_i64_or_zero, spec_parse_i64, DecimalValue,
};
use crate::persist::{spec_table_name, table_name};
use crate::query::{
    dec_bound, int_bound, lemma_offset_in_range, opt_int_i16, opt_int_i8, parse_order, plan_model,
    push_bind, push_comparison, render_sql, spec_bind_models, spec_comparison, spec_dec_bound,
    spec_int_bound, spec_order_of, spec_pagination, spec_plan_binds, spec_render_sql,
    spec_split_range, spec_trunc_of_label, split_date_range, trunc_of_label, BindModel,
    ColumnName, Filter, Pagination, PlanModel, QueryPlan, QueryValue, SortOrder,
};
use crate::sync::Resource;
use crate::wire::PriceDepthInterval;

verus! {

/// One typed price/depth row, timestamps in epoch seconds.
#[derive(Debug, Clone, PartialEq, Eq)]
pub struct PriceHistory {
    pub id: Option<i32>,
    pub start_time: i64,
    pub end_time: i64,
    pub asset_depth: i64,
    pub rune_depth: i64,
    pub asset_price: DecimalValue,
    pub asset_price_usd: DecimalValue,
    pub liquidity_units: i64,
    pub members_count: i64,
    pub synth_units: i64,
    pub synth_supply: i64,
    pub units: i64,
    pub luvi: DecimalValue,
}

/// The record's decimal fields stay within the decimal value model.
pub open spec fn price_wf(r: PriceHistory) -> bool {
    &&& decimal_wf(r.asset_price)
    &&& decimal_wf(r.asset_price_usd)
    &&& decimal_wf(r.luvi)
}

/// What the normalizer makes of one wire interval: every numeric-string
/// field parsed, with the zero default substituted for a malformed field.
pub open spec fn spec_normalize_price(w: PriceDepthInterval) -> PriceHistory {
    PriceHistory {
        id: None,
        start_time: spec_i64_or_zero(w.start_time@),
        end_time: spec_i64_or_zero(w.end_time@),
        asset_depth: spec_i64_or_zero(w.asset_depth@),
        rune_depth: spec_i64_or_zero(w.rune_depth@),
        asset_price: spec_decimal_or_zero(w.asset_price@),
        asset_price_usd: spec_decimal_or_zero(w.asset_price_usd@),
        liquidity_units: spec_i64_or_zero(w.liquidity_units@),
        members_count: spec_i64_or_zero(w.members_count@),
        synth_units: spec_i64_or_zero(w.synth_units@),
        synth_supply: spec_i64_or_zero(w.synth_supply@),
        units: spec_i64_or_zero(w.units@),
        luvi: spec_decimal_or_zero(w.luvi@),
    }
}

/// Normalizes one wire interval; total, with the zero-default policy per
/// field.
pub fn normalize(w: &PriceDepthInterval) -> (r: PriceHistory)
    ensures
        r == spec_normalize_price(*w),
        price_wf(r),
{
    PriceHistory {
        id: None,
        start_time: parse_i64_or_zero(w.start_time.as_str()),
        end_time: parse_i64_or_zero(w.end_time.as_str()),
        asset_depth: parse_i64_or_zero(w.asset_depth.as_str()),
        rune_depth: parse_i64_or_zero(w.rune_depth.as_str()),
        asset_price: parse_decimal_or_zero(w.asset_price.as_str()),
        asset_price_usd: parse_decimal_or_zero(w.asset_price_usd.as_str()),
        liquidity_units: parse_i64_or_zero(w.liquidity_units.as_str()),
        members_count: parse_i64_or_zero(w.members_count.as_str()),
        synth_units: parse_i64_or_zero(w.synth_units.as_str()),
        synth_supply: parse_i64_or_zero(w.synth_supply.as_str()),
        units: parse_i64_or_zero(w.units.as_str()),
        luvi: parse_decimal_or_zero(w.luvi.as_str()),
    }
}

/// How many of the interval's numeric-string fields are malformed (and so
/// would be defaulted to zero): the normalizer's lossy tolerance, made
/// observable so callers can warn.
pub open spec fn spec_defaulted_fields(w: PriceDepthInterval) -> int {
    (if spec_parse_i64(w.start_time@) is None { 1int } else { 0int })
        + (if spec_parse_i64(w.end_time@) is None { 1int } else { 0int })
        + (if spec_parse_i64(w.asset_depth@) is None { 1int } else { 0int })
        + (if spec_parse_i64(w.rune_depth@) is None { 1int } else { 0int })
        + (if spec_decimal_value(w.asset_price@) is None { 1int } else { 0int })
        + (if spec_decimal_value(w.asset_price_usd@) is None { 1int } else { 0int })
        + (if spec_parse_i64(w.liquidity_units@) is None { 1int } else { 0int })
        + (if spec_parse_i64(w.members_count@) is None { 1int } else { 0int })
        + (if spec_parse_i64(w.synth_units@) is None { 1int } else { 0int })
        + (if spec_parse_i64(w.synth_supply@) is None { 1int } else { 0int })
        + (if spec_parse_i64(w.units@) is None { 1int } else { 0int })
        + (if spec_decimal_value(w.luvi@) is None { 1int } else { 0int })
}

/// Counts the fields the normalizer would default for this interval.
#[verifier::rlimit(60)]
pub fn defaulted_fields(w: &PriceDepthInterval) -> (n: u64)
    ensures
        n == spec_defaulted_fields(*w),
{
    let mut n: u64 = 0;
    if parse_i64(w.start_time.as_str()).is_none() {
        n = n + 1;
    }
    if parse_i64(w.end_time.as_str()).is_none() {
        n = n + 1;
    }
    if parse_i64(w.asset_depth.as_str()).is_none() {
        n = n + 1;
    }
    if parse_i64(w.rune_depth.as_str()).is_none() {
        n = n + 1;
    }
    if parse_decimal(w.asset_price.as_str()).is_none() {
        n = n + 1;
    }
    if parse_decimal(w.asset_price_usd.as_str()).is_none() {
        n = n + 1;
    }
    if parse_i64(w.liquidity_units.as_str()).is_none() {
        n = n + 1;
    }
    if parse_i64(w.members_count.as_str()).is_none() {
        n = n + 1;
    }
    if parse_i64(w.synth_units.as_str()).is_none() {
        n = n + 1;
    }
    if parse_i64(w.synth_supply.as_str()).is_none() {
        n = n + 1;
    }
    if parse_i64(w.units.as_str()).is_none() {
        n = n + 1;
    }
    if parse_decimal(w.luvi.as_str()).is_none() {
        n = n + 1;
    }
    n
}

/// Normalizes a fetched page in order.
pub fn normalize_page(page: &Vec<PriceDepthInterval>) -> (r: Vec<PriceHistory>)
    ensures
        r@.len() == page@.len(),
        forall|i: int| 0 <= i < page@.len() ==> r@[i] == spec_normalize_price(
            #[trigger] page@[i],
        ),
{
    let mut r: Vec<PriceHistory> = Vec::new();
    let n = page.len();
    let mut i: usize = 0;
    while i < n
        invariant
            i <= n == page@.len(),
            r@.len() == i,
            forall|j: int| 0 <= j < i ==> r@[j] == spec_normalize_price(#[trigger] page@[j]),
        decreases n - i,
    {
        let rec = normalize(&page[i]);
        r.push(rec);
        i = i + 1;
    }
    r
}

impl PriceHistory {
    /// A well-formed interval ends strictly after it starts; a violation is
    /// an upstream data error to surface, not coerce.
    pub fn time_ordered(&self) -> (b: bool)
        ensures
            b == (self.start_time < self.end_time),
    {
        self.start_time < self.end_time
    }
}

/// The queryable columns of the price/depth table.
#[derive(Debug, Clone, Copy, PartialEq, Eq, Structural)]
pub enum PriceColumn {
    AssetDepth,
    RuneDepth,
    AssetPrice,
    AssetPriceUsd,
    LiquidityUnits,
    MembersCount,
    SynthUnits,
    SynthSupply,
    Units,
    Luvi,
    StartTime,
    EndTime,
}

impl ColumnName for PriceColumn {
    open spec fn spec_sql_name(self) -> Seq<char> {
        match self {
            PriceColumn::AssetDepth => "asset_depth"@,
            PriceColumn::RuneDepth => "rune_depth"@,
            PriceColumn::AssetPrice => "asset_price"@,
            PriceColumn::AssetPriceUsd => "asset_price_usd"@,
            PriceColumn::LiquidityUnits => "liquidity_units"@,
            PriceColumn::MembersCount => "members_count"@,
            PriceColumn::SynthUnits => "synth_units"@,
            PriceColumn::SynthSupply => "synth_supply"@,
            PriceColumn::Units => "units"@,
            PriceColumn::Luvi => "luvi"@,
            PriceColumn::StartTime => "start_time"@,
            PriceColumn::EndTime => "end_time"@,
        }
    }

    fn sql_name(self) -> (r: &'static str) {
        match self {
            PriceColumn::AssetDepth => "asset_depth",
            PriceColumn::RuneDepth => "rune_depth",
            PriceColumn::AssetPrice => "asset_price",
            PriceColumn::AssetPriceUsd => "asset_price_usd",
            PriceColumn::LiquidityUnits => "liquidity_units",
            PriceColumn::MembersCount => "members_count",
            PriceColumn::SynthUnits => "synth_units",
            PriceColumn::SynthSupply => "synth_supply",
            PriceColumn::Units => "units",
            PriceColumn::Luvi => "luvi",
            PriceColumn::StartTime => "start_time",
            PriceColumn::EndTime => "end_time",
        }
    }
}

/// The column a sort request names, if it is one of the table's columns.
pub open spec fn spec_parse_column(l: Seq<char>) -> Option<PriceColumn> {
    if l == "asset_depth"@ {
        Some(PriceColumn::AssetDepth)
    } else if l == "rune_depth"@ {
        Some(PriceColumn::RuneDepth)
    } else if l == "asset_price"@ {
        Some(PriceColumn::AssetPrice)
    } else if l == "asset_price_usd"@ {
        Some(PriceColumn::AssetPriceUsd)
    } else if l == "liquidity_units"@ {
        Some(PriceColumn::LiquidityUnits)
    } else if l == "members_count"@ {
        Some(PriceColumn::MembersCount)
    } else if l == "synth_units"@ {
        Some(PriceColumn::SynthUnits)
    } else if l == "synth_supply"@ {
        Some(PriceColumn::SynthSupply)
    } else if l == "units"@ {
        Some(PriceColumn::Units)
    } else if l == "luvi"@ {
        Some(PriceColumn::Luvi)
    } else if l == "start_time"@ {
        Some(PriceColumn::StartTime)
    } else if l == "end_time"@ {
        Some(PriceColumn::EndTime)
    } else {
        None
    }
}

/// Parses a sort-column request; unknown names sort nothing (request text
/// never reaches the SQL).
pub fn parse_column(l: &String) -> (r: Option<PriceColumn>)
    ensures
        r == spec_parse_column(l@),
{
    if *l == String::from_str("asset_depth") {
        Some(PriceColumn::AssetDepth)
    } else if *l == String::from_str("rune_depth") {
        Some(PriceColumn::RuneDepth)
    } else if *l == String::from_str("asset_price") {
        Some(PriceColumn::AssetPrice)
    } else if *l == String::from_str("asset_price_usd") {
        Some(PriceColumn::AssetPriceUsd)
    } else if *l == String::from_str("liquidity_units") {
        Some(PriceColumn::LiquidityUnits)
    } else if *l == String::from_str("members_count") {
        Some(PriceColumn::MembersCount)
    } else if *l == String::from_str("synth_units") {
        Some(PriceColumn::SynthUnits)
    } else if *l == String::from_str("synth_supply") {
        Some(PriceColumn::SynthSupply)
    } else if *l == String::from_str("units") {
        Some(PriceColumn::Units)
    } else if *l == String::from_str("luvi") {
        Some(PriceColumn::Luvi)
    } else if *l == String::from_str("start_time") {
        Some(PriceColumn::StartTime)
    } else if *l == String::from_str("end_time") {
        Some(PriceColumn::EndTime)
    } else {
        None
    }
}

/// The price/depth retrieval parameters.
#[derive(Debug, Clone, PartialEq, Eq, Default)]
pub struct PriceHistoryParams {
    pub interval: Option<String>,
    pub limit: Option<i16>,
    pub page: Option<i16>,
    pub order: Option<String>,
    pub sort_by: Option<String>,
    pub date_range: Option<String>,
    pub count: Option<i8>,
    pub asset_depth_gt: Option<i64>,
    pub asset_depth_lt: Option<i64>,
    pub asset_depth_eq: Option<i64>,
    pub rune_depth_gt: Option<i64>,
    pub rune_depth_lt: Option<i64>,
    pub rune_depth_eq: Option<i64>,
    pub asset_price_gt: Option<DecimalValue>,
    pub asset_price_lt: Option<DecimalValue>,
    pub asset_price_eq: Option<DecimalValue>,
    pub asset_price_usd_gt: Option<DecimalValue>,
    pub asset_price_usd_lt: Option<DecimalValue>,
    pub asset_price_usd_eq: Option<DecimalValue>,
    pub liquidity_units_gt: Option<i64>,
    pub liquidity_units_lt: Option<i64>,
    pub liquidity_units_eq: Option<i64>,
    pub members_count_gt: Option<i64>,
    pub members_count_lt: Option<i64>,
    pub members_count_eq: Option<i64>,
    pub synth_units_gt: Option<i64>,
    pub synth_units_lt: Option<i64>,
    pub synth_units_eq: Option<i64>,
    pub synth_supply_gt: Option<i64>,
    pub synth_supply_lt: Option<i64>,
    pub synth_supply_eq: Option<i64>,
    pub units_gt: Option<i64>,
    pub units_lt: Option<i64>,
    pub units_eq: Option<i64>,
    pub luvi_gt: Option<DecimalValue>,
    pub luvi_lt: Option<DecimalValue>,
    pub luvi_eq: Option<DecimalValue>,
}

/// The filters a request contributes, column by column.
pub open spec fn spec_filters(p: PriceHistoryParams) -> Seq<Filter<PriceColumn>> {
    Seq::empty()
        + spec_comparison(
        PriceColumn::AssetDepth,
        spec_int_bound(p.asset_depth_gt),
        spec_int_bound(p.asset_depth_lt),
        spec_int_bound(p.asset_depth_eq),
    )
        + spec_comparison(
        PriceColumn::RuneDepth,
        spec_int_bound(p.rune_depth_gt),
        spec_int_bound(p.rune_depth_lt),
        spec_int_bound(p.rune_depth_eq),
    )
        + spec_comparison(
        PriceColumn::AssetPrice,
        spec_dec_bound(p.asset_price_gt),
        spec_dec_bound(p.asset_price_lt),
        spec_dec_bound(p.asset_price_eq),
    )
        + spec_comparison(
        PriceColumn::AssetPriceUsd,
        spec_dec_bound(p.asset_price_usd_gt),
        spec_dec_bound(p.asset_price_usd_lt),
        spec_dec_bound(p.asset_price_usd_eq),
    )
        + spec_comparison(
        PriceColumn::LiquidityUnits,
        spec_int_bound(p.liquidity_units_gt),
        spec_int_bound(p.liquidity_units_lt),
        spec_int_bound(p.liquidity_units_eq),
    )
        + spec_comparison(
        PriceColumn::MembersCount,
        spec_int_bound(p.members_count_gt),
        spec_int_bound(p.members_count_lt),
        spec_int_bound(p.members_count_eq),
    )
        + spec_comparison(
        PriceColumn::SynthUnits,
        spec_int_bound(p.synth_units_gt),
        spec_int_bound(p.synth_units_lt),
        spec_int_bound(p.synth_units_eq),
    )
        + spec_comparison(
        PriceColumn::SynthSupply,
        spec_int_bound(p.synth_supply_gt),
        spec_int_bound(p.synth_supply_lt),
        spec_int_bound(p.synth_supply_eq),
    )
        + spec_comparison(
        PriceColumn::Units,
        spec_int_bound(p.units_gt),
        spec_int_bound(p.units_lt),
        spec_int_bound(p.units_eq),
    )
        + spec_comparison(
        PriceColumn::Luvi,
        spec_dec_bound(p.luvi_gt),
        spec_dec_bound(p.luvi_lt),
        spec_dec_bound(p.luvi_eq),
    )
}

/// The whole plan a request compiles to.
pub open spec fn spec_plan(p: PriceHistoryParams) -> PlanModel<PriceColumn> {
    PlanModel {
        interval: match p.interval {
            Some(l) => Some(spec_trunc_of_label(l@)),
            None => None,
        },
        date_range: match p.date_range {
            Some(s) => spec_split_range(s@),
            None => None,
        },
        filters: spec_filters(p),
        sort: match p.sort_by {
            Some(sb) => match spec_parse_column(sb@) {
                Some(c) => Some((c, spec_order_of(p.order))),
                None => None,
            },
            None => None,
        },
        pagination: spec_pagination(
            opt_int_i8(p.count),
            opt_int_i16(p.limit),
            opt_int_i16(p.page),
        ),
    }
}

/// Compiles a price/depth request to a typed query plan.
pub fn query_plan(p: &PriceHistoryParams) -> (plan: QueryPlan<PriceColumn>)
    ensures
        plan_model(plan) == spec_plan(*p),
        plan.filters@.len() <= 30,
{
    let interval = match &p.interval {
        Some(l) => Some(trunc_of_label(l)),
        None => None,
    };
    let date_range = match &p.date_range {
        Some(s) => split_date_range(s.as_str()),
        None => None,
    };
    let mut filters: Vec<Filter<PriceColumn>> = Vec::new();
    push_comparison(
        &mut filters,
        PriceColumn::AssetDepth,
        int_bound(&p.asset_depth_gt),
        int_bound(&p.asset_depth_lt),
        int_bound(&p.asset_depth_eq),
    );
    push_comparison(
        &mut filters,
        PriceColumn::RuneDepth,
        int_bound(&p.rune_depth_gt),
        int_bound(&p.rune_depth_lt),
        int_bound(&p.rune_depth_eq),
    );
    push_comparison(
        &mut filters,
        PriceColumn::AssetPrice,
        dec_bound(&p.asset_price_gt),
        dec_bound(&p.asset_price_lt),
        dec_bound(&p.asset_price_eq),
    );
    push_comparison(
        &mut filters,
        PriceColumn::AssetPriceUsd,
        dec_bound(&p.asset_price_usd_gt),
        dec_bound(&p.asset_price_usd_lt),
        dec_bound(&p.asset_price_usd_eq),
    );
    push_comparison(
        &mut filters,
        PriceColumn::LiquidityUnits,
        int_bound(&p.liquidity_units_gt),
        int_bound(&p.liquidity_units_lt),
        int_bound(&p.liquidity_units_eq),
    );
    push_comparison(
        &mut filters,
        PriceColumn::MembersCount,
        int_bound(&p.members_count_gt),
        int_bound(&p.members_count_lt),
        int_bound(&p.members_count_eq),
    );
    push_comparison(
        &mut filters,
        PriceColumn::SynthUnits,
        int_bound(&p.synth_units_gt),
        int_bound(&p.synth_units_lt),
        int_bound(&p.synth_units_eq),
    );
    push_comparison(
        &mut filters,
        PriceColumn::SynthSupply,
        int_bound(&p.synth_supply_gt),
        int_bound(&p.synth_supply_lt),
        int_bound(&p.synth_supply_eq),
    );
    push_comparison(
        &mut filters,
        PriceColumn::Units,
        int_bound(&p.units_gt),
        int_bound(&p.units_lt),
        int_bound(&p.units_eq),
    );
    push_comparison(
        &mut filters,
        PriceColumn::Luvi,
        dec_bound(&p.luvi_gt),
        dec_bound(&p.luvi_lt),
        dec_bound(&p.luvi_eq),
    );
    let sort = match &p.sort_by {
        Some(sb) => match parse_column(sb) {
            Some(c) => {
                let ord = match &p.order {
                    Some(o) => parse_order(o),
                    None => SortOrder::Ascending,
                };
                Some((c, ord))
            },
            None => None,
        },
        None => None,
    };
    let pagination = match p.count {
        Some(c) => Pagination::Count(c as i64),
        None => match p.limit {
            Some(l) => match p.page {
                Some(pg) => {
                    let pg64: i64 = pg as i64;
                    let l64: i64 = l as i64;
                    let offset: i64 = if pg64 >= 1 {
                        proof {
                            lemma_offset_in_range(pg64 as int, l64 as int);
                        }
                        (pg64 - 1) * l64
                    } else {
                        0
                    };
                    Pagination::LimitOffset { limit: l64, offset }
                },
                None => Pagination::Limit(l as i64),
            },
            None => Pagination::All,
        },
    };
    let plan = QueryPlan { interval, date_range, filters, sort, pagination };
    proof {
        assert(plan_model(plan) == spec_plan(*p));
    }
    plan
}

/// The price/depth retrieval query: one parameterized `SELECT` and its
/// binds.
#[verifier::rlimit(60)]
pub fn history_sql(p: &PriceHistoryParams) -> (r: (String, Vec<QueryValue>))
    ensures
        r.0@ == spec_render_sql(spec_table_name(Resource::PriceDepth), spec_plan(*p)),
        spec_bind_models(r.1@) == spec_plan_binds(spec_plan(*p)),
{
    let plan = query_plan(p);
    render_sql(table_name(Resource::PriceDepth), &plan)
}

/// The single-row insert statement for a price/depth record.
pub fn insert_statement() -> (s: &'static str)
    ensures
        s@
            == "INSERT INTO depth_price_history (start_time, end_time, asset_depth, rune_depth, asset_price, asset_price_usd, liquidity_units, members_count, synth_units, synth_supply, units, luvi) VALUES ($1, $2, $3, $4, $5, $6, $7, $8, $9, $10, $11, $12) RETURNING id"@,
{
    "INSERT INTO depth_price_history (start_time, end_time, asset_depth, rune_depth, asset_price, asset_price_usd, liquidity_units, members_count, synth_units, synth_supply, units, luvi) VALUES ($1, $2, $3, $4, $5, $6, $7, $8, $9, $10, $11, $12) RETURNING id"
}

/// The ordered bind values of a single-row insert.
pub fn insert_values(r: &PriceHistory) -> (vs: Vec<QueryValue>)
    ensures
        spec_bind_models(vs@) == seq![
            BindModel::BTime(r.start_time),
            BindModel::BTime(r.end_time),
            BindModel::BInt(r.asset_depth),
            BindModel::BInt(r.rune_depth),
            BindModel::BDec(r.asset_price),
            BindModel::BDec(r.asset_price_usd),
            BindModel::BInt(r.liquidity_units),
            BindModel::BInt(r.members_count),
            BindModel::BInt(r.synth_units),
            BindModel::BInt(r.synth_supply),
            BindModel::BInt(r.units),
            BindModel::BDec(r.luvi),
        ],
{
    let mut vs: Vec<QueryValue> = Vec::new();
    push_bind(&mut vs, QueryValue::Timestamp(r.start_time));
    push_bind(&mut vs, QueryValue::Timestamp(r.end_time));
    push_bind(&mut vs, QueryValue::Int(r.asset_depth));
    push_bind(&mut vs, QueryValue::Int(r.rune_depth));
    push_bind(&mut vs, QueryValue::Dec(r.asset_price));
    push_bind(&mut vs, QueryValue::Dec(r.asset_price_usd));
    push_bind(&mut vs, QueryValue::Int(r.liquidity_units));
    push_bind(&mut vs, QueryValue::Int(r.members_count));
    push_bind(&mut vs, QueryValue::Int(r.synth_units));
    push_bind(&mut vs, QueryValue::Int(r.synth_supply));
    push_bind(&mut vs, QueryValue::Int(r.units));
    push_bind(&mut vs, QueryValue::Dec(r.luvi));
    proof {
        assert(spec_bind_models(vs@) =~= seq![
            BindModel::BTime(r.start_time),
            BindModel::BTime(r.end_time),
            BindModel::BInt(r.asset_depth),
            BindModel::BInt(r.rune_depth),
            BindModel::BDec(r.asset_price),
            BindModel::BDec(r.asset_price_usd),
            BindModel::BInt(r.liquidity_units),
            BindModel::BInt(r.members_count),
            BindModel::BInt(r.synth_units),
            BindModel::BInt(r.synth_supply),
            BindModel::BInt(r.units),
            BindModel::BDec(r.luvi),
        ]);
    }
    vs
}

} // verus!
