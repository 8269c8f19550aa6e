//! The earnings resource: its typed records (one row per interval, plus a
//! child table of per-pool entries), normalizer, retrieval queries, and
//! batch encoding. The child rows are keyed by the parent row's assigned
//! identifier.

use vstd::prelude::*;

use crate::numeric::{
    decimal_to_string, decimal_wf, i64_to_string, parse_decimal, parse_decimal_or_zero,
    parse_i64, parse_i64_or_zero, spec_decimal_or_zero, spec_decimal_text, spec_decimal_value,
    spec_i64_or_zero, spec_i64_string, spec_parse_i64, DecimalValue,
};
use crate::persist::{spec_table_name, table_name, CopyRow};
use crate::query::{
    dec_bound, int32_bound, int_bound, lemma_offset_in_range, opt_int_i16, opt_int_i8,
    parse_order, plan_model, push_bind, push_comparison, render_sql, spec_bind_models,
    spec_comparison, spec_dec_bound, spec_int32_bound, spec_int_bound, spec_order_of, spec_pagination, spec_plan_binds, spec_render_sql, spec_split_range,
    spec_text_bound, spec_trunc_of_label, split_date_range, text_bound, trunc_of_label, BindModel,
    CmpOp, ColumnName, Filter, FilterValue, Pagination, PlanModel, QueryPlan, QueryValue,
    SortOrder,
};
use crate::sync::Resource;
use crate::timefmt::{renderable_ts, spec_utc_text, utc_text};
use crate::wire::{EarningInterval, Pool};

verus! {

/// One per-pool earnings entry, a child row of an earnings interval.
#[derive(Debug, Clone, PartialEq, Eq)]
pub struct EarningHistoryPool {
    pub id: Option<i32>,
    /// The parent earnings row's identifier, set when the batch is keyed.
    pub earnings_history_id: Option<i32>,
    pub pool: String,
    pub asset_liquidity_fees: i64,
    pub rune_liquidity_fees: i64,
    pub total_liquidity_fees_rune: i64,
    pub saver_earning: i64,
    pub rewards: i64,
    pub earnings: i64,
}

/// What the normalizer makes of one wire pool entry.
pub open spec fn spec_normalize_pool(p: Pool) -> EarningHistoryPool {
    EarningHistoryPool {
        id: None,
        earnings_history_id: None,
        pool: p.pool,
        asset_liquidity_fees: spec_i64_or_zero(p.asset_liquidity_fees@),
        rune_liquidity_fees: spec_i64_or_zero(p.rune_liquidity_fees@),
        total_liquidity_fees_rune: spec_i64_or_zero(p.total_liquidity_fees_rune@),
        saver_earning: spec_i64_or_zero(p.saver_earning@),
        rewards: spec_i64_or_zero(p.rewards@),
        earnings: spec_i64_or_zero(p.earnings@),
    }
}

/// Normalizes one wire pool entry; total, with the zero-default policy per
/// field.
pub fn normalize_pool(p: &Pool) -> (r: EarningHistoryPool)
    ensures
        r == spec_normalize_pool(*p),
{
    EarningHistoryPool {
        id: None,
        earnings_history_id: None,
        pool: p.pool.clone(),
        asset_liquidity_fees: parse_i64_or_zero(p.asset_liquidity_fees.as_str()),
        rune_liquidity_fees: parse_i64_or_zero(p.rune_liquidity_fees.as_str()),
        total_liquidity_fees_rune: parse_i64_or_zero(p.total_liquidity_fees_rune.as_str()),
        saver_earning: parse_i64_or_zero(p.saver_earning.as_str()),
        rewards: parse_i64_or_zero(p.rewards.as_str()),
        earnings: parse_i64_or_zero(p.earnings.as_str()),
    }
}

/// One typed earnings row, timestamps in epoch seconds; carries its
/// normalized per-pool entries until they are persisted.
#[derive(Debug, Clone, PartialEq, Eq)]
pub struct EarningHistory {
    pub id: Option<i32>,
    pub start_time: i64,
    pub end_time: i64,
    pub liquidity_fees: i64,
    pub block_rewards: i64,
    pub earnings: i64,
    pub bonding_earnings: i64,
    pub liquidity_earnings: i64,
    pub avg_node_count: DecimalValue,
    pub rune_price_usd: DecimalValue,
    pub pools: Option<Vec<EarningHistoryPool>>,
}

/// The record's decimal fields stay within the decimal value model.
pub open spec fn earning_wf(r: EarningHistory) -> bool {
    &&& decimal_wf(r.avg_node_count)
    &&& decimal_wf(r.rune_price_usd)
}

/// Normalizes one wire interval; total, with the zero-default policy per
/// field, and every nested pool entry normalized in order.
pub fn normalize(w: &EarningInterval) -> (r: EarningHistory)
    ensures
        r.id is None,
        r.start_time == spec_i64_or_zero(w.start_time@),
        r.end_time == spec_i64_or_zero(w.end_time@),
        r.liquidity_fees == spec_i64_or_zero(w.liquidity_fees@),
        r.block_rewards == spec_i64_or_zero(w.block_rewards@),
        r.earnings == spec_i64_or_zero(w.earnings@),
        r.bonding_earnings == spec_i64_or_zero(w.bonding_earnings@),
        r.liquidity_earnings == spec_i64_or_zero(w.liquidity_earnings@),
        r.avg_node_count == spec_decimal_or_zero(w.avg_node_count@),
        r.rune_price_usd == spec_decimal_or_zero(w.rune_price_usd@),
        r.pools matches Some(ps) && ps@ == w.pools@.map_values(
            |p: Pool| spec_normalize_pool(p),
        ),
        earning_wf(r),
{
    let mut pools: Vec<EarningHistoryPool> = Vec::new();
    let np = w.pools.len();
    let mut j: usize = 0;
    while j < np
        invariant
            j <= np == w.pools@.len(),
            pools@.len() == j,
            forall|k: int| 0 <= k < j ==> pools@[k] == spec_normalize_pool(
                #[trigger] w.pools@[k],
            ),
        decreases np - j,
    {
        let entry = normalize_pool(&w.pools[j]);
        pools.push(entry);
        j = j + 1;
    }
    proof {
        assert(pools@ =~= w.pools@.map_values(|p: Pool| spec_normalize_pool(p)));
    }
    EarningHistory {
        id: None,
        start_time: parse_i64_or_zero(w.start_time.as_str()),
        end_time: parse_i64_or_zero(w.end_time.as_str()),
        liquidity_fees: parse_i64_or_zero(w.liquidity_fees.as_str()),
        block_rewards: parse_i64_or_zero(w.block_rewards.as_str()),
        earnings: parse_i64_or_zero(w.earnings.as_str()),
        bonding_earnings: parse_i64_or_zero(w.bonding_earnings.as_str()),
        liquidity_earnings: parse_i64_or_zero(w.liquidity_earnings.as_str()),
        avg_node_count: parse_decimal_or_zero(w.avg_node_count.as_str()),
        rune_price_usd: parse_decimal_or_zero(w.rune_price_usd.as_str()),
        pools: Some(pools),
    }
}

/// How many of the record's numeric-string fields are malformed (and so
/// would be defaulted to zero): the normalizer's lossy tolerance, made
/// observable so callers can warn.
pub open spec fn spec_defaulted_fields(w: EarningInterval) -> int {
    (if spec_parse_i64(w.start_time@) is None { 1int } else { 0int })
        + (if spec_parse_i64(w.end_time@) is None { 1int } else { 0int })
        + (if spec_parse_i64(w.liquidity_fees@) is None { 1int } else { 0int })
        + (if spec_parse_i64(w.block_rewards@) is None { 1int } else { 0int })
        + (if spec_parse_i64(w.earnings@) is None { 1int } else { 0int })
        + (if spec_parse_i64(w.bonding_earnings@) is None { 1int } else { 0int })
        + (if spec_parse_i64(w.liquidity_earnings@) is None { 1int } else { 0int })
        + (if spec_decimal_value(w.avg_node_count@) is None { 1int } else { 0int })
        + (if spec_decimal_value(w.rune_price_usd@) is None { 1int } else { 0int })
}

/// Counts the fields the normalizer would default for this record.
#[verifier::rlimit(60)]
pub fn defaulted_fields(w: &EarningInterval) -> (n: u64)
    ensures
        n == spec_defaulted_fields(*w),
{
    let mut n: u64 = 0;
    if parse_i64(w.start_time.as_str()).is_none() {
        n = n + 1;
    }
    if parse_i64(w.end_time.as_str()).is_none() {
        n = n + 1;
    }
    if parse_i64(w.liquidity_fees.as_str()).is_none() {
        n = n + 1;
    }
    if parse_i64(w.block_rewards.as_str()).is_none() {
        n = n + 1;
    }
    if parse_i64(w.earnings.as_str()).is_none() {
        n = n + 1;
    }
    if parse_i64(w.bonding_earnings.as_str()).is_none() {
        n = n + 1;
    }
    if parse_i64(w.liquidity_earnings.as_str()).is_none() {
        n = n + 1;
    }
    if parse_decimal(w.avg_node_count.as_str()).is_none() {
        n = n + 1;
    }
    if parse_decimal(w.rune_price_usd.as_str()).is_none() {
        n = n + 1;
    }
    n
}

/// Normalizes a fetched page in order.
pub fn normalize_page(page: &Vec<EarningInterval>) -> (r: Vec<EarningHistory>)
    ensures
        r@.len() == page@.len(),
        forall|i: int| 0 <= i < page@.len() ==> (#[trigger] r@[i]).start_time == spec_i64_or_zero(
            page@[i].start_time@,
        ) && r@[i].end_time == spec_i64_or_zero(page@[i].end_time@) && earning_wf(r@[i]),
{
    let mut r: Vec<EarningHistory> = Vec::new();
    let n = page.len();
    let mut i: usize = 0;
    while i < n
        invariant
            i <= n == page@.len(),
            r@.len() == i,
            forall|j: int| 0 <= j < i ==> (#[trigger] r@[j]).start_time == spec_i64_or_zero(
                page@[j].start_time@,
            ) && r@[j].end_time == spec_i64_or_zero(page@[j].end_time@) && earning_wf(r@[j]),
        decreases n - i,
    {
        let rec = normalize(&page[i]);
        r.push(rec);
        i = i + 1;
    }
    r
}

impl EarningHistory {
    /// A well-formed interval ends strictly after it starts; a violation is
    /// an upstream data error to surface, not coerce.
    pub fn time_ordered(&self) -> (b: bool)
        ensures
            b == (self.start_time < self.end_time),
    {
        self.start_time < self.end_time
    }
}

/// The pool entries an earnings row carries.
pub open spec fn spec_pools_of(e: EarningHistory) -> Seq<EarningHistoryPool> {
    match e.pools {
        Some(ps) => ps@,
        None => Seq::empty(),
    }
}

/// A pool entry keyed by its parent row's identifier.
pub open spec fn spec_assign_parent(p: EarningHistoryPool, id: i32) -> EarningHistoryPool {
    EarningHistoryPool { earnings_history_id: Some(id), ..p }
}

/// The child rows of a batch: each earnings row's pool entries, in order,
/// each keyed by that row's assigned identifier.
pub open spec fn spec_assigned_pools(es: Seq<EarningHistory>, ids: Seq<i32>) -> Seq<
    EarningHistoryPool,
>
    recommends
        es.len() == ids.len(),
    decreases es.len(),
{
    if es.len() == 0 {
        Seq::empty()
    } else {
        spec_assigned_pools(es.drop_last(), ids.drop_last()) + spec_pools_of(
            es.last(),
        ).map_values(|p: EarningHistoryPool| spec_assign_parent(p, ids.last()))
    }
}

/// How many pool entries a batch carries in all.
pub open spec fn spec_total_pools(es: Seq<EarningHistory>) -> int
    decreases es.len(),
{
    if es.len() == 0 {
        0
    } else {
        spec_total_pools(es.drop_last()) + spec_pools_of(es.last()).len()
    }
}

/// Law: keying a batch's pool entries yields exactly one child row per
/// nested entry.
pub proof fn lemma_assigned_pools_len(es: Seq<EarningHistory>, ids: Seq<i32>)
    requires
        es.len() == ids.len(),
    ensures
        spec_assigned_pools(es, ids).len() == spec_total_pools(es),
    decreases es.len(),
{
    if es.len() > 0 {
        lemma_assigned_pools_len(es.drop_last(), ids.drop_last());
    }
}

/// One pool entry keyed by its parent's identifier.
fn assign_parent(p: &EarningHistoryPool, id: i32) -> (r: EarningHistoryPool)
    ensures
        r == spec_assign_parent(*p, id),
{
    EarningHistoryPool {
        id: p.id,
        earnings_history_id: Some(id),
        pool: p.pool.clone(),
        asset_liquidity_fees: p.asset_liquidity_fees,
        rune_liquidity_fees: p.rune_liquidity_fees,
        total_liquidity_fees_rune: p.total_liquidity_fees_rune,
        saver_earning: p.saver_earning,
        rewards: p.rewards,
        earnings: p.earnings,
    }
}

/// Flattens a persisted batch's pool entries into child rows, each carrying
/// its own parent's assigned identifier — never a sibling's.
pub fn assign_pool_parents(es: &Vec<EarningHistory>, ids: &Vec<i32>) -> (r: Vec<
    EarningHistoryPool,
>)
    requires
        es@.len() == ids@.len(),
    ensures
        r@ == spec_assigned_pools(es@, ids@),
{
    let mut r: Vec<EarningHistoryPool> = Vec::new();
    let n = es.len();
    let mut i: usize = 0;
    proof {
        assert(es@.subrange(0, 0) =~= Seq::<EarningHistory>::empty());
        assert(ids@.subrange(0, 0) =~= Seq::<i32>::empty());
    }
    while i < n
        invariant
            i <= n == es@.len(),
            ids@.len() == es@.len(),
            r@ == spec_assigned_pools(es@.subrange(0, i as int), ids@.subrange(0, i as int)),
        decreases n - i,
    {
        let ghost before = r@;
        let id = ids[i];
        match &es[i].pools {
            Some(ps) => {
                let np = ps.len();
                let mut j: usize = 0;
                while j < np
                    invariant
                        j <= np == ps@.len(),
                        ps@ == spec_pools_of(es@[i as int]),
                        r@ == before + ps@.subrange(0, j as int).map_values(
                            |p: EarningHistoryPool| spec_assign_parent(p, id),
                        ),
                    decreases np - j,
                {
                    let row = assign_parent(&ps[j], id);
                    r.push(row);
                    proof {
                        assert(r@ =~= before + ps@.subrange(0, j + 1).map_values(
                            |p: EarningHistoryPool| spec_assign_parent(p, id),
                        ));
                    }
                    j = j + 1;
                }
                proof {
                    assert(ps@.subrange(0, np as int) =~= ps@);
                }
            },
            None => {
                proof {
                    assert(spec_pools_of(es@[i as int]) =~= Seq::<EarningHistoryPool>::empty());
                }
            },
        }
        proof {
            let es_done = es@.subrange(0, i + 1);
            let ids_done = ids@.subrange(0, i + 1);
            assert(es_done.drop_last() =~= es@.subrange(0, i as int));
            assert(ids_done.drop_last() =~= ids@.subrange(0, i as int));
            assert(es_done.last() == es@[i as int]);
            assert(ids_done.last() == ids@[i as int]);
            assert(r@ =~= before + spec_pools_of(es@[i as int]).map_values(
                |p: EarningHistoryPool| spec_assign_parent(p, id),
            ));
            assert(r@ =~= spec_assigned_pools(es_done, ids_done));
        }
        i = i + 1;
    }
    proof {
        assert(es@.subrange(0, n as int) =~= es@);
        assert(ids@.subrange(0, n as int) =~= ids@);
    }
    r
}

} // verus!

verus! {

/// The queryable columns of the earnings table.
#[derive(Debug, Clone, Copy, PartialEq, Eq, Structural)]
pub enum EarningColumn {
    LiquidityFees,
    BlockRewards,
    Earnings,
    BondingEarnings,
    LiquidityEarnings,
    AvgNodeCount,
    RunePriceUsd,
    StartTime,
    EndTime,
}

impl ColumnName for EarningColumn {
    open spec fn spec_sql_name(self) -> Seq<char> {
        match self {
            EarningColumn::LiquidityFees => "liquidity_fees"@,
            EarningColumn::BlockRewards => "block_rewards"@,
            EarningColumn::Earnings => "earnings"@,
            EarningColumn::BondingEarnings => "bonding_earnings"@,
            EarningColumn::LiquidityEarnings => "liquidity_earnings"@,
            EarningColumn::AvgNodeCount => "avg_node_count"@,
            EarningColumn::RunePriceUsd => "rune_price_usd"@,
            EarningColumn::StartTime => "start_time"@,
            EarningColumn::EndTime => "end_time"@,
        }
    }

    fn sql_name(self) -> (r: &'static str) {
        match self {
            EarningColumn::LiquidityFees => "liquidity_fees",
            EarningColumn::BlockRewards => "block_rewards",
            EarningColumn::Earnings => "earnings",
            EarningColumn::BondingEarnings => "bonding_earnings",
            EarningColumn::LiquidityEarnings => "liquidity_earnings",
            EarningColumn::AvgNodeCount => "avg_node_count",
            EarningColumn::RunePriceUsd => "rune_price_usd",
            EarningColumn::StartTime => "start_time",
            EarningColumn::EndTime => "end_time",
        }
    }
}

/// The column a sort request names, if it is one of the table's columns.
pub open spec fn spec_parse_column(l: Seq<char>) -> Option<EarningColumn> {
    if l == "liquidity_fees"@ {
        Some(EarningColumn::LiquidityFees)
    } else if l == "block_rewards"@ {
        Some(EarningColumn::BlockRewards)
    } else if l == "earnings"@ {
        Some(EarningColumn::Earnings)
    } else if l == "bonding_earnings"@ {
        Some(EarningColumn::BondingEarnings)
    } else if l == "liquidity_earnings"@ {
        Some(EarningColumn::LiquidityEarnings)
    } else if l == "avg_node_count"@ {
        Some(EarningColumn::AvgNodeCount)
    } else if l == "rune_price_usd"@ {
        Some(EarningColumn::RunePriceUsd)
    } else if l == "start_time"@ {
        Some(EarningColumn::StartTime)
    } else if l == "end_time"@ {
        Some(EarningColumn::EndTime)
    } else {
        None
    }
}

/// Parses a sort-column request; unknown names sort nothing (request text
/// never reaches the SQL).
pub fn parse_column(l: &String) -> (r: Option<EarningColumn>)
    ensures
        r == spec_parse_column(l@),
{
    if *l == String::from_str("liquidity_fees") {
        Some(EarningColumn::LiquidityFees)
    } else if *l == String::from_str("block_rewards") {
        Some(EarningColumn::BlockRewards)
    } else if *l == String::from_str("earnings") {
        Some(EarningColumn::Earnings)
    } else if *l == String::from_str("bonding_earnings") {
        Some(EarningColumn::BondingEarnings)
    } else if *l == String::from_str("liquidity_earnings") {
        Some(EarningColumn::LiquidityEarnings)
    } else if *l == String::from_str("avg_node_count") {
        Some(EarningColumn::AvgNodeCount)
    } else if *l == String::from_str("rune_price_usd") {
        Some(EarningColumn::RunePriceUsd)
    } else if *l == String::from_str("start_time") {
        Some(EarningColumn::StartTime)
    } else if *l == String::from_str("end_time") {
        Some(EarningColumn::EndTime)
    } else {
        None
    }
}

/// The earnings retrieval parameters, with the nested pool filters.
#[derive(Debug, Clone, PartialEq, Eq, Default)]
pub struct QueryParams {
    pub interval: Option<String>,
    pub limit: Option<i16>,
    pub page: Option<i16>,
    pub order: Option<String>,
    pub sort_by: Option<String>,
    pub date_range: Option<String>,
    pub count: Option<i8>,
    pub liquidity_fees_lt: Option<i64>,
    pub liquidity_fees_eq: Option<i64>,
    pub liquidity_fees_gt: Option<i64>,
    pub block_rewards_lt: Option<i64>,
    pub block_rewards_eq: Option<i64>,
    pub block_rewards_gt: Option<i64>,
    pub earnings_lt: Option<i64>,
    pub earnings_eq: Option<i64>,
    pub earnings_gt: Option<i64>,
    pub bonding_earnings_lt: Option<i64>,
    pub bonding_earnings_eq: Option<i64>,
    pub bonding_earnings_gt: Option<i64>,
    pub liquidity_earnings_lt: Option<i64>,
    pub liquidity_earnings_eq: Option<i64>,
    pub liquidity_earnings_gt: Option<i64>,
    pub avg_node_count_lt: Option<DecimalValue>,
    pub avg_node_count_eq: Option<DecimalValue>,
    pub avg_node_count_gt: Option<DecimalValue>,
    pub rune_price_usd_lt: Option<DecimalValue>,
    pub rune_price_usd_eq: Option<DecimalValue>,
    pub rune_price_usd_gt: Option<DecimalValue>,
    pub pool_eq: Option<String>,
    pub pool_asset_liquidity_fees_lt: Option<i32>,
    pub pool_asset_liquidity_fees_eq: Option<i32>,
    pub pool_asset_liquidity_fees_gt: Option<i32>,
    pub pool_rune_liquidity_fees_lt: Option<i32>,
    pub pool_rune_liquidity_fees_eq: Option<i32>,
    pub pool_rune_liquidity_fees_gt: Option<i32>,
    pub pool_total_liquidity_fees_lt: Option<i32>,
    pub pool_total_liquidity_fees_eq: Option<i32>,
    pub pool_total_liquidity_fees_gt: Option<i32>,
    pub pool_saver_earning_lt: Option<i32>,
    pub pool_saver_earning_eq: Option<i32>,
    pub pool_saver_earning_gt: Option<i32>,
    pub pool_rewards_lt: Option<i32>,
    pub pool_rewards_eq: Option<i32>,
    pub pool_rewards_gt: Option<i32>,
    pub pool_earnings_lt: Option<i32>,
    pub pool_earnings_eq: Option<i32>,
    pub pool_earnings_gt: Option<i32>,
}

/// The filters an earnings request contributes, column by column.
pub open spec fn spec_filters(p: QueryParams) -> Seq<Filter<EarningColumn>> {
    Seq::empty()
        + spec_comparison(
        EarningColumn::LiquidityFees,
        spec_int_bound(p.liquidity_fees_gt),
        spec_int_bound(p.liquidity_fees_lt),
        spec_int_bound(p.liquidity_fees_eq),
    )
        + spec_comparison(
        EarningColumn::BlockRewards,
        spec_int_bound(p.block_rewards_gt),
        spec_int_bound(p.block_rewards_lt),
        spec_int_bound(p.block_rewards_eq),
    )
        + spec_comparison(
        EarningColumn::Earnings,
        spec_int_bound(p.earnings_gt),
        spec_int_bound(p.earnings_lt),
        spec_int_bound(p.earnings_eq),
    )
        + spec_comparison(
        EarningColumn::BondingEarnings,
        spec_int_bound(p.bonding_earnings_gt),
        spec_int_bound(p.bonding_earnings_lt),
        spec_int_bound(p.bonding_earnings_eq),
    )
        + spec_comparison(
        EarningColumn::LiquidityEarnings,
        spec_int_bound(p.liquidity_earnings_gt),
        spec_int_bound(p.liquidity_earnings_lt),
        spec_int_bound(p.liquidity_earnings_eq),
    )
        + spec_comparison(
        EarningColumn::AvgNodeCount,
        spec_dec_bound(p.avg_node_count_gt),
        spec_dec_bound(p.avg_node_count_lt),
        spec_dec_bound(p.avg_node_count_eq),
    )
        + spec_comparison(
        EarningColumn::RunePriceUsd,
        spec_dec_bound(p.rune_price_usd_gt),
        spec_dec_bound(p.rune_price_usd_lt),
        spec_dec_bound(p.rune_price_usd_eq),
    )
}

/// The whole plan an earnings request compiles to.
pub open spec fn spec_plan(p: QueryParams) -> PlanModel<EarningColumn> {
    PlanModel {
        interval: match p.interval {
            Some(l) => Some(spec_trunc_of_label(l@)),
            None => None,
        },
        date_range: match p.date_range {
            Some(s) => spec_split_range(s@),
            None => None,
        },
        filters: spec_filters(p),
        sort: match p.sort_by {
            Some(sb) => match spec_parse_column(sb@) {
                Some(c) => Some((c, spec_order_of(p.order))),
                None => None,
            },
            None => None,
        },
        pagination: spec_pagination(
            opt_int_i8(p.count),
            opt_int_i16(p.limit),
            opt_int_i16(p.page),
        ),
    }
}

/// Compiles an earnings request to a typed query plan.
pub fn query_plan(p: &QueryParams) -> (plan: QueryPlan<EarningColumn>)
    ensures
        plan_model(plan) == spec_plan(*p),
        plan.filters@.len() <= 21,
{
    let interval = match &p.interval {
        Some(l) => Some(trunc_of_label(l)),
        None => None,
    };
    let date_range = match &p.date_range {
        Some(s) => split_date_range(s.as_str()),
        None => None,
    };
    let mut filters: Vec<Filter<EarningColumn>> = Vec::new();
    push_comparison(
        &mut filters,
        EarningColumn::LiquidityFees,
        int_bound(&p.liquidity_fees_gt),
        int_bound(&p.liquidity_fees_lt),
        int_bound(&p.liquidity_fees_eq),
    );
    push_comparison(
        &mut filters,
        EarningColumn::BlockRewards,
        int_bound(&p.block_rewards_gt),
        int_bound(&p.block_rewards_lt),
        int_bound(&p.block_rewards_eq),
    );
    push_comparison(
        &mut filters,
        EarningColumn::Earnings,
        int_bound(&p.earnings_gt),
        int_bound(&p.earnings_lt),
        int_bound(&p.earnings_eq),
    );
    push_comparison(
        &mut filters,
        EarningColumn::BondingEarnings,
        int_bound(&p.bonding_earnings_gt),
        int_bound(&p.bonding_earnings_lt),
        int_bound(&p.bonding_earnings_eq),
    );
    push_comparison(
        &mut filters,
        EarningColumn::LiquidityEarnings,
        int_bound(&p.liquidity_earnings_gt),
        int_bound(&p.liquidity_earnings_lt),
        int_bound(&p.liquidity_earnings_eq),
    );
    push_comparison(
        &mut filters,
        EarningColumn::AvgNodeCount,
        dec_bound(&p.avg_node_count_gt),
        dec_bound(&p.avg_node_count_lt),
        dec_bound(&p.avg_node_count_eq),
    );
    push_comparison(
        &mut filters,
        EarningColumn::RunePriceUsd,
        dec_bound(&p.rune_price_usd_gt),
        dec_bound(&p.rune_price_usd_lt),
        dec_bound(&p.rune_price_usd_eq),
    );
    let sort = match &p.sort_by {
        Some(sb) => match parse_column(sb) {
            Some(c) => {
                let ord = match &p.order {
                    Some(o) => parse_order(o),
                    None => SortOrder::Ascending,
                };
                Some((c, ord))
            },
            None => None,
        },
        None => None,
    };
    let pagination = match p.count {
        Some(c) => Pagination::Count(c as i64),
        None => match p.limit {
            Some(l) => match p.page {
                Some(pg) => {
                    let pg64: i64 = pg as i64;
                    let l64: i64 = l as i64;
                    let offset: i64 = if pg64 >= 1 {
                        proof {
                            lemma_offset_in_range(pg64 as int, l64 as int);
                        }
                        (pg64 - 1) * l64
                    } else {
                        0
                    };
                    Pagination::LimitOffset { limit: l64, offset }
                },
                None => Pagination::Limit(l as i64),
            },
            None => Pagination::All,
        },
    };
    let plan = QueryPlan { interval, date_range, filters, sort, pagination };
    proof {
        assert(plan_model(plan) == spec_plan(*p));
    }
    plan
}

/// The earnings retrieval query: one parameterized `SELECT` and its binds.
#[verifier::rlimit(60)]
pub fn history_sql(p: &QueryParams) -> (r: (String, Vec<QueryValue>))
    ensures
        r.0@ == spec_render_sql(spec_table_name(Resource::Earnings), spec_plan(*p)),
        spec_bind_models(r.1@) == spec_plan_binds(spec_plan(*p)),
{
    let plan = query_plan(p);
    render_sql(table_name(Resource::Earnings), &plan)
}

/// The queryable columns of the pool-earnings child table.
#[derive(Debug, Clone, Copy, PartialEq, Eq, Structural)]
pub enum PoolColumn {
    EarningsHistoryId,
    Pool,
    AssetLiquidityFees,
    RuneLiquidityFees,
    TotalLiquidityFeesRune,
    SaverEarning,
    Rewards,
    Earnings,
}

impl ColumnName for PoolColumn {
    open spec fn spec_sql_name(self) -> Seq<char> {
        match self {
            PoolColumn::EarningsHistoryId => "earnings_history_id"@,
            PoolColumn::Pool => "pool"@,
            PoolColumn::AssetLiquidityFees => "asset_liquidity_fees"@,
            PoolColumn::RuneLiquidityFees => "rune_liquidity_fees"@,
            PoolColumn::TotalLiquidityFeesRune => "total_liquidity_fees_rune"@,
            PoolColumn::SaverEarning => "saver_earning"@,
            PoolColumn::Rewards => "rewards"@,
            PoolColumn::Earnings => "earnings"@,
        }
    }

    fn sql_name(self) -> (r: &'static str) {
        match self {
            PoolColumn::EarningsHistoryId => "earnings_history_id",
            PoolColumn::Pool => "pool",
            PoolColumn::AssetLiquidityFees => "asset_liquidity_fees",
            PoolColumn::RuneLiquidityFees => "rune_liquidity_fees",
            PoolColumn::TotalLiquidityFeesRune => "total_liquidity_fees_rune",
            PoolColumn::SaverEarning => "saver_earning",
            PoolColumn::Rewards => "rewards",
            PoolColumn::Earnings => "earnings",
        }
    }
}

/// The filter parameters of the pool-earnings child table.
#[derive(Debug, Clone, PartialEq, Eq, Default)]
pub struct EarningPoolQueryParams {
    pub pool_eq: Option<String>,
    pub asset_liquitdity_fees_lt: Option<i32>,
    pub asset_liquitdity_fees_eq: Option<i32>,
    pub asset_liquitdity_fees_gt: Option<i32>,
    pub rune_liquitdity_fees_lt: Option<i32>,
    pub rune_liquitdity_fees_eq: Option<i32>,
    pub rune_liquitdity_fees_gt: Option<i32>,
    pub total_liquitdity_fees_rune_lt: Option<i32>,
    pub total_liquitdity_fees_rune_eq: Option<i32>,
    pub total_liquitdity_fees_rune_gt: Option<i32>,
    pub saver_earning_lt: Option<i32>,
    pub saver_earning_eq: Option<i32>,
    pub saver_earning_gt: Option<i32>,
    pub rewards_lt: Option<i32>,
    pub rewards_eq: Option<i32>,
    pub rewards_gt: Option<i32>,
    pub earnings_lt: Option<i32>,
    pub earnings_eq: Option<i32>,
    pub earnings_gt: Option<i32>,
}

/// The pool filters an earnings request carries, as the child table's own
/// parameter set.
pub fn pool_params_of(p: &QueryParams) -> (r: EarningPoolQueryParams)
    ensures
        r.pool_eq == p.pool_eq,
        r.asset_liquitdity_fees_lt == p.pool_asset_liquidity_fees_lt,
        r.asset_liquitdity_fees_eq == p.pool_asset_liquidity_fees_eq,
        r.asset_liquitdity_fees_gt == p.pool_asset_liquidity_fees_gt,
        r.rune_liquitdity_fees_lt == p.pool_rune_liquidity_fees_lt,
        r.rune_liquitdity_fees_eq == p.pool_rune_liquidity_fees_eq,
        r.rune_liquitdity_fees_gt == p.pool_rune_liquidity_fees_gt,
        r.total_liquitdity_fees_rune_lt == p.pool_total_liquidity_fees_lt,
        r.total_liquitdity_fees_rune_eq == p.pool_total_liquidity_fees_eq,
        r.total_liquitdity_fees_rune_gt == p.pool_total_liquidity_fees_gt,
        r.saver_earning_lt == p.pool_saver_earning_lt,
        r.saver_earning_eq == p.pool_saver_earning_eq,
        r.saver_earning_gt == p.pool_saver_earning_gt,
        r.rewards_lt == p.pool_rewards_lt,
        r.rewards_eq == p.pool_rewards_eq,
        r.rewards_gt == p.pool_rewards_gt,
        r.earnings_lt == p.pool_earnings_lt,
        r.earnings_eq == p.pool_earnings_eq,
        r.earnings_gt == p.pool_earnings_gt,
{
    EarningPoolQueryParams {
        pool_eq: match &p.pool_eq {
            Some(s) => Some(s.clone()),
            None => None,
        },
        asset_liquitdity_fees_lt: p.pool_asset_liquidity_fees_lt,
        asset_liquitdity_fees_eq: p.pool_asset_liquidity_fees_eq,
        asset_liquitdity_fees_gt: p.pool_asset_liquidity_fees_gt,
        rune_liquitdity_fees_lt: p.pool_rune_liquidity_fees_lt,
        rune_liquitdity_fees_eq: p.pool_rune_liquidity_fees_eq,
        rune_liquitdity_fees_gt: p.pool_rune_liquidity_fees_gt,
        total_liquitdity_fees_rune_lt: p.pool_total_liquidity_fees_lt,
        total_liquitdity_fees_rune_eq: p.pool_total_liquidity_fees_eq,
        total_liquitdity_fees_rune_gt: p.pool_total_liquidity_fees_gt,
        saver_earning_lt: p.pool_saver_earning_lt,
        saver_earning_eq: p.pool_saver_earning_eq,
        saver_earning_gt: p.pool_saver_earning_gt,
        rewards_lt: p.pool_rewards_lt,
        rewards_eq: p.pool_rewards_eq,
        rewards_gt: p.pool_rewards_gt,
        earnings_lt: p.pool_earnings_lt,
        earnings_eq: p.pool_earnings_eq,
        earnings_gt: p.pool_earnings_gt,
    }
}

/// The filters a pool request contributes: the parent-row key first, then
/// the pool name, then the numeric bounds.
pub open spec fn spec_pool_filters(id: i32, p: EarningPoolQueryParams) -> Seq<Filter<PoolColumn>> {
    seq![
        Filter {
            column: PoolColumn::EarningsHistoryId,
            op: CmpOp::Equal,
            value: FilterValue::Int(id as i64),
        },
    ] + spec_comparison(
        PoolColumn::Pool,
        None,
        None,
        spec_text_bound(p.pool_eq),
    )
        + spec_comparison(
        PoolColumn::AssetLiquidityFees,
        spec_int32_bound(p.asset_liquitdity_fees_gt),
        spec_int32_bound(p.asset_liquitdity_fees_lt),
        spec_int32_bound(p.asset_liquitdity_fees_eq),
    )
        + spec_comparison(
        PoolColumn::RuneLiquidityFees,
        spec_int32_bound(p.rune_liquitdity_fees_gt),
        spec_int32_bound(p.rune_liquitdity_fees_lt),
        spec_int32_bound(p.rune_liquitdity_fees_eq),
    )
        + spec_comparison(
        PoolColumn::TotalLiquidityFeesRune,
        spec_int32_bound(p.total_liquitdity_fees_rune_gt),
        spec_int32_bound(p.total_liquitdity_fees_rune_lt),
        spec_int32_bound(p.total_liquitdity_fees_rune_eq),
    )
        + spec_comparison(
        PoolColumn::SaverEarning,
        spec_int32_bound(p.saver_earning_gt),
        spec_int32_bound(p.saver_earning_lt),
        spec_int32_bound(p.saver_earning_eq),
    )
        + spec_comparison(
        PoolColumn::Rewards,
        spec_int32_bound(p.rewards_gt),
        spec_int32_bound(p.rewards_lt),
        spec_int32_bound(p.rewards_eq),
    )
        + spec_comparison(
        PoolColumn::Earnings,
        spec_int32_bound(p.earnings_gt),
        spec_int32_bound(p.earnings_lt),
        spec_int32_bound(p.earnings_eq),
    )
}

/// The whole plan a pool request compiles to: filters only, over the child
/// table.
pub open spec fn spec_pools_plan(id: i32, p: EarningPoolQueryParams) -> PlanModel<PoolColumn> {
    PlanModel {
        interval: None,
        date_range: None,
        filters: spec_pool_filters(id, p),
        sort: None,
        pagination: Pagination::All,
    }
}

/// Compiles a pool request (for one parent row) to a typed query plan.
pub fn pools_query_plan(id: i32, p: &EarningPoolQueryParams) -> (plan: QueryPlan<PoolColumn>)
    ensures
        plan_model(plan) == spec_pools_plan(id, *p),
        plan.filters@.len() <= 20,
{
    let mut filters: Vec<Filter<PoolColumn>> = Vec::new();
    filters.push(
        Filter {
            column: PoolColumn::EarningsHistoryId,
            op: CmpOp::Equal,
            value: FilterValue::Int(id as i64),
        },
    );
    push_comparison(&mut filters, PoolColumn::Pool, None, None, text_bound(&p.pool_eq));
    push_comparison(
        &mut filters,
        PoolColumn::AssetLiquidityFees,
        int32_bound(&p.asset_liquitdity_fees_gt),
        int32_bound(&p.asset_liquitdity_fees_lt),
        int32_bound(&p.asset_liquitdity_fees_eq),
    );
    push_comparison(
        &mut filters,
        PoolColumn::RuneLiquidityFees,
        int32_bound(&p.rune_liquitdity_fees_gt),
        int32_bound(&p.rune_liquitdity_fees_lt),
        int32_bound(&p.rune_liquitdity_fees_eq),
    );
    push_comparison(
        &mut filters,
        PoolColumn::TotalLiquidityFeesRune,
        int32_bound(&p.total_liquitdity_fees_rune_gt),
        int32_bound(&p.total_liquitdity_fees_rune_lt),
        int32_bound(&p.total_liquitdity_fees_rune_eq),
    );
    push_comparison(
        &mut filters,
        PoolColumn::SaverEarning,
        int32_bound(&p.saver_earning_gt),
        int32_bound(&p.saver_earning_lt),
        int32_bound(&p.saver_earning_eq),
    );
    push_comparison(
        &mut filters,
        PoolColumn::Rewards,
        int32_bound(&p.rewards_gt),
        int32_bound(&p.rewards_lt),
        int32_bound(&p.rewards_eq),
    );
    push_comparison(
        &mut filters,
        PoolColumn::Earnings,
        int32_bound(&p.earnings_gt),
        int32_bound(&p.earnings_lt),
        int32_bound(&p.earnings_eq),
    );
    let plan = QueryPlan {
        interval: None,
        date_range: None,
        filters,
        sort: None,
        pagination: Pagination::All,
    };
    proof {
        assert(plan.filters@ =~= spec_pool_filters(id, *p));
        assert(plan_model(plan) == spec_pools_plan(id, *p));
    }
    plan
}

/// The pool-earnings retrieval query for one parent row.
#[verifier::rlimit(60)]
pub fn pools_sql(id: i32, p: &EarningPoolQueryParams) -> (r: (String, Vec<QueryValue>))
    ensures
        r.0@ == spec_render_sql("pool_earnings"@, spec_pools_plan(id, *p)),
        spec_bind_models(r.1@) == spec_plan_binds(spec_pools_plan(id, *p)),
{
    let plan = pools_query_plan(id, p);
    render_sql("pool_earnings", &plan)
}

impl CopyRow for EarningHistory {
    open spec fn copy_renderable(&self) -> bool {
        renderable_ts(self.start_time) && renderable_ts(self.end_time) && earning_wf(*self)
    }

    open spec fn spec_copy_row(&self) -> Seq<char> {
        spec_utc_text(self.start_time) + "\t"@ + spec_utc_text(self.end_time) + "\t"@
            + spec_i64_string(self.liquidity_fees as int) + "\t"@ + spec_i64_string(
            self.block_rewards as int,
        ) + "\t"@ + spec_i64_string(self.earnings as int) + "\t"@ + spec_i64_string(
            self.bonding_earnings as int,
        ) + "\t"@ + spec_i64_string(self.liquidity_earnings as int) + "\t"@ + spec_decimal_text(
            self.avg_node_count.mantissa,
            self.avg_node_count.scale,
        ) + "\t"@ + spec_decimal_text(self.rune_price_usd.mantissa, self.rune_price_usd.scale)
            + "\n"@
    }

    fn is_renderable(&self) -> (b: bool) {
        crate::timefmt::ts_is_renderable(self.start_time) && crate::timefmt::ts_is_renderable(
            self.end_time,
        ) && crate::numeric::decimal_is_wf(&self.avg_node_count) && crate::numeric::decimal_is_wf(
            &self.rune_price_usd,
        )
    }

    #[verifier::rlimit(60)]
    fn append_copy_row(&self, out: &mut String) {
        let start = utc_text(self.start_time);
        out.append(start.as_str());
        out.append("\t");
        let end = utc_text(self.end_time);
        out.append(end.as_str());
        out.append("\t");
        let f1 = i64_to_string(self.liquidity_fees);
        out.append(f1.as_str());
        out.append("\t");
        let f2 = i64_to_string(self.block_rewards);
        out.append(f2.as_str());
        out.append("\t");
        let f3 = i64_to_string(self.earnings);
        out.append(f3.as_str());
        out.append("\t");
        let f4 = i64_to_string(self.bonding_earnings);
        out.append(f4.as_str());
        out.append("\t");
        let f5 = i64_to_string(self.liquidity_earnings);
        out.append(f5.as_str());
        out.append("\t");
        let f6 = decimal_to_string(&self.avg_node_count);
        out.append(f6.as_str());
        out.append("\t");
        let f7 = decimal_to_string(&self.rune_price_usd);
        out.append(f7.as_str());
        out.append("\n");
        proof {
            assert(final(out)@ =~= old(out)@ + self.spec_copy_row());
        }
    }
}

impl CopyRow for EarningHistoryPool {
    open spec fn copy_renderable(&self) -> bool {
        self.earnings_history_id is Some
    }

    open spec fn spec_copy_row(&self) -> Seq<char> {
        (match self.earnings_history_id {
            Some(id) => spec_i64_string(id as int),
            None => Seq::empty(),
        }) + "\t"@ + self.pool@ + "\t"@ + spec_i64_string(self.asset_liquidity_fees as int)
            + "\t"@ + spec_i64_string(self.rune_liquidity_fees as int) + "\t"@
            + spec_i64_string(self.total_liquidity_fees_rune as int) + "\t"@ + spec_i64_string(
            self.saver_earning as int,
        ) + "\t"@ + spec_i64_string(self.rewards as int) + "\t"@ + spec_i64_string(
            self.earnings as int,
        ) + "\n"@
    }

    fn is_renderable(&self) -> (b: bool) {
        self.earnings_history_id.is_some()
    }

    #[verifier::rlimit(60)]
    fn append_copy_row(&self, out: &mut String) {
        let id = match self.earnings_history_id {
            Some(id) => id,
            None => {
                proof {
                    assert(false);
                }
                0
            },
        };
        let k = i64_to_string(id as i64);
        out.append(k.as_str());
        out.append("\t");
        out.append(self.pool.as_str());
        out.append("\t");
        let f1 = i64_to_string(self.asset_liquidity_fees);
        out.append(f1.as_str());
        out.append("\t");
        let f2 = i64_to_string(self.rune_liquidity_fees);
        out.append(f2.as_str());
        out.append("\t");
        let f3 = i64_to_string(self.total_liquidity_fees_rune);
        out.append(f3.as_str());
        out.append("\t");
        let f4 = i64_to_string(self.saver_earning);
        out.append(f4.as_str());
        out.append("\t");
        let f5 = i64_to_string(self.rewards);
        out.append(f5.as_str());
        out.append("\t");
        let f6 = i64_to_string(self.earnings);
        out.append(f6.as_str());
        out.append("\n");
        proof {
            assert(final(out)@ =~= old(out)@ + self.spec_copy_row());
        }
    }
}

/// The `COPY` statement a batch of earnings rows is sent under.
pub fn copy_statement() -> (s: &'static str)
    ensures
        s@
            == "COPY earnings_history (start_time, end_time, liquidity_fees, block_rewards, earnings, bonding_earnings, liquidity_earnings, avg_node_count, rune_price_usd) FROM STDIN WITH (FORMAT text, DELIMITER '\t')"@,
{
    "COPY earnings_history (start_time, end_time, liquidity_fees, block_rewards, earnings, bonding_earnings, liquidity_earnings, avg_node_count, rune_price_usd) FROM STDIN WITH (FORMAT text, DELIMITER '\t')"
}

/// The `COPY` statement a batch of keyed pool rows is sent under.
pub fn pools_copy_statement() -> (s: &'static str)
    ensures
        s@
            == "COPY pool_earnings (earnings_history_id, pool, asset_liquidity_fees, rune_liquidity_fees, total_liquidity_fees_rune, saver_earning, rewards, earnings) FROM STDIN WITH (FORMAT text, DELIMITER '\t')"@,
{
    "COPY pool_earnings (earnings_history_id, pool, asset_liquidity_fees, rune_liquidity_fees, total_liquidity_fees_rune, saver_earning, rewards, earnings) FROM STDIN WITH (FORMAT text, DELIMITER '\t')"
}

/// The single-row insert statement for an earnings record.
pub fn insert_statement() -> (s: &'static str)
    ensures
        s@
            == "INSERT INTO earnings_history (start_time, end_time, liquidity_fees, block_rewards, earnings, bonding_earnings, liquidity_earnings, avg_node_count, rune_price_usd) VALUES ($1, $2, $3, $4, $5, $6, $7, $8, $9) RETURNING id"@,
{
    "INSERT INTO earnings_history (start_time, end_time, liquidity_fees, block_rewards, earnings, bonding_earnings, liquidity_earnings, avg_node_count, rune_price_usd) VALUES ($1, $2, $3, $4, $5, $6, $7, $8, $9) RETURNING id"
}

/// The ordered bind values of a single-row earnings insert.
pub fn insert_values(r: &EarningHistory) -> (vs: Vec<QueryValue>)
    ensures
        spec_bind_models(vs@) == seq![
            BindModel::BTime(r.start_time),
            BindModel::BTime(r.end_time),
            BindModel::BInt(r.liquidity_fees),
            BindModel::BInt(r.block_rewards),
            BindModel::BInt(r.earnings),
            BindModel::BInt(r.bonding_earnings),
            BindModel::BInt(r.liquidity_earnings),
            BindModel::BDec(r.avg_node_count),
            BindModel::BDec(r.rune_price_usd),
        ],
{
    let mut vs: Vec<QueryValue> = Vec::new();
    push_bind(&mut vs, QueryValue::Timestamp(r.start_time));
    push_bind(&mut vs, QueryValue::Timestamp(r.end_time));
    push_bind(&mut vs, QueryValue::Int(r.liquidity_fees));
    push_bind(&mut vs, QueryValue::Int(r.block_rewards));
    push_bind(&mut vs, QueryValue::Int(r.earnings));
    push_bind(&mut vs, QueryValue::Int(r.bonding_earnings));
    push_bind(&mut vs, QueryValue::Int(r.liquidity_earnings));
    push_bind(&mut vs, QueryValue::Dec(r.avg_node_count));
    push_bind(&mut vs, QueryValue::Dec(r.rune_price_usd));
    proof {
        assert(spec_bind_models(vs@) =~= seq![
            BindModel::BTime(r.start_time),
            BindModel::BTime(r.end_time),
            BindModel::BInt(r.liquidity_fees),
            BindModel::BInt(r.block_rewards),
            BindModel::BInt(r.earnings),
            BindModel::BInt(r.bonding_earnings),
            BindModel::BInt(r.liquidity_earnings),
            BindModel::BDec(r.avg_node_count),
            BindModel::BDec(r.rune_price_usd),
        ]);
    }
    vs
}

/// The single-row insert statement for a keyed pool entry.
pub fn pool_insert_statement() -> (s: &'static str)
    ensures
        s@
            == "INSERT INTO pool_earnings (earnings_history_id, pool, asset_liquidity_fees, rune_liquidity_fees, total_liquidity_fees_rune, saver_earning, rewards, earnings) VALUES ($1, $2, $3, $4, $5, $6, $7, $8) RETURNING id"@,
{
    "INSERT INTO pool_earnings (earnings_history_id, pool, asset_liquidity_fees, rune_liquidity_fees, total_liquidity_fees_rune, saver_earning, rewards, earnings) VALUES ($1, $2, $3, $4, $5, $6, $7, $8) RETURNING id"
}

/// The ordered bind values of a single pool-entry insert under one parent.
pub fn pool_insert_values(earnings_history_id: i32, p: &EarningHistoryPool) -> (vs: Vec<
    QueryValue,
>)
    ensures
        spec_bind_models(vs@) == seq![
            BindModel::BInt(earnings_history_id as i64),
            BindModel::BText(p.pool@),
            BindModel::BInt(p.asset_liquidity_fees),
            BindModel::BInt(p.rune_liquidity_fees),
            BindModel::BInt(p.total_liquidity_fees_rune),
            BindModel::BInt(p.saver_earning),
            BindModel::BInt(p.rewards),
            BindModel::BInt(p.earnings),
        ],
{
    let mut vs: Vec<QueryValue> = Vec::new();
    push_bind(&mut vs, QueryValue::Int(earnings_history_id as i64));
    push_bind(&mut vs, QueryValue::Text(p.pool.clone()));
    push_bind(&mut vs, QueryValue::Int(p.asset_liquidity_fees));
    push_bind(&mut vs, QueryValue::Int(p.rune_liquidity_fees));
    push_bind(&mut vs, QueryValue::Int(p.total_liquidity_fees_rune));
    push_bind(&mut vs, QueryValue::Int(p.saver_earning));
    push_bind(&mut vs, QueryValue::Int(p.rewards));
    push_bind(&mut vs, QueryValue::Int(p.earnings));
    proof {
        assert(spec_bind_models(vs@) =~= seq![
            BindModel::BInt(earnings_history_id as i64),
            BindModel::BText(p.pool@),
            BindModel::BInt(p.asset_liquidity_fees),
            BindModel::BInt(p.rune_liquidity_fees),
            BindModel::BInt(p.total_liquidity_fees_rune),
            BindModel::BInt(p.saver_earning),
            BindModel::BInt(p.rewards),
            BindModel::BInt(p.earnings),
        ]);
    }
    vs
}

} // verus!
