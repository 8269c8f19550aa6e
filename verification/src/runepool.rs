//! The rune-pool resource: its typed record, normalizer, retrieval query,
//! and batch encoding.

use vstd::prelude::*;

use crate::numeric::{
    i64_to_string, parse_i64, parse_i64_or_zero, spec_i64_or_zero, spec_i64_string,
    spec_parse_i64,
};
use crate::persist::{spec_table_name, table_name, CopyRow};
use crate::query::{
    int_bound, lemma_offset_in_range, opt_int_i32, parse_order, plan_model,
    push_comparison, render_sql, spec_comparison, spec_int_bound, spec_order_of, spec_pagination,
    spec_plan_binds, spec_render_sql, spec_split_range, spec_trunc_of_label,
    split_date_range, trunc_of_label, ColumnName, Filter, Pagination, PlanModel, QueryPlan,
    QueryValue, SortOrder,
};
use crate::sync::Resource;
use crate::timefmt::{renderable_ts, spec_utc_text, utc_text};
use crate::wire::RunepoolInterval;

verus! {

/// One typed rune-pool row, timestamps in epoch seconds.
#[derive(Debug, Clone, PartialEq, Eq)]
pub struct Runepool {
    pub id: Option<i32>,
    pub count: i64,
    pub start_time: i64,
    pub end_time: i64,
    pub units: i64,
}

/// What the normalizer makes of one wire interval: every numeric-string
/// field parsed, with zero substituted for a malformed field.
pub open spec fn spec_normalize_runepool(w: RunepoolInterval) -> Runepool {
    Runepool {
        id: None,
        count: spec_i64_or_zero(w.count@),
        start_time: spec_i64_or_zero(w.start_time@),
        end_time: spec_i64_or_zero(w.end_time@),
        units: spec_i64_or_zero(w.units@),
    }
}

/// Normalizes one wire interval; total, with the zero-default policy per
/// field.
pub fn normalize(w: &RunepoolInterval) -> (r: Runepool)
    ensures
        r == spec_normalize_runepool(*w),
{
    Runepool {
        id: None,
        count: parse_i64_or_zero(w.count.as_str()),
        start_time: parse_i64_or_zero(w.start_time.as_str()),
        end_time: parse_i64_or_zero(w.end_time.as_str()),
        units: parse_i64_or_zero(w.units.as_str()),
    }
}

/// How many of the record's numeric-string fields are malformed (and so
/// would be defaulted to zero): the normalizer's lossy tolerance, made
/// observable so callers can warn.
pub open spec fn spec_defaulted_fields(w: RunepoolInterval) -> int {
    (if spec_parse_i64(w.count@) is None { 1int } else { 0int })
        + (if spec_parse_i64(w.start_time@) is None { 1int } else { 0int })
        + (if spec_parse_i64(w.end_time@) is None { 1int } else { 0int })
        + (if spec_parse_i64(w.units@) is None { 1int } else { 0int })
}

/// Counts the fields the normalizer would default for this record.
#[verifier::rlimit(60)]
pub fn defaulted_fields(w: &RunepoolInterval) -> (n: u64)
    ensures
        n == spec_defaulted_fields(*w),
{
    let mut n: u64 = 0;
    if parse_i64(w.count.as_str()).is_none() {
        n = n + 1;
    }
    if parse_i64(w.start_time.as_str()).is_none() {
        n = n + 1;
    }
    if parse_i64(w.end_time.as_str()).is_none() {
        n = n + 1;
    }
    if parse_i64(w.units.as_str()).is_none() {
        n = n + 1;
    }
    n
}

/// Normalizes a fetched page in order.
pub fn normalize_page(page: &Vec<RunepoolInterval>) -> (r: Vec<Runepool>)
    ensures
        r@.len() == page@.len(),
        forall|i: int| 0 <= i < page@.len() ==> r@[i] == spec_normalize_runepool(
            #[trigger] page@[i],
        ),
{
    let mut r: Vec<Runepool> = Vec::new();
    let n = page.len();
    let mut i: usize = 0;
    while i < n
        invariant
            i <= n == page@.len(),
            r@.len() == i,
            forall|j: int| 0 <= j < i ==> r@[j] == spec_normalize_runepool(#[trigger] page@[j]),
        decreases n - i,
    {
        let rec = normalize(&page[i]);
        r.push(rec);
        i = i + 1;
    }
    r
}

impl Runepool {
    /// A well-formed interval ends strictly after it starts; a violation is
    /// an upstream data error to surface, not coerce.
    pub fn time_ordered(&self) -> (b: bool)
        ensures
            b == (self.start_time < self.end_time),
    {
        self.start_time < self.end_time
    }
}

/// The queryable columns of the rune-pool table.
#[derive(Debug, Clone, Copy, PartialEq, Eq, Structural)]
pub enum RunepoolColumn {
    Count,
    StartTime,
    EndTime,
    Units,
}

impl ColumnName for RunepoolColumn {
    open spec fn spec_sql_name(self) -> Seq<char> {
        match self {
            RunepoolColumn::Count => "count"@,
            RunepoolColumn::StartTime => "start_time"@,
            RunepoolColumn::EndTime => "end_time"@,
            RunepoolColumn::Units => "units"@,
        }
    }

    fn sql_name(self) -> (r: &'static str) {
        match self {
            RunepoolColumn::Count => "count",
            RunepoolColumn::StartTime => "start_time",
            RunepoolColumn::EndTime => "end_time",
            RunepoolColumn::Units => "units",
        }
    }
}

/// The column a sort request names, if it is one of the table's columns.
pub open spec fn spec_parse_column(l: Seq<char>) -> Option<RunepoolColumn> {
    if l == "count"@ {
        Some(RunepoolColumn::Count)
    } else if l == "start_time"@ {
        Some(RunepoolColumn::StartTime)
    } else if l == "end_time"@ {
        Some(RunepoolColumn::EndTime)
    } else if l == "units"@ {
        Some(RunepoolColumn::Units)
    } else {
        None
    }
}

/// Parses a sort-column request; unknown names sort nothing (request text
/// never reaches the SQL).
pub fn parse_column(l: &String) -> (r: Option<RunepoolColumn>)
    ensures
        r == spec_parse_column(l@),
{
    if *l == String::from_str("count") {
        Some(RunepoolColumn::Count)
    } else if *l == String::from_str("start_time") {
        Some(RunepoolColumn::StartTime)
    } else if *l == String::from_str("end_time") {
        Some(RunepoolColumn::EndTime)
    } else if *l == String::from_str("units") {
        Some(RunepoolColumn::Units)
    } else {
        None
    }
}

/// The rune-pool retrieval parameters.
#[derive(Debug, Clone, PartialEq, Eq, Default)]
pub struct QueryParams {
    pub interval: Option<String>,
    pub sort_by: Option<String>,
    pub order: Option<String>,
    pub page: Option<i32>,
    pub limit: Option<i32>,
    pub count: Option<i32>,
    pub date_range: Option<String>,
    pub units_gt: Option<i64>,
    pub units_lt: Option<i64>,
    pub units_eq: Option<i64>,
}

/// The filters a request contributes.
pub open spec fn spec_filters(p: QueryParams) -> Seq<Filter<RunepoolColumn>> {
    spec_comparison(
        RunepoolColumn::Units,
        spec_int_bound(p.units_gt),
        spec_int_bound(p.units_lt),
        spec_int_bound(p.units_eq),
    )
}

/// The whole plan a request compiles to.
pub open spec fn spec_plan(p: QueryParams) -> PlanModel<RunepoolColumn> {
    PlanModel {
        interval: match p.interval {
            Some(l) => Some(spec_trunc_of_label(l@)),
            None => None,
        },
        date_range: match p.date_range {
            Some(s) => spec_split_range(s@),
            None => None,
        },
        filters: spec_filters(p),
        sort: match p.sort_by {
            Some(sb) => match spec_parse_column(sb@) {
                Some(c) => Some((c, spec_order_of(p.order))),
                None => None,
            },
            None => None,
        },
        pagination: spec_pagination(
            opt_int_i32(p.count),
            opt_int_i32(p.limit),
            opt_int_i32(p.page),
        ),
    }
}

/// Compiles a rune-pool request to a typed query plan.
pub fn query_plan(p: &QueryParams) -> (plan: QueryPlan<RunepoolColumn>)
    ensures
        plan_model(plan) == spec_plan(*p),
        plan.filters@.len() <= 3,
{
    let interval = match &p.interval {
        Some(l) => Some(trunc_of_label(l)),
        None => None,
    };
    let date_range = match &p.date_range {
        Some(s) => split_date_range(s.as_str()),
        None => None,
    };
    let mut filters: Vec<Filter<RunepoolColumn>> = Vec::new();
    push_comparison(
        &mut filters,
        RunepoolColumn::Units,
        int_bound(&p.units_gt),
        int_bound(&p.units_lt),
        int_bound(&p.units_eq),
    );
    let sort = match &p.sort_by {
        Some(sb) => match parse_column(sb) {
            Some(c) => {
                let ord = match &p.order {
                    Some(o) => parse_order(o),
                    None => SortOrder::Ascending,
                };
                Some((c, ord))
            },
            None => None,
        },
        None => None,
    };
    let pagination = match p.count {
        Some(c) => Pagination::Count(c as i64),
        None => match p.limit {
            Some(l) => match p.page {
                Some(pg) => {
                    let pg64: i64 = pg as i64;
                    let l64: i64 = l as i64;
                    let offset: i64 = if pg64 >= 1 {
                        proof {
                            lemma_offset_in_range(pg64 as int, l64 as int);
                        }
                        (pg64 - 1) * l64
                    } else {
                        0
                    };
                    Pagination::LimitOffset { limit: l64, offset }
                },
                None => Pagination::Limit(l as i64),
            },
            None => Pagination::All,
        },
    };
    let plan = QueryPlan { interval, date_range, filters, sort, pagination };
    proof {
        assert(plan_model(plan) == spec_plan(*p));
    }
    plan
}

/// The rune-pool retrieval query: one parameterized `SELECT` and its binds.
pub fn history_sql(p: &QueryParams) -> (r: (String, Vec<QueryValue>))
    ensures
        r.0@ == spec_render_sql(spec_table_name(Resource::RunePool), spec_plan(*p)),
        crate::query::spec_bind_models(r.1@) == spec_plan_binds(spec_plan(*p)),
{
    let plan = query_plan(p);
    render_sql(table_name(Resource::RunePool), &plan)
}

impl CopyRow for Runepool {
    open spec fn copy_renderable(&self) -> bool {
        renderable_ts(self.start_time) && renderable_ts(self.end_time)
    }

    open spec fn spec_copy_row(&self) -> Seq<char> {
        spec_utc_text(self.start_time) + "\t"@ + spec_utc_text(self.end_time) + "\t"@
            + spec_i64_string(self.count as int) + "\t"@ + spec_i64_string(self.units as int)
            + "\n"@
    }

    fn is_renderable(&self) -> (b: bool) {
        crate::timefmt::ts_is_renderable(self.start_time) && crate::timefmt::ts_is_renderable(
            self.end_time,
        )
    }

    fn append_copy_row(&self, out: &mut String) {
        let start = utc_text(self.start_time);
        out.append(start.as_str());
        out.append("\t");
        let end = utc_text(self.end_time);
        out.append(end.as_str());
        out.append("\t");
        let count = i64_to_string(self.count);
        out.append(count.as_str());
        out.append("\t");
        let units = i64_to_string(self.units);
        out.append(units.as_str());
        out.append("\n");
        proof {
            assert(final(out)@ =~= old(out)@ + self.spec_copy_row());
        }
    }
}

/// The `COPY` statement a batch of rune-pool rows is sent under.
pub fn copy_statement() -> (s: &'static str)
    ensures
        s@
            == "COPY rune_pool_history (start_time, end_time, count, units) FROM STDIN WITH (FORMAT text, DELIMITER '\t')"@,
{
    "COPY rune_pool_history (start_time, end_time, count, units) FROM STDIN WITH (FORMAT text, DELIMITER '\t')"
}

/// The single-row insert statement for a rune-pool record.
pub fn insert_statement() -> (s: &'static str)
    ensures
        s@
            == "INSERT INTO rune_pool_history (start_time, end_time, count, units) VALUES ($1, $2, $3, $4) RETURNING id"@,
{
    "INSERT INTO rune_pool_history (start_time, end_time, count, units) VALUES ($1, $2, $3, $4) RETURNING id"
}

/// The ordered bind values of a single-row insert.
pub fn insert_values(r: &Runepool) -> (vs: Vec<QueryValue>)
    ensures
        crate::query::spec_bind_models(vs@) == seq![
            crate::query::BindModel::BTime(r.start_time),
            crate::query::BindModel::BTime(r.end_time),
            crate::query::BindModel::BInt(r.count),
            crate::query::BindModel::BInt(r.units),
        ],
{
    let mut vs: Vec<QueryValue> = Vec::new();
    let ghost b0 = vs@;
    vs.push(QueryValue::Timestamp(r.start_time));
    let ghost b1 = vs@;
    vs.push(QueryValue::Timestamp(r.end_time));
    let ghost b2 = vs@;
    vs.push(QueryValue::Int(r.count));
    let ghost b3 = vs@;
    vs.push(QueryValue::Int(r.units));
    proof {
        crate::query::lemma_bind_models_push(b0, QueryValue::Timestamp(r.start_time));
        crate::query::lemma_bind_models_push(b1, QueryValue::Timestamp(r.end_time));
        crate::query::lemma_bind_models_push(b2, QueryValue::Int(r.count));
        crate::query::lemma_bind_models_push(b3, QueryValue::Int(r.units));
        assert(crate::query::spec_bind_models(b0) == Seq::<crate::query::BindModel>::empty());
        assert(crate::query::spec_bind_models(vs@) =~= seq![
            crate::query::BindModel::BTime(r.start_time),
            crate::query::BindModel::BTime(r.end_time),
            crate::query::BindModel::BInt(r.count),
            crate::query::BindModel::BInt(r.units),
        ]);
    }
    vs
}

} // verus!
