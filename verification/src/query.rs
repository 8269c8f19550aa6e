//! The typed retrieval-query model. The store's read path takes equality and
//! range filters per numeric column, an interval-bucket filter, a date
//! range, a sort, and limit/offset pagination. A plan is data: tagged
//! filters over typed columns with every value carried as a bind parameter,
//! so no request text can reach the SQL. `render_sql` compiles a plan to
//! one parameterized `SELECT` and its ordered bind list, both pinned
//! exactly by specification.

use vstd::prelude::*;

use crate::intervals::INTERVALS;
use crate::numeric::{spec_u64_string, u64_to_string, DecimalValue};

verus! {

/// A comparison a filter applies to its column.
#[derive(Debug, Clone, Copy, PartialEq, Eq, Structural)]
pub enum CmpOp {
    GreaterThan,
    LessThan,
    Equal,
}

/// A sort direction; ascending is the default wherever none is given.
#[derive(Debug, Clone, Copy, PartialEq, Eq, Structural)]
pub enum SortOrder {
    Ascending,
    Descending,
}

/// A filter's comparison value: a wide integer, a fixed-point decimal, or
/// text (the pool-name filter).
#[derive(Debug, Clone, PartialEq, Eq)]
pub enum FilterValue {
    Int(i64),
    Dec(DecimalValue),
    Text(String),
}

/// One comparison filter on a typed column.
#[derive(Debug, Clone)]
pub struct Filter<C> {
    pub column: C,
    pub op: CmpOp,
    pub value: FilterValue,
}

/// How a query bounds its result set.
#[derive(Debug, Clone, Copy, PartialEq, Eq, Structural)]
pub enum Pagination {
    /// No bound.
    All,
    /// A plain `LIMIT`, from the `count` parameter.
    Count(i64),
    /// A plain `LIMIT`, from the `limit` parameter.
    Limit(i64),
    /// `LIMIT` with an `OFFSET` of `(page - 1) * limit` (never negative).
    LimitOffset { limit: i64, offset: i64 },
}

/// An inclusive date range filter, `YYYY-MM-DD` bounds as received.
#[derive(Debug, Clone, PartialEq, Eq)]
pub struct DateRange {
    pub from: String,
    pub to: String,
}

/// A column set that renders to SQL identifiers.
pub trait ColumnName: Sized {
    /// The column's SQL name.
    spec fn spec_sql_name(self) -> Seq<char>;

    /// The column's SQL name.
    fn sql_name(self) -> (r: &'static str)
        ensures
            r@ == self.spec_sql_name(),
    ;
}

/// One compiled retrieval query, before rendering: typed filters and typed
/// values only.
#[derive(Debug, Clone)]
pub struct QueryPlan<C> {
    pub interval: Option<INTERVALS>,
    pub date_range: Option<DateRange>,
    pub filters: Vec<Filter<C>>,
    pub sort: Option<(C, SortOrder)>,
    pub pagination: Pagination,
}

/// One value bound into a parameterized query, in placeholder order.
#[derive(Debug, Clone, PartialEq)]
pub enum QueryValue {
    Int(i64),
    Dec(DecimalValue),
    Text(String),
    /// An instant in epoch seconds; the store binds it as a timestamp.
    Timestamp(i64),
}

/// The mathematical shadow of a bind value.
pub enum BindModel {
    BInt(i64),
    BDec(DecimalValue),
    BText(Seq<char>),
    BTime(i64),
}

/// The mathematical shadow of a bind value.
pub open spec fn spec_bind_model(v: QueryValue) -> BindModel {
    match v {
        QueryValue::Int(i) => BindModel::BInt(i),
        QueryValue::Dec(d) => BindModel::BDec(d),
        QueryValue::Text(s) => BindModel::BText(s@),
        QueryValue::Timestamp(t) => BindModel::BTime(t),
    }
}

/// The mathematical shadow of a bind list.
pub open spec fn spec_bind_models(vs: Seq<QueryValue>) -> Seq<BindModel>
    decreases vs.len(),
{
    if vs.len() == 0 {
        Seq::empty()
    } else {
        spec_bind_models(vs.drop_last()).push(spec_bind_model(vs.last()))
    }
}

/// Binding one more value appends its shadow.
pub proof fn lemma_bind_models_push(b: Seq<QueryValue>, v: QueryValue)
    ensures
        spec_bind_models(b.push(v)) == spec_bind_models(b).push(spec_bind_model(v)),
{
    assert(b.push(v).drop_last() =~= b);
    assert(b.push(v).last() == v);
}

/// The mathematical shadow of a whole plan.
pub struct PlanModel<C> {
    pub interval: Option<INTERVALS>,
    pub date_range: Option<(Seq<char>, Seq<char>)>,
    pub filters: Seq<Filter<C>>,
    pub sort: Option<(C, SortOrder)>,
    pub pagination: Pagination,
}

/// The mathematical shadow of a plan value.
pub open spec fn plan_model<C>(plan: QueryPlan<C>) -> PlanModel<C> {
    PlanModel {
        interval: plan.interval,
        date_range: match plan.date_range {
            Some(dr) => Some((dr.from@, dr.to@)),
            None => None,
        },
        filters: plan.filters@,
        sort: plan.sort,
        pagination: plan.pagination,
    }
}

/// The filter, as a singleton sequence, that one optional bound contributes.
pub open spec fn spec_opt_filter<C>(column: C, op: CmpOp, v: Option<FilterValue>) -> Seq<
    Filter<C>,
> {
    match v {
        Some(value) => seq![Filter { column, op, value }],
        None => Seq::empty(),
    }
}

/// The filters one comparison group contributes: greater-than, less-than,
/// then equality, for whichever bounds are present.
pub open spec fn spec_comparison<C>(
    column: C,
    gt: Option<FilterValue>,
    lt: Option<FilterValue>,
    eq: Option<FilterValue>,
) -> Seq<Filter<C>> {
    spec_opt_filter(column, CmpOp::GreaterThan, gt) + spec_opt_filter(column, CmpOp::LessThan, lt)
        + spec_opt_filter(column, CmpOp::Equal, eq)
}

/// Appends one comparison group's filters (shared by every resource's plan
/// builder, in place of per-service copies).
pub fn push_comparison<C: Copy>(
    filters: &mut Vec<Filter<C>>,
    column: C,
    gt: Option<FilterValue>,
    lt: Option<FilterValue>,
    eq: Option<FilterValue>,
)
    ensures
        final(filters)@ == old(filters)@ + spec_comparison(column, gt, lt, eq),
        final(filters)@.len() <= old(filters)@.len() + 3,
{
    if let Some(value) = gt {
        filters.push(Filter { column, op: CmpOp::GreaterThan, value });
    }
    if let Some(value) = lt {
        filters.push(Filter { column, op: CmpOp::LessThan, value });
    }
    if let Some(value) = eq {
        filters.push(Filter { column, op: CmpOp::Equal, value });
    }
    proof {
        assert(final(filters)@ =~= old(filters)@ + spec_comparison(column, gt, lt, eq));
    }
}

/// An optional integer bound as a filter value.
pub open spec fn spec_int_bound(v: Option<i64>) -> Option<FilterValue> {
    match v {
        Some(i) => Some(FilterValue::Int(i)),
        None => None,
    }
}

/// An optional integer bound as a filter value.
pub fn int_bound(v: &Option<i64>) -> (r: Option<FilterValue>)
    ensures
        r == spec_int_bound(*v),
{
    match v {
        Some(i) => Some(FilterValue::Int(*i)),
        None => None,
    }
}

/// An optional 32-bit integer bound as a filter value.
pub open spec fn spec_int32_bound(v: Option<i32>) -> Option<FilterValue> {
    match v {
        Some(i) => Some(FilterValue::Int(i as i64)),
        None => None,
    }
}

/// An optional 32-bit integer bound as a filter value.
pub fn int32_bound(v: &Option<i32>) -> (r: Option<FilterValue>)
    ensures
        r == spec_int32_bound(*v),
{
    match v {
        Some(i) => Some(FilterValue::Int(*i as i64)),
        None => None,
    }
}

/// An optional decimal bound as a filter value.
pub open spec fn spec_dec_bound(v: Option<DecimalValue>) -> Option<FilterValue> {
    match v {
        Some(d) => Some(FilterValue::Dec(d)),
        None => None,
    }
}

/// An optional decimal bound as a filter value.
pub fn dec_bound(v: &Option<DecimalValue>) -> (r: Option<FilterValue>)
    ensures
        r == spec_dec_bound(*v),
{
    match v {
        Some(d) => Some(FilterValue::Dec(*d)),
        None => None,
    }
}

/// An optional text bound as a filter value.
pub open spec fn spec_text_bound(v: Option<String>) -> Option<FilterValue> {
    match v {
        Some(s) => Some(FilterValue::Text(s)),
        None => None,
    }
}

/// An optional text bound as a filter value.
pub fn text_bound(v: &Option<String>) -> (r: Option<FilterValue>)
    ensures
        r == spec_text_bound(*v),
{
    match v {
        Some(s) => Some(FilterValue::Text(s.clone())),
        None => None,
    }
}

/// Appends one bind value, tracking its shadow.
pub fn push_bind(vs: &mut Vec<QueryValue>, v: QueryValue)
    ensures
        spec_bind_models(final(vs)@) == spec_bind_models(old(vs)@).push(spec_bind_model(v)),
{
    let ghost before = vs@;
    let ghost model = spec_bind_model(v);
    vs.push(v);
    proof {
        lemma_bind_models_push(before, vs@.last());
    }
}

/// The interval-bucket label mapped to a granularity; an unrecognized label
/// falls back to hourly buckets.
pub open spec fn spec_trunc_of_label(l: Seq<char>) -> INTERVALS {
    if l == "5min"@ {
        INTERVALS::Min
    } else if l == "hour"@ {
        INTERVALS::Hour
    } else if l == "day"@ {
        INTERVALS::Day
    } else if l == "week"@ {
        INTERVALS::Week
    } else if l == "month"@ {
        INTERVALS::Month
    } else if l == "quarter"@ {
        INTERVALS::Quarter
    } else if l == "year"@ {
        INTERVALS::Year
    } else {
        INTERVALS::Hour
    }
}

/// Maps an interval-bucket label to its granularity (hourly when
/// unrecognized).
pub fn trunc_of_label(l: &String) -> (r: INTERVALS)
    ensures
        r == spec_trunc_of_label(l@),
{
    if *l == String::from_str("5min") {
        INTERVALS::Min
    } else if *l == String::from_str("hour") {
        INTERVALS::Hour
    } else if *l == String::from_str("day") {
        INTERVALS::Day
    } else if *l == String::from_str("week") {
        INTERVALS::Week
    } else if *l == String::from_str("month") {
        INTERVALS::Month
    } else if *l == String::from_str("quarter") {
        INTERVALS::Quarter
    } else if *l == String::from_str("year") {
        INTERVALS::Year
    } else {
        INTERVALS::Hour
    }
}

/// The `date_trunc` expression that buckets `start_time` at a granularity.
pub open spec fn spec_trunc_sql(iv: INTERVALS) -> Seq<char> {
    match iv {
        INTERVALS::Min => "date_trunc('minute', start_time) + INTERVAL '5 minutes' * (EXTRACT(MINUTE FROM start_time)::int / 5)"@,
        INTERVALS::Hour => "date_trunc('hour', start_time)"@,
        INTERVALS::Day => "date_trunc('day', start_time)"@,
        INTERVALS::Week => "date_trunc('week', start_time)"@,
        INTERVALS::Month => "date_trunc('month', start_time)"@,
        INTERVALS::Quarter => "date_trunc('quarter', start_time)"@,
        INTERVALS::Year => "date_trunc('year', start_time)"@,
    }
}

/// The `date_trunc` expression of a granularity.
pub fn trunc_sql(iv: INTERVALS) -> (r: &'static str)
    ensures
        r@ == spec_trunc_sql(iv),
{
    match iv {
        INTERVALS::Min => "date_trunc('minute', start_time) + INTERVAL '5 minutes' * (EXTRACT(MINUTE FROM start_time)::int / 5)",
        INTERVALS::Hour => "date_trunc('hour', start_time)",
        INTERVALS::Day => "date_trunc('day', start_time)",
        INTERVALS::Week => "date_trunc('week', start_time)",
        INTERVALS::Month => "date_trunc('month', start_time)",
        INTERVALS::Quarter => "date_trunc('quarter', start_time)",
        INTERVALS::Year => "date_trunc('year', start_time)",
    }
}

/// The sort direction a request names; anything but the recognized forms of
/// `desc` sorts ascending.
pub open spec fn spec_parse_order(l: Seq<char>) -> SortOrder {
    if l == "desc"@ || l == "DESC"@ {
        SortOrder::Descending
    } else {
        SortOrder::Ascending
    }
}

/// Parses a requested sort direction.
pub fn parse_order(l: &String) -> (r: SortOrder)
    ensures
        r == spec_parse_order(l@),
{
    if *l == String::from_str("desc") || *l == String::from_str("DESC") {
        SortOrder::Descending
    } else {
        SortOrder::Ascending
    }
}

/// The sort direction of a request, ascending when absent.
pub open spec fn spec_order_of(o: Option<String>) -> SortOrder {
    match o {
        Some(l) => spec_parse_order(l@),
        None => SortOrder::Ascending,
    }
}

/// The index of the first comma of `s`, if any.
pub open spec fn spec_first_comma(s: Seq<char>) -> Option<int>
    decreases s.len(),
{
    if s.len() == 0 {
        None
    } else if s[0] == ',' {
        Some(0)
    } else {
        match spec_first_comma(s.skip(1)) {
            Some(i) => Some(i + 1),
            None => None,
        }
    }
}

/// A scan that passed `k` characters without a comma fixes where the first
/// comma can be.
proof fn lemma_first_comma_scan(s: Seq<char>, k: int)
    requires
        0 <= k <= s.len(),
        forall|j: int| 0 <= j < k ==> s[j] != ',',
    ensures
        k == s.len() ==> spec_first_comma(s) is None,
        k < s.len() && s[k] == ',' ==> spec_first_comma(s) == Some(k),
    decreases k,
{
    if k == 0 {
        if 0 < s.len() && s[0] == ',' {
        }
    } else {
        let t = s.skip(1);
        assert(forall|j: int| 0 <= j < k - 1 ==> t[j] != ',');
        lemma_first_comma_scan(t, k - 1);
        assert(s[0] != ',');
        if k < s.len() && s[k] == ',' {
            assert(t[k - 1] == ',');
        }
    }
}

/// The two bounds of a date-range request: the text before the first comma
/// and the text between the first and second comma (or the end). A request
/// without a comma carries no usable range.
pub open spec fn spec_split_range(s: Seq<char>) -> Option<(Seq<char>, Seq<char>)> {
    match spec_first_comma(s) {
        None => None,
        Some(i) => {
            let rest = s.skip(i + 1);
            match spec_first_comma(rest) {
                Some(j) => Some((s.subrange(0, i), rest.subrange(0, j))),
                None => Some((s.subrange(0, i), rest)),
            }
        },
    }
}

/// Finds the first comma at or after `start`.
fn find_comma(s: &str, start: usize) -> (r: Option<usize>)
    requires
        start <= s@.len(),
    ensures
        match r {
            Some(i) => start <= i < s@.len() && s@[i as int] == ',' && spec_first_comma(
                s@.skip(start as int),
            ) == Some(i - start),
            None => spec_first_comma(s@.skip(start as int)) is None,
        },
{
    let n = s.unicode_len();
    let mut i: usize = start;
    while i < n
        invariant
            start <= i <= n == s@.len(),
            forall|j: int| start <= j < i ==> s@[j] != ',',
        decreases n - i,
    {
        let c = s.get_char(i);
        if c == ',' {
            proof {
                let t = s@.skip(start as int);
                assert(forall|j: int| 0 <= j < i - start ==> t[j] != ',');
                assert(t[i - start] == ',');
                lemma_first_comma_scan(t, i - start);
            }
            return Some(i);
        }
        i = i + 1;
    }
    proof {
        let t = s@.skip(start as int);
        assert(forall|j: int| 0 <= j < t.len() ==> t[j] != ',');
        lemma_first_comma_scan(t, t.len() as int);
    }
    None
}

/// Splits a `from,to` date-range request at its commas; `None` when no
/// comma is present (the range filter is then skipped, never a panic).
pub fn split_date_range(s: &str) -> (r: Option<DateRange>)
    ensures
        match spec_split_range(s@) {
            None => r is None,
            Some(parts) => {
                &&& r matches Some(dr)
                &&& dr.from@ == parts.0
                &&& dr.to@ == parts.1
            },
        },
{
    let n = s.unicode_len();
    proof {
        assert(s@.skip(0) =~= s@);
    }
    match find_comma(s, 0) {
        None => None,
        Some(i) => {
            let from = s.substring_char(0, i).to_owned();
            let to = match find_comma(s, i + 1) {
                Some(j) => s.substring_char(i + 1, j),
                None => s.substring_char(i + 1, n),
            };
            proof {
                let rest = s@.skip(i + 1);
                assert(rest =~= s@.subrange(i + 1, s@.len() as int));
                match spec_first_comma(rest) {
                    Some(j) => {
                        assert(rest.subrange(0, j) =~= s@.subrange(i + 1, i + 1 + j));
                    },
                    None => {},
                }
            }
            Some(DateRange { from, to: to.to_owned() })
        },
    }
}

/// The three pagination parameters compiled to one bound: `count` wins over
/// `limit`; `page` applies only with `limit`, offset `(page - 1) * limit`,
/// clamped at zero for pages below one.
pub open spec fn spec_pagination(
    count: Option<int>,
    limit: Option<int>,
    page: Option<int>,
) -> Pagination {
    match count {
        Some(c) => Pagination::Count(c as i64),
        None => match limit {
            Some(l) => match page {
                Some(pg) => Pagination::LimitOffset {
                    limit: l as i64,
                    offset: (if pg >= 1 {
                        (pg - 1) * l
                    } else {
                        0
                    }) as i64,
                },
                None => Pagination::Limit(l as i64),
            },
            None => Pagination::All,
        },
    }
}

/// An optional 8-bit parameter widened for pagination arithmetic.
pub open spec fn opt_int_i8(o: Option<i8>) -> Option<int> {
    match o {
        Some(v) => Some(v as int),
        None => None,
    }
}

/// An optional 16-bit parameter widened for pagination arithmetic.
pub open spec fn opt_int_i16(o: Option<i16>) -> Option<int> {
    match o {
        Some(v) => Some(v as int),
        None => None,
    }
}

/// An optional 32-bit parameter widened for pagination arithmetic.
pub open spec fn opt_int_i32(o: Option<i32>) -> Option<int> {
    match o {
        Some(v) => Some(v as int),
        None => None,
    }
}

/// A page/limit product of 32-bit parameters stays far inside `i64`.
pub proof fn lemma_offset_in_range(pg: int, l: int)
    requires
        1 <= pg <= 0x7fffffff,
        -0x80000000 <= l <= 0x7fffffff,
    ensures
        -0x4000000000000000 <= (pg - 1) * l <= 0x4000000000000000,
{
    assert(-0x4000000000000000 <= (pg - 1) * l <= 0x4000000000000000) by (nonlinear_arith)
        requires
            1 <= pg <= 0x7fffffff,
            -0x80000000 <= l <= 0x7fffffff,
    ;
}

/// The comparison operator's SQL text.
pub open spec fn spec_op_sql(op: CmpOp) -> Seq<char> {
    match op {
        CmpOp::GreaterThan => " > "@,
        CmpOp::LessThan => " < "@,
        CmpOp::Equal => " = "@,
    }
}

/// The comparison operator's SQL text.
pub fn op_sql(op: CmpOp) -> (r: &'static str)
    ensures
        r@ == spec_op_sql(op),
{
    match op {
        CmpOp::GreaterThan => " > ",
        CmpOp::LessThan => " < ",
        CmpOp::Equal => " = ",
    }
}

/// The bind placeholder `$n`.
pub open spec fn spec_placeholder(n: int) -> Seq<char> {
    "$"@ + spec_u64_string(n)
}

/// Appends the bind placeholder `$n`.
fn append_placeholder(out: &mut String, n: u64)
    ensures
        final(out)@ == old(out)@ + spec_placeholder(n as int),
{
    out.append("$");
    let digits = u64_to_string(n);
    out.append(digits.as_str());
    proof {
        assert(final(out)@ =~= old(out)@ + spec_placeholder(n as int));
    }
}

/// The interval-bucket clause: keeps the rows that start a bucket of the
/// requested granularity.
pub open spec fn spec_interval_sql(interval: Option<INTERVALS>, table: Seq<char>) -> Seq<char> {
    match interval {
        Some(iv) => " AND start_time IN (SELECT DISTINCT ON ("@ + spec_trunc_sql(iv)
            + ") start_time FROM "@ + table + " WHERE true)"@,
        None => Seq::empty(),
    }
}

/// The date-range clause; its two bounds are always binds `$1` and `$2`.
pub open spec fn spec_range_sql(range: Option<(Seq<char>, Seq<char>)>) -> Seq<char> {
    match range {
        Some(_) => " AND start_time >= TO_TIMESTAMP($1, 'YYYY-MM-DD') AND end_time <= TO_TIMESTAMP($2, 'YYYY-MM-DD')"@,
        None => Seq::empty(),
    }
}

/// The filter clauses, binds numbered from `next` upward.
pub open spec fn spec_filters_sql<C: ColumnName>(fs: Seq<Filter<C>>, next: int) -> Seq<char>
    decreases fs.len(),
{
    if fs.len() == 0 {
        Seq::empty()
    } else {
        spec_filters_sql(fs.drop_last(), next) + " AND "@ + fs.last().column.spec_sql_name()
            + spec_op_sql(fs.last().op) + spec_placeholder(next + fs.len() - 1)
    }
}

/// The sort clause.
pub open spec fn spec_sort_sql<C: ColumnName>(sort: Option<(C, SortOrder)>) -> Seq<char> {
    match sort {
        Some(s) => " ORDER BY "@ + s.0.spec_sql_name() + (match s.1 {
            SortOrder::Ascending => " ASC"@,
            SortOrder::Descending => " DESC"@,
        }),
        None => Seq::empty(),
    }
}

/// The pagination clause, binds numbered from `next` upward.
pub open spec fn spec_page_sql(p: Pagination, next: int) -> Seq<char> {
    match p {
        Pagination::All => Seq::empty(),
        Pagination::Count(_) => " LIMIT "@ + spec_placeholder(next),
        Pagination::Limit(_) => " LIMIT "@ + spec_placeholder(next),
        Pagination::LimitOffset { .. } => " LIMIT "@ + spec_placeholder(next) + " OFFSET "@
            + spec_placeholder(next + 1),
    }
}

/// How many binds come before the filters: the two date bounds, if present.
pub open spec fn spec_filter_bind_base<C>(m: PlanModel<C>) -> int {
    1 + (if m.date_range is Some {
        2int
    } else {
        0int
    })
}

/// The whole `SELECT` text of a plan over a table.
pub open spec fn spec_render_sql<C: ColumnName>(table: Seq<char>, m: PlanModel<C>) -> Seq<char> {
    "SELECT * FROM "@ + table + " WHERE true"@ + spec_interval_sql(m.interval, table)
        + spec_range_sql(m.date_range) + spec_filters_sql(m.filters, spec_filter_bind_base(m))
        + spec_sort_sql(m.sort) + spec_page_sql(
        m.pagination,
        spec_filter_bind_base(m) + m.filters.len(),
    )
}

/// The bind value of one filter.
pub open spec fn spec_filter_bind(v: FilterValue) -> BindModel {
    match v {
        FilterValue::Int(i) => BindModel::BInt(i),
        FilterValue::Dec(d) => BindModel::BDec(d),
        FilterValue::Text(s) => BindModel::BText(s@),
    }
}

/// The bind values of a filter list, in order.
pub open spec fn spec_filter_binds<C>(fs: Seq<Filter<C>>) -> Seq<BindModel>
    decreases fs.len(),
{
    if fs.len() == 0 {
        Seq::empty()
    } else {
        spec_filter_binds(fs.drop_last()).push(spec_filter_bind(fs.last().value))
    }
}

/// The bind values pagination contributes.
pub open spec fn spec_page_binds(p: Pagination) -> Seq<BindModel> {
    match p {
        Pagination::All => Seq::empty(),
        Pagination::Count(c) => seq![BindModel::BInt(c)],
        Pagination::Limit(l) => seq![BindModel::BInt(l)],
        Pagination::LimitOffset { limit, offset } => seq![
            BindModel::BInt(limit),
            BindModel::BInt(offset),
        ],
    }
}

/// The bind values the date range contributes.
pub open spec fn spec_range_binds(range: Option<(Seq<char>, Seq<char>)>) -> Seq<BindModel> {
    match range {
        Some(r) => seq![BindModel::BText(r.0), BindModel::BText(r.1)],
        None => Seq::empty(),
    }
}

/// The whole ordered bind list of a plan: date bounds, filter values, then
/// pagination bounds.
pub open spec fn spec_plan_binds<C>(m: PlanModel<C>) -> Seq<BindModel> {
    spec_range_binds(m.date_range) + spec_filter_binds(m.filters) + spec_page_binds(m.pagination)
}

/// Appends the filter clauses to the SQL text and their values to the bind
/// list, placeholders numbered from `base`.
fn append_filters<C: ColumnName + Copy>(
    sql: &mut String,
    binds: &mut Vec<QueryValue>,
    filters: &Vec<Filter<C>>,
    base: usize,
)
    requires
        filters@.len() + base + 2 <= usize::MAX,
    ensures
        final(sql)@ == old(sql)@ + spec_filters_sql(filters@, base as int),
        spec_bind_models(final(binds)@) == spec_bind_models(old(binds)@) + spec_filter_binds(
            filters@,
        ),
{
    let ghost prefix = sql@;
    let ghost bind_prefix = spec_bind_models(binds@);
    let n = filters.len();
    let mut i: usize = 0;
    proof {
        assert(filters@.subrange(0, 0) =~= Seq::<Filter<C>>::empty());
        assert(sql@ =~= prefix + spec_filters_sql(filters@.subrange(0, 0), base as int));
        assert(spec_bind_models(binds@) =~= bind_prefix + spec_filter_binds(
            filters@.subrange(0, 0),
        ));
    }
    while i < n
        invariant
            i <= n == filters@.len(),
            n + base + 2 <= usize::MAX,
            sql@ == prefix + spec_filters_sql(filters@.subrange(0, i as int), base as int),
            spec_bind_models(binds@) == bind_prefix + spec_filter_binds(
                filters@.subrange(0, i as int),
            ),
        decreases n - i,
    {
        let f = &filters[i];
        sql.append(" AND ");
        sql.append(f.column.sql_name());
        sql.append(op_sql(f.op));
        append_placeholder(sql, (base + i) as u64);
        let ghost before_push = binds@;
        let qv = match &f.value {
            FilterValue::Int(v) => QueryValue::Int(*v),
            FilterValue::Dec(d) => QueryValue::Dec(*d),
            FilterValue::Text(s) => QueryValue::Text(s.clone()),
        };
        binds.push(qv);
        proof {
            let fs = filters@;
            let done = fs.subrange(0, i + 1);
            assert(done.drop_last() =~= fs.subrange(0, i as int));
            assert(done.last() == fs[i as int]);
            assert(sql@ =~= prefix + spec_filters_sql(done, base as int));
            lemma_bind_models_push(before_push, qv);
            assert(spec_bind_models(binds@) =~= bind_prefix + spec_filter_binds(done));
        }
        i = i + 1;
    }
    proof {
        assert(filters@.subrange(0, n as int) =~= filters@);
    }
}

/// Appends the sort clause.
fn append_sort<C: ColumnName + Copy>(sql: &mut String, sort: &Option<(C, SortOrder)>)
    ensures
        final(sql)@ == old(sql)@ + spec_sort_sql(*sort),
{
    match sort {
        Some(s) => {
            sql.append(" ORDER BY ");
            sql.append(s.0.sql_name());
            match s.1 {
                SortOrder::Ascending => sql.append(" ASC"),
                SortOrder::Descending => sql.append(" DESC"),
            }
            proof {
                assert(final(sql)@ =~= old(sql)@ + spec_sort_sql(*sort));
            }
        },
        None => {
            proof {
                assert(final(sql)@ =~= old(sql)@ + spec_sort_sql(*sort));
            }
        },
    }
}

/// Appends the pagination clause and its binds, placeholders from `next`.
fn append_page(sql: &mut String, binds: &mut Vec<QueryValue>, page: &Pagination, next: usize)
    requires
        next + 1 <= usize::MAX,
    ensures
        final(sql)@ == old(sql)@ + spec_page_sql(*page, next as int),
        spec_bind_models(final(binds)@) == spec_bind_models(old(binds)@) + spec_page_binds(
            *page,
        ),
{
    match page {
        Pagination::All => {},
        Pagination::Count(c) => {
            sql.append(" LIMIT ");
            append_placeholder(sql, next as u64);
            push_bind(binds, QueryValue::Int(*c));
        },
        Pagination::Limit(l) => {
            sql.append(" LIMIT ");
            append_placeholder(sql, next as u64);
            push_bind(binds, QueryValue::Int(*l));
        },
        Pagination::LimitOffset { limit, offset } => {
            sql.append(" LIMIT ");
            append_placeholder(sql, next as u64);
            sql.append(" OFFSET ");
            append_placeholder(sql, (next + 1) as u64);
            push_bind(binds, QueryValue::Int(*limit));
            push_bind(binds, QueryValue::Int(*offset));
        },
    }
    proof {
        assert(final(sql)@ =~= old(sql)@ + spec_page_sql(*page, next as int));
        assert(spec_bind_models(final(binds)@) =~= spec_bind_models(old(binds)@)
            + spec_page_binds(*page));
    }
}

/// Appends the query head: the `SELECT`, the interval-bucket clause, and the
/// date-range clause with its two binds.
fn append_head<C>(sql: &mut String, binds: &mut Vec<QueryValue>, table: &str, plan: &QueryPlan<C>)
    ensures
        final(sql)@ == old(sql)@ + "SELECT * FROM "@ + table@ + " WHERE true"@
            + spec_interval_sql(plan_model(*plan).interval, table@) + spec_range_sql(
            plan_model(*plan).date_range,
        ),
        spec_bind_models(final(binds)@) == spec_bind_models(old(binds)@) + spec_range_binds(
            plan_model(*plan).date_range,
        ),
{
    sql.append("SELECT * FROM ");
    sql.append(table);
    sql.append(" WHERE true");
    match &plan.interval {
        Some(iv) => {
            sql.append(" AND start_time IN (SELECT DISTINCT ON (");
            sql.append(trunc_sql(*iv));
            sql.append(") start_time FROM ");
            sql.append(table);
            sql.append(" WHERE true)");
        },
        None => {},
    }
    match &plan.date_range {
        Some(dr) => {
            sql.append(
                " AND start_time >= TO_TIMESTAMP($1, 'YYYY-MM-DD') AND end_time <= TO_TIMESTAMP($2, 'YYYY-MM-DD')",
            );
            push_bind(binds, QueryValue::Text(dr.from.clone()));
            push_bind(binds, QueryValue::Text(dr.to.clone()));
        },
        None => {},
    }
    proof {
        let m = plan_model(*plan);
        assert(final(sql)@ =~= old(sql)@ + "SELECT * FROM "@ + table@ + " WHERE true"@
            + spec_interval_sql(m.interval, table@) + spec_range_sql(m.date_range));
        assert(spec_bind_models(final(binds)@) =~= spec_bind_models(old(binds)@)
            + spec_range_binds(m.date_range));
    }
}

/// Compiles a plan to one parameterized `SELECT` over `table` and the
/// ordered values to bind: every request value travels as a bind, never as
/// SQL text.
#[verifier::rlimit(60)]
pub fn render_sql<C: ColumnName + Copy>(table: &str, plan: &QueryPlan<C>) -> (r: (
    String,
    Vec<QueryValue>,
))
    requires
        plan.filters@.len() + 8 <= usize::MAX,
    ensures
        r.0@ == spec_render_sql(table@, plan_model(*plan)),
        spec_bind_models(r.1@) == spec_plan_binds(plan_model(*plan)),
{
    let ghost m = plan_model(*plan);
    let mut sql = String::new();
    let mut binds: Vec<QueryValue> = Vec::new();
    append_head(&mut sql, &mut binds, table, plan);
    let base: usize = if binds.len() == 0 {
        1
    } else {
        3
    };
    proof {
        assert(spec_bind_models(binds@).len() == binds@.len()) by {
            lemma_bind_models_len(binds@);
        }
        assert(base as int == spec_filter_bind_base(m));
    }
    let n = plan.filters.len();
    append_filters(&mut sql, &mut binds, &plan.filters, base);
    append_sort(&mut sql, &plan.sort);
    let next: usize = base + n;
    append_page(&mut sql, &mut binds, &plan.pagination, next);
    proof {
        assert(sql@ =~= spec_render_sql(table@, m));
        assert(spec_bind_models(binds@) =~= spec_plan_binds(m));
    }
    (sql, binds)
}

/// A bind list and its shadow have the same length.
proof fn lemma_bind_models_len(vs: Seq<QueryValue>)
    ensures
        spec_bind_models(vs).len() == vs.len(),
    decreases vs.len(),
{
    if vs.len() > 0 {
        lemma_bind_models_len(vs.drop_last());
    }
}

} // verus!
