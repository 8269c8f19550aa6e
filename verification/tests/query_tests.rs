use midgard_sync::earnings;
use midgard_sync::numeric::DecimalValue;
use midgard_sync::persist::{last_sync_query, table_name};
use midgard_sync::price_depth;
use midgard_sync::query::QueryValue;
use midgard_sync::runepool;
use midgard_sync::swaps;
use midgard_sync::sync::Resource;

#[test]
fn table_names() {
    assert_eq!(table_name(Resource::PriceDepth), "depth_price_history");
    assert_eq!(table_name(Resource::Earnings), "earnings_history");
    assert_eq!(table_name(Resource::Swaps), "swap_history");
    assert_eq!(table_name(Resource::RunePool), "rune_pool_history");
}

#[test]
fn last_sync_queries() {
    assert_eq!(
        last_sync_query(Resource::Swaps),
        "SELECT start_time FROM swap_history ORDER BY start_time DESC LIMIT 1"
    );
    assert_eq!(
        last_sync_query(Resource::Earnings),
        "SELECT start_time FROM earnings_history ORDER BY start_time DESC LIMIT 1"
    );
}

#[test]
fn bare_request_renders_the_bare_select() {
    let p = runepool::QueryParams::default();
    let (sql, binds) = runepool::history_sql(&p);
    assert_eq!(sql, "SELECT * FROM rune_pool_history WHERE true");
    assert!(binds.is_empty());
}

#[test]
fn filters_sort_and_pagination_render_with_binds() {
    let p = runepool::QueryParams {
        units_gt: Some(100),
        sort_by: Some(String::from("units")),
        order: Some(String::from("desc")),
        limit: Some(10),
        page: Some(3),
        ..Default::default()
    };
    let (sql, binds) = runepool::history_sql(&p);
    assert_eq!(
        sql,
        "SELECT * FROM rune_pool_history WHERE true AND units > $1 ORDER BY units DESC LIMIT $2 OFFSET $3"
    );
    assert_eq!(
        binds,
        vec![QueryValue::Int(100), QueryValue::Int(10), QueryValue::Int(20)]
    );
}

#[test]
fn interval_and_date_range_render_first() {
    let p = runepool::QueryParams {
        interval: Some(String::from("day")),
        date_range: Some(String::from("2024-01-01,2024-02-01")),
        units_eq: Some(5),
        ..Default::default()
    };
    let (sql, binds) = runepool::history_sql(&p);
    assert_eq!(
        sql,
        "SELECT * FROM rune_pool_history WHERE true \
         AND start_time IN (SELECT DISTINCT ON (date_trunc('day', start_time)) start_time FROM rune_pool_history WHERE true) \
         AND start_time >= TO_TIMESTAMP($1, 'YYYY-MM-DD') AND end_time <= TO_TIMESTAMP($2, 'YYYY-MM-DD') \
         AND units = $3"
    );
    assert_eq!(
        binds,
        vec![
            QueryValue::Text(String::from("2024-01-01")),
            QueryValue::Text(String::from("2024-02-01")),
            QueryValue::Int(5),
        ]
    );
}

#[test]
fn unknown_interval_label_buckets_hourly() {
    let p = runepool::QueryParams {
        interval: Some(String::from("fortnight")),
        ..Default::default()
    };
    let (sql, _) = runepool::history_sql(&p);
    assert!(sql.contains("date_trunc('hour', start_time)"));
}

#[test]
fn five_minute_buckets_render_their_expression() {
    let p = runepool::QueryParams { interval: Some(String::from("5min")), ..Default::default() };
    let (sql, _) = runepool::history_sql(&p);
    assert!(sql.contains(
        "date_trunc('minute', start_time) + INTERVAL '5 minutes' * (EXTRACT(MINUTE FROM start_time)::int / 5)"
    ));
}

#[test]
fn date_range_without_comma_is_skipped() {
    let p = runepool::QueryParams {
        date_range: Some(String::from("2024-01-01")),
        ..Default::default()
    };
    let (sql, binds) = runepool::history_sql(&p);
    assert_eq!(sql, "SELECT * FROM rune_pool_history WHERE true");
    assert!(binds.is_empty());
}

#[test]
fn unknown_sort_column_never_reaches_the_sql() {
    let p = runepool::QueryParams {
        sort_by: Some(String::from("units; DROP TABLE rune_pool_history")),
        ..Default::default()
    };
    let (sql, _) = runepool::history_sql(&p);
    assert_eq!(sql, "SELECT * FROM rune_pool_history WHERE true");
}

#[test]
fn count_takes_precedence_over_limit() {
    let p = runepool::QueryParams {
        count: Some(7),
        limit: Some(10),
        page: Some(2),
        ..Default::default()
    };
    let (sql, binds) = runepool::history_sql(&p);
    assert_eq!(sql, "SELECT * FROM rune_pool_history WHERE true LIMIT $1");
    assert_eq!(binds, vec![QueryValue::Int(7)]);
}

#[test]
fn page_below_one_clamps_offset_to_zero() {
    let p = runepool::QueryParams { limit: Some(10), page: Some(0), ..Default::default() };
    let (_, binds) = runepool::history_sql(&p);
    assert_eq!(binds, vec![QueryValue::Int(10), QueryValue::Int(0)]);
}

#[test]
fn price_filters_render_in_column_order() {
    let p = price_depth::PriceHistoryParams {
        asset_depth_gt: Some(1000),
        asset_depth_lt: Some(9000),
        asset_price_eq: Some(DecimalValue { mantissa: 125, scale: 2 }),
        luvi_gt: Some(DecimalValue { mantissa: 1, scale: 3 }),
        ..Default::default()
    };
    let (sql, binds) = price_depth::history_sql(&p);
    assert_eq!(
        sql,
        "SELECT * FROM depth_price_history WHERE true \
         AND asset_depth > $1 AND asset_depth < $2 AND asset_price = $3 AND luvi > $4"
    );
    assert_eq!(
        binds,
        vec![
            QueryValue::Int(1000),
            QueryValue::Int(9000),
            QueryValue::Dec(DecimalValue { mantissa: 125, scale: 2 }),
            QueryValue::Dec(DecimalValue { mantissa: 1, scale: 3 }),
        ]
    );
}

#[test]
fn swap_filters_render_with_their_columns() {
    let p = swaps::QueryParams {
        from_trade_count_gt: Some(10),
        to_rune_volume_lt: Some(500),
        total_fees_eq: Some(70),
        sort_by: Some(String::from("total_volume")),
        ..Default::default()
    };
    let (sql, binds) = swaps::history_sql(&p);
    assert_eq!(
        sql,
        "SELECT * FROM swap_history WHERE true \
         AND from_trade_count > $1 AND to_rune_volume < $2 AND total_fees = $3 \
         ORDER BY total_volume ASC"
    );
    assert_eq!(
        binds,
        vec![QueryValue::Int(10), QueryValue::Int(500), QueryValue::Int(70)]
    );
}

#[test]
fn earnings_filters_render_with_their_columns() {
    let p = earnings::QueryParams {
        liquidity_fees_gt: Some(100),
        avg_node_count_lt: Some(DecimalValue { mantissa: 995, scale: 1 }),
        ..Default::default()
    };
    let (sql, binds) = earnings::history_sql(&p);
    assert_eq!(
        sql,
        "SELECT * FROM earnings_history WHERE true \
         AND liquidity_fees > $1 AND avg_node_count < $2"
    );
    assert_eq!(
        binds,
        vec![
            QueryValue::Int(100),
            QueryValue::Dec(DecimalValue { mantissa: 995, scale: 1 }),
        ]
    );
}

#[test]
fn pools_query_keys_on_the_parent_row() {
    let qp = earnings::QueryParams {
        pool_eq: Some(String::from("BTC.BTC")),
        pool_rewards_gt: Some(50),
        ..Default::default()
    };
    let pp = earnings::pool_params_of(&qp);
    let (sql, binds) = earnings::pools_sql(42, &pp);
    assert_eq!(
        sql,
        "SELECT * FROM pool_earnings WHERE true \
         AND earnings_history_id = $1 AND pool = $2 AND rewards > $3"
    );
    assert_eq!(
        binds,
        vec![
            QueryValue::Int(42),
            QueryValue::Text(String::from("BTC.BTC")),
            QueryValue::Int(50),
        ]
    );
}

#[test]
fn insert_values_follow_the_column_order() {
    let r = runepool::Runepool {
        id: None,
        count: 4,
        start_time: 1730419200,
        end_time: 1730426400,
        units: 777,
    };
    assert_eq!(
        runepool::insert_values(&r),
        vec![
            QueryValue::Timestamp(1730419200),
            QueryValue::Timestamp(1730426400),
            QueryValue::Int(4),
            QueryValue::Int(777),
        ]
    );
    assert_eq!(
        runepool::insert_statement(),
        "INSERT INTO rune_pool_history (start_time, end_time, count, units) VALUES ($1, $2, $3, $4) RETURNING id"
    );
}
