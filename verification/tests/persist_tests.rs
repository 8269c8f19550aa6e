use midgard_sync::earnings::{self, EarningHistory, EarningHistoryPool};
use midgard_sync::numeric::DecimalValue;
use midgard_sync::persist::{copy_batch, copy_chunks};
use midgard_sync::runepool::{self, Runepool};
use midgard_sync::swaps;
use midgard_sync::wire::{EarningInterval, Pool};

fn rune_row(start: i64, end: i64, count: i64, units: i64) -> Runepool {
    Runepool { id: None, count, start_time: start, end_time: end, units }
}

#[test]
fn runepool_copy_rows_are_tab_separated_with_utc_text() {
    let rows = vec![
        rune_row(1730419200, 1730426400, 4, 777),
        rune_row(1730426400, 1730433600, 5, -3),
    ];
    let text = copy_batch(&rows, 0, rows.len());
    assert_eq!(
        text,
        "2024-11-01 00:00:00 UTC\t2024-11-01 02:00:00 UTC\t4\t777\n\
         2024-11-01 02:00:00 UTC\t2024-11-01 04:00:00 UTC\t5\t-3\n"
    );
}

#[test]
fn copy_batch_takes_a_subrange() {
    let rows = vec![
        rune_row(1730419200, 1730426400, 1, 1),
        rune_row(1730426400, 1730433600, 2, 2),
        rune_row(1730433600, 1730440800, 3, 3),
    ];
    let text = copy_batch(&rows, 1, 2);
    assert_eq!(text, "2024-11-01 02:00:00 UTC\t2024-11-01 04:00:00 UTC\t2\t2\n");
}

#[test]
fn chunking_splits_at_five_thousand_rows() {
    let mut rows: Vec<Runepool> = Vec::new();
    for i in 0..5002i64 {
        rows.push(rune_row(1730419200 + i, 1730419201 + i, i, i));
    }
    let chunks = copy_chunks(&rows);
    assert_eq!(chunks.len(), 2);
    assert_eq!(chunks[0].matches('\n').count(), 5000);
    assert_eq!(chunks[1].matches('\n').count(), 2);
    let whole: String = chunks.concat();
    assert_eq!(whole.matches('\n').count(), 5002);
    assert!(whole.starts_with("2024-11-01 00:00:00 UTC\t"));
}

#[test]
fn empty_batch_has_no_chunks() {
    let rows: Vec<Runepool> = Vec::new();
    assert_eq!(copy_chunks(&rows).len(), 0);
}

#[test]
fn runepool_copy_statement_text() {
    assert_eq!(
        runepool::copy_statement(),
        "COPY rune_pool_history (start_time, end_time, count, units) FROM STDIN WITH (FORMAT text, DELIMITER '\t')"
    );
}

fn earning(pools: Vec<Pool>) -> EarningHistory {
    earnings::normalize(&EarningInterval {
        start_time: String::from("1730419200"),
        end_time: String::from("1730426400"),
        liquidity_fees: String::from("100"),
        block_rewards: String::from("200"),
        earnings: String::from("300"),
        bonding_earnings: String::from("250"),
        liquidity_earnings: String::from("50"),
        avg_node_count: String::from("99.5"),
        rune_price_usd: String::from("4.20"),
        pools,
    })
}

fn pool_wire(name: &str) -> Pool {
    Pool {
        pool: String::from(name),
        asset_liquidity_fees: String::from("11"),
        rune_liquidity_fees: String::from("22"),
        total_liquidity_fees_rune: String::from("33"),
        saver_earning: String::from("44"),
        rewards: String::from("55"),
        earnings: String::from("66"),
    }
}

#[test]
fn earnings_copy_row_text() {
    let rows = vec![earning(vec![])];
    let text = copy_batch(&rows, 0, 1);
    assert_eq!(
        text,
        "2024-11-01 00:00:00 UTC\t2024-11-01 02:00:00 UTC\t100\t200\t300\t250\t50\t99.5\t4.20\n"
    );
}

#[test]
fn decimal_fields_render_exactly_through_the_encoder() {
    let mut e = earning(vec![]);
    e.avg_node_count = DecimalValue { mantissa: -1250, scale: 2 };
    e.rune_price_usd = DecimalValue { mantissa: 0, scale: 0 };
    let rows = vec![e];
    let text = copy_batch(&rows, 0, 1);
    assert!(text.ends_with("\t-12.50\t0\n"));
}

#[test]
fn batch_of_three_parents_persists_two_keyed_children() {
    // Three earnings intervals; the second carries two nested pool entries,
    // the others none. Keying the batch yields three parent rows' ids and
    // exactly two child rows, each holding its own parent's identifier.
    let batch = vec![
        earning(vec![]),
        earning(vec![pool_wire("BTC.BTC"), pool_wire("ETH.ETH")]),
        earning(vec![]),
    ];
    let ids: Vec<i32> = vec![101, 102, 103];
    assert_eq!(batch.len(), 3);
    let children = earnings::assign_pool_parents(&batch, &ids);
    assert_eq!(children.len(), 2);
    assert_eq!(children[0].earnings_history_id, Some(102));
    assert_eq!(children[1].earnings_history_id, Some(102));
    assert_eq!(children[0].pool, "BTC.BTC");
    assert_eq!(children[1].pool, "ETH.ETH");
}

#[test]
fn keyed_children_follow_their_own_parents() {
    let batch = vec![
        earning(vec![pool_wire("BTC.BTC")]),
        earning(vec![pool_wire("ETH.ETH")]),
    ];
    let ids: Vec<i32> = vec![7, 8];
    let children = earnings::assign_pool_parents(&batch, &ids);
    assert_eq!(children.len(), 2);
    assert_eq!(children[0].earnings_history_id, Some(7));
    assert_eq!(children[1].earnings_history_id, Some(8));
}

#[test]
fn keyed_pool_rows_render_their_parent_key_first() {
    let batch = vec![earning(vec![pool_wire("BTC.BTC")])];
    let ids: Vec<i32> = vec![9];
    let children = earnings::assign_pool_parents(&batch, &ids);
    let text = copy_batch(&children, 0, children.len());
    assert_eq!(text, "9\tBTC.BTC\t11\t22\t33\t44\t55\t66\n");
}

#[test]
fn pool_insert_values_key_on_the_parent() {
    let p = EarningHistoryPool {
        id: None,
        earnings_history_id: None,
        pool: String::from("BTC.BTC"),
        asset_liquidity_fees: 11,
        rune_liquidity_fees: 22,
        total_liquidity_fees_rune: 33,
        saver_earning: 44,
        rewards: 55,
        earnings: 66,
    };
    let vs = earnings::pool_insert_values(42, &p);
    assert_eq!(vs.len(), 8);
    assert_eq!(vs[0], midgard_sync::query::QueryValue::Int(42));
    assert_eq!(vs[1], midgard_sync::query::QueryValue::Text(String::from("BTC.BTC")));
}

#[test]
fn swap_copy_row_has_thirty_eight_fields() {
    let w = swaps::normalize(&swap_wire());
    let rows = vec![w];
    let text = copy_batch(&rows, 0, 1);
    let line = text.strip_suffix('\n').unwrap();
    let fields: Vec<&str> = line.split('\t').collect();
    assert_eq!(fields.len(), 38);
    assert_eq!(fields[0], "1.5");
    assert_eq!(fields[1], "2024-11-01 02:00:00 UTC");
    assert_eq!(fields[8], "2024-11-01 00:00:00 UTC");
    assert_eq!(fields[37], "102.5");
}

fn swap_wire() -> midgard_sync::wire::SwapInterval {
    let num = |s: &str| String::from(s);
    midgard_sync::wire::SwapInterval {
        average_slip: num("1.5"),
        end_time: num("1730426400"),
        from_secured_average_slip: num("0"),
        from_secured_count: num("0"),
        from_secured_fees: num("0"),
        from_secured_volume: num("0"),
        from_secured_volume_usd: num("0"),
        from_trade_average_slip: num("2.25"),
        from_trade_count: num("10"),
        from_trade_fees: num("20"),
        from_trade_volume: num("30"),
        from_trade_volume_usd: num("40.5"),
        rune_price_usd: num("4.25"),
        start_time: num("1730419200"),
        synth_mint_average_slip: num("0.1"),
        synth_mint_count: num("1"),
        synth_mint_fees: num("2"),
        synth_mint_volume: num("3"),
        synth_mint_volume_usd: num("4.5"),
        synth_redeem_average_slip: num("0.2"),
        synth_redeem_count: num("5"),
        synth_redeem_fees: num("6"),
        synth_redeem_volume: num("7"),
        synth_redeem_volume_usd: num("8.5"),
        to_asset_average_slip: num("0.3"),
        to_asset_count: num("9"),
        to_asset_fees: num("10"),
        to_asset_volume: num("11"),
        to_asset_volume_usd: num("12.5"),
        to_rune_average_slip: num("0.4"),
        to_rune_count: num("13"),
        to_rune_fees: num("14"),
        to_rune_volume: num("15"),
        to_rune_volume_usd: num("16.5"),
        to_secured_average_slip: num("0"),
        to_secured_count: num("0"),
        to_secured_fees: num("0"),
        to_secured_volume: num("0"),
        to_secured_volume_usd: num("0"),
        to_trade_average_slip: num("0.5"),
        to_trade_count: num("17"),
        to_trade_fees: num("18"),
        to_trade_volume: num("19"),
        to_trade_volume_usd: num("20.5"),
        total_count: num("55"),
        total_fees: num("70"),
        total_volume: num("85"),
        total_volume_usd: num("102.5"),
    }
}

#[test]
fn earnings_insert_values_order() {
    let e = earning(vec![]);
    let vs = earnings::insert_values(&e);
    assert_eq!(vs.len(), 9);
    assert_eq!(vs[0], midgard_sync::query::QueryValue::Timestamp(1730419200));
    assert_eq!(vs[7], midgard_sync::query::QueryValue::Dec(DecimalValue { mantissa: 995, scale: 1 }));
}
