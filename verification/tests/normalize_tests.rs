use midgard_sync::earnings;
use midgard_sync::numeric::DecimalValue;
use midgard_sync::price_depth;
use midgard_sync::runepool;
use midgard_sync::swaps;
use midgard_sync::wire::{EarningInterval, Pool, PriceDepthInterval, RunepoolInterval, SwapInterval};

fn price_interval() -> PriceDepthInterval {
    PriceDepthInterval {
        asset_depth: String::from("5000"),
        asset_price: String::from("1.25"),
        asset_price_usd: String::from("65000.5"),
        end_time: String::from("1730426400"),
        liquidity_units: String::from("31"),
        luvi: String::from("0.002"),
        members_count: String::from("17"),
        rune_depth: String::from("9000"),
        start_time: String::from("1730419200"),
        synth_supply: String::from("3"),
        synth_units: String::from("4"),
        units: String::from("35"),
    }
}

#[test]
fn price_interval_normalizes_every_field() {
    let r = price_depth::normalize(&price_interval());
    assert_eq!(r.id, None);
    assert_eq!(r.start_time, 1730419200);
    assert_eq!(r.end_time, 1730426400);
    assert_eq!(r.asset_depth, 5000);
    assert_eq!(r.rune_depth, 9000);
    assert_eq!(r.asset_price, DecimalValue { mantissa: 125, scale: 2 });
    assert_eq!(r.asset_price_usd, DecimalValue { mantissa: 650005, scale: 1 });
    assert_eq!(r.liquidity_units, 31);
    assert_eq!(r.members_count, 17);
    assert_eq!(r.synth_units, 4);
    assert_eq!(r.synth_supply, 3);
    assert_eq!(r.units, 35);
    assert_eq!(r.luvi, DecimalValue { mantissa: 2, scale: 3 });
    assert!(r.time_ordered());
}

#[test]
fn malformed_asset_depth_defaults_to_zero_and_neighbors_survive() {
    // One malformed field must not abort the record: it becomes zero while
    // the adjacent well-formed fields keep their parsed values.
    let mut w = price_interval();
    w.asset_depth = String::from("not-a-number");
    let r = price_depth::normalize(&w);
    assert_eq!(r.asset_depth, 0);
    assert_eq!(r.rune_depth, 9000);
    assert_eq!(r.asset_price, DecimalValue { mantissa: 125, scale: 2 });
}

#[test]
fn every_field_malformed_still_yields_a_record() {
    let w = PriceDepthInterval {
        asset_depth: String::from("x"),
        asset_price: String::from(""),
        asset_price_usd: String::from("NaN-ish"),
        end_time: String::from("later"),
        liquidity_units: String::from("?"),
        luvi: String::from(","),
        members_count: String::from("-"),
        rune_depth: String::from("+"),
        start_time: String::from("soon"),
        synth_supply: String::from(" "),
        synth_units: String::from("1e"),
        units: String::from("10 "),
    };
    let r = price_depth::normalize(&w);
    assert_eq!(r.start_time, 0);
    assert_eq!(r.end_time, 0);
    assert_eq!(r.asset_depth, 0);
    assert_eq!(r.rune_depth, 0);
    assert_eq!(r.liquidity_units, 0);
    assert_eq!(r.members_count, 0);
    assert_eq!(r.synth_units, 0);
    assert_eq!(r.synth_supply, 0);
    assert_eq!(r.units, 0);
    assert_eq!(r.asset_price, DecimalValue { mantissa: 0, scale: 0 });
    assert_eq!(r.luvi, DecimalValue { mantissa: 0, scale: 0 });
}

#[test]
fn runepool_interval_normalizes() {
    let w = RunepoolInterval {
        count: String::from("4"),
        start_time: String::from("1730419200"),
        end_time: String::from("1730426400"),
        units: String::from("nonsense"),
    };
    let r = runepool::normalize(&w);
    assert_eq!(r.count, 4);
    assert_eq!(r.start_time, 1730419200);
    assert_eq!(r.end_time, 1730426400);
    assert_eq!(r.units, 0);
}

fn earning_interval(pools: Vec<Pool>) -> EarningInterval {
    EarningInterval {
        start_time: String::from("1730419200"),
        end_time: String::from("1730426400"),
        liquidity_fees: String::from("100"),
        block_rewards: String::from("200"),
        earnings: String::from("300"),
        bonding_earnings: String::from("250"),
        liquidity_earnings: String::from("50"),
        avg_node_count: String::from("99.5"),
        rune_price_usd: String::from("4.20"),
        pools,
    }
}

fn pool_entry(name: &str) -> Pool {
    Pool {
        pool: String::from(name),
        asset_liquidity_fees: String::from("11"),
        rune_liquidity_fees: String::from("22"),
        total_liquidity_fees_rune: String::from("33"),
        saver_earning: String::from("44"),
        rewards: String::from("55"),
        earnings: String::from("66"),
    }
}

#[test]
fn earning_interval_normalizes_with_nested_pools() {
    let w = earning_interval(vec![pool_entry("BTC.BTC"), pool_entry("ETH.ETH")]);
    let r = earnings::normalize(&w);
    assert_eq!(r.start_time, 1730419200);
    assert_eq!(r.liquidity_fees, 100);
    assert_eq!(r.avg_node_count, DecimalValue { mantissa: 995, scale: 1 });
    assert_eq!(r.rune_price_usd, DecimalValue { mantissa: 420, scale: 2 });
    let pools = r.pools.expect("pools are kept");
    assert_eq!(pools.len(), 2);
    assert_eq!(pools[0].pool, "BTC.BTC");
    assert_eq!(pools[0].asset_liquidity_fees, 11);
    assert_eq!(pools[0].earnings, 66);
    assert_eq!(pools[0].earnings_history_id, None);
    assert_eq!(pools[1].pool, "ETH.ETH");
}

#[test]
fn malformed_pool_field_defaults_to_zero() {
    let mut p = pool_entry("BTC.BTC");
    p.rewards = String::from("many");
    let r = earnings::normalize_pool(&p);
    assert_eq!(r.rewards, 0);
    assert_eq!(r.saver_earning, 44);
}

fn swap_interval() -> SwapInterval {
    let num = |s: &str| String::from(s);
    SwapInterval {
        average_slip: num("1.5"),
        end_time: num("1730426400"),
        from_secured_average_slip: num("0"),
        from_secured_count: num("0"),
        from_secured_fees: num("0"),
        from_secured_volume: num("0"),
        from_secured_volume_usd: num("0"),
        from_trade_average_slip: num("2.25"),
        from_trade_count: num("10"),
        from_trade_fees: num("20"),
        from_trade_volume: num("30"),
        from_trade_volume_usd: num("40.5"),
        rune_price_usd: num("4.25"),
        start_time: num("1730419200"),
        synth_mint_average_slip: num("0.1"),
        synth_mint_count: num("1"),
        synth_mint_fees: num("2"),
        synth_mint_volume: num("3"),
        synth_mint_volume_usd: num("4.5"),
        synth_redeem_average_slip: num("0.2"),
        synth_redeem_count: num("5"),
        synth_redeem_fees: num("6"),
        synth_redeem_volume: num("7"),
        synth_redeem_volume_usd: num("8.5"),
        to_asset_average_slip: num("0.3"),
        to_asset_count: num("9"),
        to_asset_fees: num("10"),
        to_asset_volume: num("11"),
        to_asset_volume_usd: num("12.5"),
        to_rune_average_slip: num("0.4"),
        to_rune_count: num("13"),
        to_rune_fees: num("14"),
        to_rune_volume: num("15"),
        to_rune_volume_usd: num("16.5"),
        to_secured_average_slip: num("0"),
        to_secured_count: num("0"),
        to_secured_fees: num("0"),
        to_secured_volume: num("0"),
        to_secured_volume_usd: num("0"),
        to_trade_average_slip: num("0.5"),
        to_trade_count: num("17"),
        to_trade_fees: num("18"),
        to_trade_volume: num("19"),
        to_trade_volume_usd: num("20.5"),
        total_count: num("55"),
        total_fees: num("70"),
        total_volume: num("85"),
        total_volume_usd: num("102.5"),
    }
}

#[test]
fn swap_interval_normalizes() {
    let r = swaps::normalize(&swap_interval());
    assert_eq!(r.average_slip, DecimalValue { mantissa: 15, scale: 1 });
    assert_eq!(r.start_time, 1730419200);
    assert_eq!(r.end_time, 1730426400);
    assert_eq!(r.from_trade_count, 10);
    assert_eq!(r.from_trade_volume_usd, DecimalValue { mantissa: 405, scale: 1 });
    assert_eq!(r.rune_price_usd, DecimalValue { mantissa: 425, scale: 2 });
    assert_eq!(r.total_count, 55);
    assert_eq!(r.total_volume_usd, DecimalValue { mantissa: 1025, scale: 1 });
    assert!(r.time_ordered());
}

#[test]
fn swap_malformed_fields_default_per_field() {
    let mut w = swap_interval();
    w.total_count = String::from("lots");
    w.average_slip = String::from("steep");
    let r = swaps::normalize(&w);
    assert_eq!(r.total_count, 0);
    assert_eq!(r.average_slip, DecimalValue { mantissa: 0, scale: 0 });
    assert_eq!(r.total_fees, 70);
}

#[test]
fn reversed_interval_is_surfaced_by_the_order_check() {
    let mut w = price_interval();
    w.start_time = String::from("1730426400");
    w.end_time = String::from("1730419200");
    let r = price_depth::normalize(&w);
    assert!(!r.time_ordered());
}

#[test]
fn normalize_page_keeps_order_and_length() {
    let pages = vec![price_interval(), price_interval()];
    let rs = price_depth::normalize_page(&pages);
    assert_eq!(rs.len(), 2);
    assert_eq!(rs[0], rs[1]);
}

#[test]
fn defaulted_field_counts_make_the_tolerance_observable() {
    assert_eq!(price_depth::defaulted_fields(&price_interval()), 0);
    let mut w = price_interval();
    w.asset_depth = String::from("not-a-number");
    w.luvi = String::from("?");
    assert_eq!(price_depth::defaulted_fields(&w), 2);

    let rw = RunepoolInterval {
        count: String::from("4"),
        start_time: String::from("later"),
        end_time: String::from("1730426400"),
        units: String::from("x"),
    };
    assert_eq!(runepool::defaulted_fields(&rw), 2);

    let ew = earning_interval(vec![]);
    assert_eq!(earnings::defaulted_fields(&ew), 0);
    let mut ew = earning_interval(vec![]);
    ew.avg_node_count = String::from("many");
    assert_eq!(earnings::defaulted_fields(&ew), 1);

    let mut sw = swap_interval();
    sw.total_count = String::from("lots");
    sw.average_slip = String::from("steep");
    sw.to_rune_fees = String::from("");
    assert_eq!(swaps::defaulted_fields(&sw), 3);
}
