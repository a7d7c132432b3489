use heatpump_planner::clock::window_device_interval;
use heatpump_planner::decision::select_window_for_run;
use heatpump_planner::jitter::{add_jitter, apply_shift};
use heatpump_planner::plan::{State, finalize_run, prior_desinfection_enabled, prior_desinfection_finished_at};
use heatpump_planner::prices::SpotPrice;
use heatpump_planner::schedule::tap_water_schedule_messages;

fn hour_slot(from: i64, market: i64) -> SpotPrice {
    SpotPrice {
        from,
        till: from + 3600,
        market_price: market,
        market_price_tax: 20000,
        sourcing_markup_price: 17000,
        energy_tax_price: 80000,
    }
}

#[test]
fn jitter_with_a_zero_bound_is_the_identity() {
    let window = vec![hour_slot(1650502800, 80000), hour_slot(1650506400, 90000)];
    assert_eq!(add_jitter(&window, 0), window);
    let empty: Vec<SpotPrice> = vec![];
    assert_eq!(add_jitter(&empty, 15), empty);
}

#[test]
fn jitter_moves_the_whole_block_within_its_bound() {
    let window = vec![
        hour_slot(1650502800, 80000),
        hour_slot(1650506400, 90000),
        hour_slot(1650513600, 70000),
    ];
    let moved = add_jitter(&window, 15);

    assert_eq!(moved.len(), window.len());
    let shift = moved[0].from - window[0].from;
    assert!(shift % 60 == 0);
    assert!(-900 <= shift && shift < 900);
    for (a, b) in window.iter().zip(moved.iter()) {
        assert_eq!(b.from - a.from, shift);
        assert_eq!(b.till - a.till, shift);
        assert_eq!(b.till - b.from, a.till - a.from);
        assert_eq!(b.market_price, a.market_price);
        assert_eq!(b.market_price_tax, a.market_price_tax);
        assert_eq!(b.sourcing_markup_price, a.sourcing_markup_price);
        assert_eq!(b.energy_tax_price, a.energy_tax_price);
    }
    // the gap between the second and third entries is preserved
    assert_eq!(moved[2].from - moved[1].till, window[2].from - window[1].till);
}

#[test]
fn apply_shift_moves_every_entry_by_the_same_minutes() {
    let window = vec![hour_slot(1650502800, 80000), hour_slot(1650506400, 90000)];
    let moved = apply_shift(&window, -7);
    assert_eq!(moved[0].from, 1650502800 - 420);
    assert_eq!(moved[1].till, 1650510000 - 420);
}

#[test]
fn device_interval_converts_to_the_heatpump_time_zone() {
    // 2022-04-21 01:00 UTC is 03:00 in Amsterdam (summer time)
    let window = vec![hour_slot(1650502800, 80000), hour_slot(1650506400, 90000)];
    let interval = window_device_interval(&window, "Europe/Amsterdam").unwrap();
    assert_eq!(interval, Some((180, 300)));

    // in winter the same clock reads one hour earlier
    // 2022-01-21 01:00 UTC is 02:00 in Amsterdam
    let winter = vec![hour_slot(1642726800, 80000)];
    assert_eq!(window_device_interval(&winter, "Europe/Amsterdam").unwrap(), Some((120, 180)));

    // an empty window consults no time zone
    let empty: Vec<SpotPrice> = vec![];
    assert_eq!(window_device_interval(&empty, "Nowhere/Special").unwrap(), None);

    // a non-empty window with an unknown zone is a configuration error
    assert!(window_device_interval(&window, "Nowhere/Special").is_err());
}

#[test]
fn prior_state_defaults_to_a_week_ago_and_disabled() {
    let now: i64 = 1650499200;
    assert_eq!(prior_desinfection_enabled(&None), false);
    assert_eq!(prior_desinfection_finished_at(&None, now), now - 604800);

    let state = Some(State {
        desinfection_enabled: true,
        desinfection_finished_at: Some(1650000000),
        planned_spot_prices: None,
    });
    assert_eq!(prior_desinfection_enabled(&state), true);
    assert_eq!(prior_desinfection_finished_at(&state, now), 1650000000);

    let undated = Some(State {
        desinfection_enabled: false,
        desinfection_finished_at: None,
        planned_spot_prices: None,
    });
    assert_eq!(prior_desinfection_finished_at(&undated, now), now - 604800);
}

#[test]
fn a_full_run_plans_the_cheapest_block_without_disinfection() {
    // 2022-04-21, Amsterdam summer time: the cheapest two-hour block starts
    // at 03:00 local, which is 01:00 UTC
    let now: i64 = 1650499200; // 2022-04-21 00:00 UTC
    let heating_window = vec![hour_slot(1650502800, 60000), hour_slot(1650506400, 70000)];
    let lowest_desinfection = vec![hour_slot(1650502800, 60000), hour_slot(1650506400, 70000)];
    let highest_desinfection = vec![hour_slot(1650549600, 330000)];

    // the last cycle finished 30 hours ago: well under the 96 hour minimum,
    // and the window's total price is positive
    let finished_at = now - 30 * 3600;

    let (window, is_desinfection) = select_window_for_run(
        now,
        finished_at,
        heating_window.clone(),
        lowest_desinfection,
        highest_desinfection,
        96,
        240,
    )
    .unwrap();
    assert_eq!(is_desinfection, false);
    assert_eq!(window, heating_window);

    // a zero jitter bound leaves the block untouched
    let window = add_jitter(&window, 0);
    assert_eq!(window, heating_window);

    // the device schedule brackets [03:00, 05:00) local time
    let interval = window_device_interval(&window, "Europe/Amsterdam").unwrap();
    assert_eq!(interval, Some((180, 300)));

    let slot_ids = vec![
        "0xa57344".to_string(),
        "0xa53c8c".to_string(),
        "0xa47ee4".to_string(),
        "0xa6630c".to_string(),
        "0xa68d74".to_string(),
    ];
    let messages = tap_water_schedule_messages(&slot_ids, interval);
    assert_eq!(
        messages,
        vec![
            "SET;set_0xa57344;0".to_string(),
            "SET;set_0xa53c8c;0".to_string(),
            "SET;set_0xa47ee4;0".to_string(),
            "SET;set_0xa6630c;0".to_string(),
            "SET;set_0xa68d74;0".to_string(),
            "SET;set_0xa57344;11796480".to_string(),
            "SET;set_0xa68d74;300".to_string(),
        ]
    );

    // no disinfection: the toggle stays untouched, the setpoint goes to the
    // configured temperature, and the persisted state keeps the old mark
    let outcome = finalize_run(false, finished_at, is_desinfection, window.clone(), 500);
    assert_eq!(outcome.toggle_desinfection, false);
    assert_eq!(outcome.target_temperature_tenths, 500);
    assert_eq!(outcome.new_state.desinfection_enabled, false);
    assert_eq!(outcome.new_state.desinfection_finished_at, Some(finished_at));
    assert_eq!(outcome.new_state.planned_spot_prices, Some(window));
}

#[test]
fn a_disinfection_run_raises_the_setpoint_and_advances_the_mark() {
    let window = vec![hour_slot(1650502800, 60000), hour_slot(1650506400, 70000)];
    let finished_at: i64 = 1650000000;

    let outcome = finalize_run(false, finished_at, true, window.clone(), 500);
    assert_eq!(outcome.toggle_desinfection, true);
    assert_eq!(outcome.target_temperature_tenths, 580);
    assert_eq!(outcome.new_state.desinfection_enabled, true);
    assert_eq!(outcome.new_state.desinfection_finished_at, Some(1650510000));

    // already enabled: no toggle needed
    let again = finalize_run(true, finished_at, true, window, 500);
    assert_eq!(again.toggle_desinfection, false);
}
