use vstd::prelude::*;
use vstd::arithmetic::div_mod::lemma_div_is_ordered;

use crate::PlannerError;
use crate::prices::{
    SpotPrice, total_price, market_price_total, total_price_of, market_price_total_of, window_wf,
    lemma_market_total_bound, TIME_LIMIT,
};

verus! {

/// Largest magnitude the configured disinfection hour bounds may have.
pub const HOURS_LIMIT: i64 = 1_000_000;

/// Whole hours in a signed duration of seconds, truncated towards zero.
pub open spec fn hours_of(diff_seconds: int) -> int {
    if diff_seconds >= 0 {
        diff_seconds / 3600
    } else {
        -((-diff_seconds) / 3600)
    }
}

/// Whole hours between the end of a window and an earlier reference point.
pub open spec fn elapsed_hours(window: Seq<SpotPrice>, finished_at: int) -> int {
    hours_of(window.last().till - finished_at)
}

/// The disinfection-desirability rule.
///
/// With inconsistent hour bounds the configuration is rejected. An empty
/// cheapest window never triggers. A non-positive total price always
/// triggers. Otherwise the elapsed hours since the last finished cycle gate
/// the decision: below the minimum never, above the maximum always, and in
/// between the cheapest window's market-price sum must undercut a quadratically
/// growing fraction of the costliest window's market-price sum.
pub open spec fn desired_spec(
    min_hours: int,
    max_hours: int,
    finished_at: int,
    lowest: Seq<SpotPrice>,
    highest: Seq<SpotPrice>,
) -> Result<bool, PlannerError> {
    if max_hours <= min_hours {
        Err(PlannerError::InvalidConfig)
    } else if lowest.len() == 0 {
        Ok(false)
    } else if total_price(lowest) <= 0 {
        Ok(true)
    } else {
        let elapsed = elapsed_hours(lowest, finished_at);
        if elapsed < min_hours {
            Ok(false)
        } else if elapsed > max_hours {
            Ok(true)
        } else {
            let span = max_hours - min_hours;
            let since = elapsed - min_hours;
            Ok(market_price_total(lowest) * span * span < since * since * market_price_total(
                highest,
            ))
        }
    }
}

/// Whole hours in a signed duration of seconds, truncated towards zero.
pub fn hours_of_duration(diff_seconds: i64) -> (r: i64)
    requires
        -2 * TIME_LIMIT <= diff_seconds <= 2 * TIME_LIMIT,
    ensures
        r == hours_of(diff_seconds as int),
{
    if diff_seconds >= 0 {
        ((diff_seconds as u64) / 3600) as i64
    } else {
        let pos = -diff_seconds;
        -(((pos as u64) / 3600) as i64)
    }
}

/// Decides whether a disinfection cycle should be scheduled now, given the
/// configured hour bounds, the time the last cycle finished, the cheapest
/// window for the disinfection load and the costliest window over the same
/// horizon.
pub fn is_desinfection_desired(
    min_hours: i64,
    max_hours: i64,
    desinfection_finished_at: i64,
    lowest: &Vec<SpotPrice>,
    highest: &Vec<SpotPrice>,
) -> (r: Result<bool, PlannerError>)
    requires
        window_wf(lowest@),
        window_wf(highest@),
        -TIME_LIMIT <= desinfection_finished_at <= TIME_LIMIT,
        -HOURS_LIMIT <= min_hours <= HOURS_LIMIT,
        -HOURS_LIMIT <= max_hours <= HOURS_LIMIT,
    ensures
        r == desired_spec(
            min_hours as int,
            max_hours as int,
            desinfection_finished_at as int,
            lowest@,
            highest@,
        ),
{
    if max_hours <= min_hours {
        return Err(PlannerError::InvalidConfig);
    }
    if lowest.len() == 0 {
        return Ok(false);
    }
    let lowest_total = total_price_of(lowest);
    if lowest_total <= 0 {
        return Ok(true);
    }
    let last_till = lowest[lowest.len() - 1].till;
    proof {
        assert(crate::prices::valid_price(lowest@[lowest@.len() - 1]));
        assert(lowest@[lowest@.len() - 1] == lowest@.last());
    }
    let elapsed = hours_of_duration(last_till - desinfection_finished_at);
    if elapsed < min_hours {
        return Ok(false);
    }
    if elapsed > max_hours {
        return Ok(true);
    }
    let lowest_market = market_price_total_of(lowest);
    let highest_market = market_price_total_of(highest);
    proof {
        lemma_market_total_bound(lowest@);
        lemma_market_total_bound(highest@);
    }
    let lo = lowest_market as i128;
    let hi = highest_market as i128;
    let span = (max_hours - min_hours) as i128;
    let since = (elapsed - min_hours) as i128;
    proof {
        assert(-100_000_000_000_000_000 <= lo as int <= 100_000_000_000_000_000);
        assert(-100_000_000_000_000_000 <= hi as int <= 100_000_000_000_000_000);
        assert(0 <= span as int <= 2_000_000);
        assert(0 <= since as int <= 2_000_000);
        assert({
            let l = lo as int;
            let s = span as int;
            -200_000_000_000_000_000_000_000 <= l * s <= 200_000_000_000_000_000_000_000
        }) by (nonlinear_arith)
            requires
                -100_000_000_000_000_000 <= lo as int <= 100_000_000_000_000_000,
                0 <= span as int <= 2_000_000,
        ;
        assert({
            let s = since as int;
            0 <= s * s <= 4_000_000_000_000
        }) by (nonlinear_arith)
            requires
                0 <= since as int <= 2_000_000,
        ;
        assert({
            let l = lo as int;
            let s = span as int;
            -200_000_000_000_000_000_000_000 <= l * s <= 200_000_000_000_000_000_000_000
                ==> -400_000_000_000_000_000_000_000_000_000 <= l * s * s
                <= 400_000_000_000_000_000_000_000_000_000
        }) by (nonlinear_arith)
            requires
                0 <= span as int <= 2_000_000,
        ;
        assert({
            let h = hi as int;
            let s = since as int;
            0 <= s * s <= 4_000_000_000_000 ==> -400_000_000_000_000_000_000_000_000_000 <= s * s
                * h <= 400_000_000_000_000_000_000_000_000_000
        }) by (nonlinear_arith)
            requires
                -100_000_000_000_000_000 <= hi as int <= 100_000_000_000_000_000,
        ;
    }
    Ok(lo * span * span < since * since * hi)
}

/// Picks the window a run should act on: the cheapest tap-water heating
/// window, unless a disinfection window is available soon (within twelve
/// hours) and the desirability rule asks for one.
pub open spec fn select_spec(
    now: int,
    finished_at: int,
    heating: Seq<SpotPrice>,
    lowest: Seq<SpotPrice>,
    highest: Seq<SpotPrice>,
    min_hours: int,
    max_hours: int,
) -> Result<(Seq<SpotPrice>, bool), PlannerError> {
    if lowest.len() == 0 || lowest[0].from > now + 43200 {
        Ok((heating, false))
    } else {
        match desired_spec(min_hours, max_hours, finished_at, lowest, highest) {
            Ok(true) => Ok((lowest, true)),
            Ok(false) => Ok((heating, false)),
            Err(e) => Err(e),
        }
    }
}

/// Chooses between the heating window and the disinfection window for this
/// run, returning the chosen window and whether it serves a disinfection.
pub fn select_window_for_run(
    now: i64,
    desinfection_finished_at: i64,
    heating_window: Vec<SpotPrice>,
    lowest_desinfection: Vec<SpotPrice>,
    highest_desinfection: Vec<SpotPrice>,
    min_hours: i64,
    max_hours: i64,
) -> (r: Result<(Vec<SpotPrice>, bool), PlannerError>)
    requires
        window_wf(heating_window@),
        window_wf(lowest_desinfection@),
        window_wf(highest_desinfection@),
        -TIME_LIMIT <= now <= TIME_LIMIT,
        -TIME_LIMIT <= desinfection_finished_at <= TIME_LIMIT,
        -HOURS_LIMIT <= min_hours <= HOURS_LIMIT,
        -HOURS_LIMIT <= max_hours <= HOURS_LIMIT,
    ensures
        (match r {
            Ok(p) => select_spec(
                now as int,
                desinfection_finished_at as int,
                heating_window@,
                lowest_desinfection@,
                highest_desinfection@,
                min_hours as int,
                max_hours as int,
            ) == Ok::<_, PlannerError>((p.0@, p.1)),
            Err(e) => select_spec(
                now as int,
                desinfection_finished_at as int,
                heating_window@,
                lowest_desinfection@,
                highest_desinfection@,
                min_hours as int,
                max_hours as int,
            ) == Err::<(Seq<SpotPrice>, bool), _>(e),
        }),
{
    if lowest_desinfection.len() == 0 {
        return Ok((heating_window, false));
    }
    proof {
        assert(crate::prices::valid_price(lowest_desinfection@[0]));
    }
    if lowest_desinfection[0].from > now + 43200 {
        return Ok((heating_window, false));
    }
    match is_desinfection_desired(
        min_hours,
        max_hours,
        desinfection_finished_at,
        &lowest_desinfection,
        &highest_desinfection,
    ) {
        Ok(true) => Ok((lowest_desinfection, true)),
        Ok(false) => Ok((heating_window, false)),
        Err(e) => Err(e),
    }
}

/// The gates of the desirability rule: an empty cheapest window never
/// triggers; a window whose full price is not positive always triggers;
/// otherwise nothing triggers before the minimum hours have passed, and
/// anything does once the maximum is exceeded.
pub proof fn lemma_desired_gates(
    min_hours: int,
    max_hours: int,
    finished_at: int,
    lowest: Seq<SpotPrice>,
    highest: Seq<SpotPrice>,
)
    requires
        min_hours < max_hours,
    ensures
        lowest.len() == 0 ==> desired_spec(min_hours, max_hours, finished_at, lowest, highest)
            == Ok::<_, PlannerError>(false),
        lowest.len() > 0 && total_price(lowest) <= 0 ==> desired_spec(
            min_hours,
            max_hours,
            finished_at,
            lowest,
            highest,
        ) == Ok::<_, PlannerError>(true),
        lowest.len() > 0 && total_price(lowest) > 0 && elapsed_hours(lowest, finished_at)
            < min_hours ==> desired_spec(min_hours, max_hours, finished_at, lowest, highest)
            == Ok::<_, PlannerError>(false),
        lowest.len() > 0 && total_price(lowest) > 0 && elapsed_hours(lowest, finished_at)
            > max_hours ==> desired_spec(min_hours, max_hours, finished_at, lowest, highest)
            == Ok::<_, PlannerError>(true),
{
}

/// In the ramp region the rule only relaxes as time passes: once a
/// disinfection is desired for some last-finished time, it stays desired for
/// any earlier last-finished time (that is, for any larger elapsed time),
/// provided the costliest window's market-price sum is not negative.
pub proof fn lemma_ramp_monotonic(
    min_hours: int,
    max_hours: int,
    finished_late: int,
    finished_early: int,
    lowest: Seq<SpotPrice>,
    highest: Seq<SpotPrice>,
)
    requires
        finished_early <= finished_late,
        market_price_total(highest) >= 0,
        desired_spec(min_hours, max_hours, finished_late, lowest, highest) == Ok::<
            _,
            PlannerError,
        >(true),
    ensures
        desired_spec(min_hours, max_hours, finished_early, lowest, highest) == Ok::<
            _,
            PlannerError,
        >(true),
{
    let d_late = lowest.last().till - finished_late;
    let d_early = lowest.last().till - finished_early;
    lemma_hours_monotonic(d_late, d_early);
    let e_late = elapsed_hours(lowest, finished_late);
    let e_early = elapsed_hours(lowest, finished_early);
    assert(e_late <= e_early);
    if max_hours <= min_hours || lowest.len() == 0 || total_price(lowest) <= 0 {
        // these branches do not look at the elapsed time
    } else if e_early > max_hours {
        // forced by the maximum
    } else {
        let span = max_hours - min_hours;
        let s_late = e_late - min_hours;
        let s_early = e_early - min_hours;
        assert(e_late >= min_hours);
        assert(market_price_total(lowest) * span * span < s_late * s_late * market_price_total(
            highest,
        ));
        assert(s_late * s_late * market_price_total(highest) <= s_early * s_early
            * market_price_total(highest)) by (nonlinear_arith)
            requires
                0 <= s_late <= s_early,
                market_price_total(highest) >= 0,
        ;
    }
}

/// Truncated division by an hour is monotone in the duration.
proof fn lemma_hours_monotonic(d1: int, d2: int)
    requires
        d1 <= d2,
    ensures
        hours_of(d1) <= hours_of(d2),
{
    if d1 >= 0 {
        lemma_div_is_ordered(d1, d2, 3600);
    } else if d2 < 0 {
        lemma_div_is_ordered(-d2, -d1, 3600);
    } else {
        lemma_div_is_ordered(0, d2, 3600);
        lemma_div_is_ordered(0, -d1, 3600);
    }
}

} // verus!
