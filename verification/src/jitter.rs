use vstd::prelude::*;

use rand::Rng;

use crate::prices::{SpotPrice, window_wf, valid_price};

verus! {

/// Largest jitter bound, in minutes, the planner accepts.
pub const JITTER_LIMIT: u32 = 100_000;

/// The window with every entry moved by the same number of seconds; prices
/// are untouched.
pub open spec fn shifted_window(s: Seq<SpotPrice>, shift_seconds: int) -> Seq<SpotPrice> {
    Seq::new(
        s.len(),
        |i: int|
            SpotPrice {
                from: (s[i].from + shift_seconds) as i64,
                till: (s[i].till + shift_seconds) as i64,
                market_price: s[i].market_price,
                market_price_tax: s[i].market_price_tax,
                sourcing_markup_price: s[i].sourcing_markup_price,
                energy_tax_price: s[i].energy_tax_price,
            },
    )
}

/// Moves every entry of the window by the same whole number of minutes.
pub fn apply_shift(window: &Vec<SpotPrice>, shift_minutes: i64) -> (r: Vec<SpotPrice>)
    requires
        window_wf(window@),
        -(JITTER_LIMIT as i64) <= shift_minutes <= JITTER_LIMIT as i64,
    ensures
        r@ == shifted_window(window@, 60 * shift_minutes as int),
{
    let shift_seconds = 60 * shift_minutes;
    let mut out: Vec<SpotPrice> = Vec::new();
    let mut i: usize = 0;
    while i < window.len()
        invariant
            window_wf(window@),
            -6_000_000 <= shift_seconds <= 6_000_000,
            shift_seconds == 60 * shift_minutes,
            0 <= i <= window.len(),
            out@ =~= shifted_window(window@, shift_seconds as int).subrange(0, i as int),
        decreases window.len() - i,
    {
        let p = window[i];
        proof {
            assert(valid_price(window@[i as int]));
        }
        out.push(
            SpotPrice {
                from: p.from + shift_seconds,
                till: p.till + shift_seconds,
                market_price: p.market_price,
                market_price_tax: p.market_price_tax,
                sourcing_markup_price: p.sourcing_markup_price,
                energy_tax_price: p.energy_tax_price,
            },
        );
        i = i + 1;
        proof {
            assert(out@ =~= shifted_window(window@, shift_seconds as int).subrange(0, i as int));
        }
    }
    proof {
        assert(shifted_window(window@, shift_seconds as int).subrange(
            0,
            window@.len() as int,
        ) =~= shifted_window(window@, shift_seconds as int));
    }
    out
}

/// Relies on rand's `thread_rng` and `Rng::gen_range`: a sample from the
/// non-empty range `0..2*bound` lies within that range.
#[verifier::external_body]
fn draw_shift_minutes(bound: u32) -> (r: i64)
    requires
        1 <= bound <= JITTER_LIMIT,
    ensures
        -(bound as i64) <= r < bound as i64,
{
    let mut rng = rand::thread_rng();
    let sample: i64 = rng.gen_range(0..(2 * (bound as i64)));
    sample - (bound as i64)
}

/// Applies one shared random shift of up to the given bound of minutes to the
/// whole window, so that identically configured planners acting on the same
/// price series do not all toggle their devices at the same instant. A zero
/// bound, or an empty window, is returned unchanged.
pub fn add_jitter(window: &Vec<SpotPrice>, jitter_max_minutes: u32) -> (r: Vec<SpotPrice>)
    requires
        window_wf(window@),
        jitter_max_minutes <= JITTER_LIMIT,
    ensures
        jitter_max_minutes == 0 || window@.len() == 0 ==> r@ == window@,
        exists|shift: int|
            -(jitter_max_minutes as int) <= shift
                <= (if jitter_max_minutes == 0 { 0int } else { jitter_max_minutes as int - 1 })
                && r@ == #[trigger] shifted_window(window@, 60 * shift),
{
    proof {
        assert forall|i: int| 0 <= i < window@.len() implies shifted_window(window@, 0)[i]
            == window@[i] by {
            assert(valid_price(window@[i]));
        }
        assert(shifted_window(window@, 0) =~= window@);
    }
    if jitter_max_minutes == 0 || window.len() == 0 {
        let r = apply_shift(window, 0);
        return r;
    }
    let shift = draw_shift_minutes(jitter_max_minutes);
    apply_shift(window, shift)
}

/// One shared shift moves the block as a whole: every entry keeps its
/// duration and its prices, and every gap between consecutive entries keeps
/// its width.
pub proof fn lemma_shift_preserves_shape(s: Seq<SpotPrice>, shift_seconds: int)
    requires
        forall|i: int| 0 <= i < s.len() ==> valid_price(#[trigger] s[i]),
        -6_000_000 <= shift_seconds <= 6_000_000,
    ensures
        shifted_window(s, shift_seconds).len() == s.len(),
        forall|i: int|
            0 <= i < s.len() ==> {
                let t = #[trigger] shifted_window(s, shift_seconds)[i];
                t.till - t.from == s[i].till - s[i].from && t.market_price == s[i].market_price
                    && t.market_price_tax == s[i].market_price_tax && t.sourcing_markup_price
                    == s[i].sourcing_markup_price && t.energy_tax_price == s[i].energy_tax_price
            },
        forall|i: int|
            0 <= i < s.len() - 1 ==> shifted_window(s, shift_seconds)[i + 1].from
                - #[trigger] shifted_window(s, shift_seconds)[i].till == s[i + 1].from - s[i].till,
{
    assert forall|i: int| 0 <= i < s.len() implies {
        let t = #[trigger] shifted_window(s, shift_seconds)[i];
        t.till - t.from == s[i].till - s[i].from && t.market_price == s[i].market_price
            && t.market_price_tax == s[i].market_price_tax && t.sourcing_markup_price
            == s[i].sourcing_markup_price && t.energy_tax_price == s[i].energy_tax_price
    } by {
        assert(valid_price(s[i]));
    }
    assert forall|i: int| 0 <= i < s.len() - 1 implies shifted_window(s, shift_seconds)[i
        + 1].from - #[trigger] shifted_window(s, shift_seconds)[i].till == s[i + 1].from
        - s[i].till by {
        assert(valid_price(s[i]));
        assert(valid_price(s[i + 1]));
    }
}

} // verus!
