use vstd::prelude::*;

verus! {

/// One priced interval of the spot-price series. Timestamps are Unix seconds;
/// price components are fixed-point integers in a caller-chosen scale (the
/// decision rules only ever compare sums, so any consistent scale works).
#[derive(Debug, Clone, Copy, PartialEq, Eq, Structural)]
pub struct SpotPrice {
    pub from: i64,
    pub till: i64,
    pub market_price: i64,
    pub market_price_tax: i64,
    pub sourcing_markup_price: i64,
    pub energy_tax_price: i64,
}

/// Largest magnitude a single price component may have.
pub const PRICE_LIMIT: i64 = 1_000_000_000_000;

/// Largest magnitude a timestamp may have (Unix seconds, within year 9999).
pub const TIME_LIMIT: i64 = 253_402_300_799;

/// Largest number of entries a price window may hold.
pub const WINDOW_LIMIT: usize = 100_000;

pub open spec fn valid_price(p: SpotPrice) -> bool {
    &&& -TIME_LIMIT <= p.from <= TIME_LIMIT
    &&& -TIME_LIMIT <= p.till <= TIME_LIMIT
    &&& -PRICE_LIMIT <= p.market_price <= PRICE_LIMIT
    &&& -PRICE_LIMIT <= p.market_price_tax <= PRICE_LIMIT
    &&& -PRICE_LIMIT <= p.sourcing_markup_price <= PRICE_LIMIT
    &&& -PRICE_LIMIT <= p.energy_tax_price <= PRICE_LIMIT
}

/// A well-formed price window: boundedly many entries, each within the
/// operating ranges above. The bounds keep every sum and product the decision
/// rules form representable in machine integers.
pub open spec fn window_wf(s: Seq<SpotPrice>) -> bool {
    &&& s.len() <= WINDOW_LIMIT
    &&& forall|i: int| 0 <= i < s.len() ==> valid_price(#[trigger] s[i])
}

/// The full per-entry price: market price plus all taxes and markups.
pub open spec fn entry_total(p: SpotPrice) -> int {
    p.market_price + p.market_price_tax + p.sourcing_markup_price + p.energy_tax_price
}

/// Sum of the full per-entry prices over a window.
pub open spec fn total_price(s: Seq<SpotPrice>) -> int
    decreases s.len(),
{
    if s.len() == 0 {
        0
    } else {
        total_price(s.drop_last()) + entry_total(s.last())
    }
}

/// Sum of the bare market prices over a window.
pub open spec fn market_price_total(s: Seq<SpotPrice>) -> int
    decreases s.len(),
{
    if s.len() == 0 {
        0
    } else {
        market_price_total(s.drop_last()) + s.last().market_price
    }
}

pub proof fn lemma_market_total_bound(s: Seq<SpotPrice>)
    requires
        forall|i: int| 0 <= i < s.len() ==> valid_price(#[trigger] s[i]),
    ensures
        -1_000_000_000_000 * s.len() <= market_price_total(s) <= 1_000_000_000_000 * s.len(),
    decreases s.len(),
{
    if s.len() > 0 {
        lemma_market_total_bound(s.drop_last());
        assert(valid_price(s.last()));
    }
}

/// Sums the full per-entry prices of a window.
pub fn total_price_of(w: &Vec<SpotPrice>) -> (r: i64)
    requires
        window_wf(w@),
    ensures
        r == total_price(w@),
{
    let mut acc: i64 = 0;
    let mut i: usize = 0;
    while i < w.len()
        invariant
            window_wf(w@),
            0 <= i <= w.len(),
            acc == total_price(w@.subrange(0, i as int)),
            -4_000_000_000_000 * i <= acc <= 4_000_000_000_000 * i,
        decreases w.len() - i,
    {
        let p = w[i];
        proof {
            assert(valid_price(w@[i as int]));
            assert(w@.subrange(0, i + 1).drop_last() =~= w@.subrange(0, i as int));
            assert(w@.subrange(0, i + 1).last() == w@[i as int]);
        }
        acc = acc + p.market_price + p.market_price_tax + p.sourcing_markup_price
            + p.energy_tax_price;
        i = i + 1;
    }
    proof {
        assert(w@.subrange(0, w.len() as int) =~= w@);
    }
    acc
}

/// Sums the bare market prices of a window.
pub fn market_price_total_of(w: &Vec<SpotPrice>) -> (r: i64)
    requires
        window_wf(w@),
    ensures
        r == market_price_total(w@),
{
    let mut acc: i64 = 0;
    let mut i: usize = 0;
    while i < w.len()
        invariant
            window_wf(w@),
            0 <= i <= w.len(),
            acc == market_price_total(w@.subrange(0, i as int)),
            -1_000_000_000_000 * i <= acc <= 1_000_000_000_000 * i,
        decreases w.len() - i,
    {
        let p = w[i];
        proof {
            assert(valid_price(w@[i as int]));
            assert(w@.subrange(0, i + 1).drop_last() =~= w@.subrange(0, i as int));
            assert(w@.subrange(0, i + 1).last() == w@[i as int]);
        }
        acc = acc + p.market_price;
        i = i + 1;
    }
    proof {
        assert(w@.subrange(0, w.len() as int) =~= w@);
    }
    acc
}

} // verus!
