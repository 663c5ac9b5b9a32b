//! The values that a fetch brings back, as the library holds them.
use vstd::prelude::*;

verus! {

/// A price, held as the IEEE 754 bit pattern of a 64-bit float. The library
/// moves and compares prices but does no arithmetic on them.
#[derive(Clone, Copy, PartialEq, Eq, Structural, Debug)]
pub struct Price {
    pub bits: u64,
}

impl Price {
    /// The price positive zero.
    pub fn zero() -> (r: Price)
        ensures
            r.bits == 0,
    {
        Price { bits: 0 }
    }
}

/// One timestamped observation of the provider.
#[derive(Clone, Copy, PartialEq, Eq, Structural, Debug)]
pub struct Quote {
    /// Seconds since the epoch.
    pub timestamp: u64,
    pub close: Price,
    pub volume: u64,
}

/// A point of the price chart: when, and the closing price.
#[derive(Clone, Copy, PartialEq, Eq, Structural, Debug)]
pub struct PricePoint {
    pub timestamp: u64,
    pub price: Price,
}

/// A point of the volume chart: when, and how much was traded.
#[derive(Clone, Copy, PartialEq, Eq, Structural, Debug)]
pub struct VolumePoint {
    pub timestamp: u64,
    pub volume: u64,
}

/// Instrument-level facts as of the latest successful fetch.
pub struct Metadata {
    pub symbol: String,
    pub exchange_name: String,
    pub instrument_type: String,
    pub currency: Option<String>,
    pub previous_close: Option<Price>,
}

/// A successful answer of the provider: its quotes in the order given, and the
/// instrument's metadata.
pub struct Response {
    pub quotes: Vec<Quote>,
    pub metadata: Metadata,
}

/// A fetch that failed: network failure, unknown symbol and malformed answer
/// all look alike.
#[derive(Clone, Copy, PartialEq, Eq, Structural, Debug)]
pub struct FetchError {}

/// The price chart that a list of quotes gives.
pub open spec fn price_points(quotes: Seq<Quote>) -> Seq<PricePoint> {
    quotes.map_values(|q: Quote| PricePoint { timestamp: q.timestamp, price: q.close })
}

/// The volume chart that a list of quotes gives.
pub open spec fn volume_points(quotes: Seq<Quote>) -> Seq<VolumePoint> {
    quotes.map_values(|q: Quote| VolumePoint { timestamp: q.timestamp, volume: q.volume })
}

/// The price chart of `quotes`.
pub fn to_price_points(quotes: &Vec<Quote>) -> (r: Vec<PricePoint>)
    ensures
        r@ == price_points(quotes@),
{
    let mut r: Vec<PricePoint> = Vec::new();
    let mut i: usize = 0;
    while i < quotes.len()
        invariant
            i <= quotes.len(),
            r@ == price_points(quotes@.subrange(0, i as int)),
        decreases quotes.len() - i,
    {
        let q = quotes[i];
        r.push(PricePoint { timestamp: q.timestamp, price: q.close });
        assert(quotes@.subrange(0, i + 1) == quotes@.subrange(0, i as int).push(q));
        i += 1;
    }
    assert(quotes@.subrange(0, quotes.len() as int) == quotes@);
    r
}

/// The volume chart of `quotes`.
pub fn to_volume_points(quotes: &Vec<Quote>) -> (r: Vec<VolumePoint>)
    ensures
        r@ == volume_points(quotes@),
{
    let mut r: Vec<VolumePoint> = Vec::new();
    let mut i: usize = 0;
    while i < quotes.len()
        invariant
            i <= quotes.len(),
            r@ == volume_points(quotes@.subrange(0, i as int)),
        decreases quotes.len() - i,
    {
        let q = quotes[i];
        r.push(VolumePoint { timestamp: q.timestamp, volume: q.volume });
        assert(quotes@.subrange(0, i + 1) == quotes@.subrange(0, i as int).push(q));
        i += 1;
    }
    assert(quotes@.subrange(0, quotes.len() as int) == quotes@);
    r
}

} // verus!
