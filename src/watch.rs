//! The watch list: a fixed set of tickers, each with its own latest price and
//! fetch, refreshed together at most once every two seconds.
use vstd::prelude::*;
use crate::market::{FetchError, Metadata, Price, Response};
use crate::slot::{FetchSlot, PollStep, busy_after_poll, step_of};

verus! {

/// The least time between two refresh rounds, in milliseconds.
pub const REFRESH_INTERVAL_MS: u64 = 2000;

/// Whether a round is due at `now` after one at `last` (milliseconds on one
/// monotonic clock): more than the interval has passed.
pub open spec fn refresh_due(last: u64, now: u64) -> bool {
    now > last && now - last > REFRESH_INTERVAL_MS
}

/// Whether the owner saw task `i` finished; an absent flag means not finished.
pub open spec fn seen_finished(finished: Seq<bool>, i: int) -> bool {
    0 <= i < finished.len() && finished[i]
}

/// The price an entry shows after reconciling `outcome`: the close of the
/// latest quote on success, zero on failure or when no quote came.
pub open spec fn snapshot_price(outcome: Result<Response, FetchError>) -> Option<Price> {
    match outcome {
        Ok(resp) => if resp.quotes@.len() > 0 {
            Some(resp.quotes@.last().close)
        } else {
            None
        },
        Err(_) => None,
    }
}

/// One watched ticker.
pub struct StockInfo {
    pub ticker: String,
    pub price: Price,
    pub fetch_slot: FetchSlot,
    pub metadata: Option<Metadata>,
}

impl StockInfo {
    /// An entry for `ticker` with no data yet.
    pub fn new(ticker: &str) -> (r: StockInfo)
        ensures
            r.ticker@ == ticker@,
            r.price.bits == 0,
            !r.fetch_slot.busy(),
            r.metadata is None,
    {
        StockInfo {
            ticker: ticker.to_owned(),
            price: Price::zero(),
            fetch_slot: FetchSlot::new(),
            metadata: None,
        }
    }

    /// Reconciles a finished snapshot fetch. On success with at least one
    /// quote, the price becomes the latest close and the metadata is replaced
    /// whole; otherwise the price is zero and the metadata is absent.
    pub fn apply_snapshot(&mut self, outcome: Result<Response, FetchError>)
        ensures
            match snapshot_price(outcome) {
                Some(p) => final(self).price == p && final(self).metadata == Some(
                    outcome->Ok_0.metadata,
                ),
                None => final(self).price.bits == 0 && final(self).metadata is None,
            },
            final(self).ticker == old(self).ticker,
            final(self).fetch_slot == old(self).fetch_slot,
    {
        match outcome {
            Ok(resp) => {
                if resp.quotes.len() > 0 {
                    self.price = resp.quotes[resp.quotes.len() - 1].close;
                    self.metadata = Some(resp.metadata);
                } else {
                    self.price = Price::zero();
                    self.metadata = None;
                }
            },
            Err(_) => {
                self.price = Price::zero();
                self.metadata = None;
            },
        }
    }

    /// The price the change is measured against: the previous close, when
    /// the metadata is there and has one.
    pub fn change_base(&self) -> (r: Option<Price>)
        ensures
            r == (match self.metadata {
                Some(m) => m.previous_close,
                None => None,
            }),
    {
        match &self.metadata {
            Some(m) => m.previous_close,
            None => None,
        }
    }
}

/// The tickers watched from the start, in display order.
pub open spec fn watched_tickers() -> Seq<Seq<char>> {
    seq![
        "TSLA"@,
        "GOOGL"@,
        "AMZN"@,
        "NVDA"@,
        "AMD"@,
        "INTC"@,
        "MSFT"@,
        "META"@,
        "NFLX"@,
        "PLTR"@,
        "MCD"@,
        "KO"@,
        "MA"@,
        "SPOT"@,
        "AAPL"@,
    ]
}

pub struct StockSidePanel {
    pub stock_list: Vec<StockInfo>,
    /// When the last round ran, in milliseconds; the panel is made at zero.
    pub last_refresh_ms: u64,
}

impl StockSidePanel {
    /// The panel of the watched tickers, made at time zero, nothing fetched.
    pub fn new() -> (r: StockSidePanel)
        ensures
            r.stock_list@.len() == watched_tickers().len(),
            forall|i: int|
                0 <= i < r.stock_list@.len() ==> {
                    &&& (#[trigger] r.stock_list@[i]).ticker@ == watched_tickers()[i]
                    &&& r.stock_list@[i].price.bits == 0
                    &&& !r.stock_list@[i].fetch_slot.busy()
                    &&& r.stock_list@[i].metadata is None
                },
            r.last_refresh_ms == 0,
    {
        let stock_list = vec![
            StockInfo::new("TSLA"),
            StockInfo::new("GOOGL"),
            StockInfo::new("AMZN"),
            StockInfo::new("NVDA"),
            StockInfo::new("AMD"),
            StockInfo::new("INTC"),
            StockInfo::new("MSFT"),
            StockInfo::new("META"),
            StockInfo::new("NFLX"),
            StockInfo::new("PLTR"),
            StockInfo::new("MCD"),
            StockInfo::new("KO"),
            StockInfo::new("MA"),
            StockInfo::new("SPOT"),
            StockInfo::new("AAPL"),
        ];
        StockSidePanel { stock_list, last_refresh_ms: 0 }
    }

    /// Runs a refresh round at `now` if one is due, and answers its polls in
    /// entry order (empty when no round ran). `finished[i]` says whether the
    /// task of entry `i` has finished. A round polls every entry once and
    /// restarts the timer; otherwise nothing changes.
    pub fn tick(&mut self, now_ms: u64, finished: &Vec<bool>) -> (steps: Vec<PollStep>)
        ensures
            refresh_due(old(self).last_refresh_ms, now_ms) ==> {
                &&& steps@.len() == old(self).stock_list@.len()
                &&& final(self).stock_list@.len() == old(self).stock_list@.len()
                &&& forall|i: int|
                    0 <= i < steps@.len() ==> {
                        &&& #[trigger] steps@[i] == step_of(
                            old(self).stock_list@[i].fetch_slot.busy(),
                            seen_finished(finished@, i),
                        )
                        &&& final(self).stock_list@[i].fetch_slot.busy() == busy_after_poll(
                            old(self).stock_list@[i].fetch_slot.busy(),
                            seen_finished(finished@, i),
                        )
                        &&& final(self).stock_list@[i].ticker == old(self).stock_list@[i].ticker
                        &&& final(self).stock_list@[i].price == old(self).stock_list@[i].price
                        &&& final(self).stock_list@[i].metadata
                            == old(self).stock_list@[i].metadata
                    }
            },
            !refresh_due(old(self).last_refresh_ms, now_ms) ==> {
                &&& steps@.len() == 0
                &&& *final(self) == *old(self)
            },
            final(self).last_refresh_ms == last_after_tick(old(self).last_refresh_ms, now_ms),
    {
        let mut steps: Vec<PollStep> = Vec::new();
        if now_ms > self.last_refresh_ms && now_ms - self.last_refresh_ms > REFRESH_INTERVAL_MS {
            let n = self.stock_list.len();
            let mut i: usize = 0;
            while i < n
                invariant
                    n == old(self).stock_list@.len(),
                    self.stock_list@.len() == n,
                    i <= n,
                    steps@.len() == i,
                    forall|j: int|
                        0 <= j < i ==> {
                            &&& #[trigger] steps@[j] == step_of(
                                old(self).stock_list@[j].fetch_slot.busy(),
                                seen_finished(finished@, j),
                            )
                            &&& self.stock_list@[j].fetch_slot.busy() == busy_after_poll(
                                old(self).stock_list@[j].fetch_slot.busy(),
                                seen_finished(finished@, j),
                            )
                            &&& self.stock_list@[j].ticker == old(self).stock_list@[j].ticker
                            &&& self.stock_list@[j].price == old(self).stock_list@[j].price
                            &&& self.stock_list@[j].metadata == old(self).stock_list@[j].metadata
                        },
                    forall|j: int| i <= j < n ==> #[trigger] self.stock_list@[j] == old(self).stock_list@[j],
                decreases n - i,
            {
                let f = i < finished.len() && finished[i];
                let step = self.stock_list[i].fetch_slot.poll(f);
                steps.push(step);
                i += 1;
            }
            self.last_refresh_ms = now_ms;
        }
        steps
    }

    /// Reconciles the finished snapshot fetch of entry `i`.
    pub fn apply_snapshot(&mut self, i: usize, outcome: Result<Response, FetchError>)
        requires
            i < old(self).stock_list@.len(),
        ensures
            final(self).stock_list@.len() == old(self).stock_list@.len(),
            final(self).last_refresh_ms == old(self).last_refresh_ms,
            match snapshot_price(outcome) {
                Some(p) => final(self).stock_list@[i as int].price == p
                    && final(self).stock_list@[i as int].metadata == Some(outcome->Ok_0.metadata),
                None => final(self).stock_list@[i as int].price.bits == 0
                    && final(self).stock_list@[i as int].metadata is None,
            },
            final(self).stock_list@[i as int].ticker == old(self).stock_list@[i as int].ticker,
            final(self).stock_list@[i as int].fetch_slot == old(self).stock_list@[i as int].fetch_slot,
            forall|j: int|
                0 <= j < old(self).stock_list@.len() && j != i ==> #[trigger] final(self).stock_list@[j] == old(self).stock_list@[j],
    {
        self.stock_list[i].apply_snapshot(outcome);
    }
}

/// When the last round ran after a tick at `now`.
pub open spec fn last_after_tick(last: u64, now: u64) -> u64 {
    if refresh_due(last, now) {
        now
    } else {
        last
    }
}

/// Of two ticks at most the interval apart, at most one runs a round.
pub proof fn lemma_refresh_throttled(last: u64, first: u64, second: u64)
    requires
        first <= second,
        second - first <= REFRESH_INTERVAL_MS,
    ensures
        !(refresh_due(last, first) && refresh_due(last_after_tick(last, first), second)),
{
}

/// A tick more than the interval after the last round runs a new round.
pub proof fn lemma_refresh_resumes(last: u64, now: u64)
    requires
        now - last > REFRESH_INTERVAL_MS,
    ensures
        refresh_due(last, now),
{
}

} // verus!
