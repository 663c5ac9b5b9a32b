//! The focused chart: one ticker, its price and volume series, its metadata,
//! and the fetch that refreshes them.
use vstd::prelude::*;
use crate::market::{
    FetchError, Metadata, Price, PricePoint, Response, VolumePoint, price_points,
    to_price_points, to_volume_points, volume_points,
};
use crate::slot::{FetchSlot, PollStep, busy_after_poll, step_of};

verus! {

/// The window of history that the chart asks for.
#[derive(Clone, Copy, PartialEq, Eq, Structural, Debug)]
pub enum DataRange {
    /// The recent session, minute by minute.
    Regular,
    OneMonth,
    ThreeMonths,
    SixMonths,
    OneYear,
    YearToDate,
    Max,
}

/// The provider's name for a range (and the label the display shows).
pub open spec fn range_token(r: DataRange) -> Seq<char> {
    match r {
        DataRange::Regular => "Regular"@,
        DataRange::OneMonth => "1mo"@,
        DataRange::ThreeMonths => "3mo"@,
        DataRange::SixMonths => "6mo"@,
        DataRange::OneYear => "1y"@,
        DataRange::YearToDate => "ytd"@,
        DataRange::Max => "max"@,
    }
}

impl DataRange {
    /// The provider's name for this range.
    pub fn token(&self) -> (r: &'static str)
        ensures
            r@ == range_token(*self),
    {
        match self {
            DataRange::Regular => "Regular",
            DataRange::OneMonth => "1mo",
            DataRange::ThreeMonths => "3mo",
            DataRange::SixMonths => "6mo",
            DataRange::OneYear => "1y",
            DataRange::YearToDate => "ytd",
            DataRange::Max => "max",
        }
    }
}

/// What to ask the provider for when a series fetch starts.
pub enum FetchRequest {
    /// The recent quotes of `ticker`, one a minute, regular hours only.
    Recent { ticker: String },
    /// One quote a day of `ticker` over `range`.
    History { ticker: String, range: DataRange },
}

/// Whether `req` is the request for `ticker` over `range`.
pub open spec fn is_request_for(req: FetchRequest, ticker: Seq<char>, range: DataRange) -> bool {
    match req {
        FetchRequest::Recent { ticker: t } => range == DataRange::Regular && t@ == ticker,
        FetchRequest::History { ticker: t, range: r } => range != DataRange::Regular && t@
            == ticker && r == range,
    }
}

/// The price the change is measured against: the previous close where the
/// metadata has one, else the first price of the series. None without
/// metadata, or with neither.
pub open spec fn change_base_of(metadata: Option<Metadata>, prices: Seq<PricePoint>) -> Option<
    Price,
> {
    match metadata {
        None => None,
        Some(m) => match m.previous_close {
            Some(p) => Some(p),
            None => if prices.len() > 0 {
                Some(prices[0].price)
            } else {
                None
            },
        },
    }
}

pub struct StockGraph {
    pub ticker: String,
    pub price_data: Vec<PricePoint>,
    pub volume_data: Vec<VolumePoint>,
    pub reset_plot: bool,
    pub fetch_slot: FetchSlot,
    pub metadata: Option<Metadata>,
    pub data_range: DataRange,
}

impl StockGraph {
    /// A chart of `ticker` with empty buffers, over the recent session.
    pub fn new(ticker: &str) -> (r: StockGraph)
        ensures
            r.ticker@ == ticker@,
            r.price_data@.len() == 0,
            r.volume_data@.len() == 0,
            r.metadata is None,
            r.data_range == DataRange::Regular,
            !r.reset_plot,
            !r.fetch_slot.busy(),
    {
        StockGraph {
            ticker: ticker.to_owned(),
            price_data: Vec::new(),
            volume_data: Vec::new(),
            reset_plot: false,
            fetch_slot: FetchSlot::new(),
            metadata: None,
            data_range: DataRange::Regular,
        }
    }

    /// The ticker on display.
    pub fn ticker(&self) -> (r: &String)
        ensures
            r@ == self.ticker@,
    {
        &self.ticker
    }

    /// Shows `ticker` from now on and asks the display to reset its view. The
    /// buffers keep the previous data until the next fetch is reconciled.
    pub fn change_ticker(&mut self, ticker: &str)
        ensures
            final(self).ticker@ == ticker@,
            final(self).reset_plot,
            final(self).price_data == old(self).price_data,
            final(self).volume_data == old(self).volume_data,
            final(self).metadata == old(self).metadata,
            final(self).data_range == old(self).data_range,
            final(self).fetch_slot.busy() == old(self).fetch_slot.busy(),
    {
        self.ticker = ticker.to_owned();
        self.reset_plot = true;
    }

    /// Asks for `range` from the next fetch on, and asks the display to reset
    /// its view. A fetch in flight is not cancelled.
    pub fn set_range(&mut self, range: DataRange)
        ensures
            final(self).data_range == range,
            final(self).reset_plot,
            final(self).ticker@ == old(self).ticker@,
            final(self).price_data == old(self).price_data,
            final(self).volume_data == old(self).volume_data,
            final(self).metadata == old(self).metadata,
            final(self).fetch_slot.busy() == old(self).fetch_slot.busy(),
    {
        self.data_range = range;
        self.reset_plot = true;
    }

    /// Hands the reset request to the display, once.
    pub fn take_reset(&mut self) -> (r: bool)
        ensures
            r == old(self).reset_plot,
            !final(self).reset_plot,
            final(self).ticker@ == old(self).ticker@,
            final(self).price_data == old(self).price_data,
            final(self).volume_data == old(self).volume_data,
            final(self).metadata == old(self).metadata,
            final(self).data_range == old(self).data_range,
            final(self).fetch_slot.busy() == old(self).fetch_slot.busy(),
    {
        let r = self.reset_plot;
        self.reset_plot = false;
        r
    }

    /// Polls the chart's fetch; `finished` says whether the running fetch has
    /// finished. On `Start` the caller issues `request()`; on `Collect` it hands
    /// the fetch's outcome to `apply_series`. The buffers are left untouched.
    pub fn update_data(&mut self, finished: bool) -> (step: PollStep)
        ensures
            step == step_of(old(self).fetch_slot.busy(), finished),
            final(self).fetch_slot.busy() == busy_after_poll(old(self).fetch_slot.busy(), finished),
            final(self).ticker@ == old(self).ticker@,
            final(self).reset_plot == old(self).reset_plot,
            final(self).price_data == old(self).price_data,
            final(self).volume_data == old(self).volume_data,
            final(self).metadata == old(self).metadata,
            final(self).data_range == old(self).data_range,
    {
        self.fetch_slot.poll(finished)
    }

    /// The request for the current ticker and range.
    pub fn request(&self) -> (r: FetchRequest)
        ensures
            is_request_for(r, self.ticker@, self.data_range),
    {
        let ticker = self.ticker.clone();
        match self.data_range {
            DataRange::Regular => FetchRequest::Recent { ticker },
            range => FetchRequest::History { ticker, range },
        }
    }

    /// Reconciles a finished fetch. On success the series are replaced by the
    /// response's quotes, whatever they held before, and the metadata is
    /// replaced whole; on failure the series are emptied and the metadata is
    /// absent. A fetch issued before the ticker or range changed is applied all
    /// the same: the slot belongs to the chart, not to one request.
    pub fn apply_series(&mut self, outcome: Result<Response, FetchError>)
        ensures
            match outcome {
                Ok(resp) => {
                    &&& final(self).price_data@ == price_points(resp.quotes@)
                    &&& final(self).volume_data@ == volume_points(resp.quotes@)
                    &&& final(self).price_data@.len() == resp.quotes@.len()
                    &&& final(self).metadata == Some(resp.metadata)
                },
                Err(_) => {
                    &&& final(self).price_data@.len() == 0
                    &&& final(self).volume_data@.len() == 0
                    &&& final(self).metadata is None
                },
            },
            final(self).ticker@ == old(self).ticker@,
            final(self).reset_plot == old(self).reset_plot,
            final(self).data_range == old(self).data_range,
            final(self).fetch_slot.busy() == old(self).fetch_slot.busy(),
    {
        match outcome {
            Ok(resp) => {
                self.price_data = to_price_points(&resp.quotes);
                self.volume_data = to_volume_points(&resp.quotes);
                self.metadata = Some(resp.metadata);
            },
            Err(_) => {
                self.price_data = Vec::new();
                self.volume_data = Vec::new();
                self.metadata = None;
            },
        }
    }

    /// The latest price of the series, if any.
    pub fn latest_price(&self) -> (r: Option<Price>)
        ensures
            r == (if self.price_data@.len() > 0 {
                Some(self.price_data@.last().price)
            } else {
                None
            }),
    {
        if self.price_data.len() > 0 {
            Some(self.price_data[self.price_data.len() - 1].price)
        } else {
            None
        }
    }

    /// The price the displayed change is measured against.
    pub fn change_base(&self) -> (r: Option<Price>)
        ensures
            r == change_base_of(self.metadata, self.price_data@),
    {
        match &self.metadata {
            None => None,
            Some(m) => match m.previous_close {
                Some(p) => Some(p),
                None => if self.price_data.len() > 0 {
                    Some(self.price_data[0].price)
                } else {
                    None
                },
            },
        }
    }
}

} // verus!
