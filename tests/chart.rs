use stonitor::chart::{DataRange, FetchRequest, StockGraph};
use stonitor::market::{FetchError, Metadata, Price, Quote, Response};
use stonitor::slot::PollStep;

fn price(x: f64) -> Price {
    Price { bits: x.to_bits() }
}

fn value(p: Price) -> f64 {
    f64::from_bits(p.bits)
}

fn metadata(symbol: &str, previous_close: Option<f64>) -> Metadata {
    Metadata {
        symbol: symbol.to_string(),
        exchange_name: "NMS".to_string(),
        instrument_type: "EQUITY".to_string(),
        currency: Some("USD".to_string()),
        previous_close: previous_close.map(price),
    }
}

fn response(symbol: &str, closes: &[(u64, f64, u64)], previous_close: Option<f64>) -> Response {
    Response {
        quotes: closes
            .iter()
            .map(|&(timestamp, close, volume)| Quote { timestamp, close: price(close), volume })
            .collect(),
        metadata: metadata(symbol, previous_close),
    }
}

fn percent_change(graph: &StockGraph) -> Option<f64> {
    let latest = value(graph.latest_price()?);
    let base = value(graph.change_base()?);
    Some((latest - base) / base * 100.0)
}

#[test]
fn new_graph_is_empty() {
    let g = StockGraph::new("TSLA");
    assert_eq!(g.ticker(), "TSLA");
    assert!(g.price_data.is_empty());
    assert!(g.volume_data.is_empty());
    assert!(g.metadata.is_none());
    assert_eq!(g.data_range, DataRange::Regular);
    assert!(!g.reset_plot);
    assert_eq!(g.latest_price(), None);
    assert_eq!(g.change_base(), None);
}

#[test]
fn successful_fetch_replaces_series() {
    let mut g = StockGraph::new("TSLA");
    g.apply_series(Ok(response("TSLA", &[(1, 10.0, 5), (2, 11.0, 6), (3, 12.0, 7)], None)));
    assert_eq!(g.price_data.len(), 3);
    g.apply_series(Ok(response("TSLA", &[(10, 20.0, 50), (20, 21.0, 60)], Some(19.0))));
    assert_eq!(g.price_data.len(), 2);
    assert_eq!(g.volume_data.len(), 2);
    assert_eq!(g.price_data[0].timestamp, 10);
    assert_eq!(value(g.price_data[1].price), 21.0);
    assert_eq!(g.volume_data[0].timestamp, 10);
    assert_eq!(g.volume_data[1].volume, 60);
    assert_eq!(g.metadata.as_ref().unwrap().previous_close, Some(price(19.0)));
}

#[test]
fn failed_fetch_clears_series_and_metadata() {
    let mut g = StockGraph::new("TSLA");
    g.apply_series(Ok(response("TSLA", &[(1, 10.0, 5)], Some(9.0))));
    g.apply_series(Err(FetchError {}));
    assert!(g.price_data.is_empty());
    assert!(g.volume_data.is_empty());
    assert!(g.metadata.is_none());
}

#[test]
fn change_ticker_keeps_old_data_until_next_fetch() {
    let mut g = StockGraph::new("TSLA");
    g.apply_series(Ok(response("TSLA", &[(1, 250.5, 100)], None)));
    g.change_ticker("AAPL");
    assert_eq!(g.ticker(), "AAPL");
    assert!(g.reset_plot);
    assert_eq!(g.price_data.len(), 1);
    assert_eq!(value(g.price_data[0].price), 250.5);
    assert_eq!(g.metadata.as_ref().unwrap().symbol, "TSLA");
}

#[test]
fn reset_request_is_taken_once() {
    let mut g = StockGraph::new("TSLA");
    g.change_ticker("AAPL");
    assert!(g.take_reset());
    assert!(!g.take_reset());
}

#[test]
fn set_range_changes_the_next_request() {
    let mut g = StockGraph::new("MSFT");
    match g.request() {
        FetchRequest::Recent { ticker } => assert_eq!(ticker, "MSFT"),
        FetchRequest::History { .. } => panic!("expected a recent request"),
    }
    g.set_range(DataRange::ThreeMonths);
    assert!(g.reset_plot);
    match g.request() {
        FetchRequest::History { ticker, range } => {
            assert_eq!(ticker, "MSFT");
            assert_eq!(range, DataRange::ThreeMonths);
        }
        FetchRequest::Recent { .. } => panic!("expected a history request"),
    }
}

#[test]
fn range_tokens() {
    assert_eq!(DataRange::Regular.token(), "Regular");
    assert_eq!(DataRange::OneMonth.token(), "1mo");
    assert_eq!(DataRange::ThreeMonths.token(), "3mo");
    assert_eq!(DataRange::SixMonths.token(), "6mo");
    assert_eq!(DataRange::OneYear.token(), "1y");
    assert_eq!(DataRange::YearToDate.token(), "ytd");
    assert_eq!(DataRange::Max.token(), "max");
}

#[test]
fn update_data_polls_once_per_episode() {
    let mut g = StockGraph::new("TSLA");
    assert_eq!(g.update_data(false), PollStep::Start);
    assert_eq!(g.update_data(false), PollStep::Wait);
    assert!(g.price_data.is_empty());
    assert_eq!(g.update_data(true), PollStep::Collect);
    assert_eq!(g.update_data(false), PollStep::Start);
}

#[test]
fn late_result_applies_after_ticker_change() {
    let mut g = StockGraph::new("TSLA");
    assert_eq!(g.update_data(false), PollStep::Start);
    g.change_ticker("AAPL");
    assert_eq!(g.update_data(true), PollStep::Collect);
    g.apply_series(Ok(response("TSLA", &[(1, 300.0, 1)], None)));
    assert_eq!(g.metadata.as_ref().unwrap().symbol, "TSLA");
    match g.request() {
        FetchRequest::Recent { ticker } => assert_eq!(ticker, "AAPL"),
        FetchRequest::History { .. } => panic!("expected a recent request"),
    }
}

#[test]
fn percent_change_falls_back_to_first_point() {
    let mut g = StockGraph::new("TSLA");
    g.apply_series(Ok(response("TSLA", &[(1, 100.0, 1), (2, 105.0, 1), (3, 110.0, 1)], None)));
    assert_eq!(g.change_base(), Some(price(100.0)));
    assert_eq!(g.latest_price(), Some(price(110.0)));
    let p = percent_change(&g).unwrap();
    assert!((p - 10.0).abs() < 1e-9);
}

#[test]
fn percent_change_uses_previous_close() {
    let mut g = StockGraph::new("TSLA");
    g.apply_series(Ok(response("TSLA", &[(1, 100.0, 1), (3, 110.0, 1)], Some(90.0))));
    assert_eq!(g.change_base(), Some(price(90.0)));
    let p = percent_change(&g).unwrap();
    assert!((p - 22.222222222222222).abs() < 1e-9);
}

#[test]
fn no_change_base_without_metadata() {
    let mut g = StockGraph::new("TSLA");
    g.apply_series(Err(FetchError {}));
    assert_eq!(g.change_base(), None);
}
