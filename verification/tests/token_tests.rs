use twelvedata::ExchangeType;
use twelvedata::ExchangesParams;
use twelvedata::InstrumentType;
use twelvedata::Interval;
use twelvedata::ResponseDataFormat;
use twelvedata::TimeSeriesParams;

#[test]
fn interval_tokens_match_documented_literals() {
    assert_eq!("1min", Interval::Minutes1.as_str());
    assert_eq!("5min", Interval::Minutes5.as_str());
    assert_eq!("15min", Interval::Minutes15.as_str());
    assert_eq!("30min", Interval::Minutes30.as_str());
    assert_eq!("45min", Interval::Minutes45.as_str());
    assert_eq!("1h", Interval::Hours1.as_str());
    assert_eq!("2h", Interval::Hours2.as_str());
    assert_eq!("4h", Interval::Hours4.as_str());
    assert_eq!("1day", Interval::Days1.as_str());
    assert_eq!("1week", Interval::Weeks1.as_str());
    assert_eq!("1month", Interval::Months1.as_str());
}

#[test]
fn instrument_type_tokens_match_documented_literals() {
    assert_eq!("Stock", InstrumentType::Stock.as_str());
    assert_eq!("Index", InstrumentType::Index.as_str());
    assert_eq!("ETF", InstrumentType::Etf.as_str());
    assert_eq!("REIT", InstrumentType::Reit.as_str());
}

#[test]
fn format_tokens_match_documented_literals() {
    assert_eq!("CSV", ResponseDataFormat::Csv.as_str());
    assert_eq!("JSON", ResponseDataFormat::Json.as_str());
}

#[test]
fn token_mapping_is_stable() {
    assert_eq!(Interval::Weeks1.as_str(), Interval::Weeks1.as_str());
    assert_eq!(InstrumentType::Reit.as_str(), InstrumentType::Reit.as_str());
    assert_eq!(ResponseDataFormat::Json.as_str(), ResponseDataFormat::Json.as_str());
}

#[test]
fn output_size_bounds_render_in_decimal() {
    assert_eq!(
        "&outputsize=0",
        TimeSeriesParams::default().with_output_size(0).to_string()
    );
    assert_eq!(
        "&outputsize=1",
        TimeSeriesParams::default().with_output_size(1).to_string()
    );
    assert_eq!(
        "&outputsize=5000",
        TimeSeriesParams::default().with_output_size(5000).to_string()
    );
    assert_eq!(
        "&outputsize=65535",
        TimeSeriesParams::default().with_output_size(65535).to_string()
    );
}

#[test]
fn exchanges_params_filter_is_unset_by_default() {
    let params = ExchangesParams::default();
    assert!(params.exchange_type.is_none());
    let params = params.with_exchange_type(ExchangeType::Index);
    assert!(matches!(params.exchange_type, Some(ExchangeType::Index)));
}
