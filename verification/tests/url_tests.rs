use twelvedata::Interval;
use twelvedata::ResponseDataFormat;
use twelvedata::TDRequestBuilder;
use twelvedata::TimeSeriesParams;

#[test]
fn time_series_test() {
    let params_builder = TimeSeriesParams::default();
    let request_builder = TDRequestBuilder::new("test_api_key");
    let request_uri = request_builder.time_series("AAPL", Interval::Minutes1, &params_builder);

    assert_eq!(
        "https://api.twelvedata.com/time_series?symbol=AAPL&interval=1min&apikey=test_api_key",
        request_uri
    );
}

#[test]
fn empty_params_serialize_to_empty_string() {
    let params = TimeSeriesParams::default();
    assert_eq!("", params.to_string());
}

#[test]
fn empty_fragment_appends_nothing() {
    let params = TimeSeriesParams::default();
    let builder = TDRequestBuilder::new("k");
    let base = "https://api.twelvedata.com/time_series?symbol=MSFT&interval=1day&apikey=k";
    let uri = builder.time_series("MSFT", Interval::Days1, &params);
    assert_eq!(format!("{}{}", base, params.to_string()), uri);
    assert_eq!(base, uri);
}

#[test]
fn output_size_only_appends_one_segment() {
    let params = TimeSeriesParams::default().with_output_size(100);
    assert_eq!("&outputsize=100", params.to_string());

    let builder = TDRequestBuilder::new("test_api_key");
    let uri = builder.time_series("AAPL", Interval::Minutes1, &params);
    assert_eq!(
        "https://api.twelvedata.com/time_series?symbol=AAPL&interval=1min&apikey=test_api_key&outputsize=100",
        uri
    );
}

#[test]
fn all_fields_in_fixed_order_regardless_of_setting_order() {
    let in_order = TimeSeriesParams::default()
        .with_exchange("NASDAQ")
        .with_country("USA")
        .with_instrument_type(twelvedata::InstrumentType::Etf)
        .with_output_size(42)
        .with_format(ResponseDataFormat::Csv);
    let scrambled = TimeSeriesParams::default()
        .with_format(ResponseDataFormat::Csv)
        .with_output_size(42)
        .with_country("USA")
        .with_exchange("NASDAQ")
        .with_instrument_type(twelvedata::InstrumentType::Etf);
    let expected = "&exchange=NASDAQ&country=USA&type=ETF&outputsize=42&format=CSV";
    assert_eq!(expected, in_order.to_string());
    assert_eq!(expected, scrambled.to_string());
}

#[test]
fn time_series_is_deterministic() {
    let builder = TDRequestBuilder::new("test_api_key");
    let params1 = TimeSeriesParams::default()
        .with_exchange("NYSE")
        .with_output_size(500);
    let params2 = TimeSeriesParams::default()
        .with_exchange("NYSE")
        .with_output_size(500);
    let first = builder.time_series("IBM", Interval::Hours4, &params1);
    let second = builder.time_series("IBM", Interval::Hours4, &params2);
    assert_eq!(first, second);
}

#[test]
fn exchanges_returns_bare_path_fragment() {
    // The exchange-listing operation yields only a path fragment, not a
    // fully-qualified URL as time_series does: the shape discrepancy is
    // recorded here rather than papered over.
    let builder = TDRequestBuilder::new("test_api_key");
    assert_eq!("/exchanges", builder.exchanges());
}
