//! Assembly of complete request URLs for the external API.

use vstd::prelude::*;
use vstd::string::StringExecFns;

use crate::digits::dec_rep;
use crate::params::TimeSeriesParams;
use crate::tokens::InstrumentType;
use crate::tokens::Interval;
use crate::tokens::ResponseDataFormat;

verus! {

/// The exact shape of a time-series request URL:
/// base host + path, the required parameters `symbol`, `interval` and
/// `apikey`, then the optional-parameter fragment.
pub open spec fn time_series_url(
    key: Seq<char>,
    symbol: Seq<char>,
    interval: Interval,
    params: TimeSeriesParams<'_>,
) -> Seq<char> {
    "https://api.twelvedata.com/"@ + "time_series?symbol="@ + symbol + "&interval="@
        + interval.spec_token() + "&apikey="@ + key + params.query_fragment()
}

/// Builds request URLs for the external API.  Holds exactly one piece of
/// state, the API key, fixed for the builder's lifetime.
pub struct TDRequestBuilder {
    apikey: &'static str,
}

impl TDRequestBuilder {
    /// The API key this builder emits into every URL.
    pub closed spec fn spec_key(self) -> Seq<char> {
        self.apikey@
    }

    pub fn new(apikey: &'static str) -> (r: TDRequestBuilder)
        ensures
            r.spec_key() == apikey@,
    {
        TDRequestBuilder { apikey }
    }

    /// The path segment of the exchange-listing endpoint.
    ///
    /// Unlike `time_series`, this returns only a bare path fragment, not a
    /// fully-qualified URL with host, API key and filter; the
    /// exchange-listing endpoint is an incomplete feature boundary, and
    /// the fragment is returned as is rather than guessing at the full
    /// shape.
    pub fn exchanges(&self) -> (r: String)
        ensures
            r@ == "/exchanges"@,
    {
        "/exchanges".to_owned()
    }

    /// The complete URL of a time-series request.
    ///
    /// `symbol` is emitted verbatim, with no validation and no escaping;
    /// the function is total over all inputs, including an empty symbol,
    /// and has no error path.  Malformed inputs surface only as an
    /// eventual rejection by the external API.
    pub fn time_series<'a>(
        &self,
        symbol: &'a str,
        interval: Interval,
        params: &TimeSeriesParams<'a>,
    ) -> (r: String)
        ensures
            r@ == time_series_url(self.spec_key(), symbol@, interval, *params),
    {
        let mut url = String::new();
        url.append("https://api.twelvedata.com/");
        url.append("time_series?symbol=");
        url.append(symbol);
        url.append("&interval=");
        url.append(interval.as_str());
        url.append("&apikey=");
        url.append(self.apikey);
        let query = params.to_string();
        url.append(query.as_str());
        proof {
            assert(url@ =~= time_series_url(self.spec_key(), symbol@, interval, *params));
        }
        url
    }
}

/// Building a URL is deterministic: two URLs built from the same key,
/// symbol, interval and parameters are identical, character for character.
pub proof fn lemma_time_series_deterministic(
    r1: Seq<char>,
    r2: Seq<char>,
    key: Seq<char>,
    symbol: Seq<char>,
    interval: Interval,
    params: TimeSeriesParams<'_>,
)
    requires
        r1 == time_series_url(key, symbol, interval, params),
        r2 == time_series_url(key, symbol, interval, params),
    ensures
        r1 == r2,
{
}

/// With an empty parameter set the optional fragment is empty, and
/// appending it changes nothing: the URL is exactly the required portion.
pub proof fn lemma_time_series_url_empty_params(
    key: Seq<char>,
    symbol: Seq<char>,
    interval: Interval,
    params: TimeSeriesParams<'_>,
)
    requires
        params.is_empty(),
    ensures
        time_series_url(key, symbol, interval, params) == "https://api.twelvedata.com/"@
            + "time_series?symbol="@ + symbol + "&interval="@ + interval.spec_token()
            + "&apikey="@ + key,
{
    assert(params.query_fragment() =~= Seq::<char>::empty());
    assert(time_series_url(key, symbol, interval, params) =~= "https://api.twelvedata.com/"@
        + "time_series?symbol="@ + symbol + "&interval="@ + interval.spec_token() + "&apikey="@
        + key);
}

/// With every optional field set, the fragment holds all five segments in
/// the fixed order {exchange, country, type, outputsize, format},
/// whatever order the fields were set in: the fragment depends only on
/// the field values.
pub proof fn lemma_full_params_fragment(
    params: TimeSeriesParams<'_>,
    exchange: &str,
    country: &str,
    instrument_type: InstrumentType,
    output_size: u16,
    format: ResponseDataFormat,
)
    requires
        params.exchange == Some(exchange),
        params.country == Some(country),
        params.instrument_type == Some(instrument_type),
        params.output_size == Some(output_size),
        params.format == Some(format),
    ensures
        params.query_fragment() == "&exchange="@ + exchange@ + "&country="@ + country@ + "&type="@
            + instrument_type.spec_token() + "&outputsize="@ + dec_rep(output_size as nat)
            + "&format="@ + format.spec_token(),
{
    assert(params.query_fragment() =~= "&exchange="@ + exchange@ + "&country="@ + country@
        + "&type="@ + instrument_type.spec_token() + "&outputsize="@ + dec_rep(
        output_size as nat,
    ) + "&format="@ + format.spec_token());
}

} // verus!
