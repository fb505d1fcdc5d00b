//! Optional query parameters and their serialization to a query-string
//! fragment.

use vstd::prelude::*;
use vstd::string::StringExecFns;

use crate::digits::dec_rep;
use crate::digits::push_decimal;
use crate::tokens::ExchangeType;
use crate::tokens::InstrumentType;
use crate::tokens::ResponseDataFormat;

verus! {

/// Optional parameters of a time-series request.
///
/// Every field defaults to unset, which means "omit from the query and let
/// the server apply its default".  Unset is distinct from set-to-empty: an
/// unset field contributes nothing to the serialized fragment.
pub struct TimeSeriesParams<'a> {
    /// Exchange where the instrument is traded.
    pub exchange: Option<&'a str>,
    /// Country where the instrument is traded.
    pub country: Option<&'a str>,
    /// Type to which the instrument belongs.
    pub instrument_type: Option<InstrumentType>,
    /// Number of data points to retrieve, between 1 and 5000.  Not
    /// validated here: the server rejects out-of-range values and defaults
    /// to 30 when none is given.
    pub output_size: Option<u16>,
    /// Format of the response data.  The server defaults to JSON when none
    /// is given.
    pub format: Option<ResponseDataFormat>,
}

impl<'a> TimeSeriesParams<'a> {
    /// The `&exchange=...` segment, or empty when the field is unset.
    pub open spec fn exchange_fragment(self) -> Seq<char> {
        match self.exchange {
            Some(e) => "&exchange="@ + e@,
            None => Seq::empty(),
        }
    }

    /// The `&country=...` segment, or empty when the field is unset.
    pub open spec fn country_fragment(self) -> Seq<char> {
        match self.country {
            Some(c) => "&country="@ + c@,
            None => Seq::empty(),
        }
    }

    /// The `&type=...` segment, or empty when the field is unset.
    pub open spec fn instrument_type_fragment(self) -> Seq<char> {
        match self.instrument_type {
            Some(t) => "&type="@ + t.spec_token(),
            None => Seq::empty(),
        }
    }

    /// The `&outputsize=...` segment, or empty when the field is unset.
    pub open spec fn output_size_fragment(self) -> Seq<char> {
        match self.output_size {
            Some(n) => "&outputsize="@ + dec_rep(n as nat),
            None => Seq::empty(),
        }
    }

    /// The `&format=...` segment, or empty when the field is unset.
    pub open spec fn format_fragment(self) -> Seq<char> {
        match self.format {
            Some(f) => "&format="@ + f.spec_token(),
            None => Seq::empty(),
        }
    }

    /// The full query-string fragment: one `&key=value` segment per set
    /// field, in the fixed order {exchange, country, instrument_type,
    /// output_size, format}; unset fields contribute nothing.  Non-empty
    /// fragments begin with `&`, so the fragment can be appended after a
    /// `key=value` pair already present in a URL.
    pub open spec fn query_fragment(self) -> Seq<char> {
        self.exchange_fragment() + self.country_fragment() + self.instrument_type_fragment()
            + self.output_size_fragment() + self.format_fragment()
    }

    /// True when every field is unset.
    pub open spec fn is_empty(self) -> bool {
        &&& self.exchange is None
        &&& self.country is None
        &&& self.instrument_type is None
        &&& self.output_size is None
        &&& self.format is None
    }

    /// Returns `self` with the exchange set; no other field changes.
    pub fn with_exchange(self, exchange: &'a str) -> (r: Self)
        ensures
            r.exchange == Some(exchange),
            r.country == self.country,
            r.instrument_type == self.instrument_type,
            r.output_size == self.output_size,
            r.format == self.format,
    {
        TimeSeriesParams { exchange: Some(exchange), ..self }
    }

    /// Returns `self` with the country set; no other field changes.
    pub fn with_country(self, country: &'a str) -> (r: Self)
        ensures
            r.exchange == self.exchange,
            r.country == Some(country),
            r.instrument_type == self.instrument_type,
            r.output_size == self.output_size,
            r.format == self.format,
    {
        TimeSeriesParams { country: Some(country), ..self }
    }

    /// Returns `self` with the instrument type set; no other field changes.
    pub fn with_instrument_type(self, instrument_type: InstrumentType) -> (r: Self)
        ensures
            r.exchange == self.exchange,
            r.country == self.country,
            r.instrument_type == Some(instrument_type),
            r.output_size == self.output_size,
            r.format == self.format,
    {
        TimeSeriesParams { instrument_type: Some(instrument_type), ..self }
    }

    /// Returns `self` with the output size set; no other field changes.
    pub fn with_output_size(self, output_size: u16) -> (r: Self)
        ensures
            r.exchange == self.exchange,
            r.country == self.country,
            r.instrument_type == self.instrument_type,
            r.output_size == Some(output_size),
            r.format == self.format,
    {
        TimeSeriesParams { output_size: Some(output_size), ..self }
    }

    /// Returns `self` with the response format set; no other field changes.
    pub fn with_format(self, format: ResponseDataFormat) -> (r: Self)
        ensures
            r.exchange == self.exchange,
            r.country == self.country,
            r.instrument_type == self.instrument_type,
            r.output_size == self.output_size,
            r.format == Some(format),
    {
        TimeSeriesParams { format: Some(format), ..self }
    }

    /// Serializes the set fields into a query-string fragment.
    ///
    /// Free-text fields are emitted verbatim, without percent-encoding;
    /// enumeration fields are emitted through their token mapping; the
    /// output size is emitted in base-10 decimal.
    #[verifier::rlimit(30)]
    pub fn to_string(&self) -> (r: String)
        ensures
            r@ == self.query_fragment(),
    {
        let mut query = String::new();

        match self.exchange {
            Some(exchange) => {
                query.append("&exchange=");
                query.append(exchange);
            },
            None => {},
        }
        proof {
            assert(query@ =~= self.exchange_fragment());
        }

        match self.country {
            Some(country) => {
                query.append("&country=");
                query.append(country);
            },
            None => {},
        }
        proof {
            assert(query@ =~= self.exchange_fragment() + self.country_fragment());
        }

        match self.instrument_type {
            Some(instrument_type) => {
                query.append("&type=");
                query.append(instrument_type.as_str());
            },
            None => {},
        }
        proof {
            assert(query@ =~= self.exchange_fragment() + self.country_fragment()
                + self.instrument_type_fragment());
        }

        match self.output_size {
            Some(output_size) => {
                query.append("&outputsize=");
                push_decimal(&mut query, output_size);
            },
            None => {},
        }
        proof {
            assert(query@ =~= self.exchange_fragment() + self.country_fragment()
                + self.instrument_type_fragment() + self.output_size_fragment());
        }

        match self.format {
            Some(format) => {
                query.append("&format=");
                query.append(format.as_str());
            },
            None => {},
        }

        proof {
            assert(query@ =~= self.query_fragment());
        }
        query
    }
}

impl<'a> Default for TimeSeriesParams<'a> {
    /// All fields unset.
    fn default() -> (r: Self)
        ensures
            r.is_empty(),
    {
        TimeSeriesParams {
            exchange: None,
            country: None,
            instrument_type: None,
            output_size: None,
            format: None,
        }
    }
}

/// An empty fragment comes exactly from an empty parameter set: the
/// serialized query is the empty string if and only if every field is
/// unset.
pub proof fn lemma_empty_query_fragment(p: TimeSeriesParams)
    ensures
        p.query_fragment() == Seq::<char>::empty() <==> p.is_empty(),
{
    reveal_strlit("&exchange=");
    reveal_strlit("&country=");
    reveal_strlit("&type=");
    reveal_strlit("&outputsize=");
    reveal_strlit("&format=");
    if p.is_empty() {
        assert(p.query_fragment() =~= Seq::<char>::empty());
    }
}

/// Optional parameters of an exchange-listing request.
///
/// The exchange-type filter cannot currently be serialized: no token
/// mapping is defined for `ExchangeType` (see that type's documentation),
/// so this record is an incomplete feature boundary.
pub struct ExchangesParams {
    /// Filter the listing to exchanges of this type.
    pub exchange_type: Option<ExchangeType>,
}

impl ExchangesParams {
    /// Returns `self` with the exchange-type filter set.
    pub fn with_exchange_type(self, exchange_type: ExchangeType) -> (r: Self)
        ensures
            r.exchange_type == Some(exchange_type),
    {
        ExchangesParams { exchange_type: Some(exchange_type) }
    }
}

impl Default for ExchangesParams {
    /// The filter is unset.
    fn default() -> (r: Self)
        ensures
            r.exchange_type is None,
    {
        ExchangesParams { exchange_type: None }
    }
}

} // verus!
