//! Closed enumerations with their canonical external string tokens.
//!
//! Each enumeration maps every variant to a fixed token of the external
//! API's vocabulary.  The mapping is total, pure, and injective: no variant
//! maps to the empty string or to another variant's token.

use vstd::prelude::*;

verus! {

/// Sampling granularity of a time-series request.
#[derive(Clone, Copy)]
pub enum Interval {
    Minutes1,
    Minutes5,
    Minutes15,
    Minutes30,
    Minutes45,
    Hours1,
    Hours2,
    Hours4,
    Days1,
    Weeks1,
    Months1,
}

impl Interval {
    /// The canonical external token of this variant.
    pub open spec fn spec_token(self) -> Seq<char> {
        match self {
            Interval::Minutes1 => "1min"@,
            Interval::Minutes5 => "5min"@,
            Interval::Minutes15 => "15min"@,
            Interval::Minutes30 => "30min"@,
            Interval::Minutes45 => "45min"@,
            Interval::Hours1 => "1h"@,
            Interval::Hours2 => "2h"@,
            Interval::Hours4 => "4h"@,
            Interval::Days1 => "1day"@,
            Interval::Weeks1 => "1week"@,
            Interval::Months1 => "1month"@,
        }
    }

    pub fn as_str(&self) -> (r: &'static str)
        ensures
            r@ == self.spec_token(),
    {
        match self {
            Interval::Minutes1 => "1min",
            Interval::Minutes5 => "5min",
            Interval::Minutes15 => "15min",
            Interval::Minutes30 => "30min",
            Interval::Minutes45 => "45min",
            Interval::Hours1 => "1h",
            Interval::Hours2 => "2h",
            Interval::Hours4 => "4h",
            Interval::Days1 => "1day",
            Interval::Weeks1 => "1week",
            Interval::Months1 => "1month",
        }
    }
}

/// The token mapping of `Interval` never yields the empty string.
pub proof fn lemma_interval_token_nonempty(a: Interval)
    ensures
        a.spec_token().len() > 0,
{
    reveal_strlit("1min");
    reveal_strlit("5min");
    reveal_strlit("15min");
    reveal_strlit("30min");
    reveal_strlit("45min");
    reveal_strlit("1h");
    reveal_strlit("2h");
    reveal_strlit("4h");
    reveal_strlit("1day");
    reveal_strlit("1week");
    reveal_strlit("1month");
}

/// The token mapping of `Interval` is injective: distinct variants carry
/// distinct tokens.
pub proof fn lemma_interval_token_injective(a: Interval, b: Interval)
    ensures
        a.spec_token() == b.spec_token() ==> a == b,
{
    reveal_strlit("1min");
    reveal_strlit("5min");
    reveal_strlit("15min");
    reveal_strlit("30min");
    reveal_strlit("45min");
    reveal_strlit("1h");
    reveal_strlit("2h");
    reveal_strlit("4h");
    reveal_strlit("1day");
    reveal_strlit("1week");
    reveal_strlit("1month");
    assert("1min"@.len() == 4);
    assert("1min"@[0] == '1');
    assert("1min"@[1] == 'm');
    assert("5min"@.len() == 4);
    assert("5min"@[0] == '5');
    assert("15min"@.len() == 5);
    assert("15min"@[0] == '1');
    assert("15min"@[1] == '5');
    assert("30min"@.len() == 5);
    assert("30min"@[0] == '3');
    assert("45min"@.len() == 5);
    assert("45min"@[0] == '4');
    assert("1h"@.len() == 2);
    assert("1h"@[0] == '1');
    assert("2h"@.len() == 2);
    assert("2h"@[0] == '2');
    assert("4h"@.len() == 2);
    assert("4h"@[0] == '4');
    assert("1day"@.len() == 4);
    assert("1day"@[0] == '1');
    assert("1day"@[1] == 'd');
    assert("1week"@.len() == 5);
    assert("1week"@[0] == '1');
    assert("1week"@[1] == 'w');
    assert("1month"@.len() == 6);
}

/// Category of tradable asset.
#[derive(Clone, Copy)]
pub enum InstrumentType {
    Stock,
    Index,
    Etf,
    Reit,
}

impl InstrumentType {
    /// The canonical external token of this variant.
    pub open spec fn spec_token(self) -> Seq<char> {
        match self {
            InstrumentType::Stock => "Stock"@,
            InstrumentType::Index => "Index"@,
            InstrumentType::Etf => "ETF"@,
            InstrumentType::Reit => "REIT"@,
        }
    }

    pub fn as_str(&self) -> (r: &'static str)
        ensures
            r@ == self.spec_token(),
    {
        match self {
            InstrumentType::Stock => "Stock",
            InstrumentType::Index => "Index",
            InstrumentType::Etf => "ETF",
            InstrumentType::Reit => "REIT",
        }
    }
}

/// The token mapping of `InstrumentType` never yields the empty string.
pub proof fn lemma_instrument_token_nonempty(a: InstrumentType)
    ensures
        a.spec_token().len() > 0,
{
    reveal_strlit("Stock");
    reveal_strlit("Index");
    reveal_strlit("ETF");
    reveal_strlit("REIT");
}

/// The token mapping of `InstrumentType` is injective.
pub proof fn lemma_instrument_token_injective(a: InstrumentType, b: InstrumentType)
    ensures
        a.spec_token() == b.spec_token() ==> a == b,
{
    reveal_strlit("Stock");
    reveal_strlit("Index");
    reveal_strlit("ETF");
    reveal_strlit("REIT");
    assert("Stock"@.len() == 5);
    assert("Stock"@[0] == 'S');
    assert("Index"@.len() == 5);
    assert("Index"@[0] == 'I');
    assert("ETF"@.len() == 3);
    assert("REIT"@.len() == 4);
}

/// Format of the response data.
#[derive(Clone, Copy)]
pub enum ResponseDataFormat {
    Csv,
    Json,
}

impl ResponseDataFormat {
    /// The canonical external token of this variant.
    pub open spec fn spec_token(self) -> Seq<char> {
        match self {
            ResponseDataFormat::Csv => "CSV"@,
            ResponseDataFormat::Json => "JSON"@,
        }
    }

    pub fn as_str(&self) -> (r: &'static str)
        ensures
            r@ == self.spec_token(),
    {
        match self {
            ResponseDataFormat::Csv => "CSV",
            ResponseDataFormat::Json => "JSON",
        }
    }
}

/// The token mapping of `ResponseDataFormat` never yields the empty string.
pub proof fn lemma_format_token_nonempty(a: ResponseDataFormat)
    ensures
        a.spec_token().len() > 0,
{
    reveal_strlit("CSV");
    reveal_strlit("JSON");
}

/// The token mapping of `ResponseDataFormat` is injective.
pub proof fn lemma_format_token_injective(a: ResponseDataFormat, b: ResponseDataFormat)
    ensures
        a.spec_token() == b.spec_token() ==> a == b,
{
    reveal_strlit("CSV");
    reveal_strlit("JSON");
    assert("CSV"@.len() == 3);
    assert("JSON"@.len() == 4);
}

/// Filter category for an exchange-listing request.
///
/// No external token mapping is defined for this enumeration: the
/// exchange-listing endpoint is an incomplete feature boundary, and the
/// tokens the server expects are not documented here, so none are invented.
#[derive(Clone, Copy)]
pub enum ExchangeType {
    Stock,
    Index,
    Etf,
}

} // verus!
