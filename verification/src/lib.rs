//! Request-URL construction for the Twelve Data market-data HTTP API.
//!
//! The crate assembles request URLs from typed enumerations and optional
//! query parameters; it performs no network I/O itself.  Callers pass the
//! returned string to whatever HTTP client they use.

pub mod digits;
pub mod params;
pub mod request;
pub mod tokens;

pub use params::ExchangesParams;
pub use params::TimeSeriesParams;
pub use request::TDRequestBuilder;
pub use tokens::ExchangeType;
pub use tokens::InstrumentType;
pub use tokens::Interval;
pub use tokens::ResponseDataFormat;
