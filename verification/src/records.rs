//! The records that the service returns, field for field, and the
//! identifiers that requests take.

use crate::ratelimit::Ratelimit;
use url::Url;
use vstd::prelude::*;
use vstd::string::*;

verus! {

/// A supported stock exchange.
#[derive(Debug)]
pub struct Exchange {
    /// The code of the exchange, such as "US" or "VN".
    pub code: String,
    /// The currency used at the exchange, such as "USD" or "VND".
    pub currency: String,
    /// The full name of the exchange.
    pub name: String,
}

/// The code of a stock exchange. Any text is taken as it is.
#[derive(Debug)]
pub struct ExchangeCode(pub String);

/// A supported stock symbol.
#[derive(Debug)]
pub struct StockDesc {
    /// The description of the symbol.
    pub description: String,
    /// The name under which the symbol is displayed.
    pub display_symbol: String,
    /// The unique symbol.
    pub symbol: String,
}

/// The symbol of a stock. Any text is taken as it is.
#[derive(Debug)]
pub struct Symbol(pub String);

/// A news article.
#[derive(Debug)]
pub struct NewsArticle {
    pub category: String,
    /// The time of publication, in seconds after the Unix epoch.
    pub datetime: u32,
    pub headline: String,
    pub id: u32,
    /// The symbols that the article is about.
    pub related: String,
    pub source: String,
    pub summary: String,
    pub url: Url,
}

/// The payload of a response, with the rate-limit snapshot that came with
/// it, if one did.
#[derive(Debug)]
pub struct ApiCall<T> {
    pub ratelimit: Option<Ratelimit>,
    pub inner: T,
}

impl ExchangeCode {
    /// The code with the characters of `s`.
    pub fn new(s: &str) -> (code: ExchangeCode)
        ensures
            code.0@ == s@,
    {
        ExchangeCode(String::from_str(s))
    }
}

impl Symbol {
    /// The symbol with the characters of `s`.
    pub fn new(s: &str) -> (symbol: Symbol)
        ensures
            symbol.0@ == s@,
    {
        Symbol(String::from_str(s))
    }
}

impl std::str::FromStr for ExchangeCode {
    type Err = std::convert::Infallible;

    /// Takes any text as a code; it never fails.
    fn from_str(s: &str) -> (code: Result<Self, Self::Err>)
        ensures
            code matches Ok(taken) && taken.0@ == s@,
    {
        Ok(ExchangeCode::new(s))
    }
}

impl std::str::FromStr for Symbol {
    type Err = std::convert::Infallible;

    /// Takes any text as a symbol; it never fails.
    fn from_str(s: &str) -> (symbol: Result<Self, Self::Err>)
        ensures
            symbol matches Ok(taken) && taken.0@ == s@,
    {
        Ok(Symbol::new(s))
    }
}

} // verus!
