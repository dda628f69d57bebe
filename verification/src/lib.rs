//! Typed request construction and response handling for the Finnhub
//! market-data REST API.
//!
//! The library sends nothing itself. `Client` plans each request: the URL
//! to get, and where the payload stands in the body of the response. The
//! caller performs the request and hands the headers and the body back to
//! `Request::complete`, which gives the payload and the rate-limit
//! snapshot that came with it.

pub mod address;
pub mod builder;
pub mod category;
pub mod client;
pub mod clock;
pub mod decimal;
pub mod error;
pub mod headers;
pub mod json;
pub mod path;
pub mod ratelimit;
pub mod records;
pub mod text;

pub use category::{NewsCategory, ParseNewsCategoryError};
pub use client::{Client, Request};
pub use error::{ClientError, DeserializeError};
pub use json::Decode;
pub use ratelimit::Ratelimit;
pub use records::{ApiCall, Exchange, ExchangeCode, NewsArticle, StockDesc, Symbol};
