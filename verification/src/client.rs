//! The client: which request each endpoint takes, and what a response to
//! it gives.
//!
//! The client sends nothing itself. Each endpoint method plans a request,
//! the URL to get and the place of the payload in the body; the caller
//! performs it and hands the headers and the body of the response to
//! `Request::complete`.

use crate::address::{parse, parsed_url, url_path_segments, url_query_pairs};
use crate::builder::{all_pushed, build_url, built_url, pairs_of, token_name};
use crate::category::NewsCategory;
use crate::error::ClientError;
use crate::headers::text_under;
use crate::json::{json_member, missing_key_message, payload_of, Decode, DecodeView};
use crate::path::segments_of;
use crate::ratelimit::{held, limit_header, remaining_header, reset_header, snapshot_of, Ratelimit};
use crate::records::{ApiCall, ExchangeCode, Symbol};
use reqwest::header::HeaderMap;
use serde_json::Value;
use url::Url;
use vstd::prelude::*;
use vstd::string::*;

verus! {

/// The address of the service, on which every request is built.
pub const BASEURL: &'static str = "https://finnhub.io/api/v1";

/// The characters of the address of the service.
pub open spec fn base_text() -> Seq<char> {
    "https://finnhub.io/api/v1"@
}

/// A client of the service, which holds the token that every request
/// carries.
#[derive(Debug)]
pub struct Client {
    token: String,
}

impl View for Client {
    type V = Seq<char>;

    /// The token of the client.
    closed spec fn view(&self) -> Seq<char> {
        self.token@
    }
}

/// A request that is ready to be sent: the URL to get, and where the
/// payload stands in the body that comes back.
#[derive(Debug)]
pub struct Request {
    pub url: Url,
    pub decode: Decode,
}

/// The URL that a client with `token` gets for `path` and `params`, where
/// there is one.
pub open spec fn url_for(
    token: Seq<char>,
    path: Seq<char>,
    params: Seq<(Seq<char>, Seq<char>)>,
) -> Option<Url> {
    match parsed_url(base_text()) {
        Some(base) => built_url(base, path, token, params),
        None => None,
    }
}

/// Whether `planned` is what a client with `token` plans for the endpoint
/// at `path` with `params`: the request for the URL of the three and with
/// `decode`, or the refusal of a malformed URL where there is no such URL.
pub open spec fn plans(
    planned: Result<Request, ClientError>,
    token: Seq<char>,
    path: Seq<char>,
    params: Seq<(Seq<char>, Seq<char>)>,
    decode: DecodeView,
) -> bool {
    match planned {
        Ok(request) => {
            &&& url_for(token, path, params) == Some(request.url)
            &&& url_query_pairs(request.url) == seq![(token_name(), token)] + params
            &&& request.decode@ == decode
        },
        Err(error) => error is MalformedUrl && url_for(token, path, params) is None,
    }
}

impl Client {
    /// A client that sends `token` with every request.
    pub fn with_token(token: &str) -> (client: Client)
        ensures
            client@ == token@,
    {
        Client { token: String::from_str(token) }
    }

    /// The request for the list of supported exchanges.
    pub fn exchanges(&self) -> (planned: Result<Request, ClientError>)
        ensures
            plans(planned, self@, "/stock/exchange"@, Seq::empty(), DecodeView::Direct),
    {
        self.plan("/stock/exchange", None, Decode::Direct)
    }

    /// The request for the symbols that an exchange lists.
    pub fn symbols(&self, exchange: &ExchangeCode) -> (planned: Result<Request, ClientError>)
        ensures
            plans(
                planned,
                self@,
                "/stock/symbol"@,
                seq![("exchange"@, exchange.0@)],
                DecodeView::Direct,
            ),
    {
        self.plan_with("/stock/symbol", "exchange", exchange.0.as_str(), Decode::Direct)
    }

    /// The request for the quote of a symbol.
    pub fn quote(&self, symbol: &Symbol) -> (planned: Result<Request, ClientError>)
        ensures
            plans(planned, self@, "/quote"@, seq![("symbol"@, symbol.0@)], DecodeView::Direct),
    {
        self.plan_with("/quote", "symbol", symbol.0.as_str(), Decode::Direct)
    }

    /// The request for the news of a category.
    pub fn news(&self, category: &NewsCategory) -> (planned: Result<Request, ClientError>)
        ensures
            plans(
                planned,
                self@,
                "/news"@,
                seq![("category"@, category.wire_name())],
                DecodeView::Direct,
            ),
    {
        self.plan_with("/news", "category", category.as_str(), Decode::Direct)
    }

    /// The request for the news sentiment of a symbol.
    pub fn news_sentiment(&self, symbol: &Symbol) -> (planned: Result<Request, ClientError>)
        ensures
            plans(
                planned,
                self@,
                "/news-sentiment"@,
                seq![("symbol"@, symbol.0@)],
                DecodeView::Direct,
            ),
    {
        self.plan_with("/news-sentiment", "symbol", symbol.0.as_str(), Decode::Direct)
    }

    /// The request for the news of a company. The symbol is the last
    /// segment of the path, so a symbol that is no valid segment is
    /// refused.
    pub fn company_news(&self, symbol: &Symbol) -> (planned: Result<Request, ClientError>)
        ensures
            plans(planned, self@, "/news/"@ + symbol.0@, Seq::empty(), DecodeView::Direct),
    {
        let mut path = String::from_str("/news/");
        path.append(symbol.0.as_str());
        self.plan(path.as_str(), None, Decode::Direct)
    }

    /// The request for the peers of a symbol.
    pub fn peers(&self, symbol: &Symbol) -> (planned: Result<Request, ClientError>)
        ensures
            plans(
                planned,
                self@,
                "/stock/peers"@,
                seq![("symbol"@, symbol.0@)],
                DecodeView::Direct,
            ),
    {
        self.plan_with("/stock/peers", "symbol", symbol.0.as_str(), Decode::Direct)
    }

    /// The request for the executives of a company, whose list stands in
    /// the body under the name `executive`.
    pub fn executives(&self, symbol: &Symbol) -> (planned: Result<Request, ClientError>)
        ensures
            plans(
                planned,
                self@,
                "/stock/executive"@,
                seq![("symbol"@, symbol.0@)],
                DecodeView::Member("executive"@),
            ),
    {
        self.plan_with(
            "/stock/executive",
            "symbol",
            symbol.0.as_str(),
            Decode::Member(String::from_str("executive")),
        )
    }

    /// The request for the price target of a symbol.
    pub fn price_target(&self, symbol: &Symbol) -> (planned: Result<Request, ClientError>)
        ensures
            plans(
                planned,
                self@,
                "/stock/price-target"@,
                seq![("symbol"@, symbol.0@)],
                DecodeView::Direct,
            ),
    {
        self.plan_with("/stock/price-target", "symbol", symbol.0.as_str(), Decode::Direct)
    }

    /// The request for the recommendation trends of a symbol.
    pub fn price_recommendation(&self, symbol: &Symbol) -> (planned: Result<
        Request,
        ClientError,
    >)
        ensures
            plans(
                planned,
                self@,
                "/stock/recommendation"@,
                seq![("symbol"@, symbol.0@)],
                DecodeView::Direct,
            ),
    {
        self.plan_with("/stock/recommendation", "symbol", symbol.0.as_str(), Decode::Direct)
    }

    /// The URL for `path` and `params` on the address of the service.
    ///
    /// The path is one or more segments with a slash between each two, and
    /// may begin with one slash more. The query of the URL holds the token
    /// under the name `token` first, then the parameters in the order
    /// given, and nothing else; a name that occurs twice is kept twice. The
    /// path of the URL is that of the address followed by the segments of
    /// `path`. A path with an empty segment, a dot segment or a character
    /// that no segment may hold is refused as a malformed URL, and so is
    /// what is too long to append. Equal arguments give equal URLs.
    pub fn url_for_path(&self, path: &str, params: Option<Vec<(&str, &str)>>) -> (built: Result<
        Url,
        ClientError,
    >)
        ensures
            match built {
                Ok(url) => {
                    &&& url_for(self@, path@, pairs_of(params)) == Some(url)
                    &&& url_query_pairs(url) == seq![(token_name(), self@)] + pairs_of(params)
                    &&& params is None ==> url_query_pairs(url) == seq![(token_name(), self@)]
                    &&& parsed_url(base_text()) matches Some(base) && (url_path_segments(
                        base,
                    ) matches Some(segments) ==> url_path_segments(url) == Some(
                        all_pushed(segments, segments_of(path@)),
                    ))
                },
                Err(error) => error is MalformedUrl && url_for(self@, path@, pairs_of(params))
                    is None,
            },
    {
        match parse(BASEURL) {
            Some(base) => build_url(base, path, self.token.as_str(), params),
            None => Err(ClientError::MalformedUrl),
        }
    }

    /// The request for `url` whose payload is the body itself.
    pub fn get(&self, url: Url) -> (request: Request)
        ensures
            request.url == url,
            request.decode@ == DecodeView::Direct,
    {
        self.get_with(url, Decode::Direct)
    }

    /// The request for `url` whose payload `decode` finds in the body.
    pub fn get_with(&self, url: Url, decode: Decode) -> (request: Request)
        ensures
            request.url == url,
            request.decode == decode,
    {
        Request { url, decode }
    }

    /// The request for the endpoint at `path` with `params`.
    fn plan(&self, path: &str, params: Option<Vec<(&str, &str)>>, decode: Decode) -> (planned:
        Result<Request, ClientError>)
        ensures
            plans(planned, self@, path@, pairs_of(params), decode@),
    {
        match self.url_for_path(path, params) {
            Ok(url) => Ok(self.get_with(url, decode)),
            Err(error) => Err(error),
        }
    }

    /// The request for the endpoint at `path` with one parameter.
    fn plan_with(&self, path: &str, name: &str, value: &str, decode: Decode) -> (planned: Result<
        Request,
        ClientError,
    >)
        ensures
            plans(planned, self@, path@, seq![(name@, value@)], decode@),
    {
        let params = vec![(name, value)];
        assert(pairs_of(Some(params)) =~= seq![(name@, value@)]);
        self.plan(path, Some(params), decode)
    }
}

impl Request {
    /// What the response to this request gives: the payload that the body
    /// holds, with the rate-limit snapshot of the headers.
    ///
    /// Headers without a snapshot never fail the call. A body that lacks
    /// the member under which the payload is expected fails it, with an
    /// error that names the member.
    pub fn complete(&self, headers: &HeaderMap, body: Value) -> (outcome: Result<
        ApiCall<Value>,
        ClientError,
    >)
        ensures
            outcome is Ok <==> payload_of(self.decode@, body) is Some,
            match outcome {
                Ok(call) => {
                    &&& payload_of(self.decode@, body) == Some(call.inner)
                    &&& held(call.ratelimit) == snapshot_of(
                        text_under(*headers, limit_header()),
                        text_under(*headers, remaining_header()),
                        text_under(*headers, reset_header()),
                    )
                },
                Err(ClientError::MissingKey(error)) => {
                    &&& self.decode@ matches DecodeView::Member(key)
                    &&& json_member(body, key) is None
                    &&& error@ == missing_key_message(key)
                },
                Err(_) => false,
            },
    {
        let ratelimit = Ratelimit::from_headers(headers);
        match self.decode.select(body) {
            Ok(inner) => Ok(ApiCall { ratelimit, inner }),
            Err(error) => Err(error),
        }
    }
}

} // verus!
