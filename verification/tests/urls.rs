use finnhub::builder::build_url;
use finnhub::path::split_path;
use finnhub::text::str_eq;
use finnhub::{Client, ClientError};
use url::Url;

fn pairs(url: &Url) -> Vec<(String, String)> {
    url.query_pairs().into_owned().collect()
}

fn pair(name: &str, value: &str) -> (String, String) {
    (name.to_string(), value.to_string())
}

#[test]
fn quote_url_has_token_then_symbol() {
    let client = Client::with_token("T1");
    let url = client.url_for_path("/quote", Some(vec![("symbol", "SPY")])).unwrap();
    assert_eq!(url.as_str(), "https://finnhub.io/api/v1/quote?token=T1&symbol=SPY");
}

#[test]
fn path_without_leading_slash_and_no_params() {
    let client = Client::with_token("some-token");
    let url = client.url_for_path("news", None).unwrap();
    assert_eq!(url, "https://finnhub.io/api/v1/news?token=some-token".parse::<Url>().unwrap());
}

#[test]
fn path_of_two_segments_with_one_param() {
    let client = Client::with_token("some-token");
    let url = client.url_for_path("stock/quote", Some(vec![("stock", "SPY")])).unwrap();
    assert_eq!(
        url,
        "https://finnhub.io/api/v1/stock/quote?token=some-token&stock=SPY".parse::<Url>().unwrap()
    );
}

#[test]
fn without_params_the_query_is_the_token_alone() {
    let client = Client::with_token("abc123");
    let url = client.url_for_path("/stock/exchange", None).unwrap();
    assert_eq!(pairs(&url), vec![pair("token", "abc123")]);
    assert_eq!(url.query(), Some("token=abc123"));
    let empty = client.url_for_path("/stock/exchange", Some(Vec::new())).unwrap();
    assert_eq!(pairs(&empty), vec![pair("token", "abc123")]);
}

#[test]
fn params_keep_their_order_and_their_duplicates() {
    let client = Client::with_token("tok");
    let params = vec![("a", "1"), ("b", "2"), ("a", "3"), ("token", "other")];
    let url = client.url_for_path("/news", Some(params)).unwrap();
    assert_eq!(
        pairs(&url),
        vec![
            pair("token", "tok"),
            pair("a", "1"),
            pair("b", "2"),
            pair("a", "3"),
            pair("token", "other"),
        ]
    );
    assert_eq!(url.query(), Some("token=tok&a=1&b=2&a=3&token=other"));
}

#[test]
fn names_and_values_are_encoded_and_read_back() {
    let client = Client::with_token("t k&n=1");
    let url = client.url_for_path("/quote", Some(vec![("sym bol", "BRK.B&x=1"), ("", "é+")])).unwrap();
    assert_eq!(
        pairs(&url),
        vec![pair("token", "t k&n=1"), pair("sym bol", "BRK.B&x=1"), pair("", "é+")]
    );
    assert_eq!(url.path(), "/api/v1/quote");
}

#[test]
fn equal_inputs_give_equal_urls() {
    let one = Client::with_token("T").url_for_path("/quote", Some(vec![("symbol", "A")])).unwrap();
    let two = Client::with_token("T").url_for_path("/quote", Some(vec![("symbol", "A")])).unwrap();
    assert_eq!(one, two);
    let other = Client::with_token("T").url_for_path("/quote", Some(vec![("symbol", "B")])).unwrap();
    assert_ne!(one, other);
}

#[test]
fn path_segments_follow_those_of_the_base() {
    let client = Client::with_token("T");
    let url = client.url_for_path("/stock/price-target", None).unwrap();
    let segments: Vec<&str> = url.path_segments().unwrap().collect();
    assert_eq!(segments, vec!["api", "v1", "stock", "price-target"]);
}

#[test]
fn malformed_paths_are_refused() {
    let client = Client::with_token("T");
    let bad = [
        "", "/", "//quote", "a//b", "quote/", "..", "../x", "a/./b", "a b", "a?b", "a#b", "a%20b",
        "a\\b", "a|b", "a\"b", "a<b", "a>b", "a`b", "a{b", "a}b", "caf\u{e9}", "a\tb", "a\nb",
        "a\u{7f}b",
    ];
    for path in bad {
        let built = client.url_for_path(path, None);
        assert!(matches!(built, Err(ClientError::MalformedUrl)), "{:?}", path);
    }
}

#[test]
fn unusual_but_allowed_characters_stay_as_they_are() {
    let client = Client::with_token("T");
    let url = client.url_for_path("/a.b/~c_d-e/f:g@h/!$&'()*+,;=/.../[x]^", None).unwrap();
    assert_eq!(url.path(), "/api/v1/a.b/~c_d-e/f:g@h/!$&'()*+,;=/.../[x]^");
    assert_eq!(pairs(&url), vec![pair("token", "T")]);
}

#[test]
fn split_path_gives_the_segments() {
    assert_eq!(split_path("/stock/exchange"), Some(vec!["stock", "exchange"]));
    assert_eq!(split_path("stock/exchange"), Some(vec!["stock", "exchange"]));
    assert_eq!(split_path("quote"), Some(vec!["quote"]));
    assert_eq!(split_path("/a/b/c"), Some(vec!["a", "b", "c"]));
    assert_eq!(split_path(""), None);
    assert_eq!(split_path("/"), None);
    assert_eq!(split_path("a/"), None);
    assert_eq!(split_path("//a"), None);
    assert_eq!(split_path("a/../b"), None);
    assert_eq!(split_path("."), None);
    assert_eq!(split_path("a/b c"), None);
    assert_eq!(split_path("..."), Some(vec!["..."]));
}

#[test]
fn build_url_on_another_base() {
    let base = Url::parse("https://example.com").unwrap();
    let url = build_url(base, "/quote", "T1", Some(vec![("symbol", "SPY")])).unwrap();
    assert_eq!(url.as_str(), "https://example.com/quote?token=T1&symbol=SPY");
    let base = Url::parse("http://localhost:8080/v2/").unwrap();
    let url = build_url(base, "a/b", "x", None).unwrap();
    assert_eq!(url.as_str(), "http://localhost:8080/v2//a/b?token=x");
    let base = Url::parse("https://example.com/api#top").unwrap();
    let url = build_url(base, "quote", "T", None).unwrap();
    assert_eq!(url.as_str(), "https://example.com/api/quote?token=T#top");
}

#[test]
fn build_url_refuses_an_unusable_base() {
    let with_query = Url::parse("https://example.com/api?key=1").unwrap();
    assert!(matches!(build_url(with_query, "/quote", "T", None), Err(ClientError::MalformedUrl)));
    let no_base = Url::parse("mailto:someone@example.com").unwrap();
    assert!(matches!(build_url(no_base, "/quote", "T", None), Err(ClientError::MalformedUrl)));
    let data = Url::parse("data:text/plain,hello").unwrap();
    assert!(matches!(build_url(data, "quote", "T", None), Err(ClientError::MalformedUrl)));
}

#[test]
fn build_url_accepts_an_empty_query_on_the_base() {
    let base = Url::parse("https://example.com/api?").unwrap();
    let url = build_url(base, "quote", "T", Some(vec![("a", "b")])).unwrap();
    assert_eq!(pairs(&url), vec![pair("token", "T"), pair("a", "b")]);
}

#[test]
fn str_eq_compares_characters() {
    assert!(str_eq("", ""));
    assert!(str_eq("general", "general"));
    assert!(!str_eq("general", "genera"));
    assert!(!str_eq("general", "generaL"));
    assert!(!str_eq("a", ""));
    assert!(str_eq("caf\u{e9}", "café"));
    assert!(!str_eq("cafe", "café"));
}

#[test]
fn a_part_too_long_to_append_is_refused() {
    let long = "a".repeat(0x0800_0001);
    let client = Client::with_token("T");
    let built = client.url_for_path("/quote", Some(vec![("symbol", long.as_str())]));
    assert!(matches!(built, Err(ClientError::MalformedUrl)));
    let built = client.url_for_path("/quote", Some(vec![(long.as_str(), "x")]));
    assert!(matches!(built, Err(ClientError::MalformedUrl)));
    let built = client.url_for_path(long.as_str(), None);
    assert!(matches!(built, Err(ClientError::MalformedUrl)));
    assert!(Client::with_token(long.as_str()).url_for_path("/quote", None).is_err());
    let fits = "a".repeat(0x0010_0000);
    let url = client.url_for_path("/quote", Some(vec![("symbol", fits.as_str())])).unwrap();
    assert_eq!(url.as_str().len(), "https://finnhub.io/api/v1/quote?token=T&symbol=".len() + 0x0010_0000);
}
