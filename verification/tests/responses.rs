use finnhub::{ApiCall, Client, ClientError, Decode, DeserializeError, Request, Symbol};
use reqwest::header::{HeaderMap, HeaderValue};
use serde_json::Value;

fn parse(text: &str) -> Value {
    serde_json::from_str(text).unwrap()
}

fn limited() -> HeaderMap {
    let mut map = HeaderMap::new();
    map.insert("x-ratelimit-limit", HeaderValue::from_static("60"));
    map.insert("x-ratelimit-remaining", HeaderValue::from_static("59"));
    map.insert("x-ratelimit-reset", HeaderValue::from_static("1700000000"));
    map
}

fn executives() -> Request {
    Client::with_token("tok").executives(&Symbol::new("AAPL")).unwrap()
}

fn quote() -> Request {
    Client::with_token("tok").quote(&Symbol::new("AAPL")).unwrap()
}

#[test]
fn executives_payload_is_the_member() {
    let body = parse(
        "{\"executive\":[{\"name\":\"A\",\"age\":56,\"position\":\"CEO\"},{\"name\":\"B\"}],\"symbol\":\"AAPL\"}",
    );
    let call = executives().complete(&HeaderMap::new(), body).unwrap();
    assert_eq!(call.inner, parse("[{\"name\":\"A\",\"age\":56,\"position\":\"CEO\"},{\"name\":\"B\"}]"));
    assert!(call.ratelimit.is_none());
}

#[test]
fn executives_payload_may_be_an_empty_list_that_is_there() {
    let call = executives().complete(&HeaderMap::new(), parse("{\"executive\":[]}")).unwrap();
    assert_eq!(call.inner, parse("[]"));
}

#[test]
fn executives_without_the_member_is_an_error() {
    let bodies = ["{}", "{\"executives\":[]}", "{\"Executive\":[]}", "[]", "null", "\"executive\"", "[{\"executive\":[]}]", "3"];
    for text in bodies {
        let outcome = executives().complete(&limited(), parse(text));
        match outcome {
            Err(ClientError::MissingKey(error)) => {
                assert_eq!(error.message(), "JSON missing key 'executive'");
            }
            _ => panic!("{} has no member of that name", text),
        }
    }
}

#[test]
fn a_direct_payload_is_the_body() {
    let body = parse("{\"o\":1.5,\"h\":2.5,\"l\":0.5,\"c\":2.0,\"pc\":1.0}");
    let call = quote().complete(&HeaderMap::new(), body.clone()).unwrap();
    assert_eq!(call.inner, body);
    let call = quote().complete(&HeaderMap::new(), parse("null")).unwrap();
    assert_eq!(call.inner, Value::Null);
    let call = quote().complete(&HeaderMap::new(), parse("{\"executive\":[1]}")).unwrap();
    assert_eq!(call.inner, parse("{\"executive\":[1]}"));
}

#[test]
fn the_snapshot_comes_with_the_payload() {
    let call = quote().complete(&limited(), parse("{}")).unwrap();
    let snapshot = call.ratelimit.unwrap();
    assert_eq!(snapshot.limit(), 60);
    assert_eq!(snapshot.remaining(), 59);
    assert_eq!(snapshot.reset_timestamp(), 1_700_000_000);
}

#[test]
fn headers_without_a_snapshot_do_not_fail_the_call() {
    let mut map = limited();
    map.insert("x-ratelimit-remaining", HeaderValue::from_static("many"));
    let call = quote().complete(&map, parse("[1,2]")).unwrap();
    assert!(call.ratelimit.is_none());
    assert_eq!(call.inner, parse("[1,2]"));
    let mut map = limited();
    map.remove("x-ratelimit-limit");
    let call = executives().complete(&map, parse("{\"executive\":[7]}")).unwrap();
    assert!(call.ratelimit.is_none());
    assert_eq!(call.inner, parse("[7]"));
}

#[test]
fn select_takes_the_member_of_any_name() {
    let body = parse("{\"a\":{\"b\":1},\"\":2,\"a'b\":3}");
    assert_eq!(Decode::Member("a".to_string()).select(body.clone()).unwrap(), parse("{\"b\":1}"));
    assert_eq!(Decode::Member("".to_string()).select(body.clone()).unwrap(), parse("2"));
    assert_eq!(Decode::Member("a'b".to_string()).select(body.clone()).unwrap(), parse("3"));
    assert_eq!(Decode::Direct.select(body.clone()).unwrap(), body);
    match Decode::Member("b".to_string()).select(body) {
        Err(ClientError::MissingKey(error)) => assert_eq!(error.message(), "JSON missing key 'b'"),
        _ => panic!("the body has no member b"),
    }
}

#[test]
fn deserialize_error_keeps_its_message() {
    assert_eq!(DeserializeError::new("JSON missing key 'executive'").message(), "JSON missing key 'executive'");
    assert_eq!(DeserializeError::new("").message(), "");
}

#[test]
fn api_call_holds_payload_and_snapshot() {
    let call = ApiCall { ratelimit: None, inner: 5u8 };
    assert_eq!(call.inner, 5);
    assert!(call.ratelimit.is_none());
}
