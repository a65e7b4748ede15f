//! Pipeline tests: round-robin rotation, override-versus-pool resolution,
//! and the request builders.

use elastic::params::{ClientParams, ParamsSource, RequestParams};
use elastic::pool::AddressPool;
use elastic::requests::{Client, Endpoint, HttpMethod};

fn addresses() -> Vec<String> {
    vec![
        "http://a:9200".to_string(),
        "http://b:9200".to_string(),
        "http://c:9200".to_string(),
    ]
}

fn empty_defaults() -> ClientParams {
    ClientParams { headers: vec![], url_query: vec![] }
}

fn plain_endpoint() -> Endpoint {
    Endpoint { method: HttpMethod::Get, url: "/".to_string(), body: None }
}

#[test]
fn round_robin_visits_each_address_once_before_repeating() {
    let mut pool = AddressPool::new(addresses());

    let mut seen = Vec::new();
    for _ in 0..3 {
        seen.push(pool.next().unwrap());
    }

    assert_eq!(vec!["http://a:9200", "http://b:9200", "http://c:9200"], seen);

    // The fourth call starts the rotation over.
    assert_eq!("http://a:9200", pool.next().unwrap());
}

#[test]
fn empty_pool_fails_with_a_configuration_error() {
    let mut pool = AddressPool::new(Vec::new());
    assert!(pool.next().is_err());
}

#[test]
fn explicit_override_never_consults_the_pool() {
    let mut client = Client::new(addresses(), empty_defaults());
    assert_eq!(0, client.addresses.cursor_value());

    let over = RequestParams {
        base_url: "http://direct:9200".to_string(),
        headers: vec![],
        url_query: vec![],
    };
    let sendable = client
        .request(plain_endpoint())
        .params(over)
        .send(&mut client)
        .unwrap();

    // The cursor is the pool's call counter: untouched by the override.
    assert_eq!(0, client.addresses.cursor_value());
    assert_eq!("http://direct:9200", sendable.params.base_url);
}

#[test]
fn deferred_send_rotates_exactly_one_address() {
    let mut client = Client::new(addresses(), empty_defaults());

    let first = client.request(plain_endpoint()).send(&mut client).unwrap();
    assert_eq!("http://a:9200", first.params.base_url);
    assert_eq!(1, client.addresses.cursor_value());

    let second = client.request(plain_endpoint()).send(&mut client).unwrap();
    assert_eq!("http://b:9200", second.params.base_url);
    assert_eq!(2, client.addresses.cursor_value());
}

#[test]
fn override_headers_are_merged_after_defaults() {
    let defaults = ClientParams {
        headers: vec![("x-opaque-id".to_string(), "defaults".to_string())],
        url_query: vec![("pretty".to_string(), "false".to_string())],
    };
    let mut client = Client::new(addresses(), defaults);

    let over = RequestParams {
        base_url: "http://direct:9200".to_string(),
        headers: vec![("x-opaque-id".to_string(), "override".to_string())],
        url_query: vec![("pretty".to_string(), "true".to_string())],
    };
    let sendable = client
        .request(plain_endpoint())
        .params(over)
        .send(&mut client)
        .unwrap();

    assert_eq!(
        vec![
            ("x-opaque-id".to_string(), "defaults".to_string()),
            ("x-opaque-id".to_string(), "override".to_string()),
        ],
        sendable.params.headers
    );
    assert_eq!(
        vec![
            ("pretty".to_string(), "false".to_string()),
            ("pretty".to_string(), "true".to_string()),
        ],
        sendable.params.url_query
    );
}

#[test]
fn send_with_an_empty_pool_is_a_configuration_error() {
    let mut client = Client::new(Vec::new(), empty_defaults());
    assert!(client.request(plain_endpoint()).send(&mut client).is_err());
}

#[test]
fn sendable_request_keeps_the_endpoint() {
    let mut client = Client::new(addresses(), empty_defaults());
    let endpoint = Endpoint {
        method: HttpMethod::Post,
        url: "/testindex/testtype".to_string(),
        body: Some(br#"{"title":"carrot cake"}"#.to_vec()),
    };

    let sendable = client.request(endpoint).send(&mut client).unwrap();
    assert_eq!(HttpMethod::Post, sendable.endpoint.method);
    assert_eq!("/testindex/testtype", sendable.endpoint.url);
    assert_eq!(Some(br#"{"title":"carrot cake"}"#.to_vec()), sendable.endpoint.body);
}

#[test]
fn default_request() {
    let client = Client::new(addresses(), empty_defaults());

    let req = client.index("testindex".to_string()).exists_request().inner.into_request();

    assert_eq!("/testindex", req.url.as_str());
    assert_eq!(HttpMethod::Head, req.method);
}

#[test]
fn index_exists_send_builds_the_head_request() {
    let mut client = Client::new(addresses(), empty_defaults());

    let sendable = client
        .index("testindex".to_string())
        .exists_request()
        .send(&mut client)
        .unwrap();

    assert_eq!(HttpMethod::Head, sendable.endpoint.method);
    assert_eq!("/testindex", sendable.endpoint.url);
    assert_eq!("http://a:9200", sendable.params.base_url);
}

#[test]
fn explicit_source_resolves_without_the_pool() {
    let mut pool = AddressPool::new(addresses());
    let defaults = empty_defaults();

    let over = RequestParams {
        base_url: "http://direct:9200".to_string(),
        headers: vec![],
        url_query: vec![],
    };
    let resolved =
        elastic::params::resolve(ParamsSource::Explicit(over), &defaults, &mut pool).unwrap();

    assert_eq!("http://direct:9200", resolved.base_url);
    assert_eq!(0, pool.cursor_value());
}
