use http_proxy::headers::Header;
use http_proxy::method::Method;
use http_proxy::request::{api_prefix, translate, trim_path};
use http_proxy::route::{resolve_route, RouteKind};

#[test]
fn the_prefix_names_the_version() {
    assert_eq!(api_prefix(8), "/api/v8/");
    assert_eq!(api_prefix(10), "/api/v10/");
    assert_eq!(api_prefix(0), "/api/v0/");
    assert_eq!(api_prefix(255), "/api/v255/");
}

#[test]
fn the_version_prefix_is_taken_off_the_path() {
    assert_eq!(trim_path("/api/v10/channels/5/messages", 10), "channels/5/messages");
    assert_eq!(trim_path("/api/v8/gateway", 8), "gateway");
    assert_eq!(trim_path("/api/v10/", 10), "");
}

#[test]
fn a_path_without_the_prefix_stays() {
    assert_eq!(trim_path("/channels/5/messages", 10), "/channels/5/messages");
    assert_eq!(trim_path("/api/v8/gateway", 10), "/api/v8/gateway");
    assert_eq!(trim_path("/api/v100/gateway", 10), "/api/v100/gateway");
    assert_eq!(trim_path("/api/v10", 10), "/api/v10");
    assert_eq!(trim_path("api/v10/gateway", 10), "api/v10/gateway");
    assert_eq!(trim_path("", 10), "");
}

#[test]
fn only_the_front_of_the_path_is_touched() {
    assert_eq!(trim_path("/api/v10/api/v10/gateway", 10), "api/v10/gateway");
    assert_eq!(trim_path("/x/api/v10/gateway", 10), "/x/api/v10/gateway");
}

#[test]
fn route_lookup_sees_the_trimmed_path() {
    let trimmed = trim_path("/api/v10/channels/5/messages", 10);
    assert_eq!(trimmed, "channels/5/messages");
    assert_eq!(resolve_route(Method::Post, trimmed).unwrap().kind, RouteKind::ChannelsIdMessages);
}

#[test]
fn the_query_goes_upstream_as_it_came() {
    let route = resolve_route(Method::Get, "channels/5/messages").unwrap();
    let request = translate(
        Method::Get,
        route,
        "/api/v10/channels/5/messages?limit=5&around=/api/v10/",
        Vec::new(),
        Vec::new(),
        10,
    );
    assert_eq!(request.path_and_query, "channels/5/messages?limit=5&around=/api/v10/");
    assert_eq!(request.method, Method::Get);
    assert_eq!(request.route.kind, RouteKind::ChannelsIdMessages);
}

#[test]
fn an_empty_body_is_no_body() {
    let route = resolve_route(Method::Get, "gateway").unwrap();
    let request = translate(Method::Get, route, "/api/v8/gateway", Vec::new(), Vec::new(), 8);
    assert_eq!(request.body, None);
    assert_eq!(request.path_and_query, "gateway");
}

#[test]
fn a_body_goes_upstream_unchanged() {
    let body = b"{\"content\":\"\\u0000 \xf0\x9f\x98\x80\"}".to_vec();
    let route = resolve_route(Method::Post, "channels/5/messages").unwrap();
    let target = "/api/v8/channels/5/messages";
    let request = translate(Method::Post, route, target, Vec::new(), body.clone(), 8);
    assert_eq!(request.body, Some(body));
    let route = resolve_route(Method::Post, "channels/5/messages").unwrap();
    let request = translate(Method::Post, route, target, Vec::new(), vec![0], 8);
    assert_eq!(request.body, Some(vec![0]));
}

#[test]
fn the_headers_go_upstream_as_they_came() {
    let headers = vec![
        Header { name: "authorization".to_string(), value: b"Bot MTIz.a.b".to_vec() },
        Header { name: "x-odd".to_string(), value: vec![0xe9, 0x20, 0x09] },
        Header { name: "x-odd".to_string(), value: Vec::new() },
    ];
    let route = resolve_route(Method::Get, "gateway").unwrap();
    let request = translate(Method::Get, route, "/api/v8/gateway", headers.clone(), Vec::new(), 8);
    assert_eq!(request.headers, headers);
}
