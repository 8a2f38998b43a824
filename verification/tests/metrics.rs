use http_proxy::method::Method;
use http_proxy::metrics::{destination, observe, snapshot, status_text, Destination, Snapshot};
use http_proxy::route::RouteKind;
use prometheus::{Encoder, HistogramOpts, HistogramVec, Registry, TextEncoder};

fn histogram() -> HistogramVec {
    HistogramVec::new(
        HistogramOpts::new("proxy", "Response Times"),
        &["method", "route", "status"],
    )
    .unwrap()
}

#[test]
fn a_status_is_written_in_decimal() {
    assert_eq!(status_text(200), "200");
    assert_eq!(status_text(404), "404");
    assert_eq!(status_text(0), "0");
    assert_eq!(status_text(65535), "65535");
}

#[test]
fn a_call_is_labelled_by_method_route_and_status() {
    let labels = observe(Method::Post, RouteKind::ChannelsIdMessages, 200);
    assert_eq!(labels.method, "POST");
    assert_eq!(labels.route, "Channel message");
    assert_eq!(labels.status, "200");
    let labels = observe(Method::Delete, RouteKind::Unknown, 204);
    assert_eq!(labels.method, "DELETE");
    assert_eq!(labels.route, "Unknown path!");
    assert_eq!(labels.status, "204");
}

#[test]
fn one_forwarded_call_is_one_observation() {
    let histogram = histogram();
    let labels = observe(Method::Post, RouteKind::ChannelsIdMessages, 200);
    histogram
        .with_label_values(&[labels.method, labels.route, labels.status.as_str()])
        .observe(0.25);

    let recorded = histogram.with_label_values(&["POST", "Channel message", "200"]);
    assert_eq!(recorded.get_sample_count(), 1);
    assert_eq!(recorded.get_sample_sum(), 0.25);
    for other in [
        ["GET", "Channel message", "200"],
        ["POST", "Channel message", "201"],
        ["POST", "Channel", "200"],
    ] {
        assert_eq!(histogram.with_label_values(&other).get_sample_count(), 0);
    }
}

#[test]
fn only_get_metrics_goes_to_the_snapshot() {
    assert_eq!(destination("GET", "/metrics", true), Destination::Metrics);
    assert_eq!(destination("GET", "/metrics", false), Destination::Upstream);
    assert_eq!(destination("POST", "/metrics", true), Destination::Upstream);
    assert_eq!(destination("GET", "/metrics/", true), Destination::Upstream);
    assert_eq!(destination("GET", "/api/v8/metrics", true), Destination::Upstream);
    assert_eq!(destination("GET", "/api/v8/gateway", true), Destination::Upstream);
    assert_eq!(destination("get", "/metrics", true), Destination::Upstream);
}

#[test]
fn the_snapshot_is_the_encoded_text() {
    let registry = Registry::new();
    let histogram = histogram();
    registry.register(Box::new(histogram.clone())).unwrap();
    let labels = observe(Method::Get, RouteKind::GatewayBot, 200);
    histogram
        .with_label_values(&[labels.method, labels.route, labels.status.as_str()])
        .observe(0.5);

    let mut buffer = Vec::new();
    TextEncoder::new().encode(&registry.gather(), &mut buffer).unwrap();
    let answer = snapshot(Ok(buffer.clone()));
    assert_eq!(answer.status, 200);
    assert_eq!(answer.body.as_bytes(), buffer.as_slice());
    assert!(answer
        .body
        .contains("proxy_count{method=\"GET\",route=\"Gateway bot info\",status=\"200\"} 1"));
}

#[test]
fn an_empty_snapshot_is_an_empty_text() {
    assert_eq!(snapshot(Ok(Vec::new())), Snapshot { status: 200, body: String::new() });
}

#[test]
fn a_failed_encoding_is_a_server_error() {
    assert_eq!(
        snapshot(Err("Msg(\"broken\")".to_string())),
        Snapshot { status: 500, body: "Msg(\"broken\")".to_string() }
    );
}

#[test]
fn a_snapshot_that_is_no_text_is_a_server_error() {
    assert_eq!(
        snapshot(Ok(vec![0x66, 0xff, 0x6f])),
        Snapshot { status: 500, body: "the metrics are not UTF-8 text".to_string() }
    );
}
