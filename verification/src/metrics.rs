//! What is counted of a forwarded call, and the answer of the snapshot endpoint.

use crate::decimal::{decimal_digits, lemma_decimal_round_trip, push_decimal};
use crate::method::Method;
use crate::route::{path_name, route_label, RouteKind};
use crate::text::{lemma_ascii_is_utf8, owned_text, same_text, utf8_text};
use vstd::prelude::*;
use vstd::utf8::*;

verus! {

/// The labels under which the duration of one forwarded call is recorded.
#[derive(Clone, Debug, PartialEq, Eq)]
pub struct Observation {
    /// The method of the call.
    pub method: &'static str,
    /// The name of the route.
    pub route: &'static str,
    /// The status of the upstream's answer, in decimal.
    pub status: String,
}

/// The labels of an observation as values; the status by its UTF-8 bytes.
pub struct ObservationView {
    pub method: Seq<char>,
    pub route: Seq<char>,
    pub status: Seq<u8>,
}

impl View for Observation {
    type V = ObservationView;

    open spec fn view(&self) -> ObservationView {
        ObservationView {
            method: self.method@,
            route: self.route@,
            status: encode_utf8(self.status@),
        }
    }
}

/// The labels for a call of `method` on a route of kind `kind` that upstream
/// answered with `status`.
pub open spec fn observed(method: Method, kind: RouteKind, status: u16) -> ObservationView {
    ObservationView {
        method: method.name(),
        route: route_label(kind),
        status: decimal_digits(status as nat),
    }
}

/// Where a request goes.
#[derive(Clone, Copy, Debug, PartialEq, Eq, Structural)]
pub enum Destination {
    /// To the snapshot of the metrics.
    Metrics,
    /// Through the dispatch, to the upstream API.
    Upstream,
}

/// The answer of the snapshot endpoint.
#[derive(Clone, Debug, PartialEq, Eq)]
pub struct Snapshot {
    pub status: u16,
    pub body: String,
}

/// A status code as text.
pub fn status_text(status: u16) -> (text: String)
    ensures
        encode_utf8(text@) == decimal_digits(status as nat),
{
    let mut digits: Vec<u8> = Vec::new();
    push_decimal(&mut digits, status as u64);
    proof {
        assert(digits@ =~= decimal_digits(status as nat));
        lemma_decimal_round_trip(status as nat);
        lemma_ascii_is_utf8(digits@);
    }
    owned_text(digits.as_slice())
}

/// The labels for one forwarded call.
pub fn observe(method: Method, kind: RouteKind, status: u16) -> (labels: Observation)
    ensures
        labels@ == observed(method, kind, status),
{
    Observation { method: method.as_str(), route: path_name(kind), status: status_text(status) }
}

/// Where a request for `path` goes: to the snapshot only if metrics are kept,
/// the path is `/metrics` and the method is `GET`.
pub fn destination(method: &str, path: &str, metrics_kept: bool) -> (to: Destination)
    ensures
        to == if metrics_kept && path@ == "/metrics"@ && method@ == "GET"@ {
            Destination::Metrics
        } else {
            Destination::Upstream
        },
{
    if metrics_kept && same_text(path, "/metrics") && same_text(method, "GET") {
        Destination::Metrics
    } else {
        Destination::Upstream
    }
}

/// The answer of the snapshot endpoint to what the encoder made of the
/// metrics: the text with status 200; status 500 with the encoder's words
/// where it failed, or with a fixed sentence where it wrote no UTF-8 text.
pub fn snapshot(encoded: Result<Vec<u8>, String>) -> (answer: Snapshot)
    ensures
        match encoded {
            Ok(bytes) => if valid_utf8(bytes@) {
                answer.status == 200 && encode_utf8(answer.body@) == bytes@
            } else {
                answer.status == 500 && answer.body@ == "the metrics are not UTF-8 text"@
            },
            Err(diagnostic) => answer.status == 500 && answer.body@ == diagnostic@,
        },
{
    match encoded {
        Ok(bytes) => match utf8_text(bytes.as_slice()) {
            Ok(text) => Snapshot { status: 200, body: text.to_owned() },
            Err(_) => Snapshot { status: 500, body: "the metrics are not UTF-8 text".to_owned() },
        },
        Err(diagnostic) => Snapshot { status: 500, body: diagnostic },
    }
}

} // verus!
