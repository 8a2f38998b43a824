//! The course of one request through the proxy.
//!
//! A request is looked at in a fixed order: its method, its route, its body,
//! the identity of its caller. Then it goes upstream through the caller's
//! client, and the answer goes back. Whatever fails along the way ends the
//! course at once with that failure. Reading the body and calling upstream is
//! the work of the program around this crate: it does what an [`Action`] asks
//! and reports the outcome as an [`Event`].

use crate::error::{Failure, RequestError};
use crate::headers::{find_header, header_value, headers_view, Header, HeaderView};
use crate::identity::{caller_of, extract_identity, token_of};
use crate::method::{convert_method, method_named, Method};
use crate::metrics::{observe, observed, Observation, ObservationView};
use crate::request::{
    api_prefix_bytes, translate, translated, trim_path, TranslatedRequest, TranslatedRequestView,
};
use crate::route::{resolve_route, route_known, Route, RouteKind};
use crate::text::without_prefix;
use vstd::prelude::*;
use vstd::string::StringSliceAdditionalSpecFns;
use vstd::utf8::*;

verus! {

/// How the proxy is set up.
#[derive(Clone, Copy, Debug, PartialEq, Eq, Structural)]
pub struct Settings {
    /// The version of the upstream API, as it stands in request paths.
    pub api_version: u8,
    /// Whether forwarded calls are measured.
    pub metrics: bool,
}

/// What the transport has read of a request before its body.
#[derive(Clone, Debug, PartialEq, Eq)]
pub struct Inbound {
    /// The method as the request line has it.
    pub method: String,
    /// The target of the request as it was sent.
    pub uri: String,
    /// The path of the target.
    pub path: String,
    /// Path and query of the target, where it has a path.
    pub path_and_query: Option<String>,
    /// The headers, in the order of the request.
    pub headers: Vec<Header>,
}

/// What has happened outside since the last action.
#[derive(Clone, Debug, PartialEq, Eq)]
pub enum Event {
    /// The body has been read in full.
    BodyRead(Vec<u8>),
    /// The transport failed while the body was read.
    BodyFailed,
    /// The upstream API has answered.
    Replied { status: u16 },
    /// The upstream client reported a failure, with the status that the
    /// upstream API gave where it gave one.
    Failed { reported: Option<u16> },
}

/// What is to be done next.
#[derive(Debug)]
pub enum Action {
    /// Read the body of the request.
    ReadBody,
    /// Get the client of `identity` from the registry, making it from `token`
    /// where it is new, and send `request` through it.
    Forward { identity: u64, token: String, request: TranslatedRequest },
    /// Hand the upstream's answer to the caller as it is, and record the
    /// duration of the call under these labels, where there are any.
    Relay { observation: Option<Observation> },
    /// Answer the caller with this failure.
    Fail(RequestError),
    /// Nothing: the event was none that the course was waiting for.
    Nothing,
}

/// Where a request stands while something is awaited from outside.
///
/// What lies between two of these stages is done in one step: the method is
/// checked and the path resolved when the request is taken up; the identity is
/// extracted as soon as the body is there; the client is obtained and the
/// request forwarded by whoever carries out [`Action::Forward`].
#[derive(Debug)]
pub enum Dispatch {
    /// Method and route are known; the body is awaited.
    Resolved { settings: Settings, inbound: Inbound, method: Method, route: Route },
    /// The caller is known and its request is on the way upstream; the answer
    /// is awaited.
    IdentityExtracted { metrics: bool, method: Method, kind: RouteKind },
    /// The caller has its answer.
    Responded,
}

/// An inbound request with its texts as values: method and target by their
/// characters, the paths by their UTF-8 bytes.
pub struct InboundView {
    pub method: Seq<char>,
    pub uri: Seq<char>,
    pub path: Seq<u8>,
    pub path_and_query: Option<Seq<u8>>,
    pub headers: Seq<HeaderView>,
}

impl InboundView {
    /// The credential of the request: the value of its authorization header.
    pub open spec fn authorization(self) -> Option<Seq<u8>> {
        header_value(self.headers, "authorization".spec_bytes())
    }
}

impl View for Inbound {
    type V = InboundView;

    open spec fn view(&self) -> InboundView {
        InboundView {
            method: self.method@,
            uri: self.uri@,
            path: encode_utf8(self.path@),
            path_and_query: match self.path_and_query {
                Some(text) => Some(encode_utf8(text@)),
                None => None,
            },
            headers: headers_view(self.headers@),
        }
    }
}

/// An event with the body as a value.
pub enum EventView {
    BodyRead(Seq<u8>),
    BodyFailed,
    Replied { status: u16 },
    Failed { reported: Option<u16> },
}

impl View for Event {
    type V = EventView;

    open spec fn view(&self) -> EventView {
        match *self {
            Event::BodyRead(body) => EventView::BodyRead(body@),
            Event::BodyFailed => EventView::BodyFailed,
            Event::Replied { status } => EventView::Replied { status },
            Event::Failed { reported } => EventView::Failed { reported },
        }
    }
}

/// An action with what it carries as values.
pub enum ActionView {
    ReadBody,
    Forward { identity: u64, token: Seq<u8>, request: TranslatedRequestView },
    Relay { observation: Option<ObservationView> },
    Fail(Failure),
    Nothing,
}

impl View for Action {
    type V = ActionView;

    open spec fn view(&self) -> ActionView {
        match *self {
            Action::ReadBody => ActionView::ReadBody,
            Action::Forward { identity, token, request } => ActionView::Forward {
                identity,
                token: encode_utf8(token@),
                request: request@,
            },
            Action::Relay { observation } => ActionView::Relay {
                observation: match observation {
                    Some(labels) => Some(labels@),
                    None => None,
                },
            },
            Action::Fail(error) => ActionView::Fail(error@),
            Action::Nothing => ActionView::Nothing,
        }
    }
}

/// A stage with what it keeps as values.
pub enum DispatchView {
    Resolved { settings: Settings, inbound: InboundView, method: Method, route: Route },
    IdentityExtracted { metrics: bool, method: Method, kind: RouteKind },
    Responded,
}

impl View for Dispatch {
    type V = DispatchView;

    open spec fn view(&self) -> DispatchView {
        match *self {
            Dispatch::Resolved { settings, inbound, method, route } => DispatchView::Resolved {
                settings,
                inbound: inbound@,
                method,
                route,
            },
            Dispatch::IdentityExtracted { metrics, method, kind } => {
                DispatchView::IdentityExtracted { metrics, method, kind }
            },
            Dispatch::Responded => DispatchView::Responded,
        }
    }
}

impl DispatchView {
    /// How far the course has come.
    pub open spec fn progress(self) -> nat {
        match self {
            DispatchView::Resolved { .. } => 0,
            DispatchView::IdentityExtracted { .. } => 1,
            DispatchView::Responded => 2,
        }
    }
}

/// The path that is looked up in the table of routes: the path of the
/// request without the prefix of the API version.
pub open spec fn route_path(settings: Settings, inbound: InboundView) -> Seq<u8> {
    without_prefix(inbound.path, api_prefix_bytes(settings.api_version))
}

/// Where a request with a good method stands once the table of routes has
/// been asked: at its end where the table does not know the path, waiting for
/// its body where it does.
pub open spec fn taken_up(
    settings: Settings,
    inbound: InboundView,
    method: Method,
    looked_up: Result<Route, Failure>,
) -> (DispatchView, ActionView) {
    match looked_up {
        Ok(route) => (
            DispatchView::Resolved { settings, inbound, method, route },
            ActionView::ReadBody,
        ),
        Err(failure) => (DispatchView::Responded, ActionView::Fail(failure)),
    }
}

/// Where a request stands after an event, and what is to be done then.
pub open spec fn transition(stage: DispatchView, event: EventView) -> (DispatchView, ActionView) {
    match (stage, event) {
        (
            DispatchView::Resolved { settings, inbound, method, route },
            EventView::BodyRead(body),
        ) => match caller_of(inbound.authorization()) {
            Err(error) => (DispatchView::Responded, ActionView::Fail(error@)),
            Ok(identity) => match inbound.path_and_query {
                None => (
                    DispatchView::Responded,
                    ActionView::Fail(Failure::NoPath { uri: inbound.uri }),
                ),
                Some(path_and_query) => (
                    DispatchView::IdentityExtracted {
                        metrics: settings.metrics,
                        method,
                        kind: route.kind,
                    },
                    ActionView::Forward {
                        identity,
                        token: token_of(inbound.authorization()->0),
                        request: translated(
                            method,
                            route,
                            path_and_query,
                            inbound.headers,
                            body,
                            settings.api_version,
                        ),
                    },
                ),
            },
        },
        (DispatchView::Resolved { .. }, EventView::BodyFailed) => (
            DispatchView::Responded,
            ActionView::Fail(Failure::ChunkingRequest),
        ),
        (
            DispatchView::IdentityExtracted { metrics, method, kind },
            EventView::Replied { status },
        ) => (
            DispatchView::Responded,
            ActionView::Relay {
                observation: if metrics {
                    Some(observed(method, kind, status))
                } else {
                    None
                },
            },
        ),
        (DispatchView::IdentityExtracted { .. }, EventView::Failed { reported }) => (
            DispatchView::Responded,
            ActionView::Fail(Failure::RequestIssue { status: reported }),
        ),
        _ => (stage, ActionView::Nothing),
    }
}

impl Dispatch {
    /// Takes the request up once the table of routes has been asked for its
    /// path.
    pub fn take_up(
        settings: Settings,
        inbound: Inbound,
        method: Method,
        looked_up: Result<Route, RequestError>,
    ) -> (next: (Dispatch, Action))
        ensures
            (next.0@, next.1@) == taken_up(
                settings,
                inbound@,
                method,
                match looked_up {
                    Ok(route) => Ok(route),
                    Err(error) => Err(error@),
                },
            ),
    {
        match looked_up {
            Ok(route) => (
                Dispatch::Resolved { settings, inbound, method, route },
                Action::ReadBody,
            ),
            Err(error) => (Dispatch::Responded, Action::Fail(error)),
        }
    }

    /// Takes up a request: checks its method, then looks its path up in the
    /// table of routes.
    ///
    /// A method that the upstream API does not take ends the course before
    /// anything else is looked at. With a good method the table of routes
    /// decides: a path that it does not know ends the course with
    /// `InvalidPath`; with one that it knows the course goes on to the body,
    /// with the route that the table holds for the path.
    pub fn receive(settings: Settings, inbound: Inbound) -> (next: (Dispatch, Action))
        ensures
            match method_named(inbound@.method) {
                None => next.0@ == DispatchView::Responded && next.1@ == ActionView::Fail(
                    Failure::MethodNotAllowed { method: inbound@.method },
                ),
                Some(method) => if route_known(
                    method,
                    decode_utf8(route_path(settings, inbound@)),
                ) {
                    exists|route: Route|
                        (next.0@, next.1@) == taken_up(settings, inbound@, method, Ok(route))
                } else {
                    (next.0@, next.1@) == taken_up(
                        settings,
                        inbound@,
                        method,
                        Err(Failure::InvalidPath),
                    )
                },
            },
    {
        match convert_method(inbound.method.as_str()) {
            Err(error) => (Dispatch::Responded, Action::Fail(error)),
            Ok(method) => {
                let path = trim_path(inbound.path.as_str(), settings.api_version);
                proof {
                    encode_utf8_decode_utf8(path@);
                }
                let looked_up = resolve_route(method, path);
                Dispatch::take_up(settings, inbound, method, looked_up)
            },
        }
    }

    /// Goes on after an event.
    pub fn step(self, event: Event) -> (next: (Dispatch, Action))
        ensures
            (next.0@, next.1@) == transition(self@, event@),
    {
        match self {
            Dispatch::Resolved { settings, inbound, method, route } => match event {
                Event::BodyRead(body) => {
                    match extract_identity(find_header(&inbound.headers, "authorization")) {
                        Err(error) => (Dispatch::Responded, Action::Fail(error)),
                        Ok((identity, token)) => {
                            let token = token.to_owned();
                            match inbound.path_and_query {
                                None => (
                                    Dispatch::Responded,
                                    Action::Fail(RequestError::NoPath { uri: inbound.uri }),
                                ),
                                Some(path_and_query) => {
                                    let kind = route.kind;
                                    let request = translate(
                                        method,
                                        route,
                                        path_and_query.as_str(),
                                        inbound.headers,
                                        body,
                                        settings.api_version,
                                    );
                                    (
                                        Dispatch::IdentityExtracted {
                                            metrics: settings.metrics,
                                            method,
                                            kind,
                                        },
                                        Action::Forward { identity, token, request },
                                    )
                                },
                            }
                        },
                    }
                },
                Event::BodyFailed => (
                    Dispatch::Responded,
                    Action::Fail(RequestError::ChunkingRequest),
                ),
                _ => (Dispatch::Resolved { settings, inbound, method, route }, Action::Nothing),
            },
            Dispatch::IdentityExtracted { metrics, method, kind } => match event {
                Event::Replied { status } => {
                    let observation = if metrics {
                        Some(observe(method, kind, status))
                    } else {
                        None
                    };
                    (Dispatch::Responded, Action::Relay { observation })
                },
                Event::Failed { reported } => (
                    Dispatch::Responded,
                    Action::Fail(RequestError::RequestIssue { status: reported }),
                ),
                _ => (Dispatch::IdentityExtracted { metrics, method, kind }, Action::Nothing),
            },
            Dispatch::Responded => (Dispatch::Responded, Action::Nothing),
        }
    }
}

/// The course never goes back: after any event the request stands where it
/// stood or further on, a request that has its answer stays as it is, and
/// every failure and every relayed answer ends the course.
pub proof fn lemma_course_goes_forward(stage: DispatchView, event: EventView)
    ensures
        transition(stage, event).0.progress() >= stage.progress(),
        stage is Responded ==> transition(stage, event) == (stage, ActionView::Nothing),
        transition(stage, event).1 is Fail || transition(stage, event).1 is Relay ==> transition(
            stage,
            event,
        ).0 is Responded,
        transition(stage, event).1 is Nothing ==> transition(stage, event).0 == stage,
{
}

/// Nothing goes upstream before the body has been read and the caller is
/// known: a request is forwarded only from the stage that waits for the body,
/// only when the body has arrived, and only for a caller whose credential
/// carries an identity.
pub proof fn lemma_forward_needs_identity(stage: DispatchView, event: EventView)
    requires
        transition(stage, event).1 is Forward,
    ensures
        stage is Resolved,
        event is BodyRead,
        transition(stage, event).0 is IdentityExtracted,
        caller_of(stage->inbound.authorization()) == Ok::<u64, RequestError>(
            transition(stage, event).1->identity,
        ),
{
}

/// A request goes upstream once at most: once it has been forwarded, no
/// event has it forwarded again, nor its body read again.
pub proof fn lemma_no_second_attempt(stage: DispatchView, event: EventView)
    requires
        !(stage is Resolved),
    ensures
        !(transition(stage, event).1 is Forward),
        !(transition(stage, event).1 is ReadBody),
        !(transition(stage, event).0 is Resolved),
{
}

} // verus!
