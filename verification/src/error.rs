//! The ways in which a request can fail, and the status each one is answered with.

use vstd::prelude::*;

verus! {

/// Why a request was not answered by the upstream API.
#[derive(Clone, Debug, PartialEq, Eq)]
pub enum RequestError {
    /// The identity segment of the credential is not base64.
    Base64Error,
    /// The body of the request could not be read from the transport.
    ChunkingRequest,
    /// The decoded identity segment is not UTF-8 text.
    EncodingError,
    /// The path matches no route of the upstream API for the method.
    InvalidPath,
    /// The response to the caller could not be built.
    MakingResponseBody,
    /// The method is none of those that the upstream API takes.
    MethodNotAllowed { method: String },
    /// The request carries no credential that can be read as text.
    MissingAuthorization,
    /// The request's target has no path.
    NoPath { uri: String },
    /// The decoded identity segment is text, but no unsigned number.
    ParseError,
    /// The upstream client reported a failure, with the status it had from
    /// the upstream API where there was one.
    RequestIssue { status: Option<u16> },
}

/// A failure with the texts it carries as values.
pub enum Failure {
    Base64Error,
    ChunkingRequest,
    EncodingError,
    InvalidPath,
    MakingResponseBody,
    MethodNotAllowed { method: Seq<char> },
    MissingAuthorization,
    NoPath { uri: Seq<char> },
    ParseError,
    RequestIssue { status: Option<u16> },
}

impl View for RequestError {
    type V = Failure;

    open spec fn view(&self) -> Failure {
        match *self {
            RequestError::Base64Error => Failure::Base64Error,
            RequestError::ChunkingRequest => Failure::ChunkingRequest,
            RequestError::EncodingError => Failure::EncodingError,
            RequestError::InvalidPath => Failure::InvalidPath,
            RequestError::MakingResponseBody => Failure::MakingResponseBody,
            RequestError::MethodNotAllowed { method } => Failure::MethodNotAllowed {
                method: method@,
            },
            RequestError::MissingAuthorization => Failure::MissingAuthorization,
            RequestError::NoPath { uri } => Failure::NoPath { uri: uri@ },
            RequestError::ParseError => Failure::ParseError,
            RequestError::RequestIssue { status } => Failure::RequestIssue { status },
        }
    }
}

impl RequestError {
    /// The HTTP status that answers this failure.
    ///
    /// What the caller got wrong is answered in the 400s, what failed on the way
    /// in the 500s. An upstream failure keeps the status that upstream gave it.
    pub open spec fn status(self) -> u16 {
        match self {
            RequestError::MissingAuthorization => 401,
            RequestError::Base64Error => 400,
            RequestError::EncodingError => 400,
            RequestError::ParseError => 400,
            RequestError::MethodNotAllowed { .. } => 405,
            RequestError::InvalidPath => 404,
            RequestError::NoPath { .. } => 404,
            RequestError::ChunkingRequest => 500,
            RequestError::MakingResponseBody => 500,
            RequestError::RequestIssue { status: Some(upstream) } => upstream,
            RequestError::RequestIssue { status: None } => 502,
        }
    }

    /// Whether the caller can mend this failure by sending another request.
    pub open spec fn is_callers_fault(self) -> bool {
        match self {
            RequestError::MissingAuthorization
            | RequestError::Base64Error
            | RequestError::EncodingError
            | RequestError::ParseError
            | RequestError::MethodNotAllowed { .. }
            | RequestError::InvalidPath
            | RequestError::NoPath { .. } => true,
            _ => false,
        }
    }

    /// The HTTP status that answers this failure.
    pub fn status_code(&self) -> (code: u16)
        ensures
            code == self.status(),
    {
        match self {
            RequestError::MissingAuthorization => 401,
            RequestError::Base64Error
            | RequestError::EncodingError
            | RequestError::ParseError => 400,
            RequestError::MethodNotAllowed { .. } => 405,
            RequestError::InvalidPath | RequestError::NoPath { .. } => 404,
            RequestError::ChunkingRequest | RequestError::MakingResponseBody => 500,
            RequestError::RequestIssue { status } => match status {
                Some(upstream) => *upstream,
                None => 502,
            },
        }
    }

    /// A failure of the caller's is answered in the 400s; one on the proxy's
    /// side, or upstream without a status, in the 500s.
    pub proof fn lemma_status_class(self)
        ensures
            self.is_callers_fault() ==> 400 <= self.status() < 500,
            !self.is_callers_fault() && !(self matches RequestError::RequestIssue {
                status: Some(_),
            }) ==> 500 <= self.status() < 600,
    {
    }
}

} // verus!
