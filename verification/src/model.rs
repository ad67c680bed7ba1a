//! The values that flow through the proxy: configuration, requests, responses, failures.

use vstd::prelude::*;

use crate::target::UpstreamTarget;

verus! {

/// The two kinds of route. Every request gets exactly one.
#[derive(Debug, Clone, Copy, PartialEq, Eq, Structural)]
pub enum RouteKind {
    ImageAsset,
    WebsitePassthrough,
}

/// Process-wide configuration, built once at startup and only read afterwards.
#[derive(Debug, Clone, PartialEq, Eq)]
pub struct RouteConfig {
    pub cms_base_url: String,
    pub cms_api_token: String,
    pub asset_path_pattern: String,
    pub backend_host: String,
    pub backend_port: String,
}

/// A header name with its raw value.
#[derive(Debug, Clone, PartialEq, Eq)]
pub struct Header {
    pub name: String,
    pub value: Vec<u8>,
}

/// A request as it arrived from the caller.
#[derive(Debug, Clone, PartialEq, Eq)]
pub struct InboundRequest {
    pub method: String,
    pub path: String,
    pub query: Option<String>,
    pub headers: Vec<Header>,
    pub body: Vec<u8>,
}

/// The one request sent upstream on behalf of an inbound request.
#[derive(Debug, Clone, PartialEq, Eq)]
pub struct OutboundRequest {
    pub method: String,
    pub target: UpstreamTarget,
    pub body: Vec<u8>,
}

/// What an upstream answered.
#[derive(Debug, Clone, PartialEq, Eq)]
pub struct UpstreamResponse {
    pub status: u16,
    pub headers: Vec<Header>,
    pub body: Vec<u8>,
}

/// The upstream request could not be built; `description` says why.
#[derive(Debug, Clone, PartialEq, Eq)]
pub struct BuildFailure {
    pub description: String,
}

/// Why no upstream response is available.
#[derive(Debug, Clone, PartialEq, Eq)]
pub enum UpstreamError {
    /// The outbound request could not be built.
    BuildFailure(String),
    /// The upstream could not be reached.
    TransportFailure(String),
}

/// A response body: bytes relayed from upstream, or text produced here.
#[derive(Debug, Clone, PartialEq, Eq)]
pub enum ResponseBody {
    Bytes(Vec<u8>),
    Text(String),
}

impl ResponseBody {
    /// Number of bytes relayed, or of characters of text.
    pub open spec fn spec_len(&self) -> nat {
        match self {
            ResponseBody::Bytes(b) => b@.len(),
            ResponseBody::Text(t) => t@.len(),
        }
    }
}

/// What the caller receives.
#[derive(Debug, Clone, PartialEq, Eq)]
pub struct CallerResponse {
    pub status: u16,
    pub headers: Vec<Header>,
    pub body: ResponseBody,
}

/// The request failed at the level of the server: no response is produced for it.
#[derive(Debug, Clone, PartialEq, Eq)]
pub struct ServerFailure {
    pub description: String,
}

/// The view of an optional string.
pub open spec fn opt_view(s: Option<&str>) -> Option<Seq<char>> {
    match s {
        Some(t) => Some(t@),
        None => None,
    }
}

/// The view of an optional owned string.
pub open spec fn opt_string_view(s: Option<String>) -> Option<Seq<char>> {
    match s {
        Some(t) => Some(t@),
        None => None,
    }
}

} // verus!
