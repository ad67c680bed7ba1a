//! The website route: the same request, aimed at the fixed backend.

use vstd::prelude::*;
use vstd::string::*;

use crate::model::{BuildFailure, InboundRequest, OutboundRequest, RouteConfig};
use crate::target::{build_uri, uri_of_parts, TargetView, UpstreamTarget};

verus! {

/// The backend's authority: host, a colon, port.
pub open spec fn backend_authority(config: RouteConfig) -> Seq<char> {
    config.backend_host@ + ":"@ + config.backend_port@
}

/// The outcome of forwarding: the `http` target at the backend with the inbound
/// path and no query, or the reason why no URI could be formed.
pub open spec fn website_target(path: Seq<char>, config: RouteConfig) -> Result<
    TargetView,
    Seq<char>,
> {
    uri_of_parts("http"@, backend_authority(config), path)
}

/// `out` is the request that goes to `target` with the method `method` and no body.
pub open spec fn is_bodiless_request(
    out: OutboundRequest,
    method: Seq<char>,
    target: TargetView,
) -> bool {
    &&& out.method@ == method
    &&& out.target@ == target
    &&& out.body@.len() == 0
}

/// Puts the outbound request together from the method and the builder's outcome: a
/// built target gives a request with that method, that target and an empty body; a
/// refusal gives a `BuildFailure` with the same description.
pub fn outbound_for(method: &str, built: Result<UpstreamTarget, String>) -> (r: Result<
    OutboundRequest,
    BuildFailure,
>)
    ensures
        match built {
            Ok(t) => r is Ok && is_bodiless_request(r->Ok_0, method@, t@) && r->Ok_0.target == t,
            Err(e) => r == Err::<OutboundRequest, BuildFailure>(BuildFailure { description: e }),
        },
{
    match built {
        Ok(target) => Ok(OutboundRequest { method: String::from_str(method), target, body: Vec::new() }),
        Err(e) => Err(BuildFailure { description: e }),
    }
}

/// Builds the request that stands for `request` at the backend: same method, the
/// path alone (the inbound query is dropped), no body.
///
/// The result is `Ok` exactly when the URI builder accepts the `http` scheme, the
/// backend's authority and the inbound path; otherwise it is the `BuildFailure`
/// that carries the builder's description. A target that was built has the `http`
/// scheme and the backend's authority.
pub fn forward(request: &InboundRequest, config: &RouteConfig) -> (r: Result<
    OutboundRequest,
    BuildFailure,
>)
    ensures
        match r {
            Ok(out) => website_target(request.path@, *config) == Ok::<TargetView, Seq<char>>(
                out.target@,
            ) && is_bodiless_request(out, request.method@, out.target@),
            Err(f) => website_target(request.path@, *config) == Err::<TargetView, Seq<char>>(
                f.description@,
            ),
        },
        r matches Ok(out) ==> out.target@.scheme == "http"@ && out.target@.authority
            == backend_authority(*config),
{
    let mut authority = String::from_str(config.backend_host.as_str());
    authority.append(":");
    authority.append(config.backend_port.as_str());
    let built = build_uri("http", authority.as_str(), request.path.as_str());
    outbound_for(request.method.as_str(), built)
}

} // verus!
