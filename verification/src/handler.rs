//! One request, one decision: what to send upstream, or what to answer at once.

use vstd::prelude::*;
use vstd::string::*;

use crate::image::{image_authority, image_target, rewrite};
use crate::model::{
    opt_string_view, opt_view, BuildFailure, CallerResponse, InboundRequest, OutboundRequest,
    RouteConfig, RouteKind,
};
use crate::relay::{failure_response, is_failure_response, lemma_failure_response_has_body};
use crate::resolver::{resolve, route_of};
use crate::target::{TargetView, UpstreamTarget};
use crate::website::{backend_authority, forward, is_bodiless_request, website_target};

verus! {

/// What to do with an inbound request.
#[derive(Debug, Clone, PartialEq, Eq)]
pub enum Action {
    /// Send this request upstream and relay what comes back.
    Send(OutboundRequest),
    /// Answer the caller at once.
    Respond(CallerResponse),
}

/// The target that `request` resolves to under `config`, or the reason why none
/// could be built. It depends on nothing but the request and the configuration.
pub open spec fn resolved_target(request: InboundRequest, config: RouteConfig) -> Result<
    TargetView,
    Seq<char>,
> {
    match route_of(request.path@) {
        RouteKind::ImageAsset => image_target(
            request.path@,
            opt_string_view(request.query),
            config,
        ),
        RouteKind::WebsitePassthrough => website_target(request.path@, config),
    }
}

/// The scheme of the upstream request: `https` for an image, `http` otherwise.
pub open spec fn upstream_scheme(request: InboundRequest) -> Seq<char> {
    match route_of(request.path@) {
        RouteKind::ImageAsset => "https"@,
        RouteKind::WebsitePassthrough => "http"@,
    }
}

/// The authority of the upstream: the content store for an image, the backend otherwise.
pub open spec fn upstream_authority(request: InboundRequest, config: RouteConfig) -> Seq<char> {
    match route_of(request.path@) {
        RouteKind::ImageAsset => image_authority(config),
        RouteKind::WebsitePassthrough => backend_authority(config),
    }
}

/// The method of the upstream request: `GET` for an image, the inbound method otherwise.
pub open spec fn upstream_method(request: InboundRequest) -> Seq<char> {
    match route_of(request.path@) {
        RouteKind::ImageAsset => "GET"@,
        RouteKind::WebsitePassthrough => request.method@,
    }
}

/// The request that fetches the image at `target`: a `GET` without a body.
pub fn image_request(target: UpstreamTarget) -> (out: OutboundRequest)
    ensures
        is_bodiless_request(out, "GET"@, target@),
        out.target == target,
{
    OutboundRequest { method: String::from_str("GET"), target, body: Vec::new() }
}

/// Turns the outcome of building the outbound request into an action: a built
/// request is sent; a build failure is answered with status 500 and a body that
/// describes it.
pub fn action_for(built: Result<OutboundRequest, BuildFailure>) -> (action: Action)
    ensures
        match built {
            Ok(out) => action == Action::Send(out),
            Err(f) => action matches Action::Respond(response) && is_failure_response(
                response,
                f.description@,
            ) && response.status == 500 && response.body.spec_len() > 0,
        },
{
    match built {
        Ok(out) => Action::Send(out),
        Err(f) => Action::Respond(failure_response(f.description.as_str())),
    }
}

/// `action` is what `request` calls for under `config`.
///
/// Where the resolved target can be built, the action is to send one request to
/// it: a bodiless `GET` on the image route, a bodiless request with the inbound
/// method on the website route. Where it cannot, the action is to respond with
/// status 500 and the text that describes the failure.
pub open spec fn is_plan_of(action: Action, request: InboundRequest, config: RouteConfig) -> bool {
    match resolved_target(request, config) {
        Ok(target) => action matches Action::Send(out) && is_bodiless_request(
            out,
            upstream_method(request),
            target,
        ),
        Err(description) => action matches Action::Respond(response) && is_failure_response(
            response,
            description,
        ),
    }
}

/// Decides what to do with `request`. The configuration is only read.
///
/// A request that is sent goes to the upstream of its own route, by that route's
/// scheme. A request whose target cannot be built is answered with status 500 and
/// a non-empty body.
pub fn plan(request: &InboundRequest, config: &RouteConfig) -> (action: Action)
    ensures
        is_plan_of(action, *request, *config),
        resolved_target(*request, *config) is Err ==> (action matches Action::Respond(response)
            && response.status == 500 && response.body.spec_len() > 0),
        action matches Action::Send(out) ==> out.target@.scheme == upstream_scheme(*request)
            && out.target@.authority == upstream_authority(*request, *config),
{
    match resolve(request.path.as_str()) {
        RouteKind::ImageAsset => {
            let query: Option<&str> = match &request.query {
                Some(q) => Some(q.as_str()),
                None => None,
            };
            assert(opt_view(query) == opt_string_view(request.query));
            match rewrite(request.path.as_str(), query, config) {
                Ok(target) => action_for(Ok(image_request(target))),
                Err(f) => action_for(Err(f)),
            }
        },
        RouteKind::WebsitePassthrough => action_for(forward(request, config)),
    }
}

/// A request whose target cannot be built is answered with status 500 and a
/// non-empty body.
pub proof fn lemma_build_failure_answered_with_500(
    action: Action,
    request: InboundRequest,
    config: RouteConfig,
)
    requires
        is_plan_of(action, request, config),
        resolved_target(request, config) is Err,
    ensures
        action is Respond,
        action->Respond_0.status == 500,
        action->Respond_0.body.spec_len() > 0,
{
    lemma_failure_response_has_body(action->Respond_0, resolved_target(request, config)->Err_0);
}

/// The action planned for a request is determined by that request and the
/// configuration: any two plans of the same request agree on whether a request is
/// sent, on its method and target, and on the status and text of a response. No
/// other request has a part in it.
pub proof fn lemma_plan_determined_by_own_request(
    first: Action,
    second: Action,
    request: InboundRequest,
    config: RouteConfig,
)
    requires
        is_plan_of(first, request, config),
        is_plan_of(second, request, config),
    ensures
        first is Send <==> second is Send,
        first is Send ==> {
            &&& first->Send_0.method@ == second->Send_0.method@
            &&& first->Send_0.target@ == second->Send_0.target@
            &&& first->Send_0.body@ == second->Send_0.body@
        },
        first is Respond ==> {
            &&& first->Respond_0.status == second->Respond_0.status
            &&& first->Respond_0.headers@ == second->Respond_0.headers@
            &&& first->Respond_0.body->Text_0@ == second->Respond_0.body->Text_0@
        },
{
    if first is Send {
        assert(first->Send_0.body@ =~= second->Send_0.body@);
    } else {
        assert(first->Respond_0.headers@ =~= second->Respond_0.headers@);
    }
}

} // verus!
