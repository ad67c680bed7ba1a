//! The image route: derives the asset URL at the content store from the inbound
//! path and query.

use vstd::prelude::*;
use vstd::string::*;

use crate::model::{opt_view, BuildFailure, RouteConfig};
use crate::target::{build_uri, uri_of_parts, TargetView, UpstreamTarget};
use crate::text::{has_suffix, occurs, remove_first, strip_prefix, without_first, without_prefix};

verus! {

/// The inbound query string as it is carried over: itself, or nothing when absent.
pub open spec fn carried_query(query: Option<Seq<char>>) -> Seq<char> {
    match query {
        Some(q) => q,
        None => Seq::empty(),
    }
}

/// The path of the asset inside the store: the inbound path without the first
/// occurrence of the configured pattern.
pub open spec fn asset_path_of(path: Seq<char>, config: RouteConfig) -> Seq<char> {
    without_first(path, config.asset_path_pattern@)
}

/// The upstream query string: the token, the asset's source URL, then the inbound query.
pub open spec fn upstream_query(
    path: Seq<char>,
    query: Option<Seq<char>>,
    config: RouteConfig,
) -> Seq<char> {
    "token="@ + config.cms_api_token@ + "&src="@ + config.cms_base_url@ + "/storage/uploads"@
        + asset_path_of(path, config) + "&"@ + carried_query(query)
}

/// Path and query of the upstream image request.
pub open spec fn image_path_and_query(
    path: Seq<char>,
    query: Option<Seq<char>>,
    config: RouteConfig,
) -> Seq<char> {
    "/api/cockpit/image"@ + "?"@ + upstream_query(path, query, config)
}

/// The authority of the content store: its base URL without a leading `https://`.
pub open spec fn image_authority(config: RouteConfig) -> Seq<char> {
    without_prefix(config.cms_base_url@, "https://"@)
}

/// The outcome of the rewrite: the `https` target at the content store, or the
/// reason why no URI could be formed.
pub open spec fn image_target(
    path: Seq<char>,
    query: Option<Seq<char>>,
    config: RouteConfig,
) -> Result<TargetView, Seq<char>> {
    uri_of_parts("https"@, image_authority(config), image_path_and_query(path, query, config))
}

/// The path of the asset inside the store.
pub fn asset_path(path: &str, config: &RouteConfig) -> (r: String)
    ensures
        r@ == asset_path_of(path@, *config),
        !occurs(path@, config.asset_path_pattern@) ==> r@ == path@,
{
    remove_first(path, config.asset_path_pattern.as_str())
}

/// Composes the upstream query string.
pub fn compose_query(path: &str, query: Option<&str>, config: &RouteConfig) -> (r: String)
    ensures
        r@ == upstream_query(path@, opt_view(query), *config),
        has_suffix(r@, "&"@ + carried_query(opt_view(query))),
{
    let asset = asset_path(path, config);
    let mut out = String::from_str("token=");
    out.append(config.cms_api_token.as_str());
    out.append("&src=");
    out.append(config.cms_base_url.as_str());
    out.append("/storage/uploads");
    out.append(asset.as_str());
    out.append("&");
    match query {
        Some(q) => {
            out.append(q);
        },
        None => {
            assert(out@ + Seq::<char>::empty() =~= out@);
        },
    }
    proof {
        lemma_query_ends_with_inbound(path@, opt_view(query), *config);
    }
    out
}

/// The upstream query string ends with `&` followed by the inbound query string,
/// and with `&` alone where there is none.
pub proof fn lemma_query_ends_with_inbound(
    path: Seq<char>,
    query: Option<Seq<char>>,
    config: RouteConfig,
)
    ensures
        has_suffix(upstream_query(path, query, config), "&"@ + carried_query(query)),
        query is None ==> has_suffix(upstream_query(path, query, config), "&"@),
{
    let s = upstream_query(path, query, config);
    let t = "&"@ + carried_query(query);
    assert(s.subrange(s.len() - t.len(), s.len() - t.len() + t.len()) =~= t);
    if query is None {
        assert(t =~= "&"@);
    }
}

/// Turns the builder's outcome into the result of the rewrite: the target as it is, a
/// refusal as a `BuildFailure` with the same description.
pub fn target_or_failure(built: Result<UpstreamTarget, String>) -> (r: Result<
    UpstreamTarget,
    BuildFailure,
>)
    ensures
        match built {
            Ok(t) => r == Ok::<UpstreamTarget, BuildFailure>(t),
            Err(e) => r == Err::<UpstreamTarget, BuildFailure>(BuildFailure { description: e }),
        },
{
    match built {
        Ok(t) => Ok(t),
        Err(e) => Err(BuildFailure { description: e }),
    }
}

/// Derives the upstream target of an image request.
///
/// The result is `Ok` exactly when the URI builder accepts the `https` scheme, the
/// store's authority and the composed path and query; otherwise it is the
/// `BuildFailure` that carries the builder's description. A target that was built
/// has the `https` scheme and the store's authority.
pub fn rewrite(path: &str, query: Option<&str>, config: &RouteConfig) -> (r: Result<
    UpstreamTarget,
    BuildFailure,
>)
    ensures
        match r {
            Ok(t) => image_target(path@, opt_view(query), *config) == Ok::<TargetView, Seq<char>>(
                t@,
            ),
            Err(f) => image_target(path@, opt_view(query), *config) == Err::<
                TargetView,
                Seq<char>,
            >(f.description@),
        },
        r matches Ok(t) ==> t@.scheme == "https"@ && t@.authority == image_authority(*config),
{
    let authority = strip_prefix(config.cms_base_url.as_str(), "https://");
    let composed = compose_query(path, query, config);
    let mut path_and_query = String::from_str("/api/cockpit/image");
    path_and_query.append("?");
    path_and_query.append(composed.as_str());
    target_or_failure(build_uri("https", authority.as_str(), path_and_query.as_str()))
}

} // verus!
