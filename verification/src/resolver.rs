//! Classification of an inbound path into a route kind.

use vstd::prelude::*;

use crate::model::RouteKind;
use crate::text::{has_prefix, starts_with};

verus! {

/// The route kind of a path: `ImageAsset` exactly when it begins with `/image/api`.
pub open spec fn route_of(path: Seq<char>) -> RouteKind {
    if has_prefix(path, "/image/api"@) {
        RouteKind::ImageAsset
    } else {
        RouteKind::WebsitePassthrough
    }
}

/// Classifies `path`. Total: every path gets exactly one kind.
pub fn resolve(path: &str) -> (kind: RouteKind)
    ensures
        kind == route_of(path@),
        kind == RouteKind::ImageAsset <==> has_prefix(path@, "/image/api"@),
        kind == RouteKind::WebsitePassthrough <==> !has_prefix(path@, "/image/api"@),
{
    if starts_with(path, "/image/api") {
        RouteKind::ImageAsset
    } else {
        RouteKind::WebsitePassthrough
    }
}

} // verus!
