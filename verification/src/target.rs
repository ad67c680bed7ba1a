//! The destination of one upstream request, and its construction from parts.

use vstd::prelude::*;
use vstd::string::*;

use crate::model::opt_string_view;

verus! {

/// The resolved destination of one request. Built fresh for every request.
#[derive(Debug, Clone, PartialEq, Eq)]
pub struct UpstreamTarget {
    pub scheme: String,
    pub authority: String,
    pub path: String,
    pub query: Option<String>,
}

/// An `UpstreamTarget` as sequences of characters.
pub struct TargetView {
    pub scheme: Seq<char>,
    pub authority: Seq<char>,
    pub path: Seq<char>,
    pub query: Option<Seq<char>>,
}

impl TargetView {
    /// The target written out as an absolute URI.
    pub open spec fn text(self) -> Seq<char> {
        let base = self.scheme + "://"@ + self.authority + self.path;
        match self.query {
            Some(q) => base + "?"@ + q,
            None => base,
        }
    }
}

impl View for UpstreamTarget {
    type V = TargetView;

    open spec fn view(&self) -> TargetView {
        TargetView {
            scheme: self.scheme@,
            authority: self.authority@,
            path: self.path@,
            query: opt_string_view(self.query),
        }
    }
}

impl UpstreamTarget {
    /// The target written out as an absolute URI: scheme, `://`, authority, path,
    /// and `?` with the query where there is one.
    pub fn uri_text(&self) -> (r: String)
        ensures
            r@ == self@.text(),
    {
        let mut out = String::from_str(self.scheme.as_str());
        out.append("://");
        out.append(self.authority.as_str());
        out.append(self.path.as_str());
        match &self.query {
            Some(q) => {
                out.append("?");
                out.append(q.as_str());
            },
            None => {},
        }
        out
    }
}

/// What the URI builder makes of a scheme, an authority and a path with query:
/// the parts of the URI it accepts, or the description of its refusal.
pub uninterp spec fn uri_of_parts(
    scheme: Seq<char>,
    authority: Seq<char>,
    path_and_query: Seq<char>,
) -> Result<TargetView, Seq<char>>;

/// Calls `hyper::Uri::builder()` with `scheme`, `authority` and `path_and_query`, then
/// `build()`. Trusted: the outcome is `uri_of_parts` of the three arguments, where an
/// accepted URI is given by its scheme, authority, path and query as the built `Uri`
/// reports them, and a refusal by the text of the builder's error. Trusted too: an
/// accepted URI has the scheme and the authority that were handed in, character for
/// character.
#[verifier::external_body]
pub(crate) fn build_uri(scheme: &str, authority: &str, path_and_query: &str) -> (r: Result<
    UpstreamTarget,
    String,
>)
    ensures
        match r {
            Ok(t) => uri_of_parts(scheme@, authority@, path_and_query@) == Ok::<
                TargetView,
                Seq<char>,
            >(t@),
            Err(e) => uri_of_parts(scheme@, authority@, path_and_query@) == Err::<
                TargetView,
                Seq<char>,
            >(e@),
        },
        r matches Ok(t) ==> t@.scheme == scheme@ && t@.authority == authority@,
{
    let builder = hyper::Uri::builder().scheme(scheme).authority(authority);
    match builder.path_and_query(path_and_query).build() {
        Ok(uri) => Ok(UpstreamTarget {
            scheme: uri.scheme_str().unwrap_or_default().to_string(),
            authority: uri.authority().map(ToString::to_string).unwrap_or_default(),
            path: uri.path().to_string(),
            query: uri.query().map(ToString::to_string),
        }),
        Err(e) => Err(e.to_string()),
    }
}

} // verus!
