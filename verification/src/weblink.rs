//! The library's model of a URL: the parts the pipeline reads and rewrites,
//! held as plain strings, together with the trusted parser that produces
//! them and the allow-list of source hostnames.

use vstd::prelude::*;
use vstd::string::*;
use crate::text;

verus! {

/// The parts of a parsed absolute URL, before the host requirement is
/// checked: the host is optional, as some schemes carry none.
pub struct RawUrl {
    pub scheme: String,
    pub host: Option<String>,
    pub path: String,
    pub query: Option<String>,
    pub fragment: Option<String>,
}

/// The mathematical value of a [`RawUrl`].
pub ghost struct RawUrlView {
    pub scheme: Seq<char>,
    pub host: Option<Seq<char>>,
    pub path: Seq<char>,
    pub query: Option<Seq<char>>,
    pub fragment: Option<Seq<char>>,
}

pub open spec fn view_opt_string(s: Option<String>) -> Option<Seq<char>> {
    match s {
        Some(t) => Some(t@),
        None => None,
    }
}

impl View for RawUrl {
    type V = RawUrlView;

    open spec fn view(&self) -> RawUrlView {
        RawUrlView {
            scheme: self.scheme@,
            host: view_opt_string(self.host),
            path: self.path@,
            query: view_opt_string(self.query),
            fragment: view_opt_string(self.fragment),
        }
    }
}

/// A URL with a definite host, as the pipeline carries it: scheme, host,
/// path, query and fragment as plain strings. Serializing the parts again
/// is left to the caller that issues the request.
pub struct UrlParts {
    pub scheme: String,
    pub host: String,
    pub path: String,
    pub query: Option<String>,
    pub fragment: Option<String>,
}

/// The mathematical value of a [`UrlParts`].
#[verifier::ext_equal]
pub ghost struct UrlView {
    pub scheme: Seq<char>,
    pub host: Seq<char>,
    pub path: Seq<char>,
    pub query: Option<Seq<char>>,
    pub fragment: Option<Seq<char>>,
}

impl View for UrlParts {
    type V = UrlView;

    open spec fn view(&self) -> UrlView {
        UrlView {
            scheme: self.scheme@,
            host: self.host@,
            path: self.path@,
            query: view_opt_string(self.query),
            fragment: view_opt_string(self.fragment),
        }
    }
}

impl DeepView for UrlParts {
    type V = UrlView;

    open spec fn deep_view(&self) -> UrlView {
        self.view()
    }
}

impl Clone for UrlParts {
    fn clone(&self) -> (r: Self)
        ensures
            r@ == self@,
    {
        UrlParts {
            scheme: self.scheme.clone(),
            host: self.host.clone(),
            path: self.path.clone(),
            query: clone_opt_string(&self.query),
            fragment: clone_opt_string(&self.fragment),
        }
    }
}

/// Clones an optional string, keeping its value.
fn clone_opt_string(s: &Option<String>) -> (r: Option<String>)
    ensures
        view_opt_string(r) == view_opt_string(*s),
{
    match s {
        Some(t) => Some(t.clone()),
        None => None,
    }
}

/// Whether the text parses as an absolute URL. Determined by the `url`
/// crate's grammar; opaque to the library.
pub uninterp spec fn url_well_formed(s: Seq<char>) -> bool;

/// The parts of the URL that the text parses to, after the `url` crate's
/// normalization. Meaningful only when `url_well_formed` holds of the text.
pub uninterp spec fn url_parts_of(s: Seq<char>) -> RawUrlView;

/// Relies on `url::Url::parse` (reqwest re-exports the same type): parsing
/// either fails or yields a normalized URL whose scheme, host, path, query
/// and fragment the accessors return; the outcome depends on the text alone.
#[verifier::external_body]
fn parse_url(s: &str) -> (r: Option<RawUrl>)
    ensures
        r is Some <==> url_well_formed(s@),
        r is Some ==> r->Some_0@ == url_parts_of(s@),
{
    match url::Url::parse(s) {
        Ok(u) => Some(RawUrl {
            scheme: u.scheme().to_string(),
            host: u.host_str().map(str::to_string),
            path: u.path().to_string(),
            query: u.query().map(str::to_string),
            fragment: u.fragment().map(str::to_string),
        }),
        Err(_) => None,
    }
}

/// The fixed allow-list of source and mirror hostnames, compared
/// case-insensitively.
pub open spec fn host_in_allowlist(h: Seq<char>) -> bool {
    ||| text::eq_ignore_case(h, "cunnyx.com"@)
    ||| text::eq_ignore_case(h, "fixupx.com"@)
    ||| text::eq_ignore_case(h, "fixvx.com"@)
    ||| text::eq_ignore_case(h, "fxtwitter.com"@)
    ||| text::eq_ignore_case(h, "girlcockx.com"@)
    ||| text::eq_ignore_case(h, "hitlerx.com"@)
    ||| text::eq_ignore_case(h, "nitter.net"@)
    ||| text::eq_ignore_case(h, "nitter.poast.org"@)
    ||| text::eq_ignore_case(h, "twitter.com"@)
    ||| text::eq_ignore_case(h, "twittpr.com"@)
    ||| text::eq_ignore_case(h, "vxtwitter.com"@)
    ||| text::eq_ignore_case(h, "x.com"@)
    ||| text::eq_ignore_case(h, "xcancel.com"@)
    ||| text::eq_ignore_case(h, "xfixup.com"@)
}

/// Membership of a hostname in the fixed allow-list, ignoring ASCII case.
pub fn host_allowed(h: &str) -> (r: bool)
    ensures
        r == host_in_allowlist(h@),
{
    text::eq_ignore_ascii_lower(h, "cunnyx.com") || text::eq_ignore_ascii_lower(h, "fixupx.com")
        || text::eq_ignore_ascii_lower(h, "fixvx.com") || text::eq_ignore_ascii_lower(
        h,
        "fxtwitter.com",
    ) || text::eq_ignore_ascii_lower(h, "girlcockx.com") || text::eq_ignore_ascii_lower(
        h,
        "hitlerx.com",
    ) || text::eq_ignore_ascii_lower(h, "nitter.net") || text::eq_ignore_ascii_lower(
        h,
        "nitter.poast.org",
    ) || text::eq_ignore_ascii_lower(h, "twitter.com") || text::eq_ignore_ascii_lower(
        h,
        "twittpr.com",
    ) || text::eq_ignore_ascii_lower(h, "vxtwitter.com") || text::eq_ignore_ascii_lower(h, "x.com")
        || text::eq_ignore_ascii_lower(h, "xcancel.com") || text::eq_ignore_ascii_lower(
        h,
        "xfixup.com",
    )
}

/// A parsed URL is a candidate for resolution when its scheme is exactly
/// `https`, it has a host on the allow-list, and its path marks an
/// individual post.
pub open spec fn is_candidate(u: RawUrlView) -> bool {
    &&& u.scheme == "https"@
    &&& u.host is Some
    &&& host_in_allowlist(u.host->Some_0)
    &&& text::contains_seq(u.path, "/status/"@)
}

/// What holds of every candidate's parts: the scheme is exactly `https`,
/// the host is on the allow-list, and the path marks an individual post.
pub open spec fn candidate_ok(u: UrlView) -> bool {
    &&& u.scheme == "https"@
    &&& host_in_allowlist(u.host)
    &&& text::contains_seq(u.path, "/status/"@)
}

/// The candidate's parts with the host made definite. Meaningful only when
/// `is_candidate` holds.
pub open spec fn to_candidate(u: RawUrlView) -> UrlView {
    UrlView {
        scheme: u.scheme,
        host: u.host->Some_0,
        path: u.path,
        query: u.query,
        fragment: u.fragment,
    }
}

/// Parses one piece of text and keeps it only when it is a candidate link:
/// a well-formed `https` URL with an allow-listed host and a post path.
pub fn candidate_from_text(s: &str) -> (r: Option<UrlParts>)
    ensures
        r is Some <==> url_well_formed(s@) && is_candidate(url_parts_of(s@)),
        r is Some ==> r->Some_0@ == to_candidate(url_parts_of(s@)),
{
    let parsed: Option<RawUrl> = parse_url(s);
    match parsed {
        None => None,
        Some(raw) => {
            if !text::str_eq(raw.scheme.as_str(), "https") {
                return None;
            }
            match raw.host {
                None => None,
                Some(host) => {
                    if !host_allowed(host.as_str()) {
                        return None;
                    }
                    if !text::contains_substr(raw.path.as_str(), "/status/") {
                        return None;
                    }
                    Some(
                        UrlParts {
                            scheme: raw.scheme,
                            host,
                            path: raw.path,
                            query: raw.query,
                            fragment: raw.fragment,
                        },
                    )
                },
            }
        },
    }
}

/// The request line a URL's parts serialize to: scheme, host, path and
/// query. The fragment is omitted, as it is never sent to a server.
pub open spec fn url_string_spec(u: UrlView) -> Seq<char> {
    u.scheme + "://"@ + u.host + u.path + match u.query {
        Some(q) => "?"@ + q,
        None => Seq::empty(),
    }
}

/// Serializes a URL's parts for issuing the request: scheme, host, path
/// and query; the fragment is omitted.
pub fn url_string(u: &UrlParts) -> (r: String)
    ensures
        r@ == url_string_spec(u@),
{
    let mut out: String = u.scheme.clone();
    out.append("://");
    out.append(u.host.as_str());
    out.append(u.path.as_str());
    match &u.query {
        Some(q) => {
            out.append("?");
            out.append(q.as_str());
            proof {
                assert(out@ =~= url_string_spec(u@));
            }
        },
        None => {
            proof {
                assert(out@ =~= url_string_spec(u@));
            }
        },
    }
    out
}

/// Equality of two parsed URLs, part for part: the normalized form under
/// which extracted links are deduplicated.
pub fn url_eq(a: &UrlParts, b: &UrlParts) -> (r: bool)
    ensures
        r == (a@ == b@),
{
    let scheme_eq: bool = a.scheme == b.scheme;
    let host_eq: bool = a.host == b.host;
    let path_eq: bool = a.path == b.path;
    let query_eq: bool = opt_string_eq(&a.query, &b.query);
    let fragment_eq: bool = opt_string_eq(&a.fragment, &b.fragment);
    let r: bool = scheme_eq && host_eq && path_eq && query_eq && fragment_eq;
    proof {
        if r {
            assert(a@ =~= b@);
        }
    }
    r
}

/// Equality of two optional strings by value.
fn opt_string_eq(a: &Option<String>, b: &Option<String>) -> (r: bool)
    ensures
        r == (view_opt_string(*a) == view_opt_string(*b)),
{
    match (a, b) {
        (None, None) => true,
        (Some(x), Some(y)) => {
            let eq: bool = *x == *y;
            proof {
                if !eq {
                    assert(view_opt_string(*a)->Some_0 != view_opt_string(*b)->Some_0);
                }
            }
            eq
        },
        _ => false,
    }
}

} // verus!
