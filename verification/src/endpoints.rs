//! The URLs and routes at which a mediator is reached.

use crate::authority::{parse_url, UrlParts, UrlView};
use crate::error::{internal_error, MediatorError};
use crate::net::{format_socket, SocketAddress};
use crate::text::{appended, strip_leading, strip_trailing};
use vstd::prelude::*;

verus! {

/// The scheme of the HTTP endpoint.
pub open spec fn http_scheme(tls: bool) -> Seq<char> {
    if tls {
        "https"@
    } else {
        "http"@
    }
}

/// The scheme of the WebSocket endpoint.
pub open spec fn ws_scheme(tls: bool) -> Seq<char> {
    if tls {
        "wss"@
    } else {
        "ws"@
    }
}

/// Whether `prefix` is empty, or starts with a slash and does not end with one.
pub open spec fn is_canonical(prefix: Seq<char>) -> bool {
    prefix.len() == 0 || (prefix.first() == '/' && prefix.last() != '/')
}

/// `path` under `prefix`, with one slash between the two.
pub open spec fn api_path(prefix: Seq<char>, path: Seq<char>) -> Seq<char> {
    crate::text::without_trailing(prefix, '/') + "/"@ + crate::text::without_leading(path, "/"@)
}

/// `path` under `prefix`, with one slash between the two, whatever slashes they come with.
pub fn join_api_path(prefix: &str, path: &str) -> (joined: String)
    ensures
        joined@ == api_path(prefix@, path@),
{
    let mut joined = strip_trailing(prefix, '/');
    joined.append("/");
    joined.append(strip_leading(path, "/").as_str());
    joined
}

/// The text of the HTTP endpoint.
pub open spec fn http_text(tls: bool, bound: SocketAddress, api_prefix: Seq<char>) -> Seq<char> {
    http_scheme(tls) + "://"@ + crate::net::socket_text(bound) + api_prefix + "/"@
}

/// The text of the WebSocket endpoint.
pub open spec fn ws_text(tls: bool, bound: SocketAddress, api_prefix: Seq<char>) -> Seq<char> {
    ws_scheme(tls) + "://"@ + crate::net::socket_text(bound) + api_path(api_prefix, "ws"@)
}

/// The URLs at which a mediator is reached.
#[derive(Clone, Debug)]
pub struct Endpoints {
    pub http: UrlParts,
    pub ws: UrlParts,
}

/// Whether `endpoints` is the outcome where the two texts read as `http` and `ws`.
pub open spec fn endpoints_match(
    http: Result<UrlView, Seq<char>>,
    ws: Result<UrlView, Seq<char>>,
    endpoints: Result<Endpoints, MediatorError>,
) -> bool {
    match http {
        Err(t) => endpoints matches Err(e) && e@ == crate::error::internal_view(
            "Failed to build http endpoint URL: "@ + t,
        ),
        Ok(h) => match ws {
            Err(t) => endpoints matches Err(e) && e@ == crate::error::internal_view(
                "Failed to build ws endpoint URL: "@ + t,
            ),
            Ok(w) => endpoints matches Ok(urls) && urls.http@ == h && urls.ws@ == w,
        },
    }
}

/// The endpoints, from the two texts as they were read.
pub fn endpoints_of(http: Result<UrlParts, String>, ws: Result<UrlParts, String>) -> (endpoints:
    Result<Endpoints, MediatorError>)
    ensures
        endpoints_match(
            crate::authority::url_view(http),
            crate::authority::url_view(ws),
            endpoints,
        ),
{
    match http {
        Err(e) => Err(
            internal_error(appended("Failed to build http endpoint URL: ", e.as_str())),
        ),
        Ok(http) => match ws {
            Err(e) => Err(
                internal_error(appended("Failed to build ws endpoint URL: ", e.as_str())),
            ),
            Ok(ws) => Ok(Endpoints { http, ws }),
        },
    }
}

/// The URLs at which a mediator is reached that is bound to `bound`. The HTTP endpoint ends with a
/// slash, so that paths can be appended to it.
pub fn publish_endpoints(tls: bool, bound: SocketAddress, api_prefix: &str) -> (endpoints: Result<
    Endpoints,
    MediatorError,
>)
    ensures
        endpoints_match(
            crate::authority::parsed_url(http_text(tls, bound, api_prefix@)),
            crate::authority::parsed_url(ws_text(tls, bound, api_prefix@)),
            endpoints,
        ),
{
    let address = format_socket(bound);
    let mut http = if tls {
        "https".to_owned()
    } else {
        "http".to_owned()
    };
    http.append("://");
    http.append(address.as_str());
    http.append(api_prefix);
    http.append("/");
    let mut ws = if tls {
        "wss".to_owned()
    } else {
        "ws".to_owned()
    };
    ws.append("://");
    ws.append(address.as_str());
    ws.append(join_api_path(api_prefix, "ws").as_str());
    endpoints_of(parse_url(http.as_str()), parse_url(ws.as_str()))
}

/// The routes that the mediator has besides those of its application.
pub open spec fn system_paths(api_prefix: Seq<char>, metrics: bool) -> Seq<Seq<char>> {
    let always = seq![
        api_path(api_prefix, "healthchecker"@),
        api_path(api_prefix, "readyz"@),
        api_path(api_prefix, "livez"@),
        api_path(api_prefix, "admin/status"@),
    ];
    if metrics {
        always.push(api_path(api_prefix, "metrics"@))
    } else {
        always
    }
}

/// The routes that the mediator has besides those of its application: health, readiness,
/// liveness, the administrator's status, and the metrics where they are collected.
pub fn system_routes(api_prefix: &str, metrics: bool) -> (routes: Vec<String>)
    ensures
        crate::text::views(routes@) == system_paths(api_prefix@, metrics),
{
    let mut routes: Vec<String> = Vec::new();
    routes.push(join_api_path(api_prefix, "healthchecker"));
    routes.push(join_api_path(api_prefix, "readyz"));
    routes.push(join_api_path(api_prefix, "livez"));
    routes.push(join_api_path(api_prefix, "admin/status"));
    if metrics {
        routes.push(join_api_path(api_prefix, "metrics"));
    }
    assert(crate::text::views(routes@) =~= system_paths(api_prefix@, metrics));
    routes
}

/// The text of the error that a server ends in.
pub open spec fn server_failure(tls: bool, error: Seq<char>) -> Seq<char> {
    if tls {
        "HTTPS server error: "@ + error
    } else {
        "HTTP server error: "@ + error
    }
}

/// The error that a server ends in.
pub fn server_error(tls: bool, error: &str) -> (raised: MediatorError)
    ensures
        raised@ == crate::error::internal_view(server_failure(tls, error@)),
{
    if tls {
        internal_error(appended("HTTPS server error: ", error))
    } else {
        internal_error(appended("HTTP server error: ", error))
    }
}

/// Under a canonical prefix a path without a leading slash is the prefix, a slash, and the path.
proof fn lemma_canonical_path(prefix: Seq<char>, path: Seq<char>)
    requires
        is_canonical(prefix),
        path.len() > 0,
        path.first() != '/',
    ensures
        api_path(prefix, path) == prefix + "/"@ + path,
{
    reveal_strlit("/");
    assert(crate::text::without_trailing(prefix, '/') == prefix);
    assert("/"@[0] == '/');
    if "/"@.is_prefix_of(path) {
        assert(path.subrange(0, 1)[0] == "/"@[0]);
    }
    assert(crate::text::without_leading(path, "/"@) == path);
}

/// The HTTP endpoint is a base to which a path can be appended: it ends with a slash, and the
/// WebSocket endpoint is the same base under the other scheme, with `ws` appended.
pub proof fn law_endpoints_share_a_base(tls: bool, bound: SocketAddress, api_prefix: Seq<char>)
    requires
        is_canonical(api_prefix),
    ensures
        http_text(tls, bound, api_prefix).last() == '/',
        exists|base: Seq<char>|
            http_text(tls, bound, api_prefix) == #[trigger] (http_scheme(tls) + base) && ws_text(
                tls,
                bound,
                api_prefix,
            ) == ws_scheme(tls) + (base + "ws"@),
{
    reveal_strlit("/");
    reveal_strlit("ws");
    let base = "://"@ + crate::net::socket_text(bound) + api_prefix + "/"@;
    lemma_canonical_path(api_prefix, "ws"@);
    assert(http_text(tls, bound, api_prefix) =~= http_scheme(tls) + base);
    assert(ws_text(tls, bound, api_prefix) =~= ws_scheme(tls) + (base + "ws"@));
}

/// A joined path has one slash where prefix and path meet, whatever slashes they came with.
pub proof fn law_joined_paths_have_one_slash(prefix: Seq<char>, path: Seq<char>)
    ensures
        api_path(prefix.push('/'), path) == api_path(prefix, path),
        api_path(prefix, seq!['/'] + path) == api_path(prefix, path),
{
    reveal_strlit("/");
    assert(prefix.push('/').drop_last() =~= prefix);
    let slashed = seq!['/'] + path;
    assert("/"@ =~= seq!['/']);
    assert(slashed.subrange(0, 1) =~= seq!['/']);
    assert(slashed.skip(1) =~= path);
}

} // verus!
