//! Where a mediator is reached.

use crate::authority::{UrlParts, UrlView};
use crate::endpoints::{
    endpoints_of, join_api_path, publish_endpoints, server_error, system_routes, Endpoints,
};
use crate::error::{ErrorView, MediatorError};
use crate::net::{format_socket, SocketAddress};
use vstd::prelude::*;

verus! {

/// A path stands under its prefix with one slash between them, whatever slashes the two come with:
/// one more at the end of the prefix, or at the start of the path, makes no difference.
pub proof fn law_paths_meet_at_one_slash(
    prefix: &str,
    path: &str,
    slashed_prefix: &str,
    slashed_path: &str,
    joined: String,
    with_prefix: String,
    with_path: String,
)
    requires
        slashed_prefix@ == prefix@.push('/'),
        slashed_path@ == seq!['/'] + path@,
        call_ensures(join_api_path, (prefix, path), joined),
        call_ensures(join_api_path, (slashed_prefix, path), with_prefix),
        call_ensures(join_api_path, (prefix, slashed_path), with_path),
    ensures
        with_prefix@ == joined@,
        with_path@ == joined@,
        (prefix@.len() == 0 || prefix@.last() != '/') && (path@.len() == 0 || path@.first() != '/')
            ==> joined@ == prefix@.push('/') + path@,
{
    crate::endpoints::law_joined_paths_have_one_slash(prefix@, path@);
    if (prefix@.len() == 0 || prefix@.last() != '/') && (path@.len() == 0 || path@.first() != '/') {
        reveal_strlit("/");
        assert("/"@ =~= seq!['/']);
        if "/"@.is_prefix_of(path@) {
            assert(path@.subrange(0, 1)[0] == "/"@[0]);
        }
        assert(joined@ =~= prefix@.push('/') + path@);
    }
}

/// The endpoints are the two URLs that were read. A text that is no URL is an error that names it,
/// the HTTP endpoint first.
pub proof fn law_endpoints_are_both_urls(
    http: Result<UrlParts, String>,
    ws: Result<UrlParts, String>,
    endpoints: Result<Endpoints, MediatorError>,
)
    requires
        call_ensures(endpoints_of, (http, ws), endpoints),
    ensures
        http matches Err(t) ==> (endpoints matches Err(e) && e@ == ErrorView::InternalError(
            17,
            "NA"@,
            "Failed to build http endpoint URL: "@ + t@,
        )),
        http is Ok ==> (ws matches Err(t) ==> (endpoints matches Err(e) && e@
            == ErrorView::InternalError(
            17,
            "NA"@,
            "Failed to build ws endpoint URL: "@ + t@,
        ))),
        http matches Ok(h) ==> (ws matches Ok(w) ==> (endpoints matches Ok(e) && e.http@ == h@
            && e.ws@ == w@)),
{
}

/// What is published is read from the bound address: the HTTP endpoint is the scheme, the address,
/// the prefix, and a slash, and the WebSocket endpoint is its scheme, the address, and `ws` under
/// the prefix. The schemes are `https` and `wss` with TLS, and `http` and `ws` without.
pub proof fn law_published_endpoints_lead_to_the_bound_address(
    tls: bool,
    bound: SocketAddress,
    api_prefix: &str,
    address: String,
    path: &str,
    ws_path: String,
    http_text: Seq<char>,
    ws_text: Seq<char>,
    endpoints: Result<Endpoints, MediatorError>,
)
    requires
        call_ensures(publish_endpoints, (tls, bound, api_prefix), endpoints),
        call_ensures(format_socket, (bound,), address),
        path@ == "ws"@,
        call_ensures(join_api_path, (api_prefix, path), ws_path),
        tls ==> http_text == "https://"@ + address@ + api_prefix@ + "/"@,
        tls ==> ws_text == "wss://"@ + address@ + ws_path@,
        !tls ==> http_text == "http://"@ + address@ + api_prefix@ + "/"@,
        !tls ==> ws_text == "ws://"@ + address@ + ws_path@,
    ensures
        match (
            crate::authority::parsed_url(http_text),
            crate::authority::parsed_url(ws_text),
        ) {
            (Ok(h), Ok(w)) => endpoints matches Ok(e) && e.http@ == h && e.ws@ == w,
            (Err(t), _) => endpoints matches Err(e) && e@ == ErrorView::InternalError(
                17,
                "NA"@,
                "Failed to build http endpoint URL: "@ + t,
            ),
            (Ok(_), Err(t)) => endpoints matches Err(e) && e@ == ErrorView::InternalError(
                17,
                "NA"@,
                "Failed to build ws endpoint URL: "@ + t,
            ),
        },
{
    reveal_strlit("://");
    reveal_strlit("https");
    reveal_strlit("http");
    reveal_strlit("wss");
    reveal_strlit("ws");
    reveal_strlit("https://");
    reveal_strlit("http://");
    reveal_strlit("wss://");
    reveal_strlit("ws://");
    assert("https"@ + "://"@ =~= "https://"@);
    assert("http"@ + "://"@ =~= "http://"@);
    assert("wss"@ + "://"@ =~= "wss://"@);
    assert("ws"@ + "://"@ =~= "ws://"@);
    assert(http_text =~= crate::endpoints::http_text(tls, bound, api_prefix@));
    assert(ws_text =~= crate::endpoints::ws_text(tls, bound, api_prefix@));
}

/// The routes besides those of the application are health, readiness, liveness and the
/// administrator's status, each under the prefix, and the metrics last where they are collected.
pub proof fn law_system_routes_stand_under_the_prefix(
    api_prefix: &str,
    metrics: bool,
    routes: Vec<String>,
    names: Seq<&str>,
    paths: Seq<String>,
)
    requires
        call_ensures(system_routes, (api_prefix, metrics), routes),
        names.len() == 5,
        names[0]@ == "healthchecker"@,
        names[1]@ == "readyz"@,
        names[2]@ == "livez"@,
        names[3]@ == "admin/status"@,
        names[4]@ == "metrics"@,
        paths.len() == 5,
        forall|i: int|
            0 <= i < 5 ==> call_ensures(
                join_api_path,
                (api_prefix, #[trigger] names[i]),
                #[trigger] paths[i],
            ),
    ensures
        routes@.len() == if metrics {
            5int
        } else {
            4
        },
        forall|i: int| 0 <= i < routes@.len() ==> (#[trigger] routes@[i])@ == paths[i]@,
{
    let texts = crate::text::views(routes@);
    assert(texts.len() == routes@.len());
    assert forall|i: int| 0 <= i < routes@.len() implies (#[trigger] routes@[i])@ == paths[i]@ by {
        assert(call_ensures(join_api_path, (api_prefix, names[i]), paths[i]));
        assert(texts[i] == routes@[i]@);
    }
}

/// A server that fails says over which protocol it served, and why it failed.
pub proof fn law_server_errors_name_their_protocol(tls: bool, error: &str, raised: MediatorError)
    requires
        call_ensures(server_error, (tls, error), raised),
    ensures
        tls ==> raised@ == ErrorView::InternalError(17, "NA"@, "HTTPS server error: "@ + error@),
        !tls ==> raised@ == ErrorView::InternalError(17, "NA"@, "HTTP server error: "@ + error@),
{
}

} // verus!
