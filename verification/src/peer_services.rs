//! The services that a test mediator's DID advertises.

use crate::text::{appended, strip_leading, strip_trailing};
use vstd::prelude::*;

verus! {

/// An endpoint with what it accepts.
#[derive(Clone, Debug)]
pub struct PeerServiceEndpointLong {
    pub uri: String,
    pub accept: Vec<String>,
    pub routing_keys: Vec<String>,
}

/// Where a service is found.
#[derive(Clone, Debug)]
pub enum PeerServiceEndpoint {
    Uri(String),
    Long(Vec<PeerServiceEndpointLong>),
}

/// A service of a peer DID.
#[derive(Clone, Debug)]
pub struct PeerService {
    pub type_: String,
    pub endpoint: PeerServiceEndpoint,
    pub id: Option<String>,
}

/// The model of [`PeerServiceEndpointLong`].
#[verifier::ext_equal]
pub struct EndpointView {
    pub uri: Seq<char>,
    pub accept: Seq<Seq<char>>,
    pub routing_keys: Seq<Seq<char>>,
}

impl View for PeerServiceEndpointLong {
    type V = EndpointView;

    open spec fn view(&self) -> EndpointView {
        EndpointView {
            uri: self.uri@,
            accept: crate::text::views(self.accept@),
            routing_keys: crate::text::views(self.routing_keys@),
        }
    }
}

/// The model of [`PeerServiceEndpoint`].
#[verifier::ext_equal]
pub enum WhereView {
    Uri(Seq<char>),
    Long(Seq<EndpointView>),
}

impl View for PeerServiceEndpoint {
    type V = WhereView;

    open spec fn view(&self) -> WhereView {
        match *self {
            PeerServiceEndpoint::Uri(uri) => WhereView::Uri(uri@),
            PeerServiceEndpoint::Long(endpoints) => WhereView::Long(
                endpoints@.map_values(|e: PeerServiceEndpointLong| e@),
            ),
        }
    }
}

/// The model of [`PeerService`].
#[verifier::ext_equal]
pub struct ServiceView {
    pub type_: Seq<char>,
    pub endpoint: WhereView,
    pub id: Option<Seq<char>>,
}

impl View for PeerService {
    type V = ServiceView;

    open spec fn view(&self) -> ServiceView {
        ServiceView {
            type_: self.type_@,
            endpoint: self.endpoint@,
            id: crate::text::opt_view(self.id),
        }
    }
}

/// The base of a service's URIs: its URI without the slashes at the end.
pub open spec fn base_uri(service_uri: Seq<char>) -> Seq<char> {
    crate::text::without_trailing(service_uri, '/')
}

/// The URI at which live delivery is found.
pub open spec fn ws_uri(service_uri: Seq<char>) -> Seq<char> {
    "ws://"@ + crate::text::without_leading(base_uri(service_uri), "http://"@) + "/ws"@
}

/// The URI at which clients authenticate.
pub open spec fn auth_uri(service_uri: Seq<char>) -> Seq<char> {
    base_uri(service_uri) + "/authenticate"@
}

/// An endpoint for messages.
pub open spec fn message_endpoint(uri: Seq<char>) -> EndpointView {
    EndpointView { uri, accept: seq!["didcomm/v2"@], routing_keys: seq![] }
}

/// The services of a mediator whose service has this URI.
pub open spec fn services_of(service_uri: Seq<char>) -> Seq<ServiceView> {
    seq![
        ServiceView {
            type_: "dm"@,
            endpoint: WhereView::Long(
                seq![
                    message_endpoint(base_uri(service_uri)),
                    message_endpoint(ws_uri(service_uri)),
                ],
            ),
            id: None,
        },
        ServiceView {
            type_: "Authentication"@,
            endpoint: WhereView::Uri(auth_uri(service_uri)),
            id: Some("#auth"@),
        },
    ]
}

/// The views of a list of services.
pub open spec fn service_views(services: Seq<PeerService>) -> Seq<ServiceView> {
    services.map_values(|s: PeerService| s@)
}

/// An endpoint for messages.
fn message_endpoint_at(uri: String) -> (endpoint: PeerServiceEndpointLong)
    ensures
        endpoint@ == message_endpoint(uri@),
{
    let mut accept: Vec<String> = Vec::new();
    accept.push("didcomm/v2".to_owned());
    let endpoint = PeerServiceEndpointLong { uri, accept, routing_keys: Vec::new() };
    assert(endpoint@ =~= message_endpoint(uri@));
    endpoint
}

/// The services that a mediator's DID advertises: one for messages, over HTTP and live, and one to
/// authenticate. Clients append paths to these URIs after a slash, so none ends with one.
pub fn mediator_services(service_uri: &str) -> (services: Vec<PeerService>)
    ensures
        service_views(services@) == services_of(service_uri@),
{
    let base = strip_trailing(service_uri, '/');
    let mut ws = appended("ws://", strip_leading(base.as_str(), "http://").as_str());
    ws.append("/ws");
    let auth = appended(base.as_str(), "/authenticate");
    let mut endpoints: Vec<PeerServiceEndpointLong> = Vec::new();
    endpoints.push(message_endpoint_at(base));
    endpoints.push(message_endpoint_at(ws));
    let messages = PeerService {
        type_: "dm".to_owned(),
        endpoint: PeerServiceEndpoint::Long(endpoints),
        id: None,
    };
    let authentication = PeerService {
        type_: "Authentication".to_owned(),
        endpoint: PeerServiceEndpoint::Uri(auth),
        id: Some("#auth".to_owned()),
    };
    proof {
        assert(endpoints@.map_values(|e: PeerServiceEndpointLong| e@) =~= seq![
            message_endpoint(base_uri(service_uri@)),
            message_endpoint(ws_uri(service_uri@)),
        ]);
    }
    let mut services: Vec<PeerService> = Vec::new();
    services.push(messages);
    services.push(authentication);
    assert(service_views(services@) =~= services_of(service_uri@));
    services
}

/// The base of a service's URIs does not end with a slash, so that a path appended after one does
/// not come out with two.
pub proof fn law_base_has_no_trailing_slash(service_uri: Seq<char>)
    ensures
        base_uri(service_uri).len() > 0 ==> base_uri(service_uri).last() != '/',
{
    crate::text::lemma_without_trailing(service_uri, '/');
}

/// The URIs of a mediator that serves at `http://<authority>/mediator/v1/`: messages go to
/// `http://<authority>/mediator/v1`, live delivery is at `ws://<authority>/mediator/v1/ws`, and
/// clients authenticate at `http://<authority>/mediator/v1/authenticate`.
pub proof fn law_uris_of_a_served_authority(authority: Seq<char>)
    requires
        !"http://"@.is_prefix_of(authority + "/mediator/v1"@),
    ensures
        base_uri("http://"@ + authority + "/mediator/v1/"@) == "http://"@ + authority
            + "/mediator/v1"@,
        ws_uri("http://"@ + authority + "/mediator/v1/"@) == "ws://"@ + authority
            + "/mediator/v1/ws"@,
        auth_uri("http://"@ + authority + "/mediator/v1/"@) == "http://"@ + authority
            + "/mediator/v1/authenticate"@,
{
    reveal_strlit("http://");
    reveal_strlit("/mediator/v1/");
    reveal_strlit("/mediator/v1");
    reveal_strlit("/mediator/v1/ws");
    reveal_strlit("/mediator/v1/authenticate");
    reveal_strlit("/ws");
    reveal_strlit("/authenticate");
    let uri = "http://"@ + authority + "/mediator/v1/"@;
    let rest = authority + "/mediator/v1"@;
    let base = "http://"@ + rest;
    assert(uri.last() == '/');
    assert(uri.drop_last() =~= base);
    assert(base.last() == '1');
    assert(crate::text::without_trailing(base, '/') == base);
    assert(base_uri(uri) == base);
    assert(base =~= "http://"@ + authority + "/mediator/v1"@);
    assert(base.subrange(0, 7) =~= "http://"@);
    assert(base.skip(7) =~= rest);
    assert(crate::text::without_leading(rest, "http://"@) == rest);
    assert(ws_uri(uri) =~= "ws://"@ + authority + "/mediator/v1/ws"@);
    assert(auth_uri(uri) =~= "http://"@ + authority + "/mediator/v1/authenticate"@);
}

} // verus!
