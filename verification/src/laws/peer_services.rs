//! Where the DID of a test mediator leads its clients.

use crate::peer_services::{mediator_services, PeerService, PeerServiceEndpoint};
use crate::text::{strip_leading, strip_trailing};
use vstd::prelude::*;

verus! {

/// A mediator's DID advertises two services. The first takes messages, over HTTP at the URI of the
/// service without the slashes at its end, and live at `ws` below it, under the scheme of
/// WebSockets. The second, known as `#auth`, lets clients authenticate below the same URI.
pub proof fn law_services_stand_below_one_uri(
    service_uri: &str,
    scheme: &str,
    base: String,
    base_text: &str,
    rest: String,
    services: Vec<PeerService>,
)
    requires
        call_ensures(mediator_services, (service_uri,), services),
        call_ensures(strip_trailing, (service_uri, '/'), base),
        base_text@ == base@,
        scheme@ == "http://"@,
        call_ensures(strip_leading, (base_text, scheme), rest),
    ensures
        services@.len() == 2,
        services@[0].type_@ == "dm"@,
        services@[0].id is None,
        services@[0].endpoint matches PeerServiceEndpoint::Long(ends) && {
            &&& ends@.len() == 2
            &&& ends@[0].uri@ == base@
            &&& ends@[1].uri@ == "ws://"@ + rest@ + "/ws"@
            &&& forall|k: int|
                0 <= k < 2 ==> (#[trigger] ends@[k]).accept@.len() == 1 && ends@[k].accept@[0]@
                    == "didcomm/v2"@ && ends@[k].routing_keys@.len() == 0
        },
        services@[1].type_@ == "Authentication"@,
        services@[1].id matches Some(id) && id@ == "#auth"@,
        services@[1].endpoint matches PeerServiceEndpoint::Uri(uri) && uri@ == base@
            + "/authenticate"@,
{
    let views = crate::peer_services::service_views(services@);
    assert(views.len() == services@.len());
    assert(views[0] == services@[0]@);
    assert(views[1] == services@[1]@);
    let ends = services@[0].endpoint->Long_0;
    let end_views = ends@.map_values(|e: crate::peer_services::PeerServiceEndpointLong| e@);
    assert(end_views.len() == 2);
    assert(end_views[0] == ends@[0]@);
    assert(end_views[1] == ends@[1]@);
    assert forall|k: int| 0 <= k < 2 implies (#[trigger] ends@[k]).accept@.len() == 1
        && ends@[k].accept@[0]@ == "didcomm/v2"@ && ends@[k].routing_keys@.len() == 0 by {
        assert(end_views[k] == ends@[k]@);
        let accept = crate::text::views(ends@[k].accept@);
        let keys = crate::text::views(ends@[k].routing_keys@);
        assert(accept.len() == ends@[k].accept@.len());
        assert(keys.len() == ends@[k].routing_keys@.len());
        assert(accept[0] == ends@[k].accept@[0]@);
    }
}

} // verus!
