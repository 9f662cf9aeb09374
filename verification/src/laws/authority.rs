//! Which authorities are this mediator's own.

use crate::authority::{
    collect_authorities, compute_self_authorities_from, default_port_for, is_skipped,
    normalize_host, skipped_endpoints, wildcard_without_endpoints, SelfAuthorities, UrlParts,
    UrlView,
};
use crate::net::{format_ip, IpAddress, SocketAddress};
use crate::server::compute_self_authorities;
use crate::settings::Config;
use vstd::prelude::*;

verus! {

/// A port that a URL gives is its port, whatever the scheme. Without one the port is 80 for the
/// schemes `http` and `ws` and 443 for `https` and `wss`, and any other scheme leaves the URL
/// without a port.
pub proof fn law_a_given_port_is_the_port(url: UrlParts, port: Option<u16>)
    requires
        call_ensures(default_port_for, (&url,), port),
    ensures
        url.port is Some ==> port == url.port,
        url.port is None && (url.scheme@ == "http"@ || url.scheme@ == "ws"@) ==> port == Some(
            80u16,
        ),
        url.port is None && (url.scheme@ == "https"@ || url.scheme@ == "wss"@) ==> port == Some(
            443u16,
        ),
        url.port is None && url.scheme@ != "http"@ && url.scheme@ != "ws"@ && url.scheme@
            != "https"@ && url.scheme@ != "wss"@ ==> port is None,
{
    reveal_strlit("http");
    reveal_strlit("https");
    reveal_strlit("ws");
    reveal_strlit("wss");
    assert("http"@.len() == 4 && "https"@.len() == 5 && "ws"@.len() == 2 && "wss"@.len() == 3);
}

/// A host in normal form has lost the brackets round the whole of it, where it stood in brackets,
/// and the letters from A to Z have become those from a to z. Nothing else changes.
pub proof fn law_hosts_lose_brackets_and_capitals(host: &str, normal: String)
    requires
        call_ensures(normalize_host, (host,), normal),
    ensures
        ({
            let cut: int = if host@.len() >= 2 && host@.first() == '[' && host@.last() == ']' {
                1
            } else {
                0
            };
            &&& normal@.len() == host@.len() - 2 * cut
            &&& forall|i: int|
                0 <= i < normal@.len() ==> (#[trigger] normal@[i]) as u32 == if 65
                    <= host@[i + cut] as u32 <= 90 {
                    host@[i + cut] as u32 + 32
                } else {
                    host@[i + cut] as int
                }
        }),
{
    let cut: int = if host@.len() >= 2 && host@.first() == '[' && host@.last() == ']' {
        1
    } else {
        0
    };
    let part = host@.subrange(cut, host@.len() - cut);
    if cut == 0 {
        assert(part =~= host@);
    }
    assert(normal@ == crate::text::lowered(part));
    assert forall|i: int| 0 <= i < normal@.len() implies (#[trigger] normal@[i]) as u32 == if 65
        <= host@[i + cut] as u32 <= 90 {
        host@[i + cut] as u32 + 32
    } else {
        host@[i + cut] as int
    } by {
        assert(normal@[i] == crate::text::ascii_lower(part[i]));
        assert(part[i] == host@[i + cut]);
    }
}

/// A set holds nothing at first, and then what was added to it; what is added twice counts once.
pub proof fn law_authorities_are_kept_once(host: String, port: u16, asked: &str, asked_port: u16)
    ensures
        forall|set: &mut SelfAuthorities, before: bool, after: bool|
            call_ensures(SelfAuthorities::insert, (set, host, port), ()) && #[trigger] call_ensures(
                SelfAuthorities::contains,
                (&*set, asked, asked_port),
                before,
            ) && #[trigger] call_ensures(
                SelfAuthorities::contains,
                (&*final(set), asked, asked_port),
                after,
            ) ==> (after <==> before || (asked@ == host@ && asked_port == port)),
        forall|set: &mut SelfAuthorities, held: bool, before: usize, after: usize|
            set.wf() && asked@ == host@ && call_ensures(
                SelfAuthorities::insert,
                (set, host, port),
                (),
            ) && #[trigger] call_ensures(SelfAuthorities::contains, (&*set, asked, port), held)
                && #[trigger] call_ensures(SelfAuthorities::len, (&*set,), before)
                && #[trigger] call_ensures(SelfAuthorities::len, (&*final(set),), after) ==> after
                == if held {
                before as int
            } else {
                before + 1
            },
        forall|set: SelfAuthorities, held: bool, n: usize|
            call_ensures(SelfAuthorities::new, (), set) && #[trigger] call_ensures(
                SelfAuthorities::contains,
                (&set, asked, asked_port),
                held,
            ) && #[trigger] call_ensures(SelfAuthorities::len, (&set,), n) ==> !held && n == 0,
{
    assert forall|set: &mut SelfAuthorities, held: bool, before: usize, after: usize|
        set.wf() && asked@ == host@ && call_ensures(SelfAuthorities::insert, (set, host, port), ())
            && #[trigger] call_ensures(SelfAuthorities::contains, (&*set, asked, port), held)
            && #[trigger] call_ensures(SelfAuthorities::len, (&*set,), before)
            && #[trigger] call_ensures(SelfAuthorities::len, (&*final(set),), after) implies after
        == if held {
        before as int
    } else {
        before + 1
    } by {
        set.lemma_finite();
        assert(set@.contains((host@, port)) ==> set@.insert((host@, port)) =~= set@);
    }
}

/// The address that is bound is an authority, and one more URL adds its host in normal form and
/// its port, where it has both. Nothing else is an authority.
pub proof fn law_one_more_url_adds_its_authority(
    bind: Option<SocketAddress>,
    urls: Vec<Option<UrlParts>>,
    shorter: Vec<Option<UrlParts>>,
    url: Option<UrlParts>,
    set: SelfAuthorities,
    smaller: SelfAuthorities,
    url_port: Option<u16>,
    url_host: &str,
    url_normal: String,
    bind_host: String,
    bind_text: &str,
    bind_normal: String,
    host: &str,
    port: u16,
    yes: bool,
    before: bool,
)
    requires
        urls@ == shorter@.push(url),
        call_ensures(collect_authorities, (bind, &urls), set),
        call_ensures(collect_authorities, (bind, &shorter), smaller),
        url matches Some(u) ==> call_ensures(default_port_for, (&u,), url_port),
        url matches Some(u) ==> (u.host matches Some(h) ==> h@ == url_host@),
        call_ensures(normalize_host, (url_host,), url_normal),
        bind matches Some(b) ==> call_ensures(format_ip, (b.ip,), bind_host),
        bind_text@ == bind_host@,
        call_ensures(normalize_host, (bind_text,), bind_normal),
        call_ensures(SelfAuthorities::contains, (&set, host, port), yes),
        call_ensures(SelfAuthorities::contains, (&smaller, host, port), before),
    ensures
        yes <==> before || (url is Some && url->0.host is Some && url_port is Some && host@
            == url_normal@ && Some(port) == url_port),
        shorter@.len() == 0 ==> (before <==> bind is Some && host@ == bind_normal@ && port
            == bind->0.port),
{
    let views = crate::authority::url_views(urls@);
    assert(views.drop_last() =~= crate::authority::url_views(shorter@));
    assert(urls@.last() == url);
    assert(views.last() == match url {
        Some(u) => Some(u@),
        None => None,
    });
    crate::authority::lemma_authorities_extend(bind, views);
}

/// The mediator's own authorities are those of the address it binds and of all the endpoints that
/// are URLs.
pub proof fn law_own_authorities_come_from_the_configuration(
    listen_address: &str,
    endpoints: Vec<String>,
    bind: Option<SocketAddress>,
    urls: Vec<Option<UrlParts>>,
    set: SelfAuthorities,
    other: SelfAuthorities,
    host: &str,
    port: u16,
    yes: bool,
    other_yes: bool,
)
    requires
        match crate::net::parsed_socket(listen_address@) {
            Ok(addr) => bind == Some(addr),
            Err(_) => bind is None,
        },
        urls@.len() == endpoints@.len(),
        forall|i: int|
            0 <= i < urls@.len() ==> match crate::authority::parsed_url(endpoints@[i]@) {
                Ok(v) => (#[trigger] urls@[i]) matches Some(u) && u@ == v,
                Err(_) => urls@[i] is None,
            },
        call_ensures(compute_self_authorities_from, (listen_address, &endpoints), set),
        call_ensures(collect_authorities, (bind, &urls), other),
        call_ensures(SelfAuthorities::contains, (&set, host, port), yes),
        call_ensures(SelfAuthorities::contains, (&other, host, port), other_yes),
    ensures
        yes == other_yes,
{
    let texts = crate::text::views(endpoints@);
    let expected = crate::authority::urls_of(texts);
    let views = crate::authority::url_views(urls@);
    assert forall|i: int| 0 <= i < views.len() implies views[i] == expected[i] by {
        assert(texts[i] == endpoints@[i]@);
        assert(expected[i] == crate::authority::url_of(texts[i]));
        let u = urls@[i];
        assert(views[i] == match u {
            Some(u) => Some(u@),
            None => None,
        });
    }
    assert(views =~= expected);
}

/// Wherever in the list an endpoint stands, its host in normal form is an authority with the port
/// that it gives, whatever its scheme; and where it gives none, with the port of a web scheme.
pub proof fn law_endpoints_are_reached_at_their_port(
    listen_address: &str,
    endpoints: Vec<String>,
    i: int,
    url: UrlView,
    set: SelfAuthorities,
    given_host: &str,
    host: String,
    asked: &str,
    port: u16,
    yes: bool,
)
    requires
        0 <= i < endpoints@.len(),
        crate::authority::parsed_url(endpoints@[i]@) == Ok::<UrlView, Seq<char>>(url),
        url.host == Some(given_host@),
        url.port == Some(port) || (url.port is None && ((port == 80 && (url.scheme == "http"@
            || url.scheme == "ws"@)) || (port == 443 && (url.scheme == "https"@ || url.scheme
            == "wss"@)))),
        call_ensures(compute_self_authorities_from, (listen_address, &endpoints), set),
        call_ensures(normalize_host, (given_host,), host),
        asked@ == host@,
        call_ensures(SelfAuthorities::contains, (&set, asked, port), yes),
    ensures
        yes,
{
    reveal_strlit("http");
    reveal_strlit("https");
    reveal_strlit("ws");
    reveal_strlit("wss");
    assert("http"@.len() == 4 && "https"@.len() == 5 && "ws"@.len() == 2 && "wss"@.len() == 3);
    let texts = crate::text::views(endpoints@);
    assert(texts[i] == endpoints@[i]@);
    crate::authority::law_declared_endpoint_is_local(
        listen_address@,
        texts,
        i,
        url,
        (host@, port),
    );
}

/// A configuration has the authorities of its listen address and its endpoints.
pub proof fn law_configurations_have_their_own_authorities(
    config: Config,
    listen_address: &str,
    set: SelfAuthorities,
    other: SelfAuthorities,
    host: &str,
    port: u16,
    yes: bool,
    other_yes: bool,
)
    requires
        listen_address@ == config.listen_address@,
        call_ensures(compute_self_authorities, (&config,), set),
        call_ensures(
            compute_self_authorities_from,
            (listen_address, &config.local_endpoints),
            other,
        ),
        call_ensures(SelfAuthorities::contains, (&set, host, port), yes),
        call_ensures(SelfAuthorities::contains, (&other, host, port), other_yes),
    ensures
        yes == other_yes,
{
}

/// An endpoint is skipped where it is no URL, has no host, or has no port.
pub proof fn law_what_has_no_authority_is_skipped(
    url: Option<UrlParts>,
    port: Option<u16>,
    skipped: bool,
)
    requires
        call_ensures(is_skipped, (&url,), skipped),
        url matches Some(u) ==> call_ensures(default_port_for, (&u,), port),
    ensures
        skipped <==> url is None || url->0.host is None || port is None,
{
}

/// The operator is told of each endpoint that is skipped, as it was written, and of no other.
pub proof fn law_each_skipped_endpoint_is_told(
    endpoints: &[String],
    endpoint: String,
    url: Option<UrlParts>,
    yes: bool,
    told: Vec<String>,
)
    requires
        endpoints@ == seq![endpoint],
        match crate::authority::parsed_url(endpoint@) {
            Ok(v) => url matches Some(u) && u@ == v,
            Err(_) => url is None,
        },
        call_ensures(is_skipped, (&url,), yes),
        call_ensures(skipped_endpoints, (endpoints,), told),
    ensures
        yes ==> told@.len() == 1 && told@[0]@ == endpoint@,
        !yes ==> told@.len() == 0,
{
    reveal_with_fuel(Seq::filter, 2);
    let texts = crate::text::views(endpoints@);
    assert(texts =~= seq![endpoint@]);
    assert(texts.drop_last() =~= seq![]);
    assert(crate::text::views(told@).len() == told@.len());
    if told@.len() == 1 {
        assert(crate::text::views(told@)[0] == told@[0]@);
    }
}

/// Each endpoint is skipped or not for itself, and those that are skipped are told in their order.
pub proof fn law_endpoints_are_skipped_one_by_one(
    first: &[String],
    second: &[String],
    both: &[String],
    of_first: Vec<String>,
    of_second: Vec<String>,
    of_both: Vec<String>,
)
    requires
        both@ == first@ + second@,
        call_ensures(skipped_endpoints, (first,), of_first),
        call_ensures(skipped_endpoints, (second,), of_second),
        call_ensures(skipped_endpoints, (both,), of_both),
    ensures
        crate::text::views(of_both@) == crate::text::views(of_first@) + crate::text::views(
            of_second@,
        ),
{
    let a = crate::text::views(first@);
    let b = crate::text::views(second@);
    assert(crate::text::views(both@) =~= a + b);
    Seq::filter_distributes_over_add(
        a,
        b,
        |t: Seq<char>| crate::authority::lacks_authority(crate::authority::url_of(t)),
    );
}

/// The operator is warned where the bind address is a wildcard and no endpoint is declared.
pub proof fn law_wildcards_need_endpoints(listen_address: &str, endpoints: Vec<String>, yes: bool)
    requires
        call_ensures(wildcard_without_endpoints, (listen_address, &endpoints), yes),
    ensures
        yes <==> endpoints@.len() == 0 && (crate::net::parsed_socket(listen_address@) matches Ok(
            addr,
        ) && (addr.ip == IpAddress::V4(0) || addr.ip == IpAddress::V6(0))),
{
}

} // verus!
