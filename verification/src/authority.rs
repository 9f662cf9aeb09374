//! The `(host, port)` authorities that this mediator answers to itself.
//!
//! A forward whose next hop has one of these authorities is delivered locally.

use crate::net::{format_ip, parse_socket, SocketAddress};
use crate::text::{chars_of, lowercase, same_text};
use vstd::prelude::*;

verus! {

/// What the library reads of a URL.
#[derive(Clone, Debug)]
pub struct UrlParts {
    /// The whole URL in its normalised spelling.
    pub href: String,
    pub scheme: String,
    /// The host; an IPv6 address stands in brackets.
    pub host: Option<String>,
    /// The port, where it is given and is not the scheme's own.
    pub port: Option<u16>,
}

/// The model of [`UrlParts`].
#[verifier::ext_equal]
pub struct UrlView {
    pub href: Seq<char>,
    pub scheme: Seq<char>,
    pub host: Option<Seq<char>>,
    pub port: Option<u16>,
}

impl View for UrlParts {
    type V = UrlView;

    open spec fn view(&self) -> UrlView {
        UrlView {
            href: self.href@,
            scheme: self.scheme@,
            host: crate::text::opt_view(self.host),
            port: self.port,
        }
    }
}

/// The view of a parse result.
pub open spec fn url_view(parsed: Result<UrlParts, String>) -> Result<UrlView, Seq<char>> {
    match parsed {
        Ok(u) => Ok(u@),
        Err(e) => Err(e@),
    }
}

/// What `url::Url::parse` reads from a text: the parts of the URL, or the text of its error.
pub uninterp spec fn parsed_url(text: Seq<char>) -> Result<UrlView, Seq<char>>;

/// `url::Url::parse`: the parts of the URL that the text spells, as `as_str`, `scheme`, `host_str`
/// and `port` give them, or the `Display` text of the error. The grammar itself is not stated.
#[verifier::external_body]
pub(crate) fn parse_url(text: &str) -> (parsed: Result<UrlParts, String>)
    ensures
        url_view(parsed) == parsed_url(text@),
{
    match url::Url::parse(text) {
        Ok(u) => Ok(
            UrlParts {
                href: u.as_str().to_owned(),
                scheme: u.scheme().to_owned(),
                host: u.host_str().map(|h| h.to_owned()),
                port: u.port(),
            },
        ),
        Err(e) => Err(e.to_string()),
    }
}

/// The port of a URL: the one it gives, or the default of a web scheme.
pub open spec fn effective_port(url: UrlView) -> Option<u16> {
    match url.port {
        Some(p) => Some(p),
        None => if url.scheme == "http"@ || url.scheme == "ws"@ {
            Some(80)
        } else if url.scheme == "https"@ || url.scheme == "wss"@ {
            Some(443)
        } else {
            None
        },
    }
}

/// The effective port of a URL, falling back to the default of its scheme.
pub fn default_port_for(url: &UrlParts) -> (port: Option<u16>)
    ensures
        port == effective_port(url@),
{
    if url.port.is_some() {
        return url.port;
    }
    let scheme = url.scheme.as_str();
    if same_text(scheme, "http") || same_text(scheme, "ws") {
        Some(80)
    } else if same_text(scheme, "https") || same_text(scheme, "wss") {
        Some(443)
    } else {
        None
    }
}

/// Whether `host` stands in brackets.
pub open spec fn is_bracketed(host: Seq<char>) -> bool {
    host.len() >= 2 && host.first() == '[' && host.last() == ']'
}

/// The spelling of a host by which hosts are told apart: without its outer brackets, in lower
/// case.
pub open spec fn normal_host(host: Seq<char>) -> Seq<char> {
    crate::text::lowered(
        if is_bracketed(host) {
            host.subrange(1, host.len() - 1)
        } else {
            host
        },
    )
}

/// Normalises a host for comparison: strips the outer brackets of an IPv6 literal and lower-cases
/// the rest.
pub fn normalize_host(host: &str) -> (normal: String)
    ensures
        normal@ == normal_host(host@),
{
    let chars = chars_of(host);
    let n: usize = chars.len();
    if n >= 2 && chars[0] == '[' && chars[n - 1] == ']' {
        lowercase(&chars, 1, n - 1)
    } else {
        assert(chars@.subrange(0, n as int) =~= host@);
        lowercase(&chars, 0, n)
    }
}

/// A host in normal form, and a port.
pub type Authority = (Seq<char>, u16);

/// The authority of a URL, where it has a host and a port.
pub open spec fn url_authority(url: UrlView) -> Option<Authority> {
    match (url.host, effective_port(url)) {
        (Some(host), Some(port)) => Some((normal_host(host), port)),
        _ => None,
    }
}

/// The authority that a bind address stands for.
pub open spec fn bind_authority(bind: SocketAddress) -> Authority {
    (normal_host(crate::net::ip_text(bind.ip)), bind.port)
}

/// A set of authorities.
pub struct SelfAuthorities {
    entries: Vec<(String, u16)>,
}

/// The views of a list of entries.
spec fn entry_views(entries: Seq<(String, u16)>) -> Seq<Authority> {
    entries.map_values(|e: (String, u16)| (e.0@, e.1))
}

impl View for SelfAuthorities {
    type V = Set<Authority>;

    closed spec fn view(&self) -> Set<Authority> {
        entry_views(self.entries@).to_set()
    }
}

impl SelfAuthorities {
    /// Whether no authority is listed twice.
    pub closed spec fn wf(&self) -> bool {
        entry_views(self.entries@).no_duplicates()
    }

    /// A set of authorities is finite.
    pub proof fn lemma_finite(&self)
        ensures
            self@.finite(),
    {
        vstd::seq_lib::seq_to_set_is_finite(entry_views(self.entries@));
    }

    /// The empty set.
    pub fn new() -> (set: SelfAuthorities)
        ensures
            set.wf(),
            set@ == Set::<Authority>::empty(),
    {
        let set = SelfAuthorities { entries: Vec::new() };
        assert(set@ =~= Set::<Authority>::empty());
        set
    }

    /// Whether `host` (in normal form) and `port` are among the authorities.
    pub fn contains(&self, host: &str, port: u16) -> (yes: bool)
        ensures
            yes == self@.contains((host@, port)),
    {
        let ghost views = entry_views(self.entries@);
        let mut i: usize = 0;
        while i < self.entries.len()
            invariant
                i <= self.entries@.len(),
                views == entry_views(self.entries@),
                forall|j: int| 0 <= j < i ==> #[trigger] views[j] != (host@, port),
            decreases self.entries.len() - i,
        {
            let entry = &self.entries[i];
            if entry.1 == port && same_text(entry.0.as_str(), host) {
                assert(views[i as int] == (host@, port));
                return true;
            }
            i += 1;
        }
        false
    }

    /// Adds an authority.
    pub fn insert(&mut self, host: String, port: u16)
        requires
            old(self).wf(),
        ensures
            final(self).wf(),
            final(self)@ == old(self)@.insert((host@, port)),
    {
        let ghost before = entry_views(self.entries@);
        let ghost added = (host@, port);
        if self.contains(host.as_str(), port) {
            assert(self@.insert(added) =~= self@);
        } else {
            self.entries.push((host, port));
            let ghost after = entry_views(self.entries@);
            proof {
                assert(after =~= before.push(added));
                assert forall|a: Authority| after.to_set().contains(a) implies before.to_set().insert(
                    added,
                ).contains(a) by {
                    let i = choose|i: int| 0 <= i < after.len() && after[i] == a;
                    if i < before.len() {
                        assert(before[i] == a);
                    }
                }
                assert forall|a: Authority|
                    before.to_set().insert(added).contains(a) implies after.to_set().contains(a) by {
                    if a == added {
                        assert(after[before.len() as int] == a);
                    } else {
                        let i = choose|i: int| 0 <= i < before.len() && before[i] == a;
                        assert(after[i] == a);
                    }
                }
                assert(after.to_set() =~= before.to_set().insert(added));
            }
        }
    }

    /// The number of authorities.
    pub fn len(&self) -> (n: usize)
        requires
            self.wf(),
        ensures
            n == self@.len(),
    {
        proof {
            entry_views(self.entries@).unique_seq_to_set();
        }
        self.entries.len()
    }
}

/// The authorities of a bind address and of a list of URLs; what is missing, or has no authority,
/// is left out.
pub open spec fn authorities_of(
    bind: Option<SocketAddress>,
    urls: Seq<Option<UrlView>>,
) -> Set<Authority> {
    Set::new(
        |a: Authority|
            {
                ||| bind matches Some(b) && a == bind_authority(b)
                ||| exists|i: int|
                    0 <= i < urls.len() && ((#[trigger] urls[i]) matches Some(u) && url_authority(u)
                        == Some(a))
            },
    )
}

/// The views of a list of parsed URLs.
pub open spec fn url_views(urls: Seq<Option<UrlParts>>) -> Seq<Option<UrlView>> {
    urls.map_values(
        |u: Option<UrlParts>|
            match u {
                Some(u) => Some(u@),
                None => None,
            },
    )
}

/// Collects the authorities of a bind address and of a list of URLs.
pub fn collect_authorities(bind: Option<SocketAddress>, urls: &Vec<Option<UrlParts>>) -> (set:
    SelfAuthorities)
    ensures
        set.wf(),
        set@ == authorities_of(bind, url_views(urls@)),
{
    let mut set = SelfAuthorities::new();
    let ghost views = url_views(urls@);
    if let Some(addr) = bind {
        set.insert(normalize_host(format_ip(addr.ip).as_str()), addr.port);
    }
    let mut i: usize = 0;
    assert(set@ =~= authorities_of(bind, views.take(0)));
    while i < urls.len()
        invariant
            i <= urls@.len(),
            views == url_views(urls@),
            set.wf(),
            set@ == authorities_of(bind, views.take(i as int)),
        decreases urls.len() - i,
    {
        let ghost shorter = views.take(i as int);
        let ghost longer = views.take(i as int + 1);
        assert(longer.drop_last() =~= shorter);
        if let Some(url) = &urls[i] {
            let port = default_port_for(url);
            match (&url.host, port) {
                (Some(host), Some(port)) => {
                    set.insert(normalize_host(host.as_str()), port);
                },
                _ => {},
            }
        }
        proof {
            lemma_authorities_extend(bind, longer);
            assert(longer.last() == views[i as int]);
        }
        i += 1;
    }
    assert(views.take(i as int) =~= views);
    set
}

/// One more URL adds its authority, where it has one.
pub(crate) proof fn lemma_authorities_extend(bind: Option<SocketAddress>, urls: Seq<Option<UrlView>>)
    requires
        urls.len() > 0,
    ensures
        authorities_of(bind, urls) == match urls.last() {
            Some(u) => match url_authority(u) {
                Some(a) => authorities_of(bind, urls.drop_last()).insert(a),
                None => authorities_of(bind, urls.drop_last()),
            },
            None => authorities_of(bind, urls.drop_last()),
        },
{
    let init = urls.drop_last();
    let with = authorities_of(bind, urls);
    let without = authorities_of(bind, init);
    let own = match urls.last() {
        Some(u) => url_authority(u),
        None => None,
    };
    assert forall|a: Authority| with.contains(a) implies without.contains(a) || own == Some(a) by {
        if !(bind matches Some(b) && a == bind_authority(b)) {
            let i = choose|i: int|
                0 <= i < urls.len() && ((#[trigger] urls[i]) matches Some(u) && url_authority(u)
                    == Some(a));
            if i < init.len() {
                assert(init[i] == urls[i]);
            }
        }
    }
    assert forall|a: Authority| without.contains(a) || own == Some(a) implies with.contains(a) by {
        if own == Some(a) {
            assert(urls[urls.len() - 1] == urls.last());
        } else if !(bind matches Some(b) && a == bind_authority(b)) {
            let i = choose|i: int|
                0 <= i < init.len() && ((#[trigger] init[i]) matches Some(u) && url_authority(u)
                    == Some(a));
            assert(urls[i] == init[i]);
        }
    }
    match own {
        Some(a) => assert(with =~= without.insert(a)),
        None => assert(with =~= without),
    }
}

/// The address that a text spells; none where it is malformed.
pub open spec fn bind_of(listen_address: Seq<char>) -> Option<SocketAddress> {
    match crate::net::parsed_socket(listen_address) {
        Ok(a) => Some(a),
        Err(_) => None,
    }
}

/// The URL that a text spells; none where it is malformed.
pub open spec fn url_of(text: Seq<char>) -> Option<UrlView> {
    match parsed_url(text) {
        Ok(u) => Some(u),
        Err(_) => None,
    }
}

/// The URLs that a list of texts spells.
pub open spec fn urls_of(texts: Seq<Seq<char>>) -> Seq<Option<UrlView>> {
    texts.map_values(|t: Seq<char>| url_of(t))
}

/// The authorities of a configuration: that of the address it binds, and those of the endpoints
/// it declares.
pub open spec fn self_authorities(listen_address: Seq<char>, local_endpoints: Seq<Seq<char>>) -> Set<
    Authority,
> {
    authorities_of(bind_of(listen_address), urls_of(local_endpoints))
}

/// The authorities that this mediator treats as its own: the address it binds, and the endpoints
/// that the operator declares. A bind to a wildcard address is recorded literally. Malformed
/// entries are skipped, so that a typing error does not keep the mediator from starting.
pub fn compute_self_authorities_from(listen_address: &str, local_endpoints: &Vec<String>) -> (set:
    SelfAuthorities)
    ensures
        set.wf(),
        set@ == self_authorities(listen_address@, crate::text::views(local_endpoints@)),
{
    let bind = match parse_socket(listen_address) {
        Ok(addr) => Some(addr),
        Err(_) => None,
    };
    let mut urls: Vec<Option<UrlParts>> = Vec::new();
    let ghost expected = urls_of(crate::text::views(local_endpoints@));
    let mut i: usize = 0;
    while i < local_endpoints.len()
        invariant
            i <= local_endpoints@.len(),
            expected == urls_of(crate::text::views(local_endpoints@)),
            url_views(urls@) == expected.take(i as int),
        decreases local_endpoints.len() - i,
    {
        let ghost before = urls@;
        let url = match parse_url(local_endpoints[i].as_str()) {
            Ok(u) => Some(u),
            Err(_) => None,
        };
        urls.push(url);
        proof {
            let views = url_views(urls@);
            assert(url_views(before).len() == before.len());
            assert(views.last() == expected[i as int]);
            assert forall|j: int| 0 <= j < i implies views[j] == expected[j] by {
                assert(urls@[j] == before[j]);
                assert(url_views(before)[j] == expected.take(i as int)[j]);
            }
            assert(views =~= expected.take(i as int + 1));
        }
        i += 1;
    }
    assert(url_views(urls@) =~= expected);
    collect_authorities(bind, &urls)
}

/// Whether an endpoint that reads as `url` is skipped: it is no URL, or lacks a host or a port.
pub open spec fn lacks_authority(url: Option<UrlView>) -> bool {
    match url {
        Some(u) => url_authority(u) is None,
        None => true,
    }
}

/// Whether an endpoint that reads as `url` is skipped.
pub fn is_skipped(url: &Option<UrlParts>) -> (skipped: bool)
    ensures
        skipped == lacks_authority(
            match *url {
                Some(u) => Some(u@),
                None => None,
            },
        ),
{
    match url {
        Some(u) => u.host.is_none() || default_port_for(u).is_none(),
        None => true,
    }
}

/// The endpoints that are skipped, in their order.
pub open spec fn skipped_texts(endpoints: Seq<Seq<char>>) -> Seq<Seq<char>> {
    endpoints.filter(|t: Seq<char>| lacks_authority(url_of(t)))
}

/// The endpoints that are skipped because they are malformed or lack a host or a port, so that the
/// operator can be told of each.
pub fn skipped_endpoints(endpoints: &[String]) -> (skipped: Vec<String>)
    ensures
        crate::text::views(skipped@) == skipped_texts(crate::text::views(endpoints@)),
{
    let ghost texts = crate::text::views(endpoints@);
    let mut skipped: Vec<String> = Vec::new();
    let mut i: usize = 0;
    proof {
        reveal(Seq::filter);
        assert(texts.take(0) =~= seq![]);
        assert(crate::text::views(skipped@) =~= skipped_texts(texts.take(0)));
    }
    while i < endpoints.len()
        invariant
            i <= endpoints@.len(),
            texts == crate::text::views(endpoints@),
            crate::text::views(skipped@) == skipped_texts(texts.take(i as int)),
        decreases endpoints.len() - i,
    {
        let text = endpoints[i].as_str();
        let url = match parse_url(text) {
            Ok(u) => Some(u),
            Err(_) => None,
        };
        let ghost before = skipped@;
        if is_skipped(&url) {
            skipped.push(text.to_owned());
        }
        proof {
            reveal(Seq::filter);
            let longer = texts.take(i as int + 1);
            assert(longer.drop_last() =~= texts.take(i as int));
            assert(longer.last() == text@);
            if lacks_authority(url_of(text@)) {
                assert(crate::text::views(skipped@) =~= crate::text::views(before).push(text@));
            }
        }
        i += 1;
    }
    assert(texts.take(i as int) =~= texts);
    skipped
}

/// An endpoint is skipped exactly where it adds no authority.
pub proof fn law_skipped_endpoints_add_nothing(entry: Seq<char>)
    ensures
        lacks_authority(url_of(entry)) <==> authorities_of(None, urls_of(seq![entry])) == Set::<
            Authority,
        >::empty(),
{
    let urls = urls_of(seq![entry]);
    let set = authorities_of(None, urls);
    assert(urls[0] == url_of(entry));
    if lacks_authority(url_of(entry)) {
        assert(set =~= Set::<Authority>::empty());
    } else {
        let authority = url_authority(url_of(entry)->0)->0;
        assert(set.contains(authority));
    }
}

/// Hosts that differ in the case of ASCII letters only have the same normal form.
pub proof fn law_hosts_compare_case_insensitively(a: Seq<char>, b: Seq<char>)
    requires
        crate::text::lowered(a) == crate::text::lowered(b),
    ensures
        normal_host(a) == normal_host(b),
{
    let la = crate::text::lowered(a);
    let lb = crate::text::lowered(b);
    assert(a.len() == la.len() && b.len() == lb.len());
    if a.len() >= 2 {
        assert(la[0] == crate::text::ascii_lower(a[0]));
        assert(lb[0] == crate::text::ascii_lower(b[0]));
        assert(la[a.len() - 1] == crate::text::ascii_lower(a[a.len() - 1]));
        assert(lb[a.len() - 1] == crate::text::ascii_lower(b[a.len() - 1]));
        assert(is_bracketed(a) == is_bracketed(b));
        if is_bracketed(a) {
            let na = normal_host(a);
            let nb = normal_host(b);
            assert forall|i: int| 0 <= i < na.len() implies na[i] == nb[i] by {
                assert(na[i] == la[i + 1]);
                assert(nb[i] == lb[i + 1]);
            }
            assert(na =~= nb);
        }
    }
}

/// An IPv6 literal has the same normal form with brackets, as URLs write it, and without, as
/// socket addresses do.
pub proof fn law_brackets_do_not_matter(host: Seq<char>)
    requires
        !is_bracketed(host),
    ensures
        normal_host(seq!['['] + host + seq![']']) == normal_host(host),
{
    let bracketed = seq!['['] + host + seq![']'];
    assert(bracketed.subrange(1, bracketed.len() - 1) =~= host);
}

/// The address that is bound is always among the authorities.
pub proof fn law_bind_address_is_local(
    bind: SocketAddress,
    listen_address: Seq<char>,
    local_endpoints: Seq<Seq<char>>,
)
    requires
        crate::net::parsed_socket(listen_address) == Ok::<SocketAddress, Seq<char>>(bind),
    ensures
        self_authorities(listen_address, local_endpoints).contains(bind_authority(bind)),
{
}

/// Every endpoint that has an authority makes it local, wherever it stands in the list.
pub proof fn law_declared_endpoint_is_local(
    listen_address: Seq<char>,
    local_endpoints: Seq<Seq<char>>,
    i: int,
    url: UrlView,
    authority: Authority,
)
    requires
        0 <= i < local_endpoints.len(),
        url_of(local_endpoints[i]) == Some(url),
        url_authority(url) == Some(authority),
    ensures
        self_authorities(listen_address, local_endpoints).contains(authority),
{
    assert(urls_of(local_endpoints)[i] == Some(url));
}

/// An endpoint that is malformed, or has no authority, changes nothing.
pub proof fn law_malformed_endpoints_are_skipped(
    listen_address: Seq<char>,
    local_endpoints: Seq<Seq<char>>,
    entry: Seq<char>,
)
    requires
        url_of(entry) matches Some(u) ==> url_authority(u) is None,
    ensures
        self_authorities(listen_address, local_endpoints.push(entry)) == self_authorities(
            listen_address,
            local_endpoints,
        ),
{
    let urls = urls_of(local_endpoints.push(entry));
    assert(urls.drop_last() =~= urls_of(local_endpoints));
    assert(urls.last() == url_of(entry));
    lemma_authorities_extend(bind_of(listen_address), urls);
}

/// Whether the bind address is a wildcard and no endpoint is declared, so that no forward will
/// ever be recognised as local by its host.
pub fn wildcard_without_endpoints(listen_address: &str, local_endpoints: &Vec<String>) -> (yes: bool)
    ensures
        yes == (local_endpoints@.len() == 0 && (bind_of(listen_address@) matches Some(a)
            && a.ip.bits() == 0)),
{
    match parse_socket(listen_address) {
        Ok(addr) => addr.ip.is_unspecified() && local_endpoints.len() == 0,
        Err(_) => false,
    }
}

} // verus!
