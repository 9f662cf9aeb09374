//! Internet addresses as plain numbers, with the texts they are read from and written to.

use crate::text::decimal;
use vstd::prelude::*;

verus! {

/// An IPv4 or IPv6 address; the number holds the address bits, most significant first.
#[derive(Clone, Copy, PartialEq, Eq, Structural, Debug, Hash)]
pub enum IpAddress {
    V4(u32),
    V6(u128),
}

impl IpAddress {
    /// The number of bits in an address of this family.
    pub open spec fn width(self) -> nat {
        match self {
            IpAddress::V4(_) => 32,
            IpAddress::V6(_) => 128,
        }
    }

    /// The address bits as a number.
    pub open spec fn bits(self) -> nat {
        match self {
            IpAddress::V4(b) => b as nat,
            IpAddress::V6(b) => b as nat,
        }
    }

    /// Whether this is the wildcard address of its family (`0.0.0.0` or `::`).
    pub fn is_unspecified(&self) -> (yes: bool)
        ensures
            yes == (self.bits() == 0),
    {
        match self {
            IpAddress::V4(b) => *b == 0,
            IpAddress::V6(b) => *b == 0,
        }
    }
}

/// What `IpAddr::from_str` reads from a text; `None` where it reports an error.
pub uninterp spec fn parsed_ip(text: Seq<char>) -> Option<IpAddress>;

/// `IpAddr::from_str`: the address that the text spells, or `None` where the text spells none.
/// The grammar itself is not stated.
#[verifier::external_body]
pub(crate) fn parse_ip(text: &str) -> (ip: Option<IpAddress>)
    ensures
        ip == parsed_ip(text@),
{
    match text.parse::<core::net::IpAddr>() {
        Ok(core::net::IpAddr::V4(a)) => Some(IpAddress::V4(u32::from(a))),
        Ok(core::net::IpAddr::V6(a)) => Some(IpAddress::V6(u128::from(a))),
        Err(_) => None,
    }
}

/// The text that `Ipv6Addr` is displayed as.
pub uninterp spec fn ipv6_text(bits: u128) -> Seq<char>;

/// The `Display` text of an `Ipv6Addr`. Which of its spellings is chosen is not stated.
#[verifier::external_body]
fn format_ipv6(bits: u128) -> (text: String)
    ensures
        text@ == ipv6_text(bits),
{
    core::net::Ipv6Addr::from(bits).to_string()
}

/// The text of an address: dotted decimal for IPv4.
pub open spec fn ip_text(ip: IpAddress) -> Seq<char> {
    match ip {
        IpAddress::V4(b) => crate::text::decimal_text((b / 0x100_0000) as nat) + "."@ + crate::text::decimal_text(
            ((b / 0x1_0000) % 0x100) as nat,
        ) + "."@ + crate::text::decimal_text(((b / 0x100) % 0x100) as nat) + "."@ + crate::text::decimal_text(
            (b % 0x100) as nat,
        ),
        IpAddress::V6(b) => ipv6_text(b),
    }
}

/// Writes an address.
pub fn format_ip(ip: IpAddress) -> (text: String)
    ensures
        text@ == ip_text(ip),
{
    match ip {
        IpAddress::V4(b) => {
            let mut text = decimal((b / 0x100_0000) as u64);
            text.append(".");
            text.append(decimal(((b / 0x1_0000) % 0x100) as u64).as_str());
            text.append(".");
            text.append(decimal(((b / 0x100) % 0x100) as u64).as_str());
            text.append(".");
            text.append(decimal((b % 0x100) as u64).as_str());
            text
        },
        IpAddress::V6(b) => format_ipv6(b),
    }
}

/// A socket address. The scope identifier belongs to IPv6 addresses only and is zero otherwise.
#[derive(Clone, Copy, PartialEq, Eq, Structural, Debug, Hash)]
pub struct SocketAddress {
    pub ip: IpAddress,
    pub port: u16,
    pub scope_id: u32,
}

/// What `SocketAddr::from_str` reads from a text: the address, or the text of its error.
pub uninterp spec fn parsed_socket(text: Seq<char>) -> Result<SocketAddress, Seq<char>>;

/// The view of a parse result.
pub open spec fn socket_view(parsed: Result<SocketAddress, String>) -> Result<
    SocketAddress,
    Seq<char>,
> {
    match parsed {
        Ok(a) => Ok(a),
        Err(e) => Err(e@),
    }
}

/// `SocketAddr::from_str`: the address that the text spells, or the `Display` text of the error.
/// The grammar itself is not stated.
#[verifier::external_body]
pub(crate) fn parse_socket(text: &str) -> (parsed: Result<SocketAddress, String>)
    ensures
        socket_view(parsed) == parsed_socket(text@),
{
    match text.parse::<core::net::SocketAddr>() {
        Ok(core::net::SocketAddr::V4(a)) => Ok(
            SocketAddress { ip: IpAddress::V4(u32::from(*a.ip())), port: a.port(), scope_id: 0 },
        ),
        Ok(core::net::SocketAddr::V6(a)) => Ok(
            SocketAddress {
                ip: IpAddress::V6(u128::from(*a.ip())),
                port: a.port(),
                scope_id: a.scope_id(),
            },
        ),
        Err(e) => Err(e.to_string()),
    }
}

/// The text of a socket address: `ip:port`, with an IPv6 address in brackets.
pub open spec fn socket_text(a: SocketAddress) -> Seq<char> {
    match a.ip {
        IpAddress::V4(_) => ip_text(a.ip) + ":"@ + crate::text::decimal_text(a.port as nat),
        IpAddress::V6(_) => if a.scope_id == 0 {
            "["@ + ip_text(a.ip) + "]:"@ + crate::text::decimal_text(a.port as nat)
        } else {
            "["@ + ip_text(a.ip) + "%"@ + crate::text::decimal_text(a.scope_id as nat) + "]:"@ + crate::text::decimal_text(
                a.port as nat,
            )
        },
    }
}

/// Writes a socket address.
pub fn format_socket(a: SocketAddress) -> (text: String)
    ensures
        text@ == socket_text(a),
{
    let port = decimal(a.port as u64);
    match a.ip {
        IpAddress::V4(_) => {
            let mut text = format_ip(a.ip);
            text.append(":");
            text.append(port.as_str());
            text
        },
        IpAddress::V6(_) => {
            let mut text = "[".to_owned();
            text.append(format_ip(a.ip).as_str());
            if a.scope_id != 0 {
                text.append("%");
                text.append(decimal(a.scope_id as u64).as_str());
            }
            text.append("]:");
            text.append(port.as_str());
            text
        },
    }
}

/// A network in CIDR terms: an address and the number of leading bits that count.
#[derive(Clone, Copy, Debug)]
pub struct IpNet {
    addr: IpAddress,
    prefix_len: u8,
}

/// The model of an [`IpNet`].
pub struct NetView {
    pub addr: IpAddress,
    pub prefix_len: nat,
}

impl View for IpNet {
    type V = NetView;

    closed spec fn view(&self) -> NetView {
        NetView { addr: self.addr, prefix_len: self.prefix_len as nat }
    }
}

/// The views of a list of networks.
pub open spec fn net_views(nets: Seq<IpNet>) -> Seq<NetView> {
    nets.map_values(|n: IpNet| n@)
}

/// Whether `ip` lies in `net`: same family, and the same leading `prefix_len` bits.
pub open spec fn covers(net: NetView, ip: IpAddress) -> bool {
    &&& (net.addr is V4 <==> ip is V4)
    &&& net.addr.bits() / vstd::arithmetic::power2::pow2((ip.width() - net.prefix_len) as nat) == ip.bits() / vstd::arithmetic::power2::pow2(
        (ip.width() - net.prefix_len) as nat,
    )
}

impl IpNet {
    #[verifier::type_invariant]
    spec fn prefix_fits(&self) -> bool {
        self.prefix_len <= self.addr.width()
    }

    /// The network of `addr` with `prefix_len` leading bits; `None` where the family has fewer
    /// bits than that.
    pub fn new(addr: IpAddress, prefix_len: u8) -> (net: Option<IpNet>)
        ensures
            net is Some <==> prefix_len <= addr.width(),
            net matches Some(n) ==> n@ == (NetView { addr, prefix_len: prefix_len as nat }),
    {
        let width: u8 = match addr {
            IpAddress::V4(_) => 32,
            IpAddress::V6(_) => 128,
        };
        if prefix_len <= width {
            Some(IpNet { addr, prefix_len })
        } else {
            None
        }
    }

    /// Whether `ip` lies in this network.
    pub fn contains(&self, ip: IpAddress) -> (yes: bool)
        ensures
            yes == covers(self@, ip),
    {
        proof {
            use_type_invariant(self);
        }
        net_contains(self.addr, self.prefix_len, ip)
    }
}

/// `ipnet::IpNet::contains`: an address is in a network exactly when it lies between the
/// network's first and last address, which agree with it on the leading `prefix_len` bits; an
/// address of the other family never is.
#[verifier::external_body]
fn net_contains(addr: IpAddress, prefix_len: u8, ip: IpAddress) -> (yes: bool)
    requires
        prefix_len <= addr.width(),
    ensures
        yes == covers(NetView { addr, prefix_len: prefix_len as nat }, ip),
{
    let convert = |ip: IpAddress|
        match ip {
            IpAddress::V4(b) => core::net::IpAddr::V4(b.into()),
            IpAddress::V6(b) => core::net::IpAddr::V6(b.into()),
        };
    ipnet::IpNet::new_assert(convert(addr), prefix_len).contains(&convert(ip))
}

} // verus!
