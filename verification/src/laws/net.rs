//! How addresses are written, and which networks they lie in.

use crate::net::{format_ip, format_socket, IpAddress, IpNet, SocketAddress};
use crate::text::decimal;
use vstd::prelude::*;

verus! {

/// The octets of a number of 32 bits.
proof fn lemma_octets(bits: u32, a: u8, b: u8, c: u8, d: u8)
    requires
        bits == a * 0x100_0000 + b * 0x1_0000 + c * 0x100 + d,
    ensures
        bits / 0x100_0000 == a,
        (bits / 0x1_0000) % 0x100 == b,
        (bits / 0x100) % 0x100 == c,
        bits % 0x100 == d,
{
    assert(bits / 0x100_0000 == a && (bits / 0x1_0000) % 0x100 == b && (bits / 0x100) % 0x100 == c
        && bits % 0x100 == d) by (bit_vector)
        requires
            bits == a * 0x100_0000 + b * 0x1_0000 + c * 0x100 + d,
    ;
}

/// An IPv4 address is written as its four octets, in decimal, with dots between them.
pub proof fn law_octets_stand_between_dots(
    a: u8,
    b: u8,
    c: u8,
    d: u8,
    ip: IpAddress,
    text: String,
    of_a: String,
    of_b: String,
    of_c: String,
    of_d: String,
)
    requires
        ip matches IpAddress::V4(bits) && bits == a * 0x100_0000 + b * 0x1_0000 + c * 0x100 + d,
        call_ensures(format_ip, (ip,), text),
        call_ensures(decimal, (a as u64,), of_a),
        call_ensures(decimal, (b as u64,), of_b),
        call_ensures(decimal, (c as u64,), of_c),
        call_ensures(decimal, (d as u64,), of_d),
    ensures
        text@ == of_a@ + "."@ + of_b@ + "."@ + of_c@ + "."@ + of_d@,
{
    lemma_octets(ip->V4_0, a, b, c, d);
}

/// An IPv6 address is written as `Ipv6Addr` displays it.
pub proof fn law_ipv6_is_written_as_it_is_displayed(ip: IpAddress, text: String)
    requires
        call_ensures(format_ip, (ip,), text),
    ensures
        ip matches IpAddress::V6(bits) ==> text@ == crate::net::ipv6_text(bits),
{
}

/// A socket address is written as its address, a colon, and its port; an IPv6 address stands in
/// brackets, together with its scope where it has one.
pub proof fn law_ports_stand_behind_the_address(
    a: SocketAddress,
    text: String,
    address: String,
    port: String,
    scope: String,
)
    requires
        call_ensures(format_socket, (a,), text),
        call_ensures(format_ip, (a.ip,), address),
        call_ensures(decimal, (a.port as u64,), port),
        call_ensures(decimal, (a.scope_id as u64,), scope),
    ensures
        a.ip is V4 ==> text@ == address@ + ":"@ + port@,
        a.ip is V6 && a.scope_id == 0 ==> text@ == "["@ + address@ + "]:"@ + port@,
        a.ip is V6 && a.scope_id != 0 ==> text@ == "["@ + address@ + "%"@ + scope@ + "]:"@ + port@,
{
}

/// The wildcard address of a family is the one without any bit.
pub proof fn law_wildcard_has_no_bits(ip: IpAddress, yes: bool)
    requires
        call_ensures(IpAddress::is_unspecified, (&ip,), yes),
    ensures
        ip matches IpAddress::V4(bits) ==> (yes <==> bits == 0),
        ip matches IpAddress::V6(bits) ==> (yes <==> bits == 0),
{
}

/// A network has at most as many leading bits as an address of its family has bits: 32 or 128.
pub proof fn law_prefixes_fit_their_family(addr: IpAddress, prefix_len: u8, net: Option<IpNet>)
    requires
        call_ensures(IpNet::new, (addr, prefix_len), net),
    ensures
        addr is V4 ==> (net is Some <==> prefix_len <= 32),
        addr is V6 ==> (net is Some <==> prefix_len <= 128),
{
}

/// A network holds its own address, and no address of the other family. With all bits leading it
/// holds nothing else, and with none it holds the whole family. With one leading bit more it holds
/// what it held before and agrees on that bit.
pub proof fn law_networks_hold_what_agrees_on_the_leading_bits(
    addr: IpAddress,
    prefix_len: u8,
    net: IpNet,
    wider: IpNet,
    ip: IpAddress,
    yes: bool,
    wider_yes: bool,
)
    requires
        prefix_len > 0,
        call_ensures(IpNet::new, (addr, prefix_len), Some(net)),
        call_ensures(IpNet::new, (addr, (prefix_len - 1) as u8), Some(wider)),
        call_ensures(IpNet::contains, (&net, ip), yes),
        call_ensures(IpNet::contains, (&wider, ip), wider_yes),
    ensures
        ip == addr ==> yes,
        yes ==> (ip is V4 <==> addr is V4),
        addr is V4 && prefix_len == 32 ==> (yes <==> ip == addr),
        addr is V6 && prefix_len == 128 ==> (yes <==> ip == addr),
        prefix_len == 1 ==> (wider_yes <==> (ip is V4 <==> addr is V4)),
        yes <==> wider_yes && ({
            let bit = vstd::arithmetic::power2::pow2(
                (if addr is V4 {
                    32 - prefix_len
                } else {
                    128 - prefix_len
                }) as nat,
            );
            (addr.bits() / bit) % 2 == (ip.bits() / bit) % 2
        }),
{
    let shift = (ip.width() - prefix_len) as nat;
    let a = addr.bits() as int;
    let b = ip.bits() as int;
    if ip is V4 <==> addr is V4 {
        let size = vstd::arithmetic::power2::pow2(shift) as int;
        vstd::arithmetic::power2::lemma_pow2_pos(shift);
        vstd::arithmetic::power2::lemma_pow2_unfold(shift + 1);
        assert(a / (2 * size) == (a / size) / 2 && b / (2 * size) == (b / size) / 2) by {
            vstd::arithmetic::div_mod::lemma_div_denominator(a, size, 2);
            vstd::arithmetic::div_mod::lemma_div_denominator(b, size, 2);
            vstd::arithmetic::mul::lemma_mul_is_commutative(size, 2);
        }
        assert((ip.width() - (prefix_len - 1)) as nat == shift + 1);
        if shift == 0 {
            vstd::arithmetic::power2::lemma2_to64();
            assert(a / 1 == a && b / 1 == b);
        }
        if prefix_len == 1 {
            vstd::arithmetic::power2::lemma2_to64();
            vstd::arithmetic::power2::lemma_pow2_adds(64, 64);
            assert(0x1_0000_0000_0000_0000 * 0x1_0000_0000_0000_0000
                == 0x1_0000_0000_0000_0000_0000_0000_0000_0000);
            let whole = vstd::arithmetic::power2::pow2(ip.width()) as int;
            assert(0 <= a < whole && 0 <= b < whole);
            vstd::arithmetic::div_mod::lemma_basic_div(a, whole);
            vstd::arithmetic::div_mod::lemma_basic_div(b, whole);
        }
    }
}

} // verus!
