use mediator::net::{format_ip, format_socket, IpAddress, SocketAddress};

#[test]
fn dotted_decimal() {
    assert_eq!(format_ip(IpAddress::V4(0x7f00_0001)), "127.0.0.1");
    assert_eq!(format_ip(IpAddress::V4(0)), "0.0.0.0");
    assert_eq!(format_ip(IpAddress::V4(u32::MAX)), "255.255.255.255");
}

#[test]
fn ipv6_is_abbreviated() {
    assert_eq!(format_ip(IpAddress::V6(1)), "::1");
    assert_eq!(format_ip(IpAddress::V6(0x2001_0db8 << 96 | 0xa)), "2001:db8::a");
}

#[test]
fn socket_addresses() {
    let v4 = SocketAddress { ip: IpAddress::V4(0x0a00_0001), port: 65535, scope_id: 0 };
    assert_eq!(format_socket(v4), "10.0.0.1:65535");
    let v6 = SocketAddress { ip: IpAddress::V6(1), port: 0, scope_id: 0 };
    assert_eq!(format_socket(v6), "[::1]:0");
    let scoped = SocketAddress { ip: IpAddress::V6(1), port: 80, scope_id: 7 };
    assert_eq!(format_socket(scoped), "[::1%7]:80");
}

#[test]
fn unspecified_addresses() {
    assert!(IpAddress::V4(0).is_unspecified());
    assert!(IpAddress::V6(0).is_unspecified());
    assert!(!IpAddress::V4(1).is_unspecified());
}
