use net2::addr::{
    addr2raw, raw2addr, IpAddr, Ipv4Addr, Ipv6Addr, SocketAddr, SocketAddrV4, SocketAddrV6,
    SOCKADDR_IN6_LEN, SOCKADDR_IN_LEN,
};
use net2::sys::{cvt, peer_addr_from, OsError};
use net2::unix::{
    reuse_port_opt, SetOpt, TcpBuilder, UdpBuilder, UnixTcpBuilderExt, UnixUdpBuilderExt,
    SOL_SOCKET, SO_REUSEPORT,
};

#[test]
fn test_raw_and_back() {
    let addr = SocketAddr::new(IpAddr::V4(Ipv4Addr::new(1, 2, 3, 4)), 56);
    let (raw, raw_len) = addr2raw(&addr);
    let back = raw2addr(&raw, raw_len);
    assert_eq!(addr, back);

    let addr = SocketAddr::new(IpAddr::V6(Ipv6Addr::new(1, 2, 3, 4, 5, 6, 7, 8)), 56);
    let (raw, raw_len) = addr2raw(&addr);
    let back = raw2addr(&raw, raw_len);
    assert_eq!(addr, back);
}

#[test]
fn ipv4_native_bytes() {
    let addr = SocketAddr::new(IpAddr::V4(Ipv4Addr::new(1, 2, 3, 4)), 56);
    let (raw, raw_len) = addr2raw(&addr);
    assert_eq!(raw_len, 16);
    assert_eq!(raw, vec![2, 0, 0, 56, 1, 2, 3, 4, 0, 0, 0, 0, 0, 0, 0, 0]);
}

#[test]
fn ipv6_native_bytes() {
    let ip = Ipv6Addr::new(1, 2, 3, 4, 5, 6, 7, 0x1234);
    let addr = SocketAddr::V6(SocketAddrV6::new(ip, 0x1f90, 0x01020304, 7));
    let (raw, raw_len) = addr2raw(&addr);
    assert_eq!(raw_len, 28);
    assert_eq!(
        raw,
        vec![
            10, 0, 0x1f, 0x90, 4, 3, 2, 1, 0, 1, 0, 2, 0, 3, 0, 4, 0, 5, 0, 6, 0, 7, 0x12, 0x34, 7,
            0, 0, 0
        ]
    );
}

#[test]
fn ipv6_round_trip_keeps_flowinfo_and_scope() {
    let ip = Ipv6Addr::new(0xfe80, 0, 0, 0, 0xffff, 0xabcd, 0x10, 0xffff);
    let addr = SocketAddr::V6(SocketAddrV6::new(ip, 65535, 0xffff_ffff, 0x8000_0001));
    let (raw, raw_len) = addr2raw(&addr);
    assert_eq!(raw2addr(&raw, raw_len), addr);
}

#[test]
fn ipv4_round_trip_edges() {
    for port in [0u16, 1, 255, 256, 65535] {
        let addr = SocketAddr::V4(SocketAddrV4::new(Ipv4Addr::new(255, 0, 128, 1), port));
        let (raw, raw_len) = addr2raw(&addr);
        assert_eq!(raw2addr(&raw, raw_len), addr);
    }
}

#[test]
fn encoded_lengths_differ() {
    let v4 = SocketAddr::new(IpAddr::V4(Ipv4Addr::new(127, 0, 0, 1)), 80);
    let v6 = SocketAddr::new(IpAddr::V6(Ipv6Addr::new(0, 0, 0, 0, 0, 0, 0, 1)), 80);
    assert_eq!(addr2raw(&v4).1, SOCKADDR_IN_LEN);
    assert_eq!(addr2raw(&v6).1, SOCKADDR_IN6_LEN);
    assert_ne!(SOCKADDR_IN_LEN, SOCKADDR_IN6_LEN);
}

#[test]
fn decode_reads_a_longer_buffer_by_length() {
    let mut buf = vec![2u8, 0, 0x01, 0xbb, 10, 0, 0, 1, 0, 0, 0, 0, 0, 0, 0, 0];
    buf.resize(128, 0xee);
    let addr = raw2addr(&buf, 16);
    assert_eq!(addr, SocketAddr::new(IpAddr::V4(Ipv4Addr::new(10, 0, 0, 1)), 443));
    assert_eq!(addr.port(), 443);
    assert_eq!(addr.ip(), IpAddr::V4(Ipv4Addr::new(10, 0, 0, 1)));
}

#[test]
fn ipv6_segments_are_network_order() {
    let ip = Ipv6Addr::new(0x2001, 0xdb8, 0, 0, 0, 0, 0, 0x1);
    assert_eq!(
        ip.octets(),
        [0x20, 0x01, 0x0d, 0xb8, 0, 0, 0, 0, 0, 0, 0, 0, 0, 0, 0, 1]
    );
    assert_eq!(Ipv4Addr::new(192, 168, 0, 1).octets(), [192, 168, 0, 1]);
}

#[test]
fn new_v6_has_zero_flowinfo_and_scope() {
    let ip = Ipv6Addr::new(1, 2, 3, 4, 5, 6, 7, 8);
    let addr = SocketAddr::new(IpAddr::V6(ip), 56);
    assert_eq!(addr, SocketAddr::V6(SocketAddrV6::new(ip, 56, 0, 0)));
}

#[test]
fn cvt_keeps_success_values() {
    assert_eq!(cvt(0, 0), Ok(0));
    assert_eq!(cvt(7, 99), Ok(7));
    assert_eq!(cvt(-2, 99), Ok(-2));
}

#[test]
fn cvt_reports_the_error_number() {
    let refused = 111;
    assert_eq!(cvt(-1, refused), Err(OsError::from_raw_os_error(refused)));
    assert_eq!(cvt(-1, refused).unwrap_err().raw_os_error(), refused);
}

#[test]
fn peer_addr_from_failure_and_success() {
    let not_connected = 107;
    let buf = vec![0u8; 128];
    assert_eq!(
        peer_addr_from(-1, not_connected, &buf, 0),
        Err(OsError { code: not_connected })
    );
    let addr = SocketAddr::new(IpAddr::V6(Ipv6Addr::new(1, 2, 3, 4, 5, 6, 7, 8)), 56);
    let (raw, raw_len) = addr2raw(&addr);
    assert_eq!(peer_addr_from(0, 0, &raw, raw_len), Ok(addr));
}

#[test]
fn reuse_port_requests() {
    let tcp = TcpBuilder::new(5);
    let udp = UdpBuilder::new(6);
    assert_eq!(tcp.raw(), 5);
    assert_eq!(udp.raw(), 6);
    assert_eq!(
        tcp.reuse_port(true),
        SetOpt { fd: 5, level: SOL_SOCKET, name: SO_REUSEPORT, value: 1 }
    );
    assert_eq!(
        udp.reuse_port(false),
        SetOpt { fd: 6, level: SOL_SOCKET, name: SO_REUSEPORT, value: 0 }
    );
}

#[test]
fn reuse_port_twice_asks_the_same() {
    let tcp = TcpBuilder::new(3);
    assert_eq!(tcp.reuse_port(true), tcp.reuse_port(true));
    assert_eq!(reuse_port_opt(3, true), tcp.reuse_port(true));
    assert_ne!(tcp.reuse_port(true), tcp.reuse_port(false));
}
