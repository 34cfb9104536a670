use rax_ftp_server::net::{host_port_to_string, ip_to_string, socket_to_string, IpAddress, SocketAddress};

fn v6(segments: [u16; 8]) -> IpAddress {
    let mut v: u128 = 0;
    for s in segments {
        v = (v << 16) | s as u128;
    }
    IpAddress::V6(v)
}

#[test]
fn ipv4_text() {
    assert_eq!(ip_to_string(IpAddress::V4(0x7f000001)), "127.0.0.1");
    assert_eq!(ip_to_string(IpAddress::V4(0)), "0.0.0.0");
    assert_eq!(ip_to_string(IpAddress::V4(u32::MAX)), "255.255.255.255");
    assert_eq!(socket_to_string(SocketAddress::v4(10, 1, 2, 3, 2121)), "10.1.2.3:2121");
}

#[test]
fn ipv6_text() {
    let cases: [([u16; 8], &str); 12] = [
        ([0, 0, 0, 0, 0, 0, 0, 0], "::"),
        ([0, 0, 0, 0, 0, 0, 0, 1], "::1"),
        ([1, 0, 0, 0, 0, 0, 0, 0], "1::"),
        ([0x2001, 0xdb8, 0, 0, 0, 0, 0, 1], "2001:db8::1"),
        ([0x2001, 0xdb8, 0, 0, 1, 0, 0, 1], "2001:db8::1:0:0:1"),
        ([0xfe80, 0, 0, 0, 1, 2, 3, 4], "fe80::1:2:3:4"),
        ([1, 2, 3, 4, 5, 6, 7, 8], "1:2:3:4:5:6:7:8"),
        ([1, 0, 3, 4, 5, 6, 7, 8], "1:0:3:4:5:6:7:8"),
        ([0, 0, 0, 0, 0, 0xffff, 0xc000, 0x201], "::ffff:192.0.2.1"),
        ([0, 0, 0, 0, 0, 0, 0xc000, 0x201], "::c000:201"),
        ([0, 0, 0, 1, 0, 0, 0, 0], "0:0:0:1::"),
        ([0xabcd, 0xef01, 0x2345, 0x6789, 0xabcd, 0xef01, 0x2345, 0x6789], "abcd:ef01:2345:6789:abcd:ef01:2345:6789"),
    ];
    for (segs, text) in cases {
        assert_eq!(ip_to_string(v6(segs)), text);
    }
}

#[test]
fn ipv6_socket_text() {
    let a = v6([0xfe80, 0, 0, 0, 0, 0, 0, 1]);
    let plain = SocketAddress { ip: a, port: 21, flowinfo: 0, scope_id: 0 };
    assert_eq!(socket_to_string(plain), "[fe80::1]:21");
    let scoped = SocketAddress { ip: a, port: 8080, flowinfo: 0, scope_id: 3 };
    assert_eq!(socket_to_string(scoped), "[fe80::1%3]:8080");
}

#[test]
fn passive_host_port_text() {
    assert_eq!(host_port_to_string(SocketAddress::v4(127, 0, 0, 1, 2127)), "127,0,0,1,8,79");
    assert_eq!(host_port_to_string(SocketAddress::v4(192, 168, 1, 20, 65535)), "192,168,1,20,255,255");
    assert_eq!(host_port_to_string(SocketAddress::v4(10, 0, 0, 1, 0)), "10,0,0,1,0,0");
}
