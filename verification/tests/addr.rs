use nat_puncher::addr::{narrow_port, parse_ip, AddrError, IpAddress, PublicEndpoint};
use nat_puncher::client::session::parse_addr;

#[test]
fn ipv4_text_is_the_dotted_quad() {
    assert_eq!(IpAddress::V4(127, 0, 0, 1).to_text(), "127.0.0.1");
    assert_eq!(IpAddress::V4(0, 0, 0, 0).to_text(), "0.0.0.0");
    assert_eq!(IpAddress::V4(255, 255, 255, 255).to_text(), "255.255.255.255");
    assert_eq!(IpAddress::V4(192, 168, 10, 9).to_text(), "192.168.10.9");
    assert_eq!(IpAddress::V4(1, 20, 100, 99).to_text(), "1.20.100.99");
}

#[test]
fn ipv4_text_has_no_leading_zeros() {
    for (a, text) in [(0u8, "0"), (1, "1"), (9, "9"), (10, "10"), (99, "99"), (100, "100"), (109, "109"), (255, "255")] {
        assert_eq!(IpAddress::V4(a, 1, 22, a).to_text(), format!("{text}.1.22.{text}"));
    }
}

#[test]
fn ipv6_text_is_bracketed() {
    let ip = IpAddress::V6(0x2001, 0xdb8, 0, 0, 0, 0xff00, 0x42, 0x8329);
    assert_eq!(ip.to_text(), "[2001:db8:0:0:0:ff00:42:8329]");
    assert_eq!(IpAddress::V6(0, 0, 0, 0, 0, 0, 0, 1).to_text(), "[0:0:0:0:0:0:0:1]");
    assert_eq!(
        IpAddress::V6(0xffff, 0xffff, 0xffff, 0xffff, 0xffff, 0xffff, 0xffff, 0xffff).to_text(),
        "[ffff:ffff:ffff:ffff:ffff:ffff:ffff:ffff]"
    );
    assert_eq!(
        IpAddress::V6(0xa, 0xab, 0xabc, 0xabcd, 0x10, 0x100, 0x1000, 0xf).to_text(),
        "[a:ab:abc:abcd:10:100:1000:f]"
    );
}

#[test]
fn text_of_an_address_is_read_back() {
    let addresses = [
        IpAddress::V4(0, 0, 0, 0),
        IpAddress::V4(10, 0, 200, 255),
        IpAddress::V4(255, 100, 99, 9),
        IpAddress::V6(0, 0, 0, 0, 0, 0, 0, 0),
        IpAddress::V6(1, 0x20, 0x300, 0x4000, 0xffff, 0xa0b, 0xc, 0xdef0),
    ];
    for ip in addresses {
        assert_eq!(parse_ip(&ip.to_text()), Ok(ip));
    }
    for a in 0..=255u8 {
        let ip = IpAddress::V4(a, 255 - a, a / 2, a.wrapping_mul(7));
        assert_eq!(parse_ip(&ip.to_text()), Ok(ip));
    }
    for g in [0u16, 1, 0xf, 0x10, 0xff, 0x100, 0xfff, 0x1000, 0xabcd, 0xffff] {
        let ip = IpAddress::V6(g, 0, g, 1, g, 0xffff, g, 0x10);
        assert_eq!(parse_ip(&ip.to_text()), Ok(ip));
    }
}

#[test]
fn other_texts_are_refused() {
    let bad = [
        "",
        ".",
        "1.2.3",
        "1.2.3.4.5",
        "1.2.3.",
        ".1.2.3",
        "1..2.3",
        "256.0.0.1",
        "1.2.3.256",
        "01.2.3.4",
        "1.2.3.04",
        "1.2.3.4 ",
        " 1.2.3.4",
        "1.2.3.4\n",
        "1,2,3,4",
        "a.b.c.d",
        "1.2.3.1000",
        "٣.2.3.4",
        "1.2.3.４",
        "localhost",
        "::1",
        "[::1]",
        "[1:2:3:4:5:6:7]",
        "[1:2:3:4:5:6:7:8:9]",
        "[1:2:3:4:5:6:7:8",
        "1:2:3:4:5:6:7:8]",
        "1:2:3:4:5:6:7:8",
        "[1:2:3:4:5:6:7:8]x",
        "[01:2:3:4:5:6:7:8]",
        "[1:2:3:4:5:6:7:00]",
        "[A:2:3:4:5:6:7:8]",
        "[1:2:3:4:5:6:7:g]",
        "[10000:2:3:4:5:6:7:8]",
        "[1:2:3:4:5:6:7:]",
        "[:2:3:4:5:6:7:8]",
        "[1.2.3.4]",
    ];
    for text in bad {
        assert_eq!(parse_ip(text), Err(AddrError::BadIp), "{text:?}");
    }
}

#[test]
fn ports_above_65535_are_refused() {
    assert_eq!(narrow_port(0), Ok(0));
    assert_eq!(narrow_port(8080), Ok(8080));
    assert_eq!(narrow_port(65535), Ok(65535));
    assert_eq!(narrow_port(65536), Err(AddrError::BadPort));
    assert_eq!(narrow_port(u32::MAX), Err(AddrError::BadPort));
}

#[test]
fn endpoint_is_read_from_text_and_port() {
    assert_eq!(
        parse_addr("127.0.0.1", 8080),
        Ok(PublicEndpoint { ip: IpAddress::V4(127, 0, 0, 1), port: 8080 })
    );
    assert_eq!(
        parse_addr("[0:0:0:0:0:0:0:1]", 65535),
        Ok(PublicEndpoint { ip: IpAddress::V6(0, 0, 0, 0, 0, 0, 0, 1), port: 65535 })
    );
    assert_eq!(parse_addr("127.0.0.1", 65536), Err(AddrError::BadPort));
    assert_eq!(parse_addr("127.0.0", 80), Err(AddrError::BadIp));
    // the address is looked at first
    assert_eq!(parse_addr("nowhere", 70000), Err(AddrError::BadIp));
}
