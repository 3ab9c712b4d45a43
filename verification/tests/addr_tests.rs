use tcpao_proxy::addr::{IpAddress, SocketAddress};
use tcpao_proxy::text::{
    append_decimal, append_hex, char_is_white_space, char_to_lower, lower_equals, strip_prefix,
    trim,
};

fn v6(groups: [u16; 8]) -> IpAddress {
    IpAddress::V6(groups.iter().fold(0u128, |bits, group| (bits << 16) | u128::from(*group)))
}

fn decimal(n: u64) -> String {
    let mut out = String::new();
    append_decimal(&mut out, n);
    out
}

fn hex(n: u64) -> String {
    let mut out = String::new();
    append_hex(&mut out, n);
    out
}

#[test]
fn decimal_numerals() {
    assert_eq!(decimal(0), "0");
    assert_eq!(decimal(9), "9");
    assert_eq!(decimal(10), "10");
    assert_eq!(decimal(1790), "1790");
    assert_eq!(decimal(65535), "65535");
    assert_eq!(decimal(u64::MAX), "18446744073709551615");
    let mut out = "port ".to_string();
    append_decimal(&mut out, 80);
    assert_eq!(out, "port 80");
}

#[test]
fn hexadecimal_numerals() {
    assert_eq!(hex(0), "0");
    assert_eq!(hex(10), "a");
    assert_eq!(hex(15), "f");
    assert_eq!(hex(16), "10");
    assert_eq!(hex(0xdb8), "db8");
    assert_eq!(hex(0xffff), "ffff");
    assert_eq!(hex(u64::MAX), "ffffffffffffffff");
}

#[test]
fn white_space_is_the_unicode_property() {
    let spaces = [
        '\t', '\n', '\u{b}', '\u{c}', '\r', ' ', '\u{85}', '\u{a0}', '\u{1680}', '\u{2000}',
        '\u{2005}', '\u{200a}', '\u{2028}', '\u{2029}', '\u{202f}', '\u{205f}', '\u{3000}',
    ];
    for c in spaces {
        assert!(char_is_white_space(c));
    }
    for c in ['a', '0', '\u{8}', '\u{e}', '\u{1f}', '\u{200b}', '\u{180e}', '\u{feff}', '\u{2060}'] {
        assert!(!char_is_white_space(c));
    }
    for code in 0..0x3100u32 {
        if let Some(c) = char::from_u32(code) {
            assert_eq!(char_is_white_space(c), c.is_whitespace());
        }
    }
}

#[test]
fn trim_agrees_with_the_standard_library() {
    for text in [
        "",
        " ",
        "a",
        " a",
        "a ",
        "  a b  ",
        "\t\nhmac-sha1\r\n",
        "\u{a0}x\u{3000}",
        "\u{200b} x",
        " \u{e9}t\u{e9} ",
    ] {
        assert_eq!(trim(text), text.trim());
    }
}

#[test]
fn lower_case_folds_ascii_only() {
    assert_eq!(char_to_lower('A'), 'a');
    assert_eq!(char_to_lower('Z'), 'z');
    assert_eq!(char_to_lower('a'), 'a');
    assert_eq!(char_to_lower('@'), '@');
    assert_eq!(char_to_lower('['), '[');
    assert_eq!(char_to_lower('\u{c9}'), '\u{c9}');
    assert!(lower_equals("HMAC-SHA1", "hmac-sha1"));
    assert!(lower_equals("hmac-sha1", "hmac-sha1"));
    assert!(!lower_equals("hmac-sha1", "HMAC-SHA1"));
    assert!(!lower_equals("hmac-sha", "hmac-sha1"));
    assert!(!lower_equals("hmac-sha12", "hmac-sha1"));
    assert!(lower_equals("", ""));
    assert!(!lower_equals("\u{c9}", "\u{e9}"));
}

#[test]
fn prefixes_are_split_off() {
    assert_eq!(strip_prefix("file:/a", "file:"), Some("/a"));
    assert_eq!(strip_prefix("file:", "file:"), Some(""));
    assert_eq!(strip_prefix("file", "file:"), None);
    assert_eq!(strip_prefix("File:/a", "file:"), None);
    assert_eq!(strip_prefix("abc", ""), Some("abc"));
    assert_eq!(strip_prefix("\u{e9}t\u{e9}", "\u{e9}"), Some("t\u{e9}"));
}

#[test]
fn ipv4_text() {
    assert_eq!(IpAddress::V4(0x0a00_0002).to_text(), "10.0.0.2");
    assert_eq!(IpAddress::V4(0).to_text(), "0.0.0.0");
    assert_eq!(IpAddress::V4(u32::MAX).to_text(), "255.255.255.255");
    assert_eq!(IpAddress::V4(0x7f00_0001).to_text(), "127.0.0.1");
    assert_eq!(IpAddress::V4(0xc0a8_0164).to_text(), "192.168.1.100");
}

#[test]
fn ipv6_text_shortens_the_longest_run_of_zeros() {
    assert_eq!(IpAddress::V6(0).to_text(), "::");
    assert_eq!(IpAddress::V6(1).to_text(), "::1");
    assert_eq!(v6([0x2001, 0xdb8, 0, 0, 0, 0, 0, 1]).to_text(), "2001:db8::1");
    assert_eq!(v6([0xfe80, 0, 0, 0, 0, 0, 0, 0]).to_text(), "fe80::");
    assert_eq!(v6([1, 0, 0, 2, 0, 0, 0, 3]).to_text(), "1:0:0:2::3");
    assert_eq!(v6([1, 0, 0, 0, 2, 0, 0, 3]).to_text(), "1::2:0:0:3");
    assert_eq!(v6([1, 0, 0, 2, 0, 0, 3, 4]).to_text(), "1::2:0:0:3:4");
    assert_eq!(v6([1, 2, 3, 0, 5, 6, 7, 8]).to_text(), "1:2:3:0:5:6:7:8");
    assert_eq!(v6([0, 2, 3, 4, 5, 6, 7, 8]).to_text(), "0:2:3:4:5:6:7:8");
    assert_eq!(v6([1, 2, 3, 4, 5, 6, 7, 0]).to_text(), "1:2:3:4:5:6:7:0");
    assert_eq!(v6([1, 2, 3, 4, 5, 6, 0, 0]).to_text(), "1:2:3:4:5:6::");
    assert_eq!(v6([0, 0, 3, 4, 5, 6, 7, 8]).to_text(), "::3:4:5:6:7:8");
    assert_eq!(
        v6([0xffff, 0xffff, 0xffff, 0xffff, 0xffff, 0xffff, 0xffff, 0xffff]).to_text(),
        "ffff:ffff:ffff:ffff:ffff:ffff:ffff:ffff"
    );
    assert_eq!(
        v6([0x2001, 0x0db8, 0x85a3, 0x0008, 0x00d3, 0x8a2e, 0x0370, 0x7334]).to_text(),
        "2001:db8:85a3:8:d3:8a2e:370:7334"
    );
}

#[test]
fn ipv6_text_of_mapped_ipv4() {
    assert_eq!(v6([0, 0, 0, 0, 0, 0xffff, 0x0a00, 0x0002]).to_text(), "::ffff:10.0.0.2");
    assert_eq!(v6([0, 0, 0, 0, 0, 0xffff, 0, 0]).to_text(), "::ffff:0.0.0.0");
    assert_eq!(v6([0, 0, 0, 0, 0, 0, 0x0a00, 0x0002]).to_text(), "::a00:2");
    assert_eq!(v6([0, 0, 0, 0, 1, 0xffff, 0x0a00, 0x0002]).to_text(), "::1:ffff:a00:2");
}

#[test]
fn socket_address_text() {
    assert_eq!(
        SocketAddress::V4 { ip: 0x0a00_0002, port: 1790 }.to_text(),
        "10.0.0.2:1790"
    );
    assert_eq!(SocketAddress::new(IpAddress::V4(0), 0).to_text(), "0.0.0.0:0");
    assert_eq!(SocketAddress::new(IpAddress::V6(1), 80).to_text(), "[::1]:80");
    assert_eq!(
        SocketAddress::V6 { ip: 1, port: 80, flowinfo: 9, scope_id: 0 }.to_text(),
        "[::1]:80"
    );
    assert_eq!(
        SocketAddress::V6 {
            ip: 0xfe80_0000_0000_0000_0000_0000_0000_0001,
            port: 65535,
            flowinfo: 0,
            scope_id: 3
        }
        .to_text(),
        "[fe80::1%3]:65535"
    );
}

#[test]
fn socket_address_parts() {
    let four = SocketAddress::new(IpAddress::V4(7), 9);
    assert_eq!(four, SocketAddress::V4 { ip: 7, port: 9 });
    assert_eq!(four.get_ip(), IpAddress::V4(7));
    assert_eq!(four.get_port(), 9);
    let six = SocketAddress::new(IpAddress::V6(7), 9);
    assert_eq!(six, SocketAddress::V6 { ip: 7, port: 9, flowinfo: 0, scope_id: 0 });
    assert_eq!(six.get_ip(), IpAddress::V6(7));
    assert_eq!(six.get_port(), 9);
}

#[test]
fn address_kinds() {
    assert!(IpAddress::V4(1).is_ipv4());
    assert!(!IpAddress::V4(1).is_ipv6());
    assert!(IpAddress::V6(1).is_ipv6());
    assert!(!IpAddress::V6(1).is_ipv4());
    assert!(IpAddress::V4(0).is_unspecified());
    assert!(IpAddress::V6(0).is_unspecified());
    assert!(!IpAddress::V4(1).is_unspecified());
    assert!(!IpAddress::V6(1 << 127).is_unspecified());
    assert_ne!(IpAddress::V4(0), IpAddress::V6(0));
}
