use zaprett::ip::IpAddr;

fn v6(s: [u16; 8]) -> String {
    IpAddr::V6(s).to_string()
}

#[test]
fn ipv4_dotted_decimal() {
    assert_eq!(IpAddr::V4([127, 0, 0, 1]).to_string(), "127.0.0.1");
    assert_eq!(IpAddr::V4([0, 0, 0, 0]).to_string(), "0.0.0.0");
    assert_eq!(IpAddr::V4([255, 255, 255, 255]).to_string(), "255.255.255.255");
    assert_eq!(IpAddr::V4([192, 168, 10, 9]).to_string(), "192.168.10.9");
}

#[test]
fn ipv6_unspecified_and_loopback() {
    assert_eq!(v6([0; 8]), "::");
    assert_eq!(v6([0, 0, 0, 0, 0, 0, 0, 1]), "::1");
    assert_eq!(v6([1, 0, 0, 0, 0, 0, 0, 0]), "1::");
}

#[test]
fn ipv6_compresses_first_longest_zero_run() {
    assert_eq!(v6([0x2001, 0xdb8, 0, 0, 0, 0, 0, 1]), "2001:db8::1");
    assert_eq!(v6([0x2001, 0xdb8, 0, 0, 1, 0, 0, 1]), "2001:db8::1:0:0:1");
    assert_eq!(v6([0x2001, 0, 0, 1, 0, 0, 0, 1]), "2001:0:0:1::1");
    assert_eq!(v6([0xfe80, 0, 0, 0, 0x1, 0x2, 0x3, 0x4]), "fe80::1:2:3:4");
}

#[test]
fn ipv6_single_zero_is_not_compressed() {
    assert_eq!(v6([1, 0, 2, 3, 4, 5, 6, 7]), "1:0:2:3:4:5:6:7");
}

#[test]
fn ipv6_lower_case_hex_without_leading_zeros() {
    assert_eq!(v6([0xabcd, 0xef01, 0x23, 0x4, 0xffff, 0x10, 0xa, 0xb]), "abcd:ef01:23:4:ffff:10:a:b");
}

#[test]
fn ipv6_mapped_ipv4() {
    assert_eq!(v6([0, 0, 0, 0, 0, 0xffff, 0xc000, 0x0280]), "::ffff:192.0.2.128");
    assert_eq!(v6([0, 0, 0, 0, 0, 0xffff, 0, 0]), "::ffff:0.0.0.0");
    assert_eq!(v6([0, 0, 0, 0, 0, 0, 0xc000, 0x0201]), "::c000:201");
}
