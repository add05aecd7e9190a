use std::time::Duration;
use zaprett::bind::{Bind, BindBuildError, RawBind};
use zaprett::ip::IpAddr;
use zaprett::params::{AutoTTL, BindLl, ConnTrackTimeouts, SynackSplit, WindowSize};

#[test]
fn window_size_size_sets_zero_scale() {
    let w = WindowSize::size(1000);
    assert_eq!(w.size, 1000);
    assert_eq!(w.scale_factor, Some(0));
}

#[test]
fn window_size_new_keeps_values() {
    let w = WindowSize::new(64, None);
    assert_eq!(w.size, 64);
    assert_eq!(w.scale_factor, None);
}

#[test]
fn conn_track_timeouts_new_keeps_values() {
    let t = ConnTrackTimeouts::new(
        Duration::from_secs(1),
        Duration::from_secs(2),
        Duration::from_secs(3),
        None,
    );
    assert_eq!(t.syn, Duration::from_secs(1));
    assert_eq!(t.established, Duration::from_secs(2));
    assert_eq!(t.fin, Duration::from_secs(3));
    assert_eq!(t.udp, None);
}

#[test]
fn auto_ttl_new_keeps_values() {
    let t = AutoTTL::new(-2, None, Some(10));
    assert_eq!(format!("{:?}", t), "AutoTTL { delta: -2, min: None, max: Some(10) }");
}

#[test]
fn bind_ll_codes() {
    assert_eq!(BindLl::Unwanted.code(), 0);
    assert_eq!(BindLl::No.code(), 1);
    assert_eq!(BindLl::Prefer.code(), 2);
    assert_eq!(BindLl::Force.code(), 3);
}

#[test]
fn synack_split_variants() {
    let all = [SynackSplit::Sny, SynackSplit::SynAck, SynackSplit::AckSyn];
    assert_eq!(format!("{:?}", all), "[Sny, SynAck, AckSyn]");
}

#[test]
fn bind_build_requires_addr_first() {
    let r = Bind::builder().build();
    assert!(matches!(r, Err(BindBuildError::MissingRequiredValue("addr"))));
}

#[test]
fn bind_build_requires_iface() {
    let r = Bind::builder().addr(IpAddr::V4([10, 0, 0, 1])).ll(BindLl::No).build();
    assert!(matches!(r, Err(BindBuildError::MissingRequiredValue("iface"))));
}

#[test]
fn bind_build_requires_ll() {
    let r = Bind::builder().addr(IpAddr::V4([10, 0, 0, 1])).iface("wlan0".to_string()).build();
    assert!(matches!(r, Err(BindBuildError::MissingRequiredValue("ll"))));
}

#[test]
fn bind_build_defaults_waits_to_zero() {
    let b = Bind::builder()
        .addr(IpAddr::V4([10, 0, 0, 1]))
        .iface("wlan0".to_string())
        .ll(BindLl::Prefer)
        .build()
        .unwrap();
    assert_eq!(*b.addr(), IpAddr::V4([10, 0, 0, 1]));
    assert_eq!(b.iface(), "wlan0");
    assert_eq!(*b.ll(), BindLl::Prefer);
    assert_eq!(*b.wait_ifup(), 0);
    assert_eq!(*b.wait_ip(), 0);
    assert_eq!(*b.wait_ip_ll(), 0);
}

#[test]
fn bind_builder_mut_setters_chain() {
    let mut builder = Bind::builder();
    builder
        .addr_mut(IpAddr::V6([0, 0, 0, 0, 0, 0, 0, 1]))
        .iface_mut("lo".to_string())
        .ll_mut(BindLl::Force)
        .wait_ifup_mut(3)
        .wait_ip_mut(4)
        .wait_ip_ll_mut(5);
    let b = builder.build().unwrap();
    assert_eq!(*b.wait_ifup(), 3);
    assert_eq!(*b.wait_ip(), 4);
    assert_eq!(*b.wait_ip_ll(), 5);
    assert_eq!(*b.ll(), BindLl::Force);
}

#[test]
fn raw_bind_from_bind() {
    let b = Bind::builder()
        .addr(IpAddr::V4([192, 168, 1, 20]))
        .iface("wlan0".to_string())
        .ll(BindLl::No)
        .wait_ip(7)
        .build()
        .unwrap();
    let raw = RawBind::from(b);
    let text = b"192.168.1.20";
    assert_eq!(&raw.bindaddr[..text.len()], text);
    assert!(raw.bindaddr[text.len()..].iter().all(|&x| x == 0));
    assert_eq!(&raw.bindiface[..5], b"wlan0");
    assert!(raw.bindiface[5..].iter().all(|&x| x == 0));
    assert_eq!(raw.bindll, BindLl::No);
    assert_eq!(raw.bind_wait_ifup, 0);
    assert_eq!(raw.bind_wait_ip, 7);
    assert_eq!(raw.bind_wait_ip_ll, 0);
}

#[test]
fn raw_bind_cuts_long_interface_name() {
    let b = Bind::builder()
        .addr(IpAddr::V6([0x2001, 0xdb8, 0, 0, 0, 0, 0, 1]))
        .iface("interface-name-longer-than-sixteen".to_string())
        .ll(BindLl::Unwanted)
        .build()
        .unwrap();
    let raw = RawBind::from(b);
    assert_eq!(&raw.bindiface, b"interface-name-l");
    assert_eq!(&raw.bindaddr[..12], b"2001:db8::1\0");
}
