use std::time::Duration;
use zaprett::config::Params;
use zaprett::flags::{BindFix, WindowSizeCutoff};
use zaprett::params::{AutoTTL, ConnTrackTimeouts, SynackSplit, WindowSize};

#[test]
fn params_defaults() {
    let p = Params::builder().build().unwrap();
    assert!(p.bind_fix().is_none());
    assert!(p.queue().is_none());
    let t = p.connection_tracker_timeouts();
    assert_eq!(t.syn, Duration::from_secs(60));
    assert_eq!(t.established, Duration::from_secs(300));
    assert_eq!(t.fin, Duration::from_secs(60));
    assert_eq!(t.udp, Some(Duration::from_secs(60)));
    assert!(p.window_size().is_none());
    assert!(p.window_size_cutoff().is_none());
    assert!(*p.window_size_forced_cutoff());
    assert!(!*p.connection_tracker());
    assert!(p.ipcache_lifetime().is_none());
    assert!(*p.ipcache_hostname());
    assert!(p.synack_split().is_none());
    assert!(p.modified_tll().is_none());
    assert!(p.modified_ttl_ip_v6().is_none());
    assert_eq!(
        format!("{:?}", p.modified_auto_ttl()),
        "AutoTTL { delta: 5, min: Some(3), max: Some(64) }"
    );
    assert_eq!(
        format!("{:?}", p.modifier_auto_ttl_ip_v6()),
        "AutoTTL { delta: 5, min: Some(3), max: Some(64) }"
    );
    assert!(p.user().is_none());
    assert!(p.uid().is_none());
    assert!(p.gid().is_none());
}

#[test]
fn params_given_values_are_kept() {
    let p = Params::builder()
        .bind_fix(BindFix::v1())
        .queue(200)
        .connection_tracker_timeouts(ConnTrackTimeouts::new(
            Duration::from_secs(5),
            Duration::from_secs(6),
            Duration::from_secs(7),
            None,
        ))
        .window_size(WindowSize::size(10))
        .window_size_cutoff((WindowSizeCutoff::data_packets(), 4))
        .window_size_forced_cutoff(false)
        .connection_tracker(true)
        .ipcache_lifetime(Duration::from_secs(30))
        .ipcache_hostname(false)
        .synack_split(SynackSplit::AckSyn)
        .modified_tll(64)
        .modified_ttl_ip_v6(65)
        .user("nobody".to_string())
        .uid(1000)
        .gid(1001)
        .build()
        .unwrap();
    assert_eq!(p.bind_fix().map(|f| f.bits()), Some(2));
    assert_eq!(*p.queue(), Some(200));
    assert_eq!(p.connection_tracker_timeouts().fin, Duration::from_secs(7));
    assert_eq!(p.connection_tracker_timeouts().udp, None);
    assert_eq!(p.window_size().map(|w| (w.size, w.scale_factor)), Some((10, Some(0))));
    assert_eq!(p.window_size_cutoff().map(|(f, n)| (f.bits(), n)), Some((4, 4)));
    assert!(!*p.window_size_forced_cutoff());
    assert!(*p.connection_tracker());
    assert_eq!(*p.ipcache_lifetime(), Some(Duration::from_secs(30)));
    assert!(!*p.ipcache_hostname());
    assert_eq!(format!("{:?}", p.synack_split()), "Some(AckSyn)");
    assert_eq!(*p.modified_tll(), Some(64));
    assert_eq!(*p.modified_ttl_ip_v6(), Some(65));
    assert_eq!(p.user().as_deref(), Some("nobody"));
    assert_eq!(*p.uid(), Some(1000));
    assert_eq!(*p.gid(), Some(1001));
}

#[test]
fn ipv6_auto_ttl_follows_ipv4_auto_ttl() {
    let p = Params::builder().modified_auto_ttl(AutoTTL::new(2, None, Some(20))).build().unwrap();
    assert_eq!(format!("{:?}", p.modified_auto_ttl()), "AutoTTL { delta: 2, min: None, max: Some(20) }");
    assert_eq!(
        format!("{:?}", p.modifier_auto_ttl_ip_v6()),
        "AutoTTL { delta: 2, min: None, max: Some(20) }"
    );
}

#[test]
fn ipv6_auto_ttl_given_is_kept() {
    let p = Params::builder()
        .modified_auto_ttl(AutoTTL::new(2, None, None))
        .modifier_auto_ttl_ip_v6(AutoTTL::new(9, Some(1), None))
        .build()
        .unwrap();
    assert_eq!(format!("{:?}", p.modifier_auto_ttl_ip_v6()), "AutoTTL { delta: 9, min: Some(1), max: None }");
}

#[test]
fn params_builder_mut_setters() {
    let mut b = Params::builder();
    b.queue_mut(7).uid_mut(3).connection_tracker_mut(true);
    b.queue_mut(8);
    let p = b.build().unwrap();
    assert_eq!(*p.queue(), Some(8));
    assert_eq!(*p.uid(), Some(3));
    assert!(*p.connection_tracker());
}
