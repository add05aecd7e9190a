use zaprett::flags::{BindFix, WindowSizeCutoff};

#[test]
fn bind_fix_bits() {
    assert_eq!(BindFix::v1().bits(), 2);
    assert_eq!(BindFix::v2().bits(), 4);
    assert_eq!(BindFix::all().bits(), 6);
    assert_eq!(BindFix::empty().bits(), 0);
    assert!(BindFix::empty().is_empty());
}

#[test]
fn bind_fix_from_bits() {
    assert_eq!(BindFix::from_bits(6).map(|f| f.bits()), Some(6));
    assert!(BindFix::from_bits(1).is_none());
    assert_eq!(BindFix::from_bits_truncate(0xff).bits(), 6);
}

#[test]
fn bind_fix_set_operations() {
    let both = BindFix::v1().union(BindFix::v2());
    assert!(both.contains(BindFix::v1()));
    assert!(both.contains(BindFix::v2()));
    assert!(!BindFix::v1().contains(BindFix::v2()));
    assert!(!BindFix::v1().intersects(BindFix::v2()));
    assert_eq!(both.intersection(BindFix::v2()).bits(), 4);
    let mut f = BindFix::empty();
    f.insert(BindFix::v2());
    assert!(f.contains(BindFix::v2()));
    f.remove(BindFix::v2());
    assert!(f.is_empty());
}

#[test]
fn window_size_cutoff_flags() {
    assert_eq!(WindowSizeCutoff::outgoint_packets().bits(), 2);
    assert_eq!(WindowSizeCutoff::data_packets().bits(), 4);
    assert_eq!(WindowSizeCutoff::relative_sequences().bits(), 8);
    assert_eq!(WindowSizeCutoff::all().bits(), 14);
    let f = WindowSizeCutoff::data_packets().union(WindowSizeCutoff::relative_sequences());
    assert_eq!(f.bits(), 12);
    assert!(WindowSizeCutoff::from_bits(16).is_none());
    assert_eq!(WindowSizeCutoff::from_bits_truncate(0x1f).bits(), 14);
}
