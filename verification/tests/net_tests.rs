use colorcmd::net::MULTICAST_PORT;
use colorcmd::net::V4Addr;
use colorcmd::net::multicast_group;
use colorcmd::net::send_targets;

fn addr(a: u8, b: u8, c: u8, d: u8) -> V4Addr {
    V4Addr { a, b, c, d }
}

#[test]
fn loopback_addresses_are_skipped() {
    let addrs = vec![
        addr(127, 0, 0, 1),
        addr(192, 168, 1, 10),
        addr(127, 1, 2, 3),
        addr(10, 0, 0, 2),
    ];
    let targets = send_targets(&addrs);
    assert_eq!(targets, vec![addr(192, 168, 1, 10), addr(10, 0, 0, 2)]);
}

#[test]
fn one_target_per_non_loopback_address_in_order() {
    let addrs = vec![
        addr(192, 168, 1, 10),
        addr(172, 16, 0, 1),
        addr(10, 0, 0, 2),
    ];
    let targets = send_targets(&addrs);
    assert_eq!(targets.len(), 3);
    assert_eq!(targets, addrs);
}

#[test]
fn only_loopback_means_no_targets() {
    let addrs = vec![addr(127, 0, 0, 1), addr(127, 255, 255, 255)];
    assert_eq!(send_targets(&addrs), vec![]);
}

#[test]
fn no_addresses_means_no_targets() {
    assert_eq!(send_targets(&vec![]), vec![]);
}

#[test]
fn is_loopback_looks_only_at_the_first_octet() {
    assert!(addr(127, 0, 0, 1).is_loopback());
    assert!(addr(127, 200, 4, 9).is_loopback());
    assert!(!addr(126, 0, 0, 1).is_loopback());
    assert!(!addr(192, 168, 127, 127).is_loopback());
}

#[test]
fn multicast_destination_is_fixed() {
    assert_eq!(multicast_group(), addr(239, 3, 6, 9));
    assert_eq!(MULTICAST_PORT, 3690);
}
