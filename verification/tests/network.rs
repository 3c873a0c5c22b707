use patr_auth::network::any_network_contains;
use patr_auth::network::IpAddress;
use patr_auth::network::IpNetwork;

fn v4(a: u8, b: u8, c: u8, d: u8) -> IpAddress {
    IpAddress::V4(u32::from_be_bytes([a, b, c, d]))
}

#[test]
fn a_network_is_made_only_with_a_prefix_that_fits() {
    assert_eq!(
        IpNetwork::new(v4(10, 0, 0, 0), 32),
        Some(IpNetwork { address: v4(10, 0, 0, 0), prefix: 32 })
    );
    assert_eq!(IpNetwork::new(v4(10, 0, 0, 0), 33), None);
    assert_eq!(
        IpNetwork::new(IpAddress::V6(1), 128),
        Some(IpNetwork { address: IpAddress::V6(1), prefix: 128 })
    );
    assert_eq!(IpNetwork::new(IpAddress::V6(1), 129), None);
    assert_eq!(
        IpNetwork::new(IpAddress::V6(1), 0),
        Some(IpNetwork { address: IpAddress::V6(1), prefix: 0 })
    );
}

#[test]
fn an_ipv4_network_holds_the_addresses_under_its_prefix() {
    let net = IpNetwork::new(v4(127, 0, 0, 0), 24).unwrap();
    assert!(net.contains(v4(127, 0, 0, 1)));
    assert!(net.contains(v4(127, 0, 0, 70)));
    assert!(net.contains(v4(127, 0, 0, 255)));
    assert!(!net.contains(v4(127, 0, 1, 70)));
    assert!(!net.contains(v4(172, 0, 0, 1)));
    assert!(!net.contains(IpAddress::V6(1)));
    assert!(!net.contains(IpAddress::V6(0x7f00_0001)));
}

#[test]
fn the_host_bits_of_a_network_address_do_not_count() {
    let net = IpNetwork::new(v4(192, 168, 1, 77), 16).unwrap();
    assert!(net.contains(v4(192, 168, 200, 3)));
    assert!(!net.contains(v4(192, 169, 1, 77)));
    let odd = IpNetwork::new(v4(10, 0, 0, 0), 9).unwrap();
    assert!(odd.contains(v4(10, 127, 255, 255)));
    assert!(!odd.contains(v4(10, 128, 0, 0)));
}

#[test]
fn the_widest_and_the_narrowest_ipv4_networks() {
    let all = IpNetwork::new(v4(1, 2, 3, 4), 0).unwrap();
    assert!(all.contains(v4(0, 0, 0, 0)));
    assert!(all.contains(v4(255, 255, 255, 255)));
    assert!(!all.contains(IpAddress::V6(0)));
    let one = IpNetwork::new(v4(1, 2, 3, 4), 32).unwrap();
    assert!(one.contains(v4(1, 2, 3, 4)));
    assert!(!one.contains(v4(1, 2, 3, 5)));
    assert!(!one.contains(v4(129, 2, 3, 4)));
}

#[test]
fn an_ipv6_network_holds_the_addresses_under_its_prefix() {
    let net = IpNetwork::new(IpAddress::V6(0xff01 << 112), 32).unwrap();
    assert!(net.contains(IpAddress::V6((0xff01 << 112) | 1)));
    assert!(net.contains(IpAddress::V6((0xff01 << 112) | (0xffff_ffff_ffff << 48))));
    assert!(!net.contains(IpAddress::V6((0xffff << 112) | 1)));
    assert!(!net.contains(IpAddress::V6((0xff01 << 112) | (1 << 96))));
    assert!(!net.contains(v4(255, 1, 0, 0)));
    let odd = IpNetwork::new(IpAddress::V6(0xfe80 << 112), 10).unwrap();
    assert!(odd.contains(IpAddress::V6(0xfebf << 112)));
    assert!(!odd.contains(IpAddress::V6(0xfec0 << 112)));
}

#[test]
fn the_widest_and_the_narrowest_ipv6_networks() {
    let all = IpNetwork::new(IpAddress::V6(5), 0).unwrap();
    assert!(all.contains(IpAddress::V6(0)));
    assert!(all.contains(IpAddress::V6(u128::MAX)));
    assert!(!all.contains(v4(0, 0, 0, 5)));
    let one = IpNetwork::new(IpAddress::V6(5), 128).unwrap();
    assert!(one.contains(IpAddress::V6(5)));
    assert!(!one.contains(IpAddress::V6(4)));
    assert!(!one.contains(IpAddress::V6(5 | (1 << 127))));
}

#[test]
fn a_network_with_a_prefix_that_does_not_fit_holds_nothing() {
    let broken = IpNetwork { address: v4(10, 0, 0, 0), prefix: 40 };
    assert!(!broken.contains(v4(10, 0, 0, 0)));
    let broken = IpNetwork { address: IpAddress::V6(0), prefix: 200 };
    assert!(!broken.contains(IpAddress::V6(0)));
}

#[test]
fn an_allow_list_lets_through_what_one_of_its_networks_holds() {
    let list = vec![
        IpNetwork::new(v4(10, 0, 0, 0), 8).unwrap(),
        IpNetwork::new(v4(192, 168, 0, 0), 16).unwrap(),
        IpNetwork::new(IpAddress::V6(1), 128).unwrap(),
    ];
    assert!(any_network_contains(&list, v4(10, 9, 8, 7)));
    assert!(any_network_contains(&list, v4(192, 168, 3, 4)));
    assert!(any_network_contains(&list, IpAddress::V6(1)));
    assert!(!any_network_contains(&list, v4(11, 0, 0, 0)));
    assert!(!any_network_contains(&list, IpAddress::V6(2)));
    assert!(!any_network_contains(&vec![], v4(10, 0, 0, 1)));
}
