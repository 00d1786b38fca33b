use nft_image_proxy::ipfilter::IpAddress;
use nft_image_proxy::ipfilter::PrivateNetworkFilter;
use nft_image_proxy::ipfilter::compose_filters;

#[test]
fn test_block_private_1() {
    let private_ip = IpAddress::V4(10, 0, 0, 2);
    assert!(!PrivateNetworkFilter::filter(&Some(vec![private_ip])));
}

#[test]
fn test_block_private_2() {
    // The loopback address `localhost` resolves to.
    let loopback = IpAddress::V4(127, 0, 0, 1);
    assert!(!PrivateNetworkFilter::filter(&Some(vec![loopback])));
}

#[test]
fn test_allow_global() {
    let global_ip1 = IpAddress::V4(8, 8, 8, 8);
    assert!(PrivateNetworkFilter::filter(&Some(vec![global_ip1])));
}

#[test]
fn test_block_private_global_mix() {
    let private_ip1 = IpAddress::V4(172, 16, 10, 14);
    let global_ip1 = IpAddress::V4(8, 8, 8, 8);
    assert!(!PrivateNetworkFilter::filter(&Some(vec![global_ip1, private_ip1])));
}

#[test]
fn test_block_link_local() {
    let link_local = IpAddress::V4(169, 254, 10, 254);
    assert!(!PrivateNetworkFilter::filter(&Some(vec![link_local])));
}

#[test]
fn test_block_broadcast() {
    let broadcast = IpAddress::V4(255, 255, 255, 255);
    assert!(!PrivateNetworkFilter::filter(&Some(vec![broadcast])));
}

#[test]
fn filter_denies_resolution_failure_and_empty() {
    assert!(!PrivateNetworkFilter::filter(&None));
    assert!(!PrivateNetworkFilter::filter(&Some(vec![])));
}

#[test]
fn filter_v6_ranges() {
    // Loopback and unique-local deny, an ordinary global address passes.
    let loopback = IpAddress::V6(0, 0, 0, 0, 0, 0, 0, 1);
    assert!(!loopback.is_global());
    let unique_local = IpAddress::V6(0xfc02, 1, 2, 3, 4, 5, 6, 7);
    assert!(!unique_local.is_global());
    let link_local = IpAddress::V6(0xfe80, 0, 0, 0, 1, 2, 3, 4);
    assert!(!link_local.is_global());
    let global = IpAddress::V6(0x2600, 0x1f14, 0xabc, 1, 2, 3, 4, 5);
    assert!(global.is_global());
}

#[test]
fn filters_compose_by_and() {
    assert!(compose_filters(&vec![true, true]));
    assert!(!compose_filters(&vec![true, false]));
    assert!(!compose_filters(&vec![]));
}
