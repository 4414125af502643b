use wg_maestro::addr::address_from_public_key;
use wg_maestro::common::{member_peer_descriptor, WgInterface, PERSISTENT_KEEPALIVE};
use wg_maestro::device::{AllowedIp, DeviceConfiguration, DeviceSnapshot, Endpoint, PeerDescriptor};

fn snapshot() -> DeviceSnapshot {
    DeviceSnapshot {
        ifname: "wg0".to_string(),
        ifindex: 4,
        public_key: Some([1u8; 32]),
        private_key: Some([2u8; 32]),
        listen_port: 51820,
        fwmark: 0,
        peers: vec![],
    }
}

fn peer(seed: u8) -> PeerDescriptor {
    member_peer_descriptor(&[seed; 32], None)
}

fn replacing(peers: Vec<PeerDescriptor>) -> DeviceConfiguration {
    WgInterface::from_snapshot(snapshot()).peers_configuration(peers)
}

#[test]
fn member_peer_has_host_route_and_keepalive() {
    let ep = Endpoint::V4 { octets: [10, 0, 0, 1], port: 51820 };
    let p = member_peer_descriptor(&[5u8; 32], Some(ep));
    assert_eq!(p.public_key, [5u8; 32]);
    assert_eq!(p.endpoint, Some(ep));
    assert_eq!(p.preshared_key, None);
    assert_eq!(
        p.allowed_ips,
        vec![AllowedIp { address: address_from_public_key(&[5u8; 32]), prefix_len: 128 }]
    );
    assert_eq!(p.persistent_keepalive_interval, Some(PERSISTENT_KEEPALIVE));
    assert_eq!(PERSISTENT_KEEPALIVE, 10);
}

#[test]
fn base_configuration_restates_port_and_fwmark() {
    let mut s = snapshot();
    s.fwmark = 7;
    let wg = WgInterface::from_snapshot(s);
    let c = wg.build_set_device();
    assert!(!c.replace_peers);
    assert_eq!(c.fwmark, Some(7));
    assert_eq!(c.listen_port, Some(51820));
    assert_eq!(c.private_key, None);
    assert!(c.peers.is_empty());
    assert_eq!(wg.set_port(1000).listen_port, Some(1000));
    assert_eq!(wg.set_private_key(&[9u8; 32]).private_key, Some([9u8; 32]));
}

#[test]
fn identity_configuration_overrides_fwmark_only_when_set() {
    let wg = WgInterface::from_snapshot(snapshot());
    let c = wg.identity_configuration(&[3u8; 32], 4000, Some(42));
    assert!(c.replace_peers);
    assert_eq!(c.private_key, Some([3u8; 32]));
    assert_eq!(c.listen_port, Some(4000));
    assert_eq!(c.fwmark, Some(42));
    assert!(c.peers.is_empty());
    let c = wg.identity_configuration(&[3u8; 32], 4000, None);
    assert_eq!(c.fwmark, Some(0));
}

#[test]
fn replacing_peers_twice_leaves_only_the_second_list() {
    let mut s = snapshot();
    s.apply_configuration(&replacing(vec![peer(1), peer(2)]));
    assert_eq!(s.peers, vec![peer(1), peer(2)]);
    s.apply_configuration(&replacing(vec![peer(3)]));
    assert_eq!(s.peers, vec![peer(3)]);
}

#[test]
fn diff_without_replace_upserts_peers() {
    let mut s = snapshot();
    s.peers = vec![peer(1), peer(2)];
    let mut updated = peer(2);
    updated.persistent_keepalive_interval = None;
    let mut c = WgInterface::from_snapshot(snapshot()).build_set_device();
    c.peers = vec![updated.clone(), peer(4)];
    s.apply_configuration(&c);
    assert_eq!(s.peers, vec![peer(1), updated, peer(4)]);
}

#[test]
fn new_private_key_leaves_public_key_unknown() {
    let mut s = snapshot();
    let wg = WgInterface::from_snapshot(snapshot());
    s.apply_configuration(&wg.set_private_key(&[8u8; 32]));
    assert_eq!(s.private_key, Some([8u8; 32]));
    assert_eq!(s.public_key, None);
    s.apply_configuration(&wg.set_port(9));
    assert_eq!(s.listen_port, 9);
}

#[test]
fn interface_address_comes_from_public_key() {
    let wg = WgInterface::from_snapshot(snapshot());
    assert_eq!(wg.get_public_key(), Some([1u8; 32]));
    assert_eq!(wg.ll_address(), Some(address_from_public_key(&[1u8; 32])));
    let mut s = snapshot();
    s.public_key = None;
    let mut wg = WgInterface::from_snapshot(s);
    assert_eq!(wg.ll_address(), None);
    wg.refresh(snapshot());
    assert_eq!(wg.snapshot().public_key, Some([1u8; 32]));
    wg.record_applied(&replacing(vec![peer(6)]));
    assert_eq!(wg.snapshot().peers, vec![peer(6)]);
}
