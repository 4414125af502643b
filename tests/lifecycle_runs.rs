use wg_maestro::addr::{address_from_public_key, Ipv6Address};
use wg_maestro::client::{Client, ClientConfig, ClientConfigServer};
use wg_maestro::common::{member_peer_descriptor, LINK_LOCAL_PREFIX_LEN};
use wg_maestro::device::{DeviceSnapshot, Endpoint};
use wg_maestro::lifecycle::{Action, Event, Fault, Lifecycle, Phase, Stage, WgMaestro};
use wg_maestro::server::{Client as Spoke, Server, ServerConfig};

const HUB_KEY: [u8; 32] = [0x11; 32];
const SPOKE_KEY: [u8; 32] = [0x22; 32];
const HUB_PRIVATE: [u8; 32] = [0x33; 32];
const SPOKE_PRIVATE: [u8; 32] = [0x44; 32];

fn client_role() -> WgMaestro {
    WgMaestro::Client(Client::new(ClientConfig {
        interface_name: "wgc".to_string(),
        wireguard_port: 51821,
        maestro_port: 8001,
        fwmark: None,
        private_key: SPOKE_PRIVATE,
        server: ClientConfigServer {
            host: "hub.example".to_string(),
            wireguard_port: 51820,
            maestro_port: 8000,
            public_key: HUB_KEY,
        },
    }))
}

fn server_role(clients: Vec<[u8; 32]>) -> WgMaestro {
    WgMaestro::Server(Server::new(ServerConfig {
        interface_name: "wgs".to_string(),
        wireguard_port: 51820,
        maestro_port: 8000,
        fwmark: Some(5),
        private_key: HUB_PRIVATE,
        addresses: vec![],
        clients: clients
            .into_iter()
            .map(|k| Spoke { public_key: k, pre_shared_key: None, hostname: None })
            .collect(),
    }))
}

fn device(name: &str, public_key: Option<[u8; 32]>) -> DeviceSnapshot {
    DeviceSnapshot {
        ifname: name.to_string(),
        ifindex: 9,
        public_key,
        private_key: None,
        listen_port: 0,
        fwmark: 0,
        peers: vec![],
    }
}

/// Drives a machine through startup; returns the peer diff it applied.
fn start(m: &mut Lifecycle, name: &str, own_key: [u8; 32], hub: Option<Endpoint>) -> Action {
    assert_eq!(m.action(), Action::CreateInterface { name: name.to_string() });
    assert_eq!(m.step(Event::Done), Action::ReadDevice { name: name.to_string() });
    match m.step(Event::Device(device(name, None))) {
        Action::SetDevice(c) => assert!(c.replace_peers && c.peers.is_empty()),
        other => panic!("unexpected {:?}", other),
    }
    assert_eq!(m.phase(), Phase::Created);
    assert_eq!(m.step(Event::Done), Action::ReadDevice { name: name.to_string() });
    assert_eq!(m.phase(), Phase::Configured);
    assert_eq!(
        m.step(Event::Device(device(name, Some(own_key)))),
        Action::AddAddress {
            name: name.to_string(),
            address: address_from_public_key(&own_key),
            prefix_len: LINK_LOCAL_PREFIX_LEN,
        }
    );
    assert_eq!(m.step(Event::Done), Action::SetLinkUp { name: name.to_string() });
    let mut a = m.step(Event::Done);
    if let Some(ep) = hub {
        assert_eq!(a, Action::ResolveHost { host: "hub.example".to_string(), port: 51820 });
        a = m.step(Event::Resolved(ep));
    }
    a
}

#[test]
fn both_roles_install_peers_at_derived_addresses() {
    let ep = Endpoint::V4 { octets: [192, 0, 2, 1], port: 51820 };
    let mut spoke = Lifecycle::new(client_role());
    let applied = start(&mut spoke, "wgc", SPOKE_KEY, Some(ep));
    assert_eq!(
        applied,
        Action::SetDevice(wg_maestro::device::DeviceConfiguration {
            replace_peers: true,
            fwmark: Some(0),
            private_key: None,
            listen_port: Some(0),
            peers: vec![member_peer_descriptor(&HUB_KEY, Some(ep))],
        })
    );
    if let Action::SetDevice(c) = &applied {
        assert_eq!(c.peers.len(), 1);
        assert_eq!(c.peers[0].allowed_ips[0].address, address_from_public_key(&HUB_KEY));
        assert_eq!(c.peers[0].persistent_keepalive_interval, Some(10));
    }
    assert_eq!(spoke.step(Event::Done), Action::PollSignal);
    assert_eq!(spoke.phase(), Phase::Running);

    let mut hub = Lifecycle::new(server_role(vec![SPOKE_KEY]));
    let applied = start(&mut hub, "wgs", HUB_KEY, None);
    match &applied {
        Action::SetDevice(c) => {
            assert_eq!(c.peers.len(), 1);
            assert_eq!(c.peers[0].public_key, SPOKE_KEY);
            assert_eq!(c.peers[0].endpoint, None);
            assert_eq!(c.peers[0].allowed_ips[0].address, address_from_public_key(&SPOKE_KEY));
            assert_eq!(c.peers[0].allowed_ips[0].prefix_len, 128);
        }
        other => panic!("unexpected {:?}", other),
    }
    assert_eq!(hub.step(Event::Done), Action::OpenListener { port: 8000 });
    assert_eq!(hub.step(Event::Done), Action::PollSignal);
    assert_eq!(hub.phase(), Phase::Running);
}

#[test]
fn hub_installs_every_configured_spoke() {
    let mut hub = Lifecycle::new(server_role(vec![[1u8; 32], [2u8; 32], [3u8; 32]]));
    match start(&mut hub, "wgs", HUB_KEY, None) {
        Action::SetDevice(c) => {
            let keys: Vec<[u8; 32]> = c.peers.iter().map(|p| p.public_key).collect();
            assert_eq!(keys, vec![[1u8; 32], [2u8; 32], [3u8; 32]]);
        }
        other => panic!("unexpected {:?}", other),
    }
    let mut empty = Lifecycle::new(server_role(vec![]));
    match start(&mut empty, "wgs", HUB_KEY, None) {
        Action::SetDevice(c) => assert!(c.replace_peers && c.peers.is_empty()),
        other => panic!("unexpected {:?}", other),
    }
}

#[test]
fn existing_interface_is_attached() {
    let mut m = Lifecycle::new(client_role());
    assert_eq!(m.step(Event::AlreadyExists), Action::ReadDevice { name: "wgc".to_string() });
    assert_eq!(m.fault(), None);
    assert_eq!(m.stage(), Stage::ReadInitial);
}

#[test]
fn other_creation_failure_is_fatal() {
    let mut m = Lifecycle::new(client_role());
    assert_eq!(m.step(Event::Failed), Action::Exit { success: false });
    assert_eq!(m.fault(), Some(Fault::CreateInterface));
    assert_eq!(m.phase(), Phase::Terminated);
}

#[test]
fn one_signal_cleans_up_once() {
    let mut hub = Lifecycle::new(server_role(vec![SPOKE_KEY]));
    start(&mut hub, "wgs", HUB_KEY, None);
    hub.step(Event::Done);
    assert_eq!(hub.step(Event::Done), Action::PollSignal);
    assert_eq!(hub.step(Event::Quiet), Action::PollSignal);
    assert_eq!(hub.step(Event::Signal), Action::CloseListener);
    assert_eq!(hub.phase(), Phase::CleaningUp);
    assert_eq!(hub.step(Event::Signal), Action::CloseListener);
    assert_eq!(hub.phase(), Phase::CleaningUp);
    assert_eq!(hub.step(Event::Done), Action::DeleteInterface { name: "wgs".to_string() });
    assert_eq!(hub.step(Event::Signal), Action::DeleteInterface { name: "wgs".to_string() });
    assert_eq!(hub.step(Event::Done), Action::Exit { success: true });
    assert_eq!(hub.phase(), Phase::Terminated);
    assert_eq!(hub.step(Event::Signal), Action::Exit { success: true });
}

#[test]
fn teardown_failures_are_tolerated() {
    let ep = Endpoint::V6 { address: Ipv6Address::new(0x2001, 0xdb8, 0, 0, 0, 0, 0, 1), port: 51820 };
    let mut spoke = Lifecycle::new(client_role());
    start(&mut spoke, "wgc", SPOKE_KEY, Some(ep));
    spoke.step(Event::Done);
    assert_eq!(spoke.step(Event::Signal), Action::DeleteInterface { name: "wgc".to_string() });
    assert_eq!(spoke.step(Event::Failed), Action::Exit { success: true });
}

#[test]
fn set_device_failure_prevents_running() {
    let mut m = Lifecycle::new(server_role(vec![SPOKE_KEY]));
    m.step(Event::Done);
    m.step(Event::Device(device("wgs", None)));
    assert_eq!(m.step(Event::Failed), Action::DeleteInterface { name: "wgs".to_string() });
    assert_eq!(m.fault(), Some(Fault::SetDevice));
    assert_eq!(m.phase(), Phase::CleaningUp);
    assert_eq!(m.step(Event::Done), Action::Exit { success: false });
    assert_eq!(m.step(Event::Done), Action::Exit { success: false });
    assert_ne!(m.phase(), Phase::Running);
}

#[test]
fn device_without_public_key_is_fatal() {
    let mut m = Lifecycle::new(client_role());
    m.step(Event::Done);
    m.step(Event::Device(device("wgc", None)));
    m.step(Event::Done);
    assert_eq!(m.step(Event::Device(device("wgc", None))), Action::DeleteInterface { name: "wgc".to_string() });
    assert_eq!(m.fault(), Some(Fault::MissingPublicKey));
    assert_eq!(m.local_address(), None);
}

#[test]
fn unresolved_hub_is_fatal() {
    let mut m = Lifecycle::new(client_role());
    m.step(Event::Done);
    m.step(Event::Device(device("wgc", None)));
    m.step(Event::Done);
    m.step(Event::Device(device("wgc", Some(SPOKE_KEY))));
    assert_eq!(m.local_address(), Some(address_from_public_key(&SPOKE_KEY)));
    m.step(Event::Done);
    assert!(matches!(m.step(Event::Done), Action::ResolveHost { .. }));
    assert_eq!(m.step(Event::Failed), Action::DeleteInterface { name: "wgc".to_string() });
    assert_eq!(m.fault(), Some(Fault::ResolveHost));
}

#[test]
fn signal_during_startup_shuts_down_cleanly() {
    let mut m = Lifecycle::new(client_role());
    m.step(Event::Done);
    assert_eq!(m.step(Event::Quiet), Action::ReadDevice { name: "wgc".to_string() });
    assert_eq!(m.step(Event::Signal), Action::DeleteInterface { name: "wgc".to_string() });
    assert_eq!(m.step(Event::Done), Action::Exit { success: true });
}

#[test]
fn runtime_failure_cleans_up_with_fault() {
    let mut hub = Lifecycle::new(server_role(vec![]));
    start(&mut hub, "wgs", HUB_KEY, None);
    hub.step(Event::Done);
    hub.step(Event::Done);
    assert_eq!(hub.step(Event::Failed), Action::CloseListener);
    assert_eq!(hub.fault(), Some(Fault::Runtime));
    hub.step(Event::Failed);
    assert_eq!(hub.step(Event::Done), Action::Exit { success: false });
}
