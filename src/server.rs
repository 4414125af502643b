//! The hub role: one member that accepts any number of configured spokes.
use vstd::prelude::*;
use crate::addr::Ipv6Address;
use crate::common::{member_peer, member_peer_descriptor, peers_configuration, WgInterface};
use crate::device::{DeviceConfiguration, PeerDescriptor, PeerView};
use crate::keys::WgKey;

verus! {

/// Configuration of a hub.
#[derive(Clone, Debug, PartialEq, Eq)]
pub struct ServerConfig {
    pub interface_name: String,
    pub wireguard_port: u16,
    pub maestro_port: u16,
    pub fwmark: Option<u32>,
    pub private_key: WgKey,
    pub addresses: Vec<Address>,
    pub clients: Vec<Client>,
}

/// A local address prefix of the hub.
#[derive(Clone, Copy, Debug, PartialEq, Eq)]
pub struct Address {
    pub address: Ipv6Address,
    pub prefix_len: u8,
}

/// A spoke the hub accepts.
#[derive(Clone, Debug, PartialEq, Eq)]
pub struct Client {
    pub public_key: WgKey,
    pub pre_shared_key: Option<WgKey>,
    pub hostname: Option<String>,
}

/// The peer entries a hub installs: one per configured spoke, in order,
/// with no fixed endpoint (the hub waits for their handshakes).
pub open spec fn spoke_peers(clients: Seq<Client>) -> Seq<PeerView> {
    clients.map_values(|c: Client| member_peer(c.public_key, None))
}

/// A hub: its configuration drives what it applies to its interface.
pub struct Server {
    pub config: ServerConfig,
}

impl Server {
    /// The hub with configuration `config`.
    pub fn new(config: ServerConfig) -> (r: Server)
        ensures
            r.config == config,
    {
        Server { config }
    }

    /// The first diff the hub applies: its own key, port and fwmark, with
    /// every earlier peer cleared.
    pub fn initial_configuration(&self, wg: &WgInterface) -> (r: DeviceConfiguration)
        ensures
            r@ == crate::common::identity_configuration(
                wg.device()@,
                self.config.private_key,
                self.config.wireguard_port,
                self.config.fwmark,
            ),
    {
        wg.identity_configuration(
            &self.config.private_key,
            self.config.wireguard_port,
            self.config.fwmark,
        )
    }

    /// The diff that installs exactly one peer per configured spoke.
    pub fn peer_configuration(&self, wg: &WgInterface) -> (r: DeviceConfiguration)
        ensures
            r@ == peers_configuration(wg.device()@, spoke_peers(self.config.clients@)),
    {
        let clients = &self.config.clients;
        let mut peers: Vec<PeerDescriptor> = Vec::new();
        let mut i: usize = 0;
        while i < clients.len()
            invariant
                i <= clients@.len(),
                peers@.len() == i,
                forall|j: int| 0 <= j < i ==> (#[trigger] peers@[j])@ == member_peer(clients@[j].public_key, None),
            decreases clients@.len() - i,
        {
            peers.push(member_peer_descriptor(&clients[i].public_key, None));
            i = i + 1;
        }
        let r = wg.peers_configuration(peers);
        assert(r@.peers =~= spoke_peers(self.config.clients@));
        r
    }
}

} // verus!
