//! The spoke role: one member connected to a single hub.
use vstd::prelude::*;
use crate::common::{member_peer, member_peer_descriptor, peers_configuration, WgInterface};
use crate::device::{DeviceConfiguration, Endpoint, PeerDescriptor};
use crate::keys::WgKey;

verus! {

/// Configuration of a spoke.
#[derive(Clone, Debug, PartialEq, Eq)]
pub struct ClientConfig {
    pub interface_name: String,
    pub wireguard_port: u16,
    pub maestro_port: u16,
    pub fwmark: Option<u32>,
    pub private_key: WgKey,
    pub server: ClientConfigServer,
}

/// The hub a spoke connects to.
#[derive(Clone, Debug, PartialEq, Eq)]
pub struct ClientConfigServer {
    pub host: String,
    pub wireguard_port: u16,
    pub maestro_port: u16,
    pub public_key: WgKey,
}

/// A spoke: its configuration drives what it applies to its interface.
pub struct Client {
    pub config: ClientConfig,
}

impl Client {
    /// The spoke with configuration `config`.
    pub fn new(config: ClientConfig) -> (r: Client)
        ensures
            r.config == config,
    {
        Client { config }
    }

    /// The first diff the spoke applies: its own key, port and fwmark, with
    /// every earlier peer cleared.
    pub fn initial_configuration(&self, wg: &WgInterface) -> (r: DeviceConfiguration)
        ensures
            r@ == crate::common::identity_configuration(
                wg.device()@,
                self.config.private_key,
                self.config.wireguard_port,
                self.config.fwmark,
            ),
    {
        wg.identity_configuration(
            &self.config.private_key,
            self.config.wireguard_port,
            self.config.fwmark,
        )
    }

    /// The diff that installs the hub as the only peer, reached at
    /// `endpoint` (the first address the hub's host resolved to).
    pub fn peer_configuration(&self, wg: &WgInterface, endpoint: Endpoint) -> (r: DeviceConfiguration)
        ensures
            r@ == peers_configuration(
                wg.device()@,
                seq![member_peer(self.config.server.public_key, Some(endpoint))],
            ),
    {
        let hub = member_peer_descriptor(&self.config.server.public_key, Some(endpoint));
        let mut peers: Vec<PeerDescriptor> = Vec::new();
        peers.push(hub);
        let r = wg.peers_configuration(peers);
        assert(r@.peers =~= seq![member_peer(self.config.server.public_key, Some(endpoint))]);
        r
    }
}

} // verus!
