//! The local interface handle and the configuration pieces both roles share.
use vstd::prelude::*;
use crate::addr::{address_from_public_key, derived_address, Ipv6Address};
use crate::device::{
    AllowedIp, ConfigView, DeviceConfiguration, DeviceSnapshot, DeviceView, Endpoint,
    PeerDescriptor, PeerView,
};
use crate::keys::WgKey;

verus! {

/// Keepalive interval, in seconds, set on every mesh peer so that NAT
/// mappings do not time out.
pub const PERSISTENT_KEEPALIVE: u16 = 10;

/// Prefix length with which a member's own link-local address is assigned.
pub const LINK_LOCAL_PREFIX_LEN: u8 = 64;

/// Prefix length of a single-host route.
pub const HOST_PREFIX_LEN: u8 = 128;

/// The single-host range of address `a`.
pub open spec fn host_range(a: Ipv6Address) -> AllowedIp {
    AllowedIp { address: a, prefix_len: HOST_PREFIX_LEN }
}

/// The peer entry for a mesh member with public key `k`: it may send only
/// from its derived address, and is kept alive every ten seconds.
pub open spec fn member_peer(k: WgKey, endpoint: Option<Endpoint>) -> PeerView {
    PeerView {
        public_key: k,
        preshared_key: None,
        endpoint: endpoint,
        allowed_ips: seq![host_range(derived_address(k))],
        persistent_keepalive_interval: Some(PERSISTENT_KEEPALIVE),
    }
}

/// A diff that rewrites nothing: it restates the device's fwmark and listen
/// port and carries no key and no peers.
pub open spec fn base_configuration(d: DeviceView) -> ConfigView {
    ConfigView {
        replace_peers: false,
        fwmark: Some(d.fwmark),
        private_key: None,
        listen_port: Some(d.listen_port),
        peers: Seq::empty(),
    }
}

/// The first configuration a role applies: identity and port from its
/// configuration, the configured fwmark if any, and all peers cleared.
pub open spec fn identity_configuration(
    d: DeviceView,
    private_key: WgKey,
    listen_port: u16,
    fwmark: Option<u32>,
) -> ConfigView {
    ConfigView {
        replace_peers: true,
        fwmark: match fwmark {
            Some(m) => Some(m),
            None => Some(d.fwmark),
        },
        private_key: Some(private_key),
        listen_port: Some(listen_port),
        peers: Seq::empty(),
    }
}

/// The configuration that installs exactly `peers`, leaving identity, port
/// and fwmark as the device has them.
pub open spec fn peers_configuration(d: DeviceView, peers: Seq<PeerView>) -> ConfigView {
    ConfigView { replace_peers: true, peers: peers, ..base_configuration(d) }
}

/// Builds the peer entry for the member with public key `key`.
pub fn member_peer_descriptor(key: &WgKey, endpoint: Option<Endpoint>) -> (p: PeerDescriptor)
    ensures
        p@ == member_peer(*key, endpoint),
{
    let address = address_from_public_key(key);
    let mut allowed_ips: Vec<AllowedIp> = Vec::new();
    allowed_ips.push(AllowedIp { address, prefix_len: HOST_PREFIX_LEN });
    assert(allowed_ips@ =~= seq![host_range(derived_address(*key))]);
    PeerDescriptor {
        public_key: *key,
        preshared_key: None,
        endpoint,
        allowed_ips,
        persistent_keepalive_interval: Some(PERSISTENT_KEEPALIVE),
    }
}

/// The local interface as last read from the control socket.
pub struct WgInterface {
    device: DeviceSnapshot,
}

impl WgInterface {
    /// The interface whose current state is `device`.
    pub fn from_snapshot(device: DeviceSnapshot) -> (r: WgInterface)
        ensures
            r.device() == device,
    {
        WgInterface { device }
    }

    /// The last snapshot of the device.
    pub closed spec fn device(&self) -> DeviceSnapshot {
        self.device
    }

    /// The last snapshot of the device.
    pub fn snapshot(&self) -> (r: &DeviceSnapshot)
        ensures
            *r == self.device(),
    {
        &self.device
    }

    /// Replaces the cached state with a fresh read of the device.
    pub fn refresh(&mut self, device: DeviceSnapshot)
        ensures
            final(self).device() == device,
    {
        self.device = device;
    }

    /// Records that the control socket accepted `c`.
    pub fn record_applied(&mut self, c: &DeviceConfiguration)
        ensures
            final(self).device()@ == crate::device::applied(old(self).device()@, c@),
    {
        self.device.apply_configuration(c);
    }

    /// The device's public key, if it has one.
    pub fn get_public_key(&self) -> (r: Option<WgKey>)
        ensures
            r == self.device().public_key,
    {
        self.device.public_key
    }

    /// This member's own link-local address, derived from the device's
    /// public key; `None` while the device has no key.
    pub fn ll_address(&self) -> (r: Option<Ipv6Address>)
        ensures
            r == (match self.device().public_key {
                Some(k) => Some(derived_address(k)),
                None => None,
            }),
    {
        match &self.device.public_key {
            Some(k) => Some(address_from_public_key(k)),
            None => None,
        }
    }

    /// A diff that restates the device's fwmark and listen port and changes
    /// nothing else; the other builders start from it.
    pub fn build_set_device(&self) -> (r: DeviceConfiguration)
        ensures
            r@ == base_configuration(self.device()@),
    {
        let r = DeviceConfiguration {
            replace_peers: false,
            fwmark: Some(self.device.fwmark),
            private_key: None,
            listen_port: Some(self.device.listen_port),
            peers: Vec::new(),
        };
        assert(r@.peers =~= Seq::<PeerView>::empty());
        r
    }

    /// The diff that moves the device to `listen_port`.
    pub fn set_port(&self, listen_port: u16) -> (r: DeviceConfiguration)
        ensures
            r@ == (ConfigView { listen_port: Some(listen_port), ..base_configuration(self.device()@) }),
    {
        let mut r = self.build_set_device();
        r.listen_port = Some(listen_port);
        r
    }

    /// The diff that gives the device `private_key`.
    pub fn set_private_key(&self, private_key: &WgKey) -> (r: DeviceConfiguration)
        ensures
            r@ == (ConfigView { private_key: Some(*private_key), ..base_configuration(self.device()@) }),
    {
        let mut r = self.build_set_device();
        r.private_key = Some(*private_key);
        r
    }

    /// The first diff a role applies: `private_key`, `listen_port`, the
    /// configured fwmark (or the device's own), and no peers left over from
    /// an earlier run.
    pub fn identity_configuration(
        &self,
        private_key: &WgKey,
        listen_port: u16,
        fwmark: Option<u32>,
    ) -> (r: DeviceConfiguration)
        ensures
            r@ == identity_configuration(self.device()@, *private_key, listen_port, fwmark),
    {
        let mut r = self.build_set_device();
        r.replace_peers = true;
        r.private_key = Some(*private_key);
        r.listen_port = Some(listen_port);
        if let Some(m) = fwmark {
            r.fwmark = Some(m);
        }
        r
    }

    /// The diff that installs exactly `peers`.
    pub fn peers_configuration(&self, peers: Vec<PeerDescriptor>) -> (r: DeviceConfiguration)
        ensures
            r@ == peers_configuration(self.device()@, peers@.map_values(|p: PeerDescriptor| p@)),
    {
        let mut r = self.build_set_device();
        r.replace_peers = true;
        r.peers = peers;
        r
    }
}

} // verus!
