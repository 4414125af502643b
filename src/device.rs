//! Device state as the control socket reports it, and the configuration
//! diffs that are written to it.
use vstd::prelude::*;
use crate::addr::Ipv6Address;
use crate::keys::{keys_equal, WgKey};

verus! {

/// An address range a peer may send from: an IPv6 address and prefix length.
#[derive(Clone, Copy, Debug, PartialEq, Eq)]
pub struct AllowedIp {
    pub address: Ipv6Address,
    pub prefix_len: u8,
}

/// A resolved UDP endpoint of a peer.
#[derive(Clone, Copy, Debug, PartialEq, Eq)]
pub enum Endpoint {
    V4 { octets: [u8; 4], port: u16 },
    V6 { address: Ipv6Address, port: u16 },
}

/// One peer of a device: its identity, where to reach it, and what it may
/// send.
#[derive(Clone, Debug, PartialEq, Eq)]
pub struct PeerDescriptor {
    pub public_key: WgKey,
    pub preshared_key: Option<WgKey>,
    pub endpoint: Option<Endpoint>,
    pub allowed_ips: Vec<AllowedIp>,
    pub persistent_keepalive_interval: Option<u16>,
}

/// Mathematical view of a [`PeerDescriptor`].
pub struct PeerView {
    pub public_key: WgKey,
    pub preshared_key: Option<WgKey>,
    pub endpoint: Option<Endpoint>,
    pub allowed_ips: Seq<AllowedIp>,
    pub persistent_keepalive_interval: Option<u16>,
}

impl View for PeerDescriptor {
    type V = PeerView;

    open spec fn view(&self) -> PeerView {
        PeerView {
            public_key: self.public_key,
            preshared_key: self.preshared_key,
            endpoint: self.endpoint,
            allowed_ips: self.allowed_ips@,
            persistent_keepalive_interval: self.persistent_keepalive_interval,
        }
    }
}

impl PeerDescriptor {
    /// A copy of this descriptor.
    pub fn copied(&self) -> (r: PeerDescriptor)
        ensures
            r@ == self@,
    {
        let mut ips: Vec<AllowedIp> = Vec::new();
        let mut i: usize = 0;
        while i < self.allowed_ips.len()
            invariant
                i <= self.allowed_ips@.len(),
                ips@ == self.allowed_ips@.subrange(0, i as int),
            decreases self.allowed_ips@.len() - i,
        {
            ips.push(self.allowed_ips[i]);
            i = i + 1;
            assert(ips@ =~= self.allowed_ips@.subrange(0, i as int));
        }
        assert(ips@ =~= self.allowed_ips@);
        PeerDescriptor {
            public_key: self.public_key,
            preshared_key: self.preshared_key,
            endpoint: self.endpoint,
            allowed_ips: ips,
            persistent_keepalive_interval: self.persistent_keepalive_interval,
        }
    }
}

/// A desired-state diff for a device: fields that are `Some` are set, and
/// the listed peers are added or replaced. With `replace_peers`, every peer
/// not listed is removed.
#[derive(Clone, Debug, PartialEq, Eq)]
pub struct DeviceConfiguration {
    pub replace_peers: bool,
    pub fwmark: Option<u32>,
    pub private_key: Option<WgKey>,
    pub listen_port: Option<u16>,
    pub peers: Vec<PeerDescriptor>,
}

/// Mathematical view of a [`DeviceConfiguration`].
pub struct ConfigView {
    pub replace_peers: bool,
    pub fwmark: Option<u32>,
    pub private_key: Option<WgKey>,
    pub listen_port: Option<u16>,
    pub peers: Seq<PeerView>,
}

impl View for DeviceConfiguration {
    type V = ConfigView;

    open spec fn view(&self) -> ConfigView {
        ConfigView {
            replace_peers: self.replace_peers,
            fwmark: self.fwmark,
            private_key: self.private_key,
            listen_port: self.listen_port,
            peers: self.peers@.map_values(|p: PeerDescriptor| p@),
        }
    }
}

/// The state of a device as read from the control socket.
#[derive(Clone, Debug, PartialEq, Eq)]
pub struct DeviceSnapshot {
    pub ifname: String,
    pub ifindex: u32,
    pub public_key: Option<WgKey>,
    pub private_key: Option<WgKey>,
    pub listen_port: u16,
    pub fwmark: u32,
    pub peers: Vec<PeerDescriptor>,
}

/// Mathematical view of a [`DeviceSnapshot`].
pub struct DeviceView {
    pub ifname: Seq<char>,
    pub ifindex: u32,
    pub public_key: Option<WgKey>,
    pub private_key: Option<WgKey>,
    pub listen_port: u16,
    pub fwmark: u32,
    pub peers: Seq<PeerView>,
}

impl View for DeviceSnapshot {
    type V = DeviceView;

    open spec fn view(&self) -> DeviceView {
        DeviceView {
            ifname: self.ifname@,
            ifindex: self.ifindex,
            public_key: self.public_key,
            private_key: self.private_key,
            listen_port: self.listen_port,
            fwmark: self.fwmark,
            peers: self.peers@.map_values(|p: PeerDescriptor| p@),
        }
    }
}

/// Whether some peer in `peers` has public key `k`.
pub open spec fn has_peer(peers: Seq<PeerView>, k: WgKey) -> bool {
    exists|i: int| 0 <= i < peers.len() && (#[trigger] peers[i]).public_key == k
}

/// Whether no two peers in `peers` share a public key.
pub open spec fn keys_distinct(peers: Seq<PeerView>) -> bool {
    forall|i: int, j: int|
        0 <= i < j < peers.len() ==> (#[trigger] peers[i]).public_key != (#[trigger] peers[j]).public_key
}

/// `peers` with `p` in place of every entry that has its key, or with `p`
/// appended where none does: a descriptor replaces a peer, never patches it.
pub open spec fn upsert_peer(peers: Seq<PeerView>, p: PeerView) -> Seq<PeerView> {
    if has_peer(peers, p.public_key) {
        peers.map_values(|q: PeerView| if q.public_key == p.public_key { p } else { q })
    } else {
        peers.push(p)
    }
}

/// `base` with each of `ps` upserted in order.
pub open spec fn upsert_all(base: Seq<PeerView>, ps: Seq<PeerView>) -> Seq<PeerView>
    decreases ps.len(),
{
    if ps.len() == 0 {
        base
    } else {
        upsert_peer(upsert_all(base, ps.drop_last()), ps.last())
    }
}

/// The device state after the control socket accepts `c` on a device in
/// state `d`. A new private key leaves the public key unknown until the
/// device is read again.
pub open spec fn applied(d: DeviceView, c: ConfigView) -> DeviceView {
    DeviceView {
        ifname: d.ifname,
        ifindex: d.ifindex,
        public_key: if c.private_key is Some { None } else { d.public_key },
        private_key: if c.private_key is Some { c.private_key } else { d.private_key },
        listen_port: match c.listen_port {
            Some(p) => p,
            None => d.listen_port,
        },
        fwmark: match c.fwmark {
            Some(m) => m,
            None => d.fwmark,
        },
        peers: upsert_all(if c.replace_peers { Seq::empty() } else { d.peers }, c.peers),
    }
}

/// The entry that stands in place of `q` once `p` is upserted.
pub open spec fn replaced_by(q: PeerView, p: PeerView) -> PeerView {
    if q.public_key == p.public_key {
        p
    } else {
        q
    }
}

/// Upserts `p` into `peers`.
fn upsert_into(peers: &mut Vec<PeerDescriptor>, p: &PeerDescriptor)
    ensures
        final(peers)@.map_values(|q: PeerDescriptor| q@) == upsert_peer(
            old(peers)@.map_values(|q: PeerDescriptor| q@),
            p@,
        ),
{
    let ghost before = old(peers)@.map_values(|q: PeerDescriptor| q@);
    let mut out: Vec<PeerDescriptor> = Vec::new();
    let mut found = false;
    let mut i: usize = 0;
    while i < peers.len()
        invariant
            i <= peers@.len(),
            before == peers@.map_values(|q: PeerDescriptor| q@),
            out@.len() == i,
            forall|j: int| 0 <= j < i ==> (#[trigger] out@[j])@ == replaced_by(before[j], p@),
            found <==> exists|j: int| 0 <= j < i && (#[trigger] before[j]).public_key == p.public_key,
        decreases peers@.len() - i,
    {
        if keys_equal(&peers[i].public_key, &p.public_key) {
            out.push(p.copied());
            found = true;
        } else {
            out.push(peers[i].copied());
        }
        assert(before[i as int] == peers@[i as int]@);
        i = i + 1;
    }
    let ghost mapped = before.map_values(|q: PeerView| if q.public_key == p@.public_key { p@ } else { q });
    if found {
        assert(out@.map_values(|q: PeerDescriptor| q@) =~= mapped);
    } else {
        out.push(p.copied());
        assert(out@.map_values(|q: PeerDescriptor| q@) =~= before.push(p@));
    }
    *peers = out;
}

impl DeviceSnapshot {
    /// Brings this snapshot to the state the device is in after the control
    /// socket accepts `c`.
    pub fn apply_configuration(&mut self, c: &DeviceConfiguration)
        ensures
            final(self)@ == applied(old(self)@, c@),
    {
        let ghost d = old(self)@;
        if c.private_key.is_some() {
            self.public_key = None;
            self.private_key = c.private_key;
        }
        if let Some(p) = c.listen_port {
            self.listen_port = p;
        }
        if let Some(m) = c.fwmark {
            self.fwmark = m;
        }
        if c.replace_peers {
            self.peers = Vec::new();
        }
        let ghost base = self@.peers;
        let mut i: usize = 0;
        while i < c.peers.len()
            invariant
                i <= c.peers@.len(),
                self@.peers == upsert_all(base, c@.peers.subrange(0, i as int)),
                self@.ifname == d.ifname,
                self@.ifindex == d.ifindex,
                self@.public_key == applied(d, c@).public_key,
                self@.private_key == applied(d, c@).private_key,
                self@.listen_port == applied(d, c@).listen_port,
                self@.fwmark == applied(d, c@).fwmark,
            decreases c.peers@.len() - i,
        {
            upsert_into(&mut self.peers, &c.peers[i]);
            proof {
                let ps = c@.peers.subrange(0, i as int + 1);
                assert(ps.drop_last() =~= c@.peers.subrange(0, i as int));
            }
            i = i + 1;
        }
        assert(c@.peers.subrange(0, i as int) =~= c@.peers);
        assert(base =~= (if c.replace_peers { Seq::empty() } else { d.peers }));
        assert(self@ == applied(d, c@));
    }
}

proof fn lemma_upsert_all_into_empty(ps: Seq<PeerView>)
    requires
        keys_distinct(ps),
    ensures
        upsert_all(Seq::empty(), ps) == ps,
    decreases ps.len(),
{
    if ps.len() > 0 {
        let init = ps.drop_last();
        assert(keys_distinct(init));
        lemma_upsert_all_into_empty(init);
        if has_peer(init, ps.last().public_key) {
            let j = choose|j: int| 0 <= j < init.len() && (#[trigger] init[j]).public_key == ps.last().public_key;
            assert(ps[j].public_key != ps[ps.len() - 1].public_key);
        }
        assert(init.push(ps.last()) =~= ps);
    }
}

/// Applying a configuration that replaces peers leaves exactly its peer list
/// on the device, whatever an earlier configuration put there.
pub proof fn lemma_replace_peers(d: DeviceView, first: ConfigView, second: ConfigView)
    requires
        second.replace_peers,
        keys_distinct(second.peers),
    ensures
        applied(applied(d, first), second).peers == second.peers,
{
    lemma_upsert_all_into_empty(second.peers);
}

} // verus!
