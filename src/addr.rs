//! Deterministic link-local addressing of mesh members.
//!
//! Every member derives the IPv6 link-local address of any other member from
//! that member's public key alone. The interface identifier (the low 64 bits)
//! is the 64-bit FNV-1a digest of the 32 key bytes, so the mapping is fixed
//! across builds, platforms and implementations.
use vstd::prelude::*;
use crate::keys::WgKey;

verus! {

/// Version of the address derivation scheme. Version 1 is FNV-1a (64 bit)
/// over the 32 key bytes; any other scheme must carry a new version, since
/// members only agree on addresses when they derive them the same way.
pub const DERIVATION_VERSION: u8 = 1;

/// FNV-1a 64-bit offset basis.
pub const FNV_OFFSET_BASIS: u64 = 0xcbf2_9ce4_8422_2325;

/// FNV-1a 64-bit prime.
pub const FNV_PRIME: u64 = 0x0000_0100_0000_01b3;

/// First segment of every IPv6 link-local address.
pub const LINK_LOCAL_PREFIX: u16 = 0xfe80;

/// An IPv6 address as its eight 16-bit segments, most significant first.
#[derive(Clone, Copy, Debug, PartialEq, Eq, Hash)]
pub struct Ipv6Address {
    pub segments: [u16; 8],
}

/// One FNV-1a round: mix in a byte, then multiply modulo 2^64.
pub open spec fn fnv1a_round(h: u64, b: u8) -> u64 {
    (((h ^ (b as u64)) as int * FNV_PRIME as int) % 0x1_0000_0000_0000_0000int) as u64
}

/// FNV-1a 64-bit digest of a byte string.
pub open spec fn fnv1a64(bytes: Seq<u8>) -> u64
    decreases bytes.len(),
{
    if bytes.len() == 0 {
        FNV_OFFSET_BASIS
    } else {
        fnv1a_round(fnv1a64(bytes.drop_last()), bytes.last())
    }
}

/// The `i`-th 16-bit word of `h`, counting from the most significant.
pub open spec fn digest_word(h: u64, i: int) -> u16 {
    ((h as int / pow2_16(3 - i)) % 0x1_0000) as u16
}

/// 2^(16 * k) for k in 0..4.
pub open spec fn pow2_16(k: int) -> int {
    if k <= 0 {
        1
    } else if k == 1 {
        0x1_0000
    } else if k == 2 {
        0x1_0000_0000
    } else {
        0x1_0000_0000_0000
    }
}

/// The link-local address whose interface identifier is `h`.
pub open spec fn address_of_digest(h: u64) -> Ipv6Address {
    Ipv6Address {
        segments: [
            LINK_LOCAL_PREFIX,
            0,
            0,
            0,
            digest_word(h, 0),
            digest_word(h, 1),
            digest_word(h, 2),
            digest_word(h, 3),
        ],
    }
}

/// The address that a member with public key `key` is known by.
pub open spec fn derived_address(key: WgKey) -> Ipv6Address {
    address_of_digest(fnv1a64(key@))
}

/// Whether `a` lies in fe80:0:0:0::/64.
pub open spec fn is_link_local_64(a: Ipv6Address) -> bool {
    &&& a.segments@[0] == LINK_LOCAL_PREFIX
    &&& a.segments@[1] == 0
    &&& a.segments@[2] == 0
    &&& a.segments@[3] == 0
}

impl Ipv6Address {
    /// Builds an address from its eight segments.
    pub fn new(a: u16, b: u16, c: u16, d: u16, e: u16, f: u16, g: u16, h: u16) -> (r: Ipv6Address)
        ensures
            r.segments@ == seq![a, b, c, d, e, f, g, h],
    {
        let r = Ipv6Address { segments: [a, b, c, d, e, f, g, h] };
        assert(r.segments@ =~= seq![a, b, c, d, e, f, g, h]);
        r
    }

    /// The eight segments, most significant first.
    pub fn segments(&self) -> (r: [u16; 8])
        ensures
            r == self.segments,
    {
        self.segments
    }
}

/// Computes the FNV-1a 64-bit digest of `bytes`.
pub fn fnv1a_digest(bytes: &[u8]) -> (h: u64)
    ensures
        h == fnv1a64(bytes@),
{
    let mut h: u64 = FNV_OFFSET_BASIS;
    let mut i: usize = 0;
    while i < bytes.len()
        invariant
            i <= bytes@.len(),
            h == fnv1a64(bytes@.subrange(0, i as int)),
        decreases bytes@.len() - i,
    {
        proof {
            let next = bytes@.subrange(0, i as int + 1);
            assert(next.drop_last() =~= bytes@.subrange(0, i as int));
        }
        h = (h ^ (bytes[i] as u64)).wrapping_mul(FNV_PRIME);
        i = i + 1;
    }
    assert(bytes@.subrange(0, i as int) =~= bytes@);
    h
}

/// Splits a digest into its four 16-bit words, most significant first.
pub fn digest_words(h: u64) -> (w: [u16; 4])
    ensures
        forall|i: int| 0 <= i < 4 ==> #[trigger] w@[i] == digest_word(h, i),
{
    let w0 = (h >> 48u64) as u16;
    let w1 = ((h >> 32u64) & 0xffff) as u16;
    let w2 = ((h >> 16u64) & 0xffff) as u16;
    let w3 = (h & 0xffff) as u16;
    assert(w0 == digest_word(h, 0)) by {
        assert(h >> 48u64 == h / 0x1_0000_0000_0000) by (bit_vector);
        assert(h / 0x1_0000_0000_0000 < 0x1_0000) by (bit_vector);
    }
    assert(w1 == digest_word(h, 1)) by {
        assert((h >> 32u64) & 0xffff == (h / 0x1_0000_0000) % 0x1_0000) by (bit_vector);
    }
    assert(w2 == digest_word(h, 2)) by {
        assert((h >> 16u64) & 0xffff == (h / 0x1_0000) % 0x1_0000) by (bit_vector);
    }
    assert(w3 == digest_word(h, 3)) by {
        assert(h & 0xffff == h % 0x1_0000) by (bit_vector);
    }
    let w = [w0, w1, w2, w3];
    assert(forall|i: int| 0 <= i < 4 ==> #[trigger] w@[i] == digest_word(h, i)) by {
        assert(w@[0] == w0 && w@[1] == w1 && w@[2] == w2 && w@[3] == w3);
    }
    w
}

/// Derives the link-local address of the member whose public key is `key`:
/// `fe80:0:0:0:w0:w1:w2:w3`, where `w0..w3` are the 16-bit words of the
/// key's FNV-1a 64-bit digest.
pub fn address_from_public_key(key: &WgKey) -> (a: Ipv6Address)
    ensures
        a == derived_address(*key),
        is_link_local_64(a),
{
    let h = fnv1a_digest(key.as_slice());
    let w = digest_words(h);
    let a = Ipv6Address::new(LINK_LOCAL_PREFIX, 0, 0, 0, w[0], w[1], w[2], w[3]);
    assert(a.segments =~= derived_address(*key).segments);
    a
}

/// Derivation is a function of the key: two derivations from equal keys give
/// equal addresses.
pub proof fn lemma_derivation_deterministic(k1: WgKey, k2: WgKey)
    requires
        k1 == k2,
    ensures
        derived_address(k1) == derived_address(k2),
{
}

/// Every derived address lies in fe80::/64, and its low 64 bits carry the
/// key's digest exactly: two keys get the same address if and only if their
/// digests agree.
pub proof fn lemma_derivation_format(k1: WgKey, k2: WgKey)
    ensures
        is_link_local_64(derived_address(k1)),
        derived_address(k1) == derived_address(k2) <==> fnv1a64(k1@) == fnv1a64(k2@),
{
    let h1 = fnv1a64(k1@);
    let h2 = fnv1a64(k2@);
    if derived_address(k1) == derived_address(k2) {
        let s1 = address_of_digest(h1).segments;
        let s2 = address_of_digest(h2).segments;
        assert(s1@[4] == s2@[4] && s1@[5] == s2@[5] && s1@[6] == s2@[6] && s1@[7] == s2@[7]);
        lemma_words_determine_digest(h1, h2);
    }
}

proof fn lemma_words_determine_digest(x: u64, y: u64)
    requires
        digest_word(x, 0) == digest_word(y, 0),
        digest_word(x, 1) == digest_word(y, 1),
        digest_word(x, 2) == digest_word(y, 2),
        digest_word(x, 3) == digest_word(y, 3),
    ensures
        x == y,
{
    assert(x / 0x1_0000_0000_0000 % 0x1_0000 == y / 0x1_0000_0000_0000 % 0x1_0000);
    assert(x / 0x1_0000_0000 % 0x1_0000 == y / 0x1_0000_0000 % 0x1_0000);
    assert(x / 0x1_0000 % 0x1_0000 == y / 0x1_0000 % 0x1_0000);
    assert(x / 1 % 0x1_0000 == y / 1 % 0x1_0000);
    assert(x == y) by (bit_vector)
        requires
            x / 0x1_0000_0000_0000 % 0x1_0000 == y / 0x1_0000_0000_0000 % 0x1_0000,
            x / 0x1_0000_0000 % 0x1_0000 == y / 0x1_0000_0000 % 0x1_0000,
            x / 0x1_0000 % 0x1_0000 == y / 0x1_0000 % 0x1_0000,
            x % 0x1_0000 == y % 0x1_0000,
    ;
}

} // verus!
