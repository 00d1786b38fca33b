//! The URL safety filter: a fetch may only reach hosts every one of whose
//! resolved addresses is globally routable. Resolution failure, a missing
//! host, and any private, loopback, link-local, broadcast, documentation
//! or otherwise reserved address all deny.

use vstd::prelude::*;

verus! {

/// A resolved network address: the four octets of an IPv4 address or the
/// eight segments of an IPv6 address.
#[derive(PartialEq, Eq, Structural, Clone, Copy, Debug)]
pub enum IpAddress {
    V4(u8, u8, u8, u8),
    V6(u16, u16, u16, u16, u16, u16, u16, u16),
}

/// Whether an IPv4 address is globally routable: none of "this network"
/// (0.0.0.0/8), private (10/8, 172.16/12, 192.168/16), shared
/// (100.64/10), loopback (127/8), link-local (169.254/16), the
/// protocol-assignment block (192.0.0.0/24 except 192.0.0.9 and
/// 192.0.0.10), documentation (192.0.2/24, 198.51.100/24, 203.0.113/24),
/// benchmarking (198.18/15), reserved (240/4) or broadcast
/// (255.255.255.255).
pub open spec fn spec_v4_global(a: u8, b: u8, c: u8, d: u8) -> bool {
    &&& a != 0
    &&& a != 10
    &&& !(a == 172 && 16 <= b < 32)
    &&& !(a == 192 && b == 168)
    &&& !(a == 100 && 64 <= b < 128)
    &&& a != 127
    &&& !(a == 169 && b == 254)
    &&& !(a == 192 && b == 0 && c == 0 && !(d == 9 || d == 10))
    &&& !(a == 192 && b == 0 && c == 2)
    &&& !(a == 198 && b == 51 && c == 100)
    &&& !(a == 203 && b == 0 && c == 113)
    &&& !(a == 198 && 18 <= b < 20)
    &&& !(a >= 240 && !(a == 255 && b == 255 && c == 255 && d == 255))
    &&& !(a == 255 && b == 255 && c == 255 && d == 255)
}

/// Whether an IPv6 address is globally routable: none of unspecified
/// (::), loopback (::1), IPv4-mapped (::ffff:0:0/96), IPv4-translated
/// (64:ff9b:1::/48), discard-only (100::/64), the IETF protocol block
/// (2001::/23, apart from a few carved-out anycast prefixes), 6to4
/// (2002::/16), documentation (2001:db8::/32, 3fff::/20), unique local
/// (fc00::/7) or link-local unicast (fe80::/10).
pub open spec fn spec_v6_global(
    s0: u16,
    s1: u16,
    s2: u16,
    s3: u16,
    s4: u16,
    s5: u16,
    s6: u16,
    s7: u16,
) -> bool {
    &&& !(s0 == 0 && s1 == 0 && s2 == 0 && s3 == 0 && s4 == 0 && s5 == 0 && s6 == 0 && (s7 == 0
        || s7 == 1))
    &&& !(s0 == 0 && s1 == 0 && s2 == 0 && s3 == 0 && s4 == 0 && s5 == 0xffff)
    &&& !(s0 == 0x64 && s1 == 0xff9b && s2 == 1)
    &&& !(s0 == 0x100 && s1 == 0 && s2 == 0 && s3 == 0)
    &&& !(s0 == 0x2001 && s1 < 0x200 && !(s0 == 0x2001 && s1 == 1 && s2 == 0 && s3 == 0 && s4 == 0
        && s5 == 0 && s6 == 0 && (s7 == 1 || s7 == 2)) && !(s0 == 0x2001 && s1 == 3) && !(s0
        == 0x2001 && s1 == 4 && s2 == 0x112) && !(s0 == 0x2001 && 0x20 <= s1 <= 0x3f))
    &&& !(s0 == 0x2002)
    &&& !(s0 == 0x2001 && s1 == 0xdb8)
    &&& !(s0 == 0x3fff && s1 < 0x1000)
    &&& !(s0 & 0xfe00 == 0xfc00)
    &&& !(s0 & 0xffc0 == 0xfe80)
}

/// Whether a resolved address is globally routable.
pub open spec fn spec_is_global(ip: IpAddress) -> bool {
    match ip {
        IpAddress::V4(a, b, c, d) => spec_v4_global(a, b, c, d),
        IpAddress::V6(s0, s1, s2, s3, s4, s5, s6, s7) => spec_v6_global(
            s0,
            s1,
            s2,
            s3,
            s4,
            s5,
            s6,
            s7,
        ),
    }
}

impl IpAddress {
    /// Whether the address is globally routable.
    pub fn is_global(&self) -> (r: bool)
        ensures
            r == spec_is_global(*self),
    {
        match *self {
            IpAddress::V4(a, b, c, d) => {
                !(a == 0 || a == 10 || (a == 172 && 16 <= b && b < 32) || (a == 192 && b == 168)
                    || (a == 100 && 64 <= b && b < 128) || a == 127 || (a == 169 && b == 254) || (a
                    == 192 && b == 0 && c == 0 && !(d == 9 || d == 10)) || (a == 192 && b == 0 && c
                    == 2) || (a == 198 && b == 51 && c == 100) || (a == 203 && b == 0 && c == 113)
                    || (a == 198 && 18 <= b && b < 20) || a >= 240 || (a == 255 && b == 255 && c
                    == 255 && d == 255))
            },
            IpAddress::V6(s0, s1, s2, s3, s4, s5, s6, s7) => {
                let unspecified_or_loopback = s0 == 0 && s1 == 0 && s2 == 0 && s3 == 0 && s4 == 0
                    && s5 == 0 && s6 == 0 && (s7 == 0 || s7 == 1);
                let v4_mapped = s0 == 0 && s1 == 0 && s2 == 0 && s3 == 0 && s4 == 0 && s5 == 0xffff;
                let v4_translated = s0 == 0x64 && s1 == 0xff9b && s2 == 1;
                let discard_only = s0 == 0x100 && s1 == 0 && s2 == 0 && s3 == 0;
                let pcp_or_turn = s0 == 0x2001 && s1 == 1 && s2 == 0 && s3 == 0 && s4 == 0 && s5
                    == 0 && s6 == 0 && (s7 == 1 || s7 == 2);
                let amt = s0 == 0x2001 && s1 == 3;
                let as112 = s0 == 0x2001 && s1 == 4 && s2 == 0x112;
                let orchid = s0 == 0x2001 && 0x20 <= s1 && s1 <= 0x3f;
                let ietf_block = s0 == 0x2001 && s1 < 0x200 && !pcp_or_turn && !amt && !as112
                    && !orchid;
                let six_to_four = s0 == 0x2002;
                let documentation = (s0 == 0x2001 && s1 == 0xdb8) || (s0 == 0x3fff && s1
                    < 0x1000);
                let unique_local = s0 & 0xfe00 == 0xfc00;
                let link_local = s0 & 0xffc0 == 0xfe80;
                !(unspecified_or_loopback || v4_mapped || v4_translated || discard_only
                    || ietf_block || six_to_four || documentation || unique_local || link_local)
            },
        }
    }
}

/// The SSRF filter over resolved addresses.
pub struct PrivateNetworkFilter {}

/// What the filter decides about a resolution outcome: allow exactly when
/// resolution succeeded with at least one address and every address is
/// globally routable.
pub open spec fn spec_filter_allows(resolved: Option<Seq<IpAddress>>) -> bool {
    match resolved {
        Some(ips) => ips.len() > 0 && forall|i: int|
            0 <= i < ips.len() ==> spec_is_global(#[trigger] ips[i]),
        None => false,
    }
}

impl PrivateNetworkFilter {
    /// Decides on the outcome of resolving a URL's host: `None` stands for
    /// a missing host or a resolution failure, both of which deny; a
    /// resolved list allows only when it is non-empty and all-global.
    pub fn filter(resolved: &Option<Vec<IpAddress>>) -> (r: bool)
        ensures
            r == spec_filter_allows(
                match resolved {
                    Some(ips) => Some(ips@),
                    None => None,
                },
            ),
    {
        match resolved {
            Option::None => false,
            Some(ips) => {
                let mut i: usize = 0;
                let mut all_global = ips.len() > 0;
                while i < ips.len()
                    invariant
                        i <= ips@.len(),
                        all_global == (ips@.len() > 0 && forall|j: int|
                            0 <= j < i ==> spec_is_global(#[trigger] ips@[j])),
                    decreases ips@.len() - i,
                {
                    all_global = all_global && ips[i].is_global();
                    i = i + 1;
                }
                all_global
            },
        }
    }
}

/// Filters compose by logical AND: a chain allows only when it is
/// non-empty and every member allows.
pub fn compose_filters(results: &Vec<bool>) -> (r: bool)
    ensures
        r == (results@.len() > 0 && forall|i: int| 0 <= i < results@.len() ==> results@[i]),
{
    let mut i: usize = 0;
    let mut acc = results.len() > 0;
    while i < results.len()
        invariant
            i <= results@.len(),
            acc == (results@.len() > 0 && forall|j: int| 0 <= j < i ==> results@[j]),
        decreases results@.len() - i,
    {
        acc = acc && results[i];
        i = i + 1;
    }
    acc
}

/// Denial is contagious: a resolution that contains even one non-global
/// address is denied, whatever else it contains.
pub proof fn lemma_filter_mixed(ips: Seq<IpAddress>, i: int)
    requires
        0 <= i < ips.len(),
        !spec_is_global(ips[i]),
    ensures
        !spec_filter_allows(Some(ips)),
{
}

} // verus!
