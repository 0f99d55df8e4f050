use vstd::prelude::*;

verus! {

/// A peer address, held as its numeric value.
#[derive(Clone, Copy, Debug, PartialEq, Eq, Structural)]
pub enum IpAddr {
    V4(u32),
    V6(u128),
}

/// One entry of an allow-list.
#[derive(Clone, Copy, Debug, PartialEq, Eq, Structural)]
pub enum IpPattern {
    /// Exactly this address.
    Single(IpAddr),
    /// Every address that shares the first `prefix` bits with `net`.
    Subnet(IpAddr, u8),
    /// Every address of the same family from `lo` to `hi`, both included.
    Range(IpAddr, IpAddr),
}

pub open spec fn v4_in_subnet(a: u32, net: u32, prefix: u8) -> bool {
    prefix == 0 || (prefix <= 32 && (a >> ((32 - prefix) as u32)) == (net >> ((32 - prefix) as u32)))
}

pub open spec fn v6_in_subnet(a: u128, net: u128, prefix: u8) -> bool {
    prefix == 0 || (prefix <= 128 && (a >> ((128 - prefix) as u32)) == (net >> ((128
        - prefix) as u32)))
}

/// Whether `peer` is covered by the pattern `p`.
pub open spec fn pattern_matches(p: IpPattern, peer: IpAddr) -> bool {
    match p {
        IpPattern::Single(a) => a == peer,
        IpPattern::Subnet(IpAddr::V4(n), prefix) => match peer {
            IpAddr::V4(a) => v4_in_subnet(a, n, prefix),
            IpAddr::V6(_) => false,
        },
        IpPattern::Subnet(IpAddr::V6(n), prefix) => match peer {
            IpAddr::V6(a) => v6_in_subnet(a, n, prefix),
            IpAddr::V4(_) => false,
        },
        IpPattern::Range(IpAddr::V4(lo), IpAddr::V4(hi)) => match peer {
            IpAddr::V4(a) => lo <= a <= hi,
            IpAddr::V6(_) => false,
        },
        IpPattern::Range(IpAddr::V6(lo), IpAddr::V6(hi)) => match peer {
            IpAddr::V6(a) => lo <= a <= hi,
            IpAddr::V4(_) => false,
        },
        IpPattern::Range(_, _) => false,
    }
}

/// Whether some entry of `list` covers `peer`.
pub open spec fn peer_in_list(peer: IpAddr, list: Seq<IpPattern>) -> bool {
    exists|i: int| 0 <= i < list.len() && pattern_matches(#[trigger] list[i], peer)
}

pub fn check_pattern(p: &IpPattern, peer: &IpAddr) -> (r: bool)
    ensures
        r == pattern_matches(*p, *peer),
{
    match (*p, *peer) {
        (IpPattern::Single(a), b) => a == b,
        (IpPattern::Subnet(IpAddr::V4(n), prefix), IpAddr::V4(a)) => {
            if prefix == 0 {
                true
            } else if prefix > 32 {
                false
            } else {
                let s: u32 = (32 - prefix) as u32;
                (a >> s) == (n >> s)
            }
        },
        (IpPattern::Subnet(IpAddr::V6(n), prefix), IpAddr::V6(a)) => {
            if prefix == 0 {
                true
            } else if prefix > 128 {
                false
            } else {
                let s: u32 = (128 - prefix) as u32;
                (a >> s) == (n >> s)
            }
        },
        (IpPattern::Range(IpAddr::V4(lo), IpAddr::V4(hi)), IpAddr::V4(a)) => lo <= a && a <= hi,
        (IpPattern::Range(IpAddr::V6(lo), IpAddr::V6(hi)), IpAddr::V6(a)) => lo <= a && a <= hi,
        _ => false,
    }
}

/// Whether the peer address is covered by some entry of the allow-list.
pub fn check_peer_addr_is_in_list(peer: &IpAddr, list: &Vec<IpPattern>) -> (r: bool)
    ensures
        r == peer_in_list(*peer, list@),
{
    let mut i: usize = 0;
    while i < list.len()
        invariant
            i <= list@.len(),
            forall|j: int| 0 <= j < i ==> !pattern_matches(#[trigger] list@[j], *peer),
        decreases list@.len() - i,
    {
        if check_pattern(&list[i], peer) {
            return true;
        }
        i = i + 1;
    }
    false
}

} // verus!
