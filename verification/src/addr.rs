//! Socket-address model for the bridging layer.
//!
//! Destinations arrive from the packet dispatcher in either address family.
//! Before a backend is selected, an IPv4-mapped IPv6 destination
//! (`::ffff:a.b.c.d`) must be rewritten to its plain IPv4 form, because the
//! balancer and many backends treat the two spellings as distinct families.

use vstd::prelude::*;

verus! {

/// An IPv4 address as four octets, most significant first.
#[derive(Clone, Copy, Debug, PartialEq, Eq, Structural)]
pub struct Ipv4Octets {
    pub a: u8,
    pub b: u8,
    pub c: u8,
    pub d: u8,
}

/// An IPv6 address as eight 16-bit segments, most significant first.
#[derive(Clone, Copy, Debug, PartialEq, Eq, Structural)]
pub struct Ipv6Segments {
    pub s0: u16,
    pub s1: u16,
    pub s2: u16,
    pub s3: u16,
    pub s4: u16,
    pub s5: u16,
    pub s6: u16,
    pub s7: u16,
}

/// A socket address of either family.
#[derive(Clone, Copy, Debug, PartialEq, Eq, Structural)]
pub enum SockAddr {
    V4 { ip: Ipv4Octets, port: u16 },
    V6 { ip: Ipv6Segments, port: u16 },
}

impl SockAddr {
    pub open spec fn spec_port(&self) -> u16 {
        match *self {
            SockAddr::V4 { port, .. } => port,
            SockAddr::V6 { port, .. } => port,
        }
    }

    /// The port of the address, in either family.
    #[verifier::when_used_as_spec(spec_port)]
    pub fn port(&self) -> (r: u16)
        ensures
            r == self.spec_port(),
    {
        match *self {
            SockAddr::V4 { port, .. } => port,
            SockAddr::V6 { port, .. } => port,
        }
    }
}

/// True when the segments spell an IPv4-mapped IPv6 address (`::ffff:a.b.c.d`).
pub open spec fn is_ipv4_mapped(ip: Ipv6Segments) -> bool {
    ip.s0 == 0 && ip.s1 == 0 && ip.s2 == 0 && ip.s3 == 0 && ip.s4 == 0 && ip.s5 == 0xffff
}

/// The IPv4 address embedded in the low 32 bits of an IPv6 address.
pub open spec fn embedded_ipv4(ip: Ipv6Segments) -> Ipv4Octets {
    Ipv4Octets {
        a: (ip.s6 / 256) as u8,
        b: (ip.s6 % 256) as u8,
        c: (ip.s7 / 256) as u8,
        d: (ip.s7 % 256) as u8,
    }
}

/// The IPv4 address hidden in an IPv4-mapped IPv6 address, if it is one.
pub fn to_ipv4_mapped(ip: &Ipv6Segments) -> (r: Option<Ipv4Octets>)
    ensures
        r == if is_ipv4_mapped(*ip) {
            Some(embedded_ipv4(*ip))
        } else {
            None::<Ipv4Octets>
        },
{
    if ip.s0 == 0 && ip.s1 == 0 && ip.s2 == 0 && ip.s3 == 0 && ip.s4 == 0 && ip.s5 == 0xffff {
        Some(Ipv4Octets {
            a: (ip.s6 / 256) as u8,
            b: (ip.s6 % 256) as u8,
            c: (ip.s7 / 256) as u8,
            d: (ip.s7 % 256) as u8,
        })
    } else {
        None
    }
}

/// What destination normalization returns: an IPv4-mapped IPv6 destination
/// becomes its plain IPv4 form with the same port; anything else is kept.
pub open spec fn spec_normalize_destination(addr: SockAddr) -> SockAddr {
    match addr {
        SockAddr::V6 { ip, port } => if is_ipv4_mapped(ip) {
            SockAddr::V4 { ip: embedded_ipv4(ip), port }
        } else {
            addr
        },
        SockAddr::V4 { .. } => addr,
    }
}

/// Normalizes a destination before backend selection: IPv4-mapped IPv6
/// addresses are rewritten to plain IPv4, all others pass through unchanged.
pub fn normalize_destination(addr: SockAddr) -> (r: SockAddr)
    ensures
        r == spec_normalize_destination(addr),
{
    match addr {
        SockAddr::V6 { ip, port } => match to_ipv4_mapped(&ip) {
            Some(v4) => SockAddr::V4 { ip: v4, port },
            None => addr,
        },
        SockAddr::V4 { .. } => addr,
    }
}

} // verus!
