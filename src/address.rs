//! Network endpoints that listeners bind to.
use vstd::prelude::*;

verus! {

/// The IP part of an endpoint, as the bits of the address.
#[derive(Clone, Copy, Debug, PartialEq, Eq, Structural)]
pub enum IpAddress {
    V4(u32),
    V6(u128),
}

/// An IP-and-port endpoint.
#[derive(Clone, Copy, Debug, PartialEq, Eq, Structural)]
pub struct Address {
    pub ip: IpAddress,
    pub port: u16,
}

/// The 32 bits of the IPv4 address `a.b.c.d`, most significant octet first.
pub open spec fn ipv4_bits(a: u8, b: u8, c: u8, d: u8) -> int {
    a * 0x100_0000 + b * 0x1_0000 + c * 0x100 + d
}

impl Address {
    /// The endpoint `a.b.c.d:port`.
    pub fn v4(a: u8, b: u8, c: u8, d: u8, port: u16) -> (r: Address)
        ensures
            r.ip == IpAddress::V4(ipv4_bits(a, b, c, d) as u32),
            ipv4_bits(a, b, c, d) <= u32::MAX,
            r.port == port,
    {
        assert(a * 0x100_0000 <= 0xff00_0000 && b * 0x1_0000 <= 0xff_0000 && c * 0x100 <= 0xff00)
            by (nonlinear_arith)
            requires
                a <= 0xff,
                b <= 0xff,
                c <= 0xff,
        ;
        let bits: u32 = (a as u32) * 0x100_0000 + (b as u32) * 0x1_0000 + (c as u32) * 0x100
            + (d as u32);
        Address { ip: IpAddress::V4(bits), port }
    }

    /// The endpoint with the given IP address and port.
    pub fn new(ip: IpAddress, port: u16) -> (r: Address)
        ensures
            r.ip == ip,
            r.port == port,
    {
        Address { ip, port }
    }

    /// True for an IPv4 endpoint.
    pub fn is_ipv4(&self) -> (r: bool)
        ensures
            r == (self.ip is V4),
    {
        match self.ip {
            IpAddress::V4(_) => true,
            IpAddress::V6(_) => false,
        }
    }
}

} // verus!
