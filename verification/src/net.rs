use vstd::prelude::*;

verus! {

/// The family of an IP address.
#[derive(Debug, PartialEq, Eq, Structural, Clone, Copy)]
pub enum IpFamily {
    V4,
    V6,
}

/// An IP address, carried as its numeric value: 32 bits for IPv4, two
/// 64-bit halves (high first) for IPv6.
#[derive(Debug, PartialEq, Eq, Structural, Clone, Copy)]
pub enum IpAddress {
    V4 { bits: u32 },
    V6 { bits_hi: u64, bits_lo: u64 },
}

impl IpAddress {
    /// The family an address belongs to.
    pub open spec fn spec_family(self) -> IpFamily {
        match self {
            IpAddress::V4 { .. } => IpFamily::V4,
            IpAddress::V6 { .. } => IpFamily::V6,
        }
    }

    /// Returns the family of this address.
    pub fn family(&self) -> (f: IpFamily)
        ensures
            f == self.spec_family(),
    {
        match self {
            IpAddress::V4 { .. } => IpFamily::V4,
            IpAddress::V6 { .. } => IpFamily::V6,
        }
    }
}

/// The wildcard ("any") address of a family.
pub open spec fn spec_wildcard_address(family: IpFamily) -> IpAddress {
    match family {
        IpFamily::V4 => IpAddress::V4 { bits: 0 },
        IpFamily::V6 => IpAddress::V6 { bits_hi: 0, bits_lo: 0 },
    }
}

/// Computes the wildcard local address of the given family; its family
/// always matches the one asked for.
pub fn wildcard_address(family: IpFamily) -> (a: IpAddress)
    ensures
        a == spec_wildcard_address(family),
        a.spec_family() == family,
{
    match family {
        IpFamily::V4 => IpAddress::V4 { bits: 0 },
        IpFamily::V6 => IpAddress::V6 { bits_hi: 0, bits_lo: 0 },
    }
}

/// A socket address: an IP address together with a port.
#[derive(Debug, PartialEq, Eq, Structural, Clone, Copy)]
pub struct SocketEndpoint {
    pub addr: IpAddress,
    pub port: u16,
}

} // verus!
