//! Typed IP addresses and the decoder that reads one out of a raw address
//! buffer of a host entry.

use vstd::prelude::*;

use crate::family::AddressFamily;

verus! {

/// Number of bytes in an address buffer of the given family.
pub open spec fn spec_addr_len(family: AddressFamily) -> nat {
    match family {
        AddressFamily::Inet => 4,
        AddressFamily::Inet6 => 16,
    }
}

/// An IPv4 address: four octets, kept exactly as stored in the record
/// (network order, no conversion).
#[derive(Clone, Copy, Debug, PartialEq, Eq)]
pub struct Ipv4Addr {
    octets: [u8; 4],
}

impl Ipv4Addr {
    /// The four octets, in order.
    pub closed spec fn spec_octets(self) -> Seq<u8> {
        self.octets@
    }

    pub fn new(octets: [u8; 4]) -> (r: Self)
        ensures
            r.spec_octets() == octets@,
    {
        Ipv4Addr { octets }
    }

    pub fn octets(&self) -> (r: [u8; 4])
        ensures
            r@ == self.spec_octets(),
    {
        self.octets
    }
}

/// An IPv6 address: sixteen octets, kept exactly as stored in the record
/// (network order, no conversion).
#[derive(Clone, Copy, Debug, PartialEq, Eq)]
pub struct Ipv6Addr {
    octets: [u8; 16],
}

impl Ipv6Addr {
    /// The sixteen octets, in order.
    pub closed spec fn spec_octets(self) -> Seq<u8> {
        self.octets@
    }

    pub fn new(octets: [u8; 16]) -> (r: Self)
        ensures
            r.spec_octets() == octets@,
    {
        Ipv6Addr { octets }
    }

    pub fn octets(&self) -> (r: [u8; 16])
        ensures
            r@ == self.spec_octets(),
    {
        self.octets
    }
}

/// A decoded address of either family.
#[derive(Clone, Copy, Debug, PartialEq, Eq)]
pub enum IpAddr {
    V4(Ipv4Addr),
    V6(Ipv6Addr),
}

impl IpAddr {
    /// The raw octets of the address, in stored order.
    pub open spec fn spec_bytes(self) -> Seq<u8> {
        match self {
            IpAddr::V4(a) => a.spec_octets(),
            IpAddr::V6(a) => a.spec_octets(),
        }
    }

    /// Whether this is an IPv4 address.
    pub open spec fn spec_is_v4(self) -> bool {
        self is V4
    }

    pub fn is_v4(&self) -> (r: bool)
        ensures
            r == self.spec_is_v4(),
    {
        match self {
            IpAddr::V4(_) => true,
            IpAddr::V6(_) => false,
        }
    }
}

/// Whether a decoded address matches a family tag and a raw buffer: a tag of
/// `None` (unrecognized family) decodes to no value at all; a known family
/// decodes to an address of that family whose octets are the buffer's bytes,
/// in stored order.
pub open spec fn decodes_to(
    family: Option<AddressFamily>,
    bytes: Seq<u8>,
    r: Option<IpAddr>,
) -> bool {
    match family {
        None => r is None,
        Some(f) => r matches Some(a) && a.spec_is_v4() == (f is Inet) && a.spec_bytes() == bytes,
    }
}

/// Decodes one raw address buffer under a family tag: 4 bytes make an IPv4
/// address, 16 an IPv6 address, and an unrecognized family yields no value.
/// Byte order is preserved exactly as stored.
pub fn ip_address_from_bytes(family: Option<AddressFamily>, h_addr: &Vec<u8>) -> (r: Option<
    IpAddr,
>)
    requires
        family matches Some(f) ==> h_addr@.len() == spec_addr_len(f),
    ensures
        decodes_to(family, h_addr@, r),
{
    match family {
        None => None,
        Some(AddressFamily::Inet) => {
            let octets: [u8; 4] = [h_addr[0], h_addr[1], h_addr[2], h_addr[3]];
            let a = Ipv4Addr::new(octets);
            proof {
                assert(a.spec_octets() =~= h_addr@);
            }
            Some(IpAddr::V4(a))
        },
        Some(AddressFamily::Inet6) => {
            let octets: [u8; 16] = [
                h_addr[0],
                h_addr[1],
                h_addr[2],
                h_addr[3],
                h_addr[4],
                h_addr[5],
                h_addr[6],
                h_addr[7],
                h_addr[8],
                h_addr[9],
                h_addr[10],
                h_addr[11],
                h_addr[12],
                h_addr[13],
                h_addr[14],
                h_addr[15],
            ];
            let a = Ipv6Addr::new(octets);
            proof {
                assert(a.spec_octets() =~= h_addr@);
            }
            Some(IpAddr::V6(a))
        },
    }
}

} // verus!
