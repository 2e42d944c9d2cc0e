//! The address-family tag of a host entry and its mapping from the raw
//! integer code found in a record.

use vstd::prelude::*;

verus! {

/// Address family of a decoded record: IPv4 or IPv6. A code that names
/// neither maps to `None` ("unrecognized") rather than to an error.
#[derive(Clone, Copy, Debug, PartialEq, Eq, Structural)]
pub enum AddressFamily {
    Inet,
    Inet6,
}

/// The raw code that stands for IPv4 on this platform.
pub const AF_INET_CODE: i32 = 2;

/// The raw code that stands for IPv6 on this platform.
pub const AF_INET6_CODE: i32 = 10;

/// Relies on `libc::AF_INET`, which is `2` on this target.
#[verifier::external_body]
fn af_inet() -> (r: i32)
    ensures
        r == AF_INET_CODE,
{
    libc::AF_INET
}

/// Relies on `libc::AF_INET6`, which is `10` on this target.
#[verifier::external_body]
fn af_inet6() -> (r: i32)
    ensures
        r == AF_INET6_CODE,
{
    libc::AF_INET6
}

/// What `address_family` returns for a given raw code.
pub open spec fn spec_address_family(code: i32) -> Option<AddressFamily> {
    if code == AF_INET_CODE {
        Some(AddressFamily::Inet)
    } else if code == AF_INET6_CODE {
        Some(AddressFamily::Inet6)
    } else {
        None
    }
}

/// Maps the raw address-family code of a record to its tag. Total: every
/// code that is neither the IPv4 nor the IPv6 code maps to `None`.
pub fn address_family(code: i32) -> (r: Option<AddressFamily>)
    ensures
        r == spec_address_family(code),
{
    if code == af_inet() {
        Some(AddressFamily::Inet)
    } else if code == af_inet6() {
        Some(AddressFamily::Inet6)
    } else {
        None
    }
}

} // verus!
