//! Safe, verified views over DNS host-entry records.
//!
//! A resolver hands back a host entry: a primary name, an address-family
//! code, a null-terminated list of raw address buffers and a null-terminated
//! list of alias strings. This crate models such a record as plain data,
//! decodes the address buffers into typed IP addresses, walks both lists with
//! cursor-style iterators that stop at the first null slot, and renders the
//! whole entry as text. Owned and borrowed wrappers expose the same view of
//! one record through a common trait.

pub mod addr;
pub mod display;
pub mod family;
pub mod hostent;

pub use addr::{ip_address_from_bytes, IpAddr, Ipv4Addr, Ipv6Addr};
pub use display::{addr_text, display, format_entry, ipv4_text, ipv6_text, text_or_placeholder};
pub use family::{address_family, AddressFamily};
pub use hostent::{
    HasHostent, HostAddressResultsIter, HostAliasResultsIter, HostRecord, HostentBorrowed,
    HostentOwned,
};
