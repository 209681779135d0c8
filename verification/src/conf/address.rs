//! Network addresses as the settings name them: an IP address together with
//! a port.
//!
//! The address is read from its text by the standard library's parser, which
//! the caller runs; the library holds the parsed value as plain numbers, so
//! two spellings of one address compare equal.

use vstd::prelude::*;

verus! {

/// An IPv4 address by its four octets, or an IPv6 address by its eight
/// 16-bit segments, most significant first.
#[derive(Clone, Copy, Debug, PartialEq, Eq, Structural)]
pub enum IpAddress {
    V4(u8, u8, u8, u8),
    V6(u16, u16, u16, u16, u16, u16, u16, u16),
}

/// An IP address, a port, and for an IPv6 address its scope id.
#[derive(Clone, Copy, Debug, PartialEq, Eq, Structural)]
pub struct SocketAddress {
    /// The address.
    pub ip: IpAddress,
    /// The port.
    pub port: u16,
    /// The scope id of an IPv6 address (written after `%`); 0 for an IPv4
    /// address and for an IPv6 address written without one.
    pub scope_id: u32,
}

} // verus!
