//! Client IP addresses as plain numbers

use vstd::prelude::*;

verus! {

/// An IP address: the 32 bits of a version 4 address or the 128 bits of a
/// version 6 address, most significant byte first
#[derive(Clone, Copy, Debug, PartialEq, Eq, Structural)]
pub enum IpAddress {
    /// Version 4
    V4(u32),
    /// Version 6
    V6(u128),
}

/// Client IP address of a request
#[derive(Clone, Copy, Debug, PartialEq, Eq, Structural)]
pub struct ClientIp {
    /// Internal IP address
    pub ip_address: IpAddress,
}

} // verus!
