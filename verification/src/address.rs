//! The socket address of a peer, as plain values.

use vstd::prelude::*;

verus! {

/// A peer's socket address. Two addresses are equal when they are of the
/// same family and agree in every field.
#[derive(Debug, Copy, Clone, PartialEq, Eq, Structural)]
pub enum Address {
    /// An IPv4 address, as its 32-bit number, and a port.
    V4 { ipv4: u32, port: u16 },
    /// An IPv6 address, as its 128-bit number, with port, flow information
    /// and scope.
    V6 { ipv6: u128, port: u16, flow_info: u32, scope_id: u32 },
}

impl Address {
    /// The port of the address, of either family.
    pub open spec fn spec_port(&self) -> u16 {
        match *self {
            Address::V4 { port, .. } => port,
            Address::V6 { port, .. } => port,
        }
    }

    /// The port of the address, of either family.
    #[verifier::when_used_as_spec(spec_port)]
    pub fn port(&self) -> (port: u16)
        ensures
            port == self.spec_port(),
    {
        match *self {
            Address::V4 { port, .. } => port,
            Address::V6 { port, .. } => port,
        }
    }
}

} // verus!
