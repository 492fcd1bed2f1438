//! The values that the server currently advertises.

use crate::frac_value::FracValue;
use crate::timestamp::Timestamp;
use vstd::prelude::*;

verus! {

/// The fields of a reply that come from the server's own state rather than
/// from the request.
#[derive(Debug, Copy, Clone, PartialEq, Eq, Structural)]
pub struct ServerState {
    pub leap: u8,
    pub stratum: u8,
    pub precision: i8,
    pub ref_id: u32,
    pub ref_ts: Timestamp,
    pub dispersion: FracValue,
    pub delay: FracValue,
}

} // verus!
