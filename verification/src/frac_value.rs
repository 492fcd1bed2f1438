//! The 32-bit fixed-point value of the root delay and dispersion fields.

use crate::endian::{be_bytes, be_value, read_be_u32, write_be_u32};
use vstd::prelude::*;

verus! {

/// A 32-bit unsigned fixed-point number, as the delay and dispersion fields
/// of an NTP message carry it.
#[derive(Debug, Copy, Clone, PartialEq, Eq, Structural)]
pub struct FracValue {
    pub val: u32,
}

impl FracValue {
    /// Decodes a value from a four-byte big-endian buffer.
    pub fn read(buf: &[u8]) -> (value: FracValue)
        requires
            buf@.len() == 4,
        ensures
            value.val as nat == be_value(buf@),
    {
        FracValue { val: read_be_u32(buf) }
    }

    /// Encodes the value into a four-byte big-endian buffer.
    pub fn write(&self, buf: &mut [u8])
        requires
            old(buf)@.len() == 4,
        ensures
            final(buf)@ == be_bytes(self.val as nat, 4),
    {
        write_be_u32(buf, self.val);
    }

    /// The value zero.
    pub fn zero() -> (value: FracValue)
        ensures
            value.val == 0,
    {
        FracValue { val: 0 }
    }

    /// Adds one. The value must not already be the largest.
    pub fn increment(&mut self)
        requires
            old(self).val < u32::MAX,
        ensures
            final(self).val == old(self).val + 1,
    {
        self.val = self.val + 1;
    }
}

} // verus!
