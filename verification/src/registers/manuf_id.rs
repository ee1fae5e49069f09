//! The manufacturer-id register, compared as one 16-bit value.
//!
//! The comparison reinterprets the buffer through [`Register::as_u16`],
//! which takes buffer position 0 — the byte the device sends first — as the
//! low byte. The known constant is compared against exactly that
//! reinterpretation, deliberately left as it stands.

use crate::registers::register::{Register, RegisterPointer, RegisterShape};
use vstd::prelude::*;

verus! {

/// The manufacturer id the comparison expects, under the fixed
/// reinterpretation of [`Register::as_u16`].
pub const MANUF_ID: u16 = 0x0054;

/// Typed view of the two-byte manufacturer-id register.
#[derive(Clone, Copy, Debug)]
pub struct ManufInfo {
    pub reg: Register,
}

impl ManufInfo {
    /// A fresh manufacturer-id register with a zeroed buffer.
    pub fn new() -> (r: Self)
        ensures
            r.reg@ == (RegisterShape {
                ptr: RegisterPointer::ManufId,
                b0: 0u8,
                b1: 0u8,
                len: 2int,
            }),
    {
        Self { reg: Register::new(RegisterPointer::ManufId, 2) }
    }

    /// The manufacturer id under the fixed 16-bit reinterpretation.
    pub fn get_manuf_id(&self) -> (r: u16)
        ensures
            r == self.reg@.b0 + self.reg@.b1 * 256,
    {
        self.reg.as_u16()
    }

    /// Whether the fetched buffer carries the known manufacturer id.
    pub open spec fn spec_is_valid_manuf(self) -> bool {
        self.reg@.b0 + self.reg@.b1 * 256 == MANUF_ID
    }

    /// Whether the manufacturer id matches the known constant.
    pub fn is_valid_manuf(&self) -> (r: bool)
        ensures
            r == self.spec_is_valid_manuf(),
    {
        self.get_manuf_id() == MANUF_ID
    }
}

} // verus!
