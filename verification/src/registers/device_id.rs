//! The device-id register: device id in the most significant byte, device
//! revision in the least significant byte.

use crate::registers::register::{Register, RegisterPointer, RegisterShape};
use vstd::prelude::*;

verus! {

/// The device id a genuine device reports.
pub const DEVICE_ID: u8 = 0x04;

/// Typed view of the two-byte device-id register.
#[derive(Clone, Copy, Debug)]
pub struct DevInfoReg {
    pub reg: Register,
}

impl DevInfoReg {
    /// A fresh device-id register with a zeroed buffer.
    pub fn new() -> (r: Self)
        ensures
            r.reg@ == (RegisterShape {
                ptr: RegisterPointer::DeviceId,
                b0: 0u8,
                b1: 0u8,
                len: 2int,
            }),
    {
        Self { reg: Register::new(RegisterPointer::DeviceId, 2) }
    }

    /// The device id: the most significant byte of the fetched buffer.
    pub fn get_device_id(&self) -> (r: u8)
        ensures
            r == self.reg@.b0,
    {
        self.reg.get_msb()
    }

    /// The device revision: the least significant byte of the fetched buffer.
    pub fn get_device_rev(&self) -> (r: u8)
        ensures
            r == self.reg@.b1,
    {
        self.reg.get_lsb()
    }

    /// Whether the fetched buffer carries the known device id.
    pub open spec fn spec_is_valid_device(self) -> bool {
        self.reg@.b0 == DEVICE_ID
    }

    /// Whether the device id matches the known constant.
    pub fn is_valid_device(&self) -> (r: bool)
        ensures
            r == self.spec_is_valid_device(),
    {
        self.get_device_id() == DEVICE_ID
    }
}

} // verus!
