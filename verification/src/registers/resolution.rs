//! The resolution register: a two-bit device setting that selects the
//! temperature quantization step, from 0.5 degrees down to 0.0625 degrees.
//! It is a one-byte register, carried in buffer position 0.

use crate::registers::register::{Register, RegisterPointer, RegisterShape};
use vstd::prelude::*;

verus! {

/// The four resolution codes. Each step halves the quantization step of the
/// temperature reading: code 0 is 0.5 degrees, code 3 is 0.0625 degrees.
#[allow(non_camel_case_types)]
#[derive(Clone, Copy, Debug, PartialEq, Eq, Structural)]
pub enum TempRes {
    Deg_0_5C,
    Deg_0_25C,
    Deg_0_125C,
    Deg_0_0625C,
}

impl TempRes {
    /// The two-bit code of this resolution.
    pub open spec fn spec_as_u8(self) -> u8 {
        match self {
            TempRes::Deg_0_5C => 0,
            TempRes::Deg_0_25C => 1,
            TempRes::Deg_0_125C => 2,
            TempRes::Deg_0_0625C => 3,
        }
    }

    /// The two-bit code of this resolution.
    pub fn as_u8(self) -> (r: u8)
        ensures
            r == self.spec_as_u8(),
    {
        match self {
            TempRes::Deg_0_5C => 0,
            TempRes::Deg_0_25C => 1,
            TempRes::Deg_0_125C => 2,
            TempRes::Deg_0_0625C => 3,
        }
    }

    /// The resolution selected by the low two bits of a byte.
    pub open spec fn spec_from_u8(value: u8) -> TempRes {
        if value & 0b11 == 0 {
            TempRes::Deg_0_5C
        } else if value & 0b11 == 1 {
            TempRes::Deg_0_25C
        } else if value & 0b11 == 2 {
            TempRes::Deg_0_125C
        } else {
            TempRes::Deg_0_0625C
        }
    }
}

impl From<u8> for TempRes {
    /// Decode the low two bits of a byte; the rest of the byte is ignored.
    fn from(value: u8) -> (r: TempRes) {
        let code = value & 0b11;
        if code == 0 {
            TempRes::Deg_0_5C
        } else if code == 1 {
            TempRes::Deg_0_25C
        } else if code == 2 {
            TempRes::Deg_0_125C
        } else {
            TempRes::Deg_0_0625C
        }
    }
}

impl vstd::std_specs::convert::FromSpecImpl<u8> for TempRes {
    open spec fn obeys_from_spec() -> bool {
        true
    }

    open spec fn from_spec(value: u8) -> TempRes {
        TempRes::spec_from_u8(value)
    }
}

/// Typed view of the one-byte resolution register.
#[derive(Clone, Copy, Debug)]
pub struct Resolution {
    pub reg: Register,
}

impl Resolution {
    /// A fresh resolution register with a zeroed buffer.
    pub fn new() -> (r: Self)
        ensures
            r.reg@ == (RegisterShape {
                ptr: RegisterPointer::Resolution,
                b0: 0u8,
                b1: 0u8,
                len: 1int,
            }),
    {
        Self { reg: Register::new(RegisterPointer::Resolution, 1) }
    }

    /// The resolution encoded in the register byte.
    pub fn get_resolution(&self) -> (r: TempRes)
        ensures
            r == TempRes::spec_from_u8(self.reg@.b0),
    {
        TempRes::from(self.reg.get_msb())
    }

    /// Store a resolution code in the register byte, ready to be written to
    /// the device.
    pub fn set_resolution(&mut self, res: TempRes)
        ensures
            final(self).reg@ == (RegisterShape { b0: res.spec_as_u8(), ..old(self).reg@ }),
    {
        let code = res.as_u8();
        self.reg.set_msb(code);
    }
}

} // verus!
