//! The raw register primitive: a one-byte pointer, a buffer of one or two
//! bytes, and the validation that guards every bus transaction.
//!
//! A read is one combined transaction: write the pointer byte, then read
//! `len` bytes into the buffer without releasing the bus in between. A write
//! is one transaction sending the pointer byte followed by the buffer. This
//! module prepares and validates those transactions; performing them is the
//! caller's job.

use crate::mcp9808::Error;
use vstd::prelude::*;

verus! {

/// The addressable register offsets of the device, each with a fixed
/// read-only/writable classification.
#[derive(Clone, Copy, Debug, PartialEq, Eq, Structural)]
pub enum RegisterPointer {
    Config,
    TempUpper,
    TempLower,
    TempCritical,
    TempAmbient,
    ManufId,
    DeviceId,
    Resolution,
}

impl RegisterPointer {
    /// The one-byte pointer value written on the bus to select this register.
    pub open spec fn spec_as_u8(self) -> u8 {
        match self {
            RegisterPointer::Config => 0x01,
            RegisterPointer::TempUpper => 0x02,
            RegisterPointer::TempLower => 0x03,
            RegisterPointer::TempCritical => 0x04,
            RegisterPointer::TempAmbient => 0x05,
            RegisterPointer::ManufId => 0x06,
            RegisterPointer::DeviceId => 0x07,
            RegisterPointer::Resolution => 0x08,
        }
    }

    /// The one-byte pointer value of this register.
    pub fn as_u8(self) -> (r: u8)
        ensures
            r == self.spec_as_u8(),
    {
        match self {
            RegisterPointer::Config => 0x01,
            RegisterPointer::TempUpper => 0x02,
            RegisterPointer::TempLower => 0x03,
            RegisterPointer::TempCritical => 0x04,
            RegisterPointer::TempAmbient => 0x05,
            RegisterPointer::ManufId => 0x06,
            RegisterPointer::DeviceId => 0x07,
            RegisterPointer::Resolution => 0x08,
        }
    }

    /// Whether the device rejects writes to this register.
    pub open spec fn spec_is_read_only(self) -> bool {
        match self {
            RegisterPointer::TempAmbient => true,
            RegisterPointer::ManufId => true,
            RegisterPointer::DeviceId => true,
            _ => false,
        }
    }

    /// Whether this register is read-only.
    pub fn is_read_only(self) -> (r: bool)
        ensures
            r == self.spec_is_read_only(),
    {
        match self {
            RegisterPointer::TempAmbient => true,
            RegisterPointer::ManufId => true,
            RegisterPointer::DeviceId => true,
            _ => false,
        }
    }
}

/// Mathematical image of a [`Register`]: its pointer, the two buffer bytes
/// (position 0 holds the most significant byte), and the declared length.
pub ghost struct RegisterShape {
    pub ptr: RegisterPointer,
    pub b0: u8,
    pub b1: u8,
    pub len: int,
}

/// A short-lived register value: pointer, two-byte buffer and byte length.
///
/// The length is taken as given at construction; `read_request` and
/// `write_frame` reject any length outside 1..=2 before a transaction is
/// attempted.
#[derive(Clone, Copy, Debug)]
pub struct Register {
    ptr: RegisterPointer,
    buf: [u8; 2],
    len: usize,
}

impl View for Register {
    type V = RegisterShape;

    closed spec fn view(&self) -> RegisterShape {
        RegisterShape { ptr: self.ptr, b0: self.buf[0], b1: self.buf[1], len: self.len as int }
    }
}

impl Register {
    /// A fresh register for the given pointer with a zeroed buffer. The
    /// length is stored as given; it is validated by the transaction
    /// builders, not here.
    pub fn new(ptr: RegisterPointer, len: usize) -> (r: Self)
        ensures
            r@ == (RegisterShape { ptr, b0: 0u8, b1: 0u8, len: len as int }),
    {
        Self { ptr, buf: [0; 2], len }
    }

    /// The one-byte pointer value of this register.
    pub fn get_ptr(&self) -> (r: u8)
        ensures
            r == self@.ptr.spec_as_u8(),
    {
        self.ptr.as_u8()
    }

    /// The live prefix of the buffer, as a fresh vector of `len` bytes.
    pub fn get_buf(&self) -> (r: Vec<u8>)
        requires
            self@.len <= 2,
        ensures
            r@.len() == self@.len,
            self@.len >= 1 ==> r@[0] == self@.b0,
            self@.len == 2 ==> r@[1] == self@.b1,
    {
        let mut out: Vec<u8> = Vec::new();
        if self.len >= 1 {
            out.push(self.buf[0]);
        }
        if self.len == 2 {
            out.push(self.buf[1]);
        }
        out
    }

    /// Replace the whole two-byte buffer.
    pub fn set_buf(&mut self, data: [u8; 2])
        ensures
            final(self)@ == (RegisterShape {
                b0: data[0],
                b1: data[1],
                ..old(self)@
            }),
    {
        self.buf = data;
    }

    /// The declared byte length of this register.
    pub fn get_len(&self) -> (r: usize)
        ensures
            r == self@.len,
    {
        self.len
    }

    /// Whether the register's pointer is read-only.
    pub fn is_read_only(&self) -> (r: bool)
        ensures
            r == self@.ptr.spec_is_read_only(),
    {
        self.ptr.is_read_only()
    }

    /// The least significant byte: buffer position 1.
    pub fn get_lsb(&self) -> (r: u8)
        ensures
            r == self@.b1,
    {
        self.buf[1]
    }

    /// The most significant byte: buffer position 0.
    pub fn get_msb(&self) -> (r: u8)
        ensures
            r == self@.b0,
    {
        self.buf[0]
    }

    /// Set the least significant byte.
    pub fn set_lsb(&mut self, lsb: u8)
        ensures
            final(self)@ == (RegisterShape { b1: lsb, ..old(self)@ }),
    {
        self.buf[1] = lsb;
    }

    /// Set the most significant byte.
    pub fn set_msb(&mut self, msb: u8)
        ensures
            final(self)@ == (RegisterShape { b0: msb, ..old(self)@ }),
    {
        self.buf[0] = msb;
    }

    /// The bit at the given index of the buffer. Bits 0..8 address the least
    /// significant byte; bit 8 crosses into the most significant byte. An
    /// out-of-range index is a contract violation, not a recoverable error.
    pub fn get_bit(&self, bit: usize) -> (r: bool)
        requires
            bit < self@.len * 8,
            self@.len <= 2,
        ensures
            r == spec_bit_of(self@, bit as int),
    {
        if bit < 8 {
            (self.get_lsb() & (1u8 << bit)) != 0
        } else {
            (self.get_msb() & (1u8 << (bit - 8))) != 0
        }
    }

    /// Set or clear the bit at the given index, indexed as in [`Self::get_bit`].
    pub fn set_bit(&mut self, bit: usize, value: bool)
        requires
            bit < old(self)@.len * 8,
            old(self)@.len <= 2,
        ensures
            final(self)@ == spec_with_bit(old(self)@, bit as int, value),
    {
        if bit < 8 {
            if value {
                let b = self.get_lsb() | (1u8 << bit);
                self.set_lsb(b);
            } else {
                let b = self.get_lsb() & !(1u8 << bit);
                self.set_lsb(b);
            }
        } else {
            if value {
                let b = self.get_msb() | (1u8 << (bit - 8));
                self.set_msb(b);
            } else {
                let b = self.get_msb() & !(1u8 << (bit - 8));
                self.set_msb(b);
            }
        }
    }

    /// The buffer reinterpreted as one 16-bit value, buffer position 0 taken
    /// as the low byte. Used only for the manufacturer-id and resolution
    /// comparisons, never for temperature, which always goes through the
    /// explicit byte accessors.
    pub fn as_u16(&self) -> (r: u16)
        ensures
            r == self@.b0 + self@.b1 * 256,
    {
        let r = (self.buf[0] as u16) | ((self.buf[1] as u16) << 8u16);
        proof {
            let b0 = self@.b0;
            let b1 = self@.b1;
            assert(((b0 as u16) | ((b1 as u16) << 8u16)) == b0 + b1 * 256) by (bit_vector);
        }
        r
    }

    /// Fill the buffer from a 16-bit value with the same reinterpretation as
    /// [`Self::as_u16`]: the low byte lands in buffer position 0.
    pub fn from_u16(&mut self, value: u16)
        ensures
            final(self)@ == (RegisterShape {
                b0: (value % 256) as u8,
                b1: (value / 256) as u8,
                ..old(self)@
            }),
    {
        let b0 = (value & 0xFF) as u8;
        let b1 = (value >> 8u16) as u8;
        proof {
            assert((value & 0xFF) as u8 == (value % 256) as u8) by (bit_vector);
            assert((value >> 8u16) as u8 == (value / 256) as u8) by (bit_vector);
        }
        self.buf = [b0, b1];
    }

    /// Validate this register for a combined write-then-read transaction.
    /// Returns the pointer byte to write and the number of bytes to read
    /// back, or the validation error; no transaction may be attempted on an
    /// invalid length.
    pub fn read_request<E>(&self) -> (r: Result<(u8, usize), Error<E>>)
        ensures
            match r {
                Ok((ptr, len)) => {
                    &&& 1 <= self@.len <= 2
                    &&& ptr == self@.ptr.spec_as_u8()
                    &&& len == self@.len
                },
                Err(e) => {
                    &&& !(1 <= self@.len <= 2)
                    &&& e is InvalidRegisterLength
                },
            },
    {
        if self.len == 0 || self.len > 2 {
            return Err(Error::InvalidRegisterLength);
        }
        Ok((self.get_ptr(), self.len))
    }

    /// Validate this register for a write transaction and build its frame:
    /// the pointer byte followed by the live buffer bytes. Rejects lengths
    /// outside 1..=2, then rejects read-only pointers; no transaction may be
    /// attempted in either case.
    pub fn write_frame<E>(&self) -> (r: Result<Vec<u8>, Error<E>>)
        ensures
            match r {
                Ok(frame) => {
                    &&& 1 <= self@.len <= 2
                    &&& !self@.ptr.spec_is_read_only()
                    &&& frame@.len() == self@.len + 1
                    &&& frame@[0] == self@.ptr.spec_as_u8()
                    &&& frame@[1] == self@.b0
                    &&& self@.len == 2 ==> frame@[2] == self@.b1
                },
                Err(e) => match e {
                    Error::InvalidRegisterLength => !(1 <= self@.len <= 2),
                    Error::ReadOnlyRegister => 1 <= self@.len <= 2
                        && self@.ptr.spec_is_read_only(),
                    Error::I2c(_) => false,
                },
            },
    {
        if self.len == 0 || self.len > 2 {
            return Err(Error::InvalidRegisterLength);
        }
        if self.is_read_only() {
            return Err(Error::ReadOnlyRegister);
        }
        let mut frame: Vec<u8> = Vec::new();
        frame.push(self.get_ptr());
        frame.push(self.buf[0]);
        if self.len == 2 {
            frame.push(self.buf[1]);
        }
        Ok(frame)
    }
}

/// The bit at the given index of a register image, indexed as in
/// [`Register::get_bit`].
pub open spec fn spec_bit_of(shape: RegisterShape, bit: int) -> bool {
    if bit < 8 {
        shape.b1 & (1u8 << bit) != 0
    } else {
        shape.b0 & (1u8 << (bit - 8)) != 0
    }
}

/// The register image with the bit at the given index set or cleared,
/// indexed as in [`Register::get_bit`].
pub open spec fn spec_with_bit(shape: RegisterShape, bit: int, value: bool) -> RegisterShape {
    if bit < 8 {
        if value {
            RegisterShape { b1: shape.b1 | (1u8 << bit), ..shape }
        } else {
            RegisterShape { b1: shape.b1 & !(1u8 << bit), ..shape }
        }
    } else {
        if value {
            RegisterShape { b0: shape.b0 | (1u8 << (bit - 8)), ..shape }
        } else {
            RegisterShape { b0: shape.b0 & !(1u8 << (bit - 8)), ..shape }
        }
    }
}

} // verus!
