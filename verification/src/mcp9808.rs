//! The sensor endpoint: a seven-bit bus address derived from a fixed base
//! pattern plus three configurable low bits, and the error taxonomy of the
//! register protocol.

use vstd::prelude::*;

verus! {

/// Base pattern of the seven-bit bus address; the three configurable low
/// bits select one of eight co-addressable devices.
pub const DEFAULT_ADDRESS: u8 = 0x18;

/// A seven-bit bus address: the fixed default, or the default with up to
/// three low address bits set.
#[derive(Clone, Copy, Debug)]
pub enum Address {
    Default,
    Alternate { bit2: bool, bit1: bool, bit0: bool },
}

impl Address {
    /// The seven-bit address value this selection stands for.
    pub open spec fn spec_as_u8(self) -> u8 {
        match self {
            Address::Default => DEFAULT_ADDRESS,
            Address::Alternate { bit2, bit1, bit0 } => DEFAULT_ADDRESS | ((if bit2 {
                4u8
            } else {
                0u8
            }) | (if bit1 {
                2u8
            } else {
                0u8
            }) | (if bit0 {
                1u8
            } else {
                0u8
            })),
        }
    }

    /// Resolve the address selection to its seven-bit value.
    pub fn as_u8(self) -> (r: u8)
        ensures
            r == self.spec_as_u8(),
    {
        match self {
            Address::Default => DEFAULT_ADDRESS,
            Address::Alternate { bit2, bit1, bit0 } => {
                let low_bits: u8 = (if bit2 {
                    4u8
                } else {
                    0u8
                }) | (if bit1 {
                    2u8
                } else {
                    0u8
                }) | (if bit0 {
                    1u8
                } else {
                    0u8
                });
                DEFAULT_ADDRESS | low_bits
            },
        }
    }
}

/// Errors raised by register-level bus operations. `E` is the error type of
/// the underlying bus transport.
#[derive(Debug)]
pub enum Error<E> {
    /// The underlying bus transport failed.
    I2c(E),
    /// A write was attempted on a read-only register pointer.
    ReadOnlyRegister,
    /// A register length outside 1..=2 was requested.
    InvalidRegisterLength,
}

/// One logical sensor endpoint: the register set bound to one bus address.
pub struct MCP9808 {
    address: u8,
}

impl MCP9808 {
    /// The seven-bit bus address the endpoint is bound to.
    pub closed spec fn spec_address(self) -> u8 {
        self.address
    }

    /// Bind the register set to the given bus address.
    pub fn new(address: Address) -> (r: Self)
        ensures
            r.spec_address() == address.spec_as_u8(),
    {
        Self { address: address.as_u8() }
    }

    /// The currently bound bus address.
    pub fn get_address(&self) -> (r: u8)
        ensures
            r == self.spec_address(),
    {
        self.address
    }

    /// Rebind the endpoint to another bus address.
    pub fn set_address(&mut self, address: Address)
        ensures
            final(self).spec_address() == address.spec_as_u8(),
    {
        self.address = address.as_u8();
    }
}

} // verus!
