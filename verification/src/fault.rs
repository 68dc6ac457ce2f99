//! The terminal failures of a session: those found while a cartridge is
//! loaded and those found while instructions run.

use vstd::prelude::*;

verus! {

/// Why a cartridge image was refused. No session exists after any of these.
#[derive(Debug, Clone, Copy, PartialEq, Eq, Structural)]
pub enum LoadError {
    /// The image is too short to back both ROM windows.
    Truncated,
    /// The hardware-type byte of the header names no supported cartridge.
    UnsupportedCartType { code: u8 },
    /// The ROM-size byte of the header is not a supported code.
    UnsupportedRomSize { code: u8 },
    /// The RAM-size byte of the header is not a supported code.
    UnsupportedRamSize { code: u8 },
}

/// Why an instruction could not be carried out.
#[derive(Debug, Clone, Copy, PartialEq, Eq, Structural)]
pub enum Fault {
    /// The byte selects no operation of the base table.
    UnknownOpcode { opcode: u8 },
    /// The byte after the escape code selects no operation of the extended table.
    UnknownExtendedOpcode { opcode: u8 },
    /// No device owns the address.
    Unmapped { addr: u16 },
    /// The address was handed to a device that does not understand it.
    OutOfRange { addr: u16 },
}

/// A fault together with the address of the instruction that met it.
#[derive(Debug, Clone, Copy, PartialEq, Eq, Structural)]
pub struct Fatal {
    pub fault: Fault,
    pub pc: u16,
}

} // verus!
