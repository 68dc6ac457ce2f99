//! Memory bank controllers: what maps the fixed cartridge windows of the
//! address space onto the cartridge's ROM and RAM.

use vstd::prelude::*;

pub mod mbc1;

verus! {

/// The cartridge RAM that a controller owns.
#[derive(Debug, Clone, Copy, PartialEq, Eq, Structural)]
pub struct RamInfo {
    /// Size in bytes.
    pub size: u32,
}

/// What a controller needs to know of its cartridge.
#[derive(Debug, Clone, Copy, PartialEq, Eq, Structural)]
pub struct MbcInfo {
    /// The number of whole 16 KiB banks in the ROM image.
    pub rom_banks: usize,
    /// The cartridge RAM, where there is any.
    pub ram_info: Option<RamInfo>,
}

} // verus!
