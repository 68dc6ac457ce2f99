//! The processor, system bus and cartridge bank controller of a Game Boy
//! class handheld, with contracts stated over mathematical views of the
//! machine state.

use vstd::prelude::*;

pub mod cart;
pub mod cpu;
pub mod disassembler;
pub mod fault;
pub mod gamepad;
pub mod interconnect;
pub mod mbc;
pub mod opcode;
pub mod ppu;
pub mod registers;
pub mod spu;
pub mod timer;

verus! {

/// The two hardware generations whose power-on register state differs.
#[derive(Debug, Clone, Copy, PartialEq, Eq, Structural)]
pub enum GameboyType {
    Cgb,
    Dmg,
}

/// Clock speed of the processor.
#[derive(Debug, Clone, Copy, PartialEq, Eq, Structural)]
pub enum CpuClock {
    Normal,
    Double,
}

impl CpuClock {
    /// Clock cycles per second at this speed.
    pub open spec fn hertz(self) -> int {
        match self {
            CpuClock::Normal => 4_194_304,
            CpuClock::Double => 8_388_608,
        }
    }

    /// Clock cycles per second at this speed.
    pub fn value(self) -> (hz: u32)
        ensures
            hz == self.hertz(),
    {
        match self {
            CpuClock::Normal => 4_194_304,
            CpuClock::Double => 8_388_608,
        }
    }
}

/// The five interrupt sources, in priority order.
#[derive(Debug, Clone, Copy, PartialEq, Eq, Structural)]
pub enum Interrupt {
    VBlank,
    LCDStat,
    TimerOverflow,
    Serial,
    Joypad,
}

impl Interrupt {
    /// Position of the source's bit in the interrupt flag and enable registers.
    pub open spec fn index(self) -> nat {
        match self {
            Interrupt::VBlank => 0,
            Interrupt::LCDStat => 1,
            Interrupt::TimerOverflow => 2,
            Interrupt::Serial => 3,
            Interrupt::Joypad => 4,
        }
    }

    /// The mask with exactly the source's bit set.
    pub fn flag(self) -> (mask: u8)
        ensures
            mask == vstd::arithmetic::power2::pow2(self.index()),
    {
        proof {
            vstd::arithmetic::power2::lemma2_to64();
        }
        match self {
            Interrupt::VBlank => 0b0_0001,
            Interrupt::LCDStat => 0b0_0010,
            Interrupt::TimerOverflow => 0b0_0100,
            Interrupt::Serial => 0b0_1000,
            Interrupt::Joypad => 0b1_0000,
        }
    }
}

} // verus!
