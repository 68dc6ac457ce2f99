//! The registers of the sound unit and its wave memory, as the bus sees
//! them. Synthesis is not part of this crate.

use vstd::prelude::*;
use crate::fault::Fault;

verus! {

/// The address of the first sound register.
pub const SOUND_START: u16 = 0xff10;

/// One past the address of the last byte of wave memory.
pub const SOUND_END: u16 = 0xff40;

/// The registers of the sound unit.
#[derive(Debug)]
pub struct Spu {
    registers: Vec<u8>,
}

impl View for Spu {
    type V = Map<u16, u8>;

    /// The registers by address.
    closed spec fn view(&self) -> Map<u16, u8> {
        Map::new(
            |addr: u16| Spu::handles(addr),
            |addr: u16| self.registers@[addr - SOUND_START],
        )
    }
}

impl Spu {
    /// The addresses at which the unit has a register.
    pub open spec fn handles(addr: u16) -> bool {
        SOUND_START <= addr < SOUND_END
    }

    /// The registers at reset: all zero.
    pub open spec fn reset() -> Map<u16, u8> {
        Map::new(|addr: u16| Spu::handles(addr), |addr: u16| 0u8)
    }

    /// The unit holds one byte for each of its addresses.
    pub closed spec fn wf(&self) -> bool {
        self.registers@.len() == SOUND_END - SOUND_START
    }

    /// The registers at reset.
    pub fn new() -> (spu: Spu)
        ensures
            spu.wf(),
            spu@ == Spu::reset(),
    {
        let spu = Spu { registers: vec![0u8; 0x30] };
        assert(spu@ =~= Spu::reset());
        spu
    }

    /// Writes a register. An address without a register is a fault, and
    /// changes nothing.
    pub fn write(&mut self, addr: u16, val: u8) -> (done: Result<(), Fault>)
        requires
            old(self).wf(),
        ensures
            final(self).wf(),
            Spu::handles(addr) ==> done == Ok::<(), Fault>(()) && final(self)@ == old(self)@.insert(addr, val),
            !Spu::handles(addr) ==> done == Err::<(), Fault>(Fault::OutOfRange { addr }) && final(self)@ == old(self)@,
    {
        if addr < SOUND_START || addr >= SOUND_END {
            return Err(Fault::OutOfRange { addr });
        }
        self.registers.set((addr - SOUND_START) as usize, val);
        assert(self@ =~= old(self)@.insert(addr, val));
        Ok(())
    }

    /// Reads a register. An address without a register is a fault.
    pub fn read(&self, addr: u16) -> (byte: Result<u8, Fault>)
        requires
            self.wf(),
        ensures
            Spu::handles(addr) ==> byte == Ok::<u8, Fault>(self@[addr]),
            !Spu::handles(addr) ==> byte == Err::<u8, Fault>(Fault::OutOfRange { addr }),
    {
        if addr < SOUND_START || addr >= SOUND_END {
            return Err(Fault::OutOfRange { addr });
        }
        Ok(self.registers[(addr - SOUND_START) as usize])
    }
}

} // verus!
