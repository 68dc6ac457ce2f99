//! The four registers of the timer, as the bus sees them.

use vstd::prelude::*;
use crate::fault::Fault;

verus! {

/// The registers of the timer.
#[derive(Debug)]
pub struct Timer {
    div: u8,
    tima: u8,
    tma: u8,
    tac: u8,
}

impl View for Timer {
    type V = Map<u16, u8>;

    /// The registers by address.
    closed spec fn view(&self) -> Map<u16, u8> {
        Map::new(
            |addr: u16| Timer::handles(addr),
            |addr: u16|
                if addr == 0xff04 {
                    self.div
                } else if addr == 0xff05 {
                    self.tima
                } else if addr == 0xff06 {
                    self.tma
                } else {
                    self.tac
                },
        )
    }
}

impl Timer {
    /// The addresses at which the timer has a register.
    pub open spec fn handles(addr: u16) -> bool {
        0xff04 <= addr <= 0xff07
    }

    /// The registers at reset: all zero.
    pub open spec fn reset() -> Map<u16, u8> {
        map![0xff04u16 => 0x00u8, 0xff05u16 => 0x00u8, 0xff06u16 => 0x00u8, 0xff07u16 => 0x00u8]
    }

    /// The registers at reset.
    pub fn new() -> (timer: Timer)
        ensures
            timer@ == Timer::reset(),
    {
        let timer = Timer { div: 0, tima: 0, tma: 0, tac: 0 };
        assert(timer@ =~= Timer::reset());
        timer
    }

    /// Writes a register. An address without a register is a fault, and
    /// changes nothing.
    pub fn write(&mut self, addr: u16, val: u8) -> (done: Result<(), Fault>)
        ensures
            Timer::handles(addr) ==> done == Ok::<(), Fault>(()) && final(self)@ == old(self)@.insert(addr, val),
            !Timer::handles(addr) ==> done == Err::<(), Fault>(Fault::OutOfRange { addr })
                && final(self)@ == old(self)@,
    {
        match addr {
            0xff04 => self.div = val,
            0xff05 => self.tima = val,
            0xff06 => self.tma = val,
            0xff07 => self.tac = val,
            _ => {
                return Err(Fault::OutOfRange { addr });
            },
        }
        assert(self@ =~= old(self)@.insert(addr, val));
        Ok(())
    }

    /// Reads a register. An address without a register is a fault.
    pub fn read(&self, addr: u16) -> (byte: Result<u8, Fault>)
        ensures
            Timer::handles(addr) ==> byte == Ok::<u8, Fault>(self@[addr]),
            !Timer::handles(addr) ==> byte == Err::<u8, Fault>(Fault::OutOfRange { addr }),
    {
        match addr {
            0xff04 => Ok(self.div),
            0xff05 => Ok(self.tima),
            0xff06 => Ok(self.tma),
            0xff07 => Ok(self.tac),
            _ => Err(Fault::OutOfRange { addr }),
        }
    }
}

} // verus!
