//! The register of the buttons, as the bus sees it. Polling the host's keys
//! is not part of this crate.

use vstd::prelude::*;
use crate::fault::Fault;

verus! {

/// The address of the register.
pub const JOYPAD: u16 = 0xff00;

/// The registers of the buttons.
#[derive(Debug)]
pub struct Gamepad {
    lines: u8,
}

impl View for Gamepad {
    type V = Map<u16, u8>;

    /// The register by its address.
    closed spec fn view(&self) -> Map<u16, u8> {
        Map::new(|addr: u16| Gamepad::handles(addr), |addr: u16| self.lines)
    }
}

impl Gamepad {
    /// The address at which the buttons have their register.
    pub open spec fn handles(addr: u16) -> bool {
        addr == JOYPAD
    }

    /// The register at reset: no line pulled low.
    pub open spec fn reset() -> Map<u16, u8> {
        map![0xff00u16 => 0xffu8]
    }

    /// The registers at reset.
    pub fn new() -> (gamepad: Gamepad)
        ensures
            gamepad@ == Gamepad::reset(),
    {
        let gamepad = Gamepad { lines: 0xff };
        assert(gamepad@ =~= Gamepad::reset());
        gamepad
    }

    /// Writes a register. An address without a register is a fault, and
    /// changes nothing.
    pub fn write(&mut self, addr: u16, val: u8) -> (done: Result<(), Fault>)
        ensures
            Gamepad::handles(addr) ==> done == Ok::<(), Fault>(()) && final(self)@ == old(self)@.insert(addr, val),
            !Gamepad::handles(addr) ==> done == Err::<(), Fault>(Fault::OutOfRange { addr })
                && final(self)@ == old(self)@,
    {
        if addr != JOYPAD {
            return Err(Fault::OutOfRange { addr });
        }
        self.lines = val;
        assert(self@ =~= old(self)@.insert(addr, val));
        Ok(())
    }

    /// Reads a register. An address without a register is a fault.
    pub fn read(&self, addr: u16) -> (byte: Result<u8, Fault>)
        ensures
            Gamepad::handles(addr) ==> byte == Ok::<u8, Fault>(self@[addr]),
            !Gamepad::handles(addr) ==> byte == Err::<u8, Fault>(Fault::OutOfRange { addr }),
    {
        if addr != JOYPAD {
            return Err(Fault::OutOfRange { addr });
        }
        Ok(self.lines)
    }
}

} // verus!
