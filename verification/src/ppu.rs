//! The registers of the picture unit, as the bus sees them. Rendering and
//! video timing are not part of this crate.

use vstd::prelude::*;
use crate::fault::Fault;

verus! {

/// The flags of the display control register.
pub const LCD_DISPLAY_ENABLE: u8 = 0b1000_0000;

pub const WINDOW_TILE_MAP_DISPLAY_SELECT: u8 = 0b0100_0000;

pub const WINDOW_DISPLAY_ENABLE: u8 = 0b0010_0000;

pub const BG_WINDOW_TILE_DATE_SELECT: u8 = 0b0001_0000;

pub const BG_TILE_MAP_DISPLAY_SELECT: u8 = 0b0000_1000;

pub const OBJ_SIZE: u8 = 0b0000_0100;

pub const OBJ_DISPLAY_ENABLE: u8 = 0b0000_0010;

pub const BG_DISPLAY: u8 = 0b0000_0001;

/// The display control register: a set of the eight flags above.
#[derive(Debug, Clone, Copy, PartialEq, Eq, Structural)]
pub struct LCDCtrl {
    pub bits: u8,
}

impl LCDCtrl {
    /// The register at reset: display on, tile data at the low address,
    /// background on.
    pub fn new() -> (ctrl: LCDCtrl)
        ensures
            ctrl.bits == 0x91,
            ctrl.bits == LCD_DISPLAY_ENABLE | BG_WINDOW_TILE_DATE_SELECT | BG_DISPLAY,
    {
        assert(0x91u8 == 0b1000_0000u8 | 0b0001_0000u8 | 0b0000_0001u8) by (bit_vector);
        LCDCtrl { bits: LCD_DISPLAY_ENABLE | BG_WINDOW_TILE_DATE_SELECT | BG_DISPLAY }
    }

    /// Whether every flag of `flags` is set.
    pub fn contains(&self, flags: u8) -> (all: bool)
        ensures
            all == (self.bits & flags == flags),
    {
        self.bits & flags == flags
    }
}

/// The picture unit: its nine registers.
#[derive(Debug)]
pub struct Ppu {
    lcdc: LCDCtrl,
    scx: u8,
    scy: u8,
    ly: u8,
    bgp: u8,
    obp_0: u8,
    obp_1: u8,
    window_y: u8,
    window_x: u8,
}

impl View for Ppu {
    type V = Map<u16, u8>;

    /// The registers by address.
    closed spec fn view(&self) -> Map<u16, u8> {
        Map::new(
            |addr: u16| Ppu::handles(addr),
            |addr: u16|
                if addr == 0xff40 {
                    self.lcdc.bits
                } else if addr == 0xff42 {
                    self.scy
                } else if addr == 0xff43 {
                    self.scx
                } else if addr == 0xff44 {
                    self.ly
                } else if addr == 0xff47 {
                    self.bgp
                } else if addr == 0xff48 {
                    self.obp_0
                } else if addr == 0xff49 {
                    self.obp_1
                } else if addr == 0xff4a {
                    self.window_y
                } else {
                    self.window_x
                },
        )
    }
}

impl Ppu {
    /// The addresses at which the unit has a register.
    pub open spec fn handles(addr: u16) -> bool {
        addr == 0xff40 || 0xff42 <= addr <= 0xff44 || 0xff47 <= addr <= 0xff4b
    }

    /// The registers at reset.
    pub open spec fn reset() -> Map<u16, u8> {
        map![
            0xff40u16 => 0x91u8,
            0xff42u16 => 0x00u8,
            0xff43u16 => 0x00u8,
            0xff44u16 => 0x00u8,
            0xff47u16 => 0xfcu8,
            0xff48u16 => 0xffu8,
            0xff49u16 => 0xffu8,
            0xff4au16 => 0x00u8,
            0xff4bu16 => 0x00u8,
        ]
    }

    /// The unit at reset.
    pub fn new() -> (ppu: Ppu)
        ensures
            ppu@ == Ppu::reset(),
    {
        let ppu = Ppu {
            lcdc: LCDCtrl::new(),
            scx: 0,
            scy: 0,
            ly: 0,
            window_y: 0,
            window_x: 0,
            bgp: 0xfc,
            obp_0: 0xff,
            obp_1: 0xff,
        };
        assert(ppu@ =~= Ppu::reset());
        ppu
    }

    /// Writes a register. An address without a register is a fault, and
    /// changes nothing.
    pub fn write(&mut self, addr: u16, val: u8) -> (done: Result<(), Fault>)
        ensures
            Ppu::handles(addr) ==> done == Ok::<(), Fault>(()) && final(self)@ == old(self)@.insert(addr, val),
            !Ppu::handles(addr) ==> done == Err::<(), Fault>(Fault::OutOfRange { addr }) && final(self)@ == old(self)@,
    {
        match addr {
            0xff40 => self.lcdc.bits = val,
            0xff42 => self.scy = val,
            0xff43 => self.scx = val,
            0xff44 => self.ly = val,
            0xff47 => self.bgp = val,
            0xff48 => self.obp_0 = val,
            0xff49 => self.obp_1 = val,
            0xff4a => self.window_y = val,
            0xff4b => self.window_x = val,
            _ => {
                return Err(Fault::OutOfRange { addr });
            },
        }
        assert(self@ =~= old(self)@.insert(addr, val));
        Ok(())
    }

    /// Reads a register. An address without a register is a fault.
    pub fn read(&self, addr: u16) -> (byte: Result<u8, Fault>)
        ensures
            Ppu::handles(addr) ==> byte == Ok::<u8, Fault>(self@[addr]),
            !Ppu::handles(addr) ==> byte == Err::<u8, Fault>(Fault::OutOfRange { addr }),
    {
        match addr {
            0xff40 => Ok(self.lcdc.bits),
            0xff42 => Ok(self.scy),
            0xff43 => Ok(self.scx),
            0xff44 => Ok(self.ly),
            0xff47 => Ok(self.bgp),
            0xff48 => Ok(self.obp_0),
            0xff49 => Ok(self.obp_1),
            0xff4a => Ok(self.window_y),
            0xff4b => Ok(self.window_x),
            _ => Err(Fault::OutOfRange { addr }),
        }
    }

    /// Tells the unit how many cycles have passed. No register depends on
    /// time, so none changes.
    pub fn cycle_flush(&mut self, cycle_count: u32)
        ensures
            final(self)@ == old(self)@,
    {
    }
}

} // verus!
