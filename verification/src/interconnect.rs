//! The system bus: the one place through which the processor touches
//! memory. Every address belongs to at most one device, and every read and
//! write is forwarded to the device that owns the address.

use vstd::prelude::*;
use crate::cart::{Cart, ROM_BANK_SIZE};
use crate::fault::Fault;
use crate::gamepad::Gamepad;
use crate::mbc::mbc1::{lemma_offsets_in_bounds, Mbc1, Mbc1View};
use crate::mbc::MbcInfo;
use crate::ppu::Ppu;
use crate::spu::Spu;
use crate::timer::Timer;
use crate::GameboyType;

verus! {

/// Where the memories on the bus start, and their sizes in bytes.
pub const VIDEO_RAM_START: u16 = 0x8000;

pub const VIDEO_RAM_SIZE: usize = 0x2000;

pub const WORK_RAM_START: u16 = 0xc000;

pub const WORK_RAM_SIZE: usize = 0x2000;

pub const OAM_START: u16 = 0xfe00;

pub const OAM_SIZE: usize = 0xa0;

pub const HIGH_RAM_START: u16 = 0xff80;

pub const HIGH_RAM_SIZE: usize = 0x7f;

/// The address of the interrupt flag register.
pub const INTERRUPT_FLAG: u16 = 0xff0f;

/// The address of the interrupt enable register.
pub const INTERRUPT_ENABLE: u16 = 0xffff;

/// The devices on the bus.
#[derive(Debug, Clone, Copy, PartialEq, Eq, Structural)]
pub enum Device {
    /// The cartridge behind its bank controller: both ROM windows and the
    /// RAM window.
    Cartridge,
    VideoRam,
    WorkRam,
    /// Object attribute memory.
    Oam,
    Gamepad,
    Timer,
    InterruptFlag,
    Spu,
    Ppu,
    HighRam,
    InterruptEnable,
}

/// The address map: the device that owns an address, if any does. Being a
/// function, it gives no address to two devices.
pub open spec fn owner(addr: u16) -> Option<Device> {
    if addr < 0x8000 {
        Some(Device::Cartridge)
    } else if addr < 0xa000 {
        Some(Device::VideoRam)
    } else if addr < 0xc000 {
        Some(Device::Cartridge)
    } else if addr < 0xe000 {
        Some(Device::WorkRam)
    } else if addr < 0xfe00 {
        None
    } else if addr < 0xfea0 {
        Some(Device::Oam)
    } else if addr < 0xff00 {
        None
    } else if addr == 0xff00 {
        Some(Device::Gamepad)
    } else if 0xff04 <= addr <= 0xff07 {
        Some(Device::Timer)
    } else if addr == 0xff0f {
        Some(Device::InterruptFlag)
    } else if 0xff10 <= addr < 0xff40 {
        Some(Device::Spu)
    } else if 0xff40 <= addr <= 0xff4b {
        Some(Device::Ppu)
    } else if addr < 0xff80 {
        None
    } else if addr < 0xffff {
        Some(Device::HighRam)
    } else {
        Some(Device::InterruptEnable)
    }
}

/// The bus and all that hangs on it, as the contracts see it.
pub struct BusView {
    /// The cartridge image.
    pub rom: Seq<u8>,
    pub mbc: Mbc1View,
    pub vram: Seq<u8>,
    pub wram: Seq<u8>,
    pub oam: Seq<u8>,
    pub hram: Seq<u8>,
    pub gamepad: Map<u16, u8>,
    pub timer: Map<u16, u8>,
    pub spu: Map<u16, u8>,
    pub ppu: Map<u16, u8>,
    pub interrupt_flag: u8,
    pub interrupt_enable: u8,
}

impl BusView {
    /// The memories have their sizes, and the image holds every bank that
    /// the controller can select.
    pub open spec fn wf(self) -> bool {
        &&& self.mbc.wf()
        &&& self.rom.len() >= self.mbc.rom_banks * ROM_BANK_SIZE
        &&& self.vram.len() == VIDEO_RAM_SIZE
        &&& self.wram.len() == WORK_RAM_SIZE
        &&& self.oam.len() == OAM_SIZE
        &&& self.hram.len() == HIGH_RAM_SIZE
    }

    /// The bus at power-on: the memories zeroed, the controller at its
    /// power-on state, no interrupt flagged or enabled.
    pub open spec fn power_on(
        rom: Seq<u8>,
        info: MbcInfo,
        ppu: Map<u16, u8>,
        spu: Map<u16, u8>,
        gamepad: Map<u16, u8>,
    ) -> BusView {
        BusView {
            rom,
            mbc: Mbc1View::power_on(info),
            vram: Seq::new(VIDEO_RAM_SIZE as nat, |i: int| 0u8),
            wram: Seq::new(WORK_RAM_SIZE as nat, |i: int| 0u8),
            oam: Seq::new(OAM_SIZE as nat, |i: int| 0u8),
            hram: Seq::new(HIGH_RAM_SIZE as nat, |i: int| 0u8),
            gamepad,
            timer: Timer::reset(),
            spu,
            ppu,
            interrupt_flag: 0,
            interrupt_enable: 0,
        }
    }

    /// What a read of `addr` returns: the byte that the owning device holds
    /// there, `OutOfRange` where the owner has nothing at the address, and
    /// `Unmapped` where the address has no owner.
    pub open spec fn read(self, addr: u16) -> Result<u8, Fault> {
        match owner(addr) {
            None => Err(Fault::Unmapped { addr }),
            Some(Device::Cartridge) => if addr < 0x8000 {
                self.mbc.read(self.rom, addr)
            } else {
                self.mbc.read_ram(addr)
            },
            Some(Device::VideoRam) => Ok(self.vram[addr - VIDEO_RAM_START]),
            Some(Device::WorkRam) => Ok(self.wram[addr - WORK_RAM_START]),
            Some(Device::Oam) => Ok(self.oam[addr - OAM_START]),
            Some(Device::Gamepad) => Ok(self.gamepad[addr]),
            Some(Device::Timer) => Ok(self.timer[addr]),
            Some(Device::InterruptFlag) => Ok(self.interrupt_flag),
            Some(Device::Spu) => Ok(self.spu[addr]),
            Some(Device::Ppu) => if Ppu::handles(addr) {
                Ok(self.ppu[addr])
            } else {
                Err(Fault::OutOfRange { addr })
            },
            Some(Device::HighRam) => Ok(self.hram[addr - HIGH_RAM_START]),
            Some(Device::InterruptEnable) => Ok(self.interrupt_enable),
        }
    }

    /// The bus after a write of `val` to `addr`. A write to a ROM window
    /// goes to a control register of the bank controller. A write to the
    /// cartridge RAM window is dropped while the RAM is locked.
    pub open spec fn write(self, addr: u16, val: u8) -> Result<BusView, Fault> {
        match owner(addr) {
            None => Err(Fault::Unmapped { addr }),
            Some(Device::Cartridge) => if addr < 0x8000 {
                match self.mbc.write(addr, val) {
                    Ok(mbc) => Ok(BusView { mbc, ..self }),
                    Err(fault) => Err(fault),
                }
            } else if self.mbc.ram_write_protected {
                Ok(self)
            } else {
                match self.mbc.write_ram(addr, val) {
                    Ok(mbc) => Ok(BusView { mbc, ..self }),
                    Err(fault) => Err(fault),
                }
            },
            Some(Device::VideoRam) => Ok(
                BusView { vram: self.vram.update(addr - VIDEO_RAM_START, val), ..self },
            ),
            Some(Device::WorkRam) => Ok(
                BusView { wram: self.wram.update(addr - WORK_RAM_START, val), ..self },
            ),
            Some(Device::Oam) => Ok(BusView { oam: self.oam.update(addr - OAM_START, val), ..self }),
            Some(Device::Gamepad) => Ok(BusView { gamepad: self.gamepad.insert(addr, val), ..self }),
            Some(Device::Timer) => Ok(BusView { timer: self.timer.insert(addr, val), ..self }),
            Some(Device::InterruptFlag) => Ok(BusView { interrupt_flag: val, ..self }),
            Some(Device::Spu) => Ok(BusView { spu: self.spu.insert(addr, val), ..self }),
            Some(Device::Ppu) => if Ppu::handles(addr) {
                Ok(BusView { ppu: self.ppu.insert(addr, val), ..self })
            } else {
                Err(Fault::OutOfRange { addr })
            },
            Some(Device::HighRam) => Ok(
                BusView { hram: self.hram.update(addr - HIGH_RAM_START, val), ..self },
            ),
            Some(Device::InterruptEnable) => Ok(BusView { interrupt_enable: val, ..self }),
        }
    }

    /// Whether the byte at `addr` is plain storage: a write there is kept
    /// and read back. It is so wherever a device holds a byte, but in the
    /// ROM windows and in cartridge RAM that is locked.
    pub open spec fn keeps_writes(self, addr: u16) -> bool {
        &&& self.read(addr) is Ok
        &&& addr >= 0x8000
        &&& owner(addr) == Some(Device::Cartridge) ==> !self.mbc.ram_write_protected
    }
}

/// A write keeps the bus well formed.
pub proof fn lemma_write_keeps_wf(bus: BusView, addr: u16, val: u8)
    requires
        bus.wf(),
    ensures
        bus.write(addr, val) matches Ok(after) ==> after.wf(),
{
    lemma_offsets_in_bounds(bus.mbc);
}

/// A read fails as unmapped exactly where the address has no owner, and a
/// write does so at the same addresses.
pub proof fn lemma_unmapped(bus: BusView, addr: u16, val: u8)
    ensures
        bus.read(addr) == Err::<u8, Fault>(Fault::Unmapped { addr }) <==> owner(addr) is None,
        bus.write(addr, val) == Err::<BusView, Fault>(Fault::Unmapped { addr }) <==> owner(addr)
            is None,
{
}

/// What is read back after a write, at every address.
///
/// A write fails exactly where the address has no owner, where the picture
/// unit refuses it, and in the RAM window of a cartridge without RAM while
/// unlocked; the read of that address then fails with the same fault. After
/// a write that succeeds, plain storage reads back the written value. The
/// fixed ROM window and locked cartridge RAM read as before. The switchable
/// ROM window shows the byte of the bank that is selected after the write:
/// the byte read before, where the write left the window's offset as it was.
pub proof fn lemma_write_then_read(bus: BusView, addr: u16, val: u8)
    requires
        bus.wf(),
    ensures
        bus.write(addr, val) is Ok <==> bus.keeps_writes(addr) || addr < 0x8000 || (owner(addr)
            == Some(Device::Cartridge) && bus.mbc.ram_write_protected),
        bus.write(addr, val) matches Err(fault) ==> bus.read(addr) == Err::<u8, Fault>(fault),
        bus.write(addr, val) matches Ok(after) ==> after.read(addr) == (if bus.keeps_writes(addr) {
            Ok::<u8, Fault>(val)
        } else if 0x4000 <= addr < 0x8000 {
            Ok::<u8, Fault>(bus.rom[after.mbc.rom_offset() + (addr - 0x4000)])
        } else {
            bus.read(addr)
        }),
        bus.write(addr, val) matches Ok(after) ==> after.mbc.rom_offset() == bus.mbc.rom_offset()
            && !bus.keeps_writes(addr) ==> after.read(addr) == bus.read(addr),
{
    lemma_offsets_in_bounds(bus.mbc);
    if bus.keeps_writes(addr) && owner(addr) == Some(Device::Cartridge) {
        let after = bus.mbc.write_ram(addr, val)->Ok_0;
        assert(after.ram_banks() == bus.mbc.ram_banks());
        assert(after.ram_offset() == bus.mbc.ram_offset());
    }
}

/// A write outside the ROM windows changes no other byte: every other
/// address reads as before.
pub proof fn lemma_write_elsewhere(bus: BusView, addr: u16, val: u8, other: u16)
    requires
        bus.wf(),
        addr >= 0x8000,
        other != addr,
    ensures
        bus.write(addr, val) matches Ok(after) ==> after.read(other) == bus.read(other),
{
    lemma_offsets_in_bounds(bus.mbc);
    if owner(addr) == Some(Device::Cartridge) && !bus.mbc.ram_write_protected {
        if bus.mbc.write_ram(addr, val) is Ok {
            let after = bus.mbc.write_ram(addr, val)->Ok_0;
            assert(after.ram_banks() == bus.mbc.ram_banks());
            assert(after.ram_offset() == bus.mbc.ram_offset());
            assert(after.rom_offset() == bus.mbc.rom_offset());
        }
    }
}

/// The lock on the cartridge RAM blocks writes and nothing else. Where an
/// address of the RAM window stands for a byte of the cartridge RAM, a read
/// of it succeeds, locked or not. A
/// write to the lock register unlocks the RAM exactly where the low nibble
/// of the value is `0x0a`: after any other value a write to the RAM window
/// is dropped, the bus staying as it was, and after such a value the write
/// is kept.
pub proof fn lemma_ram_lock(bus: BusView, lock_addr: u16, key: u8, addr: u16, val: u8)
    requires
        bus.wf(),
        lock_addr < 0x2000,
        0xa000 <= addr < 0xc000,
        bus.mbc.ram_index(addr) is Some,
    ensures
        bus.read(addr) is Ok,
        bus.mbc.ram_write_protected ==> bus.write(addr, val) == Ok::<BusView, Fault>(bus),
        bus.write(lock_addr, key) is Ok,
        ({
            let after = bus.write(lock_addr, key)->Ok_0;
            &&& after.mbc.ram_write_protected == (key % 16 != 0x0a)
            &&& after.read(addr) == bus.read(addr)
            &&& key % 16 != 0x0a ==> after.write(addr, val) == Ok::<BusView, Fault>(after)
            &&& key % 16 == 0x0a ==> after.write(addr, val) is Ok && after.write(
                addr,
                val,
            )->Ok_0.read(addr) == Ok::<u8, Fault>(val)
        }),
{
    lemma_offsets_in_bounds(bus.mbc);
    let after = bus.write(lock_addr, key)->Ok_0;
    lemma_write_keeps_wf(bus, lock_addr, key);
    lemma_offsets_in_bounds(after.mbc);
    assert(after.mbc.ram_offset() == bus.mbc.ram_offset());
    if key % 16 == 0x0a {
        lemma_write_then_read(after, addr, val);
    }
}

/// The bus with the devices that it owns.
#[derive(Debug)]
pub struct Interconnect {
    gb_type: GameboyType,
    cart: Cart,
    mbc: Mbc1,
    ppu: Ppu,
    spu: Spu,
    gamepad: Gamepad,
    timer: Timer,
    vram: Vec<u8>,
    wram: Vec<u8>,
    oam: Vec<u8>,
    hram: Vec<u8>,
    interrupt_flag: u8,
    interrupt_enable: u8,
}

impl View for Interconnect {
    type V = BusView;

    closed spec fn view(&self) -> BusView {
        BusView {
            rom: self.cart@,
            mbc: self.mbc@,
            vram: self.vram@,
            wram: self.wram@,
            oam: self.oam@,
            hram: self.hram@,
            gamepad: self.gamepad@,
            timer: self.timer@,
            spu: self.spu@,
            ppu: self.ppu@,
            interrupt_flag: self.interrupt_flag,
            interrupt_enable: self.interrupt_enable,
        }
    }
}

impl Interconnect {
    /// The view is well formed, and so is each device.
    pub closed spec fn wf(&self) -> bool {
        &&& self@.wf()
        &&& self.cart.wf()
        &&& self.mbc.wf()
        &&& self.spu.wf()
    }

    /// A well-formed bus has a well-formed view.
    pub proof fn lemma_wf(&self)
        requires
            self.wf(),
        ensures
            self@.wf(),
    {
    }

    /// The hardware generation that the bus was made for.
    pub closed spec fn spec_gb_type(&self) -> GameboyType {
        self.gb_type
    }

    /// Puts the devices on the bus, with a bank controller made for the
    /// cartridge.
    pub fn new(
        gb_type: GameboyType,
        cart: Cart,
        ppu: Ppu,
        spu: Spu,
        gamepad: Gamepad,
    ) -> (bus: Interconnect)
        requires
            cart.wf(),
            spu.wf(),
        ensures
            bus.wf(),
            bus.spec_gb_type() == gb_type,
            bus@ == BusView::power_on(cart@, cart.spec_mbc_info(), ppu@, spu@, gamepad@),
    {
        let info: MbcInfo = cart.mbc_info();
        let bus = Interconnect {
            gb_type,
            mbc: Mbc1::new(info),
            cart,
            ppu,
            spu,
            gamepad,
            timer: Timer::new(),
            vram: vec![0u8; VIDEO_RAM_SIZE],
            wram: vec![0u8; WORK_RAM_SIZE],
            oam: vec![0u8; OAM_SIZE],
            hram: vec![0u8; HIGH_RAM_SIZE],
            interrupt_flag: 0,
            interrupt_enable: 0,
        };
        proof {
            let target = BusView::power_on(cart@, cart.spec_mbc_info(), ppu@, spu@, gamepad@);
            assert(bus@.vram =~= target.vram);
            assert(bus@.wram =~= target.wram);
            assert(bus@.oam =~= target.oam);
            assert(bus@.hram =~= target.hram);
            bus.mbc.lemma_wf();
        }
        bus
    }

    /// The hardware generation that the bus was made for.
    pub fn gb_type(&self) -> (gb_type: GameboyType)
        ensures
            gb_type == self.spec_gb_type(),
    {
        self.gb_type
    }

    /// Reads the byte at `addr` from the device that owns the address.
    pub fn read(&self, addr: u16) -> (byte: Result<u8, Fault>)
        requires
            self.wf(),
        ensures
            byte == self@.read(addr),
    {
        if addr < 0x8000 {
            self.mbc.read(self.cart.bytes(), addr)
        } else if addr < 0xa000 {
            Ok(self.vram[(addr - VIDEO_RAM_START) as usize])
        } else if addr < 0xc000 {
            self.mbc.read_ram(addr)
        } else if addr < 0xe000 {
            Ok(self.wram[(addr - WORK_RAM_START) as usize])
        } else if addr < 0xfe00 {
            Err(Fault::Unmapped { addr })
        } else if addr < 0xfea0 {
            Ok(self.oam[(addr - OAM_START) as usize])
        } else if addr < 0xff00 {
            Err(Fault::Unmapped { addr })
        } else if addr == 0xff00 {
            self.gamepad.read(addr)
        } else if 0xff04 <= addr && addr <= 0xff07 {
            self.timer.read(addr)
        } else if addr == INTERRUPT_FLAG {
            Ok(self.interrupt_flag)
        } else if 0xff10 <= addr && addr < 0xff40 {
            self.spu.read(addr)
        } else if 0xff40 <= addr && addr <= 0xff4b {
            self.ppu.read(addr)
        } else if addr < 0xff80 {
            Err(Fault::Unmapped { addr })
        } else if addr < 0xffff {
            Ok(self.hram[(addr - HIGH_RAM_START) as usize])
        } else {
            Ok(self.interrupt_enable)
        }
    }

    /// Writes `val` at `addr` to the device that owns the address. A fault
    /// changes nothing.
    pub fn write(&mut self, addr: u16, val: u8) -> (done: Result<(), Fault>)
        requires
            old(self).wf(),
        ensures
            final(self).wf(),
            final(self).spec_gb_type() == old(self).spec_gb_type(),
            match old(self)@.write(addr, val) {
                Ok(after) => done == Ok::<(), Fault>(()) && final(self)@ == after,
                Err(fault) => done == Err::<(), Fault>(fault) && final(self)@ == old(self)@,
            },
    {
        proof {
            lemma_write_keeps_wf(self@, addr, val);
        }
        if addr < 0x8000 {
            self.mbc.write(addr, val)
        } else if addr < 0xa000 {
            self.vram.set((addr - VIDEO_RAM_START) as usize, val);
            Ok(())
        } else if addr < 0xc000 {
            if self.mbc.ram_write_protected() {
                Ok(())
            } else {
                self.mbc.write_ram(addr, val)
            }
        } else if addr < 0xe000 {
            self.wram.set((addr - WORK_RAM_START) as usize, val);
            Ok(())
        } else if addr < 0xfe00 {
            Err(Fault::Unmapped { addr })
        } else if addr < 0xfea0 {
            self.oam.set((addr - OAM_START) as usize, val);
            Ok(())
        } else if addr < 0xff00 {
            Err(Fault::Unmapped { addr })
        } else if addr == 0xff00 {
            self.gamepad.write(addr, val)
        } else if 0xff04 <= addr && addr <= 0xff07 {
            self.timer.write(addr, val)
        } else if addr == INTERRUPT_FLAG {
            self.interrupt_flag = val;
            Ok(())
        } else if 0xff10 <= addr && addr < 0xff40 {
            self.spu.write(addr, val)
        } else if 0xff40 <= addr && addr <= 0xff4b {
            self.ppu.write(addr, val)
        } else if addr < 0xff80 {
            Err(Fault::Unmapped { addr })
        } else if addr < 0xffff {
            self.hram.set((addr - HIGH_RAM_START) as usize, val);
            Ok(())
        } else {
            self.interrupt_enable = val;
            Ok(())
        }
    }

    /// Tells the devices that keep time how many cycles have passed.
    pub fn cycle_flush(&mut self, cycle_count: u32)
        requires
            old(self).wf(),
        ensures
            final(self).wf(),
            final(self).spec_gb_type() == old(self).spec_gb_type(),
            final(self)@ == old(self)@,
    {
        self.ppu.cycle_flush(cycle_count);
    }
}

} // verus!
