//! The MBC1 bank controller: a five-bit and a two-bit bank selector, a
//! banking mode and a write lock for the cartridge RAM that it owns.

use vstd::prelude::*;
use vstd::arithmetic::div_mod::{lemma_fundamental_div_mod, lemma_mod_bound, lemma_mod_decreases};
use crate::cart::{RAM_BANK_SIZE, ROM_BANK_SIZE};
use crate::fault::Fault;
use crate::mbc::MbcInfo;

verus! {

/// First address of the switchable ROM window.
pub const ROM_WINDOW: u16 = 0x4000;

/// First address of the cartridge RAM window.
pub const RAM_WINDOW: u16 = 0xa000;

/// One past the last address of the cartridge RAM window.
pub const RAM_WINDOW_END: u16 = 0xc000;

/// The controller and the cartridge RAM that it owns.
#[derive(Debug)]
pub struct Mbc1 {
    ram_write_protected: bool,
    rom_bank_0: u8,
    rom_bank_1: u8,
    ram_select: bool,
    rom_banks: usize,
    rom_offset: usize,
    ram_offset: usize,
    ram: Vec<u8>,
}

/// The controller as the contracts see it.
pub struct Mbc1View {
    /// Writes to the cartridge RAM are to be dropped.
    pub ram_write_protected: bool,
    /// The low ROM-bank selector: five bits.
    pub rom_bank_low: u8,
    /// The selector shared by the high ROM-bank bits and the RAM bank: two bits.
    pub bank_high: u8,
    /// The banking mode: the shared selector picks a RAM bank, not a ROM bank.
    pub ram_banking: bool,
    /// The number of banks in the ROM that the controller was made for.
    pub rom_banks: nat,
    /// The cartridge RAM.
    pub ram: Seq<u8>,
}

impl Mbc1View {
    /// The selectors are in range, and there is a bank to select.
    pub open spec fn wf(self) -> bool {
        &&& self.rom_bank_low < 32
        &&& self.bank_high < 4
        &&& self.rom_banks >= 1
    }

    /// The controller at power-on: RAM locked and zeroed, all selectors zero,
    /// ROM-banking mode.
    pub open spec fn power_on(info: MbcInfo) -> Mbc1View {
        Mbc1View {
            ram_write_protected: true,
            rom_bank_low: 0,
            bank_high: 0,
            ram_banking: false,
            rom_banks: info.rom_banks as nat,
            ram: Seq::new(
                match info.ram_info {
                    Some(ram_info) => ram_info.size as nat,
                    None => 0,
                },
                |i: int| 0u8,
            ),
        }
    }

    /// The bank that the selectors ask for: the low selector with zero read
    /// as one, and above it the shared selector while in ROM-banking mode.
    pub open spec fn selected_rom_bank(self) -> nat {
        (if self.rom_bank_low == 0 {
            1nat
        } else {
            self.rom_bank_low as nat
        }) + (if self.ram_banking {
            0nat
        } else {
            32 * self.bank_high as nat
        })
    }

    /// The bank of the image that the switchable window shows: the selected
    /// bank, reduced modulo the number of banks that the image has.
    pub open spec fn rom_bank(self) -> nat {
        self.selected_rom_bank() % self.rom_banks
    }

    /// Where in the image the switchable window starts.
    pub open spec fn rom_offset(self) -> nat {
        self.rom_bank() * ROM_BANK_SIZE as nat
    }

    /// The number of banks in the cartridge RAM, a last bank that is not
    /// whole counted as one.
    pub open spec fn ram_banks(self) -> nat {
        (self.ram.len() + RAM_BANK_SIZE - 1) as nat / RAM_BANK_SIZE as nat
    }

    /// The RAM bank that the RAM window shows: the shared selector while in
    /// RAM-banking mode, reduced modulo the number of RAM banks, else bank 0.
    pub open spec fn ram_bank(self) -> nat {
        if self.ram_banking && self.ram_banks() > 0 {
            self.bank_high as nat % self.ram_banks()
        } else {
            0
        }
    }

    /// Where in the cartridge RAM the RAM window starts.
    pub open spec fn ram_offset(self) -> nat {
        self.ram_bank() * RAM_BANK_SIZE as nat
    }

    /// The position in the cartridge RAM that an address stands for: the
    /// window's offset plus the address's distance from the start of the
    /// window, where the address is in the window and that position is
    /// inside the RAM.
    pub open spec fn ram_index(self, addr: u16) -> Option<int> {
        if RAM_WINDOW <= addr < RAM_WINDOW_END && self.ram_offset() + (addr - RAM_WINDOW)
            < self.ram.len() {
            Some(self.ram_offset() + (addr - RAM_WINDOW))
        } else {
            None
        }
    }

    /// What a read of a ROM window returns: below `0x4000` the byte of the
    /// first bank, below `0x8000` the byte of the selected bank.
    pub open spec fn read(self, rom: Seq<u8>, addr: u16) -> Result<u8, Fault> {
        if addr < ROM_WINDOW {
            Ok(rom[addr as int])
        } else if addr < 0x8000 {
            Ok(rom[self.rom_offset() + (addr - ROM_WINDOW)])
        } else {
            Err(Fault::OutOfRange { addr })
        }
    }

    /// The controller after a write to one of its four control registers.
    pub open spec fn write(self, addr: u16, val: u8) -> Result<Mbc1View, Fault> {
        if addr < 0x2000 {
            Ok(Mbc1View { ram_write_protected: val % 16 != 0x0a, ..self })
        } else if addr < 0x4000 {
            Ok(Mbc1View { rom_bank_low: val % 32, ..self })
        } else if addr < 0x6000 {
            Ok(Mbc1View { bank_high: val % 4, ..self })
        } else if addr < 0x8000 {
            Ok(Mbc1View { ram_banking: val % 2 == 1, ..self })
        } else {
            Err(Fault::OutOfRange { addr })
        }
    }

    /// What a read of the RAM window returns, lock or no lock: the byte of
    /// the cartridge RAM that the address stands for, and a fault where it
    /// stands for none.
    pub open spec fn read_ram(self, addr: u16) -> Result<u8, Fault> {
        match self.ram_index(addr) {
            Some(i) => Ok(self.ram[i]),
            None => Err(Fault::OutOfRange { addr }),
        }
    }

    /// The controller after a write to the RAM window: the byte that the
    /// address stands for is replaced, and where it stands for none the
    /// write is a fault. The lock is not consulted here: it is the bus that
    /// honours it.
    pub open spec fn write_ram(self, addr: u16, val: u8) -> Result<Mbc1View, Fault> {
        match self.ram_index(addr) {
            Some(i) => Ok(Mbc1View { ram: self.ram.update(i, val), ..self }),
            None => Err(Fault::OutOfRange { addr }),
        }
    }
}

/// The window offsets stay inside the buffers that they index: the ROM
/// window lies whole inside the banks that the controller was made for, and
/// the RAM window starts inside the cartridge RAM where there is any.
pub proof fn lemma_offsets_in_bounds(m: Mbc1View)
    requires
        m.wf(),
    ensures
        m.rom_bank() < m.rom_banks,
        m.selected_rom_bank() < 128,
        m.rom_offset() + ROM_BANK_SIZE <= m.rom_banks * ROM_BANK_SIZE,
        m.rom_bank() < 128,
        m.ram_bank() < 4,
        m.ram.len() > 0 ==> m.ram_bank() < m.ram_banks() && m.ram_offset() < m.ram.len(),
        m.ram.len() == 0 ==> m.ram_offset() == 0,
{
    lemma_mod_bound(m.selected_rom_bank() as int, m.rom_banks as int);
    lemma_mod_decreases(m.selected_rom_bank(), m.rom_banks);
    lemma_ram_banks(m.ram.len());
    if m.ram_banks() > 0 && m.ram_banking {
        lemma_mod_bound(m.bank_high as int, m.ram_banks() as int);
        lemma_mod_decreases(m.bank_high as nat, m.ram_banks());
    }
}

/// The number of banks that `len` bytes fill, the last one perhaps in part:
/// the least number of whole banks that hold them.
pub proof fn lemma_ram_banks(len: nat)
    ensures
        ({
            let banks = (len + RAM_BANK_SIZE - 1) as nat / RAM_BANK_SIZE as nat;
            &&& banks * RAM_BANK_SIZE >= len
            &&& len > 0 ==> (banks - 1) * RAM_BANK_SIZE < len
            &&& len == 0 <==> banks == 0
            &&& banks == len / RAM_BANK_SIZE as nat + (if len % RAM_BANK_SIZE as nat == 0 {
                0nat
            } else {
                1nat
            })
        }),
{
    lemma_fundamental_div_mod((len + RAM_BANK_SIZE - 1) as int, RAM_BANK_SIZE as int);
    lemma_fundamental_div_mod(len as int, RAM_BANK_SIZE as int);
}

/// A low bank selector of zero is read as one: writing `0x00` and writing
/// `0x01` to the low bank register select the same bank, and that is bank 1
/// of the image where the shared selector adds nothing and the image has
/// more than one bank.
pub proof fn lemma_zero_selects_bank_one(m: Mbc1View, addr: u16)
    requires
        m.wf(),
        0x2000 <= addr < 0x4000,
    ensures
        m.write(addr, 0x00) is Ok,
        m.write(addr, 0x01) is Ok,
        m.write(addr, 0x00)->Ok_0.rom_bank() == m.write(addr, 0x01)->Ok_0.rom_bank(),
        m.write(addr, 0x00)->Ok_0.rom_offset() == m.write(addr, 0x01)->Ok_0.rom_offset(),
        (m.ram_banking || m.bank_high == 0) && m.rom_banks >= 2 ==> m.write(
            addr,
            0x00,
        )->Ok_0.rom_bank() == 1 && m.write(addr, 0x00)->Ok_0.rom_offset() == ROM_BANK_SIZE,
{
    if (m.ram_banking || m.bank_high == 0) && m.rom_banks >= 2 {
        vstd::arithmetic::div_mod::lemma_small_mod(1, m.rom_banks);
    }
}

/// With the RAM-banking mode chosen and then the shared selector set to 2,
/// the RAM window starts `2 * 8192` bytes into the cartridge RAM, where that
/// RAM has more than two banks, the last one perhaps in part.
pub proof fn lemma_ram_bank_two(m: Mbc1View, mode_addr: u16, bank_addr: u16)
    requires
        m.wf(),
        0x6000 <= mode_addr < 0x8000,
        0x4000 <= bank_addr < 0x6000,
        m.ram.len() > 2 * RAM_BANK_SIZE,
    ensures
        m.write(mode_addr, 0x01) is Ok,
        m.write(mode_addr, 0x01)->Ok_0.write(bank_addr, 0x02) is Ok,
        ({
            let after = m.write(mode_addr, 0x01)->Ok_0.write(bank_addr, 0x02)->Ok_0;
            &&& after.ram_offset() == 2 * 8192
            &&& after.read_ram(RAM_WINDOW) == Ok::<u8, Fault>(m.ram[2 * 8192int])
        }),
{
    let after = m.write(mode_addr, 0x01)->Ok_0.write(bank_addr, 0x02)->Ok_0;
    assert(after.ram_banks() >= 3) by {
        lemma_ram_banks(m.ram.len());
    }
    vstd::arithmetic::div_mod::lemma_small_mod(2, after.ram_banks());
}

/// A byte written to the cartridge RAM is read back, and every other byte
/// stays: where an address of the RAM window stands for a byte of the RAM,
/// however short the RAM is, a write there succeeds, a read there then
/// returns the value written, every other address reads as before, and
/// the selectors, the mode and the lock are as they were.
pub proof fn lemma_ram_write_then_read(m: Mbc1View, addr: u16, val: u8, other: u16)
    requires
        m.wf(),
        m.ram_index(addr) is Some,
    ensures
        m.read_ram(addr) is Ok,
        m.write_ram(addr, val) is Ok,
        ({
            let after = m.write_ram(addr, val)->Ok_0;
            &&& after == (Mbc1View { ram: after.ram, ..m })
            &&& after.ram.len() == m.ram.len()
            &&& after.wf()
            &&& after.read_ram(addr) == Ok::<u8, Fault>(val)
            &&& other != addr ==> after.read_ram(other) == m.read_ram(other)
        }),
{
    let after = m.write_ram(addr, val)->Ok_0;
    assert(after.ram_banks() == m.ram_banks());
    assert(after.ram_offset() == m.ram_offset());
}

impl View for Mbc1 {
    type V = Mbc1View;

    closed spec fn view(&self) -> Mbc1View {
        Mbc1View {
            ram_write_protected: self.ram_write_protected,
            rom_bank_low: self.rom_bank_0,
            bank_high: self.rom_bank_1,
            ram_banking: self.ram_select,
            rom_banks: self.rom_banks as nat,
            ram: self.ram@,
        }
    }
}

impl Mbc1 {
    /// The selectors are in range and the stored window offsets are the ones
    /// that the selectors give.
    pub closed spec fn wf(&self) -> bool {
        &&& self@.wf()
        &&& self.rom_offset == self@.rom_offset()
        &&& self.ram_offset == self@.ram_offset()
    }

    /// A well-formed controller has a well-formed view.
    pub proof fn lemma_wf(&self)
        requires
            self.wf(),
        ensures
            self@.wf(),
    {
    }

    /// The controller at power-on, for a ROM of `mbc_info.rom_banks` banks.
    pub fn new(mbc_info: MbcInfo) -> (mbc: Mbc1)
        requires
            mbc_info.rom_banks >= 1,
        ensures
            mbc.wf(),
            mbc@ == Mbc1View::power_on(mbc_info),
    {
        let ram: Vec<u8> = if let Some(ram_info) = mbc_info.ram_info {
            vec![0u8; ram_info.size as usize]
        } else {
            Vec::new()
        };
        let mut mbc = Mbc1 {
            ram_write_protected: true,
            rom_bank_0: 0,
            rom_bank_1: 0,
            ram_select: false,
            rom_banks: mbc_info.rom_banks,
            rom_offset: 0,
            ram_offset: 0,
            ram,
        };
        assert(mbc@.ram =~= Mbc1View::power_on(mbc_info).ram);
        mbc.update_rom_offset();
        mbc.update_ram_offset();
        mbc
    }

    fn update_rom_offset(&mut self)
        requires
            old(self)@.wf(),
        ensures
            final(self)@ == old(self)@,
            final(self).ram_offset == old(self).ram_offset,
            final(self).rom_offset == old(self)@.rom_offset(),
    {
        let bank_0: usize = if self.rom_bank_0 == 0 {
            1
        } else {
            self.rom_bank_0 as usize
        };
        let bank_1: usize = if self.ram_select {
            0
        } else {
            self.rom_bank_1 as usize
        };
        proof {
            lemma_offsets_in_bounds(self@);
        }
        let bank: usize = (bank_0 + bank_1 * 32) % self.rom_banks;
        self.rom_offset = bank * ROM_BANK_SIZE;
    }

    fn update_ram_offset(&mut self)
        requires
            old(self)@.wf(),
        ensures
            final(self)@ == old(self)@,
            final(self).rom_offset == old(self).rom_offset,
            final(self).ram_offset == old(self)@.ram_offset(),
    {
        let whole: usize = self.ram.len() / RAM_BANK_SIZE;
        let banks: usize = if self.ram.len() % RAM_BANK_SIZE == 0 {
            whole
        } else {
            whole + 1
        };
        proof {
            lemma_offsets_in_bounds(self@);
            lemma_ram_banks(self@.ram.len());
        }
        self.ram_offset = if self.ram_select && banks > 0 {
            (self.rom_bank_1 as usize % banks) * RAM_BANK_SIZE
        } else {
            0
        };
    }

    /// Whether writes to the cartridge RAM are to be dropped.
    pub fn ram_write_protected(&self) -> (locked: bool)
        ensures
            locked == self@.ram_write_protected,
    {
        self.ram_write_protected
    }

    /// Reads a byte of the ROM through one of the two ROM windows.
    pub fn read(&self, rom: &[u8], addr: u16) -> (byte: Result<u8, Fault>)
        requires
            self.wf(),
            rom@.len() >= self@.rom_banks * ROM_BANK_SIZE,
        ensures
            byte == self@.read(rom@, addr),
            byte is Ok <==> addr < 0x8000,
    {
        proof {
            lemma_offsets_in_bounds(self@);
        }
        if addr < ROM_WINDOW {
            Ok(rom[addr as usize])
        } else if addr < 0x8000 {
            Ok(rom[addr as usize - 0x4000 + self.rom_offset])
        } else {
            Err(Fault::OutOfRange { addr })
        }
    }

    /// Writes to a control register. The address picks the register: the RAM
    /// lock below `0x2000`, the low bank selector below `0x4000`, the shared
    /// selector below `0x6000`, the banking mode below `0x8000`.
    pub fn write(&mut self, addr: u16, val: u8) -> (done: Result<(), Fault>)
        requires
            old(self).wf(),
        ensures
            final(self).wf(),
            match old(self)@.write(addr, val) {
                Ok(after) => done == Ok::<(), Fault>(()) && final(self)@ == after,
                Err(fault) => done == Err::<(), Fault>(fault) && final(self)@ == old(self)@,
            },
            done is Ok <==> addr < 0x8000,
    {
        if addr < 0x2000 {
            assert((val & 0x0f != 0x0a) == (val % 16 != 0x0a)) by (bit_vector);
            self.ram_write_protected = val & 0x0f != 0x0a;
        } else if addr < 0x4000 {
            assert(val & 0x1f == val % 32) by (bit_vector);
            self.rom_bank_0 = val & 0x1f;
        } else if addr < 0x6000 {
            assert(val & 0x03 == val % 4) by (bit_vector);
            self.rom_bank_1 = val & 0x03;
        } else if addr < 0x8000 {
            assert((val & 0x01 != 0) == (val % 2 == 1)) by (bit_vector);
            self.ram_select = val & 0x01 != 0;
        } else {
            return Err(Fault::OutOfRange { addr });
        }
        self.update_rom_offset();
        self.update_ram_offset();
        Ok(())
    }

    /// Reads a byte of the cartridge RAM through the RAM window.
    pub fn read_ram(&self, addr: u16) -> (byte: Result<u8, Fault>)
        requires
            self.wf(),
        ensures
            byte == self@.read_ram(addr),
            byte is Ok <==> self@.ram_index(addr) is Some,
    {
        proof {
            lemma_offsets_in_bounds(self@);
        }
        if addr < RAM_WINDOW || addr >= RAM_WINDOW_END {
            return Err(Fault::OutOfRange { addr });
        }
        let index: usize = addr as usize - 0xa000 + self.ram_offset;
        if index >= self.ram.len() {
            return Err(Fault::OutOfRange { addr });
        }
        Ok(self.ram[index])
    }

    /// Writes a byte of the cartridge RAM through the RAM window.
    pub fn write_ram(&mut self, addr: u16, val: u8) -> (done: Result<(), Fault>)
        requires
            old(self).wf(),
        ensures
            final(self).wf(),
            match old(self)@.write_ram(addr, val) {
                Ok(after) => done == Ok::<(), Fault>(()) && final(self)@ == after,
                Err(fault) => done == Err::<(), Fault>(fault) && final(self)@ == old(self)@,
            },
            done is Ok <==> old(self)@.ram_index(addr) is Some,
    {
        proof {
            lemma_offsets_in_bounds(self@);
        }
        if addr < RAM_WINDOW || addr >= RAM_WINDOW_END {
            return Err(Fault::OutOfRange { addr });
        }
        let index: usize = addr as usize - 0xa000 + self.ram_offset;
        if index >= self.ram.len() {
            return Err(Fault::OutOfRange { addr });
        }
        self.ram.set(index, val);
        Ok(())
    }
}

} // verus!
