//! The register file: eight 8-bit registers, four of them pairable, the
//! program counter, the stack pointer and four condition flags.

use vstd::prelude::*;
use crate::GameboyType;

verus! {

/// Selector of an 8-bit register. `F` is the four flags packed into the high
/// nibble of a byte.
#[derive(Debug, Clone, Copy, PartialEq, Eq, Structural)]
pub enum Reg8 {
    A,
    F,
    B,
    C,
    D,
    E,
    H,
    L,
}

/// Selector of a 16-bit register: a pair of 8-bit registers, high byte
/// first, or the stack pointer.
#[derive(Debug, Clone, Copy, PartialEq, Eq, Structural)]
pub enum Reg16 {
    AF,
    BC,
    DE,
    HL,
    SP,
}

/// Selector of a condition flag.
#[derive(Debug, Clone, Copy, PartialEq, Eq, Structural)]
pub enum Flag {
    Zero,
    Subtract,
    HalfCarry,
    Carry,
}

/// The register file. The flags are kept as four booleans; register `F`
/// packs them on reading and unpacks them on writing.
#[derive(Debug, Clone, Copy, PartialEq, Eq, Structural)]
pub struct Registers {
    pub a: u8,
    pub b: u8,
    pub c: u8,
    pub d: u8,
    pub e: u8,
    pub h: u8,
    pub l: u8,
    pub zero: bool,
    pub subtract: bool,
    pub half_carry: bool,
    pub carry: bool,
    pub pc: u16,
    pub sp: u16,
}

/// The 16-bit value whose high byte is `hi` and whose low byte is `lo`.
pub open spec fn pair(hi: u8, lo: u8) -> u16 {
    (hi as int * 256 + lo as int) as u16
}

/// The high byte of a 16-bit value.
pub open spec fn high(value: u16) -> u8 {
    (value as int / 256) as u8
}

/// The low byte of a 16-bit value.
pub open spec fn low(value: u16) -> u8 {
    (value as int % 256) as u8
}

/// The flag byte: Zero in bit 7, Subtract in bit 6, Half-Carry in bit 5,
/// Carry in bit 4, and the low nibble clear.
pub open spec fn pack_flags(zero: bool, subtract: bool, half_carry: bool, carry: bool) -> u8 {
    ((if zero { 128int } else { 0 }) + (if subtract { 64int } else { 0 })
        + (if half_carry { 32int } else { 0 }) + (if carry { 16int } else { 0 })) as u8
}

/// Whether `bit` (0 to 7) is set in `value`.
pub open spec fn bit_set(value: u8, bit: nat) -> bool {
    (value as nat / vstd::arithmetic::power2::pow2(bit)) % 2 == 1
}

/// Joins two bytes into a 16-bit value, high byte first.
pub fn join(hi: u8, lo: u8) -> (value: u16)
    ensures
        value == pair(hi, lo),
        high(value) == hi,
        low(value) == lo,
{
    let value: u16 = ((hi as u16) << 8) | (lo as u16);
    assert(((hi as u16) << 8) | (lo as u16) == (hi as u16) * 256 + (lo as u16)) by (bit_vector);
    value
}

/// Splits a 16-bit value into its high and its low byte.
pub fn split(value: u16) -> (bytes: (u8, u8))
    ensures
        bytes.0 == high(value),
        bytes.1 == low(value),
        pair(bytes.0, bytes.1) == value,
{
    let hi: u8 = (value >> 8) as u8;
    let lo: u8 = (value & 0xff) as u8;
    assert(value >> 8 == value / 256) by (bit_vector);
    assert(value & 0xff == value % 256) by (bit_vector);
    (hi, lo)
}

impl Registers {
    /// The register file at power-on.
    pub open spec fn reset(gb_type: GameboyType) -> Registers {
        match gb_type {
            GameboyType::Dmg => Registers {
                a: 0x01,
                b: 0x00,
                c: 0x13,
                d: 0x00,
                e: 0xd8,
                h: 0x01,
                l: 0x4d,
                zero: true,
                subtract: false,
                half_carry: true,
                carry: true,
                pc: 0x0100,
                sp: 0xfffe,
            },
            GameboyType::Cgb => Registers {
                a: 0x11,
                b: 0x00,
                c: 0x00,
                d: 0xff,
                e: 0x56,
                h: 0x00,
                l: 0x0d,
                zero: true,
                subtract: false,
                half_carry: false,
                carry: false,
                pc: 0x0100,
                sp: 0xfffe,
            },
        }
    }

    /// The flags as the byte that register `F` reads.
    pub open spec fn flags_byte(self) -> u8 {
        pack_flags(self.zero, self.subtract, self.half_carry, self.carry)
    }

    /// What a read of an 8-bit register returns.
    pub open spec fn spec_read_u8(self, which: Reg8) -> u8 {
        match which {
            Reg8::A => self.a,
            Reg8::F => self.flags_byte(),
            Reg8::B => self.b,
            Reg8::C => self.c,
            Reg8::D => self.d,
            Reg8::E => self.e,
            Reg8::H => self.h,
            Reg8::L => self.l,
        }
    }

    /// The register file after `value` is written to `which`. A write to `F`
    /// sets each flag from its bit and drops the low nibble.
    pub open spec fn spec_write_u8(self, which: Reg8, value: u8) -> Registers {
        match which {
            Reg8::A => Registers { a: value, ..self },
            Reg8::F => Registers {
                zero: bit_set(value, 7),
                subtract: bit_set(value, 6),
                half_carry: bit_set(value, 5),
                carry: bit_set(value, 4),
                ..self
            },
            Reg8::B => Registers { b: value, ..self },
            Reg8::C => Registers { c: value, ..self },
            Reg8::D => Registers { d: value, ..self },
            Reg8::E => Registers { e: value, ..self },
            Reg8::H => Registers { h: value, ..self },
            Reg8::L => Registers { l: value, ..self },
        }
    }

    /// The register that holds the high byte of a pair.
    pub open spec fn high_half(which: Reg16) -> Reg8
        recommends
            which != Reg16::SP,
    {
        match which {
            Reg16::AF => Reg8::A,
            Reg16::BC => Reg8::B,
            Reg16::DE => Reg8::D,
            _ => Reg8::H,
        }
    }

    /// The register that holds the low byte of a pair.
    pub open spec fn low_half(which: Reg16) -> Reg8
        recommends
            which != Reg16::SP,
    {
        match which {
            Reg16::AF => Reg8::F,
            Reg16::BC => Reg8::C,
            Reg16::DE => Reg8::E,
            _ => Reg8::L,
        }
    }

    /// What a read of a pair returns: its high register in the high byte,
    /// its low register in the low byte.
    pub open spec fn spec_read_u16(self, which: Reg16) -> u16 {
        match which {
            Reg16::SP => self.sp,
            _ => pair(
                self.spec_read_u8(Self::high_half(which)),
                self.spec_read_u8(Self::low_half(which)),
            ),
        }
    }

    /// The register file after `value` is written to a pair: the high byte
    /// to its high register, the low byte to its low register.
    pub open spec fn spec_write_u16(self, which: Reg16, value: u16) -> Registers {
        match which {
            Reg16::SP => Registers { sp: value, ..self },
            _ => self.spec_write_u8(Self::high_half(which), high(value)).spec_write_u8(
                Self::low_half(which),
                low(value),
            ),
        }
    }

    /// Whether the four flags are the same in both register files.
    pub open spec fn same_flags(self, other: Registers) -> bool {
        &&& self.zero == other.zero
        &&& self.subtract == other.subtract
        &&& self.half_carry == other.half_carry
        &&& self.carry == other.carry
    }

    /// Whether a flag is set.
    pub open spec fn spec_flag(self, which: Flag) -> bool {
        match which {
            Flag::Zero => self.zero,
            Flag::Subtract => self.subtract,
            Flag::HalfCarry => self.half_carry,
            Flag::Carry => self.carry,
        }
    }

    /// The register file after one flag is set or cleared.
    pub open spec fn spec_set_flag(self, which: Flag, on: bool) -> Registers {
        match which {
            Flag::Zero => Registers { zero: on, ..self },
            Flag::Subtract => Registers { subtract: on, ..self },
            Flag::HalfCarry => Registers { half_carry: on, ..self },
            Flag::Carry => Registers { carry: on, ..self },
        }
    }

    /// The register file at power-on.
    pub fn new(gb_type: GameboyType) -> (reg: Registers)
        ensures
            reg == Registers::reset(gb_type),
    {
        match gb_type {
            GameboyType::Dmg => Registers {
                a: 0x01,
                b: 0x00,
                c: 0x13,
                d: 0x00,
                e: 0xd8,
                h: 0x01,
                l: 0x4d,
                zero: true,
                subtract: false,
                half_carry: true,
                carry: true,
                pc: 0x0100,
                sp: 0xfffe,
            },
            GameboyType::Cgb => Registers {
                a: 0x11,
                b: 0x00,
                c: 0x00,
                d: 0xff,
                e: 0x56,
                h: 0x00,
                l: 0x0d,
                zero: true,
                subtract: false,
                half_carry: false,
                carry: false,
                pc: 0x0100,
                sp: 0xfffe,
            },
        }
    }

    fn read_flags(&self) -> (byte: u8)
        ensures
            byte == self.flags_byte(),
    {
        let z: u8 = if self.zero { 0x80 } else { 0 };
        let n: u8 = if self.subtract { 0x40 } else { 0 };
        let h: u8 = if self.half_carry { 0x20 } else { 0 };
        let c: u8 = if self.carry { 0x10 } else { 0 };
        z + n + h + c
    }

    fn write_flags(&mut self, value: u8)
        ensures
            *final(self) == old(self).spec_write_u8(Reg8::F, value),
    {
        proof {
            lemma_bit_set(value);
        }
        self.zero = value & 0x80 != 0;
        self.subtract = value & 0x40 != 0;
        self.half_carry = value & 0x20 != 0;
        self.carry = value & 0x10 != 0;
    }

    /// Reads an 8-bit register.
    pub fn read_u8(&self, which: Reg8) -> (value: u8)
        ensures
            value == self.spec_read_u8(which),
    {
        match which {
            Reg8::A => self.a,
            Reg8::F => self.read_flags(),
            Reg8::B => self.b,
            Reg8::C => self.c,
            Reg8::D => self.d,
            Reg8::E => self.e,
            Reg8::H => self.h,
            Reg8::L => self.l,
        }
    }

    /// Writes an 8-bit register.
    pub fn write_u8(&mut self, which: Reg8, value: u8)
        ensures
            *final(self) == old(self).spec_write_u8(which, value),
    {
        match which {
            Reg8::A => self.a = value,
            Reg8::F => self.write_flags(value),
            Reg8::B => self.b = value,
            Reg8::C => self.c = value,
            Reg8::D => self.d = value,
            Reg8::E => self.e = value,
            Reg8::H => self.h = value,
            Reg8::L => self.l = value,
        }
    }

    /// Reads a register pair or the stack pointer.
    pub fn read_u16(&self, which: Reg16) -> (value: u16)
        ensures
            value == self.spec_read_u16(which),
    {
        match which {
            Reg16::AF => join(self.a, self.read_flags()),
            Reg16::BC => join(self.b, self.c),
            Reg16::DE => join(self.d, self.e),
            Reg16::HL => join(self.h, self.l),
            Reg16::SP => self.sp,
        }
    }

    /// Writes a register pair or the stack pointer.
    pub fn write_u16(&mut self, which: Reg16, value: u16)
        ensures
            *final(self) == old(self).spec_write_u16(which, value),
    {
        let (hi, lo) = split(value);
        match which {
            Reg16::AF => {
                self.a = hi;
                self.write_flags(lo);
            },
            Reg16::BC => {
                self.b = hi;
                self.c = lo;
            },
            Reg16::DE => {
                self.d = hi;
                self.e = lo;
            },
            Reg16::HL => {
                self.h = hi;
                self.l = lo;
            },
            Reg16::SP => self.sp = value,
        }
    }

    /// Tests a flag.
    pub fn flag(&self, which: Flag) -> (on: bool)
        ensures
            on == self.spec_flag(which),
    {
        match which {
            Flag::Zero => self.zero,
            Flag::Subtract => self.subtract,
            Flag::HalfCarry => self.half_carry,
            Flag::Carry => self.carry,
        }
    }

    /// Sets or clears a flag and leaves the other three as they are.
    pub fn set_flag(&mut self, which: Flag, on: bool)
        ensures
            *final(self) == old(self).spec_set_flag(which, on),
    {
        match which {
            Flag::Zero => self.zero = on,
            Flag::Subtract => self.subtract = on,
            Flag::HalfCarry => self.half_carry = on,
            Flag::Carry => self.carry = on,
        }
    }
}

/// The four flag bits of a byte, read by mask, are the bits that `bit_set` names.
proof fn lemma_bit_set(value: u8)
    ensures
        (value & 0x80 != 0) == bit_set(value, 7),
        (value & 0x40 != 0) == bit_set(value, 6),
        (value & 0x20 != 0) == bit_set(value, 5),
        (value & 0x10 != 0) == bit_set(value, 4),
{
    vstd::arithmetic::power2::lemma2_to64();
    assert((value & 0x80 != 0) == ((value / 128) % 2 == 1)) by (bit_vector);
    assert((value & 0x40 != 0) == ((value / 64) % 2 == 1)) by (bit_vector);
    assert((value & 0x20 != 0) == ((value / 32) % 2 == 1)) by (bit_vector);
    assert((value & 0x10 != 0) == ((value / 16) % 2 == 1)) by (bit_vector);
}

/// A byte written to the flag register and read back has lost its low
/// nibble and nothing else.
pub proof fn lemma_flags_round_trip(reg: Registers, value: u8)
    ensures
        reg.spec_write_u8(Reg8::F, value).spec_read_u8(Reg8::F) == value - value % 16,
{
    lemma_bit_set(value);
    assert((if value & 0x80 != 0 { 128u8 } else { 0 }) + (if value & 0x40 != 0 { 64u8 } else { 0 })
        + (if value & 0x20 != 0 { 32u8 } else { 0 }) + (if value & 0x10 != 0 { 16u8 } else { 0 })
        == value - value % 16) by (bit_vector);
}

/// A byte pair survives the trip through a register pair: reading a pair
/// right after writing it gives the value written, except that the low
/// nibble of `AF` reads as zero.
pub proof fn lemma_pair_round_trip(reg: Registers, which: Reg16, value: u16)
    ensures
        which != Reg16::AF ==> reg.spec_write_u16(which, value).spec_read_u16(which) == value,
        which == Reg16::AF ==> reg.spec_write_u16(which, value).spec_read_u16(which) == (value
            - value % 16) as u16,
{
    assert(pair(high(value), low(value)) == value);
    if which == Reg16::AF {
        let lo: u8 = low(value);
        lemma_flags_round_trip(reg.spec_write_u8(Reg8::A, high(value)), lo);
        assert(lo % 16 == value % 16);
        assert(pair(high(value), (lo - lo % 16) as u8) == value - value % 16);
    }
}

/// A write to a register pair changes its two halves and nothing else: every
/// other 8-bit register, the program counter and, unless it is the target,
/// the stack pointer read as before.
pub proof fn lemma_pair_write_frame(reg: Registers, which: Reg16, value: u16, other: Reg8)
    requires
        which != Reg16::SP,
        other != Registers::high_half(which),
        other != Registers::low_half(which),
    ensures
        reg.spec_write_u16(which, value).spec_read_u8(other) == reg.spec_read_u8(other),
        reg.spec_write_u16(which, value).pc == reg.pc,
        reg.spec_write_u16(which, value).sp == reg.sp,
        reg.spec_write_u16(which, value).spec_read_u8(Registers::high_half(which)) == high(value),
{
}

} // verus!
