//! The execution engine: it fetches an instruction through the bus, decodes
//! it, carries it out on the register file and the bus, and counts the
//! cycles that it cost.
//!
//! What an instruction does is stated on `CpuView`, the machine as a
//! mathematical value. Each method of `Cpu` is proved to do to the machine
//! what the function of the same name says of its view.

use vstd::prelude::*;
use crate::fault::{Fatal, Fault};
use crate::interconnect::{
    lemma_write_elsewhere,
    lemma_write_keeps_wf,
    lemma_write_then_read,
    BusView,
    Interconnect,
};
use crate::opcode::{
    cb_opcode_time,
    opcode_time,
    CB_OPCODE_TIMES,
    MAX_INSTRUCTION_CYCLES,
    OPCODE_TIMES,
    PREFIX,
};
use crate::registers::{high, join, low, pair, split, Reg16, Reg8, Registers};
use crate::GameboyType;

verus! {

/// The first address of high memory, to which a one-byte offset is added.
pub const HIGH_MEMORY: u16 = 0xff00;

/// When a jump is taken.
#[derive(Debug, Clone, Copy, PartialEq, Eq, Structural)]
pub enum Cond {
    Uncond,
    Zero,
    Carry,
    NotZero,
    NotCarry,
}

/// Where an 8-bit value comes from.
#[derive(Debug, Clone, Copy, PartialEq, Eq, Structural)]
pub enum Src8 {
    /// A register.
    Reg(Reg8),
    /// The byte at the program counter.
    Imm8,
    /// The byte in memory at the 16-bit address found at the program counter.
    ImmAddr16,
    /// The byte in high memory at the one-byte offset found at the program counter.
    HiMem,
}

/// Where an 8-bit value goes to.
#[derive(Debug, Clone, Copy, PartialEq, Eq, Structural)]
pub enum Dst8 {
    /// A register.
    Reg(Reg8),
    /// Memory at the 16-bit address found at the program counter.
    ImmAddr16,
    /// High memory at the one-byte offset found at the program counter.
    HiMem,
}

/// Where a 16-bit value comes from.
#[derive(Debug, Clone, Copy, PartialEq, Eq, Structural)]
pub enum Src16 {
    /// A register pair or the stack pointer.
    Reg(Reg16),
    /// The two bytes at the program counter, low byte first.
    Imm16,
}

/// Where a 16-bit value goes to.
#[derive(Debug, Clone, Copy, PartialEq, Eq, Structural)]
pub enum Dst16 {
    /// A register pair or the stack pointer.
    Reg(Reg16),
}

/// An instruction of the base table: an operation and its operands.
#[derive(Debug, Clone, Copy, PartialEq, Eq, Structural)]
pub enum Instruction {
    Nop,
    Stop,
    Jr(Cond, Src8),
    Ld(Dst8, Src8),
    Ld16(Dst16, Src16),
    Xor(Src8),
    Jp(Src16),
    Ret,
    /// The escape code: the next byte selects from the extended table.
    Prefix,
    Call(Src16),
    And(Src8),
    Di,
    Cp(Src8),
}

/// An instruction of the extended table.
#[derive(Debug, Clone, Copy, PartialEq, Eq, Structural)]
pub enum Extended {
    /// Tests bit `bit` of the operand.
    Bit { bit: u8, src: Src8 },
    /// Clears bit `bit` of the register.
    Res { bit: u8, target: Reg8 },
}

/// The instruction that a byte of the base table selects, if it selects one.
pub open spec fn decode(opcode: u8) -> Option<Instruction> {
    if opcode == 0x00 {
        Some(Instruction::Nop)
    } else if opcode == 0x10 {
        Some(Instruction::Stop)
    } else if opcode == 0x20 {
        Some(Instruction::Jr(Cond::NotZero, Src8::Imm8))
    } else if opcode == 0x28 {
        Some(Instruction::Jr(Cond::Zero, Src8::Imm8))
    } else if opcode == 0x31 {
        Some(Instruction::Ld16(Dst16::Reg(Reg16::SP), Src16::Imm16))
    } else if opcode == 0x3e {
        Some(Instruction::Ld(Dst8::Reg(Reg8::A), Src8::Imm8))
    } else if opcode == 0xaf {
        Some(Instruction::Xor(Src8::Reg(Reg8::A)))
    } else if opcode == 0xc3 {
        Some(Instruction::Jp(Src16::Imm16))
    } else if opcode == 0xc9 {
        Some(Instruction::Ret)
    } else if opcode == 0xcb {
        Some(Instruction::Prefix)
    } else if opcode == 0xcd {
        Some(Instruction::Call(Src16::Imm16))
    } else if opcode == 0xe0 {
        Some(Instruction::Ld(Dst8::HiMem, Src8::Reg(Reg8::A)))
    } else if opcode == 0xe6 {
        Some(Instruction::And(Src8::Imm8))
    } else if opcode == 0xea {
        Some(Instruction::Ld(Dst8::ImmAddr16, Src8::Reg(Reg8::A)))
    } else if opcode == 0xf0 {
        Some(Instruction::Ld(Dst8::Reg(Reg8::A), Src8::HiMem))
    } else if opcode == 0xf3 {
        Some(Instruction::Di)
    } else if opcode == 0xfe {
        Some(Instruction::Cp(Src8::Imm8))
    } else {
        None
    }
}

/// The instruction that a byte of the extended table selects, if it selects one.
pub open spec fn decode_extended(opcode: u8) -> Option<Extended> {
    if opcode == 0x7f {
        Some(Extended::Bit { bit: 7, src: Src8::Reg(Reg8::A) })
    } else if opcode == 0x87 {
        Some(Extended::Res { bit: 0, target: Reg8::A })
    } else {
        None
    }
}

/// A 16-bit value reduced modulo 2^16, as the program counter and the stack
/// pointer are after every change.
pub open spec fn wrap16(value: int) -> u16 {
    (value % 0x1_0000) as u16
}

/// A byte read as a signed number: `0x80..=0xff` stand for -128 to -1.
pub open spec fn signed(offset: u8) -> int {
    if offset < 0x80 {
        offset as int
    } else {
        offset - 0x100
    }
}

/// Where a relative jump lands: at the program counter plus the offset as a
/// signed number, modulo 2^16.
pub open spec fn jump_target(pc: u16, offset: u8) -> u16 {
    wrap16(pc + signed(offset))
}

/// Whether a condition holds of the flags.
pub open spec fn holds(cond: Cond, reg: Registers) -> bool {
    match cond {
        Cond::Uncond => true,
        Cond::Zero => reg.zero,
        Cond::Carry => reg.carry,
        Cond::NotZero => !reg.zero,
        Cond::NotCarry => !reg.carry,
    }
}

/// The registers after the accumulator is combined with `value` by AND.
pub open spec fn and_registers(reg: Registers, value: u8) -> Registers {
    Registers {
        a: value & reg.a,
        zero: (value & reg.a) == 0,
        subtract: false,
        half_carry: true,
        carry: false,
        ..reg
    }
}

/// The registers after the accumulator is combined with `value` by XOR.
pub open spec fn xor_registers(reg: Registers, value: u8) -> Registers {
    Registers {
        a: reg.a ^ value,
        zero: (reg.a ^ value) == 0,
        subtract: false,
        half_carry: false,
        carry: false,
        ..reg
    }
}

/// The registers after the accumulator is compared with `value`: the flags
/// of the subtraction, and the accumulator as it was. Half-Carry is the
/// borrow out of bit 3.
pub open spec fn cp_registers(reg: Registers, value: u8) -> Registers {
    Registers {
        zero: reg.a == value,
        subtract: true,
        half_carry: reg.a % 16 < value % 16,
        carry: reg.a < value,
        ..reg
    }
}

/// The registers after bit `bit` of `value` is tested. Carry is not touched.
pub open spec fn bit_registers(reg: Registers, bit: u8, value: u8) -> Registers {
    Registers { zero: ((value >> bit) & 0x01) == 0, subtract: false, half_carry: true, ..reg }
}

/// `value` with bit `bit` cleared.
pub open spec fn reset_bit(bit: u8, value: u8) -> u8 {
    value & !(0x01u8 << bit)
}

/// The machine as the contracts see it.
pub struct CpuView {
    pub reg: Registers,
    pub bus: BusView,
    /// Clock cycles counted so far.
    pub cycles: nat,
}

impl CpuView {
    pub open spec fn wf(self) -> bool {
        self.bus.wf()
    }

    /// The machine at power-on.
    pub open spec fn power_on(gb_type: GameboyType, bus: BusView) -> CpuView {
        CpuView { reg: Registers::reset(gb_type), bus, cycles: 0 }
    }

    /// The same machine with other registers.
    pub open spec fn with_reg(self, reg: Registers) -> CpuView {
        CpuView { reg, ..self }
    }

    /// The same machine with another program counter.
    pub open spec fn with_pc(self, pc: u16) -> CpuView {
        CpuView { reg: Registers { pc, ..self.reg }, ..self }
    }

    /// Reads the byte at the program counter and moves the counter past it.
    pub open spec fn fetch_u8(self) -> (CpuView, Result<u8, Fault>) {
        match self.bus.read(self.reg.pc) {
            Ok(value) => (self.with_pc(wrap16(self.reg.pc + 1)), Ok(value)),
            Err(fault) => (self, Err(fault)),
        }
    }

    /// Reads two bytes at the program counter, the low byte first.
    pub open spec fn fetch_u16(self) -> (CpuView, Result<u16, Fault>) {
        let (first, lo) = self.fetch_u8();
        match lo {
            Ok(lo) => {
                let (second, hi) = first.fetch_u8();
                match hi {
                    Ok(hi) => (second, Ok(pair(hi, lo))),
                    Err(fault) => (second, Err(fault)),
                }
            },
            Err(fault) => (first, Err(fault)),
        }
    }

    /// Moves the stack pointer down by one and writes the byte there.
    pub open spec fn push_u8(self, value: u8) -> (CpuView, Result<(), Fault>) {
        let sp = wrap16(self.reg.sp - 1);
        match self.bus.write(sp, value) {
            Ok(bus) => (CpuView { reg: Registers { sp, ..self.reg }, bus, ..self }, Ok(())),
            Err(fault) => (self, Err(fault)),
        }
    }

    /// Pushes the high byte, then the low byte.
    pub open spec fn push_u16(self, value: u16) -> (CpuView, Result<(), Fault>) {
        let (first, done) = self.push_u8(high(value));
        match done {
            Ok(_) => first.push_u8(low(value)),
            Err(fault) => (first, Err(fault)),
        }
    }

    /// Reads the byte at the stack pointer and moves the pointer up by one.
    pub open spec fn pop_u8(self) -> (CpuView, Result<u8, Fault>) {
        match self.bus.read(self.reg.sp) {
            Ok(value) => (
                CpuView { reg: Registers { sp: wrap16(self.reg.sp + 1), ..self.reg }, ..self },
                Ok(value),
            ),
            Err(fault) => (self, Err(fault)),
        }
    }

    /// Pops the low byte, then the high byte.
    pub open spec fn pop_u16(self) -> (CpuView, Result<u16, Fault>) {
        let (first, lo) = self.pop_u8();
        match lo {
            Ok(lo) => {
                let (second, hi) = first.pop_u8();
                match hi {
                    Ok(hi) => (second, Ok(pair(hi, lo))),
                    Err(fault) => (second, Err(fault)),
                }
            },
            Err(fault) => (first, Err(fault)),
        }
    }

    /// Reads the byte at `addr` through the bus.
    pub open spec fn load(self, addr: u16) -> (CpuView, Result<u8, Fault>) {
        (self, self.bus.read(addr))
    }

    /// Writes the byte at `addr` through the bus.
    pub open spec fn store(self, addr: u16, value: u8) -> (CpuView, Result<(), Fault>) {
        match self.bus.write(addr, value) {
            Ok(bus) => (CpuView { bus, ..self }, Ok(())),
            Err(fault) => (self, Err(fault)),
        }
    }

    /// Produces the value of an 8-bit operand. An operand that is found at
    /// the program counter moves the counter past itself.
    pub open spec fn read8(self, src: Src8) -> (CpuView, Result<u8, Fault>) {
        match src {
            Src8::Reg(which) => (self, Ok(self.reg.spec_read_u8(which))),
            Src8::Imm8 => self.fetch_u8(),
            Src8::ImmAddr16 => {
                let (next, addr) = self.fetch_u16();
                match addr {
                    Ok(addr) => next.load(addr),
                    Err(fault) => (next, Err(fault)),
                }
            },
            Src8::HiMem => {
                let (next, offset) = self.fetch_u8();
                match offset {
                    Ok(offset) => next.load((HIGH_MEMORY + offset) as u16),
                    Err(fault) => (next, Err(fault)),
                }
            },
        }
    }

    /// Hands a value to an 8-bit operand.
    pub open spec fn write8(self, dst: Dst8, value: u8) -> (CpuView, Result<(), Fault>) {
        match dst {
            Dst8::Reg(which) => (self.with_reg(self.reg.spec_write_u8(which, value)), Ok(())),
            Dst8::ImmAddr16 => {
                let (next, addr) = self.fetch_u16();
                match addr {
                    Ok(addr) => next.store(addr, value),
                    Err(fault) => (next, Err(fault)),
                }
            },
            Dst8::HiMem => {
                let (next, offset) = self.fetch_u8();
                match offset {
                    Ok(offset) => next.store((HIGH_MEMORY + offset) as u16, value),
                    Err(fault) => (next, Err(fault)),
                }
            },
        }
    }

    /// Produces the value of a 16-bit operand.
    pub open spec fn read16(self, src: Src16) -> (CpuView, Result<u16, Fault>) {
        match src {
            Src16::Reg(which) => (self, Ok(self.reg.spec_read_u16(which))),
            Src16::Imm16 => self.fetch_u16(),
        }
    }

    /// Hands a value to a 16-bit operand.
    pub open spec fn write16(self, dst: Dst16, value: u16) -> (CpuView, Result<(), Fault>) {
        match dst {
            Dst16::Reg(which) => (self.with_reg(self.reg.spec_write_u16(which, value)), Ok(())),
        }
    }

    /// Load: the source is read, then the destination takes the value. No
    /// flag changes.
    pub open spec fn ld(self, dst: Dst8, src: Src8) -> (CpuView, Result<(), Fault>) {
        let (next, value) = self.read8(src);
        match value {
            Ok(value) => next.write8(dst, value),
            Err(fault) => (next, Err(fault)),
        }
    }

    /// Load of a 16-bit value.
    pub open spec fn ld16(self, dst: Dst16, src: Src16) -> (CpuView, Result<(), Fault>) {
        let (next, value) = self.read16(src);
        match value {
            Ok(value) => next.write16(dst, value),
            Err(fault) => (next, Err(fault)),
        }
    }

    /// Absolute jump: the program counter becomes the operand.
    pub open spec fn jp(self, src: Src16) -> (CpuView, Result<(), Fault>) {
        let (next, target) = self.read16(src);
        match target {
            Ok(target) => (next.with_pc(target), Ok(())),
            Err(fault) => (next, Err(fault)),
        }
    }

    /// Relative jump: the operand is read, and where the condition holds the
    /// program counter, which is then past the operand, moves by the operand
    /// as a signed number.
    pub open spec fn jr(self, cond: Cond, src: Src8) -> (CpuView, Result<(), Fault>) {
        let (next, offset) = self.read8(src);
        match offset {
            Ok(offset) => if holds(cond, next.reg) {
                (next.with_pc(jump_target(next.reg.pc, offset)), Ok(()))
            } else {
                (next, Ok(()))
            },
            Err(fault) => (next, Err(fault)),
        }
    }

    /// Call: the target is read, the program counter, which is then past the
    /// operand, is pushed, and the target becomes the program counter.
    pub open spec fn call(self, src: Src16) -> (CpuView, Result<(), Fault>) {
        let (next, target) = self.read16(src);
        match target {
            Ok(target) => {
                let (pushed, done) = next.push_u16(next.reg.pc);
                match done {
                    Ok(_) => (pushed.with_pc(target), Ok(())),
                    Err(fault) => (pushed, Err(fault)),
                }
            },
            Err(fault) => (next, Err(fault)),
        }
    }

    /// Return: the program counter is popped.
    pub open spec fn ret(self) -> (CpuView, Result<(), Fault>) {
        let (next, target) = self.pop_u16();
        match target {
            Ok(target) => (next.with_pc(target), Ok(())),
            Err(fault) => (next, Err(fault)),
        }
    }

    /// AND of the accumulator with the operand.
    pub open spec fn and(self, src: Src8) -> (CpuView, Result<(), Fault>) {
        let (next, value) = self.read8(src);
        match value {
            Ok(value) => (next.with_reg(and_registers(next.reg, value)), Ok(())),
            Err(fault) => (next, Err(fault)),
        }
    }

    /// XOR of the accumulator with the operand.
    pub open spec fn xor(self, src: Src8) -> (CpuView, Result<(), Fault>) {
        let (next, value) = self.read8(src);
        match value {
            Ok(value) => (next.with_reg(xor_registers(next.reg, value)), Ok(())),
            Err(fault) => (next, Err(fault)),
        }
    }

    /// Compare of the accumulator with the operand.
    pub open spec fn cp(self, src: Src8) -> (CpuView, Result<(), Fault>) {
        let (next, value) = self.read8(src);
        match value {
            Ok(value) => (next.with_reg(cp_registers(next.reg, value)), Ok(())),
            Err(fault) => (next, Err(fault)),
        }
    }

    /// Test of one bit of the operand.
    pub open spec fn bit(self, bit: u8, src: Src8) -> (CpuView, Result<(), Fault>) {
        let (next, value) = self.read8(src);
        match value {
            Ok(value) => (next.with_reg(bit_registers(next.reg, bit, value)), Ok(())),
            Err(fault) => (next, Err(fault)),
        }
    }

    /// Reset of one bit of a register, in place.
    pub open spec fn res(self, bit: u8, target: Reg8) -> (CpuView, Result<(), Fault>) {
        (
            self.with_reg(
                self.reg.spec_write_u8(target, reset_bit(bit, self.reg.spec_read_u8(target))),
            ),
            Ok(()),
        )
    }

    /// What an instruction of the base table does, its cycles apart. The
    /// escape code does nothing by itself.
    pub open spec fn execute(self, instruction: Instruction) -> (CpuView, Result<(), Fault>) {
        match instruction {
            Instruction::Nop => (self, Ok(())),
            Instruction::Stop => (self, Ok(())),
            Instruction::Di => (self, Ok(())),
            Instruction::Prefix => (self, Ok(())),
            Instruction::Jr(cond, src) => self.jr(cond, src),
            Instruction::Ld(dst, src) => self.ld(dst, src),
            Instruction::Ld16(dst, src) => self.ld16(dst, src),
            Instruction::Xor(src) => self.xor(src),
            Instruction::Jp(src) => self.jp(src),
            Instruction::Ret => self.ret(),
            Instruction::Call(src) => self.call(src),
            Instruction::And(src) => self.and(src),
            Instruction::Cp(src) => self.cp(src),
        }
    }

    /// What an instruction of the extended table does, its cycles apart.
    pub open spec fn execute_extended(self, instruction: Extended) -> (
        CpuView,
        Result<(), Fault>,
    ) {
        match instruction {
            Extended::Bit { bit, src } => self.bit(bit, src),
            Extended::Res { bit, target } => self.res(bit, target),
        }
    }

    /// The same machine with `cycles` more cycles counted.
    pub open spec fn add_cycles(self, cycles: nat) -> CpuView {
        CpuView { cycles: self.cycles + cycles, ..self }
    }

    /// The part of an instruction that follows the escape code: the byte at
    /// the program counter selects from the extended table, the instruction
    /// is carried out and its cycles are counted. The result is that number
    /// of cycles.
    pub open spec fn execute_cb_instruction(self) -> (CpuView, Result<u8, Fault>) {
        let (fetched, opcode) = self.fetch_u8();
        match opcode {
            Ok(opcode) => match decode_extended(opcode) {
                Some(instruction) => {
                    let (after, done) = fetched.execute_extended(instruction);
                    match done {
                        Ok(_) => (
                            after.add_cycles(CB_OPCODE_TIMES[opcode as int] as nat),
                            Ok(CB_OPCODE_TIMES[opcode as int]),
                        ),
                        Err(fault) => (after, Err(fault)),
                    }
                },
                None => (fetched, Err(Fault::UnknownExtendedOpcode { opcode })),
            },
            Err(fault) => (fetched, Err(fault)),
        }
    }

    /// One instruction, without the address at which it stands: the byte at
    /// the program counter selects from the base table, the instruction is
    /// carried out and its cycles are counted. The result is the number of
    /// cycles that were counted. A fault leaves the machine as it was when
    /// the fault was met, and counts no cycles for what faulted.
    pub open spec fn run(self) -> (CpuView, Result<u32, Fault>) {
        let (fetched, opcode) = self.fetch_u8();
        match opcode {
            Ok(opcode) => match decode(opcode) {
                Some(Instruction::Prefix) => {
                    let (after, cycles) = fetched.execute_cb_instruction();
                    match cycles {
                        Ok(cycles) => (
                            after.add_cycles(OPCODE_TIMES[opcode as int] as nat),
                            Ok((cycles + OPCODE_TIMES[opcode as int]) as u32),
                        ),
                        Err(fault) => (after, Err(fault)),
                    }
                },
                Some(instruction) => {
                    let (after, done) = fetched.execute(instruction);
                    match done {
                        Ok(_) => (
                            after.add_cycles(OPCODE_TIMES[opcode as int] as nat),
                            Ok(OPCODE_TIMES[opcode as int] as u32),
                        ),
                        Err(fault) => (after, Err(fault)),
                    }
                },
                None => (fetched, Err(Fault::UnknownOpcode { opcode })),
            },
            Err(fault) => (fetched, Err(fault)),
        }
    }

    /// One instruction. A fault is reported with the address of the
    /// instruction that met it.
    pub open spec fn step(self) -> (CpuView, Result<u32, Fatal>) {
        let (after, cycles) = self.run();
        match cycles {
            Ok(cycles) => (after, Ok(cycles)),
            Err(fault) => (after, Err(Fatal { fault, pc: self.reg.pc })),
        }
    }
}

/// Exclusive-or with the accumulator: where the operand `b` can be read, the
/// accumulator `a` becomes `a ^ b`, Zero says whether that is 0, and
/// Subtract, Half-Carry and Carry are clear.
pub proof fn lemma_xor(s: CpuView, src: Src8)
    ensures
        s.xor(src).1 is Ok <==> s.read8(src).1 is Ok,
        s.read8(src).1 matches Ok(b) ==> ({
            let after = s.xor(src).0.reg;
            &&& after.a == s.reg.a ^ b
            &&& after.zero == ((s.reg.a ^ b) == 0)
            &&& !after.subtract
            &&& !after.half_carry
            &&& !after.carry
        }),
{
    lemma_read8_registers(s, src);
}

/// Compare with the accumulator: where the operand `b` can be read, the
/// accumulator `a` stays as it is, Zero says whether `a == b`, Carry whether
/// `a < b`, Subtract is set, and Half-Carry says whether the low nibble of
/// the wrapped difference `a - b` is above the low nibble of `a`.
pub proof fn lemma_cp(s: CpuView, src: Src8)
    ensures
        s.cp(src).1 is Ok <==> s.read8(src).1 is Ok,
        s.read8(src).1 matches Ok(b) ==> ({
            let after = s.cp(src).0.reg;
            &&& after.a == s.reg.a
            &&& after.zero == (s.reg.a == b)
            &&& after.carry == (s.reg.a < b)
            &&& after.subtract
            &&& after.half_carry == ((s.reg.a.wrapping_sub(b) & 0xf) > (s.reg.a & 0xf))
        }),
{
    lemma_read8_registers(s, src);
    if s.read8(src).1 is Ok {
        lemma_half_borrow(s.reg.a, s.read8(src).1->Ok_0);
    }
}

/// Reading an operand changes no register but the program counter, and
/// nothing on the bus.
pub proof fn lemma_read8_registers(s: CpuView, src: Src8)
    ensures
        s.read8(src).0 == s.with_pc(s.read8(src).0.reg.pc),
{
}

/// Load and bit reset change no flag, unless the flag register itself is
/// their target.
pub proof fn lemma_flags_kept(s: CpuView, dst: Dst8, src: Src8, bit: u8, target: Reg8)
    ensures
        dst != Dst8::Reg(Reg8::F) ==> s.ld(dst, src).0.reg.same_flags(s.reg),
        target != Reg8::F ==> s.res(bit, target).0.reg.same_flags(s.reg),
{
    lemma_read8_registers(s, src);
}

/// A relative jump that is taken lands at the program counter plus the
/// offset as a signed 8-bit number: an offset of `0x00..=0x7f` moves the
/// counter forward by that much, one of `0x80..=0xff` moves it backward by
/// 256 less the offset, and either wraps modulo 2^16.
pub proof fn lemma_jump_target(pc: u16, offset: u8)
    ensures
        offset < 0x80 && pc + offset <= 0xffff ==> jump_target(pc, offset) == pc + offset,
        offset < 0x80 && pc + offset > 0xffff ==> jump_target(pc, offset) == pc + offset - 0x1_0000,
        offset >= 0x80 && pc >= 0x100 - offset ==> jump_target(pc, offset) == pc - (0x100 - offset)
            && jump_target(pc, offset) < pc,
        offset >= 0x80 && pc < 0x100 - offset ==> jump_target(pc, offset) == pc + 0x1_0000 - (
        0x100 - offset),
{
}

/// A relative jump moves the program counter to the jump target where its
/// condition holds, and leaves it just past the operand where it does not.
pub proof fn lemma_jr(s: CpuView, cond: Cond, src: Src8)
    ensures
        s.jr(cond, src).1 is Ok <==> s.read8(src).1 is Ok,
        s.read8(src).1 matches Ok(offset) ==> ({
            let past = s.read8(src).0.reg.pc;
            let after = s.jr(cond, src).0;
            &&& holds(cond, s.reg) ==> after.reg.pc == jump_target(past, offset)
            &&& !holds(cond, s.reg) ==> after.reg.pc == past
            &&& after == s.with_pc(after.reg.pc)
        }),
{
    lemma_read8_registers(s, src);
}

/// A push of one byte onto plain storage succeeds, lowers the stack pointer
/// by one, leaves the byte at the new top of the stack, and leaves every
/// other address as it was.
pub proof fn lemma_push_u8(s: CpuView, value: u8, other: u16)
    requires
        s.wf(),
        s.bus.keeps_writes(wrap16(s.reg.sp - 1)),
        other != wrap16(s.reg.sp - 1),
    ensures
        s.push_u8(value).1 == Ok::<(), Fault>(()),
        s.push_u8(value).0.wf(),
        s.push_u8(value).0.cycles == s.cycles,
        s.push_u8(value).0.reg == (Registers { sp: wrap16(s.reg.sp - 1), ..s.reg }),
        s.push_u8(value).0.bus.read(wrap16(s.reg.sp - 1)) == Ok::<u8, Fault>(value),
        s.push_u8(value).0.bus.read(other) == s.bus.read(other),
        s.push_u8(value).0.bus.keeps_writes(other) == s.bus.keeps_writes(other),
{
    let top = wrap16(s.reg.sp - 1);
    lemma_write_then_read(s.bus, top, value);
    lemma_write_keeps_wf(s.bus, top, value);
    lemma_write_elsewhere(s.bus, top, value, other);
    assert(s.bus.write(top, value)->Ok_0.mbc.ram_write_protected
        == s.bus.mbc.ram_write_protected);
}

/// Push and pop are inverse: where the two bytes below the stack pointer
/// are plain storage, a push of any 16-bit value succeeds and lowers the
/// stack pointer by 2, and the pop that follows returns the value and puts
/// the stack pointer back, all modulo 2^16.
pub proof fn lemma_push_pop(s: CpuView, value: u16)
    requires
        s.wf(),
        s.bus.keeps_writes(wrap16(s.reg.sp - 1)),
        s.bus.keeps_writes(wrap16(s.reg.sp - 2)),
    ensures
        s.push_u16(value).1 is Ok,
        s.push_u16(value).0.wf(),
        s.push_u16(value).0.cycles == s.cycles,
        s.push_u16(value).0.reg == (Registers { sp: wrap16(s.reg.sp - 2), ..s.reg }),
        s.push_u16(value).0.pop_u16().1 == Ok::<u16, Fault>(value),
        s.push_u16(value).0.pop_u16().0.reg == s.reg,
        s.push_u16(value).0.pop_u16().0.bus == s.push_u16(value).0.bus,
{
    let top = wrap16(s.reg.sp - 1);
    let below = wrap16(s.reg.sp - 2);
    lemma_push_u8(s, high(value), below);
    let first = s.push_u8(high(value)).0;
    assert(wrap16(first.reg.sp - 1) == below);
    lemma_push_u8(first, low(value), top);
    let second = first.push_u8(low(value)).0;
    assert(s.push_u16(value) == first.push_u8(low(value)));
    assert(second.reg.sp == below);
    assert(second.bus.read(below) == Ok::<u8, Fault>(low(value)));
    assert(second.bus.read(top) == Ok::<u8, Fault>(high(value)));
    let popped = second.pop_u8().0;
    assert(popped.reg.sp == top) by {
        assert(wrap16(below + 1) == top);
    }
    assert(popped.bus == second.bus);
    assert(wrap16(top + 1) == s.reg.sp);
    assert(pair(high(value), low(value)) == value);
}

/// Call and return are inverse: where the target can be read and the two
/// bytes below the stack pointer are plain storage, the call succeeds and
/// jumps to the target, and the return that follows puts the program
/// counter just past the operand of the call and the stack pointer where
/// it was before the call.
pub proof fn lemma_call_ret(s: CpuView, src: Src16)
    requires
        s.wf(),
        s.read16(src).1 is Ok,
        s.bus.keeps_writes(wrap16(s.reg.sp - 1)),
        s.bus.keeps_writes(wrap16(s.reg.sp - 2)),
    ensures
        s.call(src).1 is Ok,
        s.call(src).0.reg.pc == s.read16(src).1->Ok_0,
        s.call(src).0.reg.sp == wrap16(s.reg.sp - 2),
        s.call(src).0.ret().1 is Ok,
        s.call(src).0.ret().0.reg.pc == s.read16(src).0.reg.pc,
        s.call(src).0.ret().0.reg.sp == s.reg.sp,
{
    let next = s.read16(src).0;
    assert(next == s.with_pc(next.reg.pc));
    lemma_push_pop(next, next.reg.pc);
    let pushed = next.push_u16(next.reg.pc).0;
    let called = s.call(src).0;
    assert(called == pushed.with_pc(s.read16(src).1->Ok_0));
    assert(called.pop_u16().0 == pushed.pop_u16().0.with_pc(called.reg.pc));
    assert(called.pop_u16().1 == pushed.pop_u16().1);
}

/// Every instruction that is implemented costs no more than the most that
/// an instruction costs.
pub proof fn lemma_costs(opcode: u8)
    ensures
        decode(opcode) is Some ==> OPCODE_TIMES[opcode as int] <= MAX_INSTRUCTION_CYCLES,
        decode_extended(opcode) is Some ==> CB_OPCODE_TIMES[opcode as int] + OPCODE_TIMES[PREFIX as int]
            <= MAX_INSTRUCTION_CYCLES,
{
}

/// The instruction that a byte of the base table selects, if it selects one.
pub fn decode_opcode(opcode: u8) -> (instruction: Option<Instruction>)
    ensures
        instruction == decode(opcode),
{
    match opcode {
        0x00 => Some(Instruction::Nop),
        0x10 => Some(Instruction::Stop),
        0x20 => Some(Instruction::Jr(Cond::NotZero, Src8::Imm8)),
        0x28 => Some(Instruction::Jr(Cond::Zero, Src8::Imm8)),
        0x31 => Some(Instruction::Ld16(Dst16::Reg(Reg16::SP), Src16::Imm16)),
        0x3e => Some(Instruction::Ld(Dst8::Reg(Reg8::A), Src8::Imm8)),
        0xaf => Some(Instruction::Xor(Src8::Reg(Reg8::A))),
        0xc3 => Some(Instruction::Jp(Src16::Imm16)),
        0xc9 => Some(Instruction::Ret),
        0xcb => Some(Instruction::Prefix),
        0xcd => Some(Instruction::Call(Src16::Imm16)),
        0xe0 => Some(Instruction::Ld(Dst8::HiMem, Src8::Reg(Reg8::A))),
        0xe6 => Some(Instruction::And(Src8::Imm8)),
        0xea => Some(Instruction::Ld(Dst8::ImmAddr16, Src8::Reg(Reg8::A))),
        0xf0 => Some(Instruction::Ld(Dst8::Reg(Reg8::A), Src8::HiMem)),
        0xf3 => Some(Instruction::Di),
        0xfe => Some(Instruction::Cp(Src8::Imm8)),
        _ => None,
    }
}

/// The instruction that a byte of the extended table selects, if it selects
/// one. The bit that it names is below 8.
pub fn decode_cb_opcode(opcode: u8) -> (instruction: Option<Extended>)
    ensures
        instruction == decode_extended(opcode),
        instruction matches Some(Extended::Bit { bit, .. }) ==> bit < 8,
        instruction matches Some(Extended::Res { bit, .. }) ==> bit < 8,
{
    match opcode {
        0x7f => Some(Extended::Bit { bit: 7, src: Src8::Reg(Reg8::A) }),
        0x87 => Some(Extended::Res { bit: 0, target: Reg8::A }),
        _ => None,
    }
}

/// Where a relative jump lands: the offset is sign-extended to 16 bits and
/// added to the program counter with wraparound.
pub fn relative(pc: u16, offset: u8) -> (target: u16)
    ensures
        target == jump_target(pc, offset),
{
    let extended: u16 = (offset as i8) as i16 as u16;
    assert((offset as i8) as i16 as u16 == if offset < 0x80u8 {
        offset as u16
    } else {
        (0xff00u16 + (offset as u16)) as u16
    }) by (bit_vector);
    pc.wrapping_add(extended)
}

/// The processor with the bus that it owns.
pub struct Cpu {
    reg: Registers,
    interconnect: Interconnect,
    cycle_count: u64,
}

impl View for Cpu {
    type V = CpuView;

    closed spec fn view(&self) -> CpuView {
        CpuView { reg: self.reg, bus: self.interconnect@, cycles: self.cycle_count as nat }
    }
}

impl Cpu {
    /// The bus is well formed.
    pub closed spec fn wf(&self) -> bool {
        self.interconnect.wf()
    }

    /// A well-formed machine has a well-formed view, and its cycle count
    /// fits 64 bits.
    pub proof fn lemma_wf(&self)
        requires
            self.wf(),
        ensures
            self@.wf(),
            self@.cycles <= u64::MAX,
    {
        self.interconnect.lemma_wf();
    }

    /// The machine at power-on, on the given bus.
    pub fn new(gb_type: GameboyType, interconnect: Interconnect) -> (cpu: Cpu)
        requires
            interconnect.wf(),
        ensures
            cpu.wf(),
            cpu@ == CpuView::power_on(gb_type, interconnect@),
    {
        Cpu { reg: Registers::new(gb_type), interconnect, cycle_count: 0 }
    }

    /// The register file.
    pub fn registers(&self) -> (reg: Registers)
        ensures
            reg == self@.reg,
    {
        self.reg
    }

    /// Replaces the register file.
    pub fn set_registers(&mut self, reg: Registers)
        requires
            old(self).wf(),
        ensures
            final(self).wf(),
            final(self)@ == old(self)@.with_reg(reg),
    {
        self.reg = reg;
    }

    /// The bus, for reading.
    pub fn interconnect(&self) -> (bus: &Interconnect)
        ensures
            bus@ == self@.bus,
            self.wf() ==> bus.wf(),
    {
        &self.interconnect
    }

    /// Tells the devices on the bus how many cycles have passed.
    pub fn cycle_flush(&mut self, cycle_count: u32)
        requires
            old(self).wf(),
        ensures
            final(self).wf(),
            final(self)@ == old(self)@,
    {
        self.interconnect.cycle_flush(cycle_count);
    }

    /// Clock cycles counted so far.
    pub fn cycle_count(&self) -> (cycles: u64)
        ensures
            cycles == self@.cycles,
    {
        self.cycle_count
    }

    /// Runs one instruction and reports the clock cycles that it took. A
    /// fault ends the session: it is reported with the address of the
    /// instruction, and no further instruction should be run.
    pub fn execute_instruction(&mut self) -> (elapsed: Result<u32, Fatal>)
        requires
            old(self).wf(),
            old(self)@.cycles + MAX_INSTRUCTION_CYCLES <= u64::MAX,
        ensures
            final(self).wf(),
            (final(self)@, elapsed) == old(self)@.step(),
            elapsed matches Ok(cycles) ==> cycles <= MAX_INSTRUCTION_CYCLES && final(self)@.cycles
                == old(self)@.cycles + cycles,
            elapsed is Err ==> final(self)@.cycles == old(self)@.cycles,
    {
        let pc: u16 = self.reg.pc;
        match self.run() {
            Ok(cycles) => Ok(cycles),
            Err(fault) => Err(Fatal { fault, pc }),
        }
    }

    /// One instruction, with a fault reported as it was met.
    fn run(&mut self) -> (elapsed: Result<u32, Fault>)
        requires
            old(self).wf(),
            old(self)@.cycles + MAX_INSTRUCTION_CYCLES <= u64::MAX,
        ensures
            final(self).wf(),
            (final(self)@, elapsed) == old(self)@.run(),
            elapsed matches Ok(cycles) ==> cycles <= MAX_INSTRUCTION_CYCLES && final(self)@.cycles
                == old(self)@.cycles + cycles,
            elapsed is Err ==> final(self)@.cycles == old(self)@.cycles,
    {
        let opcode: u8 = self.fetch_u8()?;
        proof {
            lemma_costs(opcode);
        }
        let instruction: Instruction = match decode_opcode(opcode) {
            Some(instruction) => instruction,
            None => {
                return Err(Fault::UnknownOpcode { opcode });
            },
        };
        let elapsed: u32 = match instruction {
            Instruction::Prefix => self.execute_cb_instruction()? as u32,
            _ => {
                self.execute(instruction)?;
                0
            },
        };
        let elapsed_cycles: u8 = opcode_time(opcode);
        self.add_cycles(elapsed_cycles);
        Ok(elapsed + elapsed_cycles as u32)
    }

    /// Carries out an instruction of the base table, its cycles apart.
    pub fn execute(&mut self, instruction: Instruction) -> (done: Result<(), Fault>)
        requires
            old(self).wf(),
        ensures
            final(self).wf(),
            (final(self)@, done) == old(self)@.execute(instruction),
            final(self)@.cycles == old(self)@.cycles,
    {
        match instruction {
            Instruction::Nop => Ok(()),
            Instruction::Stop => {
                self.stop();
                Ok(())
            },
            Instruction::Jr(cond, src) => self.jr(cond, src),
            Instruction::Ld(dst, src) => self.ld(dst, src),
            Instruction::Ld16(dst, src) => self.ld16(dst, src),
            Instruction::Xor(src) => self.xor(src),
            Instruction::Jp(src) => self.jp(src),
            Instruction::Ret => self.ret(),
            Instruction::Prefix => Ok(()),
            Instruction::Call(src) => self.call(src),
            Instruction::And(src) => self.and(src),
            Instruction::Di => {
                self.di();
                Ok(())
            },
            Instruction::Cp(src) => self.cp(src),
        }
    }

    /// Runs what follows the escape code, and reports the clock cycles that
    /// it took.
    pub fn execute_cb_instruction(&mut self) -> (elapsed: Result<u8, Fault>)
        requires
            old(self).wf(),
            old(self)@.cycles + MAX_INSTRUCTION_CYCLES <= u64::MAX,
        ensures
            final(self).wf(),
            (final(self)@, elapsed) == old(self)@.execute_cb_instruction(),
            elapsed matches Ok(cycles) ==> cycles + OPCODE_TIMES[PREFIX as int]
                <= MAX_INSTRUCTION_CYCLES && final(self)@.cycles == old(self)@.cycles + cycles,
            elapsed is Err ==> final(self)@.cycles == old(self)@.cycles,
    {
        let opcode: u8 = self.fetch_u8()?;
        proof {
            lemma_costs(opcode);
        }
        match decode_cb_opcode(opcode) {
            Some(Extended::Bit { bit, src }) => self.bit(bit, src)?,
            Some(Extended::Res { bit, target }) => self.res(bit, target),
            None => {
                return Err(Fault::UnknownExtendedOpcode { opcode });
            },
        }
        let elapsed_cycles: u8 = cb_opcode_time(opcode);
        self.add_cycles(elapsed_cycles);
        Ok(elapsed_cycles)
    }

    /// Stop. It is taken as a one-byte instruction, as some assemblers write
    /// it, so no second byte is consumed; and it has no effect but its cost.
    pub fn stop(&self)
    {
    }

    /// Disable interrupts. It has no effect but its cost.
    pub fn di(&mut self)
        ensures
            *final(self) == *old(self),
    {
    }

    /// Call: pushes the address of the next instruction and jumps.
    pub fn call(&mut self, src: Src16) -> (done: Result<(), Fault>)
        requires
            old(self).wf(),
        ensures
            final(self).wf(),
            (final(self)@, done) == old(self)@.call(src),
            final(self)@.cycles == old(self)@.cycles,
    {
        let new_pc: u16 = self.read16(src)?;
        let ret: u16 = self.reg.pc;
        self.push_u16(ret)?;
        self.reg.pc = new_pc;
        Ok(())
    }

    /// Return: pops the program counter.
    pub fn ret(&mut self) -> (done: Result<(), Fault>)
        requires
            old(self).wf(),
        ensures
            final(self).wf(),
            (final(self)@, done) == old(self)@.ret(),
            final(self)@.cycles == old(self)@.cycles,
    {
        let new_pc: u16 = self.pop_u16()?;
        self.reg.pc = new_pc;
        Ok(())
    }

    /// Load of an 8-bit value. The source is read before the destination is
    /// resolved.
    pub fn ld(&mut self, dst: Dst8, src: Src8) -> (done: Result<(), Fault>)
        requires
            old(self).wf(),
        ensures
            final(self).wf(),
            (final(self)@, done) == old(self)@.ld(dst, src),
            final(self)@.cycles == old(self)@.cycles,
    {
        let value: u8 = self.read8(src)?;
        self.write8(dst, value)
    }

    /// Load of a 16-bit value.
    pub fn ld16(&mut self, dst: Dst16, src: Src16) -> (done: Result<(), Fault>)
        requires
            old(self).wf(),
        ensures
            final(self).wf(),
            (final(self)@, done) == old(self)@.ld16(dst, src),
            final(self)@.cycles == old(self)@.cycles,
    {
        let value: u16 = self.read16(src)?;
        self.write16(dst, value);
        Ok(())
    }

    /// Absolute jump.
    pub fn jp(&mut self, src: Src16) -> (done: Result<(), Fault>)
        requires
            old(self).wf(),
        ensures
            final(self).wf(),
            (final(self)@, done) == old(self)@.jp(src),
            final(self)@.cycles == old(self)@.cycles,
    {
        let new_pc: u16 = self.read16(src)?;
        self.reg.pc = new_pc;
        Ok(())
    }

    /// Relative jump, taken where the condition holds.
    pub fn jr(&mut self, cond: Cond, src: Src8) -> (done: Result<(), Fault>)
        requires
            old(self).wf(),
        ensures
            final(self).wf(),
            (final(self)@, done) == old(self)@.jr(cond, src),
            final(self)@.cycles == old(self)@.cycles,
            done is Ok <==> old(self)@.read8(src).1 is Ok,
            old(self)@.read8(src).1 matches Ok(offset) ==> final(self)@.reg.pc == (if holds(
                cond,
                old(self)@.reg,
            ) {
                jump_target(old(self)@.read8(src).0.reg.pc, offset)
            } else {
                old(self)@.read8(src).0.reg.pc
            }),
    {
        proof {
            lemma_jr(self@, cond, src);
        }
        let offset: u8 = self.read8(src)?;
        let jump: bool = match cond {
            Cond::Uncond => true,
            Cond::Zero => self.reg.zero,
            Cond::Carry => self.reg.carry,
            Cond::NotZero => !self.reg.zero,
            Cond::NotCarry => !self.reg.carry,
        };
        if jump {
            self.reg.pc = relative(self.reg.pc, offset);
        }
        Ok(())
    }

    /// AND of the accumulator with the operand.
    pub fn and(&mut self, src: Src8) -> (done: Result<(), Fault>)
        requires
            old(self).wf(),
        ensures
            final(self).wf(),
            (final(self)@, done) == old(self)@.and(src),
            final(self)@.cycles == old(self)@.cycles,
    {
        let value: u8 = self.read8(src)?;
        let result: u8 = value & self.reg.a;
        self.reg.zero = result == 0;
        self.reg.subtract = false;
        self.reg.half_carry = true;
        self.reg.carry = false;
        self.reg.a = result;
        Ok(())
    }

    /// Test of bit `bit` of the operand.
    pub fn bit(&mut self, bit: u8, src: Src8) -> (done: Result<(), Fault>)
        requires
            old(self).wf(),
            bit < 8,
        ensures
            final(self).wf(),
            (final(self)@, done) == old(self)@.bit(bit, src),
            final(self)@.cycles == old(self)@.cycles,
    {
        let value: u8 = self.read8(src)? >> bit;
        self.reg.zero = (value & 0x01) == 0;
        self.reg.subtract = false;
        self.reg.half_carry = true;
        Ok(())
    }

    /// Reset of bit `bit` of a register.
    pub fn res(&mut self, bit: u8, target: Reg8)
        requires
            old(self).wf(),
            bit < 8,
        ensures
            final(self).wf(),
            (final(self)@, Ok::<(), Fault>(())) == old(self)@.res(bit, target),
            final(self)@.cycles == old(self)@.cycles,
    {
        let value: u8 = self.reg.read_u8(target);
        let result: u8 = value & !(0x01u8 << bit);
        self.reg.write_u8(target, result);
    }

    /// XOR of the accumulator with the operand.
    pub fn xor(&mut self, src: Src8) -> (done: Result<(), Fault>)
        requires
            old(self).wf(),
        ensures
            final(self).wf(),
            (final(self)@, done) == old(self)@.xor(src),
            final(self)@.cycles == old(self)@.cycles,
            done is Ok <==> old(self)@.read8(src).1 is Ok,
            old(self)@.read8(src).1 matches Ok(value) ==> ({
                let a = old(self)@.reg.a;
                let after = final(self)@.reg;
                &&& after.a == a ^ value
                &&& after.zero == ((a ^ value) == 0)
                &&& !after.subtract
                &&& !after.half_carry
                &&& !after.carry
            }),
    {
        proof {
            lemma_xor(self@, src);
        }
        let value: u8 = self.read8(src)?;
        let result: u8 = self.reg.a ^ value;
        self.reg.zero = result == 0;
        self.reg.subtract = false;
        self.reg.half_carry = false;
        self.reg.carry = false;
        self.reg.a = result;
        Ok(())
    }

    /// Compare of the accumulator with the operand.
    pub fn cp(&mut self, src: Src8) -> (done: Result<(), Fault>)
        requires
            old(self).wf(),
        ensures
            final(self).wf(),
            (final(self)@, done) == old(self)@.cp(src),
            final(self)@.cycles == old(self)@.cycles,
            done is Ok <==> old(self)@.read8(src).1 is Ok,
            old(self)@.read8(src).1 matches Ok(value) ==> ({
                let a = old(self)@.reg.a;
                let after = final(self)@.reg;
                &&& after.a == a
                &&& after.zero == (a == value)
                &&& after.carry == (a < value)
                &&& after.subtract
                &&& after.half_carry == ((a.wrapping_sub(value) & 0xf) > (a & 0xf))
            }),
    {
        proof {
            lemma_cp(self@, src);
        }
        let a: u8 = self.reg.a;
        let value: u8 = self.read8(src)?;
        assert(((a.wrapping_sub(value) & 0xf) > (a & 0xf)) == (a % 16 < value % 16)) by {
            lemma_half_borrow(a, value);
        }
        self.reg.subtract = true;
        self.reg.carry = a < value;
        self.reg.zero = a == value;
        self.reg.half_carry = (a.wrapping_sub(value) & 0xf) > (a & 0xf);
        Ok(())
    }

    /// Reads the byte at the program counter and moves the counter past it.
    pub fn fetch_u8(&mut self) -> (byte: Result<u8, Fault>)
        requires
            old(self).wf(),
        ensures
            final(self).wf(),
            (final(self)@, byte) == old(self)@.fetch_u8(),
            final(self)@.cycles == old(self)@.cycles,
    {
        let pc: u16 = self.reg.pc;
        let value: u8 = self.interconnect.read(pc)?;
        self.reg.pc = pc.wrapping_add(1);
        Ok(value)
    }

    /// Reads two bytes at the program counter, the low byte first.
    pub fn fetch_u16(&mut self) -> (value: Result<u16, Fault>)
        requires
            old(self).wf(),
        ensures
            final(self).wf(),
            (final(self)@, value) == old(self)@.fetch_u16(),
            final(self)@.cycles == old(self)@.cycles,
    {
        let low: u8 = self.fetch_u8()?;
        let high: u8 = self.fetch_u8()?;
        Ok(join(high, low))
    }

    /// Pushes a byte: the stack pointer moves down, then the byte is written.
    pub fn push_u8(&mut self, value: u8) -> (done: Result<(), Fault>)
        requires
            old(self).wf(),
        ensures
            final(self).wf(),
            (final(self)@, done) == old(self)@.push_u8(value),
            final(self)@.cycles == old(self)@.cycles,
    {
        let sp: u16 = self.reg.sp.wrapping_sub(1);
        self.interconnect.write(sp, value)?;
        self.reg.sp = sp;
        Ok(())
    }

    /// Pushes the high byte, then the low byte.
    pub fn push_u16(&mut self, value: u16) -> (done: Result<(), Fault>)
        requires
            old(self).wf(),
        ensures
            final(self).wf(),
            (final(self)@, done) == old(self)@.push_u16(value),
            final(self)@.cycles == old(self)@.cycles,
    {
        let (high, low) = split(value);
        self.push_u8(high)?;
        self.push_u8(low)
    }

    /// Pops a byte: the byte is read, then the stack pointer moves up.
    pub fn pop_u8(&mut self) -> (byte: Result<u8, Fault>)
        requires
            old(self).wf(),
        ensures
            final(self).wf(),
            (final(self)@, byte) == old(self)@.pop_u8(),
            final(self)@.cycles == old(self)@.cycles,
    {
        let sp: u16 = self.reg.sp;
        let value: u8 = self.interconnect.read(sp)?;
        self.reg.sp = sp.wrapping_add(1);
        Ok(value)
    }

    /// Pops the low byte, then the high byte.
    pub fn pop_u16(&mut self) -> (value: Result<u16, Fault>)
        requires
            old(self).wf(),
        ensures
            final(self).wf(),
            (final(self)@, value) == old(self)@.pop_u16(),
            final(self)@.cycles == old(self)@.cycles,
    {
        let low: u8 = self.pop_u8()?;
        let high: u8 = self.pop_u8()?;
        Ok(join(high, low))
    }

    /// Produces the value of an 8-bit operand.
    pub fn read8(&mut self, src: Src8) -> (value: Result<u8, Fault>)
        requires
            old(self).wf(),
        ensures
            final(self).wf(),
            (final(self)@, value) == old(self)@.read8(src),
            final(self)@.cycles == old(self)@.cycles,
            final(self)@.reg == (Registers { pc: final(self)@.reg.pc, ..old(self)@.reg }),
    {
        match src {
            Src8::Reg(which) => Ok(self.reg.read_u8(which)),
            Src8::Imm8 => self.fetch_u8(),
            Src8::ImmAddr16 => {
                let address: u16 = self.fetch_u16()?;
                self.interconnect.read(address)
            },
            Src8::HiMem => {
                let offset: u16 = self.fetch_u8()? as u16;
                let address: u16 = HIGH_MEMORY + offset;
                self.interconnect.read(address)
            },
        }
    }

    /// Hands a value to an 8-bit operand.
    pub fn write8(&mut self, dst: Dst8, value: u8) -> (done: Result<(), Fault>)
        requires
            old(self).wf(),
        ensures
            final(self).wf(),
            (final(self)@, done) == old(self)@.write8(dst, value),
            final(self)@.cycles == old(self)@.cycles,
    {
        match dst {
            Dst8::Reg(which) => {
                self.reg.write_u8(which, value);
                Ok(())
            },
            Dst8::ImmAddr16 => {
                let address: u16 = self.fetch_u16()?;
                self.interconnect.write(address, value)
            },
            Dst8::HiMem => {
                let offset: u16 = self.fetch_u8()? as u16;
                let address: u16 = HIGH_MEMORY + offset;
                self.interconnect.write(address, value)
            },
        }
    }

    /// Produces the value of a 16-bit operand.
    pub fn read16(&mut self, src: Src16) -> (value: Result<u16, Fault>)
        requires
            old(self).wf(),
        ensures
            final(self).wf(),
            (final(self)@, value) == old(self)@.read16(src),
            final(self)@.cycles == old(self)@.cycles,
    {
        match src {
            Src16::Reg(which) => Ok(self.reg.read_u16(which)),
            Src16::Imm16 => self.fetch_u16(),
        }
    }

    /// Hands a value to a 16-bit operand.
    pub fn write16(&mut self, dst: Dst16, value: u16)
        requires
            old(self).wf(),
        ensures
            final(self).wf(),
            (final(self)@, Ok::<(), Fault>(())) == old(self)@.write16(dst, value),
            final(self)@.cycles == old(self)@.cycles,
    {
        match dst {
            Dst16::Reg(which) => self.reg.write_u16(which, value),
        }
    }

    /// Counts `cycles` more clock cycles.
    pub fn add_cycles(&mut self, cycles: u8)
        requires
            old(self).wf(),
            old(self)@.cycles + cycles <= u64::MAX,
        ensures
            final(self).wf(),
            final(self)@ == old(self)@.add_cycles(cycles as nat),
    {
        let new_count: u64 = self.cycle_count + (cycles as u64);
        self.cycle_count = new_count;
    }
}

/// The borrow out of bit 3 of `a - value`: the low nibble of the wrapped
/// difference is above the low nibble of `a` exactly where the low nibble
/// of `a` is below that of `value`.
pub proof fn lemma_half_borrow(a: u8, value: u8)
    ensures
        ((a.wrapping_sub(value) & 0xf) > (a & 0xf)) == (a % 16 < value % 16),
{
    let d: u8 = a.wrapping_sub(value);
    assert(d == if a >= value { (a - value) as u8 } else { (a + 256 - value) as u8 });
    assert(((d & 0xf) > (a & 0xf)) == (a % 16 < value % 16)) by (bit_vector)
        requires
            d == if a >= value { (a - value) as u8 } else { (a + 256 - value) as u8 },
    ;
}

} // verus!
