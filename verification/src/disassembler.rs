//! The disassembler: how the instruction at an address is written. It reads
//! the bus and changes nothing.

use vstd::prelude::*;
use crate::cpu::wrap16;
use crate::fault::Fault;
use crate::interconnect::{BusView, Interconnect};
use crate::opcode::{
    opcode_length,
    CB_OPCODE_NAME_LUT,
    OPCODE_LENGTHS,
    OPCODE_NAME_LUT,
    OPCODE_NAME_TAIL,
    PREFIX,
};
use crate::registers::{high, join, low, pair, split};

verus! {

/// The digit that stands for `n` in base 16, in upper case.
pub open spec fn hex_digit(n: nat) -> char
    recommends
        n < 16,
{
    seq![
        '0',
        '1',
        '2',
        '3',
        '4',
        '5',
        '6',
        '7',
        '8',
        '9',
        'A',
        'B',
        'C',
        'D',
        'E',
        'F',
    ][n as int]
}

/// A byte as two hexadecimal digits.
pub open spec fn hex2(value: u8) -> Seq<char> {
    seq![hex_digit(value as nat / 16), hex_digit(value as nat % 16)]
}

/// A 16-bit value as four hexadecimal digits.
pub open spec fn hex4(value: u16) -> Seq<char> {
    hex2(high(value)) + hex2(low(value))
}

/// How the instruction of the base table with the given opcode is written,
/// its operand being at `operand`: an instruction of two bytes has its
/// operand byte put in as two digits, one of three bytes its two operand
/// bytes, the low byte first in memory, as four digits.
pub open spec fn opcode_text(opcode: u8, operand: u16, bus: BusView) -> Result<Seq<char>, Fault> {
    if OPCODE_LENGTHS[opcode as int] == 2 {
        match bus.read(operand) {
            Ok(n) => Ok(
                OPCODE_NAME_LUT[opcode as int]@ + hex2(n) + OPCODE_NAME_TAIL[opcode as int]@,
            ),
            Err(fault) => Err(fault),
        }
    } else if OPCODE_LENGTHS[opcode as int] == 3 {
        match bus.read(operand) {
            Ok(lo) => match bus.read(wrap16(operand + 1)) {
                Ok(hi) => Ok(
                    OPCODE_NAME_LUT[opcode as int]@ + hex4(pair(hi, lo))
                        + OPCODE_NAME_TAIL[opcode as int]@,
                ),
                Err(fault) => Err(fault),
            },
            Err(fault) => Err(fault),
        }
    } else {
        Ok(OPCODE_NAME_LUT[opcode as int]@)
    }
}

/// How the instruction of the extended table whose opcode is at `at` is
/// written.
pub open spec fn cb_opcode_text(at: u16, bus: BusView) -> Result<Seq<char>, Fault> {
    match bus.read(at) {
        Ok(opcode) => Ok(CB_OPCODE_NAME_LUT[opcode as int]@),
        Err(fault) => Err(fault),
    }
}

/// The line for the instruction at `pc`: the address as four digits, two
/// tabs, and the instruction.
pub open spec fn listing(pc: u16, bus: BusView) -> Result<Seq<char>, Fault> {
    match bus.read(pc) {
        Ok(opcode) => {
            let text = if opcode == PREFIX {
                cb_opcode_text(wrap16(pc + 1), bus)
            } else {
                opcode_text(opcode, wrap16(pc + 1), bus)
            };
            match text {
                Ok(text) => Ok(hex4(pc) + "\t\t"@ + text),
                Err(fault) => Err(fault),
            }
        },
        Err(fault) => Err(fault),
    }
}

/// Whether `text` is the text that `expected` describes, or, where that is
/// a fault, the same fault.
pub open spec fn renders(text: Result<String, Fault>, expected: Result<Seq<char>, Fault>) -> bool {
    match expected {
        Ok(chars) => text matches Ok(t) && t@ == chars,
        Err(fault) => text matches Err(e) && e == fault,
    }
}

/// The hexadecimal digit for `n`, as a text of one character.
fn hex_str(n: u8) -> (digit: &'static str)
    requires
        n < 16,
    ensures
        digit@ == seq![hex_digit(n as nat)],
{
    proof {
        reveal_strlit("0");
        reveal_strlit("1");
        reveal_strlit("2");
        reveal_strlit("3");
        reveal_strlit("4");
        reveal_strlit("5");
        reveal_strlit("6");
        reveal_strlit("7");
        reveal_strlit("8");
        reveal_strlit("9");
        reveal_strlit("A");
        reveal_strlit("B");
        reveal_strlit("C");
        reveal_strlit("D");
        reveal_strlit("E");
        reveal_strlit("F");
    }
    let digit: &'static str = match n {
        0 => "0",
        1 => "1",
        2 => "2",
        3 => "3",
        4 => "4",
        5 => "5",
        6 => "6",
        7 => "7",
        8 => "8",
        9 => "9",
        10 => "A",
        11 => "B",
        12 => "C",
        13 => "D",
        14 => "E",
        _ => "F",
    };
    assert(digit@ =~= seq![hex_digit(n as nat)]);
    digit
}

/// Appends a byte as two hexadecimal digits.
fn push_hex2(text: &mut String, value: u8)
    ensures
        final(text)@ == old(text)@ + hex2(value),
{
    text.append(hex_str(value / 16));
    text.append(hex_str(value % 16));
    assert(text@ =~= old(text)@ + hex2(value));
}

/// Appends a 16-bit value as four hexadecimal digits.
fn push_hex4(text: &mut String, value: u16)
    ensures
        final(text)@ == old(text)@ + hex4(value),
{
    let (hi, lo) = split(value);
    push_hex2(text, hi);
    push_hex2(text, lo);
    assert(text@ =~= old(text)@ + hex4(value));
}

/// Writes the instruction of the base table with the given opcode, whose
/// operand, if it has one, starts at `program_counter`.
pub fn disassemble_opcode(
    opcode: u8,
    program_counter: u16,
    interconnect: &Interconnect,
) -> (text: Result<String, Fault>)
    requires
        interconnect.wf(),
    ensures
        renders(text, opcode_text(opcode, program_counter, interconnect@)),
{
    let opcode_length: u8 = opcode_length(opcode);
    let mut disasm_str: String = String::new();
    disasm_str.append(OPCODE_NAME_LUT[opcode as usize]);
    if opcode_length == 2 {
        let n: u8 = interconnect.read(program_counter)?;
        push_hex2(&mut disasm_str, n);
        disasm_str.append(OPCODE_NAME_TAIL[opcode as usize]);
    } else if opcode_length == 3 {
        let low: u8 = interconnect.read(program_counter)?;
        let high: u8 = interconnect.read(program_counter.wrapping_add(1))?;
        push_hex4(&mut disasm_str, join(high, low));
        disasm_str.append(OPCODE_NAME_TAIL[opcode as usize]);
    }
    assert(opcode_text(opcode, program_counter, interconnect@) matches Ok(chars) && disasm_str@
        =~= chars);
    Ok(disasm_str)
}

/// Writes the instruction of the extended table whose opcode is at
/// `program_counter`.
pub fn disassemble_cb_opcode(
    program_counter: u16,
    interconnect: &Interconnect,
) -> (text: Result<String, Fault>)
    requires
        interconnect.wf(),
    ensures
        renders(text, cb_opcode_text(program_counter, interconnect@)),
{
    let opcode: u8 = interconnect.read(program_counter)?;
    let mut disasm_str: String = String::new();
    disasm_str.append(CB_OPCODE_NAME_LUT[opcode as usize]);
    assert(disasm_str@ =~= CB_OPCODE_NAME_LUT[opcode as int]@);
    Ok(disasm_str)
}

/// Writes the line for the instruction at `program_counter`. The bus is
/// only read, and where a byte of the instruction cannot be read the fault
/// of that read is returned.
pub fn disassemble(
    program_counter: u16,
    interconnect: &Interconnect,
) -> (line: Result<String, Fault>)
    requires
        interconnect.wf(),
    ensures
        renders(line, listing(program_counter, interconnect@)),
{
    let opcode: u8 = interconnect.read(program_counter)?;
    let next: u16 = program_counter.wrapping_add(1);
    let disasm_str: String = if opcode == PREFIX {
        disassemble_cb_opcode(next, interconnect)?
    } else {
        disassemble_opcode(opcode, next, interconnect)?
    };
    let mut line: String = String::new();
    push_hex4(&mut line, program_counter);
    line.append("\t\t");
    line.append(disasm_str.as_str());
    assert(listing(program_counter, interconnect@) matches Ok(chars) && line@ =~= chars);
    Ok(line)
}

} // verus!
