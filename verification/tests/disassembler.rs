use gbc::cart::Cart;
use gbc::disassembler::{disassemble, disassemble_cb_opcode, disassemble_opcode};
use gbc::fault::Fault;
use gbc::gamepad::Gamepad;
use gbc::interconnect::Interconnect;
use gbc::opcode::{
    cb_opcode_time, opcode_length, opcode_time, CB_OPCODE_NAME_LUT, CB_OPCODE_TIMES,
    MAX_INSTRUCTION_CYCLES, OPCODE_LENGTHS, OPCODE_NAME_LUT, OPCODE_NAME_TAIL, OPCODE_TIMES,
};
use gbc::ppu::Ppu;
use gbc::spu::Spu;
use gbc::GameboyType;

fn bus(program: &[u8]) -> Interconnect {
    let mut bytes = vec![0u8; 0x8000];
    bytes[0x147] = 0x1b;
    bytes[0x148] = 0x05;
    bytes[0x150..0x150 + program.len()].copy_from_slice(program);
    let cart = Cart::new(bytes).unwrap();
    Interconnect::new(GameboyType::Dmg, cart, Ppu::new(), Spu::new(), Gamepad::new())
}

fn line(program: &[u8]) -> Result<String, Fault> {
    disassemble(0x0150, &bus(program))
}

#[test]
fn one_byte_instructions() {
    assert_eq!(line(&[0x00]), Ok(String::from("0150\t\tNOP")));
    assert_eq!(line(&[0xaf]), Ok(String::from("0150\t\tXOR A")));
    assert_eq!(line(&[0xc9]), Ok(String::from("0150\t\tRET")));
    assert_eq!(line(&[0x10, 0x12]), Ok(String::from("0150\t\tSTOP")));
    assert_eq!(line(&[0xf3]), Ok(String::from("0150\t\tDI")));
    assert_eq!(line(&[0x76]), Ok(String::from("0150\t\tHALT")));
    assert_eq!(line(&[0x46]), Ok(String::from("0150\t\tLD B,(HL)")));
    assert_eq!(line(&[0xff]), Ok(String::from("0150\t\tRST 38H")));
    assert_eq!(line(&[0xd3]), Ok(String::from("0150\t\t???")));
}

#[test]
fn two_byte_instructions_show_two_digits() {
    assert_eq!(line(&[0x3e, 0x42]), Ok(String::from("0150\t\tLD A,42")));
    assert_eq!(line(&[0x20, 0xfe]), Ok(String::from("0150\t\tJR NZ,FE")));
    assert_eq!(line(&[0x28, 0x05]), Ok(String::from("0150\t\tJR Z,05")));
    assert_eq!(line(&[0xe6, 0x0f]), Ok(String::from("0150\t\tAND 0F")));
    assert_eq!(line(&[0xfe, 0xa0]), Ok(String::from("0150\t\tCP A0")));
    assert_eq!(line(&[0xe0, 0x80]), Ok(String::from("0150\t\tLDH (80),A")));
    assert_eq!(line(&[0xf0, 0x44]), Ok(String::from("0150\t\tLDH A,(44)")));
}

#[test]
fn three_byte_instructions_show_four_digits_high_byte_first() {
    assert_eq!(line(&[0xc3, 0x50, 0x01]), Ok(String::from("0150\t\tJP 0150")));
    assert_eq!(line(&[0xcd, 0x00, 0x02]), Ok(String::from("0150\t\tCALL 0200")));
    assert_eq!(line(&[0x31, 0xfe, 0xff]), Ok(String::from("0150\t\tLD SP,FFFE")));
    assert_eq!(line(&[0xea, 0x34, 0x12]), Ok(String::from("0150\t\tLD (1234),A")));
    assert_eq!(line(&[0xfa, 0xcd, 0xab]), Ok(String::from("0150\t\tLD A,(ABCD)")));
    assert_eq!(line(&[0x08, 0x09, 0x00]), Ok(String::from("0150\t\tLD (0009),SP")));
}

#[test]
fn extended_instructions() {
    assert_eq!(line(&[0xcb, 0x7f]), Ok(String::from("0150\t\tBIT 7,A")));
    assert_eq!(line(&[0xcb, 0x87]), Ok(String::from("0150\t\tRES 0,A")));
    assert_eq!(line(&[0xcb, 0x00]), Ok(String::from("0150\t\tRLC B")));
    assert_eq!(line(&[0xcb, 0x36]), Ok(String::from("0150\t\tSWAP (HL)")));
    assert_eq!(line(&[0xcb, 0xff]), Ok(String::from("0150\t\tSET 7,A")));
}

#[test]
fn address_is_four_upper_case_digits() {
    let mut bus = bus(&[]);
    bus.write(0xc0de, 0x3e).unwrap();
    bus.write(0xc0df, 0x9c).unwrap();
    assert_eq!(disassemble(0xc0de, &bus), Ok(String::from("C0DE\t\tLD A,9C")));
    assert_eq!(disassemble(0x0000, &bus), Ok(String::from("0000\t\tNOP")));
    assert_eq!(disassemble(0xffff, &bus), Ok(String::from("FFFF\t\tNOP")));
}

#[test]
fn disassembly_reads_ahead_without_changing_the_bus() {
    let mut bus = bus(&[0xcd, 0x00, 0x02]);
    bus.write(0xc000, 0x12).unwrap();
    let first = disassemble(0x0150, &bus);
    let second = disassemble(0x0150, &bus);
    assert_eq!(first, second);
    assert_eq!(bus.read(0xc000), Ok(0x12));
    assert_eq!(bus.read(0x0150), Ok(0xcd));
}

#[test]
fn unreadable_bytes_are_faults() {
    let mut bus = bus(&[]);
    assert_eq!(disassemble(0xe000, &bus), Err(Fault::Unmapped { addr: 0xe000 }));
    bus.write(0xdfff, 0x3e).unwrap();
    assert_eq!(disassemble(0xdfff, &bus), Err(Fault::Unmapped { addr: 0xe000 }));
    bus.write(0xdfff, 0xcb).unwrap();
    assert_eq!(disassemble(0xdfff, &bus), Err(Fault::Unmapped { addr: 0xe000 }));
    bus.write(0xdffe, 0xc3).unwrap();
    bus.write(0xdfff, 0x00).unwrap();
    assert_eq!(disassemble(0xdffe, &bus), Err(Fault::Unmapped { addr: 0xe000 }));
    bus.write(0xdffe, 0x00).unwrap();
    assert_eq!(disassemble(0xdffe, &bus), Ok(String::from("DFFE\t\tNOP")));
}

#[test]
fn operand_address_wraps() {
    let mut bus = bus(&[]);
    bus.write(0xffff, 0x3e).unwrap();
    assert_eq!(disassemble(0xffff, &bus), Ok(String::from("FFFF\t\tLD A,00")));
}

#[test]
fn opcode_alone() {
    let bus = bus(&[0x34, 0x12]);
    assert_eq!(disassemble_opcode(0xc3, 0x0150, &bus), Ok(String::from("JP 1234")));
    assert_eq!(disassemble_opcode(0x06, 0x0150, &bus), Ok(String::from("LD B,34")));
    assert_eq!(disassemble_opcode(0x04, 0x0150, &bus), Ok(String::from("INC B")));
    assert_eq!(disassemble_cb_opcode(0x0150, &bus), Ok(String::from("SWAP H")));
    assert_eq!(
        disassemble_opcode(0x06, 0xe000, &bus),
        Err(Fault::Unmapped { addr: 0xe000 })
    );
    assert_eq!(disassemble_opcode(0x04, 0xe000, &bus), Ok(String::from("INC B")));
    assert_eq!(disassemble_cb_opcode(0xe000, &bus), Err(Fault::Unmapped { addr: 0xe000 }));
}

#[test]
fn cycle_tables() {
    assert_eq!(opcode_time(0x00), 4);
    assert_eq!(opcode_time(0x10), 4);
    assert_eq!(opcode_time(0x20), 8);
    assert_eq!(opcode_time(0x28), 8);
    assert_eq!(opcode_time(0x31), 12);
    assert_eq!(opcode_time(0x3e), 8);
    assert_eq!(opcode_time(0xaf), 4);
    assert_eq!(opcode_time(0xc3), 16);
    assert_eq!(opcode_time(0xc9), 16);
    assert_eq!(opcode_time(0xcb), 0);
    assert_eq!(opcode_time(0xcd), 24);
    assert_eq!(opcode_time(0xe0), 12);
    assert_eq!(opcode_time(0xe6), 8);
    assert_eq!(opcode_time(0xea), 16);
    assert_eq!(opcode_time(0xf0), 12);
    assert_eq!(opcode_time(0xf3), 4);
    assert_eq!(opcode_time(0xfe), 8);
    assert_eq!(cb_opcode_time(0x7f), 8);
    assert_eq!(cb_opcode_time(0x87), 8);
    assert_eq!(cb_opcode_time(0x46), 12);
    assert_eq!(cb_opcode_time(0x86), 16);
    for opcode in 0..=255u8 {
        assert_eq!(opcode_time(opcode), OPCODE_TIMES[opcode as usize]);
        assert_eq!(cb_opcode_time(opcode), CB_OPCODE_TIMES[opcode as usize]);
        assert!(opcode_time(opcode) as u32 <= MAX_INSTRUCTION_CYCLES);
        assert!(cb_opcode_time(opcode) as u32 <= MAX_INSTRUCTION_CYCLES);
    }
}

#[test]
fn length_table() {
    assert_eq!(opcode_length(0x00), 1);
    assert_eq!(opcode_length(0x10), 1);
    assert_eq!(opcode_length(0x3e), 2);
    assert_eq!(opcode_length(0xe0), 2);
    assert_eq!(opcode_length(0xc3), 3);
    assert_eq!(opcode_length(0xcd), 3);
    assert_eq!(opcode_length(0xcb), 1);
    for opcode in 0..=255u8 {
        let length = opcode_length(opcode);
        assert_eq!(length, OPCODE_LENGTHS[opcode as usize]);
        assert!(length >= 1 && length <= 3);
        if length == 1 {
            assert_eq!(OPCODE_NAME_TAIL[opcode as usize], "");
        }
    }
    assert_eq!(OPCODE_LENGTHS.iter().filter(|length| **length == 2).count(), 25);
    assert_eq!(OPCODE_LENGTHS.iter().filter(|length| **length == 3).count(), 17);
}

#[test]
fn name_tables() {
    assert_eq!(OPCODE_NAME_LUT[0x00], "NOP");
    assert_eq!(OPCODE_NAME_LUT[0x3e], "LD A,");
    assert_eq!(OPCODE_NAME_LUT[0xea], "LD (");
    assert_eq!(OPCODE_NAME_TAIL[0xea], "),A");
    assert_eq!(OPCODE_NAME_LUT[0xcb], "PREFIX CB");
    assert_eq!(CB_OPCODE_NAME_LUT[0x7f], "BIT 7,A");
    assert_eq!(CB_OPCODE_NAME_LUT[0x87], "RES 0,A");
    assert_eq!(OPCODE_NAME_LUT.iter().filter(|name| **name == "???").count(), 11);
}
