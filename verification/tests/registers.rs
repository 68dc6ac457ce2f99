use gbc::registers::{join, split, Flag, Reg16, Reg8, Registers};
use gbc::{CpuClock, GameboyType, Interrupt};

#[test]
fn dmg_reset_values() {
    let reg = Registers::new(GameboyType::Dmg);
    assert_eq!(reg.read_u16(Reg16::AF), 0x01b0);
    assert_eq!(reg.read_u16(Reg16::BC), 0x0013);
    assert_eq!(reg.read_u16(Reg16::DE), 0x00d8);
    assert_eq!(reg.read_u16(Reg16::HL), 0x014d);
    assert_eq!(reg.read_u16(Reg16::SP), 0xfffe);
    assert_eq!(reg.pc, 0x0100);
    assert!(reg.zero && !reg.subtract && reg.half_carry && reg.carry);
}

#[test]
fn cgb_reset_values() {
    let reg = Registers::new(GameboyType::Cgb);
    assert_eq!(reg.read_u16(Reg16::AF), 0x1180);
    assert_eq!(reg.read_u16(Reg16::BC), 0x0000);
    assert_eq!(reg.read_u16(Reg16::DE), 0xff56);
    assert_eq!(reg.read_u16(Reg16::HL), 0x000d);
    assert_eq!(reg.read_u16(Reg16::SP), 0xfffe);
    assert_eq!(reg.pc, 0x0100);
}

#[test]
fn pair_is_high_byte_first() {
    let mut reg = Registers::new(GameboyType::Dmg);
    reg.write_u8(Reg8::B, 0x12);
    reg.write_u8(Reg8::C, 0x34);
    assert_eq!(reg.read_u16(Reg16::BC), 0x1234);
    reg.write_u16(Reg16::DE, 0xabcd);
    assert_eq!(reg.read_u8(Reg8::D), 0xab);
    assert_eq!(reg.read_u8(Reg8::E), 0xcd);
    reg.write_u16(Reg16::HL, 0x00ff);
    assert_eq!(reg.read_u8(Reg8::H), 0x00);
    assert_eq!(reg.read_u8(Reg8::L), 0xff);
    assert_eq!(reg.read_u16(Reg16::HL), 0x00ff);
}

#[test]
fn pair_write_touches_only_its_halves() {
    let before = Registers::new(GameboyType::Dmg);
    let mut reg = before;
    reg.write_u16(Reg16::BC, 0xbeef);
    assert_eq!(reg, Registers { b: 0xbe, c: 0xef, ..before });
    reg.write_u16(Reg16::SP, 0x1234);
    assert_eq!(reg, Registers { b: 0xbe, c: 0xef, sp: 0x1234, ..before });
}

#[test]
fn flag_register_packs_the_flags() {
    let mut reg = Registers::new(GameboyType::Dmg);
    reg.write_u8(Reg8::F, 0xff);
    assert!(reg.zero && reg.subtract && reg.half_carry && reg.carry);
    assert_eq!(reg.read_u8(Reg8::F), 0xf0);
    reg.write_u8(Reg8::F, 0x0f);
    assert!(!reg.zero && !reg.subtract && !reg.half_carry && !reg.carry);
    assert_eq!(reg.read_u8(Reg8::F), 0x00);
    reg.write_u8(Reg8::F, 0x80);
    assert!(reg.zero && !reg.subtract && !reg.half_carry && !reg.carry);
    reg.write_u8(Reg8::F, 0x40);
    assert!(!reg.zero && reg.subtract && !reg.half_carry && !reg.carry);
    reg.write_u8(Reg8::F, 0x20);
    assert!(!reg.zero && !reg.subtract && reg.half_carry && !reg.carry);
    reg.write_u8(Reg8::F, 0x10);
    assert!(!reg.zero && !reg.subtract && !reg.half_carry && reg.carry);
    assert_eq!(reg.read_u8(Reg8::F), 0x10);
}

#[test]
fn af_drops_the_low_nibble() {
    let mut reg = Registers::new(GameboyType::Dmg);
    reg.write_u16(Reg16::AF, 0x12ff);
    assert_eq!(reg.read_u16(Reg16::AF), 0x12f0);
    assert_eq!(reg.a, 0x12);
    reg.write_u16(Reg16::AF, 0x345a);
    assert_eq!(reg.read_u16(Reg16::AF), 0x3450);
}

#[test]
fn flags_are_independent() {
    let mut reg = Registers::new(GameboyType::Cgb);
    reg.set_flag(Flag::Zero, false);
    reg.set_flag(Flag::Carry, true);
    assert!(!reg.flag(Flag::Zero));
    assert!(!reg.flag(Flag::Subtract));
    assert!(!reg.flag(Flag::HalfCarry));
    assert!(reg.flag(Flag::Carry));
    reg.set_flag(Flag::Subtract, true);
    reg.set_flag(Flag::HalfCarry, true);
    reg.set_flag(Flag::Carry, false);
    assert_eq!(reg.read_u8(Reg8::F), 0x60);
}

#[test]
fn every_register_reads_what_was_written() {
    let all = [Reg8::A, Reg8::B, Reg8::C, Reg8::D, Reg8::E, Reg8::H, Reg8::L];
    let mut reg = Registers::new(GameboyType::Dmg);
    for (i, which) in all.iter().enumerate() {
        reg.write_u8(*which, 0x10 + i as u8);
    }
    for (i, which) in all.iter().enumerate() {
        assert_eq!(reg.read_u8(*which), 0x10 + i as u8);
    }
}

#[test]
fn join_and_split() {
    assert_eq!(join(0x12, 0x34), 0x1234);
    assert_eq!(join(0x00, 0xff), 0x00ff);
    assert_eq!(join(0xff, 0x00), 0xff00);
    assert_eq!(split(0xbeef), (0xbe, 0xef));
    assert_eq!(split(0x0001), (0x00, 0x01));
}

#[test]
fn clock_speeds() {
    assert_eq!(CpuClock::Normal.value(), 4_194_304);
    assert_eq!(CpuClock::Double.value(), 8_388_608);
}

#[test]
fn interrupt_masks() {
    assert_eq!(Interrupt::VBlank.flag(), 0x01);
    assert_eq!(Interrupt::LCDStat.flag(), 0x02);
    assert_eq!(Interrupt::TimerOverflow.flag(), 0x04);
    assert_eq!(Interrupt::Serial.flag(), 0x08);
    assert_eq!(Interrupt::Joypad.flag(), 0x10);
}
