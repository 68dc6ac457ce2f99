use gbc::fault::Fault;
use gbc::mbc::mbc1::Mbc1;
use gbc::mbc::{MbcInfo, RamInfo};

/// A ROM of `banks` banks in which every byte of bank `k` is `k`.
fn rom(banks: usize) -> Vec<u8> {
    let mut bytes = vec![0u8; banks * 0x4000];
    for (i, byte) in bytes.iter_mut().enumerate() {
        *byte = (i / 0x4000) as u8;
    }
    bytes
}

fn controller(rom_banks: usize, ram_size: u32) -> Mbc1 {
    let ram_info = if ram_size == 0 { None } else { Some(RamInfo { size: ram_size }) };
    Mbc1::new(MbcInfo { rom_banks, ram_info })
}

#[test]
fn fixed_window_reads_the_first_bank() {
    let rom = rom(64);
    let mut mbc = controller(64, 0);
    assert_eq!(mbc.read(&rom, 0x0000), Ok(0));
    assert_eq!(mbc.read(&rom, 0x3fff), Ok(0));
    mbc.write(0x2000, 0x07).unwrap();
    assert_eq!(mbc.read(&rom, 0x0000), Ok(0));
    assert_eq!(mbc.read(&rom, 0x3fff), Ok(0));
}

#[test]
fn switchable_window_starts_at_bank_one() {
    let rom = rom(64);
    let mbc = controller(64, 0);
    assert_eq!(mbc.read(&rom, 0x4000), Ok(1));
    assert_eq!(mbc.read(&rom, 0x7fff), Ok(1));
}

#[test]
fn zero_and_one_both_select_bank_one() {
    let rom = rom(64);
    let mut mbc = controller(64, 0);
    mbc.write(0x2000, 0x05).unwrap();
    assert_eq!(mbc.read(&rom, 0x4000), Ok(5));
    mbc.write(0x2000, 0x00).unwrap();
    assert_eq!(mbc.read(&rom, 0x4000), Ok(1));
    mbc.write(0x3fff, 0x01).unwrap();
    assert_eq!(mbc.read(&rom, 0x4000), Ok(1));
}

#[test]
fn low_selector_has_five_bits() {
    let rom = rom(64);
    let mut mbc = controller(64, 0);
    mbc.write(0x2000, 0x1f).unwrap();
    assert_eq!(mbc.read(&rom, 0x4000), Ok(31));
    mbc.write(0x2000, 0xe3).unwrap();
    assert_eq!(mbc.read(&rom, 0x4000), Ok(3));
    mbc.write(0x2000, 0x20).unwrap();
    assert_eq!(mbc.read(&rom, 0x4000), Ok(1));
}

#[test]
fn high_selector_adds_32_banks_each_in_rom_mode() {
    let rom = rom(128);
    let mut mbc = controller(128, 0);
    mbc.write(0x2000, 0x02).unwrap();
    mbc.write(0x4000, 0x01).unwrap();
    assert_eq!(mbc.read(&rom, 0x4000), Ok(34));
    assert_eq!(mbc.read(&rom, 0x7fff), Ok(34));
    mbc.write(0x5fff, 0x03).unwrap();
    assert_eq!(mbc.read(&rom, 0x4000), Ok(98));
    mbc.write(0x4000, 0xfe).unwrap();
    assert_eq!(mbc.read(&rom, 0x4000), Ok(66));
    mbc.write(0x2000, 0x00).unwrap();
    assert_eq!(mbc.read(&rom, 0x4000), Ok(65));
}

#[test]
fn high_selector_adds_nothing_in_ram_mode() {
    let rom = rom(128);
    let mut mbc = controller(128, 0x8000);
    mbc.write(0x2000, 0x02).unwrap();
    mbc.write(0x4000, 0x01).unwrap();
    mbc.write(0x6000, 0x01).unwrap();
    assert_eq!(mbc.read(&rom, 0x4000), Ok(2));
    mbc.write(0x7fff, 0x00).unwrap();
    assert_eq!(mbc.read(&rom, 0x4000), Ok(34));
}

#[test]
fn bank_beyond_the_image_wraps() {
    let rom = rom(4);
    let mut mbc = controller(4, 0);
    mbc.write(0x2000, 0x03).unwrap();
    assert_eq!(mbc.read(&rom, 0x4000), Ok(3));
    mbc.write(0x2000, 0x07).unwrap();
    assert_eq!(mbc.read(&rom, 0x4000), Ok(3));
    mbc.write(0x2000, 0x04).unwrap();
    assert_eq!(mbc.read(&rom, 0x4000), Ok(0));
    mbc.write(0x2000, 0x01).unwrap();
    mbc.write(0x4000, 0x01).unwrap();
    assert_eq!(mbc.read(&rom, 0x4000), Ok(1));
    let rom = self::rom(3);
    let mut mbc = controller(3, 0);
    mbc.write(0x2000, 0x05).unwrap();
    assert_eq!(mbc.read(&rom, 0x4000), Ok(2));
    assert_eq!(mbc.read(&rom, 0x7fff), Ok(2));
}

#[test]
fn offset_within_the_window() {
    let mut rom = rom(4);
    rom[2 * 0x4000 + 0x123] = 0xaa;
    rom[0x0123] = 0xbb;
    let mut mbc = controller(4, 0);
    mbc.write(0x2000, 0x02).unwrap();
    assert_eq!(mbc.read(&rom, 0x4123), Ok(0xaa));
    assert_eq!(mbc.read(&rom, 0x0123), Ok(0xbb));
}

#[test]
fn ram_bank_two_starts_two_banks_in() {
    let mut mbc = controller(64, 0x8000);
    mbc.write(0x6000, 0x01).unwrap();
    mbc.write(0x4000, 0x02).unwrap();
    mbc.write_ram(0xa000, 0x55).unwrap();
    mbc.write_ram(0xbfff, 0x66).unwrap();
    assert_eq!(mbc.read_ram(0xa000), Ok(0x55));
    assert_eq!(mbc.read_ram(0xbfff), Ok(0x66));
    mbc.write(0x4000, 0x00).unwrap();
    assert_eq!(mbc.read_ram(0xa000), Ok(0x00));
    mbc.write(0x4000, 0x03).unwrap();
    assert_eq!(mbc.read_ram(0xa000), Ok(0x00));
    mbc.write(0x4000, 0x02).unwrap();
    mbc.write(0x6000, 0x00).unwrap();
    assert_eq!(mbc.read_ram(0xa000), Ok(0x00));
    mbc.write(0x6000, 0x01).unwrap();
    assert_eq!(mbc.read_ram(0xa000), Ok(0x55));
}

#[test]
fn ram_bank_beyond_the_ram_wraps() {
    let mut mbc = controller(64, 0x2000);
    mbc.write_ram(0xa010, 0x99).unwrap();
    mbc.write(0x6000, 0x01).unwrap();
    mbc.write(0x4000, 0x03).unwrap();
    assert_eq!(mbc.read_ram(0xa010), Ok(0x99));
}

#[test]
fn ram_starts_zeroed() {
    let mbc = controller(64, 0x2000);
    assert_eq!(mbc.read_ram(0xa000), Ok(0));
    assert_eq!(mbc.read_ram(0xbfff), Ok(0));
}

#[test]
fn ram_lock_follows_the_low_nibble() {
    let mut mbc = controller(64, 0x2000);
    assert!(mbc.ram_write_protected());
    mbc.write(0x0000, 0x0a).unwrap();
    assert!(!mbc.ram_write_protected());
    mbc.write(0x1fff, 0x00).unwrap();
    assert!(mbc.ram_write_protected());
    mbc.write(0x0000, 0x3a).unwrap();
    assert!(!mbc.ram_write_protected());
    mbc.write(0x0000, 0xa0).unwrap();
    assert!(mbc.ram_write_protected());
    mbc.write(0x0000, 0x0b).unwrap();
    assert!(mbc.ram_write_protected());
}

#[test]
fn addresses_outside_the_windows_are_faults() {
    let rom = rom(2);
    let mut mbc = controller(2, 0x2000);
    assert_eq!(mbc.read(&rom, 0x8000), Err(Fault::OutOfRange { addr: 0x8000 }));
    assert_eq!(mbc.read(&rom, 0xffff), Err(Fault::OutOfRange { addr: 0xffff }));
    assert_eq!(mbc.write(0x8000, 0), Err(Fault::OutOfRange { addr: 0x8000 }));
    assert_eq!(mbc.read_ram(0x9fff), Err(Fault::OutOfRange { addr: 0x9fff }));
    assert_eq!(mbc.read_ram(0xc000), Err(Fault::OutOfRange { addr: 0xc000 }));
    assert_eq!(mbc.write_ram(0x9fff, 1), Err(Fault::OutOfRange { addr: 0x9fff }));
    assert_eq!(mbc.write_ram(0xc000, 1), Err(Fault::OutOfRange { addr: 0xc000 }));
    assert_eq!(mbc.read(&rom, 0x7fff), Ok(1));
    assert_eq!(mbc.read_ram(0xbfff), Ok(0));
}

#[test]
fn ram_access_without_ram_is_a_fault() {
    let mut mbc = controller(2, 0);
    assert_eq!(mbc.read_ram(0xa000), Err(Fault::OutOfRange { addr: 0xa000 }));
    assert_eq!(mbc.write_ram(0xa000, 1), Err(Fault::OutOfRange { addr: 0xa000 }));
}

#[test]
fn ram_shorter_than_a_bank_is_addressed() {
    let mut mbc = controller(64, 0x800);
    assert_eq!(mbc.read_ram(0xa000), Ok(0));
    assert_eq!(mbc.write_ram(0xa000, 7), Ok(()));
    assert_eq!(mbc.read_ram(0xa000), Ok(7));
    assert_eq!(mbc.write_ram(0xa7ff, 9), Ok(()));
    assert_eq!(mbc.read_ram(0xa7ff), Ok(9));
    assert_eq!(mbc.read_ram(0xa000), Ok(7));
    for addr in 0xa001u16..0xa7ff {
        assert_eq!(mbc.read_ram(addr), Ok(0));
    }
    assert_eq!(mbc.read_ram(0xa800), Err(Fault::OutOfRange { addr: 0xa800 }));
    assert_eq!(mbc.write_ram(0xa800, 1), Err(Fault::OutOfRange { addr: 0xa800 }));
    assert_eq!(mbc.read_ram(0xbfff), Err(Fault::OutOfRange { addr: 0xbfff }));
    assert_eq!(mbc.read_ram(0xa7ff), Ok(9));
}

#[test]
fn ram_shorter_than_a_bank_has_one_bank() {
    let mut mbc = controller(64, 0x800);
    mbc.write_ram(0xa123, 0x42).unwrap();
    mbc.write(0x6000, 0x01).unwrap();
    for selector in 0..4u8 {
        mbc.write(0x4000, selector).unwrap();
        assert_eq!(mbc.read_ram(0xa123), Ok(0x42));
        assert_eq!(mbc.read_ram(0xa800), Err(Fault::OutOfRange { addr: 0xa800 }));
    }
}

#[test]
fn last_bank_that_is_not_whole_is_addressed() {
    let mut mbc = controller(64, 0x3000);
    mbc.write(0x6000, 0x01).unwrap();
    mbc.write(0x4000, 0x01).unwrap();
    assert_eq!(mbc.write_ram(0xa000, 0x33), Ok(()));
    assert_eq!(mbc.write_ram(0xafff, 0x44), Ok(()));
    assert_eq!(mbc.read_ram(0xa000), Ok(0x33));
    assert_eq!(mbc.read_ram(0xafff), Ok(0x44));
    assert_eq!(mbc.read_ram(0xb000), Err(Fault::OutOfRange { addr: 0xb000 }));
    assert_eq!(mbc.write_ram(0xb000, 1), Err(Fault::OutOfRange { addr: 0xb000 }));
    mbc.write(0x4000, 0x00).unwrap();
    assert_eq!(mbc.read_ram(0xa000), Ok(0x00));
    assert_eq!(mbc.read_ram(0xafff), Ok(0x00));
    assert_eq!(mbc.read_ram(0xb000), Ok(0x00));
    assert_eq!(mbc.read_ram(0xbfff), Ok(0x00));
    mbc.write(0x4000, 0x02).unwrap();
    assert_eq!(mbc.write_ram(0xbfff, 0x55), Ok(()));
    mbc.write(0x4000, 0x00).unwrap();
    assert_eq!(mbc.read_ram(0xbfff), Ok(0x55));
    mbc.write(0x4000, 0x03).unwrap();
    assert_eq!(mbc.read_ram(0xa000), Ok(0x33));
    assert_eq!(mbc.read_ram(0xafff), Ok(0x44));
}

#[test]
fn ram_write_changes_one_byte() {
    for size in [0x800u32, 0x2000, 0x3000] {
        let mut mbc = controller(64, size);
        let last = 0xa000 + size.min(0x2000) as u16 - 1;
        for addr in 0xa000..=last {
            mbc.write_ram(addr, (addr % 251) as u8).unwrap();
        }
        mbc.write_ram(0xa400, 0xee).unwrap();
        for addr in 0xa000..=last {
            let expected = if addr == 0xa400 { 0xee } else { (addr % 251) as u8 };
            assert_eq!(mbc.read_ram(addr), Ok(expected));
        }
    }
}
