use gbc::cart::Cart;
use gbc::fault::Fault;
use gbc::gamepad::Gamepad;
use gbc::interconnect::Interconnect;
use gbc::ppu::Ppu;
use gbc::spu::Spu;
use gbc::GameboyType;

/// An image of `banks` banks in which every byte of bank `k` is `k`, but for
/// the three header bytes that make it loadable.
fn bus(banks: usize, ram_code: u8) -> Interconnect {
    let mut bytes = vec![0u8; banks * 0x4000];
    for (i, byte) in bytes.iter_mut().enumerate() {
        *byte = (i / 0x4000) as u8;
    }
    bytes[0x147] = 0x1b;
    bytes[0x148] = 0x05;
    bytes[0x149] = ram_code;
    let cart = Cart::new(bytes).unwrap();
    Interconnect::new(GameboyType::Dmg, cart, Ppu::new(), Spu::new(), Gamepad::new())
}

#[test]
fn memories_start_zeroed() {
    let bus = bus(2, 0x03);
    for addr in [0x8000u16, 0x9fff, 0xa000, 0xbfff, 0xc000, 0xdfff, 0xfe00, 0xfe9f, 0xff80, 0xfffe] {
        assert_eq!(bus.read(addr), Ok(0), "at {:#06x}", addr);
    }
    assert_eq!(bus.read(0xff0f), Ok(0));
    assert_eq!(bus.read(0xffff), Ok(0));
    assert_eq!(bus.gb_type(), GameboyType::Dmg);
}

#[test]
fn device_registers_are_reached() {
    let bus = bus(2, 0x00);
    assert_eq!(bus.read(0xff00), Ok(0xff));
    assert_eq!(bus.read(0xff04), Ok(0x00));
    assert_eq!(bus.read(0xff10), Ok(0x00));
    assert_eq!(bus.read(0xff40), Ok(0x91));
    assert_eq!(bus.read(0xff47), Ok(0xfc));
    assert_eq!(bus.read(0xff48), Ok(0xff));
}

#[test]
fn plain_storage_reads_back_what_was_written() {
    let mut bus = bus(2, 0x03);
    bus.write(0x0000, 0x0a).unwrap();
    let addrs = [
        0x8000u16, 0x9fff, 0xa000, 0xbfff, 0xc000, 0xdfff, 0xfe00, 0xfe9f, 0xff00, 0xff04, 0xff07,
        0xff0f, 0xff10, 0xff3f, 0xff40, 0xff42, 0xff4b, 0xff80, 0xfffe, 0xffff,
    ];
    for (i, addr) in addrs.iter().enumerate() {
        let before = bus.read(*addr).unwrap();
        assert_eq!(bus.write(*addr, before), Ok(()));
        assert_eq!(bus.read(*addr), Ok(before));
        assert_eq!(bus.write(*addr, 0x40 + i as u8), Ok(()), "at {:#06x}", addr);
        assert_eq!(bus.read(*addr), Ok(0x40 + i as u8), "at {:#06x}", addr);
    }
    for (i, addr) in addrs.iter().enumerate() {
        assert_eq!(bus.read(*addr), Ok(0x40 + i as u8), "at {:#06x}", addr);
    }
}

#[test]
fn fixed_rom_window_is_read_only() {
    let mut bus = bus(4, 0x00);
    assert_eq!(bus.read(0x0147), Ok(0x1b));
    assert_eq!(bus.write(0x0147, 0x00), Ok(()));
    assert_eq!(bus.read(0x0147), Ok(0x1b));
    assert_eq!(bus.read(0x3fff), Ok(0x00));
    assert_eq!(bus.write(0x3fff, 0x02), Ok(()));
    assert_eq!(bus.read(0x3fff), Ok(0x00));
}

#[test]
fn writes_to_the_rom_windows_switch_banks() {
    let mut bus = bus(4, 0x00);
    assert_eq!(bus.read(0x4000), Ok(1));
    bus.write(0x2000, 0x03).unwrap();
    assert_eq!(bus.read(0x4000), Ok(3));
    assert_eq!(bus.read(0x7fff), Ok(3));
    bus.write(0x2000, 0x00).unwrap();
    assert_eq!(bus.read(0x4000), Ok(1));
    bus.write(0x2000, 0x01).unwrap();
    assert_eq!(bus.read(0x4000), Ok(1));
    assert_eq!(bus.read(0x0000), Ok(0));
}

#[test]
fn write_to_the_switchable_window_can_change_what_it_shows() {
    let mut bus = bus(64, 0x00);
    bus.write(0x2000, 0x02).unwrap();
    assert_eq!(bus.read(0x4000), Ok(2));
    assert_eq!(bus.write(0x4000, 0x01), Ok(()));
    assert_eq!(bus.read(0x4000), Ok(34));
    assert_eq!(bus.write(0x6000, 0x01), Ok(()));
    assert_eq!(bus.read(0x6000), Ok(2));
}

#[test]
fn locked_cartridge_ram_drops_writes_and_still_reads() {
    let mut bus = bus(2, 0x02);
    assert_eq!(bus.read(0xa000), Ok(0));
    assert_eq!(bus.write(0xa000, 0x77), Ok(()));
    assert_eq!(bus.read(0xa000), Ok(0));
    bus.write(0x0000, 0x0b).unwrap();
    assert_eq!(bus.write(0xa000, 0x77), Ok(()));
    assert_eq!(bus.read(0xa000), Ok(0));
    bus.write(0x0000, 0xa0).unwrap();
    assert_eq!(bus.write(0xa000, 0x77), Ok(()));
    assert_eq!(bus.read(0xa000), Ok(0));
    bus.write(0x0000, 0x0a).unwrap();
    assert_eq!(bus.write(0xa000, 0x77), Ok(()));
    assert_eq!(bus.read(0xa000), Ok(0x77));
    bus.write(0x0000, 0x00).unwrap();
    assert_eq!(bus.write(0xa000, 0x11), Ok(()));
    assert_eq!(bus.read(0xa000), Ok(0x77));
}

#[test]
fn cartridge_ram_banks_through_the_bus() {
    let mut bus = bus(2, 0x03);
    bus.write(0x0000, 0x0a).unwrap();
    bus.write(0x6000, 0x01).unwrap();
    bus.write(0x4000, 0x02).unwrap();
    bus.write(0xa000, 0x55).unwrap();
    assert_eq!(bus.read(0xa000), Ok(0x55));
    bus.write(0x4000, 0x01).unwrap();
    assert_eq!(bus.read(0xa000), Ok(0x00));
    bus.write(0x4000, 0x02).unwrap();
    assert_eq!(bus.read(0xa000), Ok(0x55));
}

#[test]
fn cartridge_without_ram() {
    let mut bus = bus(2, 0x00);
    assert_eq!(bus.read(0xa000), Err(Fault::OutOfRange { addr: 0xa000 }));
    assert_eq!(bus.write(0xa000, 0x01), Ok(()));
    bus.write(0x0000, 0x0a).unwrap();
    assert_eq!(bus.write(0xa000, 0x01), Err(Fault::OutOfRange { addr: 0xa000 }));
    assert_eq!(bus.read(0xbfff), Err(Fault::OutOfRange { addr: 0xbfff }));
}

#[test]
fn addresses_without_a_device_are_faults() {
    let mut bus = bus(2, 0x03);
    for addr in [
        0xe000u16, 0xfdff, 0xfea0, 0xfeff, 0xff01, 0xff03, 0xff08, 0xff0e, 0xff4c, 0xff7f,
    ] {
        assert_eq!(bus.read(addr), Err(Fault::Unmapped { addr }));
        assert_eq!(bus.write(addr, 0x12), Err(Fault::Unmapped { addr }));
    }
}

#[test]
fn addresses_that_the_ppu_refuses_are_faults() {
    let mut bus = bus(2, 0x03);
    for addr in [0xff41u16, 0xff45, 0xff46] {
        assert_eq!(bus.read(addr), Err(Fault::OutOfRange { addr }));
        assert_eq!(bus.write(addr, 0x12), Err(Fault::OutOfRange { addr }));
    }
}

#[test]
fn every_address_has_one_outcome() {
    let mut bus = bus(2, 0x03);
    bus.write(0x0000, 0x0a).unwrap();
    let mut stored = 0u32;
    let mut read_only = 0u32;
    let mut faults = 0u32;
    for addr in 0x0000u16..=0xffff {
        if (0x4000..0x8000).contains(&addr) || addr < 0x2000 {
            continue;
        }
        let before = bus.read(addr);
        let written = bus.write(addr, 0xa5);
        let after = bus.read(addr);
        match before {
            Ok(byte) => {
                assert_eq!(written, Ok(()));
                if addr < 0x8000 {
                    assert_eq!(after, Ok(byte));
                    read_only += 1;
                } else {
                    assert_eq!(after, Ok(0xa5), "at {:#06x}", addr);
                    stored += 1;
                }
            }
            Err(fault) => {
                assert_eq!(written, Err(fault));
                assert_eq!(after, Err(fault));
                faults += 1;
            }
        }
    }
    assert_eq!(read_only, 0x2000);
    assert_eq!(stored, 0x2000 + 0x2000 + 0x2000 + 0xa0 + 1 + 4 + 1 + 0x30 + 9 + 0x7f + 1);
    assert_eq!(faults, 0x1e00 + 0x60 + 3 + 7 + 3 + 0x34);
}

#[test]
fn cycle_flush_changes_nothing() {
    let mut bus = bus(2, 0x03);
    bus.write(0xc000, 0x12).unwrap();
    bus.cycle_flush(456);
    assert_eq!(bus.read(0xc000), Ok(0x12));
    assert_eq!(bus.read(0xff44), Ok(0x00));
}
