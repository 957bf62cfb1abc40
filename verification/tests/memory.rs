use gb_core::error::CoreError;
use gb_core::graphics::Graphics;
use gb_core::memory_mapping::{MemoryMapping, Rom};

#[test]
fn write_to_rom_is_a_read_only_violation() {
    let mut memory = MemoryMapping::new();
    memory.load_rom(&[0x11, 0x22, 0x33]);
    for addr in [0x0000u16, 0x0001, 0x0100, 0x3FFF, 0x4000, 0x7FFF] {
        let before = memory.get(addr);
        assert_eq!(
            memory.set(addr, 0xAB),
            Err(CoreError::ReadOnlyViolation(addr))
        );
        assert_eq!(memory.get(addr), before);
    }
    assert_eq!(memory.get(0x0001), Ok(0x22));
}

#[test]
fn every_rom_address_refuses_a_write() {
    let mut memory = MemoryMapping::new();
    for addr in 0x0000..=0x7FFFu16 {
        assert_eq!(
            memory.set(addr, 0xFF),
            Err(CoreError::ReadOnlyViolation(addr))
        );
    }
    assert_eq!(memory.get(0x1234), Ok(0));
}

#[test]
fn load_rom_fills_from_address_zero() {
    let mut memory = MemoryMapping::new();
    memory.load_rom(&[1, 2, 3]);
    assert_eq!(memory.get(0), Ok(1));
    assert_eq!(memory.get(1), Ok(2));
    assert_eq!(memory.get(2), Ok(3));
    assert_eq!(memory.get(3), Ok(0));
    assert_eq!(memory.get(0x7FFF), Ok(0));

    let mut long = vec![0u8; 0x9000];
    long[0x7FFF] = 0x7E;
    long[0x8000] = 0x55;
    memory.load_rom(&long);
    assert_eq!(memory.get(0), Ok(0));
    assert_eq!(memory.get(0x7FFF), Ok(0x7E));
    assert_eq!(memory.get(0x8000), Ok(0));
}

#[test]
fn rom_alone() {
    let rom = Rom::new(&[9, 8, 7]);
    assert_eq!(rom.get(0), 9);
    assert_eq!(rom.get(2), 7);
    assert_eq!(rom.get(3), 0);
    assert_eq!(rom.get(0x7FFF), 0);
}

#[test]
fn regions_hold_what_was_written() {
    let mut memory = MemoryMapping::new();
    let cells = [
        0x8000u16, 0x9FFF, 0xA000, 0xBFFF, 0xC000, 0xCFFF, 0xD000, 0xDFFF, 0xFF80, 0xFFFE,
    ];
    for (i, addr) in cells.iter().enumerate() {
        assert_eq!(memory.get(*addr), Ok(0));
        assert_eq!(memory.set(*addr, 0x40 + i as u8), Ok(()));
    }
    for (i, addr) in cells.iter().enumerate() {
        assert_eq!(memory.get(*addr), Ok(0x40 + i as u8));
    }
    assert_eq!(memory.graphics().get(0x0000), 0x40);
    assert_eq!(memory.graphics().get(0x1FFF), 0x41);
}

#[test]
fn addresses_outside_the_regions_are_unmapped() {
    let mut memory = MemoryMapping::new();
    for addr in [
        0xE000u16, 0xFDFF, 0xFE00, 0xFF00, 0xFF0F, 0xFF6F, 0xFF71, 0xFF7F, 0xFFFF,
    ] {
        assert_eq!(memory.get(addr), Err(CoreError::UnmappedAddress(addr)));
        assert_eq!(
            memory.set(addr, 1),
            Err(CoreError::UnmappedAddress(addr))
        );
    }
}

#[test]
fn bank_switching() {
    let mut memory = MemoryMapping::new();
    assert_eq!(memory.set(0xFF70, 1), Ok(()));
    assert_eq!(memory.set(0xD010, 0x11), Ok(()));

    assert_eq!(memory.set(0xFF70, 3), Ok(()));
    assert_eq!(memory.get(0xD010), Ok(0x00));
    assert_eq!(memory.set(0xD010, 0x33), Ok(()));
    assert_eq!(memory.get(0xD010), Ok(0x33));

    assert_eq!(memory.set(0xFF70, 1), Ok(()));
    assert_eq!(memory.get(0xD010), Ok(0x11));

    assert_eq!(memory.set(0xFF70, 3), Ok(()));
    assert_eq!(memory.get(0xD010), Ok(0x33));
}

#[test]
fn bank_zero_selects_bank_one_and_reads_back_as_written() {
    let mut memory = MemoryMapping::new();
    assert_eq!(memory.get(0xFF70), Ok(0));
    assert_eq!(memory.set(0xD123, 0xA1), Ok(()));

    assert_eq!(memory.set(0xFF70, 1), Ok(()));
    assert_eq!(memory.get(0xD123), Ok(0xA1));

    assert_eq!(memory.set(0xFF70, 0), Ok(()));
    assert_eq!(memory.get(0xFF70), Ok(0));
    assert_eq!(memory.get(0xD123), Ok(0xA1));

    assert_eq!(memory.set(0xFF70, 0xF8), Ok(()));
    assert_eq!(memory.get(0xFF70), Ok(0xF8));
    assert_eq!(memory.get(0xD123), Ok(0xA1));

    assert_eq!(memory.set(0xFF70, 0x0A), Ok(()));
    assert_eq!(memory.get(0xD123), Ok(0));
}

#[test]
fn lower_half_of_work_ram_is_always_bank_zero() {
    let mut memory = MemoryMapping::new();
    assert_eq!(memory.set(0xC123, 0x77), Ok(()));
    for bank in 0..8u8 {
        assert_eq!(memory.set(0xFF70, bank), Ok(()));
        assert_eq!(memory.get(0xC123), Ok(0x77));
        assert_eq!(memory.set(0xD000, bank), Ok(()));
    }
    for bank in 2..8u8 {
        assert_eq!(memory.set(0xFF70, bank), Ok(()));
        assert_eq!(memory.get(0xD000), Ok(bank));
    }
    assert_eq!(memory.set(0xFF70, 1), Ok(()));
    assert_eq!(memory.get(0xD000), Ok(1));
}

#[test]
fn video_ram_alone() {
    let mut graphics = Graphics::new();
    assert_eq!(graphics.lcd_control, 0);
    assert_eq!(graphics.get(0x1FFF), 0);
    graphics.set(0x1FFF, 0x5A);
    graphics.set(0x0000, 0xA5);
    assert_eq!(graphics.get(0x1FFF), 0x5A);
    assert_eq!(graphics.get(0x0000), 0xA5);
    assert_eq!(graphics.get(0x0001), 0);
}
