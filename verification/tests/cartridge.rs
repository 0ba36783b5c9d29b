use gb::cartridge::mbc1::{BankMode, MBC1};
use gb::cartridge::rom_only::ROMOnly;
use gb::cartridge::Cartridge;
use gb::rom::CartridgeType;
use gb::ROM;

/// An image of `banks` banks; the byte at offset i of bank b is 16 * b + i % 16.
fn image(banks: usize) -> Vec<u8> {
    let mut bytes = vec![0u8; banks * 0x4000];
    for (i, byte) in bytes.iter_mut().enumerate() {
        *byte = (((i >> 14) * 16 + (i & 0x0F)) & 0xFF) as u8;
    }
    bytes
}

fn header(kind: u8, rom_code: u8, ram_code: u8) -> ROM {
    let mut bytes = vec![0u8; 0x8000];
    bytes[0x134..0x134 + 6].copy_from_slice(b"TETRIS");
    bytes[0x13F..0x143].copy_from_slice(b"ABCD");
    bytes[0x143] = 0x80;
    bytes[0x144] = b'0';
    bytes[0x145] = b'1';
    bytes[0x146] = 0x03;
    bytes[0x147] = kind;
    bytes[0x148] = rom_code;
    bytes[0x149] = ram_code;
    bytes[0x14A] = 0x01;
    bytes[0x14B] = 0x33;
    bytes[0x14C] = 0x02;
    ROM::from(bytes)
}

#[test]
fn header_fields() {
    let rom = header(0x01, 0x02, 0x03);
    assert_eq!("TETRIS", rom.title());
    assert_eq!("ABCD\u{80}", rom.manufacturer_code());
    assert_eq!(0x80, rom.cgb_flag());
    assert_eq!("01", rom.new_licensee_code());
    assert_eq!(0x03, rom.sgb_flag());
    assert_eq!(CartridgeType::MBC1, rom.cartridge_type());
    assert_eq!(131072, rom.rom_size());
    assert_eq!(32768, rom.ram_size());
    assert_eq!(0x01, rom.destination_code());
    assert_eq!(0x33, rom.old_licensee_code());
    assert_eq!(0x02, rom.mask_rom_version());
    assert_eq!(b'T', rom.read(0x134));
    assert!(rom.supported());
}

#[test]
fn title_ends_at_the_first_zero_or_after_16_bytes() {
    let mut bytes = vec![0u8; 0x150];
    bytes[0x134..0x144].copy_from_slice(b"SIXTEEN LETTERS!");
    assert_eq!("SIXTEEN LETTERS!", ROM::from(bytes.clone()).title());
    bytes[0x134] = 0;
    assert_eq!("", ROM::from(bytes.clone()).title());
    bytes[0x134] = b'A';
    bytes[0x135] = 0;
    assert_eq!("A", ROM::from(bytes).title());
}

#[test]
fn size_codes() {
    assert_eq!(32768, header(0, 0, 0).rom_size());
    assert_eq!(65536, header(0, 1, 0).rom_size());
    assert_eq!(32768 << 8, header(0, 8, 0).rom_size());
    assert_eq!(0, header(0, 0, 0).ram_size());
    assert_eq!(2048, header(0, 0, 1).ram_size());
    assert_eq!(8192, header(0, 0, 2).ram_size());
    assert_eq!(32768, header(0, 0, 3).ram_size());
}

#[test]
fn cartridge_kinds() {
    assert_eq!(CartridgeType::ROMOnly, header(0x00, 0, 0).cartridge_type());
    assert_eq!(CartridgeType::MBC1, header(0x01, 0, 0).cartridge_type());
    assert_eq!(CartridgeType::MBC1, header(0x02, 0, 0).cartridge_type());
    assert_eq!(CartridgeType::MBC1, header(0x03, 0, 0).cartridge_type());
    assert_eq!("ROM ONLY", CartridgeType::ROMOnly.name());
    assert_eq!("MBC1", CartridgeType::MBC1.name());
    assert!(header(0x03, 0, 3).supported());
    assert!(!header(0x04, 0, 0).supported());
    assert!(!header(0x00, 0, 4).supported());
    assert!(!ROM::from(vec![0u8; 0x149]).supported());
    assert!(ROM::from(vec![0u8; 0x14A]).supported());
    assert!(matches!(header(0x00, 0, 0).into_cartridge(), Cartridge::ROMOnly(_)));
    match header(0x02, 0, 2).into_cartridge() {
        Cartridge::MBC1(mbc1) => {
            assert_eq!(8192, mbc1.ram.len());
            assert_eq!(1, mbc1.rom_bank);
            assert_eq!(0, mbc1.ram_bank);
            assert!(!mbc1.ram_enabled);
            assert_eq!(BankMode::ROM, mbc1.bank_mode);
        }
        Cartridge::ROMOnly(_) => panic!("an MBC1 was asked for"),
    }
}

#[test]
fn rom_only() {
    let mut rom = ROMOnly::new(ROM::from(image(2)));
    assert_eq!(0x05, rom.read(0x0005));
    assert_eq!(0x10, rom.read(0x4000));
    assert_eq!(0x1F, rom.read(0x7FFF));
    rom.write(0x2000, 0x03);
    rom.write(0x4000, 0xFF);
    assert_eq!(0x10, rom.read(0x4000));
    assert_eq!(0xFF, rom.read(0xA000));
    assert_eq!(0x8000, rom.rom().0.len());
    // An image that ends early reads 0xFF behind its end.
    let rom = ROMOnly::new(ROM::from(vec![7u8; 0x100]));
    assert_eq!(7, rom.read(0x00FF));
    assert_eq!(0xFF, rom.read(0x0100));
}

#[test]
fn mbc1_rom_banks() {
    let mut mbc1 = MBC1::new(ROM::from(image(8)), 0);
    assert_eq!(0x05, mbc1.read(0x0005));
    assert_eq!(0x0F, mbc1.read(0x3FFF));
    assert_eq!(0x10, mbc1.read(0x4000));
    mbc1.write(0x2000, 0x03);
    assert_eq!(0x31, mbc1.read(0x4001));
    assert_eq!(0x3F, mbc1.read(0x7FFF));
    assert_eq!(0x05, mbc1.read(0x0005));
    mbc1.write(0x3FFF, 0xE5);
    assert_eq!(0x05, mbc1.rom_bank);
    assert_eq!(0x50, mbc1.read(0x4000));
    // Bank 0 cannot be chosen: bank 1 takes its place.
    mbc1.write(0x2000, 0x00);
    assert_eq!(0x00, mbc1.rom_bank);
    assert_eq!(0x10, mbc1.read(0x4000));
    mbc1.write(0x2000, 0x07);
    assert_eq!(0x70, mbc1.read(0x4000));
    // The upper bits, in ROM banking mode
    mbc1.write(0x4000, 0x01);
    assert_eq!(0x27, mbc1.rom_bank);
    assert_eq!(0xFF, mbc1.read(0x4000));
    mbc1.write(0x5FFF, 0xFF);
    assert_eq!(0x67, mbc1.rom_bank);
    mbc1.write(0x4000, 0x00);
    assert_eq!(0x07, mbc1.rom_bank);
}

#[test]
fn mbc1_banks_0x20_0x40_0x60_are_remapped() {
    let mut bytes = vec![0u8; 0x63 * 0x4000];
    for bank in 0..0x63usize {
        bytes[bank * 0x4000] = bank as u8;
    }
    let mut mbc1 = MBC1::new(ROM::from(bytes), 0);
    for upper in 0..4u8 {
        mbc1.write(0x2000, 0x00);
        mbc1.write(0x4000, upper);
        assert_eq!(upper * 0x20, mbc1.rom_bank);
        assert_eq!(upper * 0x20 + 1, mbc1.read(0x4000));
        mbc1.write(0x2000, 0x02);
        assert_eq!(upper * 0x20 + 2, mbc1.read(0x4000));
    }
}

#[test]
fn mbc1_ram() {
    let mut mbc1 = MBC1::new(ROM::from(image(2)), 8192);
    assert_eq!(0xFF, mbc1.read(0xA000));
    mbc1.write(0xA000, 0x55);
    mbc1.write(0x0000, 0x0A);
    assert_eq!(0x00, mbc1.read(0xA000));
    mbc1.write(0xA000, 0x55);
    mbc1.write(0xBFFF, 0x66);
    assert_eq!(0x55, mbc1.read(0xA000));
    assert_eq!(0x66, mbc1.read(0xBFFF));
    mbc1.write(0x1FFF, 0x00);
    assert_eq!(0xFF, mbc1.read(0xA000));
    mbc1.write(0xA000, 0x77);
    // Only the low nibble counts.
    mbc1.write(0x0000, 0xFA);
    assert_eq!(0x55, mbc1.read(0xA000));
    mbc1.write(0x0000, 0xA0);
    assert_eq!(0xFF, mbc1.read(0xA000));
}

#[test]
fn mbc1_ram_banks() {
    let mut mbc1 = MBC1::new(ROM::from(image(2)), 32768);
    mbc1.write(0x0000, 0x0A);
    mbc1.write(0x6000, 0x01);
    assert_eq!(BankMode::RAM, mbc1.bank_mode);
    for bank in 0..4u8 {
        mbc1.write(0x4000, bank);
        assert_eq!(bank, mbc1.ram_bank);
        mbc1.write(0xA123, 0x40 + bank);
    }
    for bank in 0..4u8 {
        mbc1.write(0x4000, 0xFC | bank);
        assert_eq!(bank, mbc1.ram_bank);
        assert_eq!(0x40 + bank, mbc1.read(0xA123));
        assert_eq!(0x40 + bank, mbc1.ram[bank as usize * 0x2000 + 0x123]);
    }
    // The ROM bank is not touched in RAM banking mode.
    assert_eq!(0x01, mbc1.rom_bank);
    // The mode is chosen by bit 0.
    mbc1.write(0x7FFF, 0x02);
    assert_eq!(BankMode::ROM, mbc1.bank_mode);
    mbc1.write(0x6000, 0x03);
    assert_eq!(BankMode::RAM, mbc1.bank_mode);
}

#[test]
fn mbc1_ram_that_is_not_there() {
    let mut mbc1 = MBC1::new(ROM::from(image(2)), 0);
    mbc1.write(0x0000, 0x0A);
    mbc1.write(0xA000, 0x55);
    assert_eq!(0xFF, mbc1.read(0xA000));
    let mut mbc1 = MBC1::new(ROM::from(image(2)), 2048);
    mbc1.write(0x0000, 0x0A);
    mbc1.write(0xA7FF, 0x55);
    mbc1.write(0xA800, 0x66);
    assert_eq!(0x55, mbc1.read(0xA7FF));
    assert_eq!(0xFF, mbc1.read(0xA800));
    mbc1.write(0x6000, 0x01);
    mbc1.write(0x4000, 0x01);
    assert_eq!(0xFF, mbc1.read(0xA7FF));
}

#[test]
fn cartridge_dispatch() {
    let mut cartridge = Cartridge::mbc1(ROM::from(image(4)), 8192);
    assert_eq!(0x10, cartridge.read(0x4000));
    cartridge.write(0x2000, 0x02);
    assert_eq!(0x20, cartridge.read(0x4000));
    assert_eq!(0x10000, cartridge.rom().0.len());
    let mut cartridge = Cartridge::rom_only(ROM::from(image(2)));
    cartridge.write(0x2000, 0x02);
    assert_eq!(0x10, cartridge.read(0x4000));
    assert_eq!(0xFF, cartridge.read(0xBFFF));
}
