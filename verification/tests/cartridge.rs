use rusty_gbc::fault::Fault;
use rusty_gbc::mbc::{color_mode_of, MemoryBank, MBC1, MBC3, MBC5, NoMBC};

fn image(kind: u8, rom_size: u8, ram_size: u8, banks: usize) -> Vec<u8> {
    let mut rom: Vec<u8> = vec![0u8; banks * 0x4000];
    for bank in 0..banks {
        for offset in 0..0x4000usize {
            rom[bank * 0x4000 + offset] = ((bank * 7 + offset) % 256) as u8;
        }
    }
    rom[0x147] = kind;
    rom[0x148] = rom_size;
    rom[0x149] = ram_size;
    rom
}

fn byte_of(bank: usize, offset: usize) -> u8 {
    ((bank * 7 + offset) % 256) as u8
}

fn fault_of(made: Result<MemoryBank, Fault>) -> Fault {
    match made {
        Ok(_) => panic!("the cartridge loaded"),
        Err(fault) => fault,
    }
}

#[test]
fn plain_cartridge_reads_the_raw_image() {
    let rom = image(0x00, 0, 0, 2);
    let expected = rom[0x0150];
    let bank = MemoryBank::new(rom, Vec::new()).unwrap();
    assert_eq!(bank.read_rom(0x0150), expected);
    assert_eq!(bank.read_rom(0x0150), byte_of(0, 0x150));
    assert_eq!(bank.read_rom(0x4000), byte_of(1, 0));
    assert_eq!(bank.read_rom(0x7FFF), byte_of(1, 0x3FFF));
}

#[test]
fn plain_cartridge_ignores_rom_writes_and_has_ram() {
    let mut bank = MemoryBank::new(image(0x00, 0, 0, 2), Vec::new()).unwrap();
    bank.write_rom(0x2000, 5);
    bank.write_rom(0x0150, 0xAA);
    assert_eq!(bank.read_rom(0x0150), byte_of(0, 0x150));
    assert_eq!(bank.read_rom(0x4000), byte_of(1, 0));
    bank.write_ram(0x1FFF, 0x5A);
    assert_eq!(bank.read_ram(0x1FFF), 0x5A);
    assert_eq!(bank.read_ram(0x0000), 0x00);
}

#[test]
fn short_plain_image_is_padded_with_zeros() {
    let mut rom = image(0x00, 0, 0, 1);
    rom.truncate(0x200);
    let mbc = NoMBC::load_rom(&rom).unwrap();
    assert_eq!(mbc.read_rom(0x1FF), byte_of(0, 0x1FF));
    assert_eq!(mbc.read_rom(0x200), 0);
    assert_eq!(mbc.read_rom(0x7FFF), 0);
}

#[test]
fn faults_of_loading() {
    assert_eq!(fault_of(MemoryBank::new(vec![0u8; 0x149], Vec::new())), Fault::TruncatedImage);
    assert_eq!(
        fault_of(MemoryBank::new(image(0x00, 9, 0, 2), Vec::new())),
        Fault::UnsupportedRomSize { code: 9 }
    );
    assert_eq!(
        fault_of(MemoryBank::new(image(0x00, 0, 6, 2), Vec::new())),
        Fault::UnsupportedRamSize { code: 6 }
    );
    assert_eq!(
        fault_of(MemoryBank::new(image(0x05, 0, 0, 2), Vec::new())),
        Fault::UnsupportedCartridge { kind: 0x05 }
    );
    assert_eq!(
        fault_of(MemoryBank::new(image(0xFF, 0, 0, 2), Vec::new())),
        Fault::UnsupportedCartridge { kind: 0xFF }
    );
    assert_eq!(
        fault_of(MemoryBank::new(image(0x00, 0, 0, 3), Vec::new())),
        Fault::OversizedImage
    );
    assert_eq!(
        fault_of(MemoryBank::new(image(0x01, 0, 0, 3), Vec::new())),
        Fault::OversizedImage
    );
    assert_eq!(
        fault_of(MemoryBank::new(image(0x03, 0, 2, 2), vec![0u8; 0x2001])),
        Fault::OversizedSave
    );
    // 256 banks are more than the first family addresses
    assert_eq!(
        fault_of(MemoryBank::new(image(0x01, 7, 0, 2), Vec::new())),
        Fault::BankCount { count: 256 }
    );
    // 512 banks are more than the fifth family takes
    assert_eq!(
        fault_of(MemoryBank::new(image(0x19, 8, 0, 2), Vec::new())),
        Fault::BankCount { count: 512 }
    );
}

#[test]
fn first_family_zero_selects_bank_one() {
    let mut zero = MemoryBank::new(image(0x01, 2, 0, 8), Vec::new()).unwrap();
    let mut one = MemoryBank::new(image(0x01, 2, 0, 8), Vec::new()).unwrap();
    zero.write_rom(0x2000, 0);
    one.write_rom(0x2000, 1);
    for offset in [0u16, 1, 0x1234, 0x3FFF] {
        assert_eq!(zero.read_rom(0x4000 + offset), one.read_rom(0x4000 + offset));
        assert_eq!(zero.read_rom(0x4000 + offset), byte_of(1, offset as usize));
    }
}

#[test]
fn first_family_switches_banks() {
    let mut bank = MemoryBank::new(image(0x01, 2, 0, 8), Vec::new()).unwrap();
    assert_eq!(bank.read_rom(0x4000), byte_of(1, 0));
    bank.write_rom(0x2000, 5);
    assert_eq!(bank.read_rom(0x4000), byte_of(5, 0));
    assert_eq!(bank.read_rom(0x0000), byte_of(0, 0));
    // only the low five bits count
    bank.write_rom(0x3FFF, 0xE3);
    assert_eq!(bank.read_rom(0x4001), byte_of(3, 1));
    // bank numbers wrap at the bank count
    bank.write_rom(0x2000, 9);
    assert_eq!(bank.read_rom(0x4000), byte_of(1, 0));
}

#[test]
fn first_family_extension_bits_select_rom_or_ram() {
    let mut mbc = MBC1::load_rom(&image(0x03, 6, 3, 125), &Vec::new(), 128, 4, 0x2000).unwrap();
    mbc.write_rom(0x2000, 2);
    mbc.write_rom(0x4000, 1);
    assert_eq!(mbc.selected_rom(), 34);
    assert_eq!(mbc.read_rom(0x4000), byte_of(34, 0));
    mbc.write_rom(0x6000, 1);
    assert_eq!(mbc.selected_rom(), 2);
    mbc.write_rom(0x0000, 0x0A);
    mbc.write_ram(0x0010, 0x77);
    assert_eq!(mbc.read_ram(0x0010), 0x77);
    mbc.write_rom(0x4000, 2);
    assert_eq!(mbc.read_ram(0x0010), 0x00);
    mbc.write_rom(0x4000, 1);
    assert_eq!(mbc.read_ram(0x0010), 0x77);
    mbc.write_rom(0x6000, 0);
    assert_eq!(mbc.read_ram(0x0010), 0x00);
}

#[test]
fn first_family_bank_count_quirk() {
    let sixty_four = MBC1::load_rom(&image(0x01, 5, 0, 2), &Vec::new(), 64, 0, 0).unwrap();
    assert_eq!(sixty_four.banks.rom_bank_count, 63);
    assert_eq!(sixty_four.banks.rom.len(), 63 * 0x4000);
    let many = MBC1::load_rom(&image(0x01, 6, 0, 2), &Vec::new(), 128, 0, 0).unwrap();
    assert_eq!(many.banks.rom_bank_count, 125);
    let few = MBC1::load_rom(&image(0x01, 4, 0, 2), &Vec::new(), 32, 0, 0).unwrap();
    assert_eq!(few.banks.rom_bank_count, 32);
    match MBC1::load_rom(&image(0x01, 7, 0, 2), &Vec::new(), 129, 0, 0) {
        Err(fault) => assert_eq!(fault, Fault::BankCount { count: 129 }),
        Ok(_) => panic!("129 banks loaded"),
    }
    match MBC1::load_rom(&image(0x01, 7, 0, 2), &Vec::new(), 0, 0, 0) {
        Err(fault) => assert_eq!(fault, Fault::BankCount { count: 0 }),
        Ok(_) => panic!("no bank loaded"),
    }
}

#[test]
fn ram_is_gated() {
    let mut bank = MemoryBank::new(image(0x03, 1, 2, 4), Vec::new()).unwrap();
    bank.write_ram(0x0000, 0x12);
    assert_eq!(bank.read_ram(0x0000), 0xFF);
    bank.write_rom(0x0000, 0x0A);
    assert_eq!(bank.read_ram(0x0000), 0x00);
    bank.write_ram(0x0000, 0x12);
    assert_eq!(bank.read_ram(0x0000), 0x12);
    // any other low nibble disables the RAM
    bank.write_rom(0x1FFF, 0x0F);
    assert_eq!(bank.read_ram(0x0000), 0xFF);
    bank.write_rom(0x0000, 0xFA);
    assert_eq!(bank.read_ram(0x0000), 0x12);
}

#[test]
fn missing_ram_reads_high() {
    let mut bank = MemoryBank::new(image(0x01, 1, 0, 4), Vec::new()).unwrap();
    bank.write_rom(0x0000, 0x0A);
    bank.write_ram(0x0000, 0x12);
    assert_eq!(bank.read_ram(0x0000), 0xFF);
    // a bank of 2 KiB ends at 0x800
    let mut small = MemoryBank::new(image(0x03, 1, 1, 4), Vec::new()).unwrap();
    small.write_rom(0x0000, 0x0A);
    small.write_ram(0x07FF, 0x34);
    small.write_ram(0x0800, 0x56);
    assert_eq!(small.read_ram(0x07FF), 0x34);
    assert_eq!(small.read_ram(0x0800), 0xFF);
}

#[test]
fn save_is_restored() {
    let mut save: Vec<u8> = vec![0u8; 0x2000 + 3];
    save[0] = 0xAB;
    save[0x2000] = 0xCD;
    save[0x2002] = 0xEF;
    let mut bank = MemoryBank::new(image(0x13, 1, 3, 4), save).unwrap();
    bank.write_rom(0x0000, 0x0A);
    assert_eq!(bank.read_ram(0x0000), 0xAB);
    bank.write_rom(0x4000, 1);
    assert_eq!(bank.read_ram(0x0000), 0xCD);
    assert_eq!(bank.read_ram(0x0002), 0xEF);
    assert_eq!(bank.read_ram(0x0003), 0x00);
}

#[test]
fn third_family_takes_seven_bits() {
    let mut mbc = MBC3::load_rom(&image(0x11, 6, 3, 128), &Vec::new(), 128, 4, 0x2000).unwrap();
    assert_eq!(mbc.read_rom(0x4000), byte_of(1, 0));
    mbc.write_rom(0x2000, 0xFF);
    assert_eq!(mbc.selected_rom, 0x7F);
    assert_eq!(mbc.read_rom(0x4000), byte_of(127, 0));
    mbc.write_rom(0x2000, 0);
    assert_eq!(mbc.read_rom(0x4000), byte_of(0, 0));
    mbc.write_rom(0x4000, 0x13);
    assert_eq!(mbc.selected_ram, 3);
    // the clock latch takes writes and does nothing
    mbc.write_rom(0x6000, 1);
    assert_eq!(mbc.selected_rom, 0);
    assert_eq!(mbc.selected_ram, 3);
    mbc.write_rom(0x0000, 0x0A);
    mbc.write_ram(0x0005, 9);
    assert_eq!(mbc.read_ram(0x0005), 9);
}

#[test]
fn fifth_family_takes_nine_bits() {
    let mut mbc = MBC5::load_rom(&image(0x19, 7, 3, 256), &Vec::new(), 256, 4, 0x2000).unwrap();
    mbc.write_rom(0x2000, 0x34);
    assert_eq!(mbc.selected_rom, 0x34);
    assert_eq!(mbc.read_rom(0x4000), byte_of(0x34, 0));
    mbc.write_rom(0x3000, 0x01);
    assert_eq!(mbc.selected_rom, 0x134);
    // 0x134 wraps at 256 banks
    assert_eq!(mbc.read_rom(0x4000), byte_of(0x34, 0));
    mbc.write_rom(0x2FFF, 0x00);
    assert_eq!(mbc.selected_rom, 0x100);
    mbc.write_rom(0x3FFF, 0xFE);
    assert_eq!(mbc.selected_rom, 0x000);
    assert_eq!(mbc.read_rom(0x4000), byte_of(0, 0));
    mbc.write_rom(0x4000, 0xF2);
    assert_eq!(mbc.selected_ram, 2);
    match MBC5::load_rom(&image(0x19, 8, 0, 2), &Vec::new(), 0x1E0, 0, 0) {
        Err(fault) => assert_eq!(fault, Fault::BankCount { count: 0x1E0 }),
        Ok(_) => panic!("480 banks loaded"),
    }
}

#[test]
fn header_picks_the_controller() {
    for kind in [1u8, 2, 3] {
        assert!(matches!(
            MemoryBank::new(image(kind, 1, 0, 4), Vec::new()).unwrap(),
            MemoryBank::Mbc1(_)
        ));
    }
    for kind in [0x0Fu8, 0x10, 0x11, 0x12, 0x13] {
        assert!(matches!(
            MemoryBank::new(image(kind, 1, 0, 4), Vec::new()).unwrap(),
            MemoryBank::Mbc3(_)
        ));
    }
    for kind in [0x19u8, 0x1A, 0x1B, 0x1C, 0x1D, 0x1E] {
        assert!(matches!(
            MemoryBank::new(image(kind, 1, 0, 4), Vec::new()).unwrap(),
            MemoryBank::Mbc5(_)
        ));
    }
    assert!(matches!(
        MemoryBank::new(image(0, 0, 0, 2), Vec::new()).unwrap(),
        MemoryBank::Plain(_)
    ));
}

#[test]
fn size_codes_give_the_bank_counts() {
    let counts = [(0u8, 2u16), (1, 4), (2, 8), (3, 16), (4, 32), (6, 125)];
    for (code, count) in counts {
        match MemoryBank::new(image(0x01, code, 0, 2), Vec::new()).unwrap() {
            MemoryBank::Mbc1(mbc) => assert_eq!(mbc.banks.rom_bank_count, count),
            _ => panic!("not the first family"),
        }
    }
    let rams = [(0u8, 0u8, 0u16), (1, 1, 0x800), (2, 1, 0x2000), (3, 4, 0x2000), (4, 16, 0x2000), (5, 8, 0x2000)];
    for (code, count, size) in rams {
        match MemoryBank::new(image(0x1B, 0, code, 2), Vec::new()).unwrap() {
            MemoryBank::Mbc5(mbc) => {
                assert_eq!(mbc.banks.ram_bank_count, count);
                assert_eq!(mbc.banks.ram_bank_size, size);
                assert_eq!(mbc.banks.ram.len(), count as usize * size as usize);
            },
            _ => panic!("not the fifth family"),
        }
    }
}

#[test]
fn title_comes_from_the_header() {
    let mut rom = image(0x00, 0, 0, 2);
    let name = b"VERIFIED GAME";
    for i in 0..15usize {
        rom[0x134 + i] = if i < name.len() { name[i] } else { 0 };
    }
    let bank = MemoryBank::new(rom, Vec::new()).unwrap();
    let title = bank.title();
    assert_eq!(title.len(), 15);
    assert_eq!(&title[..13], name);
    assert_eq!(&title[13..], &[0u8, 0]);
}

#[test]
fn header_flag_asks_for_a_colour_machine() {
    let mut rom = image(0x00, 0, 0, 2);
    for (flag, color) in [(0x00u8, false), (0x7F, false), (0x80, true), (0xC0, true), (0xFF, true)] {
        rom[0x143] = flag;
        assert_eq!(color_mode_of(&rom), color);
    }
    assert!(!color_mode_of(&vec![0xFFu8; 0x143]));
    assert!(color_mode_of(&vec![0xFFu8; 0x144]));
}
