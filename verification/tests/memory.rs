use rusty_gbc::boot::{load_rom, BOOT_ROM};
use rusty_gbc::fault::Fault;
use rusty_gbc::gpu::Gpu;
use rusty_gbc::input::Keycode;
use rusty_gbc::mmu::{Dma, Hdma, Mmu};
use rusty_gbc::ram::Ram;
use rusty_gbc::registers::Registers;
use rusty_gbc::{JOYPAD_INTERRUPT, TIMER_INTERRUPT};

fn cartridge(kind: u8, rom_size: u8, ram_size: u8, banks: usize) -> Vec<u8> {
    let mut rom: Vec<u8> = vec![0u8; banks * 0x4000];
    for (i, byte) in rom.iter_mut().enumerate() {
        *byte = (i % 251) as u8;
    }
    rom[0x147] = kind;
    rom[0x148] = rom_size;
    rom[0x149] = ram_size;
    rom
}

fn monochrome() -> Mmu {
    let gpu = Gpu::new(false).unwrap();
    Mmu::new(cartridge(0, 0, 0, 2), Vec::new(), load_rom(), gpu).unwrap()
}

fn colour() -> Mmu {
    let gpu = Gpu::new(true).unwrap();
    let mut boot: Vec<u8> = vec![0u8; 0x900];
    for (i, byte) in boot.iter_mut().enumerate() {
        *byte = (i % 7) as u8 + 0xE0;
    }
    Mmu::new(cartridge(0x1B, 1, 3, 4), Vec::new(), boot, gpu).unwrap()
}

#[test]
fn boot_rom_has_256_bytes() {
    let rom = load_rom();
    assert_eq!(rom.len(), 256);
    assert_eq!(&rom[..], &BOOT_ROM[..]);
    assert_eq!(&rom[..3], &[0x31, 0xFE, 0xFF]);
    assert_eq!(&rom[0xFC..], &[0x3E, 0x01, 0xE0, 0x50]);
}

#[test]
fn ram_block() {
    let mut ram = Ram::new(0x80);
    assert_eq!(ram.bytes.len(), 0x80);
    assert_eq!(ram.read(0x7F), 0);
    ram.write(0x7F, 9);
    assert_eq!(ram.read(0x7F), 9);
    assert_eq!(ram.read(0x7E), 0);
}

#[test]
fn wrong_boot_rom_size_is_a_fault() {
    let gpu = Gpu::new(false).unwrap();
    match Mmu::new(cartridge(0, 0, 0, 2), Vec::new(), vec![0u8; 0x900], gpu) {
        Err(fault) => assert_eq!(fault, Fault::BootRomSize),
        Ok(_) => panic!("built"),
    }
    let gpu = Gpu::new(true).unwrap();
    match Mmu::new(cartridge(0, 0, 0, 2), Vec::new(), load_rom(), gpu) {
        Err(fault) => assert_eq!(fault, Fault::BootRomSize),
        Ok(_) => panic!("built"),
    }
    let gpu = Gpu::new(false).unwrap();
    match Mmu::new(cartridge(0x20, 0, 0, 2), Vec::new(), load_rom(), gpu) {
        Err(fault) => assert_eq!(fault, Fault::UnsupportedCartridge { kind: 0x20 }),
        Ok(_) => panic!("built"),
    }
}

#[test]
fn plain_cartridge_is_read_without_banking() {
    let mut mem = monochrome();
    let rom = cartridge(0, 0, 0, 2);
    assert_eq!(mem.read(0x0150), rom[0x0150]);
    assert_eq!(mem.read(0x0150), (0x150 % 251) as u8);
    assert_eq!(mem.read(0x7FFF), rom[0x7FFF]);
    mem.write(0x2000, 1);
    mem.write(0x0150, 0xFF);
    assert_eq!(mem.read(0x0150), rom[0x0150]);
    assert_eq!(mem.read(0x4000), rom[0x4000]);
}

#[test]
fn boot_rom_lies_over_the_first_page_until_the_boot_ends() {
    let mut mem = monochrome();
    let rom = cartridge(0, 0, 0, 2);
    assert_eq!(mem.read(0x0000), 0x31);
    assert_eq!(mem.read(0x00FF), BOOT_ROM[0xFF]);
    assert_eq!(mem.read(0x0100), rom[0x100]);
    assert!(mem.latches.booting);
    mem.write(0xFF50, 1);
    assert!(!mem.latches.booting);
    assert_eq!(mem.read(0x0000), rom[0]);
    assert_eq!(mem.read(0x00FF), rom[0xFF]);
    // no write brings it back
    mem.write(0xFF50, 0);
    assert!(!mem.latches.booting);
    assert_eq!(mem.read(0x0000), rom[0]);
}

#[test]
fn colour_boot_rom_leaves_the_header_in_sight() {
    let mut mem = colour();
    let rom = cartridge(0x1B, 1, 3, 4);
    assert_eq!(mem.read(0x0000), 0xE0);
    assert_eq!(mem.read(0x00FF), (0xFF % 7) as u8 + 0xE0);
    assert_eq!(mem.read(0x0100), rom[0x100]);
    assert_eq!(mem.read(0x0147), 0x1B);
    assert_eq!(mem.read(0x014F), rom[0x14F]);
    assert_eq!(mem.read(0x0150), (0x150 % 7) as u8 + 0xE0);
    assert_eq!(mem.read(0x08FF), (0x8FF % 7) as u8 + 0xE0);
    assert_eq!(mem.read(0x0900), rom[0x900]);
    mem.write(0xFF50, 0x11);
    assert_eq!(mem.read(0x0150), rom[0x150]);
}

#[test]
fn work_ram_and_its_echo() {
    let mut mem = monochrome();
    mem.write(0xC000, 0x11);
    mem.write(0xCFFF, 0x22);
    mem.write(0xD000, 0x33);
    mem.write(0xDDFF, 0x44);
    assert_eq!(mem.read(0xC000), 0x11);
    assert_eq!(mem.read(0xE000), 0x11);
    assert_eq!(mem.read(0xEFFF), 0x22);
    assert_eq!(mem.read(0xF000), 0x33);
    assert_eq!(mem.read(0xFDFF), 0x44);
    mem.write(0xE123, 0x55);
    assert_eq!(mem.read(0xC123), 0x55);
    mem.write(0xF456, 0x66);
    assert_eq!(mem.read(0xD456), 0x66);
    assert_eq!(mem.read(0xC456), 0x00);
}

#[test]
fn work_ram_banks_on_a_colour_machine() {
    let mut mem = colour();
    assert_eq!(mem.read(0xFF70), 0xF9);
    mem.write(0xD000, 0x11);
    mem.write(0xFF70, 2);
    assert_eq!(mem.read(0xFF70), 0xFA);
    assert_eq!(mem.read(0xD000), 0x00);
    mem.write(0xD000, 0x22);
    mem.write(0xFF70, 7);
    mem.write(0xDFFF, 0x77);
    mem.write(0xFF70, 0);
    assert_eq!(mem.read(0xFF70), 0xF9);
    assert_eq!(mem.read(0xD000), 0x11);
    mem.write(0xFF70, 0x0A);
    assert_eq!(mem.read(0xD000), 0x22);
    mem.write(0xFF70, 0xFF);
    assert_eq!(mem.read(0xDFFF), 0x77);
    // bank 0 stays in place
    mem.write(0xC000, 0x99);
    mem.write(0xFF70, 3);
    assert_eq!(mem.read(0xC000), 0x99);
    assert_eq!(mem.wram.bytes.len(), 0x8000);
    // a monochrome machine has no such register
    let mut mono = monochrome();
    mono.write(0xD000, 0x11);
    mono.write(0xFF70, 2);
    assert_eq!(mono.read(0xFF70), 2);
    assert_eq!(mono.read(0xD000), 0x11);
    assert_eq!(mono.wram.bytes.len(), 0x2000);
}

#[test]
fn unusable_range_reads_high_and_drops_writes() {
    let mut mem = monochrome();
    for address in [0xFEA0u16, 0xFEC3, 0xFEFF] {
        mem.write(address, 0x12);
        assert_eq!(mem.read(address), 0xFF);
    }
    assert_eq!(mem.read(0xFE9F), 0x00);
}

#[test]
fn high_ram_and_interrupt_enable() {
    let mut mem = monochrome();
    mem.write(0xFF80, 1);
    mem.write(0xFFFE, 2);
    mem.write(0xFFFF, 0x1F);
    assert_eq!(mem.read(0xFF80), 1);
    assert_eq!(mem.read(0xFFFE), 2);
    assert_eq!(mem.read(0xFFFF), 0x1F);
    assert_eq!(mem.latches.interupt_switch, 0x1F);
}

#[test]
fn video_ram_and_sprite_table_go_to_the_video_controller() {
    let mut mem = monochrome();
    mem.write(0x8010, 0xFF);
    mem.write(0xFE04, 0x42);
    assert_eq!(mem.read(0x8010), 0xFF);
    assert_eq!(mem.read(0xFE04), 0x42);
    assert_eq!(mem.gpu.tile_pixel(0, 1, 0, 0), 1);
    assert_eq!(mem.gpu.read_from_oam(4), 0x42);
}

#[test]
fn external_ram_goes_to_the_cartridge() {
    let mut mem = monochrome();
    mem.write(0xA000, 0x12);
    mem.write(0xBFFF, 0x34);
    assert_eq!(mem.read(0xA000), 0x12);
    assert_eq!(mem.read(0xBFFF), 0x34);
    let mut banked = colour();
    mem.write(0xA000, 0x12);
    assert_eq!(banked.read(0xA000), 0xFF);
    banked.write(0x0000, 0x0A);
    banked.write(0xA000, 0x56);
    assert_eq!(banked.read(0xA000), 0x56);
    banked.write(0x2000, 3);
    assert_eq!(banked.read(0x4000), cartridge(0x1B, 1, 3, 4)[3 * 0x4000]);
}

#[test]
fn registers_of_the_timer() {
    let mut mem = monochrome();
    mem.write(0xFF05, 0x12);
    mem.write(0xFF06, 0x34);
    mem.write(0xFF07, 0x05);
    assert_eq!(mem.read(0xFF05), 0x12);
    assert_eq!(mem.read(0xFF06), 0x34);
    assert_eq!(mem.read(0xFF07), 0xFD);
    mem.mmu_step(100);
    assert_eq!(mem.read(0xFF04), 100);
    mem.write(0xFF04, 0x77);
    assert_eq!(mem.read(0xFF04), 0);
}

#[test]
fn registers_of_the_lcd() {
    let mut mem = monochrome();
    let plain: [u16; 8] = [0xFF42, 0xFF43, 0xFF45, 0xFF47, 0xFF48, 0xFF49, 0xFF4A, 0xFF4B];
    for (i, address) in plain.iter().enumerate() {
        mem.write(*address, 0x10 + i as u8);
    }
    for (i, address) in plain.iter().enumerate() {
        assert_eq!(mem.read(*address), 0x10 + i as u8);
    }
    assert_eq!(mem.gpu.get_scy(), 0x10);
    assert_eq!(mem.gpu.get_wx(), 0x17);
    mem.write(0xFF40, 0x91);
    assert_eq!(mem.read(0xFF40), 0x91);
    mem.write(0xFF41, 0xFF);
    assert_eq!(mem.read(0xFF41), 0xF8);
    // the line counter is read-only
    mem.write(0xFF44, 0x55);
    assert_eq!(mem.read(0xFF44), 0);
    assert_eq!(mem.read(0xFF46), 0);
    mem.write(0xFF46, 0xC1);
    assert_eq!(mem.read(0xFF46), 0xC1);
}

#[test]
fn joypad_register() {
    let mut mem = monochrome();
    assert_eq!(mem.read(0xFF00), 0xF0);
    mem.input.key_pressed(Keycode::Start);
    mem.write(0xFF00, 0x10);
    assert_eq!(mem.read(0xFF00), 0xD7);
    mem.mmu_step(4);
    assert_eq!(mem.read(0xFF0F) & JOYPAD_INTERRUPT, JOYPAD_INTERRUPT);
    assert_eq!(mem.input.interrupt, 0);
}

#[test]
fn colour_registers_exist_only_on_a_colour_machine() {
    let mut mem = colour();
    mem.write(0xFF4F, 1);
    assert_eq!(mem.read(0xFF4F), 0xFF);
    mem.write(0xFF4F, 0);
    assert_eq!(mem.read(0xFF4F), 0xFE);
    mem.write(0xFF68, 0x83);
    assert_eq!(mem.read(0xFF68), 0xC3);
    mem.write(0xFF69, 0xAB);
    assert_eq!(mem.read(0xFF68), 0xC4);
    mem.write(0xFF68, 0x03);
    assert_eq!(mem.read(0xFF69), 0xAB);
    mem.write(0xFF6A, 0x81);
    mem.write(0xFF6B, 0xCD);
    mem.write(0xFF6A, 0x01);
    assert_eq!(mem.read(0xFF6B), 0xCD);
    assert_eq!(mem.read(0xFF6A), 0x41);
    for address in [0xFF51u16, 0xFF52, 0xFF53, 0xFF54, 0xFF55] {
        assert_eq!(mem.read(address), 0xFF);
    }
    assert_eq!(mem.read(0xFF4D), 0x7E);
    mem.write(0xFF4D, 0x01);
    assert_eq!(mem.read(0xFF4D), 0x7F);
    assert!(mem.latches.prepare_speed_switch);
    let mut mono = monochrome();
    for address in [0xFF4Du16, 0xFF4F, 0xFF51, 0xFF55, 0xFF68, 0xFF69, 0xFF6A, 0xFF6B] {
        mono.write(address, 0x21);
        assert_eq!(mono.read(address), 0x21);
    }
    assert!(!mono.latches.prepare_speed_switch);
    assert_eq!(mono.latches.fault, None);
}

#[test]
fn sixteen_bit_access_is_little_endian() {
    let mut mem = monochrome();
    mem.write_u16(0xC000, 0x1234);
    assert_eq!(mem.read(0xC000), 0x34);
    assert_eq!(mem.read(0xC001), 0x12);
    assert_eq!(mem.read_u16(0xC000), 0x1234);
    // the byte after the last address is the first
    mem.write(0xFF50, 1);
    mem.write(0xFFFF, 0x56);
    assert_eq!(mem.read_u16(0xFFFF), 0x56 | (cartridge(0, 0, 0, 2)[0] as u16) << 8);
}

#[test]
fn push_moves_the_stack_pointer_down_and_pop_up() {
    let mut mem = monochrome();
    let mut regs = Registers::new();
    regs.sp = 0xD000;
    mem.push_u16(&mut regs, 0xBEEF);
    assert_eq!(regs.sp, 0xCFFE);
    assert_eq!(mem.read(0xCFFE), 0xEF);
    assert_eq!(mem.read(0xCFFF), 0xBE);
    assert_eq!(mem.pop_u16(&mut regs), 0xBEEF);
    assert_eq!(regs.sp, 0xD000);
    // the pointer wraps
    regs.sp = 0x0001;
    mem.push_u16(&mut regs, 0x1111);
    assert_eq!(regs.sp, 0xFFFF);
    mem.pop_u16(&mut regs);
    assert_eq!(regs.sp, 0x0001);
}

#[test]
fn push_and_pop_round_trip_in_ram() {
    let mut mem = monochrome();
    let mut regs = Registers::new();
    for sp in [0xFFFEu16, 0xE000, 0xC002, 0xD001, 0xFF82] {
        for value in [0x0000u16, 0x0001, 0x1234, 0x8000, 0xFF00, 0xFFFF] {
            regs.sp = sp;
            mem.push_u16(&mut regs, value);
            assert_eq!(mem.pop_u16(&mut regs), value);
            assert_eq!(regs.sp, sp);
        }
    }
}

#[test]
fn a_stack_in_rom_does_not_keep_the_value() {
    let mut mem = monochrome();
    mem.write(0xFF50, 1);
    let mut regs = Registers::new();
    regs.sp = 0x0152;
    mem.push_u16(&mut regs, 0xFFFF);
    let rom = cartridge(0, 0, 0, 2);
    assert_eq!(mem.pop_u16(&mut regs), rom[0x150] as u16 | (rom[0x151] as u16) << 8);
    assert_eq!(regs.sp, 0x0152);
}

#[test]
fn step_gathers_the_interrupts() {
    let mut mem = monochrome();
    mem.write(0xFF0F, 0x01);
    mem.gpu.interrupts = 0x02;
    mem.timer.interrupt = TIMER_INTERRUPT;
    mem.input.interrupt = JOYPAD_INTERRUPT;
    mem.mmu_step(4);
    assert_eq!(mem.read(0xFF0F), 0x17);
    assert_eq!(mem.gpu.interrupts, 0);
    assert_eq!(mem.timer.interrupt, 0);
    assert_eq!(mem.input.interrupt, 0);
}

#[test]
fn timer_interrupt_reaches_the_request_register() {
    let mut mem = monochrome();
    mem.write(0xFF07, 0x05);
    mem.write(0xFF05, 0xFF);
    mem.mmu_step(20);
    assert_eq!(mem.read(0xFF0F), 0);
    mem.mmu_step(4);
    assert_eq!(mem.read(0xFF0F), TIMER_INTERRUPT);
}

#[test]
fn sprite_table_transfer_copies_160_bytes() {
    let mut mem = monochrome();
    for i in 0..0xA0u16 {
        mem.write(0xC100 + i, (i as u8) ^ 0x5A);
    }
    mem.write(0xC100 + 0xA0, 0x99);
    mem.write(0xFF46, 0xC1);
    assert_eq!(mem.dma, Some(Dma { value: 0xC1, source: 0xC100, address: 0, started: false }));
    // the first tick starts the transfer, the second tick of the step copies a byte
    mem.mmu_step(4);
    assert_eq!(mem.read(0xFE00), 0x5A);
    assert_eq!(mem.read(0xFE01), 0x00);
    assert_eq!(mem.dma.unwrap().address, 1);
    // two ticks a step from here on
    let mut steps: u32 = 1;
    while mem.dma.is_some() {
        mem.mmu_step(4);
        steps += 1;
    }
    assert_eq!(steps, 81);
    for i in 0..0xA0u16 {
        assert_eq!(mem.read(0xFE00 + i), (i as u8) ^ 0x5A);
    }
    assert_eq!(mem.read(0xFF46), 0);
}

#[test]
fn sprite_table_transfer_in_one_long_step() {
    let mut mem = monochrome();
    mem.write(0xC000, 0x11);
    mem.write(0xC03E, 0x22);
    mem.write(0xC03F, 0x33);
    mem.write(0xFF46, 0xC0);
    // 255 cycles are 64 ticks: one to start and 63 bytes
    mem.mmu_step(255);
    assert_eq!(mem.read(0xFE00), 0x11);
    assert_eq!(mem.read(0xFE3E), 0x22);
    assert_eq!(mem.read(0xFE3F), 0x00);
    assert_eq!(mem.dma.unwrap().address, 63);
}

#[test]
fn video_ram_transfer_copies_its_whole_length_at_once() {
    let mut mem = colour();
    for i in 0..0x30u16 {
        mem.write(0xC000 + i, 0x80 + i as u8);
    }
    mem.write(0xFF51, 0xC0);
    mem.write(0xFF52, 0x0F);
    mem.write(0xFF53, 0x90);
    mem.write(0xFF54, 0x2F);
    assert_eq!(mem.hdma, Hdma { value: 0xFF, source: 0xC000, destination: 0x1020 });
    mem.mmu_step(4);
    assert_eq!(mem.read(0x9020), 0);
    // two blocks of sixteen bytes
    mem.write(0xFF55, 0x01);
    assert!(mem.hdma.active());
    assert_eq!(mem.hdma.remaining_len(), 0x20);
    mem.mmu_step(4);
    assert!(!mem.hdma.active());
    assert_eq!(mem.hdma.remaining_len(), 0);
    for i in 0..0x20u16 {
        assert_eq!(mem.read(0x9020 + i), 0x80 + i as u8);
    }
    assert_eq!(mem.read(0x9040), 0);
    assert_eq!(mem.read(0x901F), 0);
    assert_eq!(mem.latches.fault, None);
}

#[test]
fn video_ram_transfer_lengths() {
    let mut hdma = Hdma::new();
    assert!(!hdma.active());
    assert_eq!(hdma.remaining_len(), 0);
    hdma.start(0x00);
    assert_eq!(hdma.remaining_len(), 0x10);
    hdma.start(0x7F);
    assert_eq!(hdma.remaining_len(), 0x800);
    assert!(hdma.active());
}

#[test]
fn video_ram_transfer_paced_by_blanking_is_a_fault() {
    let mut mem = colour();
    mem.write(0xFF55, 0x80);
    assert_eq!(mem.latches.fault, Some(Fault::HblankDma));
    assert!(!mem.hdma.active());
}

#[test]
fn serial_port_collects_the_bytes_sent() {
    let mut mem = monochrome();
    mem.write(0xFF01, b'O');
    mem.write(0xFF02, 0x81);
    mem.write(0xFF01, b'K');
    mem.write(0xFF02, 0x80);
    mem.write(0xFF02, 0x81);
    assert_eq!(mem.take_serial(), b"OK".to_vec());
    assert_eq!(mem.take_serial(), Vec::<u8>::new());
    assert_eq!(mem.read(0xFF02), 0x81);
}

#[test]
fn dma_starts_at_the_page_of_its_value() {
    assert_eq!(Dma::new(0x00), Dma { value: 0, source: 0, address: 0, started: false });
    assert_eq!(Dma::new(0xFF).source, 0xFF00);
}
