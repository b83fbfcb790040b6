use rusty_gbc::boot::load_rom;
use rusty_gbc::gpu::Gpu;
use rusty_gbc::mmu::Mmu;
use rusty_gbc::registers::Registers;

fn plain_cartridge() -> Vec<u8> {
    let mut rom: Vec<u8> = vec![0u8; 0x8000];
    for (i, byte) in rom.iter_mut().enumerate() {
        *byte = (i % 251) as u8;
    }
    rom[0x147] = 0x00;
    rom[0x148] = 0x00;
    rom[0x149] = 0x00;
    rom
}

fn machine() -> Mmu {
    let gpu = Gpu::new(false).unwrap();
    Mmu::new(plain_cartridge(), Vec::new(), load_rom(), gpu).unwrap()
}

#[test]
fn test_stack_alloc() {
    let mut regs = Registers::new();
    let mut mem = machine();
    mem.push_u16(&mut regs, 0x1234);
    assert_eq!(mem.pop_u16(&mut regs), 0x1234);
    mem.push_u16(&mut regs, 0xabcd);
    mem.push_u16(&mut regs, 0x9f9f);
    assert_eq!(mem.pop_u16(&mut regs), 0x9f9f);
    assert_eq!(mem.pop_u16(&mut regs), 0xabcd);
}
