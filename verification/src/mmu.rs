//! The memory-mapping unit: it owns every store and peripheral and sends
//! each of the 65536 addresses to exactly one of them.
use vstd::prelude::*;
use crate::fault::Fault;
use crate::gpu::{Gpu, GpuView};
use crate::input::Input;
use crate::mbc::{MemoryBank, MemoryBankView};
use crate::ram::Ram;
use crate::registers::{high_byte, low_byte, pair, Registers};
use crate::timer::Timer;

verus! {

pub const ROM_END: u16 = 0x7FFF;

pub const VRAM_START: u16 = 0x8000;

pub const VRAM_END: u16 = 0x9FFF;

pub const ERAM_START: u16 = 0xA000;

pub const ERAM_END: u16 = 0xBFFF;

pub const WRAM_BANK_0_START: u16 = 0xC000;

pub const WRAM_BANK_1_START: u16 = 0xD000;

pub const WRAM_END: u16 = 0xDFFF;

pub const ECHO_START: u16 = 0xE000;

pub const ECHO_END: u16 = 0xFDFF;

pub const OAM_START: u16 = 0xFE00;

pub const OAM_END: u16 = 0xFE9F;

pub const UNUSABLE_END: u16 = 0xFEFF;

pub const IO_START: u16 = 0xFF00;

pub const IO_END: u16 = 0xFF7F;

pub const HRAM_START: u16 = 0xFF80;

pub const HRAM_END: u16 = 0xFFFE;

pub const INTERUPTS_ENABLE: u16 = 0xFFFF;

pub const INTERUPT_REQUEST: u16 = 0xFF0F;

pub const WRAM_BANK_SIZE: u16 = 0x1000;

/// What a read of the unusable range gives.
pub const UNUSABLE: u8 = 0xFF;

/// A transfer into the sprite table in progress.
#[derive(Clone, Copy, Debug, PartialEq, Eq, Structural)]
pub struct Dma {
    pub value: u8,
    pub source: u16,
    pub address: u8,
    pub started: bool,
}

impl Dma {
    /// A transfer from page `value`, not yet started.
    pub fn new(value: u8) -> (dma: Dma)
        ensures
            dma == (Dma { value, source: (value * 256) as u16, address: 0, started: false }),
    {
        Dma { value, source: (value as u16) * 256, address: 0, started: false }
    }
}

/// The registers of the transfer into video RAM.
#[derive(Clone, Copy, Debug, PartialEq, Eq, Structural)]
pub struct Hdma {
    pub value: u8,
    pub source: u16,
    pub destination: u16,
}

impl Hdma {
    /// Whether a transfer waits to be carried out.
    pub open spec fn is_active(self) -> bool {
        self.value != 0xFF
    }

    /// The number of bytes that wait to be copied: sixteen times one more
    /// than the low seven bits of the start value.
    pub open spec fn length(self) -> u16 {
        if self.value == 0xFF {
            0
        } else {
            ((self.value % 128 + 1) * 0x10) as u16
        }
    }

    /// No transfer waits.
    pub fn new() -> (hdma: Hdma)
        ensures
            hdma == (Hdma { value: 0xFF, source: 0, destination: 0 }),
            !hdma.is_active(),
    {
        Hdma { value: 0xFF, source: 0, destination: 0 }
    }

    /// Arms a transfer of the whole length at once.
    pub fn start(&mut self, value: u8)
        requires
            value < 128,
        ensures
            *final(self) == (Hdma { value, ..*old(self) }),
            final(self).is_active(),
    {
        self.value = value;
    }

    pub fn active(&self) -> (active: bool)
        ensures
            active == self.is_active(),
    {
        self.value != 0xFF
    }

    pub fn remaining_len(&self) -> (len: u16)
        ensures
            len == self.length(),
            len <= 0x800,
    {
        //the lower 7 bits of which specify the Transfer Length (divided by 10h, minus 1)
        if self.value == 0xFF {
            0
        } else {
            ((self.value % 128) as u16 + 1) * 0x10
        }
    }
}

/// The latches of the machine that are neither a store nor a peripheral.
#[derive(Clone, Copy, Debug, PartialEq, Eq, Structural)]
pub struct Latches {
    pub interupt_switch: u8,
    pub wram_select: u8,
    pub booting: bool,
    pub prepare_speed_switch: bool,
    pub doublespeed: bool,
    pub fault: Option<Fault>,
}

pub struct Mmu {
    pub boot_rom: Vec<u8>,
    pub gpu: Gpu,
    pub dma: Option<Dma>,
    pub hdma: Hdma,
    pub mbc: MemoryBank,
    pub wram: Ram,
    pub input: Input,
    pub timer: Timer,
    pub io: Ram,
    pub hram: Ram,
    pub latches: Latches,
    /// The bytes sent over the serial port and not yet taken by the host.
    pub serial: Vec<u8>,
}

pub struct MmuView {
    pub boot_rom: Seq<u8>,
    pub gpu: GpuView,
    pub dma: Option<Dma>,
    pub hdma: Hdma,
    pub mbc: MemoryBankView,
    pub wram: Seq<u8>,
    pub input: Input,
    pub timer: Timer,
    pub io: Seq<u8>,
    pub hram: Seq<u8>,
    pub latches: Latches,
    pub serial: Seq<u8>,
}

impl View for Mmu {
    type V = MmuView;

    open spec fn view(&self) -> MmuView {
        MmuView {
            boot_rom: self.boot_rom@,
            gpu: self.gpu@,
            dma: self.dma,
            hdma: self.hdma,
            mbc: self.mbc@,
            wram: self.wram@,
            input: self.input,
            timer: self.timer,
            io: self.io@,
            hram: self.hram@,
            latches: self.latches,
            serial: self.serial@,
        }
    }
}

/// Whether `address` is one of the registers that only a colour machine
/// has: the speed switch, the video RAM bank, the video RAM transfer, the
/// colour palettes and the work RAM bank.
pub open spec fn is_color_register(address: u16) -> bool {
    ||| address == 0xFF4D
    ||| address == 0xFF4F
    ||| 0xFF51 <= address <= 0xFF55
    ||| 0xFF68 <= address <= 0xFF6B
    ||| address == 0xFF70
}

/// The size of the boot ROM of a colour or a monochrome machine.
pub open spec fn boot_rom_size(color_mode: bool) -> int {
    if color_mode {
        0x900
    } else {
        0x100
    }
}

/// The size of the work RAM of a colour or a monochrome machine: eight or
/// two banks of 4 KiB.
pub open spec fn wram_size(color_mode: bool) -> int {
    if color_mode {
        0x8000
    } else {
        0x2000
    }
}

impl MmuView {
    pub open spec fn wf(self) -> bool {
        &&& self.gpu.wf()
        &&& self.mbc.wf()
        &&& self.timer.wf()
        &&& self.boot_rom.len() == boot_rom_size(self.gpu.color_mode)
        &&& self.wram.len() == wram_size(self.gpu.color_mode)
        &&& self.io.len() == 0x80
        &&& self.hram.len() == 0x7F
        &&& 1 <= self.latches.wram_select <= 7
        &&& (self.dma is Some ==> self.dma->Some_0.address <= 0xA0 && self.dma->Some_0.source
            == self.dma->Some_0.value * 256)
    }

    /// Whether the boot ROM lies over `address`: only while booting, over
    /// the first 256 bytes and, on a colour machine, over 0x150 to 0x8FF,
    /// which leaves the cartridge header in sight.
    pub open spec fn boot_overlay(self, address: u16) -> bool {
        self.latches.booting && (address < 0x100 || (self.gpu.color_mode && 0x150 <= address
            < 0x900))
    }

    /// Where in work RAM `address` lies, for an address from 0xC000 to
    /// 0xDFFF: bank 0 below 0xD000; above, bank 1 on a monochrome machine
    /// and the selected bank on a colour machine.
    pub open spec fn wram_index(self, address: u16) -> int {
        if address < WRAM_BANK_1_START {
            address - WRAM_BANK_0_START
        } else if self.gpu.color_mode {
            self.latches.wram_select * 0x1000 + (address - WRAM_BANK_1_START)
        } else {
            0x1000 + (address - WRAM_BANK_1_START)
        }
    }

    /// The speed register as it reads: bit 7 the speed in effect, bit 0
    /// whether a switch is armed, the rest set.
    pub open spec fn speed_register(self) -> u8 {
        (0x7E + (if self.latches.doublespeed { 128int } else { 0 }) + (if self.latches.prepare_speed_switch {
            1int
        } else {
            0
        })) as u8
    }

    /// A read of one of the four timer registers.
    pub open spec fn read_timer(self, address: u16) -> u8 {
        if address == 0xFF04 {
            self.timer.div
        } else if address == 0xFF05 {
            self.timer.tima
        } else if address == 0xFF06 {
            self.timer.tma
        } else {
            self.timer.control()
        }
    }

    /// A read of one of the LCD registers from 0xFF40 to 0xFF4B.
    pub open spec fn read_lcd(self, address: u16) -> u8 {
        if address == 0xFF40 {
            self.gpu.lcdc_control()
        } else if address == 0xFF41 {
            self.gpu.lcdc_status()
        } else if address == 0xFF42 {
            self.gpu.regs.scy
        } else if address == 0xFF43 {
            self.gpu.regs.scx
        } else if address == 0xFF44 {
            if self.gpu.control.lcd_enable {
                self.gpu.regs.ly
            } else {
                0
            }
        } else if address == 0xFF45 {
            self.gpu.regs.lyc
        } else if address == 0xFF46 {
            match self.dma {
                Some(dma) => dma.value,
                None => 0,
            }
        } else if address == 0xFF47 {
            self.gpu.regs.bgp
        } else if address == 0xFF48 {
            self.gpu.regs.obp0
        } else if address == 0xFF49 {
            self.gpu.regs.obp1
        } else if address == 0xFF4A {
            self.gpu.regs.wy
        } else {
            self.gpu.regs.wx
        }
    }

    /// A read of one of the registers of a colour machine; the registers
    /// of the video RAM transfer are write-only and read 0xFF.
    pub open spec fn read_color(self, address: u16) -> u8 {
        if address == 0xFF4D {
            self.speed_register()
        } else if address == 0xFF4F {
            self.gpu.vram_bank_register()
        } else if address <= 0xFF55 {
            0xFF
        } else if address == 0xFF68 {
            self.gpu.color_bg_select.register()
        } else if address == 0xFF69 {
            self.gpu.color_bg_palettes[self.gpu.color_bg_select.index as int]
        } else if address == 0xFF6A {
            self.gpu.color_obj_select.register()
        } else if address == 0xFF6B {
            self.gpu.color_obj_palettes[self.gpu.color_obj_select.index as int]
        } else {
            (self.latches.wram_select + 0b11111000) as u8
        }
    }

    /// A read from 0xFF00 to 0xFF7F: the joypad, the timer, the LCD, the
    /// colour registers on a colour machine; every other address is a plain
    /// byte.
    pub open spec fn read_io(self, address: u16) -> u8 {
        if address == IO_START {
            self.input.register()
        } else if 0xFF04 <= address <= 0xFF07 {
            self.read_timer(address)
        } else if 0xFF40 <= address <= 0xFF4B {
            self.read_lcd(address)
        } else if self.gpu.color_mode && is_color_register(address) {
            self.read_color(address)
        } else {
            self.io[address - IO_START]
        }
    }

    /// The byte at `address`. Every address belongs to exactly one of: the
    /// boot ROM while it lies over the cartridge, the cartridge ROM, video
    /// RAM, external RAM, work RAM, the echo of work RAM 0x2000 below, the
    /// sprite table, the unusable range, the I/O registers, high RAM and
    /// the interrupt enable byte.
    #[verifier::opaque]
    pub open spec fn read(self, address: u16) -> u8 {
        if self.boot_overlay(address) {
            self.boot_rom[address as int]
        } else if address <= ROM_END {
            self.mbc.read_rom(address)
        } else if address <= VRAM_END {
            self.gpu.vram_byte((address - VRAM_START) as u16)
        } else if address <= ERAM_END {
            self.mbc.read_ram((address - ERAM_START) as u16)
        } else if address <= WRAM_END {
            self.wram[self.wram_index(address)]
        } else if address <= ECHO_END {
            self.wram[self.wram_index((address - 0x2000) as u16)]
        } else if address <= OAM_END {
            self.gpu.oam[address - OAM_START]
        } else if address <= UNUSABLE_END {
            UNUSABLE
        } else if address <= IO_END {
            self.read_io(address)
        } else if address <= HRAM_END {
            self.hram[address - HRAM_START]
        } else {
            self.latches.interupt_switch
        }
    }

    /// The 16-bit value at `address`, low byte first; the second byte of a
    /// value at 0xFFFF is the byte at 0.
    pub open spec fn read_u16(self, address: u16) -> u16 {
        pair(self.read(following(address)), self.read(address))
    }

    /// A write to one of the four timer registers; any write to the
    /// divider clears it.
    pub open spec fn write_timer(self, address: u16, value: u8) -> MmuView {
        if address == 0xFF04 {
            MmuView { timer: Timer { div: 0, ..self.timer }, ..self }
        } else if address == 0xFF05 {
            MmuView { timer: Timer { tima: value, ..self.timer }, ..self }
        } else if address == 0xFF06 {
            MmuView { timer: Timer { tma: value, ..self.timer }, ..self }
        } else {
            MmuView { timer: self.timer.with_control(value), ..self }
        }
    }

    /// The unit with the video controller replaced.
    pub open spec fn with_gpu(self, gpu: GpuView) -> MmuView {
        MmuView { gpu, ..self }
    }

    /// The video controller with one of its plain registers written.
    pub open spec fn gpu_register_written(self, address: u16, value: u8) -> GpuView {
        let regs = self.gpu.regs;
        let written = if address == 0xFF42 {
            crate::gpu::LcdRegisters { scy: value, ..regs }
        } else if address == 0xFF43 {
            crate::gpu::LcdRegisters { scx: value, ..regs }
        } else if address == 0xFF45 {
            crate::gpu::LcdRegisters { lyc: value, ..regs }
        } else if address == 0xFF47 {
            crate::gpu::LcdRegisters { bgp: value, ..regs }
        } else if address == 0xFF48 {
            crate::gpu::LcdRegisters { obp0: value, ..regs }
        } else if address == 0xFF49 {
            crate::gpu::LcdRegisters { obp1: value, ..regs }
        } else if address == 0xFF4A {
            crate::gpu::LcdRegisters { wy: value, ..regs }
        } else {
            crate::gpu::LcdRegisters { wx: value, ..regs }
        };
        GpuView { regs: written, ..self.gpu }
    }

    /// A write to one of the LCD registers from 0xFF40 to 0xFF4B: the
    /// line counter is read-only, and a write to 0xFF46 sets up a transfer
    /// into the sprite table.
    pub open spec fn write_lcd(self, address: u16, value: u8) -> MmuView {
        if address == 0xFF40 {
            self.with_gpu(self.gpu.with_lcdc_control(value))
        } else if address == 0xFF41 {
            self.with_gpu(self.gpu.with_lcdc_status(value))
        } else if address == 0xFF44 {
            self
        } else if address == 0xFF46 {
            MmuView {
                dma: Some(
                    Dma { value, source: (value * 256) as u16, address: 0, started: false },
                ),
                ..self
            }
        } else {
            self.with_gpu(self.gpu_register_written(address, value))
        }
    }

    /// The unit after a write to the start register of the video RAM
    /// transfer: a transfer of the whole length is armed; a request for a
    /// transfer paced by horizontal blanking is a fault.
    pub open spec fn hdma_started(self, value: u8) -> MmuView {
        if value >= 128 {
            MmuView { latches: Latches { fault: Some(Fault::HblankDma), ..self.latches }, ..self }
        } else {
            MmuView { hdma: Hdma { value, ..self.hdma }, ..self }
        }
    }

    /// A write to one of the four address registers of the video RAM
    /// transfer: the high or the low byte of the source, the high byte of
    /// the destination without its top three bits, or its low byte; the low
    /// four bits of the low bytes are dropped.
    pub open spec fn write_hdma_address(self, address: u16, value: u8) -> MmuView {
        let hdma = self.hdma;
        let written = if address == 0xFF51 {
            Hdma { source: pair(value, low_byte(hdma.source)), ..hdma }
        } else if address == 0xFF52 {
            Hdma { source: pair(high_byte(hdma.source), (value - value % 16) as u8), ..hdma }
        } else if address == 0xFF53 {
            Hdma { destination: pair(value % 32, low_byte(hdma.destination)), ..hdma }
        } else {
            Hdma {
                destination: pair(high_byte(hdma.destination), (value - value % 16) as u8),
                ..hdma
            }
        };
        MmuView { hdma: written, ..self }
    }

    /// A write to one of the registers of a colour machine. The work RAM
    /// bank register takes the low three bits, 0 selecting bank 1.
    pub open spec fn write_color(self, address: u16, value: u8) -> MmuView {
        if address == 0xFF4D {
            MmuView {
                latches: Latches { prepare_speed_switch: value % 2 == 1, ..self.latches },
                ..self
            }
        } else if address == 0xFF4F {
            self.with_gpu(self.gpu.with_vram_bank(value))
        } else if address <= 0xFF54 {
            self.write_hdma_address(address, value)
        } else if address == 0xFF55 {
            self.hdma_started(value)
        } else if address == 0xFF68 {
            self.with_gpu(self.gpu.with_color_bg_palette_idx(value))
        } else if address == 0xFF69 {
            self.with_gpu(self.gpu.with_color_bg_palette(value))
        } else if address == 0xFF6A {
            self.with_gpu(self.gpu.with_color_sprite_palette_idx(value))
        } else if address == 0xFF6B {
            self.with_gpu(self.gpu.with_color_sprite_palette(value))
        } else {
            MmuView {
                latches: Latches {
                    wram_select: if value % 8 == 0 { 1u8 } else { value % 8 },
                    ..self.latches
                },
                ..self
            }
        }
    }

    /// A write from 0xFF00 to 0xFF7F.
    pub open spec fn write_io(self, address: u16, value: u8) -> MmuView {
        if address == IO_START {
            MmuView { input: Input { joypad: value & 0b11110000, ..self.input }, ..self }
        } else if 0xFF04 <= address <= 0xFF07 {
            self.write_timer(address, value)
        } else if 0xFF40 <= address <= 0xFF4B {
            self.write_lcd(address, value)
        } else if self.gpu.color_mode && is_color_register(address) {
            self.write_color(address, value)
        } else {
            MmuView { io: self.io.update(address - IO_START, value), ..self }
        }
    }

    /// The unit after `value` went to the store or peripheral that owns
    /// `address`. Writes to the unusable range are dropped.
    pub open spec fn write_store(self, address: u16, value: u8) -> MmuView {
        if address <= ROM_END {
            MmuView { mbc: self.mbc.write_rom(address, value), ..self }
        } else if address <= VRAM_END {
            self.with_gpu(self.gpu.with_vram_byte((address - VRAM_START) as u16, value))
        } else if address <= ERAM_END {
            MmuView { mbc: self.mbc.write_ram((address - ERAM_START) as u16, value), ..self }
        } else if address <= WRAM_END {
            MmuView { wram: self.wram.update(self.wram_index(address), value), ..self }
        } else if address <= ECHO_END {
            MmuView {
                wram: self.wram.update(self.wram_index((address - 0x2000) as u16), value),
                ..self
            }
        } else if address <= OAM_END {
            self.with_gpu(self.gpu.with_oam_byte((address - OAM_START) as u16, value))
        } else if address <= UNUSABLE_END {
            self
        } else if address <= IO_END {
            self.write_io(address, value)
        } else if address <= HRAM_END {
            MmuView { hram: self.hram.update(address - HRAM_START, value), ..self }
        } else {
            MmuView { latches: Latches { interupt_switch: value, ..self.latches }, ..self }
        }
    }

    /// The unit after a write of `value` to `address`. A write of 0x81 to
    /// the serial control register sends the byte of the serial data
    /// register; a write to the boot register while booting ends the boot
    /// for good; then the value goes where the address belongs.
    #[verifier::opaque]
    pub open spec fn write(self, address: u16, value: u8) -> MmuView {
        let sent = if address == 0xFF02 && value == 0x81 {
            MmuView { serial: self.serial.push(self.read(0xFF01)), ..self }
        } else {
            self
        };
        let booted = if address == 0xFF50 {
            MmuView { latches: Latches { booting: false, ..sent.latches }, ..sent }
        } else {
            sent
        };
        booted.write_store(address, value)
    }

    /// The unit after a write of a 16-bit value, low byte first.
    pub open spec fn write_u16(self, address: u16, value: u16) -> MmuView {
        self.write(address, low_byte(value)).write(following(address), high_byte(value))
    }
}

impl MmuView {
    /// The unit after the interrupts that the video controller, the joypad
    /// and the timer raised went into the interrupt request register.
    pub open spec fn interrupts_gathered(self) -> MmuView {
        MmuView {
            io: self.io.update(
                0x0F,
                self.io[0x0F] | self.gpu.interrupts | self.input.interrupt | self.timer.interrupt,
            ),
            gpu: GpuView { interrupts: 0, ..self.gpu },
            input: Input { interrupt: 0, ..self.input },
            timer: Timer { interrupt: 0, ..self.timer },
            ..self
        }
    }

    /// One tick of the transfer into the sprite table: the first tick
    /// starts it, each later one copies a byte from the source page, and
    /// the one after the 160th byte ends it.
    pub open spec fn dma_tick(self) -> MmuView {
        match self.dma {
            None => self,
            Some(dma) => if dma.started && dma.address < 0xA0 {
                MmuView {
                    gpu: self.gpu.with_oam_byte(
                        dma.address as u16,
                        self.read((dma.source + dma.address) as u16),
                    ),
                    dma: Some(Dma { address: (dma.address + 1) as u8, ..dma }),
                    ..self
                }
            } else if dma.started {
                MmuView { dma: None, ..self }
            } else {
                MmuView { dma: Some(Dma { started: true, ..dma }), ..self }
            },
        }
    }

    /// The unit after `ticks` ticks of the transfer into the sprite table.
    pub open spec fn dma_run(self, ticks: nat) -> MmuView
        decreases ticks,
    {
        if ticks == 0 {
            self
        } else {
            self.dma_tick().dma_run((ticks - 1) as nat)
        }
    }

    /// The unit after byte `i` of the transfer into video RAM was copied:
    /// from the source plus `i` to the destination plus `i` inside the
    /// selected bank of video RAM.
    pub open spec fn hdma_byte(self, i: int) -> MmuView {
        self.with_gpu(
            self.gpu.with_vram_byte(
                ((self.hdma.destination % 0x2000 + i) % 0x2000) as u16,
                self.read(((self.hdma.source + i) % 0x10000) as u16),
            ),
        )
    }

    /// The unit after the bytes from `from` up to `to` of the transfer
    /// into video RAM were copied, one after the other.
    pub open spec fn hdma_copied(self, from: int, to: int) -> MmuView
        decreases to - from,
    {
        if from >= to {
            self
        } else {
            self.hdma_byte(from).hdma_copied(from + 1, to)
        }
    }

    /// The unit after a waiting transfer into video RAM was carried out
    /// whole, on a colour machine.
    pub open spec fn hdma_done(self) -> MmuView {
        if self.gpu.color_mode && self.hdma.is_active() {
            let copied = self.hdma_copied(0, self.hdma.length() as int);
            MmuView { hdma: Hdma { value: 0xFF, ..copied.hdma }, ..copied }
        } else {
            self
        }
    }

    /// The unit after `cycles` clock cycles: the raised interrupts are
    /// gathered, the timer steps, the transfer into the sprite table ticks
    /// once and then once per four cycles, and a waiting transfer into
    /// video RAM is carried out.
    pub open spec fn stepped(self, cycles: u8) -> MmuView {
        let gathered = self.interrupts_gathered();
        let timed = MmuView { timer: gathered.timer.stepped(cycles), ..gathered };
        timed.dma_run((cycles / 4 + 1) as nat).hdma_done()
    }

    /// The unit at power-on around a video controller and a cartridge.
    pub open spec fn initial(boot_rom: Seq<u8>, gpu: GpuView, mbc: MemoryBankView) -> MmuView {
        MmuView {
            boot_rom,
            gpu,
            dma: None,
            hdma: Hdma { value: 0xFF, source: 0, destination: 0 },
            mbc,
            wram: Seq::new(wram_size(gpu.color_mode) as nat, |i: int| 0u8),
            input: Input { joypad: 0b00110000, buttons: 0xFF, interrupt: 0 },
            timer: Timer {
                div: 0,
                tima: 0,
                tma: 0,
                enabled: false,
                increment_in_cpu_cycles: 1024,
                counter: 0,
                interrupt: 0,
            },
            io: Seq::new(0x80, |i: int| 0u8),
            hram: Seq::new(0x7F, |i: int| 0u8),
            latches: Latches {
                interupt_switch: 0,
                wram_select: 1,
                booting: true,
                prepare_speed_switch: false,
                doublespeed: false,
                fault: None,
            },
            serial: Seq::empty(),
        }
    }

    /// The fault, if any, that keeps a machine from being built: a boot
    /// ROM of the wrong size, or what keeps the cartridge from being
    /// loaded.
    pub open spec fn new_fault(
        rom_bytes: Seq<u8>,
        save_bytes: Seq<u8>,
        boot_rom: Seq<u8>,
        color_mode: bool,
    ) -> Option<Fault> {
        if boot_rom.len() != boot_rom_size(color_mode) {
            Some(Fault::BootRomSize)
        } else {
            MemoryBankView::new_fault(rom_bytes, save_bytes)
        }
    }
}

/// The address after `address`; 0 after the last.
pub open spec fn following(address: u16) -> u16 {
    ((address + 1) % 0x10000) as u16
}

fn next_address(address: u16) -> (next: u16)
    ensures
        next == following(address),
{
    address.wrapping_add(1)
}

fn color_register(address: u16) -> (is: bool)
    ensures
        is == is_color_register(address),
{
    address == 0xFF4D || address == 0xFF4F || (0xFF51 <= address && address <= 0xFF55) || (0xFF68
        <= address && address <= 0xFF6B) || address == 0xFF70
}

impl Mmu {
    pub open spec fn wf(&self) -> bool {
        &&& self@.wf()
        &&& self.gpu.wf()
    }

    fn wram_offset(&self, address: u16) -> (index: u16)
        requires
            self@.wf(),
            WRAM_BANK_0_START <= address <= WRAM_END,
        ensures
            index == self@.wram_index(address),
            index < self@.wram.len(),
    {
        if address < WRAM_BANK_1_START {
            address - WRAM_BANK_0_START
        } else if self.gpu.color_mode {
            self.latches.wram_select as u16 * WRAM_BANK_SIZE + (address - WRAM_BANK_1_START)
        } else {
            WRAM_BANK_SIZE + (address - WRAM_BANK_1_START)
        }
    }

    fn read_timer(&self, address: u16) -> (value: u8)
        requires
            self@.wf(),
            0xFF04 <= address <= 0xFF07,
        ensures
            value == self@.read_timer(address),
    {
        if address == 0xFF04 {
            self.timer.get_div()
        } else if address == 0xFF05 {
            self.timer.tima
        } else if address == 0xFF06 {
            self.timer.tma
        } else {
            self.timer.get_timer_control()
        }
    }

    fn read_lcd(&self, address: u16) -> (value: u8)
        requires
            self@.wf(),
            0xFF40 <= address <= 0xFF4B,
        ensures
            value == self@.read_lcd(address),
    {
        if address == 0xFF40 {
            self.gpu.get_lcdc_control()
        } else if address == 0xFF41 {
            self.gpu.get_lcdc_status()
        } else if address == 0xFF42 {
            self.gpu.get_scy()
        } else if address == 0xFF43 {
            self.gpu.get_scx()
        } else if address == 0xFF44 {
            self.gpu.get_ly()
        } else if address == 0xFF45 {
            self.gpu.get_lyc()
        } else if address == 0xFF46 {
            match &self.dma {
                Some(dma) => dma.value,
                None => 0,
            }
        } else if address == 0xFF47 {
            self.gpu.get_bgp()
        } else if address == 0xFF48 {
            self.gpu.get_obp0()
        } else if address == 0xFF49 {
            self.gpu.get_obp1()
        } else if address == 0xFF4A {
            self.gpu.get_wy()
        } else {
            self.gpu.get_wx()
        }
    }

    fn read_color(&self, address: u16) -> (value: u8)
        requires
            self@.wf(),
            is_color_register(address),
        ensures
            value == self@.read_color(address),
    {
        if address == 0xFF4D {
            let speed: u8 = if self.latches.doublespeed { 128 } else { 0 };
            let armed: u8 = if self.latches.prepare_speed_switch { 1 } else { 0 };
            0x7E + speed + armed
        } else if address == 0xFF4F {
            self.gpu.get_vram_bank()
        } else if address <= 0xFF55 {
            0xFF
        } else if address == 0xFF68 {
            self.gpu.get_color_bg_palette_idx()
        } else if address == 0xFF69 {
            self.gpu.get_color_bg_palette()
        } else if address == 0xFF6A {
            self.gpu.get_color_sprite_palette_idx()
        } else if address == 0xFF6B {
            self.gpu.get_color_sprite_palette()
        } else {
            self.latches.wram_select + 0b11111000
        }
    }

    fn read_io(&self, address: u16) -> (value: u8)
        requires
            self@.wf(),
            IO_START <= address <= IO_END,
        ensures
            value == self@.read_io(address),
    {
        if address == IO_START {
            self.input.read_joypad()
        } else if 0xFF04 <= address && address <= 0xFF07 {
            self.read_timer(address)
        } else if 0xFF40 <= address && address <= 0xFF4B {
            self.read_lcd(address)
        } else if self.gpu.color_mode && color_register(address) {
            self.read_color(address)
        } else {
            self.io.read(address - IO_START)
        }
    }

    pub fn read(&self, address: u16) -> (value: u8)
        requires
            self@.wf(),
        ensures
            value == self@.read(address),
    {
        proof {
            reveal(MmuView::read);
        }
        // In color mode the boot ROM leaves 0x100 to 0x14F unmapped so that
        // it can read the cartridge header.
        if self.latches.booting && (address < 0x100 || (self.gpu.color_mode && 0x150 <= address
            && address < 0x900)) {
            self.boot_rom[address as usize]
        } else if address <= ROM_END {
            self.mbc.read_rom(address)
        } else if address <= VRAM_END {
            self.gpu.read_from_vram(address - VRAM_START)
        } else if address <= ERAM_END {
            self.mbc.read_ram(address - ERAM_START)
        } else if address <= WRAM_END {
            self.wram.read(self.wram_offset(address))
        } else if address <= ECHO_END {
            self.wram.read(self.wram_offset(address - 0x2000))
        } else if address <= OAM_END {
            self.gpu.read_from_oam(address - OAM_START)
        } else if address <= UNUSABLE_END {
            UNUSABLE
        } else if address <= IO_END {
            self.read_io(address)
        } else if address <= HRAM_END {
            self.hram.read(address - HRAM_START)
        } else {
            self.latches.interupt_switch
        }
    }

    pub fn read_u16(&self, address: u16) -> (value: u16)
        requires
            self@.wf(),
        ensures
            value == self@.read_u16(address),
    {
        let low: u8 = self.read(address);
        let high: u8 = self.read(next_address(address));
        (high as u16) * 256 + (low as u16)
    }

    fn write_timer(&mut self, address: u16, value: u8)
        requires
            old(self).wf(),
            0xFF04 <= address <= 0xFF07,
        ensures
            final(self)@ == old(self)@.write_timer(address, value),
            final(self).wf(),
    {
        if address == 0xFF04 {
            self.timer.reset_div();  // writing any value to DIV resets it to 0
        } else if address == 0xFF05 {
            self.timer.tima = value;
        } else if address == 0xFF06 {
            self.timer.tma = value;
        } else {
            self.timer.set_timer_control(value);
        }
    }

    fn write_gpu_register(&mut self, address: u16, value: u8)
        requires
            old(self).wf(),
            0xFF42 <= address <= 0xFF4B,
            address != 0xFF44,
            address != 0xFF46,
        ensures
            final(self)@ == old(self)@.with_gpu(old(self)@.gpu_register_written(address, value)),
            final(self).wf(),
    {
        if address == 0xFF42 {
            self.gpu.set_scy(value);
        } else if address == 0xFF43 {
            self.gpu.set_scx(value);
        } else if address == 0xFF45 {
            self.gpu.set_lyc(value);
        } else if address == 0xFF47 {
            self.gpu.set_bgp(value);
        } else if address == 0xFF48 {
            self.gpu.set_obp0(value);
        } else if address == 0xFF49 {
            self.gpu.set_obp1(value);
        } else if address == 0xFF4A {
            self.gpu.set_wy(value);
        } else {
            self.gpu.set_wx(value);
        }
    }

    fn write_lcd(&mut self, address: u16, value: u8)
        requires
            old(self).wf(),
            0xFF40 <= address <= 0xFF4B,
        ensures
            final(self)@ == old(self)@.write_lcd(address, value),
            final(self).wf(),
    {
        if address == 0xFF40 {
            self.gpu.set_lcdc_control(value);
        } else if address == 0xFF41 {
            self.gpu.set_lcdc_status(value);
        } else if address == 0xFF44 {
            // the line counter is read-only
        } else if address == 0xFF46 {
            self.dma = Some(Dma::new(value));
        } else {
            self.write_gpu_register(address, value);
        }
    }

    fn write_hdma_address(&mut self, address: u16, value: u8)
        requires
            old(self).wf(),
            0xFF51 <= address <= 0xFF54,
        ensures
            final(self)@ == old(self)@.write_hdma_address(address, value),
            final(self).wf(),
    {
        if address == 0xFF51 {
            // HDMA1 High Source byte
            self.hdma.source = (value as u16) * 256 + self.hdma.source % 256;
        } else if address == 0xFF52 {
            // HDMA2 Low Source byte, lower 4 bits ignored
            self.hdma.source = (self.hdma.source / 256) * 256 + (value - value % 16) as u16;
        } else if address == 0xFF53 {
            // HDMA3 High dest byte, upper 3 bits ignored
            self.hdma.destination = ((value % 32) as u16) * 256 + self.hdma.destination % 256;
        } else {
            // HDMA4 Low dest byte, lower 4 bits ignored
            self.hdma.destination = (self.hdma.destination / 256) * 256 + (value - value
                % 16) as u16;
        }
    }

    fn write_color(&mut self, address: u16, value: u8)
        requires
            old(self).wf(),
            is_color_register(address),
        ensures
            final(self)@ == old(self)@.write_color(address, value),
            final(self).wf(),
    {
        if address == 0xFF4D {
            self.latches.prepare_speed_switch = value % 2 == 1;
        } else if address == 0xFF4F {
            self.gpu.select_vram_bank(value);
        } else if address <= 0xFF54 {
            self.write_hdma_address(address, value);
        } else if address == 0xFF55 {
            // HDMA5 Length/mode/start
            if value >= 128 {
                self.latches.fault = Some(Fault::HblankDma);
            } else {
                self.hdma.start(value);
            }
        } else if address == 0xFF68 {
            self.gpu.set_color_bg_palette_idx(value);
        } else if address == 0xFF69 {
            self.gpu.set_color_bg_palette(value);
        } else if address == 0xFF6A {
            self.gpu.set_color_sprite_palette_idx(value);
        } else if address == 0xFF6B {
            self.gpu.set_color_sprite_palette(value);
        } else {
            self.latches.wram_select = if value % 8 == 0 { 1 } else { value % 8 };
        }
    }

    fn write_io(&mut self, address: u16, value: u8)
        requires
            old(self).wf(),
            IO_START <= address <= IO_END,
        ensures
            final(self)@ == old(self)@.write_io(address, value),
            final(self).wf(),
    {
        if address == IO_START {
            self.input.write_joypad(value);
        } else if 0xFF04 <= address && address <= 0xFF07 {
            self.write_timer(address, value);
        } else if 0xFF40 <= address && address <= 0xFF4B {
            self.write_lcd(address, value);
        } else if self.gpu.color_mode && color_register(address) {
            self.write_color(address, value);
        } else {
            self.io.write(address - IO_START, value);
        }
    }

    fn write_wram(&mut self, address: u16, value: u8)
        requires
            old(self).wf(),
            WRAM_BANK_0_START <= address <= WRAM_END,
        ensures
            final(self)@ == (MmuView {
                wram: old(self)@.wram.update(old(self)@.wram_index(address), value),
                ..old(self)@
            }),
            final(self).wf(),
    {
        let index: u16 = self.wram_offset(address);
        self.wram.write(index, value);
    }

    fn write_store(&mut self, address: u16, value: u8)
        requires
            old(self).wf(),
        ensures
            final(self)@ == old(self)@.write_store(address, value),
            final(self).wf(),
    {
        if address <= ROM_END {
            self.mbc.write_rom(address, value);
        } else if address <= VRAM_END {
            self.gpu.write_to_vram(address - VRAM_START, value);
        } else if address <= ERAM_END {
            self.mbc.write_ram(address - ERAM_START, value);
        } else if address <= WRAM_END {
            self.write_wram(address, value);
        } else if address <= ECHO_END {
            self.write_wram(address - 0x2000, value);
        } else if address <= OAM_END {
            self.gpu.write_to_oam(address - OAM_START, value);
        } else if address <= UNUSABLE_END {
            /* Unusable */
        } else if address <= IO_END {
            self.write_io(address, value);
        } else if address <= HRAM_END {
            self.hram.write(address - HRAM_START, value);
        } else {
            self.latches.interupt_switch = value;
        }
    }

    pub fn write(&mut self, address: u16, value: u8)
        requires
            old(self).wf(),
        ensures
            final(self)@ == old(self)@.write(address, value),
            final(self).wf(),
    {
        proof {
            reveal(MmuView::write);
        }
        if address == 0xFF02 && value == 0x81 {
            let byte: u8 = self.read(0xFF01);
            self.serial.push(byte);
        }
        if address == 0xFF50 {
            self.latches.booting = false;
        }
        self.write_store(address, value);
    }

    pub fn write_u16(&mut self, address: u16, value: u16)
        requires
            old(self).wf(),
        ensures
            final(self)@ == old(self)@.write_u16(address, value),
            final(self).wf(),
    {
        let low: u8 = (value % 256) as u8;
        let high: u8 = (value / 256) as u8;
        self.write(address, low);
        self.write(next_address(address), high);
    }

    /// Moves the stack pointer down by two and stores `value` there.
    pub fn push_u16(&mut self, regs: &mut Registers, value: u16)
        requires
            old(self).wf(),
        ensures
            *final(regs) == old(regs).pushed(),
            final(self)@ == old(self)@.write_u16(old(regs).pushed().sp, value),
            final(self).wf(),
    {
        regs.sp = regs.sp.wrapping_sub(2);
        self.write_u16(regs.sp, value);
    }

    /// Takes the value at the stack pointer and moves the pointer up by
    /// two.
    pub fn pop_u16(&mut self, regs: &mut Registers) -> (value: u16)
        requires
            old(self).wf(),
        ensures
            value == old(self)@.read_u16(old(regs).sp),
            *final(regs) == old(regs).popped(),
            final(self)@ == old(self)@,
            final(self).wf(),
    {
        let res: u16 = self.read_u16(regs.sp);
        regs.sp = regs.sp.wrapping_add(2);
        res
    }

    /// Builds the unit around a video controller, with the cartridge that
    /// the image asks for and the boot ROM in place.
    pub fn new(rom_bytes: Vec<u8>, save_bytes: Vec<u8>, boot_rom: Vec<u8>, gpu: Gpu) -> (made:
        Result<Mmu, Fault>)
        requires
            gpu.wf(),
        ensures
            match made {
                Ok(mmu) => MmuView::new_fault(
                    rom_bytes@,
                    save_bytes@,
                    boot_rom@,
                    gpu@.color_mode,
                ) is None && mmu@ == MmuView::initial(
                    boot_rom@,
                    gpu@,
                    MemoryBankView::created(rom_bytes@, save_bytes@),
                ) && mmu.wf(),
                Err(fault) => MmuView::new_fault(
                    rom_bytes@,
                    save_bytes@,
                    boot_rom@,
                    gpu@.color_mode,
                ) == Some(fault),
            },
    {
        let boot_size: usize = if gpu.color_mode { 0x900 } else { 0x100 };
        if boot_rom.len() != boot_size {
            return Err(Fault::BootRomSize);
        }
        let mbc = match MemoryBank::new(rom_bytes, save_bytes) {
            Ok(mbc) => mbc,
            Err(fault) => {
                return Err(fault);
            },
        };
        let wram = Ram::new(if gpu.color_mode { 0x8000 } else { 0x2000 });
        Ok(
            Mmu {
                boot_rom,
                mbc,
                gpu,
                dma: None,
                hdma: Hdma::new(),
                wram,
                input: Input::new(),
                timer: Timer::new(),
                io: Ram::new(0x80),
                hram: Ram::new(0x7F),
                latches: Latches {
                    interupt_switch: 0,
                    wram_select: 1,
                    booting: true,
                    prepare_speed_switch: false,
                    doublespeed: false,
                    fault: None,
                },
                serial: Vec::new(),
            },
        )
    }

    fn gather_interrupts(&mut self)
        requires
            old(self).wf(),
        ensures
            final(self)@ == old(self)@.interrupts_gathered(),
            final(self).wf(),
    {
        let requested: u8 = self.io.read(0x0F) | self.gpu.interrupts | self.input.interrupt
            | self.timer.interrupt;
        self.io.write(0x0F, requested);
        self.gpu.interrupts = 0;
        self.input.interrupt = 0;
        self.timer.interrupt = 0;
    }

    fn dma_tick(&mut self)
        requires
            old(self).wf(),
        ensures
            final(self)@ == old(self)@.dma_tick(),
            final(self).wf(),
    {
        match self.dma {
            None => {},
            Some(dma) => {
                if dma.started && dma.address < 0xA0 {
                    let val: u8 = self.read(dma.source + dma.address as u16);
                    self.gpu.write_to_oam(dma.address as u16, val);
                    self.dma = Some(
                        Dma {
                            value: dma.value,
                            source: dma.source,
                            address: dma.address + 1,
                            started: true,
                        },
                    );
                } else if dma.started {
                    self.dma = None;
                } else {
                    self.dma = Some(
                        Dma {
                            value: dma.value,
                            source: dma.source,
                            address: dma.address,
                            started: true,
                        },
                    );
                }
            },
        }
    }

    fn dma_step(&mut self, cycles: u8)
        requires
            old(self).wf(),
        ensures
            final(self)@ == old(self)@.dma_run((cycles / 4 + 1) as nat),
            final(self).wf(),
    {
        let ticks: u8 = cycles / 4 + 1;
        let mut done: u8 = 0;
        while done < ticks
            invariant
                done <= ticks,
                self.wf(),
                self@.dma_run((ticks - done) as nat) == old(self)@.dma_run(ticks as nat),
            decreases ticks - done,
        {
            assert(self@.dma_run((ticks - done) as nat) == self@.dma_tick().dma_run(
                (ticks - done - 1) as nat,
            ));
            self.dma_tick();
            done = done + 1;
        }
    }

    fn hdma_byte(&mut self, i: u16)
        requires
            old(self).wf(),
            i < 0x800,
        ensures
            final(self)@ == old(self)@.hdma_byte(i as int),
            final(self).wf(),
    {
        let from: u16 = ((self.hdma.source as u32 + i as u32) % 0x10000) as u16;
        let to: u16 = (self.hdma.destination % 0x2000 + i) % 0x2000;
        let val: u8 = self.read(from);
        self.gpu.write_to_vram(to, val);
    }

    fn hdma_step(&mut self)
        requires
            old(self).wf(),
        ensures
            final(self)@ == old(self)@.hdma_done(),
            final(self).wf(),
    {
        if self.gpu.color_mode && self.hdma.active() {
            let len: u16 = self.hdma.remaining_len();
            let mut i: u16 = 0;
            while i < len
                invariant
                    i <= len <= 0x800,
                    self.wf(),
                    self@.hdma_copied(i as int, len as int) == old(self)@.hdma_copied(
                        0,
                        len as int,
                    ),
                decreases len - i,
            {
                assert(self@.hdma_copied(i as int, len as int) == self@.hdma_byte(
                    i as int,
                ).hdma_copied(i as int + 1, len as int));
                self.hdma_byte(i);
                i = i + 1;
            }
            self.hdma.value = 0xFF;
        }
    }

    /// Gathers the raised interrupts, steps the timer and moves the
    /// transfers on.
    pub fn mmu_step(&mut self, cycles: u8)
        requires
            old(self).wf(),
        ensures
            final(self)@ == old(self)@.stepped(cycles),
            final(self).wf(),
    {
        self.gather_interrupts();
        self.timer.timer_step(cycles);
        self.dma_step(cycles);
        self.hdma_step();
    }

    /// Hands over the bytes that went out over the serial port since the
    /// last call.
    pub fn take_serial(&mut self) -> (sent: Vec<u8>)
        ensures
            sent@ == old(self)@.serial,
            final(self)@ == (MmuView { serial: Seq::empty(), ..old(self)@ }),
            old(self).wf() ==> final(self).wf(),
    {
        let mut sent: Vec<u8> = Vec::new();
        std::mem::swap(&mut sent, &mut self.serial);
        sent
    }
}

/// Whether `address` lies in work RAM or in high RAM, where a byte
/// written is the byte read.
pub open spec fn is_plain_ram(address: u16) -> bool {
    (WRAM_BANK_0_START <= address <= WRAM_END) || (HRAM_START <= address <= HRAM_END)
}

/// A byte written to work RAM or high RAM is read back from there, and a
/// write to one such address leaves the byte at any other as it was.
pub proof fn lemma_ram_write_read(mem: MmuView, address: u16, other: u16, value: u8)
    requires
        mem.wf(),
        is_plain_ram(address),
        is_plain_ram(other),
        other != address,
    ensures
        mem.write(address, value).wf(),
        mem.write(address, value).read(address) == value,
        mem.write(address, value).read(other) == mem.read(other),
{
    reveal(MmuView::read);
    reveal(MmuView::write);
}

/// A 16-bit value pushed onto a stack that lies in work RAM or high RAM
/// is the value popped, and the pop puts the stack pointer back where it
/// was before the push.
pub proof fn lemma_push_pop(mem: MmuView, regs: Registers, value: u16)
    requires
        mem.wf(),
        is_plain_ram(regs.pushed().sp),
        is_plain_ram(following(regs.pushed().sp)),
    ensures
        mem.write_u16(regs.pushed().sp, value).read_u16(regs.pushed().sp) == value,
        regs.pushed().popped() == regs,
{
    let low = regs.pushed().sp;
    let high = following(low);
    let first = mem.write(low, low_byte(value));
    lemma_ram_write_read(mem, low, high, low_byte(value));
    lemma_ram_write_read(first, high, low, high_byte(value));
    crate::registers::lemma_pair_roundtrip(value, 0, 0);
}

/// The echo range shows work RAM: a read there is the read 0x2000 below,
/// and so is a write.
pub proof fn lemma_echo(mem: MmuView, address: u16, value: u8)
    requires
        ECHO_START <= address <= ECHO_END,
    ensures
        mem.read(address) == mem.read((address - 0x2000) as u16),
        mem.write(address, value) == mem.write((address - 0x2000) as u16, value),
{
    reveal(MmuView::read);
    reveal(MmuView::write);
}

/// The unusable range reads as 0xFF and takes no write.
pub proof fn lemma_unusable(mem: MmuView, address: u16, value: u8)
    requires
        OAM_END < address <= UNUSABLE_END,
    ensures
        mem.read(address) == UNUSABLE,
        mem.write(address, value) == mem,
{
    reveal(MmuView::read);
    reveal(MmuView::write);
}

/// Once the boot is over no write brings the boot ROM back.
pub proof fn lemma_boot_is_one_way(mem: MmuView, address: u16, value: u8)
    requires
        !mem.latches.booting,
    ensures
        !mem.write(address, value).latches.booting,
{
    reveal(MmuView::write);
}

/// What a write into the cartridge ROM range changes is the state of the
/// bank controller alone.
pub proof fn lemma_rom_write_goes_to_the_controller(mem: MmuView, address: u16, value: u8)
    requires
        address <= ROM_END,
    ensures
        mem.write(address, value) == (MmuView {
            mbc: mem.mbc.write_rom(address, value),
            ..mem
        }),
{
    reveal(MmuView::write);
}

impl MmuView {
    /// Whether this unit is `start` some way into a transfer into the
    /// sprite table from a page of work RAM: `copied` bytes are in place
    /// and nothing but the sprite table and the state of the transfer
    /// differs.
    pub open spec fn dma_progress(self, start: MmuView, page: u8, copied: int) -> bool {
        &&& self.wram == start.wram
        &&& self.latches == start.latches
        &&& self.gpu.color_mode == start.gpu.color_mode
        &&& self.gpu.oam.len() == 0xA0
        &&& self == (MmuView {
            gpu: GpuView { oam: self.gpu.oam, ..start.gpu },
            dma: self.dma,
            ..start
        })
        &&& forall|i: int|
            0 <= i < copied ==> #[trigger] self.gpu.oam[i] == start.read((page * 256 + i) as u16)
    }
}

proof fn lemma_dma_tick_copies(now: MmuView, start: MmuView, page: u8, copied: int)
    requires
        start.wf(),
        0xC0 <= page <= 0xDF,
        0 <= copied < 0xA0,
        now.dma_progress(start, page, copied),
        now.dma == Some(
            Dma { value: page, source: (page * 256) as u16, address: copied as u8, started: true },
        ),
    ensures
        now.dma_tick().dma_progress(start, page, copied + 1),
        now.dma_tick().dma == Some(
            Dma {
                value: page,
                source: (page * 256) as u16,
                address: (copied + 1) as u8,
                started: true,
            },
        ),
{
    reveal(MmuView::read);
    let after = now.dma_tick();
    assert(now.read((page * 256 + copied) as u16) == start.read((page * 256 + copied) as u16));
    assert forall|i: int| 0 <= i < copied + 1 implies #[trigger] after.gpu.oam[i] == start.read(
        (page * 256 + i) as u16,
    ) by {
        if i < copied {
            assert(now.gpu.oam[i] == start.read((page * 256 + i) as u16));
        }
    }
}

proof fn lemma_dma_run_copies(now: MmuView, start: MmuView, page: u8, copied: int, ticks: nat)
    requires
        start.wf(),
        0xC0 <= page <= 0xDF,
        0 <= copied <= 0xA0,
        now.dma_progress(start, page, copied),
        now.dma == Some(
            Dma { value: page, source: (page * 256) as u16, address: copied as u8, started: true },
        ),
        ticks > 0xA0 - copied,
    ensures
        now.dma_run(ticks).dma_progress(start, page, 0xA0),
        now.dma_run(ticks).dma is None,
    decreases ticks,
{
    if copied < 0xA0 {
        lemma_dma_tick_copies(now, start, page, copied);
        lemma_dma_run_copies(now.dma_tick(), start, page, copied + 1, (ticks - 1) as nat);
    } else {
        lemma_dma_idle(now.dma_tick(), (ticks - 1) as nat);
    }
}

/// Without a transfer into the sprite table, its ticks do nothing.
pub proof fn lemma_dma_idle(mem: MmuView, ticks: nat)
    requires
        mem.dma is None,
    ensures
        mem.dma_run(ticks) == mem,
    decreases ticks,
{
    if ticks > 0 {
        lemma_dma_idle(mem, (ticks - 1) as nat);
    }
}

/// A transfer into the sprite table from a page of work RAM, given one
/// tick to start, 160 ticks to copy and one to end, leaves the 160 bytes
/// of the page in the sprite table and is over; work RAM is as it was.
pub proof fn lemma_dma_copies_the_page(mem: MmuView, page: u8, ticks: nat)
    requires
        mem.wf(),
        0xC0 <= page <= 0xDF,
        mem.dma == Some(
            Dma { value: page, source: (page * 256) as u16, address: 0, started: false },
        ),
        ticks >= 162,
    ensures
        mem.dma_run(ticks).dma is None,
        mem.dma_run(ticks).wram == mem.wram,
        forall|i: int|
            0 <= i < 0xA0 ==> #[trigger] mem.dma_run(ticks).gpu.oam[i] == mem.read(
                (page * 256 + i) as u16,
            ),
{
    let started = mem.dma_tick();
    assert(started.dma_progress(mem, page, 0));
    lemma_dma_run_copies(started, mem, page, 0, (ticks - 1) as nat);
}

/// Copying bytes of a transfer into video RAM changes nothing but the
/// video controller.
pub proof fn lemma_hdma_copy_keeps_the_rest(mem: MmuView, from: int, to: int)
    ensures
        mem.hdma_copied(from, to) == (MmuView { gpu: mem.hdma_copied(from, to).gpu, ..mem }),
        mem.hdma_copied(from, to).gpu.color_mode == mem.gpu.color_mode,
    decreases to - from,
{
    if from < to {
        lemma_hdma_copy_keeps_the_rest(mem.hdma_byte(from), from + 1, to);
    }
}

/// A transfer into video RAM is carried out whole in one step: after the
/// step none waits, and its address registers are as they were.
pub proof fn lemma_hdma_is_done_at_once(mem: MmuView)
    ensures
        mem.gpu.color_mode ==> !mem.hdma_done().hdma.is_active(),
        mem.hdma_done().hdma.source == mem.hdma.source,
        mem.hdma_done().hdma.destination == mem.hdma.destination,
        !mem.gpu.color_mode ==> mem.hdma_done() == mem,
{
    lemma_hdma_copy_keeps_the_rest(mem, 0, mem.hdma.length() as int);
}

/// Whether two states of the video controller are at the same place of
/// the same frame, with the same control and status registers.
pub open spec fn same_position(first: GpuView, second: GpuView) -> bool {
    &&& first.regs == second.regs
    &&& first.control == second.control
    &&& first.status == second.status
    &&& first.cycle_count == second.cycle_count
    &&& first.frame_complete == second.frame_complete
    &&& first.color_mode == second.color_mode
}

proof fn lemma_dma_keeps_the_position(mem: MmuView, ticks: nat)
    ensures
        same_position(mem.dma_run(ticks).gpu, mem.gpu),
        mem.dma_run(ticks).hdma == mem.hdma,
        mem.dma_run(ticks).latches == mem.latches,
    decreases ticks,
{
    if ticks > 0 {
        lemma_dma_keeps_the_position(mem.dma_tick(), (ticks - 1) as nat);
    }
}

proof fn lemma_hdma_keeps_the_position(mem: MmuView, from: int, to: int)
    ensures
        same_position(mem.hdma_copied(from, to).gpu, mem.gpu),
        mem.hdma_copied(from, to).latches == mem.latches,
    decreases to - from,
{
    if from < to {
        lemma_hdma_keeps_the_position(mem.hdma_byte(from), from + 1, to);
    }
}

/// A step of the memory-mapping unit moves the video controller neither
/// in its line nor in its frame and leaves its control and status
/// registers alone, and the latches of the machine too.
pub proof fn lemma_step_keeps_the_position(mem: MmuView, cycles: u8)
    ensures
        same_position(mem.stepped(cycles).gpu, mem.gpu),
        mem.stepped(cycles).latches == mem.latches,
{
    let gathered = mem.interrupts_gathered();
    let timed = MmuView { timer: gathered.timer.stepped(cycles), ..gathered };
    let ticks = (cycles / 4 + 1) as nat;
    lemma_dma_keeps_the_position(timed, ticks);
    lemma_hdma_keeps_the_position(timed.dma_run(ticks), 0, timed.dma_run(ticks).hdma.length() as int);
}

/// A write moves the video controller neither in its line nor in its
/// frame, unless it switches the LCD off: a write to any address but that
/// of the LCD control register leaves that register alone too, and a
/// write there with bit 7 set leaves the LCD on.
pub proof fn lemma_write_keeps_the_place(mem: MmuView, address: u16, value: u8)
    requires
        address != 0xFF40 || crate::bits::bit(value, 7),
    ensures
        mem.write(address, value).gpu.regs.ly == mem.gpu.regs.ly,
        mem.write(address, value).gpu.cycle_count == mem.gpu.cycle_count,
        mem.write(address, value).gpu.frame_complete == mem.gpu.frame_complete,
        address != 0xFF40 ==> mem.write(address, value).gpu.control == mem.gpu.control,
        address == 0xFF40 ==> mem.write(address, value).gpu.control.lcd_enable,
        address != 0xFF4D ==> mem.write(address, value).latches.doublespeed
            == mem.latches.doublespeed,
{
    reveal(MmuView::write);
}

} // verus!
