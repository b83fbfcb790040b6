//! Cartridge bank controllers: bank storage and the four strategies that
//! map the ROM and external RAM windows onto it.
use vstd::prelude::*;
use crate::fault::Fault;

verus! {

pub const COLOR_FLAG_ADDRESS: usize = 0x0143;

pub const MEMORY_BANK_TYPE_ADDRESS: usize = 0x0147;

pub const ROM_SIZE_ADDRESS: usize = 0x0148;

pub const RAM_SIZE_ADDRESS: usize = 0x0149;

pub const TITLE_ADDRESS: u16 = 0x0134;

pub const TITLE_LENGTH: u16 = 0x0F;

pub const ROM_BANK_SIZE: usize = 0x4000;

/// `bytes` followed by zeros up to `len`.
pub open spec fn padded(bytes: Seq<u8>, len: nat) -> Seq<u8> {
    Seq::new(len, |i: int| if i < bytes.len() { bytes[i] } else { 0u8 })
}

/// ROM and RAM storage, each a run of equally sized banks.
pub struct Banks {
    pub rom: Vec<u8>,
    pub ram: Vec<u8>,
    pub rom_bank_count: u16,
    pub ram_bank_count: u8,
    pub ram_bank_size: u16,
}

pub struct BanksView {
    pub rom: Seq<u8>,
    pub ram: Seq<u8>,
    pub rom_bank_count: u16,
    pub ram_bank_count: u8,
    pub ram_bank_size: u16,
}

impl View for Banks {
    type V = BanksView;

    open spec fn view(&self) -> BanksView {
        BanksView {
            rom: self.rom@,
            ram: self.ram@,
            rom_bank_count: self.rom_bank_count,
            ram_bank_count: self.ram_bank_count,
            ram_bank_size: self.ram_bank_size,
        }
    }
}

impl BanksView {
    /// There is at least one ROM bank and both stores have the size that
    /// the counts give.
    pub open spec fn wf(self) -> bool {
        &&& self.rom_bank_count >= 1
        &&& self.rom.len() == self.rom_bank_count * 0x4000
        &&& self.ram.len() == self.ram_bank_count * self.ram_bank_size
    }

    /// Where in the ROM store byte `offset` of bank `bank` lies; the bank
    /// number wraps at the bank count.
    pub open spec fn rom_index(self, bank: int, offset: int) -> int {
        (bank % (self.rom_bank_count as int)) * 0x4000 + offset
    }

    pub open spec fn rom_byte(self, bank: int, offset: int) -> u8 {
        self.rom[self.rom_index(bank, offset)]
    }

    /// Whether byte `offset` of a RAM bank exists.
    pub open spec fn ram_present(self, offset: int) -> bool {
        self.ram_bank_count > 0 && offset < self.ram_bank_size
    }

    /// Where in the RAM store byte `offset` of bank `bank` lies; the bank
    /// number wraps at the bank count.
    pub open spec fn ram_index(self, bank: int, offset: int) -> int {
        (bank % (self.ram_bank_count as int)) * self.ram_bank_size + offset
    }

    /// The byte read from RAM; 0xFF where there is none.
    pub open spec fn ram_byte(self, bank: int, offset: int) -> u8 {
        if self.ram_present(offset) {
            self.ram[self.ram_index(bank, offset)]
        } else {
            0xFF
        }
    }

    /// The store after a write to RAM; unchanged where there is none.
    pub open spec fn with_ram_byte(self, bank: int, offset: int, value: u8) -> BanksView {
        if self.ram_present(offset) {
            BanksView { ram: self.ram.update(self.ram_index(bank, offset), value), ..self }
        } else {
            self
        }
    }

    /// The fault, if any, that keeps an image and a save from being loaded
    /// into banks of these counts.
    pub open spec fn load_fault(
        rom_bytes: Seq<u8>,
        save_bytes: Seq<u8>,
        rom_bank_count: u16,
        ram_bank_count: u8,
        ram_bank_size: u16,
    ) -> Option<Fault> {
        if rom_bank_count == 0 {
            Some(Fault::BankCount { count: 0 })
        } else if rom_bytes.len() > rom_bank_count * 0x4000 {
            Some(Fault::OversizedImage)
        } else if save_bytes.len() > ram_bank_count * ram_bank_size {
            Some(Fault::OversizedSave)
        } else {
            None
        }
    }

    /// Banks of the given counts that hold the image and the save, each
    /// followed by zeros.
    pub open spec fn loaded(
        rom_bytes: Seq<u8>,
        save_bytes: Seq<u8>,
        rom_bank_count: u16,
        ram_bank_count: u8,
        ram_bank_size: u16,
    ) -> BanksView {
        BanksView {
            rom: padded(rom_bytes, (rom_bank_count * 0x4000) as nat),
            ram: padded(save_bytes, (ram_bank_count * ram_bank_size) as nat),
            rom_bank_count,
            ram_bank_count,
            ram_bank_size,
        }
    }
}

/// A zeroed store of `len` bytes with `bytes` copied to its start.
fn filled(bytes: &Vec<u8>, len: usize) -> (store: Vec<u8>)
    requires
        bytes@.len() <= len,
    ensures
        store@ == padded(bytes@, len as nat),
{
    let mut store: Vec<u8> = vec![0u8; len];
    let mut idx: usize = 0;
    while idx < bytes.len()
        invariant
            idx <= bytes@.len() <= len,
            store@.len() == len,
            forall|i: int| 0 <= i < idx ==> store@[i] == bytes@[i],
            forall|i: int| idx <= i < len ==> store@[i] == 0,
        decreases bytes@.len() - idx,
    {
        store[idx] = bytes[idx];
        idx = idx + 1;
    }
    assert(store@ =~= padded(bytes@, len as nat));
    store
}

proof fn lemma_ram_index(bank: int, count: int, size: int, offset: int)
    by (nonlinear_arith)
    requires
        0 < count <= 255,
        0 <= offset < size <= 65535,
        bank >= 0,
    ensures
        0 <= (bank % count) * size,
        (bank % count) * size + offset < count * size,
        count * size <= 16711425,
{
    let b = bank % count;
    assert(0 <= b <= count - 1);
    assert(b * size <= (count - 1) * size);
}

impl Banks {
    pub fn load(
        rom_bytes: &Vec<u8>,
        save_bytes: &Vec<u8>,
        rom_bank_count: u16,
        ram_bank_count: u8,
        ram_bank_size: u16,
    ) -> (loaded: Result<Banks, Fault>)
        ensures
            match loaded {
                Ok(banks) => BanksView::load_fault(
                    rom_bytes@,
                    save_bytes@,
                    rom_bank_count,
                    ram_bank_count,
                    ram_bank_size,
                ) is None && banks@ == BanksView::loaded(
                    rom_bytes@,
                    save_bytes@,
                    rom_bank_count,
                    ram_bank_count,
                    ram_bank_size,
                ) && banks@.wf(),
                Err(fault) => BanksView::load_fault(
                    rom_bytes@,
                    save_bytes@,
                    rom_bank_count,
                    ram_bank_count,
                    ram_bank_size,
                ) == Some(fault),
            },
    {
        let rom_len: usize = rom_bank_count as usize * ROM_BANK_SIZE;
        assert(ram_bank_count * ram_bank_size <= 255 * 65535) by (nonlinear_arith)
            requires
                0 <= ram_bank_count <= 255,
                0 <= ram_bank_size <= 65535,
        ;
        let ram_len: usize = ram_bank_count as usize * ram_bank_size as usize;
        if rom_bank_count == 0 {
            return Err(Fault::BankCount { count: 0 });
        }
        if rom_bytes.len() > rom_len {
            return Err(Fault::OversizedImage);
        }
        if save_bytes.len() > ram_len {
            return Err(Fault::OversizedSave);
        }
        Ok(
            Banks {
                rom: filled(rom_bytes, rom_len),
                ram: filled(save_bytes, ram_len),
                rom_bank_count,
                ram_bank_count,
                ram_bank_size,
            },
        )
    }

    pub fn read_rom_bank(&self, bank: u16, offset: u16) -> (byte: u8)
        requires
            self@.wf(),
            offset < 0x4000,
        ensures
            byte == self@.rom_byte(bank as int, offset as int),
    {
        let index: usize = (bank % self.rom_bank_count) as usize * ROM_BANK_SIZE + offset as usize;
        self.rom[index]
    }

    pub fn read_ram_bank(&self, bank: u8, offset: u16) -> (byte: u8)
        requires
            self@.wf(),
        ensures
            byte == self@.ram_byte(bank as int, offset as int),
    {
        if self.ram_bank_count == 0 || offset >= self.ram_bank_size {
            return 0xFF;
        }
        proof {
            lemma_ram_index(
                bank as int,
                self.ram_bank_count as int,
                self.ram_bank_size as int,
                offset as int,
            );
        }
        let index: usize = (bank % self.ram_bank_count) as usize * self.ram_bank_size as usize
            + offset as usize;
        self.ram[index]
    }

    pub fn write_ram_bank(&mut self, bank: u8, offset: u16, value: u8)
        requires
            old(self)@.wf(),
        ensures
            final(self)@ == old(self)@.with_ram_byte(bank as int, offset as int, value),
            final(self)@.wf(),
    {
        if self.ram_bank_count == 0 || offset >= self.ram_bank_size {
            return ;
        }
        proof {
            lemma_ram_index(
                bank as int,
                self.ram_bank_count as int,
                self.ram_bank_size as int,
                offset as int,
            );
        }
        let index: usize = (bank % self.ram_bank_count) as usize * self.ram_bank_size as usize
            + offset as usize;
        self.ram[index] = value;
    }
}

proof fn lemma_select_masks(value: u8)
    by (bit_vector)
    ensures
        value & 0x0F == value % 16,
        value & 0b00011111 == value % 32,
        value & 0b01111111 == value % 128,
        value & 0b11 == value % 4,
        value & 1 == value % 2,
{
}

/// Whether a write to the RAM gate opens it: the low nibble is 0xA.
pub open spec fn opens_ram(value: u8) -> bool {
    value % 16 == 0x0A
}

fn ram_gate(value: u8) -> (open: bool)
    ensures
        open == opens_ram(value),
{
    proof {
        lemma_select_masks(value);
    }
    value & 0x0F == 0x0A
}

/// A cartridge without a controller: 32 KiB of ROM and 8 KiB of RAM, both
/// fixed.
pub struct NoMBC {
    pub banks: Banks,
}

pub struct NoMbcView {
    pub banks: BanksView,
}

impl View for NoMBC {
    type V = NoMbcView;

    open spec fn view(&self) -> NoMbcView {
        NoMbcView { banks: self.banks@ }
    }
}

impl NoMbcView {
    pub open spec fn wf(self) -> bool {
        &&& self.banks.wf()
        &&& self.banks.rom_bank_count == 2
        &&& self.banks.ram_bank_count == 1
        &&& self.banks.ram_bank_size == 0x2000
    }

    pub open spec fn read_rom(self, address: u16) -> u8 {
        self.banks.rom[address as int]
    }

    pub open spec fn read_ram(self, address: u16) -> u8 {
        self.banks.ram[address as int]
    }

    pub open spec fn write_ram(self, address: u16, value: u8) -> NoMbcView {
        NoMbcView { banks: BanksView { ram: self.banks.ram.update(address as int, value), ..self.banks } }
    }
}

impl NoMBC {
    pub fn load_rom(bytes: &Vec<u8>) -> (loaded: Result<NoMBC, Fault>)
        ensures
            match loaded {
                Ok(mbc) => bytes@.len() <= 0x8000 && mbc@.wf() && mbc@.banks == BanksView::loaded(
                    bytes@,
                    Seq::empty(),
                    2,
                    1,
                    0x2000,
                ),
                Err(fault) => bytes@.len() > 0x8000 && fault == Fault::OversizedImage,
            },
    {
        let save: Vec<u8> = Vec::new();
        match Banks::load(bytes, &save, 2, 1, 0x2000) {
            Ok(banks) => Ok(NoMBC { banks }),
            Err(fault) => Err(fault),
        }
    }

    /// Writes to ROM are ignored.
    pub fn write_rom(&mut self, address: u16, value: u8)
        ensures
            final(self)@ == old(self)@,
    {
    }

    pub fn write_ram(&mut self, address: u16, value: u8)
        requires
            old(self)@.wf(),
            address < 0x2000,
        ensures
            final(self)@ == old(self)@.write_ram(address, value),
            final(self)@.wf(),
    {
        self.banks.ram[address as usize] = value;
    }

    pub fn read_rom(&self, address: u16) -> (byte: u8)
        requires
            self@.wf(),
            address < 0x8000,
        ensures
            byte == self@.read_rom(address),
    {
        self.banks.rom[address as usize]
    }

    pub fn read_ram(&self, address: u16) -> (byte: u8)
        requires
            self@.wf(),
            address < 0x2000,
        ensures
            byte == self@.read_ram(address),
    {
        self.banks.ram[address as usize]
    }
}

/// The first controller family: a 5-bit bank register, a 2-bit extension
/// and a mode flag that says which of ROM and RAM the extension selects.
pub struct MBC1 {
    pub banks: Banks,
    pub selected_rom: u8,
    pub two_bits: u8,
    pub ram_enabled: bool,
    /// ROM banking mode if false, RAM banking mode if true
    pub ram_banking_mode: bool,
}

pub struct Mbc1View {
    pub banks: BanksView,
    pub selected_rom: u8,
    pub two_bits: u8,
    pub ram_enabled: bool,
    pub ram_banking_mode: bool,
}

impl View for MBC1 {
    type V = Mbc1View;

    open spec fn view(&self) -> Mbc1View {
        Mbc1View {
            banks: self.banks@,
            selected_rom: self.selected_rom,
            two_bits: self.two_bits,
            ram_enabled: self.ram_enabled,
            ram_banking_mode: self.ram_banking_mode,
        }
    }
}

/// The number of banks the first family allocates for a header that
/// reports `count`.
pub open spec fn mbc1_usable_banks(count: u16) -> u16 {
    if count == 64 {
        63
    } else if count == 128 {
        125
    } else {
        count
    }
}

impl Mbc1View {
    pub open spec fn wf(self) -> bool {
        &&& self.banks.wf()
        &&& self.selected_rom < 32
        &&& self.two_bits < 4
    }

    /// The ROM bank number in effect for the switchable window.
    pub open spec fn selected(self) -> u8 {
        if self.ram_banking_mode {
            self.selected_rom
        } else {
            (self.selected_rom + self.two_bits * 32) as u8
        }
    }

    /// The RAM bank number in effect.
    pub open spec fn ram_bank(self) -> u8 {
        if self.ram_banking_mode {
            self.two_bits
        } else {
            0
        }
    }

    pub open spec fn read_rom(self, address: u16) -> u8 {
        if address < 0x4000 {
            self.banks.rom_byte(0, address as int)
        } else {
            self.banks.rom_byte(self.selected() as int, address - 0x4000)
        }
    }

    /// The controller after a write into the ROM window: the RAM gate, the
    /// bank register (where 0 selects 1), the extension, or the mode flag.
    pub open spec fn write_rom(self, address: u16, value: u8) -> Mbc1View {
        if address < 0x2000 {
            Mbc1View { ram_enabled: opens_ram(value), ..self }
        } else if address < 0x4000 {
            Mbc1View { selected_rom: if value % 32 == 0 { 1u8 } else { value % 32 }, ..self }
        } else if address < 0x6000 {
            Mbc1View { two_bits: value % 4, ..self }
        } else if address < 0x8000 {
            Mbc1View { ram_banking_mode: value % 2 == 1, ..self }
        } else {
            self
        }
    }

    pub open spec fn read_ram(self, address: u16) -> u8 {
        if self.ram_enabled {
            self.banks.ram_byte(self.ram_bank() as int, address as int)
        } else {
            0xFF
        }
    }

    pub open spec fn write_ram(self, address: u16, value: u8) -> Mbc1View {
        if self.ram_enabled {
            Mbc1View {
                banks: self.banks.with_ram_byte(self.ram_bank() as int, address as int, value),
                ..self
            }
        } else {
            self
        }
    }

    pub open spec fn load_fault(
        rom_bytes: Seq<u8>,
        save_bytes: Seq<u8>,
        rom_bank_count: u16,
        ram_bank_count: u8,
        ram_bank_size: u16,
    ) -> Option<Fault> {
        if rom_bank_count >= 129 {
            Some(Fault::BankCount { count: rom_bank_count })
        } else {
            BanksView::load_fault(
                rom_bytes,
                save_bytes,
                mbc1_usable_banks(rom_bank_count),
                ram_bank_count,
                ram_bank_size,
            )
        }
    }

    pub open spec fn loaded(
        rom_bytes: Seq<u8>,
        save_bytes: Seq<u8>,
        rom_bank_count: u16,
        ram_bank_count: u8,
        ram_bank_size: u16,
    ) -> Mbc1View {
        Mbc1View {
            banks: BanksView::loaded(
                rom_bytes,
                save_bytes,
                mbc1_usable_banks(rom_bank_count),
                ram_bank_count,
                ram_bank_size,
            ),
            selected_rom: 1,
            two_bits: 0,
            ram_enabled: false,
            ram_banking_mode: false,
        }
    }
}

impl MBC1 {
    pub fn load_rom(
        bytes: &Vec<u8>,
        save_bytes: &Vec<u8>,
        rom_bank_count: u16,
        ram_bank_count: u8,
        ram_bank_size: u16,
    ) -> (loaded: Result<MBC1, Fault>)
        ensures
            match loaded {
                Ok(mbc) => Mbc1View::load_fault(
                    bytes@,
                    save_bytes@,
                    rom_bank_count,
                    ram_bank_count,
                    ram_bank_size,
                ) is None && mbc@ == Mbc1View::loaded(
                    bytes@,
                    save_bytes@,
                    rom_bank_count,
                    ram_bank_count,
                    ram_bank_size,
                ) && mbc@.wf(),
                Err(fault) => Mbc1View::load_fault(
                    bytes@,
                    save_bytes@,
                    rom_bank_count,
                    ram_bank_count,
                    ram_bank_size,
                ) == Some(fault),
            },
    {
        if rom_bank_count >= 129 {
            return Err(Fault::BankCount { count: rom_bank_count });
        }
        //Special limitation of MBC1
        let usable: u16 = if rom_bank_count == 64 {
            63
        } else if rom_bank_count == 128 {
            125
        } else {
            rom_bank_count
        };
        match Banks::load(bytes, save_bytes, usable, ram_bank_count, ram_bank_size) {
            Ok(banks) => Ok(
                MBC1 {
                    banks,
                    selected_rom: 1,
                    two_bits: 0,
                    ram_enabled: false,
                    ram_banking_mode: false,
                },
            ),
            Err(fault) => Err(fault),
        }
    }

    pub fn selected_rom(&self) -> (bank: u8)
        requires
            self@.wf(),
        ensures
            bank == self@.selected(),
    {
        if self.ram_banking_mode {
            self.selected_rom
        } else {
            self.selected_rom + self.two_bits * 32
        }
    }

    pub fn write_rom(&mut self, address: u16, value: u8)
        requires
            old(self)@.wf(),
        ensures
            final(self)@ == old(self)@.write_rom(address, value),
            final(self)@.wf(),
    {
        proof {
            lemma_select_masks(value);
        }
        if address < 0x2000 {
            self.ram_enabled = ram_gate(value);
        } else if address < 0x4000 {
            self.selected_rom = if value & 0b00011111 == 0 {
                1
            } else {
                value & 0b00011111
            };
        } else if address < 0x6000 {
            self.two_bits = value & 0b11;
        } else if address < 0x8000 {
            self.ram_banking_mode = value & 1 == 1;
        }
    }

    pub fn write_ram(&mut self, address: u16, value: u8)
        requires
            old(self)@.wf(),
        ensures
            final(self)@ == old(self)@.write_ram(address, value),
            final(self)@.wf(),
    {
        if self.ram_enabled {
            let bank: u8 = if self.ram_banking_mode { self.two_bits } else { 0 };
            self.banks.write_ram_bank(bank, address, value);
        }
    }

    pub fn read_rom(&self, address: u16) -> (byte: u8)
        requires
            self@.wf(),
            address < 0x8000,
        ensures
            byte == self@.read_rom(address),
    {
        if address < 0x4000 {
            self.banks.read_rom_bank(0, address)
        } else {
            self.banks.read_rom_bank(self.selected_rom() as u16, address - 0x4000)
        }
    }

    pub fn read_ram(&self, address: u16) -> (byte: u8)
        requires
            self@.wf(),
        ensures
            byte == self@.read_ram(address),
    {
        if self.ram_enabled {
            let bank: u8 = if self.ram_banking_mode { self.two_bits } else { 0 };
            self.banks.read_ram_bank(bank, address)
        } else {
            0xFF
        }
    }
}

/// The third controller family: a 7-bit ROM bank register and a 4-bit RAM
/// bank register. Its clock is not emulated: the latch register takes
/// writes and does nothing.
pub struct MBC3 {
    pub banks: Banks,
    pub selected_rom: u8,
    pub selected_ram: u8,
    pub ram_enabled: bool,
}

pub struct Mbc3View {
    pub banks: BanksView,
    pub selected_rom: u8,
    pub selected_ram: u8,
    pub ram_enabled: bool,
}

impl View for MBC3 {
    type V = Mbc3View;

    open spec fn view(&self) -> Mbc3View {
        Mbc3View {
            banks: self.banks@,
            selected_rom: self.selected_rom,
            selected_ram: self.selected_ram,
            ram_enabled: self.ram_enabled,
        }
    }
}

impl Mbc3View {
    pub open spec fn wf(self) -> bool {
        &&& self.banks.wf()
        &&& self.selected_rom < 128
        &&& self.selected_ram < 16
    }

    pub open spec fn read_rom(self, address: u16) -> u8 {
        if address < 0x4000 {
            self.banks.rom_byte(0, address as int)
        } else {
            self.banks.rom_byte(self.selected_rom as int, address - 0x4000)
        }
    }

    /// The controller after a write into the ROM window: the RAM gate, the
    /// ROM bank, the RAM bank, or the unused clock latch.
    pub open spec fn write_rom(self, address: u16, value: u8) -> Mbc3View {
        if address < 0x2000 {
            Mbc3View { ram_enabled: opens_ram(value), ..self }
        } else if address < 0x4000 {
            Mbc3View { selected_rom: value % 128, ..self }
        } else if address < 0x6000 {
            Mbc3View { selected_ram: value % 16, ..self }
        } else {
            self
        }
    }

    pub open spec fn read_ram(self, address: u16) -> u8 {
        if self.ram_enabled {
            self.banks.ram_byte(self.selected_ram as int, address as int)
        } else {
            0xFF
        }
    }

    pub open spec fn write_ram(self, address: u16, value: u8) -> Mbc3View {
        if self.ram_enabled {
            Mbc3View {
                banks: self.banks.with_ram_byte(self.selected_ram as int, address as int, value),
                ..self
            }
        } else {
            self
        }
    }

    pub open spec fn loaded(
        rom_bytes: Seq<u8>,
        save_bytes: Seq<u8>,
        rom_bank_count: u16,
        ram_bank_count: u8,
        ram_bank_size: u16,
    ) -> Mbc3View {
        Mbc3View {
            banks: BanksView::loaded(
                rom_bytes,
                save_bytes,
                rom_bank_count,
                ram_bank_count,
                ram_bank_size,
            ),
            selected_rom: 1,
            selected_ram: 0,
            ram_enabled: false,
        }
    }
}

impl MBC3 {
    pub fn load_rom(
        bytes: &Vec<u8>,
        save_bytes: &Vec<u8>,
        rom_bank_count: u16,
        ram_bank_count: u8,
        ram_bank_size: u16,
    ) -> (loaded: Result<MBC3, Fault>)
        ensures
            match loaded {
                Ok(mbc) => BanksView::load_fault(
                    bytes@,
                    save_bytes@,
                    rom_bank_count,
                    ram_bank_count,
                    ram_bank_size,
                ) is None && mbc@ == Mbc3View::loaded(
                    bytes@,
                    save_bytes@,
                    rom_bank_count,
                    ram_bank_count,
                    ram_bank_size,
                ) && mbc@.wf(),
                Err(fault) => BanksView::load_fault(
                    bytes@,
                    save_bytes@,
                    rom_bank_count,
                    ram_bank_count,
                    ram_bank_size,
                ) == Some(fault),
            },
    {
        match Banks::load(bytes, save_bytes, rom_bank_count, ram_bank_count, ram_bank_size) {
            Ok(banks) => Ok(MBC3 { banks, selected_rom: 1, selected_ram: 0, ram_enabled: false }),
            Err(fault) => Err(fault),
        }
    }

    pub fn write_rom(&mut self, address: u16, value: u8)
        requires
            old(self)@.wf(),
        ensures
            final(self)@ == old(self)@.write_rom(address, value),
            final(self)@.wf(),
    {
        proof {
            lemma_select_masks(value);
        }
        if address < 0x2000 {
            self.ram_enabled = ram_gate(value);
        } else if address < 0x4000 {
            self.selected_rom = value & 0b01111111;
        } else if address < 0x6000 {
            self.selected_ram = value & 0x0F;
        }
    }

    pub fn write_ram(&mut self, address: u16, value: u8)
        requires
            old(self)@.wf(),
        ensures
            final(self)@ == old(self)@.write_ram(address, value),
            final(self)@.wf(),
    {
        if self.ram_enabled {
            self.banks.write_ram_bank(self.selected_ram, address, value);
        }
    }

    pub fn read_rom(&self, address: u16) -> (byte: u8)
        requires
            self@.wf(),
            address < 0x8000,
        ensures
            byte == self@.read_rom(address),
    {
        if address < 0x4000 {
            self.banks.read_rom_bank(0, address)
        } else {
            self.banks.read_rom_bank(self.selected_rom as u16, address - 0x4000)
        }
    }

    pub fn read_ram(&self, address: u16) -> (byte: u8)
        requires
            self@.wf(),
        ensures
            byte == self@.read_ram(address),
    {
        if self.ram_enabled {
            self.banks.read_ram_bank(self.selected_ram, address)
        } else {
            0xFF
        }
    }
}

/// The fifth controller family: a 9-bit ROM bank number written as a low
/// byte and a high bit, and a 4-bit RAM bank register.
pub struct MBC5 {
    pub banks: Banks,
    pub selected_rom: u16,
    pub selected_ram: u8,
    pub ram_enabled: bool,
}

pub struct Mbc5View {
    pub banks: BanksView,
    pub selected_rom: u16,
    pub selected_ram: u8,
    pub ram_enabled: bool,
}

impl View for MBC5 {
    type V = Mbc5View;

    open spec fn view(&self) -> Mbc5View {
        Mbc5View {
            banks: self.banks@,
            selected_rom: self.selected_rom,
            selected_ram: self.selected_ram,
            ram_enabled: self.ram_enabled,
        }
    }
}

impl Mbc5View {
    pub open spec fn wf(self) -> bool {
        &&& self.banks.wf()
        &&& self.selected_rom < 512
        &&& self.selected_ram < 16
    }

    pub open spec fn read_rom(self, address: u16) -> u8 {
        if address < 0x4000 {
            self.banks.rom_byte(0, address as int)
        } else {
            self.banks.rom_byte(self.selected_rom as int, address - 0x4000)
        }
    }

    /// The controller after a write into the ROM window: the RAM gate, the
    /// low byte of the ROM bank, its ninth bit, or the RAM bank.
    pub open spec fn write_rom(self, address: u16, value: u8) -> Mbc5View {
        if address < 0x2000 {
            Mbc5View { ram_enabled: opens_ram(value), ..self }
        } else if address < 0x3000 {
            Mbc5View { selected_rom: ((self.selected_rom / 256) * 256 + value) as u16, ..self }
        } else if address < 0x4000 {
            Mbc5View {
                selected_rom: ((value % 2) * 256 + self.selected_rom % 256) as u16,
                ..self
            }
        } else if address < 0x6000 {
            Mbc5View { selected_ram: value % 16, ..self }
        } else {
            self
        }
    }

    pub open spec fn read_ram(self, address: u16) -> u8 {
        if self.ram_enabled {
            self.banks.ram_byte(self.selected_ram as int, address as int)
        } else {
            0xFF
        }
    }

    pub open spec fn write_ram(self, address: u16, value: u8) -> Mbc5View {
        if self.ram_enabled {
            Mbc5View {
                banks: self.banks.with_ram_byte(self.selected_ram as int, address as int, value),
                ..self
            }
        } else {
            self
        }
    }

    pub open spec fn load_fault(
        rom_bytes: Seq<u8>,
        save_bytes: Seq<u8>,
        rom_bank_count: u16,
        ram_bank_count: u8,
        ram_bank_size: u16,
    ) -> Option<Fault> {
        if rom_bank_count >= 0x1E0 {
            Some(Fault::BankCount { count: rom_bank_count })
        } else {
            BanksView::load_fault(
                rom_bytes,
                save_bytes,
                rom_bank_count,
                ram_bank_count,
                ram_bank_size,
            )
        }
    }

    pub open spec fn loaded(
        rom_bytes: Seq<u8>,
        save_bytes: Seq<u8>,
        rom_bank_count: u16,
        ram_bank_count: u8,
        ram_bank_size: u16,
    ) -> Mbc5View {
        Mbc5View {
            banks: BanksView::loaded(
                rom_bytes,
                save_bytes,
                rom_bank_count,
                ram_bank_count,
                ram_bank_size,
            ),
            selected_rom: 1,
            selected_ram: 0,
            ram_enabled: false,
        }
    }
}

impl MBC5 {
    pub fn load_rom(
        bytes: &Vec<u8>,
        save_bytes: &Vec<u8>,
        rom_bank_count: u16,
        ram_bank_count: u8,
        ram_bank_size: u16,
    ) -> (loaded: Result<MBC5, Fault>)
        ensures
            match loaded {
                Ok(mbc) => Mbc5View::load_fault(
                    bytes@,
                    save_bytes@,
                    rom_bank_count,
                    ram_bank_count,
                    ram_bank_size,
                ) is None && mbc@ == Mbc5View::loaded(
                    bytes@,
                    save_bytes@,
                    rom_bank_count,
                    ram_bank_count,
                    ram_bank_size,
                ) && mbc@.wf(),
                Err(fault) => Mbc5View::load_fault(
                    bytes@,
                    save_bytes@,
                    rom_bank_count,
                    ram_bank_count,
                    ram_bank_size,
                ) == Some(fault),
            },
    {
        if rom_bank_count >= 0x1E0 {
            return Err(Fault::BankCount { count: rom_bank_count });
        }
        match Banks::load(bytes, save_bytes, rom_bank_count, ram_bank_count, ram_bank_size) {
            Ok(banks) => Ok(MBC5 { banks, selected_rom: 1, selected_ram: 0, ram_enabled: false }),
            Err(fault) => Err(fault),
        }
    }

    pub fn write_rom(&mut self, address: u16, value: u8)
        requires
            old(self)@.wf(),
        ensures
            final(self)@ == old(self)@.write_rom(address, value),
            final(self)@.wf(),
    {
        proof {
            lemma_select_masks(value);
        }
        if address < 0x2000 {
            self.ram_enabled = ram_gate(value);
        } else if address < 0x3000 {
            self.selected_rom = (self.selected_rom / 256) * 256 + value as u16;
        } else if address < 0x4000 {
            self.selected_rom = ((value & 1) as u16) * 256 + self.selected_rom % 256;
        } else if address < 0x6000 {
            self.selected_ram = value & 0x0F;
        }
    }

    pub fn write_ram(&mut self, address: u16, value: u8)
        requires
            old(self)@.wf(),
        ensures
            final(self)@ == old(self)@.write_ram(address, value),
            final(self)@.wf(),
    {
        if self.ram_enabled {
            self.banks.write_ram_bank(self.selected_ram, address, value);
        }
    }

    pub fn read_rom(&self, address: u16) -> (byte: u8)
        requires
            self@.wf(),
            address < 0x8000,
        ensures
            byte == self@.read_rom(address),
    {
        if address < 0x4000 {
            self.banks.read_rom_bank(0, address)
        } else {
            self.banks.read_rom_bank(self.selected_rom, address - 0x4000)
        }
    }

    pub fn read_ram(&self, address: u16) -> (byte: u8)
        requires
            self@.wf(),
        ensures
            byte == self@.read_ram(address),
    {
        if self.ram_enabled {
            self.banks.read_ram_bank(self.selected_ram, address)
        } else {
            0xFF
        }
    }
}

/// The number of 16 KiB ROM banks that a header's size code stands for:
/// two for code 0, doubling with each step up to code 8.
pub open spec fn rom_banks_of(code: u8) -> u16 {
    if code == 0 {
        2
    } else if code == 1 {
        4
    } else if code == 2 {
        8
    } else if code == 3 {
        16
    } else if code == 4 {
        32
    } else if code == 5 {
        64
    } else if code == 6 {
        128
    } else if code == 7 {
        256
    } else {
        512
    }
}

/// The number and the size of the RAM banks that a header's size code
/// stands for.
pub open spec fn ram_geometry_of(code: u8) -> (u8, u16) {
    if code == 0 {
        (0, 0)
    } else if code == 1 {
        (1, 0x800)
    } else if code == 2 {
        (1, 0x2000)
    } else if code == 3 {
        (4, 0x2000)
    } else if code == 4 {
        (16, 0x2000)
    } else {
        (8, 0x2000)
    }
}

proof fn lemma_bank_shift(code: u8)
    by (bit_vector)
    requires
        code <= 8,
    ensures
        2u16 << code == (if code == 0 {
            2u16
        } else if code == 1 {
            4u16
        } else if code == 2 {
            8u16
        } else if code == 3 {
            16u16
        } else if code == 4 {
            32u16
        } else if code == 5 {
            64u16
        } else if code == 6 {
            128u16
        } else if code == 7 {
            256u16
        } else {
            512u16
        }),
{
}

/// A cartridge behind one of the four bank-switching strategies.
pub enum MemoryBank {
    Plain(NoMBC),
    Mbc1(MBC1),
    Mbc3(MBC3),
    Mbc5(MBC5),
}

pub enum MemoryBankView {
    Plain(NoMbcView),
    Mbc1(Mbc1View),
    Mbc3(Mbc3View),
    Mbc5(Mbc5View),
}

impl View for MemoryBank {
    type V = MemoryBankView;

    open spec fn view(&self) -> MemoryBankView {
        match self {
            MemoryBank::Plain(mbc) => MemoryBankView::Plain(mbc@),
            MemoryBank::Mbc1(mbc) => MemoryBankView::Mbc1(mbc@),
            MemoryBank::Mbc3(mbc) => MemoryBankView::Mbc3(mbc@),
            MemoryBank::Mbc5(mbc) => MemoryBankView::Mbc5(mbc@),
        }
    }
}

impl MemoryBankView {
    pub open spec fn wf(self) -> bool {
        match self {
            MemoryBankView::Plain(mbc) => mbc.wf(),
            MemoryBankView::Mbc1(mbc) => mbc.wf(),
            MemoryBankView::Mbc3(mbc) => mbc.wf(),
            MemoryBankView::Mbc5(mbc) => mbc.wf(),
        }
    }

    /// The byte at `address` of the ROM window, for `address` below 0x8000.
    pub open spec fn read_rom(self, address: u16) -> u8 {
        match self {
            MemoryBankView::Plain(mbc) => mbc.read_rom(address),
            MemoryBankView::Mbc1(mbc) => mbc.read_rom(address),
            MemoryBankView::Mbc3(mbc) => mbc.read_rom(address),
            MemoryBankView::Mbc5(mbc) => mbc.read_rom(address),
        }
    }

    /// The cartridge after a write of `value` into the ROM window.
    pub open spec fn write_rom(self, address: u16, value: u8) -> MemoryBankView {
        match self {
            MemoryBankView::Plain(mbc) => self,
            MemoryBankView::Mbc1(mbc) => MemoryBankView::Mbc1(mbc.write_rom(address, value)),
            MemoryBankView::Mbc3(mbc) => MemoryBankView::Mbc3(mbc.write_rom(address, value)),
            MemoryBankView::Mbc5(mbc) => MemoryBankView::Mbc5(mbc.write_rom(address, value)),
        }
    }

    /// The byte at `address` of the external RAM window, for `address`
    /// below 0x2000.
    pub open spec fn read_ram(self, address: u16) -> u8 {
        match self {
            MemoryBankView::Plain(mbc) => mbc.read_ram(address),
            MemoryBankView::Mbc1(mbc) => mbc.read_ram(address),
            MemoryBankView::Mbc3(mbc) => mbc.read_ram(address),
            MemoryBankView::Mbc5(mbc) => mbc.read_ram(address),
        }
    }

    /// The cartridge after a write of `value` into the external RAM window.
    pub open spec fn write_ram(self, address: u16, value: u8) -> MemoryBankView {
        match self {
            MemoryBankView::Plain(mbc) => MemoryBankView::Plain(mbc.write_ram(address, value)),
            MemoryBankView::Mbc1(mbc) => MemoryBankView::Mbc1(mbc.write_ram(address, value)),
            MemoryBankView::Mbc3(mbc) => MemoryBankView::Mbc3(mbc.write_ram(address, value)),
            MemoryBankView::Mbc5(mbc) => MemoryBankView::Mbc5(mbc.write_ram(address, value)),
        }
    }

    /// The fifteen bytes of the title field of the header, as the ROM
    /// window shows them.
    pub open spec fn title(self) -> Seq<u8> {
        Seq::new(TITLE_LENGTH as nat, |i: int| self.read_rom((TITLE_ADDRESS + i) as u16))
    }

    /// The fault, if any, that keeps an image with its save from being
    /// loaded. The checks come in this order: the header is there; the ROM
    /// size code; the RAM size code; the controller type; the bank count
    /// against the controller; the lengths of image and save.
    pub open spec fn new_fault(rom_bytes: Seq<u8>, save_bytes: Seq<u8>) -> Option<Fault> {
        if rom_bytes.len() <= RAM_SIZE_ADDRESS {
            Some(Fault::TruncatedImage)
        } else {
            let kind = rom_bytes[MEMORY_BANK_TYPE_ADDRESS as int];
            let rom_size = rom_bytes[ROM_SIZE_ADDRESS as int];
            let ram_size = rom_bytes[RAM_SIZE_ADDRESS as int];
            let banks = rom_banks_of(rom_size);
            let ram = ram_geometry_of(ram_size);
            if rom_size > 8 {
                Some(Fault::UnsupportedRomSize { code: rom_size })
            } else if ram_size > 5 {
                Some(Fault::UnsupportedRamSize { code: ram_size })
            } else if kind == 0 {
                if rom_bytes.len() > 0x8000 {
                    Some(Fault::OversizedImage)
                } else {
                    None
                }
            } else if 1 <= kind <= 3 {
                Mbc1View::load_fault(rom_bytes, save_bytes, banks, ram.0, ram.1)
            } else if 0x0F <= kind <= 0x13 {
                BanksView::load_fault(rom_bytes, save_bytes, banks, ram.0, ram.1)
            } else if 0x19 <= kind <= 0x1E {
                Mbc5View::load_fault(rom_bytes, save_bytes, banks, ram.0, ram.1)
            } else {
                Some(Fault::UnsupportedCartridge { kind })
            }
        }
    }

    /// The cartridge that an image with its save is loaded as, where
    /// nothing keeps it from being loaded: the controller that the type
    /// byte names, with the bank counts that the size codes give.
    pub open spec fn created(rom_bytes: Seq<u8>, save_bytes: Seq<u8>) -> MemoryBankView {
        let kind = rom_bytes[MEMORY_BANK_TYPE_ADDRESS as int];
        let banks = rom_banks_of(rom_bytes[ROM_SIZE_ADDRESS as int]);
        let ram = ram_geometry_of(rom_bytes[RAM_SIZE_ADDRESS as int]);
        if kind == 0 {
            MemoryBankView::Plain(
                NoMbcView { banks: BanksView::loaded(rom_bytes, Seq::empty(), 2, 1, 0x2000) },
            )
        } else if kind <= 3 {
            MemoryBankView::Mbc1(Mbc1View::loaded(rom_bytes, save_bytes, banks, ram.0, ram.1))
        } else if kind <= 0x13 {
            MemoryBankView::Mbc3(Mbc3View::loaded(rom_bytes, save_bytes, banks, ram.0, ram.1))
        } else {
            MemoryBankView::Mbc5(Mbc5View::loaded(rom_bytes, save_bytes, banks, ram.0, ram.1))
        }
    }
}

impl MemoryBank {
    /// Builds the controller that the header of `rom_bytes` asks for and
    /// loads image and save into its banks.
    pub fn new(rom_bytes: Vec<u8>, save_bytes: Vec<u8>) -> (made: Result<MemoryBank, Fault>)
        ensures
            match made {
                Ok(bank) => MemoryBankView::new_fault(rom_bytes@, save_bytes@) is None && bank@
                    == MemoryBankView::created(rom_bytes@, save_bytes@) && bank@.wf(),
                Err(fault) => MemoryBankView::new_fault(rom_bytes@, save_bytes@) == Some(fault),
            },
    {
        if rom_bytes.len() <= RAM_SIZE_ADDRESS {
            return Err(Fault::TruncatedImage);
        }
        let mbc_type: u8 = rom_bytes[MEMORY_BANK_TYPE_ADDRESS];
        let rom_size: u8 = rom_bytes[ROM_SIZE_ADDRESS];
        if rom_size > 8 {
            return Err(Fault::UnsupportedRomSize { code: rom_size });
        }
        proof {
            lemma_bank_shift(rom_size);
        }
        let rom_bank_count: u16 = 2u16 << rom_size;
        let ram_size: u8 = rom_bytes[RAM_SIZE_ADDRESS];
        let (ram_bank_count, ram_bank_size): (u8, u16) = if ram_size == 0 {
            (0, 0)
        } else if ram_size == 1 {
            (1, 0x800)
        } else if ram_size == 2 {
            (1, 0x2000)
        } else if ram_size == 3 {
            (4, 0x2000)
        } else if ram_size == 4 {
            (16, 0x2000)
        } else if ram_size == 5 {
            (8, 0x2000)
        } else {
            return Err(Fault::UnsupportedRamSize { code: ram_size });
        };
        if mbc_type == 0 {
            match NoMBC::load_rom(&rom_bytes) {
                Ok(mbc) => Ok(MemoryBank::Plain(mbc)),
                Err(fault) => Err(fault),
            }
        } else if mbc_type <= 3 {
            match MBC1::load_rom(
                &rom_bytes,
                &save_bytes,
                rom_bank_count,
                ram_bank_count,
                ram_bank_size,
            ) {
                Ok(mbc) => Ok(MemoryBank::Mbc1(mbc)),
                Err(fault) => Err(fault),
            }
        } else if 0x0F <= mbc_type && mbc_type <= 0x13 {
            match MBC3::load_rom(
                &rom_bytes,
                &save_bytes,
                rom_bank_count,
                ram_bank_count,
                ram_bank_size,
            ) {
                Ok(mbc) => Ok(MemoryBank::Mbc3(mbc)),
                Err(fault) => Err(fault),
            }
        } else if 0x19 <= mbc_type && mbc_type <= 0x1E {
            match MBC5::load_rom(
                &rom_bytes,
                &save_bytes,
                rom_bank_count,
                ram_bank_count,
                ram_bank_size,
            ) {
                Ok(mbc) => Ok(MemoryBank::Mbc5(mbc)),
                Err(fault) => Err(fault),
            }
        } else {
            Err(Fault::UnsupportedCartridge { kind: mbc_type })
        }
    }

    pub fn write_rom(&mut self, address: u16, value: u8)
        requires
            old(self)@.wf(),
        ensures
            final(self)@ == old(self)@.write_rom(address, value),
            final(self)@.wf(),
    {
        match self {
            MemoryBank::Plain(mbc) => mbc.write_rom(address, value),
            MemoryBank::Mbc1(mbc) => mbc.write_rom(address, value),
            MemoryBank::Mbc3(mbc) => mbc.write_rom(address, value),
            MemoryBank::Mbc5(mbc) => mbc.write_rom(address, value),
        }
    }

    pub fn write_ram(&mut self, address: u16, value: u8)
        requires
            old(self)@.wf(),
            address < 0x2000,
        ensures
            final(self)@ == old(self)@.write_ram(address, value),
            final(self)@.wf(),
    {
        match self {
            MemoryBank::Plain(mbc) => mbc.write_ram(address, value),
            MemoryBank::Mbc1(mbc) => mbc.write_ram(address, value),
            MemoryBank::Mbc3(mbc) => mbc.write_ram(address, value),
            MemoryBank::Mbc5(mbc) => mbc.write_ram(address, value),
        }
    }

    pub fn read_rom(&self, address: u16) -> (byte: u8)
        requires
            self@.wf(),
            address < 0x8000,
        ensures
            byte == self@.read_rom(address),
    {
        match self {
            MemoryBank::Plain(mbc) => mbc.read_rom(address),
            MemoryBank::Mbc1(mbc) => mbc.read_rom(address),
            MemoryBank::Mbc3(mbc) => mbc.read_rom(address),
            MemoryBank::Mbc5(mbc) => mbc.read_rom(address),
        }
    }

    pub fn read_ram(&self, address: u16) -> (byte: u8)
        requires
            self@.wf(),
            address < 0x2000,
        ensures
            byte == self@.read_ram(address),
    {
        match self {
            MemoryBank::Plain(mbc) => mbc.read_ram(address),
            MemoryBank::Mbc1(mbc) => mbc.read_ram(address),
            MemoryBank::Mbc3(mbc) => mbc.read_ram(address),
            MemoryBank::Mbc5(mbc) => mbc.read_ram(address),
        }
    }

    /// The title field of the header, for the host to show.
    pub fn title(&self) -> (bytes: Vec<u8>)
        requires
            self@.wf(),
        ensures
            bytes@ == self@.title(),
    {
        let mut bytes: Vec<u8> = Vec::new();
        let mut i: u16 = 0;
        while i < TITLE_LENGTH
            invariant
                self@.wf(),
                i <= TITLE_LENGTH,
                bytes@.len() == i,
                forall|k: int|
                    0 <= k < i ==> bytes@[k] == self@.read_rom((TITLE_ADDRESS + k) as u16),
            decreases TITLE_LENGTH - i,
        {
            bytes.push(self.read_rom(TITLE_ADDRESS + i));
            i = i + 1;
        }
        assert(bytes@ =~= self@.title());
        bytes
    }
}

/// In the first family, a write of 0 to the bank register selects the same
/// bank as a write of 1.
pub proof fn lemma_mbc1_zero_selects_one(mbc: Mbc1View, address: u16)
    requires
        0x2000 <= address < 0x4000,
    ensures
        mbc.write_rom(address, 0) == mbc.write_rom(address, 1),
        mbc.write_rom(address, 0).selected_rom == 1,
{
}

/// Whatever is written to a controller's registers, the bank that the
/// switchable ROM window shows lies inside the banks that were allocated.
pub proof fn lemma_rom_index_in_bounds(banks: BanksView, bank: int, offset: int)
    requires
        banks.wf(),
        bank >= 0,
        0 <= offset < 0x4000,
    ensures
        0 <= banks.rom_index(bank, offset) < banks.rom.len(),
{
}

/// A header that reports 64 banks has 63 allocated in the first family,
/// and one that reports 128 has 125.
pub proof fn lemma_mbc1_bank_quirk(rom_bytes: Seq<u8>, save_bytes: Seq<u8>, ram_banks: u8, ram_size: u16)
    ensures
        Mbc1View::loaded(rom_bytes, save_bytes, 64, ram_banks, ram_size).banks.rom_bank_count == 63,
        Mbc1View::loaded(rom_bytes, save_bytes, 128, ram_banks, ram_size).banks.rom_bank_count
            == 125,
{
}

/// Whether the header of an image asks for a colour machine: bit 7 of the
/// flag byte is set, as it is in the values 0x80 and 0xC0. An image too
/// short to hold the byte does not ask for one.
pub open spec fn asks_for_color(rom_bytes: Seq<u8>) -> bool {
    rom_bytes.len() > COLOR_FLAG_ADDRESS && rom_bytes[COLOR_FLAG_ADDRESS as int] >= 128
}

pub fn color_mode_of(rom_bytes: &Vec<u8>) -> (color: bool)
    ensures
        color == asks_for_color(rom_bytes@),
{
    rom_bytes.len() > COLOR_FLAG_ADDRESS && rom_bytes[COLOR_FLAG_ADDRESS] >= 0x80
}

} // verus!
