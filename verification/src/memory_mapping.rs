//! The memory map: one flat 16-bit address space over ROM, video RAM,
//! external RAM, banked work RAM and high RAM.

use vstd::prelude::*;

use crate::error::CoreError;
use crate::graphics::Graphics;

verus! {

/// The size of the ROM region in bytes.
pub const ROM_SIZE: usize = 0x8000;

/// The address of the register that selects the work RAM bank.
pub const WRAM_BANK_SELECT: u16 = 0xFF70;

#[derive(Debug)]
pub struct Rom {
    rom: [u8; 0x8000],
}

impl Rom {
    /// The contents of the ROM.
    pub closed spec fn view(&self) -> Seq<u8> {
        self.rom@
    }

    /// What a ROM holds after `bytes` have been loaded: the bytes from its
    /// start on, as far as they fit, and zero after them.
    pub open spec fn image(bytes: Seq<u8>) -> Seq<u8> {
        Seq::new(
            ROM_SIZE as nat,
            |i: int|
                if i < bytes.len() {
                    bytes[i]
                } else {
                    0u8
                },
        )
    }

    /// A ROM that holds `bytes` from its start on, and zero after them.
    pub fn new(bytes: &[u8]) -> (rom: Rom)
        ensures
            rom@ == Self::image(bytes@),
    {
        let mut rom: [u8; 0x8000] = [0; 0x8000];
        let mut i: usize = 0;
        while i < bytes.len() && i < 0x8000
            invariant
                i <= 0x8000,
                i <= bytes.len(),
                forall|j: int| 0 <= j < i ==> rom@[j] == bytes@[j],
                forall|j: int| i <= j < 0x8000 ==> rom@[j] == 0,
            decreases 0x8000 - i,
        {
            rom[i] = bytes[i];
            i += 1;
        }
        assert(rom@ =~= Self::image(bytes@));
        Rom { rom }
    }

    /// A ROM has 0x8000 bytes.
    pub proof fn lemma_len(&self)
        ensures
            self@.len() == ROM_SIZE,
    {
    }

    /// The byte at `index`.
    pub fn get(&self, index: u16) -> (byte: u8)
        requires
            index < ROM_SIZE,
        ensures
            self@.len() == ROM_SIZE,
            byte == self@[index as int],
    {
        self.rom[index as usize]
    }
}

/// The contents of the whole memory map.
pub struct MemoryView {
    pub rom: Seq<u8>,
    pub vram: Seq<u8>,
    pub external_ram: Seq<u8>,
    /// The eight banks of work RAM, one after the other.
    pub work_ram: Seq<u8>,
    /// The value of the bank-select register, as it was written.
    pub wram_bank: u8,
    pub high_ram: Seq<u8>,
    /// The LCD control register, which no address of the map reaches.
    pub lcd_control: u8,
}

/// The bank that is visible at 0xD000: the low three bits of the
/// bank-select register, and bank 1 where they are zero.
pub open spec fn active_bank(select: u8) -> int {
    if select & 0x07 == 0 {
        1
    } else {
        (select & 0x07) as int
    }
}

impl MemoryView {
    /// Every region has its size.
    pub open spec fn wf(self) -> bool {
        &&& self.rom.len() == 0x8000
        &&& self.vram.len() == 0x2000
        &&& self.external_ram.len() == 0x2000
        &&& self.work_ram.len() == 0x8000
        &&& self.high_ram.len() == 0x7F
    }

    /// Where in work RAM the address `addr` of the region at 0xC000 lies:
    /// the lower half is bank 0, the upper half the selected bank.
    pub open spec fn work_ram_index(self, addr: u16) -> int {
        if addr < 0xD000 {
            addr - 0xC000
        } else {
            active_bank(self.wram_bank) * 0x1000 + (addr - 0xD000)
        }
    }

    /// What a read of `addr` yields.
    pub open spec fn read(self, addr: u16) -> Result<u8, CoreError> {
        if addr <= 0x7FFF {
            Ok(self.rom[addr as int])
        } else if addr <= 0x9FFF {
            Ok(self.vram[addr - 0x8000])
        } else if addr <= 0xBFFF {
            Ok(self.external_ram[addr - 0xA000])
        } else if addr <= 0xDFFF {
            Ok(self.work_ram[self.work_ram_index(addr)])
        } else if addr == WRAM_BANK_SELECT {
            Ok(self.wram_bank)
        } else if 0xFF80 <= addr <= 0xFFFE {
            Ok(self.high_ram[addr - 0xFF80])
        } else {
            Err(CoreError::UnmappedAddress(addr))
        }
    }

    /// The memory after a write of `val` to `addr`, or why the write fails.
    pub open spec fn write(self, addr: u16, val: u8) -> Result<MemoryView, CoreError> {
        if addr <= 0x7FFF {
            Err(CoreError::ReadOnlyViolation(addr))
        } else if addr <= 0x9FFF {
            Ok(MemoryView { vram: self.vram.update(addr - 0x8000, val), ..self })
        } else if addr <= 0xBFFF {
            Ok(MemoryView { external_ram: self.external_ram.update(addr - 0xA000, val), ..self })
        } else if addr <= 0xDFFF {
            Ok(MemoryView { work_ram: self.work_ram.update(self.work_ram_index(addr), val), ..self })
        } else if addr == WRAM_BANK_SELECT {
            Ok(MemoryView { wram_bank: val, ..self })
        } else if 0xFF80 <= addr <= 0xFFFE {
            Ok(MemoryView { high_ram: self.high_ram.update(addr - 0xFF80, val), ..self })
        } else {
            Err(CoreError::UnmappedAddress(addr))
        }
    }

    /// What a write of `val` to `addr` reports.
    pub open spec fn write_result(self, addr: u16, val: u8) -> Result<(), CoreError> {
        match self.write(addr, val) {
            Ok(_) => Ok(()),
            Err(e) => Err(e),
        }
    }

    /// The memory after the attempt to write `val` to `addr`: a write that
    /// fails changes nothing.
    pub open spec fn after_write(self, addr: u16, val: u8) -> MemoryView {
        match self.write(addr, val) {
            Ok(m) => m,
            Err(_) => self,
        }
    }
}

#[derive(Debug)]
pub struct MemoryMapping {
    rom: Rom,
    graphics: Graphics,
    external_ram: [u8; 0x2000],
    work_ram: [u8; 0x8000],
    wram_bank: u8,
    stack: [u8; 0x7F],
}

impl MemoryMapping {
    /// The contents of the memory map.
    pub closed spec fn view(&self) -> MemoryView {
        MemoryView {
            rom: self.rom@,
            vram: self.graphics.vram@,
            external_ram: self.external_ram@,
            work_ram: self.work_ram@,
            wram_bank: self.wram_bank,
            high_ram: self.stack@,
            lcd_control: self.graphics.lcd_control,
        }
    }

    /// Memory with every byte zero.
    pub fn new() -> (memory: MemoryMapping)
        ensures
            memory@.wf(),
            memory@.wram_bank == 0,
            memory@.lcd_control == 0,
            forall|i: int| 0 <= i < 0x8000 ==> memory@.rom[i] == 0,
            forall|i: int| 0 <= i < 0x2000 ==> memory@.vram[i] == 0,
            forall|i: int| 0 <= i < 0x2000 ==> memory@.external_ram[i] == 0,
            forall|i: int| 0 <= i < 0x8000 ==> memory@.work_ram[i] == 0,
            forall|i: int| 0 <= i < 0x7F ==> memory@.high_ram[i] == 0,
    {
        let empty: [u8; 0] = [];
        MemoryMapping {
            rom: Rom::new(empty.as_slice()),
            graphics: Graphics::new(),
            external_ram: [0; 0x2000],
            work_ram: [0; 0x8000],
            wram_bank: 0,
            stack: [0; 0x7F],
        }
    }

    /// Every region of a memory map has its size.
    pub proof fn lemma_view_wf(&self)
        ensures
            self@.wf(),
    {
        assert(self.rom@.len() == 0x8000) by {
            self.rom.lemma_len();
        }
    }

    /// Puts `bytes` into ROM from address 0 on: the only way to write there.
    /// What does not fit into the region is left out, and what `bytes` does
    /// not reach is zero.
    pub fn load_rom(&mut self, bytes: &[u8])
        ensures
            final(self)@ == (MemoryView { rom: Rom::image(bytes@), ..old(self)@ }),
            final(self)@.wf(),
    {
        self.rom = Rom::new(bytes);
        proof {
            self.lemma_view_wf();
        }
    }

    /// The video memory, for the layers that present it.
    pub fn graphics(&self) -> (graphics: &Graphics)
        ensures
            graphics.vram@ == self@.vram,
            graphics.lcd_control == self@.lcd_control,
    {
        &self.graphics
    }

    /// The byte at `addr`, or `UnmappedAddress` where no region covers it.
    pub fn get(&self, addr: u16) -> (result: Result<u8, CoreError>)
        ensures
            result == self@.read(addr),
    {
        if addr <= 0x7FFF {
            Ok(self.rom.get(addr))
        } else if addr <= 0x9FFF {
            Ok(self.graphics.get(addr - 0x8000))
        } else if addr <= 0xBFFF {
            Ok(self.external_ram[(addr - 0xA000) as usize])
        } else if addr <= 0xDFFF {
            let index: usize = self.work_ram_index(addr);
            Ok(self.work_ram[index])
        } else if addr == WRAM_BANK_SELECT {
            Ok(self.wram_bank)
        } else if 0xFF80 <= addr && addr <= 0xFFFE {
            Ok(self.stack[(addr - 0xFF80) as usize])
        } else {
            Err(CoreError::UnmappedAddress(addr))
        }
    }

    /// Stores `val` at `addr`.  A write to ROM fails with
    /// `ReadOnlyViolation`, one to an address that no region covers with
    /// `UnmappedAddress`; neither changes the memory.
    pub fn set(&mut self, addr: u16, val: u8) -> (result: Result<(), CoreError>)
        ensures
            result == old(self)@.write_result(addr, val),
            final(self)@ == old(self)@.after_write(addr, val),
            addr <= 0x7FFF ==> result == Err::<(), CoreError>(CoreError::ReadOnlyViolation(addr))
                && final(self)@ == old(self)@,
            final(self)@.wf(),
    {
        proof {
            self.lemma_view_wf();
            lemma_write_keeps_wf(self@, addr, val);
        }
        if addr <= 0x7FFF {
            Err(CoreError::ReadOnlyViolation(addr))
        } else if addr <= 0x9FFF {
            self.graphics.set(addr - 0x8000, val);
            Ok(())
        } else if addr <= 0xBFFF {
            self.external_ram[(addr - 0xA000) as usize] = val;
            Ok(())
        } else if addr <= 0xDFFF {
            let index: usize = self.work_ram_index(addr);
            self.work_ram[index] = val;
            Ok(())
        } else if addr == WRAM_BANK_SELECT {
            self.wram_bank = val;
            Ok(())
        } else if 0xFF80 <= addr && addr <= 0xFFFE {
            self.stack[(addr - 0xFF80) as usize] = val;
            Ok(())
        } else {
            Err(CoreError::UnmappedAddress(addr))
        }
    }

    /// Where in work RAM the address `addr` lies.
    fn work_ram_index(&self, addr: u16) -> (index: usize)
        requires
            0xC000 <= addr <= 0xDFFF,
        ensures
            index == self@.work_ram_index(addr),
            index < 0x8000,
    {
        if addr < 0xD000 {
            (addr - 0xC000) as usize
        } else {
            let select: u8 = self.wram_bank;
            let selected: u8 = select & 0x07;
            assert(selected <= 7) by (bit_vector)
                requires
                    selected == select & 0x07,
            ;
            let bank: usize = if selected == 0 {
                1
            } else {
                selected as usize
            };
            bank * 0x1000 + (addr - 0xD000) as usize
        }
    }
}

/// The selected bank is one of the banks 1 to 7.
pub proof fn lemma_active_bank(select: u8)
    ensures
        1 <= active_bank(select) <= 7,
{
    assert(select & 0x07 <= 7) by (bit_vector);
}

/// A write to ROM always fails with `ReadOnlyViolation` and changes nothing.
pub proof fn lemma_rom_is_read_only(m: MemoryView, addr: u16, val: u8)
    requires
        addr <= 0x7FFF,
    ensures
        m.write(addr, val) == Err::<MemoryView, CoreError>(CoreError::ReadOnlyViolation(addr)),
        m.write_result(addr, val) == Err::<(), CoreError>(CoreError::ReadOnlyViolation(addr)),
        m.after_write(addr, val) == m,
{
}

/// A write fails exactly where a read fails or the address lies in ROM.
pub proof fn lemma_write_fails(m: MemoryView, addr: u16, val: u8)
    ensures
        m.write(addr, val) is Err <==> (addr <= 0x7FFF || m.read(addr) is Err),
        m.read(addr) is Err ==> m.read(addr) == Err::<u8, CoreError>(
            CoreError::UnmappedAddress(addr),
        ) && m.write_result(addr, val) == Err::<(), CoreError>(CoreError::UnmappedAddress(addr)),
{
}

/// A write keeps every region at its size.
pub proof fn lemma_write_keeps_wf(m: MemoryView, addr: u16, val: u8)
    requires
        m.wf(),
    ensures
        m.after_write(addr, val).wf(),
{
    lemma_active_bank(m.wram_bank);
}

/// A byte that was written is the byte that is read at that address.
pub proof fn lemma_read_after_write(m: MemoryView, addr: u16, val: u8)
    requires
        m.wf(),
        m.write(addr, val) is Ok,
    ensures
        m.after_write(addr, val).read(addr) == Ok::<u8, CoreError>(val),
{
    lemma_active_bank(m.wram_bank);
}

/// A write changes what is read at no other address, unless it is a write
/// to the bank-select register, which changes the upper half of work RAM.
pub proof fn lemma_write_keeps_others(m: MemoryView, addr: u16, val: u8, other: u16)
    requires
        m.wf(),
        other != addr,
        addr != WRAM_BANK_SELECT || !(0xD000 <= other <= 0xDFFF),
    ensures
        m.after_write(addr, val).read(other) == m.read(other),
{
    lemma_active_bank(m.wram_bank);
}

/// Bank switching: a byte written to the upper half of work RAM while one
/// bank is selected is not seen while another bank is selected, and is read
/// again once the first bank is selected again.
pub proof fn lemma_banks_are_apart(m: MemoryView, first: u8, second: u8, addr: u16, val: u8)
    requires
        m.wf(),
        0xD000 <= addr <= 0xDFFF,
        active_bank(first) != active_bank(second),
    ensures
        ({
            let written = m.after_write(WRAM_BANK_SELECT, first).after_write(addr, val);
            &&& written.read(addr) == Ok::<u8, CoreError>(val)
            &&& written.after_write(WRAM_BANK_SELECT, second).read(addr) == m.after_write(
                WRAM_BANK_SELECT,
                second,
            ).read(addr)
            &&& written.after_write(WRAM_BANK_SELECT, second).after_write(
                WRAM_BANK_SELECT,
                first,
            ).read(addr) == Ok::<u8, CoreError>(val)
        }),
{
    lemma_active_bank(first);
    lemma_active_bank(second);
}

} // verus!
