use vstd::prelude::*;

verus! {

/// The sixteen-bit address space of the CPU, split into its regions.
pub struct MemoryBus {
    /// Cartridge ROM, mapped at 0x0000..=0x7FFF; read only.
    pub rom: Vec<u8>,
    /// Video RAM, 0x8000..=0x9FFF.
    pub vram: [u8; 0x2000],
    /// External (cartridge) RAM, 0xA000..=0xBFFF.
    pub eram: [u8; 0x2000],
    /// Work RAM, 0xC000..=0xDFFF, mirrored at 0xE000..=0xFDFF.
    pub wram: [u8; 0x2000],
    /// Object attribute memory, 0xFE00..=0xFE9F.
    pub oam: [u8; 0xA0],
    /// I/O registers, 0xFF00..=0xFF7F.
    pub io: [u8; 0x80],
    /// High RAM, 0xFF80..=0xFFFE.
    pub hram: [u8; 0x7F],
    /// The interrupt enable register at 0xFFFF.
    pub interrupt_enable: u8,
}

/// The contents of a memory bus as mathematical sequences.
#[verifier::ext_equal]
pub struct BusView {
    pub rom: Seq<u8>,
    pub vram: Seq<u8>,
    pub eram: Seq<u8>,
    pub wram: Seq<u8>,
    pub oam: Seq<u8>,
    pub io: Seq<u8>,
    pub hram: Seq<u8>,
    pub interrupt_enable: u8,
}

impl View for MemoryBus {
    type V = BusView;

    open spec fn view(&self) -> BusView {
        BusView {
            rom: self.rom@,
            vram: self.vram@,
            eram: self.eram@,
            wram: self.wram@,
            oam: self.oam@,
            io: self.io@,
            hram: self.hram@,
            interrupt_enable: self.interrupt_enable,
        }
    }
}

impl BusView {
    /// The region sizes that a bus always has.
    pub open spec fn wf(self) -> bool {
        &&& self.vram.len() == 0x2000
        &&& self.eram.len() == 0x2000
        &&& self.wram.len() == 0x2000
        &&& self.oam.len() == 0xA0
        &&& self.io.len() == 0x80
        &&& self.hram.len() == 0x7F
    }

    /// An address can be read without running past the end of the ROM.
    pub open spec fn readable(self, addr: u16) -> bool {
        addr >= 0x8000 || addr < self.rom.len()
    }

    /// An address whose byte a write changes: everything but the ROM and the
    /// unusable area 0xFEA0..=0xFEFF.
    pub open spec fn writable(addr: u16) -> bool {
        addr >= 0x8000 && !(0xFEA0 <= addr <= 0xFEFF)
    }

    /// The storage cell behind an address: echo RAM shares the cells of work RAM.
    pub open spec fn cell(addr: u16) -> int {
        if 0xE000 <= addr <= 0xFDFF {
            addr - 0x2000
        } else {
            addr as int
        }
    }

    /// The byte that a read of `addr` returns.
    #[verifier::opaque]
    pub open spec fn read(self, addr: u16) -> u8 {
        if addr <= 0x7FFF {
            self.rom[addr as int]
        } else if addr <= 0x9FFF {
            self.vram[addr - 0x8000]
        } else if addr <= 0xBFFF {
            self.eram[addr - 0xA000]
        } else if addr <= 0xDFFF {
            self.wram[addr - 0xC000]
        } else if addr <= 0xFDFF {
            self.wram[addr - 0xE000]
        } else if addr <= 0xFE9F {
            self.oam[addr - 0xFE00]
        } else if addr <= 0xFEFF {
            0xFF
        } else if addr <= 0xFF7F {
            self.io[addr - 0xFF00]
        } else if addr <= 0xFFFE {
            self.hram[addr - 0xFF80]
        } else {
            self.interrupt_enable
        }
    }

    /// The bus after a write of `value` to `addr`.
    #[verifier::opaque]
    pub open spec fn write(self, addr: u16, value: u8) -> BusView {
        if addr <= 0x7FFF {
            self
        } else if addr <= 0x9FFF {
            BusView { vram: self.vram.update(addr - 0x8000, value), ..self }
        } else if addr <= 0xBFFF {
            BusView { eram: self.eram.update(addr - 0xA000, value), ..self }
        } else if addr <= 0xDFFF {
            BusView { wram: self.wram.update(addr - 0xC000, value), ..self }
        } else if addr <= 0xFDFF {
            BusView { wram: self.wram.update(addr - 0xE000, value), ..self }
        } else if addr <= 0xFE9F {
            BusView { oam: self.oam.update(addr - 0xFE00, value), ..self }
        } else if addr <= 0xFEFF {
            self
        } else if addr <= 0xFF7F {
            BusView { io: self.io.update(addr - 0xFF00, value), ..self }
        } else if addr <= 0xFFFE {
            BusView { hram: self.hram.update(addr - 0xFF80, value), ..self }
        } else {
            BusView { interrupt_enable: value, ..self }
        }
    }
}

/// What a read gives back of a write: a writable address reads back the byte
/// written, a read-only one is left alone, and every address backed by another
/// storage cell reads as before. The ROM, and so what can be read, never changes.
pub proof fn lemma_read_after_write(m: BusView, addr: u16, value: u8, other: u16)
    requires
        m.wf(),
    ensures
        m.write(addr, value).wf(),
        m.write(addr, value).rom == m.rom,
        BusView::writable(addr) ==> m.write(addr, value).read(addr) == value,
        !BusView::writable(addr) ==> m.write(addr, value) == m,
        BusView::cell(other) != BusView::cell(addr) ==> m.write(addr, value).read(other) == m.read(
            other,
        ),
        BusView::cell(other) == BusView::cell(addr) && BusView::writable(addr) ==> m.write(
            addr,
            value,
        ).read(other) == value,
{
    reveal(BusView::read);
    reveal(BusView::write);
}

/// A write leaves the ROM, and so what can be read, as it was, and keeps
/// the region sizes.
pub broadcast proof fn lemma_write_keeps_rom(m: BusView, addr: u16, value: u8)
    ensures
        #![trigger m.write(addr, value)]
        m.write(addr, value).rom == m.rom,
        m.wf() ==> m.write(addr, value).wf(),
{
    reveal(BusView::write);
}

impl MemoryBus {
    /// A bus with a blank 32 KiB ROM and all RAM cleared.
    pub fn new() -> (r: Self)
        ensures
            r@.wf(),
            r@.rom == Seq::new(0x8000, |i: int| 0u8),
            forall|a: u16| #[trigger]
                r@.read(a) == if 0xFEA0 <= a <= 0xFEFF {
                    0xFFu8
                } else {
                    0u8
                },
    {
        reveal(BusView::read);
        let r = MemoryBus {
            rom: vec![0; 0x8000],
            vram: [0; 0x2000],
            eram: [0; 0x2000],
            wram: [0; 0x2000],
            oam: [0; 0xA0],
            io: [0; 0x80],
            hram: [0; 0x7F],
            interrupt_enable: 0,
        };
        assert(r.rom@ =~= Seq::new(0x8000, |i: int| 0u8));
        r
    }

    /// Replaces the cartridge ROM; the RAM is left as it was.
    pub fn load_rom(&mut self, data: Vec<u8>)
        ensures
            final(self)@ == (BusView { rom: data@, ..old(self)@ }),
    {
        self.rom = data;
    }

    pub fn read_byte(&self, address: u16) -> (r: u8)
        requires
            self@.readable(address),
        ensures
            r == self@.read(address),
    {
        reveal(BusView::read);
        match address {
            0x0000..=0x7FFF => self.rom[address as usize],
            0x8000..=0x9FFF => self.vram[(address - 0x8000) as usize],
            0xA000..=0xBFFF => self.eram[(address - 0xA000) as usize],
            0xC000..=0xDFFF => self.wram[(address - 0xC000) as usize],
            0xE000..=0xFDFF => self.wram[(address - 0xE000) as usize],
            0xFE00..=0xFE9F => self.oam[(address - 0xFE00) as usize],
            // Unusable memory; reads as 0xFF on DMG hardware
            0xFEA0..=0xFEFF => 0xFF,
            0xFF00..=0xFF7F => self.io[(address - 0xFF00) as usize],
            0xFF80..=0xFFFE => self.hram[(address - 0xFF80) as usize],
            0xFFFF => self.interrupt_enable,
        }
    }

    pub fn write_byte(&mut self, address: u16, value: u8)
        ensures
            final(self)@ == old(self)@.write(address, value),
    {
        reveal(BusView::write);
        match address {
            // The ROM is read only: writes to it are ignored.
            0x0000..=0x7FFF => {},
            0x8000..=0x9FFF => self.vram[(address - 0x8000) as usize] = value,
            0xA000..=0xBFFF => self.eram[(address - 0xA000) as usize] = value,
            0xC000..=0xDFFF => self.wram[(address - 0xC000) as usize] = value,
            0xE000..=0xFDFF => self.wram[(address - 0xE000) as usize] = value,
            0xFE00..=0xFE9F => self.oam[(address - 0xFE00) as usize] = value,
            // Unusable memory; writes are ignored.
            0xFEA0..=0xFEFF => {},
            0xFF00..=0xFF7F => self.io[(address - 0xFF00) as usize] = value,
            0xFF80..=0xFFFE => self.hram[(address - 0xFF80) as usize] = value,
            0xFFFF => self.interrupt_enable = value,
        }
    }
}

} // verus!
