//! The memory bus: a 16-bit address space decoded into ROM, video RAM,
//! external RAM, work RAM with its echo, sprite memory, the I/O page,
//! high RAM and the interrupt-enable register.
//!
//! ```text
//! 0x0000 - 0x7FFF  ROM
//! 0x8000 - 0x9FFF  video RAM
//! 0xA000 - 0xBFFF  external RAM
//! 0xC000 - 0xDFFF  work RAM
//! 0xE000 - 0xFDFF  echo of work RAM
//! 0xFE00 - 0xFE9F  sprite attribute table (OAM)
//! 0xFEA0 - 0xFEFF  reserved: reads 0xFF, writes are dropped
//! 0xFF00 - 0xFF7F  I/O registers
//! 0xFF80 - 0xFFFE  high RAM
//! 0xFFFF           interrupt enable
//! ```

use vstd::prelude::*;

verus! {

/// Address of the interrupt-flag register IF.
pub const IF_ADDR: u16 = 0xFF0F;

/// Address of the interrupt-enable register IE.
pub const IE_ADDR: u16 = 0xFFFF;

/// Whether `a` lies in the reserved hole.
pub open spec fn bus_reserved(a: int) -> bool {
    0xFEA0 <= a <= 0xFEFF
}

/// The storage cell behind address `a`: an echo address stands for the
/// work-RAM address 0x2000 below it, every other address for itself.
pub open spec fn bus_cell(a: int) -> int {
    if 0xE000 <= a <= 0xFDFF {
        a - 0x2000
    } else {
        a
    }
}

/// What a bus image must satisfy: one byte per address, 0xFF in the
/// reserved hole, and the echo equal to work RAM.
pub open spec fn bus_wf(m: Seq<u8>) -> bool {
    &&& m.len() == 0x10000
    &&& forall|a: int| bus_reserved(a) ==> #[trigger] m[a] == 0xFF
    &&& forall|a: int| 0xE000 <= a <= 0xFDFF ==> #[trigger] m[a] == m[a - 0x2000]
}

/// The bus image after storing `value` at `addr`: every address that shares
/// the cell of `addr` reads `value`, unless `addr` is reserved; all other
/// addresses keep their byte.
pub open spec fn bus_write(m: Seq<u8>, addr: u16, value: u8) -> Seq<u8> {
    Seq::new(
        0x10000,
        |a: int|
            if !bus_reserved(addr as int) && bus_cell(a) == bus_cell(addr as int) {
                value
            } else {
                m[a]
            },
    )
}

/// The bus image of a fresh bus: zero everywhere but in the reserved hole.
pub open spec fn bus_reset() -> Seq<u8> {
    Seq::new(
        0x10000,
        |a: int|
            if bus_reserved(a) {
                0xFFu8
            } else {
                0u8
            },
    )
}

/// The backing arrays of the bus.
pub struct Memory {
    pub rom: [u8; 0x8000],
    pub vram: [u8; 0x2000],
    pub eram: [u8; 0x2000],
    pub wram: [u8; 0x2000],
    pub oam: [u8; 0xA0],
    pub io: [u8; 0x80],
    pub hram: [u8; 0x7F],
    pub interrupt_enable: u8,
}

impl View for Memory {
    type V = Seq<u8>;

    /// The bus image: the byte that a read of each address returns.
    open spec fn view(&self) -> Seq<u8> {
        Seq::new(0x10000, |a: int| self.byte_at(a))
    }
}

impl Memory {
    /// The byte that a read of address `a` returns.
    pub open spec fn byte_at(&self, a: int) -> u8 {
        if a < 0x8000 {
            self.rom[a]
        } else if a < 0xA000 {
            self.vram[a - 0x8000]
        } else if a < 0xC000 {
            self.eram[a - 0xA000]
        } else if a < 0xE000 {
            self.wram[a - 0xC000]
        } else if a < 0xFE00 {
            self.wram[a - 0xE000]
        } else if a < 0xFEA0 {
            self.oam[a - 0xFE00]
        } else if a < 0xFF00 {
            0xFF
        } else if a < 0xFF80 {
            self.io[a - 0xFF00]
        } else if a < 0xFFFF {
            self.hram[a - 0xFF80]
        } else {
            self.interrupt_enable
        }
    }

    /// A bus with every cell at zero.
    pub fn new() -> (m: Memory)
        ensures
            m@ == bus_reset(),
    {
        let m = Memory {
            rom: [0u8;0x8000],
            vram: [0u8;0x2000],
            eram: [0u8;0x2000],
            wram: [0u8;0x2000],
            oam: [0u8;0xA0],
            io: [0u8;0x80],
            hram: [0u8;0x7F],
            interrupt_enable: 0,
        };
        assert(m@ =~= bus_reset());
        m
    }

    /// Reads the byte at `addr`.
    pub fn read_byte(&self, addr: u16) -> (b: u8)
        ensures
            b == self@[addr as int],
    {
        if addr <= 0x7FFF {
            self.rom[addr as usize]
        } else if addr <= 0x9FFF {
            self.vram[(addr - 0x8000) as usize]
        } else if addr <= 0xBFFF {
            self.eram[(addr - 0xA000) as usize]
        } else if addr <= 0xDFFF {
            self.wram[(addr - 0xC000) as usize]
        } else if addr <= 0xFDFF {
            self.wram[(addr - 0xE000) as usize]
        } else if addr <= 0xFE9F {
            self.oam[(addr - 0xFE00) as usize]
        } else if addr <= 0xFEFF {
            0xFF
        } else if addr <= 0xFF7F {
            self.io[(addr - 0xFF00) as usize]
        } else if addr <= 0xFFFE {
            self.hram[(addr - 0xFF80) as usize]
        } else {
            self.interrupt_enable
        }
    }

    /// Stores `value` at `address`.
    pub fn write_byte(&mut self, address: u16, value: u8)
        ensures
            final(self)@ == bus_write(old(self)@, address, value),
    {
        if address <= 0x7FFF {
            self.rom[address as usize] = value;
        } else if address <= 0x9FFF {
            self.vram[(address - 0x8000) as usize] = value;
        } else if address <= 0xBFFF {
            self.eram[(address - 0xA000) as usize] = value;
        } else if address <= 0xDFFF {
            self.wram[(address - 0xC000) as usize] = value;
        } else if address <= 0xFDFF {
            self.wram[(address - 0xE000) as usize] = value;
        } else if address <= 0xFE9F {
            self.oam[(address - 0xFE00) as usize] = value;
        } else if address <= 0xFEFF {
        } else if address <= 0xFF7F {
            self.io[(address - 0xFF00) as usize] = value;
        } else if address <= 0xFFFE {
            self.hram[(address - 0xFF80) as usize] = value;
        } else {
            self.interrupt_enable = value;
        }
        assert(self@ =~= bus_write(old(self)@, address, value));
    }
}

/// Every bus has a well-formed image.
pub proof fn lemma_memory_view_wf(m: Memory)
    ensures
        bus_wf(m@),
{
}

/// A store keeps a bus image well formed.
pub proof fn lemma_bus_write_wf(m: Seq<u8>, addr: u16, value: u8)
    requires
        bus_wf(m),
    ensures
        bus_wf(bus_write(m, addr, value)),
{
}

/// A read after a store returns the stored byte, unless the address is
/// reserved; a store changes no address of another cell.
pub proof fn lemma_bus_read_after_write(m: Seq<u8>, addr: u16, value: u8, other: u16)
    requires
        bus_wf(m),
    ensures
        !bus_reserved(addr as int) ==> bus_write(m, addr, value)[addr as int] == value,
        bus_reserved(addr as int) ==> bus_write(m, addr, value) == m,
        bus_cell(other as int) != bus_cell(addr as int) ==> bus_write(m, addr, value)[other as int]
            == m[other as int],
{
    if bus_reserved(addr as int) {
        assert(bus_write(m, addr, value) =~= m);
    }
}

} // verus!
