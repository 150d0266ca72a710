//! The device: the processor together with the bus and the pixel unit that
//! it owns, and the loading of a program image.

use vstd::prelude::*;
use crate::cpu::{CpuState, CPU};
use crate::memory::{bus_reset, bus_write, Memory};
use crate::ppu::{PpuState, PPU};

verus! {

/// The bus image after the first `n` bytes of `image` are stored through
/// the bus, byte `i` at address `i` modulo 0x10000.
pub open spec fn load_image(m: Seq<u8>, image: Seq<u8>, n: int) -> Seq<u8>
    decreases n,
{
    if n <= 0 {
        m
    } else {
        bus_write(load_image(m, image, n - 1), ((n - 1) % 0x10000) as u16, image[n - 1])
    }
}

/// An image that fits in ROM lands there byte for byte, and nothing else
/// on the bus changes.
pub proof fn lemma_load_image_rom(m: Seq<u8>, image: Seq<u8>, n: int)
    requires
        m.len() == 0x10000,
        0 <= n <= image.len(),
        n <= 0x8000,
    ensures
        load_image(m, image, n) == Seq::new(
            0x10000,
            |a: int|
                if a < n {
                    image[a]
                } else {
                    m[a]
                },
        ),
    decreases n,
{
    let expected = Seq::new(
        0x10000,
        |a: int|
            if a < n {
                image[a]
            } else {
                m[a]
            },
    );
    if n > 0 {
        lemma_load_image_rom(m, image, n - 1);
    }
    assert(load_image(m, image, n) =~= expected);
}

/// A Game Boy: the processor, which owns the bus and the pixel unit.
pub struct Device {
    pub cpu: CPU,
}

impl Device {
    /// A device after the boot sequence, with an empty bus and a blank
    /// frame.
    pub fn new() -> (device: Device)
        ensures
            device.cpu.wf(),
            device.cpu@ == CpuState::reset(bus_reset(), PpuState::reset()),
    {
        let memory = Memory::new();
        let ppu = PPU::new();
        Device { cpu: CPU::new(memory, ppu) }
    }

    /// Stores a program image through the bus, starting at address 0x0000.
    pub fn load_instructions(&mut self, image: &[u8])
        ensures
            final(self).cpu@ == (CpuState {
                bus: load_image(old(self).cpu@.bus, image@, image@.len() as int),
                ..old(self).cpu@
            }),
            old(self).cpu.wf() ==> final(self).cpu.wf(),
    {
        let mut i: usize = 0;
        while i < image.len()
            invariant
                i <= image.len(),
                self.cpu@ == (CpuState {
                    bus: load_image(old(self).cpu@.bus, image@, i as int),
                    ..old(self).cpu@
                }),
            decreases image.len() - i,
        {
            self.cpu.write_byte((i % 0x10000) as u16, image[i]);
            i += 1;
        }
    }
}

} // verus!
