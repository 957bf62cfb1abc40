//! Video RAM and the LCD control register.

use vstd::prelude::*;

verus! {

/// The size of video RAM in bytes.
pub const VRAM_SIZE: usize = 0x2000;

#[derive(Debug)]
pub struct Graphics {
    pub vram: [u8; 0x2000],
    pub lcd_control: u8,
}

impl Graphics {
    /// Video RAM filled with zero and the LCD switched off.
    pub fn new() -> (graphics: Graphics)
        ensures
            forall|i: int| 0 <= i < VRAM_SIZE ==> graphics.vram@[i] == 0,
            graphics.lcd_control == 0,
    {
        Graphics { vram: [0; 0x2000], lcd_control: 0 }
    }

    /// The byte at `index`, counted from the start of video RAM.
    pub fn get(&self, index: u16) -> (byte: u8)
        requires
            index < VRAM_SIZE,
        ensures
            byte == self.vram@[index as int],
    {
        self.vram[index as usize]
    }

    /// Stores `byte` at `index`, counted from the start of video RAM.
    pub fn set(&mut self, index: u16, byte: u8)
        requires
            index < VRAM_SIZE,
        ensures
            final(self).vram@ == old(self).vram@.update(index as int, byte),
            final(self).lcd_control == old(self).lcd_control,
    {
        self.vram[index as usize] = byte;
    }
}

} // verus!
