//! The interrupt controller: which interrupts are enabled and requested,
//! and the master enable with its delayed activation.

use vstd::prelude::*;

verus! {

#[derive(Debug, Clone, Copy, PartialEq, Eq)]
pub enum InterruptPosition {
    VBlank,
    Lcd,
    Timer,
    Serial,
    Joypad,
}

impl InterruptPosition {
    /// The bit of the enable and request registers that stands for this
    /// interrupt.
    pub open spec fn spec_bit(self) -> u8 {
        match self {
            InterruptPosition::VBlank => 0x01,
            InterruptPosition::Lcd => 0x02,
            InterruptPosition::Timer => 0x04,
            InterruptPosition::Serial => 0x08,
            InterruptPosition::Joypad => 0x10,
        }
    }

    #[verifier::when_used_as_spec(spec_bit)]
    pub fn bit(self) -> (b: u8)
        ensures
            b == self.spec_bit(),
    {
        match self {
            InterruptPosition::VBlank => 0x01,
            InterruptPosition::Lcd => 0x02,
            InterruptPosition::Timer => 0x04,
            InterruptPosition::Serial => 0x08,
            InterruptPosition::Joypad => 0x10,
        }
    }
}

/// The bit of the interrupt with the number `i`, from 0 to 4.
pub open spec fn bit_at(i: int) -> u8 {
    if i == 0 {
        0x01
    } else if i == 1 {
        0x02
    } else if i == 2 {
        0x04
    } else if i == 3 {
        0x08
    } else {
        0x10
    }
}

/// The number of the interrupt of highest priority among the bits of
/// `serviceable`: the lowest of the bits 0 to 4 that is set.
pub open spec fn lowest_request(serviceable: u8) -> Option<int> {
    if serviceable & bit_at(0) != 0 {
        Some(0int)
    } else if serviceable & bit_at(1) != 0 {
        Some(1int)
    } else if serviceable & bit_at(2) != 0 {
        Some(2int)
    } else if serviceable & bit_at(3) != 0 {
        Some(3int)
    } else if serviceable & bit_at(4) != 0 {
        Some(4int)
    } else {
        None
    }
}

/// The state of the interrupt controller.
pub struct InterruptState {
    pub enable: u8,
    pub flag: u8,
    /// Whether interrupts are enabled as a whole.
    pub ime: bool,
    /// Whether they become enabled after the next instruction.
    pub ime_pending: bool,
}

impl InterruptState {
    /// The interrupt that is serviced next, if any: interrupts are enabled
    /// as a whole and this one is both requested and enabled.
    pub open spec fn pending(self) -> Option<int> {
        if self.ime {
            lowest_request(self.flag & self.enable)
        } else {
            None
        }
    }

    /// The address of the handler of the interrupt that is serviced next.
    pub open spec fn pending_vector(self) -> Option<u16> {
        match self.pending() {
            Some(i) => Some((0x40 + 8 * i) as u16),
            None => None,
        }
    }

    /// The state after the interrupts have been handled once.  An interrupt
    /// that is serviced is no longer requested.  Where none is serviced, a
    /// delayed enable takes effect.
    pub open spec fn after_handle(self) -> InterruptState {
        match self.pending() {
            Some(i) => InterruptState { flag: self.flag & !bit_at(i), ..self },
            None => InterruptState {
                ime: self.ime || self.ime_pending,
                ime_pending: false,
                ..self
            },
        }
    }

    /// The state after `position` has been requested.
    pub open spec fn requested(self, position: InterruptPosition) -> InterruptState {
        InterruptState { flag: self.flag | position.spec_bit(), ..self }
    }

    /// The state after `position` has been enabled or disabled.
    pub open spec fn enabled(self, position: InterruptPosition, val: bool) -> InterruptState {
        InterruptState {
            enable: if val {
                self.enable | position.spec_bit()
            } else {
                self.enable & !position.spec_bit()
            },
            ..self
        }
    }
}

#[derive(Debug)]
pub struct Interrupt {
    pub interrupt_enable: u8,
    pub interrupt_flag: u8,
    /// Whether interrupts are enabled as a whole.
    pub ime: bool,
    /// Whether they become enabled after the next instruction.
    pub set_ime: bool,
}

impl Default for Interrupt {
    fn default() -> (interrupt: Interrupt)
        ensures
            interrupt@ == (InterruptState { enable: 0, flag: 0, ime: false, ime_pending: false }),
    {
        Interrupt { interrupt_enable: 0, interrupt_flag: 0, ime: false, set_ime: false }
    }
}

/// What the operations on single bits of a byte do.
proof fn lemma_request_bits(flag: u8, enable: u8, i: u8)
    by (bit_vector)
    requires
        i <= 4,
    ensures
        1u8 << i == (if i == 0 {
            0x01u8
        } else if i == 1 {
            0x02u8
        } else if i == 2 {
            0x04u8
        } else if i == 3 {
            0x08u8
        } else {
            0x10u8
        }),
        (flag & enable) & (1u8 << i) != 0 ==> flag ^ (1u8 << i) == flag & !(1u8 << i),
        enable & (1u8 << i) == 0 ==> enable ^ (1u8 << i) == enable | (1u8 << i) && enable & !(1u8
            << i) == enable,
        enable & (1u8 << i) != 0 ==> enable ^ (1u8 << i) == enable & !(1u8 << i) && enable | (1u8
            << i) == enable,
{
}

impl Interrupt {
    /// The state of the controller.
    pub open spec fn view(&self) -> InterruptState {
        InterruptState {
            enable: self.interrupt_enable,
            flag: self.interrupt_flag,
            ime: self.ime,
            ime_pending: self.set_ime,
        }
    }

    /// A controller with nothing enabled and nothing requested.
    pub fn new() -> (interrupt: Interrupt)
        ensures
            interrupt@ == (InterruptState { enable: 0, flag: 0, ime: false, ime_pending: false }),
    {
        Interrupt { interrupt_enable: 0, interrupt_flag: 0, ime: false, set_ime: false }
    }

    /// Picks the interrupt to service, if there is one, and returns the
    /// address of its handler.
    pub fn handle_interrupts(&mut self) -> (vector: Option<u16>)
        ensures
            vector == old(self)@.pending_vector(),
            final(self)@ == old(self)@.after_handle(),
    {
        let serviceable: u8 = self.interrupt_flag & self.interrupt_enable;
        if self.ime && serviceable != 0 {
            let mut i: u8 = 0;
            while i <= 4
                invariant
                    i <= 5,
                    *self == *old(self),
                    self.ime,
                    serviceable == self.interrupt_flag & self.interrupt_enable,
                    forall|j: int| 0 <= j < i ==> serviceable & #[trigger] bit_at(j) == 0,
                decreases 5 - i,
            {
                proof {
                    lemma_request_bits(self.interrupt_flag, self.interrupt_enable, i);
                }
                if serviceable & (1 << i) != 0 {
                    self.interrupt_flag = self.interrupt_flag ^ (1 << i);
                    return Some(0x40 + i as u16 * 8);
                }
                i += 1;
            }
        }
        proof {
            assert(0u8 & 0x01 == 0 && 0u8 & 0x02 == 0 && 0u8 & 0x04 == 0 && 0u8 & 0x08 == 0 && 0u8
                & 0x10 == 0) by (bit_vector);
        }
        // EI is delayed by 1 instruction

        if self.set_ime {
            self.set_ime = false;
            self.ime = true;
        }
        None
    }

    /// Enables interrupts after the next instruction.
    pub fn set_ime(&mut self)
        ensures
            final(self)@ == (InterruptState { ime_pending: true, ..old(self)@ }),
    {
        self.set_ime = true;
    }

    /// Enables interrupts at once.
    pub fn set_ime_forced(&mut self)
        ensures
            final(self)@ == (InterruptState { ime: true, ime_pending: false, ..old(self)@ }),
    {
        self.set_ime = false;
        self.ime = true;
    }

    /// Disables interrupts, and a delayed enable with them.
    pub fn reset_ime(&mut self)
        ensures
            final(self)@ == (InterruptState { ime: false, ime_pending: false, ..old(self)@ }),
    {
        self.ime = false;
        self.set_ime = false;
    }

    pub fn request_int(&mut self, position: InterruptPosition)
        ensures
            final(self)@ == old(self)@.requested(position),
    {
        self.interrupt_flag = self.interrupt_flag | position.bit();
    }

    pub fn enable_int(&mut self, position: InterruptPosition, val: bool)
        ensures
            final(self)@ == old(self)@.enabled(position, val),
    {
        proof {
            let i: u8 = match position {
                InterruptPosition::VBlank => 0,
                InterruptPosition::Lcd => 1,
                InterruptPosition::Timer => 2,
                InterruptPosition::Serial => 3,
                InterruptPosition::Joypad => 4,
            };
            lemma_request_bits(self.interrupt_flag, self.interrupt_enable, i);
        }
        if ((self.interrupt_enable & position.bit()) != 0) != val {
            self.interrupt_enable = self.interrupt_enable ^ position.bit();
        }
    }
}

} // verus!
