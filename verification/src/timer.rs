//! The timer: the divider and the counter that requests an interrupt when
//! it overflows.

use vstd::prelude::*;

use crate::interrupt::{Interrupt, InterruptPosition, InterruptState};

verus! {

/// The bits of the timer control register that select the clock.
pub const CLOCK_SELECT: u8 = 0b11;

/// The bit of the timer control register that enables the counter.
pub const TIMER_ENABLE: u8 = 0b100;

/// The state of the timer.
pub struct TimerState {
    /// The machine cycles counted so far, modulo 256.
    pub internal_counter: u8,
    pub divider_register: u8,
    pub timer_counter: u8,
    pub timer_modulo: u8,
    pub timer_controller: u8,
}

impl TimerState {
    /// Whether the counter runs.
    pub open spec fn enabled(self) -> bool {
        self.timer_controller & TIMER_ENABLE != 0
    }

    /// The number of machine cycles between two steps of the counter.
    pub open spec fn period(self) -> int {
        let select = self.timer_controller % 4;
        if select == 0 {
            256
        } else if select == 1 {
            4
        } else if select == 2 {
            16
        } else {
            64
        }
    }

    /// The machine cycles counted after the next one.
    pub open spec fn next_count(self) -> u8 {
        if self.internal_counter == 255 {
            0
        } else {
            (self.internal_counter + 1) as u8
        }
    }

    /// Whether the counter steps in the next machine cycle.
    pub open spec fn steps(self) -> bool {
        self.enabled() && (self.next_count() as int) % self.period() == 0
    }

    /// Whether the counter overflows in the next machine cycle, which
    /// requests the timer interrupt.
    pub open spec fn overflows(self) -> bool {
        self.steps() && self.timer_counter == 255
    }

    /// The state after one machine cycle: the divider steps every 64 cycles,
    /// the counter at its period, and the counter starts again at the modulo
    /// when it overflows.
    pub open spec fn tick(self) -> TimerState {
        TimerState {
            internal_counter: self.next_count(),
            divider_register: if self.next_count() % 64 == 0 {
                if self.divider_register == 255 {
                    0
                } else {
                    (self.divider_register + 1) as u8
                }
            } else {
                self.divider_register
            },
            timer_counter: if self.steps() {
                if self.timer_counter == 255 {
                    self.timer_modulo
                } else {
                    (self.timer_counter + 1) as u8
                }
            } else {
                self.timer_counter
            },
            ..self
        }
    }
}

/// The interrupt controller after one machine cycle of the timer `timer`.
pub open spec fn interrupts_after_tick(timer: TimerState, interrupt: InterruptState) -> InterruptState {
    if timer.overflows() {
        interrupt.requested(InterruptPosition::Timer)
    } else {
        interrupt
    }
}

/// The timer after `cycles` machine cycles.
pub open spec fn timer_after(timer: TimerState, cycles: nat) -> TimerState
    decreases cycles,
{
    if cycles == 0 {
        timer
    } else {
        timer_after(timer.tick(), (cycles - 1) as nat)
    }
}

/// The interrupt controller after `cycles` machine cycles of the timer.
pub open spec fn interrupts_after(timer: TimerState, interrupt: InterruptState, cycles: nat) -> InterruptState
    decreases cycles,
{
    if cycles == 0 {
        interrupt
    } else {
        interrupts_after(timer.tick(), interrupts_after_tick(timer, interrupt), (cycles - 1) as nat)
    }
}

#[derive(Debug)]
pub struct Timer {
    /// The machine cycles counted so far, modulo 256.
    pub internal_counter: u8,
    // DIV should reset when value it changed and during STOP
    pub divider_register: u8,
    pub timer_counter: u8,
    pub timer_modulo: u8,
    pub timer_controller: u8,
}

impl Default for Timer {
    fn default() -> (timer: Timer)
        ensures
            timer@ == (TimerState {
                internal_counter: 0,
                divider_register: 0,
                timer_counter: 0,
                timer_modulo: 0,
                timer_controller: 0,
            }),
    {
        Timer {
            internal_counter: 0,
            divider_register: 0,
            timer_counter: 0,
            timer_modulo: 0,
            timer_controller: 0,
        }
    }
}

impl Timer {
    /// The state of the timer.
    pub open spec fn view(&self) -> TimerState {
        TimerState {
            internal_counter: self.internal_counter,
            divider_register: self.divider_register,
            timer_counter: self.timer_counter,
            timer_modulo: self.timer_modulo,
            timer_controller: self.timer_controller,
        }
    }

    /// A timer that is switched off, with every register zero.
    pub fn new() -> (timer: Timer)
        ensures
            timer@ == (TimerState {
                internal_counter: 0,
                divider_register: 0,
                timer_counter: 0,
                timer_modulo: 0,
                timer_controller: 0,
            }),
    {
        Timer {
            internal_counter: 0,
            divider_register: 0,
            timer_counter: 0,
            timer_modulo: 0,
            timer_controller: 0,
        }
    }

    /// Advances the timer by `cycles` machine cycles.
    pub fn do_cycles(&mut self, interrupt: &mut Interrupt, cycles: u8)
        ensures
            final(self)@ == timer_after(old(self)@, cycles as nat),
            final(interrupt)@ == interrupts_after(old(self)@, old(interrupt)@, cycles as nat),
    {
        let mut done: u8 = 0;
        while done < cycles
            invariant
                done <= cycles,
                timer_after(self@, (cycles - done) as nat) == timer_after(
                    old(self)@,
                    cycles as nat,
                ),
                interrupts_after(self@, interrupt@, (cycles - done) as nat) == interrupts_after(
                    old(self)@,
                    old(interrupt)@,
                    cycles as nat,
                ),
            decreases cycles - done,
        {
            self.do_cycle(interrupt);
            done += 1;
        }
    }

    /// Advances the timer by one machine cycle.
    pub fn do_cycle(&mut self, interrupt: &mut Interrupt)
        ensures
            final(self)@ == old(self)@.tick(),
            final(interrupt)@ == interrupts_after_tick(old(self)@, old(interrupt)@),
    {
        self.internal_counter = self.internal_counter.wrapping_add(1);

        if self.internal_counter % 64 == 0 {
            self.divider_register = self.divider_register.wrapping_add(1);
        }
        let enabled: bool = self.timer_controller & TIMER_ENABLE != 0;
        if enabled {
            let controller: u8 = self.timer_controller;
            assert(controller & CLOCK_SELECT == controller % 4) by (bit_vector);
            let select: u8 = controller & CLOCK_SELECT;
            let increment_every: u16 = if select == 0b00 {
                256
            } else if select == 0b01 {
                4
            } else if select == 0b10 {
                16
            } else {
                64
            };

            if (self.internal_counter as u16) % increment_every == 0 {
                self.timer_counter = match self.timer_counter.checked_add(1) {
                    Some(v) => v,
                    None => {
                        interrupt.request_int(InterruptPosition::Timer);
                        self.timer_modulo
                    },
                };
            }
        }
    }
}

} // verus!
