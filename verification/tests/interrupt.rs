use gb_core::interrupt::{Interrupt, InterruptPosition};
use gb_core::timer::Timer;

#[test]
fn interrupt_bits() {
    assert_eq!(InterruptPosition::VBlank.bit(), 0x01);
    assert_eq!(InterruptPosition::Lcd.bit(), 0x02);
    assert_eq!(InterruptPosition::Timer.bit(), 0x04);
    assert_eq!(InterruptPosition::Serial.bit(), 0x08);
    assert_eq!(InterruptPosition::Joypad.bit(), 0x10);
}

#[test]
fn nothing_is_serviced_while_interrupts_are_disabled() {
    let mut interrupt = Interrupt::new();
    interrupt.enable_int(InterruptPosition::VBlank, true);
    interrupt.request_int(InterruptPosition::VBlank);
    assert_eq!(interrupt.handle_interrupts(), None);
    assert_eq!(interrupt.interrupt_flag, 0x01);
}

#[test]
fn enable_is_delayed_by_one_instruction() {
    let mut interrupt = Interrupt::new();
    interrupt.enable_int(InterruptPosition::Timer, true);
    interrupt.request_int(InterruptPosition::Timer);

    interrupt.set_ime();
    assert_eq!(interrupt.handle_interrupts(), None);
    assert_eq!(interrupt.handle_interrupts(), Some(0x50));
    assert_eq!(interrupt.interrupt_flag, 0);
    assert_eq!(interrupt.handle_interrupts(), None);
}

#[test]
fn forced_enable_is_immediate_and_reset_disables() {
    let mut interrupt = Interrupt::new();
    interrupt.enable_int(InterruptPosition::Joypad, true);
    interrupt.request_int(InterruptPosition::Joypad);

    interrupt.set_ime_forced();
    assert_eq!(interrupt.handle_interrupts(), Some(0x60));

    interrupt.request_int(InterruptPosition::Joypad);
    interrupt.reset_ime();
    assert_eq!(interrupt.handle_interrupts(), None);

    interrupt.set_ime();
    interrupt.reset_ime();
    assert_eq!(interrupt.handle_interrupts(), None);
    assert_eq!(interrupt.handle_interrupts(), None);
}

#[test]
fn lowest_bit_has_priority() {
    let mut interrupt = Interrupt::new();
    interrupt.interrupt_enable = 0x1F;
    interrupt.interrupt_flag = 0x1F;
    interrupt.set_ime_forced();
    assert_eq!(interrupt.handle_interrupts(), Some(0x40));
    assert_eq!(interrupt.handle_interrupts(), Some(0x48));
    assert_eq!(interrupt.handle_interrupts(), Some(0x50));
    assert_eq!(interrupt.handle_interrupts(), Some(0x58));
    assert_eq!(interrupt.handle_interrupts(), Some(0x60));
    assert_eq!(interrupt.handle_interrupts(), None);
    assert_eq!(interrupt.interrupt_flag, 0);
}

#[test]
fn requests_that_are_not_enabled_wait() {
    let mut interrupt = Interrupt::new();
    interrupt.set_ime_forced();
    interrupt.request_int(InterruptPosition::VBlank);
    interrupt.request_int(InterruptPosition::Serial);
    interrupt.enable_int(InterruptPosition::Serial, true);
    assert_eq!(interrupt.handle_interrupts(), Some(0x58));
    assert_eq!(interrupt.interrupt_flag, 0x01);
    assert_eq!(interrupt.handle_interrupts(), None);

    interrupt.interrupt_flag = 0xE0;
    interrupt.interrupt_enable = 0xFF;
    assert_eq!(interrupt.handle_interrupts(), None);
    assert_eq!(interrupt.interrupt_flag, 0xE0);
}

#[test]
fn enable_int_sets_and_clears_one_bit() {
    let mut interrupt = Interrupt::new();
    interrupt.enable_int(InterruptPosition::Lcd, true);
    interrupt.enable_int(InterruptPosition::Joypad, true);
    assert_eq!(interrupt.interrupt_enable, 0x12);
    interrupt.enable_int(InterruptPosition::Lcd, true);
    assert_eq!(interrupt.interrupt_enable, 0x12);
    interrupt.enable_int(InterruptPosition::Lcd, false);
    assert_eq!(interrupt.interrupt_enable, 0x10);
    interrupt.enable_int(InterruptPosition::Lcd, false);
    assert_eq!(interrupt.interrupt_enable, 0x10);
}

#[test]
fn divider_steps_every_64_cycles() {
    let mut timer = Timer::new();
    let mut interrupt = Interrupt::new();
    timer.do_cycles(&mut interrupt, 63);
    assert_eq!(timer.divider_register, 0);
    timer.do_cycle(&mut interrupt);
    assert_eq!(timer.divider_register, 1);
    timer.do_cycles(&mut interrupt, 192);
    assert_eq!(timer.divider_register, 4);
    assert_eq!(timer.timer_counter, 0);
    assert_eq!(interrupt.interrupt_flag, 0);
}

#[test]
fn counter_steps_at_the_selected_period() {
    for (select, period) in [(0u8, 256u32), (1, 4), (2, 16), (3, 64)] {
        let mut timer = Timer::new();
        let mut interrupt = Interrupt::new();
        timer.timer_controller = 0b100 | select;
        for _ in 0..period - 1 {
            timer.do_cycle(&mut interrupt);
        }
        assert_eq!(timer.timer_counter, 0);
        timer.do_cycle(&mut interrupt);
        assert_eq!(timer.timer_counter, 1);
        for _ in 0..period {
            timer.do_cycle(&mut interrupt);
        }
        assert_eq!(timer.timer_counter, 2);
    }
}

#[test]
fn counter_stands_still_while_disabled() {
    let mut timer = Timer::new();
    let mut interrupt = Interrupt::new();
    timer.timer_controller = 0b001;
    timer.do_cycles(&mut interrupt, 200);
    assert_eq!(timer.timer_counter, 0);
    assert_eq!(timer.divider_register, 3);
}

#[test]
fn overflow_reloads_the_modulo_and_requests_the_interrupt() {
    let mut timer = Timer::new();
    let mut interrupt = Interrupt::new();
    timer.timer_controller = 0b101;
    timer.timer_counter = 0xFE;
    timer.timer_modulo = 0xAB;

    timer.do_cycles(&mut interrupt, 4);
    assert_eq!(timer.timer_counter, 0xFF);
    assert_eq!(interrupt.interrupt_flag, 0);

    timer.do_cycles(&mut interrupt, 4);
    assert_eq!(timer.timer_counter, 0xAB);
    assert_eq!(interrupt.interrupt_flag, InterruptPosition::Timer.bit());

    timer.do_cycles(&mut interrupt, 4);
    assert_eq!(timer.timer_counter, 0xAC);
}

#[test]
fn no_cycles_change_nothing() {
    let mut timer = Timer::new();
    let mut interrupt = Interrupt::new();
    timer.timer_controller = 0b101;
    timer.do_cycles(&mut interrupt, 0);
    assert_eq!(timer.timer_counter, 0);
    assert_eq!(timer.divider_register, 0);
    assert_eq!(timer.internal_counter, 0);
}
