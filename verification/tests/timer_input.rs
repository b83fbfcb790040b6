use rusty_gbc::input::{Input, Keycode};
use rusty_gbc::timer::Timer;
use rusty_gbc::{JOYPAD_INTERRUPT, TIMER_INTERRUPT};

#[test]
fn divider_runs_while_the_counter_is_off() {
    let mut timer = Timer::new();
    timer.timer_step(200);
    timer.timer_step(100);
    assert_eq!(timer.get_div(), 44);
    assert_eq!(timer.tima, 0);
    assert_eq!(timer.interrupt, 0);
    timer.reset_div();
    assert_eq!(timer.get_div(), 0);
}

#[test]
fn control_register_reads_back() {
    let mut timer = Timer::new();
    assert_eq!(timer.get_timer_control(), 0b11111000);
    timer.set_timer_control(0b101);
    assert_eq!(timer.get_timer_control(), 0b11111101);
    assert_eq!(timer.increment_in_cpu_cycles, 16);
    timer.set_timer_control(0b110);
    assert_eq!(timer.increment_in_cpu_cycles, 64);
    timer.set_timer_control(0b111);
    assert_eq!(timer.increment_in_cpu_cycles, 256);
    timer.set_timer_control(0b011);
    assert_eq!(timer.get_timer_control(), 0b11111011);
    assert!(!timer.enabled);
}

#[test]
fn counter_goes_up_once_the_period_is_exceeded() {
    let mut timer = Timer::new();
    timer.set_timer_control(0b101);
    timer.timer_step(16);
    assert_eq!(timer.tima, 0);
    assert_eq!(timer.counter, 16);
    timer.timer_step(4);
    assert_eq!(timer.tima, 1);
    assert_eq!(timer.counter, 0);
}

#[test]
fn counter_overflow_reloads_and_interrupts() {
    let mut timer = Timer::new();
    timer.set_timer_control(0b101);
    timer.tma = 0x10;
    timer.tima = 0xFF;
    timer.timer_step(20);
    assert_eq!(timer.tima, 0x10);
    assert_eq!(timer.tma, 0x10);
    assert_eq!(timer.interrupt, TIMER_INTERRUPT);
    // the next increment goes on from the modulo, without an interrupt
    timer.interrupt = 0;
    timer.timer_step(20);
    assert_eq!(timer.tima, 0x11);
    assert_eq!(timer.interrupt, 0);
}

#[test]
fn counter_reloads_the_highest_modulo() {
    let mut timer = Timer::new();
    timer.set_timer_control(0b101);
    timer.tma = 0xFF;
    timer.tima = 0xFF;
    timer.timer_step(20);
    assert_eq!(timer.tima, 0xFF);
    assert_eq!(timer.interrupt, TIMER_INTERRUPT);
}

#[test]
fn disabled_timer_keeps_its_counter() {
    let mut timer = Timer::new();
    timer.tima = 0xFF;
    timer.tma = 0x42;
    for _ in 0..100 {
        timer.timer_step(255);
    }
    assert_eq!(timer.tima, 0xFF);
    assert_eq!(timer.tma, 0x42);
    assert_eq!(timer.interrupt, 0);
}

#[test]
fn joypad_reads_nothing_with_both_selectors_set() {
    let input = Input::new();
    assert_eq!(input.read_joypad(), 0b11110000);
}

#[test]
fn joypad_selects_directions_or_buttons() {
    let mut input = Input::new();
    input.key_pressed(Keycode::Down);
    input.key_pressed(Keycode::A);
    assert_eq!(input.interrupt, JOYPAD_INTERRUPT);
    // direction selector low
    input.write_joypad(0b00100000);
    assert_eq!(input.read_joypad(), 0b11100111);
    // button selector low
    input.write_joypad(0b00010000);
    assert_eq!(input.read_joypad(), 0b11011110);
    input.key_released(Keycode::A);
    assert_eq!(input.read_joypad(), 0b11011111);
}

#[test]
fn joypad_write_keeps_only_the_high_nibble() {
    let mut input = Input::new();
    input.write_joypad(0xFF);
    assert_eq!(input.joypad, 0xF0);
}

#[test]
fn every_key_has_one_bit() {
    let keys = [
        (Keycode::Start, 0b00001000u8),
        (Keycode::Select, 0b00000100),
        (Keycode::B, 0b00000010),
        (Keycode::A, 0b00000001),
        (Keycode::Down, 0b10000000),
        (Keycode::Up, 0b01000000),
        (Keycode::Left, 0b00100000),
        (Keycode::Right, 0b00010000),
    ];
    for (key, mask) in keys {
        assert_eq!(key.bit(), mask);
        let mut input = Input::new();
        input.key_pressed(key);
        assert_eq!(input.buttons, 0xFF ^ mask);
        input.key_released(key);
        assert_eq!(input.buttons, 0xFF);
    }
}
