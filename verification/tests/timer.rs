use sandchip::cpu::CPU;
use sandchip::machine::Outcome;
use sandchip::timer::Timer;
use std::time::{Duration, Instant};

fn wait(ms: u64) {
    let start = Instant::now();
    while start.elapsed() < Duration::from_millis(ms) {}
}

#[test]
fn value_after_no_time_is_the_value() {
    assert_eq!(Timer::value_after(10, 0), 10);
    assert_eq!(Timer::value_after(255, 0), 255);
    assert_eq!(Timer::value_after(0, 0), 0);
}

#[test]
fn value_after_less_than_a_period_is_the_value() {
    assert_eq!(Timer::value_after(10, 14), 10);
}

#[test]
fn value_after_whole_periods() {
    assert_eq!(Timer::value_after(10, 15), 9);
    assert_eq!(Timer::value_after(10, 30), 8);
    assert_eq!(Timer::value_after(10, 135), 1);
    assert_eq!(Timer::value_after(10, 149), 1);
    assert_eq!(Timer::value_after(200, 15 * 199), 1);
}

#[test]
fn value_after_the_value_in_periods_is_zero() {
    assert_eq!(Timer::value_after(10, 150), 0);
    assert_eq!(Timer::value_after(10, 151), 0);
    assert_eq!(Timer::value_after(1, 15), 0);
    assert_eq!(Timer::value_after(255, 255 * 15), 0);
}

#[test]
fn value_stays_zero_however_long_after() {
    assert_eq!(Timer::value_after(10, 256 * 15), 0);
    assert_eq!(Timer::value_after(10, 257 * 15), 0);
    assert_eq!(Timer::value_after(200, 300 * 15), 0);
    assert_eq!(Timer::value_after(255, u128::MAX), 0);
}

#[test]
fn reading_after_gives_what_is_left_and_keeps_the_setting() {
    let mut timer = Timer::new();
    assert_eq!(timer.setting(), 0);
    timer.set_value(20);
    assert_eq!(timer.setting(), 20);
    assert_eq!(timer.get_value_after(45), 17);
    assert_eq!(timer.setting(), 20);
    assert_eq!(timer.get_value_after(0), 20);
}

#[test]
fn reading_a_timer_that_ran_out_zeroes_it() {
    let mut timer = Timer::new();
    timer.set_value(20);
    assert_eq!(timer.get_value_after(300), 0);
    assert_eq!(timer.setting(), 0);
    assert_eq!(timer.get_value_after(0), 0);
}

#[test]
fn new_timer_reads_zero() {
    let mut timer = Timer::new();
    assert_eq!(timer.get_value(), 0);
}

#[test]
fn timer_runs_down_in_real_time() {
    let mut timer = Timer::new();
    timer.set_value(200);
    let set_at = Instant::now();
    let first: u8 = timer.get_value();
    assert!(first <= 200);
    wait(50);
    let second: u8 = timer.get_value();
    let upper: u128 = set_at.elapsed().as_millis() / 15 + 1;
    assert!(second <= 197);
    assert!(second <= first);
    assert!((200 - second as u128) <= upper);
}

#[test]
fn timer_runs_out_in_real_time() {
    let mut timer = Timer::new();
    timer.set_value(2);
    wait(40);
    assert_eq!(timer.get_value(), 0);
    assert_eq!(timer.setting(), 0);
}

#[test]
fn elapsed_time_grows() {
    let timer = Timer::new();
    wait(20);
    let elapsed: u128 = timer.elapsed_ms();
    assert!(elapsed >= 20);
    assert!(elapsed < 15_000);
}

#[test]
fn setting_restarts_the_clock() {
    let mut timer = Timer::new();
    wait(40);
    timer.set_value(200);
    assert!(timer.elapsed_ms() < 40);
}

#[test]
fn delay_instructions_with_given_time() {
    // V1 = 100; delay = V1; V2 = delay
    let mut cpu = CPU::new();
    assert_eq!(cpu.load_rom(&vec![0x61, 0x64, 0xF1, 0x15, 0xF2, 0x07, 0xF3, 0x07, 0xF4, 0x07]), Ok(()));
    assert_eq!(cpu.tick_with(0, 0), Outcome::Executed);
    assert_eq!(cpu.tick_with(0, 0), Outcome::Executed);
    assert_eq!(cpu.delay_setting(), 100);
    assert_eq!(cpu.tick_with(0, 0), Outcome::Executed);
    assert_eq!(cpu.registers()[2], 100);
    assert_eq!(cpu.tick_with(15 * 40, 0), Outcome::Executed);
    assert_eq!(cpu.registers()[3], 60);
    assert_eq!(cpu.delay_setting(), 100);
    assert_eq!(cpu.tick_with(15 * 100, 0), Outcome::Executed);
    assert_eq!(cpu.registers()[4], 0);
    assert_eq!(cpu.delay_setting(), 0);
    assert_eq!(cpu.pc(), 0x20A);
}

#[test]
fn delay_instructions_in_real_time() {
    let mut cpu = CPU::new();
    assert_eq!(cpu.load_rom(&vec![0x61, 0xC8, 0xF1, 0x15, 0xF2, 0x07, 0xF3, 0x07]), Ok(()));
    assert_eq!(cpu.tick(), Outcome::Executed);
    assert_eq!(cpu.tick(), Outcome::Executed);
    assert_eq!(cpu.tick(), Outcome::Executed);
    let first: u8 = cpu.registers()[2];
    assert!(first <= 200);
    wait(50);
    assert_eq!(cpu.tick(), Outcome::Executed);
    let second: u8 = cpu.registers()[3];
    assert!(second <= 197);
    assert!(second <= first);
    assert!(second >= 100);
}
