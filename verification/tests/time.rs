use oxide_os::render::{dec2_u32, dec_u32, hex_u32};
use oxide_os::time::{get_current_time, Calendar, RtcSnapshot};
use oxide_os::timer::timer_divisor;
use oxide_os::QemuExitCode;

fn snapshot(second: u8, minute: u8, hour: u8, day: u8, month: u8, year: u8, century: u8) -> RtcSnapshot {
    RtcSnapshot { second, minute, hour, day, month, year, century }
}

#[test]
fn bcd_registers_decode_with_century() {
    // status 0b110: binary-coded-decimal encoding, 24-hour mode
    let raw = snapshot(0x30, 0x45, 0x17, 0x07, 0x05, 0x24, 0x20);
    let c = get_current_time(0x32, raw, 0b010);
    assert_eq!(c.second, 30);
    assert_eq!(c.minute, 45);
    assert_eq!(c.hour, 17);
    assert_eq!(c.day, 7);
    assert_eq!(c.month, 5);
    assert_eq!(c.year, 2024);
}

#[test]
fn binary_registers_pass_through_without_century() {
    // status bit 2 set: registers are already binary
    let raw = snapshot(59, 8, 23, 28, 2, 99, 77);
    let c = get_current_time(0, raw, 0b110);
    assert_eq!(c.second, 59);
    assert_eq!(c.minute, 8);
    assert_eq!(c.hour, 23);
    assert_eq!(c.day, 28);
    assert_eq!(c.month, 2);
    // no century register: the two-digit year stays as read
    assert_eq!(c.year, 99);
}

#[test]
fn pm_reading_in_twelve_hour_mode_is_flagged() {
    // status 0b000: binary-coded decimal, 12-hour mode; PM bit set
    let raw = snapshot(0x00, 0x00, 0x92, 0x01, 0x01, 0x00, 0x00);
    let c = get_current_time(0, raw, 0b000);
    assert_eq!(c.hour, 99);
}

#[test]
fn calendar_renders_with_padded_clock() {
    let c = Calendar { year: 2024, month: 5, day: 7, hour: 9, minute: 8, second: 3 };
    assert_eq!(c.as_string(), "2024-5-7 09:08:03");
    let c = Calendar { year: 1999, month: 12, day: 31, hour: 23, minute: 59, second: 58 };
    assert_eq!(c.as_string(), "1999-12-31 23:59:58");
}

#[test]
fn numerals_render_in_decimal_and_hex() {
    assert_eq!(dec_u32(0), "0");
    assert_eq!(dec_u32(42), "42");
    assert_eq!(dec_u32(4294967295), "4294967295");
    assert_eq!(dec2_u32(3), "03");
    assert_eq!(dec2_u32(59), "59");
    assert_eq!(hex_u32(0xFE00_0000, 8), "FE000000");
    assert_eq!(hex_u32(0xC000, 4), "C000");
    assert_eq!(hex_u32(0xAB, 8), "000000AB");
}

#[test]
fn timer_divisor_divides_the_base_rate() {
    assert_eq!(timer_divisor(100), 11931);
    assert_eq!(timer_divisor(1_193_182), 1);
    assert_eq!(timer_divisor(1), 1_193_182);
}

#[test]
fn qemu_exit_codes_are_the_defined_words() {
    assert_eq!(QemuExitCode::Success.code(), 0x10);
    assert_eq!(QemuExitCode::Failed.code(), 0x11);
}
