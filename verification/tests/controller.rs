use serlcd::protocol::{
    BACKLIGHT_RGB_COMMAND, CLEAR_COMMAND, CONTRAST_COMMAND, HOME_CURSOR_COMMAND, SETTING_COMMAND,
    SPECIAL_COMMAND,
};
use serlcd::{LcdConn, MockTransport, TransportError};

fn fresh() -> LcdConn<MockTransport> {
    LcdConn::new(0x72, MockTransport::new())
}

#[test]
fn command_emits_prefix_and_opcode() {
    let mut lcd = fresh();
    assert!(lcd.command(CONTRAST_COMMAND).is_ok());
    assert_eq!(lcd.connection.sent, vec![vec![SETTING_COMMAND, CONTRAST_COMMAND]]);
    assert_eq!(lcd.connection.delayed_ms, vec![10]);
}

#[test]
fn command_delays_after_every_plain_command() {
    let mut lcd = fresh();
    assert!(lcd.command(0x30).is_ok());
    assert!(lcd.command(0x31).is_ok());
    assert_eq!(
        lcd.connection.sent,
        vec![vec![0x7C, 0x30], vec![0x7C, 0x31]]
    );
    assert_eq!(lcd.connection.delayed_ms, vec![10, 10]);
}

#[test]
fn special_command_repeats_opcode() {
    let mut lcd = fresh();
    assert!(lcd.special_command(0x14, Some(4)).is_ok());
    assert_eq!(
        lcd.connection.sent,
        vec![vec![SPECIAL_COMMAND, 0x14, 0x14, 0x14, 0x14]]
    );
    assert_eq!(lcd.connection.delayed_ms, Vec::<u64>::new());
}

#[test]
fn special_command_none_matches_some_one() {
    let mut with_none = fresh();
    let mut with_one = fresh();
    assert!(with_none.special_command(0x10, None).is_ok());
    assert!(with_one.special_command(0x10, Some(1)).is_ok());
    assert_eq!(with_none.connection.sent, with_one.connection.sent);
    assert_eq!(with_none.connection.sent, vec![vec![SPECIAL_COMMAND, 0x10]]);
}

#[test]
fn clear_sends_clear_opcode_and_settles() {
    let mut lcd = fresh();
    assert!(lcd.clear().is_ok());
    assert_eq!(lcd.connection.sent, vec![vec![0x7C, 0x2D]]);
    assert_eq!(lcd.connection.sent, vec![vec![SETTING_COMMAND, CLEAR_COMMAND]]);
    assert!(lcd.connection.delayed_ms.iter().all(|&ms| ms >= 10));
    assert_eq!(lcd.connection.delayed_ms, vec![10]);
}

#[test]
fn home_sends_home_opcode_once() {
    let mut lcd = fresh();
    assert!(lcd.home().is_ok());
    assert_eq!(lcd.connection.sent, vec![vec![254, 0x02]]);
    assert_eq!(
        lcd.connection.sent,
        vec![vec![SPECIAL_COMMAND, HOME_CURSOR_COMMAND]]
    );
    assert_eq!(lcd.connection.delayed_ms, Vec::<u64>::new());
}

#[test]
fn special_command_with_count_three() {
    let mut lcd = fresh();
    assert!(lcd.special_command(0x02, Some(3)).is_ok());
    assert_eq!(lcd.connection.sent, vec![vec![254, 0x02, 0x02, 0x02]]);
}

#[test]
fn write_string_sends_raw_bytes_without_prefix() {
    let mut lcd = fresh();
    assert!(lcd.write_string(String::from("HI")).is_ok());
    assert_eq!(lcd.connection.sent, vec![vec![0x48, 0x49]]);
    assert_eq!(lcd.connection.delayed_ms, Vec::<u64>::new());
}

#[test]
fn write_string_keeps_multibyte_text_as_utf8() {
    let mut lcd = fresh();
    assert!(lcd.write_string(String::from("é")).is_ok());
    assert_eq!(lcd.connection.sent, vec![vec![0xC3, 0xA9]]);
}

#[test]
fn begin_sends_nothing() {
    let mut lcd = fresh();
    assert!(lcd.begin().is_ok());
    assert_eq!(lcd.connection.sent, Vec::<Vec<u8>>::new());
    assert_eq!(lcd.connection.delayed_ms, Vec::<u64>::new());
}

#[test]
fn new_keeps_the_given_address() {
    let lcd = fresh();
    assert_eq!(lcd.lcd_address, 0x72);
}

#[test]
fn backlight_full_white_hits_band_tops() {
    let mut lcd = fresh();
    assert!(lcd.set_backlight_rgb(255, 255, 255).is_ok());
    assert_eq!(
        lcd.connection.sent,
        vec![vec![SETTING_COMMAND, BACKLIGHT_RGB_COMMAND, 157, 187, 217]]
    );
    assert_eq!(lcd.connection.delayed_ms, Vec::<u64>::new());
}

#[test]
fn backlight_black_hits_band_bottoms() {
    let mut lcd = fresh();
    assert!(lcd.set_backlight_rgb(0, 0, 0).is_ok());
    assert_eq!(
        lcd.connection.sent,
        vec![vec![0x7C, 0x2B, 128, 158, 188]]
    );
}

#[test]
fn backlight_midpoint_truncates() {
    let mut lcd = fresh();
    assert!(lcd.set_backlight_rgb(128, 0, 255).is_ok());
    // 128 * 29 / 255 truncates to 14.
    assert_eq!(lcd.connection.sent, vec![vec![0x7C, 0x2B, 142, 158, 217]]);
}

#[test]
fn injected_fault_comes_back_unchanged_with_no_write() {
    let mut lcd = LcdConn::new(0x72, MockTransport::failing(TransportError::Nack));
    assert_eq!(lcd.clear(), Err(TransportError::Nack));
    assert_eq!(lcd.home(), Err(TransportError::Nack));
    assert_eq!(lcd.write_string(String::from("HI")), Err(TransportError::Nack));
    assert_eq!(lcd.set_backlight_rgb(1, 2, 3), Err(TransportError::Nack));
    assert_eq!(lcd.connection.sent, Vec::<Vec<u8>>::new());
    assert_eq!(lcd.connection.delayed_ms, Vec::<u64>::new());
}

#[test]
fn each_fault_kind_propagates_exactly() {
    for fault in [
        TransportError::Nack,
        TransportError::Timeout,
        TransportError::DeviceAbsent,
        TransportError::Io,
    ] {
        let mut lcd = LcdConn::new(0x72, MockTransport::failing(fault));
        assert_eq!(lcd.command(0x2C), Err(fault));
        assert!(lcd.connection.sent.is_empty());
    }
}

#[test]
fn write_string_empty_sends_one_empty_payload() {
    let mut lcd = fresh();
    assert!(lcd.write_string(String::new()).is_ok());
    assert_eq!(lcd.connection.sent, vec![Vec::<u8>::new()]);
}

#[test]
fn special_command_zero_count_sends_bare_prefix() {
    let mut lcd = fresh();
    assert!(lcd.special_command(0x02, Some(0)).is_ok());
    assert_eq!(lcd.connection.sent, vec![vec![SPECIAL_COMMAND]]);
}
