//! Byte-level protocol of the LCD controller: framing prefixes, the opcode
//! table, and the linear range remap used for backlight intensity.

use vstd::prelude::*;

verus! {

/// Default 7-bit bus address of the display.
pub const DEFAULT_I2C_ADDRESS: u16 = 0x72;

/// Physical geometry of the display; exposed for callers, not enforced here.
pub const MAX_ROWS: u8 = 4;
/// Physical geometry of the display; exposed for callers, not enforced here.
pub const MAX_COLS: u8 = 20;

/// Framing prefix for special (cursor/positioning) commands.
pub const SPECIAL_COMMAND: u8 = 254;
/// Framing prefix for plain setting commands.
pub const SETTING_COMMAND: u8 = 0x7C;

/// Milliseconds the controller needs to settle after a plain command.
pub const SETTLE_DELAY_MS: u64 = 10;

// Opcodes of plain setting commands.
pub const CLEAR_COMMAND: u8 = 0x2D;
pub const CONTRAST_COMMAND: u8 = 0x18;
pub const ADDRESS_COMMAND: u8 = 0x19;
pub const BACKLIGHT_RGB_COMMAND: u8 = 0x2B;
pub const ENABLE_SYSMSG_DISPLAY_COMMAND: u8 = 0x2E;
pub const DISABLE_SYSMSG_DISPLAY_COMMAND: u8 = 0x2F;
pub const ENABLE_SPLASH_COMMAND: u8 = 0x30;
pub const DISABLE_SPLASH_COMMAND: u8 = 0x31;
pub const SAVE_DISPLAY_AS_SPLASH: u8 = 0x0A;
pub const SHOW_VERSION_COMMAND: u8 = 0x2C;
pub const RESET_COMMAND: u8 = 0x08;
pub const SET_ENTRY_MODE_COMMAND: u8 = 0x04;
pub const CONTROL_DISPLAY_COMMAND: u8 = 0x08;
pub const CURSOR_SHIFT_COMMAND: u8 = 0x10;
pub const ENTRY_RIGHT_COMMAND: u8 = 0x00;
pub const ENTRY_LEFT_COMMAND: u8 = 0x02;

// Opcodes of special commands.
pub const HOME_CURSOR_COMMAND: u8 = 0x02;

// Bit flags combined into the control-display payload byte.
pub const DISPLAY_ON_FLAG: u8 = 0x04;
pub const DISPLAY_OFF_FLAG: u8 = 0x00;
pub const CURSOR_ON_FLAG: u8 = 0x02;
pub const CURSOR_OFF_FLAG: u8 = 0x00;
pub const LCD_BLINK_ON_FLAG: u8 = 0x01;
pub const LCD_BLINK_OFF_FLAG: u8 = 0x00;

/// Linear interpolation of `value` from `[in_min, in_max]` into
/// `[out_min, out_max]`, with truncating integer division.
pub open spec fn spec_map_range(
    value: int,
    in_min: int,
    in_max: int,
    out_min: int,
    out_max: int,
) -> int {
    (value - in_min) * (out_max - out_min) / (in_max - in_min) + out_min
}

/// Remap `value` from the input range onto the output range.
///
/// `in_min == in_max` would divide by zero, so the input range must be
/// non-empty; `value` must lie inside it, and the output range must be
/// ordered, so that the result fits in a byte.
pub fn map_range(value: u8, in_min: u8, in_max: u8, out_min: u8, out_max: u8) -> (r: u8)
    requires
        in_min < in_max,
        in_min <= value <= in_max,
        out_min <= out_max,
    ensures
        r == spec_map_range(value as int, in_min as int, in_max as int, out_min as int,
            out_max as int),
        out_min <= r <= out_max,
{
    let dv: u32 = (value - in_min) as u32;
    let dr: u32 = (out_max - out_min) as u32;
    let den: u32 = (in_max - in_min) as u32;
    proof {
        assert(dv * dr <= 255 * 255) by (nonlinear_arith)
            requires
                dv <= 255,
                dr <= 255,
        ;
    }
    let num: u32 = dv * dr;
    let q: u32 = num / den;
    proof {
        lemma_scaled_quotient_bounded(value as int, in_min as int, in_max as int, out_min as int,
            out_max as int);
    }
    q as u8 + out_min
}

/// Remapping the low end of the input range yields the low end of the output
/// range, and the high end yields the high end, exactly.
pub proof fn lemma_map_range_endpoints(in_min: int, in_max: int, out_min: int, out_max: int)
    requires
        in_min < in_max,
        out_min <= out_max,
    ensures
        spec_map_range(in_min, in_min, in_max, out_min, out_max) == out_min,
        spec_map_range(in_max, in_min, in_max, out_min, out_max) == out_max,
{
    let den = in_max - in_min;
    let dr = out_max - out_min;
    assert(0 * dr == 0) by (nonlinear_arith);
    assert(0int / den == 0);
    assert(den * dr / den == dr) by (nonlinear_arith)
        requires
            0 < den,
    ;
}

/// The remap is monotonic: a value no larger than another never remaps to a
/// larger output.
pub proof fn lemma_map_range_monotonic(
    v1: int,
    v2: int,
    in_min: int,
    in_max: int,
    out_min: int,
    out_max: int,
)
    requires
        in_min < in_max,
        in_min <= v1 <= v2 <= in_max,
        out_min <= out_max,
    ensures
        spec_map_range(v1, in_min, in_max, out_min, out_max) <= spec_map_range(v2, in_min, in_max,
            out_min, out_max),
{
    let den = in_max - in_min;
    let dr = out_max - out_min;
    assert((v1 - in_min) * dr / den <= (v2 - in_min) * dr / den) by (nonlinear_arith)
        requires
            0 < den,
            0 <= dr,
            0 <= v1 - in_min <= v2 - in_min,
    ;
}

/// The scaled difference divides to a value no larger than the width of the
/// output range, so the remapped value never leaves `[out_min, out_max]`.
proof fn lemma_scaled_quotient_bounded(value: int, in_min: int, in_max: int, out_min: int, out_max: int)
    requires
        in_min < in_max,
        in_min <= value <= in_max,
        out_min <= out_max,
    ensures
        0 <= (value - in_min) * (out_max - out_min) / (in_max - in_min) <= out_max - out_min,
{
    let num = (value - in_min) * (out_max - out_min);
    let den = in_max - in_min;
    assert(0 <= num / den <= out_max - out_min) by (nonlinear_arith)
        requires
            0 < den,
            0 <= value - in_min <= den,
            0 <= out_max - out_min,
            num == (value - in_min) * (out_max - out_min),
    ;
}

/// Byte sequence of a plain setting command: the `0x7C` prefix and one opcode.
pub open spec fn command_frame(opcode: u8) -> Seq<u8> {
    seq![SETTING_COMMAND, opcode]
}

/// Number of opcode repetitions a caller asked for; one when unspecified.
pub open spec fn repeat_count(count: Option<u8>) -> nat {
    match count {
        Option::Some(n) => n as nat,
        Option::None => 1,
    }
}

/// Byte sequence of a special command: the `254` prefix and the opcode
/// repeated `n` times.
pub open spec fn special_frame(opcode: u8, n: nat) -> Seq<u8> {
    seq![SPECIAL_COMMAND] + Seq::new(n, |i: int| opcode)
}

/// Byte sequence of the backlight command: prefix, opcode, and the three
/// channel values remapped into the controller's accepted bands
/// (red `[128, 157]`, green `[158, 187]`, blue `[188, 217]`).
pub open spec fn backlight_frame(red: u8, green: u8, blue: u8) -> Seq<u8> {
    seq![
        SETTING_COMMAND,
        BACKLIGHT_RGB_COMMAND,
        (128 + spec_map_range(red as int, 0, 255, 0, 29)) as u8,
        (158 + spec_map_range(green as int, 0, 255, 0, 29)) as u8,
        (188 + spec_map_range(blue as int, 0, 255, 0, 29)) as u8,
    ]
}

/// Leaving the repeat count unspecified asks for exactly one repetition.
pub proof fn lemma_default_repeat_is_one(opcode: u8)
    ensures
        special_frame(opcode, repeat_count(Option::None)) == special_frame(opcode, repeat_count(
            Option::Some(1),
        )),
{
}

/// Build a plain setting command frame.
pub fn encode_command(opcode: u8) -> (data: Vec<u8>)
    ensures
        data@ == command_frame(opcode),
{
    let mut data: Vec<u8> = Vec::new();
    data.push(SETTING_COMMAND);
    data.push(opcode);
    proof {
        assert(data@ =~= command_frame(opcode));
    }
    data
}

/// Build a special command frame with the opcode repeated as often as
/// `count` asks, once when `count` is `None`.
pub fn encode_special_command(opcode: u8, count: Option<u8>) -> (data: Vec<u8>)
    ensures
        data@ == special_frame(opcode, repeat_count(count)),
{
    let n: u8 = match count {
        Option::Some(k) => k,
        Option::None => 1,
    };
    let mut data: Vec<u8> = Vec::new();
    data.push(SPECIAL_COMMAND);
    proof {
        assert(data@ =~= seq![SPECIAL_COMMAND] + Seq::new(0, |i: int| opcode));
    }
    let mut i: u8 = 0;
    while i < n
        invariant
            i <= n,
            data@ == seq![SPECIAL_COMMAND] + Seq::new(i as nat, |i: int| opcode),
        decreases n - i,
    {
        data.push(opcode);
        i = i + 1;
        proof {
            assert(data@ =~= seq![SPECIAL_COMMAND] + Seq::new(i as nat, |i: int| opcode));
        }
    }
    proof {
        assert(data@ =~= special_frame(opcode, repeat_count(count)));
    }
    data
}

/// Build the backlight command frame carrying the three remapped channel
/// values.
pub fn encode_backlight(red: u8, green: u8, blue: u8) -> (data: Vec<u8>)
    ensures
        data@ == backlight_frame(red, green, blue),
{
    let r: u8 = 128 + map_range(red, 0, 255, 0, 29);
    let g: u8 = 158 + map_range(green, 0, 255, 0, 29);
    let b: u8 = 188 + map_range(blue, 0, 255, 0, 29);
    let mut data: Vec<u8> = Vec::new();
    data.push(SETTING_COMMAND);
    data.push(BACKLIGHT_RGB_COMMAND);
    data.push(r);
    data.push(g);
    data.push(b);
    proof {
        assert(data@ =~= backlight_frame(red, green, blue));
    }
    data
}

} // verus!
