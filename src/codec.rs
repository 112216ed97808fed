//! The device's wire format: every command is a fixed nine-byte frame.
use vstd::prelude::*;

use crate::controller::Color;

verus! {

/// One command as sent to the device.
pub type Frame = [u8; 9];

/// First byte of every frame.
pub const FRAME_START: u8 = 0x7B;

/// Last byte of every frame.
pub const FRAME_END: u8 = 0xBF;

/// Value carried by reserved bytes.
pub const FILLER: u8 = 0xFF;

/// Opcodes, at byte 2 of a frame.
pub const OP_PATTERN: u8 = 0x03;

pub const OP_POWER: u8 = 0x04;

pub const OP_MIC: u8 = 0x06;

pub const OP_COLOR: u8 = 0x07;

/// Values of the power switch byte.
pub const POWER_ON: u8 = 0x03;

pub const POWER_OFF: u8 = 0x02;

/// Position of the argument byte in power, pattern and mic frames.
pub const ARG_AT: usize = 3;

/// Highest pattern index the device knows; larger indices are clamped to it.
pub const MAX_PATTERN: u8 = 210;

/// The bytes of the power frame.
pub open spec fn power_frame(on: bool) -> Seq<u8> {
    seq![
        FRAME_START,
        FILLER,
        OP_POWER,
        if on { POWER_ON } else { POWER_OFF },
        FILLER,
        FILLER,
        FILLER,
        FILLER,
        FRAME_END,
    ]
}

/// Builds the frame that switches the light on or off.
pub fn encode_power(on: bool) -> (r: Frame)
    ensures
        r@ == power_frame(on),
{
    let switch: u8 = if on {
        POWER_ON
    } else {
        POWER_OFF
    };
    let r: Frame = [FRAME_START, FILLER, OP_POWER, switch, FILLER, FILLER, FILLER, FILLER, FRAME_END];
    assert(r@ =~= power_frame(on));
    r
}

/// The bytes of the color frame: the three channels at bytes 3, 4 and 5.
pub open spec fn color_frame(c: Color) -> Seq<u8> {
    seq![FRAME_START, FILLER, OP_COLOR, c.r, c.g, c.b, 0x00, FILLER, FRAME_END]
}

/// A pattern index brought into the range the device knows.
pub open spec fn clamp_pattern(index: u8) -> u8 {
    if index > MAX_PATTERN {
        MAX_PATTERN
    } else {
        index
    }
}

/// The bytes of the pattern frame carrying `index` as it is placed.
pub open spec fn pattern_frame(index: u8) -> Seq<u8> {
    seq![FRAME_START, FILLER, OP_PATTERN, index, FILLER, FILLER, FILLER, FILLER, FRAME_END]
}

/// The bytes of the microphone sensitivity frame.
pub open spec fn mic_frame(sensitivity: u8) -> Seq<u8> {
    seq![FRAME_START, FILLER, OP_MIC, sensitivity, FILLER, FILLER, FILLER, FILLER, FRAME_END]
}

/// Builds the frame that sets the light's color.
pub fn encode_color(color: Color) -> (r: Frame)
    ensures
        r@ == color_frame(color),
{
    let r: Frame = [FRAME_START, FILLER, OP_COLOR, color.r, color.g, color.b, 0x00, FILLER, FRAME_END];
    assert(r@ =~= color_frame(color));
    r
}

/// Builds the frame that selects a pattern; indices above the last pattern
/// select the last one.
pub fn encode_pattern(index: u8) -> (r: Frame)
    ensures
        r@ == pattern_frame(clamp_pattern(index)),
{
    let placed: u8 = if index > MAX_PATTERN {
        MAX_PATTERN
    } else {
        index
    };
    let r: Frame = [FRAME_START, FILLER, OP_PATTERN, placed, FILLER, FILLER, FILLER, FILLER, FRAME_END];
    assert(r@ =~= pattern_frame(clamp_pattern(index)));
    r
}

/// Builds the frame that sets the microphone sensitivity; every byte value
/// is legal.
pub fn encode_mic(sensitivity: u8) -> (r: Frame)
    ensures
        r@ == mic_frame(sensitivity),
{
    let r: Frame = [FRAME_START, FILLER, OP_MIC, sensitivity, FILLER, FILLER, FILLER, FILLER, FRAME_END];
    assert(r@ =~= mic_frame(sensitivity));
    r
}

/// The power frame depends on the switch alone, and the "on" and "off"
/// frames have the same length and differ in exactly one byte, the switch.
pub proof fn lemma_power_frames_differ_in_switch_only(on: bool)
    ensures
        power_frame(on).len() == 9,
        power_frame(on)[ARG_AT as int] == if on { POWER_ON } else { POWER_OFF },
        forall|i: int|
            0 <= i < 9 ==> (power_frame(true)[i] != power_frame(false)[i] <==> i == ARG_AT),
{
}

/// The color frame carries each channel unmodified at its own byte, and
/// every other byte is the same for all colors.
pub proof fn lemma_color_channels_in_place(c: Color, d: Color)
    ensures
        color_frame(c).len() == 9,
        color_frame(c)[3] == c.r,
        color_frame(c)[4] == c.g,
        color_frame(c)[5] == c.b,
        forall|i: int| 0 <= i < 9 && !(3 <= i < 6) ==> color_frame(c)[i] == color_frame(d)[i],
{
}

/// Pattern indices up to the last pattern are placed unmodified; every
/// larger index gives the same frame as the last pattern.
pub proof fn lemma_pattern_clamped(index: u8)
    ensures
        index <= MAX_PATTERN ==> pattern_frame(clamp_pattern(index))[ARG_AT as int] == index,
        index >= MAX_PATTERN ==> pattern_frame(clamp_pattern(index)) == pattern_frame(
            clamp_pattern(MAX_PATTERN),
        ),
        pattern_frame(clamp_pattern(255)) == pattern_frame(clamp_pattern(210)),
{
}

/// The sensitivity is placed unmodified, so distinct sensitivities give
/// distinct frames.
pub proof fn lemma_mic_unclamped(s: u8, t: u8)
    ensures
        mic_frame(s)[ARG_AT as int] == s,
        s != t ==> mic_frame(s) != mic_frame(t),
        mic_frame(0) != mic_frame(255),
{
    if s != t {
        assert(mic_frame(s)[ARG_AT as int] != mic_frame(t)[ARG_AT as int]);
    }
    assert(mic_frame(0)[ARG_AT as int] != mic_frame(255)[ARG_AT as int]);
}

} // verus!
