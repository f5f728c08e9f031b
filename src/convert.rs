//! Scaling of raw control samples into the seven-bit range of the protocol.
use vstd::prelude::*;

verus! {

/// The largest value a seven-bit protocol data byte can carry.
pub const MIDI_MAX_VALUE: u8 = 127;

/// The native range that a device declares for one of its axes.
#[derive(Clone, Copy, Debug, PartialEq, Eq, Structural)]
pub struct AxisRange {
    pub min: i32,
    pub max: i32,
}

/// Linear scaling of `raw` from `[min, max]` onto `[0, 127]`, rounded to the
/// nearest step (halves round up) and clamped at both ends.
pub open spec fn axis_output(raw: int, min: int, max: int) -> int {
    if raw <= min {
        0
    } else if raw >= max {
        127
    } else {
        ((raw - min) * 254 + (max - min)) / (2 * (max - min))
    }
}

proof fn lemma_scaled_in_range(off: int, span: int)
    requires
        0 < off < span,
    ensures
        0 <= (off * 254 + span) / (2 * span) <= 127,
{
    assert(off * 254 + span < 255 * span) by (nonlinear_arith)
        requires
            0 < off < span,
    ;
    assert((off * 254 + span) / (2 * span) <= 127) by (nonlinear_arith)
        requires
            off * 254 + span < 255 * span,
            0 < span,
    ;
    assert(0 <= (off * 254 + span) / (2 * span)) by (nonlinear_arith)
        requires
            0 < off,
            0 < span,
    ;
}

/// Maps a raw axis sample onto the protocol's seven-bit value range, using the
/// axis's declared native range.
pub fn convert_axis(raw: i32, range: AxisRange) -> (r: u8)
    ensures
        r as int == axis_output(raw as int, range.min as int, range.max as int),
        r <= 127,
{
    if raw <= range.min {
        0
    } else if raw >= range.max {
        MIDI_MAX_VALUE
    } else {
        let span: i64 = range.max as i64 - range.min as i64;
        let off: i64 = raw as i64 - range.min as i64;
        proof {
            lemma_scaled_in_range(off as int, span as int);
        }
        let scaled: i64 = (off * 254 + span) / (2 * span);
        scaled as u8
    }
}


/// Maps a raw sample of an axis onto `0 ..= 127`, against the native range
/// that the axis's device declared.
pub fn map_value(value: i32, range: AxisRange) -> (r: u8)
    ensures
        r as int == axis_output(value as int, range.min as int, range.max as int),
        r <= 127,
{
    convert_axis(value, range)
}

/// The value a button sends: `on_value` while pressed, zero once released.
pub open spec fn button_output(pressed: bool, on_value: u8) -> u8 {
    if pressed {
        on_value
    } else {
        0
    }
}

/// Binary conversion of a button state into a protocol value.
pub fn button_value(pressed: bool, on_value: u8) -> (r: u8)
    ensures
        r == button_output(pressed, on_value),
{
    if pressed {
        on_value
    } else {
        0
    }
}

/// Axis conversion is monotonic: a larger raw sample never yields a smaller
/// output, and every output lies in `0 ..= 127`.
pub proof fn lemma_axis_output_monotonic(a: int, b: int, range: AxisRange)
    requires
        a <= b,
    ensures
        0 <= axis_output(a, range.min as int, range.max as int) <= 127,
        0 <= axis_output(b, range.min as int, range.max as int) <= 127,
        axis_output(a, range.min as int, range.max as int) <= axis_output(
            b,
            range.min as int,
            range.max as int,
        ),
{
    let lo = range.min as int;
    let hi = range.max as int;
    if a > lo && a < hi {
        lemma_scaled_in_range(a - lo, hi - lo);
    }
    if b > lo && b < hi {
        lemma_scaled_in_range(b - lo, hi - lo);
    }
    if a > lo && b < hi {
        let d = 2 * (hi - lo);
        let na = (a - lo) * 254 + (hi - lo);
        let nb = (b - lo) * 254 + (hi - lo);
        assert(na <= nb) by (nonlinear_arith)
            requires
                a <= b,
                na == (a - lo) * 254 + (hi - lo),
                nb == (b - lo) * 254 + (hi - lo),
        ;
        vstd::arithmetic::div_mod::lemma_div_is_ordered(na, nb, d);
    }
}

} // verus!
