use vstd::prelude::*;

verus! {

/// Frames during which the sprite is held off screen.
pub const START_DELAY: u16 = 128;

/// Length, in frames, of the constant-velocity entrance ramp.
pub const RAMP_FRAMES: u16 = 512;

/// Frames after the start delay at which the eased horizontal sweep ends.
pub const SWEEP_END: u16 = 896;

/// Per-frame increment of the horizontal phase accumulator.
pub const ALPHA1_INC: u16 = 1365;

/// Per-frame increment of the vertical phase accumulator.
pub const ALPHA2_INC: u16 = 997;

/// The three stages of the sprite's timeline.
#[derive(PartialEq, Eq, Structural, Clone, Copy, Debug)]
pub enum MotionPhase {
    Hold,
    Ramp,
    Oscillate,
}

/// Division rounding toward zero, as machine division does.
pub open spec fn tdiv(a: int, d: int) -> int {
    if a >= 0 {
        a / d
    } else {
        -((-a) / d)
    }
}

pub open spec fn clamp_i8(v: int) -> int {
    if v < -128 {
        -128
    } else if v > 127 {
        127
    } else {
        v
    }
}

pub open spec fn phase_of(frame: int) -> MotionPhase {
    if frame < START_DELAY as int {
        MotionPhase::Hold
    } else if frame - START_DELAY < RAMP_FRAMES as int {
        MotionPhase::Ramp
    } else {
        MotionPhase::Oscillate
    }
}

/// Extra horizontal displacement that eases the sprite in after the ramp.
pub open spec fn sweep_offset(frame: int) -> int {
    if frame - START_DELAY < SWEEP_END as int {
        frame - START_DELAY - SWEEP_END
    } else {
        0
    }
}

/// Horizontal sprite offset for a frame, given the sine amplitude of the
/// horizontal phase.
pub open spec fn position_x(frame: int, sin_x: int) -> int {
    match phase_of(frame) {
        MotionPhase::Hold => 127,
        MotionPhase::Ramp => (frame - START_DELAY) / 2 - 128,
        MotionPhase::Oscillate => clamp_i8(tdiv(sweep_offset(frame), 2) + tdiv(sin_x, 4)),
    }
}

/// Vertical sprite offset for a frame, given the sine amplitude of the
/// vertical phase.
pub open spec fn position_y(frame: int, sin_y: int) -> int {
    match phase_of(frame) {
        MotionPhase::Oscillate => tdiv(sin_y, 4),
        _ => 0,
    }
}

/// Adds `inc` to a 16-bit phase accumulator, wrapping silently at 2^16.
pub fn advance(value: u16, inc: u16) -> (r: u16)
    ensures
        r as int == (value as int + inc as int) % 65536,
{
    value.wrapping_add(inc)
}

/// The 8-bit index into the sine function: the accumulator's high byte.
pub fn phase_index(alpha: u16) -> (r: u8)
    ensures
        r as int == alpha as int / 256,
{
    let hi: u16 = alpha >> 8;
    assert(alpha >> 8 == alpha / 256) by (bit_vector);
    hi as u8
}

/// Which stage of the timeline a frame count falls in.
pub fn motion_phase(frame_cnt: u16) -> (r: MotionPhase)
    ensures
        r == phase_of(frame_cnt as int),
{
    if frame_cnt < START_DELAY {
        MotionPhase::Hold
    } else if frame_cnt - START_DELAY < RAMP_FRAMES {
        MotionPhase::Ramp
    } else {
        MotionPhase::Oscillate
    }
}

/// Sprite position `(x, y)` for a frame: held off screen, then moved on at
/// constant speed, then driven by the two sine amplitudes.
pub fn ferris_position(frame_cnt: u16, sin_x: i8, sin_y: i8) -> (r: (i8, i8))
    ensures
        r.0 as int == position_x(frame_cnt as int, sin_x as int),
        r.1 as int == position_y(frame_cnt as int, sin_y as int),
{
    match motion_phase(frame_cnt) {
        MotionPhase::Hold => (127, 0),
        MotionPhase::Ramp => {
            let t: i16 = (frame_cnt - START_DELAY) as i16;
            ((t / 2 - 128) as i8, 0)
        },
        MotionPhase::Oscillate => {
            let t: u16 = frame_cnt - START_DELAY;
            let x_offs: i16 = if t < SWEEP_END {
                t as i16 - SWEEP_END as i16
            } else {
                0
            };
            let x: i16 = x_offs / 2 + (sin_x / 4) as i16;
            let x: i8 = if x < -128 {
                -128
            } else if x > 127 {
                127
            } else {
                x as i8
            };
            (x, sin_y / 4)
        },
    }
}

/// Fine horizontal scroll value that places the sprite at pixel offset `x`
/// within its 4-pixel byte: `15 - (x & 3)`.
pub fn ferris_hscroll(x: i8) -> (r: u8)
    ensures
        r as int == 15 - (x as int) % 4,
        12 <= r <= 15,
{
    let u: u8 = if x < 0 {
        (x as i16 + 256) as u8
    } else {
        x as u8
    };
    let low: u8 = u & 3;
    assert(u & 3 == u % 4) by (bit_vector);
    15 - low
}

/// Coarse byte offset of the sprite: `(128 + x) >> 2`.
pub fn byte_offset(x: i8) -> (r: u8)
    ensures
        r as int == (x as int + 128) / 4,
        r < 64,
{
    let u: u8 = (x as i16 + 128) as u8;
    let r: u8 = u >> 2;
    assert(u >> 2 == u / 4) by (bit_vector);
    r
}

/// Fine scroll value used for the text band, derived from the text position.
pub fn text_hscroll(text_pos: usize) -> (r: u8)
    ensures
        r as int == 3 - text_pos as int % 4,
{
    3 - (text_pos % 4) as u8
}

/// One step of the text scroll counter, which wraps at `period`.
pub fn advance_text_pos(pos: usize, period: usize) -> (r: usize)
    requires
        period > 0,
        pos < period,
    ensures
        r as int == (pos as int + 1) % period as int,
{
    if pos + 1 == period {
        proof {
            vstd::arithmetic::div_mod::lemma_mod_self_0(period as int);
        }
        0
    } else {
        proof {
            vstd::arithmetic::div_mod::lemma_small_mod((pos + 1) as nat, period as nat);
        }
        pos + 1
    }
}

/// Scroll period of a text line of `text_len` characters: four sub-positions
/// for each character that can scroll past one 32-character screen width.
pub fn text_period(text_len: usize) -> (r: usize)
    requires
        text_len > 32,
        (text_len - 32) * 4 <= usize::MAX,
    ensures
        r as int == (text_len as int - 32) * 4,
{
    (text_len - 32) * 4
}

/// Text position after `k` frames starting from zero, each frame one step of
/// `advance_text_pos`.
pub open spec fn text_pos_after(period: int, k: nat) -> int
    decreases k,
{
    if k == 0 {
        0
    } else {
        (text_pos_after(period, (k - 1) as nat) + 1) % period
    }
}

/// The text scroll counter started at zero is at `k mod period` after `k`
/// frames: it repeats with period exactly `period`, never returns to zero
/// earlier, and within a period it grows by one each frame.
pub proof fn lemma_text_scroll_cycle(period: int, k: nat)
    requires
        period > 0,
    ensures
        text_pos_after(period, k) == k as int % period,
        text_pos_after(period, k + period as nat) == text_pos_after(period, k),
        0 < k < period ==> text_pos_after(period, k) != 0,
        (k + 1) as int % period != 0 ==> text_pos_after(period, k + 1) == text_pos_after(period, k) + 1,
{
    let p = period;
    lemma_text_pos_after_mod(p, k);
    lemma_text_pos_after_mod(p, k + 1);
    lemma_text_pos_after_mod(p, k + p as nat);
    vstd::arithmetic::div_mod::lemma_mod_add_multiples_vanish(k as int, p);
    if 0 < k < p {
        vstd::arithmetic::div_mod::lemma_small_mod(k, p as nat);
    }
    lemma_mod_step(k as int, p);
    vstd::arithmetic::div_mod::lemma_mod_self_0(p);
    vstd::arithmetic::div_mod::lemma_mod_bound(k as int, p);
    if k as int % p + 1 < p {
        vstd::arithmetic::div_mod::lemma_small_mod((k as int % p + 1) as nat, p as nat);
    }
}

proof fn lemma_mod_step(a: int, p: int)
    requires
        p > 0,
    ensures
        (a % p + 1) % p == (a + 1) % p,
{
    vstd::arithmetic::div_mod::lemma_add_mod_noop_right(1, a, p);
}

proof fn lemma_text_pos_after_mod(period: int, k: nat)
    requires
        period > 0,
    ensures
        text_pos_after(period, k) == k as int % period,
    decreases k,
{
    if k > 0 {
        lemma_text_pos_after_mod(period, (k - 1) as nat);
        lemma_mod_step((k - 1) as int, period);
    } else {
        vstd::arithmetic::div_mod::lemma_small_mod(0, period as nat);
    }
}

/// The sprite's horizontal and vertical offsets stay within a signed byte for
/// every frame count and every sine amplitude.
pub proof fn lemma_position_in_range(frame: u16, sin_x: i8, sin_y: i8)
    ensures
        -128 <= position_x(frame as int, sin_x as int) <= 127,
        -128 <= position_y(frame as int, sin_y as int) <= 127,
{
}

/// Before the start delay the sprite sits at `(127, 0)`, whatever the phases.
pub proof fn lemma_held_off_screen(frame: u16, sin_x: i8, sin_y: i8)
    requires
        frame < START_DELAY,
    ensures
        position_x(frame as int, sin_x as int) == 127,
        position_y(frame as int, sin_y as int) == 0,
{
}

/// Inside the ramp window the horizontal offset follows the linear formula
/// `(frame - START_DELAY) / 2 - 128` and ignores the sine amplitude.
pub proof fn lemma_ramp_is_linear(frame: u16, sin_x1: i8, sin_x2: i8)
    requires
        START_DELAY <= frame < START_DELAY + RAMP_FRAMES,
    ensures
        position_x(frame as int, sin_x1 as int) == (frame - START_DELAY) / 2 - 128,
        position_x(frame as int, sin_x1 as int) == position_x(frame as int, sin_x2 as int),
{
}

} // verus!
