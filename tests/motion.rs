use ferris_demo::motion::{
    advance, advance_text_pos, byte_offset, ferris_hscroll, ferris_position, motion_phase,
    phase_index, text_hscroll, text_period, MotionPhase, ALPHA1_INC, ALPHA2_INC, START_DELAY,
};

#[test]
fn advance_adds_and_wraps() {
    assert_eq!(advance(0, ALPHA1_INC), 1365);
    assert_eq!(advance(0, ALPHA2_INC), 997);
    assert_eq!(advance(65000, 1365), 829);
    assert_eq!(advance(65535, 1), 0);
}

#[test]
fn advance_matches_modular_sum_everywhere() {
    for v in 0..=u16::MAX {
        for inc in [0u16, 1, 997, 1365, 65535] {
            let expected = ((v as u32 + inc as u32) % 65536) as u16;
            assert_eq!(advance(v, inc), expected);
        }
    }
}

#[test]
fn phase_index_is_high_byte() {
    assert_eq!(phase_index(0x1234), 0x12);
    assert_eq!(phase_index(0x00ff), 0);
    assert_eq!(phase_index(0xff00), 0xff);
}

#[test]
fn ferris_hscroll_values() {
    assert_eq!(ferris_hscroll(0), 15);
    assert_eq!(ferris_hscroll(5), 14);
    assert_eq!(ferris_hscroll(-1), 12);
    assert_eq!(ferris_hscroll(-128), 15);
    assert_eq!(ferris_hscroll(127), 12);
    for x in i8::MIN..=i8::MAX {
        let v = ferris_hscroll(x);
        assert_eq!(v, 15 - (x as u8 & 3));
        assert!(v <= 15);
    }
}

#[test]
fn byte_offset_values() {
    assert_eq!(byte_offset(-128), 0);
    assert_eq!(byte_offset(-1), 31);
    assert_eq!(byte_offset(0), 32);
    assert_eq!(byte_offset(127), 63);
    for x in i8::MIN..=i8::MAX {
        let b = byte_offset(x);
        assert_eq!(b, ((128 + x as i16) >> 2) as u8);
        assert!(b < 64);
    }
}

#[test]
fn text_hscroll_values() {
    assert_eq!(text_hscroll(0), 3);
    assert_eq!(text_hscroll(5), 2);
    assert_eq!(text_hscroll(7), 0);
    for p in 0..64usize {
        assert_eq!(text_hscroll(p), (15u8.wrapping_sub(p as u8)) & 3);
    }
}

#[test]
fn text_scroll_has_exact_period() {
    let period = text_period(40);
    assert_eq!(period, 32);
    let mut pos = 0usize;
    for k in 1..=period {
        let next = advance_text_pos(pos, period);
        if k < period {
            assert_eq!(next, pos + 1);
            assert_ne!(next, 0);
        } else {
            assert_eq!(next, 0);
        }
        pos = next;
    }
    assert_eq!(advance_text_pos(2, 4), 3);
    assert_eq!(advance_text_pos(3, 4), 0);
}

#[test]
fn motion_phase_thresholds() {
    assert_eq!(motion_phase(0), MotionPhase::Hold);
    assert_eq!(motion_phase(START_DELAY - 1), MotionPhase::Hold);
    assert_eq!(motion_phase(START_DELAY), MotionPhase::Ramp);
    assert_eq!(motion_phase(START_DELAY + 511), MotionPhase::Ramp);
    assert_eq!(motion_phase(START_DELAY + 512), MotionPhase::Oscillate);
    assert_eq!(motion_phase(u16::MAX), MotionPhase::Oscillate);
}

#[test]
fn first_frame_holds_sprite_off_screen() {
    for (sx, sy) in [(0i8, 0i8), (127, -128), (-128, 127), (55, -7)] {
        assert_eq!(ferris_position(0, sx, sy), (127, 0));
    }
}

#[test]
fn ramp_midpoint_follows_linear_formula() {
    let frame = START_DELAY + 256;
    for (sx, sy) in [(0i8, 0i8), (127, -128), (-128, 127)] {
        assert_eq!(ferris_position(frame, sx, sy), (0, 0));
    }
    assert_eq!(ferris_position(START_DELAY, 9, 9), (-128, 0));
    assert_eq!(ferris_position(START_DELAY + 511, 9, 9), (127, 0));
}

#[test]
fn oscillation_values() {
    assert_eq!(ferris_position(2000, 127, -128), (31, -32));
    assert_eq!(ferris_position(2000, -128, 127), (-32, 31));
    assert_eq!(ferris_position(2000, -3, 3), (0, 0));
    assert_eq!(ferris_position(START_DELAY + 600, 127, 0), (-117, 0));
    assert_eq!(ferris_position(START_DELAY + 600, -128, 0), (-128, 0));
}

#[test]
fn position_stays_in_signed_byte_range() {
    for frame in 0..=u16::MAX {
        for s in [-128i8, -1, 0, 1, 127] {
            let (x, y) = ferris_position(frame, s, s);
            assert!((-128..=127).contains(&(x as i16)));
            assert!((-32..=31).contains(&(y as i16)));
        }
    }
}
