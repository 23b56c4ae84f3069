use neopixel::neopixel::{
    breathing_step, neopixel_init_buffer, neopixel_set_data, neopixel_set_entire_data,
    BreathingAction, ARR_SIZE, NEOPIXEL_LOGIC_0, NEOPIXEL_LOGIC_1, NUM_LEDS, PACKET_SIZE,
    BREATHING_HALF_STEPS,
};

/// Reads back the color code stored at `position`, most significant bit first.
fn color_at(arr: &[u8; ARR_SIZE], position: usize) -> u32 {
    let mut rgb: u32 = 0;
    for j in 0..PACKET_SIZE {
        let byte = arr[position * PACKET_SIZE + j];
        assert!(byte == NEOPIXEL_LOGIC_0 || byte == NEOPIXEL_LOGIC_1);
        rgb = (rgb << 1) | if byte == NEOPIXEL_LOGIC_1 { 1 } else { 0 };
    }
    rgb
}

#[test]
fn constants_describe_the_strip() {
    assert_eq!(NUM_LEDS, 8);
    assert_eq!(PACKET_SIZE, 24);
    assert_eq!(ARR_SIZE, 192);
    assert_eq!(NEOPIXEL_LOGIC_0, 0x80);
    assert_eq!(NEOPIXEL_LOGIC_1, 0xF8);
}

#[test]
fn init_buffer_is_all_logic_0() {
    let arr = neopixel_init_buffer();
    assert_eq!(arr.len(), 192);
    assert!(arr.iter().all(|&b| b == 0x80));
}

#[test]
fn set_red_on_first_pixel() {
    let mut arr = neopixel_init_buffer();
    assert_eq!(neopixel_set_data(0xFF0000, 0, &mut arr), Ok(0));
    for i in 0..8 {
        assert_eq!(arr[i], 0xF8);
    }
    for i in 8..ARR_SIZE {
        assert_eq!(arr[i], 0x80);
    }
}

#[test]
fn set_green_on_last_pixel() {
    let mut arr = neopixel_init_buffer();
    assert_eq!(neopixel_set_data(0x00FF00, 7, &mut arr), Ok(0));
    let start = 7 * 24;
    for i in 0..start {
        assert_eq!(arr[i], 0x80);
    }
    for j in 0..24 {
        let expected = if (8..16).contains(&j) { 0xF8 } else { 0x80 };
        assert_eq!(arr[start + j], expected);
    }
}

#[test]
fn set_mixed_color_exact_bytes() {
    let mut arr = neopixel_init_buffer();
    // 0xA5 0x01 0x80: 1010_0101 0000_0001 1000_0000
    assert_eq!(neopixel_set_data(0xA50180, 2, &mut arr), Ok(0));
    let bits = [1, 0, 1, 0, 0, 1, 0, 1, 0, 0, 0, 0, 0, 0, 0, 1, 1, 0, 0, 0, 0, 0, 0, 0];
    for j in 0..24 {
        let expected = if bits[j] == 1 { 0xF8 } else { 0x80 };
        assert_eq!(arr[48 + j], expected);
    }
    assert_eq!(color_at(&arr, 2), 0xA50180);
}

#[test]
fn max_color_sets_every_bit() {
    let mut arr = neopixel_init_buffer();
    assert_eq!(neopixel_set_data(0xFFFFFF, 3, &mut arr), Ok(0));
    for j in 0..24 {
        assert_eq!(arr[72 + j], 0xF8);
    }
}

#[test]
fn color_too_large_is_refused() {
    let mut arr = neopixel_init_buffer();
    assert_eq!(neopixel_set_data(0x00FF00, 1, &mut arr), Ok(0));
    let before = arr;
    assert_eq!(
        neopixel_set_data(0x1000000, 0, &mut arr),
        Err("MAX VAL EXCEEDED FOR RGB VALUE")
    );
    assert_eq!(arr, before);
    assert_eq!(
        neopixel_set_data(0xFFFFFFFF, 3, &mut arr),
        Err("MAX VAL EXCEEDED FOR RGB VALUE")
    );
    assert_eq!(arr, before);
}

#[test]
fn position_out_of_bounds_is_refused() {
    let mut arr = neopixel_init_buffer();
    let before = arr;
    assert_eq!(
        neopixel_set_data(0x123456, 8, &mut arr),
        Err("EXCEEDED NEOPIXEL POSITION BOUNDS")
    );
    assert_eq!(
        neopixel_set_data(0x123456, usize::MAX, &mut arr),
        Err("EXCEEDED NEOPIXEL POSITION BOUNDS")
    );
    assert_eq!(arr, before);
}

#[test]
fn color_error_comes_before_position_error() {
    let mut arr = neopixel_init_buffer();
    assert_eq!(
        neopixel_set_data(0x1000000, 9, &mut arr),
        Err("MAX VAL EXCEEDED FOR RGB VALUE")
    );
}

#[test]
fn writing_a_pixel_leaves_the_others() {
    let mut arr = neopixel_init_buffer();
    assert_eq!(neopixel_set_data(0x112233, 4, &mut arr), Ok(0));
    assert_eq!(neopixel_set_data(0x445566, 5, &mut arr), Ok(0));
    assert_eq!(color_at(&arr, 4), 0x112233);
    assert_eq!(color_at(&arr, 5), 0x445566);
    for p in [0, 1, 2, 3, 6, 7] {
        assert_eq!(color_at(&arr, p), 0);
    }
}

#[test]
fn last_write_wins() {
    let mut a = neopixel_init_buffer();
    assert_eq!(neopixel_set_data(0xABCDEF, 6, &mut a), Ok(0));
    assert_eq!(neopixel_set_data(0x010203, 6, &mut a), Ok(0));
    let mut b = neopixel_init_buffer();
    assert_eq!(neopixel_set_data(0x010203, 6, &mut b), Ok(0));
    assert_eq!(a, b);
}

#[test]
fn writes_to_different_pixels_commute() {
    let mut a = neopixel_init_buffer();
    assert_eq!(neopixel_set_data(0xFF00FF, 0, &mut a), Ok(0));
    assert_eq!(neopixel_set_data(0x00FFFF, 7, &mut a), Ok(0));
    let mut b = neopixel_init_buffer();
    assert_eq!(neopixel_set_data(0x00FFFF, 7, &mut b), Ok(0));
    assert_eq!(neopixel_set_data(0xFF00FF, 0, &mut b), Ok(0));
    assert_eq!(a, b);
}

#[test]
fn distinct_colors_give_distinct_packets() {
    let mut a = neopixel_init_buffer();
    let mut b = neopixel_init_buffer();
    assert_eq!(neopixel_set_data(0x800000, 0, &mut a), Ok(0));
    assert_eq!(neopixel_set_data(0x000001, 0, &mut b), Ok(0));
    assert_ne!(a[0..24], b[0..24]);
    assert_eq!(color_at(&a, 0), 0x800000);
    assert_eq!(color_at(&b, 0), 0x000001);
}

#[test]
fn set_entire_data_fills_every_pixel() {
    let mut arr = neopixel_init_buffer();
    neopixel_set_entire_data(0x0000FF, &mut arr);
    for p in 0..NUM_LEDS {
        for j in 0..24 {
            let expected = if j >= 16 { 0xF8 } else { 0x80 };
            assert_eq!(arr[p * 24 + j], expected);
        }
        assert_eq!(color_at(&arr, p), 0x0000FF);
    }
}

#[test]
fn set_entire_data_black_is_the_initial_buffer() {
    let mut arr = neopixel_init_buffer();
    neopixel_set_entire_data(0xFFFFFF, &mut arr);
    assert!(arr.iter().all(|&b| b == 0xF8));
    neopixel_set_entire_data(0, &mut arr);
    assert_eq!(arr, neopixel_init_buffer());
}

#[test]
fn set_entire_data_then_same_pixel_write_changes_nothing() {
    let mut arr = neopixel_init_buffer();
    neopixel_set_entire_data(0x3C3C3C, &mut arr);
    let before = arr;
    assert_eq!(neopixel_set_data(0x3C3C3C, 5, &mut arr), Ok(0));
    assert_eq!(arr, before);
}

#[test]
fn breathing_rises_falls_and_turns_off() {
    let mut arr = neopixel_init_buffer();
    let mut colors = Vec::new();
    let mut delays = Vec::new();
    let mut step: u32 = 0;
    loop {
        match breathing_step(step, &mut arr) {
            BreathingAction::SendThenWait(ms) => {
                colors.push(color_at(&arr, 0));
                delays.push(ms);
            }
            BreathingAction::Send => {
                colors.push(color_at(&arr, 0));
                delays.push(0);
            }
            BreathingAction::Done => break,
        }
        for p in 1..NUM_LEDS {
            assert_eq!(color_at(&arr, p), color_at(&arr, 0));
        }
        step += 1;
    }
    assert_eq!(step, 41);
    let mut expected: Vec<u32> = (0..20).collect();
    expected.extend((1..=20).rev());
    expected.push(0);
    assert_eq!(colors, expected);
    for (i, d) in delays.iter().enumerate() {
        let want = if i < 20 { 125 } else if i < 40 { 100 } else { 0 };
        assert_eq!(*d, want);
    }
    assert_eq!(arr, neopixel_init_buffer());
}

#[test]
fn breathing_step_values() {
    let mut arr = neopixel_init_buffer();
    assert_eq!(BREATHING_HALF_STEPS, 20);
    assert_eq!(breathing_step(0, &mut arr), BreathingAction::SendThenWait(125));
    assert_eq!(color_at(&arr, 3), 0);
    assert_eq!(breathing_step(19, &mut arr), BreathingAction::SendThenWait(125));
    assert_eq!(color_at(&arr, 3), 19);
    assert_eq!(breathing_step(20, &mut arr), BreathingAction::SendThenWait(100));
    assert_eq!(color_at(&arr, 3), 20);
    assert_eq!(breathing_step(39, &mut arr), BreathingAction::SendThenWait(100));
    assert_eq!(color_at(&arr, 3), 1);
    assert_eq!(breathing_step(40, &mut arr), BreathingAction::Send);
    assert_eq!(color_at(&arr, 3), 0);
}

#[test]
fn breathing_past_the_end_leaves_buffer() {
    let mut arr = neopixel_init_buffer();
    neopixel_set_entire_data(0x123456, &mut arr);
    let before = arr;
    assert_eq!(breathing_step(41, &mut arr), BreathingAction::Done);
    assert_eq!(breathing_step(u32::MAX, &mut arr), BreathingAction::Done);
    assert_eq!(arr, before);
}
