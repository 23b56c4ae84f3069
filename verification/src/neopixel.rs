//! Building the SPI transmit buffer for a WS2812 strip.
//!
//! Edit the constants below to match the strip (for example, set `NUM_LEDS`
//! to 24 for a ring of 24 pixels).

use vstd::prelude::*;

verus! {

/// Desired number of neopixels to control.
pub const NUM_LEDS: usize = 8;

/// Number of color bits per neopixel; each bit takes one byte of the buffer.
pub const PACKET_SIZE: usize = 24;

/// Size of the transmit buffer: `NUM_LEDS * PACKET_SIZE`.
pub const ARR_SIZE: usize = NUM_LEDS * PACKET_SIZE;

/// SPI byte whose waveform a WS2812 reads as a 0 bit.
pub const NEOPIXEL_LOGIC_0: u8 = 0x80;

/// SPI byte whose waveform a WS2812 reads as a 1 bit.
pub const NEOPIXEL_LOGIC_1: u8 = 0xF8;

/// Hex color code for black (no light).
const TURN_OFF: u32 = 0x000000;

/// Whether bit `k` (0 is the least significant) of `rgb` is set.
pub open spec fn color_bit(rgb: u32, k: u32) -> bool {
    (rgb >> k) & 1u32 == 1u32
}

/// The buffer byte that carries one color bit.
pub open spec fn symbol_byte(bit: bool) -> u8 {
    if bit {
        NEOPIXEL_LOGIC_1
    } else {
        NEOPIXEL_LOGIC_0
    }
}

/// The bytes that send the 24-bit color `rgb` to one pixel: one byte per
/// color bit, most significant bit first.
pub open spec fn pixel_packet(rgb: u32) -> Seq<u8> {
    Seq::new(PACKET_SIZE as nat, |j: int| symbol_byte(color_bit(rgb, (23 - j) as u32)))
}

/// The bytes of `frame` that belong to the pixel at `position`.
pub open spec fn pixel_of(frame: Seq<u8>, position: int) -> Seq<u8> {
    frame.subrange(position * 24, position * 24 + 24)
}

/// `frame` with the pixel at `position` set to the color `rgb`, every other
/// byte as it was.
pub open spec fn with_pixel(frame: Seq<u8>, position: int, rgb: u32) -> Seq<u8> {
    Seq::new(
        frame.len(),
        |i: int|
            if position * 24 <= i < position * 24 + 24 {
                pixel_packet(rgb)[i - position * 24]
            } else {
                frame[i]
            },
    )
}

/// A buffer in which every pixel of the strip shows the color `rgb`.
pub open spec fn whole_strip(rgb: u32) -> Seq<u8> {
    Seq::new(ARR_SIZE as nat, |i: int| pixel_packet(rgb)[i % 24])
}

/// The mask `0x800000 >> i` selects color bit `23 - i`.
proof fn lemma_mask_selects_bit(rgb: u32, i: u32)
    requires
        i < 24,
    ensures
        ((rgb & (0x800000u32 >> i)) > 0) == color_bit(rgb, (23 - i) as u32),
        (0x800000u32 >> i) >> 1u32 == 0x800000u32 >> ((i + 1) as u32),
{
    assert(((rgb & (0x800000u32 >> i)) > 0) == ((rgb >> ((23 - i) as u32)) & 1u32 == 1u32))
        by (bit_vector)
        requires
            i < 24,
    ;
    assert((0x800000u32 >> i) >> 1u32 == 0x800000u32 >> ((i + 1) as u32)) by (bit_vector)
        requires
            i < 24,
    ;
}

/// Sets a specific neopixel to a desired color code.
///
/// Fails, leaving the buffer as it was, when the color code does not fit in
/// 24 bits or the position is past the last pixel.
pub fn neopixel_set_data(rgb_color: u32, position: usize, arr: &mut [u8; ARR_SIZE]) -> (r: Result<
    u8,
    &str,
>)
    ensures
        rgb_color > 0xFFFFFF ==> (r matches Err(e) && e@ == "MAX VAL EXCEEDED FOR RGB VALUE"@),
        rgb_color <= 0xFFFFFF && position >= NUM_LEDS ==> (r matches Err(e) && e@
            == "EXCEEDED NEOPIXEL POSITION BOUNDS"@),
        r is Err ==> final(arr)@ == old(arr)@,
        rgb_color <= 0xFFFFFF && position < NUM_LEDS ==> r == Ok::<u8, &str>(0u8) && final(arr)@
            == with_pixel(old(arr)@, position as int, rgb_color),
{
    // error checking for RGB value
    if rgb_color > 0xFFFFFF {
        // color code exceeds RGB max value
        return Err("MAX VAL EXCEEDED FOR RGB VALUE");
    }
    // subtract one because we are indexing from 0!

    if position > (NUM_LEDS - 1) {
        return Err("EXCEEDED NEOPIXEL POSITION BOUNDS");
    }
    let mut bit_mask: u32 = 0x800000;
    let mut arr_idx: usize = position * PACKET_SIZE;
    let mut result: u32;
    let ghost start: int = arr_idx as int;
    assert(0x800000u32 >> 0u32 == 0x800000u32) by (bit_vector);

    // iterate through every color bit in 24-bit RGB code
    for i in 0..24u32
        invariant
            position < NUM_LEDS,
            start == position * 24,
            arr_idx == start + i,
            bit_mask == 0x800000u32 >> i,
            forall|k: int| 0 <= k < i ==> arr@[start + k] == #[trigger] pixel_packet(rgb_color)[k],
            forall|k: int|
                0 <= k < ARR_SIZE && !(start <= k < start + i) ==> arr@[k] == old(arr)@[k],
    {
        proof {
            lemma_mask_selects_bit(rgb_color, i);
        }
        result = rgb_color & bit_mask;
        if result > 0 {
            arr[arr_idx] = NEOPIXEL_LOGIC_1;
        } else {
            arr[arr_idx] = NEOPIXEL_LOGIC_0;
        }
        arr_idx += 1;  // increment to next element in array
        bit_mask = bit_mask >> 1;  // shift to next bit
    }
    assert(arr@ =~= with_pixel(old(arr)@, position as int, rgb_color));
    return Ok(0);
}

/// Sets the entire user-defined neopixel array to a particular color code.
///
/// The color code must fit in 24 bits.
pub fn neopixel_set_entire_data(rgb_color: u32, arr: &mut [u8; ARR_SIZE])
    requires
        rgb_color <= 0xFFFFFF,
    ensures
        final(arr)@ == whole_strip(rgb_color),
{
    for i in 0..NUM_LEDS
        invariant
            rgb_color <= 0xFFFFFF,
            forall|k: int| 0 <= k < i * 24 ==> arr@[k] == #[trigger] whole_strip(rgb_color)[k],
    {
        let ghost before = arr@;
        neopixel_set_data(rgb_color, i, arr).unwrap();
        assert forall|k: int| 0 <= k < (i + 1) * 24 implies arr@[k] == #[trigger] whole_strip(
            rgb_color,
        )[k] by {
            if k >= i * 24 {
                assert(k % 24 == k - i * 24);
            } else {
                assert(arr@[k] == before[k]);
            }
        }
    }
    assert(arr@ =~= whole_strip(rgb_color));
}

/// Returns a buffer for the desired number of neopixels (`NUM_LEDS`), with
/// every byte the waveform of a 0 bit.
pub fn neopixel_init_buffer() -> (arr: [u8; ARR_SIZE])
    ensures
        arr@ == Seq::new(ARR_SIZE as nat, |i: int| NEOPIXEL_LOGIC_0),
{
    // init to all zeroes
    let mut arr: [u8; ARR_SIZE] = [0;ARR_SIZE];

    // final init array stage is to prepare entire array with NEOPIXEL_LOGIC_0
    for i in 0..ARR_SIZE
        invariant
            forall|k: int| 0 <= k < i ==> arr@[k] == NEOPIXEL_LOGIC_0,
    {
        arr[i] = NEOPIXEL_LOGIC_0;
    }
    assert(arr@ =~= Seq::new(ARR_SIZE as nat, |i: int| NEOPIXEL_LOGIC_0));
    return arr;
}

/// Number of frames in each half (rising, then falling) of the breathing animation.
pub const BREATHING_HALF_STEPS: u32 = 20;

/// What the driver does once a step of the breathing animation has filled the buffer.
#[derive(Debug, Clone, Copy, PartialEq, Eq, Structural)]
pub enum BreathingAction {
    /// Send the buffer, then wait this many milliseconds.
    SendThenWait(u32),
    /// Send the buffer; the animation is then over.
    Send,
    /// The animation is over: nothing to send.
    Done,
}

/// The color that the whole strip shows at `step` of the breathing animation:
/// it rises by one from 0 to 19, falls by one from 20 to 1, then is black.
pub open spec fn breathing_color(step: int) -> u32 {
    if step < 20 {
        step as u32
    } else if step < 40 {
        (40 - step) as u32
    } else {
        0
    }
}

/// The action that follows `step` of the breathing animation: a pause of
/// 125 ms on the way up, 100 ms on the way down, a last frame without pause,
/// and nothing after it.
pub open spec fn breathing_action(step: int) -> BreathingAction {
    if step < 20 {
        BreathingAction::SendThenWait(125)
    } else if step < 40 {
        BreathingAction::SendThenWait(100)
    } else if step == 40 {
        BreathingAction::Send
    } else {
        BreathingAction::Done
    }
}

/// One step of the breathing animation: the strip glows up from black to
/// color code 20 and back down, then is turned off.
///
/// Fills `arr` with the frame for `step` (every pixel the same color) and
/// says what to do with it; steps past the last one leave `arr` alone.
pub fn breathing_step(step: u32, arr: &mut [u8; ARR_SIZE]) -> (action: BreathingAction)
    ensures
        action == breathing_action(step as int),
        step <= 40 ==> final(arr)@ == whole_strip(breathing_color(step as int)),
        step > 40 ==> final(arr)@ == old(arr)@,
{
    if step < BREATHING_HALF_STEPS {
        // glowing up: one color code higher per step
        neopixel_set_entire_data(step, arr);
        BreathingAction::SendThenWait(125)
    } else if step < 2 * BREATHING_HALF_STEPS {
        // dimming down: one color code lower per step
        neopixel_set_entire_data(2 * BREATHING_HALF_STEPS - step, arr);
        BreathingAction::SendThenWait(100)
    } else if step == 2 * BREATHING_HALF_STEPS {
        // reset neopixels back to the dark state
        neopixel_set_entire_data(TURN_OFF, arr);
        BreathingAction::Send
    } else {
        BreathingAction::Done
    }
}

} // verus!
