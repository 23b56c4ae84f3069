//! Properties of the buffer encoding that span several operations.

use vstd::prelude::*;

use crate::neopixel::{
    ARR_SIZE, NEOPIXEL_LOGIC_0, NEOPIXEL_LOGIC_1, NUM_LEDS, PACKET_SIZE, breathing_color,
    color_bit, pixel_of, pixel_packet, symbol_byte, whole_strip, with_pixel,
};

verus! {

/// A 24-bit value is determined by its 24 low bits.
proof fn lemma_bits_determine_color(a: u32, b: u32)
    requires
        a <= 0xFFFFFF,
        b <= 0xFFFFFF,
        forall|k: u32| k < 24 ==> #[trigger] color_bit(a, k) == color_bit(b, k),
    ensures
        a == b,
{
    assert(color_bit(a, 0u32) == color_bit(b, 0u32));
    assert(color_bit(a, 1u32) == color_bit(b, 1u32));
    assert(color_bit(a, 2u32) == color_bit(b, 2u32));
    assert(color_bit(a, 3u32) == color_bit(b, 3u32));
    assert(color_bit(a, 4u32) == color_bit(b, 4u32));
    assert(color_bit(a, 5u32) == color_bit(b, 5u32));
    assert(color_bit(a, 6u32) == color_bit(b, 6u32));
    assert(color_bit(a, 7u32) == color_bit(b, 7u32));
    assert(color_bit(a, 8u32) == color_bit(b, 8u32));
    assert(color_bit(a, 9u32) == color_bit(b, 9u32));
    assert(color_bit(a, 10u32) == color_bit(b, 10u32));
    assert(color_bit(a, 11u32) == color_bit(b, 11u32));
    assert(color_bit(a, 12u32) == color_bit(b, 12u32));
    assert(color_bit(a, 13u32) == color_bit(b, 13u32));
    assert(color_bit(a, 14u32) == color_bit(b, 14u32));
    assert(color_bit(a, 15u32) == color_bit(b, 15u32));
    assert(color_bit(a, 16u32) == color_bit(b, 16u32));
    assert(color_bit(a, 17u32) == color_bit(b, 17u32));
    assert(color_bit(a, 18u32) == color_bit(b, 18u32));
    assert(color_bit(a, 19u32) == color_bit(b, 19u32));
    assert(color_bit(a, 20u32) == color_bit(b, 20u32));
    assert(color_bit(a, 21u32) == color_bit(b, 21u32));
    assert(color_bit(a, 22u32) == color_bit(b, 22u32));
    assert(color_bit(a, 23u32) == color_bit(b, 23u32));
    assert(a == b) by (bit_vector)
        requires
            a <= 0xFFFFFFu32,
            b <= 0xFFFFFFu32,
            ((a >> 0u32) & 1u32 == 1u32) == ((b >> 0u32) & 1u32 == 1u32),
            ((a >> 1u32) & 1u32 == 1u32) == ((b >> 1u32) & 1u32 == 1u32),
            ((a >> 2u32) & 1u32 == 1u32) == ((b >> 2u32) & 1u32 == 1u32),
            ((a >> 3u32) & 1u32 == 1u32) == ((b >> 3u32) & 1u32 == 1u32),
            ((a >> 4u32) & 1u32 == 1u32) == ((b >> 4u32) & 1u32 == 1u32),
            ((a >> 5u32) & 1u32 == 1u32) == ((b >> 5u32) & 1u32 == 1u32),
            ((a >> 6u32) & 1u32 == 1u32) == ((b >> 6u32) & 1u32 == 1u32),
            ((a >> 7u32) & 1u32 == 1u32) == ((b >> 7u32) & 1u32 == 1u32),
            ((a >> 8u32) & 1u32 == 1u32) == ((b >> 8u32) & 1u32 == 1u32),
            ((a >> 9u32) & 1u32 == 1u32) == ((b >> 9u32) & 1u32 == 1u32),
            ((a >> 10u32) & 1u32 == 1u32) == ((b >> 10u32) & 1u32 == 1u32),
            ((a >> 11u32) & 1u32 == 1u32) == ((b >> 11u32) & 1u32 == 1u32),
            ((a >> 12u32) & 1u32 == 1u32) == ((b >> 12u32) & 1u32 == 1u32),
            ((a >> 13u32) & 1u32 == 1u32) == ((b >> 13u32) & 1u32 == 1u32),
            ((a >> 14u32) & 1u32 == 1u32) == ((b >> 14u32) & 1u32 == 1u32),
            ((a >> 15u32) & 1u32 == 1u32) == ((b >> 15u32) & 1u32 == 1u32),
            ((a >> 16u32) & 1u32 == 1u32) == ((b >> 16u32) & 1u32 == 1u32),
            ((a >> 17u32) & 1u32 == 1u32) == ((b >> 17u32) & 1u32 == 1u32),
            ((a >> 18u32) & 1u32 == 1u32) == ((b >> 18u32) & 1u32 == 1u32),
            ((a >> 19u32) & 1u32 == 1u32) == ((b >> 19u32) & 1u32 == 1u32),
            ((a >> 20u32) & 1u32 == 1u32) == ((b >> 20u32) & 1u32 == 1u32),
            ((a >> 21u32) & 1u32 == 1u32) == ((b >> 21u32) & 1u32 == 1u32),
            ((a >> 22u32) & 1u32 == 1u32) == ((b >> 22u32) & 1u32 == 1u32),
            ((a >> 23u32) & 1u32 == 1u32) == ((b >> 23u32) & 1u32 == 1u32),
    ;
}

/// Distinct colors are sent as distinct waveforms: the bytes of a pixel
/// determine the 24-bit color that was written there.
pub proof fn lemma_pixel_packet_injective(a: u32, b: u32)
    requires
        a <= 0xFFFFFF,
        b <= 0xFFFFFF,
    ensures
        pixel_packet(a) == pixel_packet(b) <==> a == b,
{
    if pixel_packet(a) == pixel_packet(b) {
        assert forall|k: u32| k < 24 implies #[trigger] color_bit(a, k) == color_bit(b, k) by {
            let j: int = 23 - k;
            assert(pixel_packet(a)[j] == pixel_packet(b)[j]);
            assert((23 - j) as u32 == k);
        }
        lemma_bits_determine_color(a, b);
    }
}

/// Every byte of a pixel's packet is one of the two waveform bytes, and the
/// byte at offset `j` is the 1-waveform exactly when color bit `23 - j` is set.
pub proof fn lemma_pixel_packet_symbols(rgb: u32, j: int)
    requires
        0 <= j < PACKET_SIZE,
    ensures
        pixel_packet(rgb).len() == PACKET_SIZE,
        pixel_packet(rgb)[j] == NEOPIXEL_LOGIC_0 || pixel_packet(rgb)[j] == NEOPIXEL_LOGIC_1,
        pixel_packet(rgb)[j] == NEOPIXEL_LOGIC_1 <==> color_bit(rgb, (23 - j) as u32),
{
}

/// A freshly initialised buffer, all 0-waveform bytes, shows every pixel black.
pub proof fn lemma_initial_buffer_is_black()
    ensures
        Seq::new(ARR_SIZE as nat, |i: int| NEOPIXEL_LOGIC_0) == whole_strip(0),
{
    assert forall|k: u32| !#[trigger] color_bit(0, k) by {
        assert((0u32 >> k) & 1u32 != 1u32) by (bit_vector);
    }
    assert(Seq::new(ARR_SIZE as nat, |i: int| NEOPIXEL_LOGIC_0) =~= whole_strip(0));
}

/// Writing a pixel changes that pixel to the new color and no other pixel.
pub proof fn lemma_write_reads_back(frame: Seq<u8>, p: int, q: int, rgb: u32)
    requires
        frame.len() == ARR_SIZE,
        0 <= p < NUM_LEDS,
        0 <= q < NUM_LEDS,
    ensures
        with_pixel(frame, p, rgb).len() == ARR_SIZE,
        pixel_of(with_pixel(frame, p, rgb), p) == pixel_packet(rgb),
        q != p ==> pixel_of(with_pixel(frame, p, rgb), q) == pixel_of(frame, q),
{
    assert(pixel_of(with_pixel(frame, p, rgb), p) =~= pixel_packet(rgb));
    if q != p {
        assert(pixel_of(with_pixel(frame, p, rgb), q) =~= pixel_of(frame, q));
    }
}

/// Writing the same pixel twice leaves only the second color.
pub proof fn lemma_last_write_wins(frame: Seq<u8>, p: int, a: u32, b: u32)
    ensures
        with_pixel(with_pixel(frame, p, a), p, b) == with_pixel(frame, p, b),
{
    assert(with_pixel(with_pixel(frame, p, a), p, b) =~= with_pixel(frame, p, b));
}

/// Writes to two different pixels do not depend on their order.
pub proof fn lemma_writes_commute(frame: Seq<u8>, p: int, q: int, a: u32, b: u32)
    requires
        0 <= p < NUM_LEDS,
        0 <= q < NUM_LEDS,
        p != q,
    ensures
        with_pixel(with_pixel(frame, p, a), q, b) == with_pixel(with_pixel(frame, q, b), p, a),
{
    assert(with_pixel(with_pixel(frame, p, a), q, b) =~= with_pixel(
        with_pixel(frame, q, b),
        p,
        a,
    ));
}

/// A strip filled with one color shows that color at every pixel, and
/// writing that color to any of its pixels changes nothing.
pub proof fn lemma_whole_strip_pixels(rgb: u32, p: int)
    requires
        0 <= p < NUM_LEDS,
    ensures
        pixel_of(whole_strip(rgb), p) == pixel_packet(rgb),
        with_pixel(whole_strip(rgb), p, rgb) == whole_strip(rgb),
{
    assert forall|i: int| p * 24 <= i < p * 24 + 24 implies #[trigger] (i % 24) == i - p * 24 by {
    }
    assert(pixel_of(whole_strip(rgb), p) =~= pixel_packet(rgb));
    assert(with_pixel(whole_strip(rgb), p, rgb) =~= whole_strip(rgb));
}

/// The breathing animation glows up one color code per step for twenty
/// steps, dims down one code per step for twenty steps, and ends black;
/// every color it shows fits in 24 bits.
pub proof fn lemma_breathing_ramp(step: int)
    requires
        0 <= step,
    ensures
        breathing_color(step) <= 20,
        breathing_color(0) == 0,
        step < 20 ==> breathing_color(step + 1) == breathing_color(step) + 1,
        20 <= step < 40 ==> breathing_color(step + 1) + 1 == breathing_color(step),
        step >= 40 ==> breathing_color(step) == 0,
{
}

} // verus!
