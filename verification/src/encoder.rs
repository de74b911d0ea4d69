//! The pixel encoder: RGBA frames to the display's 16-bit wire format.
//!
//! Each pixel becomes two bytes, the big-endian form of its packed 5-6-5
//! colour. Alpha is dropped. Pixels keep their row-major order and nothing is
//! added before, between or after them.

use crate::config::SCREEN_HEIGHT;
use crate::config::SCREEN_WIDTH;
use crate::frame::RgbaFrame;
use vstd::prelude::*;

verus! {

/// The packed 5-6-5 colour of an RGB pixel: the five most significant bits of
/// red, then the six most significant bits of green, then the five most
/// significant bits of blue. The low bits of each channel are truncated.
pub open spec fn rgb565(r: u8, g: u8, b: u8) -> u16 {
    ((r / 8) * 2048 + (g / 4) * 32 + (b / 8)) as u16
}

/// The packed colour of pixel `i` of a row-major RGBA buffer.
pub open spec fn packed_pixel(rgba: Seq<u8>, i: int) -> u16 {
    rgb565(rgba[4 * i], rgba[4 * i + 1], rgba[4 * i + 2])
}

/// Byte `k` of the wire form of an RGBA buffer: the high byte of pixel `k / 2`
/// at even positions, its low byte at odd ones.
pub open spec fn wire_byte(rgba: Seq<u8>, k: int) -> u8 {
    let packed = packed_pixel(rgba, k / 2);
    if k % 2 == 0 {
        (packed / 256) as u8
    } else {
        (packed % 256) as u8
    }
}

/// The wire form of a row-major RGBA buffer: two bytes per whole pixel.
pub open spec fn encoded(rgba: Seq<u8>) -> Seq<u8> {
    Seq::new(2 * (rgba.len() / 4), |k: int| wire_byte(rgba, k))
}

/// Packs one pixel into its 16-bit 5-6-5 colour.
pub fn pack_rgb565(r: u8, g: u8, b: u8) -> (packed: u16)
    ensures
        packed == rgb565(r, g, b),
{
    let red: u16 = r as u16;
    let green: u16 = g as u16;
    let blue: u16 = b as u16;
    let packed: u16 = ((red & 0b11111000) << 8) | ((green & 0b11111100) << 3) | (blue >> 3);
    assert(packed == (red / 8) * 2048 + (green / 4) * 32 + (blue / 8)) by (bit_vector)
        requires
            red < 256,
            green < 256,
            blue < 256,
            packed == ((red & 0b11111000) << 8) | ((green & 0b11111100) << 3) | (blue >> 3),
    ;
    packed
}

/// Splits a 16-bit value into its big-endian bytes.
pub fn be_bytes(value: u16) -> (bytes: (u8, u8))
    ensures
        bytes.0 == value / 256,
        bytes.1 == value % 256,
{
    let high: u8 = (value >> 8) as u8;
    let low: u8 = (value & 0xFF) as u8;
    assert(value >> 8 == value / 256 && value >> 8 < 256) by (bit_vector);
    assert(value & 0xFF == value % 256 && value & 0xFF < 256) by (bit_vector);
    (high, low)
}

/// Encodes a frame for the wire.
///
/// The result is a function of the frame's pixels alone and holds exactly two
/// bytes for each of them: 153600 bytes for a frame of the display's size.
pub fn encode(frame: &RgbaFrame) -> (wire: Vec<u8>)
    ensures
        wire@ == encoded(frame@),
        wire@.len() == 2 * frame.spec_pixel_count(),
        frame.width() == SCREEN_WIDTH && frame.height() == SCREEN_HEIGHT ==> wire@.len()
            == 153_600,
{
    assert(SCREEN_WIDTH as nat * SCREEN_HEIGHT as nat == 76_800) by (nonlinear_arith)
        requires
            SCREEN_WIDTH == 320,
            SCREEN_HEIGHT == 240,
    ;
    let rgba = frame.as_bytes();
    let pixels: usize = frame.pixel_count();
    assert(4 * pixels == rgba.len());
    let mut wire: Vec<u8> = Vec::with_capacity(2 * pixels);
    let mut i: usize = 0;
    while i < pixels
        invariant
            i <= pixels,
            rgba.len() == 4 * pixels,
            wire@.len() == 2 * i,
            forall|k: int| 0 <= k < 2 * i ==> wire@[k] == wire_byte(rgba@, k),
        decreases pixels - i,
    {
        let packed = pack_rgb565(rgba[4 * i], rgba[4 * i + 1], rgba[4 * i + 2]);
        let (high, low) = be_bytes(packed);
        wire.push(high);
        wire.push(low);
        i += 1;
    }
    assert(wire@ =~= encoded(rgba@));
    wire
}

/// The three bit fields of a packed colour are the truncated channels: bits
/// 15 to 11 hold the top five bits of red, bits 10 to 5 the top six bits of
/// green, and bits 4 to 0 the top five bits of blue.
pub proof fn lemma_rgb565_fields(r: u8, g: u8, b: u8)
    ensures
        rgb565(r, g, b) >> 11 == r >> 3,
        (rgb565(r, g, b) >> 5) & 0x3F == g >> 2,
        rgb565(r, g, b) & 0x1F == b >> 3,
{
    let packed = rgb565(r, g, b);
    let red: u16 = r as u16;
    let green: u16 = g as u16;
    let blue: u16 = b as u16;
    assert(packed >> 11 == red >> 3 && (packed >> 5) & 0x3F == green >> 2 && packed & 0x1F == blue
        >> 3) by (bit_vector)
        requires
            red < 256,
            green < 256,
            blue < 256,
            packed == (red / 8) * 2048 + (green / 4) * 32 + (blue / 8),
    ;
    assert(red >> 3 == r >> 3 && green >> 2 == g >> 2 && blue >> 3 == b >> 3) by (bit_vector)
        requires
            red == r,
            green == g,
            blue == b,
    ;
}

/// Packing loses exactly the low bits: two pixels pack to the same colour if
/// and only if their channels agree on the bits that are kept.
pub proof fn lemma_rgb565_injective_on_kept_bits(r1: u8, g1: u8, b1: u8, r2: u8, g2: u8, b2: u8)
    ensures
        rgb565(r1, g1, b1) == rgb565(r2, g2, b2) <==> (r1 / 8 == r2 / 8 && g1 / 4 == g2 / 4 && b1
            / 8 == b2 / 8),
{
}

/// The wire form has two bytes for every whole pixel of the buffer.
pub proof fn lemma_encoded_len(rgba: Seq<u8>)
    ensures
        encoded(rgba).len() == 2 * (rgba.len() / 4),
        rgba.len() % 4 == 0 ==> 2 * encoded(rgba).len() == rgba.len(),
{
}

/// Encoding is deterministic: any two results that `encode` may return for
/// one frame are identical, byte for byte.
pub proof fn lemma_encode_deterministic(frame: RgbaFrame, first: Seq<u8>, second: Seq<u8>)
    requires
        first == encoded(frame@),
        second == encoded(frame@),
    ensures
        first == second,
{
}

/// Alpha never reaches the wire: two buffers of one length whose pixels agree
/// on red, green and blue have the same wire form.
pub proof fn lemma_encode_ignores_alpha(a: Seq<u8>, b: Seq<u8>)
    requires
        a.len() == b.len(),
        forall|j: int| 0 <= j < a.len() && j % 4 != 3 ==> a[j] == b[j],
    ensures
        encoded(a) == encoded(b),
{
    assert forall|k: int| 0 <= k < encoded(a).len() implies encoded(a)[k] == encoded(b)[k] by {
        let i = k / 2;
        assert(a[4 * i] == b[4 * i]);
        assert(a[4 * i + 1] == b[4 * i + 1]);
        assert(a[4 * i + 2] == b[4 * i + 2]);
    }
    assert(encoded(a) =~= encoded(b));
}

/// Pixels are encoded independently and in order: the wire form of a buffer
/// of whole pixels followed by another is the first wire form followed by the
/// second.
pub proof fn lemma_encode_concat(a: Seq<u8>, b: Seq<u8>)
    requires
        a.len() % 4 == 0,
    ensures
        encoded(a + b) == encoded(a) + encoded(b),
{
    let whole = a + b;
    let pa = a.len() / 4;
    assert(whole.len() / 4 == pa + b.len() / 4);
    assert forall|k: int| 0 <= k < encoded(whole).len() implies encoded(whole)[k] == (encoded(a)
        + encoded(b))[k] by {
        let i = k / 2;
        if k < 2 * pa {
            assert(whole[4 * i] == a[4 * i]);
            assert(whole[4 * i + 1] == a[4 * i + 1]);
            assert(whole[4 * i + 2] == a[4 * i + 2]);
        } else {
            let kb = k - 2 * pa;
            let ib = kb / 2;
            assert(ib == i - pa);
            assert(kb % 2 == k % 2);
            assert(whole[4 * i] == b[4 * ib]);
            assert(whole[4 * i + 1] == b[4 * ib + 1]);
            assert(whole[4 * i + 2] == b[4 * ib + 2]);
        }
    }
    assert(encoded(whole) =~= encoded(a) + encoded(b));
}

} // verus!
