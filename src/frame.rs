//! The panel's wire frame format: one bit per pixel, eight pixels to a byte,
//! row-major, the leftmost pixel of each run of eight in the most significant
//! bit. A set bit is a white (off) pixel, a clear bit a black (on) one.
use vstd::prelude::*;

verus! {

/// The mask of the bit that holds pixel `k` (0..8) of a byte.
pub open spec fn bit_mask(k: int) -> u8 {
    0x80u8 >> (k as u8)
}

/// `mask` when the pixel is white (non-zero), else nothing.
pub open spec fn white_bit(white: bool, mask: u8) -> u8 {
    if white {
        mask
    } else {
        0
    }
}

/// The byte that packs eight pixels, leftmost in the most significant bit.
pub open spec fn byte_of_bits(b: spec_fn(int) -> bool) -> u8 {
    white_bit(b(0), 0x80) | white_bit(b(1), 0x40) | white_bit(b(2), 0x20) | white_bit(b(3), 0x10)
        | white_bit(b(4), 0x08) | white_bit(b(5), 0x04) | white_bit(b(6), 0x02) | white_bit(
        b(7),
        0x01,
    )
}

/// The frame that a row-major grid of white flags packs into. A trailing run of
/// fewer than eight pixels is dropped.
pub open spec fn packed_bits(white: Seq<bool>) -> Seq<u8> {
    Seq::new(white.len() / 8, |i: int| byte_of_bits(|k: int| white[8 * i + k]))
}

/// Which pixels of a luma grid are white: every non-zero value.
pub open spec fn white_of_luma(pixels: Seq<u8>) -> Seq<bool> {
    Seq::new(pixels.len(), |p: int| pixels[p] != 0)
}

/// The frame that a luma grid packs into.
pub open spec fn packed(pixels: Seq<u8>) -> Seq<u8> {
    packed_bits(white_of_luma(pixels))
}

/// Whether pixel `p` of a frame is white.
pub open spec fn frame_bit(frame: Seq<u8>, p: int) -> bool {
    frame[p / 8] & bit_mask(p % 8) != 0
}

/// The luma grid that a frame stands for: 255 for a set bit, 0 for a clear one.
pub open spec fn unpacked(frame: Seq<u8>) -> Seq<u8> {
    Seq::new(
        frame.len() * 8,
        |p: int|
            if frame_bit(frame, p) {
                255u8
            } else {
                0u8
            },
    )
}

/// A grid that dithering can produce: every pixel fully black or fully white.
pub open spec fn is_binarized(pixels: Seq<u8>) -> bool {
    forall|p: int| 0 <= p < pixels.len() ==> #[trigger] pixels[p] == 0 || pixels[p] == 255
}

fn white_bit_exec(white: bool, mask: u8) -> (r: u8)
    ensures
        r == white_bit(white, mask),
{
    if white {
        mask
    } else {
        0
    }
}

/// Packs a row-major grid of white flags into a frame.
pub fn pack_coverage(white: &[bool]) -> (frame: Vec<u8>)
    ensures
        frame@ == packed_bits(white@),
{
    let n = white.len() / 8;
    let mut frame: Vec<u8> = Vec::with_capacity(n);
    let mut i: usize = 0;
    while i < n
        invariant
            n == white@.len() / 8,
            i <= n,
            frame@.len() == i,
            forall|j: int| 0 <= j < i ==> frame@[j] == byte_of_bits(|k: int| white@[8 * j + k]),
        decreases n - i,
    {
        proof {
            assert(8 * i + 8 <= white@.len()) by (nonlinear_arith)
                requires
                    i < n,
                    n == white@.len() / 8,
            ;
            assert(8 * i + 8 <= white.len());
        }
        let o = 8 * i;
        let b = white_bit_exec(white[o], 0x80) | white_bit_exec(white[o + 1], 0x40)
            | white_bit_exec(white[o + 2], 0x20) | white_bit_exec(white[o + 3], 0x10)
            | white_bit_exec(white[o + 4], 0x08) | white_bit_exec(white[o + 5], 0x04)
            | white_bit_exec(white[o + 6], 0x02) | white_bit_exec(white[o + 7], 0x01);
        frame.push(b);
        i = i + 1;
    }
    assert(frame@ =~= packed_bits(white@));
    frame
}

/// Packs a row-major luma grid into a frame: a non-zero pixel is white.
pub fn pack_pixels(pixels: &[u8]) -> (frame: Vec<u8>)
    ensures
        frame@ == packed(pixels@),
{
    let n = pixels.len() / 8;
    let ghost white = white_of_luma(pixels@);
    let mut frame: Vec<u8> = Vec::with_capacity(n);
    let mut i: usize = 0;
    while i < n
        invariant
            n == pixels@.len() / 8,
            white == white_of_luma(pixels@),
            i <= n,
            frame@.len() == i,
            forall|j: int| 0 <= j < i ==> frame@[j] == byte_of_bits(|k: int| white[8 * j + k]),
        decreases n - i,
    {
        proof {
            assert(8 * i + 8 <= pixels@.len()) by (nonlinear_arith)
                requires
                    i < n,
                    n == pixels@.len() / 8,
            ;
            assert(8 * i + 8 <= pixels.len());
        }
        let o = 8 * i;
        let b = white_bit_exec(pixels[o] != 0, 0x80) | white_bit_exec(pixels[o + 1] != 0, 0x40)
            | white_bit_exec(pixels[o + 2] != 0, 0x20) | white_bit_exec(pixels[o + 3] != 0, 0x10)
            | white_bit_exec(pixels[o + 4] != 0, 0x08) | white_bit_exec(pixels[o + 5] != 0, 0x04)
            | white_bit_exec(pixels[o + 6] != 0, 0x02) | white_bit_exec(pixels[o + 7] != 0, 0x01);
        assert(b == byte_of_bits(|k: int| white[8 * i + k]));
        frame.push(b);
        i = i + 1;
    }
    assert(frame@ =~= packed(pixels@));
    frame
}

/// Expands a frame into a luma grid: 255 for each set bit, 0 for each clear one.
pub fn unpack_frame(frame: &[u8]) -> (pixels: Vec<u8>)
    requires
        frame@.len() * 8 <= usize::MAX,
    ensures
        pixels@ == unpacked(frame@),
{
    let mut pixels: Vec<u8> = Vec::with_capacity(frame.len() * 8);
    let mut i: usize = 0;
    while i < frame.len()
        invariant
            frame@.len() * 8 <= usize::MAX,
            i <= frame@.len(),
            pixels@.len() == 8 * i,
            forall|p: int| 0 <= p < 8 * i ==> pixels@[p] == unpacked(frame@)[p],
        decreases frame@.len() - i,
    {
        let byte = frame[i];
        let mut k: u8 = 0;
        while k < 8
            invariant
                frame@.len() * 8 <= usize::MAX,
                i < frame@.len(),
                byte == frame@[i as int],
                k <= 8,
                pixels@.len() == 8 * i + k,
                forall|p: int| 0 <= p < 8 * i + k ==> pixels@[p] == unpacked(frame@)[p],
            decreases 8 - k,
        {
            let v: u8 = if byte & (0x80u8 >> k) != 0 {
                255
            } else {
                0
            };
            proof {
                let p = 8 * i + k;
                assert(p / 8 == i && p % 8 == k) by (nonlinear_arith)
                    requires
                        p == 8 * i + k,
                        k < 8,
                ;
            }
            pixels.push(v);
            k = k + 1;
        }
        i = i + 1;
    }
    assert(pixels@ =~= unpacked(frame@));
    pixels
}

proof fn lemma_bit_masks()
    ensures
        bit_mask(0) == 0x80,
        bit_mask(1) == 0x40,
        bit_mask(2) == 0x20,
        bit_mask(3) == 0x10,
        bit_mask(4) == 0x08,
        bit_mask(5) == 0x04,
        bit_mask(6) == 0x02,
        bit_mask(7) == 0x01,
{
    assert(0x80u8 >> 0u8 == 0x80u8) by (bit_vector);
    assert(0x80u8 >> 1u8 == 0x40u8) by (bit_vector);
    assert(0x80u8 >> 2u8 == 0x20u8) by (bit_vector);
    assert(0x80u8 >> 3u8 == 0x10u8) by (bit_vector);
    assert(0x80u8 >> 4u8 == 0x08u8) by (bit_vector);
    assert(0x80u8 >> 5u8 == 0x04u8) by (bit_vector);
    assert(0x80u8 >> 6u8 == 0x02u8) by (bit_vector);
    assert(0x80u8 >> 7u8 == 0x01u8) by (bit_vector);
}

proof fn lemma_byte_from_own_bits(b: u8)
    ensures
        white_bit(b & 0x80 != 0, 0x80) | white_bit(b & 0x40 != 0, 0x40) | white_bit(
            b & 0x20 != 0,
            0x20,
        ) | white_bit(b & 0x10 != 0, 0x10) | white_bit(b & 0x08 != 0, 0x08) | white_bit(
            b & 0x04 != 0,
            0x04,
        ) | white_bit(b & 0x02 != 0, 0x02) | white_bit(b & 0x01 != 0, 0x01) == b,
{
    assert((if b & 0x80 != 0 { 0x80u8 } else { 0u8 }) | (if b & 0x40 != 0 { 0x40u8 } else { 0u8 })
        | (if b & 0x20 != 0 { 0x20u8 } else { 0u8 }) | (if b & 0x10 != 0 { 0x10u8 } else { 0u8 })
        | (if b & 0x08 != 0 { 0x08u8 } else { 0u8 }) | (if b & 0x04 != 0 { 0x04u8 } else { 0u8 })
        | (if b & 0x02 != 0 { 0x02u8 } else { 0u8 }) | (if b & 0x01 != 0 { 0x01u8 } else { 0u8 })
        == b) by (bit_vector);
}

proof fn lemma_bit_of_packed_byte(b: spec_fn(int) -> bool, k: int)
    requires
        0 <= k < 8,
    ensures
        (byte_of_bits(b) & bit_mask(k) != 0) == b(k),
{
    let x0 = white_bit(b(0), 0x80);
    let x1 = white_bit(b(1), 0x40);
    let x2 = white_bit(b(2), 0x20);
    let x3 = white_bit(b(3), 0x10);
    let x4 = white_bit(b(4), 0x08);
    let x5 = white_bit(b(5), 0x04);
    let x6 = white_bit(b(6), 0x02);
    let x7 = white_bit(b(7), 0x01);
    let y = x0 | x1 | x2 | x3 | x4 | x5 | x6 | x7;
    let ku = k as u8;
    assert(y & (0x80u8 >> ku) == (if ku == 0 { x0 } else if ku == 1 { x1 } else if ku == 2 { x2 }
        else if ku == 3 { x3 } else if ku == 4 { x4 } else if ku == 5 { x5 } else if ku == 6 { x6 }
        else { x7 })) by (bit_vector)
        requires
            x0 == 0 || x0 == 0x80,
            x1 == 0 || x1 == 0x40,
            x2 == 0 || x2 == 0x20,
            x3 == 0 || x3 == 0x10,
            x4 == 0 || x4 == 0x08,
            x5 == 0 || x5 == 0x04,
            x6 == 0 || x6 == 0x02,
            x7 == 0 || x7 == 0x01,
            y == x0 | x1 | x2 | x3 | x4 | x5 | x6 | x7,
            ku < 8,
    ;
}

proof fn lemma_unpacked_bit(frame: Seq<u8>, i: int, k: int)
    requires
        0 <= i < frame.len(),
        0 <= k < 8,
    ensures
        white_of_luma(unpacked(frame))[8 * i + k] == (frame[i] & bit_mask(k) != 0),
{
    let p = 8 * i + k;
    assert(p / 8 == i && p % 8 == k) by (nonlinear_arith)
        requires
            p == 8 * i + k,
            0 <= k < 8,
    ;
    assert(0 <= p < frame.len() * 8) by (nonlinear_arith)
        requires
            p == 8 * i + k,
            0 <= k < 8,
            0 <= i < frame.len(),
    ;
}

/// Packing a frame's own pixels gives the frame back: unpacking then packing is
/// the identity on every frame.
pub proof fn lemma_pack_unpack(frame: Seq<u8>)
    ensures
        packed(unpacked(frame)) == frame,
{
    let u = unpacked(frame);
    lemma_bit_masks();
    assert forall|i: int| 0 <= i < frame.len() implies #[trigger] packed(u)[i] == frame[i] by {
        let b = frame[i];
        lemma_unpacked_bit(frame, i, 0);
        lemma_unpacked_bit(frame, i, 1);
        lemma_unpacked_bit(frame, i, 2);
        lemma_unpacked_bit(frame, i, 3);
        lemma_unpacked_bit(frame, i, 4);
        lemma_unpacked_bit(frame, i, 5);
        lemma_unpacked_bit(frame, i, 6);
        lemma_unpacked_bit(frame, i, 7);
        lemma_byte_from_own_bits(b);
    }
    assert(packed(u) =~= frame);
}

/// Unpacking the frame of a binarized grid whose length is a whole number of
/// bytes reproduces the grid exactly.
pub proof fn lemma_unpack_pack(pixels: Seq<u8>)
    requires
        is_binarized(pixels),
        pixels.len() % 8 == 0,
    ensures
        unpacked(packed(pixels)) == pixels,
{
    let f = packed(pixels);
    let w = white_of_luma(pixels);
    assert(f.len() * 8 == pixels.len());
    assert forall|p: int| 0 <= p < pixels.len() implies #[trigger] unpacked(f)[p] == pixels[p] by {
        let i = p / 8;
        let k = p % 8;
        assert(0 <= i < f.len() && 0 <= k < 8 && p == 8 * i + k);
        lemma_bit_of_packed_byte(|j: int| w[8 * i + j], k);
    }
    assert(unpacked(f) =~= pixels);
}

} // verus!
