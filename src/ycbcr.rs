use vstd::prelude::*;

verus! {

/// Fixed-point scale: channel sums are carried in millionths.
pub const SCALE: i64 = 1_000_000;

/// `n / 1_000_000` rounded to the nearest integer, halves away from zero.
pub open spec fn round_millionths(n: int) -> int {
    if n >= 0 {
        (n + 500_000) / 1_000_000
    } else {
        -((500_000 - n) / 1_000_000)
    }
}

/// Saturate into the range of an 8-bit sample.
pub open spec fn saturate(x: int) -> int {
    if x < 0 {
        0
    } else if x > 255 {
        255
    } else {
        x
    }
}

/// The 8-bit sample for a value given in millionths.
pub open spec fn to_sample(n: int) -> int {
    saturate(round_millionths(n))
}

/// Round a value given in millionths half away from zero, then saturate it
/// into `[0, 255]`.
pub fn clip255(v: i64) -> (r: u8)
    ensures
        r as int == to_sample(v as int),
{
    if v < 0 {
        assert(round_millionths(v as int) <= 0);
        0
    } else {
        let q = v / SCALE;
        let rem = v % SCALE;
        let rounded = if rem >= 500_000 { q + 1 } else { q };
        assert(rounded as int == round_millionths(v as int));
        if rounded > 255 {
            255
        } else {
            rounded as u8
        }
    }
}

/// Luma, in millionths: `0.299 R + 0.587 G + 0.114 B`.
pub open spec fn luma_millionths(r: int, g: int, b: int) -> int {
    299_000 * r + 587_000 * g + 114_000 * b
}

/// Blue-difference chroma, in millionths:
/// `128 - 0.168736 R - 0.331264 G + 0.5 B`.
pub open spec fn blue_diff_millionths(r: int, g: int, b: int) -> int {
    128_000_000 - 168_736 * r - 331_264 * g + 500_000 * b
}

/// Red-difference chroma, in millionths:
/// `128 + 0.5 R - 0.418688 G - 0.081312 B`.
pub open spec fn red_diff_millionths(r: int, g: int, b: int) -> int {
    128_000_000 + 500_000 * r - 418_688 * g - 81_312 * b
}

/// Output channel `c` (0 = Y', 1 = Cb, 2 = Cr) of the pixel `(r, g, b)`,
/// exact, in millionths.
pub open spec fn channel_millionths(c: int, r: u8, g: u8, b: u8) -> int {
    let (ri, gi, bi) = (r as int, g as int, b as int);
    if c == 0 {
        luma_millionths(ri, gi, bi)
    } else if c == 1 {
        blue_diff_millionths(ri, gi, bi)
    } else {
        red_diff_millionths(ri, gi, bi)
    }
}

/// Output sample `c` (0 = Y', 1 = Cb, 2 = Cr) of the pixel `(r, g, b)`.
pub open spec fn ycbcr_channel(c: int, r: u8, g: u8, b: u8) -> u8 {
    to_sample(channel_millionths(c, r, g, b)) as u8
}

/// The Y'CbCr triple of the RGB triple held in `px`.
pub open spec fn ycbcr_pixel(px: Seq<u8>) -> Seq<u8> {
    seq![
        ycbcr_channel(0, px[0], px[1], px[2]),
        ycbcr_channel(1, px[0], px[1], px[2]),
        ycbcr_channel(2, px[0], px[1], px[2]),
    ]
}

/// `s` with its first `n` pixels converted from RGB to Y'CbCr; every sample
/// after them is kept.
pub open spec fn ycbcr_buffer(s: Seq<u8>, n: int) -> Seq<u8> {
    Seq::new(
        s.len(),
        |k: int|
            if k < 3 * n {
                let base = k - k % 3;
                ycbcr_channel(k % 3, s[base], s[base + 1], s[base + 2])
            } else {
                s[k]
            },
    )
}

/// Convert one RGB pixel to Y'CbCr.
pub fn pixel_to_ycbcr(r: u8, g: u8, b: u8) -> (out: (u8, u8, u8))
    ensures
        out.0 == ycbcr_channel(0, r, g, b),
        out.1 == ycbcr_channel(1, r, g, b),
        out.2 == ycbcr_channel(2, r, g, b),
{
    let (ri, gi, bi) = (r as i64, g as i64, b as i64);
    let y = clip255(299_000 * ri + 587_000 * gi + 114_000 * bi);
    let cb = clip255(128_000_000 - 168_736 * ri - 331_264 * gi + 500_000 * bi);
    let cr = clip255(128_000_000 + 500_000 * ri - 418_688 * gi - 81_312 * bi);
    (y, cb, cr)
}

/// Convert the first `num_pixels` pixels of `data` from RGB to Y'CbCr in
/// place. Each pixel's three samples are read before any of them is written.
pub fn toYCbCr(data: &mut [u8], num_pixels: usize)
    requires
        3 * num_pixels <= old(data)@.len(),
    ensures
        final(data)@ == ycbcr_buffer(old(data)@, num_pixels as int),
{
    let ghost orig = data@;
    let len = data.len();
    let mut i: usize = 0;
    while i < num_pixels
        invariant
            i <= num_pixels,
            3 * num_pixels <= orig.len(),
            orig.len() == len,
            data@.len() == orig.len(),
            forall|k: int|
                0 <= k < orig.len() ==> #[trigger] data@[k] == (if k < 3 * i {
                    ycbcr_buffer(orig, num_pixels as int)[k]
                } else {
                    orig[k]
                }),
        decreases num_pixels - i,
    {
        let offset = i * 3;
        let r = data[offset];
        let g = data[offset + 1];
        let b = data[offset + 2];
        let (y, cb, cr) = pixel_to_ycbcr(r, g, b);
        data[offset] = y;
        data[offset + 1] = cb;
        data[offset + 2] = cr;
        assert forall|k: int| 0 <= k < orig.len() implies #[trigger] data@[k] == (if k < 3 * (i + 1) {
            ycbcr_buffer(orig, num_pixels as int)[k]
        } else {
            orig[k]
        }) by {
            if offset <= k < offset + 3 {
                assert(k - k % 3 == offset);
            }
        }
        i = i + 1;
    }
    assert(data@ =~= ycbcr_buffer(orig, num_pixels as int));
}

/// Every output sample of every 8-bit RGB pixel is the exact rounded value
/// saturated into `[0, 255]`: narrowing it to a byte never wraps.
pub proof fn lemma_channels_saturate(r: u8, g: u8, b: u8, c: int)
    requires
        0 <= c < 3,
    ensures
        0 <= to_sample(channel_millionths(c, r, g, b)) <= 255,
        ycbcr_channel(c, r, g, b) as int == to_sample(channel_millionths(c, r, g, b)),
{
}

/// The pixel `cur` with output sample `c` written, computed from the
/// snapshot `snap` of the pixel's original RGB samples.
pub open spec fn write_channel(cur: Seq<u8>, snap: Seq<u8>, c: int) -> Seq<u8> {
    cur.update(c, ycbcr_channel(c, snap[0], snap[1], snap[2]))
}

/// When every output sample of a pixel is computed from a snapshot of its
/// original RGB samples, the order in which the three are written does not
/// change the result, and the result is the pixel that `toYCbCr` produces.
pub proof fn lemma_channel_order_irrelevant(px: Seq<u8>, a: int, b: int, c: int)
    requires
        px.len() == 3,
        0 <= a < 3,
        0 <= b < 3,
        0 <= c < 3,
        a != b,
        b != c,
        a != c,
    ensures
        write_channel(write_channel(write_channel(px, px, a), px, b), px, c) == ycbcr_pixel(px),
        ycbcr_buffer(px, 1) == ycbcr_pixel(px),
{
    assert(write_channel(write_channel(write_channel(px, px, a), px, b), px, c) =~= ycbcr_pixel(px));
    assert(ycbcr_buffer(px, 1) =~= ycbcr_pixel(px));
}

} // verus!
