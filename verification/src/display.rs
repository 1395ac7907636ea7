use vstd::prelude::*;

verus! {

/// The grey level of a DMG shade index: only its low two bits count,
/// 0 is white and 3 is black.
pub open spec fn gray_level(shade: u8) -> u8 {
    let s = shade % 4;
    if s == 0 {
        0xFF
    } else if s == 1 {
        0xAA
    } else if s == 2 {
        0x55
    } else {
        0x00
    }
}

/// Byte `k` (0 red, 1 green, 2 blue, 3 alpha) of the RGBA pixel for a shade.
pub open spec fn rgba_channel(shade: u8, k: int) -> u8 {
    if k == 3 {
        0xFF
    } else {
        gray_level(shade)
    }
}

/// Byte `j` of the RGBA image of a shade-index framebuffer: four bytes per
/// pixel, in the framebuffer's order.
pub open spec fn rgba_byte(fb: Seq<u8>, j: int) -> u8 {
    rgba_channel(fb[j / 4], j % 4)
}

/// Maps a DMG shade index (0..3) to an opaque grey RGBA pixel.
pub fn shade_to_rgba(shade: u8) -> (px: [u8; 4])
    ensures
        forall|k: int| 0 <= k < 4 ==> px@[k] == rgba_channel(shade, k),
{
    let v: u8 = match shade % 4 {
        0 => 0xFF,
        1 => 0xAA,
        2 => 0x55,
        _ => 0x00,
    };
    [v, v, v, 0xFF]
}

/// Converts a framebuffer of shade indices into RGBA pixels, in place.
pub fn blit_rgba(fb: &[u8; 23040], out: &mut [u8; 92160])
    ensures
        forall|j: int| 0 <= j < 92160 ==> final(out)@[j] == rgba_byte(fb@, j),
{
    for i in 0..23040usize
        invariant
            out@.len() == 92160,
            forall|j: int| 0 <= j < 4 * i ==> out@[j] == rgba_byte(fb@, j),
    {
        let px = shade_to_rgba(fb[i]);
        let o = i * 4;
        out[o] = px[0];
        out[o + 1] = px[1];
        out[o + 2] = px[2];
        out[o + 3] = px[3];
        assert forall|j: int| 0 <= j < 4 * (i + 1) implies out@[j] == rgba_byte(fb@, j) by {
            if j >= 4 * i {
                assert(j / 4 == i);
                assert(j % 4 == j - 4 * i);
            }
        }
    }
}

} // verus!
