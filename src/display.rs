use vstd::prelude::*;

verus! {

/// Width and height of the screen in pixels.
pub const RES: usize = 256;

/// The 5-bit red channel of an RGB565 word (bits 15..11).
pub open spec fn red5(c: u16) -> u8 {
    ((c >> 11u16) & 0x1f) as u8
}

/// The 6-bit green channel of an RGB565 word (bits 10..5).
pub open spec fn green6(c: u16) -> u8 {
    ((c >> 5u16) & 0x3f) as u8
}

/// The 5-bit blue channel of an RGB565 word (bits 4..0).
pub open spec fn blue5(c: u16) -> u8 {
    (c & 0x1f) as u8
}

/// A 5-bit channel widened to 8 bits by shifting left and replicating its
/// high bits.
pub open spec fn expand5(v: u8) -> u8 {
    ((v << 3u8) | (v >> 2u8)) as u8
}

/// A 6-bit channel widened to 8 bits by shifting left and replicating its
/// high bits.
pub open spec fn expand6(v: u8) -> u8 {
    ((v << 2u8) | (v >> 4u8)) as u8
}

/// The 8-bit red, green and blue of an RGB565 word.
pub open spec fn rgb_of(c: u16) -> (u8, u8, u8) {
    (expand5(red5(c)), expand6(green6(c)), expand5(blue5(c)))
}

/// Converts an RGB565 word into 8-bit red, green and blue.
pub fn rgb565_to_argb(rgb565: u16) -> (r: (u8, u8, u8))
    ensures
        r == rgb_of(rgb565),
{
    let r = ((rgb565 >> 11) & 0x1F) as u8;
    let g = ((rgb565 >> 5) & 0x3F) as u8;
    let b = (rgb565 & 0x1F) as u8;
    let r = (r << 3) | (r >> 2);
    let g = (g << 2) | (g >> 4);
    let b = (b << 3) | (b >> 2);
    (r, g, b)
}

/// Fills a frame of 4 bytes per pixel (red, green, blue, 255) from the
/// screen words; bytes past the first `4 * RES * RES` are left alone.
pub fn update_image_buffer(imbuff: &mut [u8], screen: &[u16])
    requires
        screen@.len() == RES * RES,
        old(imbuff)@.len() >= 4 * RES * RES,
    ensures
        final(imbuff)@.len() == old(imbuff)@.len(),
        forall|i: int|
            0 <= i < RES * RES ==> {
                let c = rgb_of(#[trigger] screen@[i]);
                &&& final(imbuff)@[4 * i] == c.0
                &&& final(imbuff)@[4 * i + 1] == c.1
                &&& final(imbuff)@[4 * i + 2] == c.2
                &&& final(imbuff)@[4 * i + 3] == 255
            },
        forall|k: int|
            4 * RES * RES <= k < old(imbuff)@.len() ==> final(imbuff)@[k] == old(imbuff)@[k],
{
    let mut i: usize = 0;
    while i < RES * RES
        invariant
            i <= RES * RES,
            screen@.len() == RES * RES,
            imbuff@.len() == old(imbuff)@.len(),
            old(imbuff)@.len() >= 4 * RES * RES,
            forall|j: int|
                0 <= j < i ==> {
                    let c = rgb_of(#[trigger] screen@[j]);
                    &&& imbuff@[4 * j] == c.0
                    &&& imbuff@[4 * j + 1] == c.1
                    &&& imbuff@[4 * j + 2] == c.2
                    &&& imbuff@[4 * j + 3] == 255
                },
            forall|k: int|
                4 * RES * RES <= k < old(imbuff)@.len() ==> imbuff@[k] == old(imbuff)@[k],
        decreases RES * RES - i,
    {
        let col = rgb565_to_argb(screen[i]);
        imbuff[4 * i] = col.0;
        imbuff[4 * i + 1] = col.1;
        imbuff[4 * i + 2] = col.2;
        imbuff[4 * i + 3] = 255;
        i = i + 1;
    }
}

} // verus!
