//! The plain-text pixel image format the renderer emits.
//!
//! An image is a header — the format tag `P3`, the width and height, and the
//! maximum channel value 255 — followed by one line per pixel, row-major, top
//! row first, each line holding the three channels as space-separated decimal
//! numbers. Viewers of this format family read the text byte for byte, so the
//! functions here pin the output down to the exact character sequence.

use vstd::prelude::*;

use crate::color::Color;
use crate::text::push_char;
use crate::text::spec_decimal;
use crate::text::u32_to_decimal;

verus! {

/// One pixel written as its three decimal channels and a line break.
pub open spec fn spec_pixel_line(c: Color) -> Seq<char> {
    spec_decimal(c.r as int) + seq![' '] + spec_decimal(c.g as int) + seq![' '] + spec_decimal(
        c.b as int,
    ) + seq!['\n']
}

/// The image header: format tag, width and height, maximum channel value.
pub open spec fn spec_header(width: u32, height: u32) -> Seq<char> {
    seq!['P', '3', '\n'] + spec_decimal(width as int) + seq![' '] + spec_decimal(height as int)
        + seq!['\n', '2', '5', '5', '\n']
}

/// The pixel lines of an image, one per pixel, in the order given.
pub open spec fn spec_pixel_lines(pixels: Seq<Color>) -> Seq<char>
    decreases pixels.len(),
{
    if pixels.len() == 0 {
        Seq::empty()
    } else {
        spec_pixel_lines(pixels.drop_last()) + spec_pixel_line(pixels.last())
    }
}

/// The whole image text: the header, then every pixel line.
pub open spec fn spec_image(width: u32, height: u32, pixels: Seq<Color>) -> Seq<char> {
    spec_header(width, height) + spec_pixel_lines(pixels)
}

/// Writes one pixel's line of the image body.
pub fn pixel_line(c: &Color) -> (s: String)
    ensures
        s@ == spec_pixel_line(*c),
{
    let mut s = u32_to_decimal(c.r as u32);
    push_char(&mut s, ' ');
    let g = u32_to_decimal(c.g as u32);
    s.append(g.as_str());
    push_char(&mut s, ' ');
    let b = u32_to_decimal(c.b as u32);
    s.append(b.as_str());
    push_char(&mut s, '\n');
    assert(s@ =~= spec_pixel_line(*c));
    s
}

/// Writes the image header for the given dimensions.
pub fn header(width: u32, height: u32) -> (s: String)
    ensures
        s@ == spec_header(width, height),
{
    proof {
        reveal_strlit("P3\n");
        reveal_strlit("\n255\n");
    }
    let mut s = String::from_str("P3\n");
    let w = u32_to_decimal(width);
    s.append(w.as_str());
    push_char(&mut s, ' ');
    let h = u32_to_decimal(height);
    s.append(h.as_str());
    s.append("\n255\n");
    assert(s@ =~= spec_header(width, height));
    s
}

/// Writes the whole image for the given dimensions and row-major pixels.
pub fn image(width: u32, height: u32, pixels: &Vec<Color>) -> (s: String)
    requires
        pixels@.len() == width as int * height as int,
    ensures
        s@ == spec_image(width, height, pixels@),
{
    let mut s = header(width, height);
    for i in 0..pixels.len()
        invariant
            s@ == spec_header(width, height) + spec_pixel_lines(pixels@.take(i as int)),
    {
        let line = pixel_line(&pixels[i]);
        s.append(line.as_str());
        proof {
            assert(pixels@.take(i as int + 1).drop_last() =~= pixels@.take(i as int));
            assert(pixels@.take(i as int + 1).last() == pixels@[i as int]);
        }
    }
    proof {
        assert(pixels@.take(pixels@.len() as int) =~= pixels@);
    }
    s
}

} // verus!
