//! Encoding a captured window preview: the pixels arrive from the
//! platform as BGRA rows, are reordered to RGBA, and leave as a PNG.
//!
//! Grabbing the pixels from the screen is platform work done outside the
//! library; this module turns the grabbed buffer into the PNG bytes.

use vstd::prelude::*;

verus! {

/// The BGRA buffer with the blue and red channel of every pixel swapped.
pub open spec fn spec_bgra_to_rgba(p: Seq<u8>) -> Seq<u8> {
    Seq::new(
        p.len(),
        |i: int|
            if i % 4 == 0 {
                p[i + 2]
            } else if i % 4 == 2 {
                p[i - 2]
            } else {
                p[i]
            },
    )
}

/// Swaps the blue and red channel of every 4-byte pixel.
pub fn bgra_to_rgba(pixels: &Vec<u8>) -> (r: Vec<u8>)
    requires
        pixels@.len() % 4 == 0,
    ensures
        r@ == spec_bgra_to_rgba(pixels@),
{
    let n = pixels.len();
    let mut out: Vec<u8> = Vec::new();
    let mut i: usize = 0;
    while i + 3 < pixels.len()
        invariant
            i <= pixels@.len(),
            pixels@.len() % 4 == 0,
            i % 4 == 0,
            pixels@.len() <= usize::MAX,
            out@.len() == i,
            forall|j: int| 0 <= j < i ==> out@[j] == spec_bgra_to_rgba(pixels@)[j],
        decreases pixels@.len() - i,
    {
        out.push(pixels[i + 2]);
        out.push(pixels[i + 1]);
        out.push(pixels[i]);
        out.push(pixels[i + 3]);
        i = i + 4;
    }
    proof {
        assert(i == pixels@.len());
        assert(out@ =~= spec_bgra_to_rgba(pixels@));
    }
    out
}

/// What the PNG encoder produces for an RGBA buffer of the given size;
/// the encoding depends on the pixels and dimensions alone.
pub uninterp spec fn png_of(pixels: Seq<u8>, width: int, height: int) -> Seq<u8>;

/// Relies on png::Encoder with 8-bit RGBA colour: for positive
/// dimensions and a buffer of exactly 4 bytes per pixel, encoding into a
/// byte vector succeeds, writing the fixed eight-byte PNG signature
/// first. The size demand keeps the encoder's own unchecked row-length
/// arithmetic well away from overflow.
#[verifier::external_body]
fn encode_rgba_png(pixels: &Vec<u8>, width: u32, height: u32) -> (r: Result<Vec<u8>, ()>)
    requires
        width > 0,
        height > 0,
        pixels@.len() == 4 * (width as int) * (height as int),
    ensures
        r is Ok,
        r matches Ok(data) ==> {
            &&& data@ == png_of(pixels@, width as int, height as int)
            &&& data@.len() >= 8
            &&& data@.subrange(0, 8) == seq![137u8, 80u8, 78u8, 71u8, 13u8, 10u8, 26u8, 10u8]
        },
{
    let mut data: Vec<u8> = Vec::new();
    {
        let mut encoder = png::Encoder::new(&mut data, width, height);
        encoder.set_color(png::ColorType::Rgba);
        encoder.set_depth(png::BitDepth::Eight);
        let mut writer = match encoder.write_header() {
            Ok(w) => w,
            Err(_) => return Err(()),
        };
        if writer.write_image_data(pixels.as_slice()).is_err() {
            return Err(());
        }
    }
    Ok(data)
}

/// Encodes a captured window's BGRA pixel buffer as a PNG preview.
/// The dimensions must be positive and the buffer exactly 4 bytes per
/// pixel; otherwise the capture was malformed and an error names it.
pub fn capture_window_preview(width: u32, height: u32, bgra: Vec<u8>) -> (r: Result<
    Vec<u8>,
    String,
>)
    ensures
        width == 0 || height == 0 ==> (r matches Err(m) && m@ == "Window has invalid dimensions"@),
        width > 0 && height > 0 && bgra@.len() != 4 * (width as int) * (height as int) ==> (
        r matches Err(m) && m@ == "Pixel buffer does not match dimensions"@),
        width > 0 && height > 0 && bgra@.len() == 4 * (width as int) * (height as int) ==> (
        r matches Ok(data) && data@ == png_of(
            spec_bgra_to_rgba(bgra@),
            width as int,
            height as int,
        ) && data@.len() >= 8),
{
    if width == 0 || height == 0 {
        return Err(String::from_str("Window has invalid dimensions"));
    }
    proof {
        vstd::arithmetic::mul::lemma_mul_upper_bound(
            width as int,
            u32::MAX as int,
            height as int,
            u32::MAX as int,
        );
        vstd::arithmetic::mul::lemma_mul_nonnegative(width as int, height as int);
    }
    let pixel_count: u64 = (width as u64) * (height as u64);
    if bgra.len() % 4 != 0 || (bgra.len() / 4) as u64 != pixel_count {
        proof {
            let w = width as int;
            let h = height as int;
            if bgra@.len() == 4 * w * h {
                assert(4 * w * h == (w * h) * 4) by (nonlinear_arith);
                vstd::arithmetic::div_mod::lemma_mod_multiples_basic(w * h, 4);
                vstd::arithmetic::div_mod::lemma_div_by_multiple(w * h, 4);
            }
        }
        return Err(String::from_str("Pixel buffer does not match dimensions"));
    }
    proof {
        let w = width as int;
        let h = height as int;
        vstd::arithmetic::div_mod::lemma_fundamental_div_mod(bgra@.len() as int, 4);
        assert(4 * (w * h) == 4 * w * h) by (nonlinear_arith);
    }
    let rgba = bgra_to_rgba(&bgra);
    match encode_rgba_png(&rgba, width, height) {
        Ok(data) => Ok(data),
        Err(_) => {
            proof {
                assert(false);
            }
            Err(String::new())
        },
    }
}

} // verus!
