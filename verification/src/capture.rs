//! The frame store: one still capture of the device display, decoded from
//! the PNG image pulled off the device and normalized to RGBA bytes for the
//! rendering surface.

use vstd::prelude::*;

verus! {

/// Why a pulled image could not become a capture. Every one of these is
/// fatal to the mirroring loop.
#[derive(Clone, Copy, Debug, PartialEq, Eq, Structural)]
pub enum DecodeError {
    /// The bytes are not a decodable image, or the decoder handed back
    /// fewer sample bytes than the decoded dimensions call for.
    Malformed,
    /// The image decoded, but not to 8 bits per sample.
    Unsupported,
}

/// One still capture: an RGBA image in device pixels.
pub struct Capture {
    pub width: u32,
    pub height: u32,
    pub pixels: Vec<u8>,
}

impl Capture {
    /// A capture holds exactly four bytes per device pixel.
    pub open spec fn wf(self) -> bool {
        self.pixels@.len() == 4 * (self.width as int) * (self.height as int)
    }
}

/// What the image decoder hands back before the library normalizes it:
/// dimensions, samples per pixel, bits per sample, and the sample bytes.
pub struct RawImage {
    pub width: u32,
    pub height: u32,
    pub channels: usize,
    pub depth: u8,
    pub bytes: Vec<u8>,
}

/// What decoding a byte string as one PNG image yields, after palette and
/// low bit depths are expanded and 16-bit samples are stripped to 8:
/// `None` when the bytes are rejected, otherwise width, height, samples per
/// pixel, bits per sample, and the sample bytes, a function of the input
/// bytes alone.
pub uninterp spec fn png_decoded(data: Seq<u8>) -> Option<(u32, u32, usize, u8, Seq<u8>)>;

/// Relies on png's `Decoder::read_info` and `Reader::next_frame` with the
/// `EXPAND` and `STRIP_16` transformations: they decode the first frame of
/// a PNG byte string into 8-bit samples, 1 to 4 per pixel. Whether decoding
/// succeeds can also depend on the machine's address-space limits, so only
/// the successful result is pinned to `png_decoded`.
#[verifier::external_body]
fn decode_png(data: &Vec<u8>) -> (r: Result<RawImage, DecodeError>)
    ensures
        r matches Ok(img) ==> png_decoded(data@) matches Some(d) && img.width == d.0
            && img.height == d.1 && img.channels == d.2 && img.depth == d.3 && img.bytes@ == d.4,
        r matches Ok(img) ==> 1 <= img.channels <= 4,
        r matches Err(e) ==> e == DecodeError::Malformed,
{
    let mut decoder = png::Decoder::new(std::io::Cursor::new(data.as_slice()));
    decoder.set_transformations(png::Transformations::EXPAND | png::Transformations::STRIP_16);
    let mut reader = decoder.read_info().map_err(|_| DecodeError::Malformed)?;
    let size = reader.output_buffer_size().ok_or(DecodeError::Malformed)?;
    let mut buf = vec![0u8; size];
    let info = reader.next_frame(&mut buf).map_err(|_| DecodeError::Malformed)?;
    Ok(RawImage {
        width: info.width,
        height: info.height,
        channels: info.color_type.samples(),
        depth: info.bit_depth as u8,
        bytes: buf,
    })
}

/// The `j`-th byte of the RGBA expansion of 8-bit samples `src` holding
/// `ch` samples per pixel: a lone gray sample is replicated to red, green
/// and blue; a missing alpha sample becomes 255 (opaque).
pub open spec fn rgba_byte(ch: int, src: Seq<u8>, j: int) -> u8 {
    let p = j / 4;
    let k = j % 4;
    if ch == 1 {
        if k == 3 {
            255u8
        } else {
            src[p]
        }
    } else if ch == 2 {
        if k == 3 {
            src[2 * p + 1]
        } else {
            src[2 * p]
        }
    } else if ch == 3 {
        if k == 3 {
            255u8
        } else {
            src[3 * p + k]
        }
    } else {
        src[4 * p + k]
    }
}

/// Expands `npix` pixels of 8-bit samples, `ch` samples each, into RGBA
/// bytes, four per pixel.
pub fn expand_rgba(ch: usize, src: &Vec<u8>, npix: usize) -> (out: Vec<u8>)
    requires
        1 <= ch <= 4,
        npix * ch <= src@.len(),
    ensures
        out@.len() == 4 * npix,
        forall|j: int| 0 <= j < 4 * npix ==> out@[j] == rgba_byte(ch as int, src@, j),
{
    let mut out: Vec<u8> = Vec::new();
    let mut i: usize = 0;
    let len: usize = src.len();
    while i < npix
        invariant
            i <= npix,
            1 <= ch <= 4,
            len == src@.len(),
            npix * ch <= len,
            out@.len() == 4 * i,
            forall|j: int| 0 <= j < 4 * i ==> out@[j] == rgba_byte(ch as int, src@, j),
        decreases npix - i,
    {
        proof {
            assert(i * ch + ch <= npix * ch) by (nonlinear_arith)
                requires
                    i < npix,
                    ch >= 1,
            ;
        }
        let base: usize = i * ch;
        if ch == 1 {
            let g = src[base];
            out.push(g);
            out.push(g);
            out.push(g);
            out.push(255);
        } else if ch == 2 {
            let g = src[base];
            let a = src[base + 1];
            out.push(g);
            out.push(g);
            out.push(g);
            out.push(a);
        } else if ch == 3 {
            out.push(src[base]);
            out.push(src[base + 1]);
            out.push(src[base + 2]);
            out.push(255);
        } else {
            out.push(src[base]);
            out.push(src[base + 1]);
            out.push(src[base + 2]);
            out.push(src[base + 3]);
        }
        proof {
            assert forall|j: int| 4 * i <= j < 4 * i + 4 implies out@[j] == rgba_byte(
                ch as int,
                src@,
                j,
            ) by {
                vstd::arithmetic::div_mod::lemma_fundamental_div_mod_converse(j, 4, i as int, j - 4
                    * (i as int));
            }
        }
        i = i + 1;
    }
    out
}

/// Decodes a pulled PNG image into an RGBA capture of the device display.
/// On success the capture has the decoded dimensions and holds, pixel for
/// pixel, the RGBA expansion of the decoded samples. Bytes that do not
/// decode are `Malformed`; an image that decodes to a sample depth other
/// than 8 bits is `Unsupported`.
pub fn decode_capture(data: &Vec<u8>) -> (r: Result<Capture, DecodeError>)
    ensures
        r matches Ok(c) ==> png_decoded(data@) matches Some(d) && {
            &&& c.width == d.0
            &&& c.height == d.1
            &&& c.wf()
            &&& d.3 == 8
            &&& forall|j: int|
                0 <= j < c.pixels@.len() ==> c.pixels@[j] == rgba_byte(d.2 as int, d.4, j)
        },
        png_decoded(data@) is None ==> r matches Err(DecodeError::Malformed),
        png_decoded(data@) matches Some(d) && d.3 != 8 ==> r is Err,
        png_decoded(data@) matches Some(d) && (d.0 as int) * (d.1 as int) * (d.2 as int)
            > d.4.len() ==> r is Err,
        r matches Err(e) && e == DecodeError::Unsupported ==> (png_decoded(data@) matches Some(d)
            && d.3 != 8),
{
    let raw = match decode_png(data) {
        Ok(i) => i,
        Err(e) => return Err(e),
    };
    if raw.depth != 8 {
        return Err(DecodeError::Unsupported);
    }
    proof {
        assert((raw.width as int) * (raw.height as int) <= u64::MAX) by (nonlinear_arith)
            requires
                raw.width <= u32::MAX,
                raw.height <= u32::MAX,
        ;
    }
    let np: u64 = (raw.width as u64) * (raw.height as u64);
    proof {
        assert((np as int) * (raw.channels as int) <= u128::MAX) by (nonlinear_arith)
            requires
                np <= u64::MAX,
                raw.channels <= 4,
        ;
    }
    let need: u128 = (np as u128) * (raw.channels as u128);
    if need > raw.bytes.len() as u128 {
        return Err(DecodeError::Malformed);
    }
    proof {
        assert(np <= np * raw.channels) by (nonlinear_arith)
            requires
                raw.channels >= 1,
                np >= 0,
        ;
    }
    let npix: usize = np as usize;
    let pixels = expand_rgba(raw.channels, &raw.bytes, npix);
    proof {
        assert(4 * (npix as int) == 4 * (raw.width as int) * (raw.height as int))
            by (nonlinear_arith)
            requires
                npix == (raw.width as int) * (raw.height as int),
        ;
    }
    Ok(Capture { width: raw.width, height: raw.height, pixels })
}

} // verus!
