//! Conversion of raw sensor frames into interleaved three-byte pixels.
//!
//! Both decoders take the frame dimensions from the caller, never from the
//! buffer, read exactly `width * height` pixels and return a buffer of their
//! own that holds exactly `3 * width * height` bytes.

use vstd::prelude::*;
use vstd::slice::slice_subrange;
use vstd::slice::slice_to_vec;

verus! {

/// Divisor that maps the sensor's working depth range onto a byte.
pub const DEPTH_SCALE: u16 = 8;

/// Bytes per pixel of a decoded image.
pub const CHANNELS: usize = 3;

/// A decoded image: `height` rows of `width` pixels, three bytes each.
#[derive(Debug)]
pub struct DecodedImage {
    pub width: u32,
    pub height: u32,
    pub pixel_data: Vec<u8>,
}

/// Why a frame could not be decoded.
#[derive(Clone, Copy, Debug, PartialEq, Eq, Structural)]
pub enum DecodeError {
    /// `3 * width * height` bytes cannot be addressed on this machine.
    TooLarge,
    /// The input holds fewer than `width * height` pixels.
    ShortInput,
}

/// Number of pixels in a frame.
pub open spec fn pixel_count(width: u32, height: u32) -> int {
    width * height
}

/// Number of bytes in a decoded frame.
pub open spec fn buffer_len(width: u32, height: u32) -> int {
    3 * pixel_count(width, height)
}

/// The byte shown for a 16-bit depth sample: the sample divided by
/// [`DEPTH_SCALE`], rounded down, and saturated at 255.
pub open spec fn depth_to_byte(sample: u16) -> u8 {
    if sample / DEPTH_SCALE > 255 {
        255u8
    } else {
        (sample / DEPTH_SCALE) as u8
    }
}

/// The grey pixels of a run of depth samples: every sample's byte, three times
/// in a row.
pub open spec fn depth_pixels(samples: Seq<u16>) -> Seq<u8> {
    Seq::new(3 * samples.len(), |i: int| depth_to_byte(samples[i / 3]))
}

/// What decoding a depth frame of the given size yields.
pub open spec fn depth_image(samples: Seq<u16>, width: u32, height: u32) -> Result<
    Seq<u8>,
    DecodeError,
> {
    if buffer_len(width, height) > usize::MAX {
        Err(DecodeError::TooLarge)
    } else if samples.len() < pixel_count(width, height) {
        Err(DecodeError::ShortInput)
    } else {
        Ok(depth_pixels(samples.take(pixel_count(width, height))))
    }
}

/// What decoding a colour frame of the given size yields.
pub open spec fn color_image(data: Seq<u8>, width: u32, height: u32) -> Result<
    Seq<u8>,
    DecodeError,
> {
    if buffer_len(width, height) > usize::MAX {
        Err(DecodeError::TooLarge)
    } else if data.len() < buffer_len(width, height) {
        Err(DecodeError::ShortInput)
    } else {
        Ok(data.take(buffer_len(width, height)))
    }
}

/// Whether a decoder's result is the image that the model gives.
pub open spec fn decodes_to(
    result: Result<DecodedImage, DecodeError>,
    model: Result<Seq<u8>, DecodeError>,
    width: u32,
    height: u32,
) -> bool {
    match result {
        Ok(image) => model == Ok::<Seq<u8>, DecodeError>(image.pixel_data@) && image.width == width
            && image.height == height,
        Err(e) => model == Err::<Seq<u8>, DecodeError>(e),
    }
}

/// Scales one depth sample to a byte.
pub fn scale_depth_sample(sample: u16) -> (value: u8)
    ensures
        value == depth_to_byte(sample),
{
    let quotient: u16 = sample / DEPTH_SCALE;
    if quotient > 255 {
        255
    } else {
        quotient as u8
    }
}

/// Size in bytes of a decoded frame, or `None` where this machine cannot
/// address that many.
pub fn buffer_size(width: u32, height: u32) -> (size: Option<usize>)
    ensures
        size == if buffer_len(width, height) <= usize::MAX {
            Some(buffer_len(width, height) as usize)
        } else {
            None::<usize>
        },
{
    assert(width * height <= 0xffff_ffff * 0xffff_ffff) by (nonlinear_arith)
        requires
            width <= 0xffff_ffff,
            height <= 0xffff_ffff,
    ;
    let pixels: u128 = (width as u128) * (height as u128);
    let bytes: u128 = 3 * pixels;
    if bytes <= usize::MAX as u128 {
        Some(bytes as usize)
    } else {
        None
    }
}

/// Decodes a depth frame: each of the first `width * height` samples becomes
/// three equal bytes.
pub fn decode_depth(samples: &[u16], width: u32, height: u32) -> (result: Result<
    DecodedImage,
    DecodeError,
>)
    ensures
        decodes_to(result, depth_image(samples@, width, height), width, height),
        result is Ok ==> result->Ok_0.pixel_data@.len() == buffer_len(width, height),
{
    let size: usize = match buffer_size(width, height) {
        Some(size) => size,
        None => {
            return Err(DecodeError::TooLarge);
        },
    };
    let count: usize = size / CHANNELS;
    if samples.len() < count {
        return Err(DecodeError::ShortInput);
    }
    let mut pixels: Vec<u8> = Vec::with_capacity(size);
    let mut i: usize = 0;
    while i < count
        invariant
            i <= count <= samples.len(),
            3 * count == size,
            pixels@ == depth_pixels(samples@.take(i as int)),
        decreases count - i,
    {
        let value: u8 = scale_depth_sample(samples[i]);
        pixels.push(value);
        pixels.push(value);
        pixels.push(value);
        i += 1;
        assert(pixels@ =~= depth_pixels(samples@.take(i as int)));
    }
    Ok(DecodedImage { width, height, pixel_data: pixels })
}

/// Decodes a colour frame: a copy of the first `3 * width * height` bytes, in
/// their order.
pub fn decode_color(data: &[u8], width: u32, height: u32) -> (result: Result<
    DecodedImage,
    DecodeError,
>)
    ensures
        decodes_to(result, color_image(data@, width, height), width, height),
        result is Ok ==> result->Ok_0.pixel_data@.len() == buffer_len(width, height),
{
    let size: usize = match buffer_size(width, height) {
        Some(size) => size,
        None => {
            return Err(DecodeError::TooLarge);
        },
    };
    if data.len() < size {
        return Err(DecodeError::ShortInput);
    }
    let pixels: Vec<u8> = slice_to_vec(slice_subrange(data, 0, size));
    Ok(DecodedImage { width, height, pixel_data: pixels })
}

/// Depth scaling: a decoded depth frame shows sample number `k` in the three
/// bytes from `3 * k` on. All three hold the sample's eighth, rounded down,
/// where the sample is below 2048, and 255 where it is not.
pub proof fn lemma_depth_scaling(samples: Seq<u16>, width: u32, height: u32, k: int)
    requires
        depth_image(samples, width, height) is Ok,
        0 <= k < pixel_count(width, height),
    ensures
        ({
            let pixels = depth_image(samples, width, height)->Ok_0;
            let shown: int = if samples[k] <= 2047 {
                samples[k] as int / 8
            } else {
                255
            };
            &&& pixels[3 * k] == shown
            &&& pixels[3 * k + 1] == shown
            &&& pixels[3 * k + 2] == shown
        }),
{
}

/// Colour passthrough: a colour frame of exactly `3 * width * height` bytes
/// decodes to the same bytes in the same order.
pub proof fn lemma_color_passthrough(data: Seq<u8>, width: u32, height: u32)
    requires
        data.len() == buffer_len(width, height),
        buffer_len(width, height) <= usize::MAX,
    ensures
        color_image(data, width, height) == Ok::<Seq<u8>, DecodeError>(data),
{
    assert(data.take(buffer_len(width, height)) =~= data);
}

/// Buffer sizing: every decoded frame, depth or colour, holds exactly
/// `3 * width * height` bytes.
pub proof fn lemma_buffer_sizing(samples: Seq<u16>, data: Seq<u8>, width: u32, height: u32)
    ensures
        depth_image(samples, width, height) matches Ok(pixels) ==> pixels.len() == 3 * (width
            * height),
        color_image(data, width, height) matches Ok(pixels) ==> pixels.len() == 3 * (width
            * height),
{
}

/// Input beyond the frame is not read: what follows the first
/// `width * height` pixels of the input does not change the decoded frame.
pub proof fn lemma_decoding_reads_one_frame(
    samples: Seq<u16>,
    more_samples: Seq<u16>,
    data: Seq<u8>,
    more_data: Seq<u8>,
    width: u32,
    height: u32,
)
    ensures
        depth_image(samples, width, height) is Ok ==> depth_image(
            samples + more_samples,
            width,
            height,
        ) == depth_image(samples, width, height),
        color_image(data, width, height) is Ok ==> color_image(data + more_data, width, height)
            == color_image(data, width, height),
{
    let pixels = pixel_count(width, height);
    let bytes = buffer_len(width, height);
    if depth_image(samples, width, height) is Ok {
        assert((samples + more_samples).take(pixels) =~= samples.take(pixels));
    }
    if color_image(data, width, height) is Ok {
        assert((data + more_data).take(bytes) =~= data.take(bytes));
    }
}

} // verus!
