//! The boundary to the `png` crate. What stands here is believed, not
//! proved: the statements about the encoder were read off its source.

use vstd::prelude::*;

verus! {

/// The error of the `png` encoder. Nothing is known of it but that it is one.
#[verifier::external_type_specification]
#[verifier::external_body]
pub struct ExEncodingError(png::EncodingError);

/// The PNG file that the `png` crate writes for an image of `width` by
/// `height` pixels whose 8-bit RGBA samples are `data`, with Huffman coding
/// alone as compression and the crate's own choice of filter. The encoder
/// reads nothing but these three, so the file is a function of them.
pub uninterp spec fn png_stream(width: u32, height: u32, data: Seq<u8>) -> Seq<u8>;

/// The bits of one row and the bytes of the whole image can be counted in
/// `usize`, as the encoder does count them.
pub open spec fn addressable(width: u32, height: u32) -> bool {
    32 * width <= usize::MAX && 4 * width * height <= usize::MAX
}

/// Runs the encoder of the `png` crate on a vector in memory:
/// `Encoder::new`, `HasParameters::set` with `ColorType::RGBA`, with
/// `BitDepth::Eight` and with `Compression::Huffman`, `Encoder::write_header`,
/// then `Writer::write_image_data`; dropping the writer adds the closing
/// chunk.
///
/// Believed of it: `write_image_data` refuses data whose length is not four
/// bytes for each pixel, and nothing else fails, since every write goes to a
/// vector. What comes out on success is the file named by [`png_stream`].
///
/// Three ways to a panic were found in the encoder and in the `deflate`
/// crate below it, and none is open to a call made here:
/// - the data is split into rows of `4 * width` bytes, and a row of no bytes
///   panics: `width > 0` leaves it out;
/// - the bits of a row and the bytes of the image are counted in `usize`
///   without a check: `addressable` leaves out where they do not fit;
/// - where the compressor looks for repeated bytes, a repeat that runs past
///   the end of its window while the block fills up makes it read its buffer
///   at a place that has moved. `Compression::Huffman` looks for no repeats,
///   so every byte is written as a literal, no repeat can run past anything,
///   and that place is never reached. The files are larger for it.
#[verifier::external_body]
pub(crate) fn encode_rgba8(
    width: u32,
    height: u32,
    data: &Vec<u8>,
) -> (r: Result<Vec<u8>, png::EncodingError>)
    requires
        width > 0,
        addressable(width, height),
    ensures
        r is Ok <==> data@.len() == 4 * width * height,
        r matches Ok(bytes) ==> bytes@ == png_stream(width, height, data@),
{
    let mut out: Vec<u8> = Vec::new();
    {
        let mut encoder = png::Encoder::new(&mut out, width, height);
        png::HasParameters::set(&mut encoder, png::ColorType::RGBA);
        png::HasParameters::set(&mut encoder, png::BitDepth::Eight);
        png::HasParameters::set(&mut encoder, png::Compression::Huffman);
        let mut writer = encoder.write_header()?;
        writer.write_image_data(data.as_slice())?;
    }
    Ok(out)
}

} // verus!
