//! The frame buffer: 8-bit RGBA pixels in row-major order.

use vstd::prelude::*;

use crate::encoder::{addressable, encode_rgba8, png_stream};

verus! {

/// Why an image could not be turned into a PNG file.
#[derive(Clone, Copy, PartialEq, Eq, Structural, Debug)]
pub enum EncodeError {
    /// The image is too large for this machine: the bits of a row or the
    /// bytes of all rows cannot be counted.
    TooLarge,
    /// The image has a width of zero, so there is no row to encode.
    ZeroWidth,
    /// The buffer does not hold four bytes for each pixel.
    BufferLength,
}

/// Bytes stored for one pixel: red, green, blue, alpha.
pub const CHANNELS: usize = 4;

/// The alpha value given to every pixel that is set.
pub const OPAQUE: u8 = 255;

/// A rectangular image of `width` by `height` pixels.
///
/// `buffer` holds the rows one after another, each row from left to right,
/// each pixel as four bytes: red, green, blue, alpha.
pub struct Image {
    pub buffer: Vec<u8>,
    pub width: u32,
    pub height: u32,
}

/// What an image is: its size and its pixels in row-major order, each as
/// red, green, blue, alpha.
pub struct ImageView {
    pub width: nat,
    pub height: nat,
    pub pixels: Seq<(u8, u8, u8, u8)>,
}

impl View for Image {
    type V = ImageView;

    /// The size and the pixels, as far as the buffer holds whole pixels.
    open spec fn view(&self) -> ImageView {
        ImageView {
            width: self.width as nat,
            height: self.height as nat,
            pixels: Seq::new(
                (self.buffer@.len() / 4) as nat,
                |k: int|
                    (
                        self.buffer@[4 * k],
                        self.buffer@[4 * k + 1],
                        self.buffer@[4 * k + 2],
                        self.buffer@[4 * k + 3],
                    ),
            ),
        }
    }
}

impl Image {
    /// The buffer holds exactly four bytes for each of the `width * height` pixels.
    pub open spec fn wf(&self) -> bool {
        self.buffer@.len() == 4 * self.width * self.height
    }

    /// Position of pixel `(x, y)` among the pixels: rows first.
    pub open spec fn index_of(&self, x: u32, y: u32) -> int {
        y * self.width + x
    }

    /// Whether `(x, y)` names a pixel of the image.
    pub open spec fn contains(&self, x: u32, y: u32) -> bool {
        x < self.width && y < self.height
    }

    /// The pixel at `(x, y)`: red, green, blue, alpha.
    pub open spec fn pixel(&self, x: u32, y: u32) -> (u8, u8, u8, u8) {
        self@.pixels[self.index_of(x, y)]
    }

    /// Every pixel of the image has a place among the `width * height`
    /// pixels.
    pub proof fn index_in_range(&self, x: u32, y: u32)
        requires
            self.contains(x, y),
        ensures
            0 <= self.index_of(x, y) < self.width * self.height,
    {
        let w = self.width as int;
        let h = self.height as int;
        assert(0 <= y * w && y * w + x < w * h) by (nonlinear_arith)
            requires
                0 <= x < w,
                0 <= y < h,
        ;
    }

    /// Two pixels of the image that share a place are one pixel.
    pub proof fn index_is_injective(&self, x: u32, y: u32, x2: u32, y2: u32)
        requires
            self.contains(x, y),
            self.contains(x2, y2),
            self.index_of(x, y) == self.index_of(x2, y2),
        ensures
            x == x2,
            y == y2,
    {
        let w = self.width as int;
        assert(y == y2) by (nonlinear_arith)
            requires
                0 <= x < w,
                0 <= x2 < w,
                0 <= y,
                0 <= y2,
                y * w + x == y2 * w + x2,
        ;
    }

    /// A new image whose bytes are all zero: every pixel black and fully
    /// transparent.
    pub fn new(width: u32, height: u32) -> (image: Image)
        requires
            4 * width * height <= usize::MAX,
        ensures
            image.wf(),
            image.width == width,
            image.height == height,
            image.buffer@ == Seq::new((4 * width * height) as nat, |i: int| 0u8),
            image@ == (ImageView {
                width: width as nat,
                height: height as nat,
                pixels: Seq::new((width * height) as nat, |k: int| (0u8, 0u8, 0u8, 0u8)),
            }),
    {
        assert(width * height <= 4 * width * height) by (nonlinear_arith);
        assert(4 * width * height == (width * height) * 4) by (nonlinear_arith);
        let pixels: usize = (width as usize) * (height as usize);
        let length: usize = pixels * CHANNELS;
        let image = Image { buffer: vec![0u8; length], width, height };
        assert(image.buffer@ =~= Seq::new((4 * width * height) as nat, |i: int| 0u8));
        assert(image@.pixels =~= Seq::new(
            (width * height) as nat,
            |k: int| (0u8, 0u8, 0u8, 0u8),
        ));
        image
    }

    /// Stores the colour `(r, g, b)` at pixel `(x, y)` and makes the pixel
    /// opaque. No other pixel changes.
    pub fn set_pixel(&mut self, x: u32, y: u32, r: u8, g: u8, b: u8)
        requires
            old(self).wf(),
            old(self).contains(x, y),
        ensures
            final(self).wf(),
            final(self).width == old(self).width,
            final(self).height == old(self).height,
            final(self).buffer@ == old(self).buffer@
                .update(4 * old(self).index_of(x, y), r)
                .update(4 * old(self).index_of(x, y) + 1, g)
                .update(4 * old(self).index_of(x, y) + 2, b)
                .update(4 * old(self).index_of(x, y) + 3, OPAQUE),
            final(self)@ == (ImageView {
                width: old(self)@.width,
                height: old(self)@.height,
                pixels: old(self)@.pixels.update(old(self).index_of(x, y), (r, g, b, OPAQUE)),
            }),
            final(self).pixel(x, y) == (r, g, b, OPAQUE),
            forall|x2: u32, y2: u32|
                old(self).contains(x2, y2) && (x2 != x || y2 != y) ==> #[trigger] final(self).pixel(
                    x2,
                    y2,
                ) == old(self).pixel(x2, y2),
    {
        proof {
            let w = self.width as int;
            let h = self.height as int;
            self.index_in_range(x, y);
            assert(4 * w * h == 4 * (w * h)) by (nonlinear_arith);
            assert(self.buffer.len() == 4 * (w * h));
        }
        let row: usize = (y as usize) * (self.width as usize);
        let position: usize = (row + x as usize) * CHANNELS;
        self.buffer.set(position, r);
        self.buffer.set(position + 1, g);
        self.buffer.set(position + 2, b);
        self.buffer.set(position + 3, OPAQUE);
        assert(self@.pixels =~= old(self)@.pixels.update(
            old(self).index_of(x, y),
            (r, g, b, OPAQUE),
        ));
        assert forall|x2: u32, y2: u32|
            old(self).contains(x2, y2) && (x2 != x || y2 != y) implies #[trigger] self.pixel(
            x2,
            y2,
        ) == old(self).pixel(x2, y2) by {
            old(self).index_in_range(x2, y2);
            if old(self).index_of(x2, y2) == old(self).index_of(x, y) {
                old(self).index_is_injective(x, y, x2, y2);
            }
        }
    }

    /// The image can be written as a PNG file: its rows are not empty, its
    /// buffer holds four bytes for each pixel, and the machine can count
    /// them.
    pub open spec fn encodable(&self) -> bool {
        &&& addressable(self.width, self.height)
        &&& self.width > 0
        &&& self.wf()
    }

    /// The image as the bytes of a PNG file with 8-bit RGBA samples.
    ///
    /// Succeeds exactly on an encodable image; the bytes are then those that
    /// the encoder writes for the width, the height and the buffer. Of the
    /// three conditions the first that fails names the error.
    pub fn to_png(&self) -> (r: Result<Vec<u8>, EncodeError>)
        ensures
            match r {
                Ok(bytes) => self.encodable() && bytes@ == png_stream(
                    self.width,
                    self.height,
                    self.buffer@,
                ),
                Err(EncodeError::TooLarge) => !addressable(self.width, self.height),
                Err(EncodeError::ZeroWidth) => addressable(self.width, self.height)
                    && self.width == 0,
                Err(EncodeError::BufferLength) => addressable(self.width, self.height)
                    && self.width > 0 && !self.wf(),
            },
    {
        assert(self.width * self.height <= 0xffff_ffff * 0xffff_ffff) by (nonlinear_arith)
            requires
                self.width <= 0xffff_ffff,
                self.height <= 0xffff_ffff,
        ;
        assert(4 * self.width * self.height == 4 * (self.width * self.height))
            by (nonlinear_arith);
        let row_bits: u64 = 32 * (self.width as u64);
        let pixels: u64 = (self.width as u64) * (self.height as u64);
        if row_bits > usize::MAX as u64 || pixels > (usize::MAX / 4) as u64 {
            return Err(EncodeError::TooLarge);
        }
        if self.width == 0 {
            return Err(EncodeError::ZeroWidth);
        }
        match encode_rgba8(self.width, self.height, &self.buffer) {
            Ok(bytes) => Ok(bytes),
            Err(_) => Err(EncodeError::BufferLength),
        }
    }
}

} // verus!
