//! Describing an in-memory pixel buffer to the engine without copying it.
use vstd::prelude::*;

use image::DynamicImage;

verus! {

/// image's `DynamicImage`, carried through opaque: only `rgb8_of` looks
/// inside it.
#[verifier::external_type_specification]
#[verifier::external_body]
pub struct ExDynamicImage(DynamicImage);

/// The largest value of the engine's integer parameters.
pub const NATIVE_INT_MAX: u32 = 0x7fff_ffff;

/// The geometry and channel layout of a pixel buffer that someone else owns.
///
/// Row `y` starts `y * row_stride_bytes` bytes into the buffer; pixel `x` of a
/// row starts `x * pixel_stride_bytes` bytes into the row; its red, green and
/// blue samples sit at the three offsets within the pixel.
#[derive(Clone, Copy, Debug, PartialEq, Eq, Structural)]
pub struct PixelBufferDescriptor {
    pub width: u32,
    pub height: u32,
    pub row_stride_bytes: u32,
    pub pixel_stride_bytes: u32,
    pub red_offset: u8,
    pub green_offset: u8,
    pub blue_offset: u8,
}

/// The arguments of the engine's decode entry point, in its integer width.
#[derive(Clone, Copy, Debug, PartialEq, Eq, Structural)]
pub struct NativeDecodeArgs {
    pub width: i32,
    pub height: i32,
    pub row_bytes: i32,
    pub pixel_bytes: i32,
    pub index_r: i32,
    pub index_g: i32,
    pub index_b: i32,
}

impl PixelBufferDescriptor {
    /// A row holds all its pixels, and each channel lies inside its pixel.
    pub open spec fn wf(self) -> bool {
        &&& self.row_stride_bytes as int >= self.width as int * self.pixel_stride_bytes as int
        &&& (self.red_offset as int) < self.pixel_stride_bytes as int
        &&& (self.green_offset as int) < self.pixel_stride_bytes as int
        &&& (self.blue_offset as int) < self.pixel_stride_bytes as int
    }

    /// The number of bytes a buffer of this layout must hold at least.
    pub open spec fn spec_required_len(self) -> int {
        self.row_stride_bytes as int * self.height as int
    }

    /// Every dimension fits the engine's integer parameters.
    pub open spec fn fits_native(self) -> bool {
        &&& self.width <= NATIVE_INT_MAX
        &&& self.height <= NATIVE_INT_MAX
        &&& self.row_stride_bytes <= NATIVE_INT_MAX
        &&& self.pixel_stride_bytes <= NATIVE_INT_MAX
    }

    /// A descriptor with the given layout, or `None` where a row is too short
    /// for its pixels or a channel offset falls outside its pixel.
    pub fn new(
        width: u32,
        height: u32,
        row_stride_bytes: u32,
        pixel_stride_bytes: u32,
        red_offset: u8,
        green_offset: u8,
        blue_offset: u8,
    ) -> (r: Option<PixelBufferDescriptor>)
        ensures
            r is Some <==> (PixelBufferDescriptor {
                width,
                height,
                row_stride_bytes,
                pixel_stride_bytes,
                red_offset,
                green_offset,
                blue_offset,
            }).wf(),
            r matches Some(d) ==> d == (PixelBufferDescriptor {
                width,
                height,
                row_stride_bytes,
                pixel_stride_bytes,
                red_offset,
                green_offset,
                blue_offset,
            }),
    {
        let d = PixelBufferDescriptor {
            width,
            height,
            row_stride_bytes,
            pixel_stride_bytes,
            red_offset,
            green_offset,
            blue_offset,
        };
        if d.is_valid() {
            Some(d)
        } else {
            None
        }
    }

    /// Whether the layout is consistent.
    pub fn is_valid(&self) -> (r: bool)
        ensures
            r == self.wf(),
    {
        let w = self.width as u64;
        let p = self.pixel_stride_bytes as u64;
        assert(w * p <= u32::MAX as int * u32::MAX as int) by (nonlinear_arith)
            requires
                w <= u32::MAX,
                p <= u32::MAX,
        ;
        self.row_stride_bytes as u64 >= w * p && (self.red_offset as u32)
            < self.pixel_stride_bytes && (self.green_offset as u32) < self.pixel_stride_bytes
            && (self.blue_offset as u32) < self.pixel_stride_bytes
    }

    /// Packed 8-bit RGB: three bytes a pixel in red, green, blue order, rows
    /// one after another. `None` where a row of that width would not fit the
    /// stride's integer width.
    pub fn packed_rgb(width: u32, height: u32) -> (r: Option<PixelBufferDescriptor>)
        ensures
            r is Some <==> 3 * width as int <= u32::MAX,
            r matches Some(d) ==> {
                &&& d.wf()
                &&& d.width == width
                &&& d.height == height
                &&& d.row_stride_bytes == 3 * width as int
                &&& d.pixel_stride_bytes == 3
                &&& d.red_offset == 0
                &&& d.green_offset == 1
                &&& d.blue_offset == 2
            },
    {
        if width > u32::MAX / 3 {
            return None;
        }
        Some(
            PixelBufferDescriptor {
                width,
                height,
                row_stride_bytes: 3 * width,
                pixel_stride_bytes: 3,
                red_offset: 0,
                green_offset: 1,
                blue_offset: 2,
            },
        )
    }

    /// The number of bytes a buffer of this layout must hold at least.
    pub fn required_len(&self) -> (r: u64)
        ensures
            r == self.spec_required_len(),
    {
        let s = self.row_stride_bytes as u64;
        let h = self.height as u64;
        assert(s * h <= u32::MAX as int * u32::MAX as int) by (nonlinear_arith)
            requires
                s <= u32::MAX,
                h <= u32::MAX,
        ;
        s * h
    }

    /// The engine's decode arguments for a buffer of `buffer_len` bytes laid
    /// out as described. `None` where the layout is inconsistent, the buffer
    /// is shorter than the layout needs, or a dimension does not fit the
    /// engine's integers.
    pub fn native_args(&self, buffer_len: usize) -> (r: Option<NativeDecodeArgs>)
        ensures
            r is Some <==> self.wf() && self.fits_native() && buffer_len
                >= self.spec_required_len(),
            r matches Some(a) ==> {
                &&& a.width == self.width
                &&& a.height == self.height
                &&& a.row_bytes == self.row_stride_bytes
                &&& a.pixel_bytes == self.pixel_stride_bytes
                &&& a.index_r == self.red_offset
                &&& a.index_g == self.green_offset
                &&& a.index_b == self.blue_offset
            },
    {
        if !self.is_valid() {
            return None;
        }
        if self.width > NATIVE_INT_MAX || self.height > NATIVE_INT_MAX || self.row_stride_bytes
            > NATIVE_INT_MAX || self.pixel_stride_bytes > NATIVE_INT_MAX {
            return None;
        }
        if (buffer_len as u64) < self.required_len() {
            return None;
        }
        Some(
            NativeDecodeArgs {
                width: self.width as i32,
                height: self.height as i32,
                row_bytes: self.row_stride_bytes as i32,
                pixel_bytes: self.pixel_stride_bytes as i32,
                index_r: self.red_offset as i32,
                index_g: self.green_offset as i32,
                index_b: self.blue_offset as i32,
            },
        )
    }
}

/// Relies on image's `DynamicImage::to_rgb8`, which converts into a fresh
/// `ImageBuffer::new(width, height)`: three bytes a pixel, rows packed. The
/// buffer's `width`, `height` and `into_raw` hand back its size and bytes.
/// `ImageBuffer::new` panics only where that length overflows `usize`, which
/// no image held in memory on a 64-bit machine reaches.
#[verifier::external_body]
fn rgb8_of(image: &DynamicImage) -> (r: (u32, u32, Vec<u8>))
    ensures
        r.2@.len() == 3 * r.0 as int * r.1 as int,
{
    let buffer = image.to_rgb8();
    (buffer.width(), buffer.height(), buffer.into_raw())
}

/// An image's pixels as packed 8-bit RGB, owned.
pub struct RgbPixels {
    width: u32,
    height: u32,
    data: Vec<u8>,
}

impl RgbPixels {
    pub closed spec fn spec_width(&self) -> u32 {
        self.width
    }

    pub closed spec fn spec_height(&self) -> u32 {
        self.height
    }

    pub closed spec fn spec_data(&self) -> Seq<u8> {
        self.data@
    }

    /// Three bytes for each pixel, no more.
    pub open spec fn wf(&self) -> bool {
        self.spec_data().len() == 3 * self.spec_width() as int * self.spec_height() as int
    }

    #[verifier::type_invariant]
    spec fn inv(&self) -> bool {
        self.data@.len() == 3 * self.width as int * self.height as int
    }

    /// The image's pixels converted to packed 8-bit RGB.
    pub fn from_image(image: &DynamicImage) -> (r: RgbPixels)
        ensures
            r.wf(),
    {
        let (width, height, data) = rgb8_of(image);
        RgbPixels { width, height, data }
    }

    pub fn width(&self) -> (r: u32)
        ensures
            r == self.spec_width(),
    {
        self.width
    }

    pub fn height(&self) -> (r: u32)
        ensures
            r == self.spec_height(),
    {
        self.height
    }

    pub fn data(&self) -> (r: &[u8])
        ensures
            r@ == self.spec_data(),
    {
        self.data.as_slice()
    }

    /// The layout of these pixels, or `None` where a row is too wide for the
    /// stride's integer width.
    pub fn descriptor(&self) -> (r: Option<PixelBufferDescriptor>)
        ensures
            self.wf(),
            r is Some <==> 3 * self.spec_width() as int <= u32::MAX,
            r matches Some(d) ==> {
                &&& d.wf()
                &&& d.width == self.spec_width()
                &&& d.height == self.spec_height()
                &&& d.pixel_stride_bytes == 3
                &&& d.red_offset == 0
                &&& d.green_offset == 1
                &&& d.blue_offset == 2
                &&& d.spec_required_len() == self.spec_data().len()
            },
    {
        proof {
            use_type_invariant(self);
        }
        PixelBufferDescriptor::packed_rgb(self.width, self.height)
    }
}

} // verus!
