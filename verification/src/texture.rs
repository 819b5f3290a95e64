//! Rasters of 8-bit RGBA pixels, and textures read from them.

use vstd::prelude::*;

verus! {

/// A raster of RGBA pixels, stored by the `image` crate as an
/// `ImageBuffer<Rgba<u8>, Vec<u8>>`.
#[verifier::external_body]
pub struct Raster {
    inner: image::RgbaImage,
}

/// What a pixel holds: red, green, blue, alpha.
pub type Pixel = (u8, u8, u8, u8);

/// The width and height that a raster was made with.
pub uninterp spec fn raster_size(raster: Raster) -> (u32, u32);

/// The pixels of a raster by column and row.
pub uninterp spec fn raster_pixels(raster: Raster) -> Map<(u32, u32), Pixel>;

/// Whether the length of a buffer for `width` by `height` pixels can be
/// computed: four times the width, and that times the height, are both
/// within `usize`.
pub open spec fn fits(width: u32, height: u32) -> bool {
    4 * width <= usize::MAX && 4 * width * height <= usize::MAX
}

/// Where the first channel of the pixel at column `x`, row `y` lies in a
/// row-major buffer of four channels a pixel.
pub open spec fn channel_offset(width: u32, x: u32, y: u32) -> int {
    (y * width + x) * 4
}

/// Whether `bytes` holds, row by row, the pixels of a `width` by `height` raster.
pub open spec fn holds_pixels(bytes: Seq<u8>, width: u32, height: u32, pixels: Map<(u32, u32), Pixel>) -> bool {
    &&& 4 * width * height <= bytes.len()
    &&& forall|x: u32, y: u32|
        x < width && y < height ==> #[trigger] pixels[(x, y)] == (
            bytes[channel_offset(width, x, y)],
            bytes[channel_offset(width, x, y) + 1],
            bytes[channel_offset(width, x, y) + 2],
            bytes[channel_offset(width, x, y) + 3],
        )
}

impl Raster {
    /// `ImageBuffer::new`: a raster of the given size, every channel zero.
    /// The outside function multiplies four by the width and then by the
    /// height and panics where either product overflows `usize`, so both
    /// are required to fit.
    #[verifier::external_body]
    pub(crate) fn new(width: u32, height: u32) -> (r: Raster)
        requires
            fits(width, height),
        ensures
            raster_size(r) == (width, height),
            forall|x: u32, y: u32|
                x < width && y < height ==> #[trigger] raster_pixels(r)[(x, y)] == (0u8, 0u8, 0u8, 0u8),
    {
        Raster { inner: image::ImageBuffer::new(width, height) }
    }

    /// `ImageBuffer::from_raw`: the raster over a row-major buffer. The
    /// outside function multiplies four by the width and then by the
    /// height, and accepts the buffer where neither product overflows
    /// `usize` and the buffer is as long as the second.
    #[verifier::external_body]
    pub(crate) fn from_raw(width: u32, height: u32, bytes: Vec<u8>) -> (r: Option<Raster>)
        ensures
            r.is_some() == (fits(width, height) && 4 * width * height <= bytes@.len()),
            r matches Some(raster) ==> raster_size(raster) == (width, height) && holds_pixels(
                bytes@,
                width,
                height,
                raster_pixels(raster),
            ),
    {
        match image::ImageBuffer::from_raw(width, height, bytes) {
            Some(inner) => Some(Raster { inner }),
            None => None,
        }
    }

    /// `ImageBuffer::get_pixel`: the pixel at column `x`, row `y`. The
    /// outside function panics outside the raster, so the bounds are required.
    #[verifier::external_body]
    pub(crate) fn get_pixel(&self, x: u32, y: u32) -> (r: Pixel)
        requires
            x < raster_size(*self).0,
            y < raster_size(*self).1,
        ensures
            r == raster_pixels(*self)[(x, y)],
    {
        let p = self.inner.get_pixel(x, y).0;
        (p[0], p[1], p[2], p[3])
    }

    /// `ImageBuffer::put_pixel`: replaces the pixel at column `x`, row `y`
    /// and no other. It panics outside the raster like `get_pixel`.
    #[verifier::external_body]
    pub(crate) fn put_pixel(&mut self, x: u32, y: u32, pixel: Pixel)
        requires
            x < raster_size(*old(self)).0,
            y < raster_size(*old(self)).1,
        ensures
            raster_size(*final(self)) == raster_size(*old(self)),
            raster_pixels(*final(self)) == raster_pixels(*old(self)).insert((x, y), pixel),
    {
        self.inner.put_pixel(x, y, image::Rgba([pixel.0, pixel.1, pixel.2, pixel.3]));
    }

    /// `ImageBuffer::into_raw`: the row-major buffer under the raster.
    #[verifier::external_body]
    pub(crate) fn into_raw(self) -> (r: Vec<u8>)
        ensures
            holds_pixels(r@, raster_size(self).0, raster_size(self).1, raster_pixels(self)),
    {
        self.inner.into_raw()
    }
}

/// An image whose texels colour a surface.
pub struct Texture2d {
    width: u32,
    height: u32,
    image: Raster,
}

impl Texture2d {
    #[verifier::type_invariant]
    spec fn sized(&self) -> bool {
        raster_size(self.image) == (self.width, self.height)
    }

    /// The number of texels in a row.
    pub closed spec fn columns(&self) -> u32 {
        self.width
    }

    /// The number of rows.
    pub closed spec fn rows(&self) -> u32 {
        self.height
    }

    /// The texels by column and row.
    pub closed spec fn texels(&self) -> Map<(u32, u32), Pixel> {
        raster_pixels(self.image)
    }

    /// The texture over a row-major buffer of RGBA bytes, where the length
    /// for `width` by `height` texels can be computed and the buffer has it.
    pub fn new(width: u32, height: u32, bytes: Vec<u8>) -> (r: Option<Texture2d>)
        ensures
            r.is_some() == (fits(width, height) && 4 * width * height <= bytes@.len()),
            r matches Some(t) ==> t.columns() == width && t.rows() == height && holds_pixels(
                bytes@,
                width,
                height,
                t.texels(),
            ),
    {
        match Raster::from_raw(width, height, bytes) {
            Some(image) => Some(Texture2d { width, height, image }),
            None => None,
        }
    }

    /// The number of texels in a row.
    pub fn width(&self) -> (r: u32)
        ensures
            r == self.columns(),
    {
        self.width
    }

    /// The number of rows.
    pub fn height(&self) -> (r: u32)
        ensures
            r == self.rows(),
    {
        self.height
    }

    /// The texel at column `x`, row `y`, or `None` outside the image.
    pub fn texel(&self, x: u32, y: u32) -> (r: Option<Pixel>)
        ensures
            r == if x < self.columns() && y < self.rows() {
                Some(self.texels()[(x, y)])
            } else {
                None
            },
    {
        proof {
            use_type_invariant(self);
        }
        if x < self.width && y < self.height {
            Some(self.image.get_pixel(x, y))
        } else {
            None
        }
    }
}

} // verus!
