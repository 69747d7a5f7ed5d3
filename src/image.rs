use vstd::prelude::*;

verus! {

/// Why an image could not be created.
#[derive(Debug, Clone, Copy, PartialEq, Eq, Structural)]
pub enum ImageError {
    /// The width or the height is zero.
    InvalidDimensions,
    /// Three bytes per pixel would not fit in memory addresses.
    TooLarge,
}

/// An RGB image of `width` by `height` pixels with one byte per channel,
/// stored row by row from the top, three bytes per pixel.
pub struct Image {
    data: Vec<u8>,
    width: usize,
    height: usize,
}

/// Byte offset of channel `c` of pixel `(x, y)` in a row-major RGB buffer
/// whose rows are `width` pixels long.
pub open spec fn channel_offset(width: int, x: int, y: int, c: int) -> int {
    3 * (y * width + x) + c
}

/// The byte that a rounded channel value is stored as: the value clamped
/// to `0..=255`.
pub open spec fn saturated(v: int) -> u8 {
    if v < 0 {
        0
    } else if v > 255 {
        255
    } else {
        v as u8
    }
}

/// Distinct pixels of a row-major buffer occupy disjoint bytes, all of
/// them inside the buffer.
pub proof fn lemma_pixels_disjoint(width: int, height: int, x: int, y: int, px: int, py: int, c: int)
    requires
        0 <= x < width,
        0 <= px < width,
        0 <= y < height,
        0 <= py < height,
        0 <= c < 3,
        x != px || y != py,
    ensures
        0 <= channel_offset(width, px, py, c) < 3 * width * height,
        !(channel_offset(width, x, y, 0) <= channel_offset(width, px, py, c) < channel_offset(
            width,
            x,
            y,
            3,
        )),
{
    assert(py * width + px != y * width + x) by (nonlinear_arith)
        requires
            0 <= x < width,
            0 <= px < width,
            0 <= y,
            0 <= py,
            x != px || y != py,
    ;
    assert(0 <= 3 * (py * width + px) + c < 3 * width * height) by (nonlinear_arith)
        requires
            0 <= px < width,
            0 <= py < height,
            0 <= c < 3,
    ;
}

/// The byte that a rounded channel value is stored as: below zero it is 0,
/// above 255 it is 255, in between it is the value itself.
pub fn channel_byte(v: i64) -> (r: u8)
    ensures
        r == saturated(v as int),
{
    if v < 0 {
        0
    } else if v > 255 {
        255
    } else {
        v as u8
    }
}

impl Image {
    #[verifier::type_invariant]
    spec fn inv(&self) -> bool {
        &&& self.width > 0
        &&& self.height > 0
        &&& self.data@.len() == 3 * self.width * self.height
    }

    /// Number of pixels in a row.
    pub closed spec fn spec_width(&self) -> nat {
        self.width as nat
    }

    /// Number of rows.
    pub closed spec fn spec_height(&self) -> nat {
        self.height as nat
    }

    /// The stored bytes, row by row from the top, three per pixel.
    pub closed spec fn bytes(&self) -> Seq<u8> {
        self.data@
    }

    /// The buffer holds exactly three bytes for every pixel of a non-empty image.
    pub open spec fn well_formed(&self) -> bool {
        &&& self.spec_width() > 0
        &&& self.spec_height() > 0
        &&& self.bytes().len() == 3 * self.spec_width() * self.spec_height()
    }

    /// Whether `(x, y)` lies inside the image.
    pub open spec fn contains(&self, x: int, y: int) -> bool {
        0 <= x < self.spec_width() && 0 <= y < self.spec_height()
    }

    /// The stored channel `c` (0 red, 1 green, 2 blue) of pixel `(x, y)`.
    pub open spec fn channel(&self, x: int, y: int, c: int) -> u8 {
        self.bytes()[channel_offset(self.spec_width() as int, x, y, c)]
    }

    /// The stored color of pixel `(x, y)`.
    pub open spec fn pixel_at(&self, x: int, y: int) -> (u8, u8, u8) {
        (self.channel(x, y, 0), self.channel(x, y, 1), self.channel(x, y, 2))
    }

    /// A black image of the given size; fails on an empty size and on one
    /// whose buffer could not be addressed.
    pub fn new(width: usize, height: usize) -> (r: Result<Image, ImageError>)
        ensures
            (width == 0 || height == 0) <==> r == Err::<Image, ImageError>(
                ImageError::InvalidDimensions,
            ),
            (width > 0 && height > 0 && 3 * width * height > usize::MAX) <==> r == Err::<
                Image,
                ImageError,
            >(ImageError::TooLarge),
            r is Ok <==> (width > 0 && height > 0 && 3 * width * height <= usize::MAX),
            r is Ok ==> ({
                let img = r->Ok_0;
                &&& img.well_formed()
                &&& img.spec_width() == width
                &&& img.spec_height() == height
                &&& forall|i: int| 0 <= i < img.bytes().len() ==> img.bytes()[i] == 0
            }),
    {
        if width == 0 || height == 0 {
            return Err(ImageError::InvalidDimensions);
        }
        if height > usize::MAX / 3 || width > usize::MAX / 3 / height {
            proof {
                assert(3 * width * height > usize::MAX) by (nonlinear_arith)
                    requires
                        width > 0,
                        height > 0,
                        height > usize::MAX / 3 || width > usize::MAX / 3 / height,
                ;
            }
            return Err(ImageError::TooLarge);
        }
        proof {
            assert(3 * width * height <= usize::MAX) by (nonlinear_arith)
                requires
                    height <= usize::MAX / 3,
                    width <= usize::MAX / 3 / height,
                    height > 0,
            ;
        }
        let size: usize = 3 * width * height;
        let data: Vec<u8> = vec![0u8; size];
        Ok(Image { data, width, height })
    }

    /// Number of pixels in a row.
    pub fn width(&self) -> (r: usize)
        ensures
            r == self.spec_width(),
            self.well_formed(),
    {
        proof {
            use_type_invariant(self);
        }
        self.width
    }

    /// Number of rows.
    pub fn height(&self) -> (r: usize)
        ensures
            r == self.spec_height(),
            self.well_formed(),
    {
        proof {
            use_type_invariant(self);
        }
        self.height
    }

    /// The stored bytes, row by row from the top, three per pixel.
    pub fn as_bytes(&self) -> (r: &[u8])
        ensures
            r@ == self.bytes(),
            self.well_formed(),
    {
        proof {
            use_type_invariant(self);
        }
        self.data.as_slice()
    }

    /// Offset of the first byte of pixel `(x, y)`.
    fn offset(&self, x: usize, y: usize) -> (r: usize)
        requires
            self.well_formed(),
            self.contains(x as int, y as int),
        ensures
            r == channel_offset(self.spec_width() as int, x as int, y as int, 0),
            r + 2 < self.bytes().len() <= usize::MAX,
    {
        let w = self.width;
        let h = self.height;
        let len = self.data.len();
        proof {
            assert(y * w + x < w * h && 3 * (y * w + x) + 2 < 3 * w * h) by (nonlinear_arith)
                requires
                    x < w,
                    y < h,
            ;
        }
        assert(len == 3 * w * h);
        3 * (y * w + x)
    }

    /// The stored color of pixel `(x, y)`.
    pub fn pixel(&self, x: usize, y: usize) -> (r: (u8, u8, u8))
        requires
            self.contains(x as int, y as int),
        ensures
            r == self.pixel_at(x as int, y as int),
    {
        proof {
            use_type_invariant(self);
        }
        let index = self.offset(x, y);
        (self.data[index], self.data[index + 1], self.data[index + 2])
    }

    /// Stores the color `(r, g, b)` at pixel `(x, y)`; every other byte stays.
    pub fn set_pixel(&mut self, x: usize, y: usize, r: u8, g: u8, b: u8)
        requires
            old(self).contains(x as int, y as int),
        ensures
            final(self).spec_width() == old(self).spec_width(),
            final(self).spec_height() == old(self).spec_height(),
            final(self).well_formed(),
            final(self).pixel_at(x as int, y as int) == (r, g, b),
            forall|i: int|
                0 <= i < old(self).bytes().len() && !(channel_offset(
                    old(self).spec_width() as int,
                    x as int,
                    y as int,
                    0,
                ) <= i < channel_offset(old(self).spec_width() as int, x as int, y as int, 3))
                    ==> #[trigger] final(self).bytes()[i] == old(self).bytes()[i],
    {
        proof {
            use_type_invariant(&*self);
        }
        let index = self.offset(x, y);
        self.data[index] = r;
        self.data[index + 1] = g;
        self.data[index + 2] = b;
    }

    /// Sets every pixel `(x, y)` to the color `f(x, y)`, visiting the rows
    /// from the top and each row from the left.
    pub fn fill_with<F: Fn(usize, usize) -> (u8, u8, u8)>(&mut self, f: F)
        requires
            forall|x: usize, y: usize| old(self).contains(x as int, y as int) ==> f.requires((x, y)),
        ensures
            final(self).spec_width() == old(self).spec_width(),
            final(self).spec_height() == old(self).spec_height(),
            final(self).well_formed(),
            forall|x: usize, y: usize|
                final(self).contains(x as int, y as int) ==> f.ensures(
                    (x, y),
                    #[trigger] final(self).pixel_at(x as int, y as int),
                ),
    {
        proof {
            use_type_invariant(&*self);
        }
        let width = self.width;
        let height = self.height;
        let mut y: usize = 0;
        while y < height
            invariant
                width == self.spec_width() == old(self).spec_width(),
                height == self.spec_height() == old(self).spec_height(),
                self.well_formed(),
                y <= height,
                forall|x: usize, y: usize| old(self).contains(x as int, y as int) ==> f.requires((x, y)),
                forall|px: usize, py: usize|
                    self.contains(px as int, py as int) && py < y ==> f.ensures(
                        (px, py),
                        #[trigger] self.pixel_at(px as int, py as int),
                    ),
            decreases height - y,
        {
            let mut x: usize = 0;
            while x < width
                invariant
                    width == self.spec_width() == old(self).spec_width(),
                    height == self.spec_height() == old(self).spec_height(),
                    self.well_formed(),
                    y < height,
                    x <= width,
                    forall|x: usize, y: usize|
                        old(self).contains(x as int, y as int) ==> f.requires((x, y)),
                    forall|px: usize, py: usize|
                        self.contains(px as int, py as int) && (py < y || (py == y && px < x))
                            ==> f.ensures((px, py), #[trigger] self.pixel_at(px as int, py as int)),
                decreases width - x,
            {
                assert(old(self).contains(x as int, y as int));
                let color = f(x, y);
                let ghost before = *self;
                self.set_pixel(x, y, color.0, color.1, color.2);
                proof {
                    assert forall|px: usize, py: usize|
                        self.contains(px as int, py as int) && (py < y || (py == y && px < x + 1))
                            implies f.ensures(
                            (px, py),
                            #[trigger] self.pixel_at(px as int, py as int),
                        ) by {
                        if px != x || py != y {
                            let (w, h) = (width as int, height as int);
                            lemma_pixels_disjoint(w, h, x as int, y as int, px as int, py as int, 0);
                            lemma_pixels_disjoint(w, h, x as int, y as int, px as int, py as int, 1);
                            lemma_pixels_disjoint(w, h, x as int, y as int, px as int, py as int, 2);
                            assert(self.bytes()[channel_offset(w, px as int, py as int, 0)]
                                == before.bytes()[channel_offset(w, px as int, py as int, 0)]);
                            assert(self.bytes()[channel_offset(w, px as int, py as int, 1)]
                                == before.bytes()[channel_offset(w, px as int, py as int, 1)]);
                            assert(self.bytes()[channel_offset(w, px as int, py as int, 2)]
                                == before.bytes()[channel_offset(w, px as int, py as int, 2)]);
                            assert(self.pixel_at(px as int, py as int) == before.pixel_at(
                                px as int,
                                py as int,
                            ));
                        }
                    }
                }
                x = x + 1;
            }
            y = y + 1;
        }
    }
}

} // verus!
