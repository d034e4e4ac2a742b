use vstd::prelude::*;

verus! {

/// How the bytes of one pixel are laid out: 8 bits per channel.
#[derive(Debug, Clone, Copy, PartialEq, Eq, Structural)]
pub enum PixelLayout {
    Rgb,
    Rgba,
}

impl PixelLayout {
    pub open spec fn channels_spec(self) -> nat {
        match self {
            PixelLayout::Rgb => 3,
            PixelLayout::Rgba => 4,
        }
    }

    /// Bytes per pixel.
    pub fn channels(self) -> (r: u32)
        ensures
            r == self.channels_spec(),
    {
        match self {
            PixelLayout::Rgb => 3,
            PixelLayout::Rgba => 4,
        }
    }
}

/// The number of bytes that a `width` x `height` image in `layout` holds.
pub open spec fn raster_len(width: nat, height: nat, layout: PixelLayout) -> nat {
    width * height * layout.channels_spec()
}

/// An owned raster of 8-bit channels, rows top to bottom, pixels left to right.
#[derive(Debug, Clone)]
pub struct Image {
    pub width: u32,
    pub height: u32,
    pub layout: PixelLayout,
    pub data: Vec<u8>,
}

/// What an image holds, as mathematical values.
pub struct RasterView {
    pub width: nat,
    pub height: nat,
    pub layout: PixelLayout,
    pub data: Seq<u8>,
}

impl View for Image {
    type V = RasterView;

    open spec fn view(&self) -> RasterView {
        RasterView {
            width: self.width as nat,
            height: self.height as nat,
            layout: self.layout,
            data: self.data@,
        }
    }
}

impl Image {
    /// The buffer holds exactly one value per channel of every pixel.
    pub open spec fn wf(&self) -> bool {
        self.data@.len() == raster_len(self.width as nat, self.height as nat, self.layout)
    }

    /// Builds an image from its raw bytes, when their number fits the size exactly.
    pub fn from_raw(width: u32, height: u32, layout: PixelLayout, data: Vec<u8>) -> (r: Option<
        Image,
    >)
        ensures
            r is Some <==> data@.len() == raster_len(width as nat, height as nat, layout),
            r matches Some(img) ==> img.wf() && img.width == width && img.height == height
                && img.layout == layout && img.data@ == data@,
    {
        proof {
            assert(width as nat * height as nat <= u32::MAX as nat * u32::MAX as nat) by (nonlinear_arith)
                requires width <= u32::MAX, height <= u32::MAX;
        }
        let wh: u64 = width as u64 * height as u64;
        let ch = layout.channels();
        proof {
            assert(wh as nat * ch as nat <= u64::MAX as nat * 4) by (nonlinear_arith)
                requires wh <= u64::MAX, ch <= 4;
        }
        let needed: u128 = wh as u128 * ch as u128;
        if data.len() as u128 == needed {
            Some(Image { width, height, layout, data })
        } else {
            None
        }
    }

    /// A copy of the image.
    pub fn duplicate(&self) -> (r: Image)
        ensures
            r@ == self@,
    {
        Image { width: self.width, height: self.height, layout: self.layout, data: self.data.clone() }
    }

    /// A black image of the given size.
    pub fn blank(width: u32, height: u32, layout: PixelLayout) -> (r: Option<Image>)
        ensures
            r is Some <==> raster_len(width as nat, height as nat, layout) <= usize::MAX,
            r matches Some(img) ==> img.wf() && img.width == width && img.height == height
                && img.layout == layout && forall|i: int|
                0 <= i < img.data@.len() ==> img.data@[i] == 0,
    {
        let wh = (width as u64).checked_mul(height as u64);
        if wh.is_none() {
            proof {
                assert(width as nat * height as nat * layout.channels_spec() >= width as nat * height as nat) by (nonlinear_arith)
                    requires layout.channels_spec() >= 1;
            }
            return None;
        }
        let n = wh.unwrap().checked_mul(layout.channels() as u64);
        if n.is_none() {
            return None;
        }
        let n = n.unwrap();
        if n > usize::MAX as u64 {
            return None;
        }
        let n = n as usize;
        let mut data: Vec<u8> = Vec::with_capacity(n);
        let mut i: usize = 0;
        while i < n
            invariant
                i <= n,
                data@.len() == i,
                forall|j: int| 0 <= j < i ==> data@[j] == 0,
            decreases n - i,
        {
            data.push(0);
            i = i + 1;
        }
        Some(Image { width, height, layout, data })
    }

    /// The channels of the pixel in column `x` and row `y`.
    pub fn pixel(&self, x: u32, y: u32) -> (r: Vec<u8>)
        requires
            self.wf(),
            x < self.width,
            y < self.height,
        ensures
            r@ == self.data@.subrange(
                pixel_offset(self.width as nat, x as nat, y as nat, self.layout) as int,
                (pixel_offset(self.width as nat, x as nat, y as nat, self.layout) + self.layout.channels_spec()) as int,
            ),
    {
        let c = self.layout.channels() as usize;
        let n = self.data.len();
        proof {
            lemma_pixel_in_bounds(self.width as nat, self.height as nat, x as nat, y as nat, self.layout);
            let w = self.width as nat;
            assert((y as nat * w + x as nat) <= (y as nat * w + x as nat) * c) by (nonlinear_arith)
                requires c >= 1;
            assert(y as nat * w <= y as nat * w + x as nat);
            assert((y as nat * w + x as nat) * c + c <= n);
        }
        let start = (y as usize * self.width as usize + x as usize) * c;
        let mut r: Vec<u8> = Vec::new();
        let mut k: usize = 0;
        while k < c
            invariant
                self.wf(),
                c == self.layout.channels_spec(),
                start == pixel_offset(self.width as nat, x as nat, y as nat, self.layout),
                start + c <= self.data@.len(),
                n == self.data@.len(),
                k <= c,
                r@ == self.data@.subrange(start as int, start + k),
            decreases c - k,
        {
            r.push(self.data[start + k]);
            k = k + 1;
            assert(r@ =~= self.data@.subrange(start as int, start + k));
        }
        r
    }
}

/// Byte `i` of an image's pixels in RGBA: an RGB pixel gains an opaque alpha.
pub open spec fn rgba_at(v: RasterView, i: int) -> u8 {
    match v.layout {
        PixelLayout::Rgba => v.data[i],
        PixelLayout::Rgb => if i % 4 == 3 {
            255u8
        } else {
            v.data[(i / 4) * 3 + i % 4]
        },
    }
}

/// An image's pixels in RGBA.
pub open spec fn rgba_of(v: RasterView) -> Seq<u8> {
    Seq::new(v.width * v.height * 4, |i: int| rgba_at(v, i))
}

impl Image {
    /// The pixels in RGBA, 8 bits per channel: the bytes written into the
    /// GPU backend's input texture.
    pub fn to_rgba8(&self) -> (r: Vec<u8>)
        requires
            self.wf(),
            raster_len(self.width as nat, self.height as nat, PixelLayout::Rgba) <= usize::MAX,
        ensures
            r@ == rgba_of(self@),
    {
        let total: usize = self.width as usize * self.height as usize * 4;
        let len = self.data.len();
        let mut r: Vec<u8> = Vec::with_capacity(total);
        let mut i: usize = 0;
        while i < total
            invariant
                self.wf(),
                total == self.width * self.height * 4,
                len == self.data@.len(),
                i <= total,
                r@.len() == i,
                forall|j: int| 0 <= j < i ==> r@[j] == rgba_at(self@, j),
            decreases total - i,
        {
            match self.layout {
                PixelLayout::Rgba => {
                    r.push(self.data[i]);
                },
                PixelLayout::Rgb => {
                    if i % 4 == 3 {
                        r.push(255);
                    } else {
                        proof {
                            assert((i / 4) * 3 + i % 4 < self.width * self.height * 3) by (nonlinear_arith)
                                requires i < self.width * self.height * 4, i % 4 < 3;
                        }
                        r.push(self.data[(i / 4) * 3 + i % 4]);
                    }
                },
            }
            i = i + 1;
        }
        assert(r@ =~= rgba_of(self@));
        r
    }
}

/// Where the first channel of pixel (`x`, `y`) stands in the buffer.
pub open spec fn pixel_offset(width: nat, x: nat, y: nat, layout: PixelLayout) -> nat {
    (y * width + x) * layout.channels_spec()
}

/// Every channel of a pixel inside the image lies inside its buffer.
pub proof fn lemma_pixel_in_bounds(width: nat, height: nat, x: nat, y: nat, layout: PixelLayout)
    requires
        x < width,
        y < height,
    ensures
        pixel_offset(width, x, y, layout) + layout.channels_spec() <= raster_len(width, height, layout),
        y * width + x < width * height,
{
    let c = layout.channels_spec();
    assert(y * width + x < width * height) by (nonlinear_arith)
        requires x < width, y < height;
    assert((y * width + x) * c + c <= width * height * c) by (nonlinear_arith)
        requires y * width + x < width * height;
}

} // verus!
