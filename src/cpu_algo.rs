use vstd::prelude::*;

use crate::error::Error;
use crate::image_data::{raster_len, Image, PixelLayout, RasterView};
use crate::scale::{scaled_side, ScaleFactor};
use crate::upscaler::UpscaleSquareImage;
use image::imageops::FilterType as ImageFilter;

verus! {

/// The resampling kernel of the CPU backend.
#[derive(Debug, Clone, Copy, PartialEq, Eq, Structural)]
pub enum FilterType {
    /// Nearest neighbour.
    Nearest,
    /// Linear.
    Triangle,
    /// Cubic.
    CatmullRom,
    /// Gaussian.
    Gaussian,
    /// Lanczos with window 3.
    Lanczos3,
}

/// The bytes of a square image of side `side` resampled to side `target`.
pub uninterp spec fn resampled(
    pixels: Seq<u8>,
    side: nat,
    target: nat,
    layout: PixelLayout,
    filter: FilterType,
) -> Seq<u8>;

/// The resampling routine's buffers, the intermediate one included, fit in memory.
pub open spec fn resample_fits(side: nat, target: nat) -> bool {
    side * target * 16 <= isize::MAX && target * target * 16 <= isize::MAX
}

/// Relies on image's `DynamicImage::resize_exact`: it returns a `target` x
/// `target` image in the source's layout, computed from the source bytes, the
/// sizes and the filter alone; it panics only where a buffer overflows `usize`.
#[verifier::external_body]
fn resample(pixels: &Vec<u8>, side: u32, target: u32, layout: PixelLayout, filter: FilterType) -> (r: Vec<u8>)
    requires
        pixels@.len() == raster_len(side as nat, side as nat, layout),
        resample_fits(side as nat, target as nat),
    ensures
        r@ == resampled(pixels@, side as nat, target as nat, layout, filter),
        r@.len() == raster_len(target as nat, target as nat, layout),
{
    let f = match filter {
        FilterType::Nearest => ImageFilter::Nearest,
        FilterType::Triangle => ImageFilter::Triangle,
        FilterType::CatmullRom => ImageFilter::CatmullRom,
        FilterType::Gaussian => ImageFilter::Gaussian,
        FilterType::Lanczos3 => ImageFilter::Lanczos3,
    };
    let source: image::DynamicImage = match layout {
        PixelLayout::Rgb => image::RgbImage::from_raw(side, side, pixels.clone()).unwrap().into(),
        PixelLayout::Rgba => image::RgbaImage::from_raw(side, side, pixels.clone()).unwrap().into(),
    };
    source.resize_exact(target, target, f).into_bytes()
}

/// The default side of the loaded image before any `load`.
pub const DEFAULT_SIDE: u32 = 512;

/// Upscaling on the CPU with a resampling filter.
#[derive(Debug, Clone)]
pub struct CPUAlgoUpscaler {
    pub image: Image,
    pub upscaled_image: Image,
    pub scale_mode: FilterType,
    pub scale_factor: ScaleFactor,
}

/// What an upscale of `image` by `factor` with `filter` gives.
pub open spec fn cpu_upscale(image: RasterView, factor: ScaleFactor, filter: FilterType) -> RasterView {
    let t = scaled_side(image.width, factor);
    RasterView {
        width: t,
        height: t,
        layout: image.layout,
        data: resampled(image.data, image.width, t, image.layout, filter),
    }
}

/// The output slot that `new` allocates fits in memory.
pub open spec fn new_fits(factor: ScaleFactor) -> bool {
    let t = scaled_side(DEFAULT_SIDE as nat, factor);
    t <= u32::MAX && raster_len(t, t, PixelLayout::Rgb) <= usize::MAX
}

impl CPUAlgoUpscaler {
    /// The filter in use.
    pub open spec fn filter(&self) -> FilterType {
        self.scale_mode
    }

    /// A backend with the given factor and filter, a black 512 x 512 RGB image
    /// loaded, and a black output of the upscaled size.
    pub fn new(scale_factor: ScaleFactor, scale_mode: FilterType) -> (r: Self)
        requires
            scale_factor.wf(),
            new_fits(scale_factor),
        ensures
            r.inv(),
            r.factor() == scale_factor,
            r.filter() == scale_mode,
            r.loaded().width == DEFAULT_SIDE,
            r.loaded().layout == PixelLayout::Rgb,
            r.output().width == r.target_side(),
            r.output().height == r.target_side(),
            r.output().layout == PixelLayout::Rgb,
            forall|i: int| 0 <= i < r.loaded().data.len() ==> r.loaded().data[i] == 0,
            forall|i: int| 0 <= i < r.output().data.len() ==> r.output().data[i] == 0,
    {
        proof {
            assert(512 * 512 * 3 == 786432nat) by (nonlinear_arith);
            assert(raster_len(DEFAULT_SIDE as nat, DEFAULT_SIDE as nat, PixelLayout::Rgb) == 786432);
        }
        let image = Image::blank(DEFAULT_SIDE, DEFAULT_SIDE, PixelLayout::Rgb);
        let image = image.unwrap();
        let target = scale_factor.apply(DEFAULT_SIDE) as u32;
        let upscaled_image = Image::blank(target, target, PixelLayout::Rgb).unwrap();
        CPUAlgoUpscaler { image, upscaled_image, scale_mode, scale_factor }
    }

    /// Whether `new_fits` holds.
    pub fn new_fits_exec(scale_factor: ScaleFactor) -> (r: bool)
        requires
            scale_factor.wf(),
        ensures
            r == new_fits(scale_factor),
    {
        let t = scale_factor.apply(DEFAULT_SIDE);
        if t > u32::MAX as u64 {
            return false;
        }
        proof {
            assert(t * t * 3 <= u32::MAX as nat * u32::MAX as nat * 3) by (nonlinear_arith)
                requires t <= u32::MAX;
        }
        (t as u128) * (t as u128) * 3 <= usize::MAX as u128
    }

    /// Whether the machine can hold the buffers that an upscale needs.
    pub fn fits(&self) -> (r: bool)
        requires
            self.inv(),
        ensures
            r == self.can_upscale(),
    {
        let t = self.scale_factor.apply(self.image.width);
        if t > u32::MAX as u64 {
            return false;
        }
        let s = self.image.width as u128;
        let t = t as u128;
        proof {
            assert(s * t * 16 <= u32::MAX as nat * u32::MAX as nat * 16) by (nonlinear_arith)
                requires s <= u32::MAX, t <= u32::MAX;
            assert(t * t * 16 <= u32::MAX as nat * u32::MAX as nat * 16) by (nonlinear_arith)
                requires t <= u32::MAX;
        }
        s * t * 16 <= isize::MAX as u128 && t * t * 16 <= isize::MAX as u128
    }
}

impl Default for CPUAlgoUpscaler {
    /// Factor 2, nearest neighbour, a black 512 x 512 RGB image loaded.
    fn default() -> (r: Self)
        ensures
            r.inv(),
            r.factor() == (ScaleFactor { num: 2, den: 1 }),
            r.filter() == FilterType::Nearest,
            r.loaded().width == DEFAULT_SIDE,
            r.loaded().layout == PixelLayout::Rgb,
            r.output().width == 1024,
            r.output().height == 1024,
            r.output().layout == PixelLayout::Rgb,
            forall|i: int| 0 <= i < r.loaded().data.len() ==> r.loaded().data[i] == 0,
            forall|i: int| 0 <= i < r.output().data.len() ==> r.output().data[i] == 0,
    {
        let f = ScaleFactor { num: 2, den: 1 };
        proof {
            assert(scaled_side(DEFAULT_SIDE as nat, f) == 1024);
            assert(1024 * 1024 * 3 == 3145728nat) by (nonlinear_arith);
            assert(raster_len(1024, 1024, PixelLayout::Rgb) == 3145728);
        }
        let r = CPUAlgoUpscaler::new(f, FilterType::Nearest);
        r
    }
}

impl UpscaleSquareImage for CPUAlgoUpscaler {
    open spec fn inv(&self) -> bool {
        &&& self.image.wf()
        &&& self.image.width == self.image.height
        &&& self.upscaled_image.wf()
        &&& self.scale_factor.wf()
    }

    open spec fn loaded(&self) -> RasterView {
        self.image@
    }

    open spec fn output(&self) -> RasterView {
        self.upscaled_image@
    }

    open spec fn factor(&self) -> ScaleFactor {
        self.scale_factor
    }

    open spec fn target_side(&self) -> nat {
        scaled_side(self.image.width as nat, self.scale_factor)
    }

    open spec fn upscale_outcome(&self) -> Result<RasterView, Error> {
        Ok(cpu_upscale(self.image@, self.scale_factor, self.scale_mode))
    }

    open spec fn same_settings(&self, other: Self) -> bool {
        self.scale_factor == other.scale_factor && self.scale_mode == other.scale_mode
    }

    open spec fn can_upscale(&self) -> bool {
        &&& self.target_side() <= u32::MAX
        &&& resample_fits(self.image.width as nat, self.target_side())
    }

    fn load(&mut self, image: &Image) -> (r: Result<(), Error>) {
        if image.width != image.height {
            return Err(Error::UnsquareImage);
        }
        self.image = image.duplicate();
        Ok(())
    }

    fn upscale(&self) -> (r: Result<Image, Error>) {
        let side = self.image.width;
        let target = self.scale_factor.apply(side) as u32;
        let data = resample(&self.image.data, side, target, self.image.layout, self.scale_mode);
        Ok(Image { width: target, height: target, layout: self.image.layout, data })
    }

    fn upscale_inplace(&mut self) -> (r: Result<&Image, Error>) {
        let img = self.upscale();
        match img {
            Ok(img) => {
                self.upscaled_image = img;
                Ok(&self.upscaled_image)
            },
            Err(e) => Err(e),
        }
    }

    fn upscale_factor(&self) -> (r: ScaleFactor) {
        self.scale_factor
    }

    fn original_resolution(&self) -> (r: u32) {
        self.image.width
    }

    fn upscaled_resolution(&self) -> (r: u64) {
        self.scale_factor.apply(self.image.width)
    }

    fn upscale_repeat(&mut self, times: usize) -> (r: Result<&Image, Error>) {
        let mut i: usize = 0;
        while i < times
            invariant
                self.inv(),
                self.can_upscale(),
                self.loaded() == old(self).loaded(),
                self.factor() == old(self).factor(),
                self.same_settings(*old(self)),
                self.upscale_outcome() == old(self).upscale_outcome(),
                i <= times,
                i == 0 ==> *self == *old(self),
                i > 0 ==> Ok::<RasterView, Error>(self.output()) == old(self).upscale_outcome(),
            decreases times - i,
        {
            let _ = self.upscale_inplace();
            i = i + 1;
        }
        Ok(&self.upscaled_image)
    }
}

/// For a loaded square image of side `s` and a factor `f > 0`, the upscaled
/// side is `floor(s * f)`.
pub proof fn lemma_upscaled_resolution_is_floor(u: CPUAlgoUpscaler)
    requires
        u.inv(),
    ensures
        u.target_side() == (u.loaded().width * u.factor().num as nat) / (u.factor().den as nat),
        u.loaded().width == u.loaded().height,
{
}

/// An upscale reads the loaded image, factor and filter alone: two backends
/// that agree on those give the same outcome whatever their output slots
/// hold, so each pass of a repeated upscale gives the same image.
pub proof fn lemma_upscale_repeatable(a: CPUAlgoUpscaler, b: CPUAlgoUpscaler)
    requires
        a.inv(),
        b.inv(),
        a.loaded() == b.loaded(),
        a.factor() == b.factor(),
        a.filter() == b.filter(),
    ensures
        a.upscale_outcome() == b.upscale_outcome(),
{
}

} // verus!
