use vstd::prelude::*;

use crate::error::Error;
use crate::image_data::{Image, RasterView};
use crate::scale::ScaleFactor;

verus! {

/// Allocation-efficient upscaling of square images.
///
/// A backend holds one loaded image and one output slot. An upscale reads the
/// loaded image alone, so repeating it gives the same outcome every time.
pub trait UpscaleSquareImage: Sized {
    /// The backend's internal invariant.
    spec fn inv(&self) -> bool;

    /// The image that upscales read.
    spec fn loaded(&self) -> RasterView;

    /// The image that the last in-place upscale stored.
    spec fn output(&self) -> RasterView;

    /// The scale factor.
    spec fn factor(&self) -> ScaleFactor;

    /// The side of the images that an upscale produces.
    spec fn target_side(&self) -> nat;

    /// What an upscale of the loaded image returns.
    spec fn upscale_outcome(&self) -> Result<RasterView, Error>;

    /// The machine can hold the buffers that an upscale needs.
    spec fn can_upscale(&self) -> bool;

    /// The two backends were configured alike: same factor and same
    /// backend-specific settings (such as a filter).
    spec fn same_settings(&self, other: Self) -> bool;

    /// Stores an image for the upscales that follow. A square image is always
    /// taken; a non-square one is refused and leaves the backend as it was.
    fn load(&mut self, image: &Image) -> (r: Result<(), Error>)
        requires
            old(self).inv(),
            image.wf(),
        ensures
            final(self).inv(),
            r is Ok <==> image.width == image.height,
            image.width != image.height ==> r == Err::<(), Error>(Error::UnsquareImage),
            final(self).same_settings(*old(self)),
            r is Err ==> *final(self) == *old(self),
            r is Ok ==> final(self).loaded() == image@ && final(self).factor() == old(self).factor()
                && final(self).output() == old(self).output(),
    ;

    /// Upscales the loaded image and returns the result.
    fn upscale(&self) -> (r: Result<Image, Error>)
        requires
            self.inv(),
            self.can_upscale(),
        ensures
            match self.upscale_outcome() {
                Ok(v) => r matches Ok(img) && img@ == v,
                Err(e) => r == Err::<Image, Error>(e),
            },
            r matches Ok(img) ==> img.wf() && img.width == self.target_side()
                && img.height == self.target_side(),
    ;

    /// Upscales the loaded image into the output slot and returns that slot.
    fn upscale_inplace(&mut self) -> (r: Result<&Image, Error>)
        requires
            old(self).inv(),
            old(self).can_upscale(),
        ensures
            final(self).inv(),
            final(self).can_upscale(),
            final(self).loaded() == old(self).loaded(),
            final(self).factor() == old(self).factor(),
            final(self).same_settings(*old(self)),
            final(self).upscale_outcome() == old(self).upscale_outcome(),
            match old(self).upscale_outcome() {
                Ok(img) => final(self).output() == img && (r matches Ok(o) && o@ == img),
                Err(e) => *final(self) == *old(self) && r == Err::<&Image, Error>(e),
            },
    ;

    /// The scale factor.
    fn upscale_factor(&self) -> (r: ScaleFactor)
        requires
            self.inv(),
        ensures
            r == self.factor(),
            r.wf(),
    ;

    /// The side of the loaded image.
    fn original_resolution(&self) -> (r: u32)
        requires
            self.inv(),
        ensures
            r == self.loaded().width,
            self.loaded().width == self.loaded().height,
    ;

    /// The side of the images that an upscale produces.
    fn upscaled_resolution(&self) -> (r: u64)
        requires
            self.inv(),
        ensures
            r == self.target_side(),
    ;

    /// Runs `upscale_inplace` `times` times over the same loaded image, for
    /// benchmarking, and returns the output slot.
    fn upscale_repeat(&mut self, times: usize) -> (r: Result<&Image, Error>)
        requires
            old(self).inv(),
            old(self).can_upscale(),
        ensures
            final(self).inv(),
            final(self).loaded() == old(self).loaded(),
            final(self).factor() == old(self).factor(),
            final(self).same_settings(*old(self)),
            final(self).upscale_outcome() == old(self).upscale_outcome(),
            times == 0 ==> *final(self) == *old(self) && (r matches Ok(o) && o@ == old(self).output()),
            times > 0 ==> match old(self).upscale_outcome() {
                Ok(img) => final(self).output() == img && (r matches Ok(o) && o@ == img),
                Err(e) => *final(self) == *old(self) && r == Err::<&Image, Error>(e),
            },
    ;
}

} // verus!
