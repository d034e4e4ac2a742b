use vstd::prelude::*;

use crate::error::Error;
use crate::image_data::{raster_len, Image, PixelLayout, RasterView};
use crate::scale::{scaled_side, ScaleFactor};

verus! {

/// Vertices of the full-screen triangle drawn by each render.
pub const TRIANGLE_VERTICES: u32 = 3;

/// Instances drawn by each render.
pub const INSTANCES: u32 = 1;

/// The side of the image that `new` loads.
pub const DEFAULT_SIDE: u32 = 512;

/// The size of a 2D texture.
#[derive(Debug, Clone, Copy, PartialEq, Eq, Structural)]
pub struct Extent {
    pub width: u32,
    pub height: u32,
}

/// How rows of RGBA pixels are laid out in a buffer on either side of a copy.
#[derive(Debug, Clone, Copy, PartialEq, Eq, Structural)]
pub struct CopyLayout {
    pub bytes_per_row: u32,
    pub rows_per_image: u32,
}

/// The sizes of every device resource of the backend.
#[derive(Debug, Clone, Copy, PartialEq, Eq, Structural)]
pub struct GpuPlan {
    /// The input texture, sized to the loaded image.
    pub input: Extent,
    /// The layout of the pixels written into the input texture.
    pub input_layout: CopyLayout,
    /// The output texture, sized to the upscaled image.
    pub output: Extent,
    /// The layout of the copy from the output texture into the staging buffer.
    pub output_layout: CopyLayout,
    /// The size in bytes of the staging buffer.
    pub buffer_size: u64,
}

/// The tightly packed RGBA layout of a `width` x `height` texture.
pub open spec fn rgba_layout(width: nat, height: nat) -> CopyLayout {
    CopyLayout { bytes_per_row: (4 * width) as u32, rows_per_image: height as u32 }
}

/// A square image of side `side` scaled by `factor` gives textures whose rows
/// of RGBA pixels can be addressed, and an output of at least one pixel.
pub open spec fn gpu_fits(side: nat, factor: ScaleFactor) -> bool {
    &&& 4 * side <= u32::MAX
    &&& 1 <= scaled_side(side, factor)
    &&& 4 * scaled_side(side, factor) <= u32::MAX
}

/// The resources for a loaded square image of side `side`.
pub open spec fn plan_spec(side: nat, factor: ScaleFactor) -> GpuPlan {
    let t = scaled_side(side, factor);
    GpuPlan {
        input: Extent { width: side as u32, height: side as u32 },
        input_layout: rgba_layout(side, side),
        output: Extent { width: t as u32, height: t as u32 },
        output_layout: rgba_layout(t, t),
        buffer_size: (t * t * 4) as u64,
    }
}

/// Whether `gpu_fits` holds.
pub fn fits(side: u32, factor: ScaleFactor) -> (r: bool)
    requires
        factor.wf(),
    ensures
        r == gpu_fits(side as nat, factor),
{
    let t = factor.apply(side);
    (side as u64) * 4 <= u32::MAX as u64 && 1 <= t && t <= (u32::MAX / 4) as u64
}

/// Computes the resources for a loaded square image of side `side`.
pub fn plan(side: u32, factor: ScaleFactor) -> (r: GpuPlan)
    requires
        factor.wf(),
        gpu_fits(side as nat, factor),
    ensures
        r == plan_spec(side as nat, factor),
        r.buffer_size == r.output.width * r.output.height * 4,
        r.output_layout.bytes_per_row * r.output_layout.rows_per_image == r.buffer_size,
{
    let t = factor.apply(side) as u32;
    proof {
        assert(t as nat * t as nat * 4 <= u32::MAX as nat * u32::MAX as nat) by (nonlinear_arith)
            requires 4 * t <= u32::MAX;
        assert((4 * t) as nat * t as nat == t as nat * t as nat * 4) by (nonlinear_arith);
    }
    GpuPlan {
        input: Extent { width: side, height: side },
        input_layout: CopyLayout { bytes_per_row: 4 * side, rows_per_image: side },
        output: Extent { width: t, height: t },
        output_layout: CopyLayout { bytes_per_row: 4 * t, rows_per_image: t },
        buffer_size: t as u64 * t as u64 * 4,
    }
}

/// Where the backend stands in one upscale.
#[derive(Debug, Clone, Copy, PartialEq, Eq, Structural)]
pub enum Phase {
    /// Resources are allocated; nothing is in flight.
    Ready,
    /// A render and a copy into the staging buffer were submitted.
    Rendering,
    /// A read mapping of the staging buffer was requested.
    Reading,
}

/// One draw of the full-screen triangle, then a copy of the output texture
/// into the staging buffer.
#[derive(Debug, Clone, Copy, PartialEq, Eq, Structural)]
pub struct RenderCommand {
    pub vertices: u32,
    pub instances: u32,
    pub target: Extent,
    pub copy_layout: CopyLayout,
}

/// The staging buffer's bytes as an RGBA image of the output size; any other
/// number of bytes is malformed.
pub open spec fn readback_outcome(bytes: Seq<u8>, size: Extent) -> Result<RasterView, Error> {
    if bytes.len() == raster_len(size.width as nat, size.height as nat, PixelLayout::Rgba) {
        Ok(
            RasterView {
                width: size.width as nat,
                height: size.height as nat,
                layout: PixelLayout::Rgba,
                data: bytes,
            },
        )
    } else {
        Err(Error::MalformedOutput)
    }
}

/// Interprets the bytes read back from the staging buffer.
pub fn interpret_readback(bytes: Vec<u8>, size: Extent) -> (r: Result<Image, Error>)
    ensures
        match readback_outcome(bytes@, size) {
            Ok(v) => r matches Ok(img) && img@ == v && img.wf(),
            Err(e) => r == Err::<Image, Error>(e),
        },
{
    match Image::from_raw(size.width, size.height, PixelLayout::Rgba, bytes) {
        Some(img) => Ok(img),
        None => Err(Error::MalformedOutput),
    }
}

/// The decisions of the GPU render backend: the sizes of its device resources,
/// the phase of the upscale in flight, and what the bytes read back mean.
///
/// The caller owns the device, queue, pipeline, textures and staging buffer,
/// creates them with the sizes of `plan`, and reports each step back.
#[derive(Debug, Clone, Copy)]
pub struct GPUShadingUpscaler {
    pub plan: GpuPlan,
    pub factor: ScaleFactor,
    pub phase: Phase,
}

impl GPUShadingUpscaler {
    pub open spec fn inv(&self) -> bool {
        &&& self.factor.wf()
        &&& gpu_fits(self.plan.input.width as nat, self.factor)
        &&& self.plan == plan_spec(self.plan.input.width as nat, self.factor)
    }

    /// The resources for `image`, which is refused unless square.
    pub fn from_image(image: &Image, scale_factor: ScaleFactor) -> (r: Result<Self, Error>)
        requires
            image.wf(),
            scale_factor.wf(),
            image.width == image.height ==> gpu_fits(image.width as nat, scale_factor),
        ensures
            image.width != image.height <==> r is Err,
            r is Err ==> r == Err::<Self, Error>(Error::UnsquareImage),
            r matches Ok(s) ==> s.inv() && s.phase == Phase::Ready && s.factor == scale_factor
                && s.plan == plan_spec(image.width as nat, scale_factor),
    {
        if image.width != image.height {
            return Err(Error::UnsquareImage);
        }
        Ok(GPUShadingUpscaler { plan: plan(image.width, scale_factor), factor: scale_factor, phase: Phase::Ready })
    }

    /// The resources for a black 512 x 512 image.
    pub fn new(scale_factor: ScaleFactor) -> (r: Result<Self, Error>)
        requires
            scale_factor.wf(),
            gpu_fits(DEFAULT_SIDE as nat, scale_factor),
        ensures
            r matches Ok(s) && s.inv() && s.phase == Phase::Ready && s.factor == scale_factor
                && s.plan == plan_spec(DEFAULT_SIDE as nat, scale_factor),
    {
        Ok(GPUShadingUpscaler { plan: plan(DEFAULT_SIDE, scale_factor), factor: scale_factor, phase: Phase::Ready })
    }

    /// Takes a new image between upscales. Returns whether the output texture
    /// and staging buffer must be allocated anew, which is when the side changed.
    pub fn load(&mut self, image: &Image) -> (r: Result<bool, Error>)
        requires
            old(self).inv(),
            old(self).phase == Phase::Ready,
            image.wf(),
            image.width == image.height ==> gpu_fits(image.width as nat, old(self).factor),
        ensures
            final(self).inv(),
            final(self).phase == Phase::Ready,
            final(self).factor == old(self).factor,
            image.width != image.height ==> r == Err::<bool, Error>(Error::UnsquareImage)
                && *final(self) == *old(self),
            image.width == image.height ==> r == Ok::<bool, Error>(
                image.width != old(self).plan.input.width,
            ) && final(self).plan == plan_spec(image.width as nat, old(self).factor),
    {
        if image.width != image.height {
            return Err(Error::UnsquareImage);
        }
        let changed = image.width != self.plan.input.width;
        self.plan = plan(image.width, self.factor);
        Ok(changed)
    }

    /// Starts an upscale: the draw and copy to record and submit.
    pub fn queue_render(&mut self) -> (r: RenderCommand)
        requires
            old(self).inv(),
            old(self).phase == Phase::Ready,
        ensures
            final(self).inv(),
            final(self).phase == Phase::Rendering,
            final(self).plan == old(self).plan,
            final(self).factor == old(self).factor,
            r == (RenderCommand {
                vertices: TRIANGLE_VERTICES,
                instances: INSTANCES,
                target: old(self).plan.output,
                copy_layout: old(self).plan.output_layout,
            }),
    {
        self.phase = Phase::Rendering;
        RenderCommand {
            vertices: TRIANGLE_VERTICES,
            instances: INSTANCES,
            target: self.plan.output,
            copy_layout: self.plan.output_layout,
        }
    }

    /// Records that a read mapping of the staging buffer was requested.
    pub fn request_readback(&mut self)
        requires
            old(self).inv(),
            old(self).phase == Phase::Rendering,
        ensures
            *final(self) == (GPUShadingUpscaler { phase: Phase::Reading, ..*old(self) }),
    {
        self.phase = Phase::Reading;
    }

    /// Ends an upscale with the outcome of the read mapping: the mapped bytes,
    /// or the device's message when mapping failed.
    pub fn get_rendered_image(&mut self, mapped: Result<Vec<u8>, String>) -> (r: Result<Image, Error>)
        requires
            old(self).inv(),
            old(self).phase == Phase::Reading,
        ensures
            *final(self) == (GPUShadingUpscaler { phase: Phase::Ready, ..*old(self) }),
            match mapped {
                Err(m) => r == Err::<Image, Error>(Error::BufferFailedToMap(m)),
                Ok(bytes) => match readback_outcome(bytes@, old(self).plan.output) {
                    Ok(v) => r matches Ok(img) && img@ == v && img.wf(),
                    Err(e) => r == Err::<Image, Error>(e),
                },
            },
    {
        self.phase = Phase::Ready;
        match mapped {
            Err(m) => Err(Error::BufferFailedToMap(m)),
            Ok(bytes) => interpret_readback(bytes, self.plan.output),
        }
    }
}

} // verus!
