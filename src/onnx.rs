use vstd::prelude::*;

use crate::error::Error;
use crate::image_data::{lemma_pixel_in_bounds, raster_len, Image, PixelLayout, RasterView};
use crate::scale::ScaleFactor;
use crate::tensor::{tensor_side, tensor_values, InputTensor};
use vstd::arithmetic::div_mod::lemma_fundamental_div_mod;

verus! {

/// A tensor shape `[1, 3, h, w]` with `h, w >= 2` that fits `u32`.
pub open spec fn io_dims_ok(d: Seq<i64>) -> bool {
    &&& d.len() == 4
    &&& d[0] == 1
    &&& d[1] == 3
    &&& 2 <= d[2] <= u32::MAX
    &&& 2 <= d[3] <= u32::MAX
}

/// The spatial sizes of a model's input or output; `None` stands for an
/// input or output that is not a tensor.
pub fn validated_model_io_dims(dims: &Option<Vec<i64>>) -> (r: Result<(u32, u32), Error>)
    ensures
        match dims {
            Some(d) if io_dims_ok(d@) => r == Ok::<(u32, u32), Error>((d@[2] as u32, d@[3] as u32)),
            _ => r == Err::<(u32, u32), Error>(Error::IncompatibleModel),
        },
{
    match dims {
        None => Err(Error::IncompatibleModel),
        Some(d) => {
            if d.len() != 4 || d[0] != 1 || d[1] != 3 || d[2] < 2 || d[3] < 2 || d[2] > u32::MAX as i64
                || d[3] > u32::MAX as i64 {
                Err(Error::IncompatibleModel)
            } else {
                Ok((d[2] as u32, d[3] as u32))
            }
        },
    }
}

/// The value at flat index `i` of the channel-planar input tensor `[1, 3, n, n]`
/// of a square image of side `n`: channel `c` at `[x][y]` holds channel `2 - c`
/// of the pixel in column `x` and row `y`, so the planes come in BGR order.
pub open spec fn planar_at(v: RasterView, i: int) -> u8 {
    let n = v.width as int;
    let c = i / (n * n);
    let rest = i % (n * n);
    let x = rest / n;
    let y = rest % n;
    v.data[(y * n + x) * v.layout.channels_spec() + 2 - c]
}

/// The input tensor of a square image, flattened.
pub open spec fn planar_of(v: RasterView) -> Seq<u8> {
    Seq::new(3 * v.width * v.width, |i: int| planar_at(v, i))
}

/// Packs a square image into the channel-planar input tensor `[1, 3, n, n]`.
pub fn pack_planar(image: &Image) -> (r: InputTensor)
    requires
        image.wf(),
        image.width == image.height,
        3 * image.width * image.width <= isize::MAX,
    ensures
        tensor_side(r) == image.width,
        tensor_values(r) == planar_of(image@),
{
    let n = image.width as usize;
    let ch = image.layout.channels() as usize;
    let len = image.data.len();
    let nn = n * n;
    let total = 3 * nn;
    let mut r = InputTensor::zeros(n);
    assert(3 * n * n == 3 * (n * n)) by (nonlinear_arith);
    let mut i: usize = 0;
    while i < total
        invariant
            image.wf(),
            image.width == image.height,
            n == image.width,
            ch == image.layout.channels_spec(),
            len == image.data@.len(),
            nn == n * n,
            total == 3 * nn,
            i <= total,
            tensor_side(r) == n,
            tensor_values(r).len() == total,
            forall|j: int| 0 <= j < i ==> tensor_values(r)[j] == planar_at(image@, j),
        decreases total - i,
    {
        proof {
            assert(nn > 0) by (nonlinear_arith)
                requires i < 3 * nn;
            assert(n > 0) by (nonlinear_arith)
                requires nn == n * n, nn > 0;
        }
        let c = i / nn;
        let rest = i % nn;
        let x = rest / n;
        let y = rest % n;
        proof {
            assert(c < 3) by (nonlinear_arith)
                requires i < 3 * nn, nn > 0, c == i / nn;
            assert(x < n) by (nonlinear_arith)
                requires rest < n * n, n > 0, x == rest / n;
            lemma_pixel_in_bounds(n as nat, n as nat, x as nat, y as nat, image.layout);
            assert(y * n <= y * n + x);
            assert((y * n + x) <= (y * n + x) * ch) by (nonlinear_arith)
                requires ch >= 1;
            lemma_fundamental_div_mod(i as int, nn as int);
            lemma_fundamental_div_mod(rest as int, n as int);
            assert(c * n * n + x * n + y == i) by (nonlinear_arith)
                requires
                    i == nn * c + rest,
                    rest == n * x + y,
                    nn == n * n;
        }
        let at = (y * n + x) * ch + 2 - c;
        let v = image.data[at];
        r.set(c, x, y, v);
        i = i + 1;
    }
    assert(total == 3 * image.width * image.width) by (nonlinear_arith)
        requires total == 3 * nn, nn == n * n, n == image.width;
    assert(tensor_values(r) =~= planar_of(image@));
    r
}

/// Inference with a fixed-shape model: the shapes, the packed input tensor and
/// the output slot. The caller runs the model on `image` and hands the
/// activations back, each truncated to a byte.
#[derive(Debug)]
pub struct ONNXNeuralUpscaler {
    pub original_res: u32,
    pub target_res: u32,
    pub image: InputTensor,
    pub upscaled_image: Image,
    pub scale_factor: ScaleFactor,
}

impl ONNXNeuralUpscaler {
    pub open spec fn inv(&self) -> bool {
        &&& self.original_res >= 2
        &&& self.target_res >= 2
        &&& tensor_side(self.image) == self.original_res
        &&& tensor_values(self.image).len() == 3 * self.original_res * self.original_res
        &&& 3 * self.original_res * self.original_res <= isize::MAX
        &&& self.upscaled_image.wf()
        &&& self.scale_factor == (ScaleFactor { num: self.target_res, den: self.original_res })
    }

    /// Both the input and the output are tensors of a usable shape.
    pub open spec fn model_ok(input: Option<Vec<i64>>, output: Option<Vec<i64>>) -> bool {
        &&& input matches Some(d) && io_dims_ok(d@)
        &&& output matches Some(d) && io_dims_ok(d@)
    }

    /// Checks a model's input and output tensor shapes and sets up for it: the
    /// scale factor is the output side over the input side.
    pub fn from_model(input: Option<Vec<i64>>, output: Option<Vec<i64>>) -> (r: Result<Self, Error>)
        ensures
            !(input matches Some(d) && io_dims_ok(d@)) ==> r == Err::<Self, Error>(Error::IncompatibleModel),
            (input matches Some(d) && io_dims_ok(d@)) && !(output matches Some(d) && io_dims_ok(d@))
                ==> r == Err::<Self, Error>(Error::IncompatibleModel),
            Self::model_ok(input, output) ==> {
                let i = input->Some_0@;
                let o = output->Some_0@;
                if i[2] != i[3] || o[2] != o[3] {
                    r == Err::<Self, Error>(Error::UnsquareModelIO)
                } else if 3 * i[2] * i[2] > isize::MAX
                    || raster_len(o[2] as nat, o[2] as nat, PixelLayout::Rgb) > usize::MAX {
                    r == Err::<Self, Error>(Error::IncompatibleModel)
                } else {
                    r matches Ok(s) && s.inv() && s.original_res == i[2] && s.target_res == o[2]
                }
            },
    {
        let (x_in, y_in) = match validated_model_io_dims(&input) {
            Ok(d) => d,
            Err(e) => return Err(e),
        };
        let (x_out, y_out) = match validated_model_io_dims(&output) {
            Ok(d) => d,
            Err(e) => return Err(e),
        };
        if x_in != y_in || x_out != y_out {
            return Err(Error::UnsquareModelIO);
        }
        proof {
            assert(3 * x_in * x_in <= 3 * u32::MAX as nat * u32::MAX as nat) by (nonlinear_arith)
                requires x_in <= u32::MAX;
        }
        if 3 * (x_in as u128) * (x_in as u128) > isize::MAX as u128 {
            return Err(Error::IncompatibleModel);
        }
        let upscaled_image = Image::blank(x_out, x_out, PixelLayout::Rgb);
        match upscaled_image {
            Some(upscaled_image) => Ok(ONNXNeuralUpscaler {
                original_res: x_in,
                target_res: x_out,
                image: InputTensor::zeros(x_in as usize),
                upscaled_image,
                scale_factor: ScaleFactor { num: x_out, den: x_in },
            }),
            None => Err(Error::IncompatibleModel),
        }
    }

    /// Packs an image into the input tensor. It must be square and of the
    /// model's input side.
    pub fn load(&mut self, image: &Image) -> (r: Result<(), Error>)
        requires
            old(self).inv(),
            image.wf(),
        ensures
            final(self).inv(),
            image.width != image.height ==> r == Err::<(), Error>(Error::UnsquareImage),
            image.width == image.height && image.width != old(self).original_res ==> r == Err::<
                (),
                Error,
            >(Error::IncompatibleModel),
            r is Err ==> *final(self) == *old(self),
            image.width == image.height && image.width == old(self).original_res ==> r is Ok
                && tensor_values(final(self).image) == planar_of(image@) && final(self).original_res
                == old(self).original_res && final(self).target_res == old(self).target_res
                && final(self).upscaled_image == old(self).upscaled_image,
    {
        if image.width != image.height {
            return Err(Error::UnsquareImage);
        }
        if image.width != self.original_res {
            return Err(Error::IncompatibleModel);
        }
        self.image = pack_planar(image);
        Ok(())
    }

    /// The input tensor to run the model on, in logical order.
    pub fn input_tensor(&self) -> (r: Vec<u8>)
        ensures
            r@ == tensor_values(self.image),
    {
        self.image.values()
    }

    /// The image made of the model's output bytes, which must number exactly
    /// `3 * target * target`.
    pub fn upscale(&self, output: Vec<u8>) -> (r: Result<Image, Error>)
        ensures
            output@.len() == raster_len(self.target_res as nat, self.target_res as nat, PixelLayout::Rgb)
                <==> r is Ok,
            r is Err ==> r == Err::<Image, Error>(Error::MalformedOutput),
            r matches Ok(img) ==> img.wf() && img.width == self.target_res && img.height
                == self.target_res && img.layout == PixelLayout::Rgb && img.data@ == output@,
    {
        match Image::from_raw(self.target_res, self.target_res, PixelLayout::Rgb, output) {
            Some(img) => Ok(img),
            None => Err(Error::MalformedOutput),
        }
    }

    /// Like `upscale`, storing the image in the output slot.
    pub fn upscale_inplace(&mut self, output: Vec<u8>) -> (r: Result<&Image, Error>)
        requires
            old(self).inv(),
        ensures
            final(self).inv(),
            output@.len() == raster_len(old(self).target_res as nat, old(self).target_res as nat, PixelLayout::Rgb)
                <==> r is Ok,
            r is Err ==> *final(self) == *old(self) && r == Err::<&Image, Error>(Error::MalformedOutput),
            r is Ok ==> final(self).upscaled_image.data@ == output@
                && final(self).upscaled_image.width == old(self).target_res
                && final(self).upscaled_image.layout == PixelLayout::Rgb
                && final(self).image == old(self).image
                && final(self).original_res == old(self).original_res
                && final(self).target_res == old(self).target_res
                && (r matches Ok(o) && *o == final(self).upscaled_image),
    {
        match self.upscale(output) {
            Ok(img) => {
                self.upscaled_image = img;
                Ok(&self.upscaled_image)
            },
            Err(e) => Err(e),
        }
    }

    /// The scale factor: output side over input side.
    pub fn upscale_factor(&self) -> (r: ScaleFactor)
        requires
            self.inv(),
        ensures
            r == self.scale_factor,
            r.num == self.target_res && r.den == self.original_res,
    {
        self.scale_factor
    }

    /// The model's input side.
    pub fn original_resolution(&self) -> (r: u32)
        ensures
            r == self.original_res,
    {
        self.original_res
    }

    /// The model's output side.
    pub fn upscaled_resolution(&self) -> (r: u32)
        ensures
            r == self.target_res,
    {
        self.target_res
    }
}

} // verus!
