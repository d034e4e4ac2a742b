//! Upscaling of square raster images behind one contract, with a CPU
//! resampling backend, the planning and readback side of a GPU render
//! backend, and the shape checks and tensor packing of a neural backend.

pub mod cpu_algo;
pub mod error;
pub mod gpu_shading;
pub mod image_data;
pub mod onnx;
pub mod scale;
pub mod upscaler;
pub mod tensor;
