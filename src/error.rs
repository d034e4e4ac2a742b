use vstd::prelude::*;

verus! {

/// Every failure that an upscaling backend reports to its caller.
#[derive(Debug, Clone)]
pub enum Error {
    /// The image's width and height are not the same.
    UnsquareImage,
    /// The model's tensors do not have the shape `[1, 3, h, w]` with `h, w >= 2`,
    /// or an image does not fit the model's fixed input.
    IncompatibleModel,
    /// The model's input or output is not square.
    UnsquareModelIO,
    /// No graphics device could be acquired; the device's own message.
    FailedDeviceRequest(String),
    /// A path held symbols that are not unicode.
    NonUnicodePath,
    /// Reading a file failed; the system's message.
    IO(String),
    /// Mapping the staging buffer for reading failed; the device's message.
    BufferFailedToMap(String),
    /// The bytes read back do not form an image of the expected size.
    MalformedOutput,
}

impl Error {
    /// A one-line description of the error.
    pub fn message(&self) -> (r: String)
        ensures
            *self == Error::UnsquareImage ==> r@ == "image width and height are not the same"@,
            *self == Error::IncompatibleModel ==> r@ == "incompatible onnx model"@,
            *self == Error::UnsquareModelIO ==> r@ == "model io widths and heights are not the same"@,
            *self == Error::NonUnicodePath ==> r@ == "non-unicode symbols in path"@,
            *self == Error::MalformedOutput ==> r@ == "malformed final image"@,
            self matches Error::FailedDeviceRequest(m) ==> r@ == m@,
            self matches Error::IO(m) ==> r@ == m@,
            self matches Error::BufferFailedToMap(m) ==> r@ == m@,
    {
        match self {
            Error::UnsquareImage => "image width and height are not the same".to_string(),
            Error::IncompatibleModel => "incompatible onnx model".to_string(),
            Error::UnsquareModelIO => "model io widths and heights are not the same".to_string(),
            Error::FailedDeviceRequest(m) => m.clone(),
            Error::NonUnicodePath => "non-unicode symbols in path".to_string(),
            Error::IO(m) => m.clone(),
            Error::BufferFailedToMap(m) => m.clone(),
            Error::MalformedOutput => "malformed final image".to_string(),
        }
    }
}

} // verus!
