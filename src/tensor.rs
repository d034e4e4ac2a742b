use vstd::prelude::*;

use ndarray::Array4;

verus! {

/// The `[1, 3, n, n]` input tensor of the neural backend, one byte per value.
///
/// Verus cannot take a declaration of ndarray's `ArrayBase` (its storage
/// parameter is bound by ndarray's `RawData` trait), so the array is held
/// here, behind the wrappers below.
#[verifier::external_body]
#[derive(Debug)]
pub struct InputTensor {
    array: Array4<u8>,
}

/// The tensor's values in logical order: the last index varies fastest.
pub uninterp spec fn tensor_values(t: InputTensor) -> Seq<u8>;

/// The tensor's spatial side `n`.
pub uninterp spec fn tensor_side(t: InputTensor) -> nat;

impl InputTensor {
    /// Relies on ndarray's `Array4::zeros`: a `[1, 3, n, n]` array of zeros,
    /// panicking only when the number of values overflows `isize`.
    #[verifier::external_body]
    pub(crate) fn zeros(n: usize) -> (r: InputTensor)
        requires
            3 * n * n <= isize::MAX,
        ensures
            tensor_side(r) == n,
            tensor_values(r) == Seq::new((3 * n * n) as nat, |i: int| 0u8),
    {
        InputTensor { array: Array4::zeros([1, 3, n, n]) }
    }

    /// Relies on ndarray's `IndexMut` with `[0, c, x, y]`: it changes exactly
    /// the value at that index, which stands at `c * n * n + x * n + y` in
    /// logical order.
    #[verifier::external_body]
    pub(crate) fn set(&mut self, c: usize, x: usize, y: usize, v: u8)
        requires
            c < 3,
            x < tensor_side(*old(self)),
            y < tensor_side(*old(self)),
        ensures
            tensor_side(*final(self)) == tensor_side(*old(self)),
            tensor_values(*final(self)) == tensor_values(*old(self)).update(
                c * tensor_side(*old(self)) * tensor_side(*old(self)) + x * tensor_side(*old(self)) + y,
                v,
            ),
    {
        self.array[[0, c, x, y]] = v;
    }

    /// Relies on ndarray's `ArrayBase::iter`, which visits the values in
    /// logical order.
    #[verifier::external_body]
    pub fn values(&self) -> (r: Vec<u8>)
        ensures
            r@ == tensor_values(*self),
    {
        self.array.iter().copied().collect()
    }
}

} // verus!
