use vstd::prelude::*;

use crate::dtype::{layout_matches, GgmlDType};

verus! {

/// The device operation that failed.
#[derive(Clone, Copy, Debug, PartialEq, Eq, Structural)]
pub enum BackendOp {
    Allocate,
    Upload,
    Submit,
    Readback,
}

#[derive(Clone, Copy, Debug, PartialEq, Eq, Structural)]
pub enum QuantError {
    /// The element count does not fit the byte length of a buffer in its format.
    /// `elem_count` is `None` when only the byte length was given.
    FormatMismatch { dtype: GgmlDType, elem_count: Option<usize>, byte_len: usize },
    /// A device allocation, upload or kernel submission failed.
    Backend(BackendOp),
    /// Quantization could not make its round trip through host memory.
    Unsupported(BackendOp),
}

/// What checking `elem_count` against a buffer of `byte_len` bytes gives.
pub open spec fn layout_check(d: GgmlDType, elem_count: usize, byte_len: usize) -> Result<
    (),
    QuantError,
> {
    if layout_matches(d, elem_count as nat, byte_len as nat) {
        Ok(())
    } else {
        Err(QuantError::FormatMismatch { dtype: d, elem_count: Some(elem_count), byte_len })
    }
}

/// Checks that `elem_count` elements of format `d` take exactly `byte_len` bytes.
pub fn check_layout(d: GgmlDType, elem_count: usize, byte_len: usize) -> (r: Result<(), QuantError>)
    ensures
        r == layout_check(d, elem_count, byte_len),
{
    if d.matches_layout(elem_count, byte_len) {
        Ok(())
    } else {
        Err(QuantError::FormatMismatch { dtype: d, elem_count: Some(elem_count), byte_len })
    }
}

} // verus!
