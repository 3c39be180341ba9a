use vstd::prelude::*;

use crate::dtype::{whole_blocks, GgmlDType};
use crate::error::{check_layout, layout_check, QuantError};

verus! {

/// Quantized bytes held in host memory.
#[derive(Debug)]
pub struct QCpuStorage {
    dtype: GgmlDType,
    data: Vec<u8>,
}

pub struct QCpuView {
    pub dtype: GgmlDType,
    pub bytes: Seq<u8>,
}

impl View for QCpuStorage {
    type V = QCpuView;

    closed spec fn view(&self) -> QCpuView {
        QCpuView { dtype: self.dtype, bytes: self.data@ }
    }
}

/// A dequantization checked against the stored bytes, ready for the host
/// algorithm of the format.
#[derive(Clone, Copy, Debug, PartialEq, Eq, Structural)]
pub struct CpuDequantize {
    pub dtype: GgmlDType,
    pub elem_count: usize,
}

/// What dequantizing `elem_count` elements of the stored bytes gives.
pub open spec fn cpu_dequantize_spec(v: QCpuView, elem_count: usize) -> Result<
    CpuDequantize,
    QuantError,
> {
    match layout_check(v.dtype, elem_count, v.bytes.len() as usize) {
        Ok(()) => Ok(CpuDequantize { dtype: v.dtype, elem_count }),
        Err(e) => Err(e),
    }
}

impl QCpuStorage {
    #[verifier::type_invariant]
    spec fn inv(&self) -> bool {
        whole_blocks(self.dtype, self.data@.len())
    }

    /// Takes `data` as the bytes of `dtype`; its length must be a whole number of blocks.
    pub fn new(data: Vec<u8>, dtype: GgmlDType) -> (r: Self)
        requires
            whole_blocks(dtype, data@.len()),
        ensures
            r@ == (QCpuView { dtype, bytes: data@ }),
    {
        Self { dtype, data }
    }

    pub fn dtype(&self) -> (r: GgmlDType)
        ensures
            r == self@.dtype,
    {
        self.dtype
    }

    /// The stored bytes: always a whole number of blocks of the format.
    pub fn data(&self) -> (r: &Vec<u8>)
        ensures
            r@ == self@.bytes,
            whole_blocks(self@.dtype, r@.len()),
    {
        proof {
            use_type_invariant(self);
        }
        &self.data
    }

    /// Checks a dequantization of `elem_count` elements against the stored bytes.
    pub fn dequantize(&self, elem_count: usize) -> (r: Result<CpuDequantize, QuantError>)
        ensures
            r == cpu_dequantize_spec(self@, elem_count),
    {
        match check_layout(self.dtype, elem_count, self.data.len()) {
            Ok(()) => Ok(CpuDequantize { dtype: self.dtype, elem_count }),
            Err(e) => Err(e),
        }
    }

    /// Replaces the stored bytes with `bytes`, the quantization of
    /// `elem_count` elements. On an error the storage is left as it was.
    pub fn quantize(&mut self, elem_count: usize, bytes: Vec<u8>) -> (r: Result<(), QuantError>)
        ensures
            r == layout_check(old(self)@.dtype, elem_count, bytes@.len() as usize),
            r is Ok ==> final(self)@ == (QCpuView { bytes: bytes@, ..old(self)@ }),
            r is Err ==> final(self)@ == old(self)@,
    {
        let checked = check_layout(self.dtype, elem_count, bytes.len());
        match checked {
            Err(e) => Err(e),
            Ok(()) => {
                self.data = bytes;
                Ok(())
            },
        }
    }
}

} // verus!
