use std::sync::Arc;

use vstd::prelude::*;

use crate::dtype::{kernel_name_of, layout_matches, whole_blocks, GgmlDType};
use crate::error::{check_layout, layout_check, BackendOp, QuantError};

verus! {

/// Handle of an accelerator device, by its ordinal.
#[derive(Clone, Copy, Debug, PartialEq, Eq, Structural)]
pub struct MetalDevice {
    pub ordinal: usize,
}

/// Quantized bytes held on an accelerator device.
///
/// The device buffer is shared: kernels already submitted keep the bytes they
/// were given, and `quantize` replaces the buffer rather than writing into it.
#[derive(Debug)]
pub struct QMetalStorage {
    dtype: GgmlDType,
    device: MetalDevice,
    buffer: Arc<Vec<u8>>,
}

pub struct QMetalView {
    pub dtype: GgmlDType,
    pub device: MetalDevice,
    pub bytes: Seq<u8>,
}

impl View for QMetalStorage {
    type V = QMetalView;

    closed spec fn view(&self) -> QMetalView {
        QMetalView { dtype: self.dtype, device: self.device, bytes: self.buffer@ }
    }
}

/// A dequantization ready to be submitted to a device: the kernel, the
/// number of elements, and the size of the float32 output buffer to allocate.
#[derive(Clone, Copy, Debug, PartialEq, Eq)]
pub struct MetalDequantize {
    pub device: MetalDevice,
    pub kernel: &'static str,
    pub elem_count: usize,
    pub output_bytes: usize,
}

pub struct MetalDequantizeView {
    pub device: MetalDevice,
    pub kernel: Seq<char>,
    pub elem_count: usize,
    pub output_bytes: usize,
}

impl View for MetalDequantize {
    type V = MetalDequantizeView;

    open spec fn view(&self) -> MetalDequantizeView {
        MetalDequantizeView {
            device: self.device,
            kernel: self.kernel@,
            elem_count: self.elem_count,
            output_bytes: self.output_bytes,
        }
    }
}

/// What dequantizing `elem_count` elements of the stored bytes gives: the
/// format's own kernel over a fresh output of four bytes per element, or the
/// error that stops it.
pub open spec fn metal_dequantize_spec(v: QMetalView, elem_count: usize) -> Result<
    MetalDequantizeView,
    QuantError,
> {
    if !layout_matches(v.dtype, elem_count as nat, v.bytes.len()) {
        Err(
            QuantError::FormatMismatch {
                dtype: v.dtype,
                elem_count: Some(elem_count),
                byte_len: v.bytes.len() as usize,
            },
        )
    } else if 4 * elem_count > usize::MAX {
        Err(QuantError::Backend(BackendOp::Allocate))
    } else {
        Ok(
            MetalDequantizeView {
                device: v.device,
                kernel: kernel_name_of(v.dtype),
                elem_count,
                output_bytes: (4 * elem_count) as usize,
            },
        )
    }
}

/// `r` is the outcome that `metal_dequantize_spec` describes.
pub open spec fn metal_dequantize_result(
    v: QMetalView,
    elem_count: usize,
    r: Result<MetalDequantize, QuantError>,
) -> bool {
    match r {
        Ok(job) => metal_dequantize_spec(v, elem_count) == Ok::<MetalDequantizeView, QuantError>(
            job@,
        ),
        Err(e) => metal_dequantize_spec(v, elem_count) == Err::<MetalDequantizeView, QuantError>(
            e,
        ),
    }
}

impl QMetalStorage {
    #[verifier::type_invariant]
    spec fn inv(&self) -> bool {
        whole_blocks(self.dtype, self.buffer@.len())
    }

    pub fn dtype(&self) -> (r: GgmlDType)
        ensures
            r == self@.dtype,
    {
        self.dtype
    }

    /// The stored bytes: always a whole number of blocks of the format.
    pub fn buffer(&self) -> (r: &Vec<u8>)
        ensures
            r@ == self@.bytes,
            whole_blocks(self@.dtype, r@.len()),
    {
        proof {
            use_type_invariant(self);
        }
        &*self.buffer
    }

    pub fn device(&self) -> (r: MetalDevice)
        ensures
            r == self@.device,
    {
        self.device
    }

    /// Wraps a device buffer; its length must be a whole number of blocks.
    pub fn new(buffer: Arc<Vec<u8>>, device: MetalDevice, dtype: GgmlDType) -> (r: Self)
        requires
            whole_blocks(dtype, buffer@.len()),
        ensures
            r@ == (QMetalView { dtype, device, bytes: buffer@ }),
    {
        Self { device, buffer, dtype }
    }

    /// Prepares the dequantization of `elem_count` elements: the count must be
    /// exactly the one that the stored bytes hold in their format.
    pub fn dequantize(&self, elem_count: usize) -> (r: Result<MetalDequantize, QuantError>)
        ensures
            metal_dequantize_result(self@, elem_count, r),
    {
        match check_layout(self.dtype, elem_count, self.buffer.len()) {
            Err(e) => Err(e),
            Ok(()) => {
                if elem_count > usize::MAX / 4 {
                    Err(QuantError::Backend(BackendOp::Allocate))
                } else {
                    Ok(
                        MetalDequantize {
                            device: self.device,
                            kernel: self.dtype.dequantize_kernel_name(),
                            elem_count,
                            output_bytes: 4 * elem_count,
                        },
                    )
                }
            },
        }
    }

    /// Replaces the stored bytes with `bytes`, the quantization of
    /// `elem_count` elements made in host memory. On an error the storage
    /// is left as it was.
    pub fn quantize(&mut self, elem_count: usize, bytes: Vec<u8>) -> (r: Result<(), QuantError>)
        ensures
            r == layout_check(old(self)@.dtype, elem_count, bytes@.len() as usize),
            r is Ok ==> final(self)@ == (QMetalView { bytes: bytes@, ..old(self)@ }),
            r is Err ==> final(self)@ == old(self)@,
    {
        let checked = check_layout(self.dtype, elem_count, bytes.len());
        match checked {
            Err(e) => Err(e),
            Ok(()) => {
                self.buffer = Arc::new(bytes);
                Ok(())
            },
        }
    }
}

} // verus!
