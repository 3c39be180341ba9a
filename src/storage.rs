use vstd::prelude::*;

use crate::cpu::{cpu_dequantize_spec, CpuDequantize, QCpuStorage, QCpuView};
use crate::dtype::{
    elem_count_implied, lemma_layout_count_unique, lemma_layout_len_unique, layout_matches,
    whole_blocks, GgmlDType,
};
use crate::error::{layout_check, QuantError};
use crate::metal::{
    metal_dequantize_spec, MetalDequantize, MetalDequantizeView, MetalDevice, QMetalStorage,
    QMetalView,
};

verus! {

/// Where a quantized tensor lives.
#[derive(Clone, Copy, Debug, PartialEq, Eq, Structural)]
pub enum Backend {
    Cpu,
    Metal(MetalDevice),
}

/// Quantized storage on exactly one backend.
#[derive(Debug)]
pub enum QStorage {
    Cpu(QCpuStorage),
    Metal(QMetalStorage),
}

/// A quantized storage seen as its backend, its format and its bytes.
pub struct QStorageView {
    pub backend: Backend,
    pub dtype: GgmlDType,
    pub bytes: Seq<u8>,
}

impl View for QStorage {
    type V = QStorageView;

    open spec fn view(&self) -> QStorageView {
        match self {
            QStorage::Cpu(s) => QStorageView {
                backend: Backend::Cpu,
                dtype: s@.dtype,
                bytes: s@.bytes,
            },
            QStorage::Metal(s) => QStorageView {
                backend: Backend::Metal(s@.device),
                dtype: s@.dtype,
                bytes: s@.bytes,
            },
        }
    }
}

/// A dequantization checked against the stored bytes, for the backend that holds them.
#[derive(Clone, Copy, Debug, PartialEq, Eq)]
pub enum DequantizePlan {
    Cpu(CpuDequantize),
    Metal(MetalDequantize),
}

pub enum DequantizePlanView {
    Cpu(CpuDequantize),
    Metal(MetalDequantizeView),
}

impl View for DequantizePlan {
    type V = DequantizePlanView;

    open spec fn view(&self) -> DequantizePlanView {
        match self {
            DequantizePlan::Cpu(p) => DequantizePlanView::Cpu(*p),
            DequantizePlan::Metal(j) => DequantizePlanView::Metal(j@),
        }
    }
}

/// What dequantizing `elem_count` elements of `v` gives, on its own backend.
pub open spec fn dequantize_spec(v: QStorageView, elem_count: usize) -> Result<
    DequantizePlanView,
    QuantError,
> {
    match v.backend {
        Backend::Cpu => match cpu_dequantize_spec(
            QCpuView { dtype: v.dtype, bytes: v.bytes },
            elem_count,
        ) {
            Ok(p) => Ok(DequantizePlanView::Cpu(p)),
            Err(e) => Err(e),
        },
        Backend::Metal(device) => match metal_dequantize_spec(
            QMetalView { dtype: v.dtype, device, bytes: v.bytes },
            elem_count,
        ) {
            Ok(j) => Ok(DequantizePlanView::Metal(j)),
            Err(e) => Err(e),
        },
    }
}

/// `r` is the outcome that `dequantize_spec` describes.
pub open spec fn dequantize_result(
    v: QStorageView,
    elem_count: usize,
    r: Result<DequantizePlan, QuantError>,
) -> bool {
    match r {
        Ok(p) => dequantize_spec(v, elem_count) == Ok::<DequantizePlanView, QuantError>(p@),
        Err(e) => dequantize_spec(v, elem_count) == Err::<DequantizePlanView, QuantError>(e),
    }
}

/// The same bytes and format, held by `target`.
pub open spec fn transferred(v: QStorageView, target: Backend) -> QStorageView {
    QStorageView { backend: target, ..v }
}

fn copy_bytes(b: &Vec<u8>) -> (r: Vec<u8>)
    ensures
        r@ == b@,
{
    let r = b.clone();
    assert(r@ =~= b@);
    r
}

impl QStorage {
    pub fn dtype(&self) -> (r: GgmlDType)
        ensures
            r == self@.dtype,
    {
        match self {
            QStorage::Cpu(s) => s.dtype(),
            QStorage::Metal(s) => s.dtype(),
        }
    }

    pub fn backend(&self) -> (r: Backend)
        ensures
            r == self@.backend,
    {
        match self {
            QStorage::Cpu(_) => Backend::Cpu,
            QStorage::Metal(s) => Backend::Metal(s.device()),
        }
    }

    /// The stored bytes: always a whole number of blocks of the format.
    pub fn data(&self) -> (r: &Vec<u8>)
        ensures
            r@ == self@.bytes,
            whole_blocks(self@.dtype, r@.len()),
    {
        match self {
            QStorage::Cpu(s) => s.data(),
            QStorage::Metal(s) => s.buffer(),
        }
    }

    /// Checks a dequantization of `elem_count` elements and prepares it for
    /// the backend that holds the bytes.
    pub fn dequantize(&self, elem_count: usize) -> (r: Result<DequantizePlan, QuantError>)
        ensures
            dequantize_result(self@, elem_count, r),
    {
        match self {
            QStorage::Cpu(s) => match s.dequantize(elem_count) {
                Ok(p) => Ok(DequantizePlan::Cpu(p)),
                Err(e) => Err(e),
            },
            QStorage::Metal(s) => match s.dequantize(elem_count) {
                Ok(j) => Ok(DequantizePlan::Metal(j)),
                Err(e) => Err(e),
            },
        }
    }

    /// Replaces the stored bytes with `bytes`, the quantization of
    /// `elem_count` elements. On an error the storage is left as it was.
    pub fn quantize(&mut self, elem_count: usize, bytes: Vec<u8>) -> (r: Result<(), QuantError>)
        ensures
            r == layout_check(old(self)@.dtype, elem_count, bytes@.len() as usize),
            r is Ok ==> final(self)@ == (QStorageView { bytes: bytes@, ..old(self)@ }),
            r is Err ==> final(self)@ == old(self)@,
    {
        match self {
            QStorage::Cpu(s) => s.quantize(elem_count, bytes),
            QStorage::Metal(s) => s.quantize(elem_count, bytes),
        }
    }

    /// A new storage on `target` with the same format and a copy of the bytes.
    pub fn to_backend(&self, target: Backend) -> (r: QStorage)
        ensures
            r@ == transferred(self@, target),
    {
        let dtype = self.dtype();
        let bytes = copy_bytes(self.data());
        match target {
            Backend::Cpu => QStorage::Cpu(QCpuStorage::new(bytes, dtype)),
            Backend::Metal(device) => QStorage::Metal(
                QMetalStorage::new(std::sync::Arc::new(bytes), device, dtype),
            ),
        }
    }
}

/// Wraps quantized bytes of format `dtype` in a storage on `device`. Bytes
/// that are not a whole number of blocks are refused.
pub fn load_quantized_metal(device: &MetalDevice, dtype: GgmlDType, data: Vec<u8>) -> (r: Result<
    QStorage,
    QuantError,
>)
    ensures
        r is Ok <==> whole_blocks(dtype, data@.len()),
        r matches Ok(s) ==> s@ == (QStorageView {
            backend: Backend::Metal(*device),
            dtype,
            bytes: data@,
        }),
        r matches Err(e) ==> e == (QuantError::FormatMismatch {
            dtype,
            elem_count: None,
            byte_len: data@.len() as usize,
        }),
{
    if data.len() % dtype.type_size() != 0 {
        let byte_len = data.len();
        return Err(QuantError::FormatMismatch { dtype, elem_count: None, byte_len });
    }
    let buffer = std::sync::Arc::new(data);
    Ok(QStorage::Metal(QMetalStorage::new(buffer, *device, dtype)))
}

/// Moving a storage to another backend and back gives the storage it started
/// as: format and bytes do not depend on the backend.
pub proof fn lemma_transfer_round_trip(v: QStorageView, target: Backend)
    ensures
        transferred(v, target).bytes == v.bytes,
        transferred(v, target).dtype == v.dtype,
        transferred(transferred(v, target), v.backend) == v,
{
}

/// Quantizing again after a dequantization of `elem_count` elements accepts
/// exactly the byte length that the storage already has, so the round trip
/// keeps the format, the element count and the size.
pub proof fn lemma_requantize_keeps_layout(v: QStorageView, elem_count: usize, new_len: usize)
    requires
        dequantize_spec(v, elem_count) is Ok,
        v.bytes.len() <= usize::MAX,
    ensures
        layout_check(v.dtype, elem_count, new_len) is Ok <==> new_len == v.bytes.len(),
{
    if layout_matches(v.dtype, elem_count as nat, new_len as nat) {
        lemma_layout_len_unique(v.dtype, elem_count as nat, new_len as nat, v.bytes.len());
    }
}

/// Dequantizing twice with the same count on an unchanged storage gives the
/// same outcome both times.
pub proof fn lemma_dequantize_repeatable(
    v: QStorageView,
    elem_count: usize,
    r1: Result<DequantizePlan, QuantError>,
    r2: Result<DequantizePlan, QuantError>,
)
    requires
        dequantize_result(v, elem_count, r1),
        dequantize_result(v, elem_count, r2),
    ensures
        r1 is Ok <==> r2 is Ok,
        r1 matches Ok(a) ==> r2 matches Ok(b) && a@ == b@,
        r1 matches Err(a) ==> r2 matches Err(b) && a == b,
{
}

/// Dequantization is accepted for exactly one element count: the one that
/// the stored bytes imply in their format.
pub proof fn lemma_dequantize_count(v: QStorageView, elem_count: usize)
    requires
        whole_blocks(v.dtype, v.bytes.len()),
        v.bytes.len() <= usize::MAX,
    ensures
        (dequantize_spec(v, elem_count) matches Err(QuantError::FormatMismatch { .. }))
            <==> elem_count != elem_count_implied(v.dtype, v.bytes.len()),
{
    lemma_layout_count_unique(v.dtype, elem_count as nat, v.bytes.len());
}

} // verus!
