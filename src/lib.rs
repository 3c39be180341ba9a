//! Quantized tensor storage for the GGML block formats: a registry of the
//! formats' block layouts, storages in host and accelerator memory that keep
//! their bytes a whole number of blocks, a dispatcher over the backends, and
//! the checks that decide whether a dequantization or a re-quantization fits
//! the stored bytes.

use vstd::prelude::*;

pub mod cpu;
pub mod dtype;
pub mod error;
pub mod metal;
pub mod storage;

verus! {

} // verus!
