use std::sync::Arc;

use qstorage::cpu::{CpuDequantize, QCpuStorage};
use qstorage::dtype::GgmlDType;
use qstorage::error::QuantError;
use qstorage::metal::{MetalDequantize, MetalDevice, QMetalStorage};
use qstorage::storage::{load_quantized_metal, Backend, DequantizePlan, QStorage};

fn q8_0_block() -> Vec<u8> {
    // scale 1.0 as f16, then quants 0..32
    let mut b = vec![0x00, 0x3c];
    for i in 0..32u8 {
        b.push(i);
    }
    b
}

fn device() -> MetalDevice {
    MetalDevice { ordinal: 0 }
}

fn loaded() -> QStorage {
    match load_quantized_metal(&device(), GgmlDType::Q8_0, q8_0_block()) {
        Ok(s) => s,
        Err(e) => panic!("load failed: {:?}", e),
    }
}

#[test]
fn load_keeps_bytes_and_format() {
    let s = loaded();
    assert_eq!(s.dtype(), GgmlDType::Q8_0);
    assert_eq!(s.backend(), Backend::Metal(device()));
    assert_eq!(s.data(), &q8_0_block());
}

#[test]
fn load_rejects_partial_block() {
    let mut bytes = q8_0_block();
    bytes.push(7);
    let r = load_quantized_metal(&device(), GgmlDType::Q8_0, bytes);
    match r {
        Err(e) => assert_eq!(
            e,
            QuantError::FormatMismatch { dtype: GgmlDType::Q8_0, elem_count: None, byte_len: 35 }
        ),
        Ok(_) => panic!("a partial block was accepted"),
    }
}

#[test]
fn dequantize_one_block_on_metal() {
    let s = loaded();
    let r = s.dequantize(32);
    assert_eq!(
        r,
        Ok(DequantizePlan::Metal(MetalDequantize {
            device: device(),
            kernel: "kernel_dequantize_q8_0",
            elem_count: 32,
            output_bytes: 128,
        }))
    );
}

#[test]
fn dequantize_over_read_fails() {
    let s = loaded();
    assert_eq!(
        s.dequantize(33),
        Err(QuantError::FormatMismatch { dtype: GgmlDType::Q8_0, elem_count: Some(33), byte_len: 34 })
    );
}

#[test]
fn dequantize_under_read_fails() {
    let s = loaded();
    assert_eq!(
        s.dequantize(31),
        Err(QuantError::FormatMismatch { dtype: GgmlDType::Q8_0, elem_count: Some(31), byte_len: 34 })
    );
    assert!(s.dequantize(0).is_err());
}

#[test]
fn dequantize_twice_gives_the_same() {
    let s = loaded();
    assert_eq!(s.dequantize(32), s.dequantize(32));
    assert_eq!(s.dequantize(33), s.dequantize(33));
}

#[test]
fn dequantize_on_cpu() {
    let s = loaded().to_backend(Backend::Cpu);
    assert_eq!(
        s.dequantize(32),
        Ok(DequantizePlan::Cpu(CpuDequantize { dtype: GgmlDType::Q8_0, elem_count: 32 }))
    );
    assert!(s.dequantize(33).is_err());
}

#[test]
fn transfer_round_trip_keeps_bytes() {
    let s = loaded();
    let cpu = s.to_backend(Backend::Cpu);
    assert_eq!(cpu.backend(), Backend::Cpu);
    assert_eq!(cpu.data(), s.data());
    let back = cpu.to_backend(Backend::Metal(device()));
    assert_eq!(back.backend(), Backend::Metal(device()));
    assert_eq!(back.data(), &q8_0_block());
    assert_eq!(back.dtype(), GgmlDType::Q8_0);
}

#[test]
fn quantize_replaces_bytes() {
    let mut s = loaded();
    let mut fresh = vec![0u8; 68];
    fresh[0] = 9;
    assert_eq!(s.quantize(64, fresh.clone()), Ok(()));
    assert_eq!(s.data(), &fresh);
    assert_eq!(s.dtype(), GgmlDType::Q8_0);
    assert_eq!(s.dequantize(64).map(|_| ()), Ok(()));
}

#[test]
fn quantize_rejects_mismatch_and_keeps_bytes() {
    let mut s = loaded();
    assert_eq!(
        s.quantize(32, vec![1u8; 30]),
        Err(QuantError::FormatMismatch { dtype: GgmlDType::Q8_0, elem_count: Some(32), byte_len: 30 })
    );
    assert_eq!(s.data(), &q8_0_block());
}

#[test]
fn dequantize_then_quantize_keeps_layout() {
    let mut s = loaded().to_backend(Backend::Cpu);
    let n = match s.dequantize(32) {
        Ok(DequantizePlan::Cpu(p)) => p.elem_count,
        other => panic!("unexpected {:?}", other),
    };
    assert!(s.quantize(n, q8_0_block()).is_ok());
    assert_eq!(s.data().len(), 34);
    assert!(s.quantize(n, vec![0u8; 68]).is_err());
}

#[test]
fn metal_storage_direct() {
    let mut m = QMetalStorage::new(Arc::new(vec![0u8; 8]), device(), GgmlDType::F32);
    assert_eq!(m.dtype(), GgmlDType::F32);
    assert_eq!(m.buffer().len(), 8);
    assert_eq!(m.device(), device());
    let job = m.dequantize(2).unwrap();
    assert_eq!(job.kernel, "kernel_dequantize_f32");
    assert_eq!(job.output_bytes, 8);
    assert!(m.quantize(3, vec![0u8; 12]).is_ok());
    assert_eq!(m.buffer().len(), 12);
}

#[test]
fn cpu_storage_direct() {
    let mut c = QCpuStorage::new(vec![0u8; 4], GgmlDType::F16);
    assert_eq!(c.dtype(), GgmlDType::F16);
    assert_eq!(c.data().len(), 4);
    assert_eq!(c.dequantize(2), Ok(CpuDequantize { dtype: GgmlDType::F16, elem_count: 2 }));
    assert_eq!(
        c.quantize(2, vec![0u8; 3]),
        Err(QuantError::FormatMismatch { dtype: GgmlDType::F16, elem_count: Some(2), byte_len: 3 })
    );
}
