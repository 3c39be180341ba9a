use qstorage::dtype::GgmlDType;

#[test]
fn block_layouts() {
    assert_eq!(GgmlDType::Q8_0.block_size(), 32);
    assert_eq!(GgmlDType::Q8_0.type_size(), 34);
    assert_eq!(GgmlDType::Q4_0.type_size(), 18);
    assert_eq!(GgmlDType::Q2K.block_size(), 256);
    assert_eq!(GgmlDType::Q2K.type_size(), 84);
    assert_eq!(GgmlDType::Q6K.type_size(), 210);
    assert_eq!(GgmlDType::Q8K.type_size(), 292);
    assert_eq!(GgmlDType::F16.block_size(), 1);
    assert_eq!(GgmlDType::F16.type_size(), 2);
    assert_eq!(GgmlDType::F32.type_size(), 4);
}

#[test]
fn all_formats_listed_once() {
    let all = GgmlDType::all();
    assert_eq!(all.len(), 14);
    for (i, a) in all.iter().enumerate() {
        for b in all.iter().skip(i + 1) {
            assert_ne!(a, b);
        }
    }
}

#[test]
fn kernel_names_are_distinct() {
    let all = GgmlDType::all();
    let names: Vec<&str> = all.iter().map(|d| d.dequantize_kernel_name()).collect();
    for (i, a) in names.iter().enumerate() {
        assert!(a.starts_with("kernel_dequantize_"));
        for b in names.iter().skip(i + 1) {
            assert_ne!(a, b);
        }
    }
}

#[test]
fn kernel_names_by_format() {
    assert_eq!(GgmlDType::Q4_0.dequantize_kernel_name(), "kernel_dequantize_q4_0");
    assert_eq!(GgmlDType::Q8_1.dequantize_kernel_name(), "kernel_dequantize_q8_1");
    assert_eq!(GgmlDType::Q2K.dequantize_kernel_name(), "kernel_dequantize_q2_K");
    assert_eq!(GgmlDType::Q6K.dequantize_kernel_name(), "kernel_dequantize_q6_K");
    assert_eq!(GgmlDType::F16.dequantize_kernel_name(), "kernel_dequantize_f16");
    assert_eq!(GgmlDType::F32.dequantize_kernel_name(), "kernel_dequantize_f32");
}

#[test]
fn layout_matching() {
    assert!(GgmlDType::Q8_0.matches_layout(32, 34));
    assert!(GgmlDType::Q8_0.matches_layout(64, 68));
    assert!(!GgmlDType::Q8_0.matches_layout(33, 34));
    assert!(!GgmlDType::Q8_0.matches_layout(31, 34));
    assert!(!GgmlDType::Q8_0.matches_layout(32, 35));
    assert!(GgmlDType::F32.matches_layout(3, 12));
    assert!(GgmlDType::Q4K.matches_layout(0, 0));
}
