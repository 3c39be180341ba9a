use vstd::arithmetic::div_mod::{
    lemma_div_multiples_vanish, lemma_fundamental_div_mod, lemma_mod_multiples_basic,
};
use vstd::prelude::*;

verus! {

/// The block quantization formats of the GGML family, plus the two
/// full-precision passthrough formats.
#[allow(non_camel_case_types)]
#[derive(Clone, Copy, Debug, PartialEq, Eq, Structural, Hash)]
pub enum GgmlDType {
    F32,
    F16,
    Q4_0,
    Q4_1,
    Q5_0,
    Q5_1,
    Q8_0,
    Q8_1,
    Q2K,
    Q3K,
    Q4K,
    Q5K,
    Q6K,
    Q8K,
}

/// Number of elements held by one block of the format.
pub open spec fn block_size_of(d: GgmlDType) -> nat {
    match d {
        GgmlDType::F32 | GgmlDType::F16 => 1,
        GgmlDType::Q4_0 | GgmlDType::Q4_1 | GgmlDType::Q5_0 | GgmlDType::Q5_1 | GgmlDType::Q8_0
        | GgmlDType::Q8_1 => 32,
        _ => 256,
    }
}

/// Number of bytes taken by one block of the format.
pub open spec fn type_size_of(d: GgmlDType) -> nat {
    match d {
        GgmlDType::F32 => 4,
        GgmlDType::F16 => 2,
        GgmlDType::Q4_0 => 18,
        GgmlDType::Q4_1 => 20,
        GgmlDType::Q5_0 => 22,
        GgmlDType::Q5_1 => 24,
        GgmlDType::Q8_0 => 34,
        GgmlDType::Q8_1 => 36,
        GgmlDType::Q2K => 84,
        GgmlDType::Q3K => 110,
        GgmlDType::Q4K => 144,
        GgmlDType::Q5K => 176,
        GgmlDType::Q6K => 210,
        GgmlDType::Q8K => 292,
    }
}

/// A byte length is a whole number of blocks of the format.
pub open spec fn whole_blocks(d: GgmlDType, byte_len: nat) -> bool {
    byte_len % type_size_of(d) == 0
}

/// The number of elements that a buffer of `byte_len` bytes holds in the format.
pub open spec fn elem_count_implied(d: GgmlDType, byte_len: nat) -> nat {
    (byte_len / type_size_of(d)) * block_size_of(d)
}

/// `elem_count` elements of the format take exactly `byte_len` bytes.
pub open spec fn layout_matches(d: GgmlDType, elem_count: nat, byte_len: nat) -> bool {
    &&& elem_count % block_size_of(d) == 0
    &&& byte_len % type_size_of(d) == 0
    &&& elem_count / block_size_of(d) == byte_len / type_size_of(d)
}

/// Name of the compute kernel that dequantizes the format on the accelerator.
pub open spec fn kernel_name_of(d: GgmlDType) -> Seq<char> {
    match d {
        GgmlDType::Q4_0 => "kernel_dequantize_q4_0"@,
        GgmlDType::Q4_1 => "kernel_dequantize_q4_1"@,
        GgmlDType::Q5_0 => "kernel_dequantize_q5_0"@,
        GgmlDType::Q5_1 => "kernel_dequantize_q5_1"@,
        GgmlDType::Q8_0 => "kernel_dequantize_q8_0"@,
        GgmlDType::Q8_1 => "kernel_dequantize_q8_1"@,
        GgmlDType::Q2K => "kernel_dequantize_q2_K"@,
        GgmlDType::Q3K => "kernel_dequantize_q3_K"@,
        GgmlDType::Q4K => "kernel_dequantize_q4_K"@,
        GgmlDType::Q5K => "kernel_dequantize_q5_K"@,
        GgmlDType::Q6K => "kernel_dequantize_q6_K"@,
        GgmlDType::Q8K => "kernel_dequantize_q8_K"@,
        GgmlDType::F16 => "kernel_dequantize_f16"@,
        GgmlDType::F32 => "kernel_dequantize_f32"@,
    }
}

impl GgmlDType {
    pub fn block_size(&self) -> (r: usize)
        ensures
            r == block_size_of(*self),
            r > 0,
    {
        match self {
            GgmlDType::F32 | GgmlDType::F16 => 1,
            GgmlDType::Q4_0 | GgmlDType::Q4_1 | GgmlDType::Q5_0 | GgmlDType::Q5_1
            | GgmlDType::Q8_0 | GgmlDType::Q8_1 => 32,
            _ => 256,
        }
    }

    pub fn type_size(&self) -> (r: usize)
        ensures
            r == type_size_of(*self),
            r > 0,
    {
        match self {
            GgmlDType::F32 => 4,
            GgmlDType::F16 => 2,
            GgmlDType::Q4_0 => 18,
            GgmlDType::Q4_1 => 20,
            GgmlDType::Q5_0 => 22,
            GgmlDType::Q5_1 => 24,
            GgmlDType::Q8_0 => 34,
            GgmlDType::Q8_1 => 36,
            GgmlDType::Q2K => 84,
            GgmlDType::Q3K => 110,
            GgmlDType::Q4K => 144,
            GgmlDType::Q5K => 176,
            GgmlDType::Q6K => 210,
            GgmlDType::Q8K => 292,
        }
    }

    /// Whether `elem_count` elements of this format take exactly `byte_len` bytes.
    pub fn matches_layout(&self, elem_count: usize, byte_len: usize) -> (r: bool)
        ensures
            r == layout_matches(*self, elem_count as nat, byte_len as nat),
    {
        let bs = self.block_size();
        let ts = self.type_size();
        elem_count % bs == 0 && byte_len % ts == 0 && elem_count / bs == byte_len / ts
    }

    /// The accelerator kernel that dequantizes this format.
    pub fn dequantize_kernel_name(&self) -> (r: &'static str)
        ensures
            r@ == kernel_name_of(*self),
    {
        match self {
            GgmlDType::Q4_0 => "kernel_dequantize_q4_0",
            GgmlDType::Q4_1 => "kernel_dequantize_q4_1",
            GgmlDType::Q5_0 => "kernel_dequantize_q5_0",
            GgmlDType::Q5_1 => "kernel_dequantize_q5_1",
            GgmlDType::Q8_0 => "kernel_dequantize_q8_0",
            GgmlDType::Q8_1 => "kernel_dequantize_q8_1",
            GgmlDType::Q2K => "kernel_dequantize_q2_K",
            GgmlDType::Q3K => "kernel_dequantize_q3_K",
            GgmlDType::Q4K => "kernel_dequantize_q4_K",
            GgmlDType::Q5K => "kernel_dequantize_q5_K",
            GgmlDType::Q6K => "kernel_dequantize_q6_K",
            GgmlDType::Q8K => "kernel_dequantize_q8_K",
            GgmlDType::F16 => "kernel_dequantize_f16",
            GgmlDType::F32 => "kernel_dequantize_f32",
        }
    }
}

/// Every format has its own dequantization kernel: no two formats share a name.
pub proof fn lemma_kernel_names_distinct(a: GgmlDType, b: GgmlDType)
    requires
        kernel_name_of(a) == kernel_name_of(b),
    ensures
        a == b,
{
    {
        reveal_strlit("kernel_dequantize_q4_0");
        reveal_strlit("kernel_dequantize_q4_1");
        reveal_strlit("kernel_dequantize_q5_0");
        reveal_strlit("kernel_dequantize_q5_1");
        reveal_strlit("kernel_dequantize_q8_0");
        reveal_strlit("kernel_dequantize_q8_1");
        reveal_strlit("kernel_dequantize_q2_K");
        reveal_strlit("kernel_dequantize_q3_K");
        reveal_strlit("kernel_dequantize_q4_K");
        reveal_strlit("kernel_dequantize_q5_K");
        reveal_strlit("kernel_dequantize_q6_K");
        reveal_strlit("kernel_dequantize_q8_K");
        reveal_strlit("kernel_dequantize_f16");
        reveal_strlit("kernel_dequantize_f32");
    }
    let na = kernel_name_of(a);
    let nb = kernel_name_of(b);
    assert(na[18] == nb[18] && na[19] == nb[19] && na[na.len() - 1] == nb[nb.len() - 1]);
}

/// A count of elements fits a buffer exactly when it is the count that the
/// buffer implies: no smaller and no larger count is accepted.
pub proof fn lemma_layout_count_unique(d: GgmlDType, elem_count: nat, byte_len: nat)
    ensures
        layout_matches(d, elem_count, byte_len) <==> (whole_blocks(d, byte_len) && elem_count
            == elem_count_implied(d, byte_len)),
{
    let bs = block_size_of(d) as int;
    let q = (byte_len / type_size_of(d)) as int;
    let n = elem_count as int;
    assert(elem_count_implied(d, byte_len) == q * bs);
    if layout_matches(d, elem_count, byte_len) {
        lemma_fundamental_div_mod(n, bs);
        assert(n == bs * (n / bs) + n % bs);
        assert(n == q * bs) by (nonlinear_arith)
            requires
                n == bs * (n / bs) + n % bs,
                n % bs == 0,
                n / bs == q,
        ;
    }
    if whole_blocks(d, byte_len) && n == q * bs {
        lemma_mod_multiples_basic(q, bs);
        lemma_div_multiples_vanish(q, bs);
        assert(bs * q == q * bs) by (nonlinear_arith);
    }
}

/// Two byte lengths that both fit the same element count are equal.
pub proof fn lemma_layout_len_unique(d: GgmlDType, elem_count: nat, a: nat, b: nat)
    requires
        layout_matches(d, elem_count, a),
        layout_matches(d, elem_count, b),
    ensures
        a == b,
{
    let ts = type_size_of(d) as int;
    lemma_fundamental_div_mod(a as int, ts);
    lemma_fundamental_div_mod(b as int, ts);
}

/// The list of every format, each once.
pub open spec fn is_format_list(s: Seq<GgmlDType>) -> bool {
    &&& s.len() == 14
    &&& forall|d: GgmlDType| s.contains(d)
    &&& forall|i: int, j: int| 0 <= i < j < s.len() ==> s[i] != s[j]
}

impl GgmlDType {
    /// All formats, each exactly once.
    pub fn all() -> (r: Vec<GgmlDType>)
        ensures
            is_format_list(r@),
    {
        let r = vec![
            GgmlDType::F32,
            GgmlDType::F16,
            GgmlDType::Q4_0,
            GgmlDType::Q4_1,
            GgmlDType::Q5_0,
            GgmlDType::Q5_1,
            GgmlDType::Q8_0,
            GgmlDType::Q8_1,
            GgmlDType::Q2K,
            GgmlDType::Q3K,
            GgmlDType::Q4K,
            GgmlDType::Q5K,
            GgmlDType::Q6K,
            GgmlDType::Q8K,
        ];
        assert forall|d: GgmlDType| r@.contains(d) by {
            match d {
                GgmlDType::F32 => assert(r@[0] == d),
                GgmlDType::F16 => assert(r@[1] == d),
                GgmlDType::Q4_0 => assert(r@[2] == d),
                GgmlDType::Q4_1 => assert(r@[3] == d),
                GgmlDType::Q5_0 => assert(r@[4] == d),
                GgmlDType::Q5_1 => assert(r@[5] == d),
                GgmlDType::Q8_0 => assert(r@[6] == d),
                GgmlDType::Q8_1 => assert(r@[7] == d),
                GgmlDType::Q2K => assert(r@[8] == d),
                GgmlDType::Q3K => assert(r@[9] == d),
                GgmlDType::Q4K => assert(r@[10] == d),
                GgmlDType::Q5K => assert(r@[11] == d),
                GgmlDType::Q6K => assert(r@[12] == d),
                GgmlDType::Q8K => assert(r@[13] == d),
            }
        }
        r
    }
}

} // verus!
