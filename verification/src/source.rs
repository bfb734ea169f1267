//! The compiled compute shader modules.

use vstd::prelude::*;

use crate::kernel::KernelName;

verus! {

/// One compiled compute shader module.
#[derive(Debug, Clone, Copy, PartialEq, Eq, Hash, Structural)]
pub enum Source {
    Affine,
    Gemm,
    GemmF16,
    GemmF64,
    ConstSet,
    UnarySlang,
    BinarySlang,
    CmpSlang,
    BinaryBf16,
    CmpBf16,
    BinaryF8e4m3,
    CmpF8e4m3,
    UnaryBf16,
    UnaryF8e4m3,
    WhereSlang,
    WhereBf16,
    WhereF8e4m3,
    AffineBf16,
    AffineF8e4m3,
    BinaryF16,
    CmpF16,
    UnaryF16,
    AffineF16,
    WhereF16,
    BinaryF64,
    CmpF64,
    UnaryF64,
    AffineF64,
    WhereF64,
    BinaryU8,
    CmpU8,
    BinaryU32,
    CmpU32,
    BinaryI16,
    CmpI16,
    BinaryI32,
    CmpI32,
    BinaryI64,
    CmpI64,
    Copy2dSlang,
    GatherIdxSlang,
    ReduceSlang,
    Pool2dSlang,
    UpsampleSlang,
    ConvSlang,
    ScatterSlang,
    TestFillF16,
    TestFillU8,
    TestFillI16,
    TestFillBf16Native,
    TestFillBf16Emulated,
    TestFillU32,
    TestFillI32,
    TestFillF32,
    TestFillI64,
    TestFillF64,
    TestFillF4,
    TestFillF6e2m3,
    TestFillF6e3m2,
    TestFillF8e4m3,
    TestFillF8e8m0,
}

/// The little-endian 32-bit word made of the four bytes of `b` that start
/// at `i`.
pub open spec fn le_word(b: Seq<u8>, i: int) -> u32 {
    (b[i] + 256 * b[i + 1] + 65536 * b[i + 2] + 16777216 * b[i + 3]) as u32
}

/// The SPIR-V words of a module image: its bytes read as consecutive
/// little-endian 32-bit words; trailing bytes that do not fill a word are
/// not part of any word.
pub open spec fn spv_words_of(b: Seq<u8>) -> Seq<u32> {
    Seq::new(b.len() / 4, |i: int| le_word(b, 4 * i))
}

/// Weight of byte `k` of a little-endian 32-bit word.
pub open spec fn byte_weight(k: int) -> int {
    if k == 0 {
        1
    } else if k == 1 {
        256
    } else if k == 2 {
        65536
    } else {
        16777216
    }
}

/// Byte `k` (0 to 3) of the little-endian encoding of `w`.
pub open spec fn le_byte(w: u32, k: int) -> u8 {
    ((w as int / byte_weight(k)) % 256) as u8
}

/// The little-endian encoding of a sequence of 32-bit words.
pub open spec fn le_bytes_of(ws: Seq<u32>) -> Seq<u8> {
    Seq::new(4 * ws.len(), |i: int| le_byte(ws[i / 4], i % 4))
}

proof fn lemma_le_word_of_bytes(w: u32)
    ensures
        le_byte(w, 0) + 256 * le_byte(w, 1) + 65536 * le_byte(w, 2) + 16777216 * le_byte(w, 3)
            == w,
{
    let x = w as int;
    assert(x / 65536 == (x / 256) / 256);
    assert(x / 16777216 == (x / 65536) / 256);
}

/// Decoding the little-endian encoding of a sequence of words gives the
/// words back: `spv_words` reads exactly what a little-endian writer wrote.
pub proof fn lemma_spv_words_of_le_bytes(ws: Seq<u32>)
    ensures
        spv_words_of(le_bytes_of(ws)) == ws,
{
    let b = le_bytes_of(ws);
    assert(b.len() / 4 == ws.len());
    assert forall|j: int| 0 <= j < ws.len() implies #[trigger] le_word(b, 4 * j) == ws[j] by {
        assert((4 * j) / 4 == j && (4 * j) % 4 == 0);
        assert((4 * j + 1) / 4 == j && (4 * j + 1) % 4 == 1);
        assert((4 * j + 2) / 4 == j && (4 * j + 2) % 4 == 2);
        assert((4 * j + 3) / 4 == j && (4 * j + 3) % 4 == 3);
        lemma_le_word_of_bytes(ws[j]);
    }
    assert(spv_words_of(b) =~= ws);
}

impl Source {
    /// Name of this shader module.
    pub fn as_ref(&self) -> (r: &'static str)
        ensures
            r@ == self.spec_name(),
    {
        match self {
            Source::Affine => "affine",
            Source::Gemm => "gemm",
            Source::GemmF16 => "gemm_f16",
            Source::GemmF64 => "gemm_f64",
            Source::ConstSet => "const_set",
            Source::UnarySlang => "unary",
            Source::BinarySlang => "binary",
            Source::CmpSlang => "cmp",
            Source::BinaryBf16 => "binary_bf16",
            Source::CmpBf16 => "cmp_bf16",
            Source::BinaryF8e4m3 => "binary_f8e4m3",
            Source::CmpF8e4m3 => "cmp_f8e4m3",
            Source::UnaryBf16 => "unary_bf16",
            Source::UnaryF8e4m3 => "unary_f8e4m3",
            Source::WhereSlang => "where",
            Source::WhereBf16 => "where_bf16",
            Source::WhereF8e4m3 => "where_f8e4m3",
            Source::AffineBf16 => "affine_bf16",
            Source::AffineF8e4m3 => "affine_f8e4m3",
            Source::BinaryF16 => "binary_f16",
            Source::CmpF16 => "cmp_f16",
            Source::UnaryF16 => "unary_f16",
            Source::AffineF16 => "affine_f16",
            Source::WhereF16 => "where_f16",
            Source::BinaryF64 => "binary_f64",
            Source::CmpF64 => "cmp_f64",
            Source::UnaryF64 => "unary_f64",
            Source::AffineF64 => "affine_f64",
            Source::WhereF64 => "where_f64",
            Source::BinaryU8 => "binary_u8",
            Source::CmpU8 => "cmp_u8",
            Source::BinaryU32 => "binary_u32",
            Source::CmpU32 => "cmp_u32",
            Source::BinaryI16 => "binary_i16",
            Source::CmpI16 => "cmp_i16",
            Source::BinaryI32 => "binary_i32",
            Source::CmpI32 => "cmp_i32",
            Source::BinaryI64 => "binary_i64",
            Source::CmpI64 => "cmp_i64",
            Source::Copy2dSlang => "copy2d",
            Source::GatherIdxSlang => "gather_idx",
            Source::ReduceSlang => "reduce",
            Source::Pool2dSlang => "pool2d",
            Source::UpsampleSlang => "upsample",
            Source::ConvSlang => "conv",
            Source::ScatterSlang => "scatter",
            Source::TestFillF16 => "test_fill_f16",
            Source::TestFillU8 => "test_fill_u8",
            Source::TestFillI16 => "test_fill_i16",
            Source::TestFillBf16Native => "test_fill_bf16_native",
            Source::TestFillBf16Emulated => "test_fill_bf16_emulated",
            Source::TestFillU32 => "test_fill_u32",
            Source::TestFillI32 => "test_fill_i32",
            Source::TestFillF32 => "test_fill_f32",
            Source::TestFillI64 => "test_fill_i64",
            Source::TestFillF64 => "test_fill_f64",
            Source::TestFillF4 => "test_fill_f4",
            Source::TestFillF6e2m3 => "test_fill_f6e2m3",
            Source::TestFillF6e3m2 => "test_fill_f6e3m2",
            Source::TestFillF8e4m3 => "test_fill_f8e4m3",
            Source::TestFillF8e8m0 => "test_fill_f8e8m0",
        }
    }

    /// Name of this shader module.
    pub open spec fn spec_name(self) -> Seq<char> {
        match self {
            Source::Affine => "affine"@,
            Source::Gemm => "gemm"@,
            Source::GemmF16 => "gemm_f16"@,
            Source::GemmF64 => "gemm_f64"@,
            Source::ConstSet => "const_set"@,
            Source::UnarySlang => "unary"@,
            Source::BinarySlang => "binary"@,
            Source::CmpSlang => "cmp"@,
            Source::BinaryBf16 => "binary_bf16"@,
            Source::CmpBf16 => "cmp_bf16"@,
            Source::BinaryF8e4m3 => "binary_f8e4m3"@,
            Source::CmpF8e4m3 => "cmp_f8e4m3"@,
            Source::UnaryBf16 => "unary_bf16"@,
            Source::UnaryF8e4m3 => "unary_f8e4m3"@,
            Source::WhereSlang => "where"@,
            Source::WhereBf16 => "where_bf16"@,
            Source::WhereF8e4m3 => "where_f8e4m3"@,
            Source::AffineBf16 => "affine_bf16"@,
            Source::AffineF8e4m3 => "affine_f8e4m3"@,
            Source::BinaryF16 => "binary_f16"@,
            Source::CmpF16 => "cmp_f16"@,
            Source::UnaryF16 => "unary_f16"@,
            Source::AffineF16 => "affine_f16"@,
            Source::WhereF16 => "where_f16"@,
            Source::BinaryF64 => "binary_f64"@,
            Source::CmpF64 => "cmp_f64"@,
            Source::UnaryF64 => "unary_f64"@,
            Source::AffineF64 => "affine_f64"@,
            Source::WhereF64 => "where_f64"@,
            Source::BinaryU8 => "binary_u8"@,
            Source::CmpU8 => "cmp_u8"@,
            Source::BinaryU32 => "binary_u32"@,
            Source::CmpU32 => "cmp_u32"@,
            Source::BinaryI16 => "binary_i16"@,
            Source::CmpI16 => "cmp_i16"@,
            Source::BinaryI32 => "binary_i32"@,
            Source::CmpI32 => "cmp_i32"@,
            Source::BinaryI64 => "binary_i64"@,
            Source::CmpI64 => "cmp_i64"@,
            Source::Copy2dSlang => "copy2d"@,
            Source::GatherIdxSlang => "gather_idx"@,
            Source::ReduceSlang => "reduce"@,
            Source::Pool2dSlang => "pool2d"@,
            Source::UpsampleSlang => "upsample"@,
            Source::ConvSlang => "conv"@,
            Source::ScatterSlang => "scatter"@,
            Source::TestFillF16 => "test_fill_f16"@,
            Source::TestFillU8 => "test_fill_u8"@,
            Source::TestFillI16 => "test_fill_i16"@,
            Source::TestFillBf16Native => "test_fill_bf16_native"@,
            Source::TestFillBf16Emulated => "test_fill_bf16_emulated"@,
            Source::TestFillU32 => "test_fill_u32"@,
            Source::TestFillI32 => "test_fill_i32"@,
            Source::TestFillF32 => "test_fill_f32"@,
            Source::TestFillI64 => "test_fill_i64"@,
            Source::TestFillF64 => "test_fill_f64"@,
            Source::TestFillF4 => "test_fill_f4"@,
            Source::TestFillF6e2m3 => "test_fill_f6e2m3"@,
            Source::TestFillF6e3m2 => "test_fill_f6e3m2"@,
            Source::TestFillF8e4m3 => "test_fill_f8e4m3"@,
            Source::TestFillF8e8m0 => "test_fill_f8e8m0"@,
        }
    }

    /// Path of the compiled SPIR-V image of this module, relative to the
    /// directory that the shader build writes to; test-only modules live in
    /// its `test` subdirectory.
    pub fn spv_file(self) -> (r: &'static str)
        ensures
            r@ == self.spec_spv_file(),
    {
        match self {
            Source::Affine => "affine.spv",
            Source::Gemm => "gemm.spv",
            Source::GemmF16 => "gemm_f16.spv",
            Source::GemmF64 => "gemm_f64.spv",
            Source::ConstSet => "const_set.spv",
            Source::UnarySlang => "unary.spv",
            Source::BinarySlang => "binary.spv",
            Source::CmpSlang => "cmp.spv",
            Source::BinaryBf16 => "binary_bf16.spv",
            Source::CmpBf16 => "cmp_bf16.spv",
            Source::BinaryF8e4m3 => "binary_f8e4m3.spv",
            Source::CmpF8e4m3 => "cmp_f8e4m3.spv",
            Source::UnaryBf16 => "unary_bf16.spv",
            Source::UnaryF8e4m3 => "unary_f8e4m3.spv",
            Source::WhereSlang => "where.spv",
            Source::WhereBf16 => "where_bf16.spv",
            Source::WhereF8e4m3 => "where_f8e4m3.spv",
            Source::AffineBf16 => "affine_bf16.spv",
            Source::AffineF8e4m3 => "affine_f8e4m3.spv",
            Source::BinaryF16 => "binary_f16.spv",
            Source::CmpF16 => "cmp_f16.spv",
            Source::UnaryF16 => "unary_f16.spv",
            Source::AffineF16 => "affine_f16.spv",
            Source::WhereF16 => "where_f16.spv",
            Source::BinaryF64 => "binary_f64.spv",
            Source::CmpF64 => "cmp_f64.spv",
            Source::UnaryF64 => "unary_f64.spv",
            Source::AffineF64 => "affine_f64.spv",
            Source::WhereF64 => "where_f64.spv",
            Source::BinaryU8 => "binary_u8.spv",
            Source::CmpU8 => "cmp_u8.spv",
            Source::BinaryU32 => "binary_u32.spv",
            Source::CmpU32 => "cmp_u32.spv",
            Source::BinaryI16 => "binary_i16.spv",
            Source::CmpI16 => "cmp_i16.spv",
            Source::BinaryI32 => "binary_i32.spv",
            Source::CmpI32 => "cmp_i32.spv",
            Source::BinaryI64 => "binary_i64.spv",
            Source::CmpI64 => "cmp_i64.spv",
            Source::Copy2dSlang => "copy2d.spv",
            Source::GatherIdxSlang => "gather_idx.spv",
            Source::ReduceSlang => "reduce_ops.spv",
            Source::Pool2dSlang => "pool2d.spv",
            Source::UpsampleSlang => "upsample.spv",
            Source::ConvSlang => "conv.spv",
            Source::ScatterSlang => "scatter.spv",
            Source::TestFillF16 => "test/fill_f16.spv",
            Source::TestFillU8 => "test/fill_u8.spv",
            Source::TestFillI16 => "test/fill_i16.spv",
            Source::TestFillBf16Native => "test/fill_native_bf16.spv",
            Source::TestFillBf16Emulated => "test/fill_emulated_bf16.spv",
            Source::TestFillU32 => "test/fill_u32.spv",
            Source::TestFillI32 => "test/fill_i32.spv",
            Source::TestFillF32 => "test/fill_f32.spv",
            Source::TestFillI64 => "test/fill_i64.spv",
            Source::TestFillF64 => "test/fill_f64.spv",
            Source::TestFillF4 => "test/fill_f4.spv",
            Source::TestFillF6e2m3 => "test/fill_f6e2m3.spv",
            Source::TestFillF6e3m2 => "test/fill_f6e3m2.spv",
            Source::TestFillF8e4m3 => "test/fill_f8e4m3.spv",
            Source::TestFillF8e8m0 => "test/fill_f8e8m0.spv",
        }
    }

    /// Path of the compiled SPIR-V image of this module.
    pub open spec fn spec_spv_file(self) -> Seq<char> {
        match self {
            Source::Affine => "affine.spv"@,
            Source::Gemm => "gemm.spv"@,
            Source::GemmF16 => "gemm_f16.spv"@,
            Source::GemmF64 => "gemm_f64.spv"@,
            Source::ConstSet => "const_set.spv"@,
            Source::UnarySlang => "unary.spv"@,
            Source::BinarySlang => "binary.spv"@,
            Source::CmpSlang => "cmp.spv"@,
            Source::BinaryBf16 => "binary_bf16.spv"@,
            Source::CmpBf16 => "cmp_bf16.spv"@,
            Source::BinaryF8e4m3 => "binary_f8e4m3.spv"@,
            Source::CmpF8e4m3 => "cmp_f8e4m3.spv"@,
            Source::UnaryBf16 => "unary_bf16.spv"@,
            Source::UnaryF8e4m3 => "unary_f8e4m3.spv"@,
            Source::WhereSlang => "where.spv"@,
            Source::WhereBf16 => "where_bf16.spv"@,
            Source::WhereF8e4m3 => "where_f8e4m3.spv"@,
            Source::AffineBf16 => "affine_bf16.spv"@,
            Source::AffineF8e4m3 => "affine_f8e4m3.spv"@,
            Source::BinaryF16 => "binary_f16.spv"@,
            Source::CmpF16 => "cmp_f16.spv"@,
            Source::UnaryF16 => "unary_f16.spv"@,
            Source::AffineF16 => "affine_f16.spv"@,
            Source::WhereF16 => "where_f16.spv"@,
            Source::BinaryF64 => "binary_f64.spv"@,
            Source::CmpF64 => "cmp_f64.spv"@,
            Source::UnaryF64 => "unary_f64.spv"@,
            Source::AffineF64 => "affine_f64.spv"@,
            Source::WhereF64 => "where_f64.spv"@,
            Source::BinaryU8 => "binary_u8.spv"@,
            Source::CmpU8 => "cmp_u8.spv"@,
            Source::BinaryU32 => "binary_u32.spv"@,
            Source::CmpU32 => "cmp_u32.spv"@,
            Source::BinaryI16 => "binary_i16.spv"@,
            Source::CmpI16 => "cmp_i16.spv"@,
            Source::BinaryI32 => "binary_i32.spv"@,
            Source::CmpI32 => "cmp_i32.spv"@,
            Source::BinaryI64 => "binary_i64.spv"@,
            Source::CmpI64 => "cmp_i64.spv"@,
            Source::Copy2dSlang => "copy2d.spv"@,
            Source::GatherIdxSlang => "gather_idx.spv"@,
            Source::ReduceSlang => "reduce_ops.spv"@,
            Source::Pool2dSlang => "pool2d.spv"@,
            Source::UpsampleSlang => "upsample.spv"@,
            Source::ConvSlang => "conv.spv"@,
            Source::ScatterSlang => "scatter.spv"@,
            Source::TestFillF16 => "test/fill_f16.spv"@,
            Source::TestFillU8 => "test/fill_u8.spv"@,
            Source::TestFillI16 => "test/fill_i16.spv"@,
            Source::TestFillBf16Native => "test/fill_native_bf16.spv"@,
            Source::TestFillBf16Emulated => "test/fill_emulated_bf16.spv"@,
            Source::TestFillU32 => "test/fill_u32.spv"@,
            Source::TestFillI32 => "test/fill_i32.spv"@,
            Source::TestFillF32 => "test/fill_f32.spv"@,
            Source::TestFillI64 => "test/fill_i64.spv"@,
            Source::TestFillF64 => "test/fill_f64.spv"@,
            Source::TestFillF4 => "test/fill_f4.spv"@,
            Source::TestFillF6e2m3 => "test/fill_f6e2m3.spv"@,
            Source::TestFillF6e3m2 => "test/fill_f6e3m2.spv"@,
            Source::TestFillF8e4m3 => "test/fill_f8e4m3.spv"@,
            Source::TestFillF8e8m0 => "test/fill_f8e8m0.spv"@,
        }
    }

    /// Raw SPIR-V words (little-endian u32) of this shader, read from
    /// `spv`, the bytes of its compiled image (the file at `spv_file`).
    pub fn spv_words(self, spv: &[u8]) -> (r: Vec<u32>)
        ensures
            r@ == spv_words_of(spv@),
    {
        let n: usize = spv.len() / 4;
        let mut out: Vec<u32> = Vec::with_capacity(n);
        let mut i: usize = 0;
        while i < n
            invariant
                n == spv@.len() / 4,
                i <= n,
                out@.len() == i,
                forall|j: int| 0 <= j < i ==> out@[j] == le_word(spv@, 4 * j),
            decreases n - i,
        {
            proof {
                let len = spv.len() as int;
                assert(4 * (i as int) + 4 <= len) by (nonlinear_arith)
                    requires
                        (i as int) < (n as int),
                        n as int == len / 4,
                        len >= 0,
                ;
            }
            let k: usize = 4 * i;
            let w: u32 = spv[k] as u32 + 256 * (spv[k + 1] as u32) + 65536 * (spv[k + 2] as u32)
                + 16777216 * (spv[k + 3] as u32);
            out.push(w);
            i = i + 1;
        }
        proof {
            assert(out@ =~= spv_words_of(spv@));
        }
        out
    }

    /// Size of the push constant block for this shader entry point, in
    /// bytes. The pipeline layout must declare exactly the bytes the shader
    /// accesses, otherwise dispatch fails validation; every kernel takes
    /// its parameters through a storage buffer, so no kernel has a push
    /// constant block.
    pub fn push_constant_size(self, name: KernelName) -> (r: u32)
        ensures
            r == self.push_constant_bytes(name),
            r == 0,
    {
        0
    }

    /// Size of the push-constant block of entry `name` of this module, in
    /// bytes: none of the kernels has one.
    pub open spec fn push_constant_bytes(self, name: KernelName) -> u32 {
        0
    }
}

} // verus!
