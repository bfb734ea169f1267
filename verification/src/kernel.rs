//! Kernel entry points of the compute shaders and the descriptor-set shape
//! that each of them is dispatched with.

use vstd::prelude::*;

verus! {

/// Rows of `w` handled per workgroup by the transposed GEMV shader; the
/// dispatch grid must divide by this.
pub const GEMV_T_TILE_N: usize = 4;

/// One compute kernel: an operation on one element type.
#[derive(Debug, Clone, Copy, PartialEq, Eq, Hash, Structural)]
pub enum KernelName {
    AffineF32,
    ReduceSumF32,
    ReduceMaxF32,
    GemmF32,
    GemmF16,
    GemmF64,
    ConstSetF32,
    UnaryLogF32,
    UnaryAbsF32,
    UnaryRecipF32,
    UnarySqrF32,
    UnaryGeluF32,
    UnaryGeluErfF32,
    UnaryErfF32,
    UnaryReluF32,
    UnaryTanhF32,
    UnaryFloorF32,
    UnaryCeilF32,
    UnaryRoundF32,
    UnarySignF32,
    UnaryPowF32,
    UnaryEluF32,
    BinaryMaximumF32,
    BinaryMinimumF32,
    BinaryAddF32,
    BinarySubF32,
    BinaryMulF32,
    BinaryDivF32,
    UnaryExpF32,
    UnarySiluF32,
    UnarySqrtF32,
    UnarySinF32,
    UnaryCosF32,
    UnaryNegF32,
    CmpEqF32,
    CmpNeF32,
    CmpLtF32,
    CmpLeF32,
    CmpGtF32,
    CmpGeF32,
    BinaryAddBf16,
    BinarySubBf16,
    BinaryMulBf16,
    BinaryDivBf16,
    BinaryMaximumBf16,
    BinaryMinimumBf16,
    CmpEqBf16,
    CmpNeBf16,
    CmpLtBf16,
    CmpLeBf16,
    CmpGtBf16,
    CmpGeBf16,
    BinaryAddF8e4m3,
    BinarySubF8e4m3,
    BinaryMulF8e4m3,
    BinaryDivF8e4m3,
    BinaryMaximumF8e4m3,
    BinaryMinimumF8e4m3,
    CmpEqF8e4m3,
    CmpNeF8e4m3,
    CmpLtF8e4m3,
    CmpLeF8e4m3,
    CmpGtF8e4m3,
    CmpGeF8e4m3,
    UnaryLogBf16,
    UnaryAbsBf16,
    UnaryRecipBf16,
    UnarySqrBf16,
    UnaryGeluBf16,
    UnaryGeluErfBf16,
    UnaryErfBf16,
    UnaryReluBf16,
    UnaryTanhBf16,
    UnaryFloorBf16,
    UnaryCeilBf16,
    UnaryRoundBf16,
    UnarySignBf16,
    UnaryExpBf16,
    UnarySiluBf16,
    UnarySqrtBf16,
    UnarySinBf16,
    UnaryCosBf16,
    UnaryNegBf16,
    UnaryLogF8e4m3,
    UnaryAbsF8e4m3,
    UnaryRecipF8e4m3,
    UnarySqrF8e4m3,
    UnaryGeluF8e4m3,
    UnaryGeluErfF8e4m3,
    UnaryErfF8e4m3,
    UnaryReluF8e4m3,
    UnaryTanhF8e4m3,
    UnaryFloorF8e4m3,
    UnaryCeilF8e4m3,
    UnaryRoundF8e4m3,
    UnarySignF8e4m3,
    UnaryExpF8e4m3,
    UnarySiluF8e4m3,
    UnarySqrtF8e4m3,
    UnarySinF8e4m3,
    UnaryCosF8e4m3,
    UnaryNegF8e4m3,
    WhereF32,
    WhereBf16,
    WhereF8e4m3,
    AffineBf16,
    AffineF8e4m3,
    UnaryPowBf16,
    UnaryEluBf16,
    UnaryPowF8e4m3,
    UnaryEluF8e4m3,
    AffineF16,
    AffineF64,
    UnaryLogF16,
    UnaryAbsF16,
    UnaryRecipF16,
    UnarySqrF16,
    UnaryGeluF16,
    UnaryGeluErfF16,
    UnaryErfF16,
    UnaryReluF16,
    UnaryTanhF16,
    UnaryFloorF16,
    UnaryCeilF16,
    UnaryRoundF16,
    UnarySignF16,
    UnaryPowF16,
    UnaryEluF16,
    UnaryExpF16,
    UnarySiluF16,
    UnarySqrtF16,
    UnarySinF16,
    UnaryCosF16,
    UnaryNegF16,
    UnaryLogF64,
    UnaryAbsF64,
    UnaryRecipF64,
    UnarySqrF64,
    UnaryGeluF64,
    UnaryGeluErfF64,
    UnaryErfF64,
    UnaryReluF64,
    UnaryTanhF64,
    UnaryFloorF64,
    UnaryCeilF64,
    UnaryRoundF64,
    UnarySignF64,
    UnaryPowF64,
    UnaryEluF64,
    UnaryExpF64,
    UnarySiluF64,
    UnarySqrtF64,
    UnarySinF64,
    UnaryCosF64,
    UnaryNegF64,
    BinaryAddF16,
    BinarySubF16,
    BinaryMulF16,
    BinaryDivF16,
    BinaryMaximumF16,
    BinaryMinimumF16,
    CmpEqF16,
    CmpNeF16,
    CmpLtF16,
    CmpLeF16,
    CmpGtF16,
    CmpGeF16,
    BinaryAddF64,
    BinarySubF64,
    BinaryMulF64,
    BinaryDivF64,
    BinaryMaximumF64,
    BinaryMinimumF64,
    CmpEqF64,
    CmpNeF64,
    CmpLtF64,
    CmpLeF64,
    CmpGtF64,
    CmpGeF64,
    BinaryAddU8,
    BinarySubU8,
    BinaryMulU8,
    BinaryDivU8,
    BinaryMaximumU8,
    BinaryMinimumU8,
    BinaryAddU32,
    BinarySubU32,
    BinaryMulU32,
    BinaryDivU32,
    BinaryMaximumU32,
    BinaryMinimumU32,
    BinaryAddI16,
    BinarySubI16,
    BinaryMulI16,
    BinaryDivI16,
    BinaryMaximumI16,
    BinaryMinimumI16,
    BinaryAddI32,
    BinarySubI32,
    BinaryMulI32,
    BinaryDivI32,
    BinaryMaximumI32,
    BinaryMinimumI32,
    BinaryAddI64,
    BinarySubI64,
    BinaryMulI64,
    BinaryDivI64,
    BinaryMaximumI64,
    BinaryMinimumI64,
    CmpEqU8,
    CmpNeU8,
    CmpLtU8,
    CmpLeU8,
    CmpGtU8,
    CmpGeU8,
    CmpEqU32,
    CmpNeU32,
    CmpLtU32,
    CmpLeU32,
    CmpGtU32,
    CmpGeU32,
    CmpEqI16,
    CmpNeI16,
    CmpLtI16,
    CmpLeI16,
    CmpGtI16,
    CmpGeI16,
    CmpEqI32,
    CmpNeI32,
    CmpLtI32,
    CmpLeI32,
    CmpGtI32,
    CmpGeI32,
    CmpEqI64,
    CmpNeI64,
    CmpLtI64,
    CmpLeI64,
    CmpGtI64,
    CmpGeI64,
    WhereF16,
    WhereF64,
    Copy2dF32,
    Copy2dF16,
    Copy2dF64,
    GatherIdxF32,
    GatherRowsF32,
    IndexSelectF32,
    GatherIdxF16,
    GatherRowsF16,
    IndexSelectF16,
    GatherIdxF64,
    GatherRowsF64,
    IndexSelectF64,
    ReduceMinF32,
    ReduceArgMinF32,
    ReduceArgMaxF32,
    ReduceSumF16,
    ReduceMaxF16,
    ReduceMinF16,
    ReduceArgMinF16,
    ReduceArgMaxF16,
    ReduceSumF64,
    ReduceMaxF64,
    ReduceMinF64,
    ReduceArgMinF64,
    ReduceArgMaxF64,
    AvgPool2dF32,
    MaxPool2dF32,
    UpsampleNearest1dF32,
    UpsampleNearest2dF32,
    UpsampleBilinear2dF32,
    AvgPool2dF16,
    MaxPool2dF16,
    UpsampleNearest1dF16,
    UpsampleNearest2dF16,
    UpsampleBilinear2dF16,
    AvgPool2dF64,
    MaxPool2dF64,
    UpsampleNearest1dF64,
    UpsampleNearest2dF64,
    UpsampleBilinear2dF64,
    Conv1dF32,
    Conv2dF32,
    ConvTranspose1dF32,
    ConvTranspose2dF32,
    Conv1dF16,
    Conv2dF16,
    ConvTranspose1dF16,
    ConvTranspose2dF16,
    Conv1dF64,
    Conv2dF64,
    ConvTranspose1dF64,
    ConvTranspose2dF64,
    ScatterF32,
    ScatterF16,
    ScatterF64,
    TestFillF16,
    TestFillU8,
    TestFillI16,
    TestFillBf16Native,
    TestFillBf16Emulated,
    TestFillU32,
    TestFillI32,
    TestFillF32,
    TestFillI64,
    TestFillF64,
    TestFillF4,
    TestFillF6e2m3,
    TestFillF6e3m2,
    TestFillF8e4m3,
    TestFillF8e8m0,
}

/// The operation a kernel performs, independent of the element type it
/// works on.
#[derive(Debug, Clone, Copy, PartialEq, Eq, Structural)]
pub enum KernelOp {
    Affine,
    ReduceSum,
    ReduceMax,
    Gemm,
    ConstSet,
    UnaryLog,
    UnaryAbs,
    UnaryRecip,
    UnarySqr,
    UnaryGelu,
    UnaryGeluErf,
    UnaryErf,
    UnaryRelu,
    UnaryTanh,
    UnaryFloor,
    UnaryCeil,
    UnaryRound,
    UnarySign,
    UnaryPow,
    UnaryElu,
    BinaryMaximum,
    BinaryMinimum,
    BinaryAdd,
    BinarySub,
    BinaryMul,
    BinaryDiv,
    UnaryExp,
    UnarySilu,
    UnarySqrt,
    UnarySin,
    UnaryCos,
    UnaryNeg,
    CmpEq,
    CmpNe,
    CmpLt,
    CmpLe,
    CmpGt,
    CmpGe,
    Where,
    Copy2d,
    GatherIdx,
    GatherRows,
    IndexSelect,
    ReduceMin,
    ReduceArgMin,
    ReduceArgMax,
    AvgPool2d,
    MaxPool2d,
    UpsampleNearest1d,
    UpsampleNearest2d,
    UpsampleBilinear2d,
    Conv1d,
    Conv2d,
    ConvTranspose1d,
    ConvTranspose2d,
    Scatter,
    TestFill,
    TestFillEmulated,
}

/// The element type a kernel reads and writes.
#[derive(Debug, Clone, Copy, PartialEq, Eq, Structural)]
pub enum KernelElem {
    F32,
    F16,
    Bf16,
    F64,
    F8e4m3,
    U8,
    U32,
    I16,
    I32,
    I64,
    F4,
    F6e2m3,
    F6e3m2,
    F8e8m0,
}

impl KernelName {
    /// The operation of this kernel.
    pub open spec fn kernel_op(self) -> KernelOp {
        match self {
            KernelName::AffineF32 => KernelOp::Affine,
            KernelName::ReduceSumF32 => KernelOp::ReduceSum,
            KernelName::ReduceMaxF32 => KernelOp::ReduceMax,
            KernelName::GemmF32 => KernelOp::Gemm,
            KernelName::GemmF16 => KernelOp::Gemm,
            KernelName::GemmF64 => KernelOp::Gemm,
            KernelName::ConstSetF32 => KernelOp::ConstSet,
            KernelName::UnaryLogF32 => KernelOp::UnaryLog,
            KernelName::UnaryAbsF32 => KernelOp::UnaryAbs,
            KernelName::UnaryRecipF32 => KernelOp::UnaryRecip,
            KernelName::UnarySqrF32 => KernelOp::UnarySqr,
            KernelName::UnaryGeluF32 => KernelOp::UnaryGelu,
            KernelName::UnaryGeluErfF32 => KernelOp::UnaryGeluErf,
            KernelName::UnaryErfF32 => KernelOp::UnaryErf,
            KernelName::UnaryReluF32 => KernelOp::UnaryRelu,
            KernelName::UnaryTanhF32 => KernelOp::UnaryTanh,
            KernelName::UnaryFloorF32 => KernelOp::UnaryFloor,
            KernelName::UnaryCeilF32 => KernelOp::UnaryCeil,
            KernelName::UnaryRoundF32 => KernelOp::UnaryRound,
            KernelName::UnarySignF32 => KernelOp::UnarySign,
            KernelName::UnaryPowF32 => KernelOp::UnaryPow,
            KernelName::UnaryEluF32 => KernelOp::UnaryElu,
            KernelName::BinaryMaximumF32 => KernelOp::BinaryMaximum,
            KernelName::BinaryMinimumF32 => KernelOp::BinaryMinimum,
            KernelName::BinaryAddF32 => KernelOp::BinaryAdd,
            KernelName::BinarySubF32 => KernelOp::BinarySub,
            KernelName::BinaryMulF32 => KernelOp::BinaryMul,
            KernelName::BinaryDivF32 => KernelOp::BinaryDiv,
            KernelName::UnaryExpF32 => KernelOp::UnaryExp,
            KernelName::UnarySiluF32 => KernelOp::UnarySilu,
            KernelName::UnarySqrtF32 => KernelOp::UnarySqrt,
            KernelName::UnarySinF32 => KernelOp::UnarySin,
            KernelName::UnaryCosF32 => KernelOp::UnaryCos,
            KernelName::UnaryNegF32 => KernelOp::UnaryNeg,
            KernelName::CmpEqF32 => KernelOp::CmpEq,
            KernelName::CmpNeF32 => KernelOp::CmpNe,
            KernelName::CmpLtF32 => KernelOp::CmpLt,
            KernelName::CmpLeF32 => KernelOp::CmpLe,
            KernelName::CmpGtF32 => KernelOp::CmpGt,
            KernelName::CmpGeF32 => KernelOp::CmpGe,
            KernelName::BinaryAddBf16 => KernelOp::BinaryAdd,
            KernelName::BinarySubBf16 => KernelOp::BinarySub,
            KernelName::BinaryMulBf16 => KernelOp::BinaryMul,
            KernelName::BinaryDivBf16 => KernelOp::BinaryDiv,
            KernelName::BinaryMaximumBf16 => KernelOp::BinaryMaximum,
            KernelName::BinaryMinimumBf16 => KernelOp::BinaryMinimum,
            KernelName::CmpEqBf16 => KernelOp::CmpEq,
            KernelName::CmpNeBf16 => KernelOp::CmpNe,
            KernelName::CmpLtBf16 => KernelOp::CmpLt,
            KernelName::CmpLeBf16 => KernelOp::CmpLe,
            KernelName::CmpGtBf16 => KernelOp::CmpGt,
            KernelName::CmpGeBf16 => KernelOp::CmpGe,
            KernelName::BinaryAddF8e4m3 => KernelOp::BinaryAdd,
            KernelName::BinarySubF8e4m3 => KernelOp::BinarySub,
            KernelName::BinaryMulF8e4m3 => KernelOp::BinaryMul,
            KernelName::BinaryDivF8e4m3 => KernelOp::BinaryDiv,
            KernelName::BinaryMaximumF8e4m3 => KernelOp::BinaryMaximum,
            KernelName::BinaryMinimumF8e4m3 => KernelOp::BinaryMinimum,
            KernelName::CmpEqF8e4m3 => KernelOp::CmpEq,
            KernelName::CmpNeF8e4m3 => KernelOp::CmpNe,
            KernelName::CmpLtF8e4m3 => KernelOp::CmpLt,
            KernelName::CmpLeF8e4m3 => KernelOp::CmpLe,
            KernelName::CmpGtF8e4m3 => KernelOp::CmpGt,
            KernelName::CmpGeF8e4m3 => KernelOp::CmpGe,
            KernelName::UnaryLogBf16 => KernelOp::UnaryLog,
            KernelName::UnaryAbsBf16 => KernelOp::UnaryAbs,
            KernelName::UnaryRecipBf16 => KernelOp::UnaryRecip,
            KernelName::UnarySqrBf16 => KernelOp::UnarySqr,
            KernelName::UnaryGeluBf16 => KernelOp::UnaryGelu,
            KernelName::UnaryGeluErfBf16 => KernelOp::UnaryGeluErf,
            KernelName::UnaryErfBf16 => KernelOp::UnaryErf,
            KernelName::UnaryReluBf16 => KernelOp::UnaryRelu,
            KernelName::UnaryTanhBf16 => KernelOp::UnaryTanh,
            KernelName::UnaryFloorBf16 => KernelOp::UnaryFloor,
            KernelName::UnaryCeilBf16 => KernelOp::UnaryCeil,
            KernelName::UnaryRoundBf16 => KernelOp::UnaryRound,
            KernelName::UnarySignBf16 => KernelOp::UnarySign,
            KernelName::UnaryExpBf16 => KernelOp::UnaryExp,
            KernelName::UnarySiluBf16 => KernelOp::UnarySilu,
            KernelName::UnarySqrtBf16 => KernelOp::UnarySqrt,
            KernelName::UnarySinBf16 => KernelOp::UnarySin,
            KernelName::UnaryCosBf16 => KernelOp::UnaryCos,
            KernelName::UnaryNegBf16 => KernelOp::UnaryNeg,
            KernelName::UnaryLogF8e4m3 => KernelOp::UnaryLog,
            KernelName::UnaryAbsF8e4m3 => KernelOp::UnaryAbs,
            KernelName::UnaryRecipF8e4m3 => KernelOp::UnaryRecip,
            KernelName::UnarySqrF8e4m3 => KernelOp::UnarySqr,
            KernelName::UnaryGeluF8e4m3 => KernelOp::UnaryGelu,
            KernelName::UnaryGeluErfF8e4m3 => KernelOp::UnaryGeluErf,
            KernelName::UnaryErfF8e4m3 => KernelOp::UnaryErf,
            KernelName::UnaryReluF8e4m3 => KernelOp::UnaryRelu,
            KernelName::UnaryTanhF8e4m3 => KernelOp::UnaryTanh,
            KernelName::UnaryFloorF8e4m3 => KernelOp::UnaryFloor,
            KernelName::UnaryCeilF8e4m3 => KernelOp::UnaryCeil,
            KernelName::UnaryRoundF8e4m3 => KernelOp::UnaryRound,
            KernelName::UnarySignF8e4m3 => KernelOp::UnarySign,
            KernelName::UnaryExpF8e4m3 => KernelOp::UnaryExp,
            KernelName::UnarySiluF8e4m3 => KernelOp::UnarySilu,
            KernelName::UnarySqrtF8e4m3 => KernelOp::UnarySqrt,
            KernelName::UnarySinF8e4m3 => KernelOp::UnarySin,
            KernelName::UnaryCosF8e4m3 => KernelOp::UnaryCos,
            KernelName::UnaryNegF8e4m3 => KernelOp::UnaryNeg,
            KernelName::WhereF32 => KernelOp::Where,
            KernelName::WhereBf16 => KernelOp::Where,
            KernelName::WhereF8e4m3 => KernelOp::Where,
            KernelName::AffineBf16 => KernelOp::Affine,
            KernelName::AffineF8e4m3 => KernelOp::Affine,
            KernelName::UnaryPowBf16 => KernelOp::UnaryPow,
            KernelName::UnaryEluBf16 => KernelOp::UnaryElu,
            KernelName::UnaryPowF8e4m3 => KernelOp::UnaryPow,
            KernelName::UnaryEluF8e4m3 => KernelOp::UnaryElu,
            KernelName::AffineF16 => KernelOp::Affine,
            KernelName::AffineF64 => KernelOp::Affine,
            KernelName::UnaryLogF16 => KernelOp::UnaryLog,
            KernelName::UnaryAbsF16 => KernelOp::UnaryAbs,
            KernelName::UnaryRecipF16 => KernelOp::UnaryRecip,
            KernelName::UnarySqrF16 => KernelOp::UnarySqr,
            KernelName::UnaryGeluF16 => KernelOp::UnaryGelu,
            KernelName::UnaryGeluErfF16 => KernelOp::UnaryGeluErf,
            KernelName::UnaryErfF16 => KernelOp::UnaryErf,
            KernelName::UnaryReluF16 => KernelOp::UnaryRelu,
            KernelName::UnaryTanhF16 => KernelOp::UnaryTanh,
            KernelName::UnaryFloorF16 => KernelOp::UnaryFloor,
            KernelName::UnaryCeilF16 => KernelOp::UnaryCeil,
            KernelName::UnaryRoundF16 => KernelOp::UnaryRound,
            KernelName::UnarySignF16 => KernelOp::UnarySign,
            KernelName::UnaryPowF16 => KernelOp::UnaryPow,
            KernelName::UnaryEluF16 => KernelOp::UnaryElu,
            KernelName::UnaryExpF16 => KernelOp::UnaryExp,
            KernelName::UnarySiluF16 => KernelOp::UnarySilu,
            KernelName::UnarySqrtF16 => KernelOp::UnarySqrt,
            KernelName::UnarySinF16 => KernelOp::UnarySin,
            KernelName::UnaryCosF16 => KernelOp::UnaryCos,
            KernelName::UnaryNegF16 => KernelOp::UnaryNeg,
            KernelName::UnaryLogF64 => KernelOp::UnaryLog,
            KernelName::UnaryAbsF64 => KernelOp::UnaryAbs,
            KernelName::UnaryRecipF64 => KernelOp::UnaryRecip,
            KernelName::UnarySqrF64 => KernelOp::UnarySqr,
            KernelName::UnaryGeluF64 => KernelOp::UnaryGelu,
            KernelName::UnaryGeluErfF64 => KernelOp::UnaryGeluErf,
            KernelName::UnaryErfF64 => KernelOp::UnaryErf,
            KernelName::UnaryReluF64 => KernelOp::UnaryRelu,
            KernelName::UnaryTanhF64 => KernelOp::UnaryTanh,
            KernelName::UnaryFloorF64 => KernelOp::UnaryFloor,
            KernelName::UnaryCeilF64 => KernelOp::UnaryCeil,
            KernelName::UnaryRoundF64 => KernelOp::UnaryRound,
            KernelName::UnarySignF64 => KernelOp::UnarySign,
            KernelName::UnaryPowF64 => KernelOp::UnaryPow,
            KernelName::UnaryEluF64 => KernelOp::UnaryElu,
            KernelName::UnaryExpF64 => KernelOp::UnaryExp,
            KernelName::UnarySiluF64 => KernelOp::UnarySilu,
            KernelName::UnarySqrtF64 => KernelOp::UnarySqrt,
            KernelName::UnarySinF64 => KernelOp::UnarySin,
            KernelName::UnaryCosF64 => KernelOp::UnaryCos,
            KernelName::UnaryNegF64 => KernelOp::UnaryNeg,
            KernelName::BinaryAddF16 => KernelOp::BinaryAdd,
            KernelName::BinarySubF16 => KernelOp::BinarySub,
            KernelName::BinaryMulF16 => KernelOp::BinaryMul,
            KernelName::BinaryDivF16 => KernelOp::BinaryDiv,
            KernelName::BinaryMaximumF16 => KernelOp::BinaryMaximum,
            KernelName::BinaryMinimumF16 => KernelOp::BinaryMinimum,
            KernelName::CmpEqF16 => KernelOp::CmpEq,
            KernelName::CmpNeF16 => KernelOp::CmpNe,
            KernelName::CmpLtF16 => KernelOp::CmpLt,
            KernelName::CmpLeF16 => KernelOp::CmpLe,
            KernelName::CmpGtF16 => KernelOp::CmpGt,
            KernelName::CmpGeF16 => KernelOp::CmpGe,
            KernelName::BinaryAddF64 => KernelOp::BinaryAdd,
            KernelName::BinarySubF64 => KernelOp::BinarySub,
            KernelName::BinaryMulF64 => KernelOp::BinaryMul,
            KernelName::BinaryDivF64 => KernelOp::BinaryDiv,
            KernelName::BinaryMaximumF64 => KernelOp::BinaryMaximum,
            KernelName::BinaryMinimumF64 => KernelOp::BinaryMinimum,
            KernelName::CmpEqF64 => KernelOp::CmpEq,
            KernelName::CmpNeF64 => KernelOp::CmpNe,
            KernelName::CmpLtF64 => KernelOp::CmpLt,
            KernelName::CmpLeF64 => KernelOp::CmpLe,
            KernelName::CmpGtF64 => KernelOp::CmpGt,
            KernelName::CmpGeF64 => KernelOp::CmpGe,
            KernelName::BinaryAddU8 => KernelOp::BinaryAdd,
            KernelName::BinarySubU8 => KernelOp::BinarySub,
            KernelName::BinaryMulU8 => KernelOp::BinaryMul,
            KernelName::BinaryDivU8 => KernelOp::BinaryDiv,
            KernelName::BinaryMaximumU8 => KernelOp::BinaryMaximum,
            KernelName::BinaryMinimumU8 => KernelOp::BinaryMinimum,
            KernelName::BinaryAddU32 => KernelOp::BinaryAdd,
            KernelName::BinarySubU32 => KernelOp::BinarySub,
            KernelName::BinaryMulU32 => KernelOp::BinaryMul,
            KernelName::BinaryDivU32 => KernelOp::BinaryDiv,
            KernelName::BinaryMaximumU32 => KernelOp::BinaryMaximum,
            KernelName::BinaryMinimumU32 => KernelOp::BinaryMinimum,
            KernelName::BinaryAddI16 => KernelOp::BinaryAdd,
            KernelName::BinarySubI16 => KernelOp::BinarySub,
            KernelName::BinaryMulI16 => KernelOp::BinaryMul,
            KernelName::BinaryDivI16 => KernelOp::BinaryDiv,
            KernelName::BinaryMaximumI16 => KernelOp::BinaryMaximum,
            KernelName::BinaryMinimumI16 => KernelOp::BinaryMinimum,
            KernelName::BinaryAddI32 => KernelOp::BinaryAdd,
            KernelName::BinarySubI32 => KernelOp::BinarySub,
            KernelName::BinaryMulI32 => KernelOp::BinaryMul,
            KernelName::BinaryDivI32 => KernelOp::BinaryDiv,
            KernelName::BinaryMaximumI32 => KernelOp::BinaryMaximum,
            KernelName::BinaryMinimumI32 => KernelOp::BinaryMinimum,
            KernelName::BinaryAddI64 => KernelOp::BinaryAdd,
            KernelName::BinarySubI64 => KernelOp::BinarySub,
            KernelName::BinaryMulI64 => KernelOp::BinaryMul,
            KernelName::BinaryDivI64 => KernelOp::BinaryDiv,
            KernelName::BinaryMaximumI64 => KernelOp::BinaryMaximum,
            KernelName::BinaryMinimumI64 => KernelOp::BinaryMinimum,
            KernelName::CmpEqU8 => KernelOp::CmpEq,
            KernelName::CmpNeU8 => KernelOp::CmpNe,
            KernelName::CmpLtU8 => KernelOp::CmpLt,
            KernelName::CmpLeU8 => KernelOp::CmpLe,
            KernelName::CmpGtU8 => KernelOp::CmpGt,
            KernelName::CmpGeU8 => KernelOp::CmpGe,
            KernelName::CmpEqU32 => KernelOp::CmpEq,
            KernelName::CmpNeU32 => KernelOp::CmpNe,
            KernelName::CmpLtU32 => KernelOp::CmpLt,
            KernelName::CmpLeU32 => KernelOp::CmpLe,
            KernelName::CmpGtU32 => KernelOp::CmpGt,
            KernelName::CmpGeU32 => KernelOp::CmpGe,
            KernelName::CmpEqI16 => KernelOp::CmpEq,
            KernelName::CmpNeI16 => KernelOp::CmpNe,
            KernelName::CmpLtI16 => KernelOp::CmpLt,
            KernelName::CmpLeI16 => KernelOp::CmpLe,
            KernelName::CmpGtI16 => KernelOp::CmpGt,
            KernelName::CmpGeI16 => KernelOp::CmpGe,
            KernelName::CmpEqI32 => KernelOp::CmpEq,
            KernelName::CmpNeI32 => KernelOp::CmpNe,
            KernelName::CmpLtI32 => KernelOp::CmpLt,
            KernelName::CmpLeI32 => KernelOp::CmpLe,
            KernelName::CmpGtI32 => KernelOp::CmpGt,
            KernelName::CmpGeI32 => KernelOp::CmpGe,
            KernelName::CmpEqI64 => KernelOp::CmpEq,
            KernelName::CmpNeI64 => KernelOp::CmpNe,
            KernelName::CmpLtI64 => KernelOp::CmpLt,
            KernelName::CmpLeI64 => KernelOp::CmpLe,
            KernelName::CmpGtI64 => KernelOp::CmpGt,
            KernelName::CmpGeI64 => KernelOp::CmpGe,
            KernelName::WhereF16 => KernelOp::Where,
            KernelName::WhereF64 => KernelOp::Where,
            KernelName::Copy2dF32 => KernelOp::Copy2d,
            KernelName::Copy2dF16 => KernelOp::Copy2d,
            KernelName::Copy2dF64 => KernelOp::Copy2d,
            KernelName::GatherIdxF32 => KernelOp::GatherIdx,
            KernelName::GatherRowsF32 => KernelOp::GatherRows,
            KernelName::IndexSelectF32 => KernelOp::IndexSelect,
            KernelName::GatherIdxF16 => KernelOp::GatherIdx,
            KernelName::GatherRowsF16 => KernelOp::GatherRows,
            KernelName::IndexSelectF16 => KernelOp::IndexSelect,
            KernelName::GatherIdxF64 => KernelOp::GatherIdx,
            KernelName::GatherRowsF64 => KernelOp::GatherRows,
            KernelName::IndexSelectF64 => KernelOp::IndexSelect,
            KernelName::ReduceMinF32 => KernelOp::ReduceMin,
            KernelName::ReduceArgMinF32 => KernelOp::ReduceArgMin,
            KernelName::ReduceArgMaxF32 => KernelOp::ReduceArgMax,
            KernelName::ReduceSumF16 => KernelOp::ReduceSum,
            KernelName::ReduceMaxF16 => KernelOp::ReduceMax,
            KernelName::ReduceMinF16 => KernelOp::ReduceMin,
            KernelName::ReduceArgMinF16 => KernelOp::ReduceArgMin,
            KernelName::ReduceArgMaxF16 => KernelOp::ReduceArgMax,
            KernelName::ReduceSumF64 => KernelOp::ReduceSum,
            KernelName::ReduceMaxF64 => KernelOp::ReduceMax,
            KernelName::ReduceMinF64 => KernelOp::ReduceMin,
            KernelName::ReduceArgMinF64 => KernelOp::ReduceArgMin,
            KernelName::ReduceArgMaxF64 => KernelOp::ReduceArgMax,
            KernelName::AvgPool2dF32 => KernelOp::AvgPool2d,
            KernelName::MaxPool2dF32 => KernelOp::MaxPool2d,
            KernelName::UpsampleNearest1dF32 => KernelOp::UpsampleNearest1d,
            KernelName::UpsampleNearest2dF32 => KernelOp::UpsampleNearest2d,
            KernelName::UpsampleBilinear2dF32 => KernelOp::UpsampleBilinear2d,
            KernelName::AvgPool2dF16 => KernelOp::AvgPool2d,
            KernelName::MaxPool2dF16 => KernelOp::MaxPool2d,
            KernelName::UpsampleNearest1dF16 => KernelOp::UpsampleNearest1d,
            KernelName::UpsampleNearest2dF16 => KernelOp::UpsampleNearest2d,
            KernelName::UpsampleBilinear2dF16 => KernelOp::UpsampleBilinear2d,
            KernelName::AvgPool2dF64 => KernelOp::AvgPool2d,
            KernelName::MaxPool2dF64 => KernelOp::MaxPool2d,
            KernelName::UpsampleNearest1dF64 => KernelOp::UpsampleNearest1d,
            KernelName::UpsampleNearest2dF64 => KernelOp::UpsampleNearest2d,
            KernelName::UpsampleBilinear2dF64 => KernelOp::UpsampleBilinear2d,
            KernelName::Conv1dF32 => KernelOp::Conv1d,
            KernelName::Conv2dF32 => KernelOp::Conv2d,
            KernelName::ConvTranspose1dF32 => KernelOp::ConvTranspose1d,
            KernelName::ConvTranspose2dF32 => KernelOp::ConvTranspose2d,
            KernelName::Conv1dF16 => KernelOp::Conv1d,
            KernelName::Conv2dF16 => KernelOp::Conv2d,
            KernelName::ConvTranspose1dF16 => KernelOp::ConvTranspose1d,
            KernelName::ConvTranspose2dF16 => KernelOp::ConvTranspose2d,
            KernelName::Conv1dF64 => KernelOp::Conv1d,
            KernelName::Conv2dF64 => KernelOp::Conv2d,
            KernelName::ConvTranspose1dF64 => KernelOp::ConvTranspose1d,
            KernelName::ConvTranspose2dF64 => KernelOp::ConvTranspose2d,
            KernelName::ScatterF32 => KernelOp::Scatter,
            KernelName::ScatterF16 => KernelOp::Scatter,
            KernelName::ScatterF64 => KernelOp::Scatter,
            KernelName::TestFillF16 => KernelOp::TestFill,
            KernelName::TestFillU8 => KernelOp::TestFill,
            KernelName::TestFillI16 => KernelOp::TestFill,
            KernelName::TestFillBf16Native => KernelOp::TestFill,
            KernelName::TestFillBf16Emulated => KernelOp::TestFillEmulated,
            KernelName::TestFillU32 => KernelOp::TestFill,
            KernelName::TestFillI32 => KernelOp::TestFill,
            KernelName::TestFillF32 => KernelOp::TestFill,
            KernelName::TestFillI64 => KernelOp::TestFill,
            KernelName::TestFillF64 => KernelOp::TestFill,
            KernelName::TestFillF4 => KernelOp::TestFill,
            KernelName::TestFillF6e2m3 => KernelOp::TestFill,
            KernelName::TestFillF6e3m2 => KernelOp::TestFill,
            KernelName::TestFillF8e4m3 => KernelOp::TestFill,
            KernelName::TestFillF8e8m0 => KernelOp::TestFill,
        }
    }

    /// The operation of this kernel.
    pub fn op(&self) -> (r: KernelOp)
        ensures
            r == self.kernel_op(),
    {
        match self {
            KernelName::AffineF32 => KernelOp::Affine,
            KernelName::ReduceSumF32 => KernelOp::ReduceSum,
            KernelName::ReduceMaxF32 => KernelOp::ReduceMax,
            KernelName::GemmF32 => KernelOp::Gemm,
            KernelName::GemmF16 => KernelOp::Gemm,
            KernelName::GemmF64 => KernelOp::Gemm,
            KernelName::ConstSetF32 => KernelOp::ConstSet,
            KernelName::UnaryLogF32 => KernelOp::UnaryLog,
            KernelName::UnaryAbsF32 => KernelOp::UnaryAbs,
            KernelName::UnaryRecipF32 => KernelOp::UnaryRecip,
            KernelName::UnarySqrF32 => KernelOp::UnarySqr,
            KernelName::UnaryGeluF32 => KernelOp::UnaryGelu,
            KernelName::UnaryGeluErfF32 => KernelOp::UnaryGeluErf,
            KernelName::UnaryErfF32 => KernelOp::UnaryErf,
            KernelName::UnaryReluF32 => KernelOp::UnaryRelu,
            KernelName::UnaryTanhF32 => KernelOp::UnaryTanh,
            KernelName::UnaryFloorF32 => KernelOp::UnaryFloor,
            KernelName::UnaryCeilF32 => KernelOp::UnaryCeil,
            KernelName::UnaryRoundF32 => KernelOp::UnaryRound,
            KernelName::UnarySignF32 => KernelOp::UnarySign,
            KernelName::UnaryPowF32 => KernelOp::UnaryPow,
            KernelName::UnaryEluF32 => KernelOp::UnaryElu,
            KernelName::BinaryMaximumF32 => KernelOp::BinaryMaximum,
            KernelName::BinaryMinimumF32 => KernelOp::BinaryMinimum,
            KernelName::BinaryAddF32 => KernelOp::BinaryAdd,
            KernelName::BinarySubF32 => KernelOp::BinarySub,
            KernelName::BinaryMulF32 => KernelOp::BinaryMul,
            KernelName::BinaryDivF32 => KernelOp::BinaryDiv,
            KernelName::UnaryExpF32 => KernelOp::UnaryExp,
            KernelName::UnarySiluF32 => KernelOp::UnarySilu,
            KernelName::UnarySqrtF32 => KernelOp::UnarySqrt,
            KernelName::UnarySinF32 => KernelOp::UnarySin,
            KernelName::UnaryCosF32 => KernelOp::UnaryCos,
            KernelName::UnaryNegF32 => KernelOp::UnaryNeg,
            KernelName::CmpEqF32 => KernelOp::CmpEq,
            KernelName::CmpNeF32 => KernelOp::CmpNe,
            KernelName::CmpLtF32 => KernelOp::CmpLt,
            KernelName::CmpLeF32 => KernelOp::CmpLe,
            KernelName::CmpGtF32 => KernelOp::CmpGt,
            KernelName::CmpGeF32 => KernelOp::CmpGe,
            KernelName::BinaryAddBf16 => KernelOp::BinaryAdd,
            KernelName::BinarySubBf16 => KernelOp::BinarySub,
            KernelName::BinaryMulBf16 => KernelOp::BinaryMul,
            KernelName::BinaryDivBf16 => KernelOp::BinaryDiv,
            KernelName::BinaryMaximumBf16 => KernelOp::BinaryMaximum,
            KernelName::BinaryMinimumBf16 => KernelOp::BinaryMinimum,
            KernelName::CmpEqBf16 => KernelOp::CmpEq,
            KernelName::CmpNeBf16 => KernelOp::CmpNe,
            KernelName::CmpLtBf16 => KernelOp::CmpLt,
            KernelName::CmpLeBf16 => KernelOp::CmpLe,
            KernelName::CmpGtBf16 => KernelOp::CmpGt,
            KernelName::CmpGeBf16 => KernelOp::CmpGe,
            KernelName::BinaryAddF8e4m3 => KernelOp::BinaryAdd,
            KernelName::BinarySubF8e4m3 => KernelOp::BinarySub,
            KernelName::BinaryMulF8e4m3 => KernelOp::BinaryMul,
            KernelName::BinaryDivF8e4m3 => KernelOp::BinaryDiv,
            KernelName::BinaryMaximumF8e4m3 => KernelOp::BinaryMaximum,
            KernelName::BinaryMinimumF8e4m3 => KernelOp::BinaryMinimum,
            KernelName::CmpEqF8e4m3 => KernelOp::CmpEq,
            KernelName::CmpNeF8e4m3 => KernelOp::CmpNe,
            KernelName::CmpLtF8e4m3 => KernelOp::CmpLt,
            KernelName::CmpLeF8e4m3 => KernelOp::CmpLe,
            KernelName::CmpGtF8e4m3 => KernelOp::CmpGt,
            KernelName::CmpGeF8e4m3 => KernelOp::CmpGe,
            KernelName::UnaryLogBf16 => KernelOp::UnaryLog,
            KernelName::UnaryAbsBf16 => KernelOp::UnaryAbs,
            KernelName::UnaryRecipBf16 => KernelOp::UnaryRecip,
            KernelName::UnarySqrBf16 => KernelOp::UnarySqr,
            KernelName::UnaryGeluBf16 => KernelOp::UnaryGelu,
            KernelName::UnaryGeluErfBf16 => KernelOp::UnaryGeluErf,
            KernelName::UnaryErfBf16 => KernelOp::UnaryErf,
            KernelName::UnaryReluBf16 => KernelOp::UnaryRelu,
            KernelName::UnaryTanhBf16 => KernelOp::UnaryTanh,
            KernelName::UnaryFloorBf16 => KernelOp::UnaryFloor,
            KernelName::UnaryCeilBf16 => KernelOp::UnaryCeil,
            KernelName::UnaryRoundBf16 => KernelOp::UnaryRound,
            KernelName::UnarySignBf16 => KernelOp::UnarySign,
            KernelName::UnaryExpBf16 => KernelOp::UnaryExp,
            KernelName::UnarySiluBf16 => KernelOp::UnarySilu,
            KernelName::UnarySqrtBf16 => KernelOp::UnarySqrt,
            KernelName::UnarySinBf16 => KernelOp::UnarySin,
            KernelName::UnaryCosBf16 => KernelOp::UnaryCos,
            KernelName::UnaryNegBf16 => KernelOp::UnaryNeg,
            KernelName::UnaryLogF8e4m3 => KernelOp::UnaryLog,
            KernelName::UnaryAbsF8e4m3 => KernelOp::UnaryAbs,
            KernelName::UnaryRecipF8e4m3 => KernelOp::UnaryRecip,
            KernelName::UnarySqrF8e4m3 => KernelOp::UnarySqr,
            KernelName::UnaryGeluF8e4m3 => KernelOp::UnaryGelu,
            KernelName::UnaryGeluErfF8e4m3 => KernelOp::UnaryGeluErf,
            KernelName::UnaryErfF8e4m3 => KernelOp::UnaryErf,
            KernelName::UnaryReluF8e4m3 => KernelOp::UnaryRelu,
            KernelName::UnaryTanhF8e4m3 => KernelOp::UnaryTanh,
            KernelName::UnaryFloorF8e4m3 => KernelOp::UnaryFloor,
            KernelName::UnaryCeilF8e4m3 => KernelOp::UnaryCeil,
            KernelName::UnaryRoundF8e4m3 => KernelOp::UnaryRound,
            KernelName::UnarySignF8e4m3 => KernelOp::UnarySign,
            KernelName::UnaryExpF8e4m3 => KernelOp::UnaryExp,
            KernelName::UnarySiluF8e4m3 => KernelOp::UnarySilu,
            KernelName::UnarySqrtF8e4m3 => KernelOp::UnarySqrt,
            KernelName::UnarySinF8e4m3 => KernelOp::UnarySin,
            KernelName::UnaryCosF8e4m3 => KernelOp::UnaryCos,
            KernelName::UnaryNegF8e4m3 => KernelOp::UnaryNeg,
            KernelName::WhereF32 => KernelOp::Where,
            KernelName::WhereBf16 => KernelOp::Where,
            KernelName::WhereF8e4m3 => KernelOp::Where,
            KernelName::AffineBf16 => KernelOp::Affine,
            KernelName::AffineF8e4m3 => KernelOp::Affine,
            KernelName::UnaryPowBf16 => KernelOp::UnaryPow,
            KernelName::UnaryEluBf16 => KernelOp::UnaryElu,
            KernelName::UnaryPowF8e4m3 => KernelOp::UnaryPow,
            KernelName::UnaryEluF8e4m3 => KernelOp::UnaryElu,
            KernelName::AffineF16 => KernelOp::Affine,
            KernelName::AffineF64 => KernelOp::Affine,
            KernelName::UnaryLogF16 => KernelOp::UnaryLog,
            KernelName::UnaryAbsF16 => KernelOp::UnaryAbs,
            KernelName::UnaryRecipF16 => KernelOp::UnaryRecip,
            KernelName::UnarySqrF16 => KernelOp::UnarySqr,
            KernelName::UnaryGeluF16 => KernelOp::UnaryGelu,
            KernelName::UnaryGeluErfF16 => KernelOp::UnaryGeluErf,
            KernelName::UnaryErfF16 => KernelOp::UnaryErf,
            KernelName::UnaryReluF16 => KernelOp::UnaryRelu,
            KernelName::UnaryTanhF16 => KernelOp::UnaryTanh,
            KernelName::UnaryFloorF16 => KernelOp::UnaryFloor,
            KernelName::UnaryCeilF16 => KernelOp::UnaryCeil,
            KernelName::UnaryRoundF16 => KernelOp::UnaryRound,
            KernelName::UnarySignF16 => KernelOp::UnarySign,
            KernelName::UnaryPowF16 => KernelOp::UnaryPow,
            KernelName::UnaryEluF16 => KernelOp::UnaryElu,
            KernelName::UnaryExpF16 => KernelOp::UnaryExp,
            KernelName::UnarySiluF16 => KernelOp::UnarySilu,
            KernelName::UnarySqrtF16 => KernelOp::UnarySqrt,
            KernelName::UnarySinF16 => KernelOp::UnarySin,
            KernelName::UnaryCosF16 => KernelOp::UnaryCos,
            KernelName::UnaryNegF16 => KernelOp::UnaryNeg,
            KernelName::UnaryLogF64 => KernelOp::UnaryLog,
            KernelName::UnaryAbsF64 => KernelOp::UnaryAbs,
            KernelName::UnaryRecipF64 => KernelOp::UnaryRecip,
            KernelName::UnarySqrF64 => KernelOp::UnarySqr,
            KernelName::UnaryGeluF64 => KernelOp::UnaryGelu,
            KernelName::UnaryGeluErfF64 => KernelOp::UnaryGeluErf,
            KernelName::UnaryErfF64 => KernelOp::UnaryErf,
            KernelName::UnaryReluF64 => KernelOp::UnaryRelu,
            KernelName::UnaryTanhF64 => KernelOp::UnaryTanh,
            KernelName::UnaryFloorF64 => KernelOp::UnaryFloor,
            KernelName::UnaryCeilF64 => KernelOp::UnaryCeil,
            KernelName::UnaryRoundF64 => KernelOp::UnaryRound,
            KernelName::UnarySignF64 => KernelOp::UnarySign,
            KernelName::UnaryPowF64 => KernelOp::UnaryPow,
            KernelName::UnaryEluF64 => KernelOp::UnaryElu,
            KernelName::UnaryExpF64 => KernelOp::UnaryExp,
            KernelName::UnarySiluF64 => KernelOp::UnarySilu,
            KernelName::UnarySqrtF64 => KernelOp::UnarySqrt,
            KernelName::UnarySinF64 => KernelOp::UnarySin,
            KernelName::UnaryCosF64 => KernelOp::UnaryCos,
            KernelName::UnaryNegF64 => KernelOp::UnaryNeg,
            KernelName::BinaryAddF16 => KernelOp::BinaryAdd,
            KernelName::BinarySubF16 => KernelOp::BinarySub,
            KernelName::BinaryMulF16 => KernelOp::BinaryMul,
            KernelName::BinaryDivF16 => KernelOp::BinaryDiv,
            KernelName::BinaryMaximumF16 => KernelOp::BinaryMaximum,
            KernelName::BinaryMinimumF16 => KernelOp::BinaryMinimum,
            KernelName::CmpEqF16 => KernelOp::CmpEq,
            KernelName::CmpNeF16 => KernelOp::CmpNe,
            KernelName::CmpLtF16 => KernelOp::CmpLt,
            KernelName::CmpLeF16 => KernelOp::CmpLe,
            KernelName::CmpGtF16 => KernelOp::CmpGt,
            KernelName::CmpGeF16 => KernelOp::CmpGe,
            KernelName::BinaryAddF64 => KernelOp::BinaryAdd,
            KernelName::BinarySubF64 => KernelOp::BinarySub,
            KernelName::BinaryMulF64 => KernelOp::BinaryMul,
            KernelName::BinaryDivF64 => KernelOp::BinaryDiv,
            KernelName::BinaryMaximumF64 => KernelOp::BinaryMaximum,
            KernelName::BinaryMinimumF64 => KernelOp::BinaryMinimum,
            KernelName::CmpEqF64 => KernelOp::CmpEq,
            KernelName::CmpNeF64 => KernelOp::CmpNe,
            KernelName::CmpLtF64 => KernelOp::CmpLt,
            KernelName::CmpLeF64 => KernelOp::CmpLe,
            KernelName::CmpGtF64 => KernelOp::CmpGt,
            KernelName::CmpGeF64 => KernelOp::CmpGe,
            KernelName::BinaryAddU8 => KernelOp::BinaryAdd,
            KernelName::BinarySubU8 => KernelOp::BinarySub,
            KernelName::BinaryMulU8 => KernelOp::BinaryMul,
            KernelName::BinaryDivU8 => KernelOp::BinaryDiv,
            KernelName::BinaryMaximumU8 => KernelOp::BinaryMaximum,
            KernelName::BinaryMinimumU8 => KernelOp::BinaryMinimum,
            KernelName::BinaryAddU32 => KernelOp::BinaryAdd,
            KernelName::BinarySubU32 => KernelOp::BinarySub,
            KernelName::BinaryMulU32 => KernelOp::BinaryMul,
            KernelName::BinaryDivU32 => KernelOp::BinaryDiv,
            KernelName::BinaryMaximumU32 => KernelOp::BinaryMaximum,
            KernelName::BinaryMinimumU32 => KernelOp::BinaryMinimum,
            KernelName::BinaryAddI16 => KernelOp::BinaryAdd,
            KernelName::BinarySubI16 => KernelOp::BinarySub,
            KernelName::BinaryMulI16 => KernelOp::BinaryMul,
            KernelName::BinaryDivI16 => KernelOp::BinaryDiv,
            KernelName::BinaryMaximumI16 => KernelOp::BinaryMaximum,
            KernelName::BinaryMinimumI16 => KernelOp::BinaryMinimum,
            KernelName::BinaryAddI32 => KernelOp::BinaryAdd,
            KernelName::BinarySubI32 => KernelOp::BinarySub,
            KernelName::BinaryMulI32 => KernelOp::BinaryMul,
            KernelName::BinaryDivI32 => KernelOp::BinaryDiv,
            KernelName::BinaryMaximumI32 => KernelOp::BinaryMaximum,
            KernelName::BinaryMinimumI32 => KernelOp::BinaryMinimum,
            KernelName::BinaryAddI64 => KernelOp::BinaryAdd,
            KernelName::BinarySubI64 => KernelOp::BinarySub,
            KernelName::BinaryMulI64 => KernelOp::BinaryMul,
            KernelName::BinaryDivI64 => KernelOp::BinaryDiv,
            KernelName::BinaryMaximumI64 => KernelOp::BinaryMaximum,
            KernelName::BinaryMinimumI64 => KernelOp::BinaryMinimum,
            KernelName::CmpEqU8 => KernelOp::CmpEq,
            KernelName::CmpNeU8 => KernelOp::CmpNe,
            KernelName::CmpLtU8 => KernelOp::CmpLt,
            KernelName::CmpLeU8 => KernelOp::CmpLe,
            KernelName::CmpGtU8 => KernelOp::CmpGt,
            KernelName::CmpGeU8 => KernelOp::CmpGe,
            KernelName::CmpEqU32 => KernelOp::CmpEq,
            KernelName::CmpNeU32 => KernelOp::CmpNe,
            KernelName::CmpLtU32 => KernelOp::CmpLt,
            KernelName::CmpLeU32 => KernelOp::CmpLe,
            KernelName::CmpGtU32 => KernelOp::CmpGt,
            KernelName::CmpGeU32 => KernelOp::CmpGe,
            KernelName::CmpEqI16 => KernelOp::CmpEq,
            KernelName::CmpNeI16 => KernelOp::CmpNe,
            KernelName::CmpLtI16 => KernelOp::CmpLt,
            KernelName::CmpLeI16 => KernelOp::CmpLe,
            KernelName::CmpGtI16 => KernelOp::CmpGt,
            KernelName::CmpGeI16 => KernelOp::CmpGe,
            KernelName::CmpEqI32 => KernelOp::CmpEq,
            KernelName::CmpNeI32 => KernelOp::CmpNe,
            KernelName::CmpLtI32 => KernelOp::CmpLt,
            KernelName::CmpLeI32 => KernelOp::CmpLe,
            KernelName::CmpGtI32 => KernelOp::CmpGt,
            KernelName::CmpGeI32 => KernelOp::CmpGe,
            KernelName::CmpEqI64 => KernelOp::CmpEq,
            KernelName::CmpNeI64 => KernelOp::CmpNe,
            KernelName::CmpLtI64 => KernelOp::CmpLt,
            KernelName::CmpLeI64 => KernelOp::CmpLe,
            KernelName::CmpGtI64 => KernelOp::CmpGt,
            KernelName::CmpGeI64 => KernelOp::CmpGe,
            KernelName::WhereF16 => KernelOp::Where,
            KernelName::WhereF64 => KernelOp::Where,
            KernelName::Copy2dF32 => KernelOp::Copy2d,
            KernelName::Copy2dF16 => KernelOp::Copy2d,
            KernelName::Copy2dF64 => KernelOp::Copy2d,
            KernelName::GatherIdxF32 => KernelOp::GatherIdx,
            KernelName::GatherRowsF32 => KernelOp::GatherRows,
            KernelName::IndexSelectF32 => KernelOp::IndexSelect,
            KernelName::GatherIdxF16 => KernelOp::GatherIdx,
            KernelName::GatherRowsF16 => KernelOp::GatherRows,
            KernelName::IndexSelectF16 => KernelOp::IndexSelect,
            KernelName::GatherIdxF64 => KernelOp::GatherIdx,
            KernelName::GatherRowsF64 => KernelOp::GatherRows,
            KernelName::IndexSelectF64 => KernelOp::IndexSelect,
            KernelName::ReduceMinF32 => KernelOp::ReduceMin,
            KernelName::ReduceArgMinF32 => KernelOp::ReduceArgMin,
            KernelName::ReduceArgMaxF32 => KernelOp::ReduceArgMax,
            KernelName::ReduceSumF16 => KernelOp::ReduceSum,
            KernelName::ReduceMaxF16 => KernelOp::ReduceMax,
            KernelName::ReduceMinF16 => KernelOp::ReduceMin,
            KernelName::ReduceArgMinF16 => KernelOp::ReduceArgMin,
            KernelName::ReduceArgMaxF16 => KernelOp::ReduceArgMax,
            KernelName::ReduceSumF64 => KernelOp::ReduceSum,
            KernelName::ReduceMaxF64 => KernelOp::ReduceMax,
            KernelName::ReduceMinF64 => KernelOp::ReduceMin,
            KernelName::ReduceArgMinF64 => KernelOp::ReduceArgMin,
            KernelName::ReduceArgMaxF64 => KernelOp::ReduceArgMax,
            KernelName::AvgPool2dF32 => KernelOp::AvgPool2d,
            KernelName::MaxPool2dF32 => KernelOp::MaxPool2d,
            KernelName::UpsampleNearest1dF32 => KernelOp::UpsampleNearest1d,
            KernelName::UpsampleNearest2dF32 => KernelOp::UpsampleNearest2d,
            KernelName::UpsampleBilinear2dF32 => KernelOp::UpsampleBilinear2d,
            KernelName::AvgPool2dF16 => KernelOp::AvgPool2d,
            KernelName::MaxPool2dF16 => KernelOp::MaxPool2d,
            KernelName::UpsampleNearest1dF16 => KernelOp::UpsampleNearest1d,
            KernelName::UpsampleNearest2dF16 => KernelOp::UpsampleNearest2d,
            KernelName::UpsampleBilinear2dF16 => KernelOp::UpsampleBilinear2d,
            KernelName::AvgPool2dF64 => KernelOp::AvgPool2d,
            KernelName::MaxPool2dF64 => KernelOp::MaxPool2d,
            KernelName::UpsampleNearest1dF64 => KernelOp::UpsampleNearest1d,
            KernelName::UpsampleNearest2dF64 => KernelOp::UpsampleNearest2d,
            KernelName::UpsampleBilinear2dF64 => KernelOp::UpsampleBilinear2d,
            KernelName::Conv1dF32 => KernelOp::Conv1d,
            KernelName::Conv2dF32 => KernelOp::Conv2d,
            KernelName::ConvTranspose1dF32 => KernelOp::ConvTranspose1d,
            KernelName::ConvTranspose2dF32 => KernelOp::ConvTranspose2d,
            KernelName::Conv1dF16 => KernelOp::Conv1d,
            KernelName::Conv2dF16 => KernelOp::Conv2d,
            KernelName::ConvTranspose1dF16 => KernelOp::ConvTranspose1d,
            KernelName::ConvTranspose2dF16 => KernelOp::ConvTranspose2d,
            KernelName::Conv1dF64 => KernelOp::Conv1d,
            KernelName::Conv2dF64 => KernelOp::Conv2d,
            KernelName::ConvTranspose1dF64 => KernelOp::ConvTranspose1d,
            KernelName::ConvTranspose2dF64 => KernelOp::ConvTranspose2d,
            KernelName::ScatterF32 => KernelOp::Scatter,
            KernelName::ScatterF16 => KernelOp::Scatter,
            KernelName::ScatterF64 => KernelOp::Scatter,
            KernelName::TestFillF16 => KernelOp::TestFill,
            KernelName::TestFillU8 => KernelOp::TestFill,
            KernelName::TestFillI16 => KernelOp::TestFill,
            KernelName::TestFillBf16Native => KernelOp::TestFill,
            KernelName::TestFillBf16Emulated => KernelOp::TestFillEmulated,
            KernelName::TestFillU32 => KernelOp::TestFill,
            KernelName::TestFillI32 => KernelOp::TestFill,
            KernelName::TestFillF32 => KernelOp::TestFill,
            KernelName::TestFillI64 => KernelOp::TestFill,
            KernelName::TestFillF64 => KernelOp::TestFill,
            KernelName::TestFillF4 => KernelOp::TestFill,
            KernelName::TestFillF6e2m3 => KernelOp::TestFill,
            KernelName::TestFillF6e3m2 => KernelOp::TestFill,
            KernelName::TestFillF8e4m3 => KernelOp::TestFill,
            KernelName::TestFillF8e8m0 => KernelOp::TestFill,
        }
    }

    /// The element type of this kernel.
    pub open spec fn kernel_elem(self) -> KernelElem {
        match self {
            KernelName::AffineF32 => KernelElem::F32,
            KernelName::ReduceSumF32 => KernelElem::F32,
            KernelName::ReduceMaxF32 => KernelElem::F32,
            KernelName::GemmF32 => KernelElem::F32,
            KernelName::GemmF16 => KernelElem::F16,
            KernelName::GemmF64 => KernelElem::F64,
            KernelName::ConstSetF32 => KernelElem::F32,
            KernelName::UnaryLogF32 => KernelElem::F32,
            KernelName::UnaryAbsF32 => KernelElem::F32,
            KernelName::UnaryRecipF32 => KernelElem::F32,
            KernelName::UnarySqrF32 => KernelElem::F32,
            KernelName::UnaryGeluF32 => KernelElem::F32,
            KernelName::UnaryGeluErfF32 => KernelElem::F32,
            KernelName::UnaryErfF32 => KernelElem::F32,
            KernelName::UnaryReluF32 => KernelElem::F32,
            KernelName::UnaryTanhF32 => KernelElem::F32,
            KernelName::UnaryFloorF32 => KernelElem::F32,
            KernelName::UnaryCeilF32 => KernelElem::F32,
            KernelName::UnaryRoundF32 => KernelElem::F32,
            KernelName::UnarySignF32 => KernelElem::F32,
            KernelName::UnaryPowF32 => KernelElem::F32,
            KernelName::UnaryEluF32 => KernelElem::F32,
            KernelName::BinaryMaximumF32 => KernelElem::F32,
            KernelName::BinaryMinimumF32 => KernelElem::F32,
            KernelName::BinaryAddF32 => KernelElem::F32,
            KernelName::BinarySubF32 => KernelElem::F32,
            KernelName::BinaryMulF32 => KernelElem::F32,
            KernelName::BinaryDivF32 => KernelElem::F32,
            KernelName::UnaryExpF32 => KernelElem::F32,
            KernelName::UnarySiluF32 => KernelElem::F32,
            KernelName::UnarySqrtF32 => KernelElem::F32,
            KernelName::UnarySinF32 => KernelElem::F32,
            KernelName::UnaryCosF32 => KernelElem::F32,
            KernelName::UnaryNegF32 => KernelElem::F32,
            KernelName::CmpEqF32 => KernelElem::F32,
            KernelName::CmpNeF32 => KernelElem::F32,
            KernelName::CmpLtF32 => KernelElem::F32,
            KernelName::CmpLeF32 => KernelElem::F32,
            KernelName::CmpGtF32 => KernelElem::F32,
            KernelName::CmpGeF32 => KernelElem::F32,
            KernelName::BinaryAddBf16 => KernelElem::Bf16,
            KernelName::BinarySubBf16 => KernelElem::Bf16,
            KernelName::BinaryMulBf16 => KernelElem::Bf16,
            KernelName::BinaryDivBf16 => KernelElem::Bf16,
            KernelName::BinaryMaximumBf16 => KernelElem::Bf16,
            KernelName::BinaryMinimumBf16 => KernelElem::Bf16,
            KernelName::CmpEqBf16 => KernelElem::Bf16,
            KernelName::CmpNeBf16 => KernelElem::Bf16,
            KernelName::CmpLtBf16 => KernelElem::Bf16,
            KernelName::CmpLeBf16 => KernelElem::Bf16,
            KernelName::CmpGtBf16 => KernelElem::Bf16,
            KernelName::CmpGeBf16 => KernelElem::Bf16,
            KernelName::BinaryAddF8e4m3 => KernelElem::F8e4m3,
            KernelName::BinarySubF8e4m3 => KernelElem::F8e4m3,
            KernelName::BinaryMulF8e4m3 => KernelElem::F8e4m3,
            KernelName::BinaryDivF8e4m3 => KernelElem::F8e4m3,
            KernelName::BinaryMaximumF8e4m3 => KernelElem::F8e4m3,
            KernelName::BinaryMinimumF8e4m3 => KernelElem::F8e4m3,
            KernelName::CmpEqF8e4m3 => KernelElem::F8e4m3,
            KernelName::CmpNeF8e4m3 => KernelElem::F8e4m3,
            KernelName::CmpLtF8e4m3 => KernelElem::F8e4m3,
            KernelName::CmpLeF8e4m3 => KernelElem::F8e4m3,
            KernelName::CmpGtF8e4m3 => KernelElem::F8e4m3,
            KernelName::CmpGeF8e4m3 => KernelElem::F8e4m3,
            KernelName::UnaryLogBf16 => KernelElem::Bf16,
            KernelName::UnaryAbsBf16 => KernelElem::Bf16,
            KernelName::UnaryRecipBf16 => KernelElem::Bf16,
            KernelName::UnarySqrBf16 => KernelElem::Bf16,
            KernelName::UnaryGeluBf16 => KernelElem::Bf16,
            KernelName::UnaryGeluErfBf16 => KernelElem::Bf16,
            KernelName::UnaryErfBf16 => KernelElem::Bf16,
            KernelName::UnaryReluBf16 => KernelElem::Bf16,
            KernelName::UnaryTanhBf16 => KernelElem::Bf16,
            KernelName::UnaryFloorBf16 => KernelElem::Bf16,
            KernelName::UnaryCeilBf16 => KernelElem::Bf16,
            KernelName::UnaryRoundBf16 => KernelElem::Bf16,
            KernelName::UnarySignBf16 => KernelElem::Bf16,
            KernelName::UnaryExpBf16 => KernelElem::Bf16,
            KernelName::UnarySiluBf16 => KernelElem::Bf16,
            KernelName::UnarySqrtBf16 => KernelElem::Bf16,
            KernelName::UnarySinBf16 => KernelElem::Bf16,
            KernelName::UnaryCosBf16 => KernelElem::Bf16,
            KernelName::UnaryNegBf16 => KernelElem::Bf16,
            KernelName::UnaryLogF8e4m3 => KernelElem::F8e4m3,
            KernelName::UnaryAbsF8e4m3 => KernelElem::F8e4m3,
            KernelName::UnaryRecipF8e4m3 => KernelElem::F8e4m3,
            KernelName::UnarySqrF8e4m3 => KernelElem::F8e4m3,
            KernelName::UnaryGeluF8e4m3 => KernelElem::F8e4m3,
            KernelName::UnaryGeluErfF8e4m3 => KernelElem::F8e4m3,
            KernelName::UnaryErfF8e4m3 => KernelElem::F8e4m3,
            KernelName::UnaryReluF8e4m3 => KernelElem::F8e4m3,
            KernelName::UnaryTanhF8e4m3 => KernelElem::F8e4m3,
            KernelName::UnaryFloorF8e4m3 => KernelElem::F8e4m3,
            KernelName::UnaryCeilF8e4m3 => KernelElem::F8e4m3,
            KernelName::UnaryRoundF8e4m3 => KernelElem::F8e4m3,
            KernelName::UnarySignF8e4m3 => KernelElem::F8e4m3,
            KernelName::UnaryExpF8e4m3 => KernelElem::F8e4m3,
            KernelName::UnarySiluF8e4m3 => KernelElem::F8e4m3,
            KernelName::UnarySqrtF8e4m3 => KernelElem::F8e4m3,
            KernelName::UnarySinF8e4m3 => KernelElem::F8e4m3,
            KernelName::UnaryCosF8e4m3 => KernelElem::F8e4m3,
            KernelName::UnaryNegF8e4m3 => KernelElem::F8e4m3,
            KernelName::WhereF32 => KernelElem::F32,
            KernelName::WhereBf16 => KernelElem::Bf16,
            KernelName::WhereF8e4m3 => KernelElem::F8e4m3,
            KernelName::AffineBf16 => KernelElem::Bf16,
            KernelName::AffineF8e4m3 => KernelElem::F8e4m3,
            KernelName::UnaryPowBf16 => KernelElem::Bf16,
            KernelName::UnaryEluBf16 => KernelElem::Bf16,
            KernelName::UnaryPowF8e4m3 => KernelElem::F8e4m3,
            KernelName::UnaryEluF8e4m3 => KernelElem::F8e4m3,
            KernelName::AffineF16 => KernelElem::F16,
            KernelName::AffineF64 => KernelElem::F64,
            KernelName::UnaryLogF16 => KernelElem::F16,
            KernelName::UnaryAbsF16 => KernelElem::F16,
            KernelName::UnaryRecipF16 => KernelElem::F16,
            KernelName::UnarySqrF16 => KernelElem::F16,
            KernelName::UnaryGeluF16 => KernelElem::F16,
            KernelName::UnaryGeluErfF16 => KernelElem::F16,
            KernelName::UnaryErfF16 => KernelElem::F16,
            KernelName::UnaryReluF16 => KernelElem::F16,
            KernelName::UnaryTanhF16 => KernelElem::F16,
            KernelName::UnaryFloorF16 => KernelElem::F16,
            KernelName::UnaryCeilF16 => KernelElem::F16,
            KernelName::UnaryRoundF16 => KernelElem::F16,
            KernelName::UnarySignF16 => KernelElem::F16,
            KernelName::UnaryPowF16 => KernelElem::F16,
            KernelName::UnaryEluF16 => KernelElem::F16,
            KernelName::UnaryExpF16 => KernelElem::F16,
            KernelName::UnarySiluF16 => KernelElem::F16,
            KernelName::UnarySqrtF16 => KernelElem::F16,
            KernelName::UnarySinF16 => KernelElem::F16,
            KernelName::UnaryCosF16 => KernelElem::F16,
            KernelName::UnaryNegF16 => KernelElem::F16,
            KernelName::UnaryLogF64 => KernelElem::F64,
            KernelName::UnaryAbsF64 => KernelElem::F64,
            KernelName::UnaryRecipF64 => KernelElem::F64,
            KernelName::UnarySqrF64 => KernelElem::F64,
            KernelName::UnaryGeluF64 => KernelElem::F64,
            KernelName::UnaryGeluErfF64 => KernelElem::F64,
            KernelName::UnaryErfF64 => KernelElem::F64,
            KernelName::UnaryReluF64 => KernelElem::F64,
            KernelName::UnaryTanhF64 => KernelElem::F64,
            KernelName::UnaryFloorF64 => KernelElem::F64,
            KernelName::UnaryCeilF64 => KernelElem::F64,
            KernelName::UnaryRoundF64 => KernelElem::F64,
            KernelName::UnarySignF64 => KernelElem::F64,
            KernelName::UnaryPowF64 => KernelElem::F64,
            KernelName::UnaryEluF64 => KernelElem::F64,
            KernelName::UnaryExpF64 => KernelElem::F64,
            KernelName::UnarySiluF64 => KernelElem::F64,
            KernelName::UnarySqrtF64 => KernelElem::F64,
            KernelName::UnarySinF64 => KernelElem::F64,
            KernelName::UnaryCosF64 => KernelElem::F64,
            KernelName::UnaryNegF64 => KernelElem::F64,
            KernelName::BinaryAddF16 => KernelElem::F16,
            KernelName::BinarySubF16 => KernelElem::F16,
            KernelName::BinaryMulF16 => KernelElem::F16,
            KernelName::BinaryDivF16 => KernelElem::F16,
            KernelName::BinaryMaximumF16 => KernelElem::F16,
            KernelName::BinaryMinimumF16 => KernelElem::F16,
            KernelName::CmpEqF16 => KernelElem::F16,
            KernelName::CmpNeF16 => KernelElem::F16,
            KernelName::CmpLtF16 => KernelElem::F16,
            KernelName::CmpLeF16 => KernelElem::F16,
            KernelName::CmpGtF16 => KernelElem::F16,
            KernelName::CmpGeF16 => KernelElem::F16,
            KernelName::BinaryAddF64 => KernelElem::F64,
            KernelName::BinarySubF64 => KernelElem::F64,
            KernelName::BinaryMulF64 => KernelElem::F64,
            KernelName::BinaryDivF64 => KernelElem::F64,
            KernelName::BinaryMaximumF64 => KernelElem::F64,
            KernelName::BinaryMinimumF64 => KernelElem::F64,
            KernelName::CmpEqF64 => KernelElem::F64,
            KernelName::CmpNeF64 => KernelElem::F64,
            KernelName::CmpLtF64 => KernelElem::F64,
            KernelName::CmpLeF64 => KernelElem::F64,
            KernelName::CmpGtF64 => KernelElem::F64,
            KernelName::CmpGeF64 => KernelElem::F64,
            KernelName::BinaryAddU8 => KernelElem::U8,
            KernelName::BinarySubU8 => KernelElem::U8,
            KernelName::BinaryMulU8 => KernelElem::U8,
            KernelName::BinaryDivU8 => KernelElem::U8,
            KernelName::BinaryMaximumU8 => KernelElem::U8,
            KernelName::BinaryMinimumU8 => KernelElem::U8,
            KernelName::BinaryAddU32 => KernelElem::U32,
            KernelName::BinarySubU32 => KernelElem::U32,
            KernelName::BinaryMulU32 => KernelElem::U32,
            KernelName::BinaryDivU32 => KernelElem::U32,
            KernelName::BinaryMaximumU32 => KernelElem::U32,
            KernelName::BinaryMinimumU32 => KernelElem::U32,
            KernelName::BinaryAddI16 => KernelElem::I16,
            KernelName::BinarySubI16 => KernelElem::I16,
            KernelName::BinaryMulI16 => KernelElem::I16,
            KernelName::BinaryDivI16 => KernelElem::I16,
            KernelName::BinaryMaximumI16 => KernelElem::I16,
            KernelName::BinaryMinimumI16 => KernelElem::I16,
            KernelName::BinaryAddI32 => KernelElem::I32,
            KernelName::BinarySubI32 => KernelElem::I32,
            KernelName::BinaryMulI32 => KernelElem::I32,
            KernelName::BinaryDivI32 => KernelElem::I32,
            KernelName::BinaryMaximumI32 => KernelElem::I32,
            KernelName::BinaryMinimumI32 => KernelElem::I32,
            KernelName::BinaryAddI64 => KernelElem::I64,
            KernelName::BinarySubI64 => KernelElem::I64,
            KernelName::BinaryMulI64 => KernelElem::I64,
            KernelName::BinaryDivI64 => KernelElem::I64,
            KernelName::BinaryMaximumI64 => KernelElem::I64,
            KernelName::BinaryMinimumI64 => KernelElem::I64,
            KernelName::CmpEqU8 => KernelElem::U8,
            KernelName::CmpNeU8 => KernelElem::U8,
            KernelName::CmpLtU8 => KernelElem::U8,
            KernelName::CmpLeU8 => KernelElem::U8,
            KernelName::CmpGtU8 => KernelElem::U8,
            KernelName::CmpGeU8 => KernelElem::U8,
            KernelName::CmpEqU32 => KernelElem::U32,
            KernelName::CmpNeU32 => KernelElem::U32,
            KernelName::CmpLtU32 => KernelElem::U32,
            KernelName::CmpLeU32 => KernelElem::U32,
            KernelName::CmpGtU32 => KernelElem::U32,
            KernelName::CmpGeU32 => KernelElem::U32,
            KernelName::CmpEqI16 => KernelElem::I16,
            KernelName::CmpNeI16 => KernelElem::I16,
            KernelName::CmpLtI16 => KernelElem::I16,
            KernelName::CmpLeI16 => KernelElem::I16,
            KernelName::CmpGtI16 => KernelElem::I16,
            KernelName::CmpGeI16 => KernelElem::I16,
            KernelName::CmpEqI32 => KernelElem::I32,
            KernelName::CmpNeI32 => KernelElem::I32,
            KernelName::CmpLtI32 => KernelElem::I32,
            KernelName::CmpLeI32 => KernelElem::I32,
            KernelName::CmpGtI32 => KernelElem::I32,
            KernelName::CmpGeI32 => KernelElem::I32,
            KernelName::CmpEqI64 => KernelElem::I64,
            KernelName::CmpNeI64 => KernelElem::I64,
            KernelName::CmpLtI64 => KernelElem::I64,
            KernelName::CmpLeI64 => KernelElem::I64,
            KernelName::CmpGtI64 => KernelElem::I64,
            KernelName::CmpGeI64 => KernelElem::I64,
            KernelName::WhereF16 => KernelElem::F16,
            KernelName::WhereF64 => KernelElem::F64,
            KernelName::Copy2dF32 => KernelElem::F32,
            KernelName::Copy2dF16 => KernelElem::F16,
            KernelName::Copy2dF64 => KernelElem::F64,
            KernelName::GatherIdxF32 => KernelElem::F32,
            KernelName::GatherRowsF32 => KernelElem::F32,
            KernelName::IndexSelectF32 => KernelElem::F32,
            KernelName::GatherIdxF16 => KernelElem::F16,
            KernelName::GatherRowsF16 => KernelElem::F16,
            KernelName::IndexSelectF16 => KernelElem::F16,
            KernelName::GatherIdxF64 => KernelElem::F64,
            KernelName::GatherRowsF64 => KernelElem::F64,
            KernelName::IndexSelectF64 => KernelElem::F64,
            KernelName::ReduceMinF32 => KernelElem::F32,
            KernelName::ReduceArgMinF32 => KernelElem::F32,
            KernelName::ReduceArgMaxF32 => KernelElem::F32,
            KernelName::ReduceSumF16 => KernelElem::F16,
            KernelName::ReduceMaxF16 => KernelElem::F16,
            KernelName::ReduceMinF16 => KernelElem::F16,
            KernelName::ReduceArgMinF16 => KernelElem::F16,
            KernelName::ReduceArgMaxF16 => KernelElem::F16,
            KernelName::ReduceSumF64 => KernelElem::F64,
            KernelName::ReduceMaxF64 => KernelElem::F64,
            KernelName::ReduceMinF64 => KernelElem::F64,
            KernelName::ReduceArgMinF64 => KernelElem::F64,
            KernelName::ReduceArgMaxF64 => KernelElem::F64,
            KernelName::AvgPool2dF32 => KernelElem::F32,
            KernelName::MaxPool2dF32 => KernelElem::F32,
            KernelName::UpsampleNearest1dF32 => KernelElem::F32,
            KernelName::UpsampleNearest2dF32 => KernelElem::F32,
            KernelName::UpsampleBilinear2dF32 => KernelElem::F32,
            KernelName::AvgPool2dF16 => KernelElem::F16,
            KernelName::MaxPool2dF16 => KernelElem::F16,
            KernelName::UpsampleNearest1dF16 => KernelElem::F16,
            KernelName::UpsampleNearest2dF16 => KernelElem::F16,
            KernelName::UpsampleBilinear2dF16 => KernelElem::F16,
            KernelName::AvgPool2dF64 => KernelElem::F64,
            KernelName::MaxPool2dF64 => KernelElem::F64,
            KernelName::UpsampleNearest1dF64 => KernelElem::F64,
            KernelName::UpsampleNearest2dF64 => KernelElem::F64,
            KernelName::UpsampleBilinear2dF64 => KernelElem::F64,
            KernelName::Conv1dF32 => KernelElem::F32,
            KernelName::Conv2dF32 => KernelElem::F32,
            KernelName::ConvTranspose1dF32 => KernelElem::F32,
            KernelName::ConvTranspose2dF32 => KernelElem::F32,
            KernelName::Conv1dF16 => KernelElem::F16,
            KernelName::Conv2dF16 => KernelElem::F16,
            KernelName::ConvTranspose1dF16 => KernelElem::F16,
            KernelName::ConvTranspose2dF16 => KernelElem::F16,
            KernelName::Conv1dF64 => KernelElem::F64,
            KernelName::Conv2dF64 => KernelElem::F64,
            KernelName::ConvTranspose1dF64 => KernelElem::F64,
            KernelName::ConvTranspose2dF64 => KernelElem::F64,
            KernelName::ScatterF32 => KernelElem::F32,
            KernelName::ScatterF16 => KernelElem::F16,
            KernelName::ScatterF64 => KernelElem::F64,
            KernelName::TestFillF16 => KernelElem::F16,
            KernelName::TestFillU8 => KernelElem::U8,
            KernelName::TestFillI16 => KernelElem::I16,
            KernelName::TestFillBf16Native => KernelElem::Bf16,
            KernelName::TestFillBf16Emulated => KernelElem::Bf16,
            KernelName::TestFillU32 => KernelElem::U32,
            KernelName::TestFillI32 => KernelElem::I32,
            KernelName::TestFillF32 => KernelElem::F32,
            KernelName::TestFillI64 => KernelElem::I64,
            KernelName::TestFillF64 => KernelElem::F64,
            KernelName::TestFillF4 => KernelElem::F4,
            KernelName::TestFillF6e2m3 => KernelElem::F6e2m3,
            KernelName::TestFillF6e3m2 => KernelElem::F6e3m2,
            KernelName::TestFillF8e4m3 => KernelElem::F8e4m3,
            KernelName::TestFillF8e8m0 => KernelElem::F8e8m0,
        }
    }

    /// Name of the shader entry point that implements this kernel.
    pub fn as_ref(&self) -> (r: &'static str)
        ensures
            r@ == op_entry_point(self.kernel_op()),
    {
        match self {
            KernelName::AffineF32 => "main",
            KernelName::ReduceSumF32 => "main_reduce_sum",
            KernelName::ReduceMaxF32 => "main_reduce_max",
            KernelName::GemmF32 => "main",
            KernelName::GemmF16 => "main",
            KernelName::GemmF64 => "main",
            KernelName::ConstSetF32 => "main",
            KernelName::UnaryLogF32 => "main_log",
            KernelName::UnaryAbsF32 => "main_abs",
            KernelName::UnaryRecipF32 => "main_recip",
            KernelName::UnarySqrF32 => "main_sqr",
            KernelName::UnaryGeluF32 => "main_gelu",
            KernelName::UnaryGeluErfF32 => "main_gelu_erf",
            KernelName::UnaryErfF32 => "main_erf",
            KernelName::UnaryReluF32 => "main_relu",
            KernelName::UnaryTanhF32 => "main_tanh",
            KernelName::UnaryFloorF32 => "main_floor",
            KernelName::UnaryCeilF32 => "main_ceil",
            KernelName::UnaryRoundF32 => "main_round",
            KernelName::UnarySignF32 => "main_sign",
            KernelName::UnaryPowF32 => "main_pow",
            KernelName::UnaryEluF32 => "main_elu",
            KernelName::BinaryMaximumF32 => "main_maximum",
            KernelName::BinaryMinimumF32 => "main_minimum",
            KernelName::BinaryAddF32 => "main_add",
            KernelName::BinarySubF32 => "main_sub",
            KernelName::BinaryMulF32 => "main_mul",
            KernelName::BinaryDivF32 => "main_div",
            KernelName::UnaryExpF32 => "main_exp",
            KernelName::UnarySiluF32 => "main_silu",
            KernelName::UnarySqrtF32 => "main_sqrt",
            KernelName::UnarySinF32 => "main_sin",
            KernelName::UnaryCosF32 => "main_cos",
            KernelName::UnaryNegF32 => "main_neg",
            KernelName::CmpEqF32 => "main_eq",
            KernelName::CmpNeF32 => "main_ne",
            KernelName::CmpLtF32 => "main_lt",
            KernelName::CmpLeF32 => "main_le",
            KernelName::CmpGtF32 => "main_gt",
            KernelName::CmpGeF32 => "main_ge",
            KernelName::BinaryAddBf16 => "main_add",
            KernelName::BinarySubBf16 => "main_sub",
            KernelName::BinaryMulBf16 => "main_mul",
            KernelName::BinaryDivBf16 => "main_div",
            KernelName::BinaryMaximumBf16 => "main_maximum",
            KernelName::BinaryMinimumBf16 => "main_minimum",
            KernelName::CmpEqBf16 => "main_eq",
            KernelName::CmpNeBf16 => "main_ne",
            KernelName::CmpLtBf16 => "main_lt",
            KernelName::CmpLeBf16 => "main_le",
            KernelName::CmpGtBf16 => "main_gt",
            KernelName::CmpGeBf16 => "main_ge",
            KernelName::BinaryAddF8e4m3 => "main_add",
            KernelName::BinarySubF8e4m3 => "main_sub",
            KernelName::BinaryMulF8e4m3 => "main_mul",
            KernelName::BinaryDivF8e4m3 => "main_div",
            KernelName::BinaryMaximumF8e4m3 => "main_maximum",
            KernelName::BinaryMinimumF8e4m3 => "main_minimum",
            KernelName::CmpEqF8e4m3 => "main_eq",
            KernelName::CmpNeF8e4m3 => "main_ne",
            KernelName::CmpLtF8e4m3 => "main_lt",
            KernelName::CmpLeF8e4m3 => "main_le",
            KernelName::CmpGtF8e4m3 => "main_gt",
            KernelName::CmpGeF8e4m3 => "main_ge",
            KernelName::UnaryLogBf16 => "main_log",
            KernelName::UnaryAbsBf16 => "main_abs",
            KernelName::UnaryRecipBf16 => "main_recip",
            KernelName::UnarySqrBf16 => "main_sqr",
            KernelName::UnaryGeluBf16 => "main_gelu",
            KernelName::UnaryGeluErfBf16 => "main_gelu_erf",
            KernelName::UnaryErfBf16 => "main_erf",
            KernelName::UnaryReluBf16 => "main_relu",
            KernelName::UnaryTanhBf16 => "main_tanh",
            KernelName::UnaryFloorBf16 => "main_floor",
            KernelName::UnaryCeilBf16 => "main_ceil",
            KernelName::UnaryRoundBf16 => "main_round",
            KernelName::UnarySignBf16 => "main_sign",
            KernelName::UnaryExpBf16 => "main_exp",
            KernelName::UnarySiluBf16 => "main_silu",
            KernelName::UnarySqrtBf16 => "main_sqrt",
            KernelName::UnarySinBf16 => "main_sin",
            KernelName::UnaryCosBf16 => "main_cos",
            KernelName::UnaryNegBf16 => "main_neg",
            KernelName::UnaryLogF8e4m3 => "main_log",
            KernelName::UnaryAbsF8e4m3 => "main_abs",
            KernelName::UnaryRecipF8e4m3 => "main_recip",
            KernelName::UnarySqrF8e4m3 => "main_sqr",
            KernelName::UnaryGeluF8e4m3 => "main_gelu",
            KernelName::UnaryGeluErfF8e4m3 => "main_gelu_erf",
            KernelName::UnaryErfF8e4m3 => "main_erf",
            KernelName::UnaryReluF8e4m3 => "main_relu",
            KernelName::UnaryTanhF8e4m3 => "main_tanh",
            KernelName::UnaryFloorF8e4m3 => "main_floor",
            KernelName::UnaryCeilF8e4m3 => "main_ceil",
            KernelName::UnaryRoundF8e4m3 => "main_round",
            KernelName::UnarySignF8e4m3 => "main_sign",
            KernelName::UnaryExpF8e4m3 => "main_exp",
            KernelName::UnarySiluF8e4m3 => "main_silu",
            KernelName::UnarySqrtF8e4m3 => "main_sqrt",
            KernelName::UnarySinF8e4m3 => "main_sin",
            KernelName::UnaryCosF8e4m3 => "main_cos",
            KernelName::UnaryNegF8e4m3 => "main_neg",
            KernelName::WhereF32 => "main",
            KernelName::WhereBf16 => "main",
            KernelName::WhereF8e4m3 => "main",
            KernelName::AffineBf16 => "main",
            KernelName::AffineF8e4m3 => "main",
            KernelName::UnaryPowBf16 => "main_pow",
            KernelName::UnaryEluBf16 => "main_elu",
            KernelName::UnaryPowF8e4m3 => "main_pow",
            KernelName::UnaryEluF8e4m3 => "main_elu",
            KernelName::AffineF16 => "main",
            KernelName::AffineF64 => "main",
            KernelName::UnaryLogF16 => "main_log",
            KernelName::UnaryAbsF16 => "main_abs",
            KernelName::UnaryRecipF16 => "main_recip",
            KernelName::UnarySqrF16 => "main_sqr",
            KernelName::UnaryGeluF16 => "main_gelu",
            KernelName::UnaryGeluErfF16 => "main_gelu_erf",
            KernelName::UnaryErfF16 => "main_erf",
            KernelName::UnaryReluF16 => "main_relu",
            KernelName::UnaryTanhF16 => "main_tanh",
            KernelName::UnaryFloorF16 => "main_floor",
            KernelName::UnaryCeilF16 => "main_ceil",
            KernelName::UnaryRoundF16 => "main_round",
            KernelName::UnarySignF16 => "main_sign",
            KernelName::UnaryPowF16 => "main_pow",
            KernelName::UnaryEluF16 => "main_elu",
            KernelName::UnaryExpF16 => "main_exp",
            KernelName::UnarySiluF16 => "main_silu",
            KernelName::UnarySqrtF16 => "main_sqrt",
            KernelName::UnarySinF16 => "main_sin",
            KernelName::UnaryCosF16 => "main_cos",
            KernelName::UnaryNegF16 => "main_neg",
            KernelName::UnaryLogF64 => "main_log",
            KernelName::UnaryAbsF64 => "main_abs",
            KernelName::UnaryRecipF64 => "main_recip",
            KernelName::UnarySqrF64 => "main_sqr",
            KernelName::UnaryGeluF64 => "main_gelu",
            KernelName::UnaryGeluErfF64 => "main_gelu_erf",
            KernelName::UnaryErfF64 => "main_erf",
            KernelName::UnaryReluF64 => "main_relu",
            KernelName::UnaryTanhF64 => "main_tanh",
            KernelName::UnaryFloorF64 => "main_floor",
            KernelName::UnaryCeilF64 => "main_ceil",
            KernelName::UnaryRoundF64 => "main_round",
            KernelName::UnarySignF64 => "main_sign",
            KernelName::UnaryPowF64 => "main_pow",
            KernelName::UnaryEluF64 => "main_elu",
            KernelName::UnaryExpF64 => "main_exp",
            KernelName::UnarySiluF64 => "main_silu",
            KernelName::UnarySqrtF64 => "main_sqrt",
            KernelName::UnarySinF64 => "main_sin",
            KernelName::UnaryCosF64 => "main_cos",
            KernelName::UnaryNegF64 => "main_neg",
            KernelName::BinaryAddF16 => "main_add",
            KernelName::BinarySubF16 => "main_sub",
            KernelName::BinaryMulF16 => "main_mul",
            KernelName::BinaryDivF16 => "main_div",
            KernelName::BinaryMaximumF16 => "main_maximum",
            KernelName::BinaryMinimumF16 => "main_minimum",
            KernelName::CmpEqF16 => "main_eq",
            KernelName::CmpNeF16 => "main_ne",
            KernelName::CmpLtF16 => "main_lt",
            KernelName::CmpLeF16 => "main_le",
            KernelName::CmpGtF16 => "main_gt",
            KernelName::CmpGeF16 => "main_ge",
            KernelName::BinaryAddF64 => "main_add",
            KernelName::BinarySubF64 => "main_sub",
            KernelName::BinaryMulF64 => "main_mul",
            KernelName::BinaryDivF64 => "main_div",
            KernelName::BinaryMaximumF64 => "main_maximum",
            KernelName::BinaryMinimumF64 => "main_minimum",
            KernelName::CmpEqF64 => "main_eq",
            KernelName::CmpNeF64 => "main_ne",
            KernelName::CmpLtF64 => "main_lt",
            KernelName::CmpLeF64 => "main_le",
            KernelName::CmpGtF64 => "main_gt",
            KernelName::CmpGeF64 => "main_ge",
            KernelName::BinaryAddU8 => "main_add",
            KernelName::BinarySubU8 => "main_sub",
            KernelName::BinaryMulU8 => "main_mul",
            KernelName::BinaryDivU8 => "main_div",
            KernelName::BinaryMaximumU8 => "main_maximum",
            KernelName::BinaryMinimumU8 => "main_minimum",
            KernelName::BinaryAddU32 => "main_add",
            KernelName::BinarySubU32 => "main_sub",
            KernelName::BinaryMulU32 => "main_mul",
            KernelName::BinaryDivU32 => "main_div",
            KernelName::BinaryMaximumU32 => "main_maximum",
            KernelName::BinaryMinimumU32 => "main_minimum",
            KernelName::BinaryAddI16 => "main_add",
            KernelName::BinarySubI16 => "main_sub",
            KernelName::BinaryMulI16 => "main_mul",
            KernelName::BinaryDivI16 => "main_div",
            KernelName::BinaryMaximumI16 => "main_maximum",
            KernelName::BinaryMinimumI16 => "main_minimum",
            KernelName::BinaryAddI32 => "main_add",
            KernelName::BinarySubI32 => "main_sub",
            KernelName::BinaryMulI32 => "main_mul",
            KernelName::BinaryDivI32 => "main_div",
            KernelName::BinaryMaximumI32 => "main_maximum",
            KernelName::BinaryMinimumI32 => "main_minimum",
            KernelName::BinaryAddI64 => "main_add",
            KernelName::BinarySubI64 => "main_sub",
            KernelName::BinaryMulI64 => "main_mul",
            KernelName::BinaryDivI64 => "main_div",
            KernelName::BinaryMaximumI64 => "main_maximum",
            KernelName::BinaryMinimumI64 => "main_minimum",
            KernelName::CmpEqU8 => "main_eq",
            KernelName::CmpNeU8 => "main_ne",
            KernelName::CmpLtU8 => "main_lt",
            KernelName::CmpLeU8 => "main_le",
            KernelName::CmpGtU8 => "main_gt",
            KernelName::CmpGeU8 => "main_ge",
            KernelName::CmpEqU32 => "main_eq",
            KernelName::CmpNeU32 => "main_ne",
            KernelName::CmpLtU32 => "main_lt",
            KernelName::CmpLeU32 => "main_le",
            KernelName::CmpGtU32 => "main_gt",
            KernelName::CmpGeU32 => "main_ge",
            KernelName::CmpEqI16 => "main_eq",
            KernelName::CmpNeI16 => "main_ne",
            KernelName::CmpLtI16 => "main_lt",
            KernelName::CmpLeI16 => "main_le",
            KernelName::CmpGtI16 => "main_gt",
            KernelName::CmpGeI16 => "main_ge",
            KernelName::CmpEqI32 => "main_eq",
            KernelName::CmpNeI32 => "main_ne",
            KernelName::CmpLtI32 => "main_lt",
            KernelName::CmpLeI32 => "main_le",
            KernelName::CmpGtI32 => "main_gt",
            KernelName::CmpGeI32 => "main_ge",
            KernelName::CmpEqI64 => "main_eq",
            KernelName::CmpNeI64 => "main_ne",
            KernelName::CmpLtI64 => "main_lt",
            KernelName::CmpLeI64 => "main_le",
            KernelName::CmpGtI64 => "main_gt",
            KernelName::CmpGeI64 => "main_ge",
            KernelName::WhereF16 => "main",
            KernelName::WhereF64 => "main",
            KernelName::Copy2dF32 => "main",
            KernelName::Copy2dF16 => "main",
            KernelName::Copy2dF64 => "main",
            KernelName::GatherIdxF32 => "main",
            KernelName::GatherRowsF32 => "main_gather_rows",
            KernelName::IndexSelectF32 => "main_index_select",
            KernelName::GatherIdxF16 => "main",
            KernelName::GatherRowsF16 => "main_gather_rows",
            KernelName::IndexSelectF16 => "main_index_select",
            KernelName::GatherIdxF64 => "main",
            KernelName::GatherRowsF64 => "main_gather_rows",
            KernelName::IndexSelectF64 => "main_index_select",
            KernelName::ReduceMinF32 => "main_reduce_min",
            KernelName::ReduceArgMinF32 => "main_reduce_argmin",
            KernelName::ReduceArgMaxF32 => "main_reduce_argmax",
            KernelName::ReduceSumF16 => "main_reduce_sum",
            KernelName::ReduceMaxF16 => "main_reduce_max",
            KernelName::ReduceMinF16 => "main_reduce_min",
            KernelName::ReduceArgMinF16 => "main_reduce_argmin",
            KernelName::ReduceArgMaxF16 => "main_reduce_argmax",
            KernelName::ReduceSumF64 => "main_reduce_sum",
            KernelName::ReduceMaxF64 => "main_reduce_max",
            KernelName::ReduceMinF64 => "main_reduce_min",
            KernelName::ReduceArgMinF64 => "main_reduce_argmin",
            KernelName::ReduceArgMaxF64 => "main_reduce_argmax",
            KernelName::AvgPool2dF32 => "main_avg_pool2d",
            KernelName::MaxPool2dF32 => "main_max_pool2d",
            KernelName::UpsampleNearest1dF32 => "main_upsample_nearest1d",
            KernelName::UpsampleNearest2dF32 => "main_upsample_nearest2d",
            KernelName::UpsampleBilinear2dF32 => "main_upsample_bilinear2d",
            KernelName::AvgPool2dF16 => "main_avg_pool2d",
            KernelName::MaxPool2dF16 => "main_max_pool2d",
            KernelName::UpsampleNearest1dF16 => "main_upsample_nearest1d",
            KernelName::UpsampleNearest2dF16 => "main_upsample_nearest2d",
            KernelName::UpsampleBilinear2dF16 => "main_upsample_bilinear2d",
            KernelName::AvgPool2dF64 => "main_avg_pool2d",
            KernelName::MaxPool2dF64 => "main_max_pool2d",
            KernelName::UpsampleNearest1dF64 => "main_upsample_nearest1d",
            KernelName::UpsampleNearest2dF64 => "main_upsample_nearest2d",
            KernelName::UpsampleBilinear2dF64 => "main_upsample_bilinear2d",
            KernelName::Conv1dF32 => "main_conv1d",
            KernelName::Conv2dF32 => "main_conv2d",
            KernelName::ConvTranspose1dF32 => "main_conv_transpose1d",
            KernelName::ConvTranspose2dF32 => "main_conv_transpose2d",
            KernelName::Conv1dF16 => "main_conv1d",
            KernelName::Conv2dF16 => "main_conv2d",
            KernelName::ConvTranspose1dF16 => "main_conv_transpose1d",
            KernelName::ConvTranspose2dF16 => "main_conv_transpose2d",
            KernelName::Conv1dF64 => "main_conv1d",
            KernelName::Conv2dF64 => "main_conv2d",
            KernelName::ConvTranspose1dF64 => "main_conv_transpose1d",
            KernelName::ConvTranspose2dF64 => "main_conv_transpose2d",
            KernelName::ScatterF32 => "main",
            KernelName::ScatterF16 => "main",
            KernelName::ScatterF64 => "main",
            KernelName::TestFillF16 => "main",
            KernelName::TestFillU8 => "main",
            KernelName::TestFillI16 => "main",
            KernelName::TestFillBf16Native => "main",
            KernelName::TestFillBf16Emulated => "main",
            KernelName::TestFillU32 => "main",
            KernelName::TestFillI32 => "main",
            KernelName::TestFillF32 => "main",
            KernelName::TestFillI64 => "main",
            KernelName::TestFillF64 => "main",
            KernelName::TestFillF4 => "main",
            KernelName::TestFillF6e2m3 => "main",
            KernelName::TestFillF6e3m2 => "main",
            KernelName::TestFillF8e4m3 => "main",
            KernelName::TestFillF8e8m0 => "main",
        }
    }
}

/// Entry point of the shader function that implements `op`: all element
/// types of one operation share it.
pub open spec fn op_entry_point(op: KernelOp) -> Seq<char> {
    match op {
        KernelOp::Affine => "main"@,
        KernelOp::ReduceSum => "main_reduce_sum"@,
        KernelOp::ReduceMax => "main_reduce_max"@,
        KernelOp::Gemm => "main"@,
        KernelOp::ConstSet => "main"@,
        KernelOp::UnaryLog => "main_log"@,
        KernelOp::UnaryAbs => "main_abs"@,
        KernelOp::UnaryRecip => "main_recip"@,
        KernelOp::UnarySqr => "main_sqr"@,
        KernelOp::UnaryGelu => "main_gelu"@,
        KernelOp::UnaryGeluErf => "main_gelu_erf"@,
        KernelOp::UnaryErf => "main_erf"@,
        KernelOp::UnaryRelu => "main_relu"@,
        KernelOp::UnaryTanh => "main_tanh"@,
        KernelOp::UnaryFloor => "main_floor"@,
        KernelOp::UnaryCeil => "main_ceil"@,
        KernelOp::UnaryRound => "main_round"@,
        KernelOp::UnarySign => "main_sign"@,
        KernelOp::UnaryPow => "main_pow"@,
        KernelOp::UnaryElu => "main_elu"@,
        KernelOp::BinaryMaximum => "main_maximum"@,
        KernelOp::BinaryMinimum => "main_minimum"@,
        KernelOp::BinaryAdd => "main_add"@,
        KernelOp::BinarySub => "main_sub"@,
        KernelOp::BinaryMul => "main_mul"@,
        KernelOp::BinaryDiv => "main_div"@,
        KernelOp::UnaryExp => "main_exp"@,
        KernelOp::UnarySilu => "main_silu"@,
        KernelOp::UnarySqrt => "main_sqrt"@,
        KernelOp::UnarySin => "main_sin"@,
        KernelOp::UnaryCos => "main_cos"@,
        KernelOp::UnaryNeg => "main_neg"@,
        KernelOp::CmpEq => "main_eq"@,
        KernelOp::CmpNe => "main_ne"@,
        KernelOp::CmpLt => "main_lt"@,
        KernelOp::CmpLe => "main_le"@,
        KernelOp::CmpGt => "main_gt"@,
        KernelOp::CmpGe => "main_ge"@,
        KernelOp::Where => "main"@,
        KernelOp::Copy2d => "main"@,
        KernelOp::GatherIdx => "main"@,
        KernelOp::GatherRows => "main_gather_rows"@,
        KernelOp::IndexSelect => "main_index_select"@,
        KernelOp::ReduceMin => "main_reduce_min"@,
        KernelOp::ReduceArgMin => "main_reduce_argmin"@,
        KernelOp::ReduceArgMax => "main_reduce_argmax"@,
        KernelOp::AvgPool2d => "main_avg_pool2d"@,
        KernelOp::MaxPool2d => "main_max_pool2d"@,
        KernelOp::UpsampleNearest1d => "main_upsample_nearest1d"@,
        KernelOp::UpsampleNearest2d => "main_upsample_nearest2d"@,
        KernelOp::UpsampleBilinear2d => "main_upsample_bilinear2d"@,
        KernelOp::Conv1d => "main_conv1d"@,
        KernelOp::Conv2d => "main_conv2d"@,
        KernelOp::ConvTranspose1d => "main_conv_transpose1d"@,
        KernelOp::ConvTranspose2d => "main_conv_transpose2d"@,
        KernelOp::Scatter => "main"@,
        KernelOp::TestFill => "main"@,
        KernelOp::TestFillEmulated => "main"@,
    }
}

/// Number of storage-buffer bindings of the descriptor set that the
/// kernels of `op` are dispatched with.
pub open spec fn op_bindings(op: KernelOp) -> u32 {
    match op {
        KernelOp::TestFill | KernelOp::TestFillEmulated => 1,
        KernelOp::Affine | KernelOp::ConstSet | KernelOp::UnaryLog | KernelOp::UnaryAbs | KernelOp::UnaryRecip | KernelOp::UnarySqr | KernelOp::UnaryGelu | KernelOp::UnaryGeluErf | KernelOp::UnaryErf | KernelOp::UnaryRelu | KernelOp::UnaryTanh | KernelOp::UnaryFloor | KernelOp::UnaryCeil | KernelOp::UnaryRound | KernelOp::UnarySign | KernelOp::UnaryPow | KernelOp::UnaryElu | KernelOp::UnaryExp | KernelOp::UnarySilu | KernelOp::UnarySqrt | KernelOp::UnarySin | KernelOp::UnaryCos | KernelOp::UnaryNeg | KernelOp::Copy2d => 3,
        KernelOp::ReduceSum | KernelOp::ReduceMax | KernelOp::Gemm | KernelOp::BinaryMaximum | KernelOp::BinaryMinimum | KernelOp::BinaryAdd | KernelOp::BinarySub | KernelOp::BinaryMul | KernelOp::BinaryDiv | KernelOp::CmpEq | KernelOp::CmpNe | KernelOp::CmpLt | KernelOp::CmpLe | KernelOp::CmpGt | KernelOp::CmpGe | KernelOp::GatherIdx | KernelOp::GatherRows | KernelOp::IndexSelect | KernelOp::ReduceMin | KernelOp::ReduceArgMin | KernelOp::ReduceArgMax | KernelOp::AvgPool2d | KernelOp::MaxPool2d | KernelOp::UpsampleNearest1d | KernelOp::UpsampleNearest2d | KernelOp::UpsampleBilinear2d | KernelOp::Conv1d | KernelOp::Conv2d | KernelOp::ConvTranspose1d | KernelOp::ConvTranspose2d | KernelOp::Scatter => 4,
        KernelOp::Where => 5,
    }
}

/// Number of storage-buffer bindings in the kernel's descriptor set. The
/// element-wise modules are shared by all their entry points, so the
/// unary and affine kernels see input/output/params at bindings 0/1/2 and
/// need a 3-binding layout; the binary and comparison kernels add the rhs;
/// the other kernels use their inputs and output at bindings 0..N-1.
pub fn descriptor_bindings(name: KernelName) -> (r: u32)
    ensures
        r == op_bindings(name.kernel_op()),
{
    match name {
        KernelName::TestFillF16
        | KernelName::TestFillU8
        | KernelName::TestFillI16
        | KernelName::TestFillBf16Native
        | KernelName::TestFillBf16Emulated
        | KernelName::TestFillU32
        | KernelName::TestFillI32
        | KernelName::TestFillF32
        | KernelName::TestFillI64
        | KernelName::TestFillF64
        | KernelName::TestFillF4
        | KernelName::TestFillF6e2m3
        | KernelName::TestFillF6e3m2
        | KernelName::TestFillF8e4m3
        | KernelName::TestFillF8e8m0 => 1,
        KernelName::AffineF32
        | KernelName::ConstSetF32
        | KernelName::UnaryLogF32
        | KernelName::UnaryAbsF32
        | KernelName::UnaryRecipF32
        | KernelName::UnarySqrF32
        | KernelName::UnaryGeluF32
        | KernelName::UnaryGeluErfF32
        | KernelName::UnaryErfF32
        | KernelName::UnaryReluF32
        | KernelName::UnaryTanhF32
        | KernelName::UnaryFloorF32
        | KernelName::UnaryCeilF32
        | KernelName::UnaryRoundF32
        | KernelName::UnarySignF32
        | KernelName::UnaryPowF32
        | KernelName::UnaryEluF32
        | KernelName::UnaryExpF32
        | KernelName::UnarySiluF32
        | KernelName::UnarySqrtF32
        | KernelName::UnarySinF32
        | KernelName::UnaryCosF32
        | KernelName::UnaryNegF32
        | KernelName::UnaryLogBf16
        | KernelName::UnaryAbsBf16
        | KernelName::UnaryRecipBf16
        | KernelName::UnarySqrBf16
        | KernelName::UnaryGeluBf16
        | KernelName::UnaryGeluErfBf16
        | KernelName::UnaryErfBf16
        | KernelName::UnaryReluBf16
        | KernelName::UnaryTanhBf16
        | KernelName::UnaryFloorBf16
        | KernelName::UnaryCeilBf16
        | KernelName::UnaryRoundBf16
        | KernelName::UnarySignBf16
        | KernelName::UnaryExpBf16
        | KernelName::UnarySiluBf16
        | KernelName::UnarySqrtBf16
        | KernelName::UnarySinBf16
        | KernelName::UnaryCosBf16
        | KernelName::UnaryNegBf16
        | KernelName::UnaryLogF8e4m3
        | KernelName::UnaryAbsF8e4m3
        | KernelName::UnaryRecipF8e4m3
        | KernelName::UnarySqrF8e4m3
        | KernelName::UnaryGeluF8e4m3
        | KernelName::UnaryGeluErfF8e4m3
        | KernelName::UnaryErfF8e4m3
        | KernelName::UnaryReluF8e4m3
        | KernelName::UnaryTanhF8e4m3
        | KernelName::UnaryFloorF8e4m3
        | KernelName::UnaryCeilF8e4m3
        | KernelName::UnaryRoundF8e4m3
        | KernelName::UnarySignF8e4m3
        | KernelName::UnaryExpF8e4m3
        | KernelName::UnarySiluF8e4m3
        | KernelName::UnarySqrtF8e4m3
        | KernelName::UnarySinF8e4m3
        | KernelName::UnaryCosF8e4m3
        | KernelName::UnaryNegF8e4m3
        | KernelName::AffineBf16
        | KernelName::AffineF8e4m3
        | KernelName::UnaryPowBf16
        | KernelName::UnaryEluBf16
        | KernelName::UnaryPowF8e4m3
        | KernelName::UnaryEluF8e4m3
        | KernelName::AffineF16
        | KernelName::AffineF64
        | KernelName::UnaryLogF16
        | KernelName::UnaryAbsF16
        | KernelName::UnaryRecipF16
        | KernelName::UnarySqrF16
        | KernelName::UnaryGeluF16
        | KernelName::UnaryGeluErfF16
        | KernelName::UnaryErfF16
        | KernelName::UnaryReluF16
        | KernelName::UnaryTanhF16
        | KernelName::UnaryFloorF16
        | KernelName::UnaryCeilF16
        | KernelName::UnaryRoundF16
        | KernelName::UnarySignF16
        | KernelName::UnaryPowF16
        | KernelName::UnaryEluF16
        | KernelName::UnaryExpF16
        | KernelName::UnarySiluF16
        | KernelName::UnarySqrtF16
        | KernelName::UnarySinF16
        | KernelName::UnaryCosF16
        | KernelName::UnaryNegF16
        | KernelName::UnaryLogF64
        | KernelName::UnaryAbsF64
        | KernelName::UnaryRecipF64
        | KernelName::UnarySqrF64
        | KernelName::UnaryGeluF64
        | KernelName::UnaryGeluErfF64
        | KernelName::UnaryErfF64
        | KernelName::UnaryReluF64
        | KernelName::UnaryTanhF64
        | KernelName::UnaryFloorF64
        | KernelName::UnaryCeilF64
        | KernelName::UnaryRoundF64
        | KernelName::UnarySignF64
        | KernelName::UnaryPowF64
        | KernelName::UnaryEluF64
        | KernelName::UnaryExpF64
        | KernelName::UnarySiluF64
        | KernelName::UnarySqrtF64
        | KernelName::UnarySinF64
        | KernelName::UnaryCosF64
        | KernelName::UnaryNegF64
        | KernelName::Copy2dF32
        | KernelName::Copy2dF16
        | KernelName::Copy2dF64 => 3,
        KernelName::ReduceSumF32
        | KernelName::ReduceMaxF32
        | KernelName::GemmF32
        | KernelName::GemmF16
        | KernelName::GemmF64
        | KernelName::BinaryMaximumF32
        | KernelName::BinaryMinimumF32
        | KernelName::BinaryAddF32
        | KernelName::BinarySubF32
        | KernelName::BinaryMulF32
        | KernelName::BinaryDivF32
        | KernelName::CmpEqF32
        | KernelName::CmpNeF32
        | KernelName::CmpLtF32
        | KernelName::CmpLeF32
        | KernelName::CmpGtF32
        | KernelName::CmpGeF32
        | KernelName::BinaryAddBf16
        | KernelName::BinarySubBf16
        | KernelName::BinaryMulBf16
        | KernelName::BinaryDivBf16
        | KernelName::BinaryMaximumBf16
        | KernelName::BinaryMinimumBf16
        | KernelName::CmpEqBf16
        | KernelName::CmpNeBf16
        | KernelName::CmpLtBf16
        | KernelName::CmpLeBf16
        | KernelName::CmpGtBf16
        | KernelName::CmpGeBf16
        | KernelName::BinaryAddF8e4m3
        | KernelName::BinarySubF8e4m3
        | KernelName::BinaryMulF8e4m3
        | KernelName::BinaryDivF8e4m3
        | KernelName::BinaryMaximumF8e4m3
        | KernelName::BinaryMinimumF8e4m3
        | KernelName::CmpEqF8e4m3
        | KernelName::CmpNeF8e4m3
        | KernelName::CmpLtF8e4m3
        | KernelName::CmpLeF8e4m3
        | KernelName::CmpGtF8e4m3
        | KernelName::CmpGeF8e4m3
        | KernelName::BinaryAddF16
        | KernelName::BinarySubF16
        | KernelName::BinaryMulF16
        | KernelName::BinaryDivF16
        | KernelName::BinaryMaximumF16
        | KernelName::BinaryMinimumF16
        | KernelName::CmpEqF16
        | KernelName::CmpNeF16
        | KernelName::CmpLtF16
        | KernelName::CmpLeF16
        | KernelName::CmpGtF16
        | KernelName::CmpGeF16
        | KernelName::BinaryAddF64
        | KernelName::BinarySubF64
        | KernelName::BinaryMulF64
        | KernelName::BinaryDivF64
        | KernelName::BinaryMaximumF64
        | KernelName::BinaryMinimumF64
        | KernelName::CmpEqF64
        | KernelName::CmpNeF64
        | KernelName::CmpLtF64
        | KernelName::CmpLeF64
        | KernelName::CmpGtF64
        | KernelName::CmpGeF64
        | KernelName::BinaryAddU8
        | KernelName::BinarySubU8
        | KernelName::BinaryMulU8
        | KernelName::BinaryDivU8
        | KernelName::BinaryMaximumU8
        | KernelName::BinaryMinimumU8
        | KernelName::BinaryAddU32
        | KernelName::BinarySubU32
        | KernelName::BinaryMulU32
        | KernelName::BinaryDivU32
        | KernelName::BinaryMaximumU32
        | KernelName::BinaryMinimumU32
        | KernelName::BinaryAddI16
        | KernelName::BinarySubI16
        | KernelName::BinaryMulI16
        | KernelName::BinaryDivI16
        | KernelName::BinaryMaximumI16
        | KernelName::BinaryMinimumI16
        | KernelName::BinaryAddI32
        | KernelName::BinarySubI32
        | KernelName::BinaryMulI32
        | KernelName::BinaryDivI32
        | KernelName::BinaryMaximumI32
        | KernelName::BinaryMinimumI32
        | KernelName::BinaryAddI64
        | KernelName::BinarySubI64
        | KernelName::BinaryMulI64
        | KernelName::BinaryDivI64
        | KernelName::BinaryMaximumI64
        | KernelName::BinaryMinimumI64
        | KernelName::CmpEqU8
        | KernelName::CmpNeU8
        | KernelName::CmpLtU8
        | KernelName::CmpLeU8
        | KernelName::CmpGtU8
        | KernelName::CmpGeU8
        | KernelName::CmpEqU32
        | KernelName::CmpNeU32
        | KernelName::CmpLtU32
        | KernelName::CmpLeU32
        | KernelName::CmpGtU32
        | KernelName::CmpGeU32
        | KernelName::CmpEqI16
        | KernelName::CmpNeI16
        | KernelName::CmpLtI16
        | KernelName::CmpLeI16
        | KernelName::CmpGtI16
        | KernelName::CmpGeI16
        | KernelName::CmpEqI32
        | KernelName::CmpNeI32
        | KernelName::CmpLtI32
        | KernelName::CmpLeI32
        | KernelName::CmpGtI32
        | KernelName::CmpGeI32
        | KernelName::CmpEqI64
        | KernelName::CmpNeI64
        | KernelName::CmpLtI64
        | KernelName::CmpLeI64
        | KernelName::CmpGtI64
        | KernelName::CmpGeI64
        | KernelName::GatherIdxF32
        | KernelName::GatherRowsF32
        | KernelName::IndexSelectF32
        | KernelName::GatherIdxF16
        | KernelName::GatherRowsF16
        | KernelName::IndexSelectF16
        | KernelName::GatherIdxF64
        | KernelName::GatherRowsF64
        | KernelName::IndexSelectF64
        | KernelName::ReduceMinF32
        | KernelName::ReduceArgMinF32
        | KernelName::ReduceArgMaxF32
        | KernelName::ReduceSumF16
        | KernelName::ReduceMaxF16
        | KernelName::ReduceMinF16
        | KernelName::ReduceArgMinF16
        | KernelName::ReduceArgMaxF16
        | KernelName::ReduceSumF64
        | KernelName::ReduceMaxF64
        | KernelName::ReduceMinF64
        | KernelName::ReduceArgMinF64
        | KernelName::ReduceArgMaxF64
        | KernelName::AvgPool2dF32
        | KernelName::MaxPool2dF32
        | KernelName::UpsampleNearest1dF32
        | KernelName::UpsampleNearest2dF32
        | KernelName::UpsampleBilinear2dF32
        | KernelName::AvgPool2dF16
        | KernelName::MaxPool2dF16
        | KernelName::UpsampleNearest1dF16
        | KernelName::UpsampleNearest2dF16
        | KernelName::UpsampleBilinear2dF16
        | KernelName::AvgPool2dF64
        | KernelName::MaxPool2dF64
        | KernelName::UpsampleNearest1dF64
        | KernelName::UpsampleNearest2dF64
        | KernelName::UpsampleBilinear2dF64
        | KernelName::Conv1dF32
        | KernelName::Conv2dF32
        | KernelName::ConvTranspose1dF32
        | KernelName::ConvTranspose2dF32
        | KernelName::Conv1dF16
        | KernelName::Conv2dF16
        | KernelName::ConvTranspose1dF16
        | KernelName::ConvTranspose2dF16
        | KernelName::Conv1dF64
        | KernelName::Conv2dF64
        | KernelName::ConvTranspose1dF64
        | KernelName::ConvTranspose2dF64
        | KernelName::ScatterF32
        | KernelName::ScatterF16
        | KernelName::ScatterF64 => 4,
        KernelName::WhereF32
        | KernelName::WhereBf16
        | KernelName::WhereF8e4m3
        | KernelName::WhereF16
        | KernelName::WhereF64 => 5,
    }
}

/// Operations whose entry points live in one shader module (for one
/// element type); `Own` for an operation that has a module to itself.
pub enum OpFamily {
    Unary,
    Binary,
    Cmp,
    Reduce,
    Gather,
    Pool,
    Upsample,
    Conv,
    Own,
}

/// The module family of `op`.
pub open spec fn op_family(op: KernelOp) -> OpFamily {
    match op {
        KernelOp::Affine | KernelOp::Gemm | KernelOp::ConstSet | KernelOp::Where | KernelOp::Copy2d | KernelOp::Scatter | KernelOp::TestFill | KernelOp::TestFillEmulated => OpFamily::Own,
        KernelOp::ReduceSum | KernelOp::ReduceMax | KernelOp::ReduceMin | KernelOp::ReduceArgMin | KernelOp::ReduceArgMax => OpFamily::Reduce,
        KernelOp::UnaryLog | KernelOp::UnaryAbs | KernelOp::UnaryRecip | KernelOp::UnarySqr | KernelOp::UnaryGelu | KernelOp::UnaryGeluErf | KernelOp::UnaryErf | KernelOp::UnaryRelu | KernelOp::UnaryTanh | KernelOp::UnaryFloor | KernelOp::UnaryCeil | KernelOp::UnaryRound | KernelOp::UnarySign | KernelOp::UnaryPow | KernelOp::UnaryElu | KernelOp::UnaryExp | KernelOp::UnarySilu | KernelOp::UnarySqrt | KernelOp::UnarySin | KernelOp::UnaryCos | KernelOp::UnaryNeg => OpFamily::Unary,
        KernelOp::BinaryMaximum | KernelOp::BinaryMinimum | KernelOp::BinaryAdd | KernelOp::BinarySub | KernelOp::BinaryMul | KernelOp::BinaryDiv => OpFamily::Binary,
        KernelOp::CmpEq | KernelOp::CmpNe | KernelOp::CmpLt | KernelOp::CmpLe | KernelOp::CmpGt | KernelOp::CmpGe => OpFamily::Cmp,
        KernelOp::GatherIdx | KernelOp::GatherRows | KernelOp::IndexSelect => OpFamily::Gather,
        KernelOp::AvgPool2d | KernelOp::MaxPool2d => OpFamily::Pool,
        KernelOp::UpsampleNearest1d | KernelOp::UpsampleNearest2d | KernelOp::UpsampleBilinear2d => OpFamily::Upsample,
        KernelOp::Conv1d | KernelOp::Conv2d | KernelOp::ConvTranspose1d | KernelOp::ConvTranspose2d => OpFamily::Conv,
    }
}

/// The operation of a family whose entry point is `l`, read off the entry
/// point's length and characters.
pub open spec fn op_of_entry(l: Seq<char>) -> KernelOp {
    if l.len() == 8 {
        if l[5] == 'e' {
            if l[6] == 'l' {
                KernelOp::UnaryElu
            } else {
                if l[6] == 'r' {
                    KernelOp::UnaryErf
                } else {
                    KernelOp::UnaryExp
                }
            }
        } else {
            if l[5] == 's' {
                if l[6] == 'i' {
                    KernelOp::UnarySin
                } else {
                    if l[6] == 'q' {
                        KernelOp::UnarySqr
                    } else {
                        KernelOp::BinarySub
                    }
                }
            } else {
                if l[6] == 'o' {
                    if l[5] == 'c' {
                        KernelOp::UnaryCos
                    } else {
                        if l[5] == 'l' {
                            KernelOp::UnaryLog
                        } else {
                            KernelOp::UnaryPow
                        }
                    }
                } else {
                    if l[5] == 'a' {
                        if l[6] == 'b' {
                            KernelOp::UnaryAbs
                        } else {
                            KernelOp::BinaryAdd
                        }
                    } else {
                        if l[5] == 'd' {
                            KernelOp::BinaryDiv
                        } else {
                            if l[5] == 'm' {
                                KernelOp::BinaryMul
                            } else {
                                KernelOp::UnaryNeg
                            }
                        }
                    }
                }
            }
        }
    } else {
        if l.len() == 9 {
            if l[5] == 's' {
                if l[6] == 'i' {
                    if l[7] == 'g' {
                        KernelOp::UnarySign
                    } else {
                        KernelOp::UnarySilu
                    }
                } else {
                    KernelOp::UnarySqrt
                }
            } else {
                if l[7] == 'l' {
                    if l[5] == 'g' {
                        KernelOp::UnaryGelu
                    } else {
                        KernelOp::UnaryRelu
                    }
                } else {
                    if l[5] == 'c' {
                        KernelOp::UnaryCeil
                    } else {
                        KernelOp::UnaryTanh
                    }
                }
            }
        } else {
            if l.len() == 7 {
                if l[6] == 'e' {
                    if l[5] == 'g' {
                        KernelOp::CmpGe
                    } else {
                        if l[5] == 'l' {
                            KernelOp::CmpLe
                        } else {
                            KernelOp::CmpNe
                        }
                    }
                } else {
                    if l[5] == 'e' {
                        KernelOp::CmpEq
                    } else {
                        if l[5] == 'g' {
                            KernelOp::CmpGt
                        } else {
                            KernelOp::CmpLt
                        }
                    }
                }
            } else {
                if l.len() == 15 {
                    if l[5] == 'r' {
                        if l[12] == 'm' {
                            if l[13] == 'a' {
                                KernelOp::ReduceMax
                            } else {
                                KernelOp::ReduceMin
                            }
                        } else {
                            KernelOp::ReduceSum
                        }
                    } else {
                        if l[5] == 'a' {
                            KernelOp::AvgPool2d
                        } else {
                            KernelOp::MaxPool2d
                        }
                    }
                } else {
                    if l.len() == 10 {
                        if l[5] == 'f' {
                            KernelOp::UnaryFloor
                        } else {
                            if l[6] == 'e' {
                                KernelOp::UnaryRecip
                            } else {
                                KernelOp::UnaryRound
                            }
                        }
                    } else {
                        if l.len() == 11 {
                            if l[9] == '1' {
                                KernelOp::Conv1d
                            } else {
                                KernelOp::Conv2d
                            }
                        } else {
                            if l.len() == 12 {
                                if l[6] == 'a' {
                                    KernelOp::BinaryMaximum
                                } else {
                                    KernelOp::BinaryMinimum
                                }
                            } else {
                                if l.len() == 18 {
                                    if l[16] == 'a' {
                                        KernelOp::ReduceArgMax
                                    } else {
                                        KernelOp::ReduceArgMin
                                    }
                                } else {
                                    if l.len() == 21 {
                                        if l[19] == '1' {
                                            KernelOp::ConvTranspose1d
                                        } else {
                                            KernelOp::ConvTranspose2d
                                        }
                                    } else {
                                        if l.len() == 23 {
                                            if l[21] == '1' {
                                                KernelOp::UpsampleNearest1d
                                            } else {
                                                KernelOp::UpsampleNearest2d
                                            }
                                        } else {
                                            if l.len() == 4 {
                                                KernelOp::GatherIdx
                                            } else {
                                                if l[5] == 'g' {
                                                    if l.len() == 13 {
                                                        KernelOp::UnaryGeluErf
                                                    } else {
                                                        KernelOp::GatherRows
                                                    }
                                                } else {
                                                    if l.len() == 17 {
                                                        KernelOp::IndexSelect
                                                    } else {
                                                        KernelOp::UpsampleBilinear2d
                                                    }
                                                }
                                            }
                                        }
                                    }
                                }
                            }
                        }
                    }
                }
            }
        }
    }
}

/// Every entry point starts with `main`; within a family it names the
/// operation, and an operation with a module of its own uses `main`.
pub proof fn lemma_entry_point_names_op(op: KernelOp)
    ensures
        op_entry_point(op).len() >= 4,
        op_entry_point(op).subrange(0, 4) == "main"@,
        op_family(op) != OpFamily::Own ==> op_of_entry(op_entry_point(op)) == op,
        op_family(op) == OpFamily::Own ==> op_entry_point(op) == "main"@,
{
    reveal_strlit("main");
    match op {
        KernelOp::Affine => {
            reveal_strlit("main");
        },
        KernelOp::ReduceSum => {
            reveal_strlit("main_reduce_sum");
        },
        KernelOp::ReduceMax => {
            reveal_strlit("main_reduce_max");
        },
        KernelOp::Gemm => {
            reveal_strlit("main");
        },
        KernelOp::ConstSet => {
            reveal_strlit("main");
        },
        KernelOp::UnaryLog => {
            reveal_strlit("main_log");
        },
        KernelOp::UnaryAbs => {
            reveal_strlit("main_abs");
        },
        KernelOp::UnaryRecip => {
            reveal_strlit("main_recip");
        },
        KernelOp::UnarySqr => {
            reveal_strlit("main_sqr");
        },
        KernelOp::UnaryGelu => {
            reveal_strlit("main_gelu");
        },
        KernelOp::UnaryGeluErf => {
            reveal_strlit("main_gelu_erf");
        },
        KernelOp::UnaryErf => {
            reveal_strlit("main_erf");
        },
        KernelOp::UnaryRelu => {
            reveal_strlit("main_relu");
        },
        KernelOp::UnaryTanh => {
            reveal_strlit("main_tanh");
        },
        KernelOp::UnaryFloor => {
            reveal_strlit("main_floor");
        },
        KernelOp::UnaryCeil => {
            reveal_strlit("main_ceil");
        },
        KernelOp::UnaryRound => {
            reveal_strlit("main_round");
        },
        KernelOp::UnarySign => {
            reveal_strlit("main_sign");
        },
        KernelOp::UnaryPow => {
            reveal_strlit("main_pow");
        },
        KernelOp::UnaryElu => {
            reveal_strlit("main_elu");
        },
        KernelOp::BinaryMaximum => {
            reveal_strlit("main_maximum");
        },
        KernelOp::BinaryMinimum => {
            reveal_strlit("main_minimum");
        },
        KernelOp::BinaryAdd => {
            reveal_strlit("main_add");
        },
        KernelOp::BinarySub => {
            reveal_strlit("main_sub");
        },
        KernelOp::BinaryMul => {
            reveal_strlit("main_mul");
        },
        KernelOp::BinaryDiv => {
            reveal_strlit("main_div");
        },
        KernelOp::UnaryExp => {
            reveal_strlit("main_exp");
        },
        KernelOp::UnarySilu => {
            reveal_strlit("main_silu");
        },
        KernelOp::UnarySqrt => {
            reveal_strlit("main_sqrt");
        },
        KernelOp::UnarySin => {
            reveal_strlit("main_sin");
        },
        KernelOp::UnaryCos => {
            reveal_strlit("main_cos");
        },
        KernelOp::UnaryNeg => {
            reveal_strlit("main_neg");
        },
        KernelOp::CmpEq => {
            reveal_strlit("main_eq");
        },
        KernelOp::CmpNe => {
            reveal_strlit("main_ne");
        },
        KernelOp::CmpLt => {
            reveal_strlit("main_lt");
        },
        KernelOp::CmpLe => {
            reveal_strlit("main_le");
        },
        KernelOp::CmpGt => {
            reveal_strlit("main_gt");
        },
        KernelOp::CmpGe => {
            reveal_strlit("main_ge");
        },
        KernelOp::Where => {
            reveal_strlit("main");
        },
        KernelOp::Copy2d => {
            reveal_strlit("main");
        },
        KernelOp::GatherIdx => {
            reveal_strlit("main");
        },
        KernelOp::GatherRows => {
            reveal_strlit("main_gather_rows");
        },
        KernelOp::IndexSelect => {
            reveal_strlit("main_index_select");
        },
        KernelOp::ReduceMin => {
            reveal_strlit("main_reduce_min");
        },
        KernelOp::ReduceArgMin => {
            reveal_strlit("main_reduce_argmin");
        },
        KernelOp::ReduceArgMax => {
            reveal_strlit("main_reduce_argmax");
        },
        KernelOp::AvgPool2d => {
            reveal_strlit("main_avg_pool2d");
        },
        KernelOp::MaxPool2d => {
            reveal_strlit("main_max_pool2d");
        },
        KernelOp::UpsampleNearest1d => {
            reveal_strlit("main_upsample_nearest1d");
        },
        KernelOp::UpsampleNearest2d => {
            reveal_strlit("main_upsample_nearest2d");
        },
        KernelOp::UpsampleBilinear2d => {
            reveal_strlit("main_upsample_bilinear2d");
        },
        KernelOp::Conv1d => {
            reveal_strlit("main_conv1d");
        },
        KernelOp::Conv2d => {
            reveal_strlit("main_conv2d");
        },
        KernelOp::ConvTranspose1d => {
            reveal_strlit("main_conv_transpose1d");
        },
        KernelOp::ConvTranspose2d => {
            reveal_strlit("main_conv_transpose2d");
        },
        KernelOp::Scatter => {
            reveal_strlit("main");
        },
        KernelOp::TestFill => {
            reveal_strlit("main");
        },
        KernelOp::TestFillEmulated => {
            reveal_strlit("main");
        },
    }
    assert(op_entry_point(op).subrange(0, 4) =~= "main"@);
}

/// The kernel of operation `op` on element type `elem` (an arbitrary one
/// where there is no such kernel).
pub open spec fn kernel_of(op: KernelOp, elem: KernelElem) -> KernelName {
    match (op, elem) {
        (KernelOp::Affine, KernelElem::F32) => KernelName::AffineF32,
        (KernelOp::ReduceSum, KernelElem::F32) => KernelName::ReduceSumF32,
        (KernelOp::ReduceMax, KernelElem::F32) => KernelName::ReduceMaxF32,
        (KernelOp::Gemm, KernelElem::F32) => KernelName::GemmF32,
        (KernelOp::Gemm, KernelElem::F16) => KernelName::GemmF16,
        (KernelOp::Gemm, KernelElem::F64) => KernelName::GemmF64,
        (KernelOp::ConstSet, KernelElem::F32) => KernelName::ConstSetF32,
        (KernelOp::UnaryLog, KernelElem::F32) => KernelName::UnaryLogF32,
        (KernelOp::UnaryAbs, KernelElem::F32) => KernelName::UnaryAbsF32,
        (KernelOp::UnaryRecip, KernelElem::F32) => KernelName::UnaryRecipF32,
        (KernelOp::UnarySqr, KernelElem::F32) => KernelName::UnarySqrF32,
        (KernelOp::UnaryGelu, KernelElem::F32) => KernelName::UnaryGeluF32,
        (KernelOp::UnaryGeluErf, KernelElem::F32) => KernelName::UnaryGeluErfF32,
        (KernelOp::UnaryErf, KernelElem::F32) => KernelName::UnaryErfF32,
        (KernelOp::UnaryRelu, KernelElem::F32) => KernelName::UnaryReluF32,
        (KernelOp::UnaryTanh, KernelElem::F32) => KernelName::UnaryTanhF32,
        (KernelOp::UnaryFloor, KernelElem::F32) => KernelName::UnaryFloorF32,
        (KernelOp::UnaryCeil, KernelElem::F32) => KernelName::UnaryCeilF32,
        (KernelOp::UnaryRound, KernelElem::F32) => KernelName::UnaryRoundF32,
        (KernelOp::UnarySign, KernelElem::F32) => KernelName::UnarySignF32,
        (KernelOp::UnaryPow, KernelElem::F32) => KernelName::UnaryPowF32,
        (KernelOp::UnaryElu, KernelElem::F32) => KernelName::UnaryEluF32,
        (KernelOp::BinaryMaximum, KernelElem::F32) => KernelName::BinaryMaximumF32,
        (KernelOp::BinaryMinimum, KernelElem::F32) => KernelName::BinaryMinimumF32,
        (KernelOp::BinaryAdd, KernelElem::F32) => KernelName::BinaryAddF32,
        (KernelOp::BinarySub, KernelElem::F32) => KernelName::BinarySubF32,
        (KernelOp::BinaryMul, KernelElem::F32) => KernelName::BinaryMulF32,
        (KernelOp::BinaryDiv, KernelElem::F32) => KernelName::BinaryDivF32,
        (KernelOp::UnaryExp, KernelElem::F32) => KernelName::UnaryExpF32,
        (KernelOp::UnarySilu, KernelElem::F32) => KernelName::UnarySiluF32,
        (KernelOp::UnarySqrt, KernelElem::F32) => KernelName::UnarySqrtF32,
        (KernelOp::UnarySin, KernelElem::F32) => KernelName::UnarySinF32,
        (KernelOp::UnaryCos, KernelElem::F32) => KernelName::UnaryCosF32,
        (KernelOp::UnaryNeg, KernelElem::F32) => KernelName::UnaryNegF32,
        (KernelOp::CmpEq, KernelElem::F32) => KernelName::CmpEqF32,
        (KernelOp::CmpNe, KernelElem::F32) => KernelName::CmpNeF32,
        (KernelOp::CmpLt, KernelElem::F32) => KernelName::CmpLtF32,
        (KernelOp::CmpLe, KernelElem::F32) => KernelName::CmpLeF32,
        (KernelOp::CmpGt, KernelElem::F32) => KernelName::CmpGtF32,
        (KernelOp::CmpGe, KernelElem::F32) => KernelName::CmpGeF32,
        (KernelOp::BinaryAdd, KernelElem::Bf16) => KernelName::BinaryAddBf16,
        (KernelOp::BinarySub, KernelElem::Bf16) => KernelName::BinarySubBf16,
        (KernelOp::BinaryMul, KernelElem::Bf16) => KernelName::BinaryMulBf16,
        (KernelOp::BinaryDiv, KernelElem::Bf16) => KernelName::BinaryDivBf16,
        (KernelOp::BinaryMaximum, KernelElem::Bf16) => KernelName::BinaryMaximumBf16,
        (KernelOp::BinaryMinimum, KernelElem::Bf16) => KernelName::BinaryMinimumBf16,
        (KernelOp::CmpEq, KernelElem::Bf16) => KernelName::CmpEqBf16,
        (KernelOp::CmpNe, KernelElem::Bf16) => KernelName::CmpNeBf16,
        (KernelOp::CmpLt, KernelElem::Bf16) => KernelName::CmpLtBf16,
        (KernelOp::CmpLe, KernelElem::Bf16) => KernelName::CmpLeBf16,
        (KernelOp::CmpGt, KernelElem::Bf16) => KernelName::CmpGtBf16,
        (KernelOp::CmpGe, KernelElem::Bf16) => KernelName::CmpGeBf16,
        (KernelOp::BinaryAdd, KernelElem::F8e4m3) => KernelName::BinaryAddF8e4m3,
        (KernelOp::BinarySub, KernelElem::F8e4m3) => KernelName::BinarySubF8e4m3,
        (KernelOp::BinaryMul, KernelElem::F8e4m3) => KernelName::BinaryMulF8e4m3,
        (KernelOp::BinaryDiv, KernelElem::F8e4m3) => KernelName::BinaryDivF8e4m3,
        (KernelOp::BinaryMaximum, KernelElem::F8e4m3) => KernelName::BinaryMaximumF8e4m3,
        (KernelOp::BinaryMinimum, KernelElem::F8e4m3) => KernelName::BinaryMinimumF8e4m3,
        (KernelOp::CmpEq, KernelElem::F8e4m3) => KernelName::CmpEqF8e4m3,
        (KernelOp::CmpNe, KernelElem::F8e4m3) => KernelName::CmpNeF8e4m3,
        (KernelOp::CmpLt, KernelElem::F8e4m3) => KernelName::CmpLtF8e4m3,
        (KernelOp::CmpLe, KernelElem::F8e4m3) => KernelName::CmpLeF8e4m3,
        (KernelOp::CmpGt, KernelElem::F8e4m3) => KernelName::CmpGtF8e4m3,
        (KernelOp::CmpGe, KernelElem::F8e4m3) => KernelName::CmpGeF8e4m3,
        (KernelOp::UnaryLog, KernelElem::Bf16) => KernelName::UnaryLogBf16,
        (KernelOp::UnaryAbs, KernelElem::Bf16) => KernelName::UnaryAbsBf16,
        (KernelOp::UnaryRecip, KernelElem::Bf16) => KernelName::UnaryRecipBf16,
        (KernelOp::UnarySqr, KernelElem::Bf16) => KernelName::UnarySqrBf16,
        (KernelOp::UnaryGelu, KernelElem::Bf16) => KernelName::UnaryGeluBf16,
        (KernelOp::UnaryGeluErf, KernelElem::Bf16) => KernelName::UnaryGeluErfBf16,
        (KernelOp::UnaryErf, KernelElem::Bf16) => KernelName::UnaryErfBf16,
        (KernelOp::UnaryRelu, KernelElem::Bf16) => KernelName::UnaryReluBf16,
        (KernelOp::UnaryTanh, KernelElem::Bf16) => KernelName::UnaryTanhBf16,
        (KernelOp::UnaryFloor, KernelElem::Bf16) => KernelName::UnaryFloorBf16,
        (KernelOp::UnaryCeil, KernelElem::Bf16) => KernelName::UnaryCeilBf16,
        (KernelOp::UnaryRound, KernelElem::Bf16) => KernelName::UnaryRoundBf16,
        (KernelOp::UnarySign, KernelElem::Bf16) => KernelName::UnarySignBf16,
        (KernelOp::UnaryExp, KernelElem::Bf16) => KernelName::UnaryExpBf16,
        (KernelOp::UnarySilu, KernelElem::Bf16) => KernelName::UnarySiluBf16,
        (KernelOp::UnarySqrt, KernelElem::Bf16) => KernelName::UnarySqrtBf16,
        (KernelOp::UnarySin, KernelElem::Bf16) => KernelName::UnarySinBf16,
        (KernelOp::UnaryCos, KernelElem::Bf16) => KernelName::UnaryCosBf16,
        (KernelOp::UnaryNeg, KernelElem::Bf16) => KernelName::UnaryNegBf16,
        (KernelOp::UnaryLog, KernelElem::F8e4m3) => KernelName::UnaryLogF8e4m3,
        (KernelOp::UnaryAbs, KernelElem::F8e4m3) => KernelName::UnaryAbsF8e4m3,
        (KernelOp::UnaryRecip, KernelElem::F8e4m3) => KernelName::UnaryRecipF8e4m3,
        (KernelOp::UnarySqr, KernelElem::F8e4m3) => KernelName::UnarySqrF8e4m3,
        (KernelOp::UnaryGelu, KernelElem::F8e4m3) => KernelName::UnaryGeluF8e4m3,
        (KernelOp::UnaryGeluErf, KernelElem::F8e4m3) => KernelName::UnaryGeluErfF8e4m3,
        (KernelOp::UnaryErf, KernelElem::F8e4m3) => KernelName::UnaryErfF8e4m3,
        (KernelOp::UnaryRelu, KernelElem::F8e4m3) => KernelName::UnaryReluF8e4m3,
        (KernelOp::UnaryTanh, KernelElem::F8e4m3) => KernelName::UnaryTanhF8e4m3,
        (KernelOp::UnaryFloor, KernelElem::F8e4m3) => KernelName::UnaryFloorF8e4m3,
        (KernelOp::UnaryCeil, KernelElem::F8e4m3) => KernelName::UnaryCeilF8e4m3,
        (KernelOp::UnaryRound, KernelElem::F8e4m3) => KernelName::UnaryRoundF8e4m3,
        (KernelOp::UnarySign, KernelElem::F8e4m3) => KernelName::UnarySignF8e4m3,
        (KernelOp::UnaryExp, KernelElem::F8e4m3) => KernelName::UnaryExpF8e4m3,
        (KernelOp::UnarySilu, KernelElem::F8e4m3) => KernelName::UnarySiluF8e4m3,
        (KernelOp::UnarySqrt, KernelElem::F8e4m3) => KernelName::UnarySqrtF8e4m3,
        (KernelOp::UnarySin, KernelElem::F8e4m3) => KernelName::UnarySinF8e4m3,
        (KernelOp::UnaryCos, KernelElem::F8e4m3) => KernelName::UnaryCosF8e4m3,
        (KernelOp::UnaryNeg, KernelElem::F8e4m3) => KernelName::UnaryNegF8e4m3,
        (KernelOp::Where, KernelElem::F32) => KernelName::WhereF32,
        (KernelOp::Where, KernelElem::Bf16) => KernelName::WhereBf16,
        (KernelOp::Where, KernelElem::F8e4m3) => KernelName::WhereF8e4m3,
        (KernelOp::Affine, KernelElem::Bf16) => KernelName::AffineBf16,
        (KernelOp::Affine, KernelElem::F8e4m3) => KernelName::AffineF8e4m3,
        (KernelOp::UnaryPow, KernelElem::Bf16) => KernelName::UnaryPowBf16,
        (KernelOp::UnaryElu, KernelElem::Bf16) => KernelName::UnaryEluBf16,
        (KernelOp::UnaryPow, KernelElem::F8e4m3) => KernelName::UnaryPowF8e4m3,
        (KernelOp::UnaryElu, KernelElem::F8e4m3) => KernelName::UnaryEluF8e4m3,
        (KernelOp::Affine, KernelElem::F16) => KernelName::AffineF16,
        (KernelOp::Affine, KernelElem::F64) => KernelName::AffineF64,
        (KernelOp::UnaryLog, KernelElem::F16) => KernelName::UnaryLogF16,
        (KernelOp::UnaryAbs, KernelElem::F16) => KernelName::UnaryAbsF16,
        (KernelOp::UnaryRecip, KernelElem::F16) => KernelName::UnaryRecipF16,
        (KernelOp::UnarySqr, KernelElem::F16) => KernelName::UnarySqrF16,
        (KernelOp::UnaryGelu, KernelElem::F16) => KernelName::UnaryGeluF16,
        (KernelOp::UnaryGeluErf, KernelElem::F16) => KernelName::UnaryGeluErfF16,
        (KernelOp::UnaryErf, KernelElem::F16) => KernelName::UnaryErfF16,
        (KernelOp::UnaryRelu, KernelElem::F16) => KernelName::UnaryReluF16,
        (KernelOp::UnaryTanh, KernelElem::F16) => KernelName::UnaryTanhF16,
        (KernelOp::UnaryFloor, KernelElem::F16) => KernelName::UnaryFloorF16,
        (KernelOp::UnaryCeil, KernelElem::F16) => KernelName::UnaryCeilF16,
        (KernelOp::UnaryRound, KernelElem::F16) => KernelName::UnaryRoundF16,
        (KernelOp::UnarySign, KernelElem::F16) => KernelName::UnarySignF16,
        (KernelOp::UnaryPow, KernelElem::F16) => KernelName::UnaryPowF16,
        (KernelOp::UnaryElu, KernelElem::F16) => KernelName::UnaryEluF16,
        (KernelOp::UnaryExp, KernelElem::F16) => KernelName::UnaryExpF16,
        (KernelOp::UnarySilu, KernelElem::F16) => KernelName::UnarySiluF16,
        (KernelOp::UnarySqrt, KernelElem::F16) => KernelName::UnarySqrtF16,
        (KernelOp::UnarySin, KernelElem::F16) => KernelName::UnarySinF16,
        (KernelOp::UnaryCos, KernelElem::F16) => KernelName::UnaryCosF16,
        (KernelOp::UnaryNeg, KernelElem::F16) => KernelName::UnaryNegF16,
        (KernelOp::UnaryLog, KernelElem::F64) => KernelName::UnaryLogF64,
        (KernelOp::UnaryAbs, KernelElem::F64) => KernelName::UnaryAbsF64,
        (KernelOp::UnaryRecip, KernelElem::F64) => KernelName::UnaryRecipF64,
        (KernelOp::UnarySqr, KernelElem::F64) => KernelName::UnarySqrF64,
        (KernelOp::UnaryGelu, KernelElem::F64) => KernelName::UnaryGeluF64,
        (KernelOp::UnaryGeluErf, KernelElem::F64) => KernelName::UnaryGeluErfF64,
        (KernelOp::UnaryErf, KernelElem::F64) => KernelName::UnaryErfF64,
        (KernelOp::UnaryRelu, KernelElem::F64) => KernelName::UnaryReluF64,
        (KernelOp::UnaryTanh, KernelElem::F64) => KernelName::UnaryTanhF64,
        (KernelOp::UnaryFloor, KernelElem::F64) => KernelName::UnaryFloorF64,
        (KernelOp::UnaryCeil, KernelElem::F64) => KernelName::UnaryCeilF64,
        (KernelOp::UnaryRound, KernelElem::F64) => KernelName::UnaryRoundF64,
        (KernelOp::UnarySign, KernelElem::F64) => KernelName::UnarySignF64,
        (KernelOp::UnaryPow, KernelElem::F64) => KernelName::UnaryPowF64,
        (KernelOp::UnaryElu, KernelElem::F64) => KernelName::UnaryEluF64,
        (KernelOp::UnaryExp, KernelElem::F64) => KernelName::UnaryExpF64,
        (KernelOp::UnarySilu, KernelElem::F64) => KernelName::UnarySiluF64,
        (KernelOp::UnarySqrt, KernelElem::F64) => KernelName::UnarySqrtF64,
        (KernelOp::UnarySin, KernelElem::F64) => KernelName::UnarySinF64,
        (KernelOp::UnaryCos, KernelElem::F64) => KernelName::UnaryCosF64,
        (KernelOp::UnaryNeg, KernelElem::F64) => KernelName::UnaryNegF64,
        (KernelOp::BinaryAdd, KernelElem::F16) => KernelName::BinaryAddF16,
        (KernelOp::BinarySub, KernelElem::F16) => KernelName::BinarySubF16,
        (KernelOp::BinaryMul, KernelElem::F16) => KernelName::BinaryMulF16,
        (KernelOp::BinaryDiv, KernelElem::F16) => KernelName::BinaryDivF16,
        (KernelOp::BinaryMaximum, KernelElem::F16) => KernelName::BinaryMaximumF16,
        (KernelOp::BinaryMinimum, KernelElem::F16) => KernelName::BinaryMinimumF16,
        (KernelOp::CmpEq, KernelElem::F16) => KernelName::CmpEqF16,
        (KernelOp::CmpNe, KernelElem::F16) => KernelName::CmpNeF16,
        (KernelOp::CmpLt, KernelElem::F16) => KernelName::CmpLtF16,
        (KernelOp::CmpLe, KernelElem::F16) => KernelName::CmpLeF16,
        (KernelOp::CmpGt, KernelElem::F16) => KernelName::CmpGtF16,
        (KernelOp::CmpGe, KernelElem::F16) => KernelName::CmpGeF16,
        (KernelOp::BinaryAdd, KernelElem::F64) => KernelName::BinaryAddF64,
        (KernelOp::BinarySub, KernelElem::F64) => KernelName::BinarySubF64,
        (KernelOp::BinaryMul, KernelElem::F64) => KernelName::BinaryMulF64,
        (KernelOp::BinaryDiv, KernelElem::F64) => KernelName::BinaryDivF64,
        (KernelOp::BinaryMaximum, KernelElem::F64) => KernelName::BinaryMaximumF64,
        (KernelOp::BinaryMinimum, KernelElem::F64) => KernelName::BinaryMinimumF64,
        (KernelOp::CmpEq, KernelElem::F64) => KernelName::CmpEqF64,
        (KernelOp::CmpNe, KernelElem::F64) => KernelName::CmpNeF64,
        (KernelOp::CmpLt, KernelElem::F64) => KernelName::CmpLtF64,
        (KernelOp::CmpLe, KernelElem::F64) => KernelName::CmpLeF64,
        (KernelOp::CmpGt, KernelElem::F64) => KernelName::CmpGtF64,
        (KernelOp::CmpGe, KernelElem::F64) => KernelName::CmpGeF64,
        (KernelOp::BinaryAdd, KernelElem::U8) => KernelName::BinaryAddU8,
        (KernelOp::BinarySub, KernelElem::U8) => KernelName::BinarySubU8,
        (KernelOp::BinaryMul, KernelElem::U8) => KernelName::BinaryMulU8,
        (KernelOp::BinaryDiv, KernelElem::U8) => KernelName::BinaryDivU8,
        (KernelOp::BinaryMaximum, KernelElem::U8) => KernelName::BinaryMaximumU8,
        (KernelOp::BinaryMinimum, KernelElem::U8) => KernelName::BinaryMinimumU8,
        (KernelOp::BinaryAdd, KernelElem::U32) => KernelName::BinaryAddU32,
        (KernelOp::BinarySub, KernelElem::U32) => KernelName::BinarySubU32,
        (KernelOp::BinaryMul, KernelElem::U32) => KernelName::BinaryMulU32,
        (KernelOp::BinaryDiv, KernelElem::U32) => KernelName::BinaryDivU32,
        (KernelOp::BinaryMaximum, KernelElem::U32) => KernelName::BinaryMaximumU32,
        (KernelOp::BinaryMinimum, KernelElem::U32) => KernelName::BinaryMinimumU32,
        (KernelOp::BinaryAdd, KernelElem::I16) => KernelName::BinaryAddI16,
        (KernelOp::BinarySub, KernelElem::I16) => KernelName::BinarySubI16,
        (KernelOp::BinaryMul, KernelElem::I16) => KernelName::BinaryMulI16,
        (KernelOp::BinaryDiv, KernelElem::I16) => KernelName::BinaryDivI16,
        (KernelOp::BinaryMaximum, KernelElem::I16) => KernelName::BinaryMaximumI16,
        (KernelOp::BinaryMinimum, KernelElem::I16) => KernelName::BinaryMinimumI16,
        (KernelOp::BinaryAdd, KernelElem::I32) => KernelName::BinaryAddI32,
        (KernelOp::BinarySub, KernelElem::I32) => KernelName::BinarySubI32,
        (KernelOp::BinaryMul, KernelElem::I32) => KernelName::BinaryMulI32,
        (KernelOp::BinaryDiv, KernelElem::I32) => KernelName::BinaryDivI32,
        (KernelOp::BinaryMaximum, KernelElem::I32) => KernelName::BinaryMaximumI32,
        (KernelOp::BinaryMinimum, KernelElem::I32) => KernelName::BinaryMinimumI32,
        (KernelOp::BinaryAdd, KernelElem::I64) => KernelName::BinaryAddI64,
        (KernelOp::BinarySub, KernelElem::I64) => KernelName::BinarySubI64,
        (KernelOp::BinaryMul, KernelElem::I64) => KernelName::BinaryMulI64,
        (KernelOp::BinaryDiv, KernelElem::I64) => KernelName::BinaryDivI64,
        (KernelOp::BinaryMaximum, KernelElem::I64) => KernelName::BinaryMaximumI64,
        (KernelOp::BinaryMinimum, KernelElem::I64) => KernelName::BinaryMinimumI64,
        (KernelOp::CmpEq, KernelElem::U8) => KernelName::CmpEqU8,
        (KernelOp::CmpNe, KernelElem::U8) => KernelName::CmpNeU8,
        (KernelOp::CmpLt, KernelElem::U8) => KernelName::CmpLtU8,
        (KernelOp::CmpLe, KernelElem::U8) => KernelName::CmpLeU8,
        (KernelOp::CmpGt, KernelElem::U8) => KernelName::CmpGtU8,
        (KernelOp::CmpGe, KernelElem::U8) => KernelName::CmpGeU8,
        (KernelOp::CmpEq, KernelElem::U32) => KernelName::CmpEqU32,
        (KernelOp::CmpNe, KernelElem::U32) => KernelName::CmpNeU32,
        (KernelOp::CmpLt, KernelElem::U32) => KernelName::CmpLtU32,
        (KernelOp::CmpLe, KernelElem::U32) => KernelName::CmpLeU32,
        (KernelOp::CmpGt, KernelElem::U32) => KernelName::CmpGtU32,
        (KernelOp::CmpGe, KernelElem::U32) => KernelName::CmpGeU32,
        (KernelOp::CmpEq, KernelElem::I16) => KernelName::CmpEqI16,
        (KernelOp::CmpNe, KernelElem::I16) => KernelName::CmpNeI16,
        (KernelOp::CmpLt, KernelElem::I16) => KernelName::CmpLtI16,
        (KernelOp::CmpLe, KernelElem::I16) => KernelName::CmpLeI16,
        (KernelOp::CmpGt, KernelElem::I16) => KernelName::CmpGtI16,
        (KernelOp::CmpGe, KernelElem::I16) => KernelName::CmpGeI16,
        (KernelOp::CmpEq, KernelElem::I32) => KernelName::CmpEqI32,
        (KernelOp::CmpNe, KernelElem::I32) => KernelName::CmpNeI32,
        (KernelOp::CmpLt, KernelElem::I32) => KernelName::CmpLtI32,
        (KernelOp::CmpLe, KernelElem::I32) => KernelName::CmpLeI32,
        (KernelOp::CmpGt, KernelElem::I32) => KernelName::CmpGtI32,
        (KernelOp::CmpGe, KernelElem::I32) => KernelName::CmpGeI32,
        (KernelOp::CmpEq, KernelElem::I64) => KernelName::CmpEqI64,
        (KernelOp::CmpNe, KernelElem::I64) => KernelName::CmpNeI64,
        (KernelOp::CmpLt, KernelElem::I64) => KernelName::CmpLtI64,
        (KernelOp::CmpLe, KernelElem::I64) => KernelName::CmpLeI64,
        (KernelOp::CmpGt, KernelElem::I64) => KernelName::CmpGtI64,
        (KernelOp::CmpGe, KernelElem::I64) => KernelName::CmpGeI64,
        (KernelOp::Where, KernelElem::F16) => KernelName::WhereF16,
        (KernelOp::Where, KernelElem::F64) => KernelName::WhereF64,
        (KernelOp::Copy2d, KernelElem::F32) => KernelName::Copy2dF32,
        (KernelOp::Copy2d, KernelElem::F16) => KernelName::Copy2dF16,
        (KernelOp::Copy2d, KernelElem::F64) => KernelName::Copy2dF64,
        (KernelOp::GatherIdx, KernelElem::F32) => KernelName::GatherIdxF32,
        (KernelOp::GatherRows, KernelElem::F32) => KernelName::GatherRowsF32,
        (KernelOp::IndexSelect, KernelElem::F32) => KernelName::IndexSelectF32,
        (KernelOp::GatherIdx, KernelElem::F16) => KernelName::GatherIdxF16,
        (KernelOp::GatherRows, KernelElem::F16) => KernelName::GatherRowsF16,
        (KernelOp::IndexSelect, KernelElem::F16) => KernelName::IndexSelectF16,
        (KernelOp::GatherIdx, KernelElem::F64) => KernelName::GatherIdxF64,
        (KernelOp::GatherRows, KernelElem::F64) => KernelName::GatherRowsF64,
        (KernelOp::IndexSelect, KernelElem::F64) => KernelName::IndexSelectF64,
        (KernelOp::ReduceMin, KernelElem::F32) => KernelName::ReduceMinF32,
        (KernelOp::ReduceArgMin, KernelElem::F32) => KernelName::ReduceArgMinF32,
        (KernelOp::ReduceArgMax, KernelElem::F32) => KernelName::ReduceArgMaxF32,
        (KernelOp::ReduceSum, KernelElem::F16) => KernelName::ReduceSumF16,
        (KernelOp::ReduceMax, KernelElem::F16) => KernelName::ReduceMaxF16,
        (KernelOp::ReduceMin, KernelElem::F16) => KernelName::ReduceMinF16,
        (KernelOp::ReduceArgMin, KernelElem::F16) => KernelName::ReduceArgMinF16,
        (KernelOp::ReduceArgMax, KernelElem::F16) => KernelName::ReduceArgMaxF16,
        (KernelOp::ReduceSum, KernelElem::F64) => KernelName::ReduceSumF64,
        (KernelOp::ReduceMax, KernelElem::F64) => KernelName::ReduceMaxF64,
        (KernelOp::ReduceMin, KernelElem::F64) => KernelName::ReduceMinF64,
        (KernelOp::ReduceArgMin, KernelElem::F64) => KernelName::ReduceArgMinF64,
        (KernelOp::ReduceArgMax, KernelElem::F64) => KernelName::ReduceArgMaxF64,
        (KernelOp::AvgPool2d, KernelElem::F32) => KernelName::AvgPool2dF32,
        (KernelOp::MaxPool2d, KernelElem::F32) => KernelName::MaxPool2dF32,
        (KernelOp::UpsampleNearest1d, KernelElem::F32) => KernelName::UpsampleNearest1dF32,
        (KernelOp::UpsampleNearest2d, KernelElem::F32) => KernelName::UpsampleNearest2dF32,
        (KernelOp::UpsampleBilinear2d, KernelElem::F32) => KernelName::UpsampleBilinear2dF32,
        (KernelOp::AvgPool2d, KernelElem::F16) => KernelName::AvgPool2dF16,
        (KernelOp::MaxPool2d, KernelElem::F16) => KernelName::MaxPool2dF16,
        (KernelOp::UpsampleNearest1d, KernelElem::F16) => KernelName::UpsampleNearest1dF16,
        (KernelOp::UpsampleNearest2d, KernelElem::F16) => KernelName::UpsampleNearest2dF16,
        (KernelOp::UpsampleBilinear2d, KernelElem::F16) => KernelName::UpsampleBilinear2dF16,
        (KernelOp::AvgPool2d, KernelElem::F64) => KernelName::AvgPool2dF64,
        (KernelOp::MaxPool2d, KernelElem::F64) => KernelName::MaxPool2dF64,
        (KernelOp::UpsampleNearest1d, KernelElem::F64) => KernelName::UpsampleNearest1dF64,
        (KernelOp::UpsampleNearest2d, KernelElem::F64) => KernelName::UpsampleNearest2dF64,
        (KernelOp::UpsampleBilinear2d, KernelElem::F64) => KernelName::UpsampleBilinear2dF64,
        (KernelOp::Conv1d, KernelElem::F32) => KernelName::Conv1dF32,
        (KernelOp::Conv2d, KernelElem::F32) => KernelName::Conv2dF32,
        (KernelOp::ConvTranspose1d, KernelElem::F32) => KernelName::ConvTranspose1dF32,
        (KernelOp::ConvTranspose2d, KernelElem::F32) => KernelName::ConvTranspose2dF32,
        (KernelOp::Conv1d, KernelElem::F16) => KernelName::Conv1dF16,
        (KernelOp::Conv2d, KernelElem::F16) => KernelName::Conv2dF16,
        (KernelOp::ConvTranspose1d, KernelElem::F16) => KernelName::ConvTranspose1dF16,
        (KernelOp::ConvTranspose2d, KernelElem::F16) => KernelName::ConvTranspose2dF16,
        (KernelOp::Conv1d, KernelElem::F64) => KernelName::Conv1dF64,
        (KernelOp::Conv2d, KernelElem::F64) => KernelName::Conv2dF64,
        (KernelOp::ConvTranspose1d, KernelElem::F64) => KernelName::ConvTranspose1dF64,
        (KernelOp::ConvTranspose2d, KernelElem::F64) => KernelName::ConvTranspose2dF64,
        (KernelOp::Scatter, KernelElem::F32) => KernelName::ScatterF32,
        (KernelOp::Scatter, KernelElem::F16) => KernelName::ScatterF16,
        (KernelOp::Scatter, KernelElem::F64) => KernelName::ScatterF64,
        (KernelOp::TestFill, KernelElem::F16) => KernelName::TestFillF16,
        (KernelOp::TestFill, KernelElem::U8) => KernelName::TestFillU8,
        (KernelOp::TestFill, KernelElem::I16) => KernelName::TestFillI16,
        (KernelOp::TestFill, KernelElem::Bf16) => KernelName::TestFillBf16Native,
        (KernelOp::TestFillEmulated, KernelElem::Bf16) => KernelName::TestFillBf16Emulated,
        (KernelOp::TestFill, KernelElem::U32) => KernelName::TestFillU32,
        (KernelOp::TestFill, KernelElem::I32) => KernelName::TestFillI32,
        (KernelOp::TestFill, KernelElem::F32) => KernelName::TestFillF32,
        (KernelOp::TestFill, KernelElem::I64) => KernelName::TestFillI64,
        (KernelOp::TestFill, KernelElem::F64) => KernelName::TestFillF64,
        (KernelOp::TestFill, KernelElem::F4) => KernelName::TestFillF4,
        (KernelOp::TestFill, KernelElem::F6e2m3) => KernelName::TestFillF6e2m3,
        (KernelOp::TestFill, KernelElem::F6e3m2) => KernelName::TestFillF6e3m2,
        (KernelOp::TestFill, KernelElem::F8e4m3) => KernelName::TestFillF8e4m3,
        (KernelOp::TestFill, KernelElem::F8e8m0) => KernelName::TestFillF8e8m0,
        _ => KernelName::AffineF32,
    }
}

/// A kernel is determined by its operation and element type.
pub proof fn lemma_kernel_of_op_and_elem(name: KernelName)
    ensures
        kernel_of(name.kernel_op(), name.kernel_elem()) == name,
{
    match name {
        KernelName::AffineF32 => {},
        KernelName::ReduceSumF32 => {},
        KernelName::ReduceMaxF32 => {},
        KernelName::GemmF32 => {},
        KernelName::GemmF16 => {},
        KernelName::GemmF64 => {},
        KernelName::ConstSetF32 => {},
        KernelName::UnaryLogF32 => {},
        KernelName::UnaryAbsF32 => {},
        KernelName::UnaryRecipF32 => {},
        KernelName::UnarySqrF32 => {},
        KernelName::UnaryGeluF32 => {},
        KernelName::UnaryGeluErfF32 => {},
        KernelName::UnaryErfF32 => {},
        KernelName::UnaryReluF32 => {},
        KernelName::UnaryTanhF32 => {},
        KernelName::UnaryFloorF32 => {},
        KernelName::UnaryCeilF32 => {},
        KernelName::UnaryRoundF32 => {},
        KernelName::UnarySignF32 => {},
        KernelName::UnaryPowF32 => {},
        KernelName::UnaryEluF32 => {},
        KernelName::BinaryMaximumF32 => {},
        KernelName::BinaryMinimumF32 => {},
        KernelName::BinaryAddF32 => {},
        KernelName::BinarySubF32 => {},
        KernelName::BinaryMulF32 => {},
        KernelName::BinaryDivF32 => {},
        KernelName::UnaryExpF32 => {},
        KernelName::UnarySiluF32 => {},
        KernelName::UnarySqrtF32 => {},
        KernelName::UnarySinF32 => {},
        KernelName::UnaryCosF32 => {},
        KernelName::UnaryNegF32 => {},
        KernelName::CmpEqF32 => {},
        KernelName::CmpNeF32 => {},
        KernelName::CmpLtF32 => {},
        KernelName::CmpLeF32 => {},
        KernelName::CmpGtF32 => {},
        KernelName::CmpGeF32 => {},
        KernelName::BinaryAddBf16 => {},
        KernelName::BinarySubBf16 => {},
        KernelName::BinaryMulBf16 => {},
        KernelName::BinaryDivBf16 => {},
        KernelName::BinaryMaximumBf16 => {},
        KernelName::BinaryMinimumBf16 => {},
        KernelName::CmpEqBf16 => {},
        KernelName::CmpNeBf16 => {},
        KernelName::CmpLtBf16 => {},
        KernelName::CmpLeBf16 => {},
        KernelName::CmpGtBf16 => {},
        KernelName::CmpGeBf16 => {},
        KernelName::BinaryAddF8e4m3 => {},
        KernelName::BinarySubF8e4m3 => {},
        KernelName::BinaryMulF8e4m3 => {},
        KernelName::BinaryDivF8e4m3 => {},
        KernelName::BinaryMaximumF8e4m3 => {},
        KernelName::BinaryMinimumF8e4m3 => {},
        KernelName::CmpEqF8e4m3 => {},
        KernelName::CmpNeF8e4m3 => {},
        KernelName::CmpLtF8e4m3 => {},
        KernelName::CmpLeF8e4m3 => {},
        KernelName::CmpGtF8e4m3 => {},
        KernelName::CmpGeF8e4m3 => {},
        KernelName::UnaryLogBf16 => {},
        KernelName::UnaryAbsBf16 => {},
        KernelName::UnaryRecipBf16 => {},
        KernelName::UnarySqrBf16 => {},
        KernelName::UnaryGeluBf16 => {},
        KernelName::UnaryGeluErfBf16 => {},
        KernelName::UnaryErfBf16 => {},
        KernelName::UnaryReluBf16 => {},
        KernelName::UnaryTanhBf16 => {},
        KernelName::UnaryFloorBf16 => {},
        KernelName::UnaryCeilBf16 => {},
        KernelName::UnaryRoundBf16 => {},
        KernelName::UnarySignBf16 => {},
        KernelName::UnaryExpBf16 => {},
        KernelName::UnarySiluBf16 => {},
        KernelName::UnarySqrtBf16 => {},
        KernelName::UnarySinBf16 => {},
        KernelName::UnaryCosBf16 => {},
        KernelName::UnaryNegBf16 => {},
        KernelName::UnaryLogF8e4m3 => {},
        KernelName::UnaryAbsF8e4m3 => {},
        KernelName::UnaryRecipF8e4m3 => {},
        KernelName::UnarySqrF8e4m3 => {},
        KernelName::UnaryGeluF8e4m3 => {},
        KernelName::UnaryGeluErfF8e4m3 => {},
        KernelName::UnaryErfF8e4m3 => {},
        KernelName::UnaryReluF8e4m3 => {},
        KernelName::UnaryTanhF8e4m3 => {},
        KernelName::UnaryFloorF8e4m3 => {},
        KernelName::UnaryCeilF8e4m3 => {},
        KernelName::UnaryRoundF8e4m3 => {},
        KernelName::UnarySignF8e4m3 => {},
        KernelName::UnaryExpF8e4m3 => {},
        KernelName::UnarySiluF8e4m3 => {},
        KernelName::UnarySqrtF8e4m3 => {},
        KernelName::UnarySinF8e4m3 => {},
        KernelName::UnaryCosF8e4m3 => {},
        KernelName::UnaryNegF8e4m3 => {},
        KernelName::WhereF32 => {},
        KernelName::WhereBf16 => {},
        KernelName::WhereF8e4m3 => {},
        KernelName::AffineBf16 => {},
        KernelName::AffineF8e4m3 => {},
        KernelName::UnaryPowBf16 => {},
        KernelName::UnaryEluBf16 => {},
        KernelName::UnaryPowF8e4m3 => {},
        KernelName::UnaryEluF8e4m3 => {},
        KernelName::AffineF16 => {},
        KernelName::AffineF64 => {},
        KernelName::UnaryLogF16 => {},
        KernelName::UnaryAbsF16 => {},
        KernelName::UnaryRecipF16 => {},
        KernelName::UnarySqrF16 => {},
        KernelName::UnaryGeluF16 => {},
        KernelName::UnaryGeluErfF16 => {},
        KernelName::UnaryErfF16 => {},
        KernelName::UnaryReluF16 => {},
        KernelName::UnaryTanhF16 => {},
        KernelName::UnaryFloorF16 => {},
        KernelName::UnaryCeilF16 => {},
        KernelName::UnaryRoundF16 => {},
        KernelName::UnarySignF16 => {},
        KernelName::UnaryPowF16 => {},
        KernelName::UnaryEluF16 => {},
        KernelName::UnaryExpF16 => {},
        KernelName::UnarySiluF16 => {},
        KernelName::UnarySqrtF16 => {},
        KernelName::UnarySinF16 => {},
        KernelName::UnaryCosF16 => {},
        KernelName::UnaryNegF16 => {},
        KernelName::UnaryLogF64 => {},
        KernelName::UnaryAbsF64 => {},
        KernelName::UnaryRecipF64 => {},
        KernelName::UnarySqrF64 => {},
        KernelName::UnaryGeluF64 => {},
        KernelName::UnaryGeluErfF64 => {},
        KernelName::UnaryErfF64 => {},
        KernelName::UnaryReluF64 => {},
        KernelName::UnaryTanhF64 => {},
        KernelName::UnaryFloorF64 => {},
        KernelName::UnaryCeilF64 => {},
        KernelName::UnaryRoundF64 => {},
        KernelName::UnarySignF64 => {},
        KernelName::UnaryPowF64 => {},
        KernelName::UnaryEluF64 => {},
        KernelName::UnaryExpF64 => {},
        KernelName::UnarySiluF64 => {},
        KernelName::UnarySqrtF64 => {},
        KernelName::UnarySinF64 => {},
        KernelName::UnaryCosF64 => {},
        KernelName::UnaryNegF64 => {},
        KernelName::BinaryAddF16 => {},
        KernelName::BinarySubF16 => {},
        KernelName::BinaryMulF16 => {},
        KernelName::BinaryDivF16 => {},
        KernelName::BinaryMaximumF16 => {},
        KernelName::BinaryMinimumF16 => {},
        KernelName::CmpEqF16 => {},
        KernelName::CmpNeF16 => {},
        KernelName::CmpLtF16 => {},
        KernelName::CmpLeF16 => {},
        KernelName::CmpGtF16 => {},
        KernelName::CmpGeF16 => {},
        KernelName::BinaryAddF64 => {},
        KernelName::BinarySubF64 => {},
        KernelName::BinaryMulF64 => {},
        KernelName::BinaryDivF64 => {},
        KernelName::BinaryMaximumF64 => {},
        KernelName::BinaryMinimumF64 => {},
        KernelName::CmpEqF64 => {},
        KernelName::CmpNeF64 => {},
        KernelName::CmpLtF64 => {},
        KernelName::CmpLeF64 => {},
        KernelName::CmpGtF64 => {},
        KernelName::CmpGeF64 => {},
        KernelName::BinaryAddU8 => {},
        KernelName::BinarySubU8 => {},
        KernelName::BinaryMulU8 => {},
        KernelName::BinaryDivU8 => {},
        KernelName::BinaryMaximumU8 => {},
        KernelName::BinaryMinimumU8 => {},
        KernelName::BinaryAddU32 => {},
        KernelName::BinarySubU32 => {},
        KernelName::BinaryMulU32 => {},
        KernelName::BinaryDivU32 => {},
        KernelName::BinaryMaximumU32 => {},
        KernelName::BinaryMinimumU32 => {},
        KernelName::BinaryAddI16 => {},
        KernelName::BinarySubI16 => {},
        KernelName::BinaryMulI16 => {},
        KernelName::BinaryDivI16 => {},
        KernelName::BinaryMaximumI16 => {},
        KernelName::BinaryMinimumI16 => {},
        KernelName::BinaryAddI32 => {},
        KernelName::BinarySubI32 => {},
        KernelName::BinaryMulI32 => {},
        KernelName::BinaryDivI32 => {},
        KernelName::BinaryMaximumI32 => {},
        KernelName::BinaryMinimumI32 => {},
        KernelName::BinaryAddI64 => {},
        KernelName::BinarySubI64 => {},
        KernelName::BinaryMulI64 => {},
        KernelName::BinaryDivI64 => {},
        KernelName::BinaryMaximumI64 => {},
        KernelName::BinaryMinimumI64 => {},
        KernelName::CmpEqU8 => {},
        KernelName::CmpNeU8 => {},
        KernelName::CmpLtU8 => {},
        KernelName::CmpLeU8 => {},
        KernelName::CmpGtU8 => {},
        KernelName::CmpGeU8 => {},
        KernelName::CmpEqU32 => {},
        KernelName::CmpNeU32 => {},
        KernelName::CmpLtU32 => {},
        KernelName::CmpLeU32 => {},
        KernelName::CmpGtU32 => {},
        KernelName::CmpGeU32 => {},
        KernelName::CmpEqI16 => {},
        KernelName::CmpNeI16 => {},
        KernelName::CmpLtI16 => {},
        KernelName::CmpLeI16 => {},
        KernelName::CmpGtI16 => {},
        KernelName::CmpGeI16 => {},
        KernelName::CmpEqI32 => {},
        KernelName::CmpNeI32 => {},
        KernelName::CmpLtI32 => {},
        KernelName::CmpLeI32 => {},
        KernelName::CmpGtI32 => {},
        KernelName::CmpGeI32 => {},
        KernelName::CmpEqI64 => {},
        KernelName::CmpNeI64 => {},
        KernelName::CmpLtI64 => {},
        KernelName::CmpLeI64 => {},
        KernelName::CmpGtI64 => {},
        KernelName::CmpGeI64 => {},
        KernelName::WhereF16 => {},
        KernelName::WhereF64 => {},
        KernelName::Copy2dF32 => {},
        KernelName::Copy2dF16 => {},
        KernelName::Copy2dF64 => {},
        KernelName::GatherIdxF32 => {},
        KernelName::GatherRowsF32 => {},
        KernelName::IndexSelectF32 => {},
        KernelName::GatherIdxF16 => {},
        KernelName::GatherRowsF16 => {},
        KernelName::IndexSelectF16 => {},
        KernelName::GatherIdxF64 => {},
        KernelName::GatherRowsF64 => {},
        KernelName::IndexSelectF64 => {},
        KernelName::ReduceMinF32 => {},
        KernelName::ReduceArgMinF32 => {},
        KernelName::ReduceArgMaxF32 => {},
        KernelName::ReduceSumF16 => {},
        KernelName::ReduceMaxF16 => {},
        KernelName::ReduceMinF16 => {},
        KernelName::ReduceArgMinF16 => {},
        KernelName::ReduceArgMaxF16 => {},
        KernelName::ReduceSumF64 => {},
        KernelName::ReduceMaxF64 => {},
        KernelName::ReduceMinF64 => {},
        KernelName::ReduceArgMinF64 => {},
        KernelName::ReduceArgMaxF64 => {},
        KernelName::AvgPool2dF32 => {},
        KernelName::MaxPool2dF32 => {},
        KernelName::UpsampleNearest1dF32 => {},
        KernelName::UpsampleNearest2dF32 => {},
        KernelName::UpsampleBilinear2dF32 => {},
        KernelName::AvgPool2dF16 => {},
        KernelName::MaxPool2dF16 => {},
        KernelName::UpsampleNearest1dF16 => {},
        KernelName::UpsampleNearest2dF16 => {},
        KernelName::UpsampleBilinear2dF16 => {},
        KernelName::AvgPool2dF64 => {},
        KernelName::MaxPool2dF64 => {},
        KernelName::UpsampleNearest1dF64 => {},
        KernelName::UpsampleNearest2dF64 => {},
        KernelName::UpsampleBilinear2dF64 => {},
        KernelName::Conv1dF32 => {},
        KernelName::Conv2dF32 => {},
        KernelName::ConvTranspose1dF32 => {},
        KernelName::ConvTranspose2dF32 => {},
        KernelName::Conv1dF16 => {},
        KernelName::Conv2dF16 => {},
        KernelName::ConvTranspose1dF16 => {},
        KernelName::ConvTranspose2dF16 => {},
        KernelName::Conv1dF64 => {},
        KernelName::Conv2dF64 => {},
        KernelName::ConvTranspose1dF64 => {},
        KernelName::ConvTranspose2dF64 => {},
        KernelName::ScatterF32 => {},
        KernelName::ScatterF16 => {},
        KernelName::ScatterF64 => {},
        KernelName::TestFillF16 => {},
        KernelName::TestFillU8 => {},
        KernelName::TestFillI16 => {},
        KernelName::TestFillBf16Native => {},
        KernelName::TestFillBf16Emulated => {},
        KernelName::TestFillU32 => {},
        KernelName::TestFillI32 => {},
        KernelName::TestFillF32 => {},
        KernelName::TestFillI64 => {},
        KernelName::TestFillF64 => {},
        KernelName::TestFillF4 => {},
        KernelName::TestFillF6e2m3 => {},
        KernelName::TestFillF6e3m2 => {},
        KernelName::TestFillF8e4m3 => {},
        KernelName::TestFillF8e8m0 => {},
    }
}

/// Two kernels of one element type whose entry points share a shader
/// module select different entry points, and every entry point starts
/// with `main`.
pub proof fn lemma_entry_points_distinct_in_module(a: KernelName, b: KernelName)
    requires
        a != b,
        a.kernel_elem() == b.kernel_elem(),
        op_family(a.kernel_op()) == op_family(b.kernel_op()),
        op_family(a.kernel_op()) != OpFamily::Own,
    ensures
        op_entry_point(a.kernel_op()) != op_entry_point(b.kernel_op()),
        op_entry_point(a.kernel_op()).subrange(0, 4) == "main"@,
        op_entry_point(b.kernel_op()).subrange(0, 4) == "main"@,
{
    lemma_kernel_of_op_and_elem(a);
    lemma_kernel_of_op_and_elem(b);
    lemma_entry_point_names_op(a.kernel_op());
    lemma_entry_point_names_op(b.kernel_op());
}

} // verus!
