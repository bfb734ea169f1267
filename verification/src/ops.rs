//! Validation and parameter packing of the element-wise tensor operations:
//! which inputs the backend accepts, which kernel runs, how many elements
//! the output has, and the parameter words that the kernel reads.

use vstd::prelude::*;

use crate::kernel::KernelName;
use crate::layout::{fails_with, block_span, blocks_fit, DType, OpError, Operand, Span, StridedBlocks};
use crate::shape::{broadcast_dims, dims_fit, effective_dims, prod, product};
use crate::source::Source;

verus! {

/// A unary operation.
#[derive(Debug, Clone, Copy, PartialEq, Eq, Structural)]
pub enum UnaryOp {
    Exp,
    Log,
    Sin,
    Cos,
    Abs,
    Neg,
    Recip,
    Sqr,
    Sqrt,
    Gelu,
    GeluErf,
    Erf,
    Relu,
    Silu,
    Tanh,
    Floor,
    Ceil,
    Round,
    Sign,
}

/// A binary element-wise operation.
#[derive(Debug, Clone, Copy, PartialEq, Eq, Structural)]
pub enum BinaryOp {
    Add,
    Sub,
    Mul,
    Div,
    Maximum,
    Minimum,
}

/// A comparison.
#[derive(Debug, Clone, Copy, PartialEq, Eq, Structural)]
pub enum CmpOp {
    Eq,
    Ne,
    Lt,
    Le,
    Gt,
    Ge,
}

/// An element-wise kernel run: the input run, the element count of the
/// output, the kernel, and the parameter words of the kernel (the backend
/// hands them to the kernel as f32 values).
#[derive(Debug)]
pub struct ElementwisePlan {
    pub input: Span,
    pub out_len: usize,
    pub kernel: KernelName,
    pub params: Vec<usize>,
}

/// `v[0..4]` padded with zeros to four entries.
pub open spec fn pad4(v: Seq<usize>) -> Seq<usize> {
    Seq::new(4, |i: int| if i < v.len() { v[i] } else { 0usize })
}

/// Appends `pad4(v)` to `out`.
fn push_pad4(out: &mut Vec<usize>, v: &[usize])
    ensures
        final(out)@ == old(out)@ + pad4(v@),
{
    let ghost start = old(out)@;
    let mut i: usize = 0;
    while i < 4
        invariant
            i <= 4,
            out@ == start + pad4(v@).take(i as int),
        decreases 4 - i,
    {
        let w: usize = if i < v.len() {
            v[i]
        } else {
            0
        };
        out.push(w);
        i = i + 1;
        proof {
            assert(pad4(v@).take(i as int) =~= pad4(v@).take(i - 1).push(w));
        }
    }
    proof {
        assert(pad4(v@).take(4) =~= pad4(v@));
    }
}

/// The contiguous run of an f32 input: refused when the input is not f32
/// or not one contiguous block. Affine maps, powers and ELU take their
/// input this way, and write one output element per input element.
pub fn f32_input_span(dtype: DType, blocks: &StridedBlocks) -> (r: Result<Span, OpError>)
    ensures
        dtype != DType::F32 ==> r == Err::<Span, OpError>(OpError::UnsupportedDType(Operand::Input)),
        dtype == DType::F32 && block_span(*blocks) is None ==> r == Err::<Span, OpError>(
            OpError::NonContiguous(Operand::Input),
        ),
        dtype == DType::F32 && block_span(*blocks) is Some ==> r == Ok::<Span, OpError>(
            block_span(*blocks)->0,
        ),
{
    if dtype != DType::F32 {
        return Err(OpError::UnsupportedDType(Operand::Input));
    }
    match blocks.single_span() {
        Some(s) => Ok(s),
        None => Err(OpError::NonContiguous(Operand::Input)),
    }
}

/// The f32 kernel of a unary operation.
pub open spec fn unary_kernel(op: UnaryOp) -> KernelName {
    match op {
        UnaryOp::Exp => KernelName::UnaryExpF32,
        UnaryOp::Log => KernelName::UnaryLogF32,
        UnaryOp::Sin => KernelName::UnarySinF32,
        UnaryOp::Cos => KernelName::UnaryCosF32,
        UnaryOp::Abs => KernelName::UnaryAbsF32,
        UnaryOp::Neg => KernelName::UnaryNegF32,
        UnaryOp::Recip => KernelName::UnaryRecipF32,
        UnaryOp::Sqr => KernelName::UnarySqrF32,
        UnaryOp::Sqrt => KernelName::UnarySqrtF32,
        UnaryOp::Gelu => KernelName::UnaryGeluF32,
        UnaryOp::GeluErf => KernelName::UnaryGeluErfF32,
        UnaryOp::Erf => KernelName::UnaryErfF32,
        UnaryOp::Relu => KernelName::UnaryReluF32,
        UnaryOp::Silu => KernelName::UnarySiluF32,
        UnaryOp::Tanh => KernelName::UnaryTanhF32,
        UnaryOp::Floor => KernelName::UnaryFloorF32,
        UnaryOp::Ceil => KernelName::UnaryCeilF32,
        UnaryOp::Round => KernelName::UnaryRoundF32,
        UnaryOp::Sign => KernelName::UnarySignF32,
    }
}

/// A unary operation over an f32 tensor of shape `dims` laid out as
/// `blocks`: the output has the element count of the shape; the kernel
/// reads `[len, 0]`.
pub fn plan_unary(op: UnaryOp, dtype: DType, blocks: &StridedBlocks, dims: &[usize]) -> (r: Result<ElementwisePlan, OpError>)
    requires
        dims_fit(dims@),
    ensures
        dtype != DType::F32 ==> fails_with(r, OpError::UnsupportedDType(Operand::Input)),
        dtype == DType::F32 && block_span(*blocks) is None ==> fails_with(r, OpError::NonContiguous(Operand::Input)),
        dtype == DType::F32 && block_span(*blocks) is Some ==> (r matches Ok(p) && {
            let s = block_span(*blocks)->0;
            &&& p.input == s
            &&& p.out_len == prod(dims@)
            &&& p.kernel == unary_kernel(op)
            &&& p.params@ == seq![s.len, 0usize]
        }),
{
    let input = match f32_input_span(dtype, blocks) {
        Ok(s) => s,
        Err(e) => return Err(e),
    };
    let out_len = product(dims, 0, dims.len());
    proof {
        assert(dims@.subrange(0, dims@.len() as int) =~= dims@);
    }
    let kernel = match op {
        UnaryOp::Exp => KernelName::UnaryExpF32,
        UnaryOp::Log => KernelName::UnaryLogF32,
        UnaryOp::Sin => KernelName::UnarySinF32,
        UnaryOp::Cos => KernelName::UnaryCosF32,
        UnaryOp::Abs => KernelName::UnaryAbsF32,
        UnaryOp::Neg => KernelName::UnaryNegF32,
        UnaryOp::Recip => KernelName::UnaryRecipF32,
        UnaryOp::Sqr => KernelName::UnarySqrF32,
        UnaryOp::Sqrt => KernelName::UnarySqrtF32,
        UnaryOp::Gelu => KernelName::UnaryGeluF32,
        UnaryOp::GeluErf => KernelName::UnaryGeluErfF32,
        UnaryOp::Erf => KernelName::UnaryErfF32,
        UnaryOp::Relu => KernelName::UnaryReluF32,
        UnaryOp::Silu => KernelName::UnarySiluF32,
        UnaryOp::Tanh => KernelName::UnaryTanhF32,
        UnaryOp::Floor => KernelName::UnaryFloorF32,
        UnaryOp::Ceil => KernelName::UnaryCeilF32,
        UnaryOp::Round => KernelName::UnaryRoundF32,
        UnaryOp::Sign => KernelName::UnarySignF32,
    };
    let mut params: Vec<usize> = Vec::new();
    params.push(input.len);
    params.push(0);
    Ok(ElementwisePlan { input, out_len, kernel, params })
}

/// The f32 kernel of a binary operation.
pub open spec fn binary_kernel(op: BinaryOp) -> KernelName {
    match op {
        BinaryOp::Add => KernelName::BinaryAddF32,
        BinaryOp::Sub => KernelName::BinarySubF32,
        BinaryOp::Mul => KernelName::BinaryMulF32,
        BinaryOp::Div => KernelName::BinaryDivF32,
        BinaryOp::Maximum => KernelName::BinaryMaximumF32,
        BinaryOp::Minimum => KernelName::BinaryMinimumF32,
    }
}

/// The f32 kernel of a comparison.
pub open spec fn cmp_kernel(op: CmpOp) -> KernelName {
    match op {
        CmpOp::Eq => KernelName::CmpEqF32,
        CmpOp::Ne => KernelName::CmpNeF32,
        CmpOp::Lt => KernelName::CmpLtF32,
        CmpOp::Le => KernelName::CmpLeF32,
        CmpOp::Gt => KernelName::CmpGtF32,
        CmpOp::Ge => KernelName::CmpGeF32,
    }
}

/// Parameter words of a broadcast binary kernel over `len` outputs:
/// `[len, lhs rank, rhs rank, lhs dims, rhs dims]`, each dimension list
/// padded with zeros to four entries.
pub open spec fn broadcast_params(len: usize, lhs_dims: Seq<usize>, rhs_dims: Seq<usize>) -> Seq<usize> {
    seq![len, lhs_dims.len() as usize, rhs_dims.len() as usize] + pad4(lhs_dims) + pad4(rhs_dims)
}

fn broadcast_param_words(len: usize, lhs_dims: &[usize], rhs_dims: &[usize]) -> (r: Vec<usize>)
    ensures
        r@ == broadcast_params(len, lhs_dims@, rhs_dims@),
{
    let mut params: Vec<usize> = Vec::new();
    params.push(len);
    params.push(lhs_dims.len());
    params.push(rhs_dims.len());
    push_pad4(&mut params, lhs_dims);
    push_pad4(&mut params, rhs_dims);
    params
}

/// A binary operation between two f32 tensors, the rhs broadcast against
/// the lhs (a dimension of stride 0 counts as 1): the output has the
/// element count of the lhs shape. A non-empty lhs of more than four
/// dimensions is refused; an empty one needs no kernel.
pub fn plan_binary(
    op: BinaryOp,
    lhs_dtype: DType,
    rhs_dtype: DType,
    lhs_blocks: &StridedBlocks,
    lhs_dims: &[usize],
    rhs_dims: &[usize],
    rhs_stride: &[usize],
) -> (r: Result<ElementwisePlan, OpError>)
    requires
        dims_fit(lhs_dims@),
    ensures
        (lhs_dtype != DType::F32 || rhs_dtype != DType::F32) ==> fails_with(r, OpError::UnsupportedDType(Operand::Input)),
        lhs_dtype == DType::F32 && rhs_dtype == DType::F32 && block_span(*lhs_blocks) is None ==> fails_with(r, OpError::NonContiguous(Operand::Input)),
        lhs_dtype == DType::F32 && rhs_dtype == DType::F32 && block_span(*lhs_blocks) is Some ==> {
            let s = block_span(*lhs_blocks)->0;
            &&& s.len > 0 && lhs_dims@.len() > 4 ==> fails_with(r, OpError::TooManyDims)
            &&& (s.len == 0 || lhs_dims@.len() <= 4) ==> (r matches Ok(p) && {
                &&& p.input == s
                &&& p.out_len == prod(lhs_dims@)
                &&& p.kernel == binary_kernel(op)
                &&& p.params@ == broadcast_params(s.len, lhs_dims@, broadcast_dims(rhs_dims@, rhs_stride@))
            })
        },
{
    if lhs_dtype != DType::F32 || rhs_dtype != DType::F32 {
        return Err(OpError::UnsupportedDType(Operand::Input));
    }
    let input = match lhs_blocks.single_span() {
        Some(s) => s,
        None => return Err(OpError::NonContiguous(Operand::Input)),
    };
    let out_len = product(lhs_dims, 0, lhs_dims.len());
    proof {
        assert(lhs_dims@.subrange(0, lhs_dims@.len() as int) =~= lhs_dims@);
    }
    if input.len != 0 && lhs_dims.len() > 4 {
        return Err(OpError::TooManyDims);
    }
    let eff = effective_dims(rhs_dims, rhs_stride);
    let params = broadcast_param_words(input.len, lhs_dims, eff.as_slice());
    let kernel = match op {
        BinaryOp::Add => KernelName::BinaryAddF32,
        BinaryOp::Sub => KernelName::BinarySubF32,
        BinaryOp::Mul => KernelName::BinaryMulF32,
        BinaryOp::Div => KernelName::BinaryDivF32,
        BinaryOp::Maximum => KernelName::BinaryMaximumF32,
        BinaryOp::Minimum => KernelName::BinaryMinimumF32,
    };
    Ok(ElementwisePlan { input, out_len, kernel, params })
}

/// A comparison between two f32 tensors, the rhs broadcast against the
/// lhs: the output holds one u8 per lhs element (1 where the predicate
/// holds). A non-empty lhs of more than four dimensions is refused; an
/// empty one needs no kernel.
pub fn plan_cmp(
    op: CmpOp,
    lhs_dtype: DType,
    rhs_dtype: DType,
    lhs_blocks: &StridedBlocks,
    lhs_dims: &[usize],
    rhs_dims: &[usize],
    rhs_stride: &[usize],
) -> (r: Result<ElementwisePlan, OpError>)
    ensures
        (lhs_dtype != DType::F32 || rhs_dtype != DType::F32) ==> fails_with(r, OpError::UnsupportedDType(Operand::Input)),
        lhs_dtype == DType::F32 && rhs_dtype == DType::F32 && block_span(*lhs_blocks) is None ==> fails_with(r, OpError::NonContiguous(Operand::Input)),
        lhs_dtype == DType::F32 && rhs_dtype == DType::F32 && block_span(*lhs_blocks) is Some ==> {
            let s = block_span(*lhs_blocks)->0;
            &&& s.len > 0 && lhs_dims@.len() > 4 ==> fails_with(r, OpError::TooManyDims)
            &&& (s.len == 0 || lhs_dims@.len() <= 4) ==> (r matches Ok(p) && {
                &&& p.input == s
                &&& p.out_len == s.len
                &&& p.kernel == cmp_kernel(op)
                &&& p.params@ == broadcast_params(s.len, lhs_dims@, broadcast_dims(rhs_dims@, rhs_stride@))
            })
        },
{
    if lhs_dtype != DType::F32 || rhs_dtype != DType::F32 {
        return Err(OpError::UnsupportedDType(Operand::Input));
    }
    let input = match lhs_blocks.single_span() {
        Some(s) => s,
        None => return Err(OpError::NonContiguous(Operand::Input)),
    };
    if input.len != 0 && lhs_dims.len() > 4 {
        return Err(OpError::TooManyDims);
    }
    let eff = effective_dims(rhs_dims, rhs_stride);
    let params = broadcast_param_words(input.len, lhs_dims, eff.as_slice());
    let kernel = match op {
        CmpOp::Eq => KernelName::CmpEqF32,
        CmpOp::Ne => KernelName::CmpNeF32,
        CmpOp::Lt => KernelName::CmpLtF32,
        CmpOp::Le => KernelName::CmpLeF32,
        CmpOp::Gt => KernelName::CmpGtF32,
        CmpOp::Ge => KernelName::CmpGeF32,
    };
    Ok(ElementwisePlan { input, out_len: input.len, kernel, params })
}

/// Parameter words of the select kernel over `len` outputs of rank
/// `rank`: `[len, rank, pred dims, true dims, false dims]`, each dimension
/// list padded with zeros to four entries.
pub open spec fn where_params(len: usize, rank: usize, p: Seq<usize>, t: Seq<usize>, f: Seq<usize>) -> Seq<usize> {
    seq![len, rank] + pad4(p) + pad4(t) + pad4(f)
}

/// A select `pred ? on_true : on_false` with a u8 predicate and f32
/// values, the values broadcast against the predicate (a dimension of
/// stride 0 counts as 1): one output element per predicate element. A
/// non-empty predicate of more than four dimensions is refused; an empty
/// one needs no kernel.
pub fn plan_where(
    pred_dtype: DType,
    true_dtype: DType,
    false_dtype: DType,
    pred_blocks: &StridedBlocks,
    pred_dims: &[usize],
    pred_stride: &[usize],
    true_dims: &[usize],
    true_stride: &[usize],
    false_dims: &[usize],
    false_stride: &[usize],
) -> (r: Result<ElementwisePlan, OpError>)
    ensures
        (true_dtype != DType::F32 || false_dtype != DType::F32) ==> fails_with(r, OpError::UnsupportedDType(Operand::Values)),
        true_dtype == DType::F32 && false_dtype == DType::F32 ==> {
            &&& block_span(*pred_blocks) is None ==> fails_with(r, OpError::NonContiguous(Operand::Pred))
            &&& block_span(*pred_blocks) is Some && pred_dtype != DType::U8 ==> fails_with(
                r,
                OpError::UnsupportedDType(Operand::Pred),
            )
            &&& block_span(*pred_blocks) is Some && pred_dtype == DType::U8 ==> {
                let s = block_span(*pred_blocks)->0;
                &&& s.len > 0 && pred_dims@.len() > 4 ==> fails_with(r, OpError::TooManyDims)
                &&& (s.len == 0 || pred_dims@.len() <= 4) ==> (r matches Ok(p) && {
                    &&& p.input == s
                    &&& p.out_len == s.len
                    &&& p.kernel == KernelName::WhereF32
                    &&& p.params@ == where_params(
                        s.len,
                        pred_dims@.len() as usize,
                        broadcast_dims(pred_dims@, pred_stride@),
                        broadcast_dims(true_dims@, true_stride@),
                        broadcast_dims(false_dims@, false_stride@),
                    )
                })
            }
        },
{
    if true_dtype != DType::F32 || false_dtype != DType::F32 {
        return Err(OpError::UnsupportedDType(Operand::Values));
    }
    let input = match pred_blocks.single_span() {
        Some(s) => s,
        None => return Err(OpError::NonContiguous(Operand::Pred)),
    };
    if pred_dtype != DType::U8 {
        return Err(OpError::UnsupportedDType(Operand::Pred));
    }
    if input.len != 0 && pred_dims.len() > 4 {
        return Err(OpError::TooManyDims);
    }
    let p = effective_dims(pred_dims, pred_stride);
    let t = effective_dims(true_dims, true_stride);
    let f = effective_dims(false_dims, false_stride);
    let mut params: Vec<usize> = Vec::new();
    params.push(input.len);
    params.push(pred_dims.len());
    push_pad4(&mut params, p.as_slice());
    push_pad4(&mut params, t.as_slice());
    push_pad4(&mut params, f.as_slice());
    Ok(ElementwisePlan { input, out_len: input.len, kernel: KernelName::WhereF32, params })
}

/// Filling a run of a storage with a scalar: only an f32 scalar into f32
/// storage, over one contiguous block. `Ok(None)`: the run is empty and
/// nothing is written; `Ok(Some(s))`: the kernel writes the run `s`.
pub fn plan_const_set(dtype: DType, scalar_dtype: DType, blocks: &StridedBlocks) -> (r: Result<Option<Span>, OpError>)
    ensures
        !(dtype == DType::F32 && scalar_dtype == DType::F32) ==> fails_with(r, OpError::UnsupportedScalar),
        dtype == DType::F32 && scalar_dtype == DType::F32 && block_span(*blocks) is None ==> fails_with(
            r,
            OpError::NonContiguous(Operand::Input),
        ),
        dtype == DType::F32 && scalar_dtype == DType::F32 && block_span(*blocks) is Some ==> {
            let s = block_span(*blocks)->0;
            r == Ok::<Option<Span>, OpError>(if s.len == 0 { None } else { Some(s) })
        },
{
    if !(dtype == DType::F32 && scalar_dtype == DType::F32) {
        return Err(OpError::UnsupportedScalar);
    }
    match blocks.single_span() {
        Some(s) => {
            if s.len == 0 {
                Ok(None)
            } else {
                Ok(Some(s))
            }
        },
        None => Err(OpError::NonContiguous(Operand::Input)),
    }
}

/// A conversion between floating-point element types that the backend
/// performs.
#[derive(Debug, Clone, Copy, PartialEq, Eq, Structural)]
pub enum Conversion {
    F32ToF16,
    F16ToF32,
    F32ToBf16,
    Bf16ToF32,
    F16ToBf16,
    Bf16ToF16,
}

/// The conversion from `from` to `to`, if the backend performs it.
pub open spec fn conversion_of(from: DType, to: DType) -> Option<Conversion> {
    if from == DType::F32 && to == DType::F16 {
        Some(Conversion::F32ToF16)
    } else if from == DType::F16 && to == DType::F32 {
        Some(Conversion::F16ToF32)
    } else if from == DType::F32 && to == DType::BF16 {
        Some(Conversion::F32ToBf16)
    } else if from == DType::BF16 && to == DType::F32 {
        Some(Conversion::Bf16ToF32)
    } else if from == DType::F16 && to == DType::BF16 {
        Some(Conversion::F16ToBf16)
    } else if from == DType::BF16 && to == DType::F16 {
        Some(Conversion::Bf16ToF16)
    } else {
        None
    }
}

/// Converting the contiguous run of a `from` storage to `to`: only
/// between f32, f16 and bf16 (in either direction), and only over one
/// contiguous block.
pub fn plan_to_dtype(from: DType, to: DType, blocks: &StridedBlocks) -> (r: Result<(Span, Conversion), OpError>)
    ensures
        block_span(*blocks) is None ==> fails_with(r, OpError::NonContiguous(Operand::Input)),
        block_span(*blocks) is Some && conversion_of(from, to) is None ==> fails_with(
            r,
            OpError::UnsupportedConversion(from, to),
        ),
        block_span(*blocks) is Some && conversion_of(from, to) is Some ==> r == Ok::<(Span, Conversion), OpError>(
            (block_span(*blocks)->0, conversion_of(from, to)->0),
        ),
{
    let s = match blocks.single_span() {
        Some(s) => s,
        None => return Err(OpError::NonContiguous(Operand::Input)),
    };
    let c = match (from, to) {
        (DType::F32, DType::F16) => Conversion::F32ToF16,
        (DType::F16, DType::F32) => Conversion::F16ToF32,
        (DType::F32, DType::BF16) => Conversion::F32ToBf16,
        (DType::BF16, DType::F32) => Conversion::Bf16ToF32,
        (DType::F16, DType::BF16) => Conversion::F16ToBf16,
        (DType::BF16, DType::F16) => Conversion::Bf16ToF16,
        _ => return Err(OpError::UnsupportedConversion(from, to)),
    };
    Ok((s, c))
}

/// The element types that random tensors can be drawn in: the
/// floating-point types with arithmetic (bf16, f16, f32, f64, f8e4m3).
pub open spec fn samples_random(dtype: DType) -> bool {
    dtype == DType::BF16 || dtype == DType::F16 || dtype == DType::F32 || dtype == DType::F64
        || dtype == DType::F8E4M3
}

/// Whether random (uniform or normal) tensors can be drawn in `dtype`.
pub fn check_rand_dtype(dtype: DType) -> (r: Result<(), OpError>)
    ensures
        samples_random(dtype) <==> r is Ok,
        !samples_random(dtype) ==> fails_with(r, OpError::UnsupportedDType(Operand::Input)),
{
    match dtype {
        DType::BF16 | DType::F16 | DType::F32 | DType::F64 | DType::F8E4M3 => Ok(()),
        _ => Err(OpError::UnsupportedDType(Operand::Input)),
    }
}

/// A test fill kernel run: the module and entry to dispatch and the
/// threads per workgroup.
#[derive(Debug, Clone, Copy, PartialEq, Eq, Structural)]
pub struct FillPlan {
    pub source: Source,
    pub name: KernelName,
    pub workgroup_size: u64,
}

/// The fill kernel for storage of element type `dtype`: its index-derived
/// test pattern; bf16 uses the raw 16-bit (emulated) fill.
pub open spec fn fill_plan_of(dtype: DType) -> FillPlan {
    match dtype {
        DType::U8 => FillPlan { source: Source::TestFillU8, name: KernelName::TestFillU8, workgroup_size: 256 },
        DType::U32 => FillPlan { source: Source::TestFillU32, name: KernelName::TestFillU32, workgroup_size: 256 },
        DType::I16 => FillPlan { source: Source::TestFillI16, name: KernelName::TestFillI16, workgroup_size: 256 },
        DType::I32 => FillPlan { source: Source::TestFillI32, name: KernelName::TestFillI32, workgroup_size: 256 },
        DType::I64 => FillPlan { source: Source::TestFillI64, name: KernelName::TestFillI64, workgroup_size: 256 },
        DType::BF16 => FillPlan {
            source: Source::TestFillBf16Emulated,
            name: KernelName::TestFillBf16Emulated,
            workgroup_size: 256,
        },
        DType::F16 => FillPlan { source: Source::TestFillF16, name: KernelName::TestFillF16, workgroup_size: 64 },
        DType::F32 => FillPlan { source: Source::TestFillF32, name: KernelName::TestFillF32, workgroup_size: 256 },
        DType::F64 => FillPlan { source: Source::TestFillF64, name: KernelName::TestFillF64, workgroup_size: 256 },
        DType::F8E4M3 => FillPlan {
            source: Source::TestFillF8e4m3,
            name: KernelName::TestFillF8e4m3,
            workgroup_size: 256,
        },
        DType::F6E2M3 => FillPlan {
            source: Source::TestFillF6e2m3,
            name: KernelName::TestFillF6e2m3,
            workgroup_size: 256,
        },
        DType::F6E3M2 => FillPlan {
            source: Source::TestFillF6e3m2,
            name: KernelName::TestFillF6e3m2,
            workgroup_size: 256,
        },
        DType::F4 => FillPlan { source: Source::TestFillF4, name: KernelName::TestFillF4, workgroup_size: 256 },
        DType::F8E8M0 => FillPlan {
            source: Source::TestFillF8e8m0,
            name: KernelName::TestFillF8e8m0,
            workgroup_size: 256,
        },
    }
}

/// The fill of a storage of element type `storage` with the test pattern
/// of `target`: refused unless the storage holds `target` elements.
pub fn plan_fill(target: DType, storage: DType) -> (r: Result<FillPlan, OpError>)
    ensures
        target != storage ==> fails_with(r, OpError::UnsupportedDType(Operand::Input)),
        target == storage ==> r == Ok::<FillPlan, OpError>(fill_plan_of(target)),
{
    if target != storage {
        return Err(OpError::UnsupportedDType(Operand::Input));
    }
    let p = match target {
        DType::U8 => FillPlan { source: Source::TestFillU8, name: KernelName::TestFillU8, workgroup_size: 256 },
        DType::U32 => FillPlan { source: Source::TestFillU32, name: KernelName::TestFillU32, workgroup_size: 256 },
        DType::I16 => FillPlan { source: Source::TestFillI16, name: KernelName::TestFillI16, workgroup_size: 256 },
        DType::I32 => FillPlan { source: Source::TestFillI32, name: KernelName::TestFillI32, workgroup_size: 256 },
        DType::I64 => FillPlan { source: Source::TestFillI64, name: KernelName::TestFillI64, workgroup_size: 256 },
        DType::BF16 => FillPlan {
            source: Source::TestFillBf16Emulated,
            name: KernelName::TestFillBf16Emulated,
            workgroup_size: 256,
        },
        DType::F16 => FillPlan { source: Source::TestFillF16, name: KernelName::TestFillF16, workgroup_size: 64 },
        DType::F32 => FillPlan { source: Source::TestFillF32, name: KernelName::TestFillF32, workgroup_size: 256 },
        DType::F64 => FillPlan { source: Source::TestFillF64, name: KernelName::TestFillF64, workgroup_size: 256 },
        DType::F8E4M3 => FillPlan {
            source: Source::TestFillF8e4m3,
            name: KernelName::TestFillF8e4m3,
            workgroup_size: 256,
        },
        DType::F6E2M3 => FillPlan {
            source: Source::TestFillF6e2m3,
            name: KernelName::TestFillF6e2m3,
            workgroup_size: 256,
        },
        DType::F6E3M2 => FillPlan {
            source: Source::TestFillF6e3m2,
            name: KernelName::TestFillF6e3m2,
            workgroup_size: 256,
        },
        DType::F4 => FillPlan { source: Source::TestFillF4, name: KernelName::TestFillF4, workgroup_size: 256 },
        DType::F8E8M0 => FillPlan {
            source: Source::TestFillF8e8m0,
            name: KernelName::TestFillF8e8m0,
            workgroup_size: 256,
        },
    };
    Ok(p)
}

/// A last-axis reduction.
#[derive(Debug, Clone, Copy, PartialEq, Eq, Structural)]
pub enum ReduceOp {
    Sum,
    Min,
    Max,
    ArgMin,
    ArgMax,
}

/// A last-axis reduction run: the input run, the `rows x cols` view of the
/// input, the element type of the `rows` outputs, the kernel and its
/// parameter words `[rows, cols]`.
#[derive(Debug)]
pub struct ReducePlan {
    pub input: Span,
    pub rows: usize,
    pub cols: usize,
    pub out_dtype: DType,
    pub kernel: KernelName,
    pub params: Vec<usize>,
}

/// The f32 kernel of a reduction.
pub open spec fn reduce_kernel(op: ReduceOp) -> KernelName {
    match op {
        ReduceOp::Sum => KernelName::ReduceSumF32,
        ReduceOp::Min => KernelName::ReduceMinF32,
        ReduceOp::Max => KernelName::ReduceMaxF32,
        ReduceOp::ArgMin => KernelName::ReduceArgMinF32,
        ReduceOp::ArgMax => KernelName::ReduceArgMaxF32,
    }
}

/// Reducing an f32 tensor of shape `dims` over `reduce_dims`: only over
/// the last axis of a non-scalar tensor laid out as one contiguous block.
/// The tensor is read as `rows x cols` (`cols` the last dimension, `rows`
/// the product of the others); sums, minima and maxima are f32, arg-minima
/// and arg-maxima u32. With no row or no column no kernel runs.
pub fn plan_reduce(op: ReduceOp, dtype: DType, dims: &[usize], blocks: &StridedBlocks, reduce_dims: &[usize]) -> (r: Result<ReducePlan, OpError>)
    requires
        dims_fit(dims@),
    ensures
        dtype != DType::F32 ==> fails_with(r, OpError::UnsupportedDType(Operand::Input)),
        dtype == DType::F32 && dims@.len() == 0 ==> fails_with(r, OpError::Scalar),
        dtype == DType::F32 && dims@.len() > 0 && reduce_dims@ != seq![(dims@.len() - 1) as usize] ==> fails_with(
            r,
            OpError::NotLastAxis,
        ),
        dtype == DType::F32 && dims@.len() > 0 && reduce_dims@ == seq![(dims@.len() - 1) as usize] ==> {
            &&& block_span(*blocks) is None ==> fails_with(r, OpError::NonContiguous(Operand::Input))
            &&& block_span(*blocks) is Some ==> (r matches Ok(p) && {
                &&& p.input == block_span(*blocks)->0
                &&& p.rows == prod(dims@.drop_last())
                &&& p.cols == dims@.last()
                &&& p.out_dtype == (if op == ReduceOp::ArgMin || op == ReduceOp::ArgMax {
                    DType::U32
                } else {
                    DType::F32
                })
                &&& p.kernel == reduce_kernel(op)
                &&& p.params@ == seq![p.rows, p.cols]
            })
        },
{
    if dtype != DType::F32 {
        return Err(OpError::UnsupportedDType(Operand::Input));
    }
    let ndim = dims.len();
    if ndim == 0 {
        return Err(OpError::Scalar);
    }
    if !(reduce_dims.len() == 1 && reduce_dims[0] == ndim - 1) {
        proof {
            if reduce_dims@ == seq![(ndim - 1) as usize] {
                assert(reduce_dims@.len() == 1 && reduce_dims@[0] == ndim - 1);
            }
        }
        return Err(OpError::NotLastAxis);
    }
    proof {
        assert(reduce_dims@ =~= seq![(ndim - 1) as usize]);
    }
    let input = match blocks.single_span() {
        Some(s) => s,
        None => return Err(OpError::NonContiguous(Operand::Input)),
    };
    let rows = product(dims, 0, ndim - 1);
    proof {
        assert(dims@.subrange(0, ndim - 1) =~= dims@.drop_last());
    }
    let cols = dims[ndim - 1];
    let out_dtype = match op {
        ReduceOp::Sum | ReduceOp::Min | ReduceOp::Max => DType::F32,
        ReduceOp::ArgMin | ReduceOp::ArgMax => DType::U32,
    };
    let kernel = match op {
        ReduceOp::Sum => KernelName::ReduceSumF32,
        ReduceOp::Min => KernelName::ReduceMinF32,
        ReduceOp::Max => KernelName::ReduceMaxF32,
        ReduceOp::ArgMin => KernelName::ReduceArgMinF32,
        ReduceOp::ArgMax => KernelName::ReduceArgMaxF32,
    };
    let mut params: Vec<usize> = Vec::new();
    params.push(rows);
    params.push(cols);
    Ok(ReducePlan { input, rows, cols, out_dtype, kernel, params })
}

} // verus!
