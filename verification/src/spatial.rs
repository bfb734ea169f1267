//! Validation and parameters of the spatial operations: pooling,
//! upsampling and convolution over channel-first tensors.

use vstd::prelude::*;

use crate::kernel::KernelName;
use crate::layout::{block_span, fails_with, DType, OpError, Operand, Span, StridedBlocks};
use crate::shape::{dims_fit, lemma_prefix_fits, lemma_prod_small, prod};

verus! {

/// Average or maximum pooling.
#[derive(Debug, Clone, Copy, PartialEq, Eq, Structural)]
pub enum PoolKind {
    Avg,
    Max,
}

/// A spatial kernel run: the input run, the number of output elements
/// (one kernel thread each), the kernel and its parameter words.
#[derive(Debug)]
pub struct SpatialPlan {
    pub input: Span,
    pub total: usize,
    pub kernel: KernelName,
    pub params: Vec<usize>,
}

/// Output size of a pooling window of `k` at stride `s` over `n` inputs.
pub open spec fn pool_out(n: int, k: int, s: int) -> int {
    (n - k) / s + 1
}

proof fn lemma_pool_out_le(n: int, k: int, s: int)
    requires
        1 <= k <= n,
        s >= 1,
    ensures
        1 <= pool_out(n, k, s) <= n,
{
    assert((n - k) / s <= n - k) by (nonlinear_arith)
        requires
            n - k >= 0,
            s >= 1,
    ;
    assert((n - k) / s >= 0) by (nonlinear_arith)
        requires
            n - k >= 0,
            s >= 1,
    ;
}

/// 2D pooling of an f32 NCHW tensor with a `kernel_size` window moved by
/// `stride`: each of the `b*c` planes gives `h_out x w_out` outputs, with
/// `h_out = (h - k_h) / s_h + 1` (and likewise for the width). The kernel
/// reads `[planes, h, w, k_h, k_w, s_h, s_w, h_out, w_out]`.
pub fn plan_pool2d(
    kind: PoolKind,
    dtype: DType,
    dims: &[usize],
    blocks: &StridedBlocks,
    kernel_size: (usize, usize),
    stride: (usize, usize),
) -> (r: Result<SpatialPlan, OpError>)
    requires
        dims_fit(dims@),
    ensures
        dtype != DType::F32 ==> fails_with(r, OpError::UnsupportedDType(Operand::Input)),
        dtype == DType::F32 && dims@.len() != 4 ==> fails_with(r, OpError::Rank(Operand::Input)),
        dtype == DType::F32 && dims@.len() == 4 ==> {
            let (b, c, h, w) = (dims@[0] as int, dims@[1] as int, dims@[2] as int, dims@[3] as int);
            let (k_h, k_w) = (kernel_size.0 as int, kernel_size.1 as int);
            let (s_h, s_w) = (stride.0 as int, stride.1 as int);
            &&& (k_h == 0 || k_w == 0 || s_h == 0 || s_w == 0) ==> fails_with(r, OpError::ZeroKernelOrStride)
            &&& !(k_h == 0 || k_w == 0 || s_h == 0 || s_w == 0) && (h < k_h || w < k_w) ==> fails_with(
                r,
                OpError::InputSmallerThanKernel,
            )
            &&& !(k_h == 0 || k_w == 0 || s_h == 0 || s_w == 0) && !(h < k_h || w < k_w) ==> {
                let s = block_span(*blocks)->0;
                &&& block_span(*blocks) is None ==> fails_with(r, OpError::NonContiguous(Operand::Input))
                &&& block_span(*blocks) is Some && s.len != b * c * h * w ==> fails_with(
                    r,
                    OpError::SizeMismatch(Operand::Input),
                )
                &&& block_span(*blocks) is Some && s.len == b * c * h * w ==> (r matches Ok(p) && {
                    let h_out = pool_out(h, k_h, s_h);
                    let w_out = pool_out(w, k_w, s_w);
                    &&& p.input == s
                    &&& p.total == b * c * h_out * w_out
                    &&& p.total <= s.len
                    &&& p.kernel == (if kind == PoolKind::Avg {
                        KernelName::AvgPool2dF32
                    } else {
                        KernelName::MaxPool2dF32
                    })
                    &&& p.params@ == seq![
                        (b * c) as usize,
                        h as usize,
                        w as usize,
                        k_h as usize,
                        k_w as usize,
                        s_h as usize,
                        s_w as usize,
                        h_out as usize,
                        w_out as usize,
                    ]
                })
            }
        },
{
    if dtype != DType::F32 {
        return Err(OpError::UnsupportedDType(Operand::Input));
    }
    if dims.len() != 4 {
        return Err(OpError::Rank(Operand::Input));
    }
    let (b_sz, c, h, w) = (dims[0], dims[1], dims[2], dims[3]);
    let (k_h, k_w) = kernel_size;
    let (s_h, s_w) = stride;
    if k_h == 0 || k_w == 0 || s_h == 0 || s_w == 0 {
        return Err(OpError::ZeroKernelOrStride);
    }
    if h < k_h || w < k_w {
        return Err(OpError::InputSmallerThanKernel);
    }
    let s = match blocks.single_span() {
        Some(s) => s,
        None => return Err(OpError::NonContiguous(Operand::Input)),
    };
    proof {
        lemma_prefix_fits(dims@, 2);
        lemma_prefix_fits(dims@, 3);
        lemma_prod_small(dims@);
        lemma_prod_small(dims@.take(2));
        lemma_prod_small(dims@.take(3));
    }
    if s.len != b_sz * c * h * w {
        return Err(OpError::SizeMismatch(Operand::Input));
    }
    let h_out = (h - k_h) / s_h + 1;
    let w_out = (w - k_w) / s_w + 1;
    let planes = b_sz * c;
    proof {
        lemma_pool_out_le(h as int, k_h as int, s_h as int);
        lemma_pool_out_le(w as int, k_w as int, s_w as int);
        let pl = planes as int;
        assert(pl * h_out <= pl * h && pl * h_out * w_out <= pl * h * w && pl * h_out >= 0) by (nonlinear_arith)
            requires
                pl >= 0,
                1 <= h_out <= h,
                1 <= w_out <= w,
        ;
    }
    let total = planes * h_out * w_out;
    let kernel = match kind {
        PoolKind::Avg => KernelName::AvgPool2dF32,
        PoolKind::Max => KernelName::MaxPool2dF32,
    };
    let mut params: Vec<usize> = Vec::new();
    params.push(planes);
    params.push(h);
    params.push(w);
    params.push(k_h);
    params.push(k_w);
    params.push(s_h);
    params.push(s_w);
    params.push(h_out);
    params.push(w_out);
    proof {
        assert(params@ =~= seq![planes, h, w, k_h, k_w, s_h, s_w, h_out, w_out]);
    }
    Ok(SpatialPlan { input: s, total, kernel, params })
}

/// Nearest-neighbour upsampling of an f32 `(b, c, src_sz)` tensor to
/// `dst_sz` positions: `b*c*dst_sz` outputs; the kernel reads
/// `[planes, src_sz, dst_sz]`.
pub fn plan_upsample_nearest1d(dtype: DType, dims: &[usize], blocks: &StridedBlocks, dst_sz: usize) -> (r: Result<SpatialPlan, OpError>)
    requires
        dims_fit(dims@),
        dims@.len() == 3 ==> dims@[0] * dims@[1] * dst_sz <= usize::MAX,
    ensures
        dtype != DType::F32 ==> fails_with(r, OpError::UnsupportedDType(Operand::Input)),
        dtype == DType::F32 && dims@.len() != 3 ==> fails_with(r, OpError::Rank(Operand::Input)),
        dtype == DType::F32 && dims@.len() == 3 ==> {
            let (b, c, n) = (dims@[0] as int, dims@[1] as int, dims@[2] as int);
            let s = block_span(*blocks)->0;
            &&& n == 0 ==> fails_with(r, OpError::EmptySource)
            &&& n != 0 && block_span(*blocks) is None ==> fails_with(r, OpError::NonContiguous(Operand::Input))
            &&& n != 0 && block_span(*blocks) is Some && s.len != b * c * n ==> fails_with(
                r,
                OpError::SizeMismatch(Operand::Input),
            )
            &&& n != 0 && block_span(*blocks) is Some && s.len == b * c * n ==> (r matches Ok(p) && {
                &&& p.input == s
                &&& p.total == b * c * dst_sz
                &&& p.kernel == KernelName::UpsampleNearest1dF32
                &&& p.params@ == seq![(b * c) as usize, n as usize, dst_sz]
            })
        },
{
    if dtype != DType::F32 {
        return Err(OpError::UnsupportedDType(Operand::Input));
    }
    if dims.len() != 3 {
        return Err(OpError::Rank(Operand::Input));
    }
    let (b_sz, c, src_sz) = (dims[0], dims[1], dims[2]);
    if src_sz == 0 {
        return Err(OpError::EmptySource);
    }
    let s = match blocks.single_span() {
        Some(s) => s,
        None => return Err(OpError::NonContiguous(Operand::Input)),
    };
    proof {
        lemma_prefix_fits(dims@, 2);
        lemma_prod_small(dims@);
        lemma_prod_small(dims@.take(2));
    }
    if s.len != b_sz * c * src_sz {
        return Err(OpError::SizeMismatch(Operand::Input));
    }
    let planes = b_sz * c;
    let total = planes * dst_sz;
    let mut params: Vec<usize> = Vec::new();
    params.push(planes);
    params.push(src_sz);
    params.push(dst_sz);
    Ok(SpatialPlan { input: s, total, kernel: KernelName::UpsampleNearest1dF32, params })
}

/// The checks shared by the 2D upsamplings of an f32 NCHW tensor: the
/// input run and `(planes, src_h, src_w)`.
fn upsample2d_input(dtype: DType, dims: &[usize], blocks: &StridedBlocks) -> (r: Result<(Span, usize, usize, usize), OpError>)
    requires
        dims_fit(dims@),
    ensures
        dtype != DType::F32 ==> fails_with(r, OpError::UnsupportedDType(Operand::Input)),
        dtype == DType::F32 && dims@.len() != 4 ==> fails_with(r, OpError::Rank(Operand::Input)),
        dtype == DType::F32 && dims@.len() == 4 ==> {
            let (b, c, h, w) = (dims@[0] as int, dims@[1] as int, dims@[2] as int, dims@[3] as int);
            let s = block_span(*blocks)->0;
            &&& (h == 0 || w == 0) ==> fails_with(r, OpError::EmptySource)
            &&& !(h == 0 || w == 0) && block_span(*blocks) is None ==> fails_with(
                r,
                OpError::NonContiguous(Operand::Input),
            )
            &&& !(h == 0 || w == 0) && block_span(*blocks) is Some && s.len != b * c * h * w ==> fails_with(
                r,
                OpError::SizeMismatch(Operand::Input),
            )
            &&& !(h == 0 || w == 0) && block_span(*blocks) is Some && s.len == b * c * h * w ==> r
                == Ok::<(Span, usize, usize, usize), OpError>((s, (b * c) as usize, h as usize, w as usize))
        },
{
    if dtype != DType::F32 {
        return Err(OpError::UnsupportedDType(Operand::Input));
    }
    if dims.len() != 4 {
        return Err(OpError::Rank(Operand::Input));
    }
    let (b_sz, c, src_h, src_w) = (dims[0], dims[1], dims[2], dims[3]);
    if src_h == 0 || src_w == 0 {
        return Err(OpError::EmptySource);
    }
    let s = match blocks.single_span() {
        Some(s) => s,
        None => return Err(OpError::NonContiguous(Operand::Input)),
    };
    proof {
        lemma_prefix_fits(dims@, 2);
        lemma_prefix_fits(dims@, 3);
        lemma_prod_small(dims@);
        lemma_prod_small(dims@.take(2));
        lemma_prod_small(dims@.take(3));
    }
    if s.len != b_sz * c * src_h * src_w {
        return Err(OpError::SizeMismatch(Operand::Input));
    }
    Ok((s, b_sz * c, src_h, src_w))
}

/// Nearest-neighbour upsampling of an f32 NCHW tensor to `dst_h x dst_w`:
/// `b*c*dst_h*dst_w` outputs; the kernel reads
/// `[planes, src_h, src_w, dst_h, dst_w]`.
pub fn plan_upsample_nearest2d(dtype: DType, dims: &[usize], blocks: &StridedBlocks, dst_h: usize, dst_w: usize) -> (r: Result<SpatialPlan, OpError>)
    requires
        dims_fit(dims@),
        dims@.len() == 4 ==> dims@[0] * dims@[1] * dst_h <= usize::MAX && dims@[0] * dims@[1] * dst_h * dst_w <= usize::MAX,
    ensures
        dtype != DType::F32 ==> fails_with(r, OpError::UnsupportedDType(Operand::Input)),
        dtype == DType::F32 && dims@.len() != 4 ==> fails_with(r, OpError::Rank(Operand::Input)),
        dtype == DType::F32 && dims@.len() == 4 ==> {
            let (b, c, h, w) = (dims@[0] as int, dims@[1] as int, dims@[2] as int, dims@[3] as int);
            let s = block_span(*blocks)->0;
            &&& (h == 0 || w == 0) ==> fails_with(r, OpError::EmptySource)
            &&& !(h == 0 || w == 0) && block_span(*blocks) is None ==> fails_with(
                r,
                OpError::NonContiguous(Operand::Input),
            )
            &&& !(h == 0 || w == 0) && block_span(*blocks) is Some && s.len != b * c * h * w ==> fails_with(
                r,
                OpError::SizeMismatch(Operand::Input),
            )
            &&& !(h == 0 || w == 0) && block_span(*blocks) is Some && s.len == b * c * h * w ==> (r matches Ok(p) && {
                &&& p.input == s
                &&& p.total == b * c * dst_h * dst_w
                &&& p.kernel == KernelName::UpsampleNearest2dF32
                &&& p.params@ == seq![(b * c) as usize, h as usize, w as usize, dst_h, dst_w]
            })
        },
{
    let (s, planes, src_h, src_w) = match upsample2d_input(dtype, dims, blocks) {
        Ok(v) => v,
        Err(e) => return Err(e),
    };
    proof {
        lemma_prefix_fits(dims@, 2);
        lemma_prod_small(dims@.take(2));
    }
    let total = planes * dst_h * dst_w;
    let mut params: Vec<usize> = Vec::new();
    params.push(planes);
    params.push(src_h);
    params.push(src_w);
    params.push(dst_h);
    params.push(dst_w);
    Ok(SpatialPlan { input: s, total, kernel: KernelName::UpsampleNearest2dF32, params })
}

/// How the source-per-target scale of a bilinear upsampling axis is
/// obtained.
#[derive(Debug, Clone, Copy, PartialEq, Eq, Structural)]
pub enum ScaleRule {
    /// `num / den`: corners aligned, `(src - 1) / (target - 1)`, or the
    /// plain ratio `src / target`.
    Ratio(usize, usize),
    /// Zero: corners aligned onto a single target position.
    Zero,
    /// The inverse of the scale factor that the caller gave.
    InverseFactor,
}

/// The scale rule of one axis of a bilinear upsampling from `src` to
/// `target` positions: with aligned corners `(src-1)/(target-1)` (zero for
/// a single target position), otherwise the inverse of the given factor,
/// or else `src/target`.
pub fn bilinear_scale_rule(align_corners: bool, has_factor: bool, src: usize, target: usize) -> (r: ScaleRule)
    requires
        src >= 1,
    ensures
        align_corners && target > 1 ==> r == ScaleRule::Ratio((src - 1) as usize, (target - 1) as usize),
        align_corners && target <= 1 ==> r == ScaleRule::Zero,
        !align_corners && has_factor ==> r == ScaleRule::InverseFactor,
        !align_corners && !has_factor ==> r == ScaleRule::Ratio(src, target),
{
    if align_corners {
        if target > 1 {
            ScaleRule::Ratio(src - 1, target - 1)
        } else {
            ScaleRule::Zero
        }
    } else if has_factor {
        ScaleRule::InverseFactor
    } else {
        ScaleRule::Ratio(src, target)
    }
}

/// A bilinear upsampling run: the spatial run (its parameter words are
/// `[planes, src_h, src_w, target_h, target_w]`, to which the scales and
/// the corner alignment flag are appended) and the scale rule of each axis.
#[derive(Debug)]
pub struct BilinearPlan {
    pub spatial: SpatialPlan,
    pub scale_h: ScaleRule,
    pub scale_w: ScaleRule,
}

/// Bilinear upsampling of an f32 NCHW tensor to `target_h x target_w`:
/// `b*c*target_h*target_w` outputs.
pub fn plan_upsample_bilinear2d(
    dtype: DType,
    dims: &[usize],
    blocks: &StridedBlocks,
    target_h: usize,
    target_w: usize,
    align_corners: bool,
    has_scale_h: bool,
    has_scale_w: bool,
) -> (r: Result<BilinearPlan, OpError>)
    requires
        dims_fit(dims@),
        dtype == DType::F32 && dims@.len() == 4 ==> dims@[0] * dims@[1] * target_h <= usize::MAX && dims@[0]
            * dims@[1] * target_h * target_w <= usize::MAX,
    ensures
        dtype != DType::F32 ==> fails_with(r, OpError::UnsupportedDType(Operand::Input)),
        dtype == DType::F32 && dims@.len() != 4 ==> fails_with(r, OpError::Rank(Operand::Input)),
        dtype == DType::F32 && dims@.len() == 4 ==> {
            let (b, c, h, w) = (dims@[0] as int, dims@[1] as int, dims@[2] as int, dims@[3] as int);
            let s = block_span(*blocks)->0;
            &&& (h == 0 || w == 0) ==> fails_with(r, OpError::EmptySource)
            &&& !(h == 0 || w == 0) && block_span(*blocks) is None ==> fails_with(
                r,
                OpError::NonContiguous(Operand::Input),
            )
            &&& !(h == 0 || w == 0) && block_span(*blocks) is Some && s.len != b * c * h * w ==> fails_with(
                r,
                OpError::SizeMismatch(Operand::Input),
            )
            &&& !(h == 0 || w == 0) && block_span(*blocks) is Some && s.len == b * c * h * w ==> (r matches Ok(p) && {
                &&& p.spatial.input == s
                &&& p.spatial.total == b * c * target_h * target_w
                &&& p.spatial.kernel == KernelName::UpsampleBilinear2dF32
                &&& p.spatial.params@ == seq![(b * c) as usize, h as usize, w as usize, target_h, target_w]
                &&& (align_corners && target_h > 1 ==> p.scale_h == ScaleRule::Ratio((h - 1) as usize, (target_h - 1) as usize))
                &&& (align_corners && target_h <= 1 ==> p.scale_h == ScaleRule::Zero)
                &&& (!align_corners && has_scale_h ==> p.scale_h == ScaleRule::InverseFactor)
                &&& (!align_corners && !has_scale_h ==> p.scale_h == ScaleRule::Ratio(h as usize, target_h))
                &&& (align_corners && target_w > 1 ==> p.scale_w == ScaleRule::Ratio((w - 1) as usize, (target_w - 1) as usize))
                &&& (align_corners && target_w <= 1 ==> p.scale_w == ScaleRule::Zero)
                &&& (!align_corners && has_scale_w ==> p.scale_w == ScaleRule::InverseFactor)
                &&& (!align_corners && !has_scale_w ==> p.scale_w == ScaleRule::Ratio(w as usize, target_w))
            })
        },
{
    let (s, planes, src_h, src_w) = match upsample2d_input(dtype, dims, blocks) {
        Ok(v) => v,
        Err(e) => return Err(e),
    };
    proof {
        lemma_prefix_fits(dims@, 2);
        lemma_prod_small(dims@.take(2));
    }
    let scale_h = bilinear_scale_rule(align_corners, has_scale_h, src_h, target_h);
    let scale_w = bilinear_scale_rule(align_corners, has_scale_w, src_w, target_w);
    let total = planes * target_h * target_w;
    let mut params: Vec<usize> = Vec::new();
    params.push(planes);
    params.push(src_h);
    params.push(src_w);
    params.push(target_h);
    params.push(target_w);
    Ok(BilinearPlan {
        spatial: SpatialPlan { input: s, total, kernel: KernelName::UpsampleBilinear2dF32, params },
        scale_h,
        scale_w,
    })
}

/// The shape of a 1D convolution (or transposed convolution): batch,
/// channels, kernel size, input and output lengths, padding, stride and
/// dilation.
#[derive(Debug, Clone, Copy, PartialEq, Eq, Structural)]
pub struct Conv1dShape {
    pub b_size: usize,
    pub c_in: usize,
    pub c_out: usize,
    pub k_size: usize,
    pub l_in: usize,
    pub l_out: usize,
    pub padding: usize,
    pub stride: usize,
    pub dilation: usize,
}

/// The shape of a 2D convolution (or transposed convolution).
#[derive(Debug, Clone, Copy, PartialEq, Eq, Structural)]
pub struct Conv2dShape {
    pub b_size: usize,
    pub c_in: usize,
    pub c_out: usize,
    pub k_h: usize,
    pub k_w: usize,
    pub i_h: usize,
    pub i_w: usize,
    pub o_h: usize,
    pub o_w: usize,
    pub padding: usize,
    pub stride: usize,
    pub dilation: usize,
}

/// A convolution run: the input and weight runs, the number of outputs
/// (one kernel thread each), the kernel and its parameter words.
#[derive(Debug)]
pub struct ConvPlan {
    pub input: Span,
    pub weights: Span,
    pub total: usize,
    pub kernel: KernelName,
    pub params: Vec<usize>,
}

/// Products of three factors whose running products fit.
pub open spec fn fits3(a: int, b: int, c: int) -> bool {
    a * b <= usize::MAX && a * b * c <= usize::MAX
}

/// Products of four factors whose running products fit.
pub open spec fn fits4(a: int, b: int, c: int, d: int) -> bool {
    fits3(a, b, c) && a * b * c * d <= usize::MAX
}

/// The checks shared by the convolutions: f32 input and weights, each one
/// contiguous block of the expected element count.
fn conv_inputs(
    in_dtype: DType,
    w_dtype: DType,
    in_blocks: &StridedBlocks,
    w_blocks: &StridedBlocks,
    in_count: usize,
    w_count: usize,
) -> (r: Result<(Span, Span), OpError>)
    ensures
        (in_dtype != DType::F32 || w_dtype != DType::F32) ==> fails_with(r, OpError::UnsupportedDType(Operand::Input)),
        in_dtype == DType::F32 && w_dtype == DType::F32 ==> {
            let si = block_span(*in_blocks)->0;
            let sw = block_span(*w_blocks)->0;
            &&& block_span(*in_blocks) is None ==> fails_with(r, OpError::NonContiguous(Operand::Input))
            &&& block_span(*in_blocks) is Some && block_span(*w_blocks) is None ==> fails_with(
                r,
                OpError::NonContiguous(Operand::Kernel),
            )
            &&& block_span(*in_blocks) is Some && block_span(*w_blocks) is Some ==> {
                &&& (si.len != in_count || sw.len != w_count) ==> fails_with(r, OpError::SizeMismatch(Operand::Input))
                &&& (si.len == in_count && sw.len == w_count) ==> r == Ok::<(Span, Span), OpError>((si, sw))
            }
        },
{
    if in_dtype != DType::F32 || w_dtype != DType::F32 {
        return Err(OpError::UnsupportedDType(Operand::Input));
    }
    let si = match in_blocks.single_span() {
        Some(s) => s,
        None => return Err(OpError::NonContiguous(Operand::Input)),
    };
    let sw = match w_blocks.single_span() {
        Some(s) => s,
        None => return Err(OpError::NonContiguous(Operand::Kernel)),
    };
    if si.len != in_count || sw.len != w_count {
        return Err(OpError::SizeMismatch(Operand::Input));
    }
    Ok((si, sw))
}

/// A 1D convolution (`transpose`: a transposed one) of an f32
/// `(b, c_in, l_in)` input with f32 weights of `c_out*c_in*k_size`
/// elements: `b*c_out*l_out` outputs; the kernel reads
/// `[b, c_in, c_out, k_size, l_in, l_out, padding, stride, dilation]`.
pub fn plan_conv1d(
    transpose: bool,
    in_dtype: DType,
    w_dtype: DType,
    in_blocks: &StridedBlocks,
    w_blocks: &StridedBlocks,
    p: &Conv1dShape,
) -> (r: Result<ConvPlan, OpError>)
    requires
        fits3(p.b_size as int, p.c_in as int, p.l_in as int),
        fits3(p.c_out as int, p.c_in as int, p.k_size as int),
        fits3(p.c_in as int, p.c_out as int, p.k_size as int),
        fits3(p.b_size as int, p.c_out as int, p.l_out as int),
    ensures
        (in_dtype != DType::F32 || w_dtype != DType::F32) ==> fails_with(r, OpError::UnsupportedDType(Operand::Input)),
        in_dtype == DType::F32 && w_dtype == DType::F32 ==> {
            let si = block_span(*in_blocks)->0;
            let sw = block_span(*w_blocks)->0;
            &&& block_span(*in_blocks) is None ==> fails_with(r, OpError::NonContiguous(Operand::Input))
            &&& block_span(*in_blocks) is Some && block_span(*w_blocks) is None ==> fails_with(
                r,
                OpError::NonContiguous(Operand::Kernel),
            )
            &&& block_span(*in_blocks) is Some && block_span(*w_blocks) is Some ==> {
                let ok = si.len == p.b_size * p.c_in * p.l_in && sw.len == p.c_out * p.c_in * p.k_size;
                &&& !ok ==> fails_with(r, OpError::SizeMismatch(Operand::Input))
                &&& ok ==> (r matches Ok(plan) && {
                    &&& plan.input == si
                    &&& plan.weights == sw
                    &&& plan.total == p.b_size * p.c_out * p.l_out
                    &&& plan.kernel == (if transpose {
                        KernelName::ConvTranspose1dF32
                    } else {
                        KernelName::Conv1dF32
                    })
                    &&& plan.params@ == seq![
                        p.b_size,
                        p.c_in,
                        p.c_out,
                        p.k_size,
                        p.l_in,
                        p.l_out,
                        p.padding,
                        p.stride,
                        p.dilation,
                    ]
                })
            }
        },
{
    let in_count = p.b_size * p.c_in * p.l_in;
    let w_count = if transpose {
        p.c_in * p.c_out * p.k_size
    } else {
        p.c_out * p.c_in * p.k_size
    };
    proof {
        assert(p.c_in * p.c_out * p.k_size == p.c_out * p.c_in * p.k_size) by (nonlinear_arith);
    }
    let (si, sw) = match conv_inputs(in_dtype, w_dtype, in_blocks, w_blocks, in_count, w_count) {
        Ok(v) => v,
        Err(e) => return Err(e),
    };
    let total = p.b_size * p.c_out * p.l_out;
    let kernel = if transpose {
        KernelName::ConvTranspose1dF32
    } else {
        KernelName::Conv1dF32
    };
    let mut params: Vec<usize> = Vec::new();
    params.push(p.b_size);
    params.push(p.c_in);
    params.push(p.c_out);
    params.push(p.k_size);
    params.push(p.l_in);
    params.push(p.l_out);
    params.push(p.padding);
    params.push(p.stride);
    params.push(p.dilation);
    proof {
        assert(params@ =~= seq![p.b_size, p.c_in, p.c_out, p.k_size, p.l_in, p.l_out, p.padding, p.stride, p.dilation]);
    }
    Ok(ConvPlan { input: si, weights: sw, total, kernel, params })
}

/// A 2D convolution (`transpose`: a transposed one) of an f32
/// `(b, c_in, i_h, i_w)` input with f32 weights of `c_out*c_in*k_h*k_w`
/// elements: `b*c_out*o_h*o_w` outputs; the kernel reads
/// `[b, c_in, c_out, k_h, k_w, i_h, i_w, o_h, o_w, padding, stride, dilation]`.
pub fn plan_conv2d(
    transpose: bool,
    in_dtype: DType,
    w_dtype: DType,
    in_blocks: &StridedBlocks,
    w_blocks: &StridedBlocks,
    p: &Conv2dShape,
) -> (r: Result<ConvPlan, OpError>)
    requires
        fits4(p.b_size as int, p.c_in as int, p.i_h as int, p.i_w as int),
        fits4(p.c_out as int, p.c_in as int, p.k_h as int, p.k_w as int),
        fits4(p.c_in as int, p.c_out as int, p.k_h as int, p.k_w as int),
        fits4(p.b_size as int, p.c_out as int, p.o_h as int, p.o_w as int),
    ensures
        (in_dtype != DType::F32 || w_dtype != DType::F32) ==> fails_with(r, OpError::UnsupportedDType(Operand::Input)),
        in_dtype == DType::F32 && w_dtype == DType::F32 ==> {
            let si = block_span(*in_blocks)->0;
            let sw = block_span(*w_blocks)->0;
            &&& block_span(*in_blocks) is None ==> fails_with(r, OpError::NonContiguous(Operand::Input))
            &&& block_span(*in_blocks) is Some && block_span(*w_blocks) is None ==> fails_with(
                r,
                OpError::NonContiguous(Operand::Kernel),
            )
            &&& block_span(*in_blocks) is Some && block_span(*w_blocks) is Some ==> {
                let ok = si.len == p.b_size * p.c_in * p.i_h * p.i_w && sw.len == p.c_out * p.c_in * p.k_h * p.k_w;
                &&& !ok ==> fails_with(r, OpError::SizeMismatch(Operand::Input))
                &&& ok ==> (r matches Ok(plan) && {
                    &&& plan.input == si
                    &&& plan.weights == sw
                    &&& plan.total == p.b_size * p.c_out * p.o_h * p.o_w
                    &&& plan.kernel == (if transpose {
                        KernelName::ConvTranspose2dF32
                    } else {
                        KernelName::Conv2dF32
                    })
                    &&& plan.params@ == seq![
                        p.b_size,
                        p.c_in,
                        p.c_out,
                        p.k_h,
                        p.k_w,
                        p.i_h,
                        p.i_w,
                        p.o_h,
                        p.o_w,
                        p.padding,
                        p.stride,
                        p.dilation,
                    ]
                })
            }
        },
{
    let in_count = p.b_size * p.c_in * p.i_h * p.i_w;
    let w_count = if transpose {
        p.c_in * p.c_out * p.k_h * p.k_w
    } else {
        p.c_out * p.c_in * p.k_h * p.k_w
    };
    proof {
        assert(p.c_in * p.c_out * p.k_h * p.k_w == p.c_out * p.c_in * p.k_h * p.k_w) by (nonlinear_arith);
    }
    let (si, sw) = match conv_inputs(in_dtype, w_dtype, in_blocks, w_blocks, in_count, w_count) {
        Ok(v) => v,
        Err(e) => return Err(e),
    };
    let total = p.b_size * p.c_out * p.o_h * p.o_w;
    let kernel = if transpose {
        KernelName::ConvTranspose2dF32
    } else {
        KernelName::Conv2dF32
    };
    let mut params: Vec<usize> = Vec::new();
    params.push(p.b_size);
    params.push(p.c_in);
    params.push(p.c_out);
    params.push(p.k_h);
    params.push(p.k_w);
    params.push(p.i_h);
    params.push(p.i_w);
    params.push(p.o_h);
    params.push(p.o_w);
    params.push(p.padding);
    params.push(p.stride);
    params.push(p.dilation);
    proof {
        assert(params@ =~= seq![
            p.b_size,
            p.c_in,
            p.c_out,
            p.k_h,
            p.k_w,
            p.i_h,
            p.i_w,
            p.o_h,
            p.o_w,
            p.padding,
            p.stride,
            p.dilation,
        ]);
    }
    Ok(ConvPlan { input: si, weights: sw, total, kernel, params })
}

} // verus!
