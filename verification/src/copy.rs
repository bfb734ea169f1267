//! Validation and parameters of the matrix product and of the copies
//! between strided views.

use vstd::prelude::*;

use crate::layout::{block_span, fails_with, DType, OpError, Operand, Span, StridedBlocks};

verus! {

/// A batched matrix product run: the lhs and rhs runs, the element count
/// of the output, whether the rhs is read transposed, and the parameter
/// words `[batch, m, n, k, transposed]` of the GEMM kernel.
#[derive(Debug)]
pub struct MatmulPlan {
    pub lhs: Span,
    pub rhs: Span,
    pub out_len: usize,
    pub rhs_transposed: bool,
    pub params: Vec<usize>,
}

/// The rhs strides of a contiguous `(b, k, n)` rhs.
pub open spec fn rhs_standard(rs: Seq<usize>, n: int, k: int) -> bool {
    let rank = rs.len() as int;
    rs[rank - 1] == 1 && rs[rank - 2] == n && (rank == 2 || rs[rank - 3] == k * n)
}

/// The rhs strides of a contiguous `(b, n, k)` rhs viewed as `(b, k, n)`.
pub open spec fn rhs_transposed_strides(rs: Seq<usize>, n: int, k: int) -> bool {
    let rank = rs.len() as int;
    rs[rank - 2] == 1 && rs[rank - 1] == k && (rank == 2 || rs[rank - 3] == n * k)
}

/// The batched matrix product `(b, m, k) x (b, k, n)` of f32 operands: a
/// contiguous lhs, and an rhs that is contiguous either as `(b, k, n)` or
/// as `(b, n, k)` viewed transposed. `Ok(None)`: one of the sizes is zero,
/// the output is empty and no kernel runs.
pub fn plan_matmul(
    lhs_dtype: DType,
    rhs_dtype: DType,
    bmnk: (usize, usize, usize, usize),
    lhs_blocks: &StridedBlocks,
    rhs_dims: &[usize],
    rhs_stride: &[usize],
    rhs_start: usize,
) -> (r: Result<Option<MatmulPlan>, OpError>)
    requires
        rhs_stride@.len() == rhs_dims@.len(),
        ({
            let (b, m, n, k) = bmnk;
            &&& b * m <= usize::MAX && b * m * k <= usize::MAX && b * m * n <= usize::MAX
            &&& b * n <= usize::MAX && b * n * k <= usize::MAX
            &&& k * n <= usize::MAX && n * k <= usize::MAX
        }),
    ensures
        (lhs_dtype != DType::F32 || rhs_dtype != DType::F32) ==> fails_with(r, OpError::UnsupportedDType(Operand::Input)),
        lhs_dtype == DType::F32 && rhs_dtype == DType::F32 ==> {
            let (b, m, n, k) = bmnk;
            let s = block_span(*lhs_blocks)->0;
            let rank = rhs_dims@.len();
            let std = rhs_standard(rhs_stride@, n as int, k as int);
            let tr = rhs_transposed_strides(rhs_stride@, n as int, k as int);
            &&& (b == 0 || m == 0 || n == 0 || k == 0) ==> r == Ok::<Option<MatmulPlan>, OpError>(None)
            &&& !(b == 0 || m == 0 || n == 0 || k == 0) ==> {
                &&& block_span(*lhs_blocks) is None ==> fails_with(r, OpError::NonContiguous(Operand::Input))
                &&& block_span(*lhs_blocks) is Some && s.len != b * m * k ==> fails_with(r, OpError::SizeMismatch(Operand::Input))
                &&& block_span(*lhs_blocks) is Some && s.len == b * m * k ==> {
                    &&& rank < 2 ==> fails_with(r, OpError::RankBelowTwo)
                    &&& rank >= 2 && !std && !tr ==> fails_with(r, OpError::NonContiguous(Operand::Rhs))
                    &&& rank >= 2 && (std || tr) ==> (r matches Ok(Some(p)) && {
                        &&& p.lhs == s
                        &&& p.rhs == Span { start: rhs_start, len: (b * n * k) as usize }
                        &&& p.out_len == b * m * n
                        &&& p.rhs_transposed == (tr && !std)
                        &&& p.params@ == seq![b, m, n, k, if tr && !std { 1usize } else { 0usize }]
                    })
                }
            }
        },
{
    if lhs_dtype != DType::F32 || rhs_dtype != DType::F32 {
        return Err(OpError::UnsupportedDType(Operand::Input));
    }
    let (bsz, m, n, k) = bmnk;
    if m == 0 || n == 0 || k == 0 || bsz == 0 {
        return Ok(None);
    }
    let s = match lhs_blocks.single_span() {
        Some(s) => s,
        None => return Err(OpError::NonContiguous(Operand::Input)),
    };
    if s.len != bsz * m * k {
        return Err(OpError::SizeMismatch(Operand::Input));
    }
    let rank = rhs_dims.len();
    if rank < 2 {
        return Err(OpError::RankBelowTwo);
    }
    let rs = rhs_stride;
    let standard = rs[rank - 1] == 1 && rs[rank - 2] == n && (rank == 2 || rs[rank - 3] == k * n);
    let transposed = rs[rank - 2] == 1 && rs[rank - 1] == k && (rank == 2 || rs[rank - 3] == n * k);
    if !standard && !transposed {
        return Err(OpError::NonContiguous(Operand::Rhs));
    }
    let rhs_transposed = transposed && !standard;
    let rhs = Span { start: rhs_start, len: bsz * n * k };
    let mut params: Vec<usize> = Vec::new();
    params.push(bsz);
    params.push(m);
    params.push(n);
    params.push(k);
    params.push(if rhs_transposed { 1 } else { 0 });
    Ok(Some(MatmulPlan { lhs: s, rhs, out_len: bsz * m * n, rhs_transposed, params }))
}

/// A copy of a strided f32 view into a contiguous destination region.
#[derive(Debug)]
pub enum CopyPlan {
    /// Nothing to copy.
    Nothing,
    /// A plain buffer copy of the run `src` to the run of the same length
    /// starting at `dst_start`.
    Contiguous { src: Span, dst_start: usize },
    /// The 2D copy kernel over `total` elements, with parameter words
    /// `[rows, row_len, src_row_stride, dst_row_stride, src_offset, dst_offset]`.
    Strided2d { total: usize, params: Vec<usize> },
    /// The indexed copy kernel over `total` elements: block `j` of
    /// `block_len` elements starts at `indices[j]` in the source; parameter
    /// words `[total, block_len, dst_offset]`.
    Indexed { total: usize, indices: Vec<u32>, params: Vec<usize> },
}

/// Copying an f32 view laid out as `blocks` into f32 storage at
/// `dst_offset`, in the order of its elements: a single block is one
/// buffer copy, equally spaced blocks are one 2D copy, other blocks are an
/// indexed copy (the block starts given to the kernel as 32-bit indices).
pub fn plan_copy_strided(src_dtype: DType, dst_dtype: DType, dst_offset: usize, blocks: &StridedBlocks) -> (r: Result<CopyPlan, OpError>)
    requires
        src_dtype == DType::F32 && dst_dtype == DType::F32 ==> match *blocks {
            StridedBlocks::SingleBlock { start_offset, len } => dst_offset + len <= usize::MAX,
            StridedBlocks::UniformBlocks { start_offset, block_len, count, src_stride } => count * block_len <= usize::MAX,
            StridedBlocks::MultipleBlocks { block_start_index, block_len } => block_start_index@.len() * block_len
                <= usize::MAX,
        },
    ensures
        (src_dtype != DType::F32 || dst_dtype != DType::F32) ==> fails_with(r, OpError::UnsupportedDType(Operand::Input)),
        src_dtype == DType::F32 && dst_dtype == DType::F32 ==> (r matches Ok(plan) && match *blocks {
            StridedBlocks::SingleBlock { start_offset, len } => if len == 0 {
                plan is Nothing
            } else {
                plan == CopyPlan::Contiguous { src: Span { start: start_offset, len }, dst_start: dst_offset }
            },
            StridedBlocks::UniformBlocks { start_offset, block_len, count, src_stride } => if count * block_len == 0 {
                plan is Nothing
            } else {
                plan matches CopyPlan::Strided2d { total, params } && total == count * block_len && params@ == seq![
                    count,
                    block_len,
                    src_stride,
                    block_len,
                    start_offset,
                    dst_offset,
                ]
            },
            StridedBlocks::MultipleBlocks { block_start_index, block_len } => {
                let n = block_start_index@.len();
                if n * block_len == 0 {
                    plan is Nothing
                } else {
                    plan matches CopyPlan::Indexed { total, indices, params } && total == n * block_len
                        && indices@ == block_start_index@.map_values(|s: usize| s as u32) && params@ == seq![
                        total,
                        block_len,
                        dst_offset,
                    ]
                }
            },
        }),
{
    if src_dtype != DType::F32 || dst_dtype != DType::F32 {
        return Err(OpError::UnsupportedDType(Operand::Input));
    }
    match blocks {
        StridedBlocks::SingleBlock { start_offset, len } => {
            if *len == 0 {
                return Ok(CopyPlan::Nothing);
            }
            Ok(CopyPlan::Contiguous { src: Span { start: *start_offset, len: *len }, dst_start: dst_offset })
        },
        StridedBlocks::UniformBlocks { start_offset, block_len, count, src_stride } => {
            let total = *count * *block_len;
            if total == 0 {
                return Ok(CopyPlan::Nothing);
            }
            let mut params: Vec<usize> = Vec::new();
            params.push(*count);
            params.push(*block_len);
            params.push(*src_stride);
            params.push(*block_len);
            params.push(*start_offset);
            params.push(dst_offset);
            Ok(CopyPlan::Strided2d { total, params })
        },
        StridedBlocks::MultipleBlocks { block_start_index, block_len } => {
            let n = block_start_index.len();
            let total = n * *block_len;
            if total == 0 {
                return Ok(CopyPlan::Nothing);
            }
            let mut indices: Vec<u32> = Vec::with_capacity(n);
            let mut j: usize = 0;
            while j < n
                invariant
                    n == block_start_index@.len(),
                    j <= n,
                    indices@ == block_start_index@.take(j as int).map_values(|s: usize| s as u32),
                decreases n - j,
            {
                indices.push(block_start_index[j] as u32);
                j = j + 1;
                proof {
                    assert(indices@ =~= block_start_index@.take(j as int).map_values(|s: usize| s as u32));
                }
            }
            proof {
                assert(block_start_index@.take(n as int) =~= block_start_index@);
            }
            let mut params: Vec<usize> = Vec::new();
            params.push(total);
            params.push(*block_len);
            params.push(dst_offset);
            Ok(CopyPlan::Indexed { total, indices, params })
        },
    }
}

/// A 2D copy of `d1` rows of `d2` f32 elements between two storages, rows
/// `src_stride1` (resp. `dst_stride1`) elements apart, from `src_offset`
/// to `dst_offset`. `Ok(None)`: nothing to copy; otherwise the kernel runs
/// over `d1*d2` elements with the parameter words returned.
pub fn plan_copy2d(
    src_dtype: DType,
    dst_dtype: DType,
    d1: usize,
    d2: usize,
    src_stride1: usize,
    dst_stride1: usize,
    src_offset: usize,
    dst_offset: usize,
) -> (r: Result<Option<(usize, Vec<usize>)>, OpError>)
    requires
        d1 * d2 <= usize::MAX,
    ensures
        (src_dtype != DType::F32 || dst_dtype != DType::F32) ==> fails_with(r, OpError::UnsupportedDType(Operand::Input)),
        src_dtype == DType::F32 && dst_dtype == DType::F32 && d1 * d2 == 0 ==> r matches Ok(None),
        src_dtype == DType::F32 && dst_dtype == DType::F32 && d1 * d2 != 0 ==> (r matches Ok(Some((total, params))) && total
            == d1 * d2 && params@ == seq![d1, d2, src_stride1, dst_stride1, src_offset, dst_offset]),
{
    if src_dtype != DType::F32 || dst_dtype != DType::F32 {
        return Err(OpError::UnsupportedDType(Operand::Input));
    }
    let total = d1 * d2;
    if total == 0 {
        return Ok(None);
    }
    let mut params: Vec<usize> = Vec::new();
    params.push(d1);
    params.push(d2);
    params.push(src_stride1);
    params.push(dst_stride1);
    params.push(src_offset);
    params.push(dst_offset);
    Ok(Some((total, params)))
}

} // verus!
