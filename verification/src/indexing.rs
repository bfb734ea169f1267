//! Validation and parameters of the indexed operations: gather, select,
//! scatter and index-add.

use vstd::prelude::*;

use crate::kernel::KernelName;
use crate::layout::{block_span, fails_with, DType, OpError, Operand, Span, StridedBlocks};
use crate::shape::{dims_fit, lemma_prefix_fits, lemma_prod_append, lemma_prod_small, prod, product};

verus! {

/// A gather or select run: the source and index runs, the element count
/// of the output (one kernel thread each), the kernel and its parameter
/// words.
#[derive(Debug)]
pub struct GatherPlan {
    pub src: Span,
    pub ids: Span,
    pub total: usize,
    pub kernel: KernelName,
    pub params: Vec<usize>,
}

/// Gathering rows of an f32 `(rows, dim_len)` embedding along dimension 0
/// with a u32 `(n, inner)` index tensor: `n*inner` outputs, `inner` at most
/// `dim_len`; the kernel reads `[n*inner, inner, dim_len, 0]`.
pub fn plan_gather(
    dtype: DType,
    dims: &[usize],
    blocks: &StridedBlocks,
    ids_dtype: DType,
    ids_dims: &[usize],
    ids_blocks: &StridedBlocks,
    dim: usize,
) -> (r: Result<GatherPlan, OpError>)
    requires
        dims_fit(dims@),
        dims_fit(ids_dims@),
    ensures
        dtype != DType::F32 ==> fails_with(r, OpError::UnsupportedDType(Operand::Input)),
        dtype == DType::F32 && dim != 0 ==> fails_with(r, OpError::DimNotZero),
        dtype == DType::F32 && dim == 0 ==> {
            let se = block_span(*blocks)->0;
            let si = block_span(*ids_blocks)->0;
            &&& block_span(*blocks) is None ==> fails_with(r, OpError::NonContiguous(Operand::Input))
            &&& block_span(*blocks) is Some && dims@.len() != 2 ==> fails_with(r, OpError::Rank(Operand::Input))
            &&& block_span(*blocks) is Some && dims@.len() == 2 ==> {
                &&& se.len != dims@[0] * dims@[1] ==> fails_with(r, OpError::SizeMismatch(Operand::Input))
                &&& se.len == dims@[0] * dims@[1] ==> {
                    &&& ids_dtype != DType::U32 ==> fails_with(r, OpError::UnsupportedDType(Operand::Ids))
                    &&& ids_dtype == DType::U32 && block_span(*ids_blocks) is None ==> fails_with(
                        r,
                        OpError::NonContiguous(Operand::Ids),
                    )
                    &&& ids_dtype == DType::U32 && block_span(*ids_blocks) is Some ==> {
                        &&& ids_dims@.len() != 2 ==> fails_with(r, OpError::Rank(Operand::Ids))
                        &&& ids_dims@.len() == 2 && ids_dims@[1] > dims@[1] ==> fails_with(r, OpError::IdsInnerTooLarge)
                        &&& ids_dims@.len() == 2 && ids_dims@[1] <= dims@[1] && si.len != ids_dims@[0]
                            * ids_dims@[1] ==> fails_with(r, OpError::SizeMismatch(Operand::Ids))
                        &&& ids_dims@.len() == 2 && ids_dims@[1] <= dims@[1] && si.len == ids_dims@[0]
                            * ids_dims@[1] ==> (r matches Ok(p) && {
                            &&& p.src == se
                            &&& p.ids == si
                            &&& p.total == si.len
                            &&& p.kernel == KernelName::GatherRowsF32
                            &&& p.params@ == seq![si.len, ids_dims@[1], dims@[1], 0usize]
                        })
                    }
                }
            }
        },
{
    if dtype != DType::F32 {
        return Err(OpError::UnsupportedDType(Operand::Input));
    }
    if dim != 0 {
        return Err(OpError::DimNotZero);
    }
    let se = match blocks.single_span() {
        Some(s) => s,
        None => return Err(OpError::NonContiguous(Operand::Input)),
    };
    if dims.len() != 2 {
        return Err(OpError::Rank(Operand::Input));
    }
    proof {
        lemma_prefix_fits(dims@, 2);
        lemma_prod_small(dims@);
    }
    let (rows, dim_len) = (dims[0], dims[1]);
    if se.len != rows * dim_len {
        return Err(OpError::SizeMismatch(Operand::Input));
    }
    if ids_dtype != DType::U32 {
        return Err(OpError::UnsupportedDType(Operand::Ids));
    }
    let si = match ids_blocks.single_span() {
        Some(s) => s,
        None => return Err(OpError::NonContiguous(Operand::Ids)),
    };
    if ids_dims.len() != 2 {
        return Err(OpError::Rank(Operand::Ids));
    }
    if ids_dims[1] > dim_len {
        return Err(OpError::IdsInnerTooLarge);
    }
    proof {
        lemma_prefix_fits(ids_dims@, 2);
        lemma_prod_small(ids_dims@);
    }
    if si.len != ids_dims[0] * ids_dims[1] {
        return Err(OpError::SizeMismatch(Operand::Ids));
    }
    let inner = ids_dims[1];
    let mut params: Vec<usize> = Vec::new();
    params.push(si.len);
    params.push(inner);
    params.push(dim_len);
    params.push(0);
    Ok(GatherPlan { src: se, ids: si, total: si.len, kernel: KernelName::GatherRowsF32, params })
}

/// Selecting rows of an f32 `(rows, dim_len)` source along dimension 0
/// with a u32 vector of `n` indices: `n*dim_len` outputs; the kernel reads
/// `[n*dim_len, dim_len, dim_len, 0]`.
pub fn plan_index_select(
    dtype: DType,
    dims: &[usize],
    blocks: &StridedBlocks,
    ids_dtype: DType,
    ids_dims: &[usize],
    ids_blocks: &StridedBlocks,
    dim: usize,
) -> (r: Result<GatherPlan, OpError>)
    requires
        dims_fit(dims@),
        dtype == DType::F32 && dims@.len() == 2 && ids_dims@.len() == 1 ==> ids_dims@[0] * dims@[1] <= usize::MAX,
    ensures
        dtype != DType::F32 ==> fails_with(r, OpError::UnsupportedDType(Operand::Input)),
        dtype == DType::F32 && dim != 0 ==> fails_with(r, OpError::DimNotZero),
        dtype == DType::F32 && dim == 0 && dims@.len() != 2 ==> fails_with(r, OpError::Rank(Operand::Src)),
        dtype == DType::F32 && dim == 0 && dims@.len() == 2 ==> {
            let ss = block_span(*blocks)->0;
            let si = block_span(*ids_blocks)->0;
            &&& block_span(*blocks) is None ==> fails_with(r, OpError::NonContiguous(Operand::Src))
            &&& block_span(*blocks) is Some && ss.len != dims@[0] * dims@[1] ==> fails_with(
                r,
                OpError::SizeMismatch(Operand::Src),
            )
            &&& block_span(*blocks) is Some && ss.len == dims@[0] * dims@[1] ==> {
                &&& ids_dtype != DType::U32 ==> fails_with(r, OpError::UnsupportedDType(Operand::Ids))
                &&& ids_dtype == DType::U32 && ids_dims@.len() != 1 ==> fails_with(r, OpError::Rank(Operand::Ids))
                &&& ids_dtype == DType::U32 && ids_dims@.len() == 1 ==> {
                    &&& block_span(*ids_blocks) is None ==> fails_with(r, OpError::NonContiguous(Operand::Ids))
                    &&& block_span(*ids_blocks) is Some && si.len != ids_dims@[0] ==> fails_with(
                        r,
                        OpError::SizeMismatch(Operand::Ids),
                    )
                    &&& block_span(*ids_blocks) is Some && si.len == ids_dims@[0] ==> (r matches Ok(p) && {
                        &&& p.src == ss
                        &&& p.ids == si
                        &&& p.total == ids_dims@[0] * dims@[1]
                        &&& p.kernel == KernelName::IndexSelectF32
                        &&& p.params@ == seq![(ids_dims@[0] * dims@[1]) as usize, dims@[1], dims@[1], 0usize]
                    })
                }
            }
        },
{
    if dtype != DType::F32 {
        return Err(OpError::UnsupportedDType(Operand::Input));
    }
    if dim != 0 {
        return Err(OpError::DimNotZero);
    }
    if dims.len() != 2 {
        return Err(OpError::Rank(Operand::Src));
    }
    let (rows, dim_len) = (dims[0], dims[1]);
    let ss = match blocks.single_span() {
        Some(s) => s,
        None => return Err(OpError::NonContiguous(Operand::Src)),
    };
    proof {
        lemma_prefix_fits(dims@, 2);
        lemma_prod_small(dims@);
    }
    if ss.len != rows * dim_len {
        return Err(OpError::SizeMismatch(Operand::Src));
    }
    if ids_dtype != DType::U32 {
        return Err(OpError::UnsupportedDType(Operand::Ids));
    }
    if ids_dims.len() != 1 {
        return Err(OpError::Rank(Operand::Ids));
    }
    let n_ids = ids_dims[0];
    let si = match ids_blocks.single_span() {
        Some(s) => s,
        None => return Err(OpError::NonContiguous(Operand::Ids)),
    };
    if si.len != n_ids {
        return Err(OpError::SizeMismatch(Operand::Ids));
    }
    let total = n_ids * dim_len;
    let mut params: Vec<usize> = Vec::new();
    params.push(total);
    params.push(dim_len);
    params.push(dim_len);
    params.push(0);
    Ok(GatherPlan { src: ss, ids: si, total, kernel: KernelName::IndexSelectF32, params })
}

/// The runs of the three operands of a scatter or index-add.
#[derive(Debug, Clone, Copy, PartialEq, Eq, Structural)]
pub struct ScatterSpans {
    pub dst: Span,
    pub src: Span,
    pub ids: Span,
}

/// A scatter run: the operand runs, one kernel thread per index, and the
/// parameter words
/// `[dst_dim_len, dst_right_len, ids_dim_len, ids_right_len, ids_left_len]`.
#[derive(Debug)]
pub struct ScatterPlan {
    pub spans: ScatterSpans,
    pub total: usize,
    pub params: Vec<usize>,
}

/// The checks shared by the scatters: contiguous destination, source and
/// indices, equal ranks of destination and indices with `dim` below them,
/// each operand holding the elements of its shape and the source as many
/// as the indices.
fn scatter_spans(
    dst_dims: &[usize],
    dst_blocks: &StridedBlocks,
    src_blocks: &StridedBlocks,
    ids_dims: &[usize],
    ids_blocks: &StridedBlocks,
    dim: usize,
    rank_first: bool,
) -> (r: Result<ScatterSpans, OpError>)
    requires
        dims_fit(dst_dims@),
        dims_fit(ids_dims@),
    ensures
        r == scatter_check(dst_dims@, *dst_blocks, *src_blocks, ids_dims@, *ids_blocks, dim, rank_first),
{
    let rank_ok = dst_dims.len() == ids_dims.len() && dim < dst_dims.len();
    if rank_first && !rank_ok {
        return Err(OpError::RankMismatch);
    }
    let d = match dst_blocks.single_span() {
        Some(s) => s,
        None => return Err(OpError::NonContiguous(Operand::Dst)),
    };
    let s = match src_blocks.single_span() {
        Some(s) => s,
        None => return Err(OpError::NonContiguous(Operand::Src)),
    };
    let i = match ids_blocks.single_span() {
        Some(s) => s,
        None => return Err(OpError::NonContiguous(Operand::Ids)),
    };
    if !rank_first && !rank_ok {
        return Err(OpError::RankMismatch);
    }
    let dst_count = product(dst_dims, 0, dst_dims.len());
    let ids_count = product(ids_dims, 0, ids_dims.len());
    proof {
        assert(dst_dims@.subrange(0, dst_dims@.len() as int) =~= dst_dims@);
        assert(ids_dims@.subrange(0, ids_dims@.len() as int) =~= ids_dims@);
    }
    if d.len != dst_count || s.len != i.len || i.len != ids_count {
        return Err(OpError::SizeMismatch(Operand::Input));
    }
    Ok(ScatterSpans { dst: d, src: s, ids: i })
}

/// The outcome of the checks shared by the scatters; `rank_first`: the
/// ranks are checked before the layouts (scatter-add) rather than after
/// them (scatter).
pub open spec fn scatter_check(
    dst_dims: Seq<usize>,
    dst_blocks: StridedBlocks,
    src_blocks: StridedBlocks,
    ids_dims: Seq<usize>,
    ids_blocks: StridedBlocks,
    dim: usize,
    rank_first: bool,
) -> Result<ScatterSpans, OpError> {
    let rank_ok = dst_dims.len() == ids_dims.len() && dim < dst_dims.len();
    if rank_first && !rank_ok {
        Err(OpError::RankMismatch)
    } else if block_span(dst_blocks) is None {
        Err(OpError::NonContiguous(Operand::Dst))
    } else if block_span(src_blocks) is None {
        Err(OpError::NonContiguous(Operand::Src))
    } else if block_span(ids_blocks) is None {
        Err(OpError::NonContiguous(Operand::Ids))
    } else if !rank_ok {
        Err(OpError::RankMismatch)
    } else {
        let d = block_span(dst_blocks)->0;
        let s = block_span(src_blocks)->0;
        let i = block_span(ids_blocks)->0;
        if d.len != prod(dst_dims) || s.len != i.len || i.len != prod(ids_dims) {
            Err(OpError::SizeMismatch(Operand::Input))
        } else {
            Ok(ScatterSpans { dst: d, src: s, ids: i })
        }
    }
}

/// Scattering an f32 source into an f32 destination along `dim` with a
/// u32 index tensor: `dst[left, ids[left, i, right], right] = src[left, i, right]`.
/// One kernel thread per index: `ids_left_len * ids_dim_len * ids_right_len`
/// threads, which is the index count.
#[verifier::spinoff_prover]
#[verifier::rlimit(40)]
pub fn plan_scatter(
    dst_dtype: DType,
    src_dtype: DType,
    ids_dtype: DType,
    dst_dims: &[usize],
    dst_blocks: &StridedBlocks,
    src_blocks: &StridedBlocks,
    ids_dims: &[usize],
    ids_blocks: &StridedBlocks,
    dim: usize,
) -> (r: Result<ScatterPlan, OpError>)
    requires
        dims_fit(dst_dims@),
        dims_fit(ids_dims@),
    ensures
        (dst_dtype != DType::F32 || src_dtype != DType::F32) ==> fails_with(r, OpError::UnsupportedDType(Operand::Values)),
        dst_dtype == DType::F32 && src_dtype == DType::F32 && ids_dtype != DType::U32 ==> fails_with(
            r,
            OpError::UnsupportedDType(Operand::Ids),
        ),
        dst_dtype == DType::F32 && src_dtype == DType::F32 && ids_dtype == DType::U32 ==> {
            let c = scatter_check(dst_dims@, *dst_blocks, *src_blocks, ids_dims@, *ids_blocks, dim, false);
            &&& c matches Err(e) ==> fails_with(r, e)
            &&& c matches Ok(spans) ==> (r matches Ok(p) && {
                let d = dim as int;
                &&& p.spans == spans
                &&& p.total == spans.ids.len
                &&& p.total == prod(ids_dims@.take(d)) * ids_dims@[d] * prod(ids_dims@.skip(d + 1))
                &&& p.params@ == seq![
                    dst_dims@[d],
                    prod(dst_dims@.skip(d + 1)) as usize,
                    ids_dims@[d],
                    prod(ids_dims@.skip(d + 1)) as usize,
                    prod(ids_dims@.take(d)) as usize,
                ]
            })
        },
{
    if dst_dtype != DType::F32 || src_dtype != DType::F32 {
        return Err(OpError::UnsupportedDType(Operand::Values));
    }
    if ids_dtype != DType::U32 {
        return Err(OpError::UnsupportedDType(Operand::Ids));
    }
    let spans = match scatter_spans(dst_dims, dst_blocks, src_blocks, ids_dims, ids_blocks, dim, false) {
        Ok(s) => s,
        Err(e) => return Err(e),
    };
    let ids_dim_len = ids_dims[dim];
    let dst_dim_len = dst_dims[dim];
    let ids_right_len = product(ids_dims, dim + 1, ids_dims.len());
    let dst_right_len = product(dst_dims, dim + 1, dst_dims.len());
    let ids_left_len = product(ids_dims, 0, dim);
    proof {
        let s = ids_dims@;
        let d = dim as int;
        assert(s.subrange(0, d) =~= s.take(d));
        assert(s.subrange(d + 1, s.len() as int) =~= s.skip(d + 1));
        assert(dst_dims@.subrange(d + 1, dst_dims@.len() as int) =~= dst_dims@.skip(d + 1));
        assert(s =~= s.take(d) + seq![s[d]] + s.skip(d + 1));
        lemma_prod_append(s.take(d) + seq![s[d]], s.skip(d + 1));
        lemma_prod_append(s.take(d), seq![s[d]]);
        reveal_with_fuel(prod, 2);
        assert(seq![s[d]].drop_last() =~= Seq::<usize>::empty());
    }
    let total = spans.ids.len;
    let mut params: Vec<usize> = Vec::new();
    params.push(dst_dim_len);
    params.push(dst_right_len);
    params.push(ids_dim_len);
    params.push(ids_right_len);
    params.push(ids_left_len);
    Ok(ScatterPlan { spans, total, params })
}

/// The index types that the host-side index operations accept.
pub open spec fn host_index_dtype(dtype: DType) -> bool {
    dtype == DType::U32 || dtype == DType::I64 || dtype == DType::U8
}

/// Checking a scatter-add of an f32 source into an f32 destination along
/// `dim`: the addition itself runs on the host (it needs float atomics on
/// the device), over the operand runs returned here. Indices may be u32,
/// i64 or u8.
pub fn plan_scatter_add(
    dst_dtype: DType,
    src_dtype: DType,
    ids_dtype: DType,
    dst_dims: &[usize],
    dst_blocks: &StridedBlocks,
    src_blocks: &StridedBlocks,
    ids_dims: &[usize],
    ids_blocks: &StridedBlocks,
    dim: usize,
) -> (r: Result<ScatterSpans, OpError>)
    requires
        dims_fit(dst_dims@),
        dims_fit(ids_dims@),
    ensures
        (dst_dtype != DType::F32 || src_dtype != DType::F32) ==> fails_with(r, OpError::UnsupportedDType(Operand::Values)),
        dst_dtype == DType::F32 && src_dtype == DType::F32 ==> {
            let c = scatter_check(dst_dims@, *dst_blocks, *src_blocks, ids_dims@, *ids_blocks, dim, true);
            &&& c matches Err(e) ==> fails_with(r, e)
            &&& c is Ok && !host_index_dtype(ids_dtype) ==> fails_with(r, OpError::UnsupportedDType(Operand::Ids))
            &&& c is Ok && host_index_dtype(ids_dtype) ==> r == c
        },
{
    if dst_dtype != DType::F32 || src_dtype != DType::F32 {
        return Err(OpError::UnsupportedDType(Operand::Values));
    }
    let spans = match scatter_spans(dst_dims, dst_blocks, src_blocks, ids_dims, ids_blocks, dim, true) {
        Ok(s) => s,
        Err(e) => return Err(e),
    };
    match ids_dtype {
        DType::U32 | DType::I64 | DType::U8 => Ok(spans),
        _ => Err(OpError::UnsupportedDType(Operand::Ids)),
    }
}

/// Checking an index-add of an f32 source into an f32 tensor along `dim`:
/// the addition runs on the host over the operand runs returned here.
/// Every operand must be one contiguous block holding the elements of its
/// shape; indices may be u32, i64 or u8.
pub fn plan_index_add(
    dtype: DType,
    src_dtype: DType,
    ids_dtype: DType,
    dims: &[usize],
    blocks: &StridedBlocks,
    src_dims: &[usize],
    src_blocks: &StridedBlocks,
    ids_dims: &[usize],
    ids_blocks: &StridedBlocks,
    dim: usize,
) -> (r: Result<ScatterSpans, OpError>)
    requires
        dims_fit(dims@),
        dims_fit(src_dims@),
        dims_fit(ids_dims@),
    ensures
        (dtype != DType::F32 || src_dtype != DType::F32) ==> fails_with(r, OpError::UnsupportedDType(Operand::Values)),
        dtype == DType::F32 && src_dtype == DType::F32 && dim >= dims@.len() ==> fails_with(r, OpError::RankMismatch),
        dtype == DType::F32 && src_dtype == DType::F32 && dim < dims@.len() ==> {
            let d = block_span(*blocks)->0;
            let s = block_span(*src_blocks)->0;
            let i = block_span(*ids_blocks)->0;
            &&& block_span(*blocks) is None ==> fails_with(r, OpError::NonContiguous(Operand::Dst))
            &&& block_span(*blocks) is Some && block_span(*src_blocks) is None ==> fails_with(
                r,
                OpError::NonContiguous(Operand::Src),
            )
            &&& block_span(*blocks) is Some && block_span(*src_blocks) is Some && block_span(*ids_blocks) is None
                ==> fails_with(r, OpError::NonContiguous(Operand::Ids))
            &&& block_span(*blocks) is Some && block_span(*src_blocks) is Some && block_span(*ids_blocks) is Some
                ==> {
                let sizes_ok = d.len == prod(dims@) && s.len == prod(src_dims@) && i.len == prod(ids_dims@);
                &&& !sizes_ok ==> fails_with(r, OpError::SizeMismatch(Operand::Input))
                &&& sizes_ok && !host_index_dtype(ids_dtype) ==> fails_with(r, OpError::UnsupportedDType(Operand::Ids))
                &&& sizes_ok && host_index_dtype(ids_dtype) ==> r == Ok::<ScatterSpans, OpError>(
                    ScatterSpans { dst: d, src: s, ids: i },
                )
            }
        },
{
    if dtype != DType::F32 || src_dtype != DType::F32 {
        return Err(OpError::UnsupportedDType(Operand::Values));
    }
    if dim >= dims.len() {
        return Err(OpError::RankMismatch);
    }
    let d = match blocks.single_span() {
        Some(s) => s,
        None => return Err(OpError::NonContiguous(Operand::Dst)),
    };
    let s = match src_blocks.single_span() {
        Some(s) => s,
        None => return Err(OpError::NonContiguous(Operand::Src)),
    };
    let i = match ids_blocks.single_span() {
        Some(s) => s,
        None => return Err(OpError::NonContiguous(Operand::Ids)),
    };
    let dst_count = product(dims, 0, dims.len());
    let src_count = product(src_dims, 0, src_dims.len());
    let ids_count = product(ids_dims, 0, ids_dims.len());
    proof {
        assert(dims@.subrange(0, dims@.len() as int) =~= dims@);
        assert(src_dims@.subrange(0, src_dims@.len() as int) =~= src_dims@);
        assert(ids_dims@.subrange(0, ids_dims@.len() as int) =~= ids_dims@);
    }
    if d.len != dst_count || s.len != src_count || i.len != ids_count {
        return Err(OpError::SizeMismatch(Operand::Input));
    }
    match ids_dtype {
        DType::U32 | DType::I64 | DType::U8 => Ok(ScatterSpans { dst: d, src: s, ids: i }),
        _ => Err(OpError::UnsupportedDType(Operand::Ids)),
    }
}

} // verus!
