//! Dispatch geometry and push-constant blocks of the compute kernels.
//!
//! The kernels of the catalogue all take their parameters in a storage
//! buffer and declare no push-constant block; the dispatches below that
//! carry push-constant words describe the push-constant protocol of the
//! element-wise, copy, gather, matrix-vector, quantized, normalisation and
//! rotary-embedding entry points, and `binding::run_bindings` refuses them
//! for any kernel whose layout declares no such block.

use vstd::prelude::*;

use crate::error::VulkanKernelError;

verus! {

/// Threads per workgroup of the element-wise kernels.
pub const WORKGROUP_SIZE: u64 = 256;

/// Threads per workgroup of the f16 fill kernel.
pub const FILL_F16_WORKGROUP_SIZE: u64 = 64;

/// A dispatch: the workgroup grid, and the push-constant words handed to
/// the kernel (none for kernels that take their parameters in a buffer).
#[derive(Debug)]
pub struct Dispatch {
    pub x: u32,
    pub y: u32,
    pub z: u32,
    pub push_constants: Vec<u32>,
}

/// Smallest number of groups of `size` that covers `total` items.
pub open spec fn ceil_div(total: int, size: int) -> int {
    (total + size - 1) / size
}

/// The words `v[0..4]` as 32-bit values, padded with zeros to four words.
pub open spec fn pack4(v: Seq<usize>) -> Seq<u32> {
    Seq::new(4, |i: int| if i < v.len() { v[i] as u32 } else { 0u32 })
}

/// Number of workgroups of `workgroup_size` threads that cover `total`
/// items, as the 32-bit count that a dispatch takes.
pub fn linear_groups(total: u64, workgroup_size: u64) -> (r: u32)
    requires
        workgroup_size > 0,
        total + workgroup_size - 1 <= u64::MAX,
    ensures
        r == ceil_div(total as int, workgroup_size as int) as u32,
{
    ((total + (workgroup_size - 1)) / workgroup_size) as u32
}

/// A one-dimensional dispatch without push constants.
fn linear_dispatch(total: u64, workgroup_size: u64) -> (r: Dispatch)
    requires
        workgroup_size > 0,
        total + workgroup_size - 1 <= u64::MAX,
    ensures
        r.x == ceil_div(total as int, workgroup_size as int) as u32,
        r.y == 1 && r.z == 1,
        r.push_constants@ == Seq::<u32>::empty(),
{
    Dispatch { x: linear_groups(total, workgroup_size), y: 1, z: 1, push_constants: Vec::new() }
}

/// Dispatch of a single-output-buffer kernel (the test fill kernels):
/// `total` items in groups of `workgroup_size`.
pub fn single_buffer_dispatch(workgroup_size: u64, total: u64) -> (r: Dispatch)
    requires
        workgroup_size > 0,
        total + workgroup_size - 1 <= u64::MAX,
    ensures
        r.x == ceil_div(total as int, workgroup_size as int) as u32,
        r.y == 1 && r.z == 1,
        r.push_constants@ == Seq::<u32>::empty(),
{
    linear_dispatch(total, workgroup_size)
}

/// Dispatch of the element-wise kernels that take their parameters in a
/// buffer (affine, unary, binary, comparison, select, copy, gather,
/// scatter, pooling, upsampling and convolution): one thread per output
/// item, 256 threads per workgroup.
pub fn elementwise_dispatch(total: u64) -> (r: Dispatch)
    requires
        total + 255 <= u64::MAX,
    ensures
        r.x == ceil_div(total as int, 256) as u32,
        r.y == 1 && r.z == 1,
        r.push_constants@ == Seq::<u32>::empty(),
{
    linear_dispatch(total, WORKGROUP_SIZE)
}

/// Dispatch of the tiled GEMM: `(ceil(m/16), ceil(n/16), batch)`
/// workgroups of 16x16 threads.
pub fn gemm_dispatch(batch: usize, m: usize, n: usize) -> (r: Dispatch)
    requires
        m + 15 <= usize::MAX,
        n + 15 <= usize::MAX,
    ensures
        r.x == ceil_div(m as int, 16) as u32,
        r.y == ceil_div(n as int, 16) as u32,
        r.z == batch as u32,
        r.push_constants@ == Seq::<u32>::empty(),
{
    Dispatch {
        x: ((m + 15) / 16) as u32,
        y: ((n + 15) / 16) as u32,
        z: batch as u32,
        push_constants: Vec::new(),
    }
}

/// Dispatch of the row-wise kernels (last-axis reductions): one workgroup
/// per row.
pub fn rows_dispatch(rows: usize) -> (r: Dispatch)
    ensures
        r.x == rows as u32,
        r.y == 1 && r.z == 1,
        r.push_constants@ == Seq::<u32>::empty(),
{
    Dispatch { x: rows as u32, y: 1, z: 1, push_constants: Vec::new() }
}

/// Appends `pack4(v)` to `out`.
fn push_pack4(out: &mut Vec<u32>, v: &[usize])
    ensures
        final(out)@ == old(out)@ + pack4(v@),
{
    let mut i: usize = 0;
    let ghost start = old(out)@;
    while i < 4
        invariant
            i <= 4,
            out@ == start + pack4(v@).take(i as int),
        decreases 4 - i,
    {
        let w: u32 = if i < v.len() {
            v[i] as u32
        } else {
            0
        };
        out.push(w);
        i = i + 1;
        proof {
            assert(pack4(v@).take(i as int) =~= pack4(v@).take(i - 1).push(w));
        }
    }
    proof {
        assert(pack4(v@).take(4) =~= pack4(v@));
    }
}

/// Dispatch of the general strided copy: `total` items, 256 threads per
/// workgroup; the push constants are
/// `[total, rank, dims[0..4], src_strides[0..4], dst_strides[0..4], src_offset, dst_offset]`,
/// each list padded with zeros to four entries. More than four dimensions
/// are refused.
pub fn copy_dispatch(
    total: usize,
    dims: &[usize],
    src_strides: &[usize],
    dst_strides: &[usize],
    src_offset: usize,
    dst_offset: usize,
) -> (r: Result<Dispatch, VulkanKernelError>)
    requires
        total + 255 <= u64::MAX,
    ensures
        dims@.len() > 4 <==> r is Err,
        r matches Ok(d) ==> {
            &&& d.x == ceil_div(total as int, 256) as u32
            &&& d.y == 1 && d.z == 1
            &&& d.push_constants@ == seq![total as u32, dims@.len() as u32] + pack4(dims@)
                + pack4(src_strides@) + pack4(dst_strides@) + seq![src_offset as u32, dst_offset as u32]
        },
{
    if dims.len() > 4 {
        return Err(VulkanKernelError::CommandBuffer(String::from_str("copy: more than 4 dimensions")));
    }
    let mut pc: Vec<u32> = Vec::new();
    pc.push(total as u32);
    pc.push(dims.len() as u32);
    push_pack4(&mut pc, dims);
    push_pack4(&mut pc, src_strides);
    push_pack4(&mut pc, dst_strides);
    pc.push(src_offset as u32);
    pc.push(dst_offset as u32);
    let d = linear_dispatch(total as u64, WORKGROUP_SIZE);
    Ok(Dispatch { x: d.x, y: 1, z: 1, push_constants: pc })
}

/// Dispatch of the broadcast binary element-wise kernels over `total`
/// output items: 256 threads per workgroup; push constants
/// `[total, lhs_rank, rhs_rank, lhs_dims[0..4], rhs_dims[0..4]]`, the dims
/// padded with zeros. Operands of more than four dimensions are refused.
pub fn elem_binary_dispatch(total: u64, lhs_dims: &[usize], rhs_dims: &[usize]) -> (r: Result<Dispatch, VulkanKernelError>)
    requires
        total + 255 <= u64::MAX,
    ensures
        (lhs_dims@.len() > 4 || rhs_dims@.len() > 4) <==> r is Err,
        r matches Ok(d) ==> {
            &&& d.x == ceil_div(total as int, 256) as u32
            &&& d.y == 1 && d.z == 1
            &&& d.push_constants@ == seq![total as u32, lhs_dims@.len() as u32, rhs_dims@.len() as u32]
                + pack4(lhs_dims@) + pack4(rhs_dims@)
        },
{
    if lhs_dims.len() > 4 || rhs_dims.len() > 4 {
        return Err(VulkanKernelError::Message(String::from_str("elementwise binary: more than 4 dims")));
    }
    let mut pc: Vec<u32> = Vec::new();
    pc.push(total as u32);
    pc.push(lhs_dims.len() as u32);
    pc.push(rhs_dims.len() as u32);
    push_pack4(&mut pc, lhs_dims);
    push_pack4(&mut pc, rhs_dims);
    Ok(Dispatch { x: linear_groups(total, WORKGROUP_SIZE), y: 1, z: 1, push_constants: pc })
}

/// Dispatch of the unary element-wise kernels over `total` items: 256
/// threads per workgroup; the push-constant block is the eleven words that
/// the shared module declares, holding `total` and zeros.
pub fn elem_unary_dispatch(total: u64) -> (r: Dispatch)
    requires
        total + 255 <= u64::MAX,
    ensures
        r.x == ceil_div(total as int, 256) as u32,
        r.y == 1 && r.z == 1,
        r.push_constants@ == seq![total as u32] + Seq::new(10, |i: int| 0u32),
{
    let mut pc: Vec<u32> = Vec::new();
    pc.push(total as u32);
    let mut i: usize = 0;
    while i < 10
        invariant
            i <= 10,
            pc@ == seq![total as u32] + Seq::new(i as nat, |j: int| 0u32),
        decreases 10 - i,
    {
        pc.push(0);
        i = i + 1;
        proof {
            assert(pc@ =~= seq![total as u32] + Seq::new(i as nat, |j: int| 0u32));
        }
    }
    Dispatch { x: linear_groups(total, WORKGROUP_SIZE), y: 1, z: 1, push_constants: pc }
}

/// Dispatch of the axis-0 row gather: one thread per gathered row, 256
/// per workgroup; push constants `[rows, dim]`.
pub fn gather_dispatch(rows: usize, dim: usize) -> (r: Dispatch)
    requires
        rows + 255 <= u64::MAX,
    ensures
        r.x == ceil_div(rows as int, 256) as u32,
        r.y == 1 && r.z == 1,
        r.push_constants@ == seq![rows as u32, dim as u32],
{
    let mut pc: Vec<u32> = Vec::new();
    pc.push(rows as u32);
    pc.push(dim as u32);
    Dispatch { x: linear_groups(rows as u64, WORKGROUP_SIZE), y: 1, z: 1, push_constants: pc }
}

/// Dispatch of the GEMV for a single input row of `k` elements against a
/// `(k, n)` weight: one thread per output, 256 per workgroup; push
/// constants `[k, n]`.
pub fn gemv_dispatch(k: usize, n: usize) -> (r: Dispatch)
    requires
        n + 255 <= usize::MAX,
    ensures
        r.x == ceil_div(n as int, 256) as u32,
        r.y == 1 && r.z == 1,
        r.push_constants@ == seq![k as u32, n as u32],
{
    let mut pc: Vec<u32> = Vec::new();
    pc.push(k as u32);
    pc.push(n as u32);
    Dispatch { x: ((n + 255) / 256) as u32, y: 1, z: 1, push_constants: pc }
}

/// Dispatch of the transposed GEMV: one workgroup per `GEMV_T_TILE_N`
/// output rows; push constants `[n, k, w_stride]`.
pub fn gemv_t_dispatch(n: usize, k: usize, w_stride: usize) -> (r: Dispatch)
    requires
        (n as u32) + 3 <= u32::MAX,
    ensures
        r.x == ceil_div((n as u32) as int, crate::kernel::GEMV_T_TILE_N as int),
        r.y == 1 && r.z == 1,
        r.push_constants@ == seq![n as u32, k as u32, w_stride as u32],
{
    let mut pc: Vec<u32> = Vec::new();
    pc.push(n as u32);
    pc.push(k as u32);
    pc.push(w_stride as u32);
    let tile = crate::kernel::GEMV_T_TILE_N as u32;
    Dispatch { x: (n as u32 + (tile - 1)) / tile, y: 1, z: 1, push_constants: pc }
}

/// Dispatch of the Q4_K GEMV: one workgroup of 256 threads per output row
/// of the `(n, k)` weight; push constants `[k, n]`.
pub fn q4k_qmatvec_dispatch(k: usize, n: usize) -> (r: Dispatch)
    requires
        (n as u32) * 256 <= u32::MAX,
    ensures
        r.x == (n as u32) * 256,
        r.y == 1 && r.z == 1,
        r.push_constants@ == seq![k as u32, n as u32],
{
    let mut pc: Vec<u32> = Vec::new();
    pc.push(k as u32);
    pc.push(n as u32);
    Dispatch { x: n as u32 * 256, y: 1, z: 1, push_constants: pc }
}

/// Dispatch of the dequantization kernels (Q4_K, Q6_K, Q8_0, Q5_0, Q5_K
/// to f32): one thread per element, 256 per workgroup; push constants
/// `[elem_count, 0]`.
pub fn dequant_dispatch(elem_count: usize) -> (r: Dispatch)
    requires
        elem_count + 255 <= usize::MAX,
    ensures
        r.x == ceil_div(elem_count as int, 256) as u32,
        r.y == 1 && r.z == 1,
        r.push_constants@ == seq![elem_count as u32, 0u32],
{
    let mut pc: Vec<u32> = Vec::new();
    pc.push(elem_count as u32);
    pc.push(0);
    Dispatch { x: ((elem_count + 255) / 256) as u32, y: 1, z: 1, push_constants: pc }
}

/// Dispatch of the last-axis sum: one workgroup per row; push constants
/// `[rows, cols]`.
pub fn reduce_sum_dispatch(rows: usize, cols: usize) -> (r: Dispatch)
    ensures
        r.x == rows as u32,
        r.y == 1 && r.z == 1,
        r.push_constants@ == seq![rows as u32, cols as u32],
{
    let mut pc: Vec<u32> = Vec::new();
    pc.push(rows as u32);
    pc.push(cols as u32);
    Dispatch { x: rows as u32, y: 1, z: 1, push_constants: pc }
}

/// Dispatch of the fused RMS norm: one workgroup per row; push constants
/// `[rows, cols, eps]`, `eps_bits` being the bit pattern of the f32 epsilon.
pub fn rms_norm_dispatch(rows: usize, cols: usize, eps_bits: u32) -> (r: Dispatch)
    ensures
        r.x == rows as u32,
        r.y == 1 && r.z == 1,
        r.push_constants@ == seq![rows as u32, cols as u32, eps_bits],
{
    let mut pc: Vec<u32> = Vec::new();
    pc.push(rows as u32);
    pc.push(cols as u32);
    pc.push(eps_bits);
    Dispatch { x: rows as u32, y: 1, z: 1, push_constants: pc }
}

/// Dispatch of the rotary embedding over a `(b, h, t, d)` tensor: one
/// workgroup row per `(b, h, t)` position and one column per rotated pair;
/// push constants `[b*h*t, h, t, d, unbatched]`.
pub fn rope_dispatch(b: usize, h: usize, t: usize, d: usize, unbatched: bool) -> (r: Dispatch)
    requires
        b * h <= usize::MAX,
        b * h * t <= usize::MAX,
    ensures
        r.x == (b * h * t) as u32,
        r.y == (d / 2) as u32,
        r.z == 1,
        r.push_constants@ == seq![(b * h * t) as u32, h as u32, t as u32, d as u32, if unbatched { 1u32 } else { 0u32 }],
{
    let rows: u32 = (b * h * t) as u32;
    let mut pc: Vec<u32> = Vec::new();
    pc.push(rows);
    pc.push(h as u32);
    pc.push(t as u32);
    pc.push(d as u32);
    pc.push(if unbatched { 1 } else { 0 });
    Dispatch { x: rows, y: (d / 2) as u32, z: 1, push_constants: pc }
}

} // verus!
