//! Element types, memory layouts and the errors of the tensor operations.

use vstd::prelude::*;

verus! {

/// Element type of a storage.
#[derive(Debug, Clone, Copy, PartialEq, Eq, Hash, Structural)]
pub enum DType {
    U8,
    U32,
    I16,
    I32,
    I64,
    BF16,
    F16,
    F32,
    F64,
    F8E4M3,
    F6E2M3,
    F6E3M2,
    F4,
    F8E8M0,
}

/// How the elements of a strided view are laid out in its storage.
#[derive(Debug, Clone)]
pub enum StridedBlocks {
    /// One contiguous run of `len` elements starting at `start_offset`.
    SingleBlock { start_offset: usize, len: usize },
    /// `count` runs of `block_len` elements, the first at `start_offset`
    /// and each `src_stride` elements after the previous one.
    UniformBlocks { start_offset: usize, block_len: usize, count: usize, src_stride: usize },
    /// Runs of `block_len` elements starting at the given indices.
    MultipleBlocks { block_start_index: Vec<usize>, block_len: usize },
}

/// A contiguous run of elements of a storage.
#[derive(Debug, Clone, Copy, PartialEq, Eq, Structural)]
pub struct Span {
    pub start: usize,
    pub len: usize,
}

/// The operand of an operation that an error is about.
#[derive(Debug, Clone, Copy, PartialEq, Eq, Structural)]
pub enum Operand {
    /// The (only or left-hand) input.
    Input,
    /// The right-hand input.
    Rhs,
    /// The convolution kernel.
    Kernel,
    /// The index tensor.
    Ids,
    /// The source of a copy, scatter or select.
    Src,
    /// The destination of a scatter or index-add.
    Dst,
    /// The predicate of a select.
    Pred,
    /// The values of a select.
    Values,
}

/// Why a tensor operation is refused by the backend.
#[derive(Debug, Clone, Copy, PartialEq, Eq, Structural)]
pub enum OpError {
    /// The element type of the operand is not supported.
    UnsupportedDType(Operand),
    /// The layout of the operand is not one contiguous block.
    NonContiguous(Operand),
    /// The operand does not have the rank that the operation supports.
    Rank(Operand),
    /// The ranks of the operands do not match, or the dimension is out of
    /// range.
    RankMismatch,
    /// A scalar (rank 0) operand.
    Scalar,
    /// A right-hand operand of rank below 2.
    RankBelowTwo,
    /// More than four dimensions.
    TooManyDims,
    /// A reduction over another axis than the last one.
    NotLastAxis,
    /// A gather or select along another dimension than 0.
    DimNotZero,
    /// The operand's element count does not match its shape or the other
    /// operands.
    SizeMismatch(Operand),
    /// An empty source.
    EmptySource,
    /// A pooling window or stride of size zero.
    ZeroKernelOrStride,
    /// An input smaller than the pooling window.
    InputSmallerThanKernel,
    /// Index rows longer than the embedding rows.
    IdsInnerTooLarge,
    /// A conversion between these element types is not supported.
    UnsupportedConversion(DType, DType),
    /// The scalar's type does not fit the storage.
    UnsupportedScalar,
}

/// The operation was refused with `e`.
pub open spec fn fails_with<T>(r: Result<T, OpError>, e: OpError) -> bool {
    r == Err::<T, OpError>(e)
}

/// The contiguous run that `b` describes, if it is one.
pub open spec fn block_span(b: StridedBlocks) -> Option<Span> {
    match b {
        StridedBlocks::SingleBlock { start_offset, len } => Some(Span { start: start_offset, len }),
        _ => None,
    }
}

/// The run of `b` ends within the address range: `start + len` can be
/// computed.
pub open spec fn blocks_fit(b: StridedBlocks) -> bool {
    match b {
        StridedBlocks::SingleBlock { start_offset, len } => start_offset + len <= usize::MAX,
        StridedBlocks::UniformBlocks { start_offset, block_len, count, src_stride } => count * block_len <= usize::MAX,
        StridedBlocks::MultipleBlocks { block_start_index, block_len } => block_start_index@.len() * block_len <= usize::MAX,
    }
}

proof fn lemma_mul_le_iff_le_div(c: int, b: int, m: int)
    requires
        b > 0,
        c >= 0,
        m >= 0,
    ensures
        (c * b <= m) <==> (c <= m / b),
{
    assert((c * b <= m) ==> (c <= m / b)) by (nonlinear_arith)
        requires
            b > 0,
            c >= 0,
            m >= 0,
    ;
    assert((c <= m / b) ==> (c * b <= m)) by (nonlinear_arith)
        requires
            b > 0,
            c >= 0,
            m >= 0,
    ;
}

impl StridedBlocks {
    /// The contiguous run that this layout is, if it is one.
    pub fn single_span(&self) -> (r: Option<Span>)
        ensures
            r == block_span(*self),
    {
        match self {
            StridedBlocks::SingleBlock { start_offset, len } => Some(Span { start: *start_offset, len: *len }),
            _ => None,
        }
    }

    /// Whether the extent of this layout can be computed without overflow.
    pub fn fits(&self) -> (r: bool)
        ensures
            r == blocks_fit(*self),
    {
        match self {
            StridedBlocks::SingleBlock { start_offset, len } => *len <= usize::MAX - *start_offset,
            StridedBlocks::UniformBlocks { block_len, count, .. } => {
                proof {
                    if *block_len > 0 {
                        lemma_mul_le_iff_le_div(*count as int, *block_len as int, usize::MAX as int);
                    }
                }
                *block_len == 0 || *count <= usize::MAX / *block_len
            },
            StridedBlocks::MultipleBlocks { block_start_index, block_len } => {
                proof {
                    if *block_len > 0 {
                        lemma_mul_le_iff_le_div(block_start_index@.len() as int, *block_len as int, usize::MAX as int);
                    }
                }
                *block_len == 0 || block_start_index.len() <= usize::MAX / *block_len
            },
        }
    }
}

} // verus!
