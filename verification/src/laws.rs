//! Properties that span several functions of the library.

use vstd::prelude::*;

use crate::device::FENCE_RING_SIZE;
use crate::dispatch::ceil_div;
use crate::kernel::{op_bindings, op_entry_point, KernelElem, KernelName, KernelOp};
use crate::layout::DType;
use crate::source::Source;
use crate::trace::{TraceEntry, TraceTable};
use crate::binding::{op_roles, BufferRole};
use crate::copy::{rhs_standard, rhs_transposed_strides};
use crate::spatial::pool_out;
use crate::dispatch::pack4;
use crate::layout::{block_span, Span, StridedBlocks};
use crate::shape::{broadcast_dims, prod};
use crate::indexing::{host_index_dtype, scatter_check};
use crate::layout::{OpError, Operand};
use crate::ops::{broadcast_params, pad4, samples_random, where_params, Conversion};
use crate::ops::{binary_kernel, cmp_kernel, conversion_of, fill_plan_of, reduce_kernel, unary_kernel, BinaryOp, CmpOp, ReduceOp, UnaryOp};

verus! {

/// Kernels of one operation share their entry point and the shape of
/// their descriptor set, whatever their element types.
pub proof fn lemma_kernels_of_one_op_share_layout(a: KernelName, b: KernelName)
    requires
        a.kernel_op() == b.kernel_op(),
    ensures
        op_entry_point(a.kernel_op()) == op_entry_point(b.kernel_op()),
        op_bindings(a.kernel_op()) == op_bindings(b.kernel_op()),
{
}

/// The unary operations (those of the shared unary module, the affine map
/// and the constant fill).
pub open spec fn is_unary_family(op: KernelOp) -> bool {
    op == KernelOp::Affine || op == KernelOp::ConstSet || op == KernelOp::UnaryLog || op == KernelOp::UnaryAbs
        || op == KernelOp::UnaryRecip || op == KernelOp::UnarySqr || op == KernelOp::UnaryGelu || op
        == KernelOp::UnaryGeluErf || op == KernelOp::UnaryErf || op == KernelOp::UnaryRelu || op
        == KernelOp::UnaryTanh || op == KernelOp::UnaryFloor || op == KernelOp::UnaryCeil || op
        == KernelOp::UnaryRound || op == KernelOp::UnarySign || op == KernelOp::UnaryPow || op
        == KernelOp::UnaryElu || op == KernelOp::UnaryExp || op == KernelOp::UnarySilu || op
        == KernelOp::UnarySqrt || op == KernelOp::UnarySin || op == KernelOp::UnaryCos || op == KernelOp::UnaryNeg
}

/// The binary and comparison operations.
pub open spec fn is_binary_family(op: KernelOp) -> bool {
    op == KernelOp::BinaryAdd || op == KernelOp::BinarySub || op == KernelOp::BinaryMul || op == KernelOp::BinaryDiv
        || op == KernelOp::BinaryMaximum || op == KernelOp::BinaryMinimum || op == KernelOp::CmpEq || op
        == KernelOp::CmpNe || op == KernelOp::CmpLt || op == KernelOp::CmpLe || op == KernelOp::CmpGt || op
        == KernelOp::CmpGe
}

/// The descriptor sets of the element-wise kernels: a unary kernel binds
/// input, output and parameters (3 buffers), a binary or comparison
/// kernel adds the right-hand side (4), a select binds predicate, both
/// value tensors, output and parameters (5), and a test fill kernel binds
/// only its output (1).
pub proof fn lemma_elementwise_binding_layout(name: KernelName)
    ensures
        is_unary_family(name.kernel_op()) ==> op_bindings(name.kernel_op()) == 3,
        is_binary_family(name.kernel_op()) ==> op_bindings(name.kernel_op()) == 4,
        name.kernel_op() == KernelOp::Where ==> op_bindings(name.kernel_op()) == 5,
        (name.kernel_op() == KernelOp::TestFill || name.kernel_op() == KernelOp::TestFillEmulated) ==> op_bindings(
            name.kernel_op(),
        ) == 1,
{
}

/// A one-dimensional dispatch of `ceil(total / size)` workgroups covers
/// every item and leaves no workgroup without an item.
pub proof fn lemma_groups_cover(total: int, size: int)
    requires
        total > 0,
        size > 0,
    ensures
        ceil_div(total, size) * size >= total,
        (ceil_div(total, size) - 1) * size < total,
{
    let q = ceil_div(total, size);
    assert(q == (total + size - 1) / size);
    assert(q * size >= total && (q - 1) * size < total) by (nonlinear_arith)
        requires
            q == (total + size - 1) / size,
            total > 0,
            size > 0,
    ;
}

/// The element-type conversions that the backend performs go both ways:
/// whatever can be converted can be converted back.
pub proof fn lemma_conversions_symmetric(a: DType, b: DType)
    ensures
        conversion_of(a, b) is Some <==> conversion_of(b, a) is Some,
{
}

/// The test fill of each element type runs a single-buffer kernel from the
/// module of the same name, on an element type of the same width.
pub proof fn lemma_fill_kernels_single_buffer(d: DType)
    ensures
        op_bindings(fill_plan_of(d).name.kernel_op()) == 1,
        fill_plan_of(d).source == crate::source::Source::TestFillU8 <==> fill_plan_of(d).name == KernelName::TestFillU8,
        fill_plan_of(d).source == crate::source::Source::TestFillF16 <==> fill_plan_of(d).name
            == KernelName::TestFillF16,
        fill_plan_of(d).workgroup_size == 64 <==> d == DType::F16,
{
}

/// The kernels that the operations pick are the f32 kernels of the
/// operations asked for.
pub proof fn lemma_op_kernels_are_f32(u: UnaryOp, b: BinaryOp, c: CmpOp, r: ReduceOp)
    ensures
        unary_kernel(u).kernel_elem() == KernelElem::F32,
        binary_kernel(b).kernel_elem() == KernelElem::F32,
        cmp_kernel(c).kernel_elem() == KernelElem::F32,
        reduce_kernel(r).kernel_elem() == KernelElem::F32,
        is_unary_family(unary_kernel(u).kernel_op()),
        is_binary_family(binary_kernel(b).kernel_op()),
        is_binary_family(cmp_kernel(c).kernel_op()),
{
}

/// Submissions whose counters are less than a ring apart take different
/// slots: at most `FENCE_RING_SIZE` submissions are in flight before one
/// waits on an earlier one.
pub proof fn lemma_ring_slots_distinct(a: int, b: int)
    requires
        0 <= a < b < a + FENCE_RING_SIZE,
    ensures
        a % (FENCE_RING_SIZE as int) != b % (FENCE_RING_SIZE as int),
{
    let n = FENCE_RING_SIZE as int;
    assert(a % n != b % n) by (nonlinear_arith)
        requires
            0 <= a < b < a + n,
            n == 128,
    ;
}

/// Once the dispatch counters are drained or reset, no kernel has a
/// dispatch counted until it is dispatched again.
pub proof fn lemma_drained_counters_are_zero(t: TraceTable, source: Source, name: KernelName)
    requires
        t.entries() == Seq::<TraceEntry>::empty(),
    ensures
        t.count(source, name) == 0,
{
}

/// The module whose label is `l` (an arbitrary one for a string that is
/// no module's label), read off the label's length and characters.
pub open spec fn source_of_label(l: Seq<char>) -> Source {
    if l[1] == 'e' {
        if l.len() == 13 {
            if l[10] == 'f' {
                if l[11] == '1' {
                    Source::TestFillF16
                } else {
                    if l[11] == '3' {
                        Source::TestFillF32
                    } else {
                        Source::TestFillF64
                    }
                }
            } else {
                if l[11] == '3' {
                    if l[10] == 'i' {
                        Source::TestFillI32
                    } else {
                        Source::TestFillU32
                    }
                } else {
                    if l[11] == '1' {
                        Source::TestFillI16
                    } else {
                        Source::TestFillI64
                    }
                }
            }
        } else {
            if l.len() == 16 {
                if l[11] == '6' {
                    if l[13] == '2' {
                        Source::TestFillF6e2m3
                    } else {
                        Source::TestFillF6e3m2
                    }
                } else {
                    if l[13] == '4' {
                        Source::TestFillF8e4m3
                    } else {
                        Source::TestFillF8e8m0
                    }
                }
            } else {
                if l[0] == 't' {
                    if l.len() == 12 {
                        if l[10] == 'f' {
                            Source::TestFillF4
                        } else {
                            Source::TestFillU8
                        }
                    } else {
                        if l.len() == 21 {
                            Source::TestFillBf16Native
                        } else {
                            Source::TestFillBf16Emulated
                        }
                    }
                } else {
                    if l.len() == 8 {
                        if l[6] == '1' {
                            Source::GemmF16
                        } else {
                            Source::GemmF64
                        }
                    } else {
                        if l.len() == 4 {
                            Source::Gemm
                        } else {
                            Source::ReduceSlang
                        }
                    }
                }
            }
        }
    } else {
        if l[0] == 'c' {
            if l.len() == 7 {
                if l[4] == 'i' {
                    if l[5] == '1' {
                        Source::CmpI16
                    } else {
                        if l[5] == '3' {
                            Source::CmpI32
                        } else {
                            Source::CmpI64
                        }
                    }
                } else {
                    if l[4] == 'f' {
                        if l[5] == '1' {
                            Source::CmpF16
                        } else {
                            Source::CmpF64
                        }
                    } else {
                        Source::CmpU32
                    }
                }
            } else {
                if l[1] == 'm' {
                    if l.len() == 3 {
                        Source::CmpSlang
                    } else {
                        if l.len() == 6 {
                            Source::CmpU8
                        } else {
                            if l.len() == 8 {
                                Source::CmpBf16
                            } else {
                                Source::CmpF8e4m3
                            }
                        }
                    }
                } else {
                    if l.len() == 4 {
                        Source::ConvSlang
                    } else {
                        if l.len() == 6 {
                            Source::Copy2dSlang
                        } else {
                            Source::ConstSet
                        }
                    }
                }
            }
        } else {
            if l.len() == 10 {
                if l[0] == 'b' {
                    if l[7] == 'i' {
                        if l[8] == '1' {
                            Source::BinaryI16
                        } else {
                            if l[8] == '3' {
                                Source::BinaryI32
                            } else {
                                Source::BinaryI64
                            }
                        }
                    } else {
                        if l[7] == 'f' {
                            if l[8] == '1' {
                                Source::BinaryF16
                            } else {
                                Source::BinaryF64
                            }
                        } else {
                            Source::BinaryU32
                        }
                    }
                } else {
                    if l[0] == 'a' {
                        if l[8] == '1' {
                            Source::AffineF16
                        } else {
                            Source::AffineF64
                        }
                    } else {
                        if l[0] == 'g' {
                            Source::GatherIdxSlang
                        } else {
                            if l[0] == 'u' {
                                Source::UnaryBf16
                            } else {
                                Source::WhereBf16
                            }
                        }
                    }
                }
            } else {
                if l[3] == 'r' {
                    if l.len() == 9 {
                        if l[0] == 'u' {
                            if l[7] == '1' {
                                Source::UnaryF16
                            } else {
                                Source::UnaryF64
                            }
                        } else {
                            if l[7] == '1' {
                                Source::WhereF16
                            } else {
                                Source::WhereF64
                            }
                        }
                    } else {
                        if l.len() == 5 {
                            if l[0] == 'u' {
                                Source::UnarySlang
                            } else {
                                Source::WhereSlang
                            }
                        } else {
                            if l[0] == 'u' {
                                Source::UnaryF8e4m3
                            } else {
                                Source::WhereF8e4m3
                            }
                        }
                    }
                } else {
                    if l[3] == 'a' {
                        if l.len() == 6 {
                            Source::BinarySlang
                        } else {
                            if l.len() == 8 {
                                Source::UpsampleSlang
                            } else {
                                if l.len() == 9 {
                                    Source::BinaryU8
                                } else {
                                    if l.len() == 11 {
                                        Source::BinaryBf16
                                    } else {
                                        Source::BinaryF8e4m3
                                    }
                                }
                            }
                        }
                    } else {
                        if l.len() == 6 {
                            if l[0] == 'a' {
                                Source::Affine
                            } else {
                                Source::Pool2dSlang
                            }
                        } else {
                            if l.len() == 7 {
                                Source::ScatterSlang
                            } else {
                                if l.len() == 11 {
                                    Source::AffineBf16
                                } else {
                                    Source::AffineF8e4m3
                                }
                            }
                        }
                    }
                }
            }
        }
    }
}

/// Each module's label names that module and no other.
pub proof fn lemma_source_label_names_module(s: Source)
    ensures
        source_of_label(s.spec_name()) == s,
{
    match s {
        Source::Affine => {
            reveal_strlit("affine");
        },
        Source::Gemm => {
            reveal_strlit("gemm");
        },
        Source::GemmF16 => {
            reveal_strlit("gemm_f16");
        },
        Source::GemmF64 => {
            reveal_strlit("gemm_f64");
        },
        Source::ConstSet => {
            reveal_strlit("const_set");
        },
        Source::UnarySlang => {
            reveal_strlit("unary");
        },
        Source::BinarySlang => {
            reveal_strlit("binary");
        },
        Source::CmpSlang => {
            reveal_strlit("cmp");
        },
        Source::BinaryBf16 => {
            reveal_strlit("binary_bf16");
        },
        Source::CmpBf16 => {
            reveal_strlit("cmp_bf16");
        },
        Source::BinaryF8e4m3 => {
            reveal_strlit("binary_f8e4m3");
        },
        Source::CmpF8e4m3 => {
            reveal_strlit("cmp_f8e4m3");
        },
        Source::UnaryBf16 => {
            reveal_strlit("unary_bf16");
        },
        Source::UnaryF8e4m3 => {
            reveal_strlit("unary_f8e4m3");
        },
        Source::WhereSlang => {
            reveal_strlit("where");
        },
        Source::WhereBf16 => {
            reveal_strlit("where_bf16");
        },
        Source::WhereF8e4m3 => {
            reveal_strlit("where_f8e4m3");
        },
        Source::AffineBf16 => {
            reveal_strlit("affine_bf16");
        },
        Source::AffineF8e4m3 => {
            reveal_strlit("affine_f8e4m3");
        },
        Source::BinaryF16 => {
            reveal_strlit("binary_f16");
        },
        Source::CmpF16 => {
            reveal_strlit("cmp_f16");
        },
        Source::UnaryF16 => {
            reveal_strlit("unary_f16");
        },
        Source::AffineF16 => {
            reveal_strlit("affine_f16");
        },
        Source::WhereF16 => {
            reveal_strlit("where_f16");
        },
        Source::BinaryF64 => {
            reveal_strlit("binary_f64");
        },
        Source::CmpF64 => {
            reveal_strlit("cmp_f64");
        },
        Source::UnaryF64 => {
            reveal_strlit("unary_f64");
        },
        Source::AffineF64 => {
            reveal_strlit("affine_f64");
        },
        Source::WhereF64 => {
            reveal_strlit("where_f64");
        },
        Source::BinaryU8 => {
            reveal_strlit("binary_u8");
        },
        Source::CmpU8 => {
            reveal_strlit("cmp_u8");
        },
        Source::BinaryU32 => {
            reveal_strlit("binary_u32");
        },
        Source::CmpU32 => {
            reveal_strlit("cmp_u32");
        },
        Source::BinaryI16 => {
            reveal_strlit("binary_i16");
        },
        Source::CmpI16 => {
            reveal_strlit("cmp_i16");
        },
        Source::BinaryI32 => {
            reveal_strlit("binary_i32");
        },
        Source::CmpI32 => {
            reveal_strlit("cmp_i32");
        },
        Source::BinaryI64 => {
            reveal_strlit("binary_i64");
        },
        Source::CmpI64 => {
            reveal_strlit("cmp_i64");
        },
        Source::Copy2dSlang => {
            reveal_strlit("copy2d");
        },
        Source::GatherIdxSlang => {
            reveal_strlit("gather_idx");
        },
        Source::ReduceSlang => {
            reveal_strlit("reduce");
        },
        Source::Pool2dSlang => {
            reveal_strlit("pool2d");
        },
        Source::UpsampleSlang => {
            reveal_strlit("upsample");
        },
        Source::ConvSlang => {
            reveal_strlit("conv");
        },
        Source::ScatterSlang => {
            reveal_strlit("scatter");
        },
        Source::TestFillF16 => {
            reveal_strlit("test_fill_f16");
        },
        Source::TestFillU8 => {
            reveal_strlit("test_fill_u8");
        },
        Source::TestFillI16 => {
            reveal_strlit("test_fill_i16");
        },
        Source::TestFillBf16Native => {
            reveal_strlit("test_fill_bf16_native");
        },
        Source::TestFillBf16Emulated => {
            reveal_strlit("test_fill_bf16_emulated");
        },
        Source::TestFillU32 => {
            reveal_strlit("test_fill_u32");
        },
        Source::TestFillI32 => {
            reveal_strlit("test_fill_i32");
        },
        Source::TestFillF32 => {
            reveal_strlit("test_fill_f32");
        },
        Source::TestFillI64 => {
            reveal_strlit("test_fill_i64");
        },
        Source::TestFillF64 => {
            reveal_strlit("test_fill_f64");
        },
        Source::TestFillF4 => {
            reveal_strlit("test_fill_f4");
        },
        Source::TestFillF6e2m3 => {
            reveal_strlit("test_fill_f6e2m3");
        },
        Source::TestFillF6e3m2 => {
            reveal_strlit("test_fill_f6e3m2");
        },
        Source::TestFillF8e4m3 => {
            reveal_strlit("test_fill_f8e4m3");
        },
        Source::TestFillF8e8m0 => {
            reveal_strlit("test_fill_f8e8m0");
        },
    }
}

/// No two modules share a label, so the `module::entry` lines of the
/// dispatch trace are unambiguous.
pub proof fn lemma_source_labels_distinct(a: Source, b: Source)
    requires
        a != b,
    ensures
        a.spec_name() != b.spec_name(),
{
    lemma_source_label_names_module(a);
    lemma_source_label_names_module(b);
}

/// Each element-wise operation runs the f32 kernel of that very
/// operation: a difference runs the subtraction kernel, a quotient the
/// division kernel, and so on.
pub proof fn lemma_binary_ops_run_their_own_kernel(op: BinaryOp)
    ensures
        binary_kernel(op).kernel_elem() == KernelElem::F32,
        op == BinaryOp::Add ==> binary_kernel(op).kernel_op() == KernelOp::BinaryAdd,
        op == BinaryOp::Sub ==> binary_kernel(op).kernel_op() == KernelOp::BinarySub,
        op == BinaryOp::Mul ==> binary_kernel(op).kernel_op() == KernelOp::BinaryMul,
        op == BinaryOp::Div ==> binary_kernel(op).kernel_op() == KernelOp::BinaryDiv,
        op == BinaryOp::Maximum ==> binary_kernel(op).kernel_op() == KernelOp::BinaryMaximum,
        op == BinaryOp::Minimum ==> binary_kernel(op).kernel_op() == KernelOp::BinaryMinimum,
{
}

/// Each comparison runs the f32 kernel of that very comparison.
pub proof fn lemma_cmp_ops_run_their_own_kernel(op: CmpOp)
    ensures
        cmp_kernel(op).kernel_elem() == KernelElem::F32,
        op == CmpOp::Eq ==> cmp_kernel(op).kernel_op() == KernelOp::CmpEq,
        op == CmpOp::Ne ==> cmp_kernel(op).kernel_op() == KernelOp::CmpNe,
        op == CmpOp::Lt ==> cmp_kernel(op).kernel_op() == KernelOp::CmpLt,
        op == CmpOp::Le ==> cmp_kernel(op).kernel_op() == KernelOp::CmpLe,
        op == CmpOp::Gt ==> cmp_kernel(op).kernel_op() == KernelOp::CmpGt,
        op == CmpOp::Ge ==> cmp_kernel(op).kernel_op() == KernelOp::CmpGe,
{
}

/// Each reduction runs the f32 kernel of that very reduction: minima the
/// min kernel, maxima the max kernel, sums the sum kernel, and the
/// arg-reductions the kernels that return positions.
pub proof fn lemma_reductions_run_their_own_kernel(op: ReduceOp)
    ensures
        reduce_kernel(op).kernel_elem() == KernelElem::F32,
        op == ReduceOp::Sum ==> reduce_kernel(op).kernel_op() == KernelOp::ReduceSum,
        op == ReduceOp::Min ==> reduce_kernel(op).kernel_op() == KernelOp::ReduceMin,
        op == ReduceOp::Max ==> reduce_kernel(op).kernel_op() == KernelOp::ReduceMax,
        op == ReduceOp::ArgMin ==> reduce_kernel(op).kernel_op() == KernelOp::ReduceArgMin,
        op == ReduceOp::ArgMax ==> reduce_kernel(op).kernel_op() == KernelOp::ReduceArgMax,
{
}

/// Each unary operation runs the f32 kernel of that very operation.
pub proof fn lemma_unary_ops_run_their_own_kernel(op: UnaryOp)
    ensures
        unary_kernel(op).kernel_elem() == KernelElem::F32,
        op == UnaryOp::Exp ==> unary_kernel(op).kernel_op() == KernelOp::UnaryExp,
        op == UnaryOp::Log ==> unary_kernel(op).kernel_op() == KernelOp::UnaryLog,
        op == UnaryOp::Sin ==> unary_kernel(op).kernel_op() == KernelOp::UnarySin,
        op == UnaryOp::Cos ==> unary_kernel(op).kernel_op() == KernelOp::UnaryCos,
        op == UnaryOp::Abs ==> unary_kernel(op).kernel_op() == KernelOp::UnaryAbs,
        op == UnaryOp::Neg ==> unary_kernel(op).kernel_op() == KernelOp::UnaryNeg,
        op == UnaryOp::Recip ==> unary_kernel(op).kernel_op() == KernelOp::UnaryRecip,
        op == UnaryOp::Sqr ==> unary_kernel(op).kernel_op() == KernelOp::UnarySqr,
        op == UnaryOp::Sqrt ==> unary_kernel(op).kernel_op() == KernelOp::UnarySqrt,
        op == UnaryOp::Gelu ==> unary_kernel(op).kernel_op() == KernelOp::UnaryGelu,
        op == UnaryOp::GeluErf ==> unary_kernel(op).kernel_op() == KernelOp::UnaryGeluErf,
        op == UnaryOp::Erf ==> unary_kernel(op).kernel_op() == KernelOp::UnaryErf,
        op == UnaryOp::Relu ==> unary_kernel(op).kernel_op() == KernelOp::UnaryRelu,
        op == UnaryOp::Silu ==> unary_kernel(op).kernel_op() == KernelOp::UnarySilu,
        op == UnaryOp::Tanh ==> unary_kernel(op).kernel_op() == KernelOp::UnaryTanh,
        op == UnaryOp::Floor ==> unary_kernel(op).kernel_op() == KernelOp::UnaryFloor,
        op == UnaryOp::Ceil ==> unary_kernel(op).kernel_op() == KernelOp::UnaryCeil,
        op == UnaryOp::Round ==> unary_kernel(op).kernel_op() == KernelOp::UnaryRound,
        op == UnaryOp::Sign ==> unary_kernel(op).kernel_op() == KernelOp::UnarySign,
{
}

/// A select binds the predicate first, then the values taken where it
/// holds, then those taken elsewhere, then the output and the parameter
/// words: the shader reads binding 1 where the predicate is non-zero and
/// binding 2 where it is zero.
pub proof fn lemma_select_binding_order()
    ensures
        op_roles(KernelOp::Where).len() == 5,
        op_roles(KernelOp::Where)[0] == BufferRole::Pred,
        op_roles(KernelOp::Where)[1] == BufferRole::OnTrue,
        op_roles(KernelOp::Where)[2] == BufferRole::OnFalse,
        op_roles(KernelOp::Where)[3] == BufferRole::Output,
        op_roles(KernelOp::Where)[4] == BufferRole::Params,
{
}

/// Every kernel with two inputs reads its (left-hand) input at binding 0
/// and its second operand at binding 1, and writes its output after its
/// inputs; the parameter words come last.
pub proof fn lemma_operand_bindings(op: KernelOp)
    ensures
        op_roles(op).len() >= 3 ==> op_roles(op)[0] == BufferRole::Input || op_roles(op)[0] == BufferRole::Pred
            || op_roles(op)[0] == BufferRole::Output,
        (op == KernelOp::Gemm || op == KernelOp::BinaryAdd || op == KernelOp::BinarySub || op == KernelOp::BinaryMul
            || op == KernelOp::BinaryDiv || op == KernelOp::BinaryMaximum || op == KernelOp::BinaryMinimum || op
            == KernelOp::CmpEq || op == KernelOp::CmpNe || op == KernelOp::CmpLt || op == KernelOp::CmpLe || op
            == KernelOp::CmpGt || op == KernelOp::CmpGe) ==> op_roles(op) == seq![
            BufferRole::Input,
            BufferRole::Rhs,
            BufferRole::Output,
            BufferRole::Params,
        ],
        (op == KernelOp::Conv1d || op == KernelOp::Conv2d || op == KernelOp::ConvTranspose1d || op
            == KernelOp::ConvTranspose2d) ==> op_roles(op) == seq![
            BufferRole::Input,
            BufferRole::Weights,
            BufferRole::Output,
            BufferRole::Params,
        ],
        (op == KernelOp::GatherIdx || op == KernelOp::GatherRows || op == KernelOp::IndexSelect || op
            == KernelOp::Scatter) ==> op_roles(op) == seq![
            BufferRole::Input,
            BufferRole::Output,
            BufferRole::Indices,
            BufferRole::Params,
        ],
        (op == KernelOp::ReduceSum || op == KernelOp::ReduceMax || op == KernelOp::ReduceMin || op
            == KernelOp::ReduceArgMin || op == KernelOp::ReduceArgMax) ==> op_roles(op) == seq![
            BufferRole::Input,
            BufferRole::Output,
            BufferRole::OutputIndex,
            BufferRole::Params,
        ],
        (op == KernelOp::AvgPool2d || op == KernelOp::MaxPool2d || op == KernelOp::UpsampleNearest1d || op
            == KernelOp::UpsampleNearest2d || op == KernelOp::UpsampleBilinear2d) ==> op_roles(op) == seq![
            BufferRole::Input,
            BufferRole::Output,
            BufferRole::Params,
            BufferRole::Unused,
        ],
        (op == KernelOp::TestFill || op == KernelOp::TestFillEmulated) ==> op_roles(op) == seq![BufferRole::Output],
        op == KernelOp::ConstSet ==> op_roles(op) == seq![BufferRole::Output, BufferRole::Params, BufferRole::Unused],
        (is_unary_family(op) && op != KernelOp::ConstSet) || op == KernelOp::Copy2d ==> op_roles(op) == seq![
            BufferRole::Input,
            BufferRole::Output,
            BufferRole::Params,
        ],
{
}

/// A right-hand side whose strides are those of a contiguous `(b, k, n)`
/// tensor (unit stride along `n`, `n` along `k`, `k*n` between batches)
/// is read as it is, and one whose strides are those of a contiguous
/// `(b, n, k)` tensor viewed as `(b, k, n)` (unit stride along `k`, `k`
/// along `n`, `n*k` between batches) is read transposed.
pub proof fn lemma_contiguous_rhs_layouts(rs: Seq<usize>, n: int, k: int)
    requires
        rs.len() >= 2,
    ensures
        (rs[rs.len() - 1] == 1 && rs[rs.len() - 2] == n && (rs.len() == 2 || rs[rs.len() - 3] == k * n))
            ==> rhs_standard(rs, n, k),
        (rs[rs.len() - 2] == 1 && rs[rs.len() - 1] == k && (rs.len() == 2 || rs[rs.len() - 3] == n * k))
            ==> rhs_transposed_strides(rs, n, k),
        rhs_standard(rs, n, k) ==> rs[rs.len() - 1] == 1 && rs[rs.len() - 2] == n,
        rhs_transposed_strides(rs, n, k) ==> rs[rs.len() - 2] == 1 && rs[rs.len() - 1] == k,
{
}

/// The pooled length is the number of positions of a `k`-wide window
/// moved by `s` over `n` elements: the last window fits, and one more
/// step would run past the end.
pub proof fn lemma_pool_out_counts_windows(n: int, k: int, s: int)
    requires
        1 <= k <= n,
        s >= 1,
    ensures
        pool_out(n, k, s) >= 1,
        (pool_out(n, k, s) - 1) * s + k <= n,
        n < pool_out(n, k, s) * s + k,
{
    let q = (n - k) / s;
    let r = (n - k) % s;
    assert(n - k == q * s + r && 0 <= r < s && q >= 0) by (nonlinear_arith)
        requires
            q == (n - k) / s,
            r == (n - k) % s,
            n - k >= 0,
            s >= 1,
    ;
    assert(pool_out(n, k, s) == q + 1);
    assert((q + 1 - 1) * s + k <= n && n < (q + 1) * s + k) by (nonlinear_arith)
        requires
            n - k == q * s + r,
            0 <= r < s,
    ;
}

/// Converting between element types: exactly the conversions between two
/// different types among f32, f16 and bf16, each named after its source
/// and target types.
pub proof fn lemma_conversions_between_half_and_single(from: DType, to: DType)
    ensures
        conversion_of(from, to) is Some <==> (from != to && (from == DType::F32 || from == DType::F16 || from
            == DType::BF16) && (to == DType::F32 || to == DType::F16 || to == DType::BF16)),
        conversion_of(from, to) == Some(Conversion::F32ToF16) ==> from == DType::F32 && to == DType::F16,
        conversion_of(from, to) == Some(Conversion::F16ToF32) ==> from == DType::F16 && to == DType::F32,
        conversion_of(from, to) == Some(Conversion::F32ToBf16) ==> from == DType::F32 && to == DType::BF16,
        conversion_of(from, to) == Some(Conversion::Bf16ToF32) ==> from == DType::BF16 && to == DType::F32,
        conversion_of(from, to) == Some(Conversion::F16ToBf16) ==> from == DType::F16 && to == DType::BF16,
        conversion_of(from, to) == Some(Conversion::Bf16ToF16) ==> from == DType::BF16 && to == DType::F16,
{
}

/// Random tensors are drawn in exactly the floating-point types with
/// arithmetic; the host-side index operations take u32, i64 or u8 indices.
pub proof fn lemma_random_and_index_types(d: DType)
    ensures
        samples_random(d) <==> (d == DType::BF16 || d == DType::F16 || d == DType::F32 || d == DType::F64 || d
            == DType::F8E4M3),
        host_index_dtype(d) <==> (d == DType::U32 || d == DType::I64 || d == DType::U8),
{
}

/// The test fill of a storage runs the fill kernel of the storage's own
/// element type (bf16 through its raw 16-bit fill), 64 threads per
/// workgroup for f16 and 256 otherwise.
pub proof fn lemma_fill_kernel_matches_storage(d: DType)
    ensures
        fill_plan_of(d).name.kernel_op() == (if d == DType::BF16 {
            KernelOp::TestFillEmulated
        } else {
            KernelOp::TestFill
        }),
        fill_plan_of(d).workgroup_size == (if d == DType::F16 { 64u64 } else { 256u64 }),
        d == DType::U8 ==> fill_plan_of(d).name.kernel_elem() == KernelElem::U8,
        d == DType::U32 ==> fill_plan_of(d).name.kernel_elem() == KernelElem::U32,
        d == DType::I16 ==> fill_plan_of(d).name.kernel_elem() == KernelElem::I16,
        d == DType::I32 ==> fill_plan_of(d).name.kernel_elem() == KernelElem::I32,
        d == DType::I64 ==> fill_plan_of(d).name.kernel_elem() == KernelElem::I64,
        d == DType::BF16 ==> fill_plan_of(d).name.kernel_elem() == KernelElem::Bf16,
        d == DType::F16 ==> fill_plan_of(d).name.kernel_elem() == KernelElem::F16,
        d == DType::F32 ==> fill_plan_of(d).name.kernel_elem() == KernelElem::F32,
        d == DType::F64 ==> fill_plan_of(d).name.kernel_elem() == KernelElem::F64,
        d == DType::F8E4M3 ==> fill_plan_of(d).name.kernel_elem() == KernelElem::F8e4m3,
        d == DType::F6E2M3 ==> fill_plan_of(d).name.kernel_elem() == KernelElem::F6e2m3,
        d == DType::F6E3M2 ==> fill_plan_of(d).name.kernel_elem() == KernelElem::F6e3m2,
        d == DType::F4 ==> fill_plan_of(d).name.kernel_elem() == KernelElem::F4,
        d == DType::F8E8M0 ==> fill_plan_of(d).name.kernel_elem() == KernelElem::F8e8m0,
{
}

/// A broadcast operand sees a dimension of stride 0 as a dimension of
/// size 1 and every other dimension at its own size.
pub proof fn lemma_broadcast_dims_entries(dims: Seq<usize>, stride: Seq<usize>)
    requires
        dims.len() == stride.len(),
    ensures
        broadcast_dims(dims, stride).len() == dims.len(),
        forall|i: int| 0 <= i < dims.len() && stride[i] == 0 ==> #[trigger] broadcast_dims(dims, stride)[i] == 1,
        forall|i: int| 0 <= i < dims.len() && stride[i] != 0 ==> #[trigger] broadcast_dims(dims, stride)[i] == dims[i],
{
}

/// Padding to four words keeps the first four entries in place and fills
/// the rest with zeros (as words when packed to 32 bits).
pub proof fn lemma_pad_to_four_words(v: Seq<usize>)
    ensures
        pad4(v).len() == 4,
        pack4(v).len() == 4,
        forall|i: int| 0 <= i < 4 && i < v.len() ==> #[trigger] pad4(v)[i] == v[i] && pack4(v)[i] == v[i] as u32,
        forall|i: int| 0 <= i < 4 && i >= v.len() ==> #[trigger] pad4(v)[i] == 0 && pack4(v)[i] == 0,
{
}

/// The parameter words of a broadcast binary or comparison kernel: the
/// element count, the two ranks, then the lhs and the rhs dimensions,
/// four words each.
pub proof fn lemma_broadcast_params_layout(len: usize, lhs: Seq<usize>, rhs: Seq<usize>)
    requires
        lhs.len() <= 4,
        rhs.len() <= 4,
    ensures
        broadcast_params(len, lhs, rhs).len() == 11,
        broadcast_params(len, lhs, rhs)[0] == len,
        broadcast_params(len, lhs, rhs)[1] == lhs.len(),
        broadcast_params(len, lhs, rhs)[2] == rhs.len(),
        forall|i: int| 0 <= i < 4 ==> #[trigger] broadcast_params(len, lhs, rhs)[3 + i] == (if i < lhs.len() {
            lhs[i]
        } else {
            0usize
        }),
        forall|i: int| 0 <= i < 4 ==> #[trigger] broadcast_params(len, lhs, rhs)[7 + i] == (if i < rhs.len() {
            rhs[i]
        } else {
            0usize
        }),
{
}

/// The parameter words of a select: the element count and rank, then the
/// dimensions of the predicate, of the values taken where it holds and of
/// those taken elsewhere, four words each.
pub proof fn lemma_where_params_layout(len: usize, rank: usize, p: Seq<usize>, t: Seq<usize>, f: Seq<usize>)
    ensures
        where_params(len, rank, p, t, f).len() == 14,
        where_params(len, rank, p, t, f)[0] == len,
        where_params(len, rank, p, t, f)[1] == rank,
        forall|i: int| 0 <= i < 4 ==> #[trigger] where_params(len, rank, p, t, f)[2 + i] == (if i < p.len() {
            p[i]
        } else {
            0usize
        }),
        forall|i: int| 0 <= i < 4 ==> #[trigger] where_params(len, rank, p, t, f)[6 + i] == (if i < t.len() {
            t[i]
        } else {
            0usize
        }),
        forall|i: int| 0 <= i < 4 ==> #[trigger] where_params(len, rank, p, t, f)[10 + i] == (if i < f.len() {
            f[i]
        } else {
            0usize
        }),
{
}

/// Only a single block is one contiguous run, the run it describes.
pub proof fn lemma_block_span_of_single_block(b: StridedBlocks)
    ensures
        b is SingleBlock ==> block_span(b) == Some(
            Span { start: b->SingleBlock_start_offset, len: b->SingleBlock_len },
        ),
        !(b is SingleBlock) ==> block_span(b) is None,
{
}

/// The element count of a shape: 1 for no dimension, and each further
/// dimension multiplies it.
pub proof fn lemma_prod_counts_elements(s: Seq<usize>, d: usize)
    ensures
        prod(Seq::<usize>::empty()) == 1,
        prod(s.push(d)) == prod(s) * d,
{
    assert(s.push(d).drop_last() =~= s);
}

/// A scatter (or index-add) goes ahead exactly when its three operands are
/// contiguous, the destination and the indices have one rank with `dim`
/// below it, the destination holds the elements of its shape, and the
/// source holds one element per index, the indices those of their shape;
/// it then works on the operands' own runs. Otherwise it is refused, a
/// rank mismatch first when the ranks are checked first.
pub proof fn lemma_scatter_accepts_matching_operands(
    dst_dims: Seq<usize>,
    dst_blocks: StridedBlocks,
    src_blocks: StridedBlocks,
    ids_dims: Seq<usize>,
    ids_blocks: StridedBlocks,
    dim: usize,
    rank_first: bool,
)
    ensures
        scatter_check(dst_dims, dst_blocks, src_blocks, ids_dims, ids_blocks, dim, rank_first) is Ok <==> {
            &&& block_span(dst_blocks) is Some
            &&& block_span(src_blocks) is Some
            &&& block_span(ids_blocks) is Some
            &&& dst_dims.len() == ids_dims.len()
            &&& dim < dst_dims.len()
            &&& block_span(dst_blocks)->0.len == prod(dst_dims)
            &&& block_span(src_blocks)->0.len == block_span(ids_blocks)->0.len
            &&& block_span(ids_blocks)->0.len == prod(ids_dims)
        },
        scatter_check(dst_dims, dst_blocks, src_blocks, ids_dims, ids_blocks, dim, rank_first) matches Ok(sp) ==> {
            &&& sp.dst == block_span(dst_blocks)->0
            &&& sp.src == block_span(src_blocks)->0
            &&& sp.ids == block_span(ids_blocks)->0
        },
        rank_first && !(dst_dims.len() == ids_dims.len() && dim < dst_dims.len()) ==> scatter_check(
            dst_dims,
            dst_blocks,
            src_blocks,
            ids_dims,
            ids_blocks,
            dim,
            rank_first,
        ) == Err::<crate::indexing::ScatterSpans, OpError>(OpError::RankMismatch),
        block_span(dst_blocks) is None && !(rank_first && !(dst_dims.len() == ids_dims.len() && dim
            < dst_dims.len())) ==> scatter_check(dst_dims, dst_blocks, src_blocks, ids_dims, ids_blocks, dim, rank_first)
            == Err::<crate::indexing::ScatterSpans, OpError>(OpError::NonContiguous(Operand::Dst)),
{
}

/// The module whose compiled image is the file `f` (an arbitrary one for
/// a path that is no module's), read off the path's length and characters.
pub open spec fn source_of_spv_file(f: Seq<char>) -> Source {
    if f[1] == 'e' {
        if f.len() == 17 {
            if f[10] == 'f' {
                if f[11] == '1' {
                    Source::TestFillF16
                } else {
                    if f[11] == '3' {
                        Source::TestFillF32
                    } else {
                        Source::TestFillF64
                    }
                }
            } else {
                if f[11] == '3' {
                    if f[10] == 'i' {
                        Source::TestFillI32
                    } else {
                        Source::TestFillU32
                    }
                } else {
                    if f[11] == '1' {
                        Source::TestFillI16
                    } else {
                        Source::TestFillI64
                    }
                }
            }
        } else {
            if f.len() == 20 {
                if f[11] == '6' {
                    if f[13] == '2' {
                        Source::TestFillF6e2m3
                    } else {
                        Source::TestFillF6e3m2
                    }
                } else {
                    if f[13] == '4' {
                        Source::TestFillF8e4m3
                    } else {
                        Source::TestFillF8e8m0
                    }
                }
            } else {
                if f[0] == 't' {
                    if f.len() == 16 {
                        if f[10] == 'f' {
                            Source::TestFillF4
                        } else {
                            Source::TestFillU8
                        }
                    } else {
                        if f.len() == 25 {
                            Source::TestFillBf16Native
                        } else {
                            Source::TestFillBf16Emulated
                        }
                    }
                } else {
                    if f.len() == 12 {
                        if f[6] == '1' {
                            Source::GemmF16
                        } else {
                            Source::GemmF64
                        }
                    } else {
                        if f.len() == 8 {
                            Source::Gemm
                        } else {
                            Source::ReduceSlang
                        }
                    }
                }
            }
        }
    } else {
        if f[6] == '_' {
            if f[7] == 'f' {
                if f[0] == 'a' {
                    if f.len() == 14 {
                        if f[8] == '1' {
                            Source::AffineF16
                        } else {
                            Source::AffineF64
                        }
                    } else {
                        Source::AffineF8e4m3
                    }
                } else {
                    if f.len() == 14 {
                        if f[8] == '1' {
                            Source::BinaryF16
                        } else {
                            Source::BinaryF64
                        }
                    } else {
                        Source::BinaryF8e4m3
                    }
                }
            } else {
                if f[7] == 'i' {
                    if f[0] == 'b' {
                        if f[8] == '1' {
                            Source::BinaryI16
                        } else {
                            if f[8] == '3' {
                                Source::BinaryI32
                            } else {
                                Source::BinaryI64
                            }
                        }
                    } else {
                        Source::GatherIdxSlang
                    }
                } else {
                    if f.len() == 15 {
                        if f[0] == 'a' {
                            Source::AffineBf16
                        } else {
                            Source::BinaryBf16
                        }
                    } else {
                        if f.len() == 13 {
                            Source::BinaryU8
                        } else {
                            Source::BinaryU32
                        }
                    }
                }
            }
        } else {
            if f[0] == 'c' {
                if f.len() == 11 {
                    if f[4] == 'i' {
                        if f[5] == '1' {
                            Source::CmpI16
                        } else {
                            if f[5] == '3' {
                                Source::CmpI32
                            } else {
                                Source::CmpI64
                            }
                        }
                    } else {
                        if f[4] == 'f' {
                            if f[5] == '1' {
                                Source::CmpF16
                            } else {
                                Source::CmpF64
                            }
                        } else {
                            Source::CmpU32
                        }
                    }
                } else {
                    if f[1] == 'm' {
                        if f[5] == '8' {
                            if f.len() == 10 {
                                Source::CmpU8
                            } else {
                                Source::CmpF8e4m3
                            }
                        } else {
                            if f.len() == 7 {
                                Source::CmpSlang
                            } else {
                                Source::CmpBf16
                            }
                        }
                    } else {
                        if f.len() == 8 {
                            Source::ConvSlang
                        } else {
                            if f.len() == 10 {
                                Source::Copy2dSlang
                            } else {
                                Source::ConstSet
                            }
                        }
                    }
                }
            } else {
                if f[5] == '_' {
                    if f.len() == 13 {
                        if f[0] == 'u' {
                            if f[7] == '1' {
                                Source::UnaryF16
                            } else {
                                Source::UnaryF64
                            }
                        } else {
                            if f[7] == '1' {
                                Source::WhereF16
                            } else {
                                Source::WhereF64
                            }
                        }
                    } else {
                        if f.len() == 14 {
                            if f[0] == 'u' {
                                Source::UnaryBf16
                            } else {
                                Source::WhereBf16
                            }
                        } else {
                            if f[0] == 'u' {
                                Source::UnaryF8e4m3
                            } else {
                                Source::WhereF8e4m3
                            }
                        }
                    }
                } else {
                    if f.len() == 10 {
                        if f[0] == 'a' {
                            Source::Affine
                        } else {
                            if f[0] == 'b' {
                                Source::BinarySlang
                            } else {
                                Source::Pool2dSlang
                            }
                        }
                    } else {
                        if f.len() == 9 {
                            if f[0] == 'u' {
                                Source::UnarySlang
                            } else {
                                Source::WhereSlang
                            }
                        } else {
                            if f.len() == 11 {
                                Source::ScatterSlang
                            } else {
                                Source::UpsampleSlang
                            }
                        }
                    }
                }
            }
        }
    }
}

/// Each module has a compiled image of its own, and apart from the
/// reduction module and the test fills (which live under `test/`) the
/// image is the module's label with the `.spv` extension.
pub proof fn lemma_spv_file_of_module(s: Source)
    ensures
        source_of_spv_file(s.spec_spv_file()) == s,
        !(s == Source::ReduceSlang || s.spec_name().len() >= 10 && s.spec_name().subrange(0, 10) == "test_fill_"@)
            ==> s.spec_spv_file() == s.spec_name() + ".spv"@,
{
    reveal_strlit(".spv");
    reveal_strlit("test_fill_");
    match s {
        Source::Affine => {
            reveal_strlit("affine.spv");
            reveal_strlit("affine");
            assert(s.spec_spv_file() =~= s.spec_name() + ".spv"@);
        },
        Source::Gemm => {
            reveal_strlit("gemm.spv");
            reveal_strlit("gemm");
            assert(s.spec_spv_file() =~= s.spec_name() + ".spv"@);
        },
        Source::GemmF16 => {
            reveal_strlit("gemm_f16.spv");
            reveal_strlit("gemm_f16");
            assert(s.spec_spv_file() =~= s.spec_name() + ".spv"@);
        },
        Source::GemmF64 => {
            reveal_strlit("gemm_f64.spv");
            reveal_strlit("gemm_f64");
            assert(s.spec_spv_file() =~= s.spec_name() + ".spv"@);
        },
        Source::ConstSet => {
            reveal_strlit("const_set.spv");
            reveal_strlit("const_set");
            assert(s.spec_spv_file() =~= s.spec_name() + ".spv"@);
        },
        Source::UnarySlang => {
            reveal_strlit("unary.spv");
            reveal_strlit("unary");
            assert(s.spec_spv_file() =~= s.spec_name() + ".spv"@);
        },
        Source::BinarySlang => {
            reveal_strlit("binary.spv");
            reveal_strlit("binary");
            assert(s.spec_spv_file() =~= s.spec_name() + ".spv"@);
        },
        Source::CmpSlang => {
            reveal_strlit("cmp.spv");
            reveal_strlit("cmp");
            assert(s.spec_spv_file() =~= s.spec_name() + ".spv"@);
        },
        Source::BinaryBf16 => {
            reveal_strlit("binary_bf16.spv");
            reveal_strlit("binary_bf16");
            assert(s.spec_spv_file() =~= s.spec_name() + ".spv"@);
        },
        Source::CmpBf16 => {
            reveal_strlit("cmp_bf16.spv");
            reveal_strlit("cmp_bf16");
            assert(s.spec_spv_file() =~= s.spec_name() + ".spv"@);
        },
        Source::BinaryF8e4m3 => {
            reveal_strlit("binary_f8e4m3.spv");
            reveal_strlit("binary_f8e4m3");
            assert(s.spec_spv_file() =~= s.spec_name() + ".spv"@);
        },
        Source::CmpF8e4m3 => {
            reveal_strlit("cmp_f8e4m3.spv");
            reveal_strlit("cmp_f8e4m3");
            assert(s.spec_spv_file() =~= s.spec_name() + ".spv"@);
        },
        Source::UnaryBf16 => {
            reveal_strlit("unary_bf16.spv");
            reveal_strlit("unary_bf16");
            assert(s.spec_spv_file() =~= s.spec_name() + ".spv"@);
        },
        Source::UnaryF8e4m3 => {
            reveal_strlit("unary_f8e4m3.spv");
            reveal_strlit("unary_f8e4m3");
            assert(s.spec_spv_file() =~= s.spec_name() + ".spv"@);
        },
        Source::WhereSlang => {
            reveal_strlit("where.spv");
            reveal_strlit("where");
            assert(s.spec_spv_file() =~= s.spec_name() + ".spv"@);
        },
        Source::WhereBf16 => {
            reveal_strlit("where_bf16.spv");
            reveal_strlit("where_bf16");
            assert(s.spec_spv_file() =~= s.spec_name() + ".spv"@);
        },
        Source::WhereF8e4m3 => {
            reveal_strlit("where_f8e4m3.spv");
            reveal_strlit("where_f8e4m3");
            assert(s.spec_spv_file() =~= s.spec_name() + ".spv"@);
        },
        Source::AffineBf16 => {
            reveal_strlit("affine_bf16.spv");
            reveal_strlit("affine_bf16");
            assert(s.spec_spv_file() =~= s.spec_name() + ".spv"@);
        },
        Source::AffineF8e4m3 => {
            reveal_strlit("affine_f8e4m3.spv");
            reveal_strlit("affine_f8e4m3");
            assert(s.spec_spv_file() =~= s.spec_name() + ".spv"@);
        },
        Source::BinaryF16 => {
            reveal_strlit("binary_f16.spv");
            reveal_strlit("binary_f16");
            assert(s.spec_spv_file() =~= s.spec_name() + ".spv"@);
        },
        Source::CmpF16 => {
            reveal_strlit("cmp_f16.spv");
            reveal_strlit("cmp_f16");
            assert(s.spec_spv_file() =~= s.spec_name() + ".spv"@);
        },
        Source::UnaryF16 => {
            reveal_strlit("unary_f16.spv");
            reveal_strlit("unary_f16");
            assert(s.spec_spv_file() =~= s.spec_name() + ".spv"@);
        },
        Source::AffineF16 => {
            reveal_strlit("affine_f16.spv");
            reveal_strlit("affine_f16");
            assert(s.spec_spv_file() =~= s.spec_name() + ".spv"@);
        },
        Source::WhereF16 => {
            reveal_strlit("where_f16.spv");
            reveal_strlit("where_f16");
            assert(s.spec_spv_file() =~= s.spec_name() + ".spv"@);
        },
        Source::BinaryF64 => {
            reveal_strlit("binary_f64.spv");
            reveal_strlit("binary_f64");
            assert(s.spec_spv_file() =~= s.spec_name() + ".spv"@);
        },
        Source::CmpF64 => {
            reveal_strlit("cmp_f64.spv");
            reveal_strlit("cmp_f64");
            assert(s.spec_spv_file() =~= s.spec_name() + ".spv"@);
        },
        Source::UnaryF64 => {
            reveal_strlit("unary_f64.spv");
            reveal_strlit("unary_f64");
            assert(s.spec_spv_file() =~= s.spec_name() + ".spv"@);
        },
        Source::AffineF64 => {
            reveal_strlit("affine_f64.spv");
            reveal_strlit("affine_f64");
            assert(s.spec_spv_file() =~= s.spec_name() + ".spv"@);
        },
        Source::WhereF64 => {
            reveal_strlit("where_f64.spv");
            reveal_strlit("where_f64");
            assert(s.spec_spv_file() =~= s.spec_name() + ".spv"@);
        },
        Source::BinaryU8 => {
            reveal_strlit("binary_u8.spv");
            reveal_strlit("binary_u8");
            assert(s.spec_spv_file() =~= s.spec_name() + ".spv"@);
        },
        Source::CmpU8 => {
            reveal_strlit("cmp_u8.spv");
            reveal_strlit("cmp_u8");
            assert(s.spec_spv_file() =~= s.spec_name() + ".spv"@);
        },
        Source::BinaryU32 => {
            reveal_strlit("binary_u32.spv");
            reveal_strlit("binary_u32");
            assert(s.spec_spv_file() =~= s.spec_name() + ".spv"@);
        },
        Source::CmpU32 => {
            reveal_strlit("cmp_u32.spv");
            reveal_strlit("cmp_u32");
            assert(s.spec_spv_file() =~= s.spec_name() + ".spv"@);
        },
        Source::BinaryI16 => {
            reveal_strlit("binary_i16.spv");
            reveal_strlit("binary_i16");
            assert(s.spec_spv_file() =~= s.spec_name() + ".spv"@);
        },
        Source::CmpI16 => {
            reveal_strlit("cmp_i16.spv");
            reveal_strlit("cmp_i16");
            assert(s.spec_spv_file() =~= s.spec_name() + ".spv"@);
        },
        Source::BinaryI32 => {
            reveal_strlit("binary_i32.spv");
            reveal_strlit("binary_i32");
            assert(s.spec_spv_file() =~= s.spec_name() + ".spv"@);
        },
        Source::CmpI32 => {
            reveal_strlit("cmp_i32.spv");
            reveal_strlit("cmp_i32");
            assert(s.spec_spv_file() =~= s.spec_name() + ".spv"@);
        },
        Source::BinaryI64 => {
            reveal_strlit("binary_i64.spv");
            reveal_strlit("binary_i64");
            assert(s.spec_spv_file() =~= s.spec_name() + ".spv"@);
        },
        Source::CmpI64 => {
            reveal_strlit("cmp_i64.spv");
            reveal_strlit("cmp_i64");
            assert(s.spec_spv_file() =~= s.spec_name() + ".spv"@);
        },
        Source::Copy2dSlang => {
            reveal_strlit("copy2d.spv");
            reveal_strlit("copy2d");
            assert(s.spec_spv_file() =~= s.spec_name() + ".spv"@);
        },
        Source::GatherIdxSlang => {
            reveal_strlit("gather_idx.spv");
            reveal_strlit("gather_idx");
            assert(s.spec_spv_file() =~= s.spec_name() + ".spv"@);
        },
        Source::ReduceSlang => {
            reveal_strlit("reduce_ops.spv");
        },
        Source::Pool2dSlang => {
            reveal_strlit("pool2d.spv");
            reveal_strlit("pool2d");
            assert(s.spec_spv_file() =~= s.spec_name() + ".spv"@);
        },
        Source::UpsampleSlang => {
            reveal_strlit("upsample.spv");
            reveal_strlit("upsample");
            assert(s.spec_spv_file() =~= s.spec_name() + ".spv"@);
        },
        Source::ConvSlang => {
            reveal_strlit("conv.spv");
            reveal_strlit("conv");
            assert(s.spec_spv_file() =~= s.spec_name() + ".spv"@);
        },
        Source::ScatterSlang => {
            reveal_strlit("scatter.spv");
            reveal_strlit("scatter");
            assert(s.spec_spv_file() =~= s.spec_name() + ".spv"@);
        },
        Source::TestFillF16 => {
            reveal_strlit("test/fill_f16.spv");
            reveal_strlit("test_fill_f16");
            assert(s.spec_name().subrange(0, 10) =~= "test_fill_"@);
        },
        Source::TestFillU8 => {
            reveal_strlit("test/fill_u8.spv");
            reveal_strlit("test_fill_u8");
            assert(s.spec_name().subrange(0, 10) =~= "test_fill_"@);
        },
        Source::TestFillI16 => {
            reveal_strlit("test/fill_i16.spv");
            reveal_strlit("test_fill_i16");
            assert(s.spec_name().subrange(0, 10) =~= "test_fill_"@);
        },
        Source::TestFillBf16Native => {
            reveal_strlit("test/fill_native_bf16.spv");
            reveal_strlit("test_fill_bf16_native");
            assert(s.spec_name().subrange(0, 10) =~= "test_fill_"@);
        },
        Source::TestFillBf16Emulated => {
            reveal_strlit("test/fill_emulated_bf16.spv");
            reveal_strlit("test_fill_bf16_emulated");
            assert(s.spec_name().subrange(0, 10) =~= "test_fill_"@);
        },
        Source::TestFillU32 => {
            reveal_strlit("test/fill_u32.spv");
            reveal_strlit("test_fill_u32");
            assert(s.spec_name().subrange(0, 10) =~= "test_fill_"@);
        },
        Source::TestFillI32 => {
            reveal_strlit("test/fill_i32.spv");
            reveal_strlit("test_fill_i32");
            assert(s.spec_name().subrange(0, 10) =~= "test_fill_"@);
        },
        Source::TestFillF32 => {
            reveal_strlit("test/fill_f32.spv");
            reveal_strlit("test_fill_f32");
            assert(s.spec_name().subrange(0, 10) =~= "test_fill_"@);
        },
        Source::TestFillI64 => {
            reveal_strlit("test/fill_i64.spv");
            reveal_strlit("test_fill_i64");
            assert(s.spec_name().subrange(0, 10) =~= "test_fill_"@);
        },
        Source::TestFillF64 => {
            reveal_strlit("test/fill_f64.spv");
            reveal_strlit("test_fill_f64");
            assert(s.spec_name().subrange(0, 10) =~= "test_fill_"@);
        },
        Source::TestFillF4 => {
            reveal_strlit("test/fill_f4.spv");
            reveal_strlit("test_fill_f4");
            assert(s.spec_name().subrange(0, 10) =~= "test_fill_"@);
        },
        Source::TestFillF6e2m3 => {
            reveal_strlit("test/fill_f6e2m3.spv");
            reveal_strlit("test_fill_f6e2m3");
            assert(s.spec_name().subrange(0, 10) =~= "test_fill_"@);
        },
        Source::TestFillF6e3m2 => {
            reveal_strlit("test/fill_f6e3m2.spv");
            reveal_strlit("test_fill_f6e3m2");
            assert(s.spec_name().subrange(0, 10) =~= "test_fill_"@);
        },
        Source::TestFillF8e4m3 => {
            reveal_strlit("test/fill_f8e4m3.spv");
            reveal_strlit("test_fill_f8e4m3");
            assert(s.spec_name().subrange(0, 10) =~= "test_fill_"@);
        },
        Source::TestFillF8e8m0 => {
            reveal_strlit("test/fill_f8e8m0.spv");
            reveal_strlit("test_fill_f8e8m0");
            assert(s.spec_name().subrange(0, 10) =~= "test_fill_"@);
        },
    }
}

/// No two modules share a compiled image.
pub proof fn lemma_spv_files_distinct(a: Source, b: Source)
    requires
        a != b,
    ensures
        a.spec_spv_file() != b.spec_spv_file(),
{
    lemma_spv_file_of_module(a);
    lemma_spv_file_of_module(b);
}

} // verus!
