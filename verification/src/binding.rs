//! Which buffer of a kernel run goes to which binding of the kernel's
//! descriptor set, and the check that a run fits the layout its pipeline
//! was built with.

use vstd::prelude::*;

use crate::dispatch::Dispatch;
use crate::error::VulkanKernelError;
use crate::kernel::{op_bindings, KernelName, KernelOp};
use crate::source::Source;

verus! {

/// The part a buffer plays in a kernel run.
#[derive(Debug, Clone, Copy, PartialEq, Eq, Structural)]
pub enum BufferRole {
    /// The (only or left-hand) input.
    Input,
    /// The right-hand input of a binary operation, comparison or product.
    Rhs,
    /// The weights of a convolution.
    Weights,
    /// The predicate of a select.
    Pred,
    /// The values a select takes where the predicate holds.
    OnTrue,
    /// The values a select takes elsewhere.
    OnFalse,
    /// The index tensor of a gather, select or scatter.
    Indices,
    /// The output (of the values, for an arg-reduction's layout).
    Output,
    /// The u32 output of an arg-reduction.
    OutputIndex,
    /// The parameter words.
    Params,
    /// A binding of the shared layout that the kernel does not read.
    Unused,
}

/// The role of each binding `0..n` of the descriptor set of `op`'s
/// kernels, in binding order.
pub open spec fn op_roles(op: KernelOp) -> Seq<BufferRole> {
    match op {
        KernelOp::TestFill | KernelOp::TestFillEmulated => seq![BufferRole::Output],
        KernelOp::ConstSet => seq![BufferRole::Output, BufferRole::Params, BufferRole::Unused],
        KernelOp::Where => seq![
            BufferRole::Pred,
            BufferRole::OnTrue,
            BufferRole::OnFalse,
            BufferRole::Output,
            BufferRole::Params,
        ],
        KernelOp::Gemm | KernelOp::BinaryMaximum | KernelOp::BinaryMinimum | KernelOp::BinaryAdd
        | KernelOp::BinarySub | KernelOp::BinaryMul | KernelOp::BinaryDiv | KernelOp::CmpEq | KernelOp::CmpNe
        | KernelOp::CmpLt | KernelOp::CmpLe | KernelOp::CmpGt | KernelOp::CmpGe => seq![
            BufferRole::Input,
            BufferRole::Rhs,
            BufferRole::Output,
            BufferRole::Params,
        ],
        KernelOp::Conv1d | KernelOp::Conv2d | KernelOp::ConvTranspose1d | KernelOp::ConvTranspose2d => seq![
            BufferRole::Input,
            BufferRole::Weights,
            BufferRole::Output,
            BufferRole::Params,
        ],
        KernelOp::ReduceSum | KernelOp::ReduceMax | KernelOp::ReduceMin | KernelOp::ReduceArgMin
        | KernelOp::ReduceArgMax => seq![
            BufferRole::Input,
            BufferRole::Output,
            BufferRole::OutputIndex,
            BufferRole::Params,
        ],
        KernelOp::GatherIdx | KernelOp::GatherRows | KernelOp::IndexSelect | KernelOp::Scatter => seq![
            BufferRole::Input,
            BufferRole::Output,
            BufferRole::Indices,
            BufferRole::Params,
        ],
        KernelOp::AvgPool2d | KernelOp::MaxPool2d | KernelOp::UpsampleNearest1d | KernelOp::UpsampleNearest2d
        | KernelOp::UpsampleBilinear2d => seq![
            BufferRole::Input,
            BufferRole::Output,
            BufferRole::Params,
            BufferRole::Unused,
        ],
        _ => seq![BufferRole::Input, BufferRole::Output, BufferRole::Params],
    }
}

/// The roles of the bindings of `op`'s kernels.
pub fn roles_of(op: KernelOp) -> (r: Vec<BufferRole>)
    ensures
        r@ == op_roles(op),
{
    match op {
        KernelOp::TestFill | KernelOp::TestFillEmulated => vec![BufferRole::Output],
        KernelOp::ConstSet => vec![BufferRole::Output, BufferRole::Params, BufferRole::Unused],
        KernelOp::Where => vec![
            BufferRole::Pred,
            BufferRole::OnTrue,
            BufferRole::OnFalse,
            BufferRole::Output,
            BufferRole::Params,
        ],
        KernelOp::Gemm | KernelOp::BinaryMaximum | KernelOp::BinaryMinimum | KernelOp::BinaryAdd
        | KernelOp::BinarySub | KernelOp::BinaryMul | KernelOp::BinaryDiv | KernelOp::CmpEq | KernelOp::CmpNe
        | KernelOp::CmpLt | KernelOp::CmpLe | KernelOp::CmpGt | KernelOp::CmpGe => vec![
            BufferRole::Input,
            BufferRole::Rhs,
            BufferRole::Output,
            BufferRole::Params,
        ],
        KernelOp::Conv1d | KernelOp::Conv2d | KernelOp::ConvTranspose1d | KernelOp::ConvTranspose2d => vec![
            BufferRole::Input,
            BufferRole::Weights,
            BufferRole::Output,
            BufferRole::Params,
        ],
        KernelOp::ReduceSum | KernelOp::ReduceMax | KernelOp::ReduceMin | KernelOp::ReduceArgMin
        | KernelOp::ReduceArgMax => vec![
            BufferRole::Input,
            BufferRole::Output,
            BufferRole::OutputIndex,
            BufferRole::Params,
        ],
        KernelOp::GatherIdx | KernelOp::GatherRows | KernelOp::IndexSelect | KernelOp::Scatter => vec![
            BufferRole::Input,
            BufferRole::Output,
            BufferRole::Indices,
            BufferRole::Params,
        ],
        KernelOp::AvgPool2d | KernelOp::MaxPool2d | KernelOp::UpsampleNearest1d | KernelOp::UpsampleNearest2d
        | KernelOp::UpsampleBilinear2d => vec![
            BufferRole::Input,
            BufferRole::Output,
            BufferRole::Params,
            BufferRole::Unused,
        ],
        _ => vec![BufferRole::Input, BufferRole::Output, BufferRole::Params],
    }
}

/// The roles fill the descriptor set of each operation exactly, one per
/// binding, and no role but `Unused` has two bindings.
pub proof fn lemma_roles_fill_layout(op: KernelOp)
    ensures
        op_roles(op).len() == op_bindings(op),
        forall|i: int, j: int|
            0 <= i < j < op_roles(op).len() && #[trigger] op_roles(op)[i] == #[trigger] op_roles(op)[j] ==> op_roles(
                op,
            )[i] == BufferRole::Unused,
{
}

/// The binding of the buffer that plays `role` in a run of kernel `name`,
/// if its layout has one.
pub fn binding_of(name: KernelName, role: BufferRole) -> (r: Option<u32>)
    ensures
        r matches Some(i) ==> i < op_bindings(name.kernel_op()) && op_roles(name.kernel_op())[i as int] == role,
        r is None ==> !op_roles(name.kernel_op()).contains(role),
{
    let roles = roles_of(name.op());
    proof {
        lemma_roles_fill_layout(name.kernel_op());
    }
    let mut i: usize = 0;
    while i < roles.len()
        invariant
            roles@ == op_roles(name.kernel_op()),
            roles@.len() == op_bindings(name.kernel_op()),
            i <= roles@.len(),
            forall|j: int| 0 <= j < i ==> roles@[j] != role,
        decreases roles@.len() - i,
    {
        if roles[i] == role {
            return Some(i as u32);
        }
        i = i + 1;
    }
    None
}

/// The bindings of a run of kernel `name` from module `source` whose
/// buffers play `roles`, in that order, dispatched as `dispatch`. The run
/// is refused unless every buffer has a binding of its own in the
/// kernel's layout (so no binding outside the layout is ever written) and
/// the dispatch pushes exactly the push-constant bytes that the layout
/// declares.
pub fn run_bindings(source: Source, name: KernelName, roles: &[BufferRole], dispatch: &Dispatch) -> (r: Result<
    Vec<u32>,
    VulkanKernelError,
>)
    ensures
        r is Ok <==> {
            &&& forall|k: int|
                0 <= k < roles@.len() ==> #[trigger] roles@[k] != BufferRole::Unused && op_roles(
                    name.kernel_op(),
                ).contains(roles@[k])
            &&& 4 * dispatch.push_constants@.len() == source.push_constant_bytes(name)
        },
        r matches Ok(b) ==> {
            &&& b@.len() == roles@.len()
            &&& forall|k: int|
                0 <= k < b@.len() ==> #[trigger] b@[k] < op_bindings(name.kernel_op()) && op_roles(
                    name.kernel_op(),
                )[b@[k] as int] == roles@[k]
        },
{
    if dispatch.push_constants.len() != 0 {
        return Err(VulkanKernelError::CommandBuffer(String::from_str("push constants outside the pipeline layout")));
    }
    let mut out: Vec<u32> = Vec::new();
    let mut k: usize = 0;
    while k < roles.len()
        invariant
            k <= roles@.len(),
            out@.len() == k,
            forall|j: int|
                0 <= j < k ==> #[trigger] roles@[j] != BufferRole::Unused && out@[j] < op_bindings(name.kernel_op())
                    && op_roles(name.kernel_op())[out@[j] as int] == roles@[j],
            forall|j: int| 0 <= j < k ==> op_roles(name.kernel_op()).contains(#[trigger] roles@[j]),
        decreases roles@.len() - k,
    {
        let role = roles[k];
        if role == BufferRole::Unused {
            return Err(VulkanKernelError::CommandBuffer(String::from_str("a buffer bound to an unused binding")));
        }
        match binding_of(name, role) {
            Some(b) => {
                proof {
                    assert(op_roles(name.kernel_op())[b as int] == role);
                }
                out.push(b);
            },
            None => {
                return Err(VulkanKernelError::CommandBuffer(String::from_str("no binding for a buffer of the run")));
            },
        }
        k = k + 1;
    }
    proof {
        assert forall|j: int| 0 <= j < out@.len() implies #[trigger] out@[j] < op_bindings(name.kernel_op())
            && op_roles(name.kernel_op())[out@[j] as int] == roles@[j] by {
            assert(roles@[j] != BufferRole::Unused);
        }
    }
    Ok(out)
}

} // verus!
