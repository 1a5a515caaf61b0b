use vstd::prelude::*;

use crate::context::ExecutionContext;
use crate::graph::{
    chain_slot, chain_wf, dims_at, extends, lemma_chain_eval_frame, lemma_op_wf_frame, op_shape_wf,
    spec_add_vec, OpCode, OperandInfo,
};
use crate::primitives::{copy_vec, zero_vec, NumericType};
use crate::tensor::Tensor;

verus! {

/// Elementwise addition as a graph-extension step: consuming two tensors of
/// one context, it registers the needed operand slots, appends one add
/// operation, and returns the zero-filled output tensor.
pub trait AddOp<T: NumericType>: Sized {
    spec fn add_req(self, other: Self, ctx: ExecutionContext<T>) -> bool;

    spec fn add_ens(
        self,
        other: Self,
        pre: ExecutionContext<T>,
        post: ExecutionContext<T>,
        output: Self,
    ) -> bool;

    fn add_(self, other: Self, ctx: &mut ExecutionContext<T>) -> (output: Self)
        requires
            self.add_req(other, *old(ctx)),
        ensures
            self.add_ens(other, *old(ctx), *final(ctx), output),
    ;
}

impl<T: NumericType> AddOp<T> for Tensor<T> {
    /// Both tensors are well formed and share one shape; the context is
    /// still building. On a fresh context the left tensor is an
    /// unregistered leaf about to become the designated input; afterwards
    /// it must be the running operand, the one registered most recently,
    /// with the shape recorded for that slot. The right tensor is always a
    /// fresh constant: the chain is linear and never reuses an
    /// intermediate.
    open spec fn add_req(self, other: Tensor<T>, ctx: ExecutionContext<T>) -> bool {
        &&& ctx.wf()
        &&& !ctx.graph.finished
        &&& self.wf()
        &&& other.wf()
        &&& other.slot is None
        &&& self.operand.dimensions@ == other.operand.dimensions@
        &&& match ctx.input {
            None => self.slot is None,
            Some(_) => self.slot == Some(ctx.operand_count) && self.operand.dimensions@ == dims_at(
                ctx.graph.operands@,
                ctx.operand_count as int,
            ),
        }
    }

    /// The context stays well formed and still building; its device set is
    /// untouched. Exactly three fresh operand slots are registered, every
    /// earlier registration is unchanged, and one add operation is
    /// appended. The output is a zero-filled tensor of the input shape,
    /// registered as the new running operand. On a fresh context the left
    /// tensor becomes the designated input and the graph thereafter
    /// computes the elementwise sum of the two data buffers; on a running
    /// context the right operand is added to whatever the chain computed
    /// before.
    open spec fn add_ens(
        self,
        other: Tensor<T>,
        pre: ExecutionContext<T>,
        post: ExecutionContext<T>,
        output: Tensor<T>,
    ) -> bool {
        &&& post.wf()
        &&& !post.graph.finished
        &&& output.wf()
        &&& output.operand.dimensions@ == self.operand.dimensions@
        &&& output.data@.len() == self.data@.len()
        &&& (forall|i: int| 0 <= i < output.data@.len() ==> output.data@[i] == T::spec_zero())
        &&& output.slot == Some(post.operand_count)
        &&& post.operand_count == pre.operand_count + 3
        &&& post.devices == pre.devices
        &&& post.graph.operations@.len() == pre.graph.operations@.len() + 1
        &&& post.graph.operations@.last().opcode == OpCode::Add
        &&& extends(
            pre.graph.operands@,
            pre.graph.values@,
            pre.graph.operations@,
            post.graph.operands@,
            post.graph.values@,
            post.graph.operations@,
        )
        &&& dims_at(post.graph.operands@, post.operand_count as int)
            == output.operand.dimensions@
        &&& match pre.input {
            None => {
                &&& post.input matches Some(t) && t.data@ == self.data@
                    && t.operand.dimensions@ == self.operand.dimensions@
                &&& post.consumed@.len() == pre.consumed@.len() + 1
                &&& post.spec_result() == spec_add_vec(self.data@, other.data@)
            },
            Some(_) => {
                &&& post.input == pre.input
                &&& post.consumed@.len() == pre.consumed@.len() + 2
                &&& post.spec_result() == spec_add_vec(pre.spec_result(), other.data@)
            },
        }
    }

    fn add_(self, other: Tensor<T>, ctx: &mut ExecutionContext<T>) -> (output: Tensor<T>) {
        let ghost pre = *old(ctx);
        let ghost n = pre.graph.operations@.len() as int;

        let output: Tensor<T> = Tensor::new(
            zero_vec::<T>(self.data.len()),
            copy_vec(&self.operand.dimensions),
        );

        let is_head = ctx.input.is_none();

        let op1_idx: usize;
        if is_head {
            op1_idx = ctx.graph.add_operand(self.operand.duplicate());
        } else {
            op1_idx = ctx.operand_count;
        }
        let op2_idx = ctx.graph.add_operand(other.operand.duplicate());
        let act_idx = ctx.graph.add_operand(OperandInfo::activation());
        let out_idx = ctx.graph.add_operand(output.operand.duplicate());

        if is_head {
            let mut lhs = self;
            lhs.slot = Some(op1_idx);
            ctx.input = Some(lhs);
        } else {
            ctx.consumed.push(self);
        }

        ctx.graph.set_activation_operand_value(act_idx);
        ctx.graph.set_operand_value(op2_idx, copy_vec(&other.data));

        let inputs: Vec<usize> = vec![op1_idx, op2_idx, act_idx];
        let outputs: Vec<usize> = vec![out_idx];
        ctx.graph.add_operation(OpCode::Add, inputs, outputs);

        let mut rhs = other;
        rhs.slot = Some(op2_idx);
        ctx.consumed.push(rhs);

        ctx.operand_count = out_idx;

        let mut out = output;
        out.slot = Some(out_idx);

        proof {
            let operands2 = ctx.graph.operands@;
            let values2 = ctx.graph.values@;
            let ops2 = ctx.graph.operations@;
            let lhs_slot = pre.operand_count as int;

            assert(extends(
                pre.graph.operands@,
                pre.graph.values@,
                pre.graph.operations@,
                operands2,
                values2,
                ops2,
            ));

            if n > 0 {
                assert(op_shape_wf(pre.graph.operands@, pre.graph.values@, pre.graph.operations@, n - 1));
            }
            assert(chain_slot(ops2, n) == lhs_slot);
            assert(op_shape_wf(operands2, values2, ops2, n));
            assert forall|i: int| 0 <= i < ops2.len() implies #[trigger] op_shape_wf(
                operands2,
                values2,
                ops2,
                i,
            ) by {
                if i < n {
                    lemma_op_wf_frame(
                        pre.graph.operands@,
                        pre.graph.values@,
                        pre.graph.operations@,
                        operands2,
                        values2,
                        ops2,
                        i,
                    );
                }
            }
            assert(chain_wf(operands2, values2, ops2));

            let input_data = ctx.input->0.data@;
            lemma_chain_eval_frame(
                pre.graph.operands@,
                pre.graph.values@,
                pre.graph.operations@,
                operands2,
                values2,
                ops2,
                input_data,
                n,
            );
        }

        out
    }
}

} // verus!
