use vstd::prelude::*;

use crate::context::ExecutionContext;
use crate::graph::{
    chain_slot, chain_wf, dims_at, extends, lemma_chain_eval_frame, lemma_op_wf_frame,
    op_shape_wf, prefixes_bounded, prod_range, spec_matmul, spec_prod, OpCode,
    OperandInfo,
};
use crate::primitives::{copy_vec, zero_vec, NumericType};
use crate::tensor::Tensor;

verus! {

/// Matrix multiplication as a graph-extension step: consuming two tensors
/// of one context whose contraction dimensions agree, it registers the
/// needed operand slots, appends one batched-matmul operation, and returns
/// the zero-filled output tensor of shape
/// `lhs.shape[..len-1] ++ rhs.shape[1..]`.
pub trait MatMulOp<T: NumericType>: Sized {
    spec fn matmul_req(self, other: Self, ctx: ExecutionContext<T>) -> bool;

    spec fn matmul_ens(
        self,
        other: Self,
        pre: ExecutionContext<T>,
        post: ExecutionContext<T>,
        output: Self,
    ) -> bool;

    fn matmul(self, other: Self, ctx: &mut ExecutionContext<T>) -> (output: Self)
        requires
            self.matmul_req(other, *old(ctx)),
        ensures
            self.matmul_ens(other, *old(ctx), *final(ctx), output),
    ;
}

impl<T: NumericType> MatMulOp<T> for Tensor<T> {
    /// Both tensors are well formed, the trailing dimension of the left
    /// shape equals the leading dimension of the right shape, and the
    /// context is still building. As for addition, the left tensor is a
    /// fresh leaf on a fresh context and otherwise the running operand,
    /// and the right tensor is a fresh constant. The two boundedness
    /// premises are machine limits on the output shape's element counts.
    open spec fn matmul_req(self, other: Tensor<T>, ctx: ExecutionContext<T>) -> bool {
        let ld = self.operand.dimensions@;
        let rd = other.operand.dimensions@;
        &&& ctx.wf()
        &&& !ctx.graph.finished
        &&& self.wf()
        &&& other.wf()
        &&& other.slot is None
        &&& ld.len() >= 1
        &&& rd.len() >= 1
        &&& rd[0] == ld.last()
        &&& prefixes_bounded(ld.drop_last() + rd.drop_first())
        &&& prefixes_bounded(rd.drop_first())
        &&& match ctx.input {
            None => self.slot is None,
            Some(_) => self.slot == Some(ctx.operand_count) && ld == dims_at(
                ctx.graph.operands@,
                ctx.operand_count as int,
            ),
        }
    }

    /// The context stays well formed and still building; its device set is
    /// untouched. Exactly four fresh operand slots are registered, every
    /// earlier registration is unchanged, and one batched-matmul operation
    /// is appended, its two transpose flags bound to false. The output is
    /// a zero-filled tensor of the concatenated shape, registered as the
    /// new running operand. On a fresh context the left tensor becomes the
    /// designated input and the graph thereafter computes the matrix
    /// product of the two data buffers; on a running context whatever the
    /// chain computed before is multiplied by the right operand.
    open spec fn matmul_ens(
        self,
        other: Tensor<T>,
        pre: ExecutionContext<T>,
        post: ExecutionContext<T>,
        output: Tensor<T>,
    ) -> bool {
        let ld = self.operand.dimensions@;
        let rd = other.operand.dimensions@;
        let rows = spec_prod(ld.drop_last());
        let kdim = ld.last() as int;
        let cols = spec_prod(rd.drop_first());
        &&& post.wf()
        &&& !post.graph.finished
        &&& output.wf()
        &&& output.operand.dimensions@ == ld.drop_last() + rd.drop_first()
        &&& output.data@.len() == spec_prod(ld.drop_last() + rd.drop_first())
        &&& (forall|i: int| 0 <= i < output.data@.len() ==> output.data@[i] == T::spec_zero())
        &&& output.slot == Some(post.operand_count)
        &&& post.operand_count == pre.operand_count + 4
        &&& post.devices == pre.devices
        &&& post.graph.operations@.len() == pre.graph.operations@.len() + 1
        &&& post.graph.operations@.last().opcode == OpCode::BatchMatMul
        &&& extends(
            pre.graph.operands@,
            pre.graph.values@,
            pre.graph.operations@,
            post.graph.operands@,
            post.graph.values@,
            post.graph.operations@,
        )
        &&& dims_at(post.graph.operands@, post.operand_count as int)
            == output.operand.dimensions@
        &&& match pre.input {
            None => {
                &&& post.input matches Some(t) && t.data@ == self.data@
                    && t.operand.dimensions@ == ld
                &&& post.consumed@.len() == pre.consumed@.len() + 1
                &&& post.spec_result() == spec_matmul(self.data@, other.data@, rows, kdim, cols)
            },
            Some(_) => {
                &&& post.input == pre.input
                &&& post.consumed@.len() == pre.consumed@.len() + 2
                &&& post.spec_result() == spec_matmul(
                    pre.spec_result(),
                    other.data@,
                    rows,
                    kdim,
                    cols,
                )
            },
        }
    }

    fn matmul(self, other: Tensor<T>, ctx: &mut ExecutionContext<T>) -> (output: Tensor<T>) {
        let ghost pre = *old(ctx);
        let ghost n = pre.graph.operations@.len() as int;
        let ghost ld = self.operand.dimensions@;
        let ghost rd = other.operand.dimensions@;

        let lhs_rank: usize = self.operand.dimensions.len();
        let rhs_rank: usize = other.operand.dimensions.len();

        let mut new_shape: Vec<u32> = Vec::new();
        let mut i: usize = 0;
        while i < lhs_rank - 1
            invariant
                lhs_rank == ld.len(),
                lhs_rank >= 1,
                i <= lhs_rank - 1,
                new_shape@ == ld.take(i as int),
                self.operand.dimensions@ == ld,
            decreases lhs_rank - 1 - i,
        {
            new_shape.push(self.operand.dimensions[i]);
            proof {
                assert(ld.take(i as int).push(ld[i as int]) =~= ld.take(i as int + 1));
            }
            i += 1;
        }
        proof {
            assert(ld.take(lhs_rank - 1) =~= ld.drop_last());
        }
        let mut j: usize = 1;
        while j < rhs_rank
            invariant
                rhs_rank == rd.len(),
                1 <= j <= rhs_rank,
                new_shape@ == ld.drop_last() + rd.subrange(1, j as int),
                other.operand.dimensions@ == rd,
            decreases rhs_rank - j,
        {
            new_shape.push(other.operand.dimensions[j]);
            proof {
                assert((ld.drop_last() + rd.subrange(1, j as int)).push(rd[j as int]) =~= ld.drop_last()
                    + rd.subrange(1, j as int + 1));
            }
            j += 1;
        }
        proof {
            assert(rd.subrange(1, rhs_rank as int) =~= rd.drop_first());
            assert(new_shape@.subrange(0, new_shape@.len() as int) =~= new_shape@);
        }

        let new_len_u32: u32 = prod_range(&new_shape, 0, new_shape.len());
        let new_len: usize = new_len_u32 as usize;
        let output: Tensor<T> = Tensor::new(zero_vec::<T>(new_len), new_shape);

        let is_head = ctx.input.is_none();

        let op1_idx: usize;
        if is_head {
            op1_idx = ctx.graph.add_operand(self.operand.duplicate());
        } else {
            op1_idx = ctx.operand_count;
        }
        let op2_idx = ctx.graph.add_operand(other.operand.duplicate());
        let t1_idx = ctx.graph.add_operand(OperandInfo::bool_scalar());
        let t2_idx = ctx.graph.add_operand(OperandInfo::bool_scalar());
        let out_idx = ctx.graph.add_operand(output.operand.duplicate());

        if is_head {
            let mut lhs = self;
            lhs.slot = Some(op1_idx);
            ctx.input = Some(lhs);
        } else {
            ctx.consumed.push(self);
        }

        ctx.graph.set_bool_operand_value(t1_idx, false);
        ctx.graph.set_bool_operand_value(t2_idx, false);
        ctx.graph.set_operand_value(op2_idx, copy_vec(&other.data));

        let inputs: Vec<usize> = vec![op1_idx, op2_idx, t1_idx, t2_idx];
        let outputs: Vec<usize> = vec![out_idx];
        ctx.graph.add_operation(OpCode::BatchMatMul, inputs, outputs);

        let mut rhs = other;
        rhs.slot = Some(op2_idx);
        ctx.consumed.push(rhs);

        ctx.operand_count = out_idx;

        let mut out = output;
        out.slot = Some(out_idx);

        proof {
            let operands2 = ctx.graph.operands@;
            let values2 = ctx.graph.values@;
            let ops2 = ctx.graph.operations@;
            let lhs_slot = pre.operand_count as int;

            assert(extends(
                pre.graph.operands@,
                pre.graph.values@,
                pre.graph.operations@,
                operands2,
                values2,
                ops2,
            ));

            if n > 0 {
                assert(op_shape_wf(pre.graph.operands@, pre.graph.values@, pre.graph.operations@, n - 1));
            }
            assert(chain_slot(ops2, n) == lhs_slot);
            assert(op_shape_wf(operands2, values2, ops2, n));
            assert forall|i2: int| 0 <= i2 < ops2.len() implies #[trigger] op_shape_wf(
                operands2,
                values2,
                ops2,
                i2,
            ) by {
                if i2 < n {
                    lemma_op_wf_frame(
                        pre.graph.operands@,
                        pre.graph.values@,
                        pre.graph.operations@,
                        operands2,
                        values2,
                        ops2,
                        i2,
                    );
                }
            }
            assert(chain_wf(operands2, values2, ops2));

            let input_data = ctx.input->0.data@;
            lemma_chain_eval_frame(
                pre.graph.operands@,
                pre.graph.values@,
                pre.graph.operations@,
                operands2,
                values2,
                ops2,
                input_data,
                n,
            );
        }

        out
    }
}

} // verus!
