use vstd::prelude::*;

use crate::context::ExecutionContext;
use crate::graph::{chain_wf, op_shape_wf, OperandInfo, OperandValue, Operation};
use crate::primitives::NumericType;

verus! {

/// Law: operand-index allocation is strictly increasing across consecutive
/// operations of one chain. A later operation's running operand is at or
/// above every earlier operation's output slot, and each operation's
/// output slot lies strictly above its own inputs, so the slots an
/// operation registers all exceed those of every operation before it.
pub proof fn lemma_operand_indices_increase<T: NumericType>(
    operands: Seq<OperandInfo>,
    values: Seq<OperandValue<T>>,
    ops: Seq<Operation>,
    i: int,
    j: int,
)
    requires
        chain_wf(operands, values, ops),
        0 <= i < j < ops.len(),
    ensures
        ops[i].outputs@[0] as int <= ops[j].inputs@[0] as int,
        ops[j].inputs@[0] < ops[j].outputs@[0],
        ops[i].outputs@[0] < ops[j].outputs@[0],
    decreases j - i,
{
    assert(op_shape_wf(operands, values, ops, j));
    assert(op_shape_wf(operands, values, ops, i));
    if i + 1 < j {
        lemma_operand_indices_increase(operands, values, ops, i, j - 1);
        assert(op_shape_wf(operands, values, ops, j - 1));
    }
}

/// Law: the designated input of a context is the first operand ever
/// registered. It occupies slot 0, and the first operation consumes slot 0
/// as its running left operand. That at most one tensor is ever designated
/// is part of the operators' contracts: once the input is set, every
/// operator call leaves it unchanged.
pub proof fn lemma_input_is_first_operand<T: NumericType>(c: ExecutionContext<T>)
    requires
        c.wf(),
        c.input is Some,
    ensures
        c.input->0.slot == Some(0usize),
        c.graph.operands@.len() > 0,
        c.graph.operations@[0].inputs@[0] == 0,
{
    assert(op_shape_wf(c.graph.operands@, c.graph.values@, c.graph.operations@, 0));
}

/// Law: recomputation is idempotent. Two contexts with the same registered
/// operands, the same value bindings, the same operations and the same
/// input data compute the same result, so running an unchanged context
/// again — as a repeated seal-compile-execute pass does — yields the same
/// data.
pub proof fn lemma_recompute_idempotent<T: NumericType>(
    c0: ExecutionContext<T>,
    c1: ExecutionContext<T>,
)
    requires
        c0.input is Some,
        c1.input is Some,
        c1.graph.operands@ == c0.graph.operands@,
        c1.graph.values@ == c0.graph.values@,
        c1.graph.operations@ == c0.graph.operations@,
        c1.input->0.data@ == c0.input->0.data@,
    ensures
        c1.spec_result() == c0.spec_result(),
{
}

} // verus!
