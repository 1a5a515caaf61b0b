use vstd::prelude::*;

use crate::graph::{chain_eval, chain_slot, chain_wf, dims_at, Graph};
use crate::primitives::NumericType;
use crate::tensor::Tensor;

verus! {

/// One target execution device, identified by the number the platform's
/// device enumeration assigns to it.
#[derive(Clone, Copy, Debug, PartialEq, Eq, Structural)]
pub struct Device {
    pub id: u64,
}

/// The state of one in-progress graph: the graph description being built,
/// the tensor designated as the graph's sole input, the tensors consumed as
/// constant operands (they must stay alive as long as the graph references
/// their values), the running operand-slot counter, and the device set
/// chosen at creation.
///
/// One operator call mutates all of this as a single atomic unit —
/// interleaving two calls' index allocations would corrupt the
/// contiguous-index invariant — so every operator takes the context by
/// exclusive borrow for the whole of shape computation through counter
/// advancement; a caller sharing a context across threads must hold an
/// exclusive lock around each call and never across a compute pass.
///
/// `operand_count` is the single source of truth for index allocation:
/// outside any operator call it is the index of the most recently produced
/// operand, and the next operation consumes it as its running left operand.
pub struct ExecutionContext<T: NumericType> {
    pub graph: Graph<T>,
    pub input: Option<Tensor<T>>,
    pub consumed: Vec<Tensor<T>>,
    pub operand_count: usize,
    pub devices: Vec<Device>,
}

impl<T: NumericType> ExecutionContext<T> {
    /// The context invariant. A fresh context is empty; once the first
    /// operator call has designated an input, the graph is a well-formed
    /// linear chain whose first operand (slot 0) is the input and whose most
    /// recently produced operand has index `operand_count`.
    pub open spec fn wf(self) -> bool {
        &&& chain_wf(self.graph.operands@, self.graph.values@, self.graph.operations@)
        &&& match self.input {
            None => {
                &&& self.operand_count == 0
                &&& self.graph.operands@.len() == 0
                &&& self.graph.operations@.len() == 0
                &&& !self.graph.finished
                &&& self.graph.io is None
            },
            Some(t) => {
                &&& self.operand_count + 1 == self.graph.operands@.len()
                &&& self.graph.operations@.len() > 0
                &&& chain_slot(self.graph.operations@, self.graph.operations@.len() as int)
                    == self.operand_count
                &&& t.wf()
                &&& t.slot == Some(0usize)
                &&& t.operand.dimensions@ == dims_at(self.graph.operands@, 0)
                &&& self.graph.values@[0] is Unbound
                &&& self.graph.finished ==> self.graph.io == Some((0usize, self.operand_count))
                &&& !self.graph.finished ==> self.graph.io is None
            },
        }
    }

    /// The data the graph's chain of operations computes from the data of
    /// the designated input tensor.
    pub open spec fn spec_result(self) -> Seq<T> {
        chain_eval(
            self.graph.operands@,
            self.graph.values@,
            self.graph.operations@,
            self.input->0.data@,
            self.graph.operations@.len() as int,
        )
    }

    /// A fresh context for one independent graph, targeting the given
    /// device set. An empty device set is accepted here; the downstream
    /// compile step rejects it.
    pub fn new(devices: Vec<Device>) -> (c: ExecutionContext<T>)
        ensures
            c.wf(),
            c.input is None,
            c.consumed@.len() == 0,
            c.operand_count == 0,
            c.devices == devices,
            !c.graph.finished,
    {
        ExecutionContext {
            graph: Graph::new(),
            input: None,
            consumed: Vec::new(),
            operand_count: 0,
            devices,
        }
    }
}

} // verus!
