use vstd::prelude::*;

use crate::graph::{spec_prod, OperandInfo, OperandKind};
use crate::primitives::NumericType;

verus! {

/// A typed tensor node: a shape descriptor, a concrete data buffer whose
/// length is the product of the shape, and, once the tensor has been
/// registered in a graph, the operand slot it occupies there.
pub struct Tensor<T: NumericType> {
    pub operand: OperandInfo,
    pub data: Vec<T>,
    pub slot: Option<usize>,
}

impl<T: NumericType> Tensor<T> {
    /// The tensor's descriptor is a tensor descriptor of the element kind,
    /// and its buffer holds exactly one value per element of the shape.
    pub open spec fn wf(self) -> bool {
        &&& self.operand.kind == OperandKind::Tensor(T::spec_dtype())
        &&& self.data@.len() == spec_prod(self.operand.dimensions@)
    }

    /// A copy of this tensor: same descriptor, same data, same
    /// registration state. Duplicating a leaf gives a fresh constant that
    /// can be consumed by another operator call.
    pub fn duplicate(&self) -> (t: Tensor<T>)
        ensures
            t.operand.kind == self.operand.kind,
            t.operand.dimensions@ == self.operand.dimensions@,
            t.data@ == self.data@,
            t.slot == self.slot,
            self.wf() ==> t.wf(),
    {
        Tensor {
            operand: self.operand.duplicate(),
            data: crate::primitives::copy_vec(&self.data),
            slot: self.slot,
        }
    }

    /// A leaf tensor carrying caller-supplied data, not yet registered in
    /// any graph.
    pub fn new(data: Vec<T>, dimensions: Vec<u32>) -> (t: Tensor<T>)
        requires
            data@.len() == spec_prod(dimensions@),
        ensures
            t.operand.kind == OperandKind::Tensor(T::spec_dtype()),
            t.operand.dimensions == dimensions,
            t.data == data,
            t.slot is None,
            t.wf(),
    {
        let dtype = T::dtype();
        let operand = OperandInfo::tensor(dtype, dimensions);
        Tensor { operand, data, slot: None }
    }
}

} // verus!
