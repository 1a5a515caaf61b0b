use vstd::prelude::*;

use crate::primitives::{Dtype, NumericType};

verus! {

/// What an operand slot stands for: a tensor of some element kind, the
/// scalar that selects a fused activation, or a boolean scalar flag.
#[derive(Clone, Copy, Debug, PartialEq, Eq, Structural)]
pub enum OperandKind {
    Tensor(Dtype),
    Activation,
    BoolScalar,
}

/// The descriptor of one operand slot: its kind and its dimensions.
/// Scalar operands have no dimensions.
pub struct OperandInfo {
    pub kind: OperandKind,
    pub dimensions: Vec<u32>,
}

impl OperandInfo {
    /// Descriptor for a tensor operand of the given element kind and shape.
    pub fn tensor(dtype: Dtype, dimensions: Vec<u32>) -> (r: OperandInfo)
        ensures
            r.kind == OperandKind::Tensor(dtype),
            r.dimensions == dimensions,
    {
        OperandInfo { kind: OperandKind::Tensor(dtype), dimensions }
    }

    /// A fresh descriptor recording the same kind and shape, for
    /// registering one tensor's descriptor in a graph more than once.
    pub fn duplicate(&self) -> (r: OperandInfo)
        ensures
            r.kind == self.kind,
            r.dimensions@ == self.dimensions@,
    {
        OperandInfo { kind: self.kind, dimensions: crate::primitives::copy_vec(&self.dimensions) }
    }

    /// Descriptor for the scalar operand that selects a fused activation.
    pub fn activation() -> (r: OperandInfo)
        ensures
            r.kind == OperandKind::Activation,
            r.dimensions@.len() == 0,
    {
        OperandInfo { kind: OperandKind::Activation, dimensions: Vec::new() }
    }

    /// Descriptor for a boolean scalar operand.
    pub fn bool_scalar() -> (r: OperandInfo)
        ensures
            r.kind == OperandKind::BoolScalar,
            r.dimensions@.len() == 0,
    {
        OperandInfo { kind: OperandKind::BoolScalar, dimensions: Vec::new() }
    }
}

/// The constant value bound to an operand slot, if any. The designated
/// graph input and every operation output stay unbound: their values are
/// supplied or produced only when the graph runs.
pub enum OperandValue<T: NumericType> {
    Unbound,
    TensorValue(Vec<T>),
    ActivationValue(i32),
    BoolValue(bool),
}

/// The operation kinds the graph supports.
#[derive(Clone, Copy, Debug, PartialEq, Eq, Structural)]
pub enum OpCode {
    Add,
    BatchMatMul,
}

/// One operation record: which operand slots it consumes and which it
/// produces.
pub struct Operation {
    pub opcode: OpCode,
    pub inputs: Vec<usize>,
    pub outputs: Vec<usize>,
}

/// The graph description under construction: one descriptor and one value
/// binding per operand slot, the operation list, the identified
/// input/output slots, and whether the description has been finalized.
pub struct Graph<T: NumericType> {
    pub operands: Vec<OperandInfo>,
    pub values: Vec<OperandValue<T>>,
    pub operations: Vec<Operation>,
    pub io: Option<(usize, usize)>,
    pub finished: bool,
}

/// The number of elements of a tensor of the given shape.
pub open spec fn spec_prod(dims: Seq<u32>) -> int
    decreases dims.len(),
{
    if dims.len() == 0 {
        1
    } else {
        dims[0] * spec_prod(dims.drop_first())
    }
}

/// Every prefix product of the shape fits the index arithmetic of the
/// graph encoding. This is a machine limit, not a rule of the model.
pub open spec fn prefixes_bounded(dims: Seq<u32>) -> bool {
    forall|i: int| 0 <= i <= dims.len() ==> spec_prod(#[trigger] dims.take(i)) <= u32::MAX
}

/// A product of dimension sizes is never negative.
pub proof fn lemma_prod_nonneg(dims: Seq<u32>)
    ensures
        spec_prod(dims) >= 0,
    decreases dims.len(),
{
    if dims.len() > 0 {
        lemma_prod_nonneg(dims.drop_first());
        assert(dims[0] * spec_prod(dims.drop_first()) >= 0) by (nonlinear_arith)
            requires
                dims[0] >= 0,
                spec_prod(dims.drop_first()) >= 0,
        ;
    }
}

/// Boundedness of a concatenated shape's prefix products passes to the
/// left part, whose prefixes are prefixes of the whole.
pub proof fn lemma_prefixes_bounded_prefix(a: Seq<u32>, b: Seq<u32>)
    requires
        prefixes_bounded(a + b),
    ensures
        prefixes_bounded(a),
{
    assert forall|i: int| 0 <= i <= a.len() implies spec_prod(#[trigger] a.take(i)) <= u32::MAX by {
        assert(a.take(i) =~= (a + b).take(i));
    }
}

/// The element count of a concatenated shape is the product of the two
/// parts' element counts.
pub proof fn lemma_prod_append(a: Seq<u32>, b: Seq<u32>)
    ensures
        spec_prod(a + b) == spec_prod(a) * spec_prod(b),
    decreases a.len(),
{
    if a.len() == 0 {
        assert(a + b =~= b);
    } else {
        assert((a + b).drop_first() =~= a.drop_first() + b);
        lemma_prod_append(a.drop_first(), b);
        assert(a[0] * (spec_prod(a.drop_first()) * spec_prod(b)) == (a[0] * spec_prod(
            a.drop_first(),
        )) * spec_prod(b)) by (nonlinear_arith);
    }
}

/// Appending one dimension multiplies the element count by it.
pub proof fn lemma_prod_push(dims: Seq<u32>, d: u32)
    ensures
        spec_prod(dims.push(d)) == spec_prod(dims) * d,
{
    let single = seq![d];
    assert(single.drop_first() =~= Seq::<u32>::empty());
    assert(spec_prod(Seq::<u32>::empty()) == 1);
    assert(spec_prod(single) == d * 1);
    assert(dims.push(d) =~= dims + single);
    lemma_prod_append(dims, single);
}

/// The element count splits at the last dimension.
pub proof fn lemma_prod_split_last(dims: Seq<u32>)
    requires
        dims.len() >= 1,
    ensures
        spec_prod(dims) == spec_prod(dims.drop_last()) * dims.last(),
{
    assert(dims =~= dims.drop_last().push(dims.last()));
    lemma_prod_push(dims.drop_last(), dims.last());
}

/// The number of elements of the shape slice `dims[from..to]`, as the
/// backend encoding computes it. The boundedness premise is a machine
/// limit: each partial product must fit the counter.
pub fn prod_range(dims: &Vec<u32>, from: usize, to: usize) -> (n: u32)
    requires
        from <= to <= dims@.len(),
        prefixes_bounded(dims@.subrange(from as int, to as int)),
    ensures
        n as int == spec_prod(dims@.subrange(from as int, to as int)),
{
    let ghost whole = dims@.subrange(from as int, to as int);
    let mut p: u32 = 1;
    let mut i: usize = from;
    proof {
        assert(dims@.subrange(from as int, from as int) =~= whole.take(0));
    }
    while i < to
        invariant
            from <= i <= to <= dims@.len(),
            prefixes_bounded(whole),
            whole == dims@.subrange(from as int, to as int),
            p as int == spec_prod(whole.take(i - from)),
        decreases to - i,
    {
        proof {
            assert(whole.take(i - from).push(dims@[i as int]) =~= whole.take(i + 1 - from));
            lemma_prod_push(whole.take(i - from), dims@[i as int]);
            lemma_prod_nonneg(whole.take(i + 1 - from));
        }
        p = p * dims[i];
        i += 1;
    }
    proof {
        assert(whole.take(to - from) =~= whole);
    }
    p
}

/// The elementwise sum of two equally long vectors.
pub open spec fn spec_add_vec<T: NumericType>(a: Seq<T>, b: Seq<T>) -> Seq<T> {
    Seq::new(a.len(), |i: int| a[i].spec_add(b[i]))
}

/// The first `n` terms of the inner product of row `row` of `a` (a
/// `rows x kdim` matrix) with column `col` of `b` (a `kdim x cols` matrix).
pub open spec fn spec_dot<T: NumericType>(
    a: Seq<T>,
    b: Seq<T>,
    row: int,
    col: int,
    kdim: int,
    cols: int,
    n: int,
) -> T
    decreases n,
{
    if n <= 0 {
        T::spec_zero()
    } else {
        spec_dot(a, b, row, col, kdim, cols, n - 1).spec_add(
            a[row * kdim + (n - 1)].spec_mul(b[(n - 1) * cols + col]),
        )
    }
}

/// The matrix product of `a` (`rows x kdim`, row major) and `b`
/// (`kdim x cols`, row major), flattened in row-major order.
pub open spec fn spec_matmul<T: NumericType>(
    a: Seq<T>,
    b: Seq<T>,
    rows: int,
    kdim: int,
    cols: int,
) -> Seq<T> {
    Seq::new((rows * cols) as nat, |i: int| spec_dot(a, b, i / cols, i % cols, kdim, cols, kdim))
}

/// The shape recorded for operand slot `i`.
pub open spec fn dims_at(operands: Seq<OperandInfo>, i: int) -> Seq<u32> {
    operands[i].dimensions@
}

/// The tensor constant bound to operand slot `i`.
pub open spec fn const_at<T: NumericType>(values: Seq<OperandValue<T>>, i: int) -> Seq<T> {
    match values[i] {
        OperandValue::TensorValue(v) => v@,
        _ => Seq::empty(),
    }
}

/// The operand slot holding the running value before operation `i` runs:
/// the designated input slot for the first operation, afterwards the
/// output slot of the previous operation.
pub open spec fn chain_slot(ops: Seq<Operation>, i: int) -> int {
    if i <= 0 {
        0
    } else {
        ops[i - 1].outputs@[0] as int
    }
}

/// How many operand slots an operation of this kind consumes.
pub open spec fn op_arity(opcode: OpCode) -> int {
    match opcode {
        OpCode::Add => 3,
        OpCode::BatchMatMul => 4,
    }
}

/// Well-formedness of operation `i` in a linear chain: it consumes the
/// running operand plus freshly registered slots with contiguous indices,
/// its right operand is a bound tensor constant of matching length, its
/// auxiliary operands carry the values the operation kind requires, and
/// the recorded shapes obey the operation's shape rule.
pub open spec fn op_shape_wf<T: NumericType>(
    operands: Seq<OperandInfo>,
    values: Seq<OperandValue<T>>,
    ops: Seq<Operation>,
    i: int,
) -> bool {
    let op = ops[i];
    let lhs = chain_slot(ops, i);
    let arity = op_arity(op.opcode);
    &&& op.inputs@.len() == arity
    &&& op.outputs@.len() == 1
    &&& forall|j: int| 0 <= j < arity ==> op.inputs@[j] as int == lhs + j
    &&& op.outputs@[0] as int == lhs + arity
    &&& 0 <= lhs
    &&& lhs + arity < operands.len()
    &&& operands[lhs].kind == OperandKind::Tensor(T::spec_dtype())
    &&& operands[lhs + 1].kind == OperandKind::Tensor(T::spec_dtype())
    &&& operands[lhs + arity].kind == OperandKind::Tensor(T::spec_dtype())
    &&& values[lhs + 1] is TensorValue
    &&& const_at(values, lhs + 1).len() == spec_prod(dims_at(operands, lhs + 1))
    &&& match op.opcode {
        OpCode::Add => {
            &&& dims_at(operands, lhs + 1) == dims_at(operands, lhs)
            &&& dims_at(operands, lhs + 3) == dims_at(operands, lhs)
            &&& operands[lhs + 2].kind == OperandKind::Activation
            &&& values[lhs + 2] == OperandValue::<T>::ActivationValue(FUSED_NONE)
        },
        OpCode::BatchMatMul => {
            let ld = dims_at(operands, lhs);
            let rd = dims_at(operands, lhs + 1);
            &&& ld.len() >= 1
            &&& rd.len() >= 1
            &&& rd[0] == ld[ld.len() - 1]
            &&& dims_at(operands, lhs + 4) == ld.drop_last() + rd.drop_first()
            &&& prefixes_bounded(dims_at(operands, lhs + 4))
            &&& prefixes_bounded(rd.drop_first())
            &&& operands[lhs + 2].kind == OperandKind::BoolScalar
            &&& operands[lhs + 3].kind == OperandKind::BoolScalar
            &&& values[lhs + 2] == OperandValue::<T>::BoolValue(false)
            &&& values[lhs + 3] == OperandValue::<T>::BoolValue(false)
        },
    }
}

/// Well-formedness of a whole chain of operations over the registered
/// operand slots.
pub open spec fn chain_wf<T: NumericType>(
    operands: Seq<OperandInfo>,
    values: Seq<OperandValue<T>>,
    ops: Seq<Operation>,
) -> bool {
    &&& values.len() == operands.len()
    &&& forall|i: int| 0 <= i < ops.len() ==> #[trigger] op_shape_wf(operands, values, ops, i)
}

/// The value one operation produces from the running value `acc`.
pub open spec fn apply_operation<T: NumericType>(
    operands: Seq<OperandInfo>,
    values: Seq<OperandValue<T>>,
    op: Operation,
    acc: Seq<T>,
) -> Seq<T> {
    let rhs = const_at(values, op.inputs@[1] as int);
    match op.opcode {
        OpCode::Add => spec_add_vec(acc, rhs),
        OpCode::BatchMatMul => {
            let ld = dims_at(operands, op.inputs@[0] as int);
            let rd = dims_at(operands, op.inputs@[1] as int);
            spec_matmul(
                acc,
                rhs,
                spec_prod(ld.drop_last()),
                ld[ld.len() - 1] as int,
                spec_prod(rd.drop_first()),
            )
        },
    }
}

/// The value the first `n` operations of the chain produce from the data
/// bound to the designated input slot.
pub open spec fn chain_eval<T: NumericType>(
    operands: Seq<OperandInfo>,
    values: Seq<OperandValue<T>>,
    ops: Seq<Operation>,
    input: Seq<T>,
    n: int,
) -> Seq<T>
    decreases n,
{
    if n <= 0 {
        input
    } else {
        apply_operation(operands, values, ops[n - 1], chain_eval(operands, values, ops, input, n - 1))
    }
}

/// The scalar value selecting "no fused activation".
pub const FUSED_NONE: i32 = 0;

/// The second description extends the first: every already registered
/// operand slot, value binding and operation is unchanged.
pub open spec fn extends<T: NumericType>(
    operands1: Seq<OperandInfo>,
    values1: Seq<OperandValue<T>>,
    ops1: Seq<Operation>,
    operands2: Seq<OperandInfo>,
    values2: Seq<OperandValue<T>>,
    ops2: Seq<Operation>,
) -> bool {
    &&& operands1.len() <= operands2.len()
    &&& values1.len() <= values2.len()
    &&& ops1.len() <= ops2.len()
    &&& forall|j: int| 0 <= j < operands1.len() ==> operands2[j] == operands1[j]
    &&& forall|j: int| 0 <= j < values1.len() ==> values2[j] == values1[j]
    &&& forall|j: int| 0 <= j < ops1.len() ==> ops2[j] == ops1[j]
}

/// A well-formed operation stays well formed when the description is
/// extended: it only reads slots that already existed.
pub proof fn lemma_op_wf_frame<T: NumericType>(
    operands1: Seq<OperandInfo>,
    values1: Seq<OperandValue<T>>,
    ops1: Seq<Operation>,
    operands2: Seq<OperandInfo>,
    values2: Seq<OperandValue<T>>,
    ops2: Seq<Operation>,
    i: int,
)
    requires
        0 <= i < ops1.len(),
        values1.len() == operands1.len(),
        op_shape_wf(operands1, values1, ops1, i),
        extends(operands1, values1, ops1, operands2, values2, ops2),
    ensures
        op_shape_wf(operands2, values2, ops2, i),
{
    assert(chain_slot(ops2, i) == chain_slot(ops1, i));
    assert(ops2[i] == ops1[i]);
    let lhs = chain_slot(ops1, i);
    let arity = op_arity(ops1[i].opcode);
    assert(forall|j: int| 0 <= j <= arity ==> #[trigger] operands2[lhs + j] == operands1[lhs + j]);
    assert(forall|j: int| 0 <= j <= arity ==> #[trigger] values2[lhs + j] == values1[lhs + j]);
}

/// The value of a chain prefix is unchanged when the description is
/// extended behind it.
pub proof fn lemma_chain_eval_frame<T: NumericType>(
    operands1: Seq<OperandInfo>,
    values1: Seq<OperandValue<T>>,
    ops1: Seq<Operation>,
    operands2: Seq<OperandInfo>,
    values2: Seq<OperandValue<T>>,
    ops2: Seq<Operation>,
    input: Seq<T>,
    n: int,
)
    requires
        chain_wf(operands1, values1, ops1),
        0 <= n <= ops1.len(),
        extends(operands1, values1, ops1, operands2, values2, ops2),
    ensures
        chain_eval(operands2, values2, ops2, input, n) == chain_eval(
            operands1,
            values1,
            ops1,
            input,
            n,
        ),
    decreases n,
{
    if n > 0 {
        lemma_chain_eval_frame(operands1, values1, ops1, operands2, values2, ops2, input, n - 1);
        assert(op_shape_wf(operands1, values1, ops1, n - 1));
        let op = ops1[n - 1];
        let lhs = chain_slot(ops1, n - 1);
        assert(ops2[n - 1] == op);
        assert(operands2[lhs] == operands1[lhs]);
        assert(operands2[lhs + 1] == operands1[lhs + 1]);
        assert(values2[lhs + 1] == values1[lhs + 1]);
    }
}

/// The length of the running value after `n` chain steps is the element
/// count of the shape recorded for the slot that holds it.
pub proof fn lemma_chain_eval_len<T: NumericType>(
    operands: Seq<OperandInfo>,
    values: Seq<OperandValue<T>>,
    ops: Seq<Operation>,
    input: Seq<T>,
    n: int,
)
    requires
        chain_wf(operands, values, ops),
        0 <= n <= ops.len(),
        n > 0 ==> input.len() == spec_prod(dims_at(operands, 0)),
    ensures
        n > 0 ==> chain_eval(operands, values, ops, input, n).len() == spec_prod(
            dims_at(operands, chain_slot(ops, n)),
        ),
    decreases n,
{
    if n > 0 {
        lemma_chain_eval_len(operands, values, ops, input, n - 1);
        assert(op_shape_wf(operands, values, ops, n - 1));
        let op = ops[n - 1];
        let lhs = chain_slot(ops, n - 1);
        let acc = chain_eval(operands, values, ops, input, n - 1);
        assert(acc.len() == spec_prod(dims_at(operands, lhs)));
        match op.opcode {
            OpCode::Add => {
                assert(chain_slot(ops, n) == lhs + 3);
            },
            OpCode::BatchMatMul => {
                let ld = dims_at(operands, lhs);
                let rd = dims_at(operands, lhs + 1);
                let rows = spec_prod(ld.drop_last());
                let cols = spec_prod(rd.drop_first());
                lemma_prod_nonneg(ld.drop_last());
                lemma_prod_nonneg(rd.drop_first());
                assert(rows * cols >= 0) by (nonlinear_arith)
                    requires
                        rows >= 0,
                        cols >= 0,
                ;
                lemma_prod_append(ld.drop_last(), rd.drop_first());
                assert(chain_slot(ops, n) == lhs + 4);
                assert(chain_eval(operands, values, ops, input, n).len() == rows * cols);
            },
        }
    }
}

impl<T: NumericType> Graph<T> {
    /// A fresh, empty graph description.
    pub fn new() -> (g: Graph<T>)
        ensures
            g.operands@ == Seq::<OperandInfo>::empty(),
            g.values@ == Seq::<OperandValue<T>>::empty(),
            g.operations@ == Seq::<Operation>::empty(),
            g.io is None,
            !g.finished,
    {
        Graph {
            operands: Vec::new(),
            values: Vec::new(),
            operations: Vec::new(),
            io: None,
            finished: false,
        }
    }

    /// Registers one operand slot and returns its index: slots are numbered
    /// contiguously, and the index of the n-th registered operand is the
    /// count of operands registered before it.
    pub fn add_operand(&mut self, operand: OperandInfo) -> (idx: usize)
        requires
            !old(self).finished,
        ensures
            idx == old(self).operands@.len(),
            final(self).operands@ == old(self).operands@.push(operand),
            final(self).values@ == old(self).values@.push(OperandValue::<T>::Unbound),
            final(self).operations@ == old(self).operations@,
            final(self).io == old(self).io,
            final(self).finished == old(self).finished,
    {
        let idx: usize = self.operands.len();
        self.operands.push(operand);
        self.values.push(OperandValue::Unbound);
        idx
    }

    /// Binds a tensor constant to an operand slot.
    pub fn set_operand_value(&mut self, idx: usize, data: Vec<T>)
        requires
            !old(self).finished,
            idx < old(self).values@.len(),
        ensures
            final(self).values@ == old(self).values@.update(
                idx as int,
                OperandValue::<T>::TensorValue(data),
            ),
            final(self).operands@ == old(self).operands@,
            final(self).operations@ == old(self).operations@,
            final(self).io == old(self).io,
            final(self).finished == old(self).finished,
    {
        self.values[idx] = OperandValue::TensorValue(data);
    }

    /// Binds the "no fused activation" scalar to an operand slot.
    pub fn set_activation_operand_value(&mut self, idx: usize)
        requires
            !old(self).finished,
            idx < old(self).values@.len(),
        ensures
            final(self).values@ == old(self).values@.update(
                idx as int,
                OperandValue::<T>::ActivationValue(FUSED_NONE),
            ),
            final(self).operands@ == old(self).operands@,
            final(self).operations@ == old(self).operations@,
            final(self).io == old(self).io,
            final(self).finished == old(self).finished,
    {
        self.values[idx] = OperandValue::ActivationValue(FUSED_NONE);
    }

    /// Binds a boolean scalar to an operand slot.
    pub fn set_bool_operand_value(&mut self, idx: usize, value: bool)
        requires
            !old(self).finished,
            idx < old(self).values@.len(),
        ensures
            final(self).values@ == old(self).values@.update(
                idx as int,
                OperandValue::<T>::BoolValue(value),
            ),
            final(self).operands@ == old(self).operands@,
            final(self).operations@ == old(self).operations@,
            final(self).io == old(self).io,
            final(self).finished == old(self).finished,
    {
        self.values[idx] = OperandValue::BoolValue(value);
    }

    /// Appends one operation record.
    pub fn add_operation(&mut self, opcode: OpCode, inputs: Vec<usize>, outputs: Vec<usize>)
        requires
            !old(self).finished,
        ensures
            final(self).operations@ == old(self).operations@.push(
                (Operation { opcode, inputs, outputs }),
            ),
            final(self).operands@ == old(self).operands@,
            final(self).values@ == old(self).values@,
            final(self).io == old(self).io,
            final(self).finished == old(self).finished,
    {
        self.operations.push(Operation { opcode, inputs, outputs });
    }

    /// Declares which operand slots are the graph's input and output.
    pub fn identify_inputs_and_outputs(&mut self, input: usize, output: usize)
        requires
            !old(self).finished,
        ensures
            final(self).io == Some((input, output)),
            final(self).operands@ == old(self).operands@,
            final(self).values@ == old(self).values@,
            final(self).operations@ == old(self).operations@,
            final(self).finished == old(self).finished,
    {
        self.io = Some((input, output));
    }

    /// The tensor constant bound to an operand slot.
    pub fn tensor_value_at(&self, idx: usize) -> (r: &Vec<T>)
        requires
            idx < self.values@.len(),
            self.values@[idx as int] is TensorValue,
        ensures
            r@ == const_at(self.values@, idx as int),
    {
        match &self.values[idx] {
            OperandValue::TensorValue(v) => v,
            _ => vstd::pervasive::unreached(),
        }
    }

    /// Finalizes the description: no further registrations are permitted.
    pub fn finish(&mut self)
        requires
            !old(self).finished,
        ensures
            final(self).finished,
            final(self).operands@ == old(self).operands@,
            final(self).values@ == old(self).values@,
            final(self).operations@ == old(self).operations@,
            final(self).io == old(self).io,
    {
        self.finished = true;
    }
}

} // verus!
