use vstd::prelude::*;

use crate::context::ExecutionContext;
use crate::graph::{
    chain_eval, chain_wf, dims_at, lemma_chain_eval_len, lemma_prefixes_bounded_prefix,
    lemma_prod_split_last, op_shape_wf, prod_range, spec_add_vec, spec_dot, spec_matmul, spec_prod,
    Graph, OpCode,
};
use crate::primitives::{copy_vec, NumericType};
use crate::tensor::Tensor;
use vstd::arithmetic::div_mod::lemma_fundamental_div_mod_converse;

verus! {

/// Why sealing or compiling a graph failed.
#[derive(Clone, Copy, Debug, PartialEq, Eq, Structural)]
pub enum NnError {
    /// The graph was sealed before any operator call designated an input.
    NoOperationsApplied,
    /// The context's device set is empty.
    EmptyDeviceSet,
}

/// A compiled pipeline handle: evidence that the context's graph was
/// sealed and compiled for a non-empty device set. It records the sealed
/// description it was compiled from; executions through it apply to
/// exactly that description.
pub struct Compilation<T: NumericType> {
    pub graph: Ghost<Graph<T>>,
}

/// A reusable low-overhead execution handle tied to one compiled pipeline,
/// for repeatedly running the same compiled graph.
pub struct Burst<T: NumericType> {
    pub graph: Ghost<Graph<T>>,
}

impl<T: NumericType> Burst<T> {
    /// A burst handle for the given compiled pipeline.
    pub fn new(compilation: &Compilation<T>) -> (b: Burst<T>)
        ensures
            b.graph == compilation.graph,
    {
        Burst { graph: Ghost(compilation.graph@) }
    }
}

/// The elementwise sum of two equally long buffers.
fn add_vecs<T: NumericType>(a: &Vec<T>, b: &Vec<T>) -> (r: Vec<T>)
    requires
        a@.len() == b@.len(),
    ensures
        r@ == spec_add_vec(a@, b@),
{
    let mut r: Vec<T> = Vec::new();
    let mut i: usize = 0;
    while i < a.len()
        invariant
            i <= a@.len(),
            a@.len() == b@.len(),
            r@.len() == i,
            forall|x: int| 0 <= x < i ==> r@[x] == a@[x].spec_add(b@[x]),
        decreases a@.len() - i,
    {
        r.push(a[i].add_elem(b[i]));
        i += 1;
    }
    proof {
        assert(r@ =~= spec_add_vec(a@, b@));
    }
    r
}

/// The row-major product of an `rows x kdim` buffer with a `kdim x cols`
/// buffer.
fn matmul_vecs<T: NumericType>(
    a: &Vec<T>,
    b: &Vec<T>,
    rows: usize,
    kdim: usize,
    cols: usize,
) -> (r: Vec<T>)
    requires
        a@.len() == rows * kdim,
        b@.len() == kdim * cols,
    ensures
        r@ == spec_matmul(a@, b@, rows as int, kdim as int, cols as int),
{
    // witnesses that both element counts fit a usize, for the index
    // arithmetic below
    let _len_a: usize = a.len();
    let _len_b: usize = b.len();
    let ghost result = spec_matmul(a@, b@, rows as int, kdim as int, cols as int);
    proof {
        assert(result.len() == rows * cols);
    }
    let mut r: Vec<T> = Vec::new();
    let mut row: usize = 0;
    while row < rows
        invariant
            row <= rows,
            a@.len() == rows * kdim,
            b@.len() == kdim * cols,
            a@.len() <= usize::MAX,
            b@.len() <= usize::MAX,
            result == spec_matmul(a@, b@, rows as int, kdim as int, cols as int),
            result.len() == rows * cols,
            r@.len() == row * cols,
            forall|x: int| 0 <= x < r@.len() ==> r@[x] == result[x],
        decreases rows - row,
    {
        let mut col: usize = 0;
        proof {
            assert(row * cols + cols <= rows * cols) by (nonlinear_arith)
                requires
                    row < rows,
                    cols >= 0,
            ;
        }
        while col < cols
            invariant
                col <= cols,
                row < rows,
                a@.len() == rows * kdim,
                b@.len() == kdim * cols,
                a@.len() <= usize::MAX,
                b@.len() <= usize::MAX,
                result == spec_matmul(a@, b@, rows as int, kdim as int, cols as int),
                result.len() == rows * cols,
                row * cols + cols <= rows * cols,
                r@.len() == row * cols + col,
                forall|x: int| 0 <= x < r@.len() ==> r@[x] == result[x],
            decreases cols - col,
        {
            let mut accv: T = T::zero();
            let mut kk: usize = 0;
            while kk < kdim
                invariant
                    kk <= kdim,
                    row < rows,
                    col < cols,
                    a@.len() == rows * kdim,
                    b@.len() == kdim * cols,
                    a@.len() <= usize::MAX,
                    b@.len() <= usize::MAX,
                    accv == spec_dot(
                        a@,
                        b@,
                        row as int,
                        col as int,
                        kdim as int,
                        cols as int,
                        kk as int,
                    ),
                decreases kdim - kk,
            {
                proof {
                    assert(row * kdim + kk < rows * kdim) by (nonlinear_arith)
                        requires
                            row < rows,
                            kk < kdim,
                    ;
                    assert(kk * cols + col < kdim * cols) by (nonlinear_arith)
                        requires
                            kk < kdim,
                            col < cols,
                    ;
                    assert(rows * kdim == a@.len() <= usize::MAX);
                    assert(kdim * cols == b@.len() <= usize::MAX);
                }
                let av: T = a[row * kdim + kk];
                let bv: T = b[kk * cols + col];
                accv = accv.add_elem(av.mul_elem(bv));
                kk += 1;
            }
            proof {
                assert(row * cols + col < rows * cols) by (nonlinear_arith)
                    requires
                        row < rows,
                        col < cols,
                ;
                let idx = row * cols + col;
                lemma_fundamental_div_mod_converse(
                    idx as int,
                    cols as int,
                    row as int,
                    col as int,
                );
                assert(result[idx as int] == accv);
            }
            r.push(accv);
            col += 1;
        }
        proof {
            assert(row * cols + cols == (row + 1) * cols) by (nonlinear_arith);
        }
        row += 1;
    }
    proof {
        assert(r@ =~= result);
    }
    r
}

/// Runs a well-formed chain on the given input data, producing the value
/// of the most recently produced operand.
fn run_chain<T: NumericType>(g: &Graph<T>, input: &Vec<T>) -> (r: Vec<T>)
    requires
        chain_wf(g.operands@, g.values@, g.operations@),
        g.operations@.len() > 0 ==> input@.len() == spec_prod(dims_at(g.operands@, 0)),
    ensures
        r@ == chain_eval(
            g.operands@,
            g.values@,
            g.operations@,
            input@,
            g.operations@.len() as int,
        ),
{
    let mut acc: Vec<T> = copy_vec(input);
    let mut i: usize = 0;
    while i < g.operations.len()
        invariant
            i <= g.operations@.len(),
            chain_wf(g.operands@, g.values@, g.operations@),
            g.operations@.len() > 0 ==> input@.len() == spec_prod(dims_at(g.operands@, 0)),
            acc@ == chain_eval(g.operands@, g.values@, g.operations@, input@, i as int),
        decreases g.operations@.len() - i,
    {
        proof {
            assert(op_shape_wf(g.operands@, g.values@, g.operations@, i as int));
            lemma_chain_eval_len(g.operands@, g.values@, g.operations@, input@, i as int);
        }
        let op = &g.operations[i];
        let lhs_idx: usize = op.inputs[0];
        let rhs_idx: usize = op.inputs[1];
        let rhs: &Vec<T> = g.tensor_value_at(rhs_idx);
        match op.opcode {
            OpCode::Add => {
                acc = add_vecs(&acc, rhs);
            },
            OpCode::BatchMatMul => {
                let ghost ld = dims_at(g.operands@, lhs_idx as int);
                let ghost rd = dims_at(g.operands@, rhs_idx as int);
                let lhs_dims: &Vec<u32> = &g.operands[lhs_idx].dimensions;
                let rhs_dims: &Vec<u32> = &g.operands[rhs_idx].dimensions;
                let lhs_rank: usize = lhs_dims.len();
                let rhs_rank: usize = rhs_dims.len();
                let kdim: u32 = lhs_dims[lhs_rank - 1];
                proof {
                    lemma_prefixes_bounded_prefix(ld.drop_last(), rd.drop_first());
                    assert(lhs_dims@.subrange(0, lhs_rank - 1) =~= ld.drop_last());
                    assert(rhs_dims@.subrange(1, rhs_rank as int) =~= rd.drop_first());
                }
                let rows: u32 = prod_range(lhs_dims, 0, lhs_rank - 1);
                let cols: u32 = prod_range(rhs_dims, 1, rhs_rank);
                proof {
                    lemma_prod_split_last(ld);
                    assert(acc@.len() == (rows as usize) * (kdim as usize)) by (nonlinear_arith)
                        requires
                            acc@.len() == spec_prod(ld),
                            spec_prod(ld) == spec_prod(ld.drop_last()) * ld.last(),
                            rows as int == spec_prod(ld.drop_last()),
                            kdim == ld.last(),
                    ;
                    assert(rhs@.len() == (kdim as usize) * (cols as usize)) by (nonlinear_arith)
                        requires
                            rhs@.len() == spec_prod(rd),
                            spec_prod(rd) == rd[0] * spec_prod(rd.drop_first()),
                            cols as int == spec_prod(rd.drop_first()),
                            kdim == rd[0],
                    ;
                }
                acc = matmul_vecs(&acc, rhs, rows as usize, kdim as usize, cols as usize);
            },
        }
        i += 1;
    }
    acc
}

impl<T: NumericType> Tensor<T> {
    /// Seals the context's graph — operand slot 0 the sole input, the most
    /// recently produced operand the sole output — and compiles it for the
    /// context's device set. Fails with `NoOperationsApplied` exactly when
    /// no operator call ever designated an input, and with `EmptyDeviceSet`
    /// exactly when an input exists but the device set is empty. Sealing an
    /// already sealed graph changes nothing, so compiling again stays
    /// valid; no registration survives past the first seal.
    pub fn compile_compute_pipeline(&self, ctx: &mut ExecutionContext<T>) -> (r: Result<
        Compilation<T>,
        NnError,
    >)
        requires
            old(ctx).wf(),
        ensures
            final(ctx).wf(),
            final(ctx).graph.operands@ == old(ctx).graph.operands@,
            final(ctx).graph.values@ == old(ctx).graph.values@,
            final(ctx).graph.operations@ == old(ctx).graph.operations@,
            final(ctx).input == old(ctx).input,
            final(ctx).consumed == old(ctx).consumed,
            final(ctx).operand_count == old(ctx).operand_count,
            final(ctx).devices == old(ctx).devices,
            r is Ok <==> old(ctx).input is Some && old(ctx).devices@.len() > 0,
            r == Err::<Compilation<T>, NnError>(NnError::NoOperationsApplied) <==> old(
                ctx,
            ).input is None,
            r == Err::<Compilation<T>, NnError>(NnError::EmptyDeviceSet) <==> old(
                ctx,
            ).input is Some && old(ctx).devices@.len() == 0,
            old(ctx).input is Some ==> final(ctx).graph.finished,
            r is Ok ==> (r->Ok_0).graph@ == final(ctx).graph,
    {
        if ctx.input.is_none() {
            return Err(NnError::NoOperationsApplied);
        }
        if !ctx.graph.finished {
            let count = ctx.operand_count;
            ctx.graph.identify_inputs_and_outputs(0, count);
            ctx.graph.finish();
        }
        if ctx.devices.len() == 0 {
            return Err(NnError::EmptyDeviceSet);
        }
        Ok(Compilation { graph: Ghost(ctx.graph) })
    }

    /// One-shot execution: binds the context's input data as the sole
    /// input and this tensor's buffer as the sole output, then runs the
    /// compiled chain to completion. The buffer afterwards holds the data
    /// the graph computes from the input tensor's data.
    pub fn compute_as_output(&mut self, ctx: &ExecutionContext<T>, compilation: &Compilation<T>)
        requires
            ctx.wf(),
            ctx.graph == compilation.graph@,
            ctx.input is Some,
            old(self).data@.len() == spec_prod(
                dims_at(ctx.graph.operands@, ctx.operand_count as int),
            ),
        ensures
            final(self).data@ == ctx.spec_result(),
            final(self).operand == old(self).operand,
            final(self).slot == old(self).slot,
    {
        let input: &Vec<T> = match &ctx.input {
            Some(t) => &t.data,
            None => vstd::pervasive::unreached(),
        };
        proof {
            lemma_chain_eval_len(
                ctx.graph.operands@,
                ctx.graph.values@,
                ctx.graph.operations@,
                input@,
                ctx.graph.operations@.len() as int,
            );
        }
        self.data = run_chain(&ctx.graph, input);
    }

    /// Burst execution: like one-shot execution, but through a reusable
    /// handle tied to the compiled pipeline, re-binding the input and
    /// output buffers without paying the full setup cost again.
    pub fn burst_compute_as_output(
        &mut self,
        ctx: &ExecutionContext<T>,
        compilation: &Compilation<T>,
        burst: &mut Burst<T>,
    )
        requires
            ctx.wf(),
            ctx.graph == compilation.graph@,
            old(burst).graph == compilation.graph,
            ctx.input is Some,
            old(self).data@.len() == spec_prod(
                dims_at(ctx.graph.operands@, ctx.operand_count as int),
            ),
        ensures
            final(self).data@ == ctx.spec_result(),
            final(self).operand == old(self).operand,
            final(self).slot == old(self).slot,
            *final(burst) == *old(burst),
    {
        self.compute_as_output(ctx, compilation);
    }

    /// Seals, compiles, and burst-executes in one call, returning a copy
    /// of the computed data. Succeeds exactly when an operator call has
    /// designated an input and the device set is non-empty; the result is
    /// determined by the graph and the input data alone, so calling again
    /// on the unchanged context yields the same data.
    pub fn get_data(&mut self, ctx: &mut ExecutionContext<T>) -> (r: Result<Vec<T>, NnError>)
        requires
            old(ctx).wf(),
            old(ctx).input is Some ==> old(self).data@.len() == spec_prod(
                dims_at(old(ctx).graph.operands@, old(ctx).operand_count as int),
            ),
        ensures
            final(ctx).wf(),
            final(ctx).graph.operands@ == old(ctx).graph.operands@,
            final(ctx).graph.values@ == old(ctx).graph.values@,
            final(ctx).graph.operations@ == old(ctx).graph.operations@,
            final(ctx).input == old(ctx).input,
            final(ctx).consumed == old(ctx).consumed,
            final(ctx).operand_count == old(ctx).operand_count,
            final(ctx).devices == old(ctx).devices,
            r is Ok <==> old(ctx).input is Some && old(ctx).devices@.len() > 0,
            r == Err::<Vec<T>, NnError>(NnError::NoOperationsApplied) <==> old(ctx).input is None,
            r == Err::<Vec<T>, NnError>(NnError::EmptyDeviceSet) <==> old(ctx).input is Some && old(
                ctx,
            ).devices@.len() == 0,
            r is Ok ==> (r->Ok_0)@ == old(ctx).spec_result(),
            r is Ok ==> final(self).data@ == old(ctx).spec_result(),
            final(self).operand == old(self).operand,
            final(self).slot == old(self).slot,
            r !is Ok ==> final(self).data == old(self).data,
    {
        let compilation = match self.compile_compute_pipeline(ctx) {
            Ok(c) => c,
            Err(e) => {
                return Err(e);
            },
        };
        let mut burst = Burst::new(&compilation);
        self.burst_compute_as_output(ctx, &compilation, &mut burst);
        Ok(copy_vec(&self.data))
    }
}

} // verus!
