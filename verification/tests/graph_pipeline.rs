use nngraph::context::{Device, ExecutionContext};
use nngraph::graph::{OpCode, OperandKind, OperandValue, FUSED_NONE};
use nngraph::operators::add::AddOp;
use nngraph::operators::matmul::MatMulOp;
use nngraph::pipeline::{Burst, NnError};
use nngraph::primitives::Dtype;
use nngraph::tensor::Tensor;

fn one_device() -> Vec<Device> {
    vec![Device { id: 0 }]
}

#[test]
fn add_chain_computes_elementwise_sums() {
    let mut ctx = ExecutionContext::<i32>::new(one_device());
    let tensor1 = Tensor::new(vec![1, 2, 3], vec![3]);
    let tensor2 = Tensor::new(vec![4, 4, 7], vec![3]);
    let tensor3 = tensor1.duplicate();

    let partial = tensor1.add_(tensor2, &mut ctx);
    let mut output = partial.add_(tensor3, &mut ctx);

    let data = output.get_data(&mut ctx).unwrap();
    assert_eq!(data, vec![6, 8, 13]);
}

#[test]
fn matmul_two_by_three_times_three_by_two() {
    let mut ctx = ExecutionContext::<i32>::new(one_device());
    let lhs = Tensor::new(vec![1, 2, 3, 4, 5, 6], vec![2, 3]);
    let rhs = Tensor::new(vec![1, 2, 3, 4, 5, 6], vec![3, 2]);

    let mut output = lhs.matmul(rhs, &mut ctx);
    assert_eq!(output.operand.dimensions, vec![2, 2]);

    let data = output.get_data(&mut ctx).unwrap();
    assert_eq!(data, vec![22, 28, 49, 64]);
}

#[test]
fn add_output_is_zero_filled_placeholder_of_same_shape() {
    let mut ctx = ExecutionContext::<i32>::new(one_device());
    let a = Tensor::new(vec![9, 9], vec![2]);
    let b = Tensor::new(vec![1, 1], vec![2]);

    let output = a.add_(b, &mut ctx);
    assert_eq!(output.operand.dimensions, vec![2]);
    assert_eq!(output.operand.kind, OperandKind::Tensor(Dtype::Int32));
    assert_eq!(output.data, vec![0, 0]);
}

#[test]
fn operand_allocation_is_contiguous_and_increasing() {
    let mut ctx = ExecutionContext::<i32>::new(one_device());
    assert_eq!(ctx.operand_count, 0);
    assert_eq!(ctx.graph.operands.len(), 0);

    let a = Tensor::new(vec![1, 2], vec![2]);
    let b = Tensor::new(vec![3, 4], vec![2]);
    let partial = a.add_(b, &mut ctx);
    // first call registers lhs, rhs, activation, output: slots 0..=3
    assert_eq!(ctx.operand_count, 3);
    assert_eq!(ctx.graph.operands.len(), 4);
    assert_eq!(ctx.graph.operations.len(), 1);
    assert_eq!(ctx.graph.operations[0].opcode, OpCode::Add);
    assert_eq!(ctx.graph.operations[0].inputs, vec![0, 1, 2]);
    assert_eq!(ctx.graph.operations[0].outputs, vec![3]);
    assert_eq!(partial.slot, Some(3));

    let c = Tensor::new(vec![5, 6], vec![2]);
    let out = partial.add_(c, &mut ctx);
    // second call registers rhs, activation, output: slots 4..=6
    assert_eq!(ctx.operand_count, 6);
    assert_eq!(ctx.graph.operands.len(), 7);
    assert_eq!(ctx.graph.operations[1].inputs, vec![3, 4, 5]);
    assert_eq!(ctx.graph.operations[1].outputs, vec![6]);
    assert_eq!(out.slot, Some(6));
}

#[test]
fn input_is_designated_once_and_is_first_operand() {
    let mut ctx = ExecutionContext::<i32>::new(one_device());
    let a = Tensor::new(vec![1, 2], vec![2]);
    let b = Tensor::new(vec![3, 4], vec![2]);
    assert!(ctx.input.is_none());

    let partial = a.add_(b, &mut ctx);
    let input = ctx.input.as_ref().expect("first operator call designates the input");
    assert_eq!(input.slot, Some(0));
    assert_eq!(input.data, vec![1, 2]);

    let c = Tensor::new(vec![5, 6], vec![2]);
    let _ = partial.add_(c, &mut ctx);
    let input_again = ctx.input.as_ref().expect("input stays designated");
    assert_eq!(input_again.slot, Some(0));
    assert_eq!(input_again.data, vec![1, 2]);
}

#[test]
fn sealing_without_operations_fails() {
    let mut ctx = ExecutionContext::<i32>::new(one_device());
    let mut lonely = Tensor::new(vec![1, 2, 3], vec![3]);
    let err = lonely.get_data(&mut ctx).unwrap_err();
    assert_eq!(err, NnError::NoOperationsApplied);
    // the buffer is untouched on failure
    assert_eq!(lonely.data, vec![1, 2, 3]);
}

#[test]
fn sealing_without_operations_fails_at_compile_too() {
    let mut ctx = ExecutionContext::<i32>::new(one_device());
    let lonely = Tensor::new(vec![1, 2, 3], vec![3]);
    let err = match lonely.compile_compute_pipeline(&mut ctx) {
        Ok(_) => panic!("sealing an empty graph must fail"),
        Err(e) => e,
    };
    assert_eq!(err, NnError::NoOperationsApplied);
}

#[test]
fn compiling_with_empty_device_set_fails() {
    let mut ctx = ExecutionContext::<i32>::new(Vec::new());
    let a = Tensor::new(vec![1, 2], vec![2]);
    let b = Tensor::new(vec![3, 4], vec![2]);
    let mut output = a.add_(b, &mut ctx);
    let err = output.get_data(&mut ctx).unwrap_err();
    assert_eq!(err, NnError::EmptyDeviceSet);
}

#[test]
fn get_data_twice_yields_the_same_result() {
    let mut ctx = ExecutionContext::<i32>::new(one_device());
    let a = Tensor::new(vec![10, 20, 30], vec![3]);
    let b = Tensor::new(vec![1, 2, 3], vec![3]);
    let mut output = a.add_(b, &mut ctx);

    let first = output.get_data(&mut ctx).unwrap();
    let second = output.get_data(&mut ctx).unwrap();
    assert_eq!(first, vec![11, 22, 33]);
    assert_eq!(first, second);
}

#[test]
fn one_shot_compute_matches_burst_compute() {
    let mut ctx = ExecutionContext::<i32>::new(one_device());
    let a = Tensor::new(vec![2, 4], vec![2]);
    let b = Tensor::new(vec![1, 1], vec![2]);
    let mut output = a.add_(b, &mut ctx);

    let compilation = output.compile_compute_pipeline(&mut ctx).unwrap();
    output.compute_as_output(&ctx, &compilation);
    assert_eq!(output.data, vec![3, 5]);

    let mut other_buffer = Tensor::new(vec![0, 0], vec![2]);
    let mut burst = Burst::new(&compilation);
    other_buffer.burst_compute_as_output(&ctx, &compilation, &mut burst);
    assert_eq!(other_buffer.data, vec![3, 5]);
    // the burst handle is reusable
    other_buffer.burst_compute_as_output(&ctx, &compilation, &mut burst);
    assert_eq!(other_buffer.data, vec![3, 5]);
}

#[test]
fn addition_wraps_on_overflow() {
    let mut ctx = ExecutionContext::<i32>::new(one_device());
    let a = Tensor::new(vec![i32::MAX], vec![1]);
    let b = Tensor::new(vec![1], vec![1]);
    let mut output = a.add_(b, &mut ctx);
    let data = output.get_data(&mut ctx).unwrap();
    assert_eq!(data, vec![i32::MIN]);
}

#[test]
fn matmul_contracts_higher_rank_shapes() {
    let mut ctx = ExecutionContext::<i32>::new(one_device());
    let lhs = Tensor::new(vec![1; 6], vec![1, 2, 3]);
    let rhs = Tensor::new(vec![1; 6], vec![3, 2]);
    let mut output = lhs.matmul(rhs, &mut ctx);
    assert_eq!(output.operand.dimensions, vec![1, 2, 2]);
    let data = output.get_data(&mut ctx).unwrap();
    assert_eq!(data, vec![3, 3, 3, 3]);
}

#[test]
fn add_then_matmul_chain() {
    let mut ctx = ExecutionContext::<i32>::new(one_device());
    let a = Tensor::new(vec![1, 2, 3, 4], vec![2, 2]);
    let b = Tensor::new(vec![5, 6, 7, 8], vec![2, 2]);
    let identity = Tensor::new(vec![1, 0, 0, 1], vec![2, 2]);

    let summed = a.add_(b, &mut ctx);
    let mut output = summed.matmul(identity, &mut ctx);
    assert_eq!(output.operand.dimensions, vec![2, 2]);

    let data = output.get_data(&mut ctx).unwrap();
    assert_eq!(data, vec![6, 8, 10, 12]);
}

#[test]
fn leaf_tensor_carries_descriptor_data_and_no_slot() {
    let t = Tensor::<i32>::new(vec![7, 8, 9, 10, 11, 12], vec![2, 3]);
    assert_eq!(t.operand.kind, OperandKind::Tensor(Dtype::Int32));
    assert_eq!(t.operand.dimensions, vec![2, 3]);
    assert_eq!(t.data, vec![7, 8, 9, 10, 11, 12]);
    assert_eq!(t.slot, None);
}

#[test]
fn matmul_registers_four_slots_and_bool_flags() {
    let mut ctx = ExecutionContext::<i32>::new(one_device());
    let lhs = Tensor::new(vec![1, 2], vec![1, 2]);
    let rhs = Tensor::new(vec![3, 4], vec![2, 1]);
    let output = lhs.matmul(rhs, &mut ctx);
    // lhs, rhs, two transpose flags, output: slots 0..=4
    assert_eq!(ctx.operand_count, 4);
    assert_eq!(ctx.graph.operands.len(), 5);
    assert_eq!(ctx.graph.operands[2].kind, OperandKind::BoolScalar);
    assert_eq!(ctx.graph.operands[3].kind, OperandKind::BoolScalar);
    assert_eq!(ctx.graph.operations[0].opcode, OpCode::BatchMatMul);
    assert_eq!(ctx.graph.operations[0].inputs, vec![0, 1, 2, 3]);
    assert_eq!(ctx.graph.operations[0].outputs, vec![4]);
    assert_eq!(output.slot, Some(4));
    assert_eq!(output.operand.dimensions, vec![1, 1]);
    assert_eq!(output.data, vec![0]);
}

#[test]
fn constants_are_bound_to_fresh_slots() {
    let mut ctx = ExecutionContext::<i32>::new(one_device());
    let a = Tensor::new(vec![1, 2, 3], vec![3]);
    let b = Tensor::new(vec![4, 4, 7], vec![3]);
    let _ = a.add_(b, &mut ctx);
    // the input slot stays unbound: its data is supplied at execution time
    assert!(matches!(ctx.graph.values[0], OperandValue::Unbound));
    // the right operand's slot carries its data as a constant
    assert!(matches!(&ctx.graph.values[1], OperandValue::TensorValue(d) if d == &vec![4, 4, 7]));
    // the activation slot is bound to "no fused activation"
    assert!(matches!(ctx.graph.values[2], OperandValue::ActivationValue(v) if v == FUSED_NONE));
    // the output slot stays unbound: the compute pass produces it
    assert!(matches!(ctx.graph.values[3], OperandValue::Unbound));
}

#[test]
fn sealing_identifies_input_and_output_slots() {
    let mut ctx = ExecutionContext::<i32>::new(one_device());
    let a = Tensor::new(vec![1, 2], vec![2]);
    let b = Tensor::new(vec![3, 4], vec![2]);
    let c = Tensor::new(vec![5, 6], vec![2]);
    let mut output = a.add_(b, &mut ctx).add_(c, &mut ctx);
    assert!(!ctx.graph.finished);
    assert_eq!(ctx.graph.io, None);

    output.get_data(&mut ctx).unwrap();
    assert!(ctx.graph.finished);
    assert_eq!(ctx.graph.io, Some((0, 6)));
}
