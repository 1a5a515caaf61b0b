pub mod add;
pub mod matmul;
