pub mod tensor;
