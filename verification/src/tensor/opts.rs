use vstd::prelude::*;

verus! {

/// Activation applied to each output element of a matrix multiplication.
#[derive(Debug, Clone, Copy, PartialEq, Eq, Structural)]
pub enum Activation {
    Linear,
    ReLU,
}

impl Activation {
    /// The flag value that the GPU kernels read for this activation.
    pub fn to_shader_flag(&self) -> (flag: u32)
        ensures
            flag == (match *self {
                Activation::Linear => 0u32,
                Activation::ReLU => 1u32,
            }),
    {
        match self {
            Activation::Linear => 0,
            Activation::ReLU => 1,
        }
    }
}

} // verus!
