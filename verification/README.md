# jhtensor

A small tensor library: tensors of `f32`, `i32` or `i16` elements with up to eight dimensions,
and the operations a training loop needs first — matrix product (with an optional ReLU),
element-wise addition, subtraction and multiplication, transposition, sums over an axis and
broadcasting of a vector. Operations run on a backend; the library ships a CPU backend and the
launch planning for a Metal GPU backend.

Layout:

- `src/` — the library, verified with Verus. `src/tensor/tensor.rs` holds `Tensor` and the shape
  and type checks of every operation; `cpu_backend.rs` and `kernels.rs` the CPU kernels;
  `model.rs` the mathematical meaning of each operation; `laws.rs` properties that relate the
  operations (transposing twice, sums of transposes, the transpose of a product, and more);
  `metal_plan.rs` the kernel parameters and thread-group sizes of the GPU kernels.
- `app/` — the program: the Metal backend (macOS only), the host backend's `f32` arithmetic,
  and `main`.
- `extras/shaders/` — the Metal compute kernels that the GPU backend compiles at run time.
- `tests/` — tests of the library.

Integer arithmetic is exact: the operations that add or multiply integer elements ask that
every result, and every running sum on the way to it, fit the element type. The library's
`elementwise_in_range`, `matmul_in_range` and `sum_axis_in_range` decide exactly that condition;
the host backend in `app/` calls them and stops with an overflow error when it fails. `f32` elements travel through the
library as their bit patterns; the library moves them (transposition, broadcasting) but leaves
their arithmetic to the host backend in `app/` and to the GPU.

The `Backend` trait's contracts bind only backends that describe their buffers to the verifier
(`CPUBackend` does); a backend written outside the library, such as the Metal backend or the
host backend in `app/`, is neither bound nor described by them.
