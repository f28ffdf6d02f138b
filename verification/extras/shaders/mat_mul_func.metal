#include <metal_stdlib>
using namespace metal;

struct MatMulParams {
    uint m;
    uint n;
    uint k;
    uint activation;
};

// dest (m x n) = activation(a (m x k) * b (k x n)); one thread per output cell.
template <typename T>
kernel void mat_mul(device const T* a [[buffer(0)]],
                    device const T* b [[buffer(1)]],
                    device T* dest [[buffer(2)]],
                    constant MatMulParams& p [[buffer(3)]],
                    uint2 gid [[thread_position_in_grid]]) {
    uint row = gid.y;
    uint col = gid.x;
    if (row >= p.m || col >= p.n) {
        return;
    }
    T sum = T(0);
    for (uint t = 0; t < p.k; t++) {
        sum += a[row * p.k + t] * b[t * p.n + col];
    }
    if (p.activation == 1) {
        sum = max(sum, T(0));
    }
    dest[row * p.n + col] = sum;
}

template [[host_name("mat_mul_f32")]] kernel void mat_mul<float>(device const float*, device const float*, device float*, constant MatMulParams&, uint2);
template [[host_name("mat_mul_i32")]] kernel void mat_mul<int>(device const int*, device const int*, device int*, constant MatMulParams&, uint2);
template [[host_name("mat_mul_i16")]] kernel void mat_mul<short>(device const short*, device const short*, device short*, constant MatMulParams&, uint2);
