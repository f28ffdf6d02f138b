#include <metal_stdlib>
using namespace metal;

struct TransposeParams {
    uint rows;
    uint cols;
};

// dest (cols x rows) = transpose of a (rows x cols); one thread per input cell.
template <typename T>
kernel void transpose(device const T* a [[buffer(0)]], device T* dest [[buffer(1)]],
                      constant TransposeParams& p [[buffer(2)]], uint2 gid [[thread_position_in_grid]]) {
    uint row = gid.y;
    uint col = gid.x;
    if (row >= p.rows || col >= p.cols) {
        return;
    }
    dest[col * p.rows + row] = a[row * p.cols + col];
}

template [[host_name("transpose_f32")]] kernel void transpose<float>(device const float*, device float*, constant TransposeParams&, uint2);
template [[host_name("transpose_i32")]] kernel void transpose<int>(device const int*, device int*, constant TransposeParams&, uint2);
template [[host_name("transpose_i16")]] kernel void transpose<short>(device const short*, device short*, constant TransposeParams&, uint2);
