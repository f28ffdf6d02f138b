#include <metal_stdlib>
using namespace metal;

struct SumAxisParams {
    uint rows;
    uint cols;
    uint axis;
};

// Axis 0: dest[j] = sum of column j; axis 1: dest[i] = sum of row i. One thread per output element.
template <typename T>
kernel void sum_axis(device const T* a [[buffer(0)]], device T* dest [[buffer(1)]],
                     constant SumAxisParams& p [[buffer(2)]], uint id [[thread_position_in_grid]]) {
    T sum = T(0);
    if (p.axis == 0) {
        if (id >= p.cols) {
            return;
        }
        for (uint i = 0; i < p.rows; i++) {
            sum += a[i * p.cols + id];
        }
    } else {
        if (id >= p.rows) {
            return;
        }
        for (uint j = 0; j < p.cols; j++) {
            sum += a[id * p.cols + j];
        }
    }
    dest[id] = sum;
}

template [[host_name("sum_axis_f32")]] kernel void sum_axis<float>(device const float*, device float*, constant SumAxisParams&, uint);
template [[host_name("sum_axis_i32")]] kernel void sum_axis<int>(device const int*, device int*, constant SumAxisParams&, uint);
template [[host_name("sum_axis_i16")]] kernel void sum_axis<short>(device const short*, device short*, constant SumAxisParams&, uint);
