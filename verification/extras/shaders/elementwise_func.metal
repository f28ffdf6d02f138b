#include <metal_stdlib>
using namespace metal;

// One thread per element.
template <typename T>
kernel void add_arrays(device const T* a [[buffer(0)]], device const T* b [[buffer(1)]], device T* dest [[buffer(2)]],
                       uint id [[thread_position_in_grid]]) {
    dest[id] = a[id] + b[id];
}

template <typename T>
kernel void mul_arrays(device const T* a [[buffer(0)]], device const T* b [[buffer(1)]], device T* dest [[buffer(2)]],
                       uint id [[thread_position_in_grid]]) {
    dest[id] = a[id] * b[id];
}

template <typename T>
kernel void sub_arrays(device const T* a [[buffer(0)]], device const T* b [[buffer(1)]], device T* dest [[buffer(2)]],
                       uint id [[thread_position_in_grid]]) {
    dest[id] = a[id] - b[id];
}

template [[host_name("add_arrays_f32")]] kernel void add_arrays<float>(device const float*, device const float*, device float*, uint);
template [[host_name("add_arrays_i32")]] kernel void add_arrays<int>(device const int*, device const int*, device int*, uint);
template [[host_name("add_arrays_i16")]] kernel void add_arrays<short>(device const short*, device const short*, device short*, uint);
template [[host_name("mul_arrays_f32")]] kernel void mul_arrays<float>(device const float*, device const float*, device float*, uint);
template [[host_name("mul_arrays_i32")]] kernel void mul_arrays<int>(device const int*, device const int*, device int*, uint);
template [[host_name("mul_arrays_i16")]] kernel void mul_arrays<short>(device const short*, device const short*, device short*, uint);
template [[host_name("sub_arrays_f32")]] kernel void sub_arrays<float>(device const float*, device const float*, device float*, uint);
template [[host_name("sub_arrays_i32")]] kernel void sub_arrays<int>(device const int*, device const int*, device int*, uint);
template [[host_name("sub_arrays_i16")]] kernel void sub_arrays<short>(device const short*, device const short*, device short*, uint);
