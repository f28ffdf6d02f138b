#include <metal_stdlib>
using namespace metal;

struct BroadcastParams {
    uint rows;
    uint cols;
    uint axis;
};

// Axis 1: row i of dest is filled with a[i]; axis 0: every row of dest is a copy of a.
template <typename T>
kernel void broadcast(device const T* a [[buffer(0)]], device T* dest [[buffer(1)]],
                      constant BroadcastParams& p [[buffer(2)]], uint2 gid [[thread_position_in_grid]]) {
    uint row = gid.y;
    uint col = gid.x;
    if (row >= p.rows || col >= p.cols) {
        return;
    }
    dest[row * p.cols + col] = (p.axis == 1) ? a[row] : a[col];
}

template [[host_name("broadcast_f32")]] kernel void broadcast<float>(device const float*, device float*, constant BroadcastParams&, uint2);
template [[host_name("broadcast_i32")]] kernel void broadcast<int>(device const int*, device int*, constant BroadcastParams&, uint2);
template [[host_name("broadcast_i16")]] kernel void broadcast<short>(device const short*, device short*, constant BroadcastParams&, uint2);
