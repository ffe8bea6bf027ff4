# hip_rocm

Host-side logic of a HIP/ROCm GPU runtime and of a tensor backend built on
it, verified with Verus.

- `src/` is the verified library. It never calls the GPU driver: functions
  take what a driver call answered (a status code, the runtime's text for
  it, the handle or value it wrote) and decide the outcome, or compute a
  plan (which kernel, which launch geometry, which offsets and sizes, or a
  fall back through host memory) that the caller executes. The contracts
  state these decisions and plans over spec functions; the laws that span
  several functions (byte round trips of host tensors, the split of a
  reduction, the coverage of launch grids, the row-major reading of a
  column-major product, ...) are public proof functions named `law_*`.
- `app/` is ordinary Rust around the library: the declarations of the HIP,
  rocBLAS and compiler interfaces, the owned device resources with their
  `Drop` impls, the kernel launches, and the error types with `Display`.
- `tests/` runs the library on the answers a driver gives.

The only outside crate is `half`, whose `bf16` byte codec the library calls
through two trusted wrappers in `src/half_bits.rs`.
