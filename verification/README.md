# vknew

A Vulkan front end that runs on WebGPU. Vulkan calls are recorded and
replayed on a `wgpu` device.

- `src/` is the verified library (Verus): identifier generation, the
  per-instance and per-device tables behind every Vulkan handle, command
  recording and the replay plan, the entry point name tables, and the format,
  alpha-mode and usage conversions. Its contracts are stated over an abstract
  model of each table (`InstanceModel`, `DeviceModel`).
- `app/` is the unverified shell: the `extern "system"` entry points, raw
  pointer handling, the heap objects behind instance and command buffer
  handles, and the `wgpu` calls that carry out a replay plan.
- `tests/` runs the library on concrete values.
