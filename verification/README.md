# renderer

A Vulkan rendering backend whose decisions are verified with Verus.

The driver calls themselves are `unsafe` FFI and stay in `app/`; the choices
the renderer makes around them are in `src/`, stated over plain values (raw
Vulkan enum values, handles as `u64`, names as strings) and proved:

- `src/vulkan/`: GPU classification and video-memory size, instance layer and
  extension selection, the logical device's queues and extensions, the
  swapchain's format, present mode, image count, extent and sharing, how the
  per-image objects are created and laid out, and the backend over the enumerated GPUs.
  `ash_api.rs` and `std_api.rs` hold the trusted wrappers around `ash` and std.
- `src/ash_renderer/`: the renderer's settings, frame pacing over the frames in
  flight and the order in which the renderer's objects are destroyed.
- `src/renderer.rs`: the validation-only instance of the minimal renderer.
- `src/window_loop.rs`: what each window event leads to.
- `app/`: the window, the event loops and the Vulkan calls, made as the library
  plans them.
