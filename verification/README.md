# creek

A small engine framework: audio, governing, graphics, I/O and scripts each sit behind
a facade that forwards to a backend chosen by name, plus a developer console and
window abstractions.

- `src/` is the library, verified with Verus. Besides the facades and the backends that
  need no device, it holds the decisions of the Vulkan/winit backend (memory type,
  swapchain settings, queue family, the steps of a frame and of a command submission,
  SPIR-V and texture data), the sound registry of the rodio backend, the console's
  line handling and the window states. Lua scripting runs through `mlua`.
- `app/` holds what talks to the machine: the rodio backend, the Vulkan device work and
  the winit event loop, the desktop window, the console's terminal loop, and the
  floating-point matrix code.
- `tests/` exercises the library on concrete values.
