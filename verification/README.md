# triangle

A Vulkan renderer that opens a window and draws one triangle, split into a
verified library and a thin program around it.

- `src/` is the library, verified with Verus. It holds the renderer's
  decisions: the API version to request (`version`), the instance
  and surface message (`instance`), the GPU and queue family search
  (`device_select`), the swapchain configuration (`swapchain`), reading
  SPIR-V shader code (`spirv`), the image views, barriers, pipeline,
  shader stages, command pool, queue and synchronization objects and
  per-frame commands (`commands`), and the renderer's state: the plan of one
  view per swapchain image, what setting up stored, and the per-frame state
  machine that orders waiting, acquiring, recording, submitting and
  presenting (`app`). The clear colour, viewport depths, line width and
  queue priority are floating-point values that the program supplies. `vk` holds the raw Vulkan enum and flag values used.
- `app/` is the program: winit window and event loop, and every `ash` call
  into the Vulkan driver, carried out as the library decides. It reads the
  compiled shader from `shader.spv` (or the file named by
  `TRIANGLE_SHADER_SPV`).
- `tests/` runs the library on concrete values, and ties the constants in
  `vk` to the values `ash` defines.
